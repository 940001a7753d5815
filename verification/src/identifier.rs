//! Todo identifiers: 128-bit values and their canonical text.

use vstd::prelude::*;

verus! {

/// A 128-bit universally unique identifier of one todo item.
///
/// The layer never looks inside it: it is read from a request or received
/// from the controller, and passed on.
#[derive(Clone, Copy, Debug, PartialEq, Eq, Structural)]
pub struct TodoIdentifier {
    pub value: u128,
}

#[verifier::external_type_specification]
#[verifier::external_body]
pub struct ExUuidError(uuid::Error);

/// What `uuid::Uuid::parse_str` makes of a text: the 128-bit value of the
/// identifier it reads, or `None` where it rejects the text.
pub uninterp spec fn parsed_uuid(text: Seq<char>) -> Option<u128>;

/// Sixteen to the power `exponent`.
pub open spec fn sixteen_to(exponent: nat) -> int
    decreases exponent,
{
    if exponent == 0 {
        1
    } else {
        16 * sixteen_to((exponent - 1) as nat)
    }
}

/// The `k`-th of the 32 hexadecimal digits of `value`, most significant first.
pub open spec fn nibble(value: u128, k: int) -> int {
    (value as int / sixteen_to((31 - k) as nat)) % 16
}

/// The lower-case character of a hexadecimal digit.
pub open spec fn hex_char(digit: int) -> char {
    seq!['0', '1', '2', '3', '4', '5', '6', '7', '8', '9', 'a', 'b', 'c', 'd', 'e', 'f'][digit]
}

/// Whether the canonical text has a hyphen at `position`.
pub open spec fn is_hyphen_position(position: int) -> bool {
    position == 8 || position == 13 || position == 18 || position == 23
}

/// How many hyphens the canonical text has before `position`.
pub open spec fn hyphens_before(position: int) -> int {
    if position <= 8 {
        0
    } else if position <= 13 {
        1
    } else if position <= 18 {
        2
    } else if position <= 23 {
        3
    } else {
        4
    }
}

/// The canonical text of an identifier: its 32 lower-case hexadecimal
/// digits, most significant first, in groups of 8, 4, 4, 4 and 12 that
/// hyphens separate.
pub open spec fn hyphenated(value: u128) -> Seq<char> {
    Seq::new(
        36,
        |i: int|
            if is_hyphen_position(i) {
                '-'
            } else {
                hex_char(nibble(value, i - hyphens_before(i)))
            },
    )
}

/// Whether `c` is a hexadecimal digit, in either case.
pub open spec fn is_hex_digit(c: char) -> bool {
    ('0' <= c && c <= '9') || ('a' <= c && c <= 'f') || ('A' <= c && c <= 'F')
}

/// Whether `text` has the shape of a canonical identifier: 36 characters,
/// hyphens after the groups, hexadecimal digits everywhere else.
pub open spec fn is_hyphenated_form(text: Seq<char>) -> bool {
    &&& text.len() == 36
    &&& forall|i: int|
        0 <= i < 36 ==> if is_hyphen_position(i) {
            #[trigger] text[i] == '-'
        } else {
            is_hex_digit(text[i])
        }
}

/// The canonical text of every identifier has the canonical shape.
pub proof fn lemma_hyphenated_form(value: u128)
    ensures
        is_hyphenated_form(hyphenated(value)),
{
    assert forall|i: int| 0 <= i < 36 implies if is_hyphen_position(i) {
        #[trigger] hyphenated(value)[i] == '-'
    } else {
        is_hex_digit(hyphenated(value)[i])
    } by {
        if !is_hyphen_position(i) {
            let digit: int = nibble(value, i - hyphens_before(i));
            assert(0 <= digit < 16);
            assert(is_hex_digit(hex_char(digit)));
        }
    }
}

/// Calls `uuid::Uuid::parse_str` and hands out the value of the identifier
/// read, by `Uuid::as_u128`. The contract gives the outcome its name: `Ok`
/// with the named value where the parser accepts, `Err` where it rejects.
#[verifier::external_body]
fn parse_uuid(text: &str) -> (r: Result<u128, uuid::Error>)
    ensures
        r is Ok <==> parsed_uuid(text@) is Some,
        r matches Ok(value) ==> parsed_uuid(text@) == Some(value),
{
    match uuid::Uuid::parse_str(text) {
        Ok(id) => Ok(id.as_u128()),
        Err(e) => Err(e),
    }
}

/// Formats `uuid::Uuid::from_u128(value)` through its `Display`, which
/// writes the hyphenated lower-case form. The contract claims that exact
/// text, and that `uuid::Uuid::parse_str` reads the same value back from it.
#[verifier::external_body]
fn format_uuid(value: u128) -> (text: String)
    ensures
        text@ == hyphenated(value),
        parsed_uuid(text@) == Some(value),
{
    uuid::Uuid::from_u128(value).to_string()
}

impl TodoIdentifier {
    /// The identifier that `text` denotes, if it denotes one.
    pub open spec fn spec_parse(text: Seq<char>) -> Option<TodoIdentifier> {
        match parsed_uuid(text) {
            Some(value) => Some(TodoIdentifier { value }),
            None => None,
        }
    }

    /// Reads an identifier from its text. All forms that the `uuid` crate
    /// reads are accepted; any other text gives `None`.
    pub fn parse(text: &str) -> (r: Option<TodoIdentifier>)
        ensures
            r == Self::spec_parse(text@),
    {
        match parse_uuid(text) {
            Ok(value) => Some(TodoIdentifier { value }),
            Err(_) => None,
        }
    }

    /// The canonical text of the identifier, which `parse` reads back.
    pub fn to_text(&self) -> (text: String)
        ensures
            text@ == hyphenated(self.value),
            is_hyphenated_form(text@),
            Self::spec_parse(text@) == Some(*self),
    {
        proof {
            lemma_hyphenated_form(self.value);
        }
        format_uuid(self.value)
    }
}

} // verus!
