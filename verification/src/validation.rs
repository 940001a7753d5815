//! The constraints declared on request fields, and the checks that collect
//! every violation of them.

use validator::ValidateEmail;
use validator::ValidateLength;
use vstd::prelude::*;

verus! {

/// A request field that carries a declared constraint.
#[derive(Clone, Copy, Debug, PartialEq, Eq, Structural)]
pub enum Field {
    Email,
    TemplateId,
    Description,
}

/// A declared constraint, as the reason of a violation.
#[derive(Clone, Copy, Debug, PartialEq, Eq, Structural)]
pub enum Constraint {
    /// The text must be an email address.
    Email,
    /// The text must have between `min` and `max` characters, both included.
    Length { min: u64, max: u64 },
}

/// One violated constraint: the field and the reason.
#[derive(Clone, Copy, Debug, PartialEq, Eq, Structural)]
pub struct FieldError {
    pub field: Field,
    pub constraint: Constraint,
}

/// The fewest characters of a mail template's identifier.
pub const TEMPLATE_ID_MIN: u64 = 1;

/// The most characters of a mail template's identifier.
pub const TEMPLATE_ID_MAX: u64 = 64;

/// The fewest characters of a todo's description.
pub const DESCRIPTION_MIN: u64 = 1;

/// The most characters of a todo's description.
pub const DESCRIPTION_MAX: u64 = 100;

/// What `validator::ValidateEmail::validate_email` answers for a text:
/// whether it is an email address by the HTML5 syntax that the crate checks.
pub uninterp spec fn is_email(text: Seq<char>) -> bool;

/// Whether `text` has between `min` and `max` characters, both included.
pub open spec fn length_within(text: Seq<char>, min: u64, max: u64) -> bool {
    min <= text.len() <= max
}

/// Calls `validator::ValidateEmail::validate_email` on the text. The
/// contract gives the answer its name and repeats the one fact that the
/// crate's check opens with: a text without `@` is no email address.
#[verifier::external_body]
fn check_email(text: &str) -> (ok: bool)
    ensures
        ok == is_email(text@),
        !text@.contains('@') ==> !ok,
{
    text.validate_email()
}

/// Calls `validator::ValidateLength::validate_length` on the text with both
/// bounds and no exact length. The crate counts the characters of a string
/// and accepts a count from `min` to `max`.
#[verifier::external_body]
fn check_length(text: &str, min: u64, max: u64) -> (ok: bool)
    ensures
        ok == length_within(text@, min, max),
{
    text.validate_length(Some(min), Some(max), None)
}

impl Field {
    /// The name of the field in requests and in error payloads.
    pub open spec fn spec_name(self) -> Seq<char> {
        match self {
            Field::Email => "email"@,
            Field::TemplateId => "template_id"@,
            Field::Description => "description"@,
        }
    }

    /// The name of the field in requests and in error payloads.
    pub fn name(&self) -> (name: &'static str)
        ensures
            name@ == self.spec_name(),
    {
        match self {
            Field::Email => "email",
            Field::TemplateId => "template_id",
            Field::Description => "description",
        }
    }
}

/// The violation that an email field reports.
pub open spec fn email_error() -> FieldError {
    FieldError { field: Field::Email, constraint: Constraint::Email }
}

/// The violation that a template identifier reports.
pub open spec fn template_id_error() -> FieldError {
    FieldError {
        field: Field::TemplateId,
        constraint: Constraint::Length { min: TEMPLATE_ID_MIN, max: TEMPLATE_ID_MAX },
    }
}

/// The violation that a description reports.
pub open spec fn description_error() -> FieldError {
    FieldError {
        field: Field::Description,
        constraint: Constraint::Length { min: DESCRIPTION_MIN, max: DESCRIPTION_MAX },
    }
}

/// Every constraint that a mail request violates, in the order of its
/// fields: the email first, then the template identifier.
pub open spec fn send_mail_violations(email: Seq<char>, template_id: Seq<char>) -> Seq<FieldError> {
    let of_email = if is_email(email) {
        Seq::<FieldError>::empty()
    } else {
        seq![email_error()]
    };
    let of_template_id = if length_within(template_id, TEMPLATE_ID_MIN, TEMPLATE_ID_MAX) {
        Seq::<FieldError>::empty()
    } else {
        seq![template_id_error()]
    };
    of_email + of_template_id
}

/// Every constraint that a request for a new todo violates.
pub open spec fn add_todo_violations(description: Seq<char>) -> Seq<FieldError> {
    if length_within(description, DESCRIPTION_MIN, DESCRIPTION_MAX) {
        Seq::<FieldError>::empty()
    } else {
        seq![description_error()]
    }
}

/// Checks both fields of a mail request and reports every violation, not
/// only the first.
pub fn validate_send_mail(email: &str, template_id: &str) -> (errors: Vec<FieldError>)
    ensures
        errors@ == send_mail_violations(email@, template_id@),
        !email@.contains('@') ==> errors@.len() > 0 && errors@[0] == email_error(),
{
    let mut errors: Vec<FieldError> = Vec::new();
    if !check_email(email) {
        errors.push(FieldError { field: Field::Email, constraint: Constraint::Email });
    }
    if !check_length(template_id, TEMPLATE_ID_MIN, TEMPLATE_ID_MAX) {
        errors.push(
            FieldError {
                field: Field::TemplateId,
                constraint: Constraint::Length { min: TEMPLATE_ID_MIN, max: TEMPLATE_ID_MAX },
            },
        );
    }
    errors
}

/// Checks the description of a new todo and reports its violation, if any.
pub fn validate_add_todo(description: &str) -> (errors: Vec<FieldError>)
    ensures
        errors@ == add_todo_violations(description@),
{
    let mut errors: Vec<FieldError> = Vec::new();
    if !check_length(description, DESCRIPTION_MIN, DESCRIPTION_MAX) {
        errors.push(
            FieldError {
                field: Field::Description,
                constraint: Constraint::Length { min: DESCRIPTION_MIN, max: DESCRIPTION_MAX },
            },
        );
    }
    errors
}

} // verus!
