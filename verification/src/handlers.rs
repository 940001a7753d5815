//! The four operations. Each has a handler, which decides from the request
//! alone what happens next, and a response function, which renders what the
//! controller returned.

use crate::envelope::{
    render, rendered, ControllerError, EnvelopeView, RequestError, RequestErrorView,
    ResponseEnvelope, STATUS_BAD_REQUEST, STATUS_INTERNAL_ERROR, STATUS_OK,
};
use crate::identifier::{
    hyphenated, is_hyphenated_form, lemma_hyphenated_form, parsed_uuid, TodoIdentifier,
};
use crate::validation::{
    add_todo_violations, description_error, email_error, is_email, send_mail_violations,
    template_id_error, validate_add_todo, validate_send_mail, FieldError,
};
use vstd::prelude::*;
use vstd::string::StringExecFns;

verus! {

/// One operation of the controller, with the arguments it is called with.
#[derive(Debug, PartialEq, Eq)]
pub enum ControllerCall {
    /// `todo_info()`, which returns a text and changes nothing.
    TodoInfo,
    /// `send_mail(email, template_id)`, which may fail.
    SendMail { email: String, template_id: String },
    /// `add_todo(description)`, which returns the new identifier.
    AddTodo { description: String },
    /// `complete_todo(id)`, which may fail.
    CompleteTodo { id: TodoIdentifier },
}

/// A controller call as a mathematical value.
pub ghost enum CallView {
    TodoInfo,
    SendMail { email: Seq<char>, template_id: Seq<char> },
    AddTodo { description: Seq<char> },
    CompleteTodo { id: TodoIdentifier },
}

impl View for ControllerCall {
    type V = CallView;

    open spec fn view(&self) -> CallView {
        match self {
            ControllerCall::TodoInfo => CallView::TodoInfo,
            ControllerCall::SendMail { email, template_id } => CallView::SendMail {
                email: email@,
                template_id: template_id@,
            },
            ControllerCall::AddTodo { description } => CallView::AddTodo {
                description: description@,
            },
            ControllerCall::CompleteTodo { id } => CallView::CompleteTodo { id: *id },
        }
    }
}

impl CallView {
    /// Whether the call changes anything outside the layer. Only the read
    /// of the info text does not.
    pub open spec fn has_side_effect(self) -> bool {
        !(self is TodoInfo)
    }
}

/// What a handler decides: the request is either answered at once, and the
/// controller is not called, or it leads to exactly one controller call.
#[derive(Debug, PartialEq, Eq)]
pub enum Step {
    Call(ControllerCall),
    Respond(ResponseEnvelope),
}

/// A step as a mathematical value.
pub ghost enum StepView {
    Call(CallView),
    Respond(EnvelopeView),
}

impl View for Step {
    type V = StepView;

    open spec fn view(&self) -> StepView {
        match self {
            Step::Call(call) => StepView::Call(call@),
            Step::Respond(envelope) => StepView::Respond(envelope@),
        }
    }
}

/// The payload of a successful mail request.
pub open spec fn mail_sent_payload() -> Seq<char> {
    "Mail sent"@
}

/// The payload of a successful completion.
pub open spec fn completed_payload() -> Seq<char> {
    "Todo completed"@
}

/// The payload that reports the info text.
pub open spec fn info_payload(info: Seq<char>) -> Seq<char> {
    "Todo info: "@ + info
}

/// The payload that reports a new todo: the prefix and the canonical text
/// of its identifier.
pub open spec fn added_payload(id: TodoIdentifier) -> Seq<char> {
    "Todo added: "@ + hyphenated(id.value)
}

/// The step of a request that stops at validation.
pub open spec fn rejected(errors: Seq<FieldError>) -> StepView {
    StepView::Respond(rendered(Err(RequestErrorView::Validation(errors))))
}

/// What the info handler decides: always the read of the info text.
pub open spec fn info_step() -> StepView {
    StepView::Call(CallView::TodoInfo)
}

/// What the mail handler decides: the call with both fields as they came
/// where no constraint is violated, else the envelope that lists every
/// violation.
pub open spec fn send_mail_step(email: Seq<char>, template_id: Seq<char>) -> StepView {
    let errors = send_mail_violations(email, template_id);
    if errors.len() == 0 {
        StepView::Call(CallView::SendMail { email, template_id })
    } else {
        rejected(errors)
    }
}

/// What the handler for a new todo decides: the call with the description
/// as it came where its length is accepted, else the envelope that lists
/// the violation.
pub open spec fn add_todo_step(description: Seq<char>) -> StepView {
    let errors = add_todo_violations(description);
    if errors.len() == 0 {
        StepView::Call(CallView::AddTodo { description })
    } else {
        rejected(errors)
    }
}

/// What the completion handler decides: the call with the identifier that
/// the text denotes, else the envelope of a request that cannot be read.
pub open spec fn complete_todo_step(id: Seq<char>) -> StepView {
    match TodoIdentifier::spec_parse(id) {
        Some(id) => StepView::Call(CallView::CompleteTodo { id }),
        None => StepView::Respond(rendered(Err(RequestErrorView::Malformed))),
    }
}

/// The envelope of an operation that returns nothing: the fixed payload
/// where the controller succeeded, its failure where it failed.
pub open spec fn unit_response(
    payload: Seq<char>,
    outcome: Result<(), ControllerError>,
) -> EnvelopeView {
    match outcome {
        Ok(_) => rendered(Ok(payload)),
        Err(error) => rendered(Err(RequestErrorView::Controller(error@))),
    }
}

/// Handles a request for the info text. Nothing is validated.
pub fn info() -> (step: Step)
    ensures
        step@ == info_step(),
{
    Step::Call(ControllerCall::TodoInfo)
}

/// Renders the info text that the controller returned.
pub fn info_response(info: &str) -> (envelope: ResponseEnvelope)
    ensures
        envelope@ == (EnvelopeView::Success { payload: info_payload(info@) }),
{
    let payload = String::from_str("Todo info: ").concat(info);
    render(Ok(payload))
}

/// Handles a request to send a mail. Both fields are checked before
/// anything else happens.
pub fn send_mail(email: String, template_id: String) -> (step: Step)
    ensures
        step@ == send_mail_step(email@, template_id@),
        !email@.contains('@') ==> lists_violation(step@, email_error()),
{
    let errors = validate_send_mail(email.as_str(), template_id.as_str());
    if errors.len() == 0 {
        Step::Call(ControllerCall::SendMail { email, template_id })
    } else {
        Step::Respond(render(Err(RequestError::Validation(errors))))
    }
}

/// Renders the outcome of a mail request.
pub fn send_mail_response(outcome: Result<(), ControllerError>) -> (envelope: ResponseEnvelope)
    ensures
        envelope@ == unit_response(mail_sent_payload(), outcome),
{
    match outcome {
        Ok(_) => render(Ok(String::from_str("Mail sent"))),
        Err(error) => render(Err(RequestError::Controller(error))),
    }
}

/// Handles a request for a new todo. The description is checked before
/// anything else happens.
pub fn add_todo(description: String) -> (step: Step)
    ensures
        step@ == add_todo_step(description@),
{
    let errors = validate_add_todo(description.as_str());
    if errors.len() == 0 {
        Step::Call(ControllerCall::AddTodo { description })
    } else {
        Step::Respond(render(Err(RequestError::Validation(errors))))
    }
}

/// Renders the identifier that the controller gave the new todo. The text
/// of the identifier in the payload is one that `complete_todo` reads, as
/// the same identifier.
pub fn add_todo_response(id: TodoIdentifier) -> (envelope: ResponseEnvelope)
    ensures
        envelope@ == (EnvelopeView::Success { payload: added_payload(id) }),
        complete_todo_step(hyphenated(id.value)) == StepView::Call(CallView::CompleteTodo { id }),
{
    let text = id.to_text();
    let payload = String::from_str("Todo added: ").concat(text.as_str());
    render(Ok(payload))
}

/// Handles a request to complete a todo. The identifier is read from its
/// text; nothing else is checked.
pub fn complete_todo(id: &str) -> (step: Step)
    ensures
        step@ == complete_todo_step(id@),
{
    match TodoIdentifier::parse(id) {
        Some(id) => Step::Call(ControllerCall::CompleteTodo { id }),
        None => Step::Respond(render(Err(RequestError::Malformed))),
    }
}

/// Renders the outcome of a completion.
pub fn complete_todo_response(outcome: Result<(), ControllerError>) -> (envelope:
    ResponseEnvelope)
    ensures
        envelope@ == unit_response(completed_payload(), outcome),
{
    match outcome {
        Ok(_) => render(Ok(String::from_str("Todo completed"))),
        Err(error) => render(Err(RequestError::Controller(error))),
    }
}

/// Whether a step answers at once with a validation failure that lists
/// `error`: the controller is not called, the status is 400.
pub open spec fn lists_violation(step: StepView, error: FieldError) -> bool {
    &&& step matches StepView::Respond(
        EnvelopeView::Failure { error: RequestErrorView::Validation(errors) },
    )
    &&& errors.contains(error)
    &&& step->Respond_0.status() == STATUS_BAD_REQUEST
}

/// A description of 1 to 100 characters leads to the one call that adds
/// it, unchanged. A description of any other length is answered at once
/// with a validation failure that lists the description, and the
/// controller is not called. Whatever identifier the controller gives a new
/// todo, the response is a success with status 200 whose payload is the
/// prefix and then a text of the canonical shape of an identifier.
pub proof fn lemma_add_todo(description: Seq<char>, id: TodoIdentifier)
    ensures
        1 <= description.len() <= 100 ==> add_todo_step(description) == StepView::Call(
            CallView::AddTodo { description },
        ),
        description.len() == 0 || description.len() >= 101 ==> lists_violation(
            add_todo_step(description),
            description_error(),
        ),
        (EnvelopeView::Success { payload: added_payload(id) }).status() == STATUS_OK,
        added_payload(id) == "Todo added: "@ + hyphenated(id.value),
        is_hyphenated_form(hyphenated(id.value)),
{
    if description.len() == 0 || description.len() >= 101 {
        assert(add_todo_violations(description)[0] == description_error());
    }
    lemma_hyphenated_form(id.value);
}

/// A mail request whose email is no email address is answered at once with
/// a validation failure that lists the email, whatever the template
/// identifier is, and the controller is not called.
pub proof fn lemma_send_mail_email(email: Seq<char>, template_id: Seq<char>)
    ensures
        !is_email(email) ==> lists_violation(send_mail_step(email, template_id), email_error()),
{
    if !is_email(email) {
        let errors = send_mail_violations(email, template_id);
        assert(errors[0] == email_error());
    }
}

/// A mail request whose template identifier is empty or has 65 characters
/// or more is answered at once with a validation failure that lists the
/// template identifier, whatever the email is, and the controller is not
/// called.
pub proof fn lemma_send_mail_template_id(email: Seq<char>, template_id: Seq<char>)
    requires
        template_id.len() == 0 || template_id.len() >= 65,
    ensures
        lists_violation(send_mail_step(email, template_id), template_id_error()),
{
    let errors = send_mail_violations(email, template_id);
    assert(errors[errors.len() - 1] == template_id_error());
}

/// A mail request that violates nothing leads to the one call that sends
/// the mail, with both fields unchanged; a request that violates both
/// constraints is answered with both violations.
pub proof fn lemma_send_mail_collects(email: Seq<char>, template_id: Seq<char>)
    ensures
        is_email(email) && 1 <= template_id.len() <= 64 ==> send_mail_step(email, template_id)
            == StepView::Call(CallView::SendMail { email, template_id }),
        !is_email(email) && !(1 <= template_id.len() <= 64) ==> send_mail_step(email, template_id)
            == rejected(seq![email_error(), template_id_error()]),
{
    let errors = send_mail_violations(email, template_id);
    if !is_email(email) && !(1 <= template_id.len() <= 64) {
        assert(errors =~= seq![email_error(), template_id_error()]);
    }
}

/// A completion request whose text denotes no identifier is answered at
/// once as a request that cannot be read, with status 400, and the
/// controller is not called. A text that denotes an identifier leads to the
/// one call that completes that todo.
pub proof fn lemma_complete_todo(id: Seq<char>)
    ensures
        parsed_uuid(id) is None ==> complete_todo_step(id) == StepView::Respond(
            EnvelopeView::Failure { error: RequestErrorView::Malformed },
        ),
        parsed_uuid(id) is None ==> complete_todo_step(id)->Respond_0.status() == STATUS_BAD_REQUEST,
        parsed_uuid(id) matches Some(value) ==> complete_todo_step(id) == StepView::Call(
            CallView::CompleteTodo { id: TodoIdentifier { value } },
        ),
{
}

/// The info handler asks only for the read of the info text, which has no
/// side effect, and whatever text the controller returns, the response is
/// a success with status 200.
pub proof fn lemma_info(info: Seq<char>)
    ensures
        info_step() == StepView::Call(CallView::TodoInfo),
        !CallView::TodoInfo.has_side_effect(),
        (EnvelopeView::Success { payload: info_payload(info) }).status() == STATUS_OK,
{
}

/// The controller's judgment stands: where it succeeds the response is a
/// success with the fixed payload, where it fails the response is a
/// failure that carries its message unchanged, in the class it chose or,
/// where it chose none, as a fault of the service.
pub proof fn lemma_unit_response(payload: Seq<char>, outcome: Result<(), ControllerError>)
    ensures
        outcome is Ok ==> unit_response(payload, outcome) == (EnvelopeView::Success { payload }),
        outcome matches Err(error) ==> unit_response(payload, outcome) == (EnvelopeView::Failure {
            error: RequestErrorView::Controller(error@),
        }),
        outcome matches Err(error) ==> unit_response(payload, outcome).status() == (match error.class {
            Some(class) => class.status(),
            None => STATUS_INTERNAL_ERROR,
        }),
{
}

} // verus!
