use std::cell::RefCell;
use todo_rest::envelope::{ControllerError, ErrorClass, RequestError, ResponseEnvelope};
use todo_rest::handlers::{
    add_todo, add_todo_response, complete_todo, complete_todo_response, info, info_response,
    send_mail, send_mail_response, ControllerCall, Step,
};
use todo_rest::identifier::TodoIdentifier;
use todo_rest::router::{init, Method, Operation};
use todo_rest::validation::{Constraint, Field, FieldError};

fn email_error() -> FieldError {
    FieldError { field: Field::Email, constraint: Constraint::Email }
}

fn template_id_error() -> FieldError {
    FieldError { field: Field::TemplateId, constraint: Constraint::Length { min: 1, max: 64 } }
}

fn description_error() -> FieldError {
    FieldError { field: Field::Description, constraint: Constraint::Length { min: 1, max: 100 } }
}

fn rejected(errors: Vec<FieldError>) -> Step {
    Step::Respond(ResponseEnvelope::Failure { error: RequestError::Validation(errors) })
}

fn success(payload: &str) -> ResponseEnvelope {
    ResponseEnvelope::Success { payload: payload.to_string() }
}

/// A controller that counts its calls and remembers what it was given.
struct Stub {
    calls: RefCell<Vec<String>>,
    next_id: u128,
    known: RefCell<Vec<u128>>,
    mail_works: bool,
}

impl Stub {
    fn new() -> Stub {
        Stub {
            calls: RefCell::new(Vec::new()),
            next_id: 0x936da01f_9abd_4d9d_80c7_02af85c822a8,
            known: RefCell::new(Vec::new()),
            mail_works: true,
        }
    }

    fn count(&self) -> usize {
        self.calls.borrow().len()
    }

    /// Serves one request as the service does: the route gives the
    /// operation, the operation's handler gives the step, and `run` carries
    /// it out. `None` where no route matches.
    fn serve(&self, method: Method, path: &str, fields: &[(&str, &str)]) -> Option<ResponseEnvelope> {
        let field = |name: &str| {
            fields.iter().find(|(key, _)| *key == name).map(|(_, value)| value.to_string()).unwrap()
        };
        let scope = init(&std::sync::Arc::new(()), &std::sync::Arc::new(()));
        let step = match scope.resolve(method, path)? {
            Operation::GetInfo => info(),
            Operation::SendMail => send_mail(field("email"), field("template_id")),
            Operation::AddTodo => add_todo(field("description")),
            Operation::CompleteTodo => complete_todo(&field("id")),
        };
        Some(self.run(step))
    }

    /// Runs one request to its envelope: the handler's step, then, where it
    /// asks for one, the controller call and the response function.
    fn run(&self, step: Step) -> ResponseEnvelope {
        match step {
            Step::Respond(envelope) => envelope,
            Step::Call(ControllerCall::TodoInfo) => {
                self.calls.borrow_mut().push("todo_info".to_string());
                info_response("2 todos")
            }
            Step::Call(ControllerCall::SendMail { email, template_id }) => {
                self.calls.borrow_mut().push(format!("send_mail({}, {})", email, template_id));
                if self.mail_works {
                    send_mail_response(Ok(()))
                } else {
                    send_mail_response(Err(ControllerError {
                        message: "smtp down".to_string(),
                        class: None,
                    }))
                }
            }
            Step::Call(ControllerCall::AddTodo { description }) => {
                self.calls.borrow_mut().push(format!("add_todo({})", description));
                self.known.borrow_mut().push(self.next_id);
                add_todo_response(TodoIdentifier { value: self.next_id })
            }
            Step::Call(ControllerCall::CompleteTodo { id }) => {
                self.calls.borrow_mut().push(format!("complete_todo({:032x})", id.value));
                if self.known.borrow().contains(&id.value) {
                    complete_todo_response(Ok(()))
                } else {
                    complete_todo_response(Err(ControllerError {
                        message: "unknown id".to_string(),
                        class: Some(ErrorClass::Client),
                    }))
                }
            }
        }
    }
}

#[test]
fn info_asks_for_the_info_text() {
    assert_eq!(info(), Step::Call(ControllerCall::TodoInfo));
}

#[test]
fn info_response_reports_the_text() {
    assert_eq!(info_response("2 todos"), success("Todo info: 2 todos"));
    assert_eq!(info_response(""), success("Todo info: "));
    assert_eq!(info_response("2 todos").status(), 200);
}

#[test]
fn get_info_calls_only_the_read_and_answers_200() {
    let stub = Stub::new();
    let envelope = stub.run(info());
    assert_eq!(envelope.status(), 200);
    assert_eq!(envelope, success("Todo info: 2 todos"));
    assert_eq!(*stub.calls.borrow(), vec!["todo_info".to_string()]);
}

#[test]
fn send_mail_hands_both_fields_to_the_controller() {
    let step = send_mail("email@here.com".to_string(), "welcome".to_string());
    assert_eq!(
        step,
        Step::Call(ControllerCall::SendMail {
            email: "email@here.com".to_string(),
            template_id: "welcome".to_string(),
        })
    );
}

#[test]
fn send_mail_rejects_an_invalid_email_whatever_the_template_id() {
    for template_id in ["welcome", "w", ""] {
        let step = send_mail("not-an-email".to_string(), template_id.to_string());
        match step {
            Step::Respond(ResponseEnvelope::Failure {
                error: RequestError::Validation(errors),
            }) => assert!(errors.contains(&email_error())),
            other => panic!("unexpected step: {:?}", other),
        }
    }
}

#[test]
fn send_mail_rejects_a_template_id_of_length_0_or_65() {
    for email in ["email@here.com", "not-an-email"] {
        for template_id in [String::new(), "t".repeat(65), "t".repeat(200)] {
            match send_mail(email.to_string(), template_id) {
                Step::Respond(ResponseEnvelope::Failure {
                    error: RequestError::Validation(errors),
                }) => assert!(errors.contains(&template_id_error())),
                other => panic!("unexpected step: {:?}", other),
            }
        }
    }
}

#[test]
fn send_mail_accepts_a_template_id_of_length_1_and_64() {
    for template_id in ["t".to_string(), "t".repeat(64)] {
        let step = send_mail("email@here.com".to_string(), template_id.clone());
        assert_eq!(
            step,
            Step::Call(ControllerCall::SendMail {
                email: "email@here.com".to_string(),
                template_id,
            })
        );
    }
}

#[test]
fn send_mail_lists_every_violation() {
    let step = send_mail("not-an-email".to_string(), String::new());
    assert_eq!(step, rejected(vec![email_error(), template_id_error()]));
    let step = send_mail("not-an-email".to_string(), "welcome".to_string());
    assert_eq!(step, rejected(vec![email_error()]));
    let step = send_mail("email@here.com".to_string(), String::new());
    assert_eq!(step, rejected(vec![template_id_error()]));
}

#[test]
fn send_mail_response_reports_the_controllers_outcome() {
    assert_eq!(send_mail_response(Ok(())), success("Mail sent"));
    assert_eq!(send_mail_response(Ok(())).status(), 200);
    let failed = send_mail_response(Err(ControllerError {
        message: "smtp down".to_string(),
        class: None,
    }));
    assert_eq!(
        failed,
        ResponseEnvelope::Failure {
            error: RequestError::Controller(ControllerError {
                message: "smtp down".to_string(),
                class: None,
            }),
        }
    );
    assert_eq!(failed.status(), 500);
}

#[test]
fn add_todo_accepts_descriptions_of_1_to_100_characters() {
    for description in ["b".to_string(), "buy milk".to_string(), "d".repeat(100), "é".repeat(100)] {
        let step = add_todo(description.clone());
        assert_eq!(step, Step::Call(ControllerCall::AddTodo { description }));
    }
}

#[test]
fn add_todo_rejects_descriptions_of_0_or_101_characters() {
    for description in [String::new(), "d".repeat(101), "é".repeat(101), "d".repeat(5000)] {
        let stub = Stub::new();
        let step = add_todo(description);
        assert_eq!(step, rejected(vec![description_error()]));
        let envelope = stub.run(step);
        assert_eq!(envelope.status(), 400);
        assert_eq!(stub.count(), 0);
    }
}

#[test]
fn add_todo_response_reports_the_identifier() {
    let id = TodoIdentifier { value: 0xa1a2a3a4b1b2c1c2d1d2d3d4d5d6d7d8 };
    let envelope = add_todo_response(id);
    assert_eq!(envelope, success("Todo added: a1a2a3a4-b1b2-c1c2-d1d2-d3d4d5d6d7d8"));
    assert_eq!(envelope.status(), 200);
    assert_eq!(
        add_todo_response(TodoIdentifier { value: 0 }),
        success("Todo added: 00000000-0000-0000-0000-000000000000")
    );
}

#[test]
fn the_reported_identifier_is_one_that_complete_todo_reads() {
    for value in [0u128, 7, u128::MAX, 0x936da01f_9abd_4d9d_80c7_02af85c822a8] {
        let id = TodoIdentifier { value };
        let payload = match add_todo_response(id) {
            ResponseEnvelope::Success { payload } => payload,
            other => panic!("unexpected envelope: {:?}", other),
        };
        let text = payload.strip_prefix("Todo added: ").unwrap();
        assert_eq!(complete_todo(text), Step::Call(ControllerCall::CompleteTodo { id }));
    }
}

#[test]
fn complete_todo_hands_the_identifier_to_the_controller() {
    let step = complete_todo("936da01f-9abd-4d9d-80c7-02af85c822a8");
    assert_eq!(
        step,
        Step::Call(ControllerCall::CompleteTodo {
            id: TodoIdentifier { value: 0x936da01f_9abd_4d9d_80c7_02af85c822a8 },
        })
    );
}

#[test]
fn complete_todo_rejects_what_is_no_identifier_without_a_call() {
    for id in ["", "not-a-uuid", "42", "936da01f-9abd-4d9d-80c7-02af85c822a", "buy milk"] {
        let stub = Stub::new();
        let step = complete_todo(id);
        assert_eq!(
            step,
            Step::Respond(ResponseEnvelope::Failure { error: RequestError::Malformed })
        );
        let envelope = stub.run(step);
        assert_eq!(envelope.status(), 400);
        assert_eq!(stub.count(), 0);
    }
}

#[test]
fn complete_todo_response_reports_the_controllers_outcome() {
    assert_eq!(complete_todo_response(Ok(())), success("Todo completed"));
    assert_eq!(complete_todo_response(Ok(())).status(), 200);
    let failed = complete_todo_response(Err(ControllerError {
        message: "unknown id".to_string(),
        class: Some(ErrorClass::Client),
    }));
    assert_eq!(failed.status(), 400);
    match failed {
        ResponseEnvelope::Failure { error: RequestError::Controller(error) } => {
            assert_eq!(error.message, "unknown id")
        }
        other => panic!("unexpected envelope: {:?}", other),
    }
}

#[test]
fn a_todo_is_added_and_then_completed() {
    let stub = Stub::new();

    let added = stub.serve(Method::Post, "/todo/add", &[("description", "buy milk")]).unwrap();
    assert_eq!(added.status(), 200);
    let payload = match added {
        ResponseEnvelope::Success { payload } => payload,
        other => panic!("unexpected envelope: {:?}", other),
    };
    assert_eq!(payload, "Todo added: 936da01f-9abd-4d9d-80c7-02af85c822a8");
    let id = payload.strip_prefix("Todo added: ").unwrap();
    assert!(uuid::Uuid::parse_str(id).is_ok());

    let completed = stub.serve(Method::Post, "/todo/complete", &[("id", id)]).unwrap();
    assert_eq!(completed.status(), 200);
    assert_eq!(completed, success("Todo completed"));

    assert_eq!(
        *stub.calls.borrow(),
        vec![
            "add_todo(buy milk)".to_string(),
            "complete_todo(936da01f9abd4d9d80c702af85c822a8)".to_string(),
        ]
    );
}

#[test]
fn a_mail_to_what_is_no_email_is_never_sent() {
    let stub = Stub::new();
    let envelope = stub
        .serve(Method::Get, "/todo/send", &[("email", "not-an-email"), ("template_id", "welcome")])
        .unwrap();
    assert_eq!(envelope.status(), 400);
    match envelope {
        ResponseEnvelope::Failure { error: RequestError::Validation(errors) } => {
            assert_eq!(errors.len(), 1);
            assert_eq!(errors[0].field.name(), "email");
            assert_eq!(errors[0].constraint, Constraint::Email);
        }
        other => panic!("unexpected envelope: {:?}", other),
    }
    assert_eq!(stub.count(), 0);
}

#[test]
fn the_info_text_is_served() {
    let stub = Stub::new();
    let envelope = stub.serve(Method::Get, "/todo/info", &[]).unwrap();
    assert_eq!(envelope.status(), 200);
    assert_eq!(envelope, success("Todo info: 2 todos"));
    assert_eq!(stub.count(), 1);
}

#[test]
fn a_request_off_the_routes_is_not_served() {
    let stub = Stub::new();
    assert_eq!(stub.serve(Method::Get, "/todo/add", &[("description", "buy milk")]), None);
    assert_eq!(stub.serve(Method::Post, "/todo", &[]), None);
    assert_eq!(stub.count(), 0);
}

#[test]
fn a_valid_mail_request_calls_the_controller_once() {
    let stub = Stub::new();
    let envelope = stub.run(send_mail("email@here.com".to_string(), "welcome".to_string()));
    assert_eq!(envelope, success("Mail sent"));
    assert_eq!(*stub.calls.borrow(), vec!["send_mail(email@here.com, welcome)".to_string()]);
}

#[test]
fn a_failed_mail_surfaces_as_the_controllers_error() {
    let mut stub = Stub::new();
    stub.mail_works = false;
    let envelope = stub.run(send_mail("email@here.com".to_string(), "welcome".to_string()));
    assert_eq!(envelope.status(), 500);
    assert_eq!(stub.count(), 1);
}

#[test]
fn completing_an_unknown_todo_is_the_controllers_judgment() {
    let stub = Stub::new();
    let envelope = stub.run(complete_todo("00000000-0000-0000-0000-000000000001"));
    assert_eq!(envelope.status(), 400);
    assert_eq!(stub.count(), 1);
}

#[test]
fn adding_the_same_description_twice_calls_the_controller_twice() {
    let stub = Stub::new();
    stub.run(add_todo("buy milk".to_string()));
    stub.run(add_todo("buy milk".to_string()));
    assert_eq!(stub.count(), 2);
}
