//! The uniform response envelope and the renderer that every outcome goes
//! through.

use crate::validation::FieldError;
use vstd::prelude::*;

verus! {

/// Who is at fault for a failed request.
#[derive(Clone, Copy, Debug, PartialEq, Eq, Structural)]
pub enum ErrorClass {
    /// The request was at fault: a status in the 4xx range.
    Client,
    /// The service was at fault: a status in the 5xx range.
    Server,
}

/// A failure that the controller returned. The layer neither interprets
/// nor retries it.
#[derive(Debug, PartialEq, Eq)]
pub struct ControllerError {
    /// The controller's message, passed on as it is.
    pub message: String,
    /// The class that the controller chose, if it chose one.
    pub class: Option<ErrorClass>,
}

/// A controller failure as a mathematical value.
pub ghost struct ControllerErrorView {
    pub message: Seq<char>,
    pub class: Option<ErrorClass>,
}

impl View for ControllerError {
    type V = ControllerErrorView;

    open spec fn view(&self) -> ControllerErrorView {
        ControllerErrorView { message: self.message@, class: self.class }
    }
}

/// Why a request failed. A violated constraint and a request that cannot
/// be read are told apart here, and both leave in the same envelope.
#[derive(Debug, PartialEq, Eq)]
pub enum RequestError {
    /// One or more declared constraints failed. The list holds every
    /// violation and is never empty where the layer built it.
    Validation(Vec<FieldError>),
    /// The request could not be read: a field that must hold an identifier
    /// holds something else.
    Malformed,
    /// The controller returned a failure.
    Controller(ControllerError),
}

/// A request error as a mathematical value.
pub ghost enum RequestErrorView {
    Validation(Seq<FieldError>),
    Malformed,
    Controller(ControllerErrorView),
}

impl View for RequestError {
    type V = RequestErrorView;

    open spec fn view(&self) -> RequestErrorView {
        match self {
            RequestError::Validation(errors) => RequestErrorView::Validation(errors@),
            RequestError::Malformed => RequestErrorView::Malformed,
            RequestError::Controller(error) => RequestErrorView::Controller(error@),
        }
    }
}

/// The one external form of every outcome: a success with its payload, or
/// a failure with its error. A value is never both.
#[derive(Debug, PartialEq, Eq)]
pub enum ResponseEnvelope {
    Success { payload: String },
    Failure { error: RequestError },
}

/// An envelope as a mathematical value.
pub ghost enum EnvelopeView {
    Success { payload: Seq<char> },
    Failure { error: RequestErrorView },
}

impl View for ResponseEnvelope {
    type V = EnvelopeView;

    open spec fn view(&self) -> EnvelopeView {
        match self {
            ResponseEnvelope::Success { payload } => EnvelopeView::Success { payload: payload@ },
            ResponseEnvelope::Failure { error } => EnvelopeView::Failure { error: error@ },
        }
    }
}

/// The status of a success.
pub const STATUS_OK: u16 = 200;

/// The status of a failure that the request caused.
pub const STATUS_BAD_REQUEST: u16 = 400;

/// The status of a failure that the service caused.
pub const STATUS_INTERNAL_ERROR: u16 = 500;

impl RequestErrorView {
    /// The class of an error: the request is at fault for a violated
    /// constraint and for a request that cannot be read; the service is at
    /// fault for a controller failure, unless the controller says otherwise.
    pub open spec fn class(self) -> ErrorClass {
        match self {
            RequestErrorView::Validation(_) => ErrorClass::Client,
            RequestErrorView::Malformed => ErrorClass::Client,
            RequestErrorView::Controller(error) => match error.class {
                Some(class) => class,
                None => ErrorClass::Server,
            },
        }
    }
}

impl ErrorClass {
    /// The HTTP status of a failure of this class.
    pub open spec fn status(self) -> u16 {
        match self {
            ErrorClass::Client => STATUS_BAD_REQUEST,
            ErrorClass::Server => STATUS_INTERNAL_ERROR,
        }
    }
}

impl EnvelopeView {
    /// The HTTP status that goes with the envelope: 200 for a success, and
    /// for a failure the status of its error's class.
    pub open spec fn status(self) -> u16 {
        match self {
            EnvelopeView::Success { .. } => STATUS_OK,
            EnvelopeView::Failure { error } => error.class().status(),
        }
    }
}

/// The envelope of an outcome: a success carries the payload, a failure
/// carries the error.
pub open spec fn rendered(outcome: Result<Seq<char>, RequestErrorView>) -> EnvelopeView {
    match outcome {
        Ok(payload) => EnvelopeView::Success { payload },
        Err(error) => EnvelopeView::Failure { error },
    }
}

/// An outcome as a mathematical value.
pub open spec fn outcome_view(outcome: Result<String, RequestError>) -> Result<
    Seq<char>,
    RequestErrorView,
> {
    match outcome {
        Ok(payload) => Ok(payload@),
        Err(error) => Err(error@),
    }
}

impl RequestError {
    /// The class of the error.
    pub fn class(&self) -> (class: ErrorClass)
        ensures
            class == self@.class(),
    {
        match self {
            RequestError::Validation(_) => ErrorClass::Client,
            RequestError::Malformed => ErrorClass::Client,
            RequestError::Controller(error) => match error.class {
                Some(class) => class,
                None => ErrorClass::Server,
            },
        }
    }
}

impl ResponseEnvelope {
    /// The HTTP status that goes with the envelope: 200 for a success, 400
    /// or 500 for a failure, by the class of its error.
    pub fn status(&self) -> (code: u16)
        ensures
            code == self@.status(),
            code == STATUS_OK <==> self@ is Success,
    {
        match self {
            ResponseEnvelope::Success { .. } => STATUS_OK,
            ResponseEnvelope::Failure { error } => match error.class() {
                ErrorClass::Client => STATUS_BAD_REQUEST,
                ErrorClass::Server => STATUS_INTERNAL_ERROR,
            },
        }
    }
}

/// Renders an outcome into the envelope. Every handler's answer goes
/// through here, so that all operations share one form.
pub fn render(outcome: Result<String, RequestError>) -> (envelope: ResponseEnvelope)
    ensures
        envelope@ == rendered(outcome_view(outcome)),
        envelope@ is Success <==> outcome is Ok,
{
    match outcome {
        Ok(payload) => ResponseEnvelope::Success { payload },
        Err(error) => ResponseEnvelope::Failure { error },
    }
}

} // verus!
