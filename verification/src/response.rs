//! The response envelope handed back for every request, and the
//! mapping from the error taxonomy onto it.

use vstd::prelude::*;
use crate::error::Error;

verus! {

/// Where a rejected field stood in the request.
#[derive(Debug, Clone, Copy, PartialEq, Eq, Structural)]
pub enum ErrorLocation {
    Body,
    Header,
    Path,
}

/// The envelope's outcome class; the HTTP status code mirrors it.
#[derive(Debug, Clone, Copy, PartialEq, Eq, Structural)]
pub enum ResponseStatus {
    Success,
    Failure,
}

/// One rejected request field.
#[derive(Debug, PartialEq, Eq, Clone)]
pub struct ErrorField {
    pub field: String,
    pub description: String,
    pub location: ErrorLocation,
}

/// One named error in a failure envelope.
#[derive(Debug, PartialEq, Eq, Clone)]
pub struct ResponseError {
    pub name: String,
    pub message: String,
}

/// The response envelope: the outcome class, the HTTP status code that
/// conveys it, and, on failure, the errors and rejected fields.
#[derive(Debug, PartialEq, Eq, Clone)]
pub struct Response {
    pub status: ResponseStatus,
    pub status_code: u16,
    pub errors: Option<Vec<ResponseError>>,
    pub fields: Option<Vec<ErrorField>>,
}

impl Response {
    pub fn new_success(status: u16) -> (r: Response)
        ensures
            r.status == ResponseStatus::Success,
            r.status_code == status,
            r.errors is None,
            r.fields is None,
    {
        Response { status: ResponseStatus::Success, status_code: status, errors: None, fields: None }
    }

    pub fn new_failure(status: u16, errors: Vec<ResponseError>, fields: Vec<ErrorField>) -> (r:
        Response)
        ensures
            r.status == ResponseStatus::Failure,
            r.status_code == status,
            r.errors == Some(errors),
            r.fields == Some(fields),
    {
        Response {
            status: ResponseStatus::Failure,
            status_code: status,
            errors: Some(errors),
            fields: Some(fields),
        }
    }

    /// The failure envelope for one core error: its status code and its
    /// one named error.
    pub fn from_error(e: &Error) -> (r: Response)
        ensures
            r.status == ResponseStatus::Failure,
            r.status_code == e.spec_status_code(),
            (r.errors matches Some(v) && v@.len() == 1 && v@[0].name@ == e.spec_name()),
            (r.fields matches Some(f) && f@.len() == 0),
    {
        let mut errors: Vec<ResponseError> = Vec::new();
        errors.push(ResponseError { name: e.name(), message: e.name() });
        Response::new_failure(e.status_code(), errors, Vec::new())
    }
}

impl Default for Response {
    /// The default envelope: plain success with status 200.
    fn default() -> (r: Self)
        ensures
            r.status == ResponseStatus::Success,
            r.status_code == 200,
            r.errors is None,
            r.fields is None,
    {
        Response::new_success(200)
    }
}

} // verus!
