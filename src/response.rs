//! The envelope that every API endpoint answers with, and the errors a
//! request to the API can end in.

use vstd::prelude::*;
use vstd::string::StringExecFns;

verus! {

/// The envelope's `status`: `Success` is written `ok` on the wire, and
/// `Failure` is written `err`.
#[derive(Clone, Copy, Debug, PartialEq, Eq, Structural)]
pub enum Status {
    Success,
    Failure,
}

/// An envelope with a payload of type `T`.
#[derive(Debug)]
pub struct Response<T> {
    pub status: Status,
    pub payload: Option<T>,
    pub msg: Option<String>,
}

/// An envelope with no payload.
#[derive(Debug)]
pub struct EmptyResponse {
    pub status: Status,
    pub msg: Option<String>,
}

/// Why a request to the API failed.
#[derive(Debug, PartialEq, Eq)]
pub enum ResponseErrorKind {
    /// The API was reached and answered `err`, with its message if it gave
    /// one.
    BadResponse(Option<String>),
    /// The API could not be reached, or its answer could not be read.
    RequestFailed,
}

/// A failed request: its kind, and the message of what caused it.
#[derive(Debug)]
pub struct ResponseError {
    pub kind: ResponseErrorKind,
    pub cause: Option<String>,
}

impl ResponseError {
    /// A request that could not reach the API, or whose answer could not be
    /// read, for the reason `cause`.
    pub fn request_failed(cause: Option<String>) -> (r: ResponseError)
        ensures
            r.kind == ResponseErrorKind::RequestFailed,
            r.cause == cause,
    {
        ResponseError { kind: ResponseErrorKind::RequestFailed, cause }
    }

    /// Whether the API was reached and answered `err`.
    pub fn is_bad_response(&self) -> (r: bool)
        ensures
            r == (self.kind is BadResponse),
    {
        match self.kind {
            ResponseErrorKind::BadResponse(_) => true,
            ResponseErrorKind::RequestFailed => false,
        }
    }

    /// The error's message: the API's own message where it gave one.
    pub fn to_string(&self) -> (r: String)
        ensures
            r@ == (match self.kind {
                ResponseErrorKind::BadResponse(Some(m)) => m@,
                ResponseErrorKind::BadResponse(None) => "the API returned an error"@,
                ResponseErrorKind::RequestFailed => "could not reach the API"@,
            }),
    {
        match &self.kind {
            ResponseErrorKind::BadResponse(Some(m)) => m.clone(),
            ResponseErrorKind::BadResponse(None) => String::from_str("the API returned an error"),
            ResponseErrorKind::RequestFailed => String::from_str("could not reach the API"),
        }
    }
}

impl<T> Response<T> {
    /// Whether the envelope is complete: an `ok` envelope carries a payload.
    pub open spec fn well_formed(&self) -> bool {
        self.status == Status::Success ==> self.payload is Some
    }

    /// The payload of an `ok` envelope, or a `BadResponse` error with the
    /// envelope's message.
    pub fn into_result(self) -> (r: Result<T, ResponseError>)
        requires
            self.well_formed(),
        ensures
            match self.status {
                Status::Success => r == Ok::<T, ResponseError>(self.payload->Some_0),
                Status::Failure => r matches Err(e) && e.kind == ResponseErrorKind::BadResponse(self.msg) && e.cause is None,
            },
    {
        match self.status {
            Status::Success => match self.payload {
                Some(p) => Ok(p),
                None => Err(ResponseError { kind: ResponseErrorKind::BadResponse(self.msg), cause: None }),
            },
            Status::Failure => Err(ResponseError { kind: ResponseErrorKind::BadResponse(self.msg), cause: None }),
        }
    }
}

impl EmptyResponse {
    /// Nothing for an `ok` envelope, or a `BadResponse` error with the
    /// envelope's message.
    pub fn into_result(self) -> (r: Result<(), ResponseError>)
        ensures
            match self.status {
                Status::Success => r is Ok,
                Status::Failure => r matches Err(e) && e.kind == ResponseErrorKind::BadResponse(self.msg) && e.cause is None,
            },
    {
        match self.status {
            Status::Success => Ok(()),
            Status::Failure => Err(ResponseError { kind: ResponseErrorKind::BadResponse(self.msg), cause: None }),
        }
    }
}

} // verus!
