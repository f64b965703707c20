//! The response envelope every endpoint answers with.

use vstd::prelude::*;

verus! {

/// Whether a response reports success or an error.
#[derive(Debug, Clone, Copy, PartialEq, Eq, Structural, Hash)]
pub enum ResponseStatus {
    Success,
    Error,
}

/// A successful response: payload plus an optional metadata block.
#[derive(Debug, Clone)]
pub struct SuccessResponse<T, M> {
    pub status: ResponseStatus,
    pub code: u16,
    pub data: T,
    pub metadata: Option<M>,
}

/// An error response: a status code from the error taxonomy and a message.
#[derive(Debug, Clone)]
pub struct ErrorResponse {
    pub status: ResponseStatus,
    pub code: u16,
    pub message: String,
}

/// Either kind of response.
#[derive(Debug, Clone)]
pub enum Response<T, M> {
    Success(SuccessResponse<T, M>),
    Error(ErrorResponse),
}

/// The metadata block of a listing response: how many records matched in
/// all, before pagination.
#[derive(Debug, Clone, Copy, PartialEq, Eq, Structural, Hash)]
pub struct MetadataSize {
    pub size: u64,
}

/// Builds the error envelope for a status code and message.
pub fn create_error(code: u16, message: String) -> (r: ErrorResponse)
    ensures
        r.status == ResponseStatus::Error,
        r.code == code,
        r.message == message,
{
    ErrorResponse { status: ResponseStatus::Error, code, message }
}

} // verus!
