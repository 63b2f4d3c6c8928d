//! The uniform response envelope `{code, message, data}` used for success
//! and error alike. `code` 200 marks success (or a recoverable business-rule
//! rejection travelling with it); -1, or a caller-supplied code, marks a
//! hard error. This two-tier status model is independent of the transport
//! status code.

use vstd::prelude::*;
use vstd::string::*;

use crate::errors::{message_of, status_of, ApiError};

verus! {

/// The response envelope. `data` is omitted from the wire when absent.
#[derive(Debug, Clone, PartialEq, Eq)]
pub struct ApiResponse<T> {
    pub code: i32,
    pub message: String,
    pub data: Option<T>,
}

impl<T> ApiResponse<T> {
    /// An envelope with every field chosen by the caller.
    pub fn new(code: i32, message: String, data: Option<T>) -> (r: ApiResponse<T>)
        ensures
            r.code == code,
            r.message@ == message@,
            r.data == data,
    {
        ApiResponse { code, message, data }
    }

    /// Success with a custom message and optional data.
    pub fn ok(message: &str, data: Option<T>) -> (r: ApiResponse<T>)
        ensures
            r.code == 200,
            r.message@ == message@,
            r.data == data,
    {
        ApiResponse { code: 200, message: String::from_str(message), data }
    }

    /// Success carrying data, with the default message.
    pub fn success(data: T) -> (r: ApiResponse<T>)
        ensures
            r.code == 200,
            r.message@ == "success"@,
            r.data == Some(data),
    {
        ApiResponse { code: 200, message: String::from_str("success"), data: Some(data) }
    }

    /// Success without data, with the default message.
    pub fn success_no_data() -> (r: ApiResponse<T>)
        ensures
            r.code == 200,
            r.message@ == "success"@,
            r.data is None,
    {
        ApiResponse { code: 200, message: String::from_str("success"), data: None }
    }

    /// Success without data, with a custom message.
    pub fn success_with_msg(message: &str) -> (r: ApiResponse<T>)
        ensures
            r.code == 200,
            r.message@ == message@,
            r.data is None,
    {
        ApiResponse { code: 200, message: String::from_str(message), data: None }
    }

    /// A hard error with the default error code.
    pub fn err(message: &str) -> (r: ApiResponse<T>)
        ensures
            r.code == -1,
            r.message@ == message@,
            r.data is None,
    {
        ApiResponse { code: -1, message: String::from_str(message), data: None }
    }

    /// A hard error with a caller-supplied code.
    pub fn err_with_code(code: i32, message: &str) -> (r: ApiResponse<T>)
        ensures
            r.code == code,
            r.message@ == message@,
            r.data is None,
    {
        ApiResponse { code, message: String::from_str(message), data: None }
    }
}

impl ApiError {
    /// How a failure leaves the system: its fixed transport status, and the
    /// error envelope rendering its message, with no data.
    pub fn to_envelope(&self) -> (r: (u16, ApiResponse<()>))
        ensures
            r.0 == status_of(*self),
            r.1.code == -1,
            r.1.message@ == message_of(*self),
            r.1.data is None,
    {
        let status = self.status_code();
        let message = self.message();
        (status, ApiResponse { code: -1, message, data: None })
    }
}

} // verus!
