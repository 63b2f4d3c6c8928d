//! The canonical error taxonomy: one closed set of kinds that classifies
//! whatever goes wrong with a request, a fixed table reading backend status
//! codes into it, and the transport status each kind renders with.
//!
//! A business-rule rejection deliberately travels with the success transport
//! status: the envelope's own code field carries the real signal, so clients
//! can tell "refused by policy" from "the system is broken".

use vstd::prelude::*;
use vstd::string::*;

verus! {

/// The closed failure taxonomy. Each kind carries at most a human-readable
/// message; transport-specific detail is derived, never stored.
#[derive(Debug, Clone, PartialEq, Eq)]
pub enum ApiError {
    /// Operation understood but refused by a business rule.
    Biz(String),
    /// Resource absent.
    NotFound,
    /// Operation unsupported on this route.
    MethodNotAllowed,
    /// Missing, invalid or expired credential.
    Unauthenticated(String),
    /// Malformed or rule-violating input.
    ValidationError(String),
    /// Unexpected failure, including unknown RPC codes.
    InternalServerError,
}

/// The fixed transport status of each kind.
pub open spec fn status_of(e: ApiError) -> u16 {
    match e {
        ApiError::Biz(_) => 200,
        ApiError::NotFound => 404,
        ApiError::MethodNotAllowed => 405,
        ApiError::Unauthenticated(_) => 401,
        ApiError::ValidationError(_) => 400,
        ApiError::InternalServerError => 500,
    }
}

/// The user-facing rendering of each kind.
pub open spec fn message_of(e: ApiError) -> Seq<char> {
    match e {
        ApiError::Biz(m) => m@,
        ApiError::NotFound => "\u{6ca1}\u{627e}\u{5230}\u{ff01}"@,
        ApiError::MethodNotAllowed => "\u{65b9}\u{6cd5}\u{4e0d}\u{652f}\u{6301}\u{ff01}"@,
        ApiError::Unauthenticated(m) => "\u{5c1a}\u{672a}\u{6388}\u{6743}\u{ff1a}"@ + m@,
        ApiError::ValidationError(m) => "\u{53c2}\u{6570}\u{6821}\u{9a8c}\u{5931}\u{8d25}\u{ff1a}"@
            + m@,
        ApiError::InternalServerError => "\u{670d}\u{52a1}\u{7aef}\u{9519}\u{8bef}\u{ff01}"@,
    }
}

impl ApiError {
    /// The transport status this kind always renders with.
    pub fn status_code(&self) -> (r: u16)
        ensures
            r == status_of(*self),
    {
        match self {
            ApiError::Biz(_) => 200,
            ApiError::NotFound => 404,
            ApiError::MethodNotAllowed => 405,
            ApiError::Unauthenticated(_) => 401,
            ApiError::ValidationError(_) => 400,
            ApiError::InternalServerError => 500,
        }
    }

    /// The user-facing message of this kind.
    pub fn message(&self) -> (r: String)
        ensures
            r@ == message_of(*self),
    {
        match self {
            ApiError::Biz(m) => m.clone(),
            ApiError::NotFound => String::from_str("没找到！"),
            ApiError::MethodNotAllowed => String::from_str("方法不支持！"),
            ApiError::Unauthenticated(m) => {
                let mut out = String::from_str("尚未授权：");
                out.append(m.as_str());
                out
            },
            ApiError::ValidationError(m) => {
                let mut out = String::from_str("参数校验失败：");
                out.append(m.as_str());
                out
            },
            ApiError::InternalServerError => String::from_str("服务端错误！"),
        }
    }
}

/// The standard RPC status space.
#[derive(Debug, Clone, Copy, PartialEq, Eq, Structural)]
pub enum RpcCode {
    Success,
    Cancelled,
    Unknown,
    InvalidArgument,
    DeadlineExceeded,
    NotFound,
    AlreadyExists,
    PermissionDenied,
    ResourceExhausted,
    FailedPrecondition,
    Aborted,
    OutOfRange,
    Unimplemented,
    Internal,
    Unavailable,
    DataLoss,
    Unauthenticated,
}

/// The standard numbering of the RPC status space; integers outside it are
/// read as `Unknown`.
pub open spec fn code_of_i32(n: i32) -> RpcCode {
    if n == 0 {
        RpcCode::Success
    } else if n == 1 {
        RpcCode::Cancelled
    } else if n == 3 {
        RpcCode::InvalidArgument
    } else if n == 4 {
        RpcCode::DeadlineExceeded
    } else if n == 5 {
        RpcCode::NotFound
    } else if n == 6 {
        RpcCode::AlreadyExists
    } else if n == 7 {
        RpcCode::PermissionDenied
    } else if n == 8 {
        RpcCode::ResourceExhausted
    } else if n == 9 {
        RpcCode::FailedPrecondition
    } else if n == 10 {
        RpcCode::Aborted
    } else if n == 11 {
        RpcCode::OutOfRange
    } else if n == 12 {
        RpcCode::Unimplemented
    } else if n == 13 {
        RpcCode::Internal
    } else if n == 14 {
        RpcCode::Unavailable
    } else if n == 15 {
        RpcCode::DataLoss
    } else if n == 16 {
        RpcCode::Unauthenticated
    } else {
        RpcCode::Unknown
    }
}

impl RpcCode {
    /// Reads a wire integer as a status code, with everything outside the
    /// standard space read as `Unknown`.
    pub fn from_i32(n: i32) -> (r: RpcCode)
        ensures
            r == code_of_i32(n),
    {
        match n {
            0 => RpcCode::Success,
            1 => RpcCode::Cancelled,
            3 => RpcCode::InvalidArgument,
            4 => RpcCode::DeadlineExceeded,
            5 => RpcCode::NotFound,
            6 => RpcCode::AlreadyExists,
            7 => RpcCode::PermissionDenied,
            8 => RpcCode::ResourceExhausted,
            9 => RpcCode::FailedPrecondition,
            10 => RpcCode::Aborted,
            11 => RpcCode::OutOfRange,
            12 => RpcCode::Unimplemented,
            13 => RpcCode::Internal,
            14 => RpcCode::Unavailable,
            15 => RpcCode::DataLoss,
            16 => RpcCode::Unauthenticated,
            _ => RpcCode::Unknown,
        }
    }

    /// The standard wire integer of this code.
    pub fn as_i32(&self) -> (r: i32)
        ensures
            code_of_i32(r) == *self,
            0 <= r <= 16,
    {
        match self {
            RpcCode::Success => 0,
            RpcCode::Cancelled => 1,
            RpcCode::Unknown => 2,
            RpcCode::InvalidArgument => 3,
            RpcCode::DeadlineExceeded => 4,
            RpcCode::NotFound => 5,
            RpcCode::AlreadyExists => 6,
            RpcCode::PermissionDenied => 7,
            RpcCode::ResourceExhausted => 8,
            RpcCode::FailedPrecondition => 9,
            RpcCode::Aborted => 10,
            RpcCode::OutOfRange => 11,
            RpcCode::Unimplemented => 12,
            RpcCode::Internal => 13,
            RpcCode::Unavailable => 14,
            RpcCode::DataLoss => 15,
            RpcCode::Unauthenticated => 16,
        }
    }
}

/// An RPC outcome as the translator sees it: a status code and the message
/// the backend attached.
#[derive(Debug, Clone, PartialEq, Eq)]
pub struct RpcFailure {
    pub code: RpcCode,
    pub message: String,
}

impl RpcFailure {
    pub fn new(code: RpcCode, message: String) -> (r: RpcFailure)
        ensures
            r.code == code,
            r.message@ == message@,
    {
        RpcFailure { code, message }
    }
}

/// The fixed translation table from RPC status codes to error kinds:
/// which results `r` the translation of `(code, msg)` admits.
pub open spec fn rpc_translation(code: RpcCode, msg: Seq<char>, r: ApiError) -> bool {
    match code {
        RpcCode::NotFound => r == ApiError::NotFound,
        RpcCode::InvalidArgument | RpcCode::AlreadyExists | RpcCode::FailedPrecondition
            | RpcCode::OutOfRange => r matches ApiError::ValidationError(m) && m@ == msg,
        RpcCode::Unauthenticated | RpcCode::PermissionDenied => r matches ApiError::Unauthenticated(
            m,
        ) && m@ == msg,
        RpcCode::Unimplemented => r == ApiError::MethodNotAllowed,
        _ => r == ApiError::InternalServerError,
    }
}

impl ApiError {
    /// Translates an RPC failure through the fixed table. Exhaustive over
    /// the status space: unmapped codes land in the internal-error bucket,
    /// never propagating raw backend detail.
    pub fn from_rpc(failure: RpcFailure) -> (r: ApiError)
        ensures
            rpc_translation(failure.code, failure.message@, r),
    {
        match failure.code {
            RpcCode::NotFound => ApiError::NotFound,
            RpcCode::InvalidArgument => ApiError::ValidationError(failure.message),
            RpcCode::AlreadyExists => ApiError::ValidationError(failure.message),
            RpcCode::FailedPrecondition => ApiError::ValidationError(failure.message),
            RpcCode::OutOfRange => ApiError::ValidationError(failure.message),
            RpcCode::Unauthenticated => ApiError::Unauthenticated(failure.message),
            RpcCode::PermissionDenied => ApiError::Unauthenticated(failure.message),
            RpcCode::Unimplemented => ApiError::MethodNotAllowed,
            _ => ApiError::InternalServerError,
        }
    }
}

/// The translation is a function: any two results the table admits for one
/// code and message render identically, so every RPC status code maps to
/// exactly one error kind.
pub proof fn lemma_translation_functional(code: RpcCode, msg: Seq<char>, r1: ApiError, r2: ApiError)
    requires
        rpc_translation(code, msg, r1),
        rpc_translation(code, msg, r2),
    ensures
        status_of(r1) == status_of(r2),
        message_of(r1) == message_of(r2),
{
}

/// Integers outside the standard status space are read as `Unknown`, and
/// `Unknown` translates to the internal-error kind: unmapped and future
/// codes cannot leak backend detail.
pub proof fn lemma_unmapped_codes_fall_to_internal(n: i32, msg: Seq<char>, r: ApiError)
    requires
        !(0 <= n <= 16),
        rpc_translation(code_of_i32(n), msg, r),
    ensures
        code_of_i32(n) == RpcCode::Unknown,
        r == ApiError::InternalServerError,
{
}

} // verus!
