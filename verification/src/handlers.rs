//! The HTTP handlers' decision logic. The RPC calls themselves are I/O
//! performed outside; each function here takes one call's outcome as a
//! value and decides the response, so the handlers' policy — including that
//! a confirmed duplicate stops registration before any insert attempt — is
//! verified for every outcome.

use vstd::prelude::*;
use vstd::string::*;

use crate::errors::{rpc_translation, ApiError, RpcFailure};
use crate::model::{LoginResult, RegisterResult};
use crate::resp::ApiResponse;

verus! {

/// The business rejection when the account to register already exists.
pub open spec fn msg_account_exists() -> Seq<char> {
    "要注册的帐号已经存在!"@
}

/// Decides whether registration may proceed, from the existence check's
/// outcome: a confirmed duplicate is a business rejection — registration
/// stops here, before any insert — and an RPC failure translates through
/// the fixed table.
pub fn gate_register_exists(outcome: Result<bool, RpcFailure>) -> (r: Result<(), ApiError>)
    ensures
        outcome matches Ok(true) ==> (r matches Err(e) && e matches ApiError::Biz(m) && m@
            == msg_account_exists()),
        outcome matches Ok(false) ==> r matches Ok(_),
        (match outcome {
            Err(f) => r matches Err(e) && rpc_translation(f.code, f.message@, e),
            _ => true,
        }),
{
    match outcome {
        Ok(true) => Err(ApiError::Biz(String::from_str("要注册的帐号已经存在!"))),
        Ok(false) => Ok(()),
        Err(f) => Err(ApiError::from_rpc(f)),
    }
}

/// Wraps the registration call's outcome: success becomes the success
/// envelope carrying the reply text, and an RPC failure translates through
/// the fixed table.
pub fn complete_register(outcome: Result<String, RpcFailure>) -> (r: Result<
    ApiResponse<RegisterResult>,
    ApiError,
>)
    ensures
        (match outcome {
            Ok(reply) => r matches Ok(env) && env.code == 200 && env.message@ == "success"@
                && (env.data matches Some(d) && d.result@ == reply@),
            Err(f) => r matches Err(e) && rpc_translation(f.code, f.message@, e),
        }),
{
    match outcome {
        Ok(reply) => Ok(ApiResponse::success(RegisterResult { result: reply })),
        Err(f) => Err(ApiError::from_rpc(f)),
    }
}

/// Wraps the login call's outcome: success becomes the success envelope
/// carrying the access token, and an RPC failure translates through the
/// fixed table.
pub fn complete_login(outcome: Result<String, RpcFailure>) -> (r: Result<
    ApiResponse<LoginResult>,
    ApiError,
>)
    ensures
        (match outcome {
            Ok(token) => r matches Ok(env) && env.code == 200 && env.message@ == "success"@
                && (env.data matches Some(d) && d.access_token@ == token@),
            Err(f) => r matches Err(e) && rpc_translation(f.code, f.message@, e),
        }),
{
    match outcome {
        Ok(token) => Ok(ApiResponse::success(LoginResult { access_token: token })),
        Err(f) => Err(ApiError::from_rpc(f)),
    }
}

/// The version probe's response.
pub fn current_version_response() -> (r: ApiResponse<String>)
    ensures
        r.code == 200,
        r.message@ == "success"@,
        r.data matches Some(v) && v@ == "v0.1.0"@,
{
    ApiResponse::success(String::from_str("v0.1.0"))
}

} // verus!
