//! The decision logic of the backend user service. The store lookups and
//! inserts are I/O performed outside; each function here takes the outcome
//! of one store step as a value and decides the RPC reply, so every branch
//! of the service's policy is verified for every outcome.
//!
//! Password hashing and verification are the work of the `argon2` crate
//! behind trusted wrappers whose shared name, `password_matches`, ties a
//! hash to the passwords it verifies against.

use vstd::prelude::*;
use vstd::string::*;

use argon2::PasswordHasher;
use argon2::PasswordVerifier;

use crate::errors::{ApiError, RpcCode, RpcFailure};
use crate::identity::Identity;
use crate::jwt::JWT;
use crate::principal::{Principal, PrincipalView};
use crate::text::{i32_dec, i32_dec_string};

verus! {

/// Whether argon2 verification of `password` against the PHC hash string
/// `hash` succeeds: a function of the two alone.
pub uninterp spec fn password_matches(password: Seq<char>, hash: Seq<char>) -> bool;

/// Whether `PasswordHash::new` accepts `hash` as a PHC-format string: a
/// function of the string alone.
pub uninterp spec fn phc_well_formed(hash: Seq<char>) -> bool;

/// Relies on argon2 password hashing with a fresh random salt: whatever
/// salt is drawn, the returned PHC string records the algorithm, parameters
/// and salt with the derived output, so it parses back and verifies against
/// the password it came from. With the generated salt and the default
/// parameters the one reachable error is a password over argon2's
/// four-gigabyte byte limit; UTF-8 spends at most four bytes per character,
/// so a quarter of that many characters is always accepted.
#[verifier::external_body]
fn argon2_hash(password: &str) -> (r: Result<String, ()>)
    ensures
        password@.len() <= 0x3fff_ffff ==> r is Ok,
        r matches Ok(h) ==> password_matches(password@, h@) && phc_well_formed(h@),
{
    let salt = argon2::password_hash::phc::SaltString::generate();
    let hasher = argon2::Argon2::default();
    match hasher.hash_password_with_salt(password.as_bytes(), salt.as_bytes()) {
        Ok(h) => Ok(h.to_string()),
        Err(_) => Err(()),
    }
}

/// Relies on argon2 password verification: deterministic in the password
/// and the PHC hash string, named here by `password_matches`. Errs exactly
/// when `PasswordHash::new` rejects the hash string, named here by
/// `phc_well_formed`.
#[verifier::external_body]
fn argon2_verify(password: &str, hash: &str) -> (r: Result<bool, ()>)
    ensures
        r is Err <==> !phc_well_formed(hash@),
        r matches Ok(b) ==> b == password_matches(password@, hash@),
{
    match argon2::PasswordHash::new(hash) {
        Ok(parsed) => {
            let verifier = argon2::Argon2::default();
            Ok(verifier.verify_password(password.as_bytes(), &parsed).is_ok())
        },
        Err(_) => Err(()),
    }
}

/// Hashes a password for storage. Succeeds on every password short enough
/// for argon2 — any length a request could carry — and the result is a
/// well-formed PHC string that verifies against the password it was
/// derived from, and against nothing recoverable: the hash is one-way.
pub fn encode_password(password: &str) -> (r: Result<String, ApiError>)
    ensures
        password@.len() <= 0x3fff_ffff ==> r is Ok,
        r matches Ok(h) ==> password_matches(password@, h@) && phc_well_formed(h@),
        r matches Err(e) ==> e == ApiError::InternalServerError,
{
    match argon2_hash(password) {
        Ok(h) => Ok(h),
        Err(_) => Err(ApiError::InternalServerError),
    }
}

/// Verifies a password against a stored hash. Errs exactly when the hash
/// is not a well-formed PHC string; otherwise answers whether the password
/// matches.
pub fn verify_password(password: &str, password_hash: &str) -> (r: Result<bool, ApiError>)
    ensures
        r is Err <==> !phc_well_formed(password_hash@),
        r matches Ok(b) ==> b == password_matches(password@, password_hash@),
        r matches Err(e) ==> e == ApiError::InternalServerError,
{
    match argon2_verify(password, password_hash) {
        Ok(b) => Ok(b),
        Err(_) => Err(ApiError::InternalServerError),
    }
}

/// A user row as the login step reads it.
#[derive(Debug, Clone, PartialEq, Eq)]
pub struct UserLoginInfo {
    pub id: i32,
    pub username: String,
    pub password: String,
    pub is_open: bool,
    pub level: Identity,
}

/// The outcome of looking a user up by name in the store.
#[derive(Debug, Clone, PartialEq, Eq)]
pub enum UserLookup {
    Found(UserLoginInfo),
    NotFound,
    Error(String),
}

/// The reply when credentials do not match.
pub open spec fn msg_bad_login() -> Seq<char> {
    "帐号或密码不正确！"@
}

/// The reply when the account is disabled.
pub open spec fn msg_account_disabled() -> Seq<char> {
    "该账号已被禁用，请联系管理员！"@
}

/// The reply when the store itself failed.
pub open spec fn msg_store_error() -> Seq<char> {
    "服务器内部错误"@
}

/// The login decision, given the store's lookup outcome: an absent user and
/// a wrong password are the same unauthenticated reply — indistinguishable
/// to the caller — a disabled account is refused, a stored hash that is not
/// a PHC string is an internal error, and a matching password always issues
/// a token binding the user's stored principal.
pub fn user_login(jwt: &JWT, lookup: UserLookup, password: &str) -> (r: Result<
    String,
    RpcFailure,
>)
    ensures
        lookup matches UserLookup::NotFound ==> (r matches Err(f) && f.code
            == RpcCode::Unauthenticated && f.message@ == msg_bad_login()),
        lookup matches UserLookup::Error(_) ==> (r matches Err(f) && f.code == RpcCode::Internal
            && f.message@ == msg_store_error()),
        (match lookup {
            UserLookup::Found(u) => {
                &&& !u.is_open ==> (r matches Err(f) && f.code == RpcCode::PermissionDenied
                    && f.message@ == msg_account_disabled())
                &&& u.is_open && !phc_well_formed(u.password@) ==> (r matches Err(f) && f.code
                    == RpcCode::Internal && f.message@ == "Failed to verify password"@)
                &&& u.is_open && phc_well_formed(u.password@) && password_matches(
                    password@,
                    u.password@,
                ) ==> (r matches Ok(t) && jwt@.issued_for(
                    t@,
                    (PrincipalView { id: u.id, username: u.username@, identity: u.level }),
                ))
                &&& u.is_open && phc_well_formed(u.password@) && !password_matches(
                    password@,
                    u.password@,
                ) ==> (r matches Err(f) && f.code == RpcCode::Unauthenticated && f.message@
                    == msg_bad_login())
            },
            _ => true,
        }),
{
    let user = match lookup {
        UserLookup::NotFound => {
            return Err(
                RpcFailure {
                    code: RpcCode::Unauthenticated,
                    message: String::from_str("帐号或密码不正确！"),
                },
            );
        },
        UserLookup::Error(_) => {
            return Err(
                RpcFailure {
                    code: RpcCode::Internal,
                    message: String::from_str("服务器内部错误"),
                },
            );
        },
        UserLookup::Found(u) => u,
    };
    if !user.is_open {
        return Err(
            RpcFailure {
                code: RpcCode::PermissionDenied,
                message: String::from_str("该账号已被禁用，请联系管理员！"),
            },
        );
    }
    let ok = match verify_password(password, user.password.as_str()) {
        Ok(b) => b,
        Err(_) => {
            return Err(
                RpcFailure {
                    code: RpcCode::Internal,
                    message: String::from_str("Failed to verify password"),
                },
            );
        },
    };
    if !ok {
        return Err(
            RpcFailure {
                code: RpcCode::Unauthenticated,
                message: String::from_str("帐号或密码不正确！"),
            },
        );
    }
    let principal = Principal { id: user.id, username: user.username, identity: user.level };
    match jwt.encode(&principal) {
        Ok(token) => Ok(token),
        Err(_) => Err(
            RpcFailure {
                code: RpcCode::Internal,
                message: String::from_str("Failed to encode JWT"),
            },
        ),
    }
}

/// The registration reply's text: the new user's name and row id.
pub fn register_reply(username: &str, id: i32) -> (r: String)
    ensures
        r@ == username@ + " 创建成功！id: "@ + i32_dec(id as int),
{
    let mut out = String::from_str(username);
    out.append(" 创建成功！id: ");
    let rendered = i32_dec_string(id);
    out.append(rendered.as_str());
    out
}

/// The registration decision, given the store's insert outcome: success
/// replies with the new row's id, a store failure is an internal error
/// carrying its text.
pub fn user_register(username: &str, insert: Result<i32, String>) -> (r: Result<
    String,
    RpcFailure,
>)
    ensures
        (match insert {
            Ok(id) => r matches Ok(reply) && reply@ == username@ + " 创建成功！id: "@ + i32_dec(
                id as int,
            ),
            Err(e) => r matches Err(f) && f.code == RpcCode::Internal && f.message@ == e@,
        }),
{
    match insert {
        Ok(id) => Ok(register_reply(username, id)),
        Err(e) => Err(RpcFailure { code: RpcCode::Internal, message: e }),
    }
}

/// The existence check's decision, given the store's answer: the answer
/// passes through, a store failure is an internal error carrying its text.
pub fn user_exists(queried: Result<bool, String>) -> (r: Result<bool, RpcFailure>)
    ensures
        (match queried {
            Ok(b) => r == Result::<bool, RpcFailure>::Ok(b),
            Err(e) => r matches Err(f) && f.code == RpcCode::Internal && f.message@ == e@,
        }),
{
    match queried {
        Ok(b) => Ok(b),
        Err(e) => Err(RpcFailure { code: RpcCode::Internal, message: e }),
    }
}

} // verus!
