//! The authentication gate that guards protected routes. It pulls a bearer
//! token out of the `Authorization` header and runs it through the
//! credential codec; on success the caller gets a principal for the
//! request's context, and on any other outcome the request stops with an
//! authentication error, each branch with its own message.

use vstd::prelude::*;
use vstd::string::*;

use crate::errors::ApiError;
use crate::jwt::JWT;
use crate::principal::{Principal, PrincipalView};

verus! {

/// What the transport handed us for the `Authorization` header: nothing,
/// bytes that are not valid text, or its text.
#[derive(Debug, Clone, PartialEq, Eq)]
pub enum AuthHeader {
    Missing,
    NotText,
    Text(String),
}

/// The message when the header is absent.
pub open spec fn msg_header_missing() -> Seq<char> {
    "\u{8bf7}\u{6c42}\u{5934}\u{4e2d}\u{6ca1}\u{6709} Authorization \u{5b57}\u{6bb5}"@
}

/// The message when the header is not valid text.
pub open spec fn msg_header_not_text() -> Seq<char> {
    "Authorization \u{8bf7}\u{6c42}\u{5934}\u{4e0d}\u{662f}\u{4e00}\u{4e2a}\u{6709}\u{6548}\u{7684}\u{5b57}\u{7b26}\u{4e32}"@
}

/// The message when the header does not carry the bearer scheme.
pub open spec fn msg_wrong_scheme() -> Seq<char> {
    "Authorization \u{8bf7}\u{6c42}\u{5934}\u{5fc5}\u{987b}\u{4ee5} Bearer \u{5f00}\u{5934}!"@
}

/// The message when the token itself does not verify.
pub open spec fn msg_bad_credential() -> Seq<char> {
    "\u{6ca1}\u{6709}\u{767b}\u{9646}\u{6216}\u{767b}\u{9646}\u{5df2}\u{8fc7}\u{671f}"@
}

/// Whether the header text opens with the literal bearer scheme prefix.
pub open spec fn has_bearer_prefix(s: Seq<char>) -> bool {
    s.len() >= 7 && s.subrange(0, 7) == "Bearer "@
}

/// The token carried after the scheme prefix.
pub open spec fn bearer_token_chars(s: Seq<char>) -> Seq<char> {
    s.skip(7)
}

/// Distinct texts for distinct refusals: absence, malformed bytes and a
/// wrong scheme each read differently in the response.
pub proof fn lemma_gate_messages_distinct()
    ensures
        msg_header_missing() != msg_header_not_text(),
        msg_header_missing() != msg_wrong_scheme(),
        msg_header_not_text() != msg_wrong_scheme(),
{
    reveal_strlit("请求头中没有 Authorization 字段");
    reveal_strlit("Authorization 请求头不是一个有效的字符串");
    reveal_strlit("Authorization 请求头必须以 Bearer 开头!");
    assert(msg_header_missing()[0] != msg_header_not_text()[0]);
    assert(msg_header_missing()[0] != msg_wrong_scheme()[0]);
    assert(msg_header_not_text().len() != msg_wrong_scheme().len());
}

/// The guard in front of a protected route. Nothing short of a present,
/// well-formed `Bearer` header whose token passes the codec yields a
/// principal; the rest is refused as unauthenticated.
pub fn authenticate(jwt: &JWT, header: &AuthHeader) -> (r: Result<Principal, ApiError>)
    ensures
        header matches AuthHeader::Missing ==> (r matches Err(e) && e matches
            ApiError::Unauthenticated(m) && m@ == msg_header_missing()),
        header matches AuthHeader::NotText ==> (r matches Err(e) && e matches
            ApiError::Unauthenticated(m) && m@ == msg_header_not_text()),
        header matches AuthHeader::Text(h) && !has_bearer_prefix(h@) ==> (r matches Err(e)
            && e matches ApiError::Unauthenticated(m) && m@ == msg_wrong_scheme()),
        (match header {
            AuthHeader::Text(h) => has_bearer_prefix(h@) ==> match r {
                Ok(p) => forall|p0: PrincipalView|
                    #[trigger] jwt@.issued_for(bearer_token_chars(h@), p0)
                        && !p0.username.contains(':') ==> p@ == p0,
                Err(e) => e matches ApiError::Unauthenticated(m) && m@ == msg_bad_credential(),
            },
            _ => true,
        }),
{
    let h = match header {
        AuthHeader::Missing => {
            return Err(
                ApiError::Unauthenticated(String::from_str("请求头中没有 Authorization 字段")),
            );
        },
        AuthHeader::NotText => {
            return Err(
                ApiError::Unauthenticated(
                    String::from_str("Authorization 请求头不是一个有效的字符串"),
                ),
            );
        },
        AuthHeader::Text(h) => h,
    };
    let n = h.as_str().unicode_len();
    if n < 7 || !crate::text::str_eq(h.as_str().substring_char(0, 7), "Bearer ") {
        return Err(
            ApiError::Unauthenticated(
                String::from_str("Authorization 请求头必须以 Bearer 开头!"),
            ),
        );
    }
    let token = h.as_str().substring_char(7, n);
    assert(token@ == bearer_token_chars(h@));
    match jwt.decode(token) {
        Ok(p) => Ok(p),
        Err(_) => Err(
            ApiError::Unauthenticated(String::from_str("没有登陆或登陆已过期")),
        ),
    }
}

} // verus!
