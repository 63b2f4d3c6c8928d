//! The typed request parameters of the user handlers, with their declared
//! validation rules, and the typed payloads of their responses.

use vstd::prelude::*;
use vstd::string::*;

use crate::valid::Validate;

verus! {

/// The username rule: length in characters within `[2, 20]`.
pub open spec fn username_rule_msg() -> Seq<char> {
    "用户名长度必须在 2-20 之间"@
}

/// The password rule: length in characters within `[6, 20]`.
pub open spec fn password_rule_msg() -> Seq<char> {
    "密码长度必须在 6-20 之间"@
}

/// Whether a username satisfies its length rule.
pub open spec fn username_ok(u: Seq<char>) -> bool {
    2 <= u.len() <= 20
}

/// Whether a password satisfies its length rule.
pub open spec fn password_ok(p: Seq<char>) -> bool {
    6 <= p.len() <= 20
}

/// The violated rules of a username/password pair, in rule order.
pub open spec fn credential_violations(u: Seq<char>, p: Seq<char>) -> Seq<Seq<char>> {
    (if username_ok(u) {
        Seq::<Seq<char>>::empty()
    } else {
        seq![username_rule_msg()]
    }) + (if password_ok(p) {
        Seq::<Seq<char>>::empty()
    } else {
        seq![password_rule_msg()]
    })
}

fn credential_violations_exec(username: &String, password: &String) -> (r: Vec<String>)
    ensures
        r.deep_view() == credential_violations(username@, password@),
{
    let mut broken: Vec<String> = Vec::new();
    let ulen = username.as_str().unicode_len();
    let plen = password.as_str().unicode_len();
    if !(2 <= ulen && ulen <= 20) {
        broken.push(String::from_str("用户名长度必须在 2-20 之间"));
    }
    if !(6 <= plen && plen <= 20) {
        broken.push(String::from_str("密码长度必须在 6-20 之间"));
    }
    proof {
        assert(broken.deep_view() =~= credential_violations(username@, password@));
    }
    broken
}

/// The registration request body.
#[derive(Debug, Clone, PartialEq, Eq)]
pub struct RegisterUserParam {
    pub username: String,
    pub password: String,
}

impl Validate for RegisterUserParam {
    open spec fn spec_violations(&self) -> Seq<Seq<char>> {
        credential_violations(self.username@, self.password@)
    }

    fn violations(&self) -> (r: Vec<String>)
        ensures
            r.deep_view() == self.spec_violations(),
    {
        credential_violations_exec(&self.username, &self.password)
    }
}

/// The login request body.
#[derive(Debug, Clone, PartialEq, Eq)]
pub struct LoginUserParam {
    pub username: String,
    pub password: String,
}

impl Validate for LoginUserParam {
    open spec fn spec_violations(&self) -> Seq<Seq<char>> {
        credential_violations(self.username@, self.password@)
    }

    fn violations(&self) -> (r: Vec<String>)
        ensures
            r.deep_view() == self.spec_violations(),
    {
        credential_violations_exec(&self.username, &self.password)
    }
}

/// The login response payload.
#[derive(Debug, Clone, PartialEq, Eq)]
pub struct LoginResult {
    pub access_token: String,
}

/// The registration response payload.
#[derive(Debug, Clone, PartialEq, Eq)]
pub struct RegisterResult {
    pub result: String,
}

/// A pair below both minimum lengths violates both rules, and the aggregate
/// names both, the username rule first.
pub proof fn lemma_both_rules_aggregate(u: Seq<char>, p: Seq<char>)
    requires
        u.len() < 2,
        p.len() < 6,
    ensures
        credential_violations(u, p) == seq![username_rule_msg(), password_rule_msg()],
        crate::valid::join_msgs(credential_violations(u, p)) == username_rule_msg() + ", "@
            + password_rule_msg(),
{
    assert(credential_violations(u, p) =~= seq![username_rule_msg(), password_rule_msg()]);
    assert(credential_violations(u, p).drop_first() =~= seq![password_rule_msg()]);
    assert(crate::valid::join_msgs(seq![password_rule_msg()]) == password_rule_msg());
    assert(crate::valid::join_msgs(credential_violations(u, p)) =~= username_rule_msg() + ", "@
        + password_rule_msg());
}

} // verus!
