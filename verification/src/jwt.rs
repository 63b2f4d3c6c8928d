//! The credential codec: issues and verifies signed, time-bounded tokens
//! binding a [`Principal`].
//!
//! A token's subject packs `id:username:identity` into one colon-delimited
//! string; that packing and its parse are verified, including the round trip.
//! The signature itself, and the checks of expiry, audience and issuer, are
//! the work of the `jsonwebtoken` crate behind trusted wrappers whose
//! contracts name the signing function rather than restate it.

use vstd::prelude::*;
use vstd::string::*;

use crate::identity::{identity_chars, identity_from_chars, Identity};
use crate::principal::{Principal, PrincipalView};
use crate::text::{
    find_char, find_from, i32_dec, i32_dec_string, lemma_dec_digits_all_digits,
    lemma_parse_i32_roundtrip, parse_i32, parse_i32_chars,
};

verus! {

/// Compiled-in development-only fallback secret. Insecure by design: any
/// deployment is expected to override it through configuration.
pub open spec fn default_secret_chars() -> Seq<char> {
    "WK2953aOagwo2SwUye"@
}

/// Compiled-in default token lifetime: thirty days, in seconds.
pub const DEFAULT_EXPIRATION_SECS: u64 = 60 * 60 * 24 * 30;

/// The wire payload of a credential.
#[derive(Debug, Clone, PartialEq, Eq)]
pub struct Claims {
    /// Unique token id, fresh per issue, for audit purposes.
    pub jti: String,
    /// The packed `id:username:identity` subject.
    pub sub: String,
    /// The audience the token is minted for.
    pub aud: String,
    /// The issuing party.
    pub iss: String,
    /// Issued-at, in unix seconds.
    pub iat: u64,
    /// Expiry, in unix seconds.
    pub exp: u64,
}

/// The codec's configuration: secret material, token lifetime, and the
/// audience and issuer strings a token must carry.
#[derive(Debug, Clone, PartialEq, Eq)]
pub struct JwtConfig {
    pub secret: String,
    pub expiration_secs: u64,
    pub audience: String,
    pub issuer: String,
}

impl Default for JwtConfig {
    /// The compiled-in development configuration.
    fn default() -> (r: Self)
        ensures
            r.secret@ == default_secret_chars(),
            r.expiration_secs == DEFAULT_EXPIRATION_SECS,
            r.audience@ == "audience"@,
            r.issuer@ == "issuer"@,
    {
        JwtConfig {
            secret: String::from_str("WK2953aOagwo2SwUye"),
            expiration_secs: DEFAULT_EXPIRATION_SECS,
            audience: String::from_str("audience"),
            issuer: String::from_str("issuer"),
        }
    }
}

/// The credential codec itself, fixed at construction.
#[derive(Debug, Clone)]
pub struct JWT {
    secret: String,
    expiration_secs: u64,
    audience: String,
    issuer: String,
}

/// The mathematical image of a [`JWT`].
#[verifier::ext_equal]
pub struct JwtView {
    pub secret: Seq<char>,
    pub expiration_secs: u64,
    pub audience: Seq<char>,
    pub issuer: Seq<char>,
}

impl View for JWT {
    type V = JwtView;

    closed spec fn view(&self) -> JwtView {
        JwtView {
            secret: self.secret@,
            expiration_secs: self.expiration_secs,
            audience: self.audience@,
            issuer: self.issuer@,
        }
    }
}

/// The packed subject of a principal: `id:username:identity`.
pub open spec fn sub_chars(p: PrincipalView) -> Seq<char> {
    i32_dec(p.id as int) + seq![':'] + p.username + seq![':'] + identity_chars(p.identity)
}

/// What parsing a subject accepts: an integer id before the first colon, the
/// username up to the second colon, and an identity (with the usual fallback
/// to `Guest`) after it.
pub open spec fn parse_sub_chars(s: Seq<char>) -> Option<(i32, Seq<char>, Identity)> {
    match find_from(s, 0, ':') {
        Option::None => None,
        Option::Some(i) => match find_from(s, i + 1, ':') {
            Option::None => None,
            Option::Some(j) => match parse_i32_chars(s.subrange(0, i)) {
                Option::None => None,
                Option::Some(id) => Some(
                    (
                        id,
                        s.subrange(i + 1, j),
                        identity_from_chars(s.subrange(j + 1, s.len() as int)),
                    ),
                ),
            },
        },
    }
}

/// Packs a principal into the subject string.
pub fn pack_sub(p: &Principal) -> (r: String)
    ensures
        r@ == sub_chars(p@),
{
    proof {
        reveal_strlit(":");
    }
    let mut out = i32_dec_string(p.id);
    out.append(":");
    out.append(p.username.as_str());
    out.append(":");
    out.append(p.identity.as_str());
    assert(out@ =~= sub_chars(p@));
    out
}

/// Parses a subject string back into its three parts.
pub fn parse_sub(s: &str) -> (r: Option<(i32, String, Identity)>)
    ensures
        match r {
            Some(t) => parse_sub_chars(s@) matches Some(u) && u.0 == t.0 && u.1 == t.1@ && u.2
                == t.2,
            None => parse_sub_chars(s@) is None,
        },
{
    let n = s.unicode_len();
    let i = match find_char(s, 0, ':') {
        Some(i) => i,
        None => {
            return None;
        },
    };
    let j = match find_char(s, i + 1, ':') {
        Some(j) => j,
        None => {
            return None;
        },
    };
    let id = match parse_i32(s.substring_char(0, i)) {
        Some(id) => id,
        None => {
            return None;
        },
    };
    let username = s.substring_char(i + 1, j).to_owned();
    let identity = Identity::from_str(s.substring_char(j + 1, n));
    Some((id, username, identity))
}

proof fn lemma_find_hit(s: Seq<char>, from: int, m: int, c: char)
    requires
        0 <= from <= m < s.len(),
        s[m] == c,
        forall|k: int| from <= k < m ==> s[k] != c,
    ensures
        find_from(s, from, c) == Some(m),
    decreases m - from,
{
    if from < m {
        lemma_find_hit(s, from + 1, m, c);
    }
}

proof fn lemma_i32_dec_no_colon(n: int)
    ensures
        forall|k: int| 0 <= k < i32_dec(n).len() ==> #[trigger] i32_dec(n)[k] != ':',
{
    assert('9' < ':' && '-' != ':');
    if n < 0 {
        lemma_dec_digits_all_digits((-n) as nat);
        assert forall|k: int| 0 <= k < i32_dec(n).len() implies #[trigger] i32_dec(n)[k]
            != ':' by {
            if k > 0 {
                assert(i32_dec(n)[k] == crate::text::dec_digits((-n) as nat)[k - 1]);
            }
        }
    } else {
        lemma_dec_digits_all_digits(n as nat);
    }
}

/// The subject codec round-trips: packing a principal whose username holds
/// no colon and parsing the result yields the same id, username and identity.
pub proof fn lemma_sub_roundtrip(p: PrincipalView)
    requires
        !p.username.contains(':'),
    ensures
        parse_sub_chars(sub_chars(p)) == Some((p.id, p.username, p.identity)),
{
    let a = i32_dec(p.id as int);
    let s = sub_chars(p);
    let i = a.len() as int;
    let j = i + 1 + p.username.len() as int;
    lemma_i32_dec_no_colon(p.id as int);
    assert(s[i] == ':');
    assert forall|k: int| 0 <= k < i implies s[k] != ':' by {
        assert(s[k] == a[k]);
    }
    lemma_find_hit(s, 0, i, ':');
    assert(s[j] == ':');
    assert forall|k: int| i + 1 <= k < j implies s[k] != ':' by {
        assert(s[k] == p.username[k - i - 1]);
        assert(!p.username.contains(p.username[k - i - 1]) == false);
    }
    lemma_find_hit(s, i + 1, j, ':');
    assert(s.subrange(0, i) =~= a);
    lemma_parse_i32_roundtrip(p.id);
    assert(s.subrange(i + 1, j) =~= p.username);
    assert(s.subrange(j + 1, s.len() as int) =~= identity_chars(p.identity));
    crate::identity::lemma_identity_roundtrip(p.identity);
}

/// What the `jsonwebtoken` crate signs, HS256 over the six claims and the
/// secret: a function of its arguments alone.
pub uninterp spec fn signed_token_of(
    jti: Seq<char>,
    sub: Seq<char>,
    aud: Seq<char>,
    iss: Seq<char>,
    iat: u64,
    exp: u64,
    secret: Seq<char>,
) -> Seq<char>;

/// What a string field of a decoded claims object holds, by key.
pub uninterp spec fn json_str_field(v: serde_json::Value, key: Seq<char>) -> Option<Seq<char>>;

/// What an unsigned integer field of a decoded claims object holds, by key.
pub uninterp spec fn json_u64_field(v: serde_json::Value, key: Seq<char>) -> Option<u64>;

#[verifier::external_type_specification]
#[verifier::external_body]
pub struct ExValue(serde_json::Value);

/// Relies on jsonwebtoken::encode with HS256: the token is base64 header and
/// claims plus an HMAC signature, a deterministic function of the six claims
/// and the secret, named here by `signed_token_of`. Signing cannot fail:
/// the key comes from `from_secret`, so both algorithm-family guards pass,
/// the HMAC signer accepts any secret length and signs infallibly, and a
/// string-keyed claims map always serializes.
#[verifier::external_body]
fn sign_claims(
    jti: &str,
    sub: &str,
    aud: &str,
    iss: &str,
    iat: u64,
    exp: u64,
    secret: &str,
) -> (r: Result<String, ()>)
    ensures
        r is Ok,
        r matches Ok(t) ==> t@ == signed_token_of(jti@, sub@, aud@, iss@, iat, exp, secret@),
{
    let mut m = serde_json::Map::new();
    m.insert("jti".into(), jti.into());
    m.insert("sub".into(), sub.into());
    m.insert("aud".into(), aud.into());
    m.insert("iss".into(), iss.into());
    m.insert("iat".into(), iat.into());
    m.insert("exp".into(), exp.into());
    let header = jsonwebtoken::Header::new(jsonwebtoken::Algorithm::HS256);
    let key = jsonwebtoken::EncodingKey::from_secret(secret.as_bytes());
    jsonwebtoken::encode(&header, &serde_json::Value::Object(m), &key).map_err(|_| ())
}

/// Relies on jsonwebtoken::decode with HS256, validating the signature,
/// expiry, audience, issuer and the presence of all six claims: a token that
/// `signed_token_of` describes can only decode to the claims it was signed
/// over, because the claims object is the parse of the signed payload.
#[verifier::external_body]
fn decode_token(token: &str, secret: &str, aud: &str, iss: &str) -> (r: Result<
    serde_json::Value,
    (),
>)
    ensures
        r matches Ok(v) ==> (forall|jti: Seq<char>, sub: Seq<char>, iat: u64, exp: u64|
            token@ == signed_token_of(jti, sub, aud@, iss@, iat, exp, secret@) ==> json_str_field(
                v,
                "jti"@,
            ) == Some(jti) && json_str_field(v, "sub"@) == Some(sub) && json_str_field(v, "aud"@)
                == Some(aud@) && json_str_field(v, "iss"@) == Some(iss@) && json_u64_field(
                v,
                "iat"@,
            ) == Some(iat) && json_u64_field(v, "exp"@) == Some(exp)),
{
    let key = jsonwebtoken::DecodingKey::from_secret(secret.as_bytes());
    let mut validation = jsonwebtoken::Validation::new(jsonwebtoken::Algorithm::HS256);
    validation.set_audience(&[aud]);
    validation.set_issuer(&[iss]);
    validation.set_required_spec_claims(&["jti", "sub", "aud", "iss", "iat", "exp"]);
    match jsonwebtoken::decode::<serde_json::Value>(token, &key, &validation) {
        Ok(data) => Ok(data.claims),
        Err(_) => Err(()),
    }
}

/// Relies on serde_json::Value::get and Value::as_str: reads the string
/// field named by `key`, if present with that type.
#[verifier::external_body]
fn value_str_field(v: &serde_json::Value, key: &str) -> (r: Option<String>)
    ensures
        match r {
            Some(s) => json_str_field(*v, key@) == Some(s@),
            None => json_str_field(*v, key@) is None,
        },
{
    match v.get(key) {
        Some(x) => match x.as_str() {
            Some(s) => Some(s.to_string()),
            None => None,
        },
        None => None,
    }
}

/// Relies on serde_json::Value::get and Value::as_u64: reads the unsigned
/// integer field named by `key`, if present with that type.
#[verifier::external_body]
fn value_u64_field(v: &serde_json::Value, key: &str) -> (r: Option<u64>)
    ensures
        match r {
            Some(n) => json_u64_field(*v, key@) == Some(n),
            None => json_u64_field(*v, key@) is None,
        },
{
    match v.get(key) {
        Some(x) => match x.as_u64() {
            Some(n) => Some(n),
            None => None,
        },
        None => None,
    }
}

/// Relies on xid::new: a fresh random 12-byte id whose string form is
/// exactly twenty characters. Nothing is assumed of its value.
#[verifier::external_body]
fn xid_string() -> (r: String)
    ensures
        r@.len() == 20,
{
    xid::new().to_string()
}

/// Relies on jsonwebtoken::get_current_timestamp: the system clock in unix
/// seconds. Nothing is assumed of its value.
#[verifier::external_body]
fn current_timestamp() -> u64 {
    jsonwebtoken::get_current_timestamp()
}

fn claims_from_value(v: &serde_json::Value) -> (r: Result<Claims, ()>)
    ensures
        r matches Ok(c) ==> json_str_field(*v, "jti"@) == Some(c.jti@) && json_str_field(
            *v,
            "sub"@,
        ) == Some(c.sub@) && json_str_field(*v, "aud"@) == Some(c.aud@) && json_str_field(
            *v,
            "iss"@,
        ) == Some(c.iss@) && json_u64_field(*v, "iat"@) == Some(c.iat) && json_u64_field(
            *v,
            "exp"@,
        ) == Some(c.exp),
        r is Err <==> (json_str_field(*v, "jti"@) is None || json_str_field(*v, "sub"@) is None
            || json_str_field(*v, "aud"@) is None || json_str_field(*v, "iss"@) is None
            || json_u64_field(*v, "iat"@) is None || json_u64_field(*v, "exp"@) is None),
{
    let jti = match value_str_field(v, "jti") {
        Some(s) => s,
        None => {
            return Err(());
        },
    };
    let sub = match value_str_field(v, "sub") {
        Some(s) => s,
        None => {
            return Err(());
        },
    };
    let aud = match value_str_field(v, "aud") {
        Some(s) => s,
        None => {
            return Err(());
        },
    };
    let iss = match value_str_field(v, "iss") {
        Some(s) => s,
        None => {
            return Err(());
        },
    };
    let iat = match value_u64_field(v, "iat") {
        Some(n) => n,
        None => {
            return Err(());
        },
    };
    let exp = match value_u64_field(v, "exp") {
        Some(n) => n,
        None => {
            return Err(());
        },
    };
    Ok(Claims { jti, sub, aud, iss, iat, exp })
}

impl JwtView {
    /// The token this codec signs for `p` with a given fresh id and
    /// issue time; expiry saturates instead of wrapping.
    pub open spec fn token_for(self, p: PrincipalView, jti: Seq<char>, iat: u64) -> Seq<char> {
        signed_token_of(
            jti,
            sub_chars(p),
            self.audience,
            self.issuer,
            iat,
            iat.saturating_add(self.expiration_secs),
            self.secret,
        )
    }

    /// Whether `token` is one this codec could have issued for `p`,
    /// for some fresh id and issue time.
    pub open spec fn issued_for(self, token: Seq<char>, p: PrincipalView) -> bool {
        exists|jti: Seq<char>, iat: u64| token == self.token_for(p, jti, iat)
    }
}

impl JWT {
    /// Fixes the codec's secret, lifetime, audience and issuer.
    pub fn new(config: JwtConfig) -> (r: Self)
        ensures
            r@.secret == config.secret@,
            r@.expiration_secs == config.expiration_secs,
            r@.audience == config.audience@,
            r@.issuer == config.issuer@,
    {
        JWT {
            secret: config.secret,
            expiration_secs: config.expiration_secs,
            audience: config.audience,
            issuer: config.issuer,
        }
    }

    /// Issues a signed token binding `principal`, with `iat` the clock now
    /// and `exp` the configured lifetime later, saturating at the numeric
    /// ceiling rather than wrapping. Issuing always succeeds.
    pub fn encode(&self, principal: &Principal) -> (r: Result<String, ()>)
        ensures
            r is Ok,
            r matches Ok(t) ==> self@.issued_for(t@, principal@),
    {
        let iat = current_timestamp();
        self.encode_at(principal, iat)
    }

    /// Issues a signed token as of the given issue time. Exposed so that the
    /// expiry behaviour is observable without a clock in the loop. Issuing
    /// always succeeds.
    pub fn encode_at(&self, principal: &Principal, iat: u64) -> (r: Result<String, ()>)
        ensures
            r is Ok,
            r matches Ok(t) ==> (exists|jti: Seq<char>|
                t@ == self@.token_for(principal@, jti, iat)),
            r matches Ok(t) ==> self@.issued_for(t@, principal@),
    {
        let jti = xid_string();
        let exp = iat.saturating_add(self.expiration_secs);
        let sub = pack_sub(principal);
        match sign_claims(
            jti.as_str(),
            sub.as_str(),
            self.audience.as_str(),
            self.issuer.as_str(),
            iat,
            exp,
            self.secret.as_str(),
        ) {
            Ok(t) => {
                proof {
                    assert(t@ == self@.token_for(principal@, jti@, iat));
                }
                Ok(t)
            },
            Err(_) => Err(()),
        }
    }

    /// Verifies a token: signature, expiry, audience, issuer and required
    /// claims in one pass, then parses the subject back into a principal.
    /// Any failure is the single "credential invalid" outcome. When the
    /// token is one this codec issued for a principal whose username holds
    /// no colon, success returns exactly that principal.
    pub fn decode(&self, token: &str) -> (r: Result<Principal, ()>)
        ensures
            r matches Ok(p) ==> forall|p0: PrincipalView|
                #[trigger] self@.issued_for(token@, p0) && !p0.username.contains(':') ==> p@ == p0,
    {
        let v = match decode_token(
            token,
            self.secret.as_str(),
            self.audience.as_str(),
            self.issuer.as_str(),
        ) {
            Ok(v) => v,
            Err(_) => {
                return Err(());
            },
        };
        let claims = match claims_from_value(&v) {
            Ok(c) => c,
            Err(_) => {
                return Err(());
            },
        };
        match parse_sub(claims.sub.as_str()) {
            Some((id, username, identity)) => {
                let p = Principal { id, username, identity };
                proof {
                    assert forall|p0: PrincipalView|
                        #[trigger] self@.issued_for(token@, p0) && !p0.username.contains(
                            ':',
                        ) implies p@ =~= p0 by {
                        let (jti, iat) = choose|jti: Seq<char>, iat: u64|
                            token@ == self@.token_for(p0, jti, iat);
                        assert(json_str_field(v, "sub"@) == Some(sub_chars(p0)));
                        assert(claims.sub@ == sub_chars(p0));
                        lemma_sub_roundtrip(p0);
                    }
                }
                Ok(p)
            },
            None => Err(()),
        }
    }
}

impl Default for JWT {
    /// The codec with the compiled-in development configuration.
    fn default() -> (r: Self)
        ensures
            r@.secret == default_secret_chars(),
            r@.expiration_secs == DEFAULT_EXPIRATION_SECS,
            r@.audience == "audience"@,
            r@.issuer == "issuer"@,
    {
        JWT::new(JwtConfig::default())
    }
}

} // verus!
