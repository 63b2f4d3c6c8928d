use user_server::identity::Identity;
use user_server::jwt::{pack_sub, parse_sub, JwtConfig, JWT};
use user_server::principal::Principal;

fn codec() -> JWT {
    JWT::new(JwtConfig {
        secret: String::from("an-ordinary-test-secret"),
        expiration_secs: 3600,
        audience: String::from("audience"),
        issuer: String::from("issuer"),
    })
}

fn principal(id: i32, name: &str, identity: Identity) -> Principal {
    Principal::new(id, String::from(name), identity)
}

#[test]
fn round_trip_preserves_the_principal() {
    let jwt = codec();
    let p = principal(1, "alice", Identity::Member);
    let token = jwt.encode(&p).unwrap();
    let q = jwt.decode(token.as_str()).unwrap();
    assert_eq!(q.id, 1);
    assert_eq!(q.username, "alice");
    assert_eq!(q.identity, Identity::Member);
}

#[test]
fn round_trip_preserves_every_field_shape() {
    let jwt = codec();
    for (id, name, identity) in [
        (0, "bo", Identity::Guest),
        (-7, "carol", Identity::Vip),
        (2147483647, "dave", Identity::Admin),
        (-2147483648, "erin", Identity::Member),
    ] {
        let p = principal(id, name, identity);
        let token = jwt.encode(&p).unwrap();
        let q = jwt.decode(token.as_str()).unwrap();
        assert_eq!(q, p);
    }
}

#[test]
fn expired_token_is_rejected_not_a_panic() {
    let jwt = codec();
    let p = principal(5, "frank", Identity::Member);
    // Issued at the epoch: expiry lies decades in the past.
    let token = jwt.encode_at(&p, 0).unwrap();
    assert!(jwt.decode(token.as_str()).is_err());
}

#[test]
fn tampering_with_the_signature_fails_verification() {
    let jwt = codec();
    let p = principal(9, "grace", Identity::Admin);
    let token = jwt.encode(&p).unwrap();
    assert!(jwt.decode(token.as_str()).is_ok());
    // Alter one byte of the signature segment (after the last dot).
    let dot = token.rfind('.').unwrap();
    let mut bytes = token.clone().into_bytes();
    let i = dot + 1;
    bytes[i] = if bytes[i] == b'A' { b'B' } else { b'A' };
    let tampered = String::from_utf8(bytes).unwrap();
    assert_ne!(tampered, token);
    assert!(jwt.decode(tampered.as_str()).is_err());
}

#[test]
fn every_signature_byte_matters() {
    let jwt = codec();
    let p = principal(3, "heidi", Identity::Vip);
    let token = jwt.encode(&p).unwrap();
    let dot = token.rfind('.').unwrap();
    for i in (dot + 1)..token.len() {
        let mut bytes = token.clone().into_bytes();
        bytes[i] = if bytes[i] == b'x' { b'y' } else { b'x' };
        let tampered = String::from_utf8(bytes).unwrap();
        if tampered != token {
            assert!(jwt.decode(tampered.as_str()).is_err(), "byte {} accepted", i);
        }
    }
}

#[test]
fn audience_mismatch_is_rejected() {
    let jwt = codec();
    let other = JWT::new(JwtConfig {
        secret: String::from("an-ordinary-test-secret"),
        expiration_secs: 3600,
        audience: String::from("someone-else"),
        issuer: String::from("issuer"),
    });
    let p = principal(2, "ivan", Identity::Member);
    let token = other.encode(&p).unwrap();
    assert!(other.decode(token.as_str()).is_ok());
    assert!(jwt.decode(token.as_str()).is_err());
}

#[test]
fn wrong_secret_is_rejected() {
    let jwt = codec();
    let other = JWT::new(JwtConfig {
        secret: String::from("a-different-secret"),
        expiration_secs: 3600,
        audience: String::from("audience"),
        issuer: String::from("issuer"),
    });
    let p = principal(2, "judy", Identity::Member);
    let token = other.encode(&p).unwrap();
    assert!(jwt.decode(token.as_str()).is_err());
}

#[test]
fn garbage_tokens_are_rejected() {
    let jwt = codec();
    assert!(jwt.decode("").is_err());
    assert!(jwt.decode("not-a-token").is_err());
    assert!(jwt.decode("a.b.c").is_err());
}

#[test]
fn subject_packs_and_parses() {
    let p = principal(123, "Qiqianily", Identity::Vip);
    let sub = pack_sub(&p);
    assert_eq!(sub.as_str(), "123:Qiqianily:vip");
    let (id, name, identity) = parse_sub(sub.as_str()).unwrap();
    assert_eq!(id, 123);
    assert_eq!(name, "Qiqianily");
    assert_eq!(identity, Identity::Vip);
}

#[test]
fn subject_with_unknown_identity_falls_back_to_guest() {
    let (id, name, identity) = parse_sub("5:bob:sovereign").unwrap();
    assert_eq!(id, 5);
    assert_eq!(name, "bob");
    assert_eq!(identity, Identity::Guest);
}

#[test]
fn malformed_subjects_do_not_parse() {
    assert!(parse_sub("").is_none());
    assert!(parse_sub("123").is_none());
    assert!(parse_sub("123:bob").is_none());
    assert!(parse_sub("abc:bob:vip").is_none());
    assert!(parse_sub(":bob:vip").is_none());
}

#[test]
fn default_configuration_is_the_development_one() {
    let config = JwtConfig::default();
    assert_eq!(config.secret, "WK2953aOagwo2SwUye");
    assert_eq!(config.expiration_secs, 60 * 60 * 24 * 30);
    assert_eq!(config.audience, "audience");
    assert_eq!(config.issuer, "issuer");
    let jwt = JWT::default();
    let p = principal(8, "kate", Identity::Guest);
    let token = jwt.encode(&p).unwrap();
    assert_eq!(jwt.decode(token.as_str()).unwrap(), p);
}
