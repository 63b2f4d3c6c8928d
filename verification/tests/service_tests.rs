use user_server::errors::{ApiError, RpcCode};
use user_server::identity::Identity;
use user_server::jwt::{JwtConfig, JWT};
use user_server::service::{
    encode_password, register_reply, user_exists, user_login, user_register, verify_password,
    UserLoginInfo, UserLookup,
};

fn codec() -> JWT {
    JWT::new(JwtConfig {
        secret: String::from("service-test-secret"),
        expiration_secs: 3600,
        audience: String::from("audience"),
        issuer: String::from("issuer"),
    })
}

fn stored_user(password_hash: String) -> UserLoginInfo {
    UserLoginInfo {
        id: 42,
        username: String::from("alice"),
        password: password_hash,
        is_open: true,
        level: Identity::Member,
    }
}

#[test]
fn hashed_password_verifies_against_its_source() {
    let hash = encode_password("secret1").unwrap();
    assert!(verify_password("secret1", hash.as_str()).unwrap());
    assert!(!verify_password("secret2", hash.as_str()).unwrap());
}

#[test]
fn two_hashes_of_one_password_differ_but_both_verify() {
    let first = encode_password("secret1").unwrap();
    let second = encode_password("secret1").unwrap();
    assert_ne!(first, second, "salts must differ");
    assert!(verify_password("secret1", first.as_str()).unwrap());
    assert!(verify_password("secret1", second.as_str()).unwrap());
}

#[test]
fn malformed_hash_is_an_internal_error() {
    assert_eq!(
        verify_password("secret1", "not-a-phc-string").unwrap_err(),
        ApiError::InternalServerError
    );
}

#[test]
fn login_of_unknown_user_is_unauthenticated() {
    let r = user_login(&codec(), UserLookup::NotFound, "secret1").unwrap_err();
    assert_eq!(r.code, RpcCode::Unauthenticated);
    assert_eq!(r.message, "帐号或密码不正确！");
}

#[test]
fn login_on_store_failure_hides_the_detail() {
    let r = user_login(
        &codec(),
        UserLookup::Error(String::from("connection refused")),
        "secret1",
    )
    .unwrap_err();
    assert_eq!(r.code, RpcCode::Internal);
    assert_eq!(r.message, "服务器内部错误");
}

#[test]
fn login_of_disabled_account_is_refused() {
    let mut user = stored_user(encode_password("secret1").unwrap());
    user.is_open = false;
    let r = user_login(&codec(), UserLookup::Found(user), "secret1").unwrap_err();
    assert_eq!(r.code, RpcCode::PermissionDenied);
    assert_eq!(r.message, "该账号已被禁用，请联系管理员！");
}

#[test]
fn login_with_ill_formed_stored_hash_is_an_internal_error() {
    let user = stored_user(String::from("not-a-phc-string"));
    let r = user_login(&codec(), UserLookup::Found(user), "secret1").unwrap_err();
    assert_eq!(r.code, RpcCode::Internal);
    assert_eq!(r.message, "Failed to verify password");
}

#[test]
fn login_with_wrong_password_is_unauthenticated() {
    let user = stored_user(encode_password("secret1").unwrap());
    let r = user_login(&codec(), UserLookup::Found(user), "wrong-one").unwrap_err();
    assert_eq!(r.code, RpcCode::Unauthenticated);
    assert_eq!(r.message, "帐号或密码不正确！");
}

#[test]
fn successful_login_issues_a_token_binding_the_user() {
    let jwt = codec();
    let user = stored_user(encode_password("secret1").unwrap());
    let token = user_login(&jwt, UserLookup::Found(user), "secret1").unwrap();
    let principal = jwt.decode(token.as_str()).unwrap();
    assert_eq!(principal.id, 42);
    assert_eq!(principal.username, "alice");
    assert_eq!(principal.identity, Identity::Member);
}

#[test]
fn registration_reply_names_user_and_id() {
    assert_eq!(register_reply("alice12", 7), "alice12 创建成功！id: 7");
    assert_eq!(register_reply("bob", -3), "bob 创建成功！id: -3");
}

#[test]
fn registration_outcome_wraps_the_insert() {
    let r = user_register("alice12", Ok(1)).unwrap();
    assert_eq!(r, "alice12 创建成功！id: 1");
    let f = user_register("alice12", Err(String::from("duplicate key"))).unwrap_err();
    assert_eq!(f.code, RpcCode::Internal);
    assert_eq!(f.message, "duplicate key");
}

#[test]
fn existence_check_passes_the_answer_through() {
    assert_eq!(user_exists(Ok(true)).unwrap(), true);
    assert_eq!(user_exists(Ok(false)).unwrap(), false);
    let f = user_exists(Err(String::from("timeout"))).unwrap_err();
    assert_eq!(f.code, RpcCode::Internal);
    assert_eq!(f.message, "timeout");
}
