use user_server::errors::{ApiError, RpcCode, RpcFailure};
use user_server::handlers::{
    complete_login, complete_register, current_version_response, gate_register_exists,
};
use user_server::model::RegisterUserParam;
use user_server::valid::ValidJson;

#[test]
fn a_confirmed_duplicate_is_a_business_rejection() {
    let err = gate_register_exists(Ok(true)).unwrap_err();
    assert_eq!(err, ApiError::Biz(String::from("要注册的帐号已经存在!")));
    let (status, envelope) = err.to_envelope();
    assert_eq!(status, 200);
    assert_eq!(envelope.code, -1);
    assert_eq!(envelope.message, "要注册的帐号已经存在!");
    assert!(envelope.data.is_none());
}

#[test]
fn an_absent_name_lets_registration_proceed() {
    assert!(gate_register_exists(Ok(false)).is_ok());
}

#[test]
fn existence_check_failures_translate_through_the_table() {
    let err = gate_register_exists(Err(RpcFailure::new(
        RpcCode::Unavailable,
        String::from("backend down"),
    )))
    .unwrap_err();
    assert_eq!(err, ApiError::InternalServerError);
    assert_eq!(err.to_envelope().0, 500);
}

#[test]
fn register_end_to_end_success_then_duplicate() {
    // First attempt: the body binds and validates, the name is free, the
    // store assigns an id, and the success envelope names it.
    let params = RegisterUserParam {
        username: String::from("alice12"),
        password: String::from("secret1"),
    };
    let bound = ValidJson::from_bound(Ok(params)).unwrap();
    assert!(gate_register_exists(Ok(false)).is_ok());
    let reply = user_server::service::user_register(bound.0.username.as_str(), Ok(1)).unwrap();
    let envelope = complete_register(Ok(reply)).unwrap();
    assert_eq!(envelope.code, 200);
    assert_eq!(envelope.message, "success");
    assert_eq!(envelope.data.unwrap().result, "alice12 创建成功！id: 1");

    // Second attempt with the same name: existence is confirmed, so the
    // gate rejects before any insert could be attempted.
    let err = gate_register_exists(Ok(true)).unwrap_err();
    let (status, envelope) = err.to_envelope();
    assert_eq!(status, 200);
    assert_eq!(envelope.code, -1);
    assert_eq!(envelope.message, "要注册的帐号已经存在!");
}

#[test]
fn register_call_failures_translate_through_the_table() {
    let err = complete_register(Err(RpcFailure::new(
        RpcCode::AlreadyExists,
        String::from("taken"),
    )))
    .unwrap_err();
    assert_eq!(err, ApiError::ValidationError(String::from("taken")));
}

#[test]
fn login_success_wraps_the_token() {
    let envelope = complete_login(Ok(String::from("token-text"))).unwrap();
    assert_eq!(envelope.code, 200);
    assert_eq!(envelope.message, "success");
    assert_eq!(envelope.data.unwrap().access_token, "token-text");
}

#[test]
fn login_failures_translate_through_the_table() {
    let err = complete_login(Err(RpcFailure::new(
        RpcCode::Unauthenticated,
        String::from("帐号或密码不正确！"),
    )))
    .unwrap_err();
    assert_eq!(err, ApiError::Unauthenticated(String::from("帐号或密码不正确！")));
    assert_eq!(err.to_envelope().0, 401);
}

#[test]
fn version_probe_reports_the_version() {
    let envelope = current_version_response();
    assert_eq!(envelope.code, 200);
    assert_eq!(envelope.message, "success");
    assert_eq!(envelope.data.unwrap(), "v0.1.0");
}
