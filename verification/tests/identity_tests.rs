use user_server::identity::Identity;

#[test]
fn canonical_forms() {
    assert_eq!(Identity::Guest.as_str(), "guest");
    assert_eq!(Identity::Member.as_str(), "member");
    assert_eq!(Identity::Vip.as_str(), "vip");
    assert_eq!(Identity::Admin.as_str(), "admin");
}

#[test]
fn decodes_known_forms() {
    assert_eq!(Identity::from_str("member"), Identity::Member);
    assert_eq!(Identity::from_str("vip"), Identity::Vip);
    assert_eq!(Identity::from_str("admin"), Identity::Admin);
    assert_eq!(Identity::from_str("guest"), Identity::Guest);
}

#[test]
fn decoding_ignores_case() {
    assert_eq!(Identity::from_str("Member"), Identity::Member);
    assert_eq!(Identity::from_str("VIP"), Identity::Vip);
    assert_eq!(Identity::from_str("AdMiN"), Identity::Admin);
}

#[test]
fn unknown_text_falls_back_to_guest() {
    assert_eq!(Identity::from_str(""), Identity::Guest);
    assert_eq!(Identity::from_str("root"), Identity::Guest);
    assert_eq!(Identity::from_str("administrator"), Identity::Guest);
    assert_eq!(Identity::from_str("vip "), Identity::Guest);
    assert_eq!(Identity::from_str("memberx"), Identity::Guest);
}

#[test]
fn store_values_decode_exactly() {
    assert_eq!(Identity::from_db_value("guest"), Ok(Identity::Guest));
    assert_eq!(Identity::from_db_value("member"), Ok(Identity::Member));
    assert_eq!(Identity::from_db_value("vip"), Ok(Identity::Vip));
    assert_eq!(Identity::from_db_value("admin"), Ok(Identity::Admin));
}

#[test]
fn store_values_outside_the_set_are_errors() {
    let err = Identity::from_db_value("VIP").unwrap_err();
    assert_eq!(err.as_str(), "Invalid identity value from DB: VIP");
    assert!(Identity::from_db_value("").is_err());
}
