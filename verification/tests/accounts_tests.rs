use blog_api::accounts::{account_from_registration, check_login_input, check_password, prepare_account_edit, record_login, user_ext_from_request, validate_registration, REDIS_EXPIRE_SECONDS};
use blog_api::dto::RegisterReq;
use blog_api::model::{Timestamp, UserAccounts};
use blog_api::response::ErrCode;

fn req(username: &str, email: &str, password: &str) -> RegisterReq {
    RegisterReq {
        username: username.to_string(),
        email: email.to_string(),
        password: password.to_string(),
        age: Some(30),
        gender: Some("f".to_string()),
        education: None,
        hometown: Some("Paris".to_string()),
        address: None,
    }
}

#[test]
fn registration_lengths() {
    assert_eq!(validate_registration(&req("bob", "b@x.io", "secret")), Ok(()));
    assert_eq!(validate_registration(&req("bo", "b@x.io", "secret")), Err(ErrCode::InputNameInvalid));
    assert_eq!(validate_registration(&req(&"b".repeat(50), "b@x.io", "secret")), Err(ErrCode::InputNameInvalid));
    assert_eq!(validate_registration(&req(&"b".repeat(49), "b@x.io", "secret")), Ok(()));
    assert_eq!(validate_registration(&req("bob", "b@", "secret")), Err(ErrCode::InputEmailInvalid));
    assert_eq!(validate_registration(&req("bob", "b@x.io", "pw")), Err(ErrCode::InputPasswordInvalid));
    // the name is checked first
    assert_eq!(validate_registration(&req("", "", "")), Err(ErrCode::InputNameInvalid));
}

#[test]
fn lengths_count_bytes() {
    // two characters, six bytes
    assert_eq!(validate_registration(&req("张三", "b@x.io", "secret")), Ok(()));
    // one character, three bytes
    assert_eq!(validate_registration(&req("张", "b@x.io", "secret")), Ok(()));
    // seventeen characters, fifty-one bytes
    assert_eq!(validate_registration(&req(&"张".repeat(17), "b@x.io", "secret")), Err(ErrCode::InputNameInvalid));
}

#[test]
fn registered_account_signs_in_with_its_password() {
    let r = req("carol", "carol@example.com", "hunter22");
    let account = account_from_registration(&r).expect("hashing works");
    assert_eq!(account.id, 0);
    assert_eq!(account.username, "carol");
    assert_eq!(account.email, "carol@example.com");
    assert_ne!(account.password, "hunter22");
    assert!(account.password.starts_with("$2b$12$"));
    assert_eq!(account.password.chars().count(), 60);
    assert_eq!(check_password("hunter22", &account.password), Ok(()));
    assert_eq!(check_password("hunter23", &account.password), Err(ErrCode::InputLoginInvalid));
}

#[test]
fn invalid_registration_is_not_hashed() {
    assert!(matches!(account_from_registration(&req("x", "carol@example.com", "hunter22")), Err(ErrCode::InputNameInvalid)));
}

#[test]
fn unreadable_hash_refuses_sign_in() {
    assert_eq!(check_password("pw", "not a hash"), Err(ErrCode::InputLoginInvalid));
    assert_eq!(check_password("pw", ""), Err(ErrCode::InputLoginInvalid));
}

#[test]
fn empty_credentials_are_refused() {
    assert_eq!(check_login_input("", "pw"), Err(ErrCode::InputArgsError));
    assert_eq!(check_login_input("a@b.c", ""), Err(ErrCode::InputArgsError));
    assert_eq!(check_login_input("a@b.c", "pw"), Ok(()));
}

#[test]
fn profile_from_request() {
    let e = user_ext_from_request(&req("bob", "b@x.io", "secret"), 9);
    assert_eq!(e.id, 0);
    assert_eq!(e.user_id, 9);
    assert_eq!(e.age, Some(30));
    assert_eq!(e.gender.as_deref(), Some("f"));
    assert_eq!(e.education, None);
    assert_eq!(e.hometown.as_deref(), Some("Paris"));
    assert_eq!(e.address, None);
}

#[test]
fn sign_in_time_is_recorded() {
    let u = UserAccounts { id: 3, username: "d".to_string(), email: "e".to_string(), password: "h".to_string(), created_at: Some(Timestamp { secs: 10, nanos: 5 }), last_login_time: None };
    let u = record_login(u, 1_700_000_000);
    assert_eq!(u.last_login_time, Some(Timestamp { secs: 1_700_000_000, nanos: 0 }));
    assert_eq!(u.created_at, Some(Timestamp { secs: 10, nanos: 5 }));
    assert_eq!(u.id, 3);
}

#[test]
fn account_edits() {
    assert!(matches!(prepare_account_edit(&req("bob", "", ""), 0), Err(ErrCode::InputArgsError)));
    assert!(matches!(prepare_account_edit(&req("bo", "", ""), 4), Err(ErrCode::InputNameInvalid)));
    let (u, e) = prepare_account_edit(&req("bobby", "ignored@x.io", "ignored"), 4).expect("valid edit");
    assert_eq!(u.id, 4);
    assert_eq!(u.username, "bobby");
    assert_eq!(u.email, "");
    assert_eq!(u.password, "");
    assert_eq!(e.user_id, 4);
    assert_eq!(e.hometown.as_deref(), Some("Paris"));
}

#[test]
fn cache_lifetime_is_a_week() {
    assert_eq!(REDIS_EXPIRE_SECONDS, 7 * 24 * 60 * 60);
}
