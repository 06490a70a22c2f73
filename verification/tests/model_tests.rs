use blog_api::dto::{PermissionType, UserInfo};
use blog_api::jwt::{AuthBody, Claims, Keys, TOKEN_EXPIRE_SECONDS};
use blog_api::model::{Posts, PostsStatus, UserAccounts, UserExt, UserRole};
use blog_api::routes::{GrpcRoute, UserRoute};

#[test]
fn post_status_names_round_trip() {
    for s in [PostsStatus::Published, PostsStatus::Draft, PostsStatus::Deleted] {
        assert_eq!(PostsStatus::from(s.as_ref().to_string()), s);
    }
    assert_eq!(PostsStatus::Draft.as_ref(), "draft");
    assert_eq!(PostsStatus::from("archived".to_string()), PostsStatus::Published);
    assert_eq!(PostsStatus::default(), PostsStatus::Published);
}

#[test]
fn permission_type_names_round_trip() {
    for t in [PermissionType::Operation, PermissionType::Visual] {
        assert_eq!(PermissionType::from(t.as_ref().to_string()), t);
    }
    assert_eq!(PermissionType::Visual.as_ref(), "visual");
    assert_eq!(PermissionType::from("other".to_string()), PermissionType::Operation);
    assert_eq!(PermissionType::default(), PermissionType::Operation);
}

#[test]
fn defaults_are_empty() {
    let p = Posts::default();
    assert_eq!((p.id, p.user_id, p.title.as_str(), p.content.as_str()), (0, 0, "", ""));
    let u = UserAccounts::default();
    assert_eq!((u.id, u.username.as_str(), u.password.as_str()), (0, "", ""));
    let e = UserExt::default();
    assert_eq!((e.id, e.user_id, e.age), (0, 0, None));
    let i = UserInfo::default();
    assert_eq!((i.id, i.email.as_str()), (0, ""));
    assert_eq!(UserRole::default(), UserRole { user_id: 0, role_id: 0 });
}

#[test]
fn claims_expire_after_a_week() {
    let c = Claims::for_user(42, 1_000);
    assert_eq!(c.sub, "42");
    assert_eq!(c.iat, 1_000);
    assert_eq!(c.exp, 1_000 + 604_800);
    assert_eq!(TOKEN_EXPIRE_SECONDS, 7 * 24 * 60 * 60);
}

#[test]
fn auth_body_is_bearer() {
    let b = AuthBody::new("tok".to_string());
    assert_eq!(b.access_token, "tok");
    assert_eq!(b.token_type, "Bearer");
}

#[test]
fn keys_and_routes_construct() {
    let _k = Keys::new(b"secret");
    let _u = UserRoute::new();
    let _g = GrpcRoute::new();
}

fn signed(keys: &Keys) -> String {
    let mut claims = serde_json::Map::new();
    claims.insert("sub".to_string(), serde_json::Value::from("7"));
    claims.insert("exp".to_string(), serde_json::Value::from(4_000_000_000i64));
    jsonwebtoken::encode(&jsonwebtoken::Header::default(), &serde_json::Value::Object(claims), &keys.encoding).unwrap()
}

#[test]
fn keys_hold_the_given_secret() {
    let keys = Keys::new(b"secret");
    let token = signed(&keys);
    let validation = jsonwebtoken::Validation::default();
    let same = jsonwebtoken::decode::<serde_json::Value>(&token, &Keys::new(b"secret").decoding, &validation);
    assert_eq!(same.unwrap().claims["sub"], serde_json::Value::from("7"));
    assert!(jsonwebtoken::decode::<serde_json::Value>(&token, &keys.decoding, &validation).is_ok());
    assert!(jsonwebtoken::decode::<serde_json::Value>(&token, &Keys::new(b"other").decoding, &validation).is_err());
    assert_ne!(token, signed(&Keys::new(b"other")));
}
