use blog_api::auth::{authorization_step, bearer_token, cache_key, grpc_auth_message, is_grpc_request, reject, user_id_from_subject, AuthRejection, AuthStep};
use blog_api::jwt::Claims;
use blog_api::response::ErrCode;

#[test]
fn bearer_header_yields_token() {
    assert_eq!(bearer_token(b"Bearer abc.def.ghi"), Ok("abc.def.ghi".to_string()));
    assert_eq!(bearer_token(b"Bearer "), Ok(String::new()));
}

#[test]
fn other_headers_are_unauthorized() {
    assert_eq!(bearer_token(b"Basic abc"), Err(ErrCode::UnAuthorized));
    assert_eq!(bearer_token(b"bearer abc"), Err(ErrCode::UnAuthorized));
    assert_eq!(bearer_token(b"Bearer"), Err(ErrCode::UnAuthorized));
    assert_eq!(bearer_token(b""), Err(ErrCode::UnAuthorized));
    // bytes that a header value cannot be read as text with
    assert_eq!(bearer_token(b"Bearer ab\x7fc"), Err(ErrCode::UnAuthorized));
    assert_eq!(bearer_token("Bearer é".as_bytes()), Err(ErrCode::UnAuthorized));
    assert_eq!(bearer_token(b"Bearer a\nb"), Err(ErrCode::UnAuthorized));
}

#[test]
fn tab_is_allowed_in_header_text() {
    assert_eq!(bearer_token(b"Bearer a\tb"), Ok("a\tb".to_string()));
}

#[test]
fn grpc_content_type_is_recognized() {
    assert!(is_grpc_request(Some(b"application/grpc")));
    assert!(is_grpc_request(Some(b"application/grpc+proto")));
    assert!(!is_grpc_request(Some(b"application/json")));
    assert!(!is_grpc_request(Some(b"application/grp")));
    assert!(!is_grpc_request(Some(b"application/grpc\xff")));
    assert!(!is_grpc_request(None));
}

#[test]
fn grpc_rejection_messages() {
    assert_eq!(grpc_auth_message(ErrCode::UnAuthorized), "没有授权");
    assert_eq!(grpc_auth_message(ErrCode::InvalidToken), "无效的token");
    assert_eq!(grpc_auth_message(ErrCode::InternalError), "Internal error");
}

#[test]
fn rejections_by_protocol() {
    match reject(ErrCode::InvalidToken, true) {
        AuthRejection::Grpc { http_status, grpc_status, message } => {
            assert_eq!(http_status, 200);
            assert_eq!(grpc_status, 16);
            assert_eq!(message, "无效的token");
        }
        AuthRejection::Rest { .. } => panic!("expected a gRPC rejection"),
    }
    match reject(ErrCode::UnAuthorized, false) {
        AuthRejection::Rest { http_status, body } => {
            assert_eq!(http_status, 401);
            assert_eq!(body.code, 200002);
            assert_eq!(body.msg, "没有授权");
            assert!(body.data.is_none());
        }
        AuthRejection::Grpc { .. } => panic!("expected a JSON rejection"),
    }
}

#[test]
fn authorization_steps() {
    assert!(matches!(authorization_step(None, None), AuthStep::Anonymous));
    match authorization_step(Some(b"Bearer tok"), None) {
        AuthStep::Token(t) => assert_eq!(t, "tok"),
        _ => panic!("expected a token"),
    }
    match authorization_step(Some(b"Token tok"), Some(b"application/grpc")) {
        AuthStep::Reject(AuthRejection::Grpc { message, .. }) => assert_eq!(message, "没有授权"),
        _ => panic!("expected a gRPC rejection"),
    }
    match authorization_step(Some(b"Token tok"), Some(b"application/json")) {
        AuthStep::Reject(AuthRejection::Rest { http_status, .. }) => assert_eq!(http_status, 401),
        _ => panic!("expected a JSON rejection"),
    }
}

#[test]
fn subjects_name_user_ids() {
    assert_eq!(user_id_from_subject("42"), Ok(42));
    assert_eq!(user_id_from_subject("-7"), Ok(-7));
    assert_eq!(user_id_from_subject("abc"), Err(ErrCode::InvalidToken));
    assert_eq!(user_id_from_subject(""), Err(ErrCode::InvalidToken));
    assert_eq!(user_id_from_subject("4294967296"), Err(ErrCode::InvalidToken));
}

#[test]
fn issued_subject_reads_back() {
    for id in [1, 17, i32::MAX, -3] {
        let c = Claims::for_user(id, 1_700_000_000);
        assert_eq!(user_id_from_subject(&c.sub), Ok(id));
    }
}

#[test]
fn cache_keys() {
    assert_eq!(cache_key(42), "user:42");
    assert_eq!(cache_key(-1), "user:-1");
    assert_ne!(cache_key(12), cache_key(21));
}
