use blog_api::response::{make_response, ErrCode};

const ALL: [ErrCode; 12] = [
    ErrCode::InternalError,
    ErrCode::InvalidToken,
    ErrCode::InputArgsError,
    ErrCode::UnAuthorized,
    ErrCode::InputNameInvalid,
    ErrCode::InputEmailInvalid,
    ErrCode::InputPasswordInvalid,
    ErrCode::InputLoginInvalid,
    ErrCode::EmailAlreadyRegistered,
    ErrCode::DbServiceUnavailable,
    ErrCode::RedisServiceUnavailable,
    ErrCode::UnPermission,
];

#[test]
fn error_codes_have_their_numbers() {
    assert_eq!(ErrCode::InternalError.code(), 100001);
    assert_eq!(ErrCode::DbServiceUnavailable.code(), 100002);
    assert_eq!(ErrCode::RedisServiceUnavailable.code(), 100003);
    assert_eq!(ErrCode::InvalidToken.code(), 200001);
    assert_eq!(ErrCode::UnAuthorized.code(), 200002);
    assert_eq!(ErrCode::UnPermission.code(), 200003);
    assert_eq!(ErrCode::InputArgsError.code(), 300001);
    assert_eq!(ErrCode::InputNameInvalid.code(), 300002);
    assert_eq!(ErrCode::InputEmailInvalid.code(), 300003);
    assert_eq!(ErrCode::InputPasswordInvalid.code(), 300004);
    assert_eq!(ErrCode::InputLoginInvalid.code(), 300005);
    assert_eq!(ErrCode::EmailAlreadyRegistered.code(), 300006);
}

#[test]
fn error_codes_have_their_messages() {
    assert_eq!(ErrCode::InternalError.message(), "服务器内部错误");
    assert_eq!(ErrCode::DbServiceUnavailable.message(), "数据库服务不可用");
    assert_eq!(ErrCode::RedisServiceUnavailable.message(), "redis服务不可用");
    assert_eq!(ErrCode::InvalidToken.message(), "无效的token");
    assert_eq!(ErrCode::UnAuthorized.message(), "没有授权");
    assert_eq!(ErrCode::UnPermission.message(), "权限不足");
    assert_eq!(ErrCode::InputArgsError.message(), "入参错误");
    assert_eq!(ErrCode::InputNameInvalid.message(), "输入名字无效");
    assert_eq!(ErrCode::InputEmailInvalid.message(), "输入邮箱无效");
    assert_eq!(ErrCode::InputPasswordInvalid.message(), "输入密码无效");
    assert_eq!(ErrCode::InputLoginInvalid.message(), "输入邮箱或密码错误");
    assert_eq!(ErrCode::EmailAlreadyRegistered.message(), "邮箱已被注册");
}

#[test]
fn success_response_carries_data() {
    let r = make_response::<i32>(Ok(7));
    assert_eq!(r.code, 0);
    assert_eq!(r.msg, "");
    assert_eq!(r.data, Some(7));
    assert_eq!(r.status(), 200);
}

#[test]
fn error_response_carries_code_and_message() {
    let r = make_response::<i32>(Err(ErrCode::UnPermission));
    assert_eq!(r.code, 200003);
    assert_eq!(r.msg, "权限不足");
    assert_eq!(r.data, None);
    assert_eq!(r.status(), 401);
}

#[test]
fn status_follows_error_family() {
    for e in ALL {
        let r = make_response::<()>(Err(e));
        let expected = match e {
            ErrCode::InternalError | ErrCode::DbServiceUnavailable | ErrCode::RedisServiceUnavailable => 500,
            ErrCode::InvalidToken | ErrCode::UnAuthorized | ErrCode::UnPermission => 401,
            _ => 400,
        };
        assert_eq!(r.status(), expected);
        assert_ne!(r.status(), 200);
    }
}

#[test]
fn status_of_codes_at_range_edges() {
    let mk = |code: i32| blog_api::response::Resp::<()> { code, msg: String::new(), data: None };
    assert_eq!(mk(0).status(), 200);
    assert_eq!(mk(200000).status(), 500);
    assert_eq!(mk(200001).status(), 401);
    assert_eq!(mk(299999).status(), 401);
    assert_eq!(mk(300000).status(), 500);
    assert_eq!(mk(300001).status(), 400);
    assert_eq!(mk(399999).status(), 400);
    assert_eq!(mk(400000).status(), 500);
    assert_eq!(mk(-1).status(), 500);
}
