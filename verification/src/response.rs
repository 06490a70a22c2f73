use vstd::prelude::*;

verus! {

/// Every error the service reports to its clients.
#[derive(Debug, Clone, Copy, PartialEq, Eq, Structural)]
pub enum ErrCode {
    InternalError,
    InvalidToken,
    InputArgsError,
    UnAuthorized,
    InputNameInvalid,
    InputEmailInvalid,
    InputPasswordInvalid,
    InputLoginInvalid,
    EmailAlreadyRegistered,
    DbServiceUnavailable,
    RedisServiceUnavailable,
    UnPermission,
}

/// The numeric code of an error: the first digit tells its family
/// (1: server side, 2: authentication, 3: bad input).
pub open spec fn err_code_value(e: ErrCode) -> i32 {
    match e {
        ErrCode::InternalError => 100001,
        ErrCode::DbServiceUnavailable => 100002,
        ErrCode::RedisServiceUnavailable => 100003,
        ErrCode::InvalidToken => 200001,
        ErrCode::UnAuthorized => 200002,
        ErrCode::UnPermission => 200003,
        ErrCode::InputArgsError => 300001,
        ErrCode::InputNameInvalid => 300002,
        ErrCode::InputEmailInvalid => 300003,
        ErrCode::InputPasswordInvalid => 300004,
        ErrCode::InputLoginInvalid => 300005,
        ErrCode::EmailAlreadyRegistered => 300006,
    }
}

impl ErrCode {
    /// The numeric code sent to clients.
    pub fn code(self) -> (r: i32)
        ensures
            r == err_code_value(self),
    {
        match self {
            ErrCode::InternalError => 100001,
            ErrCode::DbServiceUnavailable => 100002,
            ErrCode::RedisServiceUnavailable => 100003,
            ErrCode::InvalidToken => 200001,
            ErrCode::UnAuthorized => 200002,
            ErrCode::UnPermission => 200003,
            ErrCode::InputArgsError => 300001,
            ErrCode::InputNameInvalid => 300002,
            ErrCode::InputEmailInvalid => 300003,
            ErrCode::InputPasswordInvalid => 300004,
            ErrCode::InputLoginInvalid => 300005,
            ErrCode::EmailAlreadyRegistered => 300006,
        }
    }
}

/// The message sent to clients with an error.
pub open spec fn err_message(e: ErrCode) -> Seq<char> {
    match e {
        ErrCode::InternalError => "服务器内部错误"@,
        ErrCode::DbServiceUnavailable => "数据库服务不可用"@,
        ErrCode::RedisServiceUnavailable => "redis服务不可用"@,
        ErrCode::InvalidToken => "无效的token"@,
        ErrCode::UnAuthorized => "没有授权"@,
        ErrCode::UnPermission => "权限不足"@,
        ErrCode::InputArgsError => "入参错误"@,
        ErrCode::InputNameInvalid => "输入名字无效"@,
        ErrCode::InputEmailInvalid => "输入邮箱无效"@,
        ErrCode::InputPasswordInvalid => "输入密码无效"@,
        ErrCode::InputLoginInvalid => "输入邮箱或密码错误"@,
        ErrCode::EmailAlreadyRegistered => "邮箱已被注册"@,
    }
}

impl ErrCode {
    /// The human-readable message sent to clients.
    pub fn message(self) -> (r: &'static str)
        ensures
            r@ == err_message(self),
    {
        match self {
            ErrCode::InternalError => "服务器内部错误",
            ErrCode::DbServiceUnavailable => "数据库服务不可用",
            ErrCode::RedisServiceUnavailable => "redis服务不可用",
            ErrCode::InvalidToken => "无效的token",
            ErrCode::UnAuthorized => "没有授权",
            ErrCode::UnPermission => "权限不足",
            ErrCode::InputArgsError => "入参错误",
            ErrCode::InputNameInvalid => "输入名字无效",
            ErrCode::InputEmailInvalid => "输入邮箱无效",
            ErrCode::InputPasswordInvalid => "输入密码无效",
            ErrCode::InputLoginInvalid => "输入邮箱或密码错误",
            ErrCode::EmailAlreadyRegistered => "邮箱已被注册",
        }
    }
}

/// The envelope of every reply: `code` 0 with `data` on success,
/// the error's code and message without `data` otherwise.
pub struct Resp<T> {
    pub code: i32,
    pub msg: String,
    pub data: Option<T>,
}

/// Wraps the outcome of an operation into the reply envelope.
pub fn make_response<T>(input: Result<T, ErrCode>) -> (r: Resp<T>)
    ensures
        match input {
            Ok(data) => r.code == 0 && r.msg@ == Seq::<char>::empty() && r.data == Some(data),
            Err(e) => r.code == err_code_value(e) && r.msg@ == err_message(e) && r.data is None,
        },
{
    match input {
        Ok(data) => Resp { code: 0, msg: String::new(), data: Some(data) },
        Err(err_code) => Resp {
            code: err_code.code(),
            msg: err_code.message().to_string(),
            data: None,
        },
    }
}

/// The HTTP status that goes with a reply code.
pub open spec fn status_of_code(code: i32) -> u16 {
    if code == 0 {
        200
    } else if 200001 <= code <= 299999 {
        401
    } else if 300001 <= code <= 399999 {
        400
    } else {
        500
    }
}

impl<T> Resp<T> {
    /// The HTTP status under which this reply is sent: OK for success,
    /// Unauthorized for the authentication family, Bad Request for the
    /// input family, Internal Server Error for everything else.
    pub fn status(&self) -> (r: u16)
        ensures
            r == status_of_code(self.code),
    {
        if self.code == 0 {
            200
        } else if 200001 <= self.code && self.code <= 299999 {
            401
        } else if 300001 <= self.code && self.code <= 399999 {
            400
        } else {
            500
        }
    }
}

/// A failed operation is never reported with the OK status, and the status
/// follows the error's family; a successful one is always reported as OK.
pub proof fn lemma_response_status<T>(input: Result<T, ErrCode>, r: Resp<T>)
    requires
        match input {
            Ok(data) => r.code == 0,
            Err(e) => r.code == err_code_value(e),
        },
    ensures
        input is Ok <==> status_of_code(r.code) == 200,
        match input {
            Ok(_) => true,
            Err(e) => match e {
                ErrCode::InternalError | ErrCode::DbServiceUnavailable
                | ErrCode::RedisServiceUnavailable => status_of_code(r.code) == 500,
                ErrCode::InvalidToken | ErrCode::UnAuthorized
                | ErrCode::UnPermission => status_of_code(r.code) == 401,
                _ => status_of_code(r.code) == 400,
            },
        },
{
}

} // verus!
