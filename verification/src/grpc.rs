use vstd::prelude::*;
use crate::dto::{CacheUser, RegisterReq, UserInfo};
use crate::jwt::AuthBody;
use crate::model::{Timestamp, UserAccounts};
use crate::response::{err_code_value, err_message, make_response, ErrCode};

verus! {

/// A point in time as the gRPC messages carry it.
#[derive(Debug, Clone, Copy, PartialEq, Eq, Structural)]
pub struct ProtoTimestamp {
    pub seconds: i64,
    pub nanos: i32,
}

/// The signed-in user as the gRPC `test_user` call returns it.
pub struct TestUser {
    pub id: i32,
    pub username: String,
    pub email: String,
    pub created_at: Option<ProtoTimestamp>,
    pub last_login_time: Option<ProtoTimestamp>,
    pub role_ids: Vec<i32>,
}

/// An account as the gRPC `register` and `edit` calls return it.
pub struct UserResponse {
    pub id: i32,
    pub username: String,
    pub email: String,
    pub created_at: Option<ProtoTimestamp>,
    pub last_login_time: Option<ProtoTimestamp>,
}

/// An account with its profile as the gRPC `one` call returns it; the
/// account id travels in the `code` field.
pub struct OneResponse {
    pub code: i32,
    pub username: String,
    pub email: String,
    pub age: Option<i32>,
    pub gender: Option<String>,
    pub education: Option<String>,
    pub hometown: Option<String>,
    pub address: Option<String>,
}

/// The sign-in answer as the gRPC `login` call returns it.
pub struct AuthBodyResponse {
    pub access_token: String,
    pub token_type: String,
}

/// The envelope of every gRPC answer, as in the JSON replies.
pub struct GrpcReply<T> {
    pub code: i32,
    pub msg: String,
    pub data: Option<T>,
}

/// A stored point in time in the form of the gRPC messages.
pub open spec fn proto_time(t: Timestamp) -> ProtoTimestamp {
    ProtoTimestamp { seconds: t.secs, nanos: t.nanos as i32 }
}

/// An optional point in time in the form of the gRPC messages.
pub open spec fn proto_time_opt(t: Option<Timestamp>) -> Option<ProtoTimestamp> {
    match t {
        Some(x) => Some(proto_time(x)),
        None => None,
    }
}

/// Converts a stored point in time to the form of the gRPC messages.
pub fn to_proto_timestamp(t: Option<Timestamp>) -> (r: Option<ProtoTimestamp>)
    ensures
        r == proto_time_opt(t),
{
    match t {
        Some(x) => Some(ProtoTimestamp { seconds: x.secs, nanos: x.nanos as i32 }),
        None => None,
    }
}

/// The envelope fields of a gRPC answer agree with those of the JSON reply
/// for the same outcome.
pub open spec fn envelope_matches<T, U>(outcome: Result<T, ErrCode>, reply: GrpcReply<U>) -> bool {
    match outcome {
        Ok(_) => reply.code == 0 && reply.msg@ == Seq::<char>::empty() && reply.data is Some,
        Err(e) => reply.code == err_code_value(e) && reply.msg@ == err_message(e) && reply.data is None,
    }
}

/// The gRPC answer of `test_user`: the signed-in user, or `UnAuthorized`.
pub fn test_user_reply(user: Option<CacheUser>) -> (r: GrpcReply<TestUser>)
    ensures
        envelope_matches(
            match user {
                Some(u) => Ok::<(), ErrCode>(()),
                None => Err::<(), ErrCode>(ErrCode::UnAuthorized),
            },
            r,
        ),
        user matches Some(u) ==> r.data matches Some(d) && d.id == u.id && d.username == u.username
            && d.email == u.email && d.created_at == proto_time_opt(u.created_at)
            && d.last_login_time == proto_time_opt(u.last_login_time) && d.role_ids == u.role_ids,
{
    let outcome = match user {
        Some(u) => Ok(u),
        None => Err(ErrCode::UnAuthorized),
    };
    let resp = make_response(outcome);
    let data = match resp.data {
        Some(u) => Some(TestUser {
            id: u.id,
            username: u.username,
            email: u.email,
            created_at: to_proto_timestamp(u.created_at),
            last_login_time: to_proto_timestamp(u.last_login_time),
            role_ids: u.role_ids,
        }),
        None => None,
    };
    GrpcReply { code: resp.code, msg: resp.msg, data }
}

/// The gRPC answer of `register` and `edit` for the outcome of the account
/// operation.
pub fn account_reply(outcome: Result<UserAccounts, ErrCode>) -> (r: GrpcReply<UserResponse>)
    ensures
        envelope_matches(outcome, r),
        outcome matches Ok(u) ==> r.data matches Some(d) && d.id == u.id && d.username == u.username
            && d.email == u.email && d.created_at == proto_time_opt(u.created_at)
            && d.last_login_time == proto_time_opt(u.last_login_time),
{
    let resp = make_response(outcome);
    let data = match resp.data {
        Some(u) => Some(UserResponse {
            id: u.id,
            username: u.username,
            email: u.email,
            created_at: to_proto_timestamp(u.created_at),
            last_login_time: to_proto_timestamp(u.last_login_time),
        }),
        None => None,
    };
    GrpcReply { code: resp.code, msg: resp.msg, data }
}

/// `d` carries account `u` in the form of the gRPC messages.
pub open spec fn is_user_response(d: UserResponse, u: UserAccounts) -> bool {
    &&& d.id == u.id
    &&& d.username == u.username
    &&& d.email == u.email
    &&& d.created_at == proto_time_opt(u.created_at)
    &&& d.last_login_time == proto_time_opt(u.last_login_time)
}

fn user_response(u: &UserAccounts) -> (r: UserResponse)
    ensures
        is_user_response(r, *u),
{
    UserResponse {
        id: u.id,
        username: u.username.clone(),
        email: u.email.clone(),
        created_at: to_proto_timestamp(u.created_at),
        last_login_time: to_proto_timestamp(u.last_login_time),
    }
}

/// The gRPC answer of `list` for the outcome of the account listing: the
/// accounts in the order listed.
pub fn list_reply(outcome: Result<Vec<UserAccounts>, ErrCode>) -> (r: GrpcReply<Vec<UserResponse>>)
    ensures
        envelope_matches(outcome, r),
        outcome matches Ok(list) ==> r.data matches Some(d) && d.len() == list.len() && forall|i: int|
            0 <= i < list.len() ==> is_user_response(#[trigger] d[i], list[i]),
{
    let resp = make_response(outcome);
    let data = match resp.data {
        Some(list) => {
            let mut users: Vec<UserResponse> = Vec::new();
            let mut i: usize = 0;
            while i < list.len()
                invariant
                    0 <= i <= list.len(),
                    users.len() == i,
                    forall|j: int| 0 <= j < i ==> is_user_response(#[trigger] users[j], list[j]),
                decreases list.len() - i,
            {
                users.push(user_response(&list[i]));
                i = i + 1;
            }
            Some(users)
        },
        None => None,
    };
    GrpcReply { code: resp.code, msg: resp.msg, data }
}

/// A gRPC call refused before it reaches the service: the gRPC status code
/// and its message.
pub struct GrpcStatus {
    pub code: u16,
    pub message: &'static str,
}

/// The account details that a gRPC `edit` request carries; a request
/// without them is refused with `InvalidArgument` (gRPC code 3).
pub fn edit_details(user: Option<RegisterReq>) -> (r: Result<RegisterReq, GrpcStatus>)
    ensures
        match user {
            Some(u) => r == Ok::<RegisterReq, GrpcStatus>(u),
            None => r matches Err(s) && s.code == 3 && s.message@ == "No user info found"@,
        },
{
    match user {
        Some(u) => Ok(u),
        None => Err(GrpcStatus { code: 3, message: "No user info found" }),
    }
}

/// The gRPC answer of `one` for the outcome of the account lookup.
pub fn one_reply(outcome: Result<UserInfo, ErrCode>) -> (r: GrpcReply<OneResponse>)
    ensures
        envelope_matches(outcome, r),
        outcome matches Ok(u) ==> r.data matches Some(d) && d.code == u.id && d.username == u.username
            && d.email == u.email && d.age == u.age && d.gender == u.gender
            && d.education == u.education && d.hometown == u.hometown && d.address == u.address,
{
    let resp = make_response(outcome);
    let data = match resp.data {
        Some(u) => Some(OneResponse {
            code: u.id,
            username: u.username,
            email: u.email,
            age: u.age,
            gender: u.gender,
            education: u.education,
            hometown: u.hometown,
            address: u.address,
        }),
        None => None,
    };
    GrpcReply { code: resp.code, msg: resp.msg, data }
}

/// The gRPC answer of `login` for the outcome of the sign-in.
pub fn login_reply(outcome: Result<AuthBody, ErrCode>) -> (r: GrpcReply<AuthBodyResponse>)
    ensures
        envelope_matches(outcome, r),
        outcome matches Ok(b) ==> r.data matches Some(d) && d.access_token == b.access_token
            && d.token_type == b.token_type,
{
    let resp = make_response(outcome);
    let data = match resp.data {
        Some(b) => Some(AuthBodyResponse { access_token: b.access_token, token_type: b.token_type }),
        None => None,
    };
    GrpcReply { code: resp.code, msg: resp.msg, data }
}

} // verus!
