use vstd::prelude::*;
use crate::dto::RegisterReq;
use crate::model::{Timestamp, UserAccounts, UserExt};
use crate::password::{bcrypt_hash, bcrypt_verify, bcrypt_verify_outcome};
use crate::response::ErrCode;
use crate::text::{lemma_utf8_len_at_least_chars, utf8_len};

verus! {

/// How long a signed-in user's details stay in the cache: seven days, in
/// seconds.
pub const REDIS_EXPIRE_SECONDS: u64 = 604800;

/// A user name, email address or password is accepted when its UTF-8
/// encoding (what `str::len` counts) has from 3 to 49 bytes.
pub open spec fn field_length_ok(s: Seq<char>) -> bool {
    3 <= utf8_len(s) < 50
}

fn length_ok(s: &str) -> (r: bool)
    ensures
        r == field_length_ok(s@),
{
    let n = s.as_bytes().len();
    3 <= n && n < 50
}

/// The check of a registration: the first of user name, email and password
/// whose length is refused decides the error.
pub open spec fn registration_check(req: RegisterReq) -> Result<(), ErrCode> {
    if !field_length_ok(req.username@) {
        Err(ErrCode::InputNameInvalid)
    } else if !field_length_ok(req.email@) {
        Err(ErrCode::InputEmailInvalid)
    } else if !field_length_ok(req.password@) {
        Err(ErrCode::InputPasswordInvalid)
    } else {
        Ok(())
    }
}

/// Checks the lengths of the user name, email address and password of a
/// registration.
pub fn validate_registration(req: &RegisterReq) -> (r: Result<(), ErrCode>)
    ensures
        r == registration_check(*req),
{
    if !length_ok(req.username.as_str()) {
        return Err(ErrCode::InputNameInvalid);
    }
    if !length_ok(req.email.as_str()) {
        return Err(ErrCode::InputEmailInvalid);
    }
    if !length_ok(req.password.as_str()) {
        return Err(ErrCode::InputPasswordInvalid);
    }
    Ok(())
}

/// `stored` is a password hash under which `password` signs in.
pub open spec fn hash_accepts(password: Seq<char>, stored: Seq<char>) -> bool {
    bcrypt_verify_outcome(password, stored) == Some(true)
}

/// The account to store for a registration: the checked user name and
/// email, and a bcrypt hash of the password in place of the password. A
/// registration that passes the checks fails only when no hash could be
/// made, which is reported as an internal error.
pub fn account_from_registration(req: &RegisterReq) -> (r: Result<UserAccounts, ErrCode>)
    ensures
        registration_check(*req) is Err ==> r == Err::<UserAccounts, ErrCode>(
            registration_check(*req)->Err_0,
        ),
        registration_check(*req) is Ok ==> match r {
            Ok(u) => u.id == 0 && u.username@ == req.username@ && u.email@ == req.email@
                && hash_accepts(req.password@, u.password@) && u.password@.len() == 60
                && u.password@ != req.password@ && u.created_at is None
                && u.last_login_time is None,
            Err(e) => e == ErrCode::InternalError,
        },
{
    validate_registration(req)?;
    let hashed = match bcrypt_hash(req.password.as_str()) {
        Some(h) => h,
        None => return Err(ErrCode::InternalError),
    };
    proof {
        lemma_utf8_len_at_least_chars(req.password@);
    }
    Ok(new_account(req, hashed))
}

/// The account to store for a registration whose password was hashed into
/// `hashed`: the user name and email of the request, the hash in place of
/// the password, and no id or times yet.
pub fn new_account(req: &RegisterReq, hashed: String) -> (r: UserAccounts)
    ensures
        r.id == 0,
        r.username@ == req.username@,
        r.email@ == req.email@,
        r.password == hashed,
        r.created_at is None,
        r.last_login_time is None,
{
    UserAccounts {
        id: 0,
        username: req.username.clone(),
        email: req.email.clone(),
        password: hashed,
        created_at: None,
        last_login_time: None,
    }
}

fn clone_text(v: &Option<String>) -> (r: Option<String>)
    ensures
        r == *v,
{
    match v {
        Some(s) => Some(s.clone()),
        None => None,
    }
}

/// The profile details that a registration or an edit gives account
/// `user_id`.
pub fn user_ext_from_request(req: &RegisterReq, user_id: i32) -> (r: UserExt)
    ensures
        r.id == 0,
        r.user_id == user_id,
        r.age == req.age,
        r.gender == req.gender,
        r.education == req.education,
        r.hometown == req.hometown,
        r.address == req.address,
{
    UserExt {
        id: 0,
        user_id,
        age: req.age,
        gender: clone_text(&req.gender),
        education: clone_text(&req.education),
        hometown: clone_text(&req.hometown),
        address: clone_text(&req.address),
    }
}

/// Refuses a sign-in attempt with an empty email address or password.
pub fn check_login_input(email: &str, password: &str) -> (r: Result<(), ErrCode>)
    ensures
        r == if email@.len() == 0 || password@.len() == 0 {
            Err::<(), ErrCode>(ErrCode::InputArgsError)
        } else {
            Ok(())
        },
{
    if email.is_empty() || password.is_empty() {
        Err(ErrCode::InputArgsError)
    } else {
        Ok(())
    }
}

/// The outcome of checking a password against the stored hash: accepted
/// only when bcrypt accepts it; a mismatch and an unreadable hash are both
/// reported as wrong credentials.
pub open spec fn password_check(password: Seq<char>, stored: Seq<char>) -> Result<(), ErrCode> {
    if hash_accepts(password, stored) {
        Ok(())
    } else {
        Err(ErrCode::InputLoginInvalid)
    }
}

/// Checks a sign-in password against the account's stored hash.
pub fn check_password(password: &str, stored: &str) -> (r: Result<(), ErrCode>)
    ensures
        r == password_check(password@, stored@),
{
    match bcrypt_verify(password, stored) {
        Some(true) => Ok(()),
        _ => Err(ErrCode::InputLoginInvalid),
    }
}

/// The account after a sign-in at `now` (seconds since the Unix epoch).
pub fn record_login(user: UserAccounts, now: i64) -> (r: UserAccounts)
    ensures
        r.id == user.id,
        r.username == user.username,
        r.email == user.email,
        r.password == user.password,
        r.created_at == user.created_at,
        r.last_login_time == Some(Timestamp { secs: now, nanos: 0 }),
{
    let mut user = user;
    user.last_login_time = Some(Timestamp { secs: now, nanos: 0 });
    user
}

/// The check of an account edit: a positive account id, then an accepted
/// user name.
pub open spec fn account_edit_check(req: RegisterReq, user_id: i32) -> Result<(), ErrCode> {
    if user_id <= 0 {
        Err(ErrCode::InputArgsError)
    } else if !field_length_ok(req.username@) {
        Err(ErrCode::InputNameInvalid)
    } else {
        Ok(())
    }
}

/// The changes of an account edit: the new user name of account `user_id`
/// (its other account fields left empty, as they are not updated) and its
/// new profile details.
pub fn prepare_account_edit(req: &RegisterReq, user_id: i32) -> (r: Result<(UserAccounts, UserExt), ErrCode>)
    ensures
        account_edit_check(*req, user_id) is Err ==> r == Err::<(UserAccounts, UserExt), ErrCode>(
            account_edit_check(*req, user_id)->Err_0,
        ),
        account_edit_check(*req, user_id) is Ok ==> (r matches Ok((u, ext)) && u.id == user_id
            && u.username@ == req.username@ && u.email@ == Seq::<char>::empty()
            && u.password@ == Seq::<char>::empty() && u.created_at is None
            && u.last_login_time is None && ext.id == 0 && ext.user_id == user_id
            && ext.age == req.age && ext.gender == req.gender && ext.education == req.education
            && ext.hometown == req.hometown && ext.address == req.address),
{
    if user_id <= 0 {
        return Err(ErrCode::InputArgsError);
    }
    if !length_ok(req.username.as_str()) {
        return Err(ErrCode::InputNameInvalid);
    }
    let user = UserAccounts {
        id: user_id,
        username: req.username.clone(),
        email: String::new(),
        password: String::new(),
        created_at: None,
        last_login_time: None,
    };
    let ext = user_ext_from_request(req, user_id);
    Ok((user, ext))
}

/// An account made by registration signs in with the password it was
/// registered with.
pub proof fn lemma_registered_password_signs_in(req: RegisterReq, account: UserAccounts)
    requires
        hash_accepts(req.password@, account.password@),
    ensures
        password_check(req.password@, account.password@) == Ok::<(), ErrCode>(()),
{
}

/// Registration accepts a request exactly when its user name, email address
/// and password each have from 3 to 49 UTF-8 bytes; otherwise the first of
/// them, in that order, that falls outside decides the error.
pub proof fn lemma_registration_lengths(req: RegisterReq)
    ensures
        registration_check(req) is Ok <==> (3 <= utf8_len(req.username@) < 50 && 3 <= utf8_len(
            req.email@,
        ) < 50 && 3 <= utf8_len(req.password@) < 50),
        !(3 <= utf8_len(req.username@) < 50) ==> registration_check(req) == Err::<(), ErrCode>(
            ErrCode::InputNameInvalid,
        ),
        3 <= utf8_len(req.username@) < 50 && !(3 <= utf8_len(req.email@) < 50) ==> registration_check(
            req,
        ) == Err::<(), ErrCode>(ErrCode::InputEmailInvalid),
        3 <= utf8_len(req.username@) < 50 && 3 <= utf8_len(req.email@) < 50 && !(3 <= utf8_len(
            req.password@,
        ) < 50) ==> registration_check(req) == Err::<(), ErrCode>(ErrCode::InputPasswordInvalid),
{
}

/// An edit of a positive account id is accepted exactly when its user name
/// has from 3 to 49 UTF-8 bytes, the same user names that registration
/// accepts; a zero or negative id is refused as bad input.
pub proof fn lemma_edit_lengths(req: RegisterReq, user_id: i32)
    ensures
        user_id > 0 ==> (account_edit_check(req, user_id) is Ok <==> 3 <= utf8_len(req.username@)
            < 50),
        user_id > 0 ==> (account_edit_check(req, user_id) is Ok <==> registration_check(req)
            != Err::<(), ErrCode>(ErrCode::InputNameInvalid)),
        user_id > 0 && !(3 <= utf8_len(req.username@) < 50) ==> account_edit_check(req, user_id)
            == Err::<(), ErrCode>(ErrCode::InputNameInvalid),
        user_id <= 0 ==> account_edit_check(req, user_id) == Err::<(), ErrCode>(
            ErrCode::InputArgsError,
        ),
{
}

} // verus!
