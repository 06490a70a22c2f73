use vstd::prelude::*;
use crate::response::ErrCode;
use crate::text::same_text;

verus! {

/// What went wrong in a database call, as far as the service tells cases
/// apart: a violated constraint is reported with the database's error code
/// and the constraint's name.
pub enum DbError {
    Database { code: Option<String>, constraint: Option<String> },
    RowNotFound,
    PoolClosed,
    PoolTimedOut,
    Other,
}

/// What went wrong in a cache call, as far as the service tells cases apart.
#[derive(Debug, Clone, Copy, PartialEq, Eq, Structural)]
pub enum CacheErrorKind {
    AuthenticationFailed,
    Io,
    Other,
}

/// A failure in one of the service's back ends.
pub enum ServiceError {
    Db(DbError),
    Cache(CacheErrorKind),
    Other,
}

/// The database code and constraint of a second registration with a taken
/// email address.
pub open spec fn is_duplicate_email(code: Option<String>, constraint: Option<String>) -> bool {
    &&& code matches Some(c) && c@ == "23505"@
    &&& constraint matches Some(n) && n@ == "users_email_key"@
}

/// The error code reported for a database failure.
pub open spec fn db_error_code(err: DbError) -> ErrCode {
    match err {
        DbError::Database { code, constraint } => if is_duplicate_email(code, constraint) {
            ErrCode::EmailAlreadyRegistered
        } else {
            ErrCode::InternalError
        },
        DbError::PoolClosed | DbError::PoolTimedOut => ErrCode::DbServiceUnavailable,
        _ => ErrCode::InternalError,
    }
}

/// The error code reported for a cache failure.
pub open spec fn cache_error_code(kind: CacheErrorKind) -> ErrCode {
    match kind {
        CacheErrorKind::AuthenticationFailed | CacheErrorKind::Io => ErrCode::RedisServiceUnavailable,
        CacheErrorKind::Other => ErrCode::InternalError,
    }
}

/// The error code reported for any back-end failure.
pub open spec fn service_error_code(err: ServiceError) -> ErrCode {
    match err {
        ServiceError::Db(e) => db_error_code(e),
        ServiceError::Cache(k) => cache_error_code(k),
        ServiceError::Other => ErrCode::InternalError,
    }
}

fn option_text_is(v: &Option<String>, expected: &str) -> (r: bool)
    ensures
        r == (v matches Some(s) && s@ == expected@),
{
    match v {
        Some(s) => same_text(s.as_str(), expected),
        None => false,
    }
}

/// Maps a database failure to the error reported to the client: a taken
/// email address, an unavailable database, or an internal error.
pub fn handle_sqlx_error(err: &DbError) -> (r: ErrCode)
    ensures
        r == db_error_code(*err),
{
    match err {
        DbError::Database { code, constraint } => {
            if option_text_is(code, "23505") && option_text_is(constraint, "users_email_key") {
                ErrCode::EmailAlreadyRegistered
            } else {
                ErrCode::InternalError
            }
        },
        DbError::PoolClosed | DbError::PoolTimedOut => ErrCode::DbServiceUnavailable,
        _ => ErrCode::InternalError,
    }
}

/// Maps a cache failure to the error reported to the client.
pub fn handle_redis_error(kind: CacheErrorKind) -> (r: ErrCode)
    ensures
        r == cache_error_code(kind),
{
    match kind {
        CacheErrorKind::AuthenticationFailed => ErrCode::RedisServiceUnavailable,
        CacheErrorKind::Io => ErrCode::RedisServiceUnavailable,
        CacheErrorKind::Other => ErrCode::InternalError,
    }
}

/// Maps any back-end failure to the error reported to the client.
pub fn handle_error(err: &ServiceError) -> (r: ErrCode)
    ensures
        r == service_error_code(*err),
{
    match err {
        ServiceError::Db(e) => handle_sqlx_error(e),
        ServiceError::Cache(k) => handle_redis_error(*k),
        ServiceError::Other => ErrCode::InternalError,
    }
}

/// Treats a missing row as the given default value; any other outcome of
/// the query is passed on unchanged.
pub fn or_default_when_missing<T>(found: Result<T, DbError>, default: T) -> (r: Result<T, DbError>)
    ensures
        match found {
            Ok(v) => r == Ok::<T, DbError>(v),
            Err(DbError::RowNotFound) => r == Ok::<T, DbError>(default),
            Err(e) => r == Err::<T, DbError>(e),
        },
{
    match found {
        Err(DbError::RowNotFound) => Ok(default),
        other => other,
    }
}

/// Back-end failures are never reported as bad input or as an
/// authentication problem, except the one case of a taken email address.
pub proof fn lemma_backend_failures_are_server_side(err: ServiceError)
    ensures
        service_error_code(err) == ErrCode::EmailAlreadyRegistered
            || service_error_code(err) == ErrCode::InternalError
            || service_error_code(err) == ErrCode::DbServiceUnavailable
            || service_error_code(err) == ErrCode::RedisServiceUnavailable,
        service_error_code(err) == ErrCode::EmailAlreadyRegistered ==> err matches ServiceError::Db(
            DbError::Database { .. },
        ),
{
}

} // verus!
