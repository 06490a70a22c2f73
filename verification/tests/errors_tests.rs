use blog_api::errors::{handle_error, handle_redis_error, handle_sqlx_error, or_default_when_missing, CacheErrorKind, DbError, ServiceError};
use blog_api::response::ErrCode;

#[test]
fn duplicate_email_is_reported() {
    let e = DbError::Database { code: Some("23505".to_string()), constraint: Some("users_email_key".to_string()) };
    assert_eq!(handle_sqlx_error(&e), ErrCode::EmailAlreadyRegistered);
    assert_eq!(handle_error(&ServiceError::Db(e)), ErrCode::EmailAlreadyRegistered);
}

#[test]
fn other_database_errors_are_internal() {
    let other_constraint = DbError::Database { code: Some("23505".to_string()), constraint: Some("posts_pkey".to_string()) };
    assert_eq!(handle_sqlx_error(&other_constraint), ErrCode::InternalError);
    let other_code = DbError::Database { code: Some("23503".to_string()), constraint: Some("users_email_key".to_string()) };
    assert_eq!(handle_sqlx_error(&other_code), ErrCode::InternalError);
    let no_code = DbError::Database { code: None, constraint: None };
    assert_eq!(handle_sqlx_error(&no_code), ErrCode::InternalError);
    assert_eq!(handle_sqlx_error(&DbError::RowNotFound), ErrCode::InternalError);
    assert_eq!(handle_sqlx_error(&DbError::Other), ErrCode::InternalError);
}

#[test]
fn pool_problems_mean_database_unavailable() {
    assert_eq!(handle_sqlx_error(&DbError::PoolClosed), ErrCode::DbServiceUnavailable);
    assert_eq!(handle_sqlx_error(&DbError::PoolTimedOut), ErrCode::DbServiceUnavailable);
}

#[test]
fn cache_errors() {
    assert_eq!(handle_redis_error(CacheErrorKind::AuthenticationFailed), ErrCode::RedisServiceUnavailable);
    assert_eq!(handle_redis_error(CacheErrorKind::Io), ErrCode::RedisServiceUnavailable);
    assert_eq!(handle_redis_error(CacheErrorKind::Other), ErrCode::InternalError);
    assert_eq!(handle_error(&ServiceError::Cache(CacheErrorKind::Io)), ErrCode::RedisServiceUnavailable);
    assert_eq!(handle_error(&ServiceError::Other), ErrCode::InternalError);
}

#[test]
fn missing_rows_become_defaults() {
    assert!(matches!(or_default_when_missing(Err(DbError::RowNotFound), 5), Ok(5)));
    assert!(matches!(or_default_when_missing(Ok(3), 5), Ok(3)));
    assert!(matches!(or_default_when_missing(Err(DbError::PoolClosed), 5), Err(DbError::PoolClosed)));
}
