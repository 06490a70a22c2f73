//! Verified core of a small blog service: error codes and responses,
//! role-based access control, pagination, account and post rules, and the
//! token and header handling of the authentication layer.

pub mod response;
pub mod text;
pub mod model;
pub mod rbac;
pub mod dto;
pub mod pagination;
pub mod errors;
pub mod password;
pub mod jwt;
pub mod auth;
pub mod accounts;
pub mod posts;
pub mod routes;
pub mod grpc;
