//! Verified core of the authentication backend: cache key layout, token
//! claims, request validation, the authentication checks and the decisions
//! that every HTTP handler takes between its database and cache calls.

pub mod cache;
pub mod errors;
pub mod ids;
pub mod text;
pub mod jwt;
pub mod models;
pub mod requests;
pub mod passwords;
pub mod auth;
pub mod replies;
pub mod sessions;
pub mod accounts;
pub mod users;
