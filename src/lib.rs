//! Credential handling, bearer-token checks and request/reply rules of a small
//! post and user API.
pub mod model;
pub mod token;
pub mod reply;
pub mod auth;
