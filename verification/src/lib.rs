//! Verified core of a cookie-session authentication service: password
//! hashing and verification, the session-token lifecycle (issue, validate,
//! expire, revoke), and the atomic account-creation flow that binds a new
//! credential to a user record.

pub mod auth;
pub mod models;
pub mod store;
