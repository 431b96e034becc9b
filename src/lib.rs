//! Credential lifecycle engine: password hashing, signed bearer tokens,
//! one-time codes, and the sign-up / sign-in / recovery flows built on them.
pub mod codes;
pub mod error;
pub mod ids;
pub mod middleware;
pub mod models;
pub mod password;
pub mod profile;
pub mod service;
pub mod token;
pub mod users;
