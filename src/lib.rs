//! The share management engine of an ephemeral content-sharing service:
//! permissions, name allocation, content classification, share records and
//! expiry.
pub mod abilities;
pub mod auth;
pub mod body;
pub mod config;
pub mod error;
pub mod expiry;
pub mod frontend;
pub mod headers;
pub mod models;
pub mod names;
pub mod text;
