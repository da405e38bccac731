//! Credential checking and signed, time-bounded access tokens.

pub mod auth;
pub mod claims;
pub mod config;
pub mod decimal;
pub mod error;
pub mod response;
pub mod token;
