//! Stateless bearer-token authentication: signed, time-bounded identity
//! tokens, one-way password credentials, and a closed error taxonomy that
//! maps every failure to one external status.
pub mod auth;
pub mod dto;
pub mod error;
pub mod password;
pub mod token;
