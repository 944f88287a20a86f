//! Requests about users and their sessions.
pub mod login;
