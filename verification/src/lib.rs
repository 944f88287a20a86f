//! The authentication core of a map and photo sharing server: salted
//! password digests, time-based one-time passwords, the identity store, the
//! session state machine and the permission rule.
pub mod cli;
pub mod db;
pub mod error;
pub mod text;
pub mod web_srv;
