//! Requests on comments and locations.
pub mod comments;
pub mod locations;
