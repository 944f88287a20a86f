//! Uploads.
pub mod save_file;
