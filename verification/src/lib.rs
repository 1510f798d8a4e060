//! Verified core of a command-line uploader for a document-management
//! server: configuration resolution, upload-request construction, and
//! response interpretation, each with a full functional contract.

pub mod config;
pub mod decimal;
pub mod errors;
pub mod outcome;
pub mod request;
pub mod uploader;
