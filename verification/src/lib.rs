//! Host-invoked operations for a desktop application shell.
//!
//! The core is the download-and-save pipeline: it turns a free-form HTTP
//! method string, a list of file identifiers and a destination path into an
//! outbound request plan, validates the response status, and hands the
//! response body through unchanged for the host to persist. Around it stand
//! small helpers the shell also exposes: rendering decimal numbers into
//! messages, translating errors into human-readable text, encoding and
//! decoding text file content, reporting the application version, and
//! choosing the platform's file-browser launcher.

pub mod content;
pub mod decimal;
pub mod error;
pub mod fetch;
pub mod platform;
pub mod version;
