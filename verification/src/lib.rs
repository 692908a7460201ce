//! Locator for the Go language server (gopls).
//!
//! Given the editor's initialization payload, the host environment and the
//! outcome of bootstrapping a fixed set of Go developer tools, the library
//! decides which server executable the host should start, with which
//! arguments, for which files, and with which server-specific options.

pub mod environment;
pub mod error;
pub mod json;
pub mod resolve;
pub mod tools;
pub mod uri;
