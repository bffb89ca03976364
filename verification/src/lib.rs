//! Backend library for a desktop disk-cleaning application.
//!
//! The centerpiece is the path-safety classifier in [`security`]: given a
//! directory path, the platform identity, and two injected facts (whether the
//! path exists as a directory, and the user's home directory), it produces a
//! verdict saying whether destructive operations against that path are safe,
//! at what risk level, and why.

use vstd::prelude::*;

pub mod config;
pub mod file_system;
pub mod logging;
pub mod notifications;
pub mod platform;
pub mod security;
pub mod strutil;
pub mod system_integration;

verus! {

/// Errors surfaced by the library's fallible operations.
#[derive(Debug)]
pub enum AppError {
    FileSystemError(String),
    SecurityError(String),
    SystemError(String),
    ConfigError(String),
    IoError(String),
}

pub type AppResult<T> = Result<T, AppError>;

impl AppError {
    /// Human-readable description of the error, category first.
    pub fn message(&self) -> (m: String)
        ensures
            self matches AppError::FileSystemError(d) ==> m@ == "File system error: "@ + d@,
            self matches AppError::SecurityError(d) ==> m@ == "Security validation failed: "@
                + d@,
            self matches AppError::SystemError(d) ==> m@ == "System integration error: "@ + d@,
            self matches AppError::ConfigError(d) ==> m@ == "Configuration error: "@ + d@,
            self matches AppError::IoError(d) ==> m@ == "IO error: "@ + d@,
    {
        match self {
            AppError::FileSystemError(d) => {
                let mut m = "File system error: ".to_owned();
                m.append(d.as_str());
                m
            },
            AppError::SecurityError(d) => {
                let mut m = "Security validation failed: ".to_owned();
                m.append(d.as_str());
                m
            },
            AppError::SystemError(d) => {
                let mut m = "System integration error: ".to_owned();
                m.append(d.as_str());
                m
            },
            AppError::ConfigError(d) => {
                let mut m = "Configuration error: ".to_owned();
                m.append(d.as_str());
                m
            },
            AppError::IoError(d) => {
                let mut m = "IO error: ".to_owned();
                m.append(d.as_str());
                m
            },
        }
    }
}

} // verus!
