//! Application configuration: values, defaults, and validation.

use vstd::prelude::*;

use crate::{AppError, AppResult};

verus! {

/// Colour-theme choice persisted in the configuration.
#[derive(Debug, Clone, Copy, PartialEq, Eq, Structural)]
pub enum ThemePreference {
    Light,
    Dark,
    System,
}

/// Tuning knobs for the directory-analysis pipeline.
#[derive(Debug, Clone)]
pub struct AnalysisConfig {
    pub batch_size: usize,
    pub parallel_processing: bool,
    pub ai_timeout: u64,
    pub max_concurrent_requests: usize,
    pub enable_caching: bool,
    pub cache_ttl_seconds: u64,
}

impl AnalysisConfig {
    /// The out-of-the-box analysis settings.
    pub open spec fn is_default(self) -> bool {
        &&& self.batch_size == 1000
        &&& self.parallel_processing == true
        &&& self.ai_timeout == 60
        &&& self.max_concurrent_requests == 5
        &&& self.enable_caching == true
        &&& self.cache_ttl_seconds == 3600
    }
}

impl Default for AnalysisConfig {
    fn default() -> (c: Self)
        ensures
            c.is_default(),
    {
        AnalysisConfig {
            batch_size: 1000,
            parallel_processing: true,
            ai_timeout: 60,
            max_concurrent_requests: 5,
            enable_caching: true,
            cache_ttl_seconds: 3600,
        }
    }
}

/// Guard rails applied before any destructive operation.
#[derive(Debug, Clone)]
pub struct SecurityConfig {
    pub allow_system_directories: bool,
    pub require_confirmation: bool,
    pub enable_audit_trail: bool,
    pub backup_before_delete: bool,
    pub protected_patterns: Vec<String>,
}

impl SecurityConfig {
    /// The out-of-the-box security settings: conservative everywhere, with
    /// executable and system file patterns protected.
    pub open spec fn is_default(self) -> bool {
        &&& self.allow_system_directories == false
        &&& self.require_confirmation == true
        &&& self.enable_audit_trail == true
        &&& self.backup_before_delete == true
        &&& self.protected_patterns.deep_view() == seq!["*.exe"@, "*.dll"@, "*.sys"@, "*.app"@]
    }
}

impl Default for SecurityConfig {
    fn default() -> (c: Self)
        ensures
            c.is_default(),
    {
        let protected_patterns: Vec<String> = vec![
            "*.exe".to_owned(),
            "*.dll".to_owned(),
            "*.sys".to_owned(),
            "*.app".to_owned(),
        ];
        proof {
            assert(protected_patterns.deep_view() =~~= seq!["*.exe"@, "*.dll"@, "*.sys"@, "*.app"@]);
        }
        SecurityConfig {
            allow_system_directories: false,
            require_confirmation: true,
            enable_audit_trail: true,
            backup_before_delete: true,
            protected_patterns,
        }
    }
}

/// Application configuration.
#[derive(Debug, Clone)]
pub struct AppConfig {
    pub max_file_size: u64,
    pub default_timeout: u64,
    pub enable_logging: bool,
    pub log_level: String,
    pub cache_directory: String,
    pub temp_directory: String,
    pub enable_notifications: bool,
    pub theme: ThemePreference,
    pub analysis: AnalysisConfig,
    pub security: SecurityConfig,
}

impl AppConfig {
    /// The out-of-the-box application settings.
    pub open spec fn is_default(self) -> bool {
        &&& self.max_file_size == 1000000000
        &&& self.default_timeout == 30
        &&& self.enable_logging == true
        &&& self.log_level@ == "info"@
        &&& self.cache_directory@ == "disk-cleaner-cache"@
        &&& self.temp_directory@ == "disk-cleaner-temp"@
        &&& self.enable_notifications == true
        &&& self.theme == ThemePreference::System
        &&& self.analysis.is_default()
        &&& self.security.is_default()
    }

    /// Load the persisted configuration, or fall back to the defaults.
    /// Persistence is not wired up yet, so this always returns the defaults.
    pub fn load_or_create() -> (c: Self)
        ensures
            c.is_default(),
    {
        Self::default()
    }

    /// Persist the configuration. Persistence is not wired up yet, so this
    /// always succeeds without touching anything.
    pub fn save(&self) -> (r: AppResult<()>)
        ensures
            r matches Ok(_),
    {
        Ok(())
    }

    /// Check the configuration for values that cannot work, reporting the
    /// first offending field.
    pub fn validate(&self) -> (r: AppResult<()>)
        ensures
            (r matches Ok(_)) == (self.max_file_size != 0 && self.default_timeout != 0
                && self.analysis.batch_size != 0),
            self.max_file_size == 0 ==> (r matches Err(e) && e matches AppError::ConfigError(m)
                && m@ == "max_file_size must be greater than 0"@),
            self.max_file_size != 0 && self.default_timeout == 0 ==> (r matches Err(e)
                && e matches AppError::ConfigError(m) && m@
                == "default_timeout must be greater than 0"@),
            self.max_file_size != 0 && self.default_timeout != 0 && self.analysis.batch_size == 0
                ==> (r matches Err(e) && e matches AppError::ConfigError(m) && m@
                == "analysis.batch_size must be greater than 0"@),
    {
        if self.max_file_size == 0 {
            return Err(AppError::ConfigError("max_file_size must be greater than 0".to_owned()));
        }
        if self.default_timeout == 0 {
            return Err(AppError::ConfigError("default_timeout must be greater than 0".to_owned()));
        }
        if self.analysis.batch_size == 0 {
            return Err(
                AppError::ConfigError("analysis.batch_size must be greater than 0".to_owned()),
            );
        }
        Ok(())
    }
}

impl Default for AppConfig {
    fn default() -> (c: Self)
        ensures
            c.is_default(),
    {
        AppConfig {
            max_file_size: 1000000000,
            default_timeout: 30,
            enable_logging: true,
            log_level: "info".to_owned(),
            cache_directory: "disk-cleaner-cache".to_owned(),
            temp_directory: "disk-cleaner-temp".to_owned(),
            enable_notifications: true,
            theme: ThemePreference::System,
            analysis: AnalysisConfig::default(),
            security: SecurityConfig::default(),
        }
    }
}

} // verus!
