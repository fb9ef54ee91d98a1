//! Application configuration handed to the database layer by bootstrap.

use vstd::prelude::*;

verus! {

/// Top-level application configuration.
#[derive(Debug, Clone, PartialEq, Eq)]
pub struct AppConfig {
    /// Database configuration.
    pub database: DatabaseConfig,
    /// User-interface configuration.
    pub ui: UiConfig,
    /// Logging configuration.
    pub logging: LoggingConfig,
}

/// Where the storage file lives and how its pool is sized.
#[derive(Debug, Clone, PartialEq, Eq)]
pub struct DatabaseConfig {
    /// Path of the storage file.
    pub path: String,
    /// Maximum number of pooled connections.
    pub max_connections: u32,
    /// Checkout timeout in seconds.
    pub connection_timeout: u64,
}

/// Window and theme settings; carried for the presentation layer, unread here.
#[derive(Debug, Clone, PartialEq, Eq)]
pub struct UiConfig {
    /// Window title.
    pub window_title: String,
    /// Initial window width.
    pub window_width: u32,
    /// Initial window height.
    pub window_height: u32,
    /// Theme name.
    pub theme: String,
}

/// Log level and optional log file; carried for bootstrap, unread here.
#[derive(Debug, Clone, PartialEq, Eq)]
pub struct LoggingConfig {
    /// Log level name.
    pub level: String,
    /// Log file path, if logging to a file.
    pub file_path: Option<String>,
}

/// The built-in defaults: a local storage file, ten connections, a
/// thirty-second checkout timeout.
pub open spec fn is_default_config(c: AppConfig) -> bool {
    &&& c.database.path@ == "data/minicrm.db"@
    &&& c.database.max_connections == 10
    &&& c.database.connection_timeout == 30
    &&& c.ui.window_title@ == "MiniCRM"@
    &&& c.ui.window_width == 1280
    &&& c.ui.window_height == 800
    &&& c.ui.theme@ == "default"@
    &&& c.logging.level@ == "info"@
    &&& c.logging.file_path matches Some(p) && p@ == "logs/minicrm.log"@
}

impl Default for AppConfig {
    /// The built-in defaults.
    fn default() -> (r: Self)
        ensures
            is_default_config(r),
    {
        AppConfig {
            database: DatabaseConfig {
                path: "data/minicrm.db".to_owned(),
                max_connections: 10,
                connection_timeout: 30,
            },
            ui: UiConfig {
                window_title: "MiniCRM".to_owned(),
                window_width: 1280,
                window_height: 800,
                theme: "default".to_owned(),
            },
            logging: LoggingConfig {
                level: "info".to_owned(),
                file_path: Some("logs/minicrm.log".to_owned()),
            },
        }
    }
}

impl AppConfig {
    /// Loads the application configuration. No configuration file format is
    /// defined yet, so this always yields the built-in defaults.
    pub fn load() -> (r: Result<AppConfig, String>)
        ensures
            r matches Ok(c) && is_default_config(c),
    {
        Ok(AppConfig::default())
    }
}

} // verus!
