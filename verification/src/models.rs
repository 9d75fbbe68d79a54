//! The data entities the orchestration works over: connection profiles,
//! export/import requests, preferences, and the terminal outcome of one
//! external-tool invocation.

use vstd::prelude::*;

verus! {

/// A named, reusable description of how to reach one SQL Server instance.
///
/// When `connection_string` is present and non-empty it takes absolute
/// precedence over every other field. `created_at` and `updated_at` are
/// assigned by the persistence layer; this crate never derives them.
pub struct SqlConnection {
    pub id: Option<i64>,
    pub name: String,
    pub server: String,
    pub port: Option<String>,
    pub database_name: Option<String>,
    pub username: Option<String>,
    pub password: Option<String>,
    pub connection_string: Option<String>,
    pub use_windows_auth: bool,
    pub trust_server_cert: bool,
    pub encrypt: bool,
    pub created_at: Option<String>,
    pub updated_at: Option<String>,
}

/// A request to export a database into a package file.
pub struct ExportRequest {
    pub connection_id: i64,
    pub output_path: String,
    pub database_name: String,
}

/// A request to import a package file into a database reached through a
/// stored connection profile.
pub struct ImportRequest {
    pub connection_id: i64,
    pub bacpac_path: String,
    pub target_database: String,
}

/// A request to import a package file through a one-off, fully inline
/// connection description that is never persisted.
pub struct ImportWithDetailsRequest {
    pub bacpac_path: String,
    pub target_database: String,
    pub server: String,
    pub port: Option<String>,
    pub username: Option<String>,
    pub password: Option<String>,
    pub use_windows_auth: bool,
    pub trust_server_cert: bool,
    pub encrypt: bool,
}

/// One stored key/value preference row.
pub struct AppPreference {
    pub key: String,
    pub value: String,
    pub created_at: Option<String>,
    pub updated_at: Option<String>,
}

/// The typed preferences exposed to the presentation layer.
pub struct Preferences {
    pub theme: String,
}

impl Preferences {
    /// The preferences used before anything has been stored.
    pub fn default() -> (r: Preferences)
        ensures
            r.theme@ == "system"@,
    {
        Preferences { theme: "system".to_owned() }
    }
}

/// The terminal result of one run of the external packaging tool: the tool
/// either exited with status zero, or failed with an exit code (`None` when
/// it was terminated abnormally and no code exists).
pub enum ToolInvocationOutcome {
    Success { message: String },
    Failure { exit_code: Option<i32>, message: String },
}

} // verus!
