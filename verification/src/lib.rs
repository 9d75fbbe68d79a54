//! Connection-profile handling and external-tool orchestration for a SQL
//! Server bulk export/import workflow.
//!
//! The library derives wire-format connection strings from stored profiles,
//! decides how an invocation of the external packaging tool is assembled,
//! and turns the tool's observable behaviour (progress lines, exit status)
//! into a final outcome. All I/O — running the tool, draining its output,
//! persistence — lives outside this crate; the functions here are the pure
//! decisions that drive it.

pub mod connection_string;
pub mod locator;
pub mod models;
pub mod orchestrator;
pub mod preferences;

pub use connection_string::build_connection_string;
pub use models::Preferences;
