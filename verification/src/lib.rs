//! Verified core of a database gateway for people and agents.
pub mod error;
pub mod ids;
pub mod model;
pub mod operations;
pub mod services;
pub mod sql_quoting_laws;
pub mod sql_script;
pub mod sql_script_laws;
pub mod state;
pub mod store;
pub mod text;
pub mod text_laws;
pub mod workspace;
pub mod workspace_auth;
