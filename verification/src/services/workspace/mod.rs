//! Workspaces: accounts and sessions, selection, and connections that are shared.
pub mod accounts;
pub mod bind;
pub mod copy;
pub mod copy_laws;
pub mod laws;
pub mod refresh;
pub mod selection;

