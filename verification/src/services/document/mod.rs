//! Typed reads of document databases.
pub mod agent;
pub mod desktop;
pub mod laws;
pub mod shared;
