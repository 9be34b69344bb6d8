//! Connections: what agents see of them, how they are selected, saved, grouped and removed.
pub mod groups;
pub mod laws;
pub mod lifecycle;
pub mod select;
pub mod upsert;
