//! Database monitoring: its status, and the one role change that improves it.
pub mod laws;
pub mod propose;
pub mod run;

pub mod shared;
pub mod status;
