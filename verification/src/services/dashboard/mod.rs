//! Saved dashboards: creating one from an agent's read, saving, and running one again.
pub mod create;
pub mod run;
