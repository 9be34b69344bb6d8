//! SQL scripts: several statements, all of them reads or all in one transaction.
pub mod laws;
pub mod reads;
pub mod run;

pub mod shared;
pub mod transaction;
