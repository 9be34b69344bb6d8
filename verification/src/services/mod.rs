//! The application services: for each request, which outside steps it takes and in
//! what order, what every answer leads to, and what is written down about it.
pub mod activity_service;
pub mod begin_laws;
pub mod catalog_service;
pub mod connection;
pub mod dashboard;
pub mod document;
pub mod effects;
pub mod monitoring;
pub mod operation_decision;
pub mod operation_laws;
pub mod operation_service;
pub mod query;
pub mod safety_service;
pub mod script;
pub mod terminal_authority;
pub mod workspace;
