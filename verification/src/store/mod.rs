//! The local store: workspaces and accounts, connections, and what is kept beside them.
//! Secrets are never in it; a connection carries only the name of a credential.
pub mod account_laws;
pub mod call_laws;
pub mod chat;
pub mod codec;
pub mod column_laws;
pub mod connections;
pub mod dashboards;
pub mod directory;
pub mod keys;
pub mod laws;
pub mod listing_laws;
pub mod membership_laws;
pub mod memberships;
pub mod order;
pub mod params;
pub mod records;
pub mod remote;
pub mod row_laws;
pub mod rows;
pub mod startup;
pub mod tables;
