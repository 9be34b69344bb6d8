//! Signing in to the workspace control plane and talking to it: where it is, what is sent
//! and what is made of its answers. The host sends and keeps the session token.
pub mod exchange;
pub mod laws;
pub mod login;
pub mod origin;
pub mod remote;
