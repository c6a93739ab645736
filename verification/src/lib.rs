//! An in-memory OAuth authorization server for the authorization-code grant:
//! it registers clients, records approved authorization sessions, exchanges
//! authorization codes for access tokens and checks bearer tokens.
//!
//! The stores and the decisions of every endpoint are verified. The
//! transport, the rendering of pages and the locks around the stores are left
//! to the caller, which hands requests over as plain values.

pub mod constants;
pub mod file_manager;
pub mod oauth;
pub mod simple_oauth;
pub mod string_map;
pub mod text;

