//! Verified core of the open4x lobby, accounts and client tooling.
//!
//! The modules hold the decisions, encodings and in-memory state that the
//! HTTP handlers, the sqlite store and the command-line client are built on.

pub mod text;
pub mod model;
pub mod store;
pub mod mem_store;
pub mod mailer;
pub mod orchestrator;
pub mod games;
pub mod me;
pub mod cli;
pub mod sdk;
pub mod ui;
pub mod api_auth;
pub mod api_games;
pub mod api_me;
