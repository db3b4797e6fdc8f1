//! A typed client for the Fitbit Web API.
//!
//! The verified part of the client: endpoint paths, the decisions of the
//! request dispatch, client configuration, JSON framing of request bodies and
//! the per-area error types.
pub mod client;
pub mod json;
pub mod types;
pub mod path;
pub mod activity;
pub mod body;
pub mod nutrition;
pub mod sleep;
pub mod user;
