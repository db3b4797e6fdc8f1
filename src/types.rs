//! Request and response types of each API area.
pub mod activity;
pub mod body;
pub mod nutrition;
pub mod sleep;
pub mod user;
