//! Decision logic of an onboarding-verification bot for Discord servers.
//!
//! The library holds what the bot decides and computes; sending, fetching
//! and timing are left to the caller.
pub mod text;
pub mod channel;
pub mod discord;
pub mod chance;
pub mod config;
pub mod access;
pub mod deletion;
pub mod questions;
pub mod messages;
pub mod interaction;
