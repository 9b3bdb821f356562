//! The worker's decisions: its configuration and the loop that asks the
//! coordinator for a map task and then works on it.

pub mod config;
pub mod mapper;
