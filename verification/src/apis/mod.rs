//! The logic behind the coordinator's three services: registration,
//! heartbeats and task assignment.

pub mod error;
pub mod heartbeat;
pub mod mapper;
pub mod registration;
