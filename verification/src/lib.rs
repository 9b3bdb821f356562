//! Coordinator and worker logic of a small MapReduce framework: worker
//! registration, heartbeat tracking and monitoring, the queue of map tasks
//! and their assignment to workers, and the word-count map function.

pub mod timestamp;
pub mod apis;
pub mod mapper;
pub mod concurrent;
pub mod coordinator_state;
pub mod map;
pub mod text;
pub mod config;
pub mod worker;
