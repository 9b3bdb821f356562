//! The coordinator's map tasks: their life cycle and the queue from which
//! they are handed out.

pub mod coordinator_mapper;
pub mod task_info;
