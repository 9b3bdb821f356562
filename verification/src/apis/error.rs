use vstd::prelude::*;

verus! {

/// Why the coordinator refused a request.
#[derive(Clone, Copy, Debug, PartialEq, Eq, Structural)]
pub enum ServiceError {
    /// The worker id is already in the registry (answered as `ALREADY_EXISTS`).
    WorkerAlreadyRegistered,
    /// The worker id is not in the registry (answered as `NOT_FOUND`).
    WorkerNotRegistered,
    /// No map task could be taken from the queue (answered as `NOT_FOUND`).
    NoUnassignedMappers,
}

} // verus!
