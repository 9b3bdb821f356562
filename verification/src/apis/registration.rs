use vstd::prelude::*;

use crate::apis::error::ServiceError;
use crate::concurrent::{registry_contains_key, registry_insert};
use crate::coordinator_state::CoordinatorState;
use crate::timestamp::{now, Timestamp};

verus! {

/// What the coordinator keeps of a registered worker.
#[derive(Clone, Debug)]
pub struct RegistrationInfo {
    pub hostname: String,
    pub registered_at: Timestamp,
}

/// The mathematical value of a [`RegistrationInfo`].
pub struct RegistrationView {
    pub hostname: Seq<char>,
    pub registered_at: Timestamp,
}

impl View for RegistrationInfo {
    type V = RegistrationView;

    open spec fn view(&self) -> RegistrationView {
        RegistrationView { hostname: self.hostname@, registered_at: self.registered_at }
    }
}

impl RegistrationInfo {
    pub fn new(hostname: String, registered_at: Timestamp) -> (info: Self)
        ensures
            info@ == (RegistrationView { hostname: hostname@, registered_at }),
    {
        RegistrationInfo { hostname, registered_at }
    }
}

/// The answer to a successful registration.
#[derive(Clone, Copy, Debug, PartialEq, Eq, Structural)]
pub struct RegisterWorkerResponse {
    pub success: bool,
    pub registered_at: Option<Timestamp>,
}

/// Registers the worker `worker_id` on host `hostname` at time `now`. A
/// worker id that is already registered is refused and nothing changes;
/// otherwise the registry gains the worker, stamped with `now`.
pub fn register_at(state: &mut CoordinatorState, worker_id: String, hostname: String, now: Timestamp) -> (result: Result<RegisterWorkerResponse, ServiceError>)
    ensures
        old(state).registered().contains_key(worker_id@) ==> result == Err::<RegisterWorkerResponse, ServiceError>(ServiceError::WorkerAlreadyRegistered)
            && final(state).registered() == old(state).registered(),
        !old(state).registered().contains_key(worker_id@) ==> result == Ok::<RegisterWorkerResponse, ServiceError>(RegisterWorkerResponse { success: true, registered_at: Some(now) })
            && final(state).registered() == old(state).registered().insert(
                worker_id@,
                RegistrationView { hostname: hostname@, registered_at: now },
            ),
        final(state).records() == old(state).records(),
        old(state).wf() ==> final(state).wf(),
{
    let registration = RegistrationInfo::new(hostname, now);
    let registered_at = registration.registered_at;
    if registry_contains_key(&state.registered_workers, &worker_id) {
        return Err(ServiceError::WorkerAlreadyRegistered);
    }
    registry_insert(&mut state.registered_workers, worker_id, registration);
    Ok(RegisterWorkerResponse { success: true, registered_at: Some(registered_at) })
}

/// Registers the worker `worker_id` on host `hostname` at the current
/// time, as [`register_at`] does.
pub fn register(state: &mut CoordinatorState, worker_id: String, hostname: String) -> (result: Result<RegisterWorkerResponse, ServiceError>)
    ensures
        old(state).registered().contains_key(worker_id@) ==> result == Err::<RegisterWorkerResponse, ServiceError>(ServiceError::WorkerAlreadyRegistered)
            && final(state).registered() == old(state).registered(),
        !old(state).registered().contains_key(worker_id@) ==> exists|at: Timestamp|
            at.normalized()
            && result == Ok::<RegisterWorkerResponse, ServiceError>(RegisterWorkerResponse { success: true, registered_at: Some(at) })
            && final(state).registered() == old(state).registered().insert(
                worker_id@,
                RegistrationView { hostname: hostname@, registered_at: at },
            ),
        final(state).records() == old(state).records(),
        old(state).wf() ==> final(state).wf(),
{
    register_at(state, worker_id, hostname, now())
}

} // verus!
