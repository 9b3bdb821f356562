use vstd::prelude::*;

use crate::apis::error::ServiceError;
use crate::concurrent::{heartbeats_insert, registry_contains_key};
use crate::coordinator_state::CoordinatorState;
use crate::timestamp::{now, Timestamp};

verus! {

/// What the coordinator keeps of a worker's heartbeats: when the last one
/// came, and how many checks in a row have found it stale since.
#[derive(Clone, Debug)]
pub struct HeartbeatInfo {
    pub worker_id: String,
    pub last_heartbeat: Timestamp,
    pub num_failed_heartbeats: u32,
}

/// The mathematical value of a [`HeartbeatInfo`].
pub struct HeartbeatView {
    pub worker_id: Seq<char>,
    pub last_heartbeat: Timestamp,
    pub num_failed_heartbeats: nat,
}

impl View for HeartbeatInfo {
    type V = HeartbeatView;

    open spec fn view(&self) -> HeartbeatView {
        HeartbeatView {
            worker_id: self.worker_id@,
            last_heartbeat: self.last_heartbeat,
            num_failed_heartbeats: self.num_failed_heartbeats as nat,
        }
    }
}

impl HeartbeatInfo {
    /// A heartbeat record with no failed checks.
    pub fn new(worker_id: String, last_heartbeat: Timestamp) -> (info: Self)
        ensures
            info@ == (HeartbeatView { worker_id: worker_id@, last_heartbeat, num_failed_heartbeats: 0 }),
    {
        HeartbeatInfo { worker_id, last_heartbeat, num_failed_heartbeats: 0 }
    }
}

/// Records a heartbeat of the worker `worker_id` received at `now`. A
/// worker that is not registered is refused and nothing changes; otherwise
/// its heartbeat record is replaced by one stamped `now`, with no failed
/// checks.
pub fn heartbeat_at(state: &mut CoordinatorState, worker_id: String, now: Timestamp) -> (result: Result<(), ServiceError>)
    ensures
        !old(state).registered().contains_key(worker_id@) ==> result == Err::<(), ServiceError>(ServiceError::WorkerNotRegistered)
            && final(state).records() == old(state).records(),
        old(state).registered().contains_key(worker_id@) ==> result == Ok::<(), ServiceError>(())
            && final(state).records() == old(state).records().insert(
                worker_id@,
                HeartbeatView { worker_id: worker_id@, last_heartbeat: now, num_failed_heartbeats: 0 },
            ),
        final(state).registered() == old(state).registered(),
        old(state).wf() ==> final(state).wf(),
{
    if !registry_contains_key(&state.registered_workers, &worker_id) {
        return Err(ServiceError::WorkerNotRegistered);
    }
    let heartbeat_info = HeartbeatInfo::new(worker_id.clone(), now);
    heartbeats_insert(&mut state.heartbeats, worker_id, heartbeat_info);
    Ok(())
}

/// Records a heartbeat of the worker `worker_id` received now, as
/// [`heartbeat_at`] does.
pub fn heartbeat(state: &mut CoordinatorState, worker_id: String) -> (result: Result<(), ServiceError>)
    ensures
        !old(state).registered().contains_key(worker_id@) ==> result == Err::<(), ServiceError>(ServiceError::WorkerNotRegistered)
            && final(state).records() == old(state).records(),
        old(state).registered().contains_key(worker_id@) ==> result == Ok::<(), ServiceError>(()) && exists|at: Timestamp|
            at.normalized() && final(state).records() == old(state).records().insert(
                worker_id@,
                HeartbeatView { worker_id: worker_id@, last_heartbeat: at, num_failed_heartbeats: 0 },
            ),
        final(state).registered() == old(state).registered(),
        old(state).wf() ==> final(state).wf(),
{
    heartbeat_at(state, worker_id, now())
}

} // verus!
