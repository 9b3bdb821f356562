use vstd::prelude::*;

use crate::apis::error::ServiceError;
use crate::concurrent::registry_contains_key;
use crate::coordinator_state::CoordinatorState;
use crate::mapper::coordinator_mapper::{lemma_handing_out_keeps_tasks, task_pool, CoordinatorMapper};

verus! {

/// The answer to a request for a map task: the worker id and the input
/// file of the task handed out, or neither when no task is left.
#[derive(Clone, Debug)]
pub struct GetNewTaskResponse {
    pub task_id: Option<String>,
    pub file_path: Option<String>,
}

/// The mathematical value of a [`GetNewTaskResponse`].
pub struct GetNewTaskResponseView {
    pub task_id: Option<Seq<char>>,
    pub file_path: Option<Seq<char>>,
}

impl View for GetNewTaskResponse {
    type V = GetNewTaskResponseView;

    open spec fn view(&self) -> GetNewTaskResponseView {
        GetNewTaskResponseView {
            task_id: match self.task_id {
                Some(id) => Some(id@),
                None => None,
            },
            file_path: match self.file_path {
                Some(path) => Some(path@),
                None => None,
            },
        }
    }
}

/// Hands the next unassigned map task to the worker `worker_id`. A worker
/// that is not registered is refused; when every task has been handed out
/// the answer carries neither id nor file. Otherwise the task at the head of
/// the queue leaves it and is recorded as the worker's, and the answer names
/// the worker and the task's input file.
pub fn get_new_task(state: &CoordinatorState, coordinator_mapper: &mut CoordinatorMapper, worker_id: String) -> (result: Result<GetNewTaskResponse, ServiceError>)
    ensures
        !state.registered().contains_key(worker_id@) ==> (result matches Err(e) && e == ServiceError::WorkerNotRegistered
            && final(coordinator_mapper).unassigned() == old(coordinator_mapper).unassigned()
            && final(coordinator_mapper).assigned() == old(coordinator_mapper).assigned()),
        state.registered().contains_key(worker_id@) && old(coordinator_mapper).unassigned().len() == 0
            ==> (result matches Ok(r) && r@ == (GetNewTaskResponseView { task_id: None, file_path: None })
            && final(coordinator_mapper).unassigned() == old(coordinator_mapper).unassigned()
            && final(coordinator_mapper).assigned() == old(coordinator_mapper).assigned()),
        state.registered().contains_key(worker_id@) && old(coordinator_mapper).unassigned().len() > 0
            ==> (result matches Ok(r) && r@ == (GetNewTaskResponseView {
                task_id: Some(worker_id@),
                file_path: Some(old(coordinator_mapper).unassigned()[0].task_id),
            })
            && final(coordinator_mapper).unassigned() == old(coordinator_mapper).unassigned().drop_first()
            && final(coordinator_mapper).assigned() == old(coordinator_mapper).assigned().insert(
                worker_id@,
                old(coordinator_mapper).unassigned()[0],
            )),
        final(coordinator_mapper).remaining() == old(coordinator_mapper).remaining(),
        old(coordinator_mapper).assigned().dom().finite() && !old(coordinator_mapper).assigned().contains_key(worker_id@)
            ==> task_pool(final(coordinator_mapper).unassigned(), final(coordinator_mapper).assigned())
                == task_pool(old(coordinator_mapper).unassigned(), old(coordinator_mapper).assigned()),
{
    if !registry_contains_key(&state.registered_workers, &worker_id) {
        return Err(ServiceError::WorkerNotRegistered);
    }
    if coordinator_mapper.mappers_not_assigned_is_empty() {
        return Ok(GetNewTaskResponse { task_id: None, file_path: None });
    }
    let ghost queue_before = coordinator_mapper.unassigned();
    let ghost assigned_before = coordinator_mapper.assigned();
    let task_info = coordinator_mapper.pop_unassigned();
    if let Some(task_info) = task_info {
        let task_name = task_info.task_id().clone();
        coordinator_mapper.add_mapper_to_map(&worker_id, task_info);
        proof {
            if assigned_before.dom().finite() && !assigned_before.contains_key(worker_id@) {
                lemma_handing_out_keeps_tasks(queue_before, assigned_before, worker_id@);
            }
        }
        Ok(GetNewTaskResponse { task_id: Some(worker_id), file_path: Some(task_name) })
    } else {
        Err(ServiceError::NoUnassignedMappers)
    }
}

} // verus!
