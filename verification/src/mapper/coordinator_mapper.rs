use vstd::prelude::*;

use crossbeam::queue::SegQueue;
use dashmap::DashMap;
use vstd::multiset::Multiset;

use crate::concurrent::{
    assignment_contents, assignments_get, assignments_insert, assignments_new, queue_contents,
    queue_is_empty, queue_new, queue_pop, queue_push,
};
use crate::mapper::task_info::{StatusView, TaskInfo, TaskInfoView};

verus! {

/// The coordinator's map tasks: those not handed out yet, in the order in
/// which they were added, and those handed out, by the worker that got them.
pub struct CoordinatorMapper {
    mappers_map: DashMap<String, TaskInfo>,
    mappers_list: SegQueue<TaskInfo>,
    pub mappers_remaining: i32,
}

/// A fresh task for the input file `name`.
pub open spec fn pending_task(name: Seq<char>) -> TaskInfoView {
    TaskInfoView { task_id: name, status: StatusView::NotStarted, start_time: None, end_time: None }
}

/// The fresh tasks for the input files `names`, in their order.
pub open spec fn pending_tasks(names: Seq<String>) -> Seq<TaskInfoView> {
    names.map_values(|name: String| pending_task(name@))
}

/// Tasks leave the queue in the order of the files they were built for:
/// once `k` tasks of the queue built for `names` have been taken from its
/// head, the queue holds the fresh tasks of the files from position `k` on,
/// so the next task taken is that of file `k`.
pub proof fn lemma_tasks_leave_in_order(names: Seq<String>, k: int)
    requires
        0 <= k < names.len(),
    ensures
        pending_tasks(names).skip(k).len() > 0,
        pending_tasks(names).skip(k)[0] == pending_task(names[k]@),
        pending_tasks(names).skip(k).drop_first() == pending_tasks(names).skip(k + 1),
        pending_tasks(names).skip(k) == pending_tasks(names.skip(k)),
{
    assert(pending_tasks(names).skip(k).drop_first() =~= pending_tasks(names).skip(k + 1));
    assert(pending_tasks(names).skip(k) =~= pending_tasks(names.skip(k)));
}

/// The tasks of an assignment map, each as often as it is assigned.
pub open spec fn assigned_tasks(assigned: Map<Seq<char>, TaskInfoView>) -> Multiset<TaskInfoView>
    decreases assigned.dom().len(),
{
    if assigned.dom().finite() && assigned.dom().len() > 0 {
        let id = assigned.dom().choose();
        assigned_tasks(assigned.remove(id)).insert(assigned[id])
    } else {
        Multiset::empty()
    }
}

/// All the tasks of a queue and an assignment map together.
pub open spec fn task_pool(queue: Seq<TaskInfoView>, assigned: Map<Seq<char>, TaskInfoView>) -> Multiset<TaskInfoView> {
    queue.to_multiset().add(assigned_tasks(assigned))
}

/// Taking any one entry out of a finite assignment map takes its task out
/// of the map's tasks.
proof fn lemma_assigned_tasks_remove(assigned: Map<Seq<char>, TaskInfoView>, id: Seq<char>)
    requires
        assigned.dom().finite(),
        assigned.contains_key(id),
    ensures
        assigned_tasks(assigned) == assigned_tasks(assigned.remove(id)).insert(assigned[id]),
    decreases assigned.dom().len(),
{
    let first = assigned.dom().choose();
    assert(assigned.dom().contains(first));
    if first != id {
        let without_first = assigned.remove(first);
        let without_id = assigned.remove(id);
        assert(without_first.dom() =~= assigned.dom().remove(first));
        assert(without_id.dom() =~= assigned.dom().remove(id));
        lemma_assigned_tasks_remove(without_first, id);
        lemma_assigned_tasks_remove(without_id, first);
        assert(without_first.remove(id) =~= without_id.remove(first));
        assert(assigned_tasks(without_first).insert(assigned[first])
            =~= assigned_tasks(without_id).insert(assigned[id]));
    }
}

/// Handing out a task keeps every task: the tasks of the queue and the
/// assignments together are the same before and after, when the worker held
/// no task before.
pub proof fn lemma_handing_out_keeps_tasks(
    queue: Seq<TaskInfoView>,
    assigned: Map<Seq<char>, TaskInfoView>,
    worker_id: Seq<char>,
)
    requires
        queue.len() > 0,
        !assigned.contains_key(worker_id),
        assigned.dom().finite(),
    ensures
        task_pool(queue.drop_first(), assigned.insert(worker_id, queue[0])) == task_pool(queue, assigned),
{
    lemma_assignment_moves_one_task(queue, assigned, worker_id);
    let after = assigned.insert(worker_id, queue[0]);
    lemma_assigned_tasks_remove(after, worker_id);
    assert(task_pool(queue.drop_first(), after) =~= task_pool(queue, assigned));
}

/// Handing out a task moves it and nothing else: the queue loses exactly
/// one copy of its head, and the assignments gain exactly that task under the
/// worker's id, when the worker held none before.
pub proof fn lemma_assignment_moves_one_task(
    queue: Seq<TaskInfoView>,
    assigned: Map<Seq<char>, TaskInfoView>,
    worker_id: Seq<char>,
)
    requires
        queue.len() > 0,
        !assigned.contains_key(worker_id),
    ensures
        queue.drop_first().to_multiset().insert(queue[0]) == queue.to_multiset(),
        assigned.insert(worker_id, queue[0]).remove(worker_id) == assigned,
        assigned.insert(worker_id, queue[0])[worker_id] == queue[0],
        assigned.insert(worker_id, queue[0]).dom() == assigned.dom().insert(worker_id),
{
    broadcast use vstd::seq_lib::group_to_multiset_ensures;
    assert(queue.remove(0) =~= queue.drop_first());
    assert(queue.to_multiset().count(queue[0]) > 0) by {
        assert(queue.contains(queue[0]));
    }
    assert(queue.drop_first().to_multiset().insert(queue[0]) =~= queue.to_multiset());
    assert(assigned.insert(worker_id, queue[0]).remove(worker_id) =~= assigned);
    assert(assigned.insert(worker_id, queue[0]).dom() =~= assigned.dom().insert(worker_id));
}

impl CoordinatorMapper {
    /// The tasks not handed out yet, from the next to go.
    pub closed spec fn unassigned(&self) -> Seq<TaskInfoView> {
        queue_contents(self.mappers_list)
    }

    /// The count of tasks added, handed out or not.
    pub closed spec fn remaining(&self) -> int {
        self.mappers_remaining as int
    }

    /// The tasks handed out, by worker id.
    pub closed spec fn assigned(&self) -> Map<Seq<char>, TaskInfoView> {
        assignment_contents(self.mappers_map)
    }

    fn new() -> (mapper: Self)
        ensures
            mapper.unassigned() == Seq::<TaskInfoView>::empty(),
            mapper.assigned() == Map::<Seq<char>, TaskInfoView>::empty(),
            mapper.remaining() == 0,
    {
        let mapper = CoordinatorMapper { mappers_map: assignments_new(), mappers_list: queue_new(), mappers_remaining: 0 };
        assert(mapper.assigned() =~= Map::<Seq<char>, TaskInfoView>::empty());
        mapper
    }

    /// Adds a fresh task for the input file `task_name` behind the others.
    fn add_mapper(&mut self, task_name: &str)
        requires
            old(self).remaining() < i32::MAX,
        ensures
            final(self).unassigned() == old(self).unassigned().push(pending_task(task_name@)),
            final(self).assigned() == old(self).assigned(),
            final(self).remaining() == old(self).remaining() + 1,
    {
        queue_push(&mut self.mappers_list, TaskInfo::new(task_name));
        self.mappers_remaining = self.mappers_remaining + 1;
    }

    /// The count of tasks added, handed out or not.
    pub fn mappers_remaining_count(&self) -> (count: i32)
        ensures
            count == self.remaining(),
    {
        self.mappers_remaining
    }

    /// Whether every task has been handed out.
    pub fn mappers_not_assigned_is_empty(&self) -> (empty: bool)
        ensures
            empty == (self.unassigned().len() == 0),
    {
        queue_is_empty(&self.mappers_list)
    }

    /// Takes the next task that has not been handed out; `None` when there
    /// is none.
    pub fn pop_unassigned(&mut self) -> (task: Option<TaskInfo>)
        ensures
            old(self).unassigned().len() == 0 ==> task is None && final(self).unassigned() == old(self).unassigned(),
            old(self).unassigned().len() > 0 ==> (task matches Some(t) && t@ == old(self).unassigned()[0]
                && final(self).unassigned() == old(self).unassigned().drop_first()),
            final(self).assigned() == old(self).assigned(),
            final(self).remaining() == old(self).remaining(),
    {
        queue_pop(&mut self.mappers_list)
    }

    /// Records that the worker got the task, in place of any task it got
    /// before.
    pub fn add_mapper_to_map(&mut self, worker_id: &String, task: TaskInfo)
        ensures
            final(self).assigned() == old(self).assigned().insert(worker_id@, task@),
            final(self).unassigned() == old(self).unassigned(),
            final(self).remaining() == old(self).remaining(),
    {
        assignments_insert(&mut self.mappers_map, worker_id.clone(), task);
    }

    /// The task that the worker got, if any.
    pub fn assigned_task(&self, worker_id: &String) -> (task: Option<TaskInfo>)
        ensures
            task is Some <==> self.assigned().contains_key(worker_id@),
            task matches Some(t) ==> t@ == self.assigned()[worker_id@],
    {
        assignments_get(&self.mappers_map, worker_id)
    }
}

impl Default for CoordinatorMapper {
    fn default() -> (mapper: Self)
        ensures
            mapper.unassigned() == Seq::<TaskInfoView>::empty(),
            mapper.assigned() == Map::<Seq<char>, TaskInfoView>::empty(),
            mapper.remaining() == 0,
    {
        Self::new()
    }
}

/// Builds the task queue for the input files `file_names`: one fresh task
/// per file, in their order, none handed out.
pub fn setup_mappers(file_names: &Vec<String>) -> (mapper: CoordinatorMapper)
    requires
        file_names@.len() <= i32::MAX,
    ensures
        mapper.unassigned() == pending_tasks(file_names@),
        mapper.assigned() == Map::<Seq<char>, TaskInfoView>::empty(),
        mapper.remaining() == file_names@.len(),
{
    let mut coordinator_mapper = CoordinatorMapper::new();
    let mut i: usize = 0;
    while i < file_names.len()
        invariant
            0 <= i <= file_names@.len() <= i32::MAX,
            coordinator_mapper.unassigned() == pending_tasks(file_names@.subrange(0, i as int)),
            coordinator_mapper.assigned() == Map::<Seq<char>, TaskInfoView>::empty(),
            coordinator_mapper.remaining() == i,
        decreases file_names@.len() - i,
    {
        coordinator_mapper.add_mapper(file_names[i].as_str());
        proof {
            assert(file_names@.subrange(0, i + 1) =~= file_names@.subrange(0, i as int).push(file_names@[i as int]));
            assert(pending_tasks(file_names@.subrange(0, i + 1)) =~= pending_tasks(file_names@.subrange(0, i as int)).push(pending_task(file_names@[i as int]@)));
        }
        i = i + 1;
    }
    assert(file_names@.subrange(0, i as int) =~= file_names@);
    coordinator_mapper
}

} // verus!
