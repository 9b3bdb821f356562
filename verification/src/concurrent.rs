//! The coordinator's shared collections: `dashmap::DashMap` maps keyed by
//! worker id, and the `crossbeam` `SegQueue` of unassigned map tasks. Each
//! instantiation has a name for what it holds, and each method that the
//! library calls has a wrapper whose contract speaks of that name.

use vstd::prelude::*;

use crossbeam::queue::SegQueue;
use dashmap::DashMap;

use crate::apis::heartbeat::{HeartbeatInfo, HeartbeatView};
use crate::apis::registration::{RegistrationInfo, RegistrationView};
use crate::mapper::task_info::{TaskInfo, TaskInfoView};

verus! {

/// `dashmap::DashMap`, a concurrent hash map; opaque here.
#[verifier::external_type_specification]
#[verifier::external_body]
#[verifier::reject_recursive_types(K)]
#[verifier::reject_recursive_types(V)]
#[verifier::reject_recursive_types(S)]
pub struct ExDashMap<K, V, S>(DashMap<K, V, S>);

/// `crossbeam::queue::SegQueue`, an unbounded FIFO queue; opaque here.
#[verifier::external_type_specification]
#[verifier::external_body]
#[verifier::reject_recursive_types(T)]
pub struct ExSegQueue<T>(SegQueue<T>);

// ---------------------------------------------------------------------------
// The registry: worker id -> registration

/// What a registry map holds: each worker id with its registration.
pub uninterp spec fn registry_contents(map: DashMap<String, RegistrationInfo>) -> Map<Seq<char>, RegistrationView>;

/// `DashMap::new`: a map with no entries.
#[verifier::external_body]
pub(crate) fn registry_new() -> (created: DashMap<String, RegistrationInfo>)
    ensures
        registry_contents(created).dom() == Set::<Seq<char>>::empty(),
{
    DashMap::new()
}

/// `DashMap::contains_key`: whether the key has an entry. `String` keys are
/// hashed and compared by their characters.
#[verifier::external_body]
pub(crate) fn registry_contains_key(map: &DashMap<String, RegistrationInfo>, key: &String) -> (found: bool)
    ensures
        found == registry_contents(*map).contains_key(key@),
{
    map.contains_key(key)
}

/// `DashMap::insert`: the key now maps to the value; the value it mapped to
/// before, if any, is handed back.
#[verifier::external_body]
pub(crate) fn registry_insert(map: &mut DashMap<String, RegistrationInfo>, key: String, value: RegistrationInfo) -> (previous: Option<RegistrationInfo>)
    ensures
        registry_contents(*final(map)) == registry_contents(*old(map)).insert(key@, value@),
        previous is Some <==> registry_contents(*old(map)).contains_key(key@),
        previous matches Some(p) ==> p@ == registry_contents(*old(map))[key@],
{
    map.insert(key, value)
}

/// `DashMap::remove`: the key has no entry any more; the entry it had, if
/// any, is handed back.
#[verifier::external_body]
pub(crate) fn registry_remove(map: &mut DashMap<String, RegistrationInfo>, key: &String) -> (removed: Option<(String, RegistrationInfo)>)
    ensures
        registry_contents(*final(map)) == registry_contents(*old(map)).remove(key@),
        removed is Some <==> registry_contents(*old(map)).contains_key(key@),
        removed matches Some(e) ==> e.0@ == key@ && e.1@ == registry_contents(*old(map))[key@],
{
    map.remove(key)
}

// ---------------------------------------------------------------------------
// The heartbeat table: worker id -> heartbeat record

/// What a heartbeat map holds: each worker id with its heartbeat record.
pub uninterp spec fn heartbeat_contents(map: DashMap<String, HeartbeatInfo>) -> Map<Seq<char>, HeartbeatView>;

/// `DashMap::new`: a map with no entries.
#[verifier::external_body]
pub(crate) fn heartbeats_new() -> (created: DashMap<String, HeartbeatInfo>)
    ensures
        heartbeat_contents(created).dom() == Set::<Seq<char>>::empty(),
{
    DashMap::new()
}

/// `DashMap::insert`: the key now maps to the value; the value it mapped to
/// before, if any, is handed back.
#[verifier::external_body]
pub(crate) fn heartbeats_insert(map: &mut DashMap<String, HeartbeatInfo>, key: String, value: HeartbeatInfo) -> (previous: Option<HeartbeatInfo>)
    ensures
        heartbeat_contents(*final(map)) == heartbeat_contents(*old(map)).insert(key@, value@),
        previous is Some <==> heartbeat_contents(*old(map)).contains_key(key@),
        previous matches Some(p) ==> p@ == heartbeat_contents(*old(map))[key@],
{
    map.insert(key, value)
}

/// `DashMap::remove`: the key has no entry any more; the entry it had, if
/// any, is handed back.
#[verifier::external_body]
pub(crate) fn heartbeats_remove(map: &mut DashMap<String, HeartbeatInfo>, key: &String) -> (removed: Option<(String, HeartbeatInfo)>)
    ensures
        heartbeat_contents(*final(map)) == heartbeat_contents(*old(map)).remove(key@),
        removed is Some <==> heartbeat_contents(*old(map)).contains_key(key@),
        removed matches Some(e) ==> e.0@ == key@ && e.1@ == heartbeat_contents(*old(map))[key@],
{
    map.remove(key)
}

/// `DashMap::get`, with the record it finds copied out of the guard by its
/// derived `Clone`.
#[verifier::external_body]
pub(crate) fn heartbeats_get(map: &DashMap<String, HeartbeatInfo>, key: &String) -> (found: Option<HeartbeatInfo>)
    ensures
        found is Some <==> heartbeat_contents(*map).contains_key(key@),
        found matches Some(info) ==> info@ == heartbeat_contents(*map)[key@],
{
    map.get(key).map(|entry| entry.value().clone())
}

/// `DashMap::iter`, each entry copied out as a (key, record) pair. The
/// iterator visits every entry once; the order in which it does depends on
/// the map's random hasher and is left unsaid.
#[verifier::external_body]
pub(crate) fn heartbeats_entries(map: &DashMap<String, HeartbeatInfo>) -> (entries: Vec<(String, HeartbeatInfo)>)
    ensures
        forall|i: int| #![trigger entries@[i]]
            0 <= i < entries@.len() ==> heartbeat_contents(*map).contains_key(entries@[i].0@)
                && heartbeat_contents(*map)[entries@[i].0@] == entries@[i].1@,
        forall|key: Seq<char>| #[trigger] heartbeat_contents(*map).contains_key(key)
            ==> exists|i: int| 0 <= i < entries@.len() && entries@[i].0@ == key,
        forall|i: int, j: int| 0 <= i < j < entries@.len() ==> entries@[i].0@ != entries@[j].0@,
{
    map.iter().map(|entry| (entry.key().clone(), entry.value().clone())).collect()
}

// ---------------------------------------------------------------------------
// Assigned map tasks: worker id -> task

/// What a task assignment map holds: each worker id with the task it was
/// given.
pub uninterp spec fn assignment_contents(map: DashMap<String, TaskInfo>) -> Map<Seq<char>, TaskInfoView>;

/// `DashMap::new`: a map with no entries.
#[verifier::external_body]
pub(crate) fn assignments_new() -> (created: DashMap<String, TaskInfo>)
    ensures
        assignment_contents(created).dom() == Set::<Seq<char>>::empty(),
{
    DashMap::new()
}

/// `DashMap::insert`: the key now maps to the value; the value it mapped to
/// before, if any, is handed back.
#[verifier::external_body]
pub(crate) fn assignments_insert(map: &mut DashMap<String, TaskInfo>, key: String, value: TaskInfo) -> (previous: Option<TaskInfo>)
    ensures
        assignment_contents(*final(map)) == assignment_contents(*old(map)).insert(key@, value@),
        previous is Some <==> assignment_contents(*old(map)).contains_key(key@),
        previous matches Some(p) ==> p@ == assignment_contents(*old(map))[key@],
{
    map.insert(key, value)
}

/// `DashMap::get`, with the task it finds copied out of the guard by its
/// derived `Clone`.
#[verifier::external_body]
pub(crate) fn assignments_get(map: &DashMap<String, TaskInfo>, key: &String) -> (found: Option<TaskInfo>)
    ensures
        found is Some <==> assignment_contents(*map).contains_key(key@),
        found matches Some(task) ==> task@ == assignment_contents(*map)[key@],
{
    map.get(key).map(|entry| entry.value().clone())
}

// ---------------------------------------------------------------------------
// The queue of unassigned map tasks

/// What a task queue holds, from the head (next to leave) to the tail.
pub uninterp spec fn queue_contents(queue: SegQueue<TaskInfo>) -> Seq<TaskInfoView>;

/// `SegQueue::new`: an empty queue.
#[verifier::external_body]
pub(crate) fn queue_new() -> (queue: SegQueue<TaskInfo>)
    ensures
        queue_contents(queue) == Seq::<TaskInfoView>::empty(),
{
    SegQueue::new()
}

/// `SegQueue::push`: the task joins the tail.
#[verifier::external_body]
pub(crate) fn queue_push(queue: &mut SegQueue<TaskInfo>, task: TaskInfo)
    ensures
        queue_contents(*final(queue)) == queue_contents(*old(queue)).push(task@),
{
    queue.push(task)
}

/// `SegQueue::pop`: the task at the head leaves the queue; `None` when the
/// queue is empty.
#[verifier::external_body]
pub(crate) fn queue_pop(queue: &mut SegQueue<TaskInfo>) -> (head: Option<TaskInfo>)
    ensures
        queue_contents(*old(queue)).len() == 0 ==> head is None && queue_contents(*final(queue)) == queue_contents(*old(queue)),
        queue_contents(*old(queue)).len() > 0 ==> (head matches Some(task)
            && task@ == queue_contents(*old(queue))[0]
            && queue_contents(*final(queue)) == queue_contents(*old(queue)).drop_first()),
{
    queue.pop()
}

/// `SegQueue::is_empty`: whether the queue holds no task.
#[verifier::external_body]
pub(crate) fn queue_is_empty(queue: &SegQueue<TaskInfo>) -> (empty: bool)
    ensures
        empty == (queue_contents(*queue).len() == 0),
{
    queue.is_empty()
}

} // verus!
