use vstd::prelude::*;

use dashmap::DashMap;

use crate::apis::heartbeat::{HeartbeatInfo, HeartbeatView};
use crate::apis::registration::{RegistrationInfo, RegistrationView};
use crate::concurrent::{
    heartbeat_contents, heartbeats_entries, heartbeats_get, heartbeats_insert, heartbeats_new,
    heartbeats_remove, registry_contents, registry_new, registry_remove,
};
use crate::timestamp::{now, Timestamp};

verus! {

/// A heartbeat older than this many seconds at a check counts as missed.
pub const HEARTBEAT_TIMEOUT_SECS: i64 = 10;

/// A worker whose heartbeat is missed at a check after this many missed
/// checks in a row is dropped.
pub const MAX_FAILED_HEARTBEATS: u32 = 3;

/// The state that the coordinator's services share: the registry of
/// workers and their heartbeat records, both keyed by worker id.
pub struct CoordinatorState {
    pub registered_workers: DashMap<String, RegistrationInfo>,
    pub heartbeats: DashMap<String, HeartbeatInfo>,
}

/// What a heartbeat check decides for one worker.
#[derive(Clone, Copy, Debug, PartialEq, Eq, Structural)]
pub enum HeartbeatCheck {
    /// The heartbeat is stale and fewer checks than allowed have failed:
    /// count one more failed check.
    IncrementFailures,
    /// The heartbeat is stale once more after the allowed failed checks:
    /// drop the worker from the registry and the heartbeat table.
    RemoveWorker,
    /// The heartbeat is recent: the count of failed checks starts again.
    ResetFailures,
}

/// The heartbeat is at least the timeout old at `now`.
pub open spec fn is_stale(info: HeartbeatView, now: Timestamp) -> bool {
    now.seconds - info.last_heartbeat.seconds >= HEARTBEAT_TIMEOUT_SECS
}

/// A check at `now` drops the worker.
pub open spec fn is_evicted(info: HeartbeatView, now: Timestamp) -> bool {
    is_stale(info, now) && info.num_failed_heartbeats >= MAX_FAILED_HEARTBEATS
}

/// What a check at `now` decides for a heartbeat record.
pub open spec fn check_outcome(info: HeartbeatView, now: Timestamp) -> HeartbeatCheck {
    if !is_stale(info, now) {
        HeartbeatCheck::ResetFailures
    } else if info.num_failed_heartbeats < MAX_FAILED_HEARTBEATS {
        HeartbeatCheck::IncrementFailures
    } else {
        HeartbeatCheck::RemoveWorker
    }
}

/// The record of a worker that a check at `now` keeps.
pub open spec fn checked_record(info: HeartbeatView, now: Timestamp) -> HeartbeatView {
    if is_stale(info, now) {
        HeartbeatView { num_failed_heartbeats: info.num_failed_heartbeats + 1, ..info }
    } else {
        HeartbeatView { num_failed_heartbeats: 0, ..info }
    }
}

/// The workers that a check at `now` drops.
pub open spec fn evicted_workers(records: Map<Seq<char>, HeartbeatView>, now: Timestamp) -> Set<Seq<char>> {
    Set::new(|id: Seq<char>| records.contains_key(id) && is_evicted(records[id], now))
}

/// The heartbeat table after a check at `now`.
pub open spec fn heartbeats_after_check(records: Map<Seq<char>, HeartbeatView>, now: Timestamp) -> Map<Seq<char>, HeartbeatView> {
    Map::new(
        |id: Seq<char>| records.contains_key(id) && !is_evicted(records[id], now),
        |id: Seq<char>| checked_record(records[id], now),
    )
}

/// The registry after a check at `now` of the heartbeat table `records`.
pub open spec fn registry_after_check(
    registered: Map<Seq<char>, RegistrationView>,
    records: Map<Seq<char>, HeartbeatView>,
    now: Timestamp,
) -> Map<Seq<char>, RegistrationView> {
    registered.remove_keys(evicted_workers(records, now))
}

/// The heartbeat table when the workers in `done` have been checked at
/// `now` and the others not yet.
spec fn heartbeats_checked_within(
    records: Map<Seq<char>, HeartbeatView>,
    now: Timestamp,
    done: Set<Seq<char>>,
) -> Map<Seq<char>, HeartbeatView> {
    Map::new(
        |id: Seq<char>| records.contains_key(id) && !(done.contains(id) && is_evicted(records[id], now)),
        |id: Seq<char>| if done.contains(id) { checked_record(records[id], now) } else { records[id] },
    )
}

/// Decides what a heartbeat check at `now` does with a worker's record.
pub fn heartbeat_check_outcome(info: &HeartbeatInfo, now: Timestamp) -> (outcome: HeartbeatCheck)
    ensures
        outcome == check_outcome(info@, now),
{
    let elapsed: i128 = now.seconds as i128 - info.last_heartbeat.seconds as i128;
    if elapsed >= HEARTBEAT_TIMEOUT_SECS as i128 {
        if info.num_failed_heartbeats < MAX_FAILED_HEARTBEATS {
            HeartbeatCheck::IncrementFailures
        } else {
            HeartbeatCheck::RemoveWorker
        }
    } else {
        HeartbeatCheck::ResetFailures
    }
}

/// A check never adds a worker: the heartbeat table and the registry after
/// it hold only workers they held before.
pub proof fn lemma_check_adds_no_worker(
    registered: Map<Seq<char>, RegistrationView>,
    records: Map<Seq<char>, HeartbeatView>,
    now: Timestamp,
)
    ensures
        heartbeats_after_check(records, now).dom().subset_of(records.dom()),
        registry_after_check(registered, records, now).dom().subset_of(registered.dom()),
{
}

/// A worker whose last heartbeat is more recent than the timeout at a
/// check stays in the heartbeat table and the registry, with no failed
/// checks counted.
pub proof fn lemma_fresh_worker_kept(
    registered: Map<Seq<char>, RegistrationView>,
    records: Map<Seq<char>, HeartbeatView>,
    id: Seq<char>,
    now: Timestamp,
)
    requires
        records.contains_key(id),
        now.seconds - records[id].last_heartbeat.seconds < HEARTBEAT_TIMEOUT_SECS,
    ensures
        heartbeats_after_check(records, now).contains_key(id),
        heartbeats_after_check(records, now)[id] == (HeartbeatView { num_failed_heartbeats: 0, ..records[id] }),
        registry_after_check(registered, records, now).contains_key(id) == registered.contains_key(id),
{
}

/// A worker that has just sent a heartbeat (with no failed checks) and
/// sends no other is kept through three checks at which its heartbeat is
/// stale, each counting one more failed check, and is dropped from both the
/// heartbeat table and the registry at the fourth.
pub proof fn lemma_silent_worker_removed(
    registered: Map<Seq<char>, RegistrationView>,
    records: Map<Seq<char>, HeartbeatView>,
    id: Seq<char>,
    t1: Timestamp,
    t2: Timestamp,
    t3: Timestamp,
    t4: Timestamp,
)
    requires
        records.contains_key(id),
        records[id].num_failed_heartbeats == 0,
        t1.seconds - records[id].last_heartbeat.seconds >= HEARTBEAT_TIMEOUT_SECS,
        t2.seconds - records[id].last_heartbeat.seconds >= HEARTBEAT_TIMEOUT_SECS,
        t3.seconds - records[id].last_heartbeat.seconds >= HEARTBEAT_TIMEOUT_SECS,
        t4.seconds - records[id].last_heartbeat.seconds >= HEARTBEAT_TIMEOUT_SECS,
    ensures
        ({
            let h1 = heartbeats_after_check(records, t1);
            let r1 = registry_after_check(registered, records, t1);
            let h2 = heartbeats_after_check(h1, t2);
            let r2 = registry_after_check(r1, h1, t2);
            let h3 = heartbeats_after_check(h2, t3);
            let r3 = registry_after_check(r2, h2, t3);
            let h4 = heartbeats_after_check(h3, t4);
            let r4 = registry_after_check(r3, h3, t4);
            &&& h1.contains_key(id) && h1[id].num_failed_heartbeats == 1
            &&& h2.contains_key(id) && h2[id].num_failed_heartbeats == 2
            &&& h3.contains_key(id) && h3[id].num_failed_heartbeats == 3
            &&& r3.contains_key(id) == registered.contains_key(id)
            &&& !h4.contains_key(id)
            &&& !r4.contains_key(id)
        }),
{
    let h1 = heartbeats_after_check(records, t1);
    let h2 = heartbeats_after_check(h1, t2);
    let h3 = heartbeats_after_check(h2, t3);
    assert(h1.contains_key(id) && h1[id].last_heartbeat == records[id].last_heartbeat);
    assert(h2.contains_key(id) && h2[id].last_heartbeat == records[id].last_heartbeat);
    assert(h3.contains_key(id) && h3[id].last_heartbeat == records[id].last_heartbeat);
    assert(evicted_workers(h3, t4).contains(id));
}

impl CoordinatorState {
    /// The registered workers, by id.
    pub open spec fn registered(&self) -> Map<Seq<char>, RegistrationView> {
        registry_contents(self.registered_workers)
    }

    /// The heartbeat records, by worker id.
    pub open spec fn records(&self) -> Map<Seq<char>, HeartbeatView> {
        heartbeat_contents(self.heartbeats)
    }

    /// Every heartbeat record belongs to a registered worker and carries
    /// the id under which it is kept.
    pub open spec fn wf(&self) -> bool {
        forall|id: Seq<char>| #[trigger] self.records().contains_key(id)
            ==> self.registered().contains_key(id) && self.records()[id].worker_id == id
    }

    /// A state with no registered worker and no heartbeat.
    pub fn new() -> (state: Self)
        ensures
            state.registered() == Map::<Seq<char>, RegistrationView>::empty(),
            state.records() == Map::<Seq<char>, HeartbeatView>::empty(),
            state.wf(),
    {
        let state = CoordinatorState { registered_workers: registry_new(), heartbeats: heartbeats_new() };
        assert(state.registered() =~= Map::<Seq<char>, RegistrationView>::empty());
        assert(state.records() =~= Map::<Seq<char>, HeartbeatView>::empty());
        state
    }

    /// Checks every heartbeat record against `now`: a recent heartbeat
    /// clears the count of failed checks, a stale one adds a failed check,
    /// and a stale one after the allowed failed checks drops the worker from
    /// both the heartbeat table and the registry.
    pub fn process_heartbeat_at(&mut self, now: Timestamp)
        ensures
            final(self).records() == heartbeats_after_check(old(self).records(), now),
            final(self).registered() == registry_after_check(old(self).registered(), old(self).records(), now),
            old(self).wf() ==> final(self).wf(),
    {
        let ghost records0 = self.records();
        let ghost registered0 = self.registered();
        let entries = heartbeats_entries(&self.heartbeats);
        let ghost mut done: Set<Seq<char>> = Set::empty();
        let mut i: usize = 0;
        while i < entries.len()
            invariant
                0 <= i <= entries@.len(),
                records0 == old(self).records(),
                registered0 == old(self).registered(),
                forall|j: int| #![trigger entries@[j]]
                    0 <= j < entries@.len() ==> records0.contains_key(entries@[j].0@)
                        && records0[entries@[j].0@] == entries@[j].1@,
                forall|id: Seq<char>| #[trigger] records0.contains_key(id)
                    ==> exists|j: int| 0 <= j < entries@.len() && entries@[j].0@ == id,
                forall|j: int, k: int| 0 <= j < k < entries@.len() ==> entries@[j].0@ != entries@[k].0@,
                forall|id: Seq<char>| #[trigger] done.contains(id)
                    <==> exists|j: int| 0 <= j < i && entries@[j].0@ == id,
                self.records() == heartbeats_checked_within(records0, now, done),
                self.registered() == registered0.remove_keys(evicted_workers(records0, now).intersect(done)),
            decreases entries@.len() - i,
        {
            let key = &entries[i].0;
            let info = &entries[i].1;
            let ghost id = key@;
            assert(!done.contains(id)) by {
                if done.contains(id) {
                    let j = choose|j: int| 0 <= j < i && entries@[j].0@ == id;
                    assert(entries@[j].0@ != entries@[i as int].0@);
                }
            }
            assert(records0.contains_key(id) && records0[id] == info@);
            match heartbeat_check_outcome(info, now) {
                HeartbeatCheck::IncrementFailures => {
                    self.increment_failed_heartbeats(key);
                },
                HeartbeatCheck::RemoveWorker => {
                    registry_remove(&mut self.registered_workers, key);
                    heartbeats_remove(&mut self.heartbeats, key);
                },
                HeartbeatCheck::ResetFailures => {
                    self.reset_failed_heartbeats(key);
                },
            }
            proof {
                let done_next = done.insert(id);
                assert(self.records() =~= heartbeats_checked_within(records0, now, done_next));
                assert(self.registered() =~= registered0.remove_keys(
                    evicted_workers(records0, now).intersect(done_next),
                ));
                assert forall|other: Seq<char>| #[trigger] done_next.contains(other)
                    <==> exists|j: int| 0 <= j < i + 1 && entries@[j].0@ == other by {
                    if other == id {
                        assert(entries@[i as int].0@ == other);
                    }
                }
                done = done_next;
            }
            i = i + 1;
        }
        proof {
            assert(done =~= records0.dom()) by {
                assert forall|id: Seq<char>| done.contains(id) <==> records0.dom().contains(id) by {
                    if records0.contains_key(id) {
                        let j = choose|j: int| 0 <= j < entries@.len() && entries@[j].0@ == id;
                        assert(done.contains(id));
                    }
                    if done.contains(id) {
                        let j = choose|j: int| 0 <= j < i && entries@[j].0@ == id;
                        assert(records0.contains_key(entries@[j].0@));
                    }
                }
            }
            assert(self.records() =~= heartbeats_after_check(records0, now));
            assert(evicted_workers(records0, now).intersect(done) =~= evicted_workers(records0, now));
        }
    }

    /// Checks every heartbeat record against the current time, as
    /// [`CoordinatorState::process_heartbeat_at`] does.
    pub fn process_heartbeat(&mut self)
        ensures
            exists|at: Timestamp|
                at.normalized()
                && final(self).records() == heartbeats_after_check(old(self).records(), at)
                && final(self).registered() == registry_after_check(old(self).registered(), old(self).records(), at),
            old(self).wf() ==> final(self).wf(),
    {
        let at = now();
        self.process_heartbeat_at(at);
    }

    /// Counts one more failed check for the worker, if it has a record.
    fn increment_failed_heartbeats(&mut self, worker_id: &String)
        requires
            old(self).records().contains_key(worker_id@) ==> old(self).records()[worker_id@].num_failed_heartbeats < u32::MAX,
        ensures
            final(self).registered() == old(self).registered(),
            final(self).records() == (if old(self).records().contains_key(worker_id@) {
                old(self).records().insert(worker_id@, HeartbeatView {
                    num_failed_heartbeats: old(self).records()[worker_id@].num_failed_heartbeats + 1,
                    ..old(self).records()[worker_id@]
                })
            } else {
                old(self).records()
            }),
    {
        if let Some(mut info) = heartbeats_get(&self.heartbeats, worker_id) {
            info.num_failed_heartbeats = info.num_failed_heartbeats + 1;
            heartbeats_insert(&mut self.heartbeats, worker_id.clone(), info);
        }
    }

    /// Starts the count of failed checks again for the worker, if it has a
    /// record.
    fn reset_failed_heartbeats(&mut self, worker_id: &String)
        ensures
            final(self).registered() == old(self).registered(),
            final(self).records() == (if old(self).records().contains_key(worker_id@) {
                old(self).records().insert(worker_id@, HeartbeatView {
                    num_failed_heartbeats: 0,
                    ..old(self).records()[worker_id@]
                })
            } else {
                old(self).records()
            }),
    {
        if let Some(mut info) = heartbeats_get(&self.heartbeats, worker_id) {
            info.num_failed_heartbeats = 0;
            heartbeats_insert(&mut self.heartbeats, worker_id.clone(), info);
        }
    }
}

} // verus!
