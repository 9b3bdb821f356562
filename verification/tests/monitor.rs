use mapreduce::apis::heartbeat::{heartbeat_at, HeartbeatInfo};
use mapreduce::apis::registration::register_at;
use mapreduce::coordinator_state::{heartbeat_check_outcome, CoordinatorState, HeartbeatCheck};
use mapreduce::timestamp::Timestamp;

fn at(seconds: i64) -> Timestamp {
    Timestamp { seconds, nanos: 0 }
}

fn state_with_worker(id: &str, last: i64, failures: u32) -> CoordinatorState {
    let mut state = CoordinatorState::new();
    register_at(&mut state, id.to_string(), "host".to_string(), at(0)).unwrap();
    state.heartbeats.insert(
        id.to_string(),
        HeartbeatInfo { worker_id: id.to_string(), last_heartbeat: at(last), num_failed_heartbeats: failures },
    );
    state
}

#[test]
fn stale_heartbeat_increments_failed_heartbeats() {
    let mut state = state_with_worker("w1", 100, 0);
    state.process_heartbeat_at(at(110));
    assert_eq!(state.heartbeats.get("w1").unwrap().num_failed_heartbeats, 1);
    assert!(state.registered_workers.contains_key("w1"));
}

#[test]
fn worker_removed_after_three_failures() {
    let mut state = state_with_worker("w1", 100, 3);
    state.process_heartbeat_at(at(200));
    assert!(!state.heartbeats.contains_key("w1"));
    assert!(!state.registered_workers.contains_key("w1"));
}

#[test]
fn recent_heartbeat_resets_failed_heartbeats() {
    let mut state = state_with_worker("w1", 100, 2);
    state.process_heartbeat_at(at(109));
    let info = state.heartbeats.get("w1").unwrap();
    assert_eq!(info.num_failed_heartbeats, 0);
    assert_eq!(info.last_heartbeat, at(100));
}

#[test]
fn silent_worker_is_kept_for_three_checks_then_removed() {
    let mut state = CoordinatorState::new();
    register_at(&mut state, "w1".to_string(), "host".to_string(), at(0)).unwrap();
    heartbeat_at(&mut state, "w1".to_string(), at(0)).unwrap();
    for (check, expected) in [(10, 1), (20, 2), (30, 3)] {
        state.process_heartbeat_at(at(check));
        assert_eq!(state.heartbeats.get("w1").unwrap().num_failed_heartbeats, expected);
        assert!(state.registered_workers.contains_key("w1"));
    }
    state.process_heartbeat_at(at(40));
    assert!(!state.heartbeats.contains_key("w1"));
    assert!(!state.registered_workers.contains_key("w1"));
}

#[test]
fn check_treats_each_worker_on_its_own() {
    let mut state = CoordinatorState::new();
    for id in ["fresh", "late", "gone"] {
        register_at(&mut state, id.to_string(), "host".to_string(), at(0)).unwrap();
    }
    register_at(&mut state, "silent".to_string(), "host".to_string(), at(0)).unwrap();
    state.heartbeats.insert(
        "fresh".to_string(),
        HeartbeatInfo { worker_id: "fresh".to_string(), last_heartbeat: at(95), num_failed_heartbeats: 1 },
    );
    state.heartbeats.insert(
        "late".to_string(),
        HeartbeatInfo { worker_id: "late".to_string(), last_heartbeat: at(50), num_failed_heartbeats: 2 },
    );
    state.heartbeats.insert(
        "gone".to_string(),
        HeartbeatInfo { worker_id: "gone".to_string(), last_heartbeat: at(10), num_failed_heartbeats: 3 },
    );
    state.process_heartbeat_at(at(100));
    assert_eq!(state.heartbeats.get("fresh").unwrap().num_failed_heartbeats, 0);
    assert_eq!(state.heartbeats.get("late").unwrap().num_failed_heartbeats, 3);
    assert!(!state.heartbeats.contains_key("gone"));
    assert!(!state.registered_workers.contains_key("gone"));
    // A registered worker that never sent a heartbeat is not touched.
    assert!(state.registered_workers.contains_key("silent"));
    assert!(!state.heartbeats.contains_key("silent"));
    assert_eq!(state.registered_workers.len(), 3);
    assert_eq!(state.heartbeats.len(), 2);
}

#[test]
fn check_outcome_boundaries() {
    let info = |last: i64, failures: u32| HeartbeatInfo {
        worker_id: "w".to_string(),
        last_heartbeat: at(last),
        num_failed_heartbeats: failures,
    };
    assert_eq!(heartbeat_check_outcome(&info(0, 0), at(9)), HeartbeatCheck::ResetFailures);
    assert_eq!(heartbeat_check_outcome(&info(0, 0), at(10)), HeartbeatCheck::IncrementFailures);
    assert_eq!(heartbeat_check_outcome(&info(0, 2), at(10)), HeartbeatCheck::IncrementFailures);
    assert_eq!(heartbeat_check_outcome(&info(0, 3), at(10)), HeartbeatCheck::RemoveWorker);
    assert_eq!(heartbeat_check_outcome(&info(0, 3), at(9)), HeartbeatCheck::ResetFailures);
    // The elapsed time is computed without overflow at the extremes.
    assert_eq!(heartbeat_check_outcome(&info(i64::MIN, 0), at(i64::MAX)), HeartbeatCheck::IncrementFailures);
    assert_eq!(heartbeat_check_outcome(&info(i64::MAX, 0), at(i64::MIN)), HeartbeatCheck::ResetFailures);
}

#[test]
fn process_heartbeat_on_empty_state() {
    let mut state = CoordinatorState::new();
    state.process_heartbeat();
    assert_eq!(state.registered_workers.len(), 0);
    assert_eq!(state.heartbeats.len(), 0);
}
