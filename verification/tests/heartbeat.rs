use mapreduce::apis::error::ServiceError;
use mapreduce::apis::heartbeat::{heartbeat, heartbeat_at, HeartbeatInfo};
use mapreduce::apis::registration::{register_at, RegistrationInfo};
use mapreduce::coordinator_state::CoordinatorState;
use mapreduce::timestamp::{now, Timestamp};

fn earlier_or_same(a: &Timestamp, b: &Timestamp) -> bool {
    (a.seconds, a.nanos) <= (b.seconds, b.nanos)
}

#[test]
fn test_heartbeat() {
    let mut state = CoordinatorState::new();

    // Register a worker
    let worker_id = "worker1".to_string();
    let hostname = "localhost".to_string();
    let registration_info = RegistrationInfo::new(hostname, now());
    state.registered_workers.insert(worker_id.clone(), registration_info);

    // Send a heartbeat
    let response = heartbeat(&mut state, worker_id.clone());

    // Verify the response and that the heartbeat was recorded
    assert!(response.is_ok());
    assert!(state.heartbeats.contains_key(&worker_id));

    let time_now = now();
    let recorded = state.heartbeats.get(&worker_id).unwrap().last_heartbeat;
    assert!(recorded.nanos > 0);
    assert!(earlier_or_same(&recorded, &time_now));
}

#[test]
fn test_update_heartbeat_worker() {
    let mut state = CoordinatorState::new();

    // Register a worker
    let worker_id = "worker1".to_string();
    let hostname = "localhost".to_string();
    let registration_info = RegistrationInfo::new(hostname, now());
    state.registered_workers.insert(worker_id.clone(), registration_info);

    // Send two heartbeats, the second one later
    let first = Timestamp { seconds: 1_700_000_000, nanos: 100 };
    let second = Timestamp { seconds: 1_700_000_000, nanos: 200 };
    let response1 = heartbeat_at(&mut state, worker_id.clone(), first);
    let heartbeat_info_before = state.heartbeats.get(&worker_id).unwrap().last_heartbeat;
    let response2 = heartbeat_at(&mut state, worker_id.clone(), second);
    let heartbeat_info_after = state.heartbeats.get(&worker_id).unwrap().last_heartbeat;

    // Verify the response and that the heartbeat was updated
    assert!(response1.is_ok());
    assert!(response2.is_ok());
    assert!(heartbeat_info_after.nanos > heartbeat_info_before.nanos);
    assert!(state.heartbeats.contains_key(&worker_id));
}

#[test]
fn test_heartbeat_unregistered_worker() {
    let mut state = CoordinatorState::new();

    // Send a heartbeat from an unregistered worker
    let response = heartbeat(&mut state, "unregistered_worker".to_string());

    // Verify that the response is an error and that no heartbeat was recorded
    assert!(response.is_err());
    assert_eq!(response, Err(ServiceError::WorkerNotRegistered));
    assert!(!state.heartbeats.contains_key("unregistered_worker"));
}

#[test]
fn heartbeat_clears_failed_checks() {
    let mut state = CoordinatorState::new();
    let t0 = Timestamp { seconds: 100, nanos: 0 };
    register_at(&mut state, "w1".to_string(), "host".to_string(), t0).unwrap();
    state.heartbeats.insert(
        "w1".to_string(),
        HeartbeatInfo { worker_id: "w1".to_string(), last_heartbeat: t0, num_failed_heartbeats: 2 },
    );
    let t1 = Timestamp { seconds: 150, nanos: 7 };
    assert_eq!(heartbeat_at(&mut state, "w1".to_string(), t1), Ok(()));
    let info = state.heartbeats.get("w1").unwrap();
    assert_eq!(info.num_failed_heartbeats, 0);
    assert_eq!(info.last_heartbeat, t1);
    assert_eq!(info.worker_id, "w1");
}

#[test]
fn heartbeat_info_new_has_no_failures() {
    let at = Timestamp { seconds: 5, nanos: 6 };
    let info = HeartbeatInfo::new("w9".to_string(), at);
    assert_eq!(info.worker_id, "w9");
    assert_eq!(info.last_heartbeat, at);
    assert_eq!(info.num_failed_heartbeats, 0);
}
