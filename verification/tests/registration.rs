use mapreduce::apis::error::ServiceError;
use mapreduce::apis::registration::{register, register_at, RegisterWorkerResponse};
use mapreduce::coordinator_state::CoordinatorState;
use mapreduce::timestamp::Timestamp;

#[test]
fn test_register_worker() {
    let mut state = CoordinatorState::new();

    let worker_id = "worker-123".to_string();
    let hostname = "localhost".to_string();
    let response = register(&mut state, worker_id.clone(), hostname.clone());

    assert!(response.is_ok());
    assert!(state.registered_workers.contains_key(&worker_id));
}

#[test]
fn test_register_worker_multiple_times() {
    let mut state = CoordinatorState::new();

    let worker_id = "worker-123".to_string();
    let hostname1 = "localhost".to_string();
    let hostname2 = "localhost2".to_string();
    let response1 = register(&mut state, worker_id.clone(), hostname1.clone());
    let response2 = register(&mut state, worker_id.clone(), hostname2.clone());

    assert!(response1.is_ok());
    assert!(response2.is_err());
    assert_eq!(response2.unwrap_err(), ServiceError::WorkerAlreadyRegistered);
    assert!(state.registered_workers.contains_key(&worker_id));
}

#[test]
fn test_register_multiple_workers() {
    let mut state = CoordinatorState::new();

    let worker_id1 = "worker-123".to_string();
    let worker_id2 = "worker-456".to_string();
    let hostname1 = "localhost".to_string();
    let hostname2 = "localhost2".to_string();
    let response1 = register(&mut state, worker_id1.clone(), hostname1.clone());
    let response2 = register(&mut state, worker_id2.clone(), hostname2.clone());

    assert!(response1.is_ok());
    assert!(response2.is_ok());
    assert!(state.registered_workers.contains_key(&worker_id1));
    assert!(state.registered_workers.contains_key(&worker_id2));
}

#[test]
fn register_at_stamps_the_registration() {
    let mut state = CoordinatorState::new();
    let at = Timestamp { seconds: 1_700_000_000, nanos: 250 };
    let response = register_at(&mut state, "w1".to_string(), "host-a".to_string(), at);
    assert_eq!(response, Ok(RegisterWorkerResponse { success: true, registered_at: Some(at) }));
    let info = state.registered_workers.get("w1").unwrap();
    assert_eq!(info.hostname, "host-a");
    assert_eq!(info.registered_at, at);
}

#[test]
fn refused_registration_keeps_the_first_hostname() {
    let mut state = CoordinatorState::new();
    let first = Timestamp { seconds: 10, nanos: 0 };
    let second = Timestamp { seconds: 20, nanos: 0 };
    assert!(register_at(&mut state, "w1".to_string(), "host-a".to_string(), first).is_ok());
    assert_eq!(
        register_at(&mut state, "w1".to_string(), "host-b".to_string(), second),
        Err(ServiceError::WorkerAlreadyRegistered)
    );
    let info = state.registered_workers.get("w1").unwrap();
    assert_eq!(info.hostname, "host-a");
    assert_eq!(info.registered_at, first);
    assert_eq!(state.registered_workers.len(), 1);
    assert_eq!(state.heartbeats.len(), 0);
}

#[test]
fn register_reads_a_normalized_clock() {
    let mut state = CoordinatorState::new();
    let response = register(&mut state, "w1".to_string(), "host".to_string()).unwrap();
    assert!(response.success);
    let at = response.registered_at.unwrap();
    assert!(at.nanos >= 0 && at.nanos < 1_000_000_000);
    assert!(at.seconds > 0);
    assert_eq!(state.registered_workers.get("w1").unwrap().registered_at, at);
}
