use mapreduce::apis::error::ServiceError;
use mapreduce::apis::mapper::get_new_task;
use mapreduce::apis::registration::register_at;
use mapreduce::coordinator_state::CoordinatorState;
use mapreduce::mapper::coordinator_mapper::{setup_mappers, CoordinatorMapper};
use mapreduce::mapper::task_info::{Status, TaskInfo};
use mapreduce::timestamp::Timestamp;

fn at(seconds: i64) -> Timestamp {
    Timestamp { seconds, nanos: 0 }
}

fn registered(ids: &[&str]) -> CoordinatorState {
    let mut state = CoordinatorState::new();
    for id in ids {
        register_at(&mut state, id.to_string(), "host".to_string(), at(1)).unwrap();
    }
    state
}

#[test]
fn setup_mappers_queues_one_task_per_file() {
    let files = vec!["a.txt".to_string(), "b.txt".to_string(), "c.txt".to_string()];
    let mapper = setup_mappers(&files);
    assert_eq!(mapper.mappers_remaining, 3);
    assert_eq!(mapper.mappers_remaining_count(), 3);
    assert!(!mapper.mappers_not_assigned_is_empty());
}

#[test]
fn tasks_are_handed_out_in_file_order() {
    let state = registered(&["w1", "w2", "w3"]);
    let files = vec!["a.txt".to_string(), "b.txt".to_string()];
    let mut mapper = setup_mappers(&files);

    let first = get_new_task(&state, &mut mapper, "w1".to_string()).unwrap();
    assert_eq!(first.task_id, Some("w1".to_string()));
    assert_eq!(first.file_path, Some("a.txt".to_string()));

    let second = get_new_task(&state, &mut mapper, "w2".to_string()).unwrap();
    assert_eq!(second.task_id, Some("w2".to_string()));
    assert_eq!(second.file_path, Some("b.txt".to_string()));

    let third = get_new_task(&state, &mut mapper, "w3".to_string()).unwrap();
    assert_eq!(third.task_id, None);
    assert_eq!(third.file_path, None);

    assert!(mapper.mappers_not_assigned_is_empty());
    assert_eq!(mapper.mappers_remaining, 2);
    assert_eq!(mapper.assigned_task(&"w1".to_string()).unwrap().task_id(), "a.txt");
    assert_eq!(mapper.assigned_task(&"w2".to_string()).unwrap().task_id(), "b.txt");
    assert!(mapper.assigned_task(&"w3".to_string()).is_none());
}

#[test]
fn unregistered_worker_gets_no_task() {
    let state = registered(&["w1"]);
    let mut mapper = setup_mappers(&vec!["a.txt".to_string()]);
    let response = get_new_task(&state, &mut mapper, "stranger".to_string());
    assert_eq!(response.unwrap_err(), ServiceError::WorkerNotRegistered);
    assert!(!mapper.mappers_not_assigned_is_empty());
    assert!(mapper.assigned_task(&"stranger".to_string()).is_none());
}

#[test]
fn assigned_task_has_not_started() {
    let state = registered(&["w1"]);
    let mut mapper = setup_mappers(&vec!["a.txt".to_string()]);
    get_new_task(&state, &mut mapper, "w1".to_string()).unwrap();
    let task = mapper.assigned_task(&"w1".to_string()).unwrap();
    assert!(matches!(task.status(), Status::NotStarted));
    assert_eq!(task.start_time(), None);
    assert_eq!(task.end_time(), None);
}

#[test]
fn default_mapper_is_empty() {
    let mapper = CoordinatorMapper::default();
    assert_eq!(mapper.mappers_remaining, 0);
    assert!(mapper.mappers_not_assigned_is_empty());
}

#[test]
fn empty_file_list_gives_empty_queue() {
    let mapper = setup_mappers(&Vec::new());
    assert_eq!(mapper.mappers_remaining, 0);
    assert!(mapper.mappers_not_assigned_is_empty());
}

#[test]
fn task_life_cycle() {
    let mut task = TaskInfo::new("input.txt");
    assert_eq!(task.task_id(), "input.txt");
    assert!(matches!(task.status(), Status::NotStarted));

    task.start_at(at(10));
    assert!(matches!(task.status(), Status::InProgress));
    assert_eq!(task.start_time(), Some(at(10)));
    assert_eq!(task.end_time(), None);

    task.complete_at(at(20));
    assert!(matches!(task.status(), Status::Complete));
    assert_eq!(task.start_time(), Some(at(10)));
    assert_eq!(task.end_time(), Some(at(20)));
    assert_eq!(task.task_id(), "input.txt");
}

#[test]
fn failed_task_keeps_its_message() {
    let mut task = TaskInfo::new("input.txt");
    task.fail_at("disk full".to_string(), at(30));
    match task.status() {
        Status::Failed(message) => assert_eq!(message, "disk full"),
        _ => panic!("the task should have failed"),
    }
    assert_eq!(task.end_time(), Some(at(30)));
    assert_eq!(task.start_time(), None);
}

#[test]
fn clock_transitions_stamp_the_task() {
    let mut task = TaskInfo::new("input.txt");
    task.start();
    let started = task.start_time().unwrap();
    assert!(started.nanos >= 0 && started.nanos < 1_000_000_000);
    task.complete();
    assert!(matches!(task.status(), Status::Complete));
    let ended = task.end_time().unwrap();
    assert!((started.seconds, started.nanos) <= (ended.seconds, ended.nanos));

    let mut other = TaskInfo::new("other.txt");
    other.fail("bad input".to_string());
    assert!(matches!(other.status(), Status::Failed(_)));
    assert!(other.end_time().is_some());
}
