use mapreduce::worker::mapper::{MapperAction, MapperState};

#[test]
fn asks_until_a_task_comes_then_works_on_it() {
    let mut state = MapperState::new();
    assert!(matches!(state.next_action(), MapperAction::RequestTask));

    state.on_task_response(None, None);
    assert!(!state.has_task);
    assert!(matches!(state.next_action(), MapperAction::RequestTask));

    state.on_task_response(Some("w1".to_string()), None);
    assert!(matches!(state.next_action(), MapperAction::RequestTask));

    state.on_task_response(Some("w1".to_string()), Some("a.txt".to_string()));
    assert!(state.has_task);
    assert_eq!(state.file_name, Some("a.txt".to_string()));
    for _ in 0..3 {
        match state.next_action() {
            MapperAction::ProcessFile(name) => assert_eq!(name, "a.txt"),
            other => panic!("unexpected action {:?}", other),
        }
    }
}

#[test]
fn holding_a_task_without_a_file_idles() {
    let state = MapperState { has_task: true, file_name: None };
    assert!(matches!(state.next_action(), MapperAction::Idle));
}
