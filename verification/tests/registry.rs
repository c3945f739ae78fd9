use maa_tgbot::config::DeviceInfo;
use maa_tgbot::error::AppError;
use maa_tgbot::model::TaskType;
use maa_tgbot::resolver::{report_status, ReportAction};
use maa_tgbot::model::TaskStatus;
use maa_tgbot::state::AppState;

fn open_state() -> AppState {
    AppState::new(42, &None)
}

/// Admits the device and session by letting them poll once.
fn poll_once(state: &mut AppState, device: &str, user: &str) {
    let resp = state.get_task(device, user);
    assert!(resp.tasks.is_empty());
}

#[test]
fn enqueue_appends_a_companion_for_non_capture_kinds() {
    let mut state = open_state();
    poll_once(&mut state, "dev1", "u1");

    let t = state.enqueue("dev1", "u1", TaskType::LinkStartBase).unwrap();
    assert_eq!(t.task_type, TaskType::LinkStartBase);

    let drained = state.get_task("dev1", "u1").tasks;
    assert_eq!(drained.len(), 2);
    assert_eq!(drained[0].id, t.id);
    assert_eq!(drained[0].task_type, TaskType::LinkStartBase);
    assert_eq!(drained[1].task_type, TaskType::CaptureImage);
    assert_ne!(drained[0].id, drained[1].id);
    assert_eq!(state.get_task_type(&drained[0].id).unwrap(), TaskType::LinkStartBase);
    assert_eq!(state.get_task_type(&drained[1].id).unwrap(), TaskType::CaptureImage);
}

#[test]
fn enqueue_of_a_capture_appends_exactly_one_task() {
    let mut state = open_state();
    poll_once(&mut state, "dev1", "u1");

    let t = state.enqueue("dev1", "u1", TaskType::CaptureImage).unwrap();
    let drained = state.get_task("dev1", "u1").tasks;
    assert_eq!(drained.len(), 1);
    assert_eq!(drained[0].id, t.id);
    assert_eq!(drained[0].task_type, TaskType::CaptureImage);
}

#[test]
fn append_task_parses_the_kind_and_rejects_unknown_ones() {
    let mut state = open_state();
    poll_once(&mut state, "dev1", "u1");

    let t = state.append_task("dev1", "u1", "LinkStart-Mall").unwrap();
    assert_eq!(t.task_type, TaskType::LinkStartMall);

    match state.append_task("dev1", "u1", "NoSuchKind") {
        Err(AppError::InvalidSelection(s)) => assert_eq!(s, "NoSuchKind"),
        other => panic!("expected a selection error, got {:?}", other),
    }
    // the failed call changed nothing: only the first enqueue's pair drains
    let drained = state.get_task("dev1", "u1").tasks;
    assert_eq!(drained.len(), 2);
}

#[test]
fn enqueue_reports_missing_keys() {
    let mut state = open_state();
    poll_once(&mut state, "dev1", "u1");

    match state.enqueue("ghost", "u1", TaskType::HeartBeat) {
        Err(AppError::DeviceNotFound(d)) => assert_eq!(d, "ghost"),
        other => panic!("expected a device error, got {:?}", other),
    }
    match state.enqueue("dev1", "nobody", TaskType::HeartBeat) {
        Err(AppError::UserNotFound(u)) => assert_eq!(u, "nobody"),
        other => panic!("expected a user error, got {:?}", other),
    }
}

#[test]
fn resolution_survives_unrelated_activity() {
    let mut state = open_state();
    poll_once(&mut state, "dev1", "u1");
    poll_once(&mut state, "dev2", "u2");

    let t = state.enqueue("dev1", "u1", TaskType::LinkStartMission).unwrap();
    let probe = state.enqueue("dev2", "u2", TaskType::HeartBeat).unwrap();

    for _ in 0..5 {
        state.enqueue("dev2", "u2", TaskType::CaptureImageNow).unwrap();
        state.get_task("dev2", "u2");
    }

    assert_eq!(state.get_task_type(&t.id).unwrap(), TaskType::LinkStartMission);
    assert_eq!(state.get_task_type(&probe.id).unwrap(), TaskType::HeartBeat);
}

#[test]
fn drain_is_idempotent_on_an_empty_queue() {
    let mut state = open_state();
    poll_once(&mut state, "dev1", "u1");
    state.enqueue("dev1", "u1", TaskType::LinkStartWakeUp).unwrap();

    let first = state.get_task("dev1", "u1").tasks;
    assert_eq!(first.len(), 2);
    let second = state.get_task("dev1", "u1").tasks;
    assert!(second.is_empty());
}

#[test]
fn single_session_flag_tracks_the_counts() {
    let mut state = open_state();
    assert!(!state.get_is_single_user());

    poll_once(&mut state, "dev1", "u1");
    assert!(state.get_is_single_user());

    poll_once(&mut state, "dev1", "u2");
    assert!(!state.get_is_single_user());
}

#[test]
fn allow_list_refuses_unknown_devices_and_names_known_ones() {
    let allow = Some(vec![DeviceInfo { id: "A".to_string(), name: "Desk".to_string() }]);
    let mut state = AppState::new(42, &allow);

    let resp = state.get_task("B", "u1");
    assert!(resp.tasks.is_empty());
    assert!(state.get_devices(false).is_empty());
    assert!(state.get_users("B").is_err());

    let resp = state.get_task("A", "u1");
    assert!(resp.tasks.is_empty());
    assert_eq!(state.get_devices(false), vec!["A".to_string()]);
    assert_eq!(state.get_devices(true), vec!["Desk".to_string()]);
}

#[test]
fn heartbeat_report_resolves_the_running_task() {
    let mut state = open_state();
    poll_once(&mut state, "dev1", "u1");

    let t1 = state.enqueue("dev1", "u1", TaskType::LinkStartCombat).unwrap();
    let h1 = state.enqueue("dev1", "u1", TaskType::HeartBeat).unwrap();

    let report = TaskStatus {
        user: "u1".to_string(),
        device: "dev1".to_string(),
        task: h1.id.clone(),
        status: "done".to_string(),
        payload: t1.id.clone(),
    };
    let (notify, action) = report_status(&state, &report).unwrap();
    assert_eq!(notify, "Task HeartBeat finished. Status: done");
    match &action {
        ReportAction::RunningTask { task_type, task_id } => {
            assert_eq!(*task_type, TaskType::LinkStartCombat);
            assert_eq!(*task_id, t1.id);
        },
        other => panic!("expected a running-task outcome, got {:?}", other),
    }
    let expected = format!("Task LinkStart-Combat is running.\nTask id: {}", t1.id);
    assert_eq!(action.text(), expected);

    let idle = TaskStatus { payload: String::new(), ..report };
    let (_, action) = report_status(&state, &idle).unwrap();
    assert_eq!(action, ReportAction::NoTaskRunning);
    assert_eq!(action.text(), "No task is running.");
}

#[test]
fn capture_report_decodes_the_payload() {
    let mut state = open_state();
    poll_once(&mut state, "dev1", "u1");
    let t = state.enqueue("dev1", "u1", TaskType::CaptureImage).unwrap();

    let report = TaskStatus {
        user: "u1".to_string(),
        device: "dev1".to_string(),
        task: t.id.clone(),
        status: "ok".to_string(),
        payload: "aGVsbG8=".to_string(),
    };
    let (notify, action) = report_status(&state, &report).unwrap();
    assert_eq!(notify, "Task CaptureImage finished. Status: ok");
    match action {
        ReportAction::SendImage { bytes } => assert_eq!(bytes, b"hello".to_vec()),
        other => panic!("expected an image outcome, got {:?}", other),
    }

    let bad = TaskStatus { payload: "!!! not base64 !!!".to_string(), ..report };
    match report_status(&state, &bad) {
        Err(AppError::InvalidPayload(p)) => assert_eq!(p, "!!! not base64 !!!"),
        other => panic!("expected a payload error, got {:?}", other),
    }
}

#[test]
fn report_of_an_unknown_task_is_refused() {
    let state = open_state();
    let report = TaskStatus {
        user: "u1".to_string(),
        device: "dev1".to_string(),
        task: "never-issued".to_string(),
        status: "done".to_string(),
        payload: String::new(),
    };
    match report_status(&state, &report) {
        Err(AppError::TaskNotFound(t)) => assert_eq!(t, "never-issued"),
        other => panic!("expected a task error, got {:?}", other),
    }
}

#[test]
fn heartbeat_report_with_an_unknown_inner_id_is_refused() {
    let mut state = open_state();
    poll_once(&mut state, "dev1", "u1");
    let h = state.enqueue("dev1", "u1", TaskType::HeartBeat).unwrap();
    let report = TaskStatus {
        user: "u1".to_string(),
        device: "dev1".to_string(),
        task: h.id,
        status: "done".to_string(),
        payload: "never-issued".to_string(),
    };
    match report_status(&state, &report) {
        Err(AppError::TaskNotFound(t)) => assert_eq!(t, "never-issued"),
        other => panic!("expected a task error, got {:?}", other),
    }
}

#[test]
fn rename_device_changes_the_display_name_only() {
    let mut state = open_state();
    poll_once(&mut state, "dev1", "u1");

    state.rename_device("dev1", "Desk").unwrap();
    assert_eq!(state.get_devices(false), vec!["dev1".to_string()]);
    assert_eq!(state.get_devices(true), vec!["Desk".to_string()]);

    match state.rename_device("ghost", "x") {
        Err(AppError::DeviceNotFound(d)) => assert_eq!(d, "ghost"),
        other => panic!("expected a device error, got {:?}", other),
    }
}

#[test]
fn single_pair_is_the_first_device_and_session() {
    let mut state = open_state();
    assert!(state.get_single_device_and_user().is_none());

    poll_once(&mut state, "dev1", "u1");
    let (info, user) = state.get_single_device_and_user().unwrap();
    assert_eq!(info.id, "dev1");
    assert_eq!(info.name, "dev1");
    assert_eq!(user.id, "u1");
    assert!(user.tasks.is_empty());
}

#[test]
fn screenshot_fan_out_reaches_every_session() {
    let mut state = open_state();
    poll_once(&mut state, "dev1", "u1");
    poll_once(&mut state, "dev1", "u2");
    poll_once(&mut state, "dev2", "u3");

    state.append_screenshot_to_all();

    for (device, user) in [("dev1", "u1"), ("dev1", "u2"), ("dev2", "u3")] {
        let drained = state.get_task(device, user).tasks;
        assert_eq!(drained.len(), 2);
        assert_eq!(drained[0].task_type, TaskType::CaptureImageNow);
        assert_eq!(drained[1].task_type, TaskType::CaptureImage);
    }
}

#[test]
fn get_users_lists_sessions_in_poll_order() {
    let mut state = open_state();
    poll_once(&mut state, "dev1", "u1");
    poll_once(&mut state, "dev1", "u2");

    assert_eq!(state.get_users("dev1").unwrap(), vec!["u1".to_string(), "u2".to_string()]);
    match state.get_users("ghost") {
        Err(AppError::DeviceNotFound(d)) => assert_eq!(d, "ghost"),
        other => panic!("expected a device error, got {:?}", other),
    }
}

#[test]
fn permitted_identity_comes_from_the_configuration() {
    let state = AppState::new(777, &None);
    assert_eq!(state.get_permitted_user_id(), 777);
}
