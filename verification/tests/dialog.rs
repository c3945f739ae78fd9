use maa_tgbot::dialog::{
    get_devices_markup, get_tasks_markup, get_users_markup, handle_callback, handle_command,
    receive_device, start_append_task_dialog, Command, DialogState, Reply,
};
use maa_tgbot::model::TaskType;
use maa_tgbot::state::AppState;

const OPERATOR: i64 = 42;

fn open_state() -> AppState {
    AppState::new(OPERATOR, &None)
}

fn poll_once(state: &mut AppState, device: &str, user: &str) {
    let resp = state.get_task(device, user);
    assert!(resp.tasks.is_empty());
}

#[test]
fn turns_from_other_identities_are_silently_dropped() {
    let mut state = open_state();
    poll_once(&mut state, "dev1", "u1");
    let mut dialog = DialogState::Idle;

    let r = handle_command(&mut state, &mut dialog, true, OPERATOR + 1, Command::AppendTask);
    assert_eq!(r, Reply::Ignored);
    assert!(matches!(dialog, DialogState::Idle));

    let r = handle_command(&mut state, &mut dialog, false, OPERATOR, Command::AppendTask);
    assert_eq!(r, Reply::Ignored);
    assert!(matches!(dialog, DialogState::Idle));

    let r = handle_callback(&mut state, &mut dialog, true, OPERATOR + 1, "d:dev1");
    assert_eq!(r, Reply::Ignored);
    assert!(matches!(dialog, DialogState::Idle));
}

#[test]
fn append_task_flow_walks_device_user_task() {
    let mut state = open_state();
    poll_once(&mut state, "dev1", "u1");
    poll_once(&mut state, "dev2", "u2");
    let mut dialog = DialogState::default();

    let r = handle_command(&mut state, &mut dialog, true, OPERATOR, Command::AppendTask);
    match &r {
        Reply::SelectDevice { choices } => {
            assert_eq!(choices.len(), 2);
            assert_eq!(choices[0], ("dev1".to_string(), "d:dev1".to_string()));
            assert_eq!(choices[1], ("dev2".to_string(), "d:dev2".to_string()));
        },
        other => panic!("expected a device prompt, got {:?}", other),
    }
    assert_eq!(r.text(), "Select device:");
    assert!(matches!(dialog, DialogState::StartAppendTask));

    let r = handle_callback(&mut state, &mut dialog, true, OPERATOR, "d:dev1");
    match &r {
        Reply::SelectUser { device_id, choices } => {
            assert_eq!(device_id, "dev1");
            assert_eq!(choices.len(), 1);
            assert_eq!(choices[0], ("u1".to_string(), "u:u1".to_string()));
        },
        other => panic!("expected a user prompt, got {:?}", other),
    }
    assert_eq!(r.text(), "Select user");
    assert!(matches!(&dialog, DialogState::AppendTaskToDevice { device_id } if device_id == "dev1"));

    let r = handle_callback(&mut state, &mut dialog, true, OPERATOR, "u:u1");
    match &r {
        Reply::SelectTask { choices } => {
            assert_eq!(choices.len(), 10);
            assert_eq!(choices[0], ("CaptureImage".to_string(), "t:CaptureImage".to_string()));
        },
        other => panic!("expected a task prompt, got {:?}", other),
    }
    assert_eq!(r.text(), "Select task");

    let r = handle_callback(&mut state, &mut dialog, true, OPERATOR, "t:LinkStart-Mall");
    assert_eq!(r, Reply::TaskAdded);
    assert_eq!(r.text(), "Task added");
    assert!(matches!(dialog, DialogState::Idle));

    let drained = state.get_task("dev1", "u1").tasks;
    assert_eq!(drained.len(), 2);
    assert_eq!(drained[0].task_type, TaskType::LinkStartMall);
    assert_eq!(drained[1].task_type, TaskType::CaptureImage);
}

#[test]
fn single_session_collapse_skips_the_selections() {
    let mut state = open_state();
    poll_once(&mut state, "dev1", "u1");
    let mut dialog = DialogState::default();

    let r = handle_command(&mut state, &mut dialog, true, OPERATOR, Command::AppendTask);
    match &r {
        Reply::SelectTaskFor { device_name, user_id, choices } => {
            assert_eq!(device_name, "dev1");
            assert_eq!(user_id, "u1");
            assert_eq!(choices.len(), 10);
        },
        other => panic!("expected the collapsed task prompt, got {:?}", other),
    }
    assert_eq!(r.text(), "Select task for device dev1, user u1");
    assert!(matches!(
        &dialog,
        DialogState::AppendTaskToUser { device_id, user_id } if device_id == "dev1" && user_id == "u1"
    ));

    // a second session flips the behavior back to explicit selection
    poll_once(&mut state, "dev1", "u2");
    let mut dialog = DialogState::default();
    let r = handle_command(&mut state, &mut dialog, true, OPERATOR, Command::AppendTask);
    assert!(matches!(r, Reply::SelectDevice { .. }));
    assert!(matches!(dialog, DialogState::StartAppendTask));
}

#[test]
fn a_task_token_while_awaiting_a_device_is_a_state_error() {
    let mut state = open_state();
    poll_once(&mut state, "dev1", "u1");
    poll_once(&mut state, "dev2", "u2");
    let mut dialog = DialogState::StartAppendTask;

    let r = handle_callback(&mut state, &mut dialog, true, OPERATOR, "t:CaptureImage");
    assert_eq!(r, Reply::InvalidState);
    assert_eq!(r.text(), "Invalid state");
    assert!(matches!(dialog, DialogState::StartAppendTask));
}

#[test]
fn malformed_tokens_are_selection_errors_that_change_nothing() {
    let mut state = open_state();
    poll_once(&mut state, "dev1", "u1");
    poll_once(&mut state, "dev2", "u2");

    let mut dialog = DialogState::StartAppendTask;
    let r = handle_callback(&mut state, &mut dialog, true, OPERATOR, "x:dev1");
    assert_eq!(r, Reply::InvalidDevice);
    assert_eq!(r.text(), "Invalid device id");
    assert!(matches!(dialog, DialogState::StartAppendTask));

    let mut dialog = DialogState::AppendTaskToDevice { device_id: "dev1".to_string() };
    let r = handle_callback(&mut state, &mut dialog, true, OPERATOR, "nope");
    assert_eq!(r, Reply::InvalidUser);
    assert!(matches!(dialog, DialogState::AppendTaskToDevice { .. }));

    let mut dialog = DialogState::AppendTaskToUser {
        device_id: "dev1".to_string(),
        user_id: "u1".to_string(),
    };
    let r = handle_callback(&mut state, &mut dialog, true, OPERATOR, "t:NoSuchKind");
    assert_eq!(r, Reply::InvalidTask);
    assert!(matches!(dialog, DialogState::AppendTaskToUser { .. }));
}

#[test]
fn an_unknown_device_selection_changes_no_state() {
    let mut state = open_state();
    poll_once(&mut state, "dev1", "u1");
    poll_once(&mut state, "dev2", "u2");
    let mut dialog = DialogState::StartAppendTask;

    let r = receive_device(&state, &mut dialog, "d:ghost");
    assert_eq!(r, Reply::InvalidDevice);
    assert!(matches!(dialog, DialogState::StartAppendTask));
}

#[test]
fn a_token_while_idle_is_a_state_error() {
    let mut state = open_state();
    poll_once(&mut state, "dev1", "u1");
    let mut dialog = DialogState::Idle;

    let r = handle_callback(&mut state, &mut dialog, true, OPERATOR, "d:dev1");
    assert_eq!(r, Reply::InvalidState);
    assert!(matches!(dialog, DialogState::Idle));
}

#[test]
fn heartbeat_flow_enqueues_silently_when_single() {
    let mut state = open_state();
    poll_once(&mut state, "dev1", "u1");
    let mut dialog = DialogState::default();

    let r = handle_command(&mut state, &mut dialog, true, OPERATOR, Command::GetCurrentTask);
    assert_eq!(r, Reply::HeartBeatQueued);
    assert_eq!(r.text(), "");
    assert!(matches!(dialog, DialogState::Idle));

    let drained = state.get_task("dev1", "u1").tasks;
    assert_eq!(drained.len(), 2);
    assert_eq!(drained[0].task_type, TaskType::HeartBeat);
    assert_eq!(drained[1].task_type, TaskType::CaptureImage);
}

#[test]
fn heartbeat_flow_asks_for_the_pair_otherwise() {
    let mut state = open_state();
    poll_once(&mut state, "dev1", "u1");
    poll_once(&mut state, "dev2", "u2");
    let mut dialog = DialogState::default();

    let r = handle_command(&mut state, &mut dialog, true, OPERATOR, Command::GetCurrentTask);
    assert!(matches!(r, Reply::SelectDevice { .. }));
    assert!(matches!(dialog, DialogState::StartAppendHeartBeatTask));

    let r = handle_callback(&mut state, &mut dialog, true, OPERATOR, "d:dev2");
    assert!(matches!(r, Reply::SelectUser { .. }));
    assert!(matches!(
        &dialog,
        DialogState::AppendHeartBeatTaskToDevice { device_id } if device_id == "dev2"
    ));

    let r = handle_callback(&mut state, &mut dialog, true, OPERATOR, "u:u2");
    assert_eq!(r, Reply::HeartBeatQueued);
    assert!(matches!(dialog, DialogState::Idle));

    let drained = state.get_task("dev2", "u2").tasks;
    assert_eq!(drained.len(), 2);
    assert_eq!(drained[0].task_type, TaskType::HeartBeat);
}

#[test]
fn screenshot_all_confirms_and_fans_out() {
    let mut state = open_state();
    poll_once(&mut state, "dev1", "u1");
    poll_once(&mut state, "dev2", "u2");
    let mut dialog = DialogState::default();

    let r = handle_command(&mut state, &mut dialog, true, OPERATOR, Command::ScreenshotAll);
    assert_eq!(r, Reply::TasksSent);
    assert_eq!(r.text(), "Tasks sent.");
    assert!(matches!(dialog, DialogState::Idle));

    for (device, user) in [("dev1", "u1"), ("dev2", "u2")] {
        let drained = state.get_task(device, user).tasks;
        assert_eq!(drained.len(), 2);
        assert_eq!(drained[0].task_type, TaskType::CaptureImageNow);
    }
}

#[test]
fn markups_carry_prefixed_tokens() {
    let mut state = open_state();
    poll_once(&mut state, "dev1", "u1");
    state.rename_device("dev1", "Desk").unwrap();

    let tasks = get_tasks_markup();
    assert_eq!(tasks.len(), 10);
    for (label, token) in &tasks {
        assert_eq!(token, &format!("t:{}", label));
    }

    let devices = get_devices_markup(&state);
    assert_eq!(devices, vec![("Desk".to_string(), "d:dev1".to_string())]);

    let users = get_users_markup(&state, "dev1").unwrap();
    assert_eq!(users, vec![("u1".to_string(), "u:u1".to_string())]);
    assert!(get_users_markup(&state, "ghost").is_err());
}

#[test]
fn start_append_dialog_prompts_with_display_names() {
    let mut state = open_state();
    poll_once(&mut state, "dev1", "u1");
    poll_once(&mut state, "dev2", "u2");
    state.rename_device("dev2", "Shelf").unwrap();
    let mut dialog = DialogState::default();

    let r = start_append_task_dialog(&state, &mut dialog);
    match &r {
        Reply::SelectDevice { choices } => {
            assert_eq!(choices[0].0, "dev1");
            assert_eq!(choices[1].0, "Shelf");
            assert_eq!(choices[1].1, "d:dev2");
        },
        other => panic!("expected a device prompt, got {:?}", other),
    }
}

#[test]
fn default_dialog_state_is_idle() {
    assert!(matches!(DialogState::default(), DialogState::Idle));
}
