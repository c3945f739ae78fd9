use maa_tgbot::error::AppError;
use maa_tgbot::model::{Device, Task, TaskType};

#[test]
fn wire_names_are_exact() {
    assert_eq!(TaskType::CaptureImage.as_str(), "CaptureImage");
    assert_eq!(TaskType::CaptureImageNow.as_str(), "CaptureImageNow");
    assert_eq!(TaskType::LinkStartBase.as_str(), "LinkStart-Base");
    assert_eq!(TaskType::LinkStartWakeUp.as_str(), "LinkStart-WakeUp");
    assert_eq!(TaskType::LinkStartCombat.as_str(), "LinkStart-Combat");
    assert_eq!(TaskType::LinkStartRecruiting.as_str(), "LinkStart-Recruiting");
    assert_eq!(TaskType::LinkStartMall.as_str(), "LinkStart-Mall");
    assert_eq!(TaskType::LinkStartMission.as_str(), "LinkStart-Mission");
    assert_eq!(TaskType::LinkStartAutoRoguelike.as_str(), "LinkStart-AutoRoguelike");
    assert_eq!(
        TaskType::LinkStartReclamationAlgorithm.as_str(),
        "LinkStart-ReclamationAlgorithm"
    );
    assert_eq!(TaskType::HeartBeat.as_str(), "HeartBeat");
}

#[test]
fn get_all_lists_the_selectable_kinds_in_order() {
    let all = TaskType::get_all();
    let expected = vec![
        "CaptureImage",
        "CaptureImageNow",
        "LinkStart-Base",
        "LinkStart-WakeUp",
        "LinkStart-Combat",
        "LinkStart-Recruiting",
        "LinkStart-Mall",
        "LinkStart-Mission",
        "LinkStart-AutoRoguelike",
        "LinkStart-ReclamationAlgorithm",
    ];
    assert_eq!(all.len(), expected.len());
    for (got, want) in all.iter().zip(expected.iter()) {
        assert_eq!(got, want);
    }
}

#[test]
fn parse_accepts_every_wire_name() {
    for name in TaskType::get_all() {
        let kind = TaskType::parse(&name).unwrap();
        assert_eq!(kind.as_str(), name);
    }
    assert_eq!(TaskType::parse("HeartBeat").unwrap(), TaskType::HeartBeat);
}

#[test]
fn parse_rejects_an_unknown_kind() {
    match TaskType::parse("LinkStart-Unknown") {
        Err(AppError::InvalidSelection(s)) => assert_eq!(s, "LinkStart-Unknown"),
        other => panic!("expected a selection error, got {:?}", other),
    }
    assert!(TaskType::parse("").is_err());
    assert!(TaskType::parse("captureimage").is_err());
}

#[test]
fn task_from_str_carries_the_parsed_kind() {
    let t = Task::from_str("LinkStart-Combat").unwrap();
    assert_eq!(t.task_type, TaskType::LinkStartCombat);
    assert!(Task::from_str("NoSuchKind").is_err());
}

#[test]
fn capture_image_task_is_a_capture() {
    let t = Task::capture_image_task();
    assert_eq!(t.task_type, TaskType::CaptureImage);
}

#[test]
fn device_constructors_set_name_and_id() {
    let d = Device::new("dev1");
    assert_eq!(d.id, "dev1");
    assert_eq!(d.name, "dev1");
    assert!(d.users.is_empty());

    let d = Device::new_with_name("dev2".to_string(), "Bedroom".to_string());
    assert_eq!(d.id, "dev2");
    assert_eq!(d.name, "Bedroom");
    assert!(d.users.is_empty());
}

#[test]
fn device_info_conversions_carry_id_and_name() {
    let d = Device::new_with_name("dev".to_string(), "Desk".to_string());
    let info: maa_tgbot::config::DeviceInfo = d.into();
    assert_eq!(info.id, "dev");
    assert_eq!(info.name, "Desk");
    let back: Device = info.into();
    assert_eq!(back.id, "dev");
    assert_eq!(back.name, "Desk");
    assert!(back.users.is_empty());
}

#[test]
fn error_messages_are_exact() {
    assert_eq!(
        AppError::DeviceNotFound("d1".to_string()).message(),
        "Device not found with id: d1"
    );
    assert_eq!(
        AppError::UserNotFound("u1".to_string()).message(),
        "User not found with id: u1"
    );
    assert_eq!(AppError::PoisonError("x".to_string()).message(), "PoisonError: x");
    assert_eq!(
        AppError::TaskNotFound("t1".to_string()).message(),
        "Task not found with id: t1"
    );
    assert_eq!(AppError::TeloxideError("e".to_string()).message(), "TeloxideError: e");
    assert_eq!(AppError::StateNotSet.message(), "State not set");
    assert_eq!(
        AppError::InvalidSelection("z".to_string()).message(),
        "Invalid selection: z"
    );
    assert_eq!(AppError::InvalidState.message(), "Invalid state");
    assert_eq!(
        AppError::InvalidPayload("p".to_string()).message(),
        "Invalid payload: p"
    );
}
