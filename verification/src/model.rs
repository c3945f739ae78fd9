use vstd::prelude::*;

use crate::config::DeviceInfo;
use crate::error::AppError;

verus! {

/// The closed catalog of remote operations a device can be asked to run:
/// image capture, capture-now, a liveness probe, and the named automation
/// routines. Each kind has a fixed wire string; unknown strings are rejected.
#[derive(Clone, Copy, Debug, PartialEq, Eq, Structural)]
pub enum TaskType {
    CaptureImage,
    CaptureImageNow,
    LinkStartBase,
    LinkStartWakeUp,
    LinkStartCombat,
    LinkStartRecruiting,
    LinkStartMall,
    LinkStartMission,
    LinkStartAutoRoguelike,
    LinkStartReclamationAlgorithm,
    HeartBeat,
}

impl TaskType {
    /// The wire string identifying this kind.
    pub open spec fn wire_str(self) -> Seq<char> {
        match self {
            TaskType::CaptureImage => "CaptureImage"@,
            TaskType::CaptureImageNow => "CaptureImageNow"@,
            TaskType::LinkStartBase => "LinkStart-Base"@,
            TaskType::LinkStartWakeUp => "LinkStart-WakeUp"@,
            TaskType::LinkStartCombat => "LinkStart-Combat"@,
            TaskType::LinkStartRecruiting => "LinkStart-Recruiting"@,
            TaskType::LinkStartMall => "LinkStart-Mall"@,
            TaskType::LinkStartMission => "LinkStart-Mission"@,
            TaskType::LinkStartAutoRoguelike => "LinkStart-AutoRoguelike"@,
            TaskType::LinkStartReclamationAlgorithm => "LinkStart-ReclamationAlgorithm"@,
            TaskType::HeartBeat => "HeartBeat"@,
        }
    }

    /// Renders this kind as its wire string.
    pub fn as_str(&self) -> (r: &'static str)
        ensures
            r@ == self.wire_str(),
    {
        match self {
            TaskType::CaptureImage => "CaptureImage",
            TaskType::CaptureImageNow => "CaptureImageNow",
            TaskType::LinkStartBase => "LinkStart-Base",
            TaskType::LinkStartWakeUp => "LinkStart-WakeUp",
            TaskType::LinkStartCombat => "LinkStart-Combat",
            TaskType::LinkStartRecruiting => "LinkStart-Recruiting",
            TaskType::LinkStartMall => "LinkStart-Mall",
            TaskType::LinkStartMission => "LinkStart-Mission",
            TaskType::LinkStartAutoRoguelike => "LinkStart-AutoRoguelike",
            TaskType::LinkStartReclamationAlgorithm => "LinkStart-ReclamationAlgorithm",
            TaskType::HeartBeat => "HeartBeat",
        }
    }

    /// The kind a wire string denotes, or `None` for an unrecognized string.
    pub open spec fn parse_wire(s: Seq<char>) -> Option<TaskType> {
        if s == "CaptureImage"@ {
            Some(TaskType::CaptureImage)
        } else if s == "CaptureImageNow"@ {
            Some(TaskType::CaptureImageNow)
        } else if s == "LinkStart-Base"@ {
            Some(TaskType::LinkStartBase)
        } else if s == "LinkStart-WakeUp"@ {
            Some(TaskType::LinkStartWakeUp)
        } else if s == "LinkStart-Combat"@ {
            Some(TaskType::LinkStartCombat)
        } else if s == "LinkStart-Recruiting"@ {
            Some(TaskType::LinkStartRecruiting)
        } else if s == "LinkStart-Mall"@ {
            Some(TaskType::LinkStartMall)
        } else if s == "LinkStart-Mission"@ {
            Some(TaskType::LinkStartMission)
        } else if s == "LinkStart-AutoRoguelike"@ {
            Some(TaskType::LinkStartAutoRoguelike)
        } else if s == "LinkStart-ReclamationAlgorithm"@ {
            Some(TaskType::LinkStartReclamationAlgorithm)
        } else if s == "HeartBeat"@ {
            Some(TaskType::HeartBeat)
        } else {
            None
        }
    }

    /// Parses a wire string; an unrecognized string is a typed input error,
    /// never a new kind.
    pub fn parse(s: &str) -> (r: Result<TaskType, AppError>)
        ensures
            match r {
                Ok(k) => Self::parse_wire(s@) == Some(k),
                Err(e) => Self::parse_wire(s@) is None && (e matches AppError::InvalidSelection(t)
                    && t@ == s@),
            },
    {
        if str_eq(s, "CaptureImage") {
            Ok(TaskType::CaptureImage)
        } else if str_eq(s, "CaptureImageNow") {
            Ok(TaskType::CaptureImageNow)
        } else if str_eq(s, "LinkStart-Base") {
            Ok(TaskType::LinkStartBase)
        } else if str_eq(s, "LinkStart-WakeUp") {
            Ok(TaskType::LinkStartWakeUp)
        } else if str_eq(s, "LinkStart-Combat") {
            Ok(TaskType::LinkStartCombat)
        } else if str_eq(s, "LinkStart-Recruiting") {
            Ok(TaskType::LinkStartRecruiting)
        } else if str_eq(s, "LinkStart-Mall") {
            Ok(TaskType::LinkStartMall)
        } else if str_eq(s, "LinkStart-Mission") {
            Ok(TaskType::LinkStartMission)
        } else if str_eq(s, "LinkStart-AutoRoguelike") {
            Ok(TaskType::LinkStartAutoRoguelike)
        } else if str_eq(s, "LinkStart-ReclamationAlgorithm") {
            Ok(TaskType::LinkStartReclamationAlgorithm)
        } else if str_eq(s, "HeartBeat") {
            Ok(TaskType::HeartBeat)
        } else {
            Err(AppError::InvalidSelection(s.to_owned()))
        }
    }

    /// The kinds offered to the operator when composing a task, by position.
    /// The liveness probe is reached through its own command, not this list.
    pub open spec fn selectable(i: int) -> TaskType {
        if i == 0 {
            TaskType::CaptureImage
        } else if i == 1 {
            TaskType::CaptureImageNow
        } else if i == 2 {
            TaskType::LinkStartBase
        } else if i == 3 {
            TaskType::LinkStartWakeUp
        } else if i == 4 {
            TaskType::LinkStartCombat
        } else if i == 5 {
            TaskType::LinkStartRecruiting
        } else if i == 6 {
            TaskType::LinkStartMall
        } else if i == 7 {
            TaskType::LinkStartMission
        } else if i == 8 {
            TaskType::LinkStartAutoRoguelike
        } else {
            TaskType::LinkStartReclamationAlgorithm
        }
    }

    /// Lists the wire strings of the kinds offered to the operator.
    pub fn get_all() -> (r: Vec<String>)
        ensures
            r@.len() == 10,
            forall|i: int| 0 <= i < 10 ==> r@[i]@ == Self::selectable(i).wire_str(),
    {
        let mut v: Vec<String> = Vec::new();
        v.push("CaptureImage".to_owned());
        v.push("CaptureImageNow".to_owned());
        v.push("LinkStart-Base".to_owned());
        v.push("LinkStart-WakeUp".to_owned());
        v.push("LinkStart-Combat".to_owned());
        v.push("LinkStart-Recruiting".to_owned());
        v.push("LinkStart-Mall".to_owned());
        v.push("LinkStart-Mission".to_owned());
        v.push("LinkStart-AutoRoguelike".to_owned());
        v.push("LinkStart-ReclamationAlgorithm".to_owned());
        v
    }
}

/// Compares two string slices by their character sequences.
pub(crate) fn str_eq(a: &str, b: &str) -> (r: bool)
    ensures
        r == (a@ == b@),
{
    let x = a.to_owned();
    let y = b.to_owned();
    x == y
}

/// A single enqueued unit of work: an opaque unique identifier plus a kind.
/// Immutable once created; identifiers are generated fresh and never reused.
#[derive(Clone, Debug, PartialEq, Eq)]
pub struct Task {
    pub id: String,
    pub task_type: TaskType,
}

/// Relies on `uuid::Uuid::new_v4` and its `Display` rendering: a freshly
/// generated random (version 4) identifier, formatted as a hyphenated string.
/// The value is random, so nothing is promised of it.
#[verifier::external_body]
pub(crate) fn new_task_id() -> String {
    uuid::Uuid::new_v4().to_string()
}

impl Task {
    /// Creates a task of the given kind under a freshly generated identifier.
    pub fn new(task_type: TaskType) -> (r: Task)
        ensures
            r.task_type == task_type,
    {
        Task { id: new_task_id(), task_type }
    }

    /// Creates a task whose kind is given by its wire string.
    pub fn from_str(task_type: &str) -> (r: Result<Task, AppError>)
        ensures
            match r {
                Ok(t) => TaskType::parse_wire(task_type@) == Some(t.task_type),
                Err(e) => TaskType::parse_wire(task_type@) is None,
            },
    {
        let kind = TaskType::parse(task_type)?;
        Ok(Task::new(kind))
    }

    /// Creates the visual-confirmation companion task.
    pub fn capture_image_task() -> (r: Task)
        ensures
            r.task_type == TaskType::CaptureImage,
    {
        Task::new(TaskType::CaptureImage)
    }
}

/// A completion report delivered by a device: which task finished, with what
/// status, and an optional payload whose meaning depends on the task's kind.
#[derive(Clone, Debug, PartialEq, Eq)]
pub struct TaskStatus {
    pub user: String,
    pub device: String,
    pub task: String,
    pub status: String,
    pub payload: String,
}

/// A user session on a device: an identifier and the ordered queue of
/// pending tasks, appended by the operator and drained by the device.
#[derive(Clone, Debug, PartialEq, Eq)]
pub struct User {
    pub id: String,
    pub tasks: Vec<Task>,
}

/// An unattended client device: its identifier, a display name (the
/// identifier unless overridden), and its user sessions.
#[derive(Clone, Debug, PartialEq, Eq)]
pub struct Device {
    pub id: String,
    pub name: String,
    pub users: Vec<User>,
}

impl Device {
    /// Creates a device whose display name is its identifier, with no
    /// sessions yet.
    pub fn new(id: &str) -> (r: Device)
        ensures
            r.id@ == id@,
            r.name@ == id@,
            r.users@ =~= Seq::<User>::empty(),
    {
        Device { id: id.to_owned(), name: id.to_owned(), users: Vec::new() }
    }

    /// Creates a device with an explicit display name and no sessions yet.
    pub fn new_with_name(id: String, name: String) -> (r: Device)
        ensures
            r.id == id,
            r.name == name,
            r.users@ =~= Seq::<User>::empty(),
    {
        Device { id, name, users: Vec::new() }
    }
}

impl From<Device> for DeviceInfo {
    /// Projects a registered device onto its identifier and display name.
    fn from(device: Device) -> (r: DeviceInfo) {
        DeviceInfo { id: device.id, name: device.name }
    }
}

impl vstd::std_specs::convert::FromSpecImpl<Device> for DeviceInfo {
    open spec fn obeys_from_spec() -> bool {
        true
    }

    open spec fn from_spec(device: Device) -> DeviceInfo {
        DeviceInfo { id: device.id, name: device.name }
    }
}

impl From<DeviceInfo> for Device {
    /// Expands an allow-list entry into a device with no sessions yet.
    fn from(device: DeviceInfo) -> (r: Device)
        ensures
            r.id == device.id,
            r.name == device.name,
            r.users@ =~= Seq::<User>::empty(),
    {
        Device { id: device.id, name: device.name, users: Vec::new() }
    }
}

impl vstd::std_specs::convert::FromSpecImpl<DeviceInfo> for Device {
    open spec fn obeys_from_spec() -> bool {
        false
    }

    open spec fn from_spec(device: DeviceInfo) -> Device {
        arbitrary()
    }
}

/// A poll request from a device: which device and user session ask for work.
#[derive(Clone, Debug, PartialEq, Eq)]
pub struct GetTaskReq {
    pub user: String,
    pub device: String,
}

/// A poll response: the drained pending tasks of the polled session.
#[derive(Clone, Debug, PartialEq, Eq)]
pub struct GetTaskResponse {
    pub tasks: Vec<Task>,
}

} // verus!
