use vstd::prelude::*;

use crate::error::AppError;
use crate::model::Task;
use crate::model::TaskType;
use crate::model::User;
use crate::state::{enqueue_effect, has_device, has_user, screenshot_post, AppState};

verus! {

/// The commands an operator can issue to drive the orchestration flows.
#[derive(Clone, Copy, Debug, PartialEq, Eq, Structural)]
pub enum Command {
    AppendTask,
    ScreenshotAll,
    GetCurrentTask,
}

/// The per-conversation composition state: which step of the append-task or
/// liveness-probe flow the dialogue is parked in, with the selections made so
/// far. Created as `Idle`, reset to `Idle` the instant a task is enqueued.
#[derive(Clone, Debug, PartialEq, Eq)]
pub enum DialogState {
    Idle,
    StartAppendTask,
    AppendTaskToDevice { device_id: String },
    AppendTaskToUser { device_id: String, user_id: String },
    StartAppendHeartBeatTask,
    AppendHeartBeatTaskToDevice { device_id: String },
}

impl Default for DialogState {
    /// A fresh conversation starts idle.
    fn default() -> (r: Self)
        ensures
            r is Idle,
    {
        DialogState::Idle
    }
}

/// The one reply an operator turn produces: a prompt with its choices, a
/// confirmation, or a rejection. A turn from a non-permitted identity is
/// silently dropped, and a queued liveness probe confirms nothing — its
/// report arrives asynchronously.
#[derive(Clone, Debug, PartialEq, Eq)]
pub enum Reply {
    Ignored,
    SelectDevice { choices: Vec<(String, String)> },
    SelectUser { device_id: String, choices: Vec<(String, String)> },
    SelectTask { choices: Vec<(String, String)> },
    SelectTaskFor { device_name: String, user_id: String, choices: Vec<(String, String)> },
    TaskAdded,
    TasksSent,
    HeartBeatQueued,
    InvalidDevice,
    InvalidUser,
    InvalidTask,
    InvalidState,
}

impl Reply {
    /// The text of the reply; empty for the silent outcomes.
    pub open spec fn spec_text(self) -> Seq<char> {
        match self {
            Reply::Ignored => Seq::empty(),
            Reply::SelectDevice { .. } => "Select device:"@,
            Reply::SelectUser { .. } => "Select user"@,
            Reply::SelectTask { .. } => "Select task"@,
            Reply::SelectTaskFor { device_name, user_id, .. } => "Select task for device "@
                + device_name@ + ", user "@ + user_id@,
            Reply::TaskAdded => "Task added"@,
            Reply::TasksSent => "Tasks sent."@,
            Reply::HeartBeatQueued => Seq::empty(),
            Reply::InvalidDevice => "Invalid device id"@,
            Reply::InvalidUser => "Invalid user id"@,
            Reply::InvalidTask => "Invalid task"@,
            Reply::InvalidState => "Invalid state"@,
        }
    }

    /// Renders the reply's text.
    pub fn text(&self) -> (r: String)
        ensures
            r@ == self.spec_text(),
    {
        match self {
            Reply::Ignored => String::new(),
            Reply::SelectDevice { .. } => String::from_str("Select device:"),
            Reply::SelectUser { .. } => String::from_str("Select user"),
            Reply::SelectTask { .. } => String::from_str("Select task"),
            Reply::SelectTaskFor { device_name, user_id, .. } => {
                let mut s = String::from_str("Select task for device ");
                s.append(device_name.as_str());
                s.append(", user ");
                s.append(user_id.as_str());
                s
            },
            Reply::TaskAdded => String::from_str("Task added"),
            Reply::TasksSent => String::from_str("Tasks sent."),
            Reply::HeartBeatQueued => String::new(),
            Reply::InvalidDevice => String::from_str("Invalid device id"),
            Reply::InvalidUser => String::from_str("Invalid user id"),
            Reply::InvalidTask => String::from_str("Invalid task"),
            Reply::InvalidState => String::from_str("Invalid state"),
        }
    }

    /// The choice list the transport renders as selectable options.
    pub fn choices(&self) -> (r: Option<&Vec<(String, String)>>)
        ensures
            match self {
                Reply::SelectDevice { choices } => r == Some(choices),
                Reply::SelectUser { choices, .. } => r == Some(choices),
                Reply::SelectTask { choices } => r == Some(choices),
                Reply::SelectTaskFor { choices, .. } => r == Some(choices),
                _ => r is None,
            },
    {
        match self {
            Reply::SelectDevice { choices } => Some(choices),
            Reply::SelectUser { choices, .. } => Some(choices),
            Reply::SelectTask { choices } => Some(choices),
            Reply::SelectTaskFor { choices, .. } => Some(choices),
            _ => None,
        }
    }
}

// ---------------------------------------------------------------------------
// Selection tokens: a two-character category prefix before the identifier.
// ---------------------------------------------------------------------------

/// Whether the token carries the category prefix `c` followed by ':'.
pub open spec fn has_tag(s: Seq<char>, c: char) -> bool {
    s.len() >= 2 && s[0] == c && s[1] == ':'
}

/// The identifier a token carries after its two-character prefix.
pub open spec fn token_body(s: Seq<char>) -> Seq<char> {
    s.subrange(2, s.len() as int)
}

/// Tests a token for the category prefix `c` ':'.
fn check_tag(token: &str, c: char) -> (r: bool)
    ensures
        r == has_tag(token@, c),
{
    let n = token.unicode_len();
    if n < 2 {
        return false;
    }
    let c0 = token.get_char(0);
    let c1 = token.get_char(1);
    c0 == c && c1 == ':'
}

/// Strips the two-character category prefix off a token.
fn strip_tag(token: &str) -> (r: String)
    requires
        token@.len() >= 2,
    ensures
        r@ == token_body(token@),
{
    let n = token.unicode_len();
    token.substring_char(2, n).to_owned()
}

// ---------------------------------------------------------------------------
// Choice lists.
// ---------------------------------------------------------------------------

/// A device's sessions as operator choices: the session identifier as the
/// label, the session token as the payload.
pub open spec fn user_choices(users: Seq<User>, choices: Seq<(String, String)>) -> bool {
    &&& choices.len() == users.len()
    &&& forall|i: int|
        0 <= i < choices.len() ==> (#[trigger] choices[i]).0@ == users[i].id@ && choices[i].1@
            == "u:"@ + users[i].id@
}

/// The task-kind catalog as operator choices: the wire name as the label,
/// the task-kind token as the callback payload.
pub open spec fn task_choices(choices: Seq<(String, String)>) -> bool {
    &&& choices.len() == 10
    &&& forall|i: int|
        0 <= i < 10 ==> (#[trigger] choices[i]).0@ == TaskType::selectable(i).wire_str()
            && choices[i].1@ == "t:"@ + TaskType::selectable(i).wire_str()
}

/// The registered devices as operator choices: the display name as the
/// label, the device token (built from the identifier) as the payload.
pub open spec fn device_choices(state: AppState, choices: Seq<(String, String)>) -> bool {
    &&& choices.len() == state.devices_seq().len()
    &&& forall|i: int|
        0 <= i < choices.len() ==> (#[trigger] choices[i]).0@ == state.devices_seq()[i].name@
            && choices[i].1@ == "d:"@ + state.devices_seq()[i].id@
}

/// Builds the task-kind choice list.
pub fn get_tasks_markup() -> (r: Vec<(String, String)>)
    ensures
        task_choices(r@),
{
    let all = TaskType::get_all();
    let mut r: Vec<(String, String)> = Vec::new();
    let mut i: usize = 0;
    while i < all.len()
        invariant
            all@.len() == 10,
            forall|k: int|
                0 <= k < 10 ==> #[trigger] all@[k]@ == TaskType::selectable(k).wire_str(),
            i <= 10,
            r@.len() == i,
            forall|k: int|
                0 <= k < i ==> (#[trigger] r@[k]).0@ == TaskType::selectable(k).wire_str()
                    && r@[k].1@ == "t:"@ + TaskType::selectable(k).wire_str(),
        decreases all@.len() - i,
    {
        let label = all[i].clone();
        let mut tok = String::from_str("t:");
        tok.append(all[i].as_str());
        r.push((label, tok));
        i += 1;
    }
    r
}

/// Builds the device choice list.
pub fn get_devices_markup(state: &AppState) -> (r: Vec<(String, String)>)
    ensures
        device_choices(*state, r@),
{
    let names = state.get_devices(true);
    let ids = state.get_devices(false);
    let mut r: Vec<(String, String)> = Vec::new();
    let mut i: usize = 0;
    while i < names.len()
        invariant
            names@.len() == state.devices_seq().len(),
            ids@.len() == state.devices_seq().len(),
            forall|k: int| 0 <= k < names@.len() ==> #[trigger] names@[k]@ == state.devices_seq()[k].name@,
            forall|k: int| 0 <= k < ids@.len() ==> #[trigger] ids@[k]@ == state.devices_seq()[k].id@,
            i <= names@.len(),
            r@.len() == i,
            forall|k: int|
                0 <= k < i ==> (#[trigger] r@[k]).0@ == state.devices_seq()[k].name@ && r@[k].1@
                    == "d:"@ + state.devices_seq()[k].id@,
        decreases names@.len() - i,
    {
        let label = names[i].clone();
        let mut tok = String::from_str("d:");
        tok.append(ids[i].as_str());
        r.push((label, tok));
        i += 1;
    }
    r
}

/// Builds the session choice list for a device; fails when it is unknown.
pub fn get_users_markup(state: &AppState, device_id: &str) -> (r: Result<
    Vec<(String, String)>,
    AppError,
>)
    ensures
        match r {
            Ok(choices) => exists|di: int|
                #![auto]
                0 <= di < state.devices_seq().len() && state.devices_seq()[di].id@ == device_id@
                    && user_choices(state.devices_seq()[di].users@, choices@),
            Err(e) => !has_device(state.devices_seq(), device_id@) && (e matches
                AppError::DeviceNotFound(d) && d@ == device_id@),
        },
{
    let users = match state.get_users(device_id) {
        Ok(u) => u,
        Err(e) => {
            return Err(e);
        },
    };
    let mut r: Vec<(String, String)> = Vec::new();
    let mut i: usize = 0;
    let ghost di = choose|di: int|
        0 <= di < state.devices_seq().len() && state.devices_seq()[di].id@ == device_id@
            && users@.len() == state.devices_seq()[di].users@.len() && (forall|j: int|
            0 <= j < users@.len() ==> #[trigger] users@[j]@
                == state.devices_seq()[di].users@[j].id@);
    while i < users.len()
        invariant
            0 <= di < state.devices_seq().len(),
            users@.len() == state.devices_seq()[di].users@.len(),
            forall|j: int|
                0 <= j < users@.len() ==> #[trigger] users@[j]@
                    == state.devices_seq()[di].users@[j].id@,
            i <= users@.len(),
            r@.len() == i,
            forall|k: int|
                0 <= k < i ==> (#[trigger] r@[k]).0@ == state.devices_seq()[di].users@[k].id@
                    && r@[k].1@ == "u:"@ + state.devices_seq()[di].users@[k].id@,
        decreases users@.len() - i,
    {
        let label = users[i].clone();
        let mut tok = String::from_str("u:");
        tok.append(users[i].as_str());
        r.push((label, tok));
        i += 1;
    }
    Ok(r)
}

// ---------------------------------------------------------------------------
// The composition flows.
// ---------------------------------------------------------------------------

/// Whether a device with the given id holds a session with the given id.
pub open spec fn device_has_user(state: AppState, device: Seq<char>, user: Seq<char>) -> bool {
    exists|di: int|
        #![auto]
        0 <= di < state.devices_seq().len() && state.devices_seq()[di].id@ == device && has_user(
            state.devices_seq()[di].users@,
            user,
        )
}

/// What starting the append-task flow does: with the single-session
/// heuristic set, device and session selection are skipped and the dialogue
/// lands directly in task-kind selection bound to the unique pair; otherwise
/// the operator is asked to pick a device.
pub open spec fn start_append_post(state: AppState, post: DialogState, r: Reply) -> bool {
    if state.single_user_flag() {
        &&& (match post {
            DialogState::AppendTaskToUser { device_id, user_id } => device_id@
                == state.devices_seq()[0].id@ && user_id@ == state.devices_seq()[0].users@[0].id@,
            _ => false,
        })
        &&& (match r {
            Reply::SelectTaskFor { device_name, user_id, choices } => device_name@
                == state.devices_seq()[0].name@ && user_id@
                == state.devices_seq()[0].users@[0].id@ && task_choices(choices@),
            _ => false,
        })
    } else {
        &&& post is StartAppendTask
        &&& (match r {
            Reply::SelectDevice { choices } => device_choices(state, choices@),
            _ => false,
        })
    }
}

/// Starts the append-task flow.
pub fn start_append_task_dialog(state: &AppState, dialog: &mut DialogState) -> (r: Reply)
    requires
        state.wf(),
    ensures
        start_append_post(*state, *final(dialog), r),
{
    if state.get_is_single_user() {
        match state.get_single_device_and_user() {
            Some((device, user)) => {
                *dialog = DialogState::AppendTaskToUser {
                    device_id: device.id.clone(),
                    user_id: user.id.clone(),
                };
                Reply::SelectTaskFor {
                    device_name: device.name,
                    user_id: user.id,
                    choices: get_tasks_markup(),
                }
            },
            None => {
                proof {
                    assert(false);
                }
                Reply::InvalidState
            },
        }
    } else {
        *dialog = DialogState::StartAppendTask;
        Reply::SelectDevice { choices: get_devices_markup(state) }
    }
}

/// What starting the liveness-probe flow does: with the single-session
/// heuristic set, a heartbeat is enqueued against the unique pair at once
/// (with its companion) and the dialogue stays idle with no prompt;
/// otherwise the operator is asked to pick a device.
pub open spec fn get_current_post(
    pre: AppState,
    post: AppState,
    post_d: DialogState,
    r: Reply,
) -> bool {
    if pre.single_user_flag() {
        &&& post_d is Idle
        &&& r is HeartBeatQueued
        &&& exists|t: Task| #[trigger] enqueue_effect(pre, post, 0, 0, TaskType::HeartBeat, t)
    } else {
        &&& post == pre
        &&& post_d is StartAppendHeartBeatTask
        &&& (match r {
            Reply::SelectDevice { choices } => device_choices(pre, choices@),
            _ => false,
        })
    }
}

/// Starts the liveness-probe flow.
pub fn start_get_current_task_dialog(state: &mut AppState, dialog: &mut DialogState) -> (r: Reply)
    requires
        old(state).wf(),
    ensures
        final(state).wf(),
        get_current_post(*old(state), *final(state), *final(dialog), r),
{
    if state.get_is_single_user() {
        let t = state.enqueue_at(0, 0, TaskType::HeartBeat);
        proof {
            assert(enqueue_effect(*old(state), *state, 0, 0, TaskType::HeartBeat, t));
        }
        *dialog = DialogState::Idle;
        Reply::HeartBeatQueued
    } else {
        *dialog = DialogState::StartAppendHeartBeatTask;
        Reply::SelectDevice { choices: get_devices_markup(state) }
    }
}

/// The reply that presents a device's sessions.
pub open spec fn select_user_reply(state: AppState, device: Seq<char>, r: Reply) -> bool {
    match r {
        Reply::SelectUser { device_id, choices } => device_id@ == device && exists|di: int|
            #![auto]
            0 <= di < state.devices_seq().len() && state.devices_seq()[di].id@ == device
                && user_choices(state.devices_seq()[di].users@, choices@),
        _ => false,
    }
}

/// What a device-selection turn does. Only the two device-selection states
/// accept it; a session or task token there is a state error, a token
/// without a known prefix or with an unknown device id a selection error —
/// neither changes any state.
pub open spec fn receive_device_post(
    state: AppState,
    pre: DialogState,
    post: DialogState,
    token: Seq<char>,
    r: Reply,
) -> bool {
    match pre {
        DialogState::StartAppendTask => if has_tag(token, 'd') {
            if has_device(state.devices_seq(), token_body(token)) {
                &&& (match post {
                    DialogState::AppendTaskToDevice { device_id } => device_id@ == token_body(
                        token,
                    ),
                    _ => false,
                })
                &&& select_user_reply(state, token_body(token), r)
            } else {
                post == pre && r is InvalidDevice
            }
        } else if has_tag(token, 'u') || has_tag(token, 't') {
            post == pre && r is InvalidState
        } else {
            post == pre && r is InvalidDevice
        },
        DialogState::StartAppendHeartBeatTask => if has_tag(token, 'd') {
            if has_device(state.devices_seq(), token_body(token)) {
                &&& (match post {
                    DialogState::AppendHeartBeatTaskToDevice { device_id } => device_id@
                        == token_body(token),
                    _ => false,
                })
                &&& select_user_reply(state, token_body(token), r)
            } else {
                post == pre && r is InvalidDevice
            }
        } else if has_tag(token, 'u') || has_tag(token, 't') {
            post == pre && r is InvalidState
        } else {
            post == pre && r is InvalidDevice
        },
        _ => post == pre && r is InvalidState,
    }
}

/// Handles the operator's device selection.
pub fn receive_device(state: &AppState, dialog: &mut DialogState, token: &str) -> (r: Reply)
    requires
        state.wf(),
    ensures
        receive_device_post(*state, *old(dialog), *final(dialog), token@, r),
{
    let to_device: bool = match dialog {
        DialogState::StartAppendTask => true,
        DialogState::StartAppendHeartBeatTask => false,
        _ => {
            return Reply::InvalidState;
        },
    };
    if !check_tag(token, 'd') {
        if check_tag(token, 'u') || check_tag(token, 't') {
            return Reply::InvalidState;
        }
        return Reply::InvalidDevice;
    }
    let device_id = strip_tag(token);
    match get_users_markup(state, device_id.as_str()) {
        Ok(choices) => {
            if to_device {
                *dialog = DialogState::AppendTaskToDevice { device_id: device_id.clone() };
            } else {
                *dialog = DialogState::AppendHeartBeatTaskToDevice {
                    device_id: device_id.clone(),
                };
            }
            Reply::SelectUser { device_id, choices }
        },
        Err(_) => Reply::InvalidDevice,
    }
}

/// Enqueueing the heartbeat for the chosen pair: on success the dialogue
/// resets with no prompt; an unknown device or session surfaces as a
/// selection error and changes nothing.
pub open spec fn heartbeat_outcome(
    pre_state: AppState,
    post_state: AppState,
    pre_d: DialogState,
    post_d: DialogState,
    device: Seq<char>,
    user: Seq<char>,
    r: Reply,
) -> bool {
    if has_device(pre_state.devices_seq(), device) && device_has_user(pre_state, device, user) {
        &&& post_d is Idle
        &&& r is HeartBeatQueued
        &&& exists|di: int, ui: int, t: Task|
            #![auto]
            0 <= di < pre_state.devices_seq().len() && pre_state.devices_seq()[di].id@ == device
                && 0 <= ui < pre_state.devices_seq()[di].users@.len()
                && pre_state.devices_seq()[di].users@[ui].id@ == user && enqueue_effect(
                pre_state,
                post_state,
                di,
                ui,
                TaskType::HeartBeat,
                t,
            )
    } else {
        &&& post_state == pre_state
        &&& post_d == pre_d
        &&& (if has_device(pre_state.devices_seq(), device) {
            r is InvalidUser
        } else {
            r is InvalidDevice
        })
    }
}

/// What a session-selection turn does. In the append-task flow the selection
/// is recorded and the task catalog presented; in the liveness flow the
/// heartbeat is enqueued at once and the dialogue reset. A device or task
/// token is a state error; a token without a known prefix a selection error.
pub open spec fn receive_user_post(
    pre_state: AppState,
    post_state: AppState,
    pre_d: DialogState,
    post_d: DialogState,
    token: Seq<char>,
    r: Reply,
) -> bool {
    match pre_d {
        DialogState::AppendTaskToDevice { device_id } => {
            &&& post_state == pre_state
            &&& if has_tag(token, 'u') {
                &&& (match post_d {
                    DialogState::AppendTaskToUser { device_id: d2, user_id } => d2 == device_id
                        && user_id@ == token_body(token),
                    _ => false,
                })
                &&& (match r {
                    Reply::SelectTask { choices } => task_choices(choices@),
                    _ => false,
                })
            } else if has_tag(token, 'd') || has_tag(token, 't') {
                post_d == pre_d && r is InvalidState
            } else {
                post_d == pre_d && r is InvalidUser
            }
        },
        DialogState::AppendHeartBeatTaskToDevice { device_id } => if has_tag(token, 'u') {
            heartbeat_outcome(
                pre_state,
                post_state,
                pre_d,
                post_d,
                device_id@,
                token_body(token),
                r,
            )
        } else if has_tag(token, 'd') || has_tag(token, 't') {
            post_state == pre_state && post_d == pre_d && r is InvalidState
        } else {
            post_state == pre_state && post_d == pre_d && r is InvalidUser
        },
        _ => post_state == pre_state && post_d == pre_d && r is InvalidState,
    }
}

/// Handles the operator's session selection.
pub fn receive_user(state: &mut AppState, dialog: &mut DialogState, token: &str) -> (r: Reply)
    requires
        old(state).wf(),
    ensures
        final(state).wf(),
        receive_user_post(*old(state), *final(state), *old(dialog), *final(dialog), token@, r),
{
    let pair: (String, bool) = match dialog {
        DialogState::AppendTaskToDevice { device_id } => (device_id.clone(), false),
        DialogState::AppendHeartBeatTaskToDevice { device_id } => (device_id.clone(), true),
        _ => {
            return Reply::InvalidState;
        },
    };
    let (device_id, heartbeat) = pair;
    if !check_tag(token, 'u') {
        if check_tag(token, 'd') || check_tag(token, 't') {
            return Reply::InvalidState;
        }
        return Reply::InvalidUser;
    }
    let user_id = strip_tag(token);
    if heartbeat {
        match state.enqueue(device_id.as_str(), user_id.as_str(), TaskType::HeartBeat) {
            Ok(_) => {
                *dialog = DialogState::Idle;
                Reply::HeartBeatQueued
            },
            Err(e) => match e {
                AppError::DeviceNotFound(_) => Reply::InvalidDevice,
                _ => Reply::InvalidUser,
            },
        }
    } else {
        *dialog = DialogState::AppendTaskToUser { device_id, user_id };
        Reply::SelectTask { choices: get_tasks_markup() }
    }
}

/// Enqueueing the chosen kind for the chosen pair: on success the dialogue
/// resets and the enqueue is confirmed; an unknown kind or key surfaces as a
/// selection error and changes nothing.
pub open spec fn task_outcome(
    pre_state: AppState,
    post_state: AppState,
    pre_d: DialogState,
    post_d: DialogState,
    device: Seq<char>,
    user: Seq<char>,
    kind_str: Seq<char>,
    r: Reply,
) -> bool {
    match TaskType::parse_wire(kind_str) {
        Some(kind) => if has_device(pre_state.devices_seq(), device) && device_has_user(
            pre_state,
            device,
            user,
        ) {
            &&& post_d is Idle
            &&& r is TaskAdded
            &&& exists|di: int, ui: int, t: Task|
                #![auto]
                0 <= di < pre_state.devices_seq().len() && pre_state.devices_seq()[di].id@
                    == device && 0 <= ui < pre_state.devices_seq()[di].users@.len()
                    && pre_state.devices_seq()[di].users@[ui].id@ == user && t.task_type == kind
                    && enqueue_effect(pre_state, post_state, di, ui, kind, t)
        } else {
            &&& post_state == pre_state
            &&& post_d == pre_d
            &&& (if has_device(pre_state.devices_seq(), device) {
                r is InvalidUser
            } else {
                r is InvalidDevice
            })
        },
        None => post_state == pre_state && post_d == pre_d && r is InvalidTask,
    }
}

/// What a task-kind turn does. Only the task-selection state accepts it; a
/// device or session token is a state error, a token without a known prefix
/// a selection error.
pub open spec fn receive_task_post(
    pre_state: AppState,
    post_state: AppState,
    pre_d: DialogState,
    post_d: DialogState,
    token: Seq<char>,
    r: Reply,
) -> bool {
    match pre_d {
        DialogState::AppendTaskToUser { device_id, user_id } => if has_tag(token, 't') {
            task_outcome(
                pre_state,
                post_state,
                pre_d,
                post_d,
                device_id@,
                user_id@,
                token_body(token),
                r,
            )
        } else if has_tag(token, 'd') || has_tag(token, 'u') {
            post_state == pre_state && post_d == pre_d && r is InvalidState
        } else {
            post_state == pre_state && post_d == pre_d && r is InvalidTask
        },
        _ => post_state == pre_state && post_d == pre_d && r is InvalidState,
    }
}

/// Handles the operator's task-kind selection.
pub fn receive_task(state: &mut AppState, dialog: &mut DialogState, token: &str) -> (r: Reply)
    requires
        old(state).wf(),
    ensures
        final(state).wf(),
        receive_task_post(*old(state), *final(state), *old(dialog), *final(dialog), token@, r),
{
    let pair: (String, String) = match dialog {
        DialogState::AppendTaskToUser { device_id, user_id } => (
            device_id.clone(),
            user_id.clone(),
        ),
        _ => {
            return Reply::InvalidState;
        },
    };
    let (device_id, user_id) = pair;
    if !check_tag(token, 't') {
        if check_tag(token, 'd') || check_tag(token, 'u') {
            return Reply::InvalidState;
        }
        return Reply::InvalidTask;
    }
    let kind_str = strip_tag(token);
    match state.append_task(device_id.as_str(), user_id.as_str(), kind_str.as_str()) {
        Ok(_) => {
            *dialog = DialogState::Idle;
            Reply::TaskAdded
        },
        Err(e) => match e {
            AppError::InvalidSelection(_) => Reply::InvalidTask,
            AppError::DeviceNotFound(_) => Reply::InvalidDevice,
            _ => Reply::InvalidUser,
        },
    }
}

/// Enqueues a capture-now task (with its companion) on every session of
/// every registered device and confirms: a fan-out, not a dialogue.
pub fn take_screenshot_all(state: &mut AppState) -> (r: Reply)
    requires
        old(state).wf(),
    ensures
        final(state).wf(),
        screenshot_post(*old(state), *final(state)),
        r is TasksSent,
{
    state.append_screenshot_to_all();
    Reply::TasksSent
}

// ---------------------------------------------------------------------------
// The access gate and the per-turn routing.
// ---------------------------------------------------------------------------

/// Whether the turn's origin is the single permitted operator identity.
pub open spec fn permitted_turn(state: AppState, origin_is_user: bool, origin_id: i64) -> bool {
    origin_is_user && origin_id == state.permitted()
}

/// What one operator command does, after the access gate.
pub open spec fn command_post(
    pre: AppState,
    post: AppState,
    pre_d: DialogState,
    post_d: DialogState,
    cmd: Command,
    r: Reply,
) -> bool {
    match cmd {
        Command::AppendTask => post == pre && start_append_post(pre, post_d, r),
        Command::ScreenshotAll => screenshot_post(pre, post) && post_d == pre_d && r is TasksSent,
        Command::GetCurrentTask => get_current_post(pre, post, post_d, r),
    }
}

/// Routes one operator command; a turn from any identity but the permitted
/// one is silently dropped, with no transition and no reply.
pub fn handle_command(
    state: &mut AppState,
    dialog: &mut DialogState,
    origin_is_user: bool,
    origin_id: i64,
    cmd: Command,
) -> (r: Reply)
    requires
        old(state).wf(),
    ensures
        final(state).wf(),
        if permitted_turn(*old(state), origin_is_user, origin_id) {
            command_post(*old(state), *final(state), *old(dialog), *final(dialog), cmd, r)
        } else {
            *final(state) == *old(state) && *final(dialog) == *old(dialog) && r is Ignored
        },
{
    if !(origin_is_user && origin_id == state.get_permitted_user_id()) {
        return Reply::Ignored;
    }
    match cmd {
        Command::AppendTask => start_append_task_dialog(state, dialog),
        Command::ScreenshotAll => take_screenshot_all(state),
        Command::GetCurrentTask => start_get_current_task_dialog(state, dialog),
    }
}

/// What one selection token does, after the access gate: the turn is routed
/// by the dialogue's current state, and a token no state expects is refused
/// without a transition.
pub open spec fn callback_post(
    pre: AppState,
    post: AppState,
    pre_d: DialogState,
    post_d: DialogState,
    token: Seq<char>,
    r: Reply,
) -> bool {
    match pre_d {
        DialogState::StartAppendTask | DialogState::StartAppendHeartBeatTask => post == pre
            && receive_device_post(pre, pre_d, post_d, token, r),
        DialogState::AppendTaskToDevice { .. } | DialogState::AppendHeartBeatTaskToDevice {
            ..
        } => receive_user_post(pre, post, pre_d, post_d, token, r),
        DialogState::AppendTaskToUser { .. } => receive_task_post(
            pre,
            post,
            pre_d,
            post_d,
            token,
            r,
        ),
        DialogState::Idle => post == pre && post_d == pre_d && r is InvalidState,
    }
}

/// Routes one selection token; a turn from any identity but the permitted
/// one is silently dropped, with no transition and no reply.
pub fn handle_callback(
    state: &mut AppState,
    dialog: &mut DialogState,
    origin_is_user: bool,
    origin_id: i64,
    token: &str,
) -> (r: Reply)
    requires
        old(state).wf(),
    ensures
        final(state).wf(),
        if permitted_turn(*old(state), origin_is_user, origin_id) {
            callback_post(*old(state), *final(state), *old(dialog), *final(dialog), token@, r)
        } else {
            *final(state) == *old(state) && *final(dialog) == *old(dialog) && r is Ignored
        },
{
    if !(origin_is_user && origin_id == state.get_permitted_user_id()) {
        return Reply::Ignored;
    }
    let which: usize = match dialog {
        DialogState::StartAppendTask => 0,
        DialogState::StartAppendHeartBeatTask => 0,
        DialogState::AppendTaskToDevice { .. } => 1,
        DialogState::AppendHeartBeatTaskToDevice { .. } => 1,
        DialogState::AppendTaskToUser { .. } => 2,
        DialogState::Idle => 3,
    };
    if which == 0 {
        receive_device(state, dialog, token)
    } else if which == 1 {
        receive_user(state, dialog, token)
    } else if which == 2 {
        receive_task(state, dialog, token)
    } else {
        Reply::InvalidState
    }
}

} // verus!
