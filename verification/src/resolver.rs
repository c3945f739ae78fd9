use vstd::prelude::*;

use crate::error::AppError;
use crate::model::{TaskStatus, TaskType};
use crate::state::{has_task_id, resolves, AppState};

verus! {

/// What base64's standard-alphabet decoding yields on a given text: the
/// decoded bytes, or nothing when the text is not valid standard base64.
/// The outcome is a function of the text alone.
pub uninterp spec fn b64_decode(s: Seq<char>) -> Option<Seq<u8>>;

#[verifier::external_type_specification]
#[verifier::external_body]
pub struct ExDecodeError(base64::DecodeError);

/// Relies on `base64::Engine::decode` with the standard engine: decoding is
/// deterministic in the input text, yielding bytes exactly for valid
/// standard base64.
#[verifier::external_body]
fn decode_base64(payload: &str) -> (r: Result<Vec<u8>, base64::DecodeError>)
    ensures
        match r {
            Ok(v) => b64_decode(payload@) == Some(v@),
            Err(_) => b64_decode(payload@) is None,
        },
{
    base64::Engine::decode(&base64::prelude::BASE64_STANDARD, payload)
}

/// The follow-up a report triggers beyond the notification: forward the
/// decoded image, report the liveness probe's finding, or nothing.
#[derive(Clone, Debug, PartialEq, Eq)]
pub enum ReportAction {
    /// The finished task was an image capture: forward the decoded image.
    SendImage { bytes: Vec<u8> },
    /// The liveness probe found no task executing.
    NoTaskRunning,
    /// The liveness probe named the task presently executing on the device.
    RunningTask { task_type: TaskType, task_id: String },
    /// A named automation routine: the notification alone suffices.
    NoFollowUp,
}

impl ReportAction {
    /// The follow-up message of the liveness outcomes; empty otherwise.
    pub open spec fn spec_text(self) -> Seq<char> {
        match self {
            ReportAction::NoTaskRunning => "No task is running."@,
            ReportAction::RunningTask { task_type, task_id } => "Task "@ + task_type.wire_str()
                + " is running.\nTask id: "@ + task_id@,
            _ => Seq::empty(),
        }
    }

    /// Renders the follow-up message.
    pub fn text(&self) -> (r: String)
        ensures
            r@ == self.spec_text(),
    {
        match self {
            ReportAction::NoTaskRunning => String::from_str("No task is running."),
            ReportAction::RunningTask { task_type, task_id } => {
                let mut s = String::from_str("Task ");
                s.append(task_type.as_str());
                s.append(" is running.\nTask id: ");
                s.append(task_id.as_str());
                s
            },
            _ => String::new(),
        }
    }
}

/// The notification text for a completed task.
pub open spec fn notify_text(kind: TaskType, status: Seq<char>) -> Seq<char> {
    "Task "@ + kind.wire_str() + " finished. Status: "@ + status
}

/// The follow-up the resolved kind owes: image captures decode and forward
/// their payload; a liveness probe's payload is either empty ("nothing
/// running") or itself a task id, resolved in turn; automation routines owe
/// nothing further.
pub open spec fn report_action_post(
    state: AppState,
    req: TaskStatus,
    kind: TaskType,
    action: ReportAction,
) -> bool {
    match kind {
        TaskType::CaptureImage | TaskType::CaptureImageNow => match action {
            ReportAction::SendImage { bytes } => b64_decode(req.payload@) == Some(bytes@),
            _ => false,
        },
        TaskType::HeartBeat => if req.payload@.len() == 0 {
            action is NoTaskRunning
        } else {
            match action {
                ReportAction::RunningTask { task_type, task_id } => task_id@ == req.payload@
                    && resolves(state.corr(), req.payload@, task_type),
                _ => false,
            }
        },
        _ => action is NoFollowUp,
    }
}

/// Everything one status report does: the reported id must resolve to the
/// kind it was enqueued with (an unknown id is a hard error — a forged or
/// stale report), the notification names that kind and the reported status,
/// and the kind decides the follow-up. An image payload that is not valid
/// base64, or a liveness payload naming an unknown task, is a hard error.
pub open spec fn report_post(
    state: AppState,
    req: TaskStatus,
    r: Result<(String, ReportAction), AppError>,
) -> bool {
    match r {
        Ok(p) => exists|kind: TaskType|
            #![auto]
            resolves(state.corr(), req.task@, kind) && p.0@ == notify_text(kind, req.status@)
                && report_action_post(state, req, kind, p.1),
        Err(e) => match e {
            AppError::TaskNotFound(t) => (t@ == req.task@ && !has_task_id(
                state.corr(),
                req.task@,
            )) || (resolves(state.corr(), req.task@, TaskType::HeartBeat) && t@ == req.payload@
                && req.payload@.len() > 0 && !has_task_id(state.corr(), req.payload@)),
            AppError::InvalidPayload(p) => p@ == req.payload@ && b64_decode(req.payload@) is None
                && (resolves(state.corr(), req.task@, TaskType::CaptureImage) || resolves(
                state.corr(),
                req.task@,
                TaskType::CaptureImageNow,
            )),
            _ => false,
        },
    }
}

/// Resolves one completion report: looks the reported task id up in the
/// correlation table, composes the operator notification, and decides the
/// follow-up action by the resolved kind.
pub fn report_status(state: &AppState, req: &TaskStatus) -> (r: Result<
    (String, ReportAction),
    AppError,
>)
    requires
        state.wf(),
    ensures
        report_post(*state, *req, r),
{
    let kind = match state.get_task_type(req.task.as_str()) {
        Ok(k) => k,
        Err(e) => {
            return Err(e);
        },
    };
    let mut notify = String::from_str("Task ");
    notify.append(kind.as_str());
    notify.append(" finished. Status: ");
    notify.append(req.status.as_str());
    let action: ReportAction = match kind {
        TaskType::CaptureImage | TaskType::CaptureImageNow => {
            match decode_base64(req.payload.as_str()) {
                Ok(bytes) => ReportAction::SendImage { bytes },
                Err(_) => {
                    return Err(AppError::InvalidPayload(req.payload.clone()));
                },
            }
        },
        TaskType::HeartBeat => {
            if req.payload.as_str().is_empty() {
                ReportAction::NoTaskRunning
            } else {
                let inner = match state.get_task_type(req.payload.as_str()) {
                    Ok(k) => k,
                    Err(e) => {
                        return Err(e);
                    },
                };
                ReportAction::RunningTask { task_type: inner, task_id: req.payload.clone() }
            }
        },
        _ => ReportAction::NoFollowUp,
    };
    proof {
        assert(notify@ =~= notify_text(kind, req.status@));
        assert(report_action_post(*state, *req, kind, action));
        assert(report_post(*state, *req, Ok((notify, action))));
    }
    Ok((notify, action))
}

} // verus!
