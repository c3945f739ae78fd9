use vstd::prelude::*;

verus! {

/// Failures the orchestration core and its boundaries can report.
///
/// `PoisonError`, `TeloxideError` and `StateNotSet` are produced by the
/// process glue around the core (a poisoned lock, a transport failure, a
/// missing global handle); the core itself only constructs the others.
#[derive(Clone, Debug, PartialEq, Eq)]
pub enum AppError {
    /// No device with the given id is registered.
    DeviceNotFound(String),
    /// The device exists but holds no user session with the given id.
    UserNotFound(String),
    /// A shared-lock primitive reported exclusive-access failure.
    PoisonError(String),
    /// The task id was never issued by this process.
    TaskNotFound(String),
    /// The chat transport failed to deliver a reply.
    TeloxideError(String),
    /// The shared registry was not yet initialized.
    StateNotSet,
    /// A selection token or task kind string was malformed.
    InvalidSelection(String),
    /// A well-formed token arrived in a dialogue state that does not expect it.
    InvalidState,
    /// A reported payload could not be decoded.
    InvalidPayload(String),
}

impl AppError {
    /// The one-line description of the failure.
    pub open spec fn spec_message(self) -> Seq<char> {
        match self {
            AppError::DeviceNotFound(e) => "Device not found with id: "@ + e@,
            AppError::UserNotFound(e) => "User not found with id: "@ + e@,
            AppError::PoisonError(e) => "PoisonError: "@ + e@,
            AppError::TaskNotFound(e) => "Task not found with id: "@ + e@,
            AppError::TeloxideError(e) => "TeloxideError: "@ + e@,
            AppError::StateNotSet => "State not set"@,
            AppError::InvalidSelection(e) => "Invalid selection: "@ + e@,
            AppError::InvalidState => "Invalid state"@,
            AppError::InvalidPayload(e) => "Invalid payload: "@ + e@,
        }
    }

    /// Renders the failure as a one-line human-readable message.
    pub fn message(&self) -> (r: String)
        ensures
            r@ == self.spec_message(),
    {
        match self {
            AppError::DeviceNotFound(e) => {
                let mut s = String::from_str("Device not found with id: ");
                s.append(e.as_str());
                s
            },
            AppError::UserNotFound(e) => {
                let mut s = String::from_str("User not found with id: ");
                s.append(e.as_str());
                s
            },
            AppError::PoisonError(e) => {
                let mut s = String::from_str("PoisonError: ");
                s.append(e.as_str());
                s
            },
            AppError::TaskNotFound(e) => {
                let mut s = String::from_str("Task not found with id: ");
                s.append(e.as_str());
                s
            },
            AppError::TeloxideError(e) => {
                let mut s = String::from_str("TeloxideError: ");
                s.append(e.as_str());
                s
            },
            AppError::StateNotSet => String::from_str("State not set"),
            AppError::InvalidSelection(e) => {
                let mut s = String::from_str("Invalid selection: ");
                s.append(e.as_str());
                s
            },
            AppError::InvalidState => String::from_str("Invalid state"),
            AppError::InvalidPayload(e) => {
                let mut s = String::from_str("Invalid payload: ");
                s.append(e.as_str());
                s
            },
        }
    }
}

} // verus!
