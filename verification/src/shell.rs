//! What the desktop shell reports to its web front end.
use vstd::prelude::*;

use crate::backend::error::{error_text, BackendError};
use crate::backend::model::PlaybackSnapshot;

verus! {

/// An error as the front end receives it: a stable machine code and a
/// human-readable message.
#[derive(Debug, Clone, PartialEq, Eq)]
pub struct IpcError {
    pub code: String,
    pub message: String,
}

/// The machine code of each kind of backend error.
pub open spec fn error_code(error: BackendError) -> Seq<char> {
    match error {
        BackendError::NotReady => "notReady"@,
        BackendError::Unsupported { .. } => "unsupported"@,
        BackendError::InvalidProperty { .. } => "invalidProperty"@,
        BackendError::Io { .. } => "io"@,
        BackendError::Timeout { .. } => "timeout"@,
        BackendError::Protocol { .. } => "protocol"@,
        BackendError::Engine { .. } => "engine"@,
    }
}

impl IpcError {
    /// The front end's view of a backend error: its kind's code and its text.
    pub fn from_backend_error(error: BackendError) -> (ipc: IpcError)
        ensures
            ipc.code@ == error_code(error),
            ipc.message@ == error_text(error),
    {
        let message = error.describe();
        let code = match error {
            BackendError::NotReady => "notReady",
            BackendError::Unsupported { .. } => "unsupported",
            BackendError::InvalidProperty { .. } => "invalidProperty",
            BackendError::Io { .. } => "io",
            BackendError::Timeout { .. } => "timeout",
            BackendError::Protocol { .. } => "protocol",
            BackendError::Engine { .. } => "engine",
        };
        IpcError { code: String::from_str(code), message }
    }

    /// The error of a window operation, with the windowing system's text.
    pub fn window(message: String) -> (ipc: IpcError)
        ensures
            ipc.code@ == "window"@,
            ipc.message == message,
    {
        IpcError { code: String::from_str("window"), message }
    }
}

/// What the shell emits after reading the playback state: the snapshot
/// under `playback-state`, or the error under `playback-error`.
#[derive(Debug, Clone)]
pub enum StateEvent {
    State(PlaybackSnapshot),
    Failure(IpcError),
}

impl StateEvent {
    /// The event for one read of the playback state.
    pub fn from_read(read: Result<PlaybackSnapshot, BackendError>) -> (event: StateEvent)
        ensures
            read matches Ok(s) ==> event == StateEvent::State(s),
            read matches Err(e) ==> (event matches StateEvent::Failure(f) && f.code@ == error_code(e)
                && f.message@ == error_text(e)),
    {
        match read {
            Ok(snapshot) => StateEvent::State(snapshot),
            Err(error) => StateEvent::Failure(IpcError::from_backend_error(error)),
        }
    }

    /// The name the event is emitted under.
    pub fn name(&self) -> (name: &'static str)
        ensures
            self is State ==> name@ == "playback-state"@,
            self is Failure ==> name@ == "playback-error"@,
    {
        match self {
            StateEvent::State(_) => "playback-state",
            StateEvent::Failure(_) => "playback-error",
        }
    }
}

} // verus!
