use vstd::prelude::*;

use super::model::BackendKind;

verus! {

/// Typed failure raised by a playback adapter.
#[derive(Debug, Clone, PartialEq, Eq)]
pub enum BackendError {
    NotReady,
    Unsupported { backend: BackendKind },
    InvalidProperty { property: String, message: String },
    Io { operation: String, message: String },
    Timeout { operation: String },
    Protocol { message: String },
    Engine { message: String },
}

/// The name under which a backend kind is shown in messages.
pub open spec fn kind_label(kind: BackendKind) -> Seq<char> {
    match kind {
        BackendKind::Libmpv => "Libmpv"@,
        BackendKind::Sidecar => "Sidecar"@,
    }
}

/// The human-readable text of a backend error.
pub open spec fn error_text(error: BackendError) -> Seq<char> {
    match error {
        BackendError::NotReady => "playback engine is not ready"@,
        BackendError::Unsupported { backend } =>
            kind_label(backend) + " backend does not support this operation"@,
        BackendError::InvalidProperty { property, message } =>
            "invalid value for mpv property "@ + property@ + ": "@ + message@,
        BackendError::Io { operation, message } =>
            "mpv I/O operation "@ + operation@ + " failed: "@ + message@,
        BackendError::Timeout { operation } => "mpv operation timed out: "@ + operation@,
        BackendError::Protocol { message } => "invalid mpv IPC response: "@ + message@,
        BackendError::Engine { message } => "mpv operation failed: "@ + message@,
    }
}

impl BackendError {
    /// The human-readable text of this error.
    pub fn describe(&self) -> (text: String)
        ensures
            text@ == error_text(*self),
    {
        match self {
            BackendError::NotReady => String::from_str("playback engine is not ready"),
            BackendError::Unsupported { backend } => {
                let label = match backend {
                    BackendKind::Libmpv => String::from_str("Libmpv"),
                    BackendKind::Sidecar => String::from_str("Sidecar"),
                };
                label.concat(" backend does not support this operation")
            },
            BackendError::InvalidProperty { property, message } => {
                String::from_str("invalid value for mpv property ").concat(property.as_str()).concat(
                    ": ",
                ).concat(message.as_str())
            },
            BackendError::Io { operation, message } => {
                String::from_str("mpv I/O operation ").concat(operation.as_str()).concat(
                    " failed: ",
                ).concat(message.as_str())
            },
            BackendError::Timeout { operation } => {
                String::from_str("mpv operation timed out: ").concat(operation.as_str())
            },
            BackendError::Protocol { message } => {
                String::from_str("invalid mpv IPC response: ").concat(message.as_str())
            },
            BackendError::Engine { message } => {
                String::from_str("mpv operation failed: ").concat(message.as_str())
            },
        }
    }
}

} // verus!
