//! The playback model shared by every engine adapter.

pub mod error;
pub mod ipc;
pub mod libmpv;
pub mod model;
pub mod sidecar;
pub mod snapshot;

pub use error::BackendError;
pub use model::{BackendKind, PlaybackCommand, PlaybackPhase, PlaybackSnapshot, PropertyUpdate, PropertyValue};
