//! Argument handling for the `mp` command line player.

pub mod invocation;
pub mod laws;
pub mod options;
pub mod sidecar;

pub use invocation::{parse_invocation, ParsedInvocation, UiOverrides};
