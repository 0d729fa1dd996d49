//! Playback contracts, mpv JSON IPC protocol decisions and `mp` argument
//! handling for the MediaPulse player.

pub mod backend;
pub mod cli;
pub mod launcher;
pub mod number;
pub mod shell;
pub mod text;
