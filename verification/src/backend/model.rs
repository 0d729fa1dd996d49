use vstd::prelude::*;

verus! {

/// IEEE-754 binary64 bit pattern of `100.0`, the default volume.
pub const VOLUME_DEFAULT_BITS: u64 = 0x4059_0000_0000_0000u64;

/// IEEE-754 binary64 bit pattern of `1.0`, the default speed.
pub const SPEED_DEFAULT_BITS: u64 = 0x3ff0_0000_0000_0000u64;

/// IEEE-754 binary64 bit pattern of `0.0`.
pub const ZERO_BITS: u64 = 0u64;

/// Identifies the active playback implementation.
#[derive(Debug, Clone, Copy, PartialEq, Eq, Structural)]
pub enum BackendKind {
    Libmpv,
    Sidecar,
}

/// Typed value exchanged with mpv properties.
///
/// Numbers are carried as the bit pattern of an IEEE-754 binary64 value,
/// so that the value travels unchanged.
#[derive(Debug, Clone, PartialEq)]
pub enum PropertyValue {
    Boolean(bool),
    Number(u64),
    Text(String),
    Unit,
}

/// Property name and value update.
#[derive(Debug, Clone, PartialEq)]
pub struct PropertyUpdate {
    pub name: String,
    pub value: PropertyValue,
}

impl PropertyUpdate {
    /// An update that sets a boolean property.
    pub fn boolean(name: &str, value: bool) -> (update: Self)
        ensures
            update.name@ == name@,
            update.value == PropertyValue::Boolean(value),
    {
        PropertyUpdate { name: String::from_str(name), value: PropertyValue::Boolean(value) }
    }

    /// An update that sets a numeric property; `bits` is the binary64 bit
    /// pattern of the number.
    pub fn number(name: &str, bits: u64) -> (update: Self)
        ensures
            update.name@ == name@,
            update.value == PropertyValue::Number(bits),
    {
        PropertyUpdate { name: String::from_str(name), value: PropertyValue::Number(bits) }
    }

    /// An update that sets a text property.
    pub fn text(name: &str, value: &str) -> (update: Self)
        ensures
            update.name@ == name@,
            update.value matches PropertyValue::Text(t) && t@ == value@,
    {
        PropertyUpdate { name: String::from_str(name), value: PropertyValue::Text(String::from_str(value)) }
    }
}

/// Pre-split mpv command arguments.
#[derive(Debug, Clone, PartialEq)]
pub struct PlaybackCommand {
    pub name: String,
    pub arguments: Vec<String>,
}

impl PlaybackCommand {
    /// A command with its name and its already split arguments.
    pub fn new(name: &str, arguments: Vec<String>) -> (command: Self)
        ensures
            command.name@ == name@,
            command.arguments == arguments,
    {
        PlaybackCommand { name: String::from_str(name), arguments }
    }
}

/// High-level state suitable for the desktop shell.
#[derive(Debug, Clone, PartialEq, Eq)]
pub enum PlaybackPhase {
    Idle,
    Playing,
    Paused,
    Ended,
    Error(String),
}

/// Complete observable playback state. Numeric fields hold binary64 bit
/// patterns.
#[derive(Debug, Clone, PartialEq)]
pub struct PlaybackSnapshot {
    pub phase: PlaybackPhase,
    pub paused: bool,
    pub volume: u64,
    pub muted: bool,
    pub fullscreen: bool,
    pub speed: u64,
    pub time_position: u64,
    pub duration: Option<u64>,
    pub filename: String,
    pub media_title: String,
}

/// The phase shown for an engine that reports `core-idle` and `pause`:
/// a paused engine is paused, otherwise an idle core is idle, otherwise the
/// engine is playing.
pub open spec fn phase_of(idle: bool, paused: bool) -> PlaybackPhase {
    if paused {
        PlaybackPhase::Paused
    } else if idle {
        PlaybackPhase::Idle
    } else {
        PlaybackPhase::Playing
    }
}

/// Derive the playback phase from the engine's `core-idle` and `pause`.
pub fn playback_phase(idle: bool, paused: bool) -> (phase: PlaybackPhase)
    ensures
        phase == phase_of(idle, paused),
{
    if paused {
        PlaybackPhase::Paused
    } else if idle {
        PlaybackPhase::Idle
    } else {
        PlaybackPhase::Playing
    }
}

impl Default for PlaybackSnapshot {
    fn default() -> (snapshot: Self)
        ensures
            snapshot.phase == PlaybackPhase::Idle,
            !snapshot.paused,
            snapshot.volume == VOLUME_DEFAULT_BITS,
            !snapshot.muted,
            !snapshot.fullscreen,
            snapshot.speed == SPEED_DEFAULT_BITS,
            snapshot.time_position == ZERO_BITS,
            snapshot.duration is None,
            snapshot.filename@.len() == 0,
            snapshot.media_title@.len() == 0,
    {
        PlaybackSnapshot {
            phase: PlaybackPhase::Idle,
            paused: false,
            volume: VOLUME_DEFAULT_BITS,
            muted: false,
            fullscreen: false,
            speed: SPEED_DEFAULT_BITS,
            time_position: ZERO_BITS,
            duration: None,
            filename: String::new(),
            media_title: String::new(),
        }
    }
}

/// The phase shows a pause exactly when the engine is paused, and an idle
/// phase only for an idle core.
pub proof fn lemma_phase_agrees_with_pause(idle: bool, paused: bool)
    ensures
        (phase_of(idle, paused) == PlaybackPhase::Paused) <==> paused,
        phase_of(idle, paused) == PlaybackPhase::Idle ==> idle,
        phase_of(idle, paused) == PlaybackPhase::Playing <==> (!idle && !paused),
{
}

} // verus!
