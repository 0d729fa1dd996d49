//! Assembling a playback snapshot from ten property reads, one at a time:
//! the adapter asks the engine what [`SnapshotReader::pending`] names and
//! hands each answer to [`SnapshotReader::accept`].
use vstd::prelude::*;

use super::error::BackendError;
use super::model::{phase_of, playback_phase, BackendKind, PlaybackSnapshot, ZERO_BITS};
use super::sidecar::{
    read_bool, read_number, read_optional_number, read_optional_text, reads_bool, reads_number,
    reads_optional_number, reads_optional_text, PropertyReply,
};

verus! {

/// The kind of value a property read expects.
#[derive(Debug, Clone, Copy, PartialEq, Eq, Structural)]
pub enum ValueKind {
    Boolean,
    Number,
    Text,
}

/// The properties a snapshot reads, in order.
pub open spec fn step_name(step: int) -> Seq<char> {
    if step == 0 {
        "pause"@
    } else if step == 1 {
        "volume"@
    } else if step == 2 {
        "mute"@
    } else if step == 3 {
        "fullscreen"@
    } else if step == 4 {
        "speed"@
    } else if step == 5 {
        "time-pos"@
    } else if step == 6 {
        "duration"@
    } else if step == 7 {
        "filename"@
    } else if step == 8 {
        "media-title"@
    } else {
        "core-idle"@
    }
}

/// The kind of value each read expects.
pub open spec fn step_kind(step: int) -> ValueKind {
    if step == 0 || step == 2 || step == 3 || step == 9 {
        ValueKind::Boolean
    } else if step == 7 || step == 8 {
        ValueKind::Text
    } else {
        ValueKind::Number
    }
}

/// The next read a snapshot needs.
#[derive(Debug, Clone, PartialEq)]
pub struct PropertyQuery {
    pub name: String,
    pub kind: ValueKind,
}

/// A snapshot in the making: the backend it reads from, the number of reads
/// done, and what they gave.
#[derive(Debug)]
pub struct SnapshotReader {
    pub backend: BackendKind,
    pub step: u8,
    pub paused: bool,
    pub volume: u64,
    pub muted: bool,
    pub fullscreen: bool,
    pub speed: u64,
    pub time_position: u64,
    pub duration: Option<u64>,
    pub filename: String,
    pub media_title: String,
}

/// What one read leads to: the next reader, or the finished snapshot, or
/// the error that ended the snapshot.
#[derive(Debug)]
pub enum SnapshotStep {
    Next(SnapshotReader),
    Done(Result<PlaybackSnapshot, BackendError>),
}

impl SnapshotReader {
    /// A reader is sound while it has reads left.
    pub open spec fn wf(self) -> bool {
        self.step < 10
    }

    /// A reader before its first read.
    pub fn new(backend: BackendKind) -> (reader: Self)
        ensures
            reader.wf(),
            reader.step == 0,
            reader.backend == backend,
    {
        SnapshotReader {
            backend,
            step: 0,
            paused: false,
            volume: 0,
            muted: false,
            fullscreen: false,
            speed: 0,
            time_position: 0,
            duration: None,
            filename: String::new(),
            media_title: String::new(),
        }
    }

    /// The property to read next.
    pub fn pending(&self) -> (query: PropertyQuery)
        requires
            self.wf(),
        ensures
            query.name@ == step_name(self.step as int),
            query.kind == step_kind(self.step as int),
    {
        let (name, kind) = match self.step {
            0 => ("pause", ValueKind::Boolean),
            1 => ("volume", ValueKind::Number),
            2 => ("mute", ValueKind::Boolean),
            3 => ("fullscreen", ValueKind::Boolean),
            4 => ("speed", ValueKind::Number),
            5 => ("time-pos", ValueKind::Number),
            6 => ("duration", ValueKind::Number),
            7 => ("filename", ValueKind::Text),
            8 => ("media-title", ValueKind::Text),
            _ => ("core-idle", ValueKind::Boolean),
        };
        PropertyQuery { name: String::from_str(name), kind }
    }

    /// Take the answer to the pending read. Required reads (`pause`,
    /// `volume`, `mute`, `fullscreen`, `speed`, `core-idle`) end the
    /// snapshot with their error; optional ones (`time-pos`, `duration`,
    /// `filename`, `media-title`) may be absent: a missing position counts
    /// as zero, missing names as empty. The last read completes the
    /// snapshot, whose phase follows `core-idle` and `pause`.
    pub fn accept(self, reply: PropertyReply) -> (next: SnapshotStep)
        requires
            self.wf(),
        ensures
            next matches SnapshotStep::Next(r) ==> r.wf() && r.step == self.step + 1
                && r.backend == self.backend,
            self.step == 0 ==> match next {
                SnapshotStep::Done(Err(e)) => reads_bool("pause"@, reply, Err(e)),
                SnapshotStep::Next(r) => reads_bool("pause"@, reply, Ok(r.paused)) && r == (
                SnapshotReader { step: 1, paused: r.paused, ..self }),
                _ => false,
            },
            self.step == 1 ==> match next {
                SnapshotStep::Done(Err(e)) => reads_number("volume"@, reply, Err(e)),
                SnapshotStep::Next(r) => reads_number("volume"@, reply, Ok(r.volume)) && r == (
                SnapshotReader { step: 2, volume: r.volume, ..self }),
                _ => false,
            },
            self.step == 2 ==> match next {
                SnapshotStep::Done(Err(e)) => reads_bool("mute"@, reply, Err(e)),
                SnapshotStep::Next(r) => reads_bool("mute"@, reply, Ok(r.muted)) && r == (
                SnapshotReader { step: 3, muted: r.muted, ..self }),
                _ => false,
            },
            self.step == 3 ==> match next {
                SnapshotStep::Done(Err(e)) => reads_bool("fullscreen"@, reply, Err(e)),
                SnapshotStep::Next(r) => reads_bool("fullscreen"@, reply, Ok(r.fullscreen)) && r
                    == (SnapshotReader { step: 4, fullscreen: r.fullscreen, ..self }),
                _ => false,
            },
            self.step == 4 ==> match next {
                SnapshotStep::Done(Err(e)) => reads_number("speed"@, reply, Err(e)),
                SnapshotStep::Next(r) => reads_number("speed"@, reply, Ok(r.speed)) && r == (
                SnapshotReader { step: 5, speed: r.speed, ..self }),
                _ => false,
            },
            self.step == 5 ==> match next {
                SnapshotStep::Done(Err(e)) => reads_optional_number(
                    self.backend,
                    "time-pos"@,
                    reply,
                    Err(e),
                ),
                SnapshotStep::Next(r) => r == (SnapshotReader {
                    step: 6,
                    time_position: r.time_position,
                    ..self
                }) && (reads_optional_number(
                    self.backend,
                    "time-pos"@,
                    reply,
                    Ok(Some(r.time_position)),
                ) || (reads_optional_number(self.backend, "time-pos"@, reply, Ok(None))
                    && r.time_position == ZERO_BITS)),
                _ => false,
            },
            self.step == 6 ==> match next {
                SnapshotStep::Done(Err(e)) => reads_optional_number(
                    self.backend,
                    "duration"@,
                    reply,
                    Err(e),
                ),
                SnapshotStep::Next(r) => r == (SnapshotReader {
                    step: 7,
                    duration: r.duration,
                    ..self
                }) && reads_optional_number(self.backend, "duration"@, reply, Ok(r.duration)),
                _ => false,
            },
            self.step == 7 ==> match next {
                SnapshotStep::Done(Err(e)) => reads_optional_text(self.backend, reply, Err(e)),
                SnapshotStep::Next(r) => r == (SnapshotReader {
                    step: 8,
                    filename: r.filename,
                    ..self
                }) && (reads_optional_text(self.backend, reply, Ok(Some(r.filename))) || (
                reads_optional_text(self.backend, reply, Ok(None)) && r.filename@.len() == 0)),
                _ => false,
            },
            self.step == 8 ==> match next {
                SnapshotStep::Done(Err(e)) => reads_optional_text(self.backend, reply, Err(e)),
                SnapshotStep::Next(r) => r == (SnapshotReader {
                    step: 9,
                    media_title: r.media_title,
                    ..self
                }) && (reads_optional_text(self.backend, reply, Ok(Some(r.media_title))) || (
                reads_optional_text(self.backend, reply, Ok(None)) && r.media_title@.len() == 0)),
                _ => false,
            },
            self.step == 9 ==> match next {
                SnapshotStep::Done(Err(e)) => reads_bool("core-idle"@, reply, Err(e)),
                SnapshotStep::Done(Ok(s)) => exists|idle: bool|
                    #[trigger] reads_bool("core-idle"@, reply, Ok(idle)) && s == (PlaybackSnapshot {
                        phase: phase_of(idle, self.paused),
                        paused: self.paused,
                        volume: self.volume,
                        muted: self.muted,
                        fullscreen: self.fullscreen,
                        speed: self.speed,
                        time_position: self.time_position,
                        duration: self.duration,
                        filename: self.filename,
                        media_title: self.media_title,
                    }),
                _ => false,
            },
    {
        let mut reader = self;
        match reader.step {
            0 => match read_bool("pause", reply) {
                Err(e) => SnapshotStep::Done(Err(e)),
                Ok(b) => {
                    reader.paused = b;
                    reader.step = 1;
                    SnapshotStep::Next(reader)
                },
            },
            1 => match read_number("volume", reply) {
                Err(e) => SnapshotStep::Done(Err(e)),
                Ok(v) => {
                    reader.volume = v;
                    reader.step = 2;
                    SnapshotStep::Next(reader)
                },
            },
            2 => match read_bool("mute", reply) {
                Err(e) => SnapshotStep::Done(Err(e)),
                Ok(b) => {
                    reader.muted = b;
                    reader.step = 3;
                    SnapshotStep::Next(reader)
                },
            },
            3 => match read_bool("fullscreen", reply) {
                Err(e) => SnapshotStep::Done(Err(e)),
                Ok(b) => {
                    reader.fullscreen = b;
                    reader.step = 4;
                    SnapshotStep::Next(reader)
                },
            },
            4 => match read_number("speed", reply) {
                Err(e) => SnapshotStep::Done(Err(e)),
                Ok(v) => {
                    reader.speed = v;
                    reader.step = 5;
                    SnapshotStep::Next(reader)
                },
            },
            5 => match read_optional_number(reader.backend, "time-pos", reply) {
                Err(e) => SnapshotStep::Done(Err(e)),
                Ok(v) => {
                    reader.time_position = match v {
                        Some(bits) => bits,
                        None => ZERO_BITS,
                    };
                    reader.step = 6;
                    SnapshotStep::Next(reader)
                },
            },
            6 => match read_optional_number(reader.backend, "duration", reply) {
                Err(e) => SnapshotStep::Done(Err(e)),
                Ok(v) => {
                    reader.duration = v;
                    reader.step = 7;
                    SnapshotStep::Next(reader)
                },
            },
            7 => match read_optional_text(reader.backend, reply) {
                Err(e) => SnapshotStep::Done(Err(e)),
                Ok(v) => {
                    reader.filename = match v {
                        Some(t) => t,
                        None => String::new(),
                    };
                    reader.step = 8;
                    SnapshotStep::Next(reader)
                },
            },
            8 => match read_optional_text(reader.backend, reply) {
                Err(e) => SnapshotStep::Done(Err(e)),
                Ok(v) => {
                    reader.media_title = match v {
                        Some(t) => t,
                        None => String::new(),
                    };
                    reader.step = 9;
                    SnapshotStep::Next(reader)
                },
            },
            _ => match read_bool("core-idle", reply) {
                Err(e) => SnapshotStep::Done(Err(e)),
                Ok(idle) => {
                    let SnapshotReader {
                        backend: _,
                        step: _,
                        paused,
                        volume,
                        muted,
                        fullscreen,
                        speed,
                        time_position,
                        duration,
                        filename,
                        media_title,
                    } = reader;
                    SnapshotStep::Done(
                        Ok(
                            PlaybackSnapshot {
                                phase: playback_phase(idle, paused),
                                paused,
                                volume,
                                muted,
                                fullscreen,
                                speed,
                                time_position,
                                duration,
                                filename,
                                media_title,
                            },
                        ),
                    )
                },
            },
        }
    }
}

} // verus!
