//! The decisions of the in-process libmpv adapter: the options libmpv is
//! created with, the command words it receives, the kind each property is
//! read as, and how its failures are named. The calls into libmpv happen
//! outside the library.
use vstd::prelude::*;

use super::error::BackendError;
use super::model::{PlaybackCommand, PropertyUpdate, PropertyValue};
use super::snapshot::{step_kind, step_name, ValueKind};
use crate::text::same_text;

verus! {

/// The value of an option libmpv is created with.
#[derive(Debug, Clone, PartialEq, Eq)]
pub enum OptionValue {
    Text(String),
    Integer(i64),
}

/// One option libmpv is created with.
#[derive(Debug, Clone, PartialEq, Eq)]
pub struct EngineOption {
    pub name: String,
    pub value: OptionValue,
}

/// Whether an option is the given name with the given text value.
pub open spec fn is_text_option(option: EngineOption, name: Seq<char>, value: Seq<char>) -> bool {
    &&& option.name@ == name
    &&& option.value matches OptionValue::Text(v) && v@ == value
}

fn text_option(name: &str, value: &str) -> (option: EngineOption)
    ensures
        is_text_option(option, name@, value@),
{
    EngineOption { name: String::from_str(name), value: OptionValue::Text(String::from_str(value)) }
}

/// The options libmpv is created with, in order: render through the
/// libmpv video output, safe hardware decoding, no user configuration, keep
/// the last frame open, stay idle without media; and draw into the native
/// window `window_id` when there is one.
pub fn engine_options(window_id: Option<i64>) -> (options: Vec<EngineOption>)
    ensures
        options@.len() == if window_id is Some {
            6int
        } else {
            5int
        },
        is_text_option(options@[0], "vo"@, "libmpv"@),
        is_text_option(options@[1], "hwdec"@, "auto-safe"@),
        is_text_option(options@[2], "config"@, "no"@),
        is_text_option(options@[3], "keep-open"@, "yes"@),
        is_text_option(options@[4], "idle"@, "yes"@),
        window_id matches Some(id) ==> (options@[5].name@ == "wid"@ && options@[5].value
            == OptionValue::Integer(id)),
{
    let mut options: Vec<EngineOption> = Vec::new();
    options.push(text_option("vo", "libmpv"));
    options.push(text_option("hwdec", "auto-safe"));
    options.push(text_option("config", "no"));
    options.push(text_option("keep-open", "yes"));
    options.push(text_option("idle", "yes"));
    if let Some(id) = window_id {
        options.push(EngineOption { name: String::from_str("wid"), value: OptionValue::Integer(id) });
    }
    options
}

/// The kind libmpv reads a property as: switches as booleans, levels and
/// times as numbers, everything else as text.
pub open spec fn kind_of_property(name: Seq<char>) -> ValueKind {
    if name == "pause"@ || name == "fullscreen"@ || name == "mute"@ || name == "core-idle"@ {
        ValueKind::Boolean
    } else if name == "volume"@ || name == "speed"@ || name == "time-pos"@ || name == "duration"@ {
        ValueKind::Number
    } else {
        ValueKind::Text
    }
}

/// libmpv reads each property a snapshot needs as the kind the snapshot
/// expects of it.
pub proof fn lemma_snapshot_kinds_agree(step: int)
    requires
        0 <= step < 10,
    ensures
        kind_of_property(step_name(step)) == step_kind(step),
{
    reveal_strlit("pause");
    reveal_strlit("volume");
    reveal_strlit("mute");
    reveal_strlit("fullscreen");
    reveal_strlit("speed");
    reveal_strlit("time-pos");
    reveal_strlit("duration");
    reveal_strlit("filename");
    reveal_strlit("media-title");
    reveal_strlit("core-idle");
    assert("pause"@.len() == 5 && "pause"@[0] == 'p');
    assert("speed"@.len() == 5 && "speed"@[0] == 's');
    assert("volume"@.len() == 6 && "mute"@.len() == 4 && "fullscreen"@.len() == 10);
    assert("time-pos"@.len() == 8 && "time-pos"@[0] == 't');
    assert("duration"@.len() == 8 && "duration"@[0] == 'd');
    assert("filename"@.len() == 8 && "filename"@[0] == 'f');
    assert("media-title"@.len() == 11 && "core-idle"@.len() == 9);
}

/// The kind a property is read as.
pub fn property_kind(name: &str) -> (kind: ValueKind)
    ensures
        kind == kind_of_property(name@),
{
    if same_text(name, "pause") || same_text(name, "fullscreen") || same_text(name, "mute")
        || same_text(name, "core-idle") {
        ValueKind::Boolean
    } else if same_text(name, "volume") || same_text(name, "speed") || same_text(name, "time-pos")
        || same_text(name, "duration") {
        ValueKind::Number
    } else {
        ValueKind::Text
    }
}

/// The words of a playback command: its name, then its arguments.
pub fn command_words(command: PlaybackCommand) -> (words: Vec<String>)
    ensures
        words@ == seq![command.name].add(command.arguments@),
{
    let PlaybackCommand { name, arguments } = command;
    let mut words: Vec<String> = Vec::new();
    words.push(name);
    let mut arguments = arguments;
    let ghost first = words@;
    words.append(&mut arguments);
    words
}

/// The words that load or replace the media source.
pub fn load_words(source: &str) -> (words: Vec<String>)
    ensures
        words@.len() == 3,
        words@[0]@ == "loadfile"@,
        words@[1]@ == source@,
        words@[2]@ == "replace"@,
{
    let mut words: Vec<String> = Vec::new();
    words.push(String::from_str("loadfile"));
    words.push(String::from_str(source));
    words.push(String::from_str("replace"));
    words
}

/// The words that stop the engine.
pub fn quit_words() -> (words: Vec<String>)
    ensures
        words@.len() == 1,
        words@[0]@ == "quit"@,
{
    let mut words: Vec<String> = Vec::new();
    words.push(String::from_str("quit"));
    words
}

/// What setting a property does in libmpv: set it to a value, or delete
/// it for no value.
#[derive(Debug, Clone, PartialEq)]
pub enum PropertyAction {
    Assign(PropertyValue),
    Delete,
}

/// The action an update asks of libmpv.
pub fn property_action(update: PropertyUpdate) -> (action: (String, PropertyAction))
    ensures
        action.0 == update.name,
        update.value == PropertyValue::Unit ==> action.1 == PropertyAction::Delete,
        update.value != PropertyValue::Unit ==> action.1 == PropertyAction::Assign(update.value),
{
    let PropertyUpdate { name, value } = update;
    match value {
        PropertyValue::Unit => (name, PropertyAction::Delete),
        other => (name, PropertyAction::Assign(other)),
    }
}

/// Whether `error` reports property `name` invalid with `message`.
pub open spec fn is_property_error(error: BackendError, name: Seq<char>, message: Seq<char>) -> bool {
    error matches BackendError::InvalidProperty { property, message: m } && property@ == name
        && m@ == message
}

/// The error of a property libmpv refused, with libmpv's own text.
pub fn property_error(name: &str, message: String) -> (error: BackendError)
    ensures
        is_property_error(error, name@, message@),
{
    BackendError::InvalidProperty { property: String::from_str(name), message }
}

/// The error of an operation libmpv refused, with libmpv's own text.
pub fn engine_error(message: String) -> (error: BackendError)
    ensures
        error == (BackendError::Engine { message }),
{
    BackendError::Engine { message }
}

} // verus!
