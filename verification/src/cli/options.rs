//! The registry of mpv options that the player mirrors into its own UI.
use vstd::prelude::*;

use super::invocation::UiOverrides;
use crate::text::{ascii_lower, lowered_equals, same_text};
use crate::number::{finite_bits, is_finite_bits, is_positive_finite_bits, positive_finite_bits};

verus! {

/// Whether a UI option is a switch or takes a value.
#[derive(Debug, Clone, Copy, PartialEq, Eq, Structural)]
pub enum OptionArity {
    Flag,
    Value,
}

/// One recognised option occurrence: its name, the value written after `=`
/// or in the next argument, that value read as a binary64 number (its bit
/// pattern), and whether the option carried the `no-` prefix.
#[derive(Debug, Clone, Copy)]
pub struct UiOption<'a> {
    pub name: &'a str,
    pub value: Option<&'a str>,
    pub number: Option<u64>,
    pub negated: bool,
}

/// The view of an optional text.
pub open spec fn text_view(value: Option<&str>) -> Option<Seq<char>> {
    match value {
        Some(v) => Some(v@),
        None => None,
    }
}

/// The arity of the options the UI mirrors; `None` for every other name.
pub open spec fn arity_of(name: Seq<char>) -> Option<OptionArity> {
    if name == "volume"@ || name == "speed"@ {
        Some(OptionArity::Value)
    } else if name == "pause"@ || name == "fullscreen"@ {
        Some(OptionArity::Flag)
    } else {
        None
    }
}

/// Classify an option name.
pub fn classify(name: &str) -> (arity: Option<OptionArity>)
    ensures
        arity == arity_of(name@),
{
    if same_text(name, "volume") || same_text(name, "speed") {
        Some(OptionArity::Value)
    } else if same_text(name, "pause") || same_text(name, "fullscreen") {
        Some(OptionArity::Flag)
    } else {
        None
    }
}

/// mpv's spelling of booleans, compared case-insensitively.
pub open spec fn bool_of(value: Seq<char>) -> Option<bool> {
    let l = ascii_lower(value);
    if l == "1"@ || l == "yes"@ || l == "true"@ || l == "on"@ {
        Some(true)
    } else if l == "0"@ || l == "no"@ || l == "false"@ || l == "off"@ {
        Some(false)
    } else {
        None
    }
}

/// Read a boolean written the way mpv accepts it.
pub fn parse_bool(value: &str) -> (parsed: Option<bool>)
    ensures
        parsed == bool_of(value@),
{
    if lowered_equals(value, "1") || lowered_equals(value, "yes") || lowered_equals(value, "true")
        || lowered_equals(value, "on") {
        Some(true)
    } else if lowered_equals(value, "0") || lowered_equals(value, "no") || lowered_equals(
        value,
        "false",
    ) || lowered_equals(value, "off") {
        Some(false)
    } else {
        None
    }
}

/// The setting a flag option asks for: an explicit value is read as a
/// boolean, a bare flag means on, and a `no-` flag means off.
pub open spec fn flag_setting(value: Option<Seq<char>>, negated: bool) -> Option<bool> {
    match value {
        Some(v) => bool_of(v),
        None => Some(!negated),
    }
}

/// The setting a flag option occurrence asks for.
pub fn flag_value(option: UiOption<'_>) -> (setting: Option<bool>)
    ensures
        setting == flag_setting(text_view(option.value), option.negated),
{
    match option.value {
        Some(value) => parse_bool(value),
        None => Some(!option.negated),
    }
}

/// The overrides after one option occurrence: a volume needs a value that
/// reads as a finite number, a speed one that reads as a finite number above
/// zero, a flag as a
/// boolean; anything else leaves the overrides as they were.
pub open spec fn apply_option(
    overrides: UiOverrides,
    name: Seq<char>,
    value: Option<Seq<char>>,
    number: Option<u64>,
    negated: bool,
) -> UiOverrides {
    if name == "volume"@ {
        match number {
            Some(bits) => if value is Some && is_finite_bits(bits) {
                UiOverrides { volume: Some(bits), ..overrides }
            } else {
                overrides
            },
            None => overrides,
        }
    } else if name == "speed"@ {
        match number {
            Some(bits) => if value is Some && is_positive_finite_bits(bits) {
                UiOverrides { speed: Some(bits), ..overrides }
            } else {
                overrides
            },
            None => overrides,
        }
    } else if name == "pause"@ {
        match flag_setting(value, negated) {
            Some(b) => UiOverrides { paused: Some(b), ..overrides },
            None => overrides,
        }
    } else if name == "fullscreen"@ {
        match flag_setting(value, negated) {
            Some(b) => UiOverrides { fullscreen: Some(b), ..overrides },
            None => overrides,
        }
    } else {
        overrides
    }
}

/// Record one option occurrence in the overrides.
pub fn apply_ui_option(overrides: &mut UiOverrides, option: UiOption<'_>)
    ensures
        *final(overrides) == apply_option(
            *old(overrides),
            option.name@,
            text_view(option.value),
            option.number,
            option.negated,
        ),
{
    if same_text(option.name, "volume") {
        let parsed = match option.value {
            Some(_) => option.number,
            None => None,
        };
        overrides.set_volume(parsed);
    } else if same_text(option.name, "speed") {
        let parsed = match option.value {
            Some(_) => option.number,
            None => None,
        };
        overrides.set_speed(parsed);
    } else if same_text(option.name, "pause") {
        set_flag(&mut overrides.paused, option);
    } else if same_text(option.name, "fullscreen") {
        set_flag(&mut overrides.fullscreen, option);
    }
}

impl UiOverrides {
    /// Record a parsed volume: kept when it is finite.
    pub fn set_volume(&mut self, parsed: Option<u64>)
        ensures
            *final(self) == (match parsed {
                Some(bits) => if is_finite_bits(bits) {
                    UiOverrides { volume: Some(bits), ..*old(self) }
                } else {
                    *old(self)
                },
                None => *old(self),
            }),
    {
        if let Some(bits) = parsed {
            if finite_bits(bits) {
                self.volume = Some(bits);
            }
        }
    }

    /// Record a parsed speed: kept when it is finite and above zero.
    pub fn set_speed(&mut self, parsed: Option<u64>)
        ensures
            *final(self) == (match parsed {
                Some(bits) => if is_positive_finite_bits(bits) {
                    UiOverrides { speed: Some(bits), ..*old(self) }
                } else {
                    *old(self)
                },
                None => *old(self),
            }),
    {
        if let Some(bits) = parsed {
            if positive_finite_bits(bits) {
                self.speed = Some(bits);
            }
        }
    }
}

/// Record a flag option in its field when its value reads as a boolean.
pub fn set_flag(target: &mut Option<bool>, option: UiOption<'_>)
    ensures
        *final(target) == (match flag_setting(text_view(option.value), option.negated) {
            Some(b) => Some(b),
            None => *old(target),
        }),
{
    if let Some(value) = flag_value(option) {
        *target = Some(value);
    }
}

} // verus!
