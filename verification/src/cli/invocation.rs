//! Reading an `mp` argument vector: the arguments go to mpv untouched, and
//! the options the UI mirrors are projected out of them.
use vstd::prelude::*;

use super::options::{
    apply_option, apply_ui_option, arity_of, bool_of, classify, parse_bool, OptionArity, UiOption,
};
use crate::text::{decoded_text, first_index_at, first_index_of, lemma_first_index_unique, same_text, starts_with_char, text_of};
use crate::number::{finite_bits, is_finite_bits};

verus! {

/// UI-owned state extracted from mpv-compatible arguments. Numbers are
/// binary64 bit patterns.
#[derive(Debug, Clone, Copy, PartialEq, Eq, Structural)]
pub struct UiOverrides {
    pub volume: Option<u64>,
    pub paused: Option<bool>,
    pub fullscreen: Option<bool>,
    pub speed: Option<u64>,
}

/// The overrides of an invocation that names no UI option.
pub open spec fn no_overrides() -> UiOverrides {
    UiOverrides { volume: None, paused: None, fullscreen: None, speed: None }
}

impl Default for UiOverrides {
    fn default() -> (overrides: Self)
        ensures
            overrides == no_overrides(),
    {
        UiOverrides { volume: None, paused: None, fullscreen: None, speed: None }
    }
}

/// The numbers that an argument may be read as: the whole argument, and
/// the part after its first `=`. Each is a binary64 bit pattern, `None`
/// where that text is not a number.
#[derive(Debug, Clone, Copy, PartialEq, Eq, Structural)]
pub struct NumberReading {
    pub whole: Option<u64>,
    pub after_equals: Option<u64>,
}

/// The texts of one argument that may have to be read as numbers.
#[derive(Debug, Clone)]
pub struct NumberQuery {
    pub whole: Option<String>,
    pub after_equals: Option<String>,
}

/// The arguments as given, plus a side-effect-free UI projection.
#[derive(Debug, Clone)]
pub struct ParsedInvocation {
    engine_args: Vec<Vec<u8>>,
    ui_overrides: UiOverrides,
    lists_options: bool,
}

/// The texts of the arguments; `None` for an argument that is not UTF-8.
pub open spec fn decoded_args(args: Seq<Vec<u8>>) -> Seq<Option<Seq<char>>> {
    args.map_values(|a: Vec<u8>| decoded_text(a@))
}

/// The reading of argument `i`; nothing is known of arguments past the
/// readings given.
pub open spec fn reading_at(readings: Seq<NumberReading>, i: int) -> NumberReading {
    if 0 <= i < readings.len() {
        readings[i]
    } else {
        NumberReading { whole: None, after_equals: None }
    }
}

/// The text on either side of the first `c` in `s`.
pub open spec fn split_first(s: Seq<char>, c: char) -> Option<(Seq<char>, Seq<char>)> {
    if exists|i: int| first_index_at(s, c, i) {
        let i = choose|i: int| first_index_at(s, c, i);
        Some((s.take(i), s.skip(i + 1)))
    } else {
        None
    }
}

/// An option's text without its leading `--` or `-`.
pub open spec fn option_body(text: Seq<char>) -> Option<Seq<char>> {
    if text.len() >= 2 && text[0] == '-' && text[1] == '-' {
        Some(text.skip(2))
    } else if text.len() >= 1 && text[0] == '-' {
        Some(text.skip(1))
    } else {
        None
    }
}

/// An option token read from one argument: its name, the value written
/// after its first `=`, and whether it was written `no-<name>`.
pub open spec fn token_of(text: Seq<char>) -> Option<(Seq<char>, Option<Seq<char>>, bool)> {
    match option_body(text) {
        None => None,
        Some(body) => if body.len() == 0 {
            None
        } else {
            match split_first(body, '=') {
                Some((name, value)) => Some((name, Some(value), false)),
                None => if body.len() >= 3 && body[0] == 'n' && body[1] == 'o' && body[2] == '-' {
                    Some((body.skip(3), None, true))
                } else {
                    Some((body, None, false))
                },
            }
        },
    }
}

/// Whether the argument after an option can be that option's value: a
/// value option takes anything that does not look like an option, or a
/// negative finite number; a flag takes a boolean.
pub open spec fn value_candidate(arity: OptionArity, value: Seq<char>, whole: Option<u64>) -> bool {
    match arity {
        OptionArity::Value => !(value.len() > 0 && value[0] == '-') || (whole matches Some(bits)
            && is_finite_bits(bits)),
        OptionArity::Flag => bool_of(value) is Some,
    }
}

/// The value an option at `i` takes from the argument after it, if any.
pub open spec fn separate_value(
    args: Seq<Option<Seq<char>>>,
    readings: Seq<NumberReading>,
    i: int,
    arity: OptionArity,
) -> Option<Seq<char>> {
    if i + 1 < args.len() {
        match args[i + 1] {
            Some(v) => if value_candidate(arity, v, reading_at(readings, i + 1).whole) {
                Some(v)
            } else {
                None
            },
            None => None,
        }
    } else {
        None
    }
}

/// The UI overrides and the option-listing request that scanning the
/// arguments from position `i` on adds to `overrides` and `lists`.
///
/// Arguments that are not UTF-8, that are no option, or that name an option
/// the UI does not mirror are passed over; `--` ends the scan;
/// `--list-options` is recorded; a mirrored option takes its value after
/// `=` or, when the next argument can be its value, from that argument,
/// which is then consumed too; a value option with no value is passed over.
pub open spec fn scan(
    args: Seq<Option<Seq<char>>>,
    readings: Seq<NumberReading>,
    i: int,
    overrides: UiOverrides,
    lists: bool,
) -> (UiOverrides, bool)
    decreases args.len() - i,
{
    if i < 0 || i >= args.len() {
        (overrides, lists)
    } else {
        match args[i] {
            None => scan(args, readings, i + 1, overrides, lists),
            Some(text) => if text == "--"@ {
                (overrides, lists)
            } else if text == "--list-options"@ {
                scan(args, readings, i + 1, overrides, true)
            } else {
                match token_of(text) {
                    None => scan(args, readings, i + 1, overrides, lists),
                    Some((name, own_value, negated)) => match arity_of(name) {
                        None => scan(args, readings, i + 1, overrides, lists),
                        Some(arity) => {
                            let separate = separate_value(args, readings, i, arity);
                            let value = if own_value is Some {
                                own_value
                            } else {
                                separate
                            };
                            let number = if own_value is Some {
                                reading_at(readings, i).after_equals
                            } else if separate is Some {
                                reading_at(readings, i + 1).whole
                            } else {
                                None
                            };
                            if arity == OptionArity::Value && value is None {
                                scan(args, readings, i + 1, overrides, lists)
                            } else {
                                let next = if own_value is None && separate is Some {
                                    i + 2
                                } else {
                                    i + 1
                                };
                                scan(
                                    args,
                                    readings,
                                    next,
                                    apply_option(overrides, name, value, number, negated),
                                    lists,
                                )
                            }
                        },
                    },
                }
            },
        }
    }
}

/// The UI projection of a whole argument vector.
pub open spec fn projection(
    args: Seq<Option<Seq<char>>>,
    readings: Seq<NumberReading>,
) -> (UiOverrides, bool) {
    scan(args, readings, 0, no_overrides(), false)
}

/// An option token borrowed from its argument.
pub struct ParsedToken<'a> {
    pub name: &'a str,
    pub value: Option<&'a str>,
    pub negated: bool,
}

impl<'a> ParsedToken<'a> {
    /// The view of a token, in the shape `token_of` gives.
    pub open spec fn model(self) -> (Seq<char>, Option<Seq<char>>, bool) {
        (
            self.name@,
            match self.value {
                Some(v) => Some(v@),
                None => None,
            },
            self.negated,
        )
    }

    /// Read an option token out of an argument.
    pub fn parse(text: &'a str) -> (token: Option<ParsedToken<'a>>)
        ensures
            token matches Some(t) ==> token_of(text@) == Some(t.model()),
            token is None ==> token_of(text@) is None,
    {
        let n = text.unicode_len();
        let body = if n >= 2 && text.get_char(0) == '-' && text.get_char(1) == '-' {
            text.substring_char(2, n)
        } else if n >= 1 && text.get_char(0) == '-' {
            text.substring_char(1, n)
        } else {
            return None;
        };
        assert(option_body(text@) == Some(body@));
        let m = body.unicode_len();
        if m == 0 {
            return None;
        }
        match first_index_of(body, '=') {
            Some(i) => {
                proof {
                    let k = choose|k: int| first_index_at(body@, '=', k);
                    lemma_first_index_unique(body@, '=', i as int, k);
                }
                Some(
                    ParsedToken {
                        name: body.substring_char(0, i),
                        value: Some(body.substring_char(i + 1, m)),
                        negated: false,
                    },
                )
            },
            None => {
                if m >= 3 && body.get_char(0) == 'n' && body.get_char(1) == 'o' && body.get_char(2)
                    == '-' {
                    Some(ParsedToken { name: body.substring_char(3, m), value: None, negated: true })
                } else {
                    Some(ParsedToken { name: body, value: None, negated: false })
                }
            },
        }
    }
}

/// Whether `value` can be the value of an option of the given arity;
/// `whole` is `value` read as a number.
pub fn is_value_candidate(arity: OptionArity, value: &str, whole: Option<u64>) -> (candidate: bool)
    ensures
        candidate == value_candidate(arity, value@, whole),
{
    match arity {
        OptionArity::Value => {
            !starts_with_char(value, '-') || match whole {
                Some(bits) => finite_bits(bits),
                None => false,
            }
        },
        OptionArity::Flag => parse_bool(value).is_some(),
    }
}

fn reading_for(readings: &[NumberReading], i: usize) -> (reading: NumberReading)
    ensures
        reading == reading_at(readings@, i as int),
{
    if i < readings.len() {
        readings[i]
    } else {
        NumberReading { whole: None, after_equals: None }
    }
}

/// The texts of each argument that the projection may read as numbers:
/// the argument itself, and what follows its first `=`.
pub fn number_queries(args: &Vec<Vec<u8>>) -> (queries: Vec<NumberQuery>)
    ensures
        queries@.len() == args@.len(),
        forall|i: int|
            0 <= i < args@.len() ==> {
                let text = decoded_args(args@)[i];
                &&& (match (#[trigger] queries@[i]).whole {
                    Some(w) => text == Some(w@),
                    None => text is None,
                })
                &&& (match queries@[i].after_equals {
                    Some(a) => text matches Some(t) && split_first(t, '=') matches Some(
                        (_, rest),
                    ) && rest == a@,
                    None => !(text matches Some(t) && split_first(t, '=') is Some),
                })
            },
{
    let mut queries: Vec<NumberQuery> = Vec::new();
    let n = args.len();
    let mut i: usize = 0;
    while i < n
        invariant
            n == args@.len(),
            i <= n,
            queries@.len() == i,
            forall|j: int|
                0 <= j < i ==> {
                    let text = decoded_args(args@)[j];
                    &&& (match (#[trigger] queries@[j]).whole {
                        Some(w) => text == Some(w@),
                        None => text is None,
                    })
                    &&& (match queries@[j].after_equals {
                        Some(a) => text matches Some(t) && split_first(t, '=') matches Some(
                            (_, rest),
                        ) && rest == a@,
                        None => !(text matches Some(t) && split_first(t, '=') is Some),
                    })
                },
        decreases n - i,
    {
        let query = match text_of(args[i].as_slice()) {
            None => NumberQuery { whole: None, after_equals: None },
            Some(t) => {
                let m = t.unicode_len();
                let after = match first_index_of(t, '=') {
                    Some(k) => {
                        proof {
                            let c = choose|c: int| first_index_at(t@, '=', c);
                            lemma_first_index_unique(t@, '=', k as int, c);
                        }
                        Some(String::from_str(t.substring_char(k + 1, m)))
                    },
                    None => None,
                };
                NumberQuery { whole: Some(String::from_str(t)), after_equals: after }
            },
        };
        queries.push(query);
        i = i + 1;
    }
    queries
}

/// Parse the UI registry out of an argument vector while keeping the
/// arguments byte for byte. `readings[i]` holds the numbers that argument
/// `i` reads as (see [`number_queries`]).
pub fn parse_invocation(args: Vec<Vec<u8>>, readings: &[NumberReading]) -> (parsed:
    ParsedInvocation)
    ensures
        parsed.args_view() == args@,
        (parsed.overrides_view(), parsed.lists_view()) == projection(decoded_args(args@), readings@),
{
    let mut ui = UiOverrides::default();
    let mut lists = false;
    let mut index: usize = 0;
    let n = args.len();
    let ghost model = decoded_args(args@);
    while index < n
        invariant
            n == args@.len(),
            index <= n,
            model == decoded_args(args@),
            scan(model, readings@, index as int, ui, lists) == projection(model, readings@),
        decreases n - index,
    {
        let text = match text_of(args[index].as_slice()) {
            None => {
                index = index + 1;
                continue ;
            },
            Some(t) => t,
        };
        assert(model[index as int] == Some(text@));
        if same_text(text, "--") {
            index = n;
            continue ;
        }
        if same_text(text, "--list-options") {
            lists = true;
            index = index + 1;
            continue ;
        }
        let token = match ParsedToken::parse(text) {
            None => {
                index = index + 1;
                continue ;
            },
            Some(t) => t,
        };
        let arity = match classify(token.name) {
            None => {
                index = index + 1;
                continue ;
            },
            Some(a) => a,
        };
        let mut separate: Option<&str> = None;
        let mut separate_number: Option<u64> = None;
        if index + 1 < n {
            if let Some(v) = text_of(args[index + 1].as_slice()) {
                let next_reading = reading_for(readings, index + 1);
                if is_value_candidate(arity, v, next_reading.whole) {
                    separate = Some(v);
                    separate_number = next_reading.whole;
                }
            }
        }
        assert(separate matches Some(v) ==> separate_value(model, readings@, index as int, arity)
            == Some(v@));
        assert(separate is None ==> separate_value(model, readings@, index as int, arity) is None);
        let own_number = reading_for(readings, index).after_equals;
        let (value, number) = match token.value {
            Some(v) => (Some(v), own_number),
            None => (separate, separate_number),
        };
        let consumed: usize = if token.value.is_none() && separate.is_some() {
            2
        } else {
            1
        };
        if arity == OptionArity::Value && value.is_none() {
            index = index + 1;
            continue ;
        }
        apply_ui_option(&mut ui, UiOption { name: token.name, value, number, negated: token.negated });
        index = index + consumed;
    }
    ParsedInvocation { engine_args: args, ui_overrides: ui, lists_options: lists }
}

impl ParsedInvocation {
    /// The arguments as they were given.
    pub closed spec fn args_view(self) -> Seq<Vec<u8>> {
        self.engine_args@
    }

    /// The UI projection.
    pub closed spec fn overrides_view(self) -> UiOverrides {
        self.ui_overrides
    }

    /// Whether `--list-options` was seen.
    pub closed spec fn lists_view(self) -> bool {
        self.lists_options
    }

    /// Arguments that must be passed to mpv without reconstruction.
    pub fn engine_args(&self) -> (args: &[Vec<u8>])
        ensures
            args@ == self.args_view(),
    {
        self.engine_args.as_slice()
    }

    /// State mirrored into the application shell.
    pub fn ui_overrides(&self) -> (overrides: &UiOverrides)
        ensures
            *overrides == self.overrides_view(),
    {
        &self.ui_overrides
    }

    /// Whether mpv must handle its own option listing.
    pub fn lists_options(&self) -> (lists: bool)
        ensures
            lists == self.lists_view(),
    {
        self.lists_options
    }
}

} // verus!
