//! What holds of the UI projection over every argument vector.
use vstd::prelude::*;

use super::invocation::{
    no_overrides, option_body, projection, reading_at, scan, separate_value, split_first, token_of,
    value_candidate, NumberReading, UiOverrides,
};
use crate::text::first_index_at;
use super::options::{apply_option, arity_of, bool_of, OptionArity};
use crate::text::ascii_lower;
use crate::number::is_finite_bits;

verus! {

/// `--` is no boolean, so no flag takes it as its value.
proof fn lemma_double_dash_is_no_bool()
    ensures
        bool_of("--"@) is None,
{
    reveal_strlit("--");
    reveal_strlit("1");
    reveal_strlit("yes");
    reveal_strlit("true");
    reveal_strlit("on");
    reveal_strlit("0");
    reveal_strlit("no");
    reveal_strlit("false");
    reveal_strlit("off");
    assert(ascii_lower("--"@) =~= "--"@);
    assert(ascii_lower("--"@)[0] != "on"@[0]);
    assert(ascii_lower("--"@)[0] != "no"@[0]);
}

/// No option takes `--` as its value, unless `--` is read as a finite
/// number.
proof fn lemma_double_dash_is_no_value(arity: OptionArity, whole: Option<u64>)
    requires
        !(whole matches Some(b) && is_finite_bits(b)),
    ensures
        !value_candidate(arity, "--"@, whole),
{
    lemma_double_dash_is_no_bool();
    reveal_strlit("--");
}

proof fn lemma_scan_stops_at_double_dash(
    args: Seq<Option<Seq<char>>>,
    readings: Seq<NumberReading>,
    k: int,
    i: int,
    overrides: UiOverrides,
    lists: bool,
)
    requires
        0 <= i <= k < args.len(),
        args[k] == Some("--"@),
        !(reading_at(readings, k).whole matches Some(b) && is_finite_bits(b)),
    ensures
        scan(args, readings, i, overrides, lists) == scan(
            args.take(k),
            readings,
            i,
            overrides,
            lists,
        ),
    decreases k - i,
{
    let short = args.take(k);
    if i == k {
    } else {
        assert(short[i] == args[i]);
        if i + 1 == k {
            lemma_double_dash_is_no_value(OptionArity::Value, reading_at(readings, k).whole);
            lemma_double_dash_is_no_value(OptionArity::Flag, reading_at(readings, k).whole);
            assert(separate_value(args, readings, i, OptionArity::Value) is None);
            assert(separate_value(args, readings, i, OptionArity::Flag) is None);
        } else {
            assert(short[i + 1] == args[i + 1]);
            assert(separate_value(args, readings, i, OptionArity::Value) == separate_value(
                short,
                readings,
                i,
                OptionArity::Value,
            ));
            assert(separate_value(args, readings, i, OptionArity::Flag) == separate_value(
                short,
                readings,
                i,
                OptionArity::Flag,
            ));
        }
        match args[i] {
            None => {
                lemma_scan_stops_at_double_dash(args, readings, k, i + 1, overrides, lists);
            },
            Some(text) => {
                if text == "--"@ {
                } else if text == "--list-options"@ {
                    lemma_scan_stops_at_double_dash(args, readings, k, i + 1, overrides, true);
                } else {
                    match token_of(text) {
                        None => {
                            lemma_scan_stops_at_double_dash(args, readings, k, i + 1, overrides, lists);
                        },
                        Some((name, own_value, negated)) => match arity_of(name) {
                            None => {
                                lemma_scan_stops_at_double_dash(
                                    args,
                                    readings,
                                    k,
                                    i + 1,
                                    overrides,
                                    lists,
                                );
                            },
                            Some(arity) => {
                                let separate = separate_value(args, readings, i, arity);
                                let value = if own_value is Some {
                                    own_value
                                } else {
                                    separate
                                };
                                let number = if own_value is Some {
                                    reading_at(readings, i).after_equals
                                } else if separate is Some {
                                    reading_at(readings, i + 1).whole
                                } else {
                                    None
                                };
                                if arity == OptionArity::Value && value is None {
                                    lemma_scan_stops_at_double_dash(
                                        args,
                                        readings,
                                        k,
                                        i + 1,
                                        overrides,
                                        lists,
                                    );
                                } else {
                                    let next = if own_value is None && separate is Some {
                                        i + 2
                                    } else {
                                        i + 1
                                    };
                                    lemma_scan_stops_at_double_dash(
                                        args,
                                        readings,
                                        k,
                                        next,
                                        apply_option(overrides, name, value, number, negated),
                                        lists,
                                    );
                                }
                            },
                        },
                    }
                }
            },
        }
    }
}

/// Everything from the first `--` on is left to mpv: the projection of the
/// arguments is the projection of the arguments before it. (The readings
/// only have to be honest about `--`, which reads as no number.)
pub proof fn lemma_double_dash_stops_scanning(
    args: Seq<Option<Seq<char>>>,
    readings: Seq<NumberReading>,
    k: int,
)
    requires
        0 <= k < args.len(),
        args[k] == Some("--"@),
        !(reading_at(readings, k).whole matches Some(b) && is_finite_bits(b)),
    ensures
        projection(args, readings) == projection(args.take(k), readings),
{
    lemma_scan_stops_at_double_dash(args, readings, k, 0, no_overrides(), false);
}

/// The number an option at `i` written with `own_value` is read as: its
/// value after `=` when it has one.
pub open spec fn own_number(
    readings: Seq<NumberReading>,
    i: int,
    own_value: Option<Seq<char>>,
) -> Option<u64> {
    if own_value is Some {
        reading_at(readings, i).after_equals
    } else {
        None
    }
}

/// `--` and `--list-options` are no mirrored option.
proof fn lemma_special_arguments_are_no_ui_option(t: Seq<char>)
    requires
        token_of(t) matches Some((name, _, _)) && arity_of(name) is Some,
    ensures
        t != "--"@,
        t != "--list-options"@,
{
    reveal_strlit("--");
    reveal_strlit("--list-options");
    reveal_strlit("volume");
    reveal_strlit("speed");
    reveal_strlit("pause");
    reveal_strlit("fullscreen");
    if t == "--list-options"@ {
        let body = t.skip(2);
        assert(body =~= "list-options"@);
        assert(!(exists|i: int| first_index_at(body, '=', i)));
        assert(body.len() >= 3 && !(body[0] == 'n' && body[1] == 'o' && body[2] == '-'));
        assert(token_of(t) == Some((body, None::<Seq<char>>, false)));
        assert(body.len() != "volume"@.len() || body[0] != "volume"@[0]);
        assert(body.len() != "speed"@.len());
        assert(body.len() != "pause"@.len());
        assert(body.len() != "fullscreen"@.len());
    }
}

proof fn lemma_scan_reaches_last(
    args: Seq<Option<Seq<char>>>,
    readings: Seq<NumberReading>,
    i: int,
    overrides: UiOverrides,
    lists: bool,
    t: Seq<char>,
    name: Seq<char>,
    own_value: Option<Seq<char>>,
    negated: bool,
)
    requires
        0 <= i < args.len(),
        forall|j: int| 0 <= j < args.len() - 1 ==> args[j] != Some("--"@),
        args[args.len() - 1] == Some(t),
        token_of(t) == Some((name, own_value, negated)),
        arity_of(name) matches Some(arity) && (own_value is Some || arity == OptionArity::Flag),
        !value_candidate(OptionArity::Value, t, reading_at(readings, args.len() - 1).whole),
        !value_candidate(OptionArity::Flag, t, reading_at(readings, args.len() - 1).whole),
    ensures
        exists|before: UiOverrides|
            scan(args, readings, i, overrides, lists).0 == #[trigger] apply_option(
                    before,
                    name,
                    own_value,
                    own_number(readings, args.len() - 1, own_value),
                    negated,
                ),
    decreases args.len() - i,
{
    let last = args.len() - 1;
    let number = if own_value is Some {
        reading_at(readings, last).after_equals
    } else {
        None
    };
    lemma_special_arguments_are_no_ui_option(t);
    if i == last {
        let r = scan(args, readings, i, overrides, lists);
        assert(separate_value(args, readings, i, arity_of(name).unwrap()) is None);
        let applied = apply_option(overrides, name, own_value, number, negated);
        assert(scan(args, readings, last + 1, applied, lists) == (applied, lists));
        assert(r == (applied, lists));
    } else {
        if i + 1 == last {
            assert(separate_value(args, readings, i, OptionArity::Value) is None);
            assert(separate_value(args, readings, i, OptionArity::Flag) is None);
        }
        match args[i] {
            None => {
                lemma_scan_reaches_last(args, readings, i + 1, overrides, lists, t, name, own_value, negated);
            },
            Some(text) => {
                if text == "--"@ {
                } else if text == "--list-options"@ {
                    lemma_scan_reaches_last(args, readings, i + 1, overrides, true, t, name, own_value, negated);
                } else {
                    match token_of(text) {
                        None => {
                            lemma_scan_reaches_last(args, readings, i + 1, overrides, lists, t, name, own_value, negated);
                        },
                        Some((n2, v2, g2)) => match arity_of(n2) {
                            None => {
                                lemma_scan_reaches_last(args, readings, i + 1, overrides, lists, t, name, own_value, negated);
                            },
                            Some(arity) => {
                                let separate = separate_value(args, readings, i, arity);
                                let value = if v2 is Some {
                                    v2
                                } else {
                                    separate
                                };
                                let num2 = if v2 is Some {
                                    reading_at(readings, i).after_equals
                                } else if separate is Some {
                                    reading_at(readings, i + 1).whole
                                } else {
                                    None
                                };
                                if arity == OptionArity::Value && value is None {
                                    lemma_scan_reaches_last(args, readings, i + 1, overrides, lists, t, name, own_value, negated);
                                } else {
                                    let next = if v2 is None && separate is Some {
                                        i + 2
                                    } else {
                                        i + 1
                                    };
                                    lemma_scan_reaches_last(
                                        args,
                                        readings,
                                        next,
                                        apply_option(overrides, n2, value, num2, g2),
                                        lists,
                                        t,
                                        name,
                                        own_value,
                                        negated,
                                    );
                                }
                            },
                        },
                    }
                }
            },
        }
    }
}

/// The last mirrored option wins: when the last argument is a mirrored
/// option written with its own value, or a flag, and no `--` comes before
/// it, the projection is that option applied to some earlier state. (The
/// last argument must not itself read as the value of the one before it,
/// which holds of every argument that starts with `-` and reads as no
/// finite number.)
pub proof fn lemma_last_ui_option_wins(
    args: Seq<Option<Seq<char>>>,
    readings: Seq<NumberReading>,
    t: Seq<char>,
    name: Seq<char>,
    own_value: Option<Seq<char>>,
    negated: bool,
)
    requires
        args.len() > 0,
        forall|j: int| 0 <= j < args.len() - 1 ==> args[j] != Some("--"@),
        args[args.len() - 1] == Some(t),
        token_of(t) == Some((name, own_value, negated)),
        arity_of(name) matches Some(arity) && (own_value is Some || arity == OptionArity::Flag),
        !value_candidate(OptionArity::Value, t, reading_at(readings, args.len() - 1).whole),
        !value_candidate(OptionArity::Flag, t, reading_at(readings, args.len() - 1).whole),
    ensures
        exists|before: UiOverrides|
            projection(args, readings).0 == #[trigger] apply_option(
                before,
                name,
                own_value,
                own_number(readings, args.len() - 1, own_value),
                negated,
            ),
        forall|b: u64|
            name == "volume"@ && own_value is Some && reading_at(readings, args.len() - 1).after_equals
                == Some(b) && is_finite_bits(b) ==> projection(args, readings).0.volume == Some(b),
        name == "fullscreen"@ && own_value is None ==> projection(args, readings).0.fullscreen
            == Some(!negated),
        name == "pause"@ && own_value is None ==> projection(args, readings).0.paused == Some(
            !negated,
        ),
{
    lemma_scan_reaches_last(args, readings, 0, no_overrides(), false, t, name, own_value, negated);
    let number = own_number(readings, args.len() - 1, own_value);
    let before = choose|before: UiOverrides|
        projection(args, readings).0 == #[trigger] apply_option(before, name, own_value, number, negated);
    assert(projection(args, readings).0 == apply_option(before, name, own_value, number, negated));
    reveal_strlit("volume");
    reveal_strlit("speed");
    reveal_strlit("pause");
    reveal_strlit("fullscreen");
    if name == "fullscreen"@ {
        assert(name.len() == 10);
        assert(name != "volume"@);
        assert(name != "speed"@);
        assert(name != "pause"@);
    }
}

/// Whether an argument names none of the options the UI mirrors.
pub open spec fn names_no_ui_option(arg: Option<Seq<char>>) -> bool {
    match arg {
        None => true,
        Some(t) => match token_of(t) {
            None => true,
            Some((name, _, _)) => arity_of(name) is None,
        },
    }
}

proof fn lemma_scan_keeps_overrides(
    args: Seq<Option<Seq<char>>>,
    readings: Seq<NumberReading>,
    i: int,
    overrides: UiOverrides,
    lists: bool,
)
    requires
        0 <= i,
        forall|j: int| 0 <= j < args.len() ==> names_no_ui_option(#[trigger] args[j]),
    ensures
        scan(args, readings, i, overrides, lists).0 == overrides,
    decreases args.len() - i,
{
    if i < args.len() {
        assert(names_no_ui_option(args[i]));
        lemma_scan_keeps_overrides(args, readings, i + 1, overrides, lists);
        lemma_scan_keeps_overrides(args, readings, i + 1, overrides, true);
    }
}

/// Arguments that name no mirrored option, unknown options and text that
/// is not UTF-8 among them, leave the UI overrides untouched.
pub proof fn lemma_unmirrored_arguments_leave_ui_alone(
    args: Seq<Option<Seq<char>>>,
    readings: Seq<NumberReading>,
)
    requires
        forall|j: int| 0 <= j < args.len() ==> names_no_ui_option(#[trigger] args[j]),
    ensures
        projection(args, readings).0 == no_overrides(),
{
    lemma_scan_keeps_overrides(args, readings, 0, no_overrides(), false);
}

/// The value an option carries after `=` is exactly the text after the
/// first `=` of its argument: the text whose reading `after_equals` holds.
pub proof fn lemma_own_value_follows_first_equals(t: Seq<char>)
    requires
        token_of(t) matches Some((_, v, _)) && v is Some,
    ensures
        split_first(t, '=') matches Some((_, rest)) && token_of(t) matches Some((_, v, _)) && v
            == Some(rest),
{
    let body = option_body(t).unwrap();
    let k: int = if t.len() >= 2 && t[0] == '-' && t[1] == '-' {
        2
    } else {
        1
    };
    assert(body == t.skip(k));
    let j = choose|j: int| first_index_at(body, '=', j);
    assert(first_index_at(t, '=', j + k)) by {
        assert(t[j + k] == body[j]);
        assert forall|i: int| 0 <= i < j + k implies t[i] != '=' by {
            if i >= k {
                assert(t[i] == body[i - k]);
            }
        }
    }
    let c = choose|c: int| first_index_at(t, '=', c);
    crate::text::lemma_first_index_unique(t, '=', j + k, c);
    assert(t.skip(j + k + 1) =~= body.skip(j + 1));
}

/// `--<name>=<v>` is the option `name` with its own value `v`, when `name`
/// is not empty and holds no `=`.
proof fn lemma_token_with_own_value(name: Seq<char>, v: Seq<char>)
    requires
        name.len() > 0,
        forall|i: int| 0 <= i < name.len() ==> name[i] != '=',
    ensures
        token_of("--"@ + name + "="@ + v) == Some((name, Some(v), false)),
{
    reveal_strlit("--");
    reveal_strlit("=");
    let t = "--"@ + name + "="@ + v;
    let body = name + "="@ + v;
    assert(t.len() >= 2 && t[0] == '-' && t[1] == '-');
    assert(t.skip(2) =~= body);
    assert(option_body(t) == Some(body));
    let k = name.len() as int;
    assert(first_index_at(body, '=', k)) by {
        assert(body[k] == '=');
        assert forall|i: int| 0 <= i < k implies body[i] != '=' by {
            assert(body[i] == name[i]);
        }
    }
    let c = choose|c: int| first_index_at(body, '=', c);
    crate::text::lemma_first_index_unique(body, '=', k, c);
    assert(body.take(k) =~= name);
    assert(body.skip(k + 1) =~= v);
}

/// The projection of the single argument `--<name>=<v>` of a mirrored value
/// option: `name` applied to no overrides with the reading after `=`.
proof fn lemma_single_value_option(name: Seq<char>, v: Seq<char>, reading: NumberReading)
    requires
        name.len() > 0,
        forall|i: int| 0 <= i < name.len() ==> name[i] != '=',
        arity_of(name) == Some(OptionArity::Value),
    ensures
        projection(seq![Some("--"@ + name + "="@ + v)], seq![reading]).0 == apply_option(
            no_overrides(),
            name,
            Some(v),
            reading.after_equals,
            false,
        ),
{
    let t = "--"@ + name + "="@ + v;
    lemma_token_with_own_value(name, v);
    lemma_special_arguments_are_no_ui_option(t);
    let args = seq![Some(t)];
    let readings = seq![reading];
    assert(reading_at(readings, 0) == reading);
    let applied = apply_option(no_overrides(), name, Some(v), reading.after_equals, false);
    assert(scan(args, readings, 1, applied, false) == (applied, false));
}

/// A speed written `--speed=<v>` whose value reads as a finite number above
/// zero sets the speed to exactly that number, and nothing else; a value
/// that reads as zero, a negative number, an infinity or NaN sets nothing.
/// (Positive finite binary64 numbers are the bit patterns strictly between
/// `0` and `0x7ff0_0000_0000_0000`.)
pub proof fn lemma_speed_option_sets_speed(v: Seq<char>, whole: Option<u64>, bits: u64)
    ensures
        0 < bits < 0x7ff0_0000_0000_0000u64 ==> projection(
            seq![Some("--speed="@ + v)],
            seq![NumberReading { whole, after_equals: Some(bits) }],
        ).0 == (UiOverrides { volume: None, paused: None, fullscreen: None, speed: Some(bits) }),
        !(0 < bits < 0x7ff0_0000_0000_0000u64) ==> projection(
            seq![Some("--speed="@ + v)],
            seq![NumberReading { whole, after_equals: Some(bits) }],
        ).0 == no_overrides(),
{
    reveal_strlit("--speed=");
    reveal_strlit("--");
    reveal_strlit("=");
    reveal_strlit("speed");
    reveal_strlit("volume");
    let name = "speed"@;
    assert("--speed="@ + v =~= "--"@ + name + "="@ + v);
    assert(name.len() == 5 && name != "volume"@);
    lemma_single_value_option(name, v, NumberReading { whole, after_equals: Some(bits) });
}

/// A volume written `--volume=<v>` whose value reads as a finite number
/// sets the volume to exactly that number, and nothing else; an infinity or
/// NaN sets nothing. (Finite binary64 numbers are the bit patterns whose
/// exponent field is not all ones.)
pub proof fn lemma_volume_option_sets_volume(v: Seq<char>, whole: Option<u64>, bits: u64)
    ensures
        bits & 0x7ff0_0000_0000_0000u64 != 0x7ff0_0000_0000_0000u64 ==> projection(
            seq![Some("--volume="@ + v)],
            seq![NumberReading { whole, after_equals: Some(bits) }],
        ).0 == (UiOverrides { volume: Some(bits), paused: None, fullscreen: None, speed: None }),
        bits & 0x7ff0_0000_0000_0000u64 == 0x7ff0_0000_0000_0000u64 ==> projection(
            seq![Some("--volume="@ + v)],
            seq![NumberReading { whole, after_equals: Some(bits) }],
        ).0 == no_overrides(),
{
    reveal_strlit("--volume=");
    reveal_strlit("--");
    reveal_strlit("=");
    reveal_strlit("volume");
    let name = "volume"@;
    assert("--volume="@ + v =~= "--"@ + name + "="@ + v);
    lemma_single_value_option(name, v, NumberReading { whole, after_equals: Some(bits) });
}

/// A text that starts with `-` is no boolean.
proof fn lemma_dash_text_is_no_bool(t: Seq<char>)
    requires
        t.len() > 0,
        t[0] == '-',
    ensures
        bool_of(t) is None,
{
    reveal_strlit("1");
    reveal_strlit("yes");
    reveal_strlit("true");
    reveal_strlit("on");
    reveal_strlit("0");
    reveal_strlit("no");
    reveal_strlit("false");
    reveal_strlit("off");
    let l = ascii_lower(t);
    assert(l[0] == '-');
}

/// Whether `--list-options` stands at or after `i`, before any `--` there.
pub open spec fn lists_from(args: Seq<Option<Seq<char>>>, i: int) -> bool {
    exists|k: int|
        i <= k < args.len() && #[trigger] args[k] == Some("--list-options"@) && forall|j: int|
            i <= j < k ==> args[j] != Some("--"@)
}

/// The readings are honest about `--` and `--list-options`: neither reads
/// as a finite number.
pub open spec fn honest_about_markers(
    args: Seq<Option<Seq<char>>>,
    readings: Seq<NumberReading>,
) -> bool {
    forall|k: int|
        0 <= k < args.len() && (args[k] == Some("--"@) || args[k] == Some("--list-options"@))
            ==> !(#[trigger] reading_at(readings, k).whole matches Some(b) && is_finite_bits(b))
}

proof fn lemma_lists_from_skip(args: Seq<Option<Seq<char>>>, i: int, m: int)
    requires
        0 <= i <= m <= args.len(),
        forall|j: int|
            i <= j < m ==> args[j] != Some("--"@) && args[j] != Some("--list-options"@),
    ensures
        lists_from(args, i) == lists_from(args, m),
{
    if lists_from(args, i) {
        let k = choose|k: int|
            i <= k < args.len() && #[trigger] args[k] == Some("--list-options"@) && forall|j: int|
                i <= j < k ==> args[j] != Some("--"@);
        assert(k >= m);
        assert(m <= k < args.len() && args[k] == Some("--list-options"@) && forall|j: int|
            m <= j < k ==> args[j] != Some("--"@));
    }
    if lists_from(args, m) {
        let k = choose|k: int|
            m <= k < args.len() && #[trigger] args[k] == Some("--list-options"@) && forall|j: int|
                m <= j < k ==> args[j] != Some("--"@);
        assert(i <= k < args.len() && args[k] == Some("--list-options"@) && forall|j: int|
            i <= j < k ==> args[j] != Some("--"@));
    }
}

proof fn lemma_scan_lists(
    args: Seq<Option<Seq<char>>>,
    readings: Seq<NumberReading>,
    i: int,
    overrides: UiOverrides,
    lists: bool,
)
    requires
        0 <= i,
        honest_about_markers(args, readings),
    ensures
        scan(args, readings, i, overrides, lists).1 == (lists || lists_from(args, i)),
    decreases args.len() - i,
{
    reveal_strlit("--");
    reveal_strlit("--list-options");
    assert("--"@ != "--list-options"@) by {
        assert("--"@.len() != "--list-options"@.len());
    }
    if i >= args.len() {
        return;
    }
    match args[i] {
        None => {
            lemma_lists_from_skip(args, i, i + 1);
            lemma_scan_lists(args, readings, i + 1, overrides, lists);
        },
        Some(text) => {
            if text == "--"@ {
                if lists_from(args, i) {
                    let k = choose|k: int|
                        i <= k < args.len() && #[trigger] args[k] == Some("--list-options"@)
                            && forall|j: int| i <= j < k ==> args[j] != Some("--"@);
                    assert(k != i);
                    assert(args[i] != Some("--"@));
                }
            } else if text == "--list-options"@ {
                assert(args[i] == Some("--list-options"@));
                assert(lists_from(args, i));
                lemma_scan_lists(args, readings, i + 1, overrides, true);
            } else {
                lemma_lists_from_skip(args, i, i + 1);
                match token_of(text) {
                    None => {
                        lemma_scan_lists(args, readings, i + 1, overrides, lists);
                    },
                    Some((name, own_value, negated)) => match arity_of(name) {
                        None => {
                            lemma_scan_lists(args, readings, i + 1, overrides, lists);
                        },
                        Some(arity) => {
                            let separate = separate_value(args, readings, i, arity);
                            let value = if own_value is Some {
                                own_value
                            } else {
                                separate
                            };
                            let number = if own_value is Some {
                                reading_at(readings, i).after_equals
                            } else if separate is Some {
                                reading_at(readings, i + 1).whole
                            } else {
                                None
                            };
                            if arity == OptionArity::Value && value is None {
                                lemma_scan_lists(args, readings, i + 1, overrides, lists);
                            } else {
                                let applied = apply_option(overrides, name, value, number, negated);
                                if own_value is None && separate is Some {
                                    let v = separate.unwrap();
                                    assert(args[i + 1] == Some(v));
                                    assert(value_candidate(arity, v, reading_at(readings, i + 1).whole));
                                    if v == "--"@ || v == "--list-options"@ {
                                        lemma_dash_text_is_no_bool(v);
                                        assert(!(reading_at(readings, i + 1).whole matches Some(b)
                                            && is_finite_bits(b)));
                                    }
                                    lemma_lists_from_skip(args, i, i + 2);
                                    lemma_scan_lists(args, readings, i + 2, applied, lists);
                                } else {
                                    lemma_scan_lists(args, readings, i + 1, applied, lists);
                                }
                            }
                        },
                    },
                }
            }
        },
    }
}

/// `--list-options` is detected exactly when it is one of the arguments
/// and no `--` comes before it. (The readings only have to be honest about
/// `--` and `--list-options`, which read as no number.)
pub proof fn lemma_list_options_detected(args: Seq<Option<Seq<char>>>, readings: Seq<NumberReading>)
    requires
        honest_about_markers(args, readings),
    ensures
        projection(args, readings).1 <==> exists|k: int|
            0 <= k < args.len() && #[trigger] args[k] == Some("--list-options"@) && forall|j: int|
                0 <= j < k ==> args[j] != Some("--"@),
{
    lemma_scan_lists(args, readings, 0, no_overrides(), false);
}

/// mpv's boolean spellings, in any case: `1`, `yes`, `true` and `on` read
/// as on; `0`, `no`, `false` and `off` as off; every other text is no
/// boolean.
pub proof fn lemma_boolean_spellings(t: Seq<char>)
    ensures
        bool_of(t) == Some(true) <==> (ascii_lower(t) == "1"@ || ascii_lower(t) == "yes"@
            || ascii_lower(t) == "true"@ || ascii_lower(t) == "on"@),
        bool_of(t) == Some(false) <==> (ascii_lower(t) == "0"@ || ascii_lower(t) == "no"@
            || ascii_lower(t) == "false"@ || ascii_lower(t) == "off"@),
{
    reveal_strlit("1");
    reveal_strlit("yes");
    reveal_strlit("true");
    reveal_strlit("on");
    reveal_strlit("0");
    reveal_strlit("no");
    reveal_strlit("false");
    reveal_strlit("off");
    let l = ascii_lower(t);
    if l == "0"@ || l == "no"@ || l == "false"@ || l == "off"@ {
        assert(l != "1"@ && l != "yes"@ && l != "true"@ && l != "on"@) by {
            if l == "0"@ {
                assert(l[0] != "1"@[0]);
            } else if l == "no"@ {
                assert(l.len() != "1"@.len() && l.len() != "yes"@.len() && l.len() != "true"@.len()
                    && l[0] != "on"@[0]);
            } else if l == "false"@ {
                assert(l.len() == 5);
            } else {
                assert(l.len() == 3 && l[0] != "yes"@[0]);
            }
        }
    }
}

/// The projection of `--<name>` followed by `v`, for a mirrored value
/// option `name` that takes `v` as its value.
proof fn lemma_value_option_then_value(
    name: Seq<char>,
    v: Seq<char>,
    first: NumberReading,
    second: NumberReading,
)
    requires
        name.len() > 0,
        forall|i: int| 0 <= i < name.len() ==> name[i] != '=',
        !(name.len() >= 3 && name[0] == 'n' && name[1] == 'o' && name[2] == '-'),
        arity_of(name) == Some(OptionArity::Value),
        value_candidate(OptionArity::Value, v, second.whole),
    ensures
        projection(seq![Some("--"@ + name), Some(v)], seq![first, second]).0 == apply_option(
            no_overrides(),
            name,
            Some(v),
            second.whole,
            false,
        ),
{
    reveal_strlit("--");
    let t = "--"@ + name;
    assert(t.skip(2) =~= name);
    assert(option_body(t) == Some(name));
    assert(!exists|i: int| first_index_at(name, '=', i));
    assert(token_of(t) == Some((name, None::<Seq<char>>, false)));
    lemma_special_arguments_are_no_ui_option(t);
    let args = seq![Some(t), Some(v)];
    let readings = seq![first, second];
    assert(reading_at(readings, 1) == second);
    assert(separate_value(args, readings, 0, OptionArity::Value) == Some(v));
    let applied = apply_option(no_overrides(), name, Some(v), second.whole, false);
    assert(scan(args, readings, 2, applied, false) == (applied, false));
}

/// A value option may take its value from the next argument: `--volume v`
/// sets the volume to the number `v` reads as when that is finite, and
/// `--speed v` sets the speed to it when that is finite and above zero, for
/// every `v` that does not look like an option.
pub proof fn lemma_value_from_next_argument(
    v: Seq<char>,
    first: NumberReading,
    whole: Option<u64>,
    after_equals: Option<u64>,
    bits: u64,
)
    requires
        !(v.len() > 0 && v[0] == '-'),
    ensures
        bits & 0x7ff0_0000_0000_0000u64 != 0x7ff0_0000_0000_0000u64 ==> projection(
            seq![Some("--volume"@), Some(v)],
            seq![first, NumberReading { whole: Some(bits), after_equals }],
        ).0 == (UiOverrides { volume: Some(bits), paused: None, fullscreen: None, speed: None }),
        0 < bits < 0x7ff0_0000_0000_0000u64 ==> projection(
            seq![Some("--speed"@), Some(v)],
            seq![first, NumberReading { whole: Some(bits), after_equals }],
        ).0 == (UiOverrides { volume: None, paused: None, fullscreen: None, speed: Some(bits) }),
{
    reveal_strlit("--");
    reveal_strlit("--volume");
    reveal_strlit("--speed");
    reveal_strlit("volume");
    reveal_strlit("speed");
    let second = NumberReading { whole: Some(bits), after_equals };
    assert("--volume"@ =~= "--"@ + "volume"@);
    assert("--speed"@ =~= "--"@ + "speed"@);
    assert("speed"@.len() == 5 && "speed"@ != "volume"@);
    lemma_value_option_then_value("volume"@, v, first, second);
    lemma_value_option_then_value("speed"@, v, first, second);
}

} // verus!
