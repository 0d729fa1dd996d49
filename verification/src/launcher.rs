//! The decisions of the `mp` launcher: local requests, help and version
//! text, and the exit code passed on from mpv.
use vstd::prelude::*;

use crate::cli::invocation::ParsedInvocation;
use crate::text::{decoded_text, same_text, starts_with_char, text_of};

verus! {

/// A request `mp` answers itself instead of passing it to mpv.
#[derive(Debug, Clone, Copy, PartialEq, Eq, Structural)]
pub enum LocalRequest {
    Help,
    Version,
}

/// The local request a first argument makes, if any.
pub open spec fn local_request_of(first: Option<Seq<char>>) -> Option<LocalRequest> {
    match first {
        Some(t) => if t == "--help"@ || t == "-h"@ {
            Some(LocalRequest::Help)
        } else if t == "--version"@ || t == "-V"@ {
            Some(LocalRequest::Version)
        } else {
            None
        },
        None => None,
    }
}

/// The local request of an argument vector: its first argument may ask
/// for help or for the version.
pub fn local_request(args: &[Vec<u8>]) -> (request: Option<LocalRequest>)
    ensures
        args@.len() == 0 ==> request is None,
        args@.len() > 0 ==> request == local_request_of(decoded_text(args@[0]@)),
{
    if args.len() == 0 {
        return None;
    }
    match text_of(args[0].as_slice()) {
        Some(t) => {
            if same_text(t, "--help") || same_text(t, "-h") {
                Some(LocalRequest::Help)
            } else if same_text(t, "--version") || same_text(t, "-V") {
                Some(LocalRequest::Version)
            } else {
                None
            }
        },
        None => None,
    }
}

/// What `mp` does with an invocation.
#[derive(Debug, Clone, Copy, PartialEq, Eq, Structural)]
pub enum LaunchPlan {
    /// Print the help text, to standard error when `to_stderr`, and exit.
    ShowHelp { to_stderr: bool, exit_code: i32 },
    /// Resolve the engine and print the version with it.
    ShowVersion,
    /// Pass the arguments to the engine.
    Forward,
}

/// The plan for an invocation: help when asked for, the version when asked
/// for, help on standard error with a failure when there are no arguments,
/// and otherwise the arguments go to mpv.
pub fn launch_plan(invocation: &ParsedInvocation) -> (plan: LaunchPlan)
    ensures
        local_request_of_args(invocation.args_view()) == Some(LocalRequest::Help) ==> plan
            == (LaunchPlan::ShowHelp { to_stderr: false, exit_code: 0 }),
        local_request_of_args(invocation.args_view()) == Some(LocalRequest::Version) ==> plan
            == LaunchPlan::ShowVersion,
        local_request_of_args(invocation.args_view()) is None && invocation.args_view().len() == 0
            ==> plan == (LaunchPlan::ShowHelp { to_stderr: true, exit_code: 1 }),
        local_request_of_args(invocation.args_view()) is None && invocation.args_view().len() > 0
            ==> plan == LaunchPlan::Forward,
        invocation.args_view().len() > 0 && !(decoded_text(invocation.args_view()[0]@) == Some(
            "--help"@) || decoded_text(invocation.args_view()[0]@) == Some("-h"@) || decoded_text(
            invocation.args_view()[0]@,
        ) == Some("--version"@) || decoded_text(invocation.args_view()[0]@) == Some("-V"@))
            ==> plan == LaunchPlan::Forward,
{
    let args = invocation.engine_args();
    proof {
        lemma_only_four_words_are_local(invocation.args_view());
    }
    match local_request(args) {
        Some(LocalRequest::Help) => LaunchPlan::ShowHelp { to_stderr: false, exit_code: 0 },
        Some(LocalRequest::Version) => LaunchPlan::ShowVersion,
        None => if args.len() == 0 {
            LaunchPlan::ShowHelp { to_stderr: true, exit_code: 1 }
        } else {
            LaunchPlan::Forward
        },
    }
}

/// The local request of a whole argument vector.
pub open spec fn local_request_of_args(args: Seq<Vec<u8>>) -> Option<LocalRequest> {
    if args.len() == 0 {
        None
    } else {
        local_request_of(decoded_text(args[0]@))
    }
}

/// Only four first arguments are answered by `mp` itself: `--help` and `-h`
/// ask for help, `--version` and `-V` for the version. Every other first
/// argument, a non-UTF-8 one too, and an empty argument vector make no
/// local request, so a non-empty invocation then goes to mpv.
pub proof fn lemma_only_four_words_are_local(args: Seq<Vec<u8>>)
    ensures
        args.len() > 0 && (decoded_text(args[0]@) == Some("--help"@) || decoded_text(args[0]@)
            == Some("-h"@)) ==> local_request_of_args(args) == Some(LocalRequest::Help),
        args.len() > 0 && (decoded_text(args[0]@) == Some("--version"@) || decoded_text(args[0]@)
            == Some("-V"@)) ==> local_request_of_args(args) == Some(LocalRequest::Version),
        !(args.len() > 0 && (decoded_text(args[0]@) == Some("--help"@) || decoded_text(args[0]@)
            == Some("-h"@) || decoded_text(args[0]@) == Some("--version"@) || decoded_text(
            args[0]@,
        ) == Some("-V"@))) ==> local_request_of_args(args) is None,
{
    reveal_strlit("--help");
    reveal_strlit("-h");
    reveal_strlit("--version");
    reveal_strlit("-V");
    assert("--version"@.len() != "--help"@.len() && "--version"@.len() != "-h"@.len());
    assert("-V"@[1] != "-h"@[1] && "-V"@.len() != "--help"@.len());
}

/// The help text, before the version.
pub open spec fn help_head() -> Seq<char> {
    "mp "@
}

/// The help text, after the version.
pub open spec fn help_body() -> Seq<char> {
    " - MediaPulse's mpv-compatible command line player\n\nUsage:\n  mp [mpv options] <file>...\n  mp --help\n  mp --version\n\nArguments are passed to mpv unchanged, so every mpv option works. Options\nthat MediaPulse mirrors into its own UI (volume, pause, fullscreen, speed)\nare tracked by the desktop app as well.\n\nEngine:\n  mp never searches your PATH for mpv. A release bundle uses the mpv it\n  ships with. A `cargo install mediapulse` build has no bundled mpv, so\n  point it at one explicitly:\n\n    MEDIAPULSE_MPV_PATH=/absolute/path/to/mpv mp video.mkv\n\nExamples:\n  mp video.mkv\n  mp --volume=80 --no-fullscreen video.mkv\n  mp --list-options\n"@
}

/// The help text of `mp` at the given version.
pub fn help_text(version: &str) -> (text: String)
    ensures
        text@ == help_head() + version@ + help_body(),
{
    String::from_str("mp ").concat(version).concat(
        " - MediaPulse's mpv-compatible command line player\n\nUsage:\n  mp [mpv options] <file>...\n  mp --help\n  mp --version\n\nArguments are passed to mpv unchanged, so every mpv option works. Options\nthat MediaPulse mirrors into its own UI (volume, pause, fullscreen, speed)\nare tracked by the desktop app as well.\n\nEngine:\n  mp never searches your PATH for mpv. A release bundle uses the mpv it\n  ships with. A `cargo install mediapulse` build has no bundled mpv, so\n  point it at one explicitly:\n\n    MEDIAPULSE_MPV_PATH=/absolute/path/to/mpv mp video.mkv\n\nExamples:\n  mp video.mkv\n  mp --volume=80 --no-fullscreen video.mkv\n  mp --list-options\n",
    )
}

/// The version report of `mp`: its own version and the engine it found,
/// one line each.
pub fn version_text(version: &str, engine: &str) -> (text: String)
    ensures
        text@ == "mp "@ + version@ + " (MediaPulse)\nmpv engine: "@ + engine@ + "\n"@,
{
    String::from_str("mp ").concat(version).concat(" (MediaPulse)\nmpv engine: ").concat(engine).concat(
        "\n",
    )
}

/// The exit code of the engine's process: its own code, or for a process
/// ended by a signal, 128 plus the signal number (no signal counts as 0).
pub open spec fn exit_code_of(code: Option<i32>, signal: Option<i32>) -> int {
    match code {
        Some(c) => c as int,
        None => 128 + match signal {
            Some(s) => s as int,
            None => 0,
        },
    }
}

/// The exit code `mp` passes on.
pub fn exit_code(code: Option<i32>, signal: Option<i32>) -> (exit: i32)
    requires
        code is None ==> (signal matches Some(s) ==> s <= i32::MAX - 128),
    ensures
        exit as int == exit_code_of(code, signal),
{
    match code {
        Some(c) => c,
        None => {
            let s = match signal {
                Some(s) => s,
                None => 0,
            };
            128 + s
        },
    }
}

/// The media an argument vector names: the arguments that do not start
/// with `-`.
pub open spec fn media_of(args: Seq<String>) -> Seq<String> {
    args.filter(|a: String| !(a@.len() > 0 && a@[0] == '-'))
}

/// Pick the media sources out of the desktop app's arguments.
pub fn media_sources(args: Vec<String>) -> (sources: Vec<String>)
    ensures
        sources@ == media_of(args@),
{
    let ghost all = args@;
    let mut sources: Vec<String> = Vec::new();
    let mut rest = args;
    let mut reversed: Vec<String> = Vec::new();
    let n = rest.len();
    let mut i: usize = 0;
    while i < n
        invariant
            n == all.len(),
            i <= n,
            rest@ == all.subrange(0, n - i),
            reversed@.len() == i,
            forall|j: int| 0 <= j < i ==> #[trigger] reversed@[j] == all[n - 1 - j],
        decreases n - i,
    {
        let last = rest.pop().unwrap();
        reversed.push(last);
        i = i + 1;
    }
    let mut k: usize = 0;
    while k < n
        invariant
            n == all.len(),
            k <= n,
            reversed@.len() == n - k,
            forall|j: int| 0 <= j < n - k ==> #[trigger] reversed@[j] == all[n - 1 - j],
            sources@ == media_of(all.subrange(0, k as int)),
        decreases n - k,
    {
        let arg = reversed.pop().unwrap();
        assert(all.subrange(0, k + 1).drop_last() =~= all.subrange(0, k as int));
        assert(all.subrange(0, k + 1).last() == arg);
        reveal(Seq::filter);
        if !starts_with_char(arg.as_str(), '-') {
            sources.push(arg);
        }
        k = k + 1;
    }
    assert(all.subrange(0, n as int) =~= all);
    sources
}

} // verus!
