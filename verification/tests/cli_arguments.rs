use std::path::{Path, PathBuf};

use mediapulse::cli::invocation::{
    is_value_candidate, number_queries, parse_invocation, NumberReading, ParsedInvocation,
    ParsedToken, UiOverrides,
};
use mediapulse::cli::options::{classify, flag_value, parse_bool, OptionArity, UiOption};
use mediapulse::cli::sidecar::{resolve_sidecar_path, sidecar_candidates, ProbedPath, SidecarError};

fn os_args(values: &[&str]) -> Vec<Vec<u8>> {
    values.iter().map(|v| v.as_bytes().to_vec()).collect()
}

fn read_number(text: &Option<String>) -> Option<u64> {
    text.as_ref()
        .and_then(|t| t.parse::<f64>().ok())
        .map(f64::to_bits)
}

fn parse(args: Vec<Vec<u8>>) -> ParsedInvocation {
    let readings: Vec<NumberReading> = number_queries(&args)
        .iter()
        .map(|q| NumberReading {
            whole: read_number(&q.whole),
            after_equals: read_number(&q.after_equals),
        })
        .collect();
    parse_invocation(args, &readings)
}

fn number(bits: Option<u64>) -> Option<f64> {
    bits.map(f64::from_bits)
}

fn sidecar_name() -> String {
    "mpv".to_string()
}

/// A directory with exactly the given name inside `parent`.
fn named_dir(parent: &Path, name: &str) -> PathBuf {
    tempfile::Builder::new()
        .prefix(name)
        .rand_bytes(0)
        .tempdir_in(parent)
        .expect("named directory")
        .keep()
}

/// An empty file with exactly the given name inside `parent`.
fn named_file(parent: &Path, name: &str) -> PathBuf {
    let (_, path) = tempfile::Builder::new()
        .prefix(name)
        .rand_bytes(0)
        .tempfile_in(parent)
        .expect("named file")
        .keep()
        .expect("kept file");
    path
}

fn probe(path: PathBuf) -> ProbedPath {
    let is_file = path.is_file();
    ProbedPath { path, is_file }
}

fn resolve(
    explicit: Option<PathBuf>,
    executable: &PathBuf,
    resource_dir: &PathBuf,
) -> Result<PathBuf, SidecarError> {
    let explicit = explicit.map(probe);
    let candidates = sidecar_candidates(executable, resource_dir, &sidecar_name())
        .into_iter()
        .map(probe)
        .collect();
    resolve_sidecar_path(explicit, candidates)
}

#[test]
fn canonical_options_map_to_ui_state_without_rewriting_engine_arguments() {
    let args = os_args(&["--volume=80", "--no-fullscreen", "--speed=1.5", "video.mkv"]);

    let invocation = parse(args.clone());

    assert_eq!(invocation.engine_args(), args.as_slice());
    assert_eq!(number(invocation.ui_overrides().volume), Some(80.0));
    assert_eq!(invocation.ui_overrides().paused, None);
    assert_eq!(invocation.ui_overrides().fullscreen, Some(false));
    assert_eq!(number(invocation.ui_overrides().speed), Some(1.5));
    assert!(!invocation.lists_options());
}

#[test]
fn legacy_options_map_to_ui_state_and_preserve_original_argv() {
    let args = os_args(&[
        "-volume",
        "80",
        "-no-fullscreen",
        "-pause",
        "-speed",
        "1.5",
        "video.mkv",
    ]);

    let invocation = parse(args.clone());

    assert_eq!(invocation.engine_args(), args.as_slice());
    assert_eq!(number(invocation.ui_overrides().volume), Some(80.0));
    assert_eq!(invocation.ui_overrides().paused, Some(true));
    assert_eq!(invocation.ui_overrides().fullscreen, Some(false));
    assert_eq!(number(invocation.ui_overrides().speed), Some(1.5));
}

#[test]
fn unknown_options_and_non_utf8_arguments_remain_untouched() {
    let mut args = os_args(&["--sub-scale=1.25", "--custom=visible", "-x"]);
    args.push(vec![0x66, 0x80, 0x6f]);

    let invocation = parse(args.clone());

    assert_eq!(invocation.engine_args(), args.as_slice());
    assert_eq!(invocation.ui_overrides(), &UiOverrides::default());
}

#[test]
fn double_dash_stops_ui_registry_scanning() {
    let args = os_args(&["--", "--volume=99", "video.mkv"]);

    let invocation = parse(args.clone());

    assert_eq!(invocation.engine_args(), args.as_slice());
    assert_eq!(invocation.ui_overrides(), &UiOverrides::default());
}

#[test]
fn list_options_is_detected_and_forwarded_verbatim() {
    let args = os_args(&["--no-config", "--list-options"]);

    let invocation = parse(args.clone());

    assert!(invocation.lists_options());
    assert_eq!(invocation.engine_args(), args.as_slice());
}

#[test]
fn last_known_ui_option_wins() {
    let args = os_args(&[
        "--volume=20",
        "--volume=90",
        "--fullscreen",
        "--no-fullscreen",
    ]);

    let invocation = parse(args);

    assert_eq!(number(invocation.ui_overrides().volume), Some(90.0));
    assert_eq!(invocation.ui_overrides().fullscreen, Some(false));
}

#[test]
fn sidecar_resolution_searches_only_bundle_locations() {
    let temp = tempfile::tempdir().expect("temp directory");
    let executable = named_dir(temp.path(), "bin").join("mediapulse");
    let resource_dir = named_dir(temp.path(), "resources");
    let sidecar = named_file(&resource_dir, &sidecar_name());

    let resolved =
        resolve(None, &executable, &resource_dir).expect("bundled sidecar should resolve");

    assert_eq!(resolved, sidecar);
}

#[test]
fn sidecar_resolution_does_not_fall_back_to_path() {
    let temp = tempfile::tempdir().expect("temp directory");
    let executable = temp.path().join("mediapulse");
    let resource_dir = named_dir(temp.path(), "resources");

    let result = resolve(None, &executable, &resource_dir);

    match result {
        Err(SidecarError::NotFound { searched }) => assert_eq!(searched.len(), 4),
        other => panic!("expected a bundled-sidecar lookup failure, got {other:?}"),
    }
}

#[test]
fn explicit_sidecar_path_is_used_when_present() {
    let temp = tempfile::tempdir().expect("temp directory");
    let explicit = named_file(temp.path(), &sidecar_name());
    let executable: PathBuf = temp.path().join("mediapulse");

    let resolved = resolve(
        Some(explicit.clone()),
        &executable,
        &PathBuf::from("resources"),
    )
    .expect("explicit sidecar should resolve");

    assert_eq!(resolved, explicit);
}

#[test]
fn tokens_split_name_value_and_negation() {
    let token = ParsedToken::parse("--volume=80").expect("token");
    assert_eq!((token.name, token.value, token.negated), ("volume", Some("80"), false));
    let token = ParsedToken::parse("-no-fullscreen").expect("token");
    assert_eq!((token.name, token.value, token.negated), ("fullscreen", None, true));
    let token = ParsedToken::parse("--title=a=b").expect("token");
    assert_eq!((token.name, token.value), ("title", Some("a=b")));
    let token = ParsedToken::parse("--no-pause=yes").expect("token");
    assert_eq!((token.name, token.value, token.negated), ("no-pause", Some("yes"), false));
    assert!(ParsedToken::parse("video.mkv").is_none());
    assert!(ParsedToken::parse("--").is_none());
    assert!(ParsedToken::parse("-").is_none());
}

#[test]
fn registry_classifies_and_reads_booleans() {
    assert_eq!(classify("volume"), Some(OptionArity::Value));
    assert_eq!(classify("speed"), Some(OptionArity::Value));
    assert_eq!(classify("pause"), Some(OptionArity::Flag));
    assert_eq!(classify("fullscreen"), Some(OptionArity::Flag));
    assert_eq!(classify("mute"), None);
    assert_eq!(parse_bool("YES"), Some(true));
    assert_eq!(parse_bool("On"), Some(true));
    assert_eq!(parse_bool("1"), Some(true));
    assert_eq!(parse_bool("False"), Some(false));
    assert_eq!(parse_bool("0"), Some(false));
    assert_eq!(parse_bool("maybe"), None);
    let option = |value, negated| UiOption { name: "pause", value, number: None, negated };
    assert_eq!(flag_value(option(None, false)), Some(true));
    assert_eq!(flag_value(option(None, true)), Some(false));
    assert_eq!(flag_value(option(Some("no"), false)), Some(false));
    assert_eq!(flag_value(option(Some("perhaps"), false)), None);
}

#[test]
fn value_candidates_exclude_options_but_take_negative_numbers() {
    let minus_five = Some((-5.0f64).to_bits());
    assert!(is_value_candidate(OptionArity::Value, "80", Some(80.0f64.to_bits())));
    assert!(is_value_candidate(OptionArity::Value, "loud", None));
    assert!(is_value_candidate(OptionArity::Value, "-5", minus_five));
    assert!(!is_value_candidate(OptionArity::Value, "-inf", Some(f64::NEG_INFINITY.to_bits())));
    assert!(!is_value_candidate(OptionArity::Value, "--pause", None));
    assert!(is_value_candidate(OptionArity::Flag, "no", None));
    assert!(!is_value_candidate(OptionArity::Flag, "video.mkv", None));
}

#[test]
fn number_queries_name_each_argument_and_its_value() {
    let mut args = os_args(&["--volume=80", "video.mkv", "--a=b=c"]);
    args.push(vec![0xff]);
    let queries = number_queries(&args);
    assert_eq!(queries.len(), 4);
    assert_eq!(queries[0].whole.as_deref(), Some("--volume=80"));
    assert_eq!(queries[0].after_equals.as_deref(), Some("80"));
    assert_eq!(queries[1].after_equals, None);
    assert_eq!(queries[2].after_equals.as_deref(), Some("b=c"));
    assert_eq!(queries[3].whole, None);
}

#[test]
fn invalid_values_leave_earlier_ones_in_place() {
    let invocation = parse(os_args(&[
        "--volume=30",
        "--volume=loud",
        "--volume=inf",
        "--speed=2",
        "--speed=-1",
        "--speed=0",
        "--pause=YES",
        "--fullscreen=perhaps",
    ]));
    assert_eq!(number(invocation.ui_overrides().volume), Some(30.0));
    assert_eq!(number(invocation.ui_overrides().speed), Some(2.0));
    assert_eq!(invocation.ui_overrides().paused, Some(true));
    assert_eq!(invocation.ui_overrides().fullscreen, None);
}

#[test]
fn separate_values_are_consumed_only_when_they_fit() {
    let invocation = parse(os_args(&["--volume", "-5", "--pause", "no", "--speed", "--fullscreen"]));
    assert_eq!(number(invocation.ui_overrides().volume), Some(-5.0));
    assert_eq!(invocation.ui_overrides().paused, Some(false));
    assert_eq!(invocation.ui_overrides().speed, None);
    assert_eq!(invocation.ui_overrides().fullscreen, Some(true));
}

#[test]
fn missing_readings_count_as_no_number() {
    let args = os_args(&["--volume=80", "--pause"]);
    let invocation = parse_invocation(args, &[]);
    assert_eq!(invocation.ui_overrides().volume, None);
    assert_eq!(invocation.ui_overrides().paused, Some(true));
}
