use std::path::PathBuf;

use mediapulse::cli::invocation::{number_queries, parse_invocation, NumberReading};
use mediapulse::cli::sidecar::{
    executable_directory, resolve_sidecar_path, sidecar_candidates, ProbedPath, SidecarError,
};
use mediapulse::launcher::{
    exit_code, help_text, launch_plan, local_request, media_sources, version_text, LaunchPlan,
    LocalRequest,
};

fn args(values: &[&str]) -> Vec<Vec<u8>> {
    values.iter().map(|v| v.as_bytes().to_vec()).collect()
}

fn plan(values: &[&str]) -> LaunchPlan {
    let args = args(values);
    let readings: Vec<NumberReading> = number_queries(&args)
        .iter()
        .map(|_| NumberReading { whole: None, after_equals: None })
        .collect();
    launch_plan(&parse_invocation(args, &readings))
}

#[test]
fn help_and_version_are_answered_locally() {
    assert_eq!(local_request(&args(&["--help"])), Some(LocalRequest::Help));
    assert_eq!(local_request(&args(&["-h", "x"])), Some(LocalRequest::Help));
    assert_eq!(local_request(&args(&["--version"])), Some(LocalRequest::Version));
    assert_eq!(local_request(&args(&["-V"])), Some(LocalRequest::Version));
    assert_eq!(local_request(&args(&["video.mkv", "--help"])), None);
    assert_eq!(local_request(&[vec![0xff]]), None);
    assert_eq!(local_request(&[]), None);
}

#[test]
fn launch_plans_follow_the_first_argument() {
    assert_eq!(plan(&["--help"]), LaunchPlan::ShowHelp { to_stderr: false, exit_code: 0 });
    assert_eq!(plan(&["--version"]), LaunchPlan::ShowVersion);
    assert_eq!(plan(&[]), LaunchPlan::ShowHelp { to_stderr: true, exit_code: 1 });
    assert_eq!(plan(&["--no-config", "--list-options"]), LaunchPlan::Forward);
}

#[test]
fn help_names_the_version_and_the_engine_variable() {
    let help = help_text("1.2.3");
    assert!(help.starts_with("mp 1.2.3 - MediaPulse's mpv-compatible command line player\n"));
    assert!(help.contains("MEDIAPULSE_MPV_PATH=/absolute/path/to/mpv mp video.mkv"));
    assert!(help.ends_with("  mp --list-options\n"));
    assert_eq!(version_text("1.2.3", "/opt/mpv"), "mp 1.2.3 (MediaPulse)\nmpv engine: /opt/mpv\n");
}

#[test]
fn exit_codes_pass_through_or_report_the_signal() {
    assert_eq!(exit_code(Some(7), None), 7);
    assert_eq!(exit_code(Some(0), Some(9)), 0);
    assert_eq!(exit_code(None, Some(9)), 137);
    assert_eq!(exit_code(None, None), 128);
}

#[test]
fn media_sources_skip_options() {
    let sources = media_sources(vec!["--fullscreen".into(), "a.mkv".into(), "-x".into(), "b.mkv".into(), "".into()]);
    assert_eq!(sources, vec!["a.mkv".to_string(), "b.mkv".to_string(), "".to_string()]);
}

#[test]
fn mp_never_falls_back_to_system_path() {
    let executable = PathBuf::from("/nonexistent/mediapulse-test/mp");
    let resource_dir = executable_directory(&executable);
    let candidates: Vec<ProbedPath> = sidecar_candidates(&executable, &resource_dir, "mpv")
        .into_iter()
        .map(|path| {
            let is_file = path.is_file();
            ProbedPath { path, is_file }
        })
        .collect();

    let error = resolve_sidecar_path(None, candidates).unwrap_err();

    assert!(error.describe().contains("bundled mpv sidecar was not found"));
    match error {
        SidecarError::NotFound { searched } => assert_eq!(
            searched,
            vec![
                PathBuf::from("/nonexistent/mediapulse-test/mpv"),
                PathBuf::from("/nonexistent/mediapulse-test/bin/mpv"),
                PathBuf::from("/nonexistent/mediapulse-test/mpv"),
                PathBuf::from("/nonexistent/mediapulse-test/bin/mpv"),
            ]
        ),
        other => panic!("expected a bundled-sidecar lookup failure, got {other:?}"),
    }
}

#[test]
fn mp_forwards_canonical_and_legacy_arguments_unchanged() {
    let canonical = ["--volume=80", "--no-fullscreen", "--speed=1.5", "video.mkv"];
    let legacy = ["-volume", "80", "-no-fullscreen", "-speed", "1.5", "video.mkv"];
    let cases: &[&[&str]] = &[&canonical, &legacy];

    for &arguments in cases {
        let given = args(arguments);
        let readings: Vec<NumberReading> = number_queries(&given)
            .iter()
            .map(|_| NumberReading { whole: None, after_equals: None })
            .collect();
        let invocation = parse_invocation(given.clone(), &readings);
        assert_eq!(launch_plan(&invocation), LaunchPlan::Forward);
        assert_eq!(invocation.engine_args(), given.as_slice());
    }
}

#[test]
fn mp_forwards_list_options_to_the_bundled_engine() {
    let given = args(&["--no-config", "--list-options"]);
    let readings = vec![NumberReading { whole: None, after_equals: None }; 2];
    let invocation = parse_invocation(given.clone(), &readings);
    assert_eq!(launch_plan(&invocation), LaunchPlan::Forward);
    assert!(invocation.lists_options());
    assert_eq!(invocation.engine_args(), given.as_slice());
}

#[test]
fn missing_explicit_engine_is_an_error_even_with_a_bundle() {
    let explicit = ProbedPath { path: PathBuf::from("/missing/mpv"), is_file: false };
    let bundled = vec![ProbedPath { path: PathBuf::from("/bundle/mpv"), is_file: true }];
    let error = resolve_sidecar_path(Some(explicit), bundled).unwrap_err();
    assert_eq!(error, SidecarError::MissingExplicit { path: PathBuf::from("/missing/mpv") });
    assert_eq!(error.describe(), "configured mpv sidecar does not exist: /missing/mpv");
}
