use mediapulse::backend::error::BackendError;
use mediapulse::backend::ipc::{
    decode_response, endpoint_name, io_error, recv_error, sidecar_arguments, startup_poll,
    startup_timeout, ExitReport, IpcArg, IpcData, IpcProtocol, IpcReply, RecvFailure, StartupPoll,
};
use mediapulse::backend::libmpv::{
    command_words, engine_options, load_words, property_action, property_error, property_kind,
    quit_words, EngineOption, OptionValue, PropertyAction,
};
use mediapulse::backend::model::{
    playback_phase, BackendKind, PlaybackCommand, PlaybackPhase, PlaybackSnapshot,
    PropertyUpdate, PropertyValue,
};
use mediapulse::backend::sidecar::{
    command_request, get_property_request, is_unavailable, load_command, property_from_reply,
    read_bool, read_number, read_optional_number, read_optional_text, set_property_request,
    PropertyReply,
};
use mediapulse::backend::snapshot::{SnapshotReader, SnapshotStep, ValueKind};
use mediapulse::number::decimal_text;
use mediapulse::shell::{IpcError, StateEvent};

fn text(value: &str) -> IpcArg {
    IpcArg::Text(value.to_string())
}

fn engine(message: &str) -> BackendError {
    BackendError::Engine { message: message.to_string() }
}

fn reply(id: Option<u64>, error: Option<&str>, data: Option<IpcData>) -> IpcReply {
    IpcReply { request_id: id, error: error.map(str::to_string), data }
}

fn number(value: f64) -> IpcData {
    IpcData::Number(Some(value.to_bits()))
}

#[test]
fn ipc_errors_keep_stable_machine_codes() {
    let error = IpcError::from_backend_error(BackendError::NotReady);

    assert_eq!(error.code, "notReady");
    assert_eq!(error.message, "playback engine is not ready");
}

#[test]
fn every_backend_error_has_its_code_and_text() {
    let cases = vec![
        (BackendError::Unsupported { backend: BackendKind::Sidecar }, "unsupported",
            "Sidecar backend does not support this operation"),
        (BackendError::InvalidProperty { property: "volume".into(), message: "expected number".into() },
            "invalidProperty", "invalid value for mpv property volume: expected number"),
        (BackendError::Io { operation: "write".into(), message: "broken pipe".into() }, "io",
            "mpv I/O operation write failed: broken pipe"),
        (BackendError::Timeout { operation: "receive 3".into() }, "timeout",
            "mpv operation timed out: receive 3"),
        (BackendError::Protocol { message: "bad json".into() }, "protocol",
            "invalid mpv IPC response: bad json"),
        (engine("boom"), "engine", "mpv operation failed: boom"),
    ];
    for (error, code, message) in cases {
        assert_eq!(error.describe(), message);
        let ipc = IpcError::from_backend_error(error);
        assert_eq!(ipc.code, code);
        assert_eq!(ipc.message, message);
    }
    let window = IpcError::window("no window".to_string());
    assert_eq!(window.code, "window");
    assert_eq!(window.message, "no window");
}

#[test]
fn state_events_name_snapshot_and_error() {
    let state = StateEvent::from_read(Ok(PlaybackSnapshot::default()));
    assert_eq!(state.name(), "playback-state");
    let failure = StateEvent::from_read(Err(BackendError::NotReady));
    assert_eq!(failure.name(), "playback-error");
    match failure {
        StateEvent::Failure(error) => assert_eq!(error.code, "notReady"),
        StateEvent::State(_) => panic!("expected an error event"),
    }
}

#[test]
fn default_snapshot_is_idle_at_full_volume_and_normal_speed() {
    let snapshot = PlaybackSnapshot::default();
    assert_eq!(snapshot.phase, PlaybackPhase::Idle);
    assert!(!snapshot.paused);
    assert_eq!(f64::from_bits(snapshot.volume), 100.0);
    assert!(!snapshot.muted);
    assert!(!snapshot.fullscreen);
    assert_eq!(f64::from_bits(snapshot.speed), 1.0);
    assert_eq!(f64::from_bits(snapshot.time_position), 0.0);
    assert_eq!(snapshot.duration, None);
    assert_eq!(snapshot.filename, "");
    assert_eq!(snapshot.media_title, "");
}

#[test]
fn phase_follows_pause_then_idle() {
    assert_eq!(playback_phase(true, true), PlaybackPhase::Paused);
    assert_eq!(playback_phase(false, true), PlaybackPhase::Paused);
    assert_eq!(playback_phase(true, false), PlaybackPhase::Idle);
    assert_eq!(playback_phase(false, false), PlaybackPhase::Playing);
}

#[test]
fn updates_and_commands_keep_their_parts() {
    let update = PropertyUpdate::boolean("pause", true);
    assert_eq!(update.name, "pause");
    assert_eq!(update.value, PropertyValue::Boolean(true));
    let update = PropertyUpdate::number("volume", 80.0f64.to_bits());
    assert_eq!(update.value, PropertyValue::Number(80.0f64.to_bits()));
    let update = PropertyUpdate::text("sid", "auto");
    assert_eq!(update.value, PropertyValue::Text("auto".to_string()));
    let command = PlaybackCommand::new("seek", vec!["5".to_string(), "relative".to_string()]);
    assert_eq!(command.name, "seek");
    assert_eq!(command.arguments, vec!["5".to_string(), "relative".to_string()]);
}

#[test]
fn request_ids_count_up_from_one() {
    let mut protocol = IpcProtocol::new();
    let first = protocol.begin_request(vec![text("a")]).expect("first request");
    let second = protocol.begin_request(vec![text("b")]).expect("second request");
    let third = protocol.begin_request(vec![text("c")]).expect("third request");
    assert_eq!((first.request_id, second.request_id, third.request_id), (1, 2, 3));
    assert_eq!(third.command, vec![text("c")]);
}

#[test]
fn replies_to_other_requests_are_passed_over() {
    let protocol = IpcProtocol::new();
    assert_eq!(protocol.accept_reply(2, reply(Some(1), Some("success"), None)), None);
    assert_eq!(protocol.accept_reply(2, reply(None, None, None)), None);
    assert_eq!(
        protocol.accept_reply(2, reply(Some(2), Some("success"), Some(IpcData::Boolean(true)))),
        Some(Ok(Some(IpcData::Boolean(true))))
    );
}

#[test]
fn failed_replies_name_the_request() {
    assert_eq!(
        decode_response(12, reply(Some(12), Some("property unavailable"), None)),
        Err(engine("mpv request 12 failed: property unavailable"))
    );
    assert_eq!(decode_response(12, reply(Some(12), None, Some(IpcData::Other))), Ok(Some(IpcData::Other)));
}

#[test]
fn shutdown_closes_the_session() {
    let mut protocol = IpcProtocol::new();
    protocol.begin_request(vec![text("a")]).expect("request");
    let quit = protocol.begin_shutdown().expect("quit request");
    assert_eq!(quit.request_id, 2);
    assert_eq!(quit.command, vec![text("quit")]);
    let result = protocol.finish_shutdown(Ok(()), Ok(ExitReport { success: true, status: "exit status: 0".into() }));
    assert_eq!(result, Ok(()));
    assert!(protocol.closed());
    assert_eq!(protocol.begin_shutdown(), None);
    assert_eq!(protocol.begin_request(vec![text("a")]), Err(BackendError::NotReady));
}

#[test]
fn shutdown_reports_write_wait_and_exit_failures() {
    let mut protocol = IpcProtocol::new();
    let wait_error = io_error("wait for mpv sidecar", "gone".to_string());
    assert_eq!(protocol.finish_shutdown(Ok(()), Err(wait_error.clone())), Err(wait_error));
    assert!(!protocol.closed());

    let write_error = io_error("write mpv IPC request", "broken pipe".to_string());
    let mut protocol = IpcProtocol::new();
    assert_eq!(
        protocol.finish_shutdown(Err(write_error.clone()), Ok(ExitReport { success: false, status: "x".into() })),
        Err(write_error)
    );
    assert!(protocol.closed());

    let mut protocol = IpcProtocol::new();
    assert_eq!(
        protocol.finish_shutdown(Ok(()), Ok(ExitReport { success: false, status: "exit status: 3".into() })),
        Err(engine("mpv sidecar exited with exit status: 3"))
    );
}

#[test]
fn receive_failures_name_the_request() {
    assert_eq!(
        recv_error("receive mpv IPC response", 7, RecvFailure::Timeout),
        BackendError::Timeout { operation: "receive mpv IPC response 7".to_string() }
    );
    assert_eq!(
        recv_error("receive mpv IPC response", 7, RecvFailure::Disconnected),
        engine("mpv IPC closed before response 7")
    );
}

#[test]
fn startup_polls_decide_exit_ready_or_wait() {
    assert_eq!(
        startup_poll(Some("exit status: 1".into()), true),
        StartupPoll::Exited(engine("mpv sidecar exited before IPC was ready: exit status: 1"))
    );
    assert_eq!(startup_poll(None, true), StartupPoll::Ready);
    assert_eq!(startup_poll(None, false), StartupPoll::Wait);
    assert_eq!(
        startup_timeout(),
        BackendError::Timeout { operation: "start mpv IPC endpoint".to_string() }
    );
}

#[test]
fn sidecar_starts_idle_and_serves_its_endpoint() {
    assert_eq!(
        sidecar_arguments("/tmp/ep"),
        vec![
            "--idle=yes".to_string(),
            "--no-terminal".to_string(),
            "--force-window=no".to_string(),
            "--hwdec=auto-safe".to_string(),
            "--input-ipc-server=/tmp/ep".to_string(),
        ]
    );
    assert_eq!(endpoint_name(4321, 7), "mediapulse-mpv-4321-7");
}

#[test]
fn decimal_text_writes_numbers() {
    assert_eq!(decimal_text(0), "0");
    assert_eq!(decimal_text(9), "9");
    assert_eq!(decimal_text(10), "10");
    assert_eq!(decimal_text(u64::MAX), "18446744073709551615");
}

#[test]
fn commands_become_requests() {
    let command = PlaybackCommand::new("seek", vec!["5".to_string(), "relative".to_string()]);
    assert_eq!(command_request(command), vec![text("seek"), text("5"), text("relative")]);
    let load = load_command("movie.mkv");
    assert_eq!(command_request(load), vec![text("loadfile"), text("movie.mkv"), text("replace")]);
    assert_eq!(
        set_property_request(PropertyUpdate::number("volume", 80.0f64.to_bits())),
        vec![text("set_property"), text("volume"), IpcArg::Number(80.0f64.to_bits())]
    );
    assert_eq!(
        set_property_request(PropertyUpdate { name: "sid".into(), value: PropertyValue::Unit }),
        vec![text("set_property"), text("sid"), IpcArg::Null]
    );
    assert_eq!(get_property_request("pause"), vec![text("get_property"), text("pause")]);
}

#[test]
fn replies_become_property_values() {
    assert_eq!(property_from_reply(None), PropertyValue::Unit);
    assert_eq!(property_from_reply(Some(IpcData::Boolean(false))), PropertyValue::Boolean(false));
    assert_eq!(property_from_reply(Some(number(2.5))), PropertyValue::Number(2.5f64.to_bits()));
    assert_eq!(property_from_reply(Some(IpcData::Number(None))), PropertyValue::Unit);
    assert_eq!(
        property_from_reply(Some(IpcData::Text { text: "x".into(), number: None })),
        PropertyValue::Text("x".into())
    );
    assert_eq!(property_from_reply(Some(IpcData::Other)), PropertyValue::Unit);
}

#[test]
fn typed_reads_check_the_kind() {
    assert_eq!(read_bool("pause", Ok(Some(IpcData::Boolean(true)))), Ok(true));
    assert_eq!(
        read_bool("pause", Ok(Some(number(1.0)))),
        Err(BackendError::InvalidProperty { property: "pause".into(), message: "expected boolean".into() })
    );
    assert_eq!(read_number("volume", Ok(Some(number(80.0)))), Ok(80.0f64.to_bits()));
    assert_eq!(
        read_number("volume", Ok(Some(IpcData::Text { text: "80".into(), number: Some(80.0f64.to_bits()) }))),
        Ok(80.0f64.to_bits())
    );
    assert_eq!(
        read_number("volume", Ok(None)),
        Err(BackendError::InvalidProperty { property: "volume".into(), message: "expected number".into() })
    );
    assert_eq!(read_number("volume", Err(BackendError::NotReady)), Err(BackendError::NotReady));
}

#[test]
fn unavailable_properties_are_absent_through_ipc() {
    let unavailable = engine("mpv request 4 failed: property unavailable");
    assert!(is_unavailable(&unavailable));
    assert!(!is_unavailable(&engine("mpv request 4 failed: error running command")));
    assert!(!is_unavailable(&BackendError::NotReady));
    assert_eq!(read_optional_number(BackendKind::Sidecar, "duration", Err(unavailable.clone())), Ok(None));
    assert_eq!(
        read_optional_number(BackendKind::Sidecar, "duration", Err(BackendError::NotReady)),
        Err(BackendError::NotReady)
    );
    assert_eq!(
        read_optional_number(BackendKind::Libmpv, "duration", Err(BackendError::NotReady)),
        Ok(None)
    );
    assert_eq!(read_optional_text(BackendKind::Sidecar, Err(unavailable)), Ok(None));
    assert_eq!(read_optional_text(BackendKind::Sidecar, Ok(Some(IpcData::Boolean(true)))), Ok(None));
    assert_eq!(
        read_optional_text(BackendKind::Sidecar, Ok(Some(IpcData::Text { text: "a.mkv".into(), number: None }))),
        Ok(Some("a.mkv".into()))
    );
}

fn run_reader(backend: BackendKind, answer: impl Fn(&str) -> PropertyReply) -> Result<PlaybackSnapshot, BackendError> {
    let mut reader = SnapshotReader::new(backend);
    loop {
        let query = reader.pending();
        match reader.accept(answer(&query.name)) {
            SnapshotStep::Next(next) => reader = next,
            SnapshotStep::Done(result) => return result,
        }
    }
}

fn healthy(name: &str) -> PropertyReply {
    match name {
        "pause" => Ok(Some(IpcData::Boolean(true))),
        "volume" => Ok(Some(number(80.0))),
        "mute" => Ok(Some(IpcData::Boolean(false))),
        "fullscreen" => Ok(Some(IpcData::Boolean(true))),
        "speed" => Ok(Some(number(1.5))),
        "time-pos" => Ok(Some(number(12.0))),
        "duration" => Ok(Some(number(60.0))),
        "filename" => Ok(Some(IpcData::Text { text: "a.mkv".into(), number: None })),
        "media-title" => Ok(Some(IpcData::Text { text: "A".into(), number: None })),
        "core-idle" => Ok(Some(IpcData::Boolean(false))),
        other => panic!("unexpected property {other}"),
    }
}

#[test]
fn snapshot_reads_ten_properties_in_order() {
    let mut reader = SnapshotReader::new(BackendKind::Sidecar);
    let mut names = Vec::new();
    loop {
        let query = reader.pending();
        names.push(query.name.clone());
        match reader.accept(healthy(&query.name)) {
            SnapshotStep::Next(next) => reader = next,
            SnapshotStep::Done(_) => break,
        }
    }
    assert_eq!(
        names,
        vec!["pause", "volume", "mute", "fullscreen", "speed", "time-pos", "duration", "filename", "media-title", "core-idle"]
    );
    assert_eq!(SnapshotReader::new(BackendKind::Libmpv).pending().kind, ValueKind::Boolean);
}

#[test]
fn snapshot_collects_every_read() {
    let snapshot = run_reader(BackendKind::Sidecar, healthy).expect("snapshot");
    assert_eq!(snapshot.phase, PlaybackPhase::Paused);
    assert!(snapshot.paused);
    assert_eq!(f64::from_bits(snapshot.volume), 80.0);
    assert!(!snapshot.muted);
    assert!(snapshot.fullscreen);
    assert_eq!(f64::from_bits(snapshot.speed), 1.5);
    assert_eq!(f64::from_bits(snapshot.time_position), 12.0);
    assert_eq!(snapshot.duration.map(f64::from_bits), Some(60.0));
    assert_eq!(snapshot.filename, "a.mkv");
    assert_eq!(snapshot.media_title, "A");
}

#[test]
fn snapshot_without_media_uses_defaults() {
    let unavailable = |name: &str| match name {
        "time-pos" | "duration" | "filename" | "media-title" => Err(engine("mpv request 9 failed: property unavailable")),
        "pause" => Ok(Some(IpcData::Boolean(false))),
        "core-idle" => Ok(Some(IpcData::Boolean(true))),
        other => healthy(other),
    };
    let snapshot = run_reader(BackendKind::Sidecar, unavailable).expect("snapshot");
    assert_eq!(snapshot.phase, PlaybackPhase::Idle);
    assert_eq!(snapshot.time_position, 0);
    assert_eq!(snapshot.duration, None);
    assert_eq!(snapshot.filename, "");
    assert_eq!(snapshot.media_title, "");
}

#[test]
fn snapshot_stops_at_the_first_failed_required_read() {
    let broken = |name: &str| match name {
        "mute" => Err(BackendError::NotReady),
        other => healthy(other),
    };
    assert_eq!(run_reader(BackendKind::Sidecar, broken).unwrap_err(), BackendError::NotReady);
    let other_error = |name: &str| match name {
        "duration" => Err(engine("mpv request 7 failed: error")),
        other => healthy(other),
    };
    assert_eq!(
        run_reader(BackendKind::Sidecar, other_error).unwrap_err(),
        engine("mpv request 7 failed: error")
    );
    let libmpv = run_reader(BackendKind::Libmpv, other_error).expect("libmpv ignores optional failures");
    assert_eq!(libmpv.duration, None);
}

#[test]
fn libmpv_is_created_for_embedded_playback() {
    let text_option = |name: &str, value: &str| EngineOption {
        name: name.to_string(),
        value: OptionValue::Text(value.to_string()),
    };
    let expected = vec![
        text_option("vo", "libmpv"),
        text_option("hwdec", "auto-safe"),
        text_option("config", "no"),
        text_option("keep-open", "yes"),
        text_option("idle", "yes"),
    ];
    assert_eq!(engine_options(None), expected);
    let mut with_window = expected.clone();
    with_window.push(EngineOption { name: "wid".into(), value: OptionValue::Integer(42) });
    assert_eq!(engine_options(Some(42)), with_window);
}

#[test]
fn libmpv_reads_each_property_as_its_kind() {
    assert_eq!(property_kind("pause"), ValueKind::Boolean);
    assert_eq!(property_kind("core-idle"), ValueKind::Boolean);
    assert_eq!(property_kind("volume"), ValueKind::Number);
    assert_eq!(property_kind("duration"), ValueKind::Number);
    assert_eq!(property_kind("media-title"), ValueKind::Text);
    assert_eq!(property_kind("definitely-not-an-mpv-property"), ValueKind::Text);
}

#[test]
fn libmpv_commands_and_updates() {
    let command = PlaybackCommand::new("seek", vec!["5".to_string()]);
    assert_eq!(command_words(command), vec!["seek".to_string(), "5".to_string()]);
    assert_eq!(load_words("a.mkv"), vec!["loadfile".to_string(), "a.mkv".to_string(), "replace".to_string()]);
    assert_eq!(quit_words(), vec!["quit".to_string()]);
    assert_eq!(
        property_action(PropertyUpdate { name: "sid".into(), value: PropertyValue::Unit }),
        ("sid".to_string(), PropertyAction::Delete)
    );
    assert_eq!(
        property_action(PropertyUpdate::boolean("pause", true)),
        ("pause".to_string(), PropertyAction::Assign(PropertyValue::Boolean(true)))
    );
    assert_eq!(
        property_error("volume", "invalid".to_string()),
        BackendError::InvalidProperty { property: "volume".into(), message: "invalid".into() }
    );
}
