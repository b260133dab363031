use keep_alive::config::{ProberConfig, DEFAULT_INTERVAL_SECS};
use keep_alive::cycle::{next, replay, Command, Event, Phase, Prober};
use keep_alive::log_entry::{Level, LogEntry, Stamp};
use keep_alive::signatures::{CreateSignatureRequest, Signature, SignaturesResponse};
use keep_alive::status::{classify_heartbeat, is_success, HeartbeatOutcome};

fn stamp(minute: u8, second: u8) -> Stamp {
    Stamp { year: 2024, month: 3, day: 9, hour: 14, minute, second }
}

fn sample_body() -> SignaturesResponse {
    SignaturesResponse {
        combined_velocity: 5,
        layer_dimensions: vec![800, 600],
        strategy: "grid".to_string(),
        signatures: vec![Signature { image: "abc".to_string(), seed: "xyz".to_string() }],
    }
}

fn is_get(c: &Command) -> bool {
    matches!(c, Command::GetHeartbeat)
}

fn is_post(c: &Command) -> bool {
    matches!(c, Command::PostSignatures { body: CreateSignatureRequest { save: false } })
}

fn is_sleep(c: &Command, secs: u64) -> bool {
    matches!(c, Command::Sleep { secs: s } if *s == secs)
}

fn full_cycle(at: Stamp, heartbeat: u16, warm_up: u16, body: Option<Result<SignaturesResponse, String>>) -> Vec<Event> {
    let mut events = vec![
        Event::CycleBegan { at },
        Event::HeartbeatReplied { status: heartbeat, elapsed_ms: 12 },
        Event::WarmUpReplied { status: warm_up, elapsed_ms: 40 },
    ];
    if let Some(body) = body {
        events.push(Event::BodyDecoded { at, elapsed_ms: 45, body });
    }
    events
}

#[test]
fn heartbeat_no_content_is_received() {
    assert_eq!(classify_heartbeat(204), HeartbeatOutcome::Received);
}

#[test]
fn heartbeat_other_statuses_fail() {
    assert_eq!(classify_heartbeat(200), HeartbeatOutcome::Failed);
    assert_eq!(classify_heartbeat(503), HeartbeatOutcome::Failed);
    assert_eq!(classify_heartbeat(201), HeartbeatOutcome::Failed);
}

#[test]
fn success_class_edges() {
    assert!(!is_success(199));
    assert!(is_success(200));
    assert!(is_success(201));
    assert!(is_success(299));
    assert!(!is_success(300));
    assert!(!is_success(500));
}

#[test]
fn heartbeat_status_200_logged_as_failed_warning() {
    let step = next(180, Phase::AwaitingHeartbeat { at: stamp(0, 1) }, Event::HeartbeatReplied { status: 200, elapsed_ms: 9 });
    let entry = step.log.expect("a record");
    assert!(matches!(entry, LogEntry::HeartbeatFailed { elapsed_ms: 9, status: 200, .. }));
    assert_eq!(entry.level(), Level::Warn);
    assert!(!entry.is_success());
    assert_eq!(entry.status(), Some(200));
}

#[test]
fn heartbeat_status_204_logged_as_received() {
    let step = next(180, Phase::AwaitingHeartbeat { at: stamp(0, 1) }, Event::HeartbeatReplied { status: 204, elapsed_ms: 9 });
    let entry = step.log.expect("a record");
    assert!(matches!(entry, LogEntry::HeartbeatReceived { elapsed_ms: 9, .. }));
    assert_eq!(entry.level(), Level::Info);
    assert!(entry.is_success());
    assert_eq!(step.phase, Phase::AwaitingWarmUp);
    assert!(is_post(&step.command.expect("a command")));
}

#[test]
fn warm_up_201_with_full_body_logs_success() {
    let (phase, logs, commands) = replay(180, Phase::Idle, full_cycle(stamp(0, 0), 204, 201, Some(Ok(sample_body()))));
    assert_eq!(phase, Phase::Idle);
    assert_eq!(logs.len(), 3);
    assert!(matches!(logs[2], LogEntry::SignaturesReceived { elapsed_ms: 45, .. }));
    assert_eq!(logs[2].level(), Level::Info);
    assert!(logs[2].is_success());
    assert_eq!(commands.len(), 4);
    assert!(matches!(commands[2], Command::DecodeBody));
    assert!(is_sleep(&commands[3], 180));
}

#[test]
fn warm_up_200_with_empty_body_logs_decode_warning() {
    let err = "missing field `combinedVelocity`".to_string();
    let (phase, logs, commands) = replay(180, Phase::Idle, full_cycle(stamp(0, 0), 204, 200, Some(Err(err.clone()))));
    assert_eq!(phase, Phase::Idle);
    assert_eq!(logs.len(), 3);
    match &logs[2] {
        LogEntry::SignaturesUndecodable { detail, elapsed_ms, .. } => {
            assert_eq!(detail, &err);
            assert_eq!(*elapsed_ms, 45);
        }
        other => panic!("unexpected record {:?}", other),
    }
    assert_eq!(logs[2].level(), Level::Warn);
    assert!(!logs[2].is_success());
    assert!(is_sleep(&commands[3], 180));
}

#[test]
fn warm_up_500_logs_error_without_decoding() {
    let (phase, logs, commands) = replay(180, Phase::Idle, full_cycle(stamp(0, 0), 204, 500, None));
    assert_eq!(phase, Phase::Idle);
    assert_eq!(logs.len(), 3);
    assert!(matches!(logs[2], LogEntry::WarmUpRejected { status: 500, elapsed_ms: 40 }));
    assert_eq!(logs[2].level(), Level::Error);
    assert_eq!(logs[2].status(), Some(500));
    assert_eq!(commands.len(), 3);
    assert!(commands.iter().all(|c| !matches!(c, Command::DecodeBody)));
    assert!(is_sleep(&commands[2], 180));
}

#[test]
fn warm_up_transport_failure_is_not_fatal() {
    let events = vec![
        Event::CycleBegan { at: stamp(0, 0) },
        Event::HeartbeatReplied { status: 204, elapsed_ms: 10 },
        Event::WarmUpUnreachable { elapsed_ms: 30000, detail: "timed out".to_string() },
        Event::CycleBegan { at: stamp(3, 0) },
    ];
    let (phase, logs, commands) = replay(180, Phase::Idle, events);
    assert_eq!(phase, Phase::AwaitingHeartbeat { at: stamp(3, 0) });
    assert!(matches!(&logs[2], LogEntry::WarmUpUnreachable { elapsed_ms: 30000, detail } if detail == "timed out"));
    assert_eq!(logs[2].level(), Level::Error);
    assert!(is_sleep(&commands[2], 180));
    assert!(is_get(&commands[3]));
}

#[test]
fn heartbeat_transport_failure_stops_the_prober() {
    let mut prober = Prober::new(ProberConfig::standard());
    let (log, command) = prober.handle(Event::CycleBegan { at: stamp(0, 0) });
    assert!(matches!(log, Some(LogEntry::CycleStarted { .. })));
    assert!(is_get(&command.expect("a command")));
    let (log, command) = prober.handle(Event::HeartbeatUnreachable { detail: "dns error".to_string() });
    assert!(log.is_none());
    assert!(matches!(command, Some(Command::Stop { detail }) if detail == "dns error"));
    assert!(prober.is_halted());
    let (log, command) = prober.handle(Event::CycleBegan { at: stamp(3, 0) });
    assert!(log.is_none());
    assert!(command.is_none());
    assert!(prober.is_halted());
}

#[test]
fn two_requests_per_cycle_in_order() {
    for status in [204u16, 200, 503] {
        let (_, _, commands) = replay(180, Phase::Idle, full_cycle(stamp(0, 0), status, 500, None));
        let requests: Vec<&Command> = commands.iter().filter(|c| is_get(c) || is_post(c)).collect();
        assert_eq!(requests.len(), 2);
        assert!(is_get(requests[0]));
        assert!(is_post(requests[1]));
    }
}

#[test]
fn sleeps_the_configured_interval() {
    let config = ProberConfig::standard();
    assert_eq!(config.interval_secs, DEFAULT_INTERVAL_SECS);
    assert_eq!(config.interval_secs, 180);
    let mut prober = Prober::new(config);
    prober.handle(Event::CycleBegan { at: stamp(0, 0) });
    prober.handle(Event::HeartbeatReplied { status: 204, elapsed_ms: 90000 });
    let (_, command) = prober.handle(Event::WarmUpReplied { status: 404, elapsed_ms: 120000 });
    assert!(is_sleep(&command.expect("a command"), 180));

    let custom = Prober::new(ProberConfig::new("http://localhost:8080".to_string(), 7, 5));
    let mut custom = custom;
    custom.handle(Event::CycleBegan { at: stamp(0, 0) });
    custom.handle(Event::HeartbeatReplied { status: 204, elapsed_ms: 1 });
    let (_, command) = custom.handle(Event::WarmUpUnreachable { elapsed_ms: 2, detail: "refused".to_string() });
    assert!(is_sleep(&command.expect("a command"), 7));
}

#[test]
fn repeated_cycles_log_alike() {
    let mut events = Vec::new();
    for n in 0..3u8 {
        events.extend(full_cycle(stamp(n * 3, n), 503, 201, Some(Ok(sample_body()))));
    }
    let (phase, logs, commands) = replay(180, Phase::Idle, events);
    assert_eq!(phase, Phase::Idle);
    assert_eq!(logs.len(), 9);
    assert_eq!(commands.len(), 12);
    for n in 0..3 {
        assert!(matches!(logs[3 * n], LogEntry::CycleStarted { .. }));
        assert!(matches!(logs[3 * n + 1], LogEntry::HeartbeatFailed { status: 503, .. }));
        assert!(matches!(logs[3 * n + 2], LogEntry::SignaturesReceived { .. }));
        assert!(is_get(&commands[4 * n]));
        assert!(is_post(&commands[4 * n + 1]));
        assert!(matches!(commands[4 * n + 2], Command::DecodeBody));
        assert!(is_sleep(&commands[4 * n + 3], 180));
    }
    assert!(matches!(logs[3], LogEntry::CycleStarted { at } if at == stamp(3, 1)));
}

#[test]
fn events_out_of_turn_change_nothing() {
    let step = next(180, Phase::Idle, Event::WarmUpReplied { status: 200, elapsed_ms: 1 });
    assert_eq!(step.phase, Phase::Idle);
    assert!(step.log.is_none());
    assert!(step.command.is_none());
    let step = next(180, Phase::AwaitingWarmUp, Event::CycleBegan { at: stamp(0, 0) });
    assert_eq!(step.phase, Phase::AwaitingWarmUp);
    assert!(step.command.is_none());
}

#[test]
fn urls_are_built_from_the_base() {
    let config = ProberConfig::standard();
    assert_eq!(config.heartbeat_url(), "https://particles-on-canvas.onrender.com/heartbeat");
    assert_eq!(config.signatures_url(), "https://particles-on-canvas.onrender.com/signatures/create");
    let local = ProberConfig::new("http://127.0.0.1:9000".to_string(), 180, 10);
    assert_eq!(local.heartbeat_url(), "http://127.0.0.1:9000/heartbeat");
    assert_eq!(local.request_timeout_secs, 10);
}

#[test]
fn warm_up_body_asks_not_to_save() {
    assert!(!CreateSignatureRequest::warm_up().save);
}
