use mcbridge::{
    bus_event, command_status, init, normalize_command, reader_step, startup_action,
    FanoutSession, JournalEvent, MinecraftConfig, MinecraftError, ReaderAction, SessionAction,
    SessionEvent, BUS_CAPACITY, DEFAULT_LOG_PATH, DEFAULT_SOCKET_PATH, DEFAULT_SYSTEMD_UNIT,
    POLL_INTERVAL_SECS, STATUS_NOT_FOUND, STATUS_OK, STATUS_SERVER_ERROR,
};
use tokio::sync::broadcast::error::{RecvError, TryRecvError};

fn configured() -> MinecraftConfig {
    MinecraftConfig {
        log_path: Some("/tmp/server.log".to_string()),
        socket_path: Some("/tmp/server.stdin".to_string()),
        systemd_unit: Some("game.service".to_string()),
    }
}

#[test]
fn command_gets_one_trailing_newline() {
    assert_eq!(normalize_command("say hello".to_string()), "say hello\n");
    assert_eq!(normalize_command("say hello\n".to_string()), "say hello\n");
    assert_eq!(normalize_command(String::new()), "\n");
    assert_eq!(normalize_command("a\n\n".to_string()), "a\n\n");
}

#[test]
fn command_request_writes_exact_bytes() {
    let control = init(None);
    let a = control.command_request("say hello".to_string());
    let b = control.command_request("say hello\n".to_string());
    assert_eq!(a.text.as_bytes(), b"say hello\n");
    assert_eq!(b.text.as_bytes(), b"say hello\n");
    assert_eq!(a.path, "/run/minecraft-server.stdin");
    assert_eq!(a.path, DEFAULT_SOCKET_PATH);
}

#[test]
fn command_request_uses_configured_path() {
    let control = init(Some(configured()));
    let r = control.command_request("stop".to_string());
    assert_eq!(r.path, "/tmp/server.stdin");
    assert_eq!(r.text, "stop\n");
}

#[test]
fn config_defaults_apply_per_field() {
    let control = init(None);
    assert_eq!(control.log_file(), "/var/lib/minecraft/logs/latest.log");
    assert_eq!(control.log_file(), DEFAULT_LOG_PATH);
    assert_eq!(control.journal_unit(), "minecraft-server.service");
    assert_eq!(control.journal_unit(), DEFAULT_SYSTEMD_UNIT);
    let partial = MinecraftConfig {
        log_path: None,
        socket_path: None,
        systemd_unit: Some("other.service".to_string()),
    };
    let control = init(Some(partial));
    assert_eq!(control.journal_unit(), "other.service");
    assert_eq!(control.log_file(), DEFAULT_LOG_PATH);
    let control = init(Some(configured()));
    assert_eq!(control.log_file(), "/tmp/server.log");
    let copy = control.clone();
    assert_eq!(copy.journal_unit(), "game.service");
    assert_eq!(copy.config.clone().unit(), "game.service");
}

#[test]
fn unset_config_sets_nothing() {
    let c = MinecraftConfig::unset();
    assert!(c.log_path.is_none() && c.socket_path.is_none() && c.systemd_unit.is_none());
    assert_eq!(c.control_input(), DEFAULT_SOCKET_PATH);
}

fn entry(unit: Option<&str>, message: Option<&str>) -> JournalEvent {
    JournalEvent::Entry {
        unit: unit.map(|s| s.to_string()),
        message: message.map(|s| s.to_string()),
    }
}

#[test]
fn reader_publishes_entries_of_the_target_unit() {
    let target = "minecraft-server.service".to_string();
    match reader_step(&target, entry(Some("minecraft-server.service"), Some("Player joined"))) {
        ReaderAction::Publish(s) => assert_eq!(s, "Player joined"),
        _ => panic!("expected a publish"),
    }
    match reader_step(&target, entry(Some("minecraft-server.service"), None)) {
        ReaderAction::Publish(s) => assert_eq!(s, ""),
        _ => panic!("expected a publish"),
    }
}

#[test]
fn reader_skips_other_units() {
    let target = "minecraft-server.service".to_string();
    assert!(matches!(
        reader_step(&target, entry(Some("sshd.service"), Some("login"))),
        ReaderAction::Skip
    ));
    assert!(matches!(
        reader_step(&target, entry(Some("minecraft-server"), Some("prefix only"))),
        ReaderAction::Skip
    ));
    assert!(matches!(reader_step(&target, entry(None, Some("no unit"))), ReaderAction::Skip));
}

#[test]
fn reader_reads_absent_unit_as_empty() {
    let target = String::new();
    match reader_step(&target, entry(None, Some("kernel line"))) {
        ReaderAction::Publish(s) => assert_eq!(s, "kernel line"),
        _ => panic!("expected a publish"),
    }
}

#[test]
fn reader_polls_and_stops() {
    let target = "x".to_string();
    match reader_step(&target, JournalEvent::Exhausted) {
        ReaderAction::Wait(n) => {
            assert_eq!(n, 1);
            assert_eq!(n, POLL_INTERVAL_SECS);
        }
        _ => panic!("expected a wait"),
    }
    assert!(matches!(reader_step(&target, JournalEvent::Failed), ReaderAction::Stop));
}

#[test]
fn reader_announces_startup() {
    match startup_action() {
        ReaderAction::Publish(s) => assert_eq!(s, "starting up"),
        _ => panic!("expected a publish"),
    }
}

#[test]
fn session_forwards_lines_and_counts_writes() {
    let mut s = FanoutSession::new();
    match s.step(SessionEvent::Line("hello".to_string())) {
        SessionAction::Forward(line) => assert_eq!(line, "hello"),
        _ => panic!("expected a forward"),
    }
    assert!(matches!(s.step(SessionEvent::Sent), SessionAction::Continue));
    assert!(matches!(s.step(SessionEvent::Inbound), SessionAction::Continue));
    assert_eq!(s.forwarded, 1);
    assert!(!s.is_ended());
}

#[test]
fn session_ends_on_client_close() {
    let mut s = FanoutSession::new();
    assert!(matches!(s.step(SessionEvent::InboundEnd), SessionAction::End));
    assert!(s.is_ended());
}

#[test]
fn session_ends_on_failed_write() {
    let mut s = FanoutSession::new();
    let _ = s.step(SessionEvent::Line("x".to_string()));
    assert!(matches!(s.step(SessionEvent::SendFailed), SessionAction::End));
    assert!(s.is_ended());
}

#[test]
fn session_ends_on_transport_error() {
    let mut s = FanoutSession::new();
    assert!(matches!(s.step(SessionEvent::InboundError), SessionAction::End));
    assert!(s.is_ended());
}

#[test]
fn session_ends_on_bus_close() {
    let mut s = FanoutSession::new();
    assert!(matches!(s.step(SessionEvent::BusClosed), SessionAction::End));
    assert!(s.is_ended());
}

#[test]
fn ended_session_stays_ended() {
    let mut s = FanoutSession::new();
    let _ = s.step(SessionEvent::InboundEnd);
    assert!(matches!(s.step(SessionEvent::Line("late".to_string())), SessionAction::End));
    assert!(matches!(s.step(SessionEvent::Lagged(3)), SessionAction::End));
    assert_eq!(s.missed, 0);
    assert!(s.is_ended());
}

#[test]
fn lag_does_not_end_session() {
    let mut s = FanoutSession::new();
    assert!(matches!(s.step(SessionEvent::Lagged(4)), SessionAction::Continue));
    assert!(matches!(s.step(SessionEvent::Lagged(u64::MAX)), SessionAction::Continue));
    assert_eq!(s.missed, u64::MAX);
    assert!(!s.is_ended());
    match s.step(SessionEvent::Line("newer".to_string())) {
        SessionAction::Forward(line) => assert_eq!(line, "newer"),
        _ => panic!("expected a forward"),
    }
}

#[test]
fn bus_results_become_session_events() {
    match bus_event(Ok("line".to_string())) {
        SessionEvent::Line(s) => assert_eq!(s, "line"),
        _ => panic!("expected a line"),
    }
    assert!(matches!(bus_event(Err(RecvError::Lagged(7))), SessionEvent::Lagged(7)));
    assert!(matches!(bus_event(Err(RecvError::Closed)), SessionEvent::BusClosed));
}

#[test]
fn publish_without_subscribers_is_harmless() {
    let control = init(None);
    for i in 0..10_000 {
        assert_eq!(control.publish(format!("line {i}")), 0);
    }
}

#[test]
fn fast_subscriber_sees_every_line_in_order() {
    let mut control = init(None);
    let mut rx = control.subscribe();
    for i in 0..100 {
        assert_eq!(control.publish(format!("line {i}")), 1);
        assert_eq!(rx.try_recv().unwrap(), format!("line {i}"));
    }
    assert_eq!(rx.try_recv(), Err(TryRecvError::Empty));
}

#[test]
fn slow_subscriber_sees_lag_then_newer_lines() {
    let mut control = init(None);
    let mut rx = control.subscribe();
    let total = BUS_CAPACITY + 4;
    for i in 0..total {
        control.publish(format!("line {i}"));
    }
    assert_eq!(rx.try_recv(), Err(TryRecvError::Lagged(4)));
    for i in 4..total {
        assert_eq!(rx.try_recv().unwrap(), format!("line {i}"));
    }
    assert_eq!(rx.try_recv(), Err(TryRecvError::Empty));
    control.publish("after".to_string());
    assert_eq!(rx.try_recv().unwrap(), "after");
}

#[test]
fn new_subscriber_sees_no_earlier_lines() {
    let mut control = init(None);
    let mut early = control.subscribe();
    control.publish("before".to_string());
    let mut late = control.subscribe();
    control.publish("after".to_string());
    assert_eq!(late.try_recv().unwrap(), "after");
    assert_eq!(late.try_recv(), Err(TryRecvError::Empty));
    assert_eq!(early.try_recv().unwrap(), "before");
    assert_eq!(early.try_recv().unwrap(), "after");
}

#[test]
fn failures_map_to_statuses() {
    let missing = std::io::Error::new(std::io::ErrorKind::NotFound, "no such file");
    let e = MinecraftError::from(missing);
    assert!(matches!(e, MinecraftError::LogError(_)));
    assert_eq!(e.status(), STATUS_NOT_FOUND);
    assert_eq!(e.status(), 404);
    let c = MinecraftError::CommandError("pipe closed".to_string());
    assert_eq!(c.status(), 500);
    assert_eq!(command_status(&Ok(true)), 200);
    assert_eq!(command_status(&Ok(true)), STATUS_OK);
    assert_eq!(command_status(&Err(c)), STATUS_SERVER_ERROR);
}
