use openvpn3_gui::app_state::AppState;
use openvpn3_gui::config::AppConfig;
use openvpn3_gui::manager::{
    auth_failure_reported, live_log_message, status_debug_text, CommandOutput, Event, Request,
    SessionManager,
};
use openvpn3_gui::model::{status_changed, ConnectionStatus, VpnCommand, VpnMessage};

const CONFIGS: &str = "Configuration Name          Last used\n------------------------------\nwork\nhome\n";

fn ok(stdout: &str) -> Event {
    Event::Output(Ok(CommandOutput {
        success: true,
        stdout: stdout.to_string(),
        stderr: String::new(),
    }))
}

fn failed(stdout: &str, stderr: &str) -> Event {
    Event::Output(Ok(CommandOutput {
        success: false,
        stdout: stdout.to_string(),
        stderr: stderr.to_string(),
    }))
}

fn cmd(c: VpnCommand) -> Event {
    Event::Tick(Some(c))
}

fn args(r: &Request) -> Vec<String> {
    match r {
        Request::Run(a) => a.clone(),
        Request::RunWithInput(a, _) => a.clone(),
        other => panic!("expected a run, got {:?}", other),
    }
}

fn strs(v: &[&str]) -> Vec<String> {
    v.iter().map(|s| s.to_string()).collect()
}

fn step(m: &mut SessionManager, e: Event) -> (Request, Vec<VpnMessage>) {
    assert!(m.accepts_event(&e), "event {:?} not awaited", e);
    let mut out = Vec::new();
    let r = m.step(e, &mut out);
    (r, out)
}

fn logs(msgs: &[VpnMessage]) -> Vec<String> {
    msgs.iter()
        .filter_map(|m| match m {
            VpnMessage::LogMessage(s) => Some(s.clone()),
            _ => None,
        })
        .collect()
}

fn errors(msgs: &[VpnMessage]) -> Vec<String> {
    msgs.iter()
        .filter_map(|m| match m {
            VpnMessage::Error(s) => Some(s.clone()),
            _ => None,
        })
        .collect()
}

fn sessions_out(path: &str, status: &str, created: &str) -> String {
    format!(
        "----\n        Path: {}\n     Created: {}\n      Status: {}\n----\n",
        path, created, status
    )
}

/// Starts a manager and answers the three start-up runs.
fn started() -> SessionManager {
    let mut m = SessionManager::new();
    let (r, msgs) = step(&mut m, Event::Start);
    assert_eq!(args(&r), strs(&["configs-list"]));
    assert!(msgs.is_empty());
    let (r, msgs) = step(&mut m, ok(CONFIGS));
    assert_eq!(args(&r), strs(&["sessions-list"]));
    match &msgs[0] {
        VpnMessage::ConfigsList(c) => assert_eq!(c.len(), 2),
        other => panic!("unexpected {:?}", other),
    }
    let (r, msgs) = step(&mut m, ok(""));
    assert_eq!(args(&r), strs(&["version"]));
    assert!(matches!(&msgs[0], VpnMessage::SessionsList(s) if s.is_empty()));
    let (r, msgs) = step(&mut m, ok(" openvpn3 v24 \n"));
    assert!(matches!(r, Request::Poll));
    assert!(matches!(&msgs[0], VpnMessage::VpnCliVersion(v) if v == "openvpn3 v24"));
    assert_eq!(logs(&msgs), strs(&["[MANAGER] Manager loop started."]));
    m
}

/// Brings a started manager to a monitored connection on `/s/abc`.
fn connected() -> SessionManager {
    let mut m = started();
    let (r, msgs) = step(&mut m, cmd(VpnCommand::Connect("work".to_string())));
    assert_eq!(args(&r), strs(&["session-start", "--config", "work"]));
    assert!(matches!(&msgs[0], VpnMessage::StatusUpdate(ConnectionStatus::Connecting)));
    assert_eq!(logs(&msgs), strs(&["[MANAGER] Attempting to connect using: work"]));
    let (r, msgs) = step(&mut m, ok("Session path: /s/abc\n"));
    assert_eq!(args(&r), strs(&["sessions-list"]));
    assert_eq!(
        logs(&msgs),
        strs(&[
            "[MANAGER] Session start output: Session path: /s/abc\n",
            "[MANAGER] Session started successfully. Path: /s/abc",
        ])
    );
    let (r, msgs) = step(
        &mut m,
        ok(&sessions_out("/s/abc", "Connection, Client connected", "10:00")),
    );
    // Monitoring is on: the status is refreshed at once.
    assert_eq!(args(&r), strs(&["sessions-list"]));
    match &msgs[0] {
        VpnMessage::StatusUpdate(ConnectionStatus::Connected { ip, duration }) => {
            assert_eq!(ip, "Assigned");
            assert_eq!(duration, "10:00");
        }
        other => panic!("unexpected {:?}", other),
    }
    let (r, msgs) = step(
        &mut m,
        ok(&sessions_out("/s/abc", "Connection, Client connected", "10:00")),
    );
    assert!(msgs.is_empty(), "an unchanged status is not announced again");
    assert_eq!(args(&r), strs(&["session-stats", "--session-path", "/s/abc"]));
    let (r, msgs) = step(&mut m, ok("BYTES_IN....5\n"));
    assert!(matches!(r, Request::SleepThenPoll));
    assert!(matches!(&msgs[0], VpnMessage::SessionStats(s) if s.bytes_in == 5));
    m
}

#[test]
fn full_connect_and_disconnect() {
    let mut m = connected();
    let (r, msgs) = step(&mut m, cmd(VpnCommand::Disconnect));
    assert_eq!(
        args(&r),
        strs(&["session-manage", "--session-path", "/s/abc", "--disconnect"])
    );
    assert!(matches!(&msgs[0], VpnMessage::StatusUpdate(ConnectionStatus::Disconnecting)));
    let (r, msgs) = step(&mut m, ok(""));
    assert!(matches!(r, Request::SleepThenPoll));
    assert_eq!(logs(&msgs), strs(&["[MANAGER] Disconnect command successful."]));
    assert!(matches!(
        msgs.last().unwrap(),
        VpnMessage::StatusUpdate(ConnectionStatus::Disconnected)
    ));
    assert!(matches!(m.get_status(), ConnectionStatus::Disconnected));
    // Statistics without a session only log.
    let (r, msgs) = step(&mut m, cmd(VpnCommand::GetSessionStats));
    assert!(matches!(r, Request::SleepThenPoll));
    assert_eq!(
        logs(&msgs),
        strs(&["[MANAGER] Get session stats called but no active session."])
    );
}

#[test]
fn disconnect_without_session() {
    let mut m = started();
    let (r, msgs) = step(&mut m, cmd(VpnCommand::Disconnect));
    assert!(matches!(r, Request::SleepThenPoll));
    assert_eq!(
        logs(&msgs),
        strs(&["[MANAGER] Disconnect called but no active session path found."])
    );
    assert!(matches!(
        msgs.last().unwrap(),
        VpnMessage::StatusUpdate(ConnectionStatus::Disconnected)
    ));
}

#[test]
fn connect_is_refused_while_connected() {
    let mut m = connected();
    let (_, msgs) = step(&mut m, cmd(VpnCommand::Connect("home".to_string())));
    let reason = "Cannot connect: Already connected or in an intermediate state (Connected { ip: \"Assigned\", duration: \"10:00\" })";
    assert_eq!(
        errors(&msgs),
        vec![format!("Connection failed for 'home': {}", reason)]
    );
    match m.get_status() {
        ConnectionStatus::Error(e) => assert_eq!(e, reason),
        other => panic!("unexpected {:?}", other),
    }
}

#[test]
fn connect_by_object_path_uses_config_path() {
    let mut m = started();
    let id = "/net/openvpn/v3/configuration/xyz";
    let (r, _) = step(&mut m, cmd(VpnCommand::Connect(id.to_string())));
    assert_eq!(args(&r), strs(&["session-start", "--config-path", id]));
}

#[test]
fn authentication_is_requested() {
    let mut m = started();
    step(&mut m, cmd(VpnCommand::Connect("work".to_string())));
    let (r, msgs) = step(&mut m, failed("Session path: /s/1\n", "AUTH-USER-PASS needed"));
    match &msgs[0] {
        VpnMessage::StatusUpdate(ConnectionStatus::AuthenticationRequired { session_path, prompt }) => {
            assert_eq!(session_path, "/s/1");
            assert_eq!(prompt, "Authentication required for work. Details: AUTH-USER-PASS needed");
        }
        other => panic!("unexpected {:?}", other),
    }
    match &msgs[1] {
        VpnMessage::AuthenticationPrompt { session_path, prompt } => {
            assert_eq!(session_path, "/s/1");
            assert_eq!(prompt, "Credentials needed for work. Error: AUTH-USER-PASS needed");
        }
        other => panic!("unexpected {:?}", other),
    }
    assert!(errors(&msgs).is_empty());
    // The connection counts as started: monitoring refreshes the status.
    assert_eq!(args(&r), strs(&["sessions-list"]));

    // Answering the prompt.
    step(&mut m, ok(""));
    let mut m2 = started();
    let (r, msgs) = step(
        &mut m2,
        cmd(VpnCommand::SubmitAuthentication {
            session_path: "/s/1".to_string(),
            response: "secret".to_string(),
        }),
    );
    match r {
        Request::RunWithInput(a, input) => {
            assert_eq!(a, strs(&["session-manage", "--session-path", "/s/1", "--password-prompt"]));
            assert_eq!(input, "secret");
        }
        other => panic!("unexpected {:?}", other),
    }
    assert_eq!(
        logs(&msgs),
        strs(&["[MANAGER] Submitting authentication for session: /s/1"])
    );
    let (_, msgs) = step(&mut m2, failed("", "nope"));
    assert!(matches!(&msgs[0], VpnMessage::StatusUpdate(ConnectionStatus::Error(e)) if e == "Authentication failed: nope"));
    assert_eq!(
        errors(&msgs),
        strs(&["Authentication failed: Authentication submission failed for /s/1: nope"])
    );
}

#[test]
fn failed_session_start_is_an_error() {
    let mut m = started();
    step(&mut m, cmd(VpnCommand::Connect("work".to_string())));
    let (_, msgs) = step(&mut m, failed("", "boom"));
    assert!(matches!(&msgs[0], VpnMessage::StatusUpdate(ConnectionStatus::Error(e)) if e == "boom"));
    assert_eq!(
        errors(&msgs),
        strs(&["Connection failed for 'work': Failed to start session: boom"])
    );
    match m.get_status() {
        ConnectionStatus::Error(e) => assert_eq!(e, "Failed to start session: boom"),
        other => panic!("unexpected {:?}", other),
    }
}

#[test]
fn start_up_failures_are_reported() {
    let mut m = SessionManager::new();
    step(&mut m, Event::Start);
    let (_, msgs) = step(&mut m, Event::Output(Err("No such file or directory".to_string())));
    assert_eq!(
        errors(&msgs),
        strs(&["Failed to load initial configs: No such file or directory"])
    );
    assert_eq!(
        logs(&msgs),
        strs(&["[MANAGER ERROR] Failed to load initial configs: No such file or directory"])
    );
    let (_, msgs) = step(&mut m, failed("", "denied"));
    assert_eq!(
        errors(&msgs),
        strs(&["Failed to load initial sessions: Failed to list sessions: denied"])
    );
    let (_, msgs) = step(&mut m, failed("", "x"));
    assert_eq!(
        errors(&msgs),
        strs(&["Failed to get OpenVPN3 CLI version: Failed to get VPN CLI version: x"])
    );
}

#[test]
fn disabled_manager_logging_is_silent() {
    let mut m = started();
    let (r, msgs) = step(&mut m, cmd(VpnCommand::DisableManagerLogBuffer));
    assert!(matches!(r, Request::SleepThenPoll));
    assert!(msgs.is_empty());
    step(&mut m, cmd(VpnCommand::ListConfigs));
    let (_, msgs) = step(&mut m, failed("", "bad"));
    assert!(logs(&msgs).is_empty());
    assert_eq!(errors(&msgs), strs(&["Failed to list configs: Failed to list configs: bad"]));
    let (_, msgs) = step(&mut m, cmd(VpnCommand::EnableManagerLogBuffer));
    assert_eq!(logs(&msgs), strs(&["[MANAGER] Manager log buffer enabled."]));
}

#[test]
fn live_log_start_restart_and_stop() {
    let mut m = started();
    let (r, msgs) = step(&mut m, cmd(VpnCommand::StartLiveVpnLogs));
    assert!(matches!(r, Request::SpawnLiveLog));
    assert_eq!(logs(&msgs), strs(&["[MANAGER] Starting live VPN log streaming..."]));
    let (r, _) = step(&mut m, Event::Spawned(Ok(())));
    assert!(matches!(r, Request::SleepThenPoll));
    let (r, _) = step(&mut m, cmd(VpnCommand::StartLiveVpnLogs));
    assert!(matches!(r, Request::KillLiveLog));
    let (r, msgs) = step(&mut m, Event::Killed(Ok(())));
    assert!(matches!(r, Request::SpawnLiveLog));
    assert_eq!(
        logs(&msgs),
        strs(&[
            "[MANAGER] Live VPN log streaming stopped.",
            "[MANAGER] Starting live VPN log streaming...",
        ])
    );
    let (_, msgs) = step(&mut m, Event::Spawned(Err("spawn failed".to_string())));
    assert_eq!(errors(&msgs), strs(&["Failed to start live VPN logs: spawn failed"]));
    // Not running: stopping does nothing.
    let (r, msgs) = step(&mut m, cmd(VpnCommand::StopLiveVpnLogs));
    assert!(matches!(r, Request::SleepThenPoll));
    assert!(msgs.is_empty());
}

#[test]
fn live_log_kill_failure() {
    let mut m = started();
    step(&mut m, cmd(VpnCommand::StartLiveVpnLogs));
    step(&mut m, Event::Spawned(Ok(())));
    let (r, _) = step(&mut m, cmd(VpnCommand::StopLiveVpnLogs));
    assert!(matches!(r, Request::KillLiveLog));
    let (_, msgs) = step(&mut m, Event::Killed(Err("gone".to_string())));
    assert_eq!(
        errors(&msgs),
        strs(&["Failed to stop live VPN logs: Failed to kill 'openvpn3 log' process: gone"])
    );
}

#[test]
fn shutdown_ends_the_loop() {
    let mut m = started();
    let (r, msgs) = step(&mut m, cmd(VpnCommand::Shutdown));
    assert!(matches!(r, Request::Exit));
    assert_eq!(
        logs(&msgs),
        strs(&["[MANAGER] Shutdown command received.", "[MANAGER] Manager loop terminated."])
    );
    assert!(!m.accepts_event(&Event::Tick(None)));
}

#[test]
fn shutdown_stops_the_live_log_first() {
    let mut m = started();
    step(&mut m, cmd(VpnCommand::StartLiveVpnLogs));
    step(&mut m, Event::Spawned(Ok(())));
    let (r, _) = step(&mut m, cmd(VpnCommand::Shutdown));
    assert!(matches!(r, Request::KillLiveLog));
    let (r, msgs) = step(&mut m, Event::Killed(Err("ignored".to_string())));
    assert!(matches!(r, Request::Exit));
    assert!(errors(&msgs).is_empty());
}

#[test]
fn import_remove_and_dump() {
    let mut m = started();
    let (r, _) = step(
        &mut m,
        cmd(VpnCommand::ImportConfig("/tmp/a.ovpn".to_string(), "a".to_string())),
    );
    assert_eq!(
        args(&r),
        strs(&["config-import", "--config", "/tmp/a.ovpn", "--name", "a", "--persistent"])
    );
    let (r, msgs) = step(&mut m, ok("Configuration imported"));
    assert!(matches!(&msgs[0], VpnMessage::ConfigImported(s) if s == "Configuration imported"));
    assert_eq!(args(&r), strs(&["configs-list"]));
    let (r, msgs) = step(&mut m, ok(CONFIGS));
    assert!(matches!(r, Request::SleepThenPoll));
    assert!(matches!(&msgs[0], VpnMessage::ConfigsList(_)));

    step(&mut m, cmd(VpnCommand::ImportConfig("p".to_string(), "n".to_string())));
    let (_, msgs) = step(&mut m, failed("", "bad"));
    assert_eq!(
        errors(&msgs),
        strs(&["Failed to import config 'n': Failed to import config 'n': bad"])
    );

    let (r, _) = step(&mut m, cmd(VpnCommand::RemoveConfig("work".to_string())));
    assert_eq!(args(&r), strs(&["config-remove", "--name", "work"]));
    let (r, msgs) = step(&mut m, ok(""));
    assert_eq!(logs(&msgs), strs(&["[MANAGER] Config removed: work"]));
    assert_eq!(args(&r), strs(&["configs-list"]));
    step(&mut m, ok(CONFIGS));

    let path = "/net/openvpn/v3/configuration/q";
    let (r, _) = step(&mut m, cmd(VpnCommand::RemoveConfig(path.to_string())));
    assert_eq!(args(&r), strs(&["config-remove", "--path", path]));
    step(&mut m, failed("", "x"));

    let (r, _) = step(&mut m, cmd(VpnCommand::DumpConfig("home".to_string())));
    assert_eq!(args(&r), strs(&["config-dump", "--config", "home"]));
    let (_, msgs) = step(&mut m, ok("remote vpn 1194"));
    match &msgs[0] {
        VpnMessage::ConfigDumped { name, content } => {
            assert_eq!(name, "home");
            assert_eq!(content, "remote vpn 1194");
        }
        other => panic!("unexpected {:?}", other),
    }
    let (r, _) = step(&mut m, cmd(VpnCommand::DumpConfig(path.to_string())));
    assert_eq!(args(&r), strs(&["config-dump", "--path", path]));
    let (_, msgs) = step(&mut m, ok("x"));
    assert!(matches!(&msgs[0], VpnMessage::ConfigDumped { name, .. } if name == path));
}

#[test]
fn monitoring_stops_when_the_session_disappears() {
    let mut m = connected();
    let (r, _) = step(&mut m, Event::Tick(None));
    assert_eq!(args(&r), strs(&["sessions-list"]));
    let (r, msgs) = step(&mut m, ok(""));
    assert!(matches!(r, Request::SleepThenPoll));
    assert!(matches!(&msgs[0], VpnMessage::StatusUpdate(ConnectionStatus::Disconnected)));
    assert_eq!(logs(&msgs), strs(&["[MANAGER] Disabling active monitoring."]));
    // With monitoring off, an idle round only sleeps.
    let (r, msgs) = step(&mut m, Event::Tick(None));
    assert!(matches!(r, Request::SleepThenPoll));
    assert!(msgs.is_empty());
}

#[test]
fn user_interface_follows_the_manager_status() {
    let mut m = SessionManager::new();
    let mut ui = AppState::new(AppConfig::default());
    let mut events = vec![
        Event::Start,
        ok(CONFIGS),
        ok(""),
        ok("v"),
        cmd(VpnCommand::Connect("work".to_string())),
        failed("Session path: /s/9\n", "Authentication failed"),
        ok(&sessions_out("/s/9", "Connection, Client connecting", "t")),
        Event::Tick(None),
        cmd(VpnCommand::Connect("work".to_string())),
        ok("Session path: /s/9\n"),
        ok(&sessions_out("/s/9", "Connection, Client connected", "t")),
        ok(&sessions_out("/s/9", "Connection, Client connected", "t")),
        failed("", "stats"),
        cmd(VpnCommand::Disconnect),
        Event::Output(Err("io".to_string())),
    ];
    for e in events.drain(..) {
        let (_, msgs) = step(&mut m, e);
        for msg in msgs {
            ui.apply_message(msg, "12:00:00");
        }
        assert_eq!(ui.connection_status, m.get_status());
    }
}

#[test]
fn live_log_lines() {
    match live_log_message("hello".to_string(), false) {
        VpnMessage::LogMessage(s) => assert_eq!(s, "hello"),
        other => panic!("unexpected {:?}", other),
    }
    match live_log_message("oops".to_string(), true) {
        VpnMessage::LogMessage(s) => assert_eq!(s, "[openvpn3 log err] oops"),
        other => panic!("unexpected {:?}", other),
    }
}

#[test]
fn status_change_and_debug_text() {
    let a = ConnectionStatus::Connected { ip: "1".to_string(), duration: "d".to_string() };
    let b = ConnectionStatus::Connected { ip: "1".to_string(), duration: "e".to_string() };
    assert!(!status_changed(&a, &a.clone()));
    assert!(status_changed(&a, &b));
    assert!(status_changed(&ConnectionStatus::Connecting, &ConnectionStatus::Disconnected));
    assert!(!status_changed(&ConnectionStatus::Connecting, &ConnectionStatus::Connecting));
    assert!(status_changed(
        &ConnectionStatus::Error("x".to_string()),
        &ConnectionStatus::Error("y".to_string())
    ));
    assert_eq!(status_debug_text(&a), format!("{:?}", a));
    let auth = ConnectionStatus::AuthenticationRequired {
        session_path: "/p".to_string(),
        prompt: "say \"hi\"".to_string(),
    };
    assert_eq!(status_debug_text(&auth), format!("{:?}", auth));
    let err = ConnectionStatus::Error("e\n".to_string());
    assert_eq!(status_debug_text(&err), format!("{:?}", err));
    assert_eq!(status_debug_text(&ConnectionStatus::Disconnecting), "Disconnecting");
    assert!(a == a.clone());
    assert!(a != b);
}

#[test]
fn a_command_that_cannot_run_is_answered() {
    let mut m = started();
    step(&mut m, cmd(VpnCommand::ListConfigs));
    let (r, msgs) = step(&mut m, Event::Output(Err("No such file or directory".to_string())));
    assert!(matches!(r, Request::SleepThenPoll));
    assert_eq!(
        errors(&msgs),
        strs(&["Failed to list configs: No such file or directory"])
    );
    assert!(matches!(&msgs[0], VpnMessage::Error(_)));
    step(&mut m, cmd(VpnCommand::DumpConfig("home".to_string())));
    let (_, msgs) = step(&mut m, Event::Output(Err("denied".to_string())));
    assert_eq!(errors(&msgs), strs(&["Failed to dump config 'home': denied"]));
}

#[test]
fn unclear_session_status_is_logged_while_logging_is_on() {
    let mut m = started();
    let mut out = Vec::new();
    let s = m.parse_status_from_session_output("weird output", "/s/9", &mut out);
    assert!(matches!(s, ConnectionStatus::Connecting));
    assert_eq!(
        logs(&out),
        strs(&["[MANAGER] Could not determine clear status from session output for /s/9. Output: weird output"])
    );
    assert_eq!(out.len(), 1);
    assert!(matches!(m.get_status(), ConnectionStatus::Disconnected));

    let mut out = Vec::new();
    let s = m.parse_status_from_session_output("Status: Connected\nVirtual IP: 10.8.0.2\n", "/s/9", &mut out);
    assert!(matches!(s, ConnectionStatus::Connected { ref ip, .. } if ip == "10.8.0.2"));
    assert!(out.is_empty());

    step(&mut m, cmd(VpnCommand::DisableManagerLogBuffer));
    let mut out = Vec::new();
    let s = m.parse_status_from_session_output("weird output", "/s/9", &mut out);
    assert!(matches!(s, ConnectionStatus::Connecting));
    assert!(out.is_empty());
}

/// Runs `events` from a fresh started manager and collects every message.
fn run_all(events: Vec<Event>) -> (SessionManager, Vec<String>) {
    let mut m = started();
    let mut all = Vec::new();
    for e in events {
        let (_, msgs) = step(&mut m, e);
        for x in msgs {
            all.push(format!("{:?}", x));
        }
    }
    (m, all)
}

fn auth_run(response: &str) -> Vec<Event> {
    vec![
        cmd(VpnCommand::SubmitAuthentication {
            session_path: "/s/1".to_string(),
            response: response.to_string(),
        }),
        ok("done"),
        ok(""),
    ]
}

#[test]
fn submitted_response_never_reaches_a_message() {
    let (m1, msgs1) = run_all(auth_run("hunter2"));
    let (m2, msgs2) = run_all(auth_run("correct horse"));
    assert_eq!(msgs1, msgs2);
    assert!(!msgs1.is_empty());
    assert!(msgs1.iter().all(|s| !s.contains("hunter2")));
    assert_eq!(format!("{:?}", m1.get_status()), format!("{:?}", m2.get_status()));
}

#[test]
fn manager_logging_off_stays_silent_until_switched_on() {
    let mut m = started();
    let (_, msgs) = step(&mut m, cmd(VpnCommand::DisableManagerLogBuffer));
    assert!(logs(&msgs).is_empty());
    let (_, msgs) = step(&mut m, cmd(VpnCommand::Connect("work".to_string())));
    assert!(logs(&msgs).is_empty());
    let (_, msgs) = step(&mut m, failed("", "boom"));
    assert!(logs(&msgs).is_empty());
    assert_eq!(errors(&msgs), strs(&["Connection failed for 'work': Failed to start session: boom"]));
    let (_, msgs) = step(&mut m, cmd(VpnCommand::StartLiveVpnLogs));
    assert!(logs(&msgs).is_empty());
    let (_, msgs) = step(&mut m, Event::Spawned(Ok(())));
    assert!(logs(&msgs).is_empty());
    let (_, msgs) = step(&mut m, cmd(VpnCommand::EnableManagerLogBuffer));
    assert_eq!(logs(&msgs), strs(&["[MANAGER] Manager log buffer enabled."]));
    let (_, msgs) = step(&mut m, cmd(VpnCommand::StopLiveVpnLogs));
    assert_eq!(logs(&msgs), strs(&["[MANAGER] Stopping live VPN log streaming..."]));
}

#[test]
fn stopping_live_logs_twice_is_stopping_once() {
    let mut m = started();
    step(&mut m, cmd(VpnCommand::StartLiveVpnLogs));
    step(&mut m, Event::Spawned(Ok(())));
    let (r, _) = step(&mut m, cmd(VpnCommand::StopLiveVpnLogs));
    assert!(matches!(r, Request::KillLiveLog));
    let (r, msgs) = step(&mut m, Event::Killed(Err("no such process".to_string())));
    assert!(matches!(r, Request::SleepThenPoll));
    assert!(matches!(&msgs[0], VpnMessage::Error(e) if e.starts_with("Failed to stop live VPN logs: ")));
    // The second stop finds nothing running: an ordinary round, no message.
    let (r, msgs) = step(&mut m, cmd(VpnCommand::StopLiveVpnLogs));
    assert!(matches!(r, Request::SleepThenPoll));
    assert!(msgs.is_empty());
    let (r, msgs) = step(&mut m, Event::Tick(None));
    assert!(matches!(r, Request::SleepThenPoll));
    assert!(msgs.is_empty());
}

#[test]
fn auth_failure_is_recognised_in_lowered_text() {
    assert!(auth_failure_reported("error: authentication failed"));
    assert!(auth_failure_reported("need auth-user-pass"));
    assert!(!auth_failure_reported("AUTHENTICATION FAILED"));
    assert!(!auth_failure_reported("connection refused"));
}
