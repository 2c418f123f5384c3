use openvpn3_gui::app_state::{
    config_identifier, current_time, log_style, status_display, ActiveTab, AppState, LogStyle,
    StatusColor,
};
use openvpn3_gui::config::AppConfig;
use openvpn3_gui::model::{ConfigProfile, ConnectionStatus, VpnCommand, VpnMessage};

fn state() -> AppState {
    AppState::new(AppConfig::default())
}

fn profile(name: &str, path: &str) -> ConfigProfile {
    ConfigProfile {
        path: path.to_string(),
        name: name.to_string(),
        import_time: "N/A".to_string(),
        owner: "N/A".to_string(),
        valid: true,
    }
}

#[test]
fn default_settings() {
    let c = AppConfig::default();
    assert!(c.configs.is_empty());
    assert!(c.last_used_config.is_none());
    assert!(!c.auto_start);
    assert!(c.minimize_to_tray);
}

#[test]
fn new_state() {
    let s = state();
    assert_eq!(s.active_tab, ActiveTab::Connection);
    assert!(matches!(s.connection_status, ConnectionStatus::Disconnected));
    assert!(s.manager_log_buffer_active);
    assert!(!s.live_vpn_logs_active);
    assert!(!s.manager_started);
    assert!(s.log_messages.is_empty());
}

#[test]
fn log_is_stamped_and_bounded() {
    let mut s = state();
    s.add_log_entry("10:00:00", "hello");
    assert_eq!(s.log_messages, vec!["[10:00:00] hello".to_string()]);
    for i in 0..1005 {
        s.add_log_entry("10:00:01", &format!("line {}", i));
    }
    assert_eq!(s.log_messages.len(), 1000);
    assert_eq!(s.log_messages[0], "[10:00:01] line 5");
    assert_eq!(s.log_messages[999], "[10:00:01] line 1004");
}

#[test]
fn errors_are_recorded_bounded_and_critical_ones_shown() {
    let mut s = state();
    s.add_error_entry("09:00:00", "minor");
    assert!(!s.show_error_dialog);
    assert_eq!(s.recent_errors, vec!["[09:00:00] 🔴 CRITICAL ERROR: minor".to_string()]);
    assert_eq!(s.log_messages, s.recent_errors);
    s.add_error_entry("09:00:01", "Connection failed for 'x': y");
    assert!(s.show_error_dialog);
    assert_eq!(s.current_error_message, "Connection failed for 'x': y");
    for i in 0..20 {
        s.add_error_entry("09:00:02", &format!("e{}", i));
    }
    assert_eq!(s.recent_errors.len(), 10);
    assert_eq!(s.recent_errors[0], "[09:00:02] 🔴 CRITICAL ERROR: e10");
    let (shown, more) = s.recent_error_lines();
    assert_eq!(
        shown,
        vec![
            "[09:00:02] 🔴 CRITICAL ERROR: e19".to_string(),
            "[09:00:02] 🔴 CRITICAL ERROR: e18".to_string(),
            "[09:00:02] 🔴 CRITICAL ERROR: e17".to_string(),
        ]
    );
    assert_eq!(more, Some("... and 7 more errors (check Logs tab)".to_string()));
    s.clear_error_history("09:00:03");
    assert!(s.recent_errors.is_empty());
    assert_eq!(s.log_messages.last().unwrap(), "[09:00:03] Error history cleared.");
    let (shown, more) = s.recent_error_lines();
    assert!(shown.is_empty());
    assert!(more.is_none());
}

#[test]
fn messages_update_the_state() {
    let mut s = state();
    let refresh = s.apply_message(
        VpnMessage::ConfigsList(vec![profile("work", "work"), profile("home", "home")]),
        "08:00:00",
    );
    assert!(!refresh);
    assert_eq!(s.selected_config_idx, Some(0));
    assert_eq!(s.log_messages, vec!["[08:00:00] Loaded 2 configurations".to_string()]);
    assert!(s.apply_message(VpnMessage::ConfigImported("done".to_string()), "08:00:01"));
    assert_eq!(s.log_messages[1], "[08:00:01] Config imported: done");
    s.apply_message(VpnMessage::LogMessage("[MANAGER] x".to_string()), "08:00:02");
    assert_eq!(s.log_messages[2], "[MANAGER] x");
    s.apply_message(VpnMessage::VpnCliVersion("v3".to_string()), "t");
    assert_eq!(s.vpn_cli_version, Some("v3".to_string()));
    s.apply_message(
        VpnMessage::ConfigDumped { name: "n".to_string(), content: "c".to_string() },
        "t",
    );
    assert!(s.show_config_dump_dialog);
    s.close_dump_dialog();
    assert!(!s.show_config_dump_dialog);
    assert!(s.dumped_config_name.is_empty() && s.dumped_config_content.is_empty());
    s.apply_message(VpnMessage::Error("Failed to load initial configs: x".to_string()), "08:00:03");
    assert!(s.show_error_dialog);
    assert_eq!(s.recent_errors.len(), 1);
}

#[test]
fn authentication_messages_open_the_dialog() {
    let mut s = state();
    s.auth_input_response = "old".to_string();
    s.apply_message(
        VpnMessage::AuthenticationPrompt {
            session_path: "/s/1".to_string(),
            prompt: "Enter Password".to_string(),
        },
        "t",
    );
    assert!(s.show_auth_dialog);
    assert_eq!(s.auth_session_path, Some("/s/1".to_string()));
    assert!(s.auth_input_response.is_empty());
    assert!(matches!(
        &s.connection_status,
        ConnectionStatus::AuthenticationRequired { prompt, .. } if prompt == "Enter Password"
    ));
    assert!(s.auth_response_masked());
    // Already waiting for credentials: the status stays as it is.
    s.apply_message(
        VpnMessage::AuthenticationPrompt { session_path: "/s/2".to_string(), prompt: "p2".to_string() },
        "t",
    );
    assert!(matches!(
        &s.connection_status,
        ConnectionStatus::AuthenticationRequired { session_path, .. } if session_path == "/s/1"
    ));
    assert_eq!(s.auth_session_path, Some("/s/2".to_string()));
    // Without a manager nothing is sent, but the dialog closes.
    assert!(s.submit_auth().is_none());
    assert!(!s.show_auth_dialog);
    s.manager_started = true;
    s.auth_input_response = "pw".to_string();
    match s.submit_auth() {
        Some(VpnCommand::SubmitAuthentication { session_path, response }) => {
            assert_eq!(session_path, "/s/2");
            assert_eq!(response, "pw");
        }
        other => panic!("unexpected {:?}", other),
    }
    assert!(s.cancel_auth("07:00:00"));
    assert_eq!(s.log_messages.last().unwrap(), "[07:00:00] Authentication cancelled by user.");
    s.apply_message(VpnMessage::StatusUpdate(ConnectionStatus::Disconnected), "t");
    assert!(!s.cancel_auth("07:00:01"));
}

#[test]
fn status_is_displayed() {
    let (t, c) = status_display(&ConnectionStatus::Connected {
        ip: "10.0.0.2".to_string(),
        duration: "5m".to_string(),
    });
    assert_eq!(t, "Connected (IP: 10.0.0.2, Duration: 5m)");
    assert_eq!(c, StatusColor::Green);
    assert_eq!(status_display(&ConnectionStatus::Disconnected), ("Disconnected".to_string(), StatusColor::Red));
    assert_eq!(status_display(&ConnectionStatus::Connecting), ("Connecting...".to_string(), StatusColor::Khaki));
    assert_eq!(status_display(&ConnectionStatus::Disconnecting), ("Disconnecting...".to_string(), StatusColor::Khaki));
    assert_eq!(
        status_display(&ConnectionStatus::Error("x".to_string())),
        ("Error: x".to_string(), StatusColor::Red)
    );
    assert_eq!(
        status_display(&ConnectionStatus::AuthenticationRequired {
            session_path: "/p".to_string(),
            prompt: "pw?".to_string()
        }),
        ("Authentication Required: pw?".to_string(), StatusColor::LightBlue)
    );
}

#[test]
fn connection_buttons() {
    let mut s = state();
    assert!(!s.can_connect());
    assert!(!s.can_disconnect());
    s.configs_list = vec![profile("work", "/net/openvpn/v3/configuration/w1"), profile("home", "home")];
    s.selected_config_idx = Some(0);
    assert!(s.can_connect());
    assert_eq!(s.selected_identifier(), Some("/net/openvpn/v3/configuration/w1".to_string()));
    s.selected_config_idx = Some(1);
    assert_eq!(s.selected_identifier(), Some("home".to_string()));
    s.selected_config_idx = Some(5);
    assert_eq!(s.selected_identifier(), None);
    s.connection_status = ConnectionStatus::Connecting;
    assert!(!s.can_connect());
    assert!(s.can_disconnect());
    s.connection_status = ConnectionStatus::Error("e".to_string());
    assert!(s.can_connect());
    assert!(!s.can_disconnect());
    assert_eq!(config_identifier(&profile("n", "p")), "n");
}

#[test]
fn log_line_styles() {
    assert_eq!(log_style("[t] 🔴 CRITICAL ERROR: x"), LogStyle::Critical);
    assert_eq!(log_style("[MANAGER ERROR] x"), LogStyle::ManagerError);
    assert_eq!(log_style("[MANAGER] x"), LogStyle::Manager);
    assert_eq!(log_style("plain"), LogStyle::Plain);
}

#[test]
fn manager_start_up_commands() {
    let mut s = state();
    let cmds = s.begin_manager("06:00:00");
    assert!(s.manager_started);
    assert_eq!(s.log_messages, vec!["[06:00:00] VPN Manager started.".to_string()]);
    assert_eq!(cmds.len(), 4);
    assert!(matches!(cmds[0], VpnCommand::ListConfigs));
    assert!(matches!(cmds[1], VpnCommand::ListSessions));
    assert!(matches!(cmds[2], VpnCommand::GetVpnCliVersion));
    assert!(matches!(cmds[3], VpnCommand::EnableManagerLogBuffer));
    assert!(s.begin_manager("06:00:01").is_empty());

    let mut s = state();
    s.live_vpn_logs_active = true;
    s.manager_log_buffer_active = false;
    let cmds = s.begin_manager("t");
    assert_eq!(cmds.len(), 5);
    assert!(matches!(cmds[3], VpnCommand::StartLiveVpnLogs));
    assert!(matches!(cmds[4], VpnCommand::DisableManagerLogBuffer));
    assert!(matches!(s.live_log_command(), VpnCommand::StartLiveVpnLogs));
    assert!(matches!(s.manager_log_command(), VpnCommand::DisableManagerLogBuffer));
}

#[test]
fn import_dialog() {
    let mut s = state();
    s.show_import_config_dialog = true;
    assert!(s.submit_import("t").is_none());
    assert_eq!(
        s.recent_errors,
        vec!["[t] 🔴 CRITICAL ERROR: Import failed: Configuration name cannot be empty.".to_string()]
    );
    s.import_config_name = "office".to_string();
    assert!(s.submit_import("t").is_none());
    assert_eq!(
        s.recent_errors[1],
        "[t] 🔴 CRITICAL ERROR: Import failed: Configuration file path cannot be empty."
    );
    s.import_config_path = "/tmp/office.ovpn".to_string();
    assert!(s.submit_import("t").is_none(), "no manager yet");
    assert!(s.show_import_config_dialog);
    s.manager_started = true;
    match s.submit_import("t") {
        Some(VpnCommand::ImportConfig(path, name)) => {
            assert_eq!(path, "/tmp/office.ovpn");
            assert_eq!(name, "office");
        }
        other => panic!("unexpected {:?}", other),
    }
    assert!(!s.show_import_config_dialog);
    assert!(s.import_config_name.is_empty() && s.import_config_path.is_empty());
    s.show_import_config_dialog = true;
    s.import_config_name = "x".to_string();
    s.cancel_import();
    assert!(!s.show_import_config_dialog && s.import_config_name.is_empty());
}

#[test]
fn requests_and_their_log_lines() {
    let mut s = state();
    assert!(s.connect_vpn("work", "t").is_none());
    assert!(s.disconnect_vpn("t").is_none());
    assert!(s.log_messages.is_empty());
    s.manager_started = true;
    assert!(matches!(s.connect_vpn("work", "05:00:00"), Some(VpnCommand::Connect(id)) if id == "work"));
    assert_eq!(s.log_messages[0], "[05:00:00] Sending connect command for: work");
    assert!(matches!(s.disconnect_vpn("05:00:01"), Some(VpnCommand::Disconnect)));
    assert_eq!(s.log_messages[1], "[05:00:01] Sending disconnect command.");
    s.send_failed("connect", "sending on a closed channel", "05:00:02");
    assert_eq!(
        s.recent_errors[0],
        "[05:00:02] 🔴 CRITICAL ERROR: Failed to send connect command: sending on a closed channel"
    );
    assert!(matches!(s.request_remove("p", "t"), VpnCommand::RemoveConfig(x) if x == "p"));
    assert_eq!(s.log_messages.last().unwrap(), "[t] Requesting removal of config: p");
    assert!(matches!(s.request_dump("q", "t"), VpnCommand::DumpConfig(x) if x == "q"));
    assert_eq!(s.log_messages.last().unwrap(), "[t] Requesting dump of config: q");
    s.settings_saved(Ok(()), "t");
    assert_eq!(s.log_messages.last().unwrap(), "[t] Settings saved successfully.");
    s.settings_saved(Err("disk full".to_string()), "t");
    assert_eq!(s.log_messages.last().unwrap(), "[t] Failed to save settings: disk full");
    s.note_exit("t");
    assert_eq!(
        s.log_messages.last().unwrap(),
        "[t] Application exiting. Shutting down VPN manager."
    );
}

#[test]
fn error_dialog_buttons() {
    let mut s = state();
    s.configs_list = vec![profile("work", "work")];
    s.selected_config_idx = Some(0);
    s.add_error_entry("t", "Authentication failed: x");
    assert!(s.show_error_dialog);
    assert_eq!(s.retry_after_error(), Some("work".to_string()));
    assert!(!s.show_error_dialog);
    assert!(s.current_error_message.is_empty());
    s.add_error_entry("t", "Authentication failed: y");
    s.dismiss_error();
    assert!(!s.show_error_dialog);
}

#[test]
fn clock_text_has_the_documented_shape() {
    let t = current_time();
    let b = t.as_bytes();
    assert_eq!(t.len(), 8);
    assert_eq!(b[2], b':');
    assert_eq!(b[5], b':');
    for i in [0, 1, 3, 4, 6, 7] {
        assert!(b[i].is_ascii_digit());
    }
    let mut s = state();
    s.process_message(VpnMessage::ConfigImported("x".to_string()));
    assert_eq!(s.log_messages[0].len(), "[hh:mm:ss] Config imported: x".len());
}

#[test]
fn auth_response_is_masked_for_any_prompt() {
    let mut s = state();
    s.apply_message(
        VpnMessage::AuthenticationPrompt { session_path: "/s/1".to_string(), prompt: "Enter PIN".to_string() },
        "t",
    );
    assert!(s.show_auth_dialog);
    assert!(s.auth_response_masked());
}

#[test]
fn log_switches_send_only_with_a_manager() {
    let mut s = state();
    assert!(s.set_live_logs(true).is_none());
    assert!(s.live_vpn_logs_active);
    assert!(s.set_manager_logs(false).is_none());
    assert!(!s.manager_log_buffer_active);
    s.begin_manager("t");
    assert!(matches!(s.set_live_logs(true), Some(VpnCommand::StartLiveVpnLogs)));
    assert!(matches!(s.set_live_logs(false), Some(VpnCommand::StopLiveVpnLogs)));
    assert!(!s.live_vpn_logs_active);
    assert!(matches!(s.set_manager_logs(true), Some(VpnCommand::EnableManagerLogBuffer)));
    assert!(matches!(s.set_manager_logs(false), Some(VpnCommand::DisableManagerLogBuffer)));
    assert!(!s.manager_log_buffer_active);
}

#[test]
fn view_logs_closes_the_error_dialog_and_shows_logs() {
    let mut s = state();
    s.show_error_dialog = true;
    s.current_error_message = "Connection failed: x".to_string();
    s.view_logs_after_error();
    assert!(!s.show_error_dialog);
    assert!(s.current_error_message.is_empty());
    assert_eq!(s.active_tab, ActiveTab::Logs);
}

#[test]
fn clearing_logs_and_errors() {
    let mut s = state();
    s.add_log_entry("t", "one");
    s.add_error_entry("t", "bad");
    let errors_before = s.recent_errors.len();
    assert!(errors_before > 0);
    s.clear_logs();
    assert!(s.log_messages.is_empty());
    assert_eq!(s.recent_errors.len(), errors_before);
    s.clear_errors();
    assert!(s.recent_errors.is_empty());
    assert!(s.log_messages.is_empty());
}

#[test]
fn picked_import_file_fills_an_empty_name() {
    let mut s = state();
    s.pick_import_file("/home/u/work.ovpn".to_string(), Some("work".to_string()));
    assert_eq!(s.import_config_path, "/home/u/work.ovpn");
    assert_eq!(s.import_config_name, "work");
    s.pick_import_file("/home/u/home.ovpn".to_string(), Some("home".to_string()));
    assert_eq!(s.import_config_path, "/home/u/home.ovpn");
    assert_eq!(s.import_config_name, "work");
    let mut t = state();
    t.pick_import_file("/".to_string(), None);
    assert_eq!(t.import_config_path, "/");
    assert!(t.import_config_name.is_empty());
}

#[test]
fn settings_can_be_cloned() {
    let mut c = AppConfig::default();
    c.configs.push(openvpn3_gui::config::VpnConfig {
        name: "work".to_string(),
        config_path: std::path::PathBuf::from("/etc/work.ovpn"),
        auto_connect: true,
        save_credentials: false,
    });
    c.last_used_config = Some("work".to_string());
    let d = c.clone();
    assert_eq!(d.configs.len(), 1);
    assert_eq!(d.configs[0].name, "work");
    assert_eq!(d.configs[0].config_path, std::path::PathBuf::from("/etc/work.ovpn"));
    assert!(d.configs[0].auto_connect);
    assert_eq!(d.last_used_config, Some("work".to_string()));
    assert!(d.minimize_to_tray);
}
