use openvpn3_gui::model::ConnectionStatus;
use openvpn3_gui::parse::{
    extract_dots_value, extract_field, extract_session_path_from_output, extract_value,
    parse_configs_list, parse_session_stats, parse_sessions_list,
    read_session_status, status_from_lowered,
};

const SESSIONS: &str = "-----------------------------------------------------------------------------
        Path: /net/openvpn/v3/sessions/abc123
     Created: 2024-01-01 10:00:00
       Owner: alice
 Config name: work.ovpn
Session name: vpn.example.com
      Status: Connection, Client connected
-----------------------------------------------------------------------------
        Path: /net/openvpn/v3/sessions/def456
 Config name: home
      Status: Connection, Client connecting
-----------------------------------------------------------------------------
";

#[test]
fn sessions_list_is_parsed() {
    let sessions = parse_sessions_list(SESSIONS);
    assert_eq!(sessions.len(), 2);
    assert_eq!(sessions[0].session_path, "/net/openvpn/v3/sessions/abc123");
    assert_eq!(sessions[0].created, "2024-01-01 10:00:00");
    assert_eq!(sessions[0].owner, "alice");
    assert_eq!(sessions[0].config_name, "work.ovpn");
    assert_eq!(sessions[0].status, "Connection, Client connected");
    assert_eq!(sessions[1].session_path, "/net/openvpn/v3/sessions/def456");
    assert_eq!(sessions[1].config_name, "home");
    assert_eq!(sessions[1].created, "");
    assert_eq!(sessions[1].owner, "");
}

#[test]
fn sessions_list_ignores_details_before_a_path() {
    let sessions = parse_sessions_list("Status: orphan\nNo sessions available\n");
    assert!(sessions.is_empty());
    assert!(parse_sessions_list("").is_empty());
}

#[test]
fn configs_list_skips_header_and_separators() {
    let out = "Configuration Name                        Last used\n\
               ---------------------------------------------------\n\
               work.ovpn                                 2024-01-01\n\
               \n\
               home\n\
               ---------------------------------------------------\n";
    let configs = parse_configs_list(out);
    assert_eq!(configs.len(), 2);
    assert_eq!(configs[0].name, "work.ovpn");
    assert_eq!(configs[0].path, "work.ovpn");
    assert_eq!(configs[0].import_time, "N/A");
    assert_eq!(configs[0].owner, "N/A");
    assert!(configs[0].valid);
    assert_eq!(configs[1].name, "home");
}

#[test]
fn configs_list_with_only_a_header_is_empty() {
    assert!(parse_configs_list("Configuration Name\n").is_empty());
    assert!(parse_configs_list("a\nb\n").is_empty());
}

#[test]
fn session_stats_are_parsed() {
    let out = "Connection statistics:\n\
               \x20    BYTES_IN.....................123456\n\
               \x20    BYTES_OUT....................654321\n\
               \x20    PACKETS_IN...................1000\n\
               \x20    PACKETS_OUT..................2000\n\
               \x20    TUN_PACKETS_IN...............5\n";
    let stats = parse_session_stats(out).unwrap();
    assert_eq!(stats.bytes_in, 123456);
    assert_eq!(stats.bytes_out, 654321);
    assert_eq!(stats.packets_in, 1000);
    assert_eq!(stats.packets_out, 2000);
    assert_eq!(stats.connected_since, "N/A");
    assert_eq!(stats.virtual_ip, "N/A");
    assert_eq!(stats.remote_ip, "N/A");
}

#[test]
fn session_stats_later_byte_line_wins_and_bad_numbers_are_zero() {
    // A TUN_BYTES_IN line also names BYTES_IN, so it sets the counter again.
    let out = "BYTES_IN......10\nTUN_BYTES_IN....11\nBYTES_OUT....xyz\n";
    let stats = parse_session_stats(out).unwrap();
    assert_eq!(stats.bytes_in, 11);
    assert_eq!(stats.bytes_out, 0);
}

#[test]
fn session_stats_without_counters_are_none() {
    assert!(parse_session_stats("nothing here\n").is_none());
    assert!(parse_session_stats("BYTES_IN....   \n").is_none());
}

#[test]
fn dots_value_extraction() {
    assert_eq!(extract_dots_value("BYTES_IN......42 "), Some("42".to_string()));
    assert_eq!(extract_dots_value("BYTES_IN.42"), None);
    assert_eq!(extract_dots_value("A .. b .. c"), Some("b .. c".to_string()));
}

#[test]
fn value_and_field_extraction() {
    assert_eq!(extract_value("Path: /a/b ", "Path:"), "/a/b");
    assert_eq!(extract_value("nothing", "Path:"), "");
    let text = "Header\n  Virtual IP: 10.8.0.2\nConnected since: 12:00:01\n";
    assert_eq!(extract_field(text, "Virtual IP:"), Some("10.8.0.2".to_string()));
    // Only the text between the first and second colon is kept.
    assert_eq!(extract_field(text, "Connected since:"), Some("12".to_string()));
    assert_eq!(extract_field(text, "Duration:"), None);
}

#[test]
fn session_path_from_start_output() {
    let out = "Using pre-loaded configuration profile 'work'\nSession path: /net/openvpn/v3/sessions/abc\nConnected\n";
    assert_eq!(
        extract_session_path_from_output(out),
        Some("/net/openvpn/v3/sessions/abc".to_string())
    );
    assert_eq!(extract_session_path_from_output("nothing\n"), None);
}

#[test]
fn status_from_detailed_session_output() {
    let (s, note) = read_session_status("Virtual IP: 10.0.0.5\nDuration: 5m\n", "/p");
    assert!(note.is_none());
    match s {
        ConnectionStatus::Connected { ip, duration } => {
            assert_eq!(ip, "10.0.0.5");
            assert_eq!(duration, "5m");
        }
        other => panic!("unexpected {:?}", other),
    }
    let (s, _) = read_session_status("STATUS: CONNECTING\n", "/p");
    assert!(matches!(s, ConnectionStatus::Connecting));
    let (s, _) = read_session_status("Status: Connected\n", "/p");
    match s {
        ConnectionStatus::Connected { ip, duration } => {
            assert_eq!(ip, "N/A");
            assert_eq!(duration, "N/A");
        }
        other => panic!("unexpected {:?}", other),
    }
    let (s, _) = read_session_status("AUTH_PENDING\n", "/p");
    match s {
        ConnectionStatus::AuthenticationRequired { session_path, prompt } => {
            assert_eq!(session_path, "/p");
            assert_eq!(prompt, "Authentication is pending. Please provide credentials.");
        }
        other => panic!("unexpected {:?}", other),
    }
    let (s, _) = read_session_status("status: exited\n", "/p");
    assert!(matches!(s, ConnectionStatus::Disconnected));
    let (s, note) = read_session_status("weird", "/p");
    assert!(matches!(s, ConnectionStatus::Connecting));
    assert_eq!(
        note,
        Some("Could not determine clear status from session output for /p. Output: weird".to_string())
    );
}

#[test]
fn status_keywords_are_read_from_the_lowered_text() {
    // The keywords are looked for in the lowered text only.
    let (s, note) = status_from_lowered("STATUS: CONNECTING", "status: connecting", "/p");
    assert!(matches!(s, ConnectionStatus::Connecting));
    assert!(note.is_none());
    let (s, note) = status_from_lowered("STATUS: CONNECTING", "STATUS: CONNECTING", "/p");
    assert!(matches!(s, ConnectionStatus::Connecting));
    assert_eq!(
        note,
        Some("Could not determine clear status from session output for /p. Output: STATUS: CONNECTING".to_string())
    );
    let (s, _) = status_from_lowered("Status: Exited", "status: exited", "/p");
    assert!(matches!(s, ConnectionStatus::Disconnected));
    // The IP and times come from the output itself.
    let (s, note) = status_from_lowered("Virtual IP: 10.1.2.3\nDuration: 7m\n", "", "/p");
    assert!(matches!(s, ConnectionStatus::Connected { ref ip, ref duration } if ip == "10.1.2.3" && duration == "7m"));
    assert!(note.is_none());
}

#[test]
fn read_session_status_lowers_before_reading() {
    let (s, note) = read_session_status("STATUS: DISCONNECTED", "/p");
    assert!(matches!(s, ConnectionStatus::Disconnected));
    assert!(note.is_none());
}
