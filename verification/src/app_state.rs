//! The state of the user interface and the decisions it takes: how manager
//! messages change what is shown, what the log and the error history keep,
//! and which commands the buttons and dialogs send.
use vstd::prelude::*;
use crate::config::AppConfig;
use crate::manager_spec::config_path_prefix;
use crate::model::{
    configs_view, sessions_view, stats_opt_view, str_opt_view, CommandView, ConfigProfile,
    ConfigProfileView, ConnectionStatus, MessageView, SessionInfo, SessionInfoView, SessionStats,
    SessionStatsView, StatusView, VpnCommand, VpnMessage,
};
use crate::text::{
    concat2, concat3, concat4, contains, decimal, decimal_text, has_prefix, has_sub,
    starts_with,
};

verus! {

/// The most log lines the user interface keeps.
pub const MAX_LOG_LINES: usize = 1000;

/// The most entries the error history keeps.
pub const MAX_RECENT_ERRORS: usize = 10;

/// The tabs of the main window.
#[derive(PartialEq, Eq, Structural, Clone, Copy, Debug)]
pub enum ActiveTab {
    Connection,
    Sessions,
    Configurations,
    Statistics,
    Logs,
    Settings,
}

/// The colour in which a status is shown.
#[derive(PartialEq, Eq, Structural, Clone, Copy, Debug)]
pub enum StatusColor {
    Red,
    Khaki,
    Green,
    LightBlue,
}

/// How a log line is shown.
#[derive(PartialEq, Eq, Structural, Clone, Copy, Debug)]
pub enum LogStyle {
    Critical,
    ManagerError,
    Manager,
    Plain,
}

/// What the user interface shows and remembers, apart from the window
/// itself and the channels to the manager.
pub struct AppState {
    pub config: AppConfig,
    pub active_tab: ActiveTab,
    pub selected_config_idx: Option<usize>,
    pub show_import_config_dialog: bool,
    pub import_config_path: String,
    pub import_config_name: String,
    pub show_config_dump_dialog: bool,
    pub dumped_config_name: String,
    pub dumped_config_content: String,
    pub show_auth_dialog: bool,
    pub auth_session_path: Option<String>,
    pub auth_prompt_message: String,
    pub auth_input_response: String,
    pub show_error_dialog: bool,
    pub current_error_message: String,
    pub connection_status: ConnectionStatus,
    pub log_messages: Vec<String>,
    pub manager_started: bool,
    pub sessions_list: Vec<SessionInfo>,
    pub configs_list: Vec<ConfigProfile>,
    pub session_stats: Option<SessionStats>,
    pub vpn_cli_version: Option<String>,
    pub live_vpn_logs_active: bool,
    pub manager_log_buffer_active: bool,
    pub recent_errors: Vec<String>,
}

/// The view of an `AppState`.
pub struct AppView {
    pub config: AppConfig,
    pub active_tab: ActiveTab,
    pub selected_config_idx: Option<usize>,
    pub show_import_config_dialog: bool,
    pub import_config_path: Seq<char>,
    pub import_config_name: Seq<char>,
    pub show_config_dump_dialog: bool,
    pub dumped_config_name: Seq<char>,
    pub dumped_config_content: Seq<char>,
    pub show_auth_dialog: bool,
    pub auth_session_path: Option<Seq<char>>,
    pub auth_prompt_message: Seq<char>,
    pub auth_input_response: Seq<char>,
    pub show_error_dialog: bool,
    pub current_error_message: Seq<char>,
    pub connection_status: StatusView,
    pub log_messages: Seq<Seq<char>>,
    pub manager_started: bool,
    pub sessions_list: Seq<SessionInfoView>,
    pub configs_list: Seq<ConfigProfileView>,
    pub session_stats: Option<SessionStatsView>,
    pub vpn_cli_version: Option<Seq<char>>,
    pub live_vpn_logs_active: bool,
    pub manager_log_buffer_active: bool,
    pub recent_errors: Seq<Seq<char>>,
}

/// The views of a list of strings.
pub open spec fn lines_view(v: Seq<String>) -> Seq<Seq<char>> {
    v.map_values(|s: String| s@)
}

impl View for AppState {
    type V = AppView;

    open spec fn view(&self) -> AppView {
        AppView {
            config: self.config,
            active_tab: self.active_tab,
            selected_config_idx: self.selected_config_idx,
            show_import_config_dialog: self.show_import_config_dialog,
            import_config_path: self.import_config_path@,
            import_config_name: self.import_config_name@,
            show_config_dump_dialog: self.show_config_dump_dialog,
            dumped_config_name: self.dumped_config_name@,
            dumped_config_content: self.dumped_config_content@,
            show_auth_dialog: self.show_auth_dialog,
            auth_session_path: str_opt_view(self.auth_session_path),
            auth_prompt_message: self.auth_prompt_message@,
            auth_input_response: self.auth_input_response@,
            show_error_dialog: self.show_error_dialog,
            current_error_message: self.current_error_message@,
            connection_status: self.connection_status@,
            log_messages: lines_view(self.log_messages@),
            manager_started: self.manager_started,
            sessions_list: sessions_view(self.sessions_list@),
            configs_list: configs_view(self.configs_list@),
            session_stats: stats_opt_view(self.session_stats),
            vpn_cli_version: str_opt_view(self.vpn_cli_version),
            live_vpn_logs_active: self.live_vpn_logs_active,
            manager_log_buffer_active: self.manager_log_buffer_active,
            recent_errors: lines_view(self.recent_errors@),
        }
    }
}

// ---------------------------------------------------------------------------
// Specifications
// ---------------------------------------------------------------------------
/// The log and the error history are within their bounds.
pub open spec fn bounded(a: AppView) -> bool {
    a.log_messages.len() <= MAX_LOG_LINES && a.recent_errors.len() <= MAX_RECENT_ERRORS
}

/// A list with a line appended, and its first line dropped when that makes
/// it longer than `cap`.
pub open spec fn pushed_capped(list: Seq<Seq<char>>, line: Seq<char>, cap: nat) -> Seq<Seq<char>> {
    let l = list.push(line);
    if l.len() > cap {
        l.drop_first()
    } else {
        l
    }
}

/// Text that `chrono` gives for `%H:%M:%S`: two digits of hour, minute and
/// second, separated by colons.
pub open spec fn is_clock_text(s: Seq<char>) -> bool {
    &&& s.len() == 8
    &&& s[2] == ':'
    &&& s[5] == ':'
    &&& forall|i: int| 0 <= i < 8 && i != 2 && i != 5 ==> '0' <= #[trigger] s[i] <= '9'
}

/// A log line stamped with a time.
pub open spec fn stamped(ts: Seq<char>, message: Seq<char>) -> Seq<char> {
    "["@ + ts + "] "@ + message
}

/// The state with a line appended to the log.
pub open spec fn with_log_line(a: AppView, line: Seq<char>) -> AppView {
    AppView { log_messages: pushed_capped(a.log_messages, line, MAX_LOG_LINES as nat), ..a }
}

/// The state with a stamped message appended to the log.
pub open spec fn with_log_entry(a: AppView, ts: Seq<char>, message: Seq<char>) -> AppView {
    with_log_line(a, stamped(ts, message))
}

/// An error line as the log and the error history show it.
pub open spec fn error_line(ts: Seq<char>, message: Seq<char>) -> Seq<char> {
    "["@ + ts + "] 🔴 CRITICAL ERROR: "@ + message
}

/// Errors that open the error dialog.
pub open spec fn is_critical(message: Seq<char>) -> bool {
    has_sub(message, "Connection failed"@) || has_sub(message, "Authentication failed"@) || has_sub(
        message,
        "Failed to load initial"@,
    )
}

/// The state with an error recorded in the log and the error history, and
/// shown in the error dialog when it is critical.
pub open spec fn with_error_entry(a: AppView, ts: Seq<char>, message: Seq<char>) -> AppView {
    let line = error_line(ts, message);
    let b = AppView {
        log_messages: pushed_capped(a.log_messages, line, MAX_LOG_LINES as nat),
        recent_errors: pushed_capped(a.recent_errors, line, MAX_RECENT_ERRORS as nat),
        ..a
    };
    if is_critical(message) {
        AppView { current_error_message: message, show_error_dialog: true, ..b }
    } else {
        b
    }
}

/// The state with the authentication dialog open for a session.
pub open spec fn with_auth_dialog(a: AppView, sp: Seq<char>, prompt: Seq<char>) -> AppView {
    AppView {
        auth_session_path: Some(sp),
        auth_prompt_message: prompt,
        auth_input_response: seq![],
        show_auth_dialog: true,
        ..a
    }
}

/// The status the user interface shows after a message.
pub open spec fn status_effect(s: StatusView, m: MessageView) -> StatusView {
    match m {
        MessageView::StatusUpdate(n) => n,
        MessageView::AuthenticationPrompt { session_path, prompt } => if s is AuthenticationRequired {
            s
        } else {
            StatusView::AuthenticationRequired { session_path: session_path, prompt: prompt }
        },
        _ => s,
    }
}

/// The status the user interface shows after a sequence of messages.
pub open spec fn status_after(s: StatusView, msgs: Seq<MessageView>) -> StatusView
    decreases msgs.len(),
{
    if msgs.len() == 0 {
        s
    } else {
        status_effect(status_after(s, msgs.drop_last()), msgs.last())
    }
}

/// The effect of a manager message on the user interface, and whether it
/// asks for the configuration list to be reloaded.
pub open spec fn message_effect(a: AppView, m: MessageView, ts: Seq<char>) -> (AppView, bool) {
    match m {
        MessageView::StatusUpdate(s) => {
            let b = AppView { connection_status: s, ..a };
            match s {
                StatusView::AuthenticationRequired { session_path, prompt } => (
                    with_auth_dialog(b, session_path, prompt),
                    false,
                ),
                _ => (b, false),
            }
        },
        MessageView::LogMessage(line) => (with_log_line(a, line), false),
        MessageView::Error(e) => (with_error_entry(a, ts, e), false),
        MessageView::SessionsList(s) => (AppView { sessions_list: s, ..a }, false),
        MessageView::SessionStats(st) => (AppView { session_stats: Some(st), ..a }, false),
        MessageView::ConfigsList(c) => {
            let sel = if a.selected_config_idx is None && c.len() > 0 {
                Some(0usize)
            } else {
                a.selected_config_idx
            };
            let b = AppView { configs_list: c, selected_config_idx: sel, ..a };
            (
                with_log_entry(b, ts, "Loaded "@ + decimal(c.len()) + " configurations"@),
                false,
            )
        },
        MessageView::ConfigImported(text) => (
            with_log_entry(a, ts, "Config imported: "@ + text),
            true,
        ),
        MessageView::VpnCliVersion(v) => (AppView { vpn_cli_version: Some(v), ..a }, false),
        MessageView::ConfigDumped { name, content } => (
            AppView {
                dumped_config_name: name,
                dumped_config_content: content,
                show_config_dump_dialog: true,
                ..a
            },
            false,
        ),
        MessageView::AuthenticationPrompt { session_path, prompt } => {
            let b = with_auth_dialog(a, session_path, prompt);
            if a.connection_status is AuthenticationRequired {
                (b, false)
            } else {
                (
                    AppView {
                        connection_status: StatusView::AuthenticationRequired {
                            session_path: session_path,
                            prompt: prompt,
                        },
                        ..b
                    },
                    false,
                )
            }
        },
    }
}

/// The text that shows a status.
pub open spec fn status_text(s: StatusView) -> Seq<char> {
    match s {
        StatusView::Disconnected => "Disconnected"@,
        StatusView::Connecting => "Connecting..."@,
        StatusView::Connected { ip, duration } => "Connected (IP: "@ + ip + ", Duration: "@
            + duration + ")"@,
        StatusView::Disconnecting => "Disconnecting..."@,
        StatusView::Error(e) => "Error: "@ + e,
        StatusView::AuthenticationRequired { prompt, .. } => "Authentication Required: "@ + prompt,
    }
}

/// The colour that shows a status.
pub open spec fn status_color(s: StatusView) -> StatusColor {
    match s {
        StatusView::Disconnected => StatusColor::Red,
        StatusView::Connecting => StatusColor::Khaki,
        StatusView::Connected { .. } => StatusColor::Green,
        StatusView::Disconnecting => StatusColor::Khaki,
        StatusView::Error(_) => StatusColor::Red,
        StatusView::AuthenticationRequired { .. } => StatusColor::LightBlue,
    }
}

/// How a profile is named to `openvpn3`: by its object path when it has one,
/// else by its name.
pub open spec fn identifier_of(c: ConfigProfileView) -> Seq<char> {
    if has_prefix(c.path, config_path_prefix()) {
        c.path
    } else {
        c.name
    }
}

/// The identifier of the selected profile, if one is selected and listed.
pub open spec fn selected_identifier_of(a: AppView) -> Option<Seq<char>> {
    match a.selected_config_idx {
        Some(i) => if i < a.configs_list.len() {
            Some(identifier_of(a.configs_list[i as int]))
        } else {
            None
        },
        None => None,
    }
}

/// A connection can be started: the manager is idle or failed, and a
/// profile is selected.
pub open spec fn connect_allowed(a: AppView) -> bool {
    (a.connection_status is Disconnected || a.connection_status is Error)
        && a.selected_config_idx is Some
}

/// A connection can be stopped: it is up, coming up, or waiting for
/// credentials.
pub open spec fn disconnect_allowed(a: AppView) -> bool {
    a.connection_status is Connected || a.connection_status is Connecting
        || a.connection_status is AuthenticationRequired
}

/// The style of a log line.
pub open spec fn log_style_of(line: Seq<char>) -> LogStyle {
    if has_sub(line, "🔴 CRITICAL ERROR"@) {
        LogStyle::Critical
    } else if has_sub(line, "[MANAGER ERROR]"@) {
        LogStyle::ManagerError
    } else if has_sub(line, "[MANAGER]"@) {
        LogStyle::Manager
    } else {
        LogStyle::Plain
    }
}

/// The commands that bring a new manager up to date with the user
/// interface.
pub open spec fn startup_commands_of(a: AppView) -> Seq<CommandView> {
    let base = seq![CommandView::ListConfigs, CommandView::ListSessions, CommandView::GetVpnCliVersion];
    let with_live = if a.live_vpn_logs_active {
        base.push(CommandView::StartLiveVpnLogs)
    } else {
        base
    };
    if a.manager_log_buffer_active {
        with_live.push(CommandView::EnableManagerLogBuffer)
    } else {
        with_live.push(CommandView::DisableManagerLogBuffer)
    }
}

/// The views of a list of commands.
pub open spec fn commands_view(v: Seq<VpnCommand>) -> Seq<CommandView> {
    v.map_values(|c: VpnCommand| c@)
}

/// The view of an optional command.
pub open spec fn command_opt_view(c: Option<VpnCommand>) -> Option<CommandView> {
    match c {
        Some(x) => Some(x@),
        None => None,
    }
}

// ---------------------------------------------------------------------------
// The clock
// ---------------------------------------------------------------------------
/// Calls `chrono::Local::now()` and formats it with `%H:%M:%S`. The time is
/// not a function of anything here, so only the shape of the text is stated:
/// two-digit hour, minute and second separated by colons, as chrono's
/// strftime table documents them.
#[verifier::external_body]
fn clock_time() -> (r: String)
    ensures
        is_clock_text(r@),
{
    chrono::Local::now().format("%H:%M:%S").to_string()
}

/// The current wall-clock time as `HH:MM:SS`, for stamping log lines.
pub fn current_time() -> (r: String)
    ensures
        is_clock_text(r@),
{
    clock_time()
}

// ---------------------------------------------------------------------------
// Executable functions
// ---------------------------------------------------------------------------
/// Appends a line, dropping the first one when the list grows beyond `cap`.
fn push_capped(list: &mut Vec<String>, line: String, cap: usize)
    ensures
        lines_view(final(list)@) == pushed_capped(lines_view(old(list)@), line@, cap as nat),
{
    let ghost before = lines_view(list@);
    list.push(line);
    assert(lines_view(list@) =~= before.push(line@));
    if list.len() > cap {
        let ghost pushed = list@;
        list.remove(0);
        assert(lines_view(list@) =~= lines_view(pushed).drop_first());
    }
}

/// The text and colour that show a status.
pub fn status_display(s: &ConnectionStatus) -> (r: (String, StatusColor))
    ensures
        r.0@ == status_text(s@),
        r.1 == status_color(s@),
{
    match s {
        ConnectionStatus::Disconnected => (String::from_str("Disconnected"), StatusColor::Red),
        ConnectionStatus::Connecting => (String::from_str("Connecting..."), StatusColor::Khaki),
        ConnectionStatus::Connected { ip, duration } => {
            let t = concat4("Connected (IP: ", ip.as_str(), ", Duration: ", duration.as_str());
            (t.concat(")"), StatusColor::Green)
        },
        ConnectionStatus::Disconnecting => (
            String::from_str("Disconnecting..."),
            StatusColor::Khaki,
        ),
        ConnectionStatus::Error(e) => (concat2("Error: ", e.as_str()), StatusColor::Red),
        ConnectionStatus::AuthenticationRequired { prompt, .. } => (
            concat2("Authentication Required: ", prompt.as_str()),
            StatusColor::LightBlue,
        ),
    }
}

/// How a profile is named to `openvpn3`.
pub fn config_identifier(c: &ConfigProfile) -> (r: String)
    ensures
        r@ == identifier_of(c@),
{
    if starts_with(c.path.as_str(), "/net/openvpn/v3/configuration/") {
        c.path.clone()
    } else {
        c.name.clone()
    }
}

/// The style of a log line.
pub fn log_style(line: &str) -> (r: LogStyle)
    ensures
        r == log_style_of(line@),
{
    if contains(line, "🔴 CRITICAL ERROR") {
        LogStyle::Critical
    } else if contains(line, "[MANAGER ERROR]") {
        LogStyle::ManagerError
    } else if contains(line, "[MANAGER]") {
        LogStyle::Manager
    } else {
        LogStyle::Plain
    }
}

impl AppState {
    /// The state of a new window with the given settings: the connection tab,
    /// no dialog open, disconnected, no manager yet, manager logging on and
    /// the live log off.
    pub fn new(config: AppConfig) -> (r: Self)
        ensures
            r@.config == config,
            r@.active_tab == ActiveTab::Connection,
            r@.selected_config_idx is None,
            !r@.show_import_config_dialog && !r@.show_config_dump_dialog && !r@.show_auth_dialog
                && !r@.show_error_dialog,
            r@.import_config_path.len() == 0 && r@.import_config_name.len() == 0,
            r@.dumped_config_name.len() == 0 && r@.dumped_config_content.len() == 0,
            r@.auth_session_path is None,
            r@.auth_prompt_message.len() == 0 && r@.auth_input_response.len() == 0,
            r@.current_error_message.len() == 0,
            r@.connection_status == StatusView::Disconnected,
            r@.log_messages.len() == 0,
            !r@.manager_started,
            r@.sessions_list.len() == 0 && r@.configs_list.len() == 0,
            r@.session_stats is None && r@.vpn_cli_version is None,
            !r@.live_vpn_logs_active && r@.manager_log_buffer_active,
            r@.recent_errors.len() == 0,
            bounded(r@),
    {
        AppState {
            config,
            active_tab: ActiveTab::Connection,
            selected_config_idx: None,
            show_import_config_dialog: false,
            import_config_path: String::new(),
            import_config_name: String::new(),
            show_config_dump_dialog: false,
            dumped_config_name: String::new(),
            dumped_config_content: String::new(),
            show_auth_dialog: false,
            auth_session_path: None,
            auth_prompt_message: String::new(),
            auth_input_response: String::new(),
            show_error_dialog: false,
            current_error_message: String::new(),
            connection_status: ConnectionStatus::Disconnected,
            log_messages: Vec::new(),
            manager_started: false,
            sessions_list: Vec::new(),
            configs_list: Vec::new(),
            session_stats: None,
            vpn_cli_version: None,
            live_vpn_logs_active: false,
            manager_log_buffer_active: true,
            recent_errors: Vec::new(),
        }
    }

    /// Appends a line stamped with the time `ts` to the log.
    pub fn add_log_entry(&mut self, ts: &str, message: &str)
        ensures
            final(self)@ == with_log_entry(old(self)@, ts@, message@),
    {
        let line = concat4("[", ts, "] ", message);
        push_capped(&mut self.log_messages, line, MAX_LOG_LINES);
    }

    /// Records an error at time `ts` in the log and the error history, and
    /// opens the error dialog for a critical one.
    pub fn add_error_entry(&mut self, ts: &str, error_message: &str)
        ensures
            final(self)@ == with_error_entry(old(self)@, ts@, error_message@),
    {
        let line = concat4("[", ts, "] 🔴 CRITICAL ERROR: ", error_message);
        push_capped(&mut self.log_messages, line.clone(), MAX_LOG_LINES);
        push_capped(&mut self.recent_errors, line, MAX_RECENT_ERRORS);
        if contains(error_message, "Connection failed") || contains(
            error_message,
            "Authentication failed",
        ) || contains(error_message, "Failed to load initial") {
            self.current_error_message = String::from_str(error_message);
            self.show_error_dialog = true;
        }
    }

    fn open_auth_dialog(&mut self, sp: String, prompt: String)
        ensures
            final(self)@ == with_auth_dialog(old(self)@, sp@, prompt@),
    {
        self.auth_session_path = Some(sp);
        self.auth_prompt_message = prompt;
        self.auth_input_response = String::new();
        self.show_auth_dialog = true;
    }

    /// Applies a message from the manager, with `ts` as the time of any log
    /// line it adds; `true` asks for the configuration list to be reloaded.
    pub fn apply_message(&mut self, message: VpnMessage, ts: &str) -> (refresh: bool)
        ensures
            (final(self)@, refresh) == message_effect(old(self)@, message@, ts@),
    {
        match message {
            VpnMessage::StatusUpdate(status) => {
                self.connection_status = status.clone();
                if let ConnectionStatus::AuthenticationRequired { session_path, prompt } = status {
                    self.open_auth_dialog(session_path, prompt);
                }
                false
            },
            VpnMessage::LogMessage(msg) => {
                push_capped(&mut self.log_messages, msg, MAX_LOG_LINES);
                false
            },
            VpnMessage::Error(err) => {
                self.add_error_entry(ts, err.as_str());
                false
            },
            VpnMessage::SessionsList(sessions) => {
                self.sessions_list = sessions;
                false
            },
            VpnMessage::SessionStats(stats) => {
                self.session_stats = Some(stats);
                false
            },
            VpnMessage::ConfigsList(configs) => {
                self.configs_list = configs;
                if self.selected_config_idx.is_none() && !self.configs_list.is_empty() {
                    self.selected_config_idx = Some(0);
                }
                let count = decimal_text(self.configs_list.len());
                let text = concat3("Loaded ", count.as_str(), " configurations");
                self.add_log_entry(ts, text.as_str());
                false
            },
            VpnMessage::ConfigImported(msg) => {
                let text = concat2("Config imported: ", msg.as_str());
                self.add_log_entry(ts, text.as_str());
                true
            },
            VpnMessage::VpnCliVersion(version) => {
                self.vpn_cli_version = Some(version);
                false
            },
            VpnMessage::ConfigDumped { name, content } => {
                self.dumped_config_name = name;
                self.dumped_config_content = content;
                self.show_config_dump_dialog = true;
                false
            },
            VpnMessage::AuthenticationPrompt { session_path, prompt } => {
                let already = matches!(
                    self.connection_status,
                    ConnectionStatus::AuthenticationRequired { .. }
                );
                self.open_auth_dialog(session_path.clone(), prompt.clone());
                if !already {
                    self.connection_status =
                    ConnectionStatus::AuthenticationRequired { session_path, prompt };
                }
                false
            },
        }
    }

    /// Applies a message from the manager at the current time.
    pub fn process_message(&mut self, message: VpnMessage) -> (refresh: bool)
        ensures
            exists|ts: Seq<char>|
                #[trigger] is_clock_text(ts) && (final(self)@, refresh) == message_effect(
                    old(self)@,
                    message@,
                    ts,
                ),
    {
        let ts = clock_time();
        let r = self.apply_message(message, ts.as_str());
        assert(is_clock_text(ts@));
        r
    }

    /// Whether a connection can be started.
    pub fn can_connect(&self) -> (b: bool)
        ensures
            b == connect_allowed(self@),
    {
        matches!(self.connection_status, ConnectionStatus::Disconnected | ConnectionStatus::Error(_))
            && self.selected_config_idx.is_some()
    }

    /// Whether a connection can be stopped.
    pub fn can_disconnect(&self) -> (b: bool)
        ensures
            b == disconnect_allowed(self@),
    {
        matches!(
            self.connection_status,
            ConnectionStatus::Connected { .. } | ConnectionStatus::Connecting
                | ConnectionStatus::AuthenticationRequired { .. }
        )
    }

    /// The identifier of the selected profile.
    pub fn selected_identifier(&self) -> (r: Option<String>)
        ensures
            str_opt_view(r) == selected_identifier_of(self@),
    {
        match self.selected_config_idx {
            Some(i) => if i < self.configs_list.len() {
                Some(config_identifier(&self.configs_list[i]))
            } else {
                None
            },
            None => None,
        }
    }

    /// Whether the response field of the authentication dialog hides what
    /// is typed: it always does, whatever the prompt says, since the response
    /// goes to `openvpn3` as a password.
    pub fn auth_response_masked(&self) -> (b: bool)
        ensures
            b,
    {
        true
    }

    /// Marks the manager as started, logs it at time `ts`, and gives the
    /// commands that bring the new manager up to date; nothing when it was
    /// already started.
    pub fn begin_manager(&mut self, ts: &str) -> (cmds: Vec<VpnCommand>)
        ensures
            old(self)@.manager_started ==> final(self)@ == old(self)@ && cmds@.len() == 0,
            !old(self)@.manager_started ==> final(self)@ == with_log_entry(
                (AppView { manager_started: true, ..old(self)@ }),
                ts@,
                "VPN Manager started."@,
            ) && commands_view(cmds@) == startup_commands_of(old(self)@),
    {
        let mut cmds: Vec<VpnCommand> = Vec::new();
        if self.manager_started {
            return cmds;
        }
        self.manager_started = true;
        self.add_log_entry(ts, "VPN Manager started.");
        cmds.push(VpnCommand::ListConfigs);
        cmds.push(VpnCommand::ListSessions);
        cmds.push(VpnCommand::GetVpnCliVersion);
        if self.live_vpn_logs_active {
            cmds.push(VpnCommand::StartLiveVpnLogs);
        }
        if self.manager_log_buffer_active {
            cmds.push(VpnCommand::EnableManagerLogBuffer);
        } else {
            cmds.push(VpnCommand::DisableManagerLogBuffer);
        }
        assert(commands_view(cmds@) =~= startup_commands_of(old(self)@));
        cmds
    }

    /// The command that follows the live-log switch.
    pub fn live_log_command(&self) -> (c: VpnCommand)
        ensures
            c@ == (if self@.live_vpn_logs_active {
                CommandView::StartLiveVpnLogs
            } else {
                CommandView::StopLiveVpnLogs
            }),
    {
        if self.live_vpn_logs_active {
            VpnCommand::StartLiveVpnLogs
        } else {
            VpnCommand::StopLiveVpnLogs
        }
    }

    /// The command that follows the manager-log switch.
    pub fn manager_log_command(&self) -> (c: VpnCommand)
        ensures
            c@ == (if self@.manager_log_buffer_active {
                CommandView::EnableManagerLogBuffer
            } else {
                CommandView::DisableManagerLogBuffer
            }),
    {
        if self.manager_log_buffer_active {
            VpnCommand::EnableManagerLogBuffer
        } else {
            VpnCommand::DisableManagerLogBuffer
        }
    }

    /// The live-log switch set to `on`: the switch follows, and with a
    /// manager running the command that starts or stops the live log is
    /// given; without one nothing is sent.
    pub fn set_live_logs(&mut self, on: bool) -> (c: Option<VpnCommand>)
        ensures
            final(self)@ == (AppView { live_vpn_logs_active: on, ..old(self)@ }),
            command_opt_view(c) == (if old(self)@.manager_started {
                Some(if on {
                    CommandView::StartLiveVpnLogs
                } else {
                    CommandView::StopLiveVpnLogs
                })
            } else {
                None
            }),
    {
        self.live_vpn_logs_active = on;
        if self.manager_started {
            Some(self.live_log_command())
        } else {
            None
        }
    }

    /// The manager-log switch set to `on`: the switch follows, and with a
    /// manager running the command that enables or disables the manager log
    /// is given; without one nothing is sent.
    pub fn set_manager_logs(&mut self, on: bool) -> (c: Option<VpnCommand>)
        ensures
            final(self)@ == (AppView { manager_log_buffer_active: on, ..old(self)@ }),
            command_opt_view(c) == (if old(self)@.manager_started {
                Some(if on {
                    CommandView::EnableManagerLogBuffer
                } else {
                    CommandView::DisableManagerLogBuffer
                })
            } else {
                None
            }),
    {
        self.manager_log_buffer_active = on;
        if self.manager_started {
            Some(self.manager_log_command())
        } else {
            None
        }
    }

    /// Empties the displayed log.
    pub fn clear_logs(&mut self)
        ensures
            final(self)@ == (AppView { log_messages: seq![], ..old(self)@ }),
    {
        self.log_messages = Vec::new();
        assert(lines_view(self.log_messages@) =~= Seq::<Seq<char>>::empty());
    }

    /// Empties the error history, without a log entry.
    pub fn clear_errors(&mut self)
        ensures
            final(self)@ == (AppView { recent_errors: seq![], ..old(self)@ }),
    {
        self.recent_errors = Vec::new();
        assert(lines_view(self.recent_errors@) =~= Seq::<Seq<char>>::empty());
    }

    /// A file picked in the import dialog: its path is taken, and its stem
    /// (the file name without its extension, as the caller found it) becomes
    /// the name when no name was typed yet.
    pub fn pick_import_file(&mut self, path: String, stem: Option<String>)
        ensures
            final(self)@ == (AppView {
                import_config_path: path@,
                import_config_name: match stem {
                    Some(n) => if old(self)@.import_config_name.len() == 0 {
                        n@
                    } else {
                        old(self)@.import_config_name
                    },
                    None => old(self)@.import_config_name,
                },
                ..old(self)@
            }),
    {
        self.import_config_path = path;
        if self.import_config_name.unicode_len() == 0 {
            if let Some(n) = stem {
                self.import_config_name = n;
            }
        }
    }

    /// The Import button of the import dialog: an empty name or path is
    /// refused with an error at time `ts`; otherwise, with a manager, the
    /// import command is given and the dialog closes and clears.
    pub fn submit_import(&mut self, ts: &str) -> (c: Option<VpnCommand>)
        ensures
            old(self)@.import_config_name.len() == 0 ==> c is None && final(self)@ == with_error_entry(
                old(self)@,
                ts@,
                "Import failed: Configuration name cannot be empty."@,
            ),
            old(self)@.import_config_name.len() > 0 && old(self)@.import_config_path.len() == 0
                ==> c is None && final(self)@ == with_error_entry(
                old(self)@,
                ts@,
                "Import failed: Configuration file path cannot be empty."@,
            ),
            old(self)@.import_config_name.len() > 0 && old(self)@.import_config_path.len() > 0
                && !old(self)@.manager_started ==> c is None && final(self)@ == old(self)@,
            old(self)@.import_config_name.len() > 0 && old(self)@.import_config_path.len() > 0
                && old(self)@.manager_started ==> command_opt_view(c) == Some(
                CommandView::ImportConfig(
                    old(self)@.import_config_path,
                    old(self)@.import_config_name,
                ),
            ) && final(self)@ == (AppView {
                show_import_config_dialog: false,
                import_config_name: seq![],
                import_config_path: seq![],
                ..old(self)@
            }),
    {
        if self.import_config_name.unicode_len() == 0 {
            self.add_error_entry(ts, "Import failed: Configuration name cannot be empty.");
            None
        } else if self.import_config_path.unicode_len() == 0 {
            self.add_error_entry(ts, "Import failed: Configuration file path cannot be empty.");
            None
        } else if self.manager_started {
            let c = VpnCommand::ImportConfig(
                self.import_config_path.clone(),
                self.import_config_name.clone(),
            );
            self.show_import_config_dialog = false;
            self.import_config_name = String::new();
            self.import_config_path = String::new();
            Some(c)
        } else {
            None
        }
    }

    /// The Cancel button of the import dialog: it closes and clears.
    pub fn cancel_import(&mut self)
        ensures
            final(self)@ == (AppView {
                show_import_config_dialog: false,
                import_config_name: seq![],
                import_config_path: seq![],
                ..old(self)@
            }),
    {
        self.show_import_config_dialog = false;
        self.import_config_name = String::new();
        self.import_config_path = String::new();
    }

    /// The Close button of the configuration dump dialog.
    pub fn close_dump_dialog(&mut self)
        ensures
            final(self)@ == (AppView {
                show_config_dump_dialog: false,
                dumped_config_name: seq![],
                dumped_config_content: seq![],
                ..old(self)@
            }),
    {
        self.show_config_dump_dialog = false;
        self.dumped_config_name = String::new();
        self.dumped_config_content = String::new();
    }

    /// Submitting the authentication dialog: it closes; with a manager and a
    /// session waiting, the response is sent for that session.
    pub fn submit_auth(&mut self) -> (c: Option<VpnCommand>)
        ensures
            final(self)@ == (AppView { show_auth_dialog: false, ..old(self)@ }),
            command_opt_view(c) == (if old(self)@.manager_started
                && old(self)@.auth_session_path is Some {
                Some(
                    CommandView::SubmitAuthentication {
                        session_path: old(self)@.auth_session_path->0,
                        response: old(self)@.auth_input_response,
                    },
                )
            } else {
                None
            }),
    {
        let c = match &self.auth_session_path {
            Some(sp) => if self.manager_started {
                Some(
                    VpnCommand::SubmitAuthentication {
                        session_path: sp.clone(),
                        response: self.auth_input_response.clone(),
                    },
                )
            } else {
                None
            },
            None => None,
        };
        self.show_auth_dialog = false;
        c
    }

    /// The Cancel button of the authentication dialog, at time `ts`: it
    /// closes and logs; `true` when the pending connection must be dropped.
    pub fn cancel_auth(&mut self, ts: &str) -> (disconnect: bool)
        ensures
            final(self)@ == with_log_entry(
                (AppView { show_auth_dialog: false, ..old(self)@ }),
                ts@,
                "Authentication cancelled by user."@,
            ),
            disconnect == (old(self)@.connection_status is AuthenticationRequired),
    {
        self.show_auth_dialog = false;
        self.add_log_entry(ts, "Authentication cancelled by user.");
        matches!(self.connection_status, ConnectionStatus::AuthenticationRequired { .. })
    }

    /// Closing the error dialog clears its message.
    pub fn dismiss_error(&mut self)
        ensures
            final(self)@ == (AppView {
                show_error_dialog: false,
                current_error_message: seq![],
                ..old(self)@
            }),
    {
        self.show_error_dialog = false;
        self.current_error_message = String::new();
    }

    /// The View Logs button of the error dialog: it closes, clears its
    /// message and shows the Logs tab.
    pub fn view_logs_after_error(&mut self)
        ensures
            final(self)@ == (AppView {
                show_error_dialog: false,
                current_error_message: seq![],
                active_tab: ActiveTab::Logs,
                ..old(self)@
            }),
    {
        self.dismiss_error();
        self.active_tab = ActiveTab::Logs;
    }

    /// The Retry button of the error dialog: it closes and gives the
    /// identifier of the selected profile to connect with.
    pub fn retry_after_error(&mut self) -> (id: Option<String>)
        ensures
            final(self)@ == (AppView {
                show_error_dialog: false,
                current_error_message: seq![],
                ..old(self)@
            }),
            str_opt_view(id) == selected_identifier_of(old(self)@),
    {
        self.dismiss_error();
        self.selected_identifier()
    }

    /// A connect request for `id` at time `ts`: logged, and the command given
    /// when a manager runs.
    pub fn connect_vpn(&mut self, id: &str, ts: &str) -> (c: Option<VpnCommand>)
        ensures
            old(self)@.manager_started ==> final(self)@ == with_log_entry(
                old(self)@,
                ts@,
                "Sending connect command for: "@ + id@,
            ) && command_opt_view(c) == Some(CommandView::Connect(id@)),
            !old(self)@.manager_started ==> final(self)@ == old(self)@ && c is None,
    {
        if self.manager_started {
            let text = concat2("Sending connect command for: ", id);
            self.add_log_entry(ts, text.as_str());
            Some(VpnCommand::Connect(String::from_str(id)))
        } else {
            None
        }
    }

    /// A disconnect request at time `ts`: logged, and the command given when
    /// a manager runs.
    pub fn disconnect_vpn(&mut self, ts: &str) -> (c: Option<VpnCommand>)
        ensures
            old(self)@.manager_started ==> final(self)@ == with_log_entry(
                old(self)@,
                ts@,
                "Sending disconnect command."@,
            ) && command_opt_view(c) == Some(CommandView::Disconnect),
            !old(self)@.manager_started ==> final(self)@ == old(self)@ && c is None,
    {
        if self.manager_started {
            self.add_log_entry(ts, "Sending disconnect command.");
            Some(VpnCommand::Disconnect)
        } else {
            None
        }
    }

    /// A command could not be handed to the manager: `what` names it
    /// (`connect` or `disconnect`) and `err` says why.
    pub fn send_failed(&mut self, what: &str, err: &str, ts: &str)
        ensures
            final(self)@ == with_error_entry(
                old(self)@,
                ts@,
                "Failed to send "@ + what@ + " command: "@ + err@,
            ),
    {
        let text = concat4("Failed to send ", what, " command: ", err);
        self.add_error_entry(ts, text.as_str());
    }

    /// The removal of a profile is requested at time `ts`.
    pub fn request_remove(&mut self, path: &str, ts: &str) -> (c: VpnCommand)
        ensures
            final(self)@ == with_log_entry(
                old(self)@,
                ts@,
                "Requesting removal of config: "@ + path@,
            ),
            c@ == CommandView::RemoveConfig(path@),
    {
        let text = concat2("Requesting removal of config: ", path);
        self.add_log_entry(ts, text.as_str());
        VpnCommand::RemoveConfig(String::from_str(path))
    }

    /// The dump of a profile is requested at time `ts`.
    pub fn request_dump(&mut self, path: &str, ts: &str) -> (c: VpnCommand)
        ensures
            final(self)@ == with_log_entry(
                old(self)@,
                ts@,
                "Requesting dump of config: "@ + path@,
            ),
            c@ == CommandView::DumpConfig(path@),
    {
        let text = concat2("Requesting dump of config: ", path);
        self.add_log_entry(ts, text.as_str());
        VpnCommand::DumpConfig(String::from_str(path))
    }

    /// The outcome of saving the settings, logged at time `ts`.
    pub fn settings_saved(&mut self, result: Result<(), String>, ts: &str)
        ensures
            final(self)@ == with_log_entry(
                old(self)@,
                ts@,
                match result {
                    Ok(_) => "Settings saved successfully."@,
                    Err(e) => "Failed to save settings: "@ + e@,
                },
            ),
    {
        match result {
            Ok(_) => self.add_log_entry(ts, "Settings saved successfully."),
            Err(e) => {
                let text = concat2("Failed to save settings: ", e.as_str());
                self.add_log_entry(ts, text.as_str());
            },
        }
    }

    /// Clears the error history and logs it at time `ts`.
    pub fn clear_error_history(&mut self, ts: &str)
        ensures
            final(self)@ == with_log_entry(
                (AppView { recent_errors: seq![], ..old(self)@ }),
                ts@,
                "Error history cleared."@,
            ),
    {
        self.recent_errors = Vec::new();
        assert(lines_view(self.recent_errors@) =~= Seq::<Seq<char>>::empty());
        self.add_log_entry(ts, "Error history cleared.");
    }

    /// The newest errors first, at most three, and a note on how many more
    /// there are.
    pub fn recent_error_lines(&self) -> (r: (Vec<String>, Option<String>))
        ensures
            r.0@.len() == if self@.recent_errors.len() < 3 {
                self@.recent_errors.len()
            } else {
                3
            },
            forall|i: int|
                0 <= i < r.0@.len() ==> #[trigger] r.0@[i]@ == self@.recent_errors[self@.recent_errors.len()
                    - 1 - i],
            self@.recent_errors.len() > 3 ==> str_opt_view(r.1) == Some(
                "... and "@ + decimal((self@.recent_errors.len() - 3) as nat)
                    + " more errors (check Logs tab)"@,
            ),
            self@.recent_errors.len() <= 3 ==> r.1 is None,
    {
        let n = self.recent_errors.len();
        let mut shown: Vec<String> = Vec::new();
        let mut k: usize = 0;
        while k < 3 && k < n
            invariant
                n == self.recent_errors@.len(),
                k <= 3,
                k <= n,
                shown@.len() == k,
                forall|i: int|
                    0 <= i < k ==> #[trigger] shown@[i]@ == self.recent_errors@[n - 1 - i]@,
            decreases 3 - k,
        {
            shown.push(self.recent_errors[n - 1 - k].clone());
            k = k + 1;
        }
        let note = if n > 3 {
            let count = decimal_text(n - 3);
            Some(concat3("... and ", count.as_str(), " more errors (check Logs tab)"))
        } else {
            None
        };
        (shown, note)
    }

    /// The log line written when the application exits, at time `ts`.
    pub fn note_exit(&mut self, ts: &str)
        ensures
            final(self)@ == with_log_entry(
                old(self)@,
                ts@,
                "Application exiting. Shutting down VPN manager."@,
            ),
    {
        self.add_log_entry(ts, "Application exiting. Shutting down VPN manager.");
    }
}

} // verus!
