//! The data exchanged between the user interface and the session manager,
//! with the mathematical views that contracts speak of.
use vstd::prelude::*;

verus! {

/// The state of the VPN connection as the manager sees it.
#[derive(Debug)]
pub enum ConnectionStatus {
    Disconnected,
    Connecting,
    Connected { ip: String, duration: String },
    Disconnecting,
    Error(String),
    AuthenticationRequired { session_path: String, prompt: String },
}

/// The view of a `ConnectionStatus`.
pub enum StatusView {
    Disconnected,
    Connecting,
    Connected { ip: Seq<char>, duration: Seq<char> },
    Disconnecting,
    Error(Seq<char>),
    AuthenticationRequired { session_path: Seq<char>, prompt: Seq<char> },
}

impl View for ConnectionStatus {
    type V = StatusView;

    open spec fn view(&self) -> StatusView {
        match self {
            ConnectionStatus::Disconnected => StatusView::Disconnected,
            ConnectionStatus::Connecting => StatusView::Connecting,
            ConnectionStatus::Connected { ip, duration } => StatusView::Connected {
                ip: ip@,
                duration: duration@,
            },
            ConnectionStatus::Disconnecting => StatusView::Disconnecting,
            ConnectionStatus::Error(e) => StatusView::Error(e@),
            ConnectionStatus::AuthenticationRequired { session_path, prompt } =>
                StatusView::AuthenticationRequired { session_path: session_path@, prompt: prompt@ },
        }
    }
}

impl Clone for ConnectionStatus {
    fn clone(&self) -> (r: Self)
        ensures
            r == *self,
    {
        match self {
            ConnectionStatus::Disconnected => ConnectionStatus::Disconnected,
            ConnectionStatus::Connecting => ConnectionStatus::Connecting,
            ConnectionStatus::Connected { ip, duration } => ConnectionStatus::Connected {
                ip: ip.clone(),
                duration: duration.clone(),
            },
            ConnectionStatus::Disconnecting => ConnectionStatus::Disconnecting,
            ConnectionStatus::Error(e) => ConnectionStatus::Error(e.clone()),
            ConnectionStatus::AuthenticationRequired { session_path, prompt } =>
                ConnectionStatus::AuthenticationRequired {
                session_path: session_path.clone(),
                prompt: prompt.clone(),
            },
        }
    }
}

impl PartialEq for ConnectionStatus {
    fn eq(&self, other: &Self) -> (r: bool) {
        match (self, other) {
            (ConnectionStatus::Disconnected, ConnectionStatus::Disconnected) => true,
            (ConnectionStatus::Connecting, ConnectionStatus::Connecting) => true,
            (
                ConnectionStatus::Connected { ip: a, duration: b },
                ConnectionStatus::Connected { ip: c, duration: d },
            ) => a.eq(c) && b.eq(d),
            (ConnectionStatus::Disconnecting, ConnectionStatus::Disconnecting) => true,
            (ConnectionStatus::Error(a), ConnectionStatus::Error(b)) => a.eq(b),
            (
                ConnectionStatus::AuthenticationRequired { session_path: a, prompt: b },
                ConnectionStatus::AuthenticationRequired { session_path: c, prompt: d },
            ) => a.eq(c) && b.eq(d),
            _ => false,
        }
    }
}

impl vstd::std_specs::cmp::PartialEqSpecImpl for ConnectionStatus {
    open spec fn obeys_eq_spec() -> bool {
        true
    }

    open spec fn eq_spec(&self, other: &Self) -> bool {
        self@ == other@
    }
}

/// Whether two statuses are the same variant.
fn same_variant(a: &ConnectionStatus, b: &ConnectionStatus) -> (r: bool)
    ensures
        r == ((a@ is Disconnected && b@ is Disconnected) || (a@ is Connecting && b@ is Connecting)
            || (a@ is Connected && b@ is Connected) || (a@ is Disconnecting && b@ is Disconnecting)
            || (a@ is Error && b@ is Error) || (a@ is AuthenticationRequired
            && b@ is AuthenticationRequired)),
{
    match (a, b) {
        (ConnectionStatus::Disconnected, ConnectionStatus::Disconnected) => true,
        (ConnectionStatus::Connecting, ConnectionStatus::Connecting) => true,
        (ConnectionStatus::Connected { .. }, ConnectionStatus::Connected { .. }) => true,
        (ConnectionStatus::Disconnecting, ConnectionStatus::Disconnecting) => true,
        (ConnectionStatus::Error(_), ConnectionStatus::Error(_)) => true,
        (
            ConnectionStatus::AuthenticationRequired { .. },
            ConnectionStatus::AuthenticationRequired { .. },
        ) => true,
        _ => false,
    }
}

/// Whether a status update carries news: a different variant, or the same
/// variant with different details.
pub fn status_changed(old: &ConnectionStatus, new: &ConnectionStatus) -> (r: bool)
    ensures
        r == (old@ != new@),
{
    match (old, new) {
        (
            ConnectionStatus::Connected { ip: o_ip, duration: o_dur },
            ConnectionStatus::Connected { ip: n_ip, duration: n_dur },
        ) => !o_ip.eq(n_ip) || !o_dur.eq(n_dur),
        (ConnectionStatus::Error(o_err), ConnectionStatus::Error(n_err)) => !o_err.eq(n_err),
        (
            ConnectionStatus::AuthenticationRequired { session_path: o_p, prompt: o_pr },
            ConnectionStatus::AuthenticationRequired { session_path: n_p, prompt: n_pr },
        ) => !o_p.eq(n_p) || !o_pr.eq(n_pr),
        _ => !same_variant(old, new),
    }
}

/// One session of `openvpn3 sessions-list`.
#[derive(Debug)]
pub struct SessionInfo {
    pub session_path: String,
    pub config_name: String,
    pub status: String,
    pub created: String,
    pub owner: String,
}

/// The view of a `SessionInfo`.
pub struct SessionInfoView {
    pub session_path: Seq<char>,
    pub config_name: Seq<char>,
    pub status: Seq<char>,
    pub created: Seq<char>,
    pub owner: Seq<char>,
}

impl View for SessionInfo {
    type V = SessionInfoView;

    open spec fn view(&self) -> SessionInfoView {
        SessionInfoView {
            session_path: self.session_path@,
            config_name: self.config_name@,
            status: self.status@,
            created: self.created@,
            owner: self.owner@,
        }
    }
}

impl Clone for SessionInfo {
    fn clone(&self) -> (r: Self)
        ensures
            r == *self,
    {
        SessionInfo {
            session_path: self.session_path.clone(),
            config_name: self.config_name.clone(),
            status: self.status.clone(),
            created: self.created.clone(),
            owner: self.owner.clone(),
        }
    }
}

/// Traffic counters of a session (`openvpn3 session-stats`).
#[derive(Debug)]
pub struct SessionStats {
    pub bytes_in: u64,
    pub bytes_out: u64,
    pub packets_in: u64,
    pub packets_out: u64,
    pub connected_since: String,
    pub virtual_ip: String,
    pub remote_ip: String,
}

/// The view of a `SessionStats`.
pub struct SessionStatsView {
    pub bytes_in: u64,
    pub bytes_out: u64,
    pub packets_in: u64,
    pub packets_out: u64,
    pub connected_since: Seq<char>,
    pub virtual_ip: Seq<char>,
    pub remote_ip: Seq<char>,
}

impl View for SessionStats {
    type V = SessionStatsView;

    open spec fn view(&self) -> SessionStatsView {
        SessionStatsView {
            bytes_in: self.bytes_in,
            bytes_out: self.bytes_out,
            packets_in: self.packets_in,
            packets_out: self.packets_out,
            connected_since: self.connected_since@,
            virtual_ip: self.virtual_ip@,
            remote_ip: self.remote_ip@,
        }
    }
}

impl Clone for SessionStats {
    fn clone(&self) -> (r: Self)
        ensures
            r == *self,
    {
        SessionStats {
            bytes_in: self.bytes_in,
            bytes_out: self.bytes_out,
            packets_in: self.packets_in,
            packets_out: self.packets_out,
            connected_since: self.connected_since.clone(),
            virtual_ip: self.virtual_ip.clone(),
            remote_ip: self.remote_ip.clone(),
        }
    }
}

/// One configuration profile known to OpenVPN 3.
#[derive(Debug)]
pub struct ConfigProfile {
    pub path: String,
    pub name: String,
    pub import_time: String,
    pub owner: String,
    pub valid: bool,
}

/// The view of a `ConfigProfile`.
pub struct ConfigProfileView {
    pub path: Seq<char>,
    pub name: Seq<char>,
    pub import_time: Seq<char>,
    pub owner: Seq<char>,
    pub valid: bool,
}

impl View for ConfigProfile {
    type V = ConfigProfileView;

    open spec fn view(&self) -> ConfigProfileView {
        ConfigProfileView {
            path: self.path@,
            name: self.name@,
            import_time: self.import_time@,
            owner: self.owner@,
            valid: self.valid,
        }
    }
}

impl Clone for ConfigProfile {
    fn clone(&self) -> (r: Self)
        ensures
            r == *self,
    {
        ConfigProfile {
            path: self.path.clone(),
            name: self.name.clone(),
            import_time: self.import_time.clone(),
            owner: self.owner.clone(),
            valid: self.valid,
        }
    }
}

/// The views of a sequence of sessions.
pub open spec fn sessions_view(s: Seq<SessionInfo>) -> Seq<SessionInfoView> {
    s.map_values(|x: SessionInfo| x@)
}

/// The views of a sequence of configuration profiles.
pub open spec fn configs_view(s: Seq<ConfigProfile>) -> Seq<ConfigProfileView> {
    s.map_values(|x: ConfigProfile| x@)
}

/// The view of optional statistics.
pub open spec fn stats_opt_view(s: Option<SessionStats>) -> Option<SessionStatsView> {
    match s {
        Some(x) => Some(x@),
        None => None,
    }
}

/// The view of an optional string.
pub open spec fn str_opt_view(s: Option<String>) -> Option<Seq<char>> {
    match s {
        Some(x) => Some(x@),
        None => None,
    }
}

/// A message from the manager to the user interface.
#[derive(Debug)]
pub enum VpnMessage {
    StatusUpdate(ConnectionStatus),
    LogMessage(String),
    Error(String),
    SessionsList(Vec<SessionInfo>),
    SessionStats(SessionStats),
    ConfigsList(Vec<ConfigProfile>),
    ConfigImported(String),
    VpnCliVersion(String),
    ConfigDumped { name: String, content: String },
    AuthenticationPrompt { session_path: String, prompt: String },
}

/// The view of a `VpnMessage`.
pub enum MessageView {
    StatusUpdate(StatusView),
    LogMessage(Seq<char>),
    Error(Seq<char>),
    SessionsList(Seq<SessionInfoView>),
    SessionStats(SessionStatsView),
    ConfigsList(Seq<ConfigProfileView>),
    ConfigImported(Seq<char>),
    VpnCliVersion(Seq<char>),
    ConfigDumped { name: Seq<char>, content: Seq<char> },
    AuthenticationPrompt { session_path: Seq<char>, prompt: Seq<char> },
}

impl View for VpnMessage {
    type V = MessageView;

    open spec fn view(&self) -> MessageView {
        match self {
            VpnMessage::StatusUpdate(s) => MessageView::StatusUpdate(s@),
            VpnMessage::LogMessage(m) => MessageView::LogMessage(m@),
            VpnMessage::Error(m) => MessageView::Error(m@),
            VpnMessage::SessionsList(v) => MessageView::SessionsList(sessions_view(v@)),
            VpnMessage::SessionStats(s) => MessageView::SessionStats(s@),
            VpnMessage::ConfigsList(v) => MessageView::ConfigsList(configs_view(v@)),
            VpnMessage::ConfigImported(m) => MessageView::ConfigImported(m@),
            VpnMessage::VpnCliVersion(m) => MessageView::VpnCliVersion(m@),
            VpnMessage::ConfigDumped { name, content } => MessageView::ConfigDumped {
                name: name@,
                content: content@,
            },
            VpnMessage::AuthenticationPrompt { session_path, prompt } =>
                MessageView::AuthenticationPrompt { session_path: session_path@, prompt: prompt@ },
        }
    }
}

/// The views of a sequence of messages.
pub open spec fn messages_view(s: Seq<VpnMessage>) -> Seq<MessageView> {
    s.map_values(|m: VpnMessage| m@)
}

/// A request from the user interface to the manager.
#[derive(Debug)]
pub enum VpnCommand {
    Connect(String),
    Disconnect,
    ListSessions,
    GetSessionStats,
    ListConfigs,
    ImportConfig(String, String),
    RemoveConfig(String),
    GetStatusUpdate,
    Shutdown,
    EnableManagerLogBuffer,
    DisableManagerLogBuffer,
    StartLiveVpnLogs,
    StopLiveVpnLogs,
    GetVpnCliVersion,
    DumpConfig(String),
    SubmitAuthentication { session_path: String, response: String },
}

/// The view of a `VpnCommand`.
pub enum CommandView {
    Connect(Seq<char>),
    Disconnect,
    ListSessions,
    GetSessionStats,
    ListConfigs,
    ImportConfig(Seq<char>, Seq<char>),
    RemoveConfig(Seq<char>),
    GetStatusUpdate,
    Shutdown,
    EnableManagerLogBuffer,
    DisableManagerLogBuffer,
    StartLiveVpnLogs,
    StopLiveVpnLogs,
    GetVpnCliVersion,
    DumpConfig(Seq<char>),
    SubmitAuthentication { session_path: Seq<char>, response: Seq<char> },
}

impl View for VpnCommand {
    type V = CommandView;

    open spec fn view(&self) -> CommandView {
        match self {
            VpnCommand::Connect(s) => CommandView::Connect(s@),
            VpnCommand::Disconnect => CommandView::Disconnect,
            VpnCommand::ListSessions => CommandView::ListSessions,
            VpnCommand::GetSessionStats => CommandView::GetSessionStats,
            VpnCommand::ListConfigs => CommandView::ListConfigs,
            VpnCommand::ImportConfig(p, n) => CommandView::ImportConfig(p@, n@),
            VpnCommand::RemoveConfig(s) => CommandView::RemoveConfig(s@),
            VpnCommand::GetStatusUpdate => CommandView::GetStatusUpdate,
            VpnCommand::Shutdown => CommandView::Shutdown,
            VpnCommand::EnableManagerLogBuffer => CommandView::EnableManagerLogBuffer,
            VpnCommand::DisableManagerLogBuffer => CommandView::DisableManagerLogBuffer,
            VpnCommand::StartLiveVpnLogs => CommandView::StartLiveVpnLogs,
            VpnCommand::StopLiveVpnLogs => CommandView::StopLiveVpnLogs,
            VpnCommand::GetVpnCliVersion => CommandView::GetVpnCliVersion,
            VpnCommand::DumpConfig(s) => CommandView::DumpConfig(s@),
            VpnCommand::SubmitAuthentication { session_path, response } =>
                CommandView::SubmitAuthentication { session_path: session_path@, response: response@ },
        }
    }
}

} // verus!
