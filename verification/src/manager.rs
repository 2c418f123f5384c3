//! The session manager: the decisions of the background loop that drives
//! the `openvpn3` command, one event at a time.
//!
//! The caller runs the loop: it performs the request that each step returns
//! (run `openvpn3`, start or stop the live log, poll the command queue) and
//! hands the result back as the next event.
use vstd::prelude::*;
use crate::manager_spec::{
    accepts, after, at, auth_args, auth_output_turn, command_turn, config_path_prefix,
    configs_done, configs_list_args, connect_args, connect_finish_turn, connect_output_turn,
    connect_turn, disconnect_args, disconnect_finish_turn, disconnect_output_turn,
    disconnect_reset, disconnect_turn, dump_args, dump_error, dump_name, dump_output_turn,
    find_config, find_session, finish_turn, reports_auth_failure, import_args, import_error, import_output_turn,
    kill_error, manager_error, manager_log, monitor_end_turn, monitor_stats_turn, monitor_turn,
    next_turn, remove_args, remove_error, remove_output_turn, sessions_done, sessions_list_args,
    spawn_log_turn, stats_args, stats_done, stats_turn, status_debug, status_done,
    terminate_turn, version_args, version_done, with_status, Done, EventView, ManagerView,
    OutputView, RequestView, StageView, Turn,
};
use crate::model::{
    configs_view, messages_view, sessions_view, stats_opt_view, str_opt_view, CommandView,
    ConfigProfile, ConnectionStatus, SessionInfo, SessionStats, StatusView, VpnCommand,
    VpnMessage,
};
use crate::parse::{
    extract_session_path_from_output, parse_configs_list, parse_session_stats,
    parse_sessions_list, read_session_status, status_from_output,
};
use crate::text::{
    concat2, concat3, concat4, concat5, contains, debug_quote, starts_with, to_lowercase, trim,
};

verus! {

broadcast use crate::manager_spec::lemma_msgs_assoc;

/// What the manager is waiting for.
#[derive(Debug)]
pub enum Stage {
    Fresh,
    InitConfigs,
    InitSessions,
    InitVersion,
    Idle,
    Connecting(String),
    ConnectRefresh(String),
    Disconnecting,
    StatusRefresh,
    ListingSessions,
    FetchingStats(String),
    ListingConfigs,
    Importing(String),
    ImportRefresh(String),
    Removing(String),
    RemoveRefresh(String),
    LogRestartStop,
    LogStarting,
    LogStopping,
    ReadingVersion,
    Dumping(String),
    Authenticating(String),
    AuthRefresh,
    ShuttingDown,
    MonitorStatus,
    MonitorStats(String),
    Stopped,
}

impl View for Stage {
    type V = StageView;

    open spec fn view(&self) -> StageView {
        match self {
            Stage::Fresh => StageView::Fresh,
            Stage::InitConfigs => StageView::InitConfigs,
            Stage::InitSessions => StageView::InitSessions,
            Stage::InitVersion => StageView::InitVersion,
            Stage::Idle => StageView::Idle,
            Stage::Connecting(s) => StageView::Connecting(s@),
            Stage::ConnectRefresh(s) => StageView::ConnectRefresh(s@),
            Stage::Disconnecting => StageView::Disconnecting,
            Stage::StatusRefresh => StageView::StatusRefresh,
            Stage::ListingSessions => StageView::ListingSessions,
            Stage::FetchingStats(s) => StageView::FetchingStats(s@),
            Stage::ListingConfigs => StageView::ListingConfigs,
            Stage::Importing(s) => StageView::Importing(s@),
            Stage::ImportRefresh(s) => StageView::ImportRefresh(s@),
            Stage::Removing(s) => StageView::Removing(s@),
            Stage::RemoveRefresh(s) => StageView::RemoveRefresh(s@),
            Stage::LogRestartStop => StageView::LogRestartStop,
            Stage::LogStarting => StageView::LogStarting,
            Stage::LogStopping => StageView::LogStopping,
            Stage::ReadingVersion => StageView::ReadingVersion,
            Stage::Dumping(s) => StageView::Dumping(s@),
            Stage::Authenticating(s) => StageView::Authenticating(s@),
            Stage::AuthRefresh => StageView::AuthRefresh,
            Stage::ShuttingDown => StageView::ShuttingDown,
            Stage::MonitorStatus => StageView::MonitorStatus,
            Stage::MonitorStats(s) => StageView::MonitorStats(s@),
            Stage::Stopped => StageView::Stopped,
        }
    }
}

/// What a finished `openvpn3` run reports.
#[derive(Debug)]
pub struct CommandOutput {
    pub success: bool,
    pub stdout: String,
    pub stderr: String,
}

impl View for CommandOutput {
    type V = OutputView;

    open spec fn view(&self) -> OutputView {
        OutputView { success: self.success, stdout: self.stdout@, stderr: self.stderr@ }
    }
}

/// The view of the outcome of a run.
pub open spec fn run_view(r: Result<CommandOutput, String>) -> Result<OutputView, Seq<char>> {
    match r {
        Ok(o) => Ok(o@),
        Err(e) => Err(e@),
    }
}

/// The view of a success or an error text.
pub open spec fn unit_view(r: Result<(), String>) -> Result<(), Seq<char>> {
    match r {
        Ok(_) => Ok(()),
        Err(e) => Err(e@),
    }
}

/// An event that the manager reacts to.
#[derive(Debug)]
pub enum Event {
    /// The loop starts.
    Start,
    /// A round starts; the command waiting in the queue, if any.
    Tick(Option<VpnCommand>),
    /// The outcome of a requested run: its output, or why it could not run.
    Output(Result<CommandOutput, String>),
    /// The outcome of starting `openvpn3 log`.
    Spawned(Result<(), String>),
    /// The outcome of stopping `openvpn3 log`.
    Killed(Result<(), String>),
}

impl View for Event {
    type V = EventView;

    open spec fn view(&self) -> EventView {
        match self {
            Event::Start => EventView::Start,
            Event::Tick(c) => EventView::Tick(
                match c {
                    Some(x) => Some(x@),
                    None => None,
                },
            ),
            Event::Output(r) => EventView::Output(run_view(*r)),
            Event::Spawned(r) => EventView::Spawned(unit_view(*r)),
            Event::Killed(r) => EventView::Killed(unit_view(*r)),
        }
    }
}

/// What the manager asks of the outside world next.
#[derive(Debug)]
pub enum Request {
    /// Run `openvpn3` with these arguments and report its output.
    Run(Vec<String>),
    /// Run `openvpn3` with these arguments, writing the text and a newline
    /// to its standard input, and report its output.
    RunWithInput(Vec<String>, String),
    /// Start `openvpn3 log` and forward its lines to the user interface.
    SpawnLiveLog,
    /// Stop the running `openvpn3 log`.
    KillLiveLog,
    /// Report the command waiting in the queue, if any, at once.
    Poll,
    /// Wait two seconds, then report the command waiting in the queue.
    SleepThenPoll,
    /// The loop is over.
    Exit,
}

/// The views of command arguments.
pub open spec fn args_view(v: Seq<String>) -> Seq<Seq<char>> {
    v.map_values(|s: String| s@)
}

impl View for Request {
    type V = RequestView;

    open spec fn view(&self) -> RequestView {
        match self {
            Request::Run(a) => RequestView::Run(args_view(a@)),
            Request::RunWithInput(a, s) => RequestView::RunWithInput(args_view(a@), s@),
            Request::SpawnLiveLog => RequestView::SpawnLiveLog,
            Request::KillLiveLog => RequestView::KillLiveLog,
            Request::Poll => RequestView::Poll,
            Request::SleepThenPoll => RequestView::SleepThenPoll,
            Request::Exit => RequestView::Exit,
        }
    }
}

/// A turn was carried out: the state, the messages added to `out1` after
/// those of `out0`, and the request are those of `t`.
pub open spec fn turn_made(
    t: Turn,
    m1: ManagerView,
    out0: Seq<VpnMessage>,
    out1: Seq<VpnMessage>,
    req: RequestView,
) -> bool {
    &&& m1 == t.state
    &&& messages_view(out1) == messages_view(out0) + t.msgs
    &&& req == t.request
}

/// A handler was carried out as `d` says.
pub open spec fn done_made(
    d: Done,
    m1: ManagerView,
    out0: Seq<VpnMessage>,
    out1: Seq<VpnMessage>,
    r: Result<(), Seq<char>>,
) -> bool {
    &&& m1 == d.state
    &&& messages_view(out1) == messages_view(out0) + d.msgs
    &&& r == d.result
}

/// The state the manager starts in.
pub open spec fn initial_manager() -> ManagerView {
    ManagerView {
        status: StatusView::Disconnected,
        session_path: None,
        stats: None,
        sessions: seq![],
        configs: seq![],
        logging: true,
        live_log: false,
        monitoring: false,
        stage: StageView::Fresh,
    }
}

/// Appends a message.
fn emit(out: &mut Vec<VpnMessage>, msg: VpnMessage)
    ensures
        messages_view(final(out)@) == messages_view(old(out)@) + seq![msg@],
{
    let ghost before = out@;
    out.push(msg);
    assert(messages_view(out@) =~= messages_view(before) + seq![msg@]);
}

/// A one-element argument list.
fn args1(a: &str) -> (r: Vec<String>)
    ensures
        args_view(r@) == seq![a@],
{
    let mut v: Vec<String> = Vec::new();
    v.push(String::from_str(a));
    assert(args_view(v@) =~= seq![a@]);
    v
}

/// A three-element argument list.
fn args3(a: &str, b: &str, c: &str) -> (r: Vec<String>)
    ensures
        args_view(r@) == seq![a@, b@, c@],
{
    let mut v: Vec<String> = Vec::new();
    v.push(String::from_str(a));
    v.push(String::from_str(b));
    v.push(String::from_str(c));
    assert(args_view(v@) =~= seq![a@, b@, c@]);
    v
}

/// A four-element argument list.
fn args4(a: &str, b: &str, c: &str, d: &str) -> (r: Vec<String>)
    ensures
        args_view(r@) == seq![a@, b@, c@, d@],
{
    let mut v: Vec<String> = Vec::new();
    v.push(String::from_str(a));
    v.push(String::from_str(b));
    v.push(String::from_str(c));
    v.push(String::from_str(d));
    assert(args_view(v@) =~= seq![a@, b@, c@, d@]);
    v
}

/// A six-element argument list.
fn args6(a: &str, b: &str, c: &str, d: &str, e: &str, f: &str) -> (r: Vec<String>)
    ensures
        args_view(r@) == seq![a@, b@, c@, d@, e@, f@],
{
    let mut v: Vec<String> = Vec::new();
    v.push(String::from_str(a));
    v.push(String::from_str(b));
    v.push(String::from_str(c));
    v.push(String::from_str(d));
    v.push(String::from_str(e));
    v.push(String::from_str(f));
    assert(args_view(v@) =~= seq![a@, b@, c@, d@, e@, f@]);
    v
}

/// Whether `id` names a configuration by its object path.
fn is_config_path(id: &str) -> (b: bool)
    ensures
        b == crate::text::has_prefix(id@, config_path_prefix()),
{
    starts_with(id, "/net/openvpn/v3/configuration/")
}

/// Whether the lowercased error text of a failed session start reports a
/// failed authentication, so that credentials are asked for.
pub fn auth_failure_reported(lowered: &str) -> (b: bool)
    ensures
        b == reports_auth_failure(lowered@),
{
    contains(lowered, "authentication failed") || contains(lowered, "auth-user-pass")
}

/// The `Debug` text of a status.
pub fn status_debug_text(s: &ConnectionStatus) -> (r: String)
    ensures
        r@ == status_debug(s@),
{
    match s {
        ConnectionStatus::Disconnected => String::from_str("Disconnected"),
        ConnectionStatus::Connecting => String::from_str("Connecting"),
        ConnectionStatus::Connected { ip, duration } => {
            let a = debug_quote(ip.as_str());
            let b = debug_quote(duration.as_str());
            concat5("Connected { ip: ", a.as_str(), ", duration: ", b.as_str(), " }")
        },
        ConnectionStatus::Disconnecting => String::from_str("Disconnecting"),
        ConnectionStatus::Error(e) => {
            let a = debug_quote(e.as_str());
            concat3("Error(", a.as_str(), ")")
        },
        ConnectionStatus::AuthenticationRequired { session_path, prompt } => {
            let a = debug_quote(session_path.as_str());
            let b = debug_quote(prompt.as_str());
            concat5(
                "AuthenticationRequired { session_path: ",
                a.as_str(),
                ", prompt: ",
                b.as_str(),
                " }",
            )
        },
    }
}

/// The first session with the given path.
fn find_session_exec(ss: &Vec<SessionInfo>, path: &String) -> (r: Option<usize>)
    ensures
        r matches Some(i) ==> i < ss@.len() && find_session(sessions_view(ss@), path@) == Some(
            ss@[i as int]@,
        ),
        r is None ==> find_session(sessions_view(ss@), path@) is None,
{
    let ghost v = sessions_view(ss@);
    let n = ss.len();
    let mut i: usize = 0;
    assert(v.skip(0) =~= v);
    while i < n
        invariant
            n == ss@.len(),
            v == sessions_view(ss@),
            i <= n,
            find_session(v, path@) == find_session(v.skip(i as int), path@),
        decreases n - i,
    {
        assert(v.skip(i as int)[0] == ss@[i as int]@);
        if ss[i].session_path.eq(path) {
            return Some(i);
        }
        assert(v.skip(i as int).drop_first() =~= v.skip(i + 1));
        i = i + 1;
    }
    None
}

/// The first profile with the given path.
fn find_config_exec(cs: &Vec<ConfigProfile>, path: &String) -> (r: Option<usize>)
    ensures
        r matches Some(i) ==> i < cs@.len() && find_config(configs_view(cs@), path@) == Some(
            cs@[i as int]@,
        ),
        r is None ==> find_config(configs_view(cs@), path@) is None,
{
    let ghost v = configs_view(cs@);
    let n = cs.len();
    let mut i: usize = 0;
    assert(v.skip(0) =~= v);
    while i < n
        invariant
            n == cs@.len(),
            v == configs_view(cs@),
            i <= n,
            find_config(v, path@) == find_config(v.skip(i as int), path@),
        decreases n - i,
    {
        assert(v.skip(i as int)[0] == cs@[i as int]@);
        if cs[i].path.eq(path) {
            return Some(i);
        }
        assert(v.skip(i as int).drop_first() =~= v.skip(i + 1));
        i = i + 1;
    }
    None
}

/// The display name of a dumped configuration.
fn dump_name_exec(configs: &Vec<ConfigProfile>, id: &String) -> (r: String)
    ensures
        r@ == dump_name(configs_view(configs@), id@),
{
    if is_config_path(id.as_str()) {
        match find_config_exec(configs, id) {
            Some(i) => configs[i].name.clone(),
            None => id.clone(),
        }
    } else {
        id.clone()
    }
}

/// The decisions of the manager loop and the state they keep.
pub struct SessionManager {
    status: ConnectionStatus,
    session_path: Option<String>,
    stats: Option<SessionStats>,
    sessions: Vec<SessionInfo>,
    configs: Vec<ConfigProfile>,
    logging: bool,
    live_log: bool,
    monitoring: bool,
    stage: Stage,
}

impl View for SessionManager {
    type V = ManagerView;

    closed spec fn view(&self) -> ManagerView {
        ManagerView {
            status: self.status@,
            session_path: str_opt_view(self.session_path),
            stats: stats_opt_view(self.stats),
            sessions: sessions_view(self.sessions@),
            configs: configs_view(self.configs@),
            logging: self.logging,
            live_log: self.live_log,
            monitoring: self.monitoring,
            stage: self.stage@,
        }
    }
}

impl SessionManager {
    /// A manager that has not started: disconnected, with manager logging on.
    pub fn new() -> (r: Self)
        ensures
            r@ == initial_manager(),
    {
        let r = SessionManager {
            status: ConnectionStatus::Disconnected,
            session_path: None,
            stats: None,
            sessions: Vec::new(),
            configs: Vec::new(),
            logging: true,
            live_log: false,
            monitoring: false,
            stage: Stage::Fresh,
        };
        assert(r@.sessions =~= Seq::<crate::model::SessionInfoView>::empty());
        assert(r@.configs =~= Seq::<crate::model::ConfigProfileView>::empty());
        r
    }

    /// The current connection status.
    pub fn get_status(&self) -> (s: ConnectionStatus)
        ensures
            s@ == self@.status,
    {
        self.status.clone()
    }

    /// Reads the connection status from detailed session output of
    /// `session_path`. When the output names no clear status the result is
    /// `Connecting`, and the manager log says so (while manager logging is
    /// on); the manager itself is left as it is.
    pub fn parse_status_from_session_output(
        &self,
        output: &str,
        session_path: &str,
        out: &mut Vec<VpnMessage>,
    ) -> (s: ConnectionStatus)
        ensures
            s@ == status_from_output(output@, session_path@).0,
            messages_view(final(out)@) == messages_view(old(out)@) + match status_from_output(
                output@,
                session_path@,
            ).1 {
                Some(note) => manager_log(self@, note),
                None => Seq::<crate::model::MessageView>::empty(),
            },
    {
        let (s, note) = read_session_status(output, session_path);
        match note {
            Some(n) => self.log(n.as_str(), out),
            None => {
                assert(messages_view(out@) =~= messages_view(out@)
                    + Seq::<crate::model::MessageView>::empty());
            },
        }
        s
    }

    /// Whether the manager waits for `e`.
    pub fn accepts_event(&self, e: &Event) -> (b: bool)
        ensures
            b == accepts(self@, e@),
    {
        match self.stage {
            Stage::Fresh => matches!(e, Event::Start),
            Stage::Idle => matches!(e, Event::Tick(_)),
            Stage::Stopped => false,
            Stage::LogRestartStop | Stage::LogStopping | Stage::ShuttingDown => matches!(
                e,
                Event::Killed(_)
            ),
            Stage::LogStarting => matches!(e, Event::Spawned(_)),
            _ => matches!(e, Event::Output(_)),
        }
    }

    fn log(&self, text: &str, out: &mut Vec<VpnMessage>)
        ensures
            messages_view(final(out)@) == messages_view(old(out)@) + manager_log(self@, text@),
    {
        if self.logging {
            emit(out, VpnMessage::LogMessage(concat2("[MANAGER] ", text)));
        }
    }

    fn report_error(&self, text: &str, out: &mut Vec<VpnMessage>)
        ensures
            messages_view(final(out)@) == messages_view(old(out)@) + manager_error(self@, text@),
    {
        emit(out, VpnMessage::Error(String::from_str(text)));
        if self.logging {
            emit(out, VpnMessage::LogMessage(concat2("[MANAGER ERROR] ", text)));
        }
    }

    fn set_status(&mut self, s: ConnectionStatus, out: &mut Vec<VpnMessage>)
        ensures
            final(self)@ == with_status(old(self)@, s@).0,
            messages_view(final(out)@) == messages_view(old(out)@) + with_status(old(self)@, s@).1,
    {
        self.status = s.clone();
        emit(out, VpnMessage::StatusUpdate(s));
    }

    fn set_stage(&mut self, st: Stage)
        ensures
            final(self)@ == at(old(self)@, st@),
    {
        self.stage = st;
    }

    // --- Handlers of command output ----------------------------------------
    fn configs_output(&mut self, r: Result<CommandOutput, String>, out: &mut Vec<VpnMessage>) -> (res: Result<(), String>)
        ensures
            done_made(configs_done(old(self)@, run_view(r)), final(self)@, old(out)@, final(out)@, unit_view(res)),
    {
        match r {
            Err(e) => Err(e),
            Ok(o) => {
                if !o.success {
                    Err(concat2("Failed to list configs: ", o.stderr.as_str()))
                } else {
                    let configs = parse_configs_list(o.stdout.as_str());
                    let sent = clone_configs(&configs);
                    self.configs = configs;
                    emit(out, VpnMessage::ConfigsList(sent));
                    Ok(())
                }
            },
        }
    }

    fn sessions_output(&mut self, r: Result<CommandOutput, String>, out: &mut Vec<VpnMessage>) -> (res: Result<(), String>)
        ensures
            done_made(sessions_done(old(self)@, run_view(r)), final(self)@, old(out)@, final(out)@, unit_view(res)),
    {
        match r {
            Err(e) => Err(e),
            Ok(o) => {
                if !o.success {
                    Err(concat2("Failed to list sessions: ", o.stderr.as_str()))
                } else {
                    let sessions = parse_sessions_list(o.stdout.as_str());
                    let sent = clone_sessions(&sessions);
                    self.sessions = sessions;
                    emit(out, VpnMessage::SessionsList(sent));
                    Ok(())
                }
            },
        }
    }

    fn version_output(&mut self, r: Result<CommandOutput, String>, out: &mut Vec<VpnMessage>) -> (res: Result<(), String>)
        ensures
            done_made(version_done(old(self)@, run_view(r)), final(self)@, old(out)@, final(out)@, unit_view(res)),
    {
        match r {
            Err(e) => Err(e),
            Ok(o) => {
                if !o.success {
                    Err(concat2("Failed to get VPN CLI version: ", o.stderr.as_str()))
                } else {
                    emit(out, VpnMessage::VpnCliVersion(trim(o.stdout.as_str())));
                    Ok(())
                }
            },
        }
    }

    fn status_output(&mut self, r: Result<CommandOutput, String>, out: &mut Vec<VpnMessage>) -> (res: Result<(), String>)
        ensures
            done_made(status_done(old(self)@, run_view(r)), final(self)@, old(out)@, final(out)@, unit_view(res)),
    {
        match r {
            Err(e) => Err(e),
            Ok(o) => {
                if !o.success {
                    self.set_status(ConnectionStatus::Disconnected, out);
                    return Err(String::from_str("Failed to list sessions for status update."));
                }
                let sessions = parse_sessions_list(o.stdout.as_str());
                match &self.session_path {
                    Some(sp) => {
                        match find_session_exec(&sessions, sp) {
                            Some(i) => {
                                let s = &sessions[i];
                                if contains(s.status.as_str(), "Connection, Client connected") {
                                    let new_status = ConnectionStatus::Connected {
                                        ip: String::from_str("Assigned"),
                                        duration: s.created.clone(),
                                    };
                                    if crate::model::status_changed(&self.status, &new_status) {
                                        self.set_status(new_status, out);
                                    } else {
                                        assert(messages_view(out@) =~= messages_view(out@)
                                            + Seq::<crate::model::MessageView>::empty());
                                    }
                                } else {
                                    self.set_status(ConnectionStatus::Connecting, out);
                                }
                            },
                            None => {
                                self.session_path = None;
                                self.set_status(ConnectionStatus::Disconnected, out);
                            },
                        }
                    },
                    None => {
                        self.set_status(ConnectionStatus::Disconnected, out);
                    },
                }
                Ok(())
            },
        }
    }

    fn stats_output(&mut self, sp: &String, r: Result<CommandOutput, String>, out: &mut Vec<VpnMessage>) -> (res: Result<(), String>)
        ensures
            done_made(stats_done(old(self)@, sp@, run_view(r)), final(self)@, old(out)@, final(out)@, unit_view(res)),
    {
        match r {
            Err(e) => Err(e),
            Ok(o) => {
                if o.success {
                    match parse_session_stats(o.stdout.as_str()) {
                        Some(st) => {
                            let sent = st.clone();
                            self.stats = Some(st);
                            emit(out, VpnMessage::SessionStats(sent));
                        },
                        None => {
                            let text = concat2(
                                "Could not parse session stats from output: ",
                                o.stdout.as_str(),
                            );
                            self.log(text.as_str(), out);
                        },
                    }
                    Ok(())
                } else {
                    Err(concat4("Failed to get session stats (", sp.as_str(), "): ", o.stderr.as_str()))
                }
            },
        }
    }

    // --- The monitoring part of a round -------------------------------------
    fn monitor_end(&mut self, out: &mut Vec<VpnMessage>) -> (req: Request)
        ensures
            turn_made(monitor_end_turn(old(self)@), final(self)@, old(out)@, final(out)@, req@),
    {
        if matches!(self.status, ConnectionStatus::Disconnected | ConnectionStatus::Error(_)) {
            self.monitoring = false;
            self.log("Disabling active monitoring.", out);
        } else {
            assert(messages_view(out@) =~= messages_view(out@) + Seq::<crate::model::MessageView>::empty());
        }
        self.set_stage(Stage::Idle);
        Request::SleepThenPoll
    }

    fn monitor_stats(&mut self, out: &mut Vec<VpnMessage>) -> (req: Request)
        ensures
            turn_made(monitor_stats_turn(old(self)@), final(self)@, old(out)@, final(out)@, req@),
    {
        if matches!(self.status, ConnectionStatus::Connected { .. }) {
            match &self.session_path {
                Some(sp) => {
                    let sp = sp.clone();
                    let args = args3("session-stats", "--session-path", sp.as_str());
                    self.set_stage(Stage::MonitorStats(sp));
                    assert(messages_view(out@) =~= messages_view(out@) + Seq::<crate::model::MessageView>::empty());
                    Request::Run(args)
                },
                None => {
                    self.log("Get session stats called but no active session.", out);
                    self.stats = None;
                    self.monitor_end(out)
                },
            }
        } else {
            self.monitor_end(out)
        }
    }

    fn monitor(&mut self, out: &mut Vec<VpnMessage>) -> (req: Request)
        ensures
            turn_made(monitor_turn(old(self)@), final(self)@, old(out)@, final(out)@, req@),
    {
        assert(messages_view(out@) =~= messages_view(out@) + Seq::<crate::model::MessageView>::empty());
        if self.monitoring {
            self.set_stage(Stage::MonitorStatus);
            Request::Run(args1("sessions-list"))
        } else {
            self.set_stage(Stage::Idle);
            Request::SleepThenPoll
        }
    }

    fn finish(&mut self, prefix: &str, r: Result<(), String>, out: &mut Vec<VpnMessage>) -> (req: Request)
        ensures
            turn_made(finish_turn(old(self)@, prefix@, unit_view(r)), final(self)@, old(out)@, final(out)@, req@),
    {
        match r {
            Err(e) => {
                let text = concat2(prefix, e.as_str());
                self.report_error(text.as_str(), out);
            },
            Ok(_) => {
                assert(messages_view(out@) =~= messages_view(out@) + Seq::<crate::model::MessageView>::empty());
            },
        }
        self.monitor(out)
    }

    fn connect_finish(&mut self, id: &String, r: Result<(), String>, out: &mut Vec<VpnMessage>) -> (req: Request)
        ensures
            turn_made(connect_finish_turn(old(self)@, id@, unit_view(r)), final(self)@, old(out)@, final(out)@, req@),
    {
        match r {
            Err(e) => {
                let text = concat4("Connection failed for '", id.as_str(), "': ", e.as_str());
                self.report_error(text.as_str(), out);
                self.set_status(ConnectionStatus::Error(e), out);
                self.monitor(out)
            },
            Ok(_) => {
                self.monitoring = true;
                self.monitor(out)
            },
        }
    }

    fn disconnect_finish(&mut self, r: Result<(), String>, out: &mut Vec<VpnMessage>) -> (req: Request)
        ensures
            turn_made(disconnect_finish_turn(old(self)@, unit_view(r)), final(self)@, old(out)@, final(out)@, req@),
    {
        match r {
            Err(e) => {
                let text = concat2("Disconnect failed: ", e.as_str());
                self.report_error(text.as_str(), out);
            },
            Ok(_) => {
                assert(messages_view(out@) =~= messages_view(out@) + Seq::<crate::model::MessageView>::empty());
            },
        }
        self.monitoring = false;
        self.monitor(out)
    }

    fn reset_after_disconnect(&mut self, out: &mut Vec<VpnMessage>)
        ensures
            final(self)@ == disconnect_reset(old(self)@).0,
            messages_view(final(out)@) == messages_view(old(out)@) + disconnect_reset(old(self)@).1,
    {
        self.session_path = None;
        self.stats = None;
        self.set_status(ConnectionStatus::Disconnected, out);
    }

    fn spawn_log(&mut self, out: &mut Vec<VpnMessage>) -> (req: Request)
        ensures
            turn_made(spawn_log_turn(old(self)@), final(self)@, old(out)@, final(out)@, req@),
    {
        self.log("Starting live VPN log streaming...", out);
        self.set_stage(Stage::LogStarting);
        Request::SpawnLiveLog
    }

    fn terminate(&mut self, out: &mut Vec<VpnMessage>) -> (req: Request)
        ensures
            turn_made(terminate_turn(old(self)@), final(self)@, old(out)@, final(out)@, req@),
    {
        self.log("Manager loop terminated.", out);
        self.set_stage(Stage::Stopped);
        Request::Exit
    }

    // --- Commands ----------------------------------------------------------
    fn connect(&mut self, id: String, out: &mut Vec<VpnMessage>) -> (req: Request)
        ensures
            turn_made(connect_turn(old(self)@, id@), final(self)@, old(out)@, final(out)@, req@),
    {
        if !matches!(self.status, ConnectionStatus::Disconnected | ConnectionStatus::Error(_)) {
            let d = status_debug_text(&self.status);
            let e = concat3(
                "Cannot connect: Already connected or in an intermediate state (",
                d.as_str(),
                ")",
            );
            return self.connect_finish(&id, Err(e), out);
        }
        self.set_status(ConnectionStatus::Connecting, out);
        let text = concat2("Attempting to connect using: ", id.as_str());
        self.log(text.as_str(), out);
        let args = if is_config_path(id.as_str()) {
            args3("session-start", "--config-path", id.as_str())
        } else {
            args3("session-start", "--config", id.as_str())
        };
        self.set_stage(Stage::Connecting(id));
        Request::Run(args)
    }

    fn connect_output(&mut self, id: String, r: Result<CommandOutput, String>, out: &mut Vec<VpnMessage>) -> (req: Request)
        ensures
            turn_made(connect_output_turn(old(self)@, id@, run_view(r)), final(self)@, old(out)@, final(out)@, req@),
    {
        match r {
            Err(e) => self.connect_finish(&id, Err(e), out),
            Ok(o) => {
                if !o.success {
                    let err = o.stderr;
                    let lower = to_lowercase(err.as_str());
                    if auth_failure_reported(lower.as_str()) {
                        match extract_session_path_from_output(o.stdout.as_str()) {
                            Some(sp) => {
                                let prompt = concat4(
                                    "Authentication required for ",
                                    id.as_str(),
                                    ". Details: ",
                                    err.as_str(),
                                );
                                self.set_status(
                                    ConnectionStatus::AuthenticationRequired {
                                        session_path: sp.clone(),
                                        prompt: prompt,
                                    },
                                    out,
                                );
                                let prompt2 = concat4(
                                    "Credentials needed for ",
                                    id.as_str(),
                                    ". Error: ",
                                    err.as_str(),
                                );
                                emit(
                                    out,
                                    VpnMessage::AuthenticationPrompt {
                                        session_path: sp,
                                        prompt: prompt2,
                                    },
                                );
                                return self.connect_finish(&id, Ok(()), out);
                            },
                            None => {},
                        }
                    }
                    self.set_status(ConnectionStatus::Error(err.clone()), out);
                    let e = concat2("Failed to start session: ", err.as_str());
                    return self.connect_finish(&id, Err(e), out);
                }
                let text = concat2("Session start output: ", o.stdout.as_str());
                self.log(text.as_str(), out);
                match extract_session_path_from_output(o.stdout.as_str()) {
                    Some(sp) => {
                        let text2 = concat2("Session started successfully. Path: ", sp.as_str());
                        self.session_path = Some(sp);
                        self.log(text2.as_str(), out);
                    },
                    None => {
                        self.log(
                            "Session start reported success, but session path not found in output. Will rely on status updates.",
                            out,
                        );
                    },
                }
                self.set_stage(Stage::ConnectRefresh(id));
                Request::Run(args1("sessions-list"))
            },
        }
    }

    fn disconnect(&mut self, out: &mut Vec<VpnMessage>) -> (req: Request)
        ensures
            turn_made(disconnect_turn(old(self)@), final(self)@, old(out)@, final(out)@, req@),
    {
        match &self.session_path {
            Some(sp) => {
                let sp = sp.clone();
                self.set_status(ConnectionStatus::Disconnecting, out);
                let text = concat2("Disconnecting session: ", sp.as_str());
                self.log(text.as_str(), out);
                self.set_stage(Stage::Disconnecting);
                Request::Run(args4("session-manage", "--session-path", sp.as_str(), "--disconnect"))
            },
            None => {
                self.log("Disconnect called but no active session path found.", out);
                self.reset_after_disconnect(out);
                self.disconnect_finish(Ok(()), out)
            },
        }
    }

    fn disconnect_output(&mut self, r: Result<CommandOutput, String>, out: &mut Vec<VpnMessage>) -> (req: Request)
        ensures
            turn_made(disconnect_output_turn(old(self)@, run_view(r)), final(self)@, old(out)@, final(out)@, req@),
    {
        match r {
            Err(e) => self.disconnect_finish(Err(e), out),
            Ok(o) => {
                if !o.success {
                    let text = concat2("Disconnect command failed: ", o.stderr.as_str());
                    self.log(text.as_str(), out);
                } else {
                    self.log("Disconnect command successful.", out);
                }
                self.reset_after_disconnect(out);
                self.disconnect_finish(Ok(()), out)
            },
        }
    }

    fn fetch_stats(&mut self, out: &mut Vec<VpnMessage>) -> (req: Request)
        ensures
            turn_made(stats_turn(old(self)@), final(self)@, old(out)@, final(out)@, req@),
    {
        match &self.session_path {
            Some(sp) => {
                let sp = sp.clone();
                let args = args3("session-stats", "--session-path", sp.as_str());
                self.set_stage(Stage::FetchingStats(sp));
                assert(messages_view(out@) =~= messages_view(out@) + Seq::<crate::model::MessageView>::empty());
                Request::Run(args)
            },
            None => {
                self.log("Get session stats called but no active session.", out);
                self.stats = None;
                self.finish("Failed to get session stats: ", Ok(()), out)
            },
        }
    }

    fn import_output(&mut self, name: String, r: Result<CommandOutput, String>, out: &mut Vec<VpnMessage>) -> (req: Request)
        ensures
            turn_made(import_output_turn(old(self)@, name@, run_view(r)), final(self)@, old(out)@, final(out)@, req@),
    {
        let prefix = concat3("Failed to import config '", name.as_str(), "': ");
        match r {
            Err(e) => self.finish(prefix.as_str(), Err(e), out),
            Ok(o) => {
                if !o.success {
                    let e = concat2(prefix.as_str(), o.stderr.as_str());
                    self.finish(prefix.as_str(), Err(e), out)
                } else {
                    let text = concat2("Config imported: ", o.stdout.as_str());
                    emit(out, VpnMessage::ConfigImported(o.stdout));
                    self.log(text.as_str(), out);
                    self.set_stage(Stage::ImportRefresh(name));
                    Request::Run(args1("configs-list"))
                }
            },
        }
    }

    fn remove_output(&mut self, id: String, r: Result<CommandOutput, String>, out: &mut Vec<VpnMessage>) -> (req: Request)
        ensures
            turn_made(remove_output_turn(old(self)@, id@, run_view(r)), final(self)@, old(out)@, final(out)@, req@),
    {
        let prefix = concat3("Failed to remove config '", id.as_str(), "': ");
        match r {
            Err(e) => self.finish(prefix.as_str(), Err(e), out),
            Ok(o) => {
                if !o.success {
                    let e = concat2(prefix.as_str(), o.stderr.as_str());
                    self.finish(prefix.as_str(), Err(e), out)
                } else {
                    let text = concat2("Config removed: ", id.as_str());
                    self.log(text.as_str(), out);
                    self.set_stage(Stage::RemoveRefresh(id));
                    Request::Run(args1("configs-list"))
                }
            },
        }
    }

    fn dump_output(&mut self, id: String, r: Result<CommandOutput, String>, out: &mut Vec<VpnMessage>) -> (req: Request)
        ensures
            turn_made(dump_output_turn(old(self)@, id@, run_view(r)), final(self)@, old(out)@, final(out)@, req@),
    {
        let prefix = concat3("Failed to dump config '", id.as_str(), "': ");
        match r {
            Err(e) => self.finish(prefix.as_str(), Err(e), out),
            Ok(o) => {
                if !o.success {
                    let e = concat2(prefix.as_str(), o.stderr.as_str());
                    self.finish(prefix.as_str(), Err(e), out)
                } else {
                    let name = dump_name_exec(&self.configs, &id);
                    emit(out, VpnMessage::ConfigDumped { name: name, content: o.stdout });
                    self.finish(prefix.as_str(), Ok(()), out)
                }
            },
        }
    }

    fn auth_output(&mut self, sp: String, r: Result<CommandOutput, String>, out: &mut Vec<VpnMessage>) -> (req: Request)
        ensures
            turn_made(auth_output_turn(old(self)@, sp@, run_view(r)), final(self)@, old(out)@, final(out)@, req@),
    {
        match r {
            Err(e) => self.finish("Authentication failed: ", Err(e), out),
            Ok(o) => {
                if !o.success {
                    let shown = concat2("Authentication failed: ", o.stderr.as_str());
                    self.set_status(ConnectionStatus::Error(shown), out);
                    let e = concat4(
                        "Authentication submission failed for ",
                        sp.as_str(),
                        ": ",
                        o.stderr.as_str(),
                    );
                    self.finish("Authentication failed: ", Err(e), out)
                } else {
                    let text = concat4(
                        "Authentication submitted for ",
                        sp.as_str(),
                        ". Output: ",
                        o.stdout.as_str(),
                    );
                    self.log(text.as_str(), out);
                    self.set_status(ConnectionStatus::Connecting, out);
                    self.set_stage(Stage::AuthRefresh);
                    Request::Run(args1("sessions-list"))
                }
            },
        }
    }

    fn command(&mut self, c: VpnCommand, out: &mut Vec<VpnMessage>) -> (req: Request)
        ensures
            turn_made(command_turn(old(self)@, c@), final(self)@, old(out)@, final(out)@, req@),
    {
        let ghost m = self@;
        match c {
            VpnCommand::Connect(id) => self.connect(id, out),
            VpnCommand::Disconnect => self.disconnect(out),
            VpnCommand::GetStatusUpdate => {
                assert(messages_view(out@) =~= messages_view(out@) + Seq::<crate::model::MessageView>::empty());
                self.set_stage(Stage::StatusRefresh);
                Request::Run(args1("sessions-list"))
            },
            VpnCommand::ListSessions => {
                assert(messages_view(out@) =~= messages_view(out@) + Seq::<crate::model::MessageView>::empty());
                self.set_stage(Stage::ListingSessions);
                Request::Run(args1("sessions-list"))
            },
            VpnCommand::GetSessionStats => self.fetch_stats(out),
            VpnCommand::ListConfigs => {
                assert(messages_view(out@) =~= messages_view(out@) + Seq::<crate::model::MessageView>::empty());
                self.set_stage(Stage::ListingConfigs);
                Request::Run(args1("configs-list"))
            },
            VpnCommand::ImportConfig(path, name) => {
                assert(messages_view(out@) =~= messages_view(out@) + Seq::<crate::model::MessageView>::empty());
                let args = args6(
                    "config-import",
                    "--config",
                    path.as_str(),
                    "--name",
                    name.as_str(),
                    "--persistent",
                );
                self.set_stage(Stage::Importing(name));
                Request::Run(args)
            },
            VpnCommand::RemoveConfig(id) => {
                assert(messages_view(out@) =~= messages_view(out@) + Seq::<crate::model::MessageView>::empty());
                let args = if is_config_path(id.as_str()) {
                    args3("config-remove", "--path", id.as_str())
                } else {
                    args3("config-remove", "--name", id.as_str())
                };
                self.set_stage(Stage::Removing(id));
                Request::Run(args)
            },
            VpnCommand::EnableManagerLogBuffer => {
                self.logging = true;
                self.log("Manager log buffer enabled.", out);
                self.monitor(out)
            },
            VpnCommand::DisableManagerLogBuffer => {
                self.logging = false;
                self.monitor(out)
            },
            VpnCommand::StartLiveVpnLogs => {
                if self.live_log {
                    self.log("Stopping live VPN log streaming...", out);
                    self.live_log = false;
                    self.set_stage(Stage::LogRestartStop);
                    Request::KillLiveLog
                } else {
                    self.spawn_log(out)
                }
            },
            VpnCommand::StopLiveVpnLogs => {
                if self.live_log {
                    self.log("Stopping live VPN log streaming...", out);
                    self.live_log = false;
                    self.set_stage(Stage::LogStopping);
                    Request::KillLiveLog
                } else {
                    self.finish("Failed to stop live VPN logs: ", Ok(()), out)
                }
            },
            VpnCommand::GetVpnCliVersion => {
                assert(messages_view(out@) =~= messages_view(out@) + Seq::<crate::model::MessageView>::empty());
                self.set_stage(Stage::ReadingVersion);
                Request::Run(args1("version"))
            },
            VpnCommand::DumpConfig(id) => {
                assert(messages_view(out@) =~= messages_view(out@) + Seq::<crate::model::MessageView>::empty());
                let args = if is_config_path(id.as_str()) {
                    args3("config-dump", "--path", id.as_str())
                } else {
                    args3("config-dump", "--config", id.as_str())
                };
                self.set_stage(Stage::Dumping(id));
                Request::Run(args)
            },
            VpnCommand::SubmitAuthentication { session_path, response } => {
                let text = concat2("Submitting authentication for session: ", session_path.as_str());
                self.log(text.as_str(), out);
                let args = args4(
                    "session-manage",
                    "--session-path",
                    session_path.as_str(),
                    "--password-prompt",
                );
                self.set_stage(Stage::Authenticating(session_path));
                Request::RunWithInput(args, response)
            },
            VpnCommand::Shutdown => {
                self.log("Shutdown command received.", out);
                if self.live_log {
                    self.log("Stopping live VPN log streaming...", out);
                    self.live_log = false;
                    self.set_stage(Stage::ShuttingDown);
                    Request::KillLiveLog
                } else {
                    self.terminate(out)
                }
            },
        }
    }
}

impl SessionManager {
    /// Reacts to one event: updates the state, appends the messages for the
    /// user interface to `out`, and returns what the caller must do next.
    pub fn step(&mut self, e: Event, out: &mut Vec<VpnMessage>) -> (req: Request)
        requires
            accepts(old(self)@, e@),
        ensures
            turn_made(next_turn(old(self)@, e@), final(self)@, old(out)@, final(out)@, req@),
    {
        match e {
            Event::Start => {
                assert(messages_view(out@) =~= messages_view(out@) + Seq::<crate::model::MessageView>::empty());
                self.set_stage(Stage::InitConfigs);
                Request::Run(args1("configs-list"))
            },
            Event::Tick(c) => match c {
                Some(cmd) => self.command(cmd, out),
                None => self.monitor(out),
            },
            Event::Spawned(r) => match r {
                Err(x) => self.finish("Failed to start live VPN logs: ", Err(x), out),
                Ok(_) => {
                    self.live_log = true;
                    self.finish("Failed to start live VPN logs: ", Ok(()), out)
                },
            },
            Event::Killed(r) => {
                if matches!(self.stage, Stage::LogRestartStop) {
                    match r {
                        Err(x) => {
                            let k = concat2("Failed to kill 'openvpn3 log' process: ", x.as_str());
                            self.finish("Failed to start live VPN logs: ", Err(k), out)
                        },
                        Ok(_) => {
                            self.log("Live VPN log streaming stopped.", out);
                            self.spawn_log(out)
                        },
                    }
                } else if matches!(self.stage, Stage::LogStopping) {
                    match r {
                        Err(x) => {
                            let k = concat2("Failed to kill 'openvpn3 log' process: ", x.as_str());
                            self.finish("Failed to stop live VPN logs: ", Err(k), out)
                        },
                        Ok(_) => {
                            self.log("Live VPN log streaming stopped.", out);
                            self.finish("Failed to stop live VPN logs: ", Ok(()), out)
                        },
                    }
                } else {
                    match r {
                        Err(_) => self.terminate(out),
                        Ok(_) => {
                            self.log("Live VPN log streaming stopped.", out);
                            self.terminate(out)
                        },
                    }
                }
            },
            Event::Output(r) => self.output(r, out),
        }
    }

    fn output(&mut self, r: Result<CommandOutput, String>, out: &mut Vec<VpnMessage>) -> (req: Request)
        requires
            accepts(old(self)@, EventView::Output(run_view(r))),
        ensures
            turn_made(next_turn(old(self)@, EventView::Output(run_view(r))), final(self)@, old(out)@, final(out)@, req@),
    {
        match &self.stage {
            Stage::InitConfigs => {
                let res = self.configs_output(r, out);
                if let Err(x) = res {
                    let text = concat2("Failed to load initial configs: ", x.as_str());
                    self.report_error(text.as_str(), out);
                } else {
                    assert(messages_view(out@) =~= messages_view(out@) + Seq::<crate::model::MessageView>::empty());
                }
                self.set_stage(Stage::InitSessions);
                Request::Run(args1("sessions-list"))
            },
            Stage::InitSessions => {
                let res = self.sessions_output(r, out);
                if let Err(x) = res {
                    let text = concat2("Failed to load initial sessions: ", x.as_str());
                    self.report_error(text.as_str(), out);
                } else {
                    assert(messages_view(out@) =~= messages_view(out@) + Seq::<crate::model::MessageView>::empty());
                }
                self.set_stage(Stage::InitVersion);
                Request::Run(args1("version"))
            },
            Stage::InitVersion => {
                let res = self.version_output(r, out);
                if let Err(x) = res {
                    let text = concat2("Failed to get OpenVPN3 CLI version: ", x.as_str());
                    self.report_error(text.as_str(), out);
                } else {
                    assert(messages_view(out@) =~= messages_view(out@) + Seq::<crate::model::MessageView>::empty());
                }
                self.log("Manager loop started.", out);
                self.set_stage(Stage::Idle);
                Request::Poll
            },
            Stage::Connecting(id) => {
                let id = id.clone();
                self.connect_output(id, r, out)
            },
            Stage::ConnectRefresh(id) => {
                let id = id.clone();
                let res = self.status_output(r, out);
                self.connect_finish(&id, res, out)
            },
            Stage::Disconnecting => self.disconnect_output(r, out),
            Stage::StatusRefresh => {
                let res = self.status_output(r, out);
                self.finish("Status update failed: ", res, out)
            },
            Stage::ListingSessions => {
                let res = self.sessions_output(r, out);
                self.finish("Failed to list sessions: ", res, out)
            },
            Stage::FetchingStats(sp) => {
                let sp = sp.clone();
                let res = self.stats_output(&sp, r, out);
                self.finish("Failed to get session stats: ", res, out)
            },
            Stage::ListingConfigs => {
                let res = self.configs_output(r, out);
                self.finish("Failed to list configs: ", res, out)
            },
            Stage::Importing(name) => {
                let name = name.clone();
                self.import_output(name, r, out)
            },
            Stage::ImportRefresh(name) => {
                let prefix = concat3("Failed to import config '", name.as_str(), "': ");
                let res = self.configs_output(r, out);
                self.finish(prefix.as_str(), res, out)
            },
            Stage::Removing(id) => {
                let id = id.clone();
                self.remove_output(id, r, out)
            },
            Stage::RemoveRefresh(id) => {
                let prefix = concat3("Failed to remove config '", id.as_str(), "': ");
                let res = self.configs_output(r, out);
                self.finish(prefix.as_str(), res, out)
            },
            Stage::ReadingVersion => {
                let res = self.version_output(r, out);
                self.finish("Failed to get VPN CLI version: ", res, out)
            },
            Stage::Dumping(id) => {
                let id = id.clone();
                self.dump_output(id, r, out)
            },
            Stage::Authenticating(sp) => {
                let sp = sp.clone();
                self.auth_output(sp, r, out)
            },
            Stage::AuthRefresh => {
                let res = self.status_output(r, out);
                self.finish("Authentication failed: ", res, out)
            },
            Stage::MonitorStatus => {
                let res = self.status_output(r, out);
                if let Err(x) = res {
                    let text = concat2("Status update error: ", x.as_str());
                    self.log(text.as_str(), out);
                } else {
                    assert(messages_view(out@) =~= messages_view(out@) + Seq::<crate::model::MessageView>::empty());
                }
                self.monitor_stats(out)
            },
            Stage::MonitorStats(sp) => {
                let sp = sp.clone();
                let res = self.stats_output(&sp, r, out);
                if let Err(x) = res {
                    let text = concat2("Stats update error: ", x.as_str());
                    self.log(text.as_str(), out);
                } else {
                    assert(messages_view(out@) =~= messages_view(out@) + Seq::<crate::model::MessageView>::empty());
                }
                self.monitor_end(out)
            },
            _ => {
                assert(false);
                Request::Poll
            },
        }
    }
}

/// The user-interface message for a line of the live `openvpn3 log` output;
/// lines from its error stream are marked.
pub fn live_log_message(line: String, from_stderr: bool) -> (m: VpnMessage)
    ensures
        m@ == crate::model::MessageView::LogMessage(
            if from_stderr {
                "[openvpn3 log err] "@ + line@
            } else {
                line@
            },
        ),
{
    if from_stderr {
        VpnMessage::LogMessage(concat2("[openvpn3 log err] ", line.as_str()))
    } else {
        VpnMessage::LogMessage(line)
    }
}

/// Copies a list of profiles.
fn clone_configs(v: &Vec<ConfigProfile>) -> (r: Vec<ConfigProfile>)
    ensures
        r@ == v@,
{
    let mut r: Vec<ConfigProfile> = Vec::new();
    let n = v.len();
    let mut i: usize = 0;
    while i < n
        invariant
            n == v@.len(),
            i <= n,
            r@ == v@.take(i as int),
        decreases n - i,
    {
        r.push(v[i].clone());
        assert(v@.take(i + 1) =~= v@.take(i as int).push(v@[i as int]));
        i = i + 1;
    }
    assert(v@.take(n as int) =~= v@);
    r
}

/// Copies a list of sessions.
fn clone_sessions(v: &Vec<SessionInfo>) -> (r: Vec<SessionInfo>)
    ensures
        r@ == v@,
{
    let mut r: Vec<SessionInfo> = Vec::new();
    let n = v.len();
    let mut i: usize = 0;
    while i < n
        invariant
            n == v@.len(),
            i <= n,
            r@ == v@.take(i as int),
        decreases n - i,
    {
        r.push(v[i].clone());
        assert(v@.take(i + 1) =~= v@.take(i as int).push(v@[i as int]));
        i = i + 1;
    }
    assert(v@.take(n as int) =~= v@);
    r
}

} // verus!
