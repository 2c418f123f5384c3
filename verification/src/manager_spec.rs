//! The session manager as a state machine: what one step does, stated over
//! views.
//!
//! The manager reacts to one event at a time (a command from the user
//! interface, the output of an `openvpn3` run, the result of starting or
//! stopping the live log) and answers with the messages for the user
//! interface and the next request for the outside world.
use vstd::prelude::*;
use crate::model::{
    CommandView, ConfigProfileView, MessageView, SessionInfoView, SessionStatsView, StatusView,
};
use crate::parse::{configs_in, session_path_in, sessions_in, stats_in};
use crate::text::{debug_quoted, has_prefix, has_sub, lowercase_of, trimmed};

verus! {

/// What the manager is waiting for.
pub enum StageView {
    Fresh,
    InitConfigs,
    InitSessions,
    InitVersion,
    Idle,
    Connecting(Seq<char>),
    ConnectRefresh(Seq<char>),
    Disconnecting,
    StatusRefresh,
    ListingSessions,
    FetchingStats(Seq<char>),
    ListingConfigs,
    Importing(Seq<char>),
    ImportRefresh(Seq<char>),
    Removing(Seq<char>),
    RemoveRefresh(Seq<char>),
    LogRestartStop,
    LogStarting,
    LogStopping,
    ReadingVersion,
    Dumping(Seq<char>),
    Authenticating(Seq<char>),
    AuthRefresh,
    ShuttingDown,
    MonitorStatus,
    MonitorStats(Seq<char>),
    Stopped,
}

/// The state of the manager.
pub struct ManagerView {
    pub status: StatusView,
    pub session_path: Option<Seq<char>>,
    pub stats: Option<SessionStatsView>,
    pub sessions: Seq<SessionInfoView>,
    pub configs: Seq<ConfigProfileView>,
    pub logging: bool,
    pub live_log: bool,
    pub monitoring: bool,
    pub stage: StageView,
}

/// What a finished `openvpn3` run reports.
pub struct OutputView {
    pub success: bool,
    pub stdout: Seq<char>,
    pub stderr: Seq<char>,
}

/// An event that the manager reacts to.
pub enum EventView {
    Start,
    Tick(Option<CommandView>),
    Output(Result<OutputView, Seq<char>>),
    Spawned(Result<(), Seq<char>>),
    Killed(Result<(), Seq<char>>),
}

/// What the manager asks of the outside world next.
pub enum RequestView {
    Run(Seq<Seq<char>>),
    RunWithInput(Seq<Seq<char>>, Seq<char>),
    SpawnLiveLog,
    KillLiveLog,
    Poll,
    SleepThenPoll,
    Exit,
}

/// The outcome of one step: the new state, the messages for the user
/// interface in order, and the next request.
pub struct Turn {
    pub state: ManagerView,
    pub msgs: Seq<MessageView>,
    pub request: RequestView,
}

/// The outcome of a handler that reports success or an error text.
pub struct Done {
    pub state: ManagerView,
    pub msgs: Seq<MessageView>,
    pub result: Result<(), Seq<char>>,
}

/// Message sequences concatenate associatively.
pub broadcast proof fn lemma_msgs_assoc(a: Seq<MessageView>, b: Seq<MessageView>, c: Seq<MessageView>)
    ensures
        #[trigger] ((a + b) + c) == a + (b + c),
{
    assert((a + b) + c =~= a + (b + c));
}

/// A turn preceded by some messages.
pub open spec fn after(msgs: Seq<MessageView>, t: Turn) -> Turn {
    Turn { state: t.state, msgs: msgs + t.msgs, request: t.request }
}

/// The state with another stage.
pub open spec fn at(m: ManagerView, stage: StageView) -> ManagerView {
    ManagerView { stage: stage, ..m }
}

/// The prefix of the configuration object paths of OpenVPN 3.
pub open spec fn config_path_prefix() -> Seq<char> {
    "/net/openvpn/v3/configuration/"@
}

/// A manager log line, sent only while manager logging is on.
pub open spec fn manager_log(m: ManagerView, text: Seq<char>) -> Seq<MessageView> {
    if m.logging {
        seq![MessageView::LogMessage("[MANAGER] "@ + text)]
    } else {
        seq![]
    }
}

/// An error for the user, echoed to the log while manager logging is on.
pub open spec fn manager_error(m: ManagerView, text: Seq<char>) -> Seq<MessageView> {
    seq![MessageView::Error(text)] + if m.logging {
        seq![MessageView::LogMessage("[MANAGER ERROR] "@ + text)]
    } else {
        seq![]
    }
}

/// A new status, announced to the user interface.
pub open spec fn with_status(m: ManagerView, s: StatusView) -> (ManagerView, Seq<MessageView>) {
    (ManagerView { status: s, ..m }, seq![MessageView::StatusUpdate(s)])
}

/// The `Debug` text of a status.
pub open spec fn status_debug(s: StatusView) -> Seq<char> {
    match s {
        StatusView::Disconnected => "Disconnected"@,
        StatusView::Connecting => "Connecting"@,
        StatusView::Connected { ip, duration } => "Connected { ip: "@ + debug_quoted(ip)
            + ", duration: "@ + debug_quoted(duration) + " }"@,
        StatusView::Disconnecting => "Disconnecting"@,
        StatusView::Error(e) => "Error("@ + debug_quoted(e) + ")"@,
        StatusView::AuthenticationRequired { session_path, prompt } =>
            "AuthenticationRequired { session_path: "@ + debug_quoted(session_path)
            + ", prompt: "@ + debug_quoted(prompt) + " }"@,
    }
}

/// The first session with the given path.
pub open spec fn find_session(ss: Seq<SessionInfoView>, path: Seq<char>) -> Option<SessionInfoView>
    decreases ss.len(),
{
    if ss.len() == 0 {
        None
    } else if ss[0].session_path == path {
        Some(ss[0])
    } else {
        find_session(ss.drop_first(), path)
    }
}

/// The first profile with the given path.
pub open spec fn find_config(cs: Seq<ConfigProfileView>, path: Seq<char>) -> Option<
    ConfigProfileView,
>
    decreases cs.len(),
{
    if cs.len() == 0 {
        None
    } else if cs[0].path == path {
        Some(cs[0])
    } else {
        find_config(cs.drop_first(), path)
    }
}

// --- Arguments of the `openvpn3` runs ---------------------------------------
/// `openvpn3 session-start` for a configuration path or name.
pub open spec fn connect_args(id: Seq<char>) -> Seq<Seq<char>> {
    if has_prefix(id, config_path_prefix()) {
        seq!["session-start"@, "--config-path"@, id]
    } else {
        seq!["session-start"@, "--config"@, id]
    }
}

/// `openvpn3 config-remove` for a configuration path or name.
pub open spec fn remove_args(id: Seq<char>) -> Seq<Seq<char>> {
    if has_prefix(id, config_path_prefix()) {
        seq!["config-remove"@, "--path"@, id]
    } else {
        seq!["config-remove"@, "--name"@, id]
    }
}

/// `openvpn3 config-dump` for a configuration path or name.
pub open spec fn dump_args(id: Seq<char>) -> Seq<Seq<char>> {
    if has_prefix(id, config_path_prefix()) {
        seq!["config-dump"@, "--path"@, id]
    } else {
        seq!["config-dump"@, "--config"@, id]
    }
}

/// `openvpn3 config-import` of a file under a name.
pub open spec fn import_args(path: Seq<char>, name: Seq<char>) -> Seq<Seq<char>> {
    seq!["config-import"@, "--config"@, path, "--name"@, name, "--persistent"@]
}

/// `openvpn3 session-stats` of a session.
pub open spec fn stats_args(sp: Seq<char>) -> Seq<Seq<char>> {
    seq!["session-stats"@, "--session-path"@, sp]
}

/// `openvpn3 session-manage` that disconnects a session.
pub open spec fn disconnect_args(sp: Seq<char>) -> Seq<Seq<char>> {
    seq!["session-manage"@, "--session-path"@, sp, "--disconnect"@]
}

/// `openvpn3 session-manage` that answers a password prompt.
pub open spec fn auth_args(sp: Seq<char>) -> Seq<Seq<char>> {
    seq!["session-manage"@, "--session-path"@, sp, "--password-prompt"@]
}

/// `openvpn3 sessions-list`.
pub open spec fn sessions_list_args() -> Seq<Seq<char>> {
    seq!["sessions-list"@]
}

/// `openvpn3 configs-list`.
pub open spec fn configs_list_args() -> Seq<Seq<char>> {
    seq!["configs-list"@]
}

/// `openvpn3 version`.
pub open spec fn version_args() -> Seq<Seq<char>> {
    seq!["version"@]
}

// --- Error texts -------------------------------------------------------------
/// The error of a failed configuration import.
pub open spec fn import_error(name: Seq<char>) -> Seq<char> {
    "Failed to import config '"@ + name + "': "@
}

/// The error of a failed configuration removal.
pub open spec fn remove_error(id: Seq<char>) -> Seq<char> {
    "Failed to remove config '"@ + id + "': "@
}

/// The error of a failed configuration dump.
pub open spec fn dump_error(id: Seq<char>) -> Seq<char> {
    "Failed to dump config '"@ + id + "': "@
}

/// The error of a failed stop of the live log.
pub open spec fn kill_error(e: Seq<char>) -> Seq<char> {
    "Failed to kill 'openvpn3 log' process: "@ + e
}

// --- Handlers of command output --------------------------------------------
/// `configs-list` output: the profiles are stored and sent.
pub open spec fn configs_done(m: ManagerView, r: Result<OutputView, Seq<char>>) -> Done {
    match r {
        Err(e) => Done { state: m, msgs: seq![], result: Err(e) },
        Ok(o) => if !o.success {
            Done { state: m, msgs: seq![], result: Err("Failed to list configs: "@ + o.stderr) }
        } else {
            let c = configs_in(o.stdout);
            Done {
                state: ManagerView { configs: c, ..m },
                msgs: seq![MessageView::ConfigsList(c)],
                result: Ok(()),
            }
        },
    }
}

/// `sessions-list` output: the sessions are stored and sent.
pub open spec fn sessions_done(m: ManagerView, r: Result<OutputView, Seq<char>>) -> Done {
    match r {
        Err(e) => Done { state: m, msgs: seq![], result: Err(e) },
        Ok(o) => if !o.success {
            Done { state: m, msgs: seq![], result: Err("Failed to list sessions: "@ + o.stderr) }
        } else {
            let s = sessions_in(o.stdout);
            Done {
                state: ManagerView { sessions: s, ..m },
                msgs: seq![MessageView::SessionsList(s)],
                result: Ok(()),
            }
        },
    }
}

/// `version` output: the trimmed version text is sent.
pub open spec fn version_done(m: ManagerView, r: Result<OutputView, Seq<char>>) -> Done {
    match r {
        Err(e) => Done { state: m, msgs: seq![], result: Err(e) },
        Ok(o) => if !o.success {
            Done {
                state: m,
                msgs: seq![],
                result: Err("Failed to get VPN CLI version: "@ + o.stderr),
            }
        } else {
            Done {
                state: m,
                msgs: seq![MessageView::VpnCliVersion(trimmed(o.stdout))],
                result: Ok(()),
            }
        },
    }
}

/// `sessions-list` output read for the connection status: the tracked
/// session decides the status.
pub open spec fn status_done(m: ManagerView, r: Result<OutputView, Seq<char>>) -> Done {
    match r {
        Err(e) => Done { state: m, msgs: seq![], result: Err(e) },
        Ok(o) => if !o.success {
            let (m1, ms) = with_status(m, StatusView::Disconnected);
            Done { state: m1, msgs: ms, result: Err("Failed to list sessions for status update."@) }
        } else {
            let ss = sessions_in(o.stdout);
            match m.session_path {
                Some(sp) => match find_session(ss, sp) {
                    Some(s) => if has_sub(s.status, "Connection, Client connected"@) {
                        let new_status = StatusView::Connected { ip: "Assigned"@, duration: s.created };
                        if m.status != new_status {
                            let (m1, ms) = with_status(m, new_status);
                            Done { state: m1, msgs: ms, result: Ok(()) }
                        } else {
                            Done { state: m, msgs: seq![], result: Ok(()) }
                        }
                    } else {
                        let (m1, ms) = with_status(m, StatusView::Connecting);
                        Done { state: m1, msgs: ms, result: Ok(()) }
                    },
                    None => {
                        let (m1, ms) = with_status(
                            ManagerView { session_path: None, ..m },
                            StatusView::Disconnected,
                        );
                        Done { state: m1, msgs: ms, result: Ok(()) }
                    },
                },
                None => {
                    let (m1, ms) = with_status(m, StatusView::Disconnected);
                    Done { state: m1, msgs: ms, result: Ok(()) }
                },
            }
        },
    }
}

/// `session-stats` output of the session `sp`: the counters are stored and
/// sent.
pub open spec fn stats_done(m: ManagerView, sp: Seq<char>, r: Result<OutputView, Seq<char>>) -> Done {
    match r {
        Err(e) => Done { state: m, msgs: seq![], result: Err(e) },
        Ok(o) => if o.success {
            match stats_in(o.stdout) {
                Some(st) => Done {
                    state: ManagerView { stats: Some(st), ..m },
                    msgs: seq![MessageView::SessionStats(st)],
                    result: Ok(()),
                },
                None => Done {
                    state: m,
                    msgs: manager_log(m, "Could not parse session stats from output: "@ + o.stdout),
                    result: Ok(()),
                },
            }
        } else {
            Done {
                state: m,
                msgs: seq![],
                result: Err("Failed to get session stats ("@ + sp + "): "@ + o.stderr),
            }
        },
    }
}

// --- The monitoring part of a loop round ------------------------------------
/// The end of a round: monitoring stops once the connection is down or
/// failed; then the manager sleeps.
pub open spec fn monitor_end_turn(m: ManagerView) -> Turn {
    if m.status is Disconnected || m.status is Error {
        let m1 = ManagerView { monitoring: false, ..m };
        Turn {
            state: at(m1, StageView::Idle),
            msgs: manager_log(m1, "Disabling active monitoring."@),
            request: RequestView::SleepThenPoll,
        }
    } else {
        Turn { state: at(m, StageView::Idle), msgs: seq![], request: RequestView::SleepThenPoll }
    }
}

/// After the status refresh of a monitoring round: the counters are fetched
/// while connected.
pub open spec fn monitor_stats_turn(m: ManagerView) -> Turn {
    if m.status is Connected {
        match m.session_path {
            Some(sp) => Turn {
                state: at(m, StageView::MonitorStats(sp)),
                msgs: seq![],
                request: RequestView::Run(stats_args(sp)),
            },
            None => after(
                manager_log(m, "Get session stats called but no active session."@),
                monitor_end_turn(ManagerView { stats: None, ..m }),
            ),
        }
    } else {
        monitor_end_turn(m)
    }
}

/// The monitoring part of a round: with monitoring on, the status is
/// refreshed; otherwise the manager sleeps.
pub open spec fn monitor_turn(m: ManagerView) -> Turn {
    if m.monitoring {
        Turn {
            state: at(m, StageView::MonitorStatus),
            msgs: seq![],
            request: RequestView::Run(sessions_list_args()),
        }
    } else {
        Turn { state: at(m, StageView::Idle), msgs: seq![], request: RequestView::SleepThenPoll }
    }
}

/// A command finished: its error, if any, goes to the user under `prefix`;
/// then the monitoring part of the round.
pub open spec fn finish_turn(m: ManagerView, prefix: Seq<char>, r: Result<(), Seq<char>>) -> Turn {
    match r {
        Err(e) => after(manager_error(m, prefix + e), monitor_turn(m)),
        Ok(_) => monitor_turn(m),
    }
}

/// A connection attempt finished: an error puts the manager in the error
/// state; success starts monitoring.
pub open spec fn connect_finish_turn(m: ManagerView, id: Seq<char>, r: Result<(), Seq<char>>) -> Turn {
    match r {
        Err(e) => {
            let es = manager_error(m, "Connection failed for '"@ + id + "': "@ + e);
            let (m1, ms) = with_status(m, StatusView::Error(e));
            after(es + ms, monitor_turn(m1))
        },
        Ok(_) => monitor_turn(ManagerView { monitoring: true, ..m }),
    }
}

/// A disconnect finished: monitoring stops.
pub open spec fn disconnect_finish_turn(m: ManagerView, r: Result<(), Seq<char>>) -> Turn {
    let es = match r {
        Err(e) => manager_error(m, "Disconnect failed: "@ + e),
        Ok(_) => seq![],
    };
    after(es, monitor_turn(ManagerView { monitoring: false, ..m }))
}

/// The session is forgotten and the status becomes disconnected.
pub open spec fn disconnect_reset(m: ManagerView) -> (ManagerView, Seq<MessageView>) {
    with_status(ManagerView { session_path: None, stats: None, ..m }, StatusView::Disconnected)
}

/// `openvpn3 log` is started.
pub open spec fn spawn_log_turn(m: ManagerView) -> Turn {
    Turn {
        state: at(m, StageView::LogStarting),
        msgs: manager_log(m, "Starting live VPN log streaming..."@),
        request: RequestView::SpawnLiveLog,
    }
}

/// The loop ends.
pub open spec fn terminate_turn(m: ManagerView) -> Turn {
    Turn {
        state: at(m, StageView::Stopped),
        msgs: manager_log(m, "Manager loop terminated."@),
        request: RequestView::Exit,
    }
}

/// The display name of a dumped configuration: the profile name for a known
/// path, else the identifier itself.
pub open spec fn dump_name(configs: Seq<ConfigProfileView>, id: Seq<char>) -> Seq<char> {
    if has_prefix(id, config_path_prefix()) {
        match find_config(configs, id) {
            Some(c) => c.name,
            None => id,
        }
    } else {
        id
    }
}

// --- Commands ----------------------------------------------------------------
/// A connect command.
pub open spec fn connect_turn(m: ManagerView, id: Seq<char>) -> Turn {
    if !(m.status is Disconnected || m.status is Error) {
        connect_finish_turn(
            m,
            id,
            Err(
                "Cannot connect: Already connected or in an intermediate state ("@ + status_debug(
                    m.status,
                ) + ")"@,
            ),
        )
    } else {
        let (m1, ms) = with_status(m, StatusView::Connecting);
        Turn {
            state: at(m1, StageView::Connecting(id)),
            msgs: ms + manager_log(m1, "Attempting to connect using: "@ + id),
            request: RequestView::Run(connect_args(id)),
        }
    }
}

/// Whether lowercased error text of a failed session start reports a failed
/// authentication: it mentions `authentication failed` or `auth-user-pass`.
pub open spec fn reports_auth_failure(lowered: Seq<char>) -> bool {
    has_sub(lowered, "authentication failed"@) || has_sub(lowered, "auth-user-pass"@)
}

/// The output of `openvpn3 session-start`.
pub open spec fn connect_output_turn(m: ManagerView, id: Seq<char>, r: Result<OutputView, Seq<char>>) -> Turn {
    match r {
        Err(e) => connect_finish_turn(m, id, Err(e)),
        Ok(o) => if !o.success {
            let err = o.stderr;
            if reports_auth_failure(lowercase_of(err)) && session_path_in(o.stdout) is Some {
                let sp = session_path_in(o.stdout)->0;
                let (m1, ms) = with_status(
                    m,
                    StatusView::AuthenticationRequired {
                        session_path: sp,
                        prompt: "Authentication required for "@ + id + ". Details: "@ + err,
                    },
                );
                after(
                    ms + seq![
                        MessageView::AuthenticationPrompt {
                            session_path: sp,
                            prompt: "Credentials needed for "@ + id + ". Error: "@ + err,
                        },
                    ],
                    connect_finish_turn(m1, id, Ok(())),
                )
            } else {
                let (m1, ms) = with_status(m, StatusView::Error(err));
                after(ms, connect_finish_turn(m1, id, Err("Failed to start session: "@ + err)))
            }
        } else {
            let lg = manager_log(m, "Session start output: "@ + o.stdout);
            match session_path_in(o.stdout) {
                Some(sp) => {
                    let m1 = ManagerView { session_path: Some(sp), ..m };
                    Turn {
                        state: at(m1, StageView::ConnectRefresh(id)),
                        msgs: lg + manager_log(m1, "Session started successfully. Path: "@ + sp),
                        request: RequestView::Run(sessions_list_args()),
                    }
                },
                None => Turn {
                    state: at(m, StageView::ConnectRefresh(id)),
                    msgs: lg + manager_log(
                        m,
                        "Session start reported success, but session path not found in output. Will rely on status updates."@,
                    ),
                    request: RequestView::Run(sessions_list_args()),
                },
            }
        },
    }
}

/// A disconnect command.
pub open spec fn disconnect_turn(m: ManagerView) -> Turn {
    match m.session_path {
        Some(sp) => {
            let (m1, ms) = with_status(m, StatusView::Disconnecting);
            Turn {
                state: at(m1, StageView::Disconnecting),
                msgs: ms + manager_log(m1, "Disconnecting session: "@ + sp),
                request: RequestView::Run(disconnect_args(sp)),
            }
        },
        None => {
            let lg = manager_log(m, "Disconnect called but no active session path found."@);
            let (m1, ms) = disconnect_reset(m);
            after(lg + ms, disconnect_finish_turn(m1, Ok(())))
        },
    }
}

/// The output of `openvpn3 session-manage --disconnect`.
pub open spec fn disconnect_output_turn(m: ManagerView, r: Result<OutputView, Seq<char>>) -> Turn {
    match r {
        Err(e) => disconnect_finish_turn(m, Err(e)),
        Ok(o) => {
            let lg = if !o.success {
                manager_log(m, "Disconnect command failed: "@ + o.stderr)
            } else {
                manager_log(m, "Disconnect command successful."@)
            };
            let (m1, ms) = disconnect_reset(m);
            after(lg + ms, disconnect_finish_turn(m1, Ok(())))
        },
    }
}

/// A session statistics command.
pub open spec fn stats_turn(m: ManagerView) -> Turn {
    match m.session_path {
        Some(sp) => Turn {
            state: at(m, StageView::FetchingStats(sp)),
            msgs: seq![],
            request: RequestView::Run(stats_args(sp)),
        },
        None => after(
            manager_log(m, "Get session stats called but no active session."@),
            finish_turn(ManagerView { stats: None, ..m }, "Failed to get session stats: "@, Ok(())),
        ),
    }
}

/// The output of `openvpn3 config-import`.
pub open spec fn import_output_turn(m: ManagerView, name: Seq<char>, r: Result<OutputView, Seq<char>>) -> Turn {
    match r {
        Err(e) => finish_turn(m, import_error(name), Err(e)),
        Ok(o) => if !o.success {
            finish_turn(m, import_error(name), Err(import_error(name) + o.stderr))
        } else {
            Turn {
                state: at(m, StageView::ImportRefresh(name)),
                msgs: seq![MessageView::ConfigImported(o.stdout)] + manager_log(
                    m,
                    "Config imported: "@ + o.stdout,
                ),
                request: RequestView::Run(configs_list_args()),
            }
        },
    }
}

/// The output of `openvpn3 config-remove`.
pub open spec fn remove_output_turn(m: ManagerView, id: Seq<char>, r: Result<OutputView, Seq<char>>) -> Turn {
    match r {
        Err(e) => finish_turn(m, remove_error(id), Err(e)),
        Ok(o) => if !o.success {
            finish_turn(m, remove_error(id), Err(remove_error(id) + o.stderr))
        } else {
            Turn {
                state: at(m, StageView::RemoveRefresh(id)),
                msgs: manager_log(m, "Config removed: "@ + id),
                request: RequestView::Run(configs_list_args()),
            }
        },
    }
}

/// The output of `openvpn3 config-dump`.
pub open spec fn dump_output_turn(m: ManagerView, id: Seq<char>, r: Result<OutputView, Seq<char>>) -> Turn {
    match r {
        Err(e) => finish_turn(m, dump_error(id), Err(e)),
        Ok(o) => if !o.success {
            finish_turn(m, dump_error(id), Err(dump_error(id) + o.stderr))
        } else {
            after(
                seq![MessageView::ConfigDumped { name: dump_name(m.configs, id), content: o.stdout }],
                finish_turn(m, dump_error(id), Ok(())),
            )
        },
    }
}

/// The output of `openvpn3 session-manage --password-prompt`.
pub open spec fn auth_output_turn(m: ManagerView, sp: Seq<char>, r: Result<OutputView, Seq<char>>) -> Turn {
    match r {
        Err(e) => finish_turn(m, "Authentication failed: "@, Err(e)),
        Ok(o) => if !o.success {
            let (m1, ms) = with_status(m, StatusView::Error("Authentication failed: "@ + o.stderr));
            after(
                ms,
                finish_turn(
                    m1,
                    "Authentication failed: "@,
                    Err("Authentication submission failed for "@ + sp + ": "@ + o.stderr),
                ),
            )
        } else {
            let lg = manager_log(m, "Authentication submitted for "@ + sp + ". Output: "@ + o.stdout);
            let (m1, ms) = with_status(m, StatusView::Connecting);
            Turn {
                state: at(m1, StageView::AuthRefresh),
                msgs: lg + ms,
                request: RequestView::Run(sessions_list_args()),
            }
        },
    }
}

/// A command taken from the queue at the start of a round.
pub open spec fn command_turn(m: ManagerView, c: CommandView) -> Turn {
    match c {
        CommandView::Connect(id) => connect_turn(m, id),
        CommandView::Disconnect => disconnect_turn(m),
        CommandView::GetStatusUpdate => Turn {
            state: at(m, StageView::StatusRefresh),
            msgs: seq![],
            request: RequestView::Run(sessions_list_args()),
        },
        CommandView::ListSessions => Turn {
            state: at(m, StageView::ListingSessions),
            msgs: seq![],
            request: RequestView::Run(sessions_list_args()),
        },
        CommandView::GetSessionStats => stats_turn(m),
        CommandView::ListConfigs => Turn {
            state: at(m, StageView::ListingConfigs),
            msgs: seq![],
            request: RequestView::Run(configs_list_args()),
        },
        CommandView::ImportConfig(path, name) => Turn {
            state: at(m, StageView::Importing(name)),
            msgs: seq![],
            request: RequestView::Run(import_args(path, name)),
        },
        CommandView::RemoveConfig(id) => Turn {
            state: at(m, StageView::Removing(id)),
            msgs: seq![],
            request: RequestView::Run(remove_args(id)),
        },
        CommandView::EnableManagerLogBuffer => {
            let m1 = ManagerView { logging: true, ..m };
            after(manager_log(m1, "Manager log buffer enabled."@), monitor_turn(m1))
        },
        CommandView::DisableManagerLogBuffer => monitor_turn(ManagerView { logging: false, ..m }),
        CommandView::StartLiveVpnLogs => if m.live_log {
            Turn {
                state: at(ManagerView { live_log: false, ..m }, StageView::LogRestartStop),
                msgs: manager_log(m, "Stopping live VPN log streaming..."@),
                request: RequestView::KillLiveLog,
            }
        } else {
            spawn_log_turn(m)
        },
        CommandView::StopLiveVpnLogs => if m.live_log {
            Turn {
                state: at(ManagerView { live_log: false, ..m }, StageView::LogStopping),
                msgs: manager_log(m, "Stopping live VPN log streaming..."@),
                request: RequestView::KillLiveLog,
            }
        } else {
            finish_turn(m, "Failed to stop live VPN logs: "@, Ok(()))
        },
        CommandView::GetVpnCliVersion => Turn {
            state: at(m, StageView::ReadingVersion),
            msgs: seq![],
            request: RequestView::Run(version_args()),
        },
        CommandView::DumpConfig(id) => Turn {
            state: at(m, StageView::Dumping(id)),
            msgs: seq![],
            request: RequestView::Run(dump_args(id)),
        },
        CommandView::SubmitAuthentication { session_path, response } => Turn {
            state: at(m, StageView::Authenticating(session_path)),
            msgs: manager_log(m, "Submitting authentication for session: "@ + session_path),
            request: RequestView::RunWithInput(auth_args(session_path), response),
        },
        CommandView::Shutdown => {
            let lg = manager_log(m, "Shutdown command received."@);
            if m.live_log {
                Turn {
                    state: at(ManagerView { live_log: false, ..m }, StageView::ShuttingDown),
                    msgs: lg + manager_log(m, "Stopping live VPN log streaming..."@),
                    request: RequestView::KillLiveLog,
                }
            } else {
                after(lg, terminate_turn(m))
            }
        },
    }
}

/// The event that the manager waits for in each stage.
pub open spec fn accepts(m: ManagerView, e: EventView) -> bool {
    match m.stage {
        StageView::Fresh => e is Start,
        StageView::Idle => e is Tick,
        StageView::Stopped => false,
        StageView::LogRestartStop | StageView::LogStopping | StageView::ShuttingDown => e is Killed,
        StageView::LogStarting => e is Spawned,
        _ => e is Output,
    }
}

/// One step of the manager.
pub open spec fn next_turn(m: ManagerView, e: EventView) -> Turn {
    match (m.stage, e) {
        (StageView::Fresh, EventView::Start) => Turn {
            state: at(m, StageView::InitConfigs),
            msgs: seq![],
            request: RequestView::Run(configs_list_args()),
        },
        (StageView::InitConfigs, EventView::Output(r)) => {
            let d = configs_done(m, r);
            let es = match d.result {
                Err(x) => manager_error(d.state, "Failed to load initial configs: "@ + x),
                Ok(_) => seq![],
            };
            Turn {
                state: at(d.state, StageView::InitSessions),
                msgs: d.msgs + es,
                request: RequestView::Run(sessions_list_args()),
            }
        },
        (StageView::InitSessions, EventView::Output(r)) => {
            let d = sessions_done(m, r);
            let es = match d.result {
                Err(x) => manager_error(d.state, "Failed to load initial sessions: "@ + x),
                Ok(_) => seq![],
            };
            Turn {
                state: at(d.state, StageView::InitVersion),
                msgs: d.msgs + es,
                request: RequestView::Run(version_args()),
            }
        },
        (StageView::InitVersion, EventView::Output(r)) => {
            let d = version_done(m, r);
            let es = match d.result {
                Err(x) => manager_error(d.state, "Failed to get OpenVPN3 CLI version: "@ + x),
                Ok(_) => seq![],
            };
            Turn {
                state: at(d.state, StageView::Idle),
                msgs: d.msgs + es + manager_log(d.state, "Manager loop started."@),
                request: RequestView::Poll,
            }
        },
        (StageView::Idle, EventView::Tick(c)) => match c {
            Some(cmd) => command_turn(m, cmd),
            None => monitor_turn(m),
        },
        (StageView::Connecting(id), EventView::Output(r)) => connect_output_turn(m, id, r),
        (StageView::ConnectRefresh(id), EventView::Output(r)) => {
            let d = status_done(m, r);
            after(d.msgs, connect_finish_turn(d.state, id, d.result))
        },
        (StageView::Disconnecting, EventView::Output(r)) => disconnect_output_turn(m, r),
        (StageView::StatusRefresh, EventView::Output(r)) => {
            let d = status_done(m, r);
            after(d.msgs, finish_turn(d.state, "Status update failed: "@, d.result))
        },
        (StageView::ListingSessions, EventView::Output(r)) => {
            let d = sessions_done(m, r);
            after(d.msgs, finish_turn(d.state, "Failed to list sessions: "@, d.result))
        },
        (StageView::FetchingStats(sp), EventView::Output(r)) => {
            let d = stats_done(m, sp, r);
            after(d.msgs, finish_turn(d.state, "Failed to get session stats: "@, d.result))
        },
        (StageView::ListingConfigs, EventView::Output(r)) => {
            let d = configs_done(m, r);
            after(d.msgs, finish_turn(d.state, "Failed to list configs: "@, d.result))
        },
        (StageView::Importing(name), EventView::Output(r)) => import_output_turn(m, name, r),
        (StageView::ImportRefresh(name), EventView::Output(r)) => {
            let d = configs_done(m, r);
            after(d.msgs, finish_turn(d.state, import_error(name), d.result))
        },
        (StageView::Removing(id), EventView::Output(r)) => remove_output_turn(m, id, r),
        (StageView::RemoveRefresh(id), EventView::Output(r)) => {
            let d = configs_done(m, r);
            after(d.msgs, finish_turn(d.state, remove_error(id), d.result))
        },
        (StageView::LogRestartStop, EventView::Killed(r)) => match r {
            Err(x) => finish_turn(m, "Failed to start live VPN logs: "@, Err(kill_error(x))),
            Ok(_) => after(manager_log(m, "Live VPN log streaming stopped."@), spawn_log_turn(m)),
        },
        (StageView::LogStarting, EventView::Spawned(r)) => match r {
            Err(x) => finish_turn(m, "Failed to start live VPN logs: "@, Err(x)),
            Ok(_) => finish_turn(
                ManagerView { live_log: true, ..m },
                "Failed to start live VPN logs: "@,
                Ok(()),
            ),
        },
        (StageView::LogStopping, EventView::Killed(r)) => match r {
            Err(x) => finish_turn(m, "Failed to stop live VPN logs: "@, Err(kill_error(x))),
            Ok(_) => after(
                manager_log(m, "Live VPN log streaming stopped."@),
                finish_turn(m, "Failed to stop live VPN logs: "@, Ok(())),
            ),
        },
        (StageView::ReadingVersion, EventView::Output(r)) => {
            let d = version_done(m, r);
            after(d.msgs, finish_turn(d.state, "Failed to get VPN CLI version: "@, d.result))
        },
        (StageView::Dumping(id), EventView::Output(r)) => dump_output_turn(m, id, r),
        (StageView::Authenticating(sp), EventView::Output(r)) => auth_output_turn(m, sp, r),
        (StageView::AuthRefresh, EventView::Output(r)) => {
            let d = status_done(m, r);
            after(d.msgs, finish_turn(d.state, "Authentication failed: "@, d.result))
        },
        (StageView::ShuttingDown, EventView::Killed(r)) => match r {
            Err(_) => terminate_turn(m),
            Ok(_) => after(manager_log(m, "Live VPN log streaming stopped."@), terminate_turn(m)),
        },
        (StageView::MonitorStatus, EventView::Output(r)) => {
            let d = status_done(m, r);
            let lg = match d.result {
                Err(x) => manager_log(d.state, "Status update error: "@ + x),
                Ok(_) => seq![],
            };
            after(d.msgs + lg, monitor_stats_turn(d.state))
        },
        (StageView::MonitorStats(sp), EventView::Output(r)) => {
            let d = stats_done(m, sp, r);
            let lg = match d.result {
                Err(x) => manager_log(d.state, "Stats update error: "@ + x),
                Ok(_) => seq![],
            };
            after(d.msgs + lg, monitor_end_turn(d.state))
        },
        _ => Turn { state: m, msgs: seq![], request: RequestView::Poll },
    }
}

/// A run of events from `m`, one step each: the state it ends in and every
/// message sent on the way, in order.
pub open spec fn run_of(m: ManagerView, es: Seq<EventView>) -> (ManagerView, Seq<MessageView>)
    decreases es.len(),
{
    if es.len() == 0 {
        (m, seq![])
    } else {
        let t = next_turn(m, es[0]);
        let rest = run_of(t.state, es.drop_first());
        (rest.0, t.msgs + rest.1)
    }
}

} // verus!
