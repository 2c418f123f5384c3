//! Properties that hold across the operations of the library.
use vstd::prelude::*;
use crate::app_state::{
    bounded, message_effect, status_after, status_effect, with_error_entry, with_log_entry,
    AppView,
};
use crate::manager_spec::{
    accepts, after, auth_output_turn, command_turn, configs_done, connect_finish_turn,
    connect_output_turn, connect_turn, disconnect_finish_turn, disconnect_output_turn,
    disconnect_turn, dump_output_turn, finish_turn, import_output_turn, manager_error,
    manager_log, monitor_end_turn, monitor_stats_turn, monitor_turn, next_turn,
    remove_output_turn, run_of, sessions_done, spawn_log_turn, stats_done, stats_turn,
    status_done, terminate_turn, version_done, Done, EventView, ManagerView, RequestView,
    StageView, Turn,
};
use crate::model::{CommandView, MessageView, StatusView};

verus! {

// ---------------------------------------------------------------------------
// How the user interface follows the status
// ---------------------------------------------------------------------------
/// The status shown after two runs of messages is the status after the
/// second run, starting from the status after the first.
pub proof fn lemma_status_after_concat(s: StatusView, a: Seq<MessageView>, b: Seq<MessageView>)
    ensures
        status_after(s, a + b) == status_after(status_after(s, a), b),
    decreases b.len(),
{
    if b.len() == 0 {
        assert(a + b =~= a);
    } else {
        lemma_status_after_concat(s, a, b.drop_last());
        assert((a + b).drop_last() =~= a + b.drop_last());
        assert((a + b).last() == b.last());
    }
}

/// One message changes the shown status as `status_effect` says.
pub proof fn lemma_status_after_one(s: StatusView, x: MessageView)
    ensures
        status_after(s, seq![x]) == status_effect(s, x),
{
    assert(seq![x].drop_last() =~= Seq::<MessageView>::empty());
    assert(status_after(s, seq![x].drop_last()) == s);
    assert(seq![x].last() == x);
}

/// Manager log lines and errors leave the shown status alone.
pub proof fn lemma_logs_keep_status(s: StatusView, m: ManagerView, text: Seq<char>)
    ensures
        status_after(s, manager_log(m, text)) == s,
        status_after(s, manager_error(m, text)) == s,
{
    if m.logging {
        lemma_status_after_one(s, MessageView::LogMessage("[MANAGER] "@ + text));
        lemma_status_after_one(s, MessageView::Error(text));
        lemma_status_after_concat(
            s,
            seq![MessageView::Error(text)],
            seq![MessageView::LogMessage("[MANAGER ERROR] "@ + text)],
        );
        lemma_status_after_one(s, MessageView::LogMessage("[MANAGER ERROR] "@ + text));
    } else {
        lemma_status_after_one(s, MessageView::Error(text));
        assert(manager_error(m, text) =~= seq![MessageView::Error(text)]);
    }
}

/// The messages of `t` bring the shown status from `s` to the status of
/// the state of `t`.
pub open spec fn tracks(s: StatusView, t: Turn) -> bool {
    status_after(s, t.msgs) == t.state.status
}

/// The messages of `d` bring the shown status from `s` to the status of
/// the state of `d`.
pub open spec fn tracks_done(s: StatusView, d: Done) -> bool {
    status_after(s, d.msgs) == d.state.status
}

/// Messages in front of a turn keep it tracking when they bring the status
/// to where the turn starts.
pub proof fn lemma_after_tracks(s: StatusView, msgs: Seq<MessageView>, t: Turn)
    requires
        tracks(status_after(s, msgs), t),
    ensures
        tracks(s, after(msgs, t)),
{
    lemma_status_after_concat(s, msgs, t.msgs);
}

proof fn lemma_status_update(s: StatusView, n: StatusView)
    ensures
        status_after(s, seq![MessageView::StatusUpdate(n)]) == n,
{
    lemma_status_after_one(s, MessageView::StatusUpdate(n));
}

proof fn lemma_monitor_tracks(m: ManagerView)
    ensures
        tracks(m.status, monitor_turn(m)),
        tracks(m.status, monitor_end_turn(m)),
        tracks(m.status, monitor_stats_turn(m)),
{
    lemma_logs_keep_status(m.status, m, "Disabling active monitoring."@);
    lemma_logs_keep_status(m.status, m, "Get session stats called but no active session."@);
    let m1 = ManagerView { stats: None, ..m };
    lemma_logs_keep_status(m1.status, m1, "Disabling active monitoring."@);
    lemma_after_tracks(
        m.status,
        manager_log(m, "Get session stats called but no active session."@),
        monitor_end_turn(m1),
    );
}

proof fn lemma_finish_tracks(m: ManagerView, prefix: Seq<char>, r: Result<(), Seq<char>>)
    ensures
        tracks(m.status, finish_turn(m, prefix, r)),
{
    lemma_monitor_tracks(m);
    if let Err(e) = r {
        lemma_logs_keep_status(m.status, m, prefix + e);
        lemma_after_tracks(m.status, manager_error(m, prefix + e), monitor_turn(m));
    }
}

proof fn lemma_connect_finish_tracks(m: ManagerView, id: Seq<char>, r: Result<(), Seq<char>>)
    ensures
        tracks(m.status, connect_finish_turn(m, id, r)),
{
    match r {
        Err(e) => {
            let text = "Connection failed for '"@ + id + "': "@ + e;
            let m1 = ManagerView { status: StatusView::Error(e), ..m };
            lemma_monitor_tracks(m1);
            lemma_logs_keep_status(m.status, m, text);
            lemma_status_update(m.status, StatusView::Error(e));
            lemma_status_after_concat(
                m.status,
                manager_error(m, text),
                seq![MessageView::StatusUpdate(StatusView::Error(e))],
            );
            lemma_after_tracks(
                m.status,
                manager_error(m, text) + seq![MessageView::StatusUpdate(StatusView::Error(e))],
                monitor_turn(m1),
            );
        },
        Ok(_) => {
            lemma_monitor_tracks(ManagerView { monitoring: true, ..m });
        },
    }
}

proof fn lemma_disconnect_finish_tracks(m: ManagerView, r: Result<(), Seq<char>>)
    ensures
        tracks(m.status, disconnect_finish_turn(m, r)),
{
    let m1 = ManagerView { monitoring: false, ..m };
    lemma_monitor_tracks(m1);
    match r {
        Err(e) => {
            lemma_logs_keep_status(m.status, m, "Disconnect failed: "@ + e);
            lemma_after_tracks(m.status, manager_error(m, "Disconnect failed: "@ + e), monitor_turn(m1));
        },
        Ok(_) => {
            lemma_after_tracks(m.status, seq![], monitor_turn(m1));
        },
    }
}

proof fn lemma_dones_track(m: ManagerView, sp: Seq<char>, r: Result<crate::manager_spec::OutputView, Seq<char>>)
    ensures
        tracks_done(m.status, configs_done(m, r)),
        tracks_done(m.status, sessions_done(m, r)),
        tracks_done(m.status, version_done(m, r)),
        tracks_done(m.status, status_done(m, r)),
        tracks_done(m.status, stats_done(m, sp, r)),
{
    if let Ok(o) = r {
        lemma_status_after_one(m.status, MessageView::ConfigsList(crate::parse::configs_in(o.stdout)));
        lemma_status_after_one(m.status, MessageView::SessionsList(crate::parse::sessions_in(o.stdout)));
        lemma_status_after_one(m.status, MessageView::VpnCliVersion(crate::text::trimmed(o.stdout)));
        lemma_logs_keep_status(m.status, m, "Could not parse session stats from output: "@ + o.stdout);
        if let Some(st) = crate::parse::stats_in(o.stdout) {
            lemma_status_after_one(m.status, MessageView::SessionStats(st));
        }
        lemma_status_update(m.status, StatusView::Disconnected);
        lemma_status_update(m.status, StatusView::Connecting);
        if let Some(path) = m.session_path {
            if let Some(s) = crate::manager_spec::find_session(crate::parse::sessions_in(o.stdout), path) {
                lemma_status_update(
                    m.status,
                    StatusView::Connected { ip: "Assigned"@, duration: s.created },
                );
            }
        }
    }
}

proof fn lemma_command_tracks(m: ManagerView, c: crate::model::CommandView)
    ensures
        tracks(m.status, command_turn(m, c)),
{
    lemma_monitor_tracks(m);
    match c {
        crate::model::CommandView::Connect(id) => {
            lemma_connect_finish_tracks(
                m,
                id,
                Err(
                    "Cannot connect: Already connected or in an intermediate state ("@
                        + crate::manager_spec::status_debug(m.status) + ")"@,
                ),
            );
            let m1 = ManagerView { status: StatusView::Connecting, ..m };
            lemma_logs_keep_status(StatusView::Connecting, m1, "Attempting to connect using: "@ + id);
            lemma_status_update(m.status, StatusView::Connecting);
            lemma_status_after_concat(
                m.status,
                seq![MessageView::StatusUpdate(StatusView::Connecting)],
                manager_log(m1, "Attempting to connect using: "@ + id),
            );
        },
        crate::model::CommandView::Disconnect => {
            if let Some(sp) = m.session_path {
                let m1 = ManagerView { status: StatusView::Disconnecting, ..m };
                lemma_logs_keep_status(StatusView::Disconnecting, m1, "Disconnecting session: "@ + sp);
                lemma_status_update(m.status, StatusView::Disconnecting);
                lemma_status_after_concat(
                    m.status,
                    seq![MessageView::StatusUpdate(StatusView::Disconnecting)],
                    manager_log(m1, "Disconnecting session: "@ + sp),
                );
            } else {
                let lg = manager_log(m, "Disconnect called but no active session path found."@);
                let (m1, ms) = crate::manager_spec::disconnect_reset(m);
                lemma_logs_keep_status(m.status, m, "Disconnect called but no active session path found."@);
                lemma_status_update(m.status, StatusView::Disconnected);
                lemma_status_after_concat(m.status, lg, ms);
                lemma_disconnect_finish_tracks(m1, Ok(()));
                lemma_after_tracks(m.status, lg + ms, disconnect_finish_turn(m1, Ok(())));
            }
        },
        crate::model::CommandView::GetSessionStats => {
            let m1 = ManagerView { stats: None, ..m };
            lemma_finish_tracks(m1, "Failed to get session stats: "@, Ok(()));
            lemma_logs_keep_status(m.status, m, "Get session stats called but no active session."@);
            lemma_after_tracks(
                m.status,
                manager_log(m, "Get session stats called but no active session."@),
                finish_turn(m1, "Failed to get session stats: "@, Ok(())),
            );
        },
        crate::model::CommandView::EnableManagerLogBuffer => {
            let m1 = ManagerView { logging: true, ..m };
            lemma_monitor_tracks(m1);
            lemma_logs_keep_status(m.status, m1, "Manager log buffer enabled."@);
            lemma_after_tracks(m.status, manager_log(m1, "Manager log buffer enabled."@), monitor_turn(m1));
        },
        crate::model::CommandView::DisableManagerLogBuffer => {
            lemma_monitor_tracks(ManagerView { logging: false, ..m });
        },
        crate::model::CommandView::StartLiveVpnLogs => {
            lemma_logs_keep_status(m.status, m, "Stopping live VPN log streaming..."@);
            lemma_logs_keep_status(m.status, m, "Starting live VPN log streaming..."@);
        },
        crate::model::CommandView::StopLiveVpnLogs => {
            lemma_logs_keep_status(m.status, m, "Stopping live VPN log streaming..."@);
            lemma_finish_tracks(m, "Failed to stop live VPN logs: "@, Ok(()));
        },
        crate::model::CommandView::SubmitAuthentication { session_path, response } => {
            lemma_logs_keep_status(m.status, m, "Submitting authentication for session: "@ + session_path);
        },
        crate::model::CommandView::Shutdown => {
            let lg = manager_log(m, "Shutdown command received."@);
            lemma_logs_keep_status(m.status, m, "Shutdown command received."@);
            lemma_logs_keep_status(m.status, m, "Stopping live VPN log streaming..."@);
            lemma_logs_keep_status(m.status, m, "Manager loop terminated."@);
            lemma_status_after_concat(m.status, lg, manager_log(m, "Stopping live VPN log streaming..."@));
            lemma_after_tracks(m.status, lg, terminate_turn(m));
        },
        _ => {},
    }
}

proof fn lemma_connect_output_tracks(m: ManagerView, id: Seq<char>, r: Result<crate::manager_spec::OutputView, Seq<char>>)
    ensures
        tracks(m.status, connect_output_turn(m, id, r)),
{
    match r {
        Err(e) => lemma_connect_finish_tracks(m, id, Err(e)),
        Ok(o) => if !o.success {
            let err = o.stderr;
            let lower = crate::text::lowercase_of(err);
            if (crate::text::has_sub(lower, "authentication failed"@) || crate::text::has_sub(
                lower,
                "auth-user-pass"@,
            )) && crate::parse::session_path_in(o.stdout) is Some {
                let sp = crate::parse::session_path_in(o.stdout)->0;
                let st = StatusView::AuthenticationRequired {
                    session_path: sp,
                    prompt: "Authentication required for "@ + id + ". Details: "@ + err,
                };
                let (m1, ms) = crate::manager_spec::with_status(m, st);
                let prompt = MessageView::AuthenticationPrompt {
                    session_path: sp,
                    prompt: "Credentials needed for "@ + id + ". Error: "@ + err,
                };
                lemma_status_update(m.status, st);
                lemma_status_after_one(st, prompt);
                lemma_status_after_concat(m.status, ms, seq![prompt]);
                lemma_connect_finish_tracks(m1, id, Ok(()));
                lemma_after_tracks(m.status, ms + seq![prompt], connect_finish_turn(m1, id, Ok(())));
            } else {
                let (m1, ms) = crate::manager_spec::with_status(m, StatusView::Error(err));
                lemma_status_update(m.status, StatusView::Error(err));
                lemma_connect_finish_tracks(m1, id, Err("Failed to start session: "@ + err));
                lemma_after_tracks(
                    m.status,
                    ms,
                    connect_finish_turn(m1, id, Err("Failed to start session: "@ + err)),
                );
            }
        } else {
            let lg = manager_log(m, "Session start output: "@ + o.stdout);
            lemma_logs_keep_status(m.status, m, "Session start output: "@ + o.stdout);
            match crate::parse::session_path_in(o.stdout) {
                Some(sp) => {
                    let m1 = ManagerView { session_path: Some(sp), ..m };
                    lemma_logs_keep_status(m.status, m1, "Session started successfully. Path: "@ + sp);
                    lemma_status_after_concat(
                        m.status,
                        lg,
                        manager_log(m1, "Session started successfully. Path: "@ + sp),
                    );
                },
                None => {
                    let t = "Session start reported success, but session path not found in output. Will rely on status updates."@;
                    lemma_logs_keep_status(m.status, m, t);
                    lemma_status_after_concat(m.status, lg, manager_log(m, t));
                },
            }
        },
    }
}

proof fn lemma_outputs_track(m: ManagerView, x: Seq<char>, r: Result<crate::manager_spec::OutputView, Seq<char>>)
    ensures
        tracks(m.status, disconnect_output_turn(m, r)),
        tracks(m.status, import_output_turn(m, x, r)),
        tracks(m.status, remove_output_turn(m, x, r)),
        tracks(m.status, dump_output_turn(m, x, r)),
        tracks(m.status, auth_output_turn(m, x, r)),
{
    lemma_finish_tracks(m, crate::manager_spec::import_error(x), Err(x));
    match r {
        Err(e) => {
            lemma_disconnect_finish_tracks(m, Err(e));
            lemma_finish_tracks(m, crate::manager_spec::import_error(x), Err(e));
            lemma_finish_tracks(m, crate::manager_spec::remove_error(x), Err(e));
            lemma_finish_tracks(m, crate::manager_spec::dump_error(x), Err(e));
            lemma_finish_tracks(m, "Authentication failed: "@, Err(e));
        },
        Ok(o) => {
            // disconnect
            let lg = if !o.success {
                manager_log(m, "Disconnect command failed: "@ + o.stderr)
            } else {
                manager_log(m, "Disconnect command successful."@)
            };
            lemma_logs_keep_status(m.status, m, "Disconnect command failed: "@ + o.stderr);
            lemma_logs_keep_status(m.status, m, "Disconnect command successful."@);
            let (m1, ms) = crate::manager_spec::disconnect_reset(m);
            lemma_status_update(m.status, StatusView::Disconnected);
            lemma_status_after_concat(m.status, lg, ms);
            lemma_disconnect_finish_tracks(m1, Ok(()));
            lemma_after_tracks(m.status, lg + ms, disconnect_finish_turn(m1, Ok(())));
            // import
            lemma_finish_tracks(
                m,
                crate::manager_spec::import_error(x),
                Err(crate::manager_spec::import_error(x) + o.stderr),
            );
            lemma_status_after_one(m.status, MessageView::ConfigImported(o.stdout));
            lemma_logs_keep_status(m.status, m, "Config imported: "@ + o.stdout);
            lemma_status_after_concat(
                m.status,
                seq![MessageView::ConfigImported(o.stdout)],
                manager_log(m, "Config imported: "@ + o.stdout),
            );
            // remove
            lemma_finish_tracks(
                m,
                crate::manager_spec::remove_error(x),
                Err(crate::manager_spec::remove_error(x) + o.stderr),
            );
            lemma_logs_keep_status(m.status, m, "Config removed: "@ + x);
            // dump
            lemma_finish_tracks(
                m,
                crate::manager_spec::dump_error(x),
                Err(crate::manager_spec::dump_error(x) + o.stderr),
            );
            lemma_finish_tracks(m, crate::manager_spec::dump_error(x), Ok(()));
            let dumped = MessageView::ConfigDumped {
                name: crate::manager_spec::dump_name(m.configs, x),
                content: o.stdout,
            };
            lemma_status_after_one(m.status, dumped);
            lemma_after_tracks(
                m.status,
                seq![dumped],
                finish_turn(m, crate::manager_spec::dump_error(x), Ok(())),
            );
            // authentication
            let st = StatusView::Error("Authentication failed: "@ + o.stderr);
            let (a1, ams) = crate::manager_spec::with_status(m, st);
            lemma_status_update(m.status, st);
            lemma_finish_tracks(
                a1,
                "Authentication failed: "@,
                Err("Authentication submission failed for "@ + x + ": "@ + o.stderr),
            );
            lemma_after_tracks(
                m.status,
                ams,
                finish_turn(
                    a1,
                    "Authentication failed: "@,
                    Err("Authentication submission failed for "@ + x + ": "@ + o.stderr),
                ),
            );
            let alg = manager_log(m, "Authentication submitted for "@ + x + ". Output: "@ + o.stdout);
            lemma_logs_keep_status(m.status, m, "Authentication submitted for "@ + x + ". Output: "@ + o.stdout);
            lemma_status_update(m.status, StatusView::Connecting);
            lemma_status_after_concat(
                m.status,
                alg,
                seq![MessageView::StatusUpdate(StatusView::Connecting)],
            );
        },
    }
}

/// The user interface follows the manager: when it starts from the
/// manager's status and applies the messages of a step in order, it shows
/// the status the manager holds after that step.
pub proof fn law_user_interface_tracks_status(m: ManagerView, e: EventView)
    requires
        accepts(m, e),
    ensures
        status_after(m.status, next_turn(m, e).msgs) == next_turn(m, e).state.status,
{
    lemma_monitor_tracks(m);
    match (m.stage, e) {
        (StageView::Fresh, EventView::Start) => {},
        (StageView::InitConfigs, EventView::Output(r)) => {
            let d = configs_done(m, r);
            lemma_dones_track(m, seq![], r);
            if let Err(x) = d.result {
                lemma_logs_keep_status(d.state.status, d.state, "Failed to load initial configs: "@ + x);
                lemma_status_after_concat(
                    m.status,
                    d.msgs,
                    manager_error(d.state, "Failed to load initial configs: "@ + x),
                );
            } else {
                assert(d.msgs + seq![] =~= d.msgs);
            }
        },
        (StageView::InitSessions, EventView::Output(r)) => {
            let d = sessions_done(m, r);
            lemma_dones_track(m, seq![], r);
            if let Err(x) = d.result {
                lemma_logs_keep_status(d.state.status, d.state, "Failed to load initial sessions: "@ + x);
                lemma_status_after_concat(
                    m.status,
                    d.msgs,
                    manager_error(d.state, "Failed to load initial sessions: "@ + x),
                );
            } else {
                assert(d.msgs + seq![] =~= d.msgs);
            }
        },
        (StageView::InitVersion, EventView::Output(r)) => {
            let d = version_done(m, r);
            lemma_dones_track(m, seq![], r);
            let es = match d.result {
                Err(x) => manager_error(d.state, "Failed to get OpenVPN3 CLI version: "@ + x),
                Ok(_) => seq![],
            };
            if let Err(x) = d.result {
                lemma_logs_keep_status(d.state.status, d.state, "Failed to get OpenVPN3 CLI version: "@ + x);
            }
            lemma_status_after_concat(m.status, d.msgs, es);
            lemma_logs_keep_status(d.state.status, d.state, "Manager loop started."@);
            lemma_status_after_concat(
                m.status,
                d.msgs + es,
                manager_log(d.state, "Manager loop started."@),
            );
        },
        (StageView::Idle, EventView::Tick(c)) => {
            if let Some(cmd) = c {
                lemma_command_tracks(m, cmd);
            }
        },
        (StageView::Connecting(id), EventView::Output(r)) => {
            lemma_connect_output_tracks(m, id, r);
        },
        (StageView::ConnectRefresh(id), EventView::Output(r)) => {
            let d = status_done(m, r);
            lemma_dones_track(m, seq![], r);
            lemma_connect_finish_tracks(d.state, id, d.result);
            lemma_after_tracks(m.status, d.msgs, connect_finish_turn(d.state, id, d.result));
        },
        (StageView::Disconnecting, EventView::Output(r)) => {
            lemma_outputs_track(m, seq![], r);
        },
        (StageView::StatusRefresh, EventView::Output(r)) => {
            let d = status_done(m, r);
            lemma_dones_track(m, seq![], r);
            lemma_finish_tracks(d.state, "Status update failed: "@, d.result);
            lemma_after_tracks(m.status, d.msgs, finish_turn(d.state, "Status update failed: "@, d.result));
        },
        (StageView::ListingSessions, EventView::Output(r)) => {
            let d = sessions_done(m, r);
            lemma_dones_track(m, seq![], r);
            lemma_finish_tracks(d.state, "Failed to list sessions: "@, d.result);
            lemma_after_tracks(m.status, d.msgs, finish_turn(d.state, "Failed to list sessions: "@, d.result));
        },
        (StageView::FetchingStats(sp), EventView::Output(r)) => {
            let d = stats_done(m, sp, r);
            lemma_dones_track(m, sp, r);
            lemma_finish_tracks(d.state, "Failed to get session stats: "@, d.result);
            lemma_after_tracks(m.status, d.msgs, finish_turn(d.state, "Failed to get session stats: "@, d.result));
        },
        (StageView::ListingConfigs, EventView::Output(r)) => {
            let d = configs_done(m, r);
            lemma_dones_track(m, seq![], r);
            lemma_finish_tracks(d.state, "Failed to list configs: "@, d.result);
            lemma_after_tracks(m.status, d.msgs, finish_turn(d.state, "Failed to list configs: "@, d.result));
        },
        (StageView::Importing(name), EventView::Output(r)) => {
            lemma_outputs_track(m, name, r);
        },
        (StageView::ImportRefresh(name), EventView::Output(r)) => {
            let d = configs_done(m, r);
            let p = crate::manager_spec::import_error(name);
            lemma_dones_track(m, seq![], r);
            lemma_finish_tracks(d.state, p, d.result);
            lemma_after_tracks(m.status, d.msgs, finish_turn(d.state, p, d.result));
        },
        (StageView::Removing(id), EventView::Output(r)) => {
            lemma_outputs_track(m, id, r);
        },
        (StageView::RemoveRefresh(id), EventView::Output(r)) => {
            let d = configs_done(m, r);
            let p = crate::manager_spec::remove_error(id);
            lemma_dones_track(m, seq![], r);
            lemma_finish_tracks(d.state, p, d.result);
            lemma_after_tracks(m.status, d.msgs, finish_turn(d.state, p, d.result));
        },
        (StageView::LogRestartStop, EventView::Killed(r)) => {
            match r {
                Err(x) => lemma_finish_tracks(
                    m,
                    "Failed to start live VPN logs: "@,
                    Err(crate::manager_spec::kill_error(x)),
                ),
                Ok(_) => {
                    lemma_logs_keep_status(m.status, m, "Live VPN log streaming stopped."@);
                    lemma_logs_keep_status(m.status, m, "Starting live VPN log streaming..."@);
                    lemma_after_tracks(
                        m.status,
                        manager_log(m, "Live VPN log streaming stopped."@),
                        spawn_log_turn(m),
                    );
                },
            }
        },
        (StageView::LogStarting, EventView::Spawned(r)) => {
            lemma_finish_tracks(m, "Failed to start live VPN logs: "@, r);
            lemma_finish_tracks(
                ManagerView { live_log: true, ..m },
                "Failed to start live VPN logs: "@,
                Ok(()),
            );
        },
        (StageView::LogStopping, EventView::Killed(r)) => {
            match r {
                Err(x) => lemma_finish_tracks(
                    m,
                    "Failed to stop live VPN logs: "@,
                    Err(crate::manager_spec::kill_error(x)),
                ),
                Ok(_) => {
                    lemma_finish_tracks(m, "Failed to stop live VPN logs: "@, Ok(()));
                    lemma_logs_keep_status(m.status, m, "Live VPN log streaming stopped."@);
                    lemma_after_tracks(
                        m.status,
                        manager_log(m, "Live VPN log streaming stopped."@),
                        finish_turn(m, "Failed to stop live VPN logs: "@, Ok(())),
                    );
                },
            }
        },
        (StageView::ReadingVersion, EventView::Output(r)) => {
            let d = version_done(m, r);
            lemma_dones_track(m, seq![], r);
            lemma_finish_tracks(d.state, "Failed to get VPN CLI version: "@, d.result);
            lemma_after_tracks(m.status, d.msgs, finish_turn(d.state, "Failed to get VPN CLI version: "@, d.result));
        },
        (StageView::Dumping(id), EventView::Output(r)) => {
            lemma_outputs_track(m, id, r);
        },
        (StageView::Authenticating(sp), EventView::Output(r)) => {
            lemma_outputs_track(m, sp, r);
        },
        (StageView::AuthRefresh, EventView::Output(r)) => {
            let d = status_done(m, r);
            lemma_dones_track(m, seq![], r);
            lemma_finish_tracks(d.state, "Authentication failed: "@, d.result);
            lemma_after_tracks(m.status, d.msgs, finish_turn(d.state, "Authentication failed: "@, d.result));
        },
        (StageView::ShuttingDown, EventView::Killed(r)) => {
            lemma_logs_keep_status(m.status, m, "Manager loop terminated."@);
            lemma_logs_keep_status(m.status, m, "Live VPN log streaming stopped."@);
            lemma_after_tracks(
                m.status,
                manager_log(m, "Live VPN log streaming stopped."@),
                terminate_turn(m),
            );
        },
        (StageView::MonitorStatus, EventView::Output(r)) => {
            let d = status_done(m, r);
            lemma_dones_track(m, seq![], r);
            let lg = match d.result {
                Err(x) => manager_log(d.state, "Status update error: "@ + x),
                Ok(_) => seq![],
            };
            if let Err(x) = d.result {
                lemma_logs_keep_status(d.state.status, d.state, "Status update error: "@ + x);
            }
            lemma_status_after_concat(m.status, d.msgs, lg);
            lemma_monitor_tracks(d.state);
            lemma_after_tracks(m.status, d.msgs + lg, monitor_stats_turn(d.state));
        },
        (StageView::MonitorStats(sp), EventView::Output(r)) => {
            let d = stats_done(m, sp, r);
            lemma_dones_track(m, sp, r);
            let lg = match d.result {
                Err(x) => manager_log(d.state, "Stats update error: "@ + x),
                Ok(_) => seq![],
            };
            if let Err(x) = d.result {
                lemma_logs_keep_status(d.state.status, d.state, "Stats update error: "@ + x);
            }
            lemma_status_after_concat(m.status, d.msgs, lg);
            lemma_monitor_tracks(d.state);
            lemma_after_tracks(m.status, d.msgs + lg, monitor_end_turn(d.state));
        },
        _ => {},
    }
}

/// Applying a message to the user interface changes the shown status as
/// `status_effect` says, whatever else it changes.
pub proof fn law_message_sets_status(a: AppView, msg: MessageView, ts: Seq<char>)
    ensures
        message_effect(a, msg, ts).0.connection_status == status_effect(a.connection_status, msg),
{
}

// ---------------------------------------------------------------------------
// Monitoring
// ---------------------------------------------------------------------------
/// A connection that is down or failed.
pub open spec fn is_down(s: StatusView) -> bool {
    s is Disconnected || s is Error
}

/// The manager never goes to sleep while it still monitors a connection
/// that is down or failed: a round that ends in a sleep with such a status
/// has switched monitoring off.
pub proof fn law_no_monitoring_of_a_dead_connection(m: ManagerView, e: EventView)
    requires
        accepts(m, e),
    ensures
        next_turn(m, e).request is SleepThenPoll && is_down(next_turn(m, e).state.status)
            ==> !next_turn(m, e).state.monitoring,
{
}

// ---------------------------------------------------------------------------
// Manager logging
// ---------------------------------------------------------------------------
/// No message is a log line.
pub open spec fn without_log_lines(msgs: Seq<MessageView>) -> bool {
    forall|i: int| 0 <= i < msgs.len() ==> !(#[trigger] msgs[i] is LogMessage)
}

/// Two runs of messages hold no log line when neither does.
pub broadcast proof fn lemma_without_log_lines_concat(a: Seq<MessageView>, b: Seq<MessageView>)
    ensures
        #[trigger] without_log_lines(a + b) == (without_log_lines(a) && without_log_lines(b)),
{
    if without_log_lines(a) && without_log_lines(b) {
        assert forall|i: int| 0 <= i < (a + b).len() implies !(#[trigger] (a + b)[i] is LogMessage) by {
            if i < a.len() {
                assert((a + b)[i] == a[i]);
            } else {
                assert((a + b)[i] == b[i - a.len()]);
            }
        }
    }
    if without_log_lines(a + b) {
        assert forall|i: int| 0 <= i < a.len() implies !(#[trigger] a[i] is LogMessage) by {
            assert((a + b)[i] == a[i]);
        }
        assert forall|i: int| 0 <= i < b.len() implies !(#[trigger] b[i] is LogMessage) by {
            assert((a + b)[i + a.len()] == b[i]);
        }
    }
}

/// With manager logging off, the manager sends no log line, unless the
/// step is the command that switches manager logging back on.
pub proof fn law_logging_off_is_silent(m: ManagerView, e: EventView)
    requires
        !m.logging,
        e != EventView::Tick(Some(crate::model::CommandView::EnableManagerLogBuffer)),
    ensures
        without_log_lines(next_turn(m, e).msgs),
{
    broadcast use lemma_without_log_lines_concat;
}

// ---------------------------------------------------------------------------
// Connecting and disconnecting
// ---------------------------------------------------------------------------
/// A connection is started only from a disconnected or failed state: then
/// `openvpn3 session-start` is run for the identifier and the status becomes
/// connecting; otherwise nothing is started, the user gets a connection
/// error and the status becomes an error.
pub proof fn law_connect_only_when_down(m: ManagerView, id: Seq<char>)
    requires
        m.stage is Idle,
    ensures
        is_down(m.status) ==> next_turn(
            m,
            EventView::Tick(Some(crate::model::CommandView::Connect(id))),
        ).request == crate::manager_spec::RequestView::Run(crate::manager_spec::connect_args(id))
            && next_turn(
            m,
            EventView::Tick(Some(crate::model::CommandView::Connect(id))),
        ).state.status == StatusView::Connecting,
        !is_down(m.status) ==> next_turn(
            m,
            EventView::Tick(Some(crate::model::CommandView::Connect(id))),
        ).state.status is Error && next_turn(
            m,
            EventView::Tick(Some(crate::model::CommandView::Connect(id))),
        ).msgs[0] == MessageView::Error(
            "Connection failed for '"@ + id + "': "@
                + "Cannot connect: Already connected or in an intermediate state ("@
                + crate::manager_spec::status_debug(m.status) + ")"@,
        ) && !(next_turn(
            m,
            EventView::Tick(Some(crate::model::CommandView::Connect(id))),
        ).request is Run && next_turn(
            m,
            EventView::Tick(Some(crate::model::CommandView::Connect(id))),
        ).request->Run_0.len() == 3),
{
    let text = "Connection failed for '"@ + id + "': "@
        + "Cannot connect: Already connected or in an intermediate state ("@
        + crate::manager_spec::status_debug(m.status) + ")"@;
    assert(("Connection failed for '"@ + id + "': "@)
        + ("Cannot connect: Already connected or in an intermediate state ("@
        + crate::manager_spec::status_debug(m.status) + ")"@) =~= text);
}

/// A finished disconnect leaves the manager disconnected, with no session,
/// no statistics and no monitoring; so does a disconnect when no session is
/// known.
pub proof fn law_disconnect_clears_session(m: ManagerView, e: EventView)
    requires
        accepts(m, e),
        (m.stage is Disconnecting && e is Output && e->Output_0 is Ok) || (m.stage is Idle && e
            == EventView::Tick(Some(crate::model::CommandView::Disconnect))
            && m.session_path is None),
    ensures
        next_turn(m, e).state.status == StatusView::Disconnected,
        next_turn(m, e).state.session_path is None,
        next_turn(m, e).state.stats is None,
        !next_turn(m, e).state.monitoring,
{
}

/// A failed session start whose error text mentions a failed
/// authentication or `auth-user-pass` (in any case) and whose output names a
/// session is taken as a request for credentials: the status asks for
/// authentication of that session and the user is prompted, with no error.
pub proof fn law_authentication_is_detected(m: ManagerView, id: Seq<char>, o: crate::manager_spec::OutputView)
    requires
        m.stage == StageView::Connecting(id),
        !o.success,
        crate::text::has_sub(crate::text::lowercase_of(o.stderr), "authentication failed"@)
            || crate::text::has_sub(crate::text::lowercase_of(o.stderr), "auth-user-pass"@),
        crate::parse::session_path_in(o.stdout) is Some,
    ensures
        next_turn(m, EventView::Output(Ok(o))).msgs[0] == MessageView::StatusUpdate(
            (StatusView::AuthenticationRequired {
                session_path: crate::parse::session_path_in(o.stdout)->0,
                prompt: "Authentication required for "@ + id + ". Details: "@ + o.stderr,
            }),
        ),
        next_turn(m, EventView::Output(Ok(o))).msgs[1] == (MessageView::AuthenticationPrompt {
            session_path: crate::parse::session_path_in(o.stdout)->0,
            prompt: "Credentials needed for "@ + id + ". Error: "@ + o.stderr,
        }),
        (next_turn(m, EventView::Output(Ok(o))).state.status is AuthenticationRequired),
        without_errors(next_turn(m, EventView::Output(Ok(o))).msgs),
{
    broadcast use lemma_without_errors_concat;

    let sp = crate::parse::session_path_in(o.stdout)->0;
    let st = StatusView::AuthenticationRequired {
        session_path: sp,
        prompt: "Authentication required for "@ + id + ". Details: "@ + o.stderr,
    };
    let m1 = ManagerView { status: st, monitoring: true, ..m };
    assert(without_errors(monitor_turn(m1).msgs));
}

/// No message is an error.
pub open spec fn without_errors(msgs: Seq<MessageView>) -> bool {
    forall|i: int| 0 <= i < msgs.len() ==> !(#[trigger] msgs[i] is Error)
}

/// Two runs of messages hold no error when neither does.
pub broadcast proof fn lemma_without_errors_concat(a: Seq<MessageView>, b: Seq<MessageView>)
    ensures
        #[trigger] without_errors(a + b) == (without_errors(a) && without_errors(b)),
{
    if without_errors(a) && without_errors(b) {
        assert forall|i: int| 0 <= i < (a + b).len() implies !(#[trigger] (a + b)[i] is Error) by {
            if i < a.len() {
                assert((a + b)[i] == a[i]);
            } else {
                assert((a + b)[i] == b[i - a.len()]);
            }
        }
    }
    if without_errors(a + b) {
        assert forall|i: int| 0 <= i < a.len() implies !(#[trigger] a[i] is Error) by {
            assert((a + b)[i] == a[i]);
        }
        assert forall|i: int| 0 <= i < b.len() implies !(#[trigger] b[i] is Error) by {
            assert((a + b)[i + a.len()] == b[i]);
        }
    }
}

/// A command stage: the manager waits for the run of a user command.
pub open spec fn is_command_stage(st: StageView) -> bool {
    match st {
        StageView::Connecting(_) | StageView::ConnectRefresh(_) | StageView::Disconnecting
        | StageView::StatusRefresh | StageView::ListingSessions | StageView::FetchingStats(_)
        | StageView::ListingConfigs | StageView::Importing(_) | StageView::ImportRefresh(_)
        | StageView::Removing(_) | StageView::RemoveRefresh(_) | StageView::ReadingVersion
        | StageView::Dumping(_) | StageView::Authenticating(_) | StageView::AuthRefresh => true,
        _ => false,
    }
}

/// `s` ends with `x`.
pub open spec fn ends_with(s: Seq<char>, x: Seq<char>) -> bool {
    x.len() <= s.len() && s.skip(s.len() - x.len()) == x
}

/// A user command whose `openvpn3` run could not even start is answered:
/// the first message of the step is an error for the user that ends with
/// the reason.
pub proof fn law_failed_run_is_answered(m: ManagerView, reason: Seq<char>)
    requires
        is_command_stage(m.stage),
    ensures
        next_turn(m, EventView::Output(Err(reason))).msgs.len() > 0,
        next_turn(m, EventView::Output(Err(reason))).msgs[0] is Error,
        ends_with(next_turn(m, EventView::Output(Err(reason))).msgs[0]->Error_0, reason),
{
    match m.stage {
        StageView::Connecting(id) => lemma_ends_with_concat("Connection failed for '"@ + id + "': "@, reason),
        StageView::ConnectRefresh(id) => lemma_ends_with_concat("Connection failed for '"@ + id + "': "@, reason),
        StageView::Disconnecting => lemma_ends_with_concat("Disconnect failed: "@, reason),
        StageView::StatusRefresh => lemma_ends_with_concat("Status update failed: "@, reason),
        StageView::ListingSessions => lemma_ends_with_concat("Failed to list sessions: "@, reason),
        StageView::FetchingStats(_) => lemma_ends_with_concat("Failed to get session stats: "@, reason),
        StageView::ListingConfigs => lemma_ends_with_concat("Failed to list configs: "@, reason),
        StageView::Importing(n) => lemma_ends_with_concat(crate::manager_spec::import_error(n), reason),
        StageView::ImportRefresh(n) => lemma_ends_with_concat(crate::manager_spec::import_error(n), reason),
        StageView::Removing(n) => lemma_ends_with_concat(crate::manager_spec::remove_error(n), reason),
        StageView::RemoveRefresh(n) => lemma_ends_with_concat(crate::manager_spec::remove_error(n), reason),
        StageView::ReadingVersion => lemma_ends_with_concat("Failed to get VPN CLI version: "@, reason),
        StageView::Dumping(n) => lemma_ends_with_concat(crate::manager_spec::dump_error(n), reason),
        StageView::Authenticating(_) => lemma_ends_with_concat("Authentication failed: "@, reason),
        StageView::AuthRefresh => lemma_ends_with_concat("Authentication failed: "@, reason),
        _ => {},
    }
}

/// A text made of a prefix and `x` ends with `x`.
pub proof fn lemma_ends_with_concat(p: Seq<char>, x: Seq<char>)
    ensures
        ends_with(p + x, x),
{
    assert((p + x).skip((p + x).len() - x.len()) =~= x);
}

// ---------------------------------------------------------------------------
// The user interface
// ---------------------------------------------------------------------------
/// The log keeps at most its bound of lines and the error history at most
/// its bound of entries, whatever is logged, recorded or received.
pub proof fn law_user_interface_stays_bounded(a: AppView, ts: Seq<char>, text: Seq<char>, msg: MessageView)
    requires
        bounded(a),
    ensures
        bounded(with_log_entry(a, ts, text)),
        bounded(with_error_entry(a, ts, text)),
        bounded(message_effect(a, msg, ts).0),
{
}

/// A request for credentials, whether as a status or as a prompt, opens the
/// authentication dialog for that session with an empty response.
pub proof fn law_credentials_request_opens_dialog(a: AppView, sp: Seq<char>, prompt: Seq<char>, ts: Seq<char>)
    ensures
        ({
            let b = message_effect(
                a,
                MessageView::StatusUpdate(
                    StatusView::AuthenticationRequired { session_path: sp, prompt: prompt },
                ),
                ts,
            ).0;
            b.show_auth_dialog && b.auth_session_path == Some(sp) && b.auth_prompt_message == prompt
                && b.auth_input_response.len() == 0
        }),
        ({
            let b = message_effect(
                a,
                MessageView::AuthenticationPrompt { session_path: sp, prompt: prompt },
                ts,
            ).0;
            b.show_auth_dialog && b.auth_session_path == Some(sp) && b.auth_prompt_message == prompt
                && b.auth_input_response.len() == 0 && b.connection_status is AuthenticationRequired
        }),
{
}

// ---------------------------------------------------------------------------
// Parsing
// ---------------------------------------------------------------------------
/// Every profile read from a configuration list is named by a word of its
/// line, uses that name as its path, and is marked valid with unknown import
/// time and owner.
pub proof fn law_listed_profiles_are_named(output: Seq<char>)
    ensures
        forall|i: int|
            0 <= i < crate::parse::configs_in(output).len() ==> {
                let c = #[trigger] crate::parse::configs_in(output)[i];
                &&& c.path == c.name
                &&& c.name.len() > 0
                &&& c.valid
                &&& c.import_time == "N/A"@
                &&& c.owner == "N/A"@
            },
{
    lemma_config_scan_named(crate::parse::body_lines(output));
}

proof fn lemma_config_scan_named(ls: Seq<Seq<char>>)
    ensures
        forall|i: int|
            0 <= i < crate::parse::config_scan(ls).len() ==> {
                let c = #[trigger] crate::parse::config_scan(ls)[i];
                &&& c.path == c.name
                &&& c.name.len() > 0
                &&& c.valid
                &&& c.import_time == "N/A"@
                &&& c.owner == "N/A"@
            },
    decreases ls.len(),
{
    if ls.len() > 0 {
        let prev = crate::parse::config_scan(ls.drop_last());
        lemma_config_scan_named(ls.drop_last());
        let t = crate::text::trimmed(ls.last());
        lemma_first_word_nonempty(t);
        if !(t.len() == 0 || crate::text::has_prefix(t, "---"@)) {
            if let Some(w) = crate::text::first_word_of(t) {
                let cur = crate::parse::config_scan(ls);
                assert(cur == prev.push(crate::parse::profile_named(w)));
                assert forall|i: int| 0 <= i < cur.len() implies {
                    let c = #[trigger] cur[i];
                    &&& c.path == c.name
                    &&& c.name.len() > 0
                    &&& c.valid
                    &&& c.import_time == "N/A"@
                    &&& c.owner == "N/A"@
                } by {
                    if i < prev.len() {
                        assert(cur[i] == prev[i]);
                    }
                }
            }
        }
    }
}

proof fn lemma_first_word_nonempty(s: Seq<char>)
    ensures
        crate::text::first_word_of(s) matches Some(w) ==> w.len() > 0,
{
    let t = crate::text::trimmed_start(s);
    if t.len() > 0 {
        lemma_trimmed_start_head(s);
        crate::text::lemma_first_ws_bounds(t.drop_first());
        crate::text::lemma_first_ws_bounds(t);
        assert(crate::text::first_ws_index(t) >= 1);
    }
}

proof fn lemma_trimmed_start_head(s: Seq<char>)
    ensures
        crate::text::trimmed_start(s).len() > 0 ==> !crate::text::is_ws(
            crate::text::trimmed_start(s)[0],
        ),
    decreases s.len(),
{
    if s.len() > 0 && crate::text::is_ws(s[0]) {
        lemma_trimmed_start_head(s.drop_first());
    }
}

// ---------------------------------------------------------------------------
// Runs of several steps
// ---------------------------------------------------------------------------
/// A step with manager logging off leaves it off, unless the step is the
/// command that switches it on.
proof fn lemma_logging_stays_off_one(m: ManagerView, e: EventView)
    requires
        !m.logging,
        e != EventView::Tick(Some(CommandView::EnableManagerLogBuffer)),
    ensures
        !next_turn(m, e).state.logging,
{
}

/// Once manager logging is off, it stays off and the manager sends no log
/// line over any run of events that does not switch it back on.
pub proof fn law_logging_stays_off(m: ManagerView, es: Seq<EventView>)
    requires
        !m.logging,
        forall|i: int|
            0 <= i < es.len() ==> es[i] != EventView::Tick(Some(CommandView::EnableManagerLogBuffer)),
    ensures
        without_log_lines(run_of(m, es).1),
        !run_of(m, es).0.logging,
    decreases es.len(),
{
    broadcast use lemma_without_log_lines_concat;

    if es.len() > 0 {
        let t = next_turn(m, es[0]);
        law_logging_off_is_silent(m, es[0]);
        lemma_logging_stays_off_one(m, es[0]);
        law_logging_stays_off(t.state, es.drop_first());
    }
}

/// Switching manager logging off silences the manager's log lines for as
/// long as it is not switched on again; switching it on announces itself in
/// the log and logging resumes.
pub proof fn law_logging_switch(m: ManagerView, es: Seq<EventView>)
    requires
        m.stage is Idle,
        forall|i: int|
            0 <= i < es.len() ==> es[i] != EventView::Tick(Some(CommandView::EnableManagerLogBuffer)),
    ensures
        without_log_lines(
            run_of(m, seq![EventView::Tick(Some(CommandView::DisableManagerLogBuffer))] + es).1,
        ),
        next_turn(m, EventView::Tick(Some(CommandView::EnableManagerLogBuffer))).msgs[0]
            == MessageView::LogMessage("[MANAGER] Manager log buffer enabled."@),
        next_turn(m, EventView::Tick(Some(CommandView::EnableManagerLogBuffer))).state.logging,
{
    broadcast use lemma_without_log_lines_concat;

    let d = EventView::Tick(Some(CommandView::DisableManagerLogBuffer));
    let all = seq![d] + es;
    assert(all[0] == d);
    assert(all.drop_first() =~= es);
    let t = next_turn(m, d);
    assert(t.msgs.len() == 0);
    law_logging_stays_off(t.state, es);
    assert(without_log_lines(t.msgs));
    reveal_strlit("[MANAGER] ");
    reveal_strlit("Manager log buffer enabled.");
    reveal_strlit("[MANAGER] Manager log buffer enabled.");
    assert("[MANAGER] "@ + "Manager log buffer enabled."@ =~= "[MANAGER] Manager log buffer enabled."@);
}

/// Two events that are equal but for the response they submit for a
/// session's credentials.
pub open spec fn differ_in_response(e1: EventView, e2: EventView) -> bool {
    e1 == e2 || match (e1, e2) {
        (
            EventView::Tick(Some(CommandView::SubmitAuthentication { session_path: s1, .. })),
            EventView::Tick(Some(CommandView::SubmitAuthentication { session_path: s2, .. })),
        ) => s1 == s2,
        _ => false,
    }
}

/// One step on events that differ only in the submitted response.
proof fn lemma_response_step(m: ManagerView, e1: EventView, e2: EventView)
    requires
        differ_in_response(e1, e2),
    ensures
        next_turn(m, e1).state == next_turn(m, e2).state,
        next_turn(m, e1).msgs == next_turn(m, e2).msgs,
{
}

/// The response to a credentials prompt reaches only the input of
/// `openvpn3 session-manage`: two runs of events that differ only in the
/// responses they submit leave the manager in the same state and send the
/// user interface the same messages.
pub proof fn law_response_stays_private(m: ManagerView, es1: Seq<EventView>, es2: Seq<EventView>)
    requires
        es1.len() == es2.len(),
        forall|i: int| 0 <= i < es1.len() ==> differ_in_response(#[trigger] es1[i], es2[i]),
    ensures
        run_of(m, es1) == run_of(m, es2),
    decreases es1.len(),
{
    if es1.len() > 0 {
        lemma_response_step(m, es1[0], es2[0]);
        let t = next_turn(m, es1[0]);
        assert forall|i: int| 0 <= i < es1.drop_first().len() implies differ_in_response(
            #[trigger] es1.drop_first()[i],
            es2.drop_first()[i],
        ) by {
            assert(es1.drop_first()[i] == es1[i + 1]);
            assert(es2.drop_first()[i] == es2[i + 1]);
        }
        law_response_stays_private(t.state, es1.drop_first(), es2.drop_first());
    }
}

/// Stopping the live log ends the streaming whatever the kill reports (a
/// failed kill is reported to the user), and a stop when no live log runs
/// is no more than an ordinary round of the loop: stopping twice is the same
/// as stopping once.
pub proof fn law_stopping_live_logs_is_idempotent(m: ManagerView, r: Result<(), Seq<char>>)
    requires
        m.stage is Idle,
    ensures
        !m.live_log ==> next_turn(m, EventView::Tick(Some(CommandView::StopLiveVpnLogs)))
            == next_turn(m, EventView::Tick(None)),
        m.live_log ==> next_turn(m, EventView::Tick(Some(CommandView::StopLiveVpnLogs))).request
            == RequestView::KillLiveLog,
        m.live_log ==> ({
            let s = next_turn(
                next_turn(m, EventView::Tick(Some(CommandView::StopLiveVpnLogs))).state,
                EventView::Killed(r),
            ).state;
            &&& !s.live_log
            &&& s.stage is Idle ==> next_turn(s, EventView::Tick(Some(CommandView::StopLiveVpnLogs)))
                == next_turn(s, EventView::Tick(None))
        }),
        m.live_log && r is Err ==> next_turn(
            next_turn(m, EventView::Tick(Some(CommandView::StopLiveVpnLogs))).state,
            EventView::Killed(r),
        ).msgs[0] == MessageView::Error(
            "Failed to stop live VPN logs: "@ + crate::manager_spec::kill_error(r->Err_0),
        ),
{
}

// ---------------------------------------------------------------------------
// Status refresh, statistics, and the window's buttons and lists
// ---------------------------------------------------------------------------
/// A successful `openvpn3 sessions-list` refresh keeps the shown status in
/// line with the tracked session: listed and reporting a connected client
/// means connected (since its creation time); listed but not yet reporting
/// that means still connecting; not listed means disconnected and no longer
/// tracked; with no tracked session the status is disconnected. The refresh
/// itself never fails, and a status that is still coming up keeps a
/// monitoring round monitoring.
pub proof fn law_status_refresh_follows_the_session(
    m: ManagerView,
    o: crate::manager_spec::OutputView,
)
    requires
        o.success,
    ensures
        status_done(m, Ok(o)).result is Ok,
        m.session_path is None ==> status_done(m, Ok(o)).state.status == StatusView::Disconnected,
        m.session_path matches Some(sp) ==> match crate::manager_spec::find_session(
            crate::parse::sessions_in(o.stdout),
            sp,
        ) {
            Some(s) => {
                &&& status_done(m, Ok(o)).state.session_path == Some(sp)
                &&& crate::text::has_sub(s.status, "Connection, Client connected"@)
                    ==> status_done(m, Ok(o)).state.status == (StatusView::Connected {
                    ip: "Assigned"@,
                    duration: s.created,
                })
                &&& !crate::text::has_sub(s.status, "Connection, Client connected"@) ==> {
                    &&& status_done(m, Ok(o)).state.status == StatusView::Connecting
                    &&& status_done(m, Ok(o)).msgs == seq![MessageView::StatusUpdate(StatusView::Connecting)]
                    &&& (m.stage is MonitorStatus && m.monitoring) ==> {
                        &&& next_turn(m, EventView::Output(Ok(o))).state.monitoring
                        &&& next_turn(m, EventView::Output(Ok(o))).state.status
                            == StatusView::Connecting
                    }
                }
            },
            None => {
                &&& status_done(m, Ok(o)).state.session_path is None
                &&& status_done(m, Ok(o)).state.status == StatusView::Disconnected
            },
        },
{
}

/// A line that names a tunnel counter (`TUN_`) never changes the packet
/// counters, wherever it stands and whatever was read before it.
pub proof fn law_tunnel_lines_leave_packet_counts(acc: crate::parse::StatsScan, line: Seq<char>)
    requires
        crate::text::has_sub(line, "TUN_"@),
    ensures
        crate::parse::stats_step(acc, line).stats.packets_out == acc.stats.packets_out,
        crate::parse::stats_step(acc, line).stats.packets_in == acc.stats.packets_in,
{
    reveal_strlit("TUN_");
    crate::text::lemma_trimmed_keeps_sub(line, "TUN_"@);
}

/// Appending a tunnel-counter line to statistics output leaves the packet
/// counters read from it as they were.
pub proof fn law_tunnel_line_appended(ls: Seq<Seq<char>>, line: Seq<char>)
    requires
        crate::text::has_sub(line, "TUN_"@),
    ensures
        crate::parse::stats_scan(ls.push(line)).stats.packets_out
            == crate::parse::stats_scan(ls).stats.packets_out,
        crate::parse::stats_scan(ls.push(line)).stats.packets_in
            == crate::parse::stats_scan(ls).stats.packets_in,
{
    assert(ls.push(line).drop_last() =~= ls);
    law_tunnel_lines_leave_packet_counts(crate::parse::stats_scan(ls), line);
}

/// A sessions list from the manager replaces the list the window shows,
/// whatever it holds (an empty list included), and changes nothing else.
pub proof fn law_sessions_list_replaces(
    a: AppView,
    ss: Seq<crate::model::SessionInfoView>,
    ts: Seq<char>,
)
    ensures
        message_effect(a, MessageView::SessionsList(ss), ts).0.sessions_list == ss,
        message_effect(a, MessageView::SessionsList(ss), ts).0 == (AppView { sessions_list: ss, ..a }),
        !message_effect(a, MessageView::SessionsList(ss), ts).1,
{
}

/// Connect and Disconnect are never usable together; with a profile
/// selected exactly one of them is usable, except while a disconnect is in
/// progress, when neither is. Disconnect depends only on the status: it is
/// usable exactly when the status is neither disconnected, disconnecting
/// nor failed.
pub proof fn law_connect_buttons(a: AppView)
    ensures
        !(crate::app_state::connect_allowed(a) && crate::app_state::disconnect_allowed(a)),
        a.selected_config_idx is Some && !(a.connection_status is Disconnecting) ==> (
        crate::app_state::connect_allowed(a) || crate::app_state::disconnect_allowed(a)),
        a.connection_status is Disconnecting ==> !crate::app_state::connect_allowed(a)
            && !crate::app_state::disconnect_allowed(a),
        crate::app_state::disconnect_allowed(a) <==> !(a.connection_status is Disconnected
            || a.connection_status is Disconnecting || a.connection_status is Error),
{
}

/// Asking for statistics while a session is tracked runs
/// `openvpn3 session-stats` for that session, keeps the stored counters and
/// sends nothing yet; the answer, when it names counters, is stored and
/// sent.
pub proof fn law_stats_request_runs_for_the_session(
    m: ManagerView,
    sp: Seq<char>,
    o: crate::manager_spec::OutputView,
)
    requires
        m.stage is Idle,
        m.session_path == Some(sp),
    ensures
        next_turn(m, EventView::Tick(Some(CommandView::GetSessionStats))).request
            == RequestView::Run(seq!["session-stats"@, "--session-path"@, sp]),
        next_turn(m, EventView::Tick(Some(CommandView::GetSessionStats))).state.stats == m.stats,
        next_turn(m, EventView::Tick(Some(CommandView::GetSessionStats))).state.stage
            == StageView::FetchingStats(sp),
        next_turn(m, EventView::Tick(Some(CommandView::GetSessionStats))).msgs.len() == 0,
        o.success && crate::parse::stats_in(o.stdout) is Some ==> next_turn(
            next_turn(m, EventView::Tick(Some(CommandView::GetSessionStats))).state,
            EventView::Output(Ok(o)),
        ).state.stats == crate::parse::stats_in(o.stdout),
{
}

} // verus!
