//! Parsers for the text that the `openvpn3` command prints.
use vstd::prelude::*;
use crate::model::{
    ConnectionStatus, StatusView, configs_view, sessions_view, stats_opt_view, ConfigProfile, ConfigProfileView, SessionInfo,
    SessionInfoView, SessionStats, SessionStatsView,
};
use crate::text::{
    contains, find, find_in, first_word, first_word_of, has_prefix, has_sub, lemma_find_from,
    lines_of, parse_u64, parsed_u64, second_piece, second_split_piece, split_lines, split_once,
    split_once_of, starts_with, stripped_leading, substring, trim, trim_start_char, trimmed,
    concat4, lowercase_of, to_lowercase,
};

verus! {

// ---------------------------------------------------------------------------
// Specifications
// ---------------------------------------------------------------------------
/// The trimmed text after the first `key` in `line`, or nothing when `key`
/// does not occur.
pub open spec fn value_after(line: Seq<char>, key: Seq<char>) -> Seq<char> {
    match split_once_of(line, key) {
        Some(pair) => trimmed(pair.1),
        None => seq![],
    }
}

/// A session that so far has only its path.
pub open spec fn blank_session(path: Seq<char>) -> SessionInfoView {
    SessionInfoView {
        session_path: path,
        config_name: seq![],
        status: seq![],
        created: seq![],
        owner: seq![],
    }
}

/// A session with the field that a trimmed detail line `t` names set.
pub open spec fn session_with_field(c: SessionInfoView, t: Seq<char>) -> SessionInfoView {
    if has_prefix(t, "Config name:"@) {
        SessionInfoView { config_name: value_after(t, "Config name:"@), ..c }
    } else if has_prefix(t, "Status:"@) {
        SessionInfoView { status: value_after(t, "Status:"@), ..c }
    } else if has_prefix(t, "Created:"@) {
        SessionInfoView { created: value_after(t, "Created:"@), ..c }
    } else if has_prefix(t, "Owner:"@) {
        SessionInfoView { owner: value_after(t, "Owner:"@), ..c }
    } else {
        c
    }
}

/// The state of a scan through a session list: the sessions finished so far
/// and the one being read.
pub struct SessionScan {
    pub done: Seq<SessionInfoView>,
    pub current: Option<SessionInfoView>,
}

/// The finished sessions, with the one being read appended.
pub open spec fn flushed(acc: SessionScan) -> Seq<SessionInfoView> {
    match acc.current {
        Some(c) => acc.done.push(c),
        None => acc.done,
    }
}

/// One line of a session list: a `Path:` line starts a session, a detail
/// line fills a field of the current one, and anything else is skipped.
pub open spec fn session_step(acc: SessionScan, line: Seq<char>) -> SessionScan {
    let t = trimmed(line);
    if has_prefix(t, "Path:"@) {
        SessionScan { done: flushed(acc), current: Some(blank_session(value_after(t, "Path:"@))) }
    } else {
        match acc.current {
            Some(c) => SessionScan { done: acc.done, current: Some(session_with_field(c, t)) },
            None => acc,
        }
    }
}

/// The scan state after the lines `ls`.
pub open spec fn session_scan(ls: Seq<Seq<char>>) -> SessionScan
    decreases ls.len(),
{
    if ls.len() == 0 {
        SessionScan { done: seq![], current: None }
    } else {
        session_step(session_scan(ls.drop_last()), ls.last())
    }
}

/// The sessions that `openvpn3 sessions-list` output describes.
pub open spec fn sessions_in(output: Seq<char>) -> Seq<SessionInfoView> {
    flushed(session_scan(lines_of(output)))
}

/// A profile known only by its name.
pub open spec fn profile_named(name: Seq<char>) -> ConfigProfileView {
    ConfigProfileView { path: name, name: name, import_time: "N/A"@, owner: "N/A"@, valid: true }
}

/// One line of a configuration list: blank and `---` lines are skipped, any
/// other names a profile by its first word.
pub open spec fn config_step(acc: Seq<ConfigProfileView>, line: Seq<char>) -> Seq<
    ConfigProfileView,
> {
    let t = trimmed(line);
    if t.len() == 0 || has_prefix(t, "---"@) {
        acc
    } else {
        match first_word_of(t) {
            Some(w) => acc.push(profile_named(w)),
            None => acc,
        }
    }
}

/// The profiles after the lines `ls`.
pub open spec fn config_scan(ls: Seq<Seq<char>>) -> Seq<ConfigProfileView>
    decreases ls.len(),
{
    if ls.len() == 0 {
        seq![]
    } else {
        config_step(config_scan(ls.drop_last()), ls.last())
    }
}

/// The lines of `output` after its two header lines.
pub open spec fn body_lines(output: Seq<char>) -> Seq<Seq<char>> {
    let ls = lines_of(output);
    if ls.len() < 2 {
        seq![]
    } else {
        ls.skip(2)
    }
}

/// The profiles that `openvpn3 configs-list` output describes.
pub open spec fn configs_in(output: Seq<char>) -> Seq<ConfigProfileView> {
    config_scan(body_lines(output))
}

/// The value after a run of dots: from the first `..`, the dots and the
/// whitespace around the value removed; nothing when that leaves nothing.
pub open spec fn dots_value(line: Seq<char>) -> Option<Seq<char>> {
    match find_in(line, ".."@) {
        Some(i) => {
            let v = trimmed(stripped_leading(line.skip(i), '.'));
            if v.len() > 0 {
                Some(v)
            } else {
                None
            }
        },
        None => None,
    }
}

/// A decimal number, or zero when the text is not one.
pub open spec fn number_or_zero(v: Seq<char>) -> u64 {
    match parsed_u64(v) {
        Some(n) => n,
        None => 0,
    }
}

/// Counters before any line is read.
pub open spec fn initial_stats() -> SessionStatsView {
    SessionStatsView {
        bytes_in: 0,
        bytes_out: 0,
        packets_in: 0,
        packets_out: 0,
        connected_since: "N/A"@,
        virtual_ip: "N/A"@,
        remote_ip: "N/A"@,
    }
}

/// The state of a scan through statistics output.
pub struct StatsScan {
    pub stats: SessionStatsView,
    pub found: bool,
}

/// One line of statistics output: the first counter that the line names
/// takes the value after its dots.
pub open spec fn stats_step(acc: StatsScan, line: Seq<char>) -> StatsScan {
    let t = trimmed(line);
    if has_sub(t, "BYTES_IN"@) {
        match dots_value(t) {
            Some(v) => StatsScan {
                stats: SessionStatsView { bytes_in: number_or_zero(v), ..acc.stats },
                found: true,
            },
            None => acc,
        }
    } else if has_sub(t, "BYTES_OUT"@) {
        match dots_value(t) {
            Some(v) => StatsScan {
                stats: SessionStatsView { bytes_out: number_or_zero(v), ..acc.stats },
                found: true,
            },
            None => acc,
        }
    } else if has_sub(t, "PACKETS_IN"@) && !has_sub(t, "TUN_"@) {
        match dots_value(t) {
            Some(v) => StatsScan {
                stats: SessionStatsView { packets_in: number_or_zero(v), ..acc.stats },
                found: true,
            },
            None => acc,
        }
    } else if has_sub(t, "PACKETS_OUT"@) && !has_sub(t, "TUN_"@) {
        match dots_value(t) {
            Some(v) => StatsScan {
                stats: SessionStatsView { packets_out: number_or_zero(v), ..acc.stats },
                found: true,
            },
            None => acc,
        }
    } else {
        acc
    }
}

/// The scan state after the lines `ls`.
pub open spec fn stats_scan(ls: Seq<Seq<char>>) -> StatsScan
    decreases ls.len(),
{
    if ls.len() == 0 {
        StatsScan { stats: initial_stats(), found: false }
    } else {
        stats_step(stats_scan(ls.drop_last()), ls.last())
    }
}

/// The statistics that `openvpn3 session-stats` output describes, when it
/// names at least one counter.
pub open spec fn stats_in(output: Seq<char>) -> Option<SessionStatsView> {
    let r = stats_scan(lines_of(output));
    if r.found {
        Some(r.stats)
    } else {
        None
    }
}

/// The first line whose trimmed text starts with `key`.
pub open spec fn first_line_with_prefix(ls: Seq<Seq<char>>, key: Seq<char>) -> Option<Seq<char>>
    decreases ls.len(),
{
    if ls.len() == 0 {
        None
    } else if has_prefix(trimmed(ls[0]), key) {
        Some(ls[0])
    } else {
        first_line_with_prefix(ls.drop_first(), key)
    }
}

/// The first line that contains `pat`.
pub open spec fn first_line_containing(ls: Seq<Seq<char>>, pat: Seq<char>) -> Option<Seq<char>>
    decreases ls.len(),
{
    if ls.len() == 0 {
        None
    } else if has_sub(ls[0], pat) {
        Some(ls[0])
    } else {
        first_line_containing(ls.drop_first(), pat)
    }
}

/// The value of the first `key` line of `text`: the trimmed text between its
/// first and second colon.
pub open spec fn field_value(text: Seq<char>, key: Seq<char>) -> Option<Seq<char>> {
    match first_line_with_prefix(lines_of(text), key) {
        Some(l) => match second_piece(l, ":"@) {
            Some(p) => Some(trimmed(p)),
            None => None,
        },
        None => None,
    }
}

/// The session path that `openvpn3 session-start` output reports.
pub open spec fn session_path_in(output: Seq<char>) -> Option<Seq<char>> {
    match first_line_containing(lines_of(output), "Session path:"@) {
        Some(l) => match second_piece(l, "Session path:"@) {
            Some(p) => Some(trimmed(p)),
            None => None,
        },
        None => None,
    }
}

/// The optional view of an optional session.
pub open spec fn session_opt_view(s: Option<SessionInfo>) -> Option<SessionInfoView> {
    match s {
        Some(x) => Some(x@),
        None => None,
    }
}

/// The connection time that detailed session output reports: `Connected
/// since:`, else `Duration:`, else `N/A`.
pub open spec fn connected_duration(output: Seq<char>) -> Seq<char> {
    match field_value(output, "Connected since:"@) {
        Some(d) => d,
        None => match field_value(output, "Duration:"@) {
            Some(d) => d,
            None => "N/A"@,
        },
    }
}

/// The status that detailed session output of `session_path` describes,
/// with a note for the log when the output is unclear.
pub open spec fn status_from_output(output: Seq<char>, session_path: Seq<char>) -> (
    StatusView,
    Option<Seq<char>>,
) {
    lowered_status(output, lowercase_of(output), session_path)
}

/// The status that detailed session output of `session_path` describes,
/// given the output and its lowercased text `lower`; the status keywords are
/// looked for in `lower`.
pub open spec fn lowered_status(output: Seq<char>, lower: Seq<char>, session_path: Seq<char>) -> (
    StatusView,
    Option<Seq<char>>,
) {
    match field_value(output, "Virtual IP:"@) {
        Some(ip) => (StatusView::Connected { ip: ip, duration: connected_duration(output) }, None),
        None => if has_sub(lower, "status: connected"@) || has_sub(lower, "connection initiated"@) {
            (StatusView::Connected { ip: "N/A"@, duration: connected_duration(output) }, None)
        } else if has_sub(lower, "status: connecting"@) {
            (StatusView::Connecting, None)
        } else if has_sub(lower, "status: authenticating"@) || has_sub(lower, "auth_pending"@) {
            (
                StatusView::AuthenticationRequired {
                    session_path: session_path,
                    prompt: "Authentication is pending. Please provide credentials."@,
                },
                None,
            )
        } else if has_sub(lower, "status: disconnected"@) || has_sub(lower, "status: exited"@) {
            (StatusView::Disconnected, None)
        } else {
            (
                StatusView::Connecting,
                Some(
                    "Could not determine clear status from session output for "@ + session_path
                        + ". Output: "@ + output,
                ),
            )
        },
    }
}

// ---------------------------------------------------------------------------
// Executable parsers
// ---------------------------------------------------------------------------
/// The trimmed text after `key` in `line`, or an empty string.
pub fn extract_value(line: &str, key: &str) -> (r: String)
    ensures
        r@ == value_after(line@, key@),
{
    match split_once(line, key) {
        Some((_, v)) => trim(v.as_str()),
        None => String::new(),
    }
}

/// A session that so far has only its path.
fn new_session(path: String) -> (r: SessionInfo)
    ensures
        r@ == blank_session(path@),
{
    SessionInfo {
        session_path: path,
        config_name: String::new(),
        status: String::new(),
        created: String::new(),
        owner: String::new(),
    }
}

/// Fills the field that the trimmed detail line `t` names.
fn fill_session_field(c: SessionInfo, t: &str) -> (r: SessionInfo)
    ensures
        r@ == session_with_field(c@, t@),
{
    let mut c = c;
    if starts_with(t, "Config name:") {
        c.config_name = extract_value(t, "Config name:");
    } else if starts_with(t, "Status:") {
        c.status = extract_value(t, "Status:");
    } else if starts_with(t, "Created:") {
        c.created = extract_value(t, "Created:");
    } else if starts_with(t, "Owner:") {
        c.owner = extract_value(t, "Owner:");
    }
    c
}

/// Parses the output of `openvpn3 sessions-list`.
pub fn parse_sessions_list(output: &str) -> (r: Vec<SessionInfo>)
    ensures
        sessions_view(r@) == sessions_in(output@),
{
    let lines = split_lines(output);
    let ghost ls = lines@.map_values(|x: String| x@);
    let mut sessions: Vec<SessionInfo> = Vec::new();
    let mut current: Option<SessionInfo> = None;
    let n = lines.len();
    let mut i: usize = 0;
    assert(ls.take(0) =~= Seq::<Seq<char>>::empty());
    assert(sessions_view(sessions@) =~= Seq::<SessionInfoView>::empty());
    while i < n
        invariant
            n == lines@.len(),
            ls == lines@.map_values(|x: String| x@),
            ls == lines_of(output@),
            i <= n,
            sessions_view(sessions@) == session_scan(ls.take(i as int)).done,
            session_opt_view(current) == session_scan(ls.take(i as int)).current,
        decreases n - i,
    {
        let ghost before = session_scan(ls.take(i as int));
        assert(ls.take(i + 1).drop_last() =~= ls.take(i as int));
        assert(ls.take(i + 1).last() == lines@[i as int]@);
        let t = trim(lines[i].as_str());
        if starts_with(t.as_str(), "Path:") {
            match current {
                Some(s) => {
                    let ghost old_view = sessions_view(sessions@);
                    sessions.push(s);
                    assert(sessions_view(sessions@) =~= old_view.push(s@));
                },
                None => {},
            }
            current = Some(new_session(extract_value(t.as_str(), "Path:")));
        } else {
            current =
            match current {
                Some(c) => Some(fill_session_field(c, t.as_str())),
                None => None,
            };
        }
        i = i + 1;
    }
    assert(ls.take(n as int) =~= ls);
    match current {
        Some(s) => {
            let ghost old_view = sessions_view(sessions@);
            sessions.push(s);
            assert(sessions_view(sessions@) =~= old_view.push(s@));
        },
        None => {},
    }
    sessions
}

/// A profile known only by its name.
fn profile_from_name(name: String) -> (r: ConfigProfile)
    ensures
        r@ == profile_named(name@),
{
    ConfigProfile {
        path: name.clone(),
        name: name,
        import_time: String::from_str("N/A"),
        owner: String::from_str("N/A"),
        valid: true,
    }
}

/// Parses the output of `openvpn3 configs-list`.
pub fn parse_configs_list(output: &str) -> (r: Vec<ConfigProfile>)
    ensures
        configs_view(r@) == configs_in(output@),
{
    let lines = split_lines(output);
    let ghost ls = lines@.map_values(|x: String| x@);
    let mut configs: Vec<ConfigProfile> = Vec::new();
    let n = lines.len();
    if n < 2 {
        assert(configs_view(configs@) =~= Seq::<ConfigProfileView>::empty());
        return configs;
    }
    let mut i: usize = 2;
    assert(ls.subrange(2, 2) =~= Seq::<Seq<char>>::empty());
    assert(configs_view(configs@) =~= Seq::<ConfigProfileView>::empty());
    while i < n
        invariant
            n == lines@.len(),
            ls == lines@.map_values(|x: String| x@),
            ls == lines_of(output@),
            2 <= i <= n,
            configs_view(configs@) == config_scan(ls.subrange(2, i as int)),
        decreases n - i,
    {
        assert(ls.subrange(2, i + 1).drop_last() =~= ls.subrange(2, i as int));
        assert(ls.subrange(2, i + 1).last() == lines@[i as int]@);
        let t = trim(lines[i].as_str());
        if t.unicode_len() == 0 || starts_with(t.as_str(), "---") {
        } else {
            match first_word(t.as_str()) {
                Some(w) => {
                    let ghost old_view = configs_view(configs@);
                    let p = profile_from_name(w);
                    configs.push(p);
                    assert(configs_view(configs@) =~= old_view.push(p@));
                },
                None => {},
            }
        }
        i = i + 1;
    }
    assert(ls.subrange(2, n as int) =~= ls.skip(2));
    configs
}

/// The value after a run of dots in a statistics line.
pub fn extract_dots_value(line: &str) -> (r: Option<String>)
    ensures
        r matches Some(v) ==> dots_value(line@) == Some(v@),
        r is None ==> dots_value(line@) is None,
{
    let n = line.unicode_len();
    match find(line, "..") {
        Some(i) => {
            proof {
                lemma_find_from(line@, ".."@, 0);
            }
            let part = substring(line, i, n);
            assert(part@ =~= line@.skip(i as int));
            let stripped = trim_start_char(part.as_str(), '.');
            let value = trim(stripped.as_str());
            if value.unicode_len() > 0 {
                Some(value)
            } else {
                None
            }
        },
        None => None,
    }
}

/// A decimal number, or zero when the text is not one.
fn number_or_zero_exec(v: &str) -> (r: u64)
    ensures
        r == number_or_zero(v@),
{
    match parse_u64(v) {
        Some(n) => n,
        None => 0,
    }
}

/// Parses the output of `openvpn3 session-stats`; `None` when it names no
/// counter.
pub fn parse_session_stats(output: &str) -> (r: Option<SessionStats>)
    ensures
        stats_opt_view(r) == stats_in(output@),
{
    let lines = split_lines(output);
    let ghost ls = lines@.map_values(|x: String| x@);
    let mut stats = SessionStats {
        bytes_in: 0,
        bytes_out: 0,
        packets_in: 0,
        packets_out: 0,
        connected_since: String::from_str("N/A"),
        virtual_ip: String::from_str("N/A"),
        remote_ip: String::from_str("N/A"),
    };
    let mut found_any = false;
    let n = lines.len();
    let mut i: usize = 0;
    assert(ls.take(0) =~= Seq::<Seq<char>>::empty());
    while i < n
        invariant
            n == lines@.len(),
            ls == lines@.map_values(|x: String| x@),
            ls == lines_of(output@),
            i <= n,
            stats@ == stats_scan(ls.take(i as int)).stats,
            found_any == stats_scan(ls.take(i as int)).found,
        decreases n - i,
    {
        assert(ls.take(i + 1).drop_last() =~= ls.take(i as int));
        assert(ls.take(i + 1).last() == lines@[i as int]@);
        let line = trim(lines[i].as_str());
        let l = line.as_str();
        if contains(l, "BYTES_IN") {
            if let Some(val) = extract_dots_value(l) {
                stats.bytes_in = number_or_zero_exec(val.as_str());
                found_any = true;
            }
        } else if contains(l, "BYTES_OUT") {
            if let Some(val) = extract_dots_value(l) {
                stats.bytes_out = number_or_zero_exec(val.as_str());
                found_any = true;
            }
        } else if contains(l, "PACKETS_IN") && !contains(l, "TUN_") {
            if let Some(val) = extract_dots_value(l) {
                stats.packets_in = number_or_zero_exec(val.as_str());
                found_any = true;
            }
        } else if contains(l, "PACKETS_OUT") && !contains(l, "TUN_") {
            if let Some(val) = extract_dots_value(l) {
                stats.packets_out = number_or_zero_exec(val.as_str());
                found_any = true;
            }
        }
        i = i + 1;
    }
    assert(ls.take(n as int) =~= ls);
    if found_any {
        Some(stats)
    } else {
        None
    }
}

/// The value of the first `field_key` line of `text` (the trimmed text
/// between its first and second colon).
pub fn extract_field(text: &str, field_key: &str) -> (r: Option<String>)
    ensures
        r matches Some(v) ==> field_value(text@, field_key@) == Some(v@),
        r is None ==> field_value(text@, field_key@) is None,
{
    let lines = split_lines(text);
    let ghost ls = lines@.map_values(|x: String| x@);
    let n = lines.len();
    let mut i: usize = 0;
    assert(ls.skip(0) =~= ls);
    while i < n
        invariant
            n == lines@.len(),
            ls == lines@.map_values(|x: String| x@),
            ls == lines_of(text@),
            i <= n,
            first_line_with_prefix(ls, field_key@) == first_line_with_prefix(
                ls.skip(i as int),
                field_key@,
            ),
        decreases n - i,
    {
        assert(ls.skip(i as int)[0] == lines@[i as int]@);
        let t = trim(lines[i].as_str());
        if starts_with(t.as_str(), field_key) {
            proof {
                reveal_strlit(":");
            }
            return match second_split_piece(lines[i].as_str(), ":") {
                Some(p) => Some(trim(p.as_str())),
                None => None,
            };
        }
        assert(ls.skip(i as int).drop_first() =~= ls.skip(i + 1));
        i = i + 1;
    }
    None
}

/// The session path reported in `openvpn3 session-start` output.
pub fn extract_session_path_from_output(output: &str) -> (r: Option<String>)
    ensures
        r matches Some(v) ==> session_path_in(output@) == Some(v@),
        r is None ==> session_path_in(output@) is None,
{
    let lines = split_lines(output);
    let ghost ls = lines@.map_values(|x: String| x@);
    let n = lines.len();
    let mut i: usize = 0;
    assert(ls.skip(0) =~= ls);
    while i < n
        invariant
            n == lines@.len(),
            ls == lines@.map_values(|x: String| x@),
            ls == lines_of(output@),
            i <= n,
            first_line_containing(ls, "Session path:"@) == first_line_containing(
                ls.skip(i as int),
                "Session path:"@,
            ),
        decreases n - i,
    {
        assert(ls.skip(i as int)[0] == lines@[i as int]@);
        if contains(lines[i].as_str(), "Session path:") {
            proof {
                reveal_strlit("Session path:");
            }
            return match second_split_piece(lines[i].as_str(), "Session path:") {
                Some(p) => Some(trim(p.as_str())),
                None => None,
            };
        }
        assert(ls.skip(i as int).drop_first() =~= ls.skip(i + 1));
        i = i + 1;
    }
    None
}

/// The connection time reported in detailed session output.
fn duration_from_output(output: &str) -> (r: String)
    ensures
        r@ == connected_duration(output@),
{
    match extract_field(output, "Connected since:") {
        Some(d) => d,
        None => match extract_field(output, "Duration:") {
            Some(d) => d,
            None => String::from_str("N/A"),
        },
    }
}

/// Reads the connection status from detailed session output of
/// `session_path`; the second part is the note for the manager log when the
/// output names no clear status.
pub fn read_session_status(output: &str, session_path: &str) -> (r: (
    ConnectionStatus,
    Option<String>,
))
    ensures
        r.0@ == status_from_output(output@, session_path@).0,
        crate::model::str_opt_view(r.1) == status_from_output(output@, session_path@).1,
{
    let lower = to_lowercase(output);
    status_from_lowered(output, lower.as_str(), session_path)
}

/// Reads the connection status from detailed session output of
/// `session_path`, given that output and its lowercased text `lowered`, in
/// which the status keywords are looked for; the second part is the note for
/// the manager log when the output names no clear status.
pub fn status_from_lowered(output: &str, lowered: &str, session_path: &str) -> (r: (
    ConnectionStatus,
    Option<String>,
))
    ensures
        r.0@ == lowered_status(output@, lowered@, session_path@).0,
        crate::model::str_opt_view(r.1) == lowered_status(output@, lowered@, session_path@).1,
{
    let l = lowered;
    if let Some(ip) = extract_field(output, "Virtual IP:") {
        let duration = duration_from_output(output);
        return (ConnectionStatus::Connected { ip, duration }, None);
    }
    if contains(l, "status: connected") || contains(l, "connection initiated") {
        let ip = match extract_field(output, "Virtual IP:") {
            Some(ip) => ip,
            None => String::from_str("N/A"),
        };
        let duration = duration_from_output(output);
        (ConnectionStatus::Connected { ip, duration }, None)
    } else if contains(l, "status: connecting") {
        (ConnectionStatus::Connecting, None)
    } else if contains(l, "status: authenticating") || contains(l, "auth_pending") {
        (
            ConnectionStatus::AuthenticationRequired {
                session_path: String::from_str(session_path),
                prompt: String::from_str("Authentication is pending. Please provide credentials."),
            },
            None,
        )
    } else if contains(l, "status: disconnected") || contains(l, "status: exited") {
        (ConnectionStatus::Disconnected, None)
    } else {
        let note = concat4(
            "Could not determine clear status from session output for ",
            session_path,
            ". Output: ",
            output,
        );
        (ConnectionStatus::Connecting, Some(note))
    }
}

} // verus!
