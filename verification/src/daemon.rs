//! Control of background daemons over SSH, shared by the rclone and data
//! store service tasks: each control command comes with the command that
//! finds its process, and which commands run depends on the processes
//! found.
use vstd::prelude::*;
use crate::text::{find, find_from, find_str};

verus! {

/// What a control command does.
#[derive(Debug, Clone, Copy, PartialEq, Eq, Structural)]
pub enum CtlKind {
    Start,
    Stop,
    ForceStop,
    Status,
}

/// A control command and the command that lists its process.
#[derive(Debug)]
pub struct CtlEntry {
    pub status_cmd: String,
    pub exec_cmd: Option<String>,
    pub kind: CtlKind,
}

pub struct CtlEntryView {
    pub status_cmd: Seq<char>,
    pub exec_cmd: Option<Seq<char>>,
    pub kind: CtlKind,
}

impl View for CtlEntry {
    type V = CtlEntryView;

    open spec fn view(&self) -> CtlEntryView {
        CtlEntryView {
            status_cmd: self.status_cmd@,
            exec_cmd: match self.exec_cmd {
                Some(c) => Some(c@),
                None => None,
            },
            kind: self.kind,
        }
    }
}

pub open spec fn entry_views(v: Seq<CtlEntry>) -> Seq<CtlEntryView> {
    v.map_values(|e: CtlEntry| e@)
}

/// The process-listing part of a stop command: what comes before its first
/// ` | xargs`, or the whole command.
pub open spec fn spec_status_from_stop(s: Seq<char>) -> Seq<char> {
    match find(s, " | xargs"@) {
        Some(i) => s.subrange(0, i as int),
        None => s,
    }
}

/// The command that lists the process a stop command kills.
pub fn status_from_stop(stop_cmd: &str) -> (r: String)
    ensures
        r@ == spec_status_from_stop(stop_cmd@),
{
    match find_str(stop_cmd, " | xargs") {
        Some(i) => {
            proof {
                crate::text::lemma_find_bound(stop_cmd@, " | xargs"@);
            }
            String::from_str(stop_cmd.substring_char(0, i))
        },
        None => String::from_str(stop_cmd),
    }
}

/// A task named `t` stops processes.
pub open spec fn is_stop_task(t: Seq<char>) -> bool {
    t == "stop"@ || t == "remove"@
}

/// A task named `t` starts processes (`install` only where `with_install`).
pub open spec fn is_start_task(t: Seq<char>, with_install: bool) -> bool {
    t == "start"@ || t == "launch"@ || (with_install && t == "install"@)
}

/// The command entry `e` makes a task named `t` run, given whether its
/// process was found running, and whether it is a start.
pub open spec fn entry_run(t: Seq<char>, e: CtlEntryView, running: bool, with_install: bool) -> Option<(Seq<char>, bool)> {
    match e.exec_cmd {
        Some(c) => if is_stop_task(t) && (e.kind == CtlKind::Stop || e.kind == CtlKind::ForceStop) && running {
            Some((c, false))
        } else if is_start_task(t, with_install) && e.kind == CtlKind::Start && !running {
            Some((c, true))
        } else {
            None
        },
        None => None,
    }
}

/// The commands a task named `t` runs, in the order of its entries: a stop
/// task kills the processes found running, a start task starts those not
/// found; each comes with whether it is a start.
pub open spec fn run_list(t: Seq<char>, es: Seq<CtlEntryView>, running: Seq<bool>, with_install: bool) -> Seq<(Seq<char>, bool)>
    decreases es.len(),
{
    if es.len() == 0 {
        Seq::empty()
    } else {
        let rest = run_list(t, es.drop_last(), running.subrange(0, es.len() - 1), with_install);
        match entry_run(t, es.last(), running[es.len() - 1], with_install) {
            Some(x) => rest.push(x),
            None => rest,
        }
    }
}

pub open spec fn run_views(v: Seq<(String, bool)>) -> Seq<(Seq<char>, bool)> {
    v.map_values(|p: (String, bool)| (p.0@, p.1))
}

/// Whether one of `running` holds.
pub open spec fn any_running(running: Seq<bool>) -> bool {
    exists|i: int| 0 <= i < running.len() && running[i]
}

/// The commands a control task named `task` runs, given for each entry
/// whether its process was found running.
pub fn commands_to_run(task: &str, entries: &Vec<CtlEntry>, running: &Vec<bool>, with_install: bool) -> (r: Vec<(String, bool)>)
    requires
        entries.len() == running.len(),
    ensures
        run_views(r@) == run_list(task@, entry_views(entries@), running@, with_install),
{
    let stop_task = crate::text::str_eq(task, "stop") || crate::text::str_eq(task, "remove");
    let start_task = crate::text::str_eq(task, "start") || crate::text::str_eq(task, "launch")
        || (with_install && crate::text::str_eq(task, "install"));
    let mut r: Vec<(String, bool)> = Vec::new();
    let mut i: usize = 0;
    while i < entries.len()
        invariant
            entries.len() == running.len(),
            i <= entries.len(),
            stop_task == is_stop_task(task@),
            start_task == is_start_task(task@, with_install),
            run_views(r@) == run_list(task@, entry_views(entries@).subrange(0, i as int), running@.subrange(0, i as int), with_install),
        decreases entries.len() - i,
    {
        let ghost es1 = entry_views(entries@).subrange(0, i + 1);
        assert(es1.drop_last() =~= entry_views(entries@).subrange(0, i as int));
        assert(running@.subrange(0, i + 1).subrange(0, i as int) =~= running@.subrange(0, i as int));
        assert(es1.last() == entries@[i as int]@);
        let e = &entries[i];
        match &e.exec_cmd {
            Some(c) => {
                let is_stop = match e.kind {
                    CtlKind::Stop => true,
                    CtlKind::ForceStop => true,
                    _ => false,
                };
                let is_start = match e.kind {
                    CtlKind::Start => true,
                    _ => false,
                };
                if stop_task && is_stop && running[i] {
                    let ghost old_r = r@;
                    r.push((c.clone(), false));
                    assert(run_views(r@) =~= run_views(old_r).push((c@, false)));
                } else if start_task && is_start && !running[i] {
                    let ghost old_r = r@;
                    r.push((c.clone(), true));
                    assert(run_views(r@) =~= run_views(old_r).push((c@, true)));
                }
            },
            None => {},
        }
        i = i + 1;
    }
    assert(entry_views(entries@).subrange(0, entries.len() as int) =~= entry_views(entries@));
    assert(running@.subrange(0, running.len() as int) =~= running@);
    r
}

/// Whether any entry's process was found running.
pub fn any_pid_running(running: &Vec<bool>) -> (b: bool)
    ensures
        b == any_running(running@),
{
    let mut i: usize = 0;
    while i < running.len()
        invariant
            i <= running.len(),
            forall|k: int| 0 <= k < i ==> !running@[k],
        decreases running.len() - i,
    {
        if running[i] {
            return true;
        }
        i = i + 1;
    }
    false
}


/// Mathematical value of a control command: what it does and its text.
pub enum CtlCmdView {
    Start(Seq<char>),
    Stop(Seq<char>),
    ForceStop(Seq<char>),
    Status(Seq<char>),
}

/// The text of a control command.
pub open spec fn ctl_text(c: CtlCmdView) -> Seq<char> {
    match c {
        CtlCmdView::Start(s) => s,
        CtlCmdView::Stop(s) => s,
        CtlCmdView::ForceStop(s) => s,
        CtlCmdView::Status(s) => s,
    }
}

/// `cmds`, each paired with host `h`.
pub open spec fn with_host(h: Seq<char>, cmds: Seq<CtlCmdView>) -> Seq<(Seq<char>, CtlCmdView)> {
    cmds.map_values(|c: CtlCmdView| (h, c))
}


/// A control command.
#[derive(Debug)]
pub enum CtlCmd {
    Start(String),
    Stop(String),
    ForceStop(String),
    Status(String),
}

impl View for CtlCmd {
    type V = CtlCmdView;

    open spec fn view(&self) -> CtlCmdView {
        match self {
            CtlCmd::Start(s) => CtlCmdView::Start(s@),
            CtlCmd::Stop(s) => CtlCmdView::Stop(s@),
            CtlCmd::ForceStop(s) => CtlCmdView::ForceStop(s@),
            CtlCmd::Status(s) => CtlCmdView::Status(s@),
        }
    }
}

pub open spec fn ctl_views(v: Seq<CtlCmd>) -> Seq<CtlCmdView> {
    v.map_values(|c: CtlCmd| c@)
}

/// The command that lists the rclone daemon listening on port `port`
/// (given as text) run by `user`.
pub open spec fn rclone_ps(user: Seq<char>, port: Seq<char>) -> Seq<char> {
    "ps uxwe -u "@ + user + " | grep 'rclone rcd' | grep -e '--rc-addr=127.0.0.1:"@ + port
        + "' | grep -v grep | awk '{print $2}'"@
}

pub fn rclone_ps_cmd(user: &str, port: &str) -> (r: String)
    ensures
        r@ == rclone_ps(user@, port@),
{
    let mut c = String::from_str("ps uxwe -u ");
    c.append(user);
    c.append(" | grep 'rclone rcd' | grep -e '--rc-addr=127.0.0.1:");
    c.append(port);
    c.append("' | grep -v grep | awk '{print $2}'");
    c
}

/// The command that lists the data store server of `tx_home` started with
/// configuration file `ini` by `user`.
pub open spec fn dss_ps(user: Seq<char>, tx_home: Seq<char>, ini: Seq<char>) -> Seq<char> {
    "ps uxwe -u "@ + user + " | grep '"@ + tx_home + "/bin/dss_server' | grep ' --config="@ + ini
        + "' | grep -v grep | awk '{print $2}'"@
}

pub fn dss_ps_cmd(user: &str, tx_home: &str, ini: &str) -> (r: String)
    ensures
        r@ == dss_ps(user@, tx_home@, ini@),
{
    let mut c = String::from_str("ps uxwe -u ");
    c.append(user);
    c.append(" | grep '");
    c.append(tx_home);
    c.append("/bin/dss_server' | grep ' --config=");
    c.append(ini);
    c.append("' | grep -v grep | awk '{print $2}'");
    c
}

/// Which daemon a start command starts, with what its process listing
/// needs.
#[derive(Debug)]
pub enum StartProbe {
    Rclone { user: String },
    Dss { user: String, tx_home: String },
}

/// The process listing for a start command: found from the port after
/// `--rc-addr=127.0.0.1:` (rclone) or the file after `--config=` (data store
/// server), up to whitespace or `-`/`>` (rclone) or `>`/`&` (data store
/// server); `None` when the start command has no such option.
pub open spec fn spec_status_from_start(p: StartProbe, s: Seq<char>) -> Option<Seq<char>> {
    let marker = match p {
        StartProbe::Rclone { .. } => "--rc-addr=127.0.0.1:"@,
        StartProbe::Dss { .. } => "--config="@,
    };
    let stops = match p {
        StartProbe::Rclone { .. } => seq!['-', '>'],
        StartProbe::Dss { .. } => seq!['>', '&'],
    };
    match find(s, marker) {
        None => None,
        Some(pos) => {
            let st = pos + marker.len();
            let v = s.subrange(st as int, crate::text::stop_index(s, st, stops) as int);
            match p {
                StartProbe::Rclone { user } => Some(rclone_ps(user@, v)),
                StartProbe::Dss { user, tx_home } => Some(dss_ps(user@, tx_home@, v)),
            }
        },
    }
}

pub open spec fn opt_text(o: Option<String>) -> Option<Seq<char>> {
    match o {
        Some(s) => Some(s@),
        None => None,
    }
}

/// The process listing a start command implies.
pub fn status_from_start(probe: &StartProbe, start_cmd: &str) -> (r: Option<String>)
    ensures
        opt_text(r) == spec_status_from_start(*probe, start_cmd@),
{
    let marker = match probe {
        StartProbe::Rclone { .. } => "--rc-addr=127.0.0.1:",
        StartProbe::Dss { .. } => "--config=",
    };
    let mut stops: Vec<char> = Vec::new();
    match probe {
        StartProbe::Rclone { .. } => {
            stops.push('-');
            stops.push('>');
        },
        StartProbe::Dss { .. } => {
            stops.push('>');
            stops.push('&');
        },
    }
    assert(stops@ =~= match *probe {
        StartProbe::Rclone { .. } => seq!['-', '>'],
        StartProbe::Dss { .. } => seq!['>', '&'],
    });
    match find_str(start_cmd, marker) {
        None => None,
        Some(pos) => {
            proof {
                crate::text::lemma_find_bound(start_cmd@, marker@);
            }
            let cs = crate::text::to_chars(start_cmd);
            let n = start_cmd.unicode_len();
            let ml = marker.unicode_len();
            assert(pos + ml <= n);
            let st = pos + ml;
            let end = crate::text::stop_index_of(&cs, st, &stops);
            let v = start_cmd.substring_char(st, end);
            match probe {
                StartProbe::Rclone { user } => Some(rclone_ps_cmd(user.as_str(), v)),
                StartProbe::Dss { user, tx_home } => Some(dss_ps_cmd(user.as_str(), tx_home.as_str(), v)),
            }
        },
    }
}

/// The entry of a control command: a status check lists its process; a
/// stop lists what it kills; a start lists what it starts, and is dropped
/// when that cannot be told.
pub open spec fn entry_of(p: StartProbe, c: CtlCmdView) -> Option<CtlEntryView> {
    match c {
        CtlCmdView::Status(s) => Some(CtlEntryView { status_cmd: s, exec_cmd: None, kind: CtlKind::Status }),
        CtlCmdView::Stop(s) => Some(CtlEntryView { status_cmd: spec_status_from_stop(s), exec_cmd: Some(s), kind: CtlKind::Stop }),
        CtlCmdView::ForceStop(s) => Some(CtlEntryView { status_cmd: spec_status_from_stop(s), exec_cmd: Some(s), kind: CtlKind::ForceStop }),
        CtlCmdView::Start(s) => match spec_status_from_start(p, s) {
            Some(ps) => Some(CtlEntryView { status_cmd: ps, exec_cmd: Some(s), kind: CtlKind::Start }),
            None => None,
        },
    }
}

/// The entries of commands `cs`, in order.
pub open spec fn entries_of(p: StartProbe, cs: Seq<CtlCmdView>) -> Seq<CtlEntryView>
    decreases cs.len(),
{
    if cs.len() == 0 {
        Seq::empty()
    } else {
        match entry_of(p, cs.last()) {
            Some(e) => entries_of(p, cs.drop_last()).push(e),
            None => entries_of(p, cs.drop_last()),
        }
    }
}

/// The control entries of the commands `cmds` of one host.
pub fn ctl_entries(probe: &StartProbe, cmds: &Vec<CtlCmd>) -> (r: Vec<CtlEntry>)
    ensures
        entry_views(r@) == entries_of(*probe, ctl_views(cmds@)),
{
    let mut r: Vec<CtlEntry> = Vec::new();
    let mut i: usize = 0;
    while i < cmds.len()
        invariant
            i <= cmds.len(),
            entry_views(r@) == entries_of(*probe, ctl_views(cmds@).subrange(0, i as int)),
        decreases cmds.len() - i,
    {
        let ghost pre1 = ctl_views(cmds@).subrange(0, i + 1);
        assert(pre1.drop_last() =~= ctl_views(cmds@).subrange(0, i as int));
        assert(pre1.last() == cmds@[i as int]@);
        let ghost old_r = r@;
        match &cmds[i] {
            CtlCmd::Status(s) => {
                r.push(CtlEntry { status_cmd: s.clone(), exec_cmd: None, kind: CtlKind::Status });
            },
            CtlCmd::Stop(s) => {
                r.push(CtlEntry { status_cmd: status_from_stop(s.as_str()), exec_cmd: Some(s.clone()), kind: CtlKind::Stop });
            },
            CtlCmd::ForceStop(s) => {
                r.push(CtlEntry { status_cmd: status_from_stop(s.as_str()), exec_cmd: Some(s.clone()), kind: CtlKind::ForceStop });
            },
            CtlCmd::Start(s) => {
                match status_from_start(probe, s.as_str()) {
                    Some(ps) => {
                        r.push(CtlEntry { status_cmd: ps, exec_cmd: Some(s.clone()), kind: CtlKind::Start });
                    },
                    None => {},
                }
            },
        }
        assert(r@.len() > old_r.len() ==> entry_views(r@) =~= entry_views(old_r).push(r@.last()@));
        assert(r@.len() == old_r.len() ==> r@ == old_r);
        i = i + 1;
    }
    assert(ctl_views(cmds@).subrange(0, cmds.len() as int) =~= ctl_views(cmds@));
    r
}

/// The process listing of a command, as the readiness wait after a start
/// uses it.
pub open spec fn status_of(p: StartProbe, c: CtlCmdView) -> Option<Seq<char>> {
    match c {
        CtlCmdView::Status(s) => Some(s),
        CtlCmdView::Stop(s) => Some(spec_status_from_stop(s)),
        CtlCmdView::ForceStop(s) => Some(spec_status_from_stop(s)),
        CtlCmdView::Start(s) => spec_status_from_start(p, s),
    }
}

/// The first process listing the commands `cs` give.
pub open spec fn first_status(p: StartProbe, cs: Seq<CtlCmdView>) -> Option<Seq<char>>
    decreases cs.len(),
{
    if cs.len() == 0 {
        None
    } else {
        match status_of(p, cs[0]) {
            Some(s) => Some(s),
            None => first_status(p, cs.drop_first()),
        }
    }
}

/// The command that tells, after a start, whether the daemon came up.
pub fn readiness_check(probe: &StartProbe, cmds: &Vec<CtlCmd>) -> (r: Option<String>)
    ensures
        opt_text(r) == first_status(*probe, ctl_views(cmds@)),
{
    let mut i: usize = 0;
    assert(ctl_views(cmds@).skip(0) =~= ctl_views(cmds@));
    while i < cmds.len()
        invariant
            i <= cmds.len(),
            first_status(*probe, ctl_views(cmds@)) == first_status(*probe, ctl_views(cmds@).skip(i as int)),
        decreases cmds.len() - i,
    {
        let ghost rest = ctl_views(cmds@).skip(i as int);
        assert(rest[0] == cmds@[i as int]@);
        assert(rest.drop_first() =~= ctl_views(cmds@).skip(i + 1));
        let s = match &cmds[i] {
            CtlCmd::Status(s) => Some(s.clone()),
            CtlCmd::Stop(s) => Some(status_from_stop(s.as_str())),
            CtlCmd::ForceStop(s) => Some(status_from_stop(s.as_str())),
            CtlCmd::Start(s) => status_from_start(probe, s.as_str()),
        };
        if s.is_some() {
            return s;
        }
        i = i + 1;
    }
    None
}


/// The commands of `pairs` addressed to `host`, in order.
pub open spec fn cmds_for(host: Seq<char>, pairs: Seq<(Seq<char>, CtlCmdView)>) -> Seq<CtlCmdView>
    decreases pairs.len(),
{
    if pairs.len() == 0 {
        Seq::empty()
    } else if pairs.last().0 == host {
        cmds_for(host, pairs.drop_last()).push(pairs.last().1)
    } else {
        cmds_for(host, pairs.drop_last())
    }
}

/// What an rclone status task reports: running with the pid of its first
/// entry when any daemon runs and that entry's does, else down.
pub open spec fn rclone_status_text(any: bool, first_pid: Option<Seq<char>>) -> Seq<char> {
    if any {
        match first_pid {
            Some(p) => "\nrclone is running, pid: "@ + p + "."@,
            None => "\nrclone is down."@,
        }
    } else {
        "\nrclone is down."@
    }
}

pub fn rclone_status_output(any: bool, first_pid: &Option<String>) -> (r: String)
    ensures
        r@ == rclone_status_text(any, opt_text(*first_pid)),
{
    if any {
        match first_pid {
            Some(p) => {
                let mut s = String::from_str("\nrclone is running, pid: ");
                s.append(p.as_str());
                s.append(".");
                s
            },
            None => String::from_str("\nrclone is down."),
        }
    } else {
        String::from_str("\nrclone is down.")
    }
}

/// What a data store server status task reports.
pub open spec fn dss_status_text(any: bool) -> Seq<char> {
    if any {
        "\ndss_server is running."@
    } else {
        "\ndss_server is down."@
    }
}

pub fn dss_status_output(any: bool) -> (r: String)
    ensures
        r@ == dss_status_text(any),
{
    if any {
        String::from_str("\ndss_server is running.")
    } else {
        String::from_str("\ndss_server is down.")
    }
}


proof fn lemma_find_after_prefix(ps: Seq<char>, t: Seq<char>, i: nat)
    requires
        i <= ps.len(),
        !crate::text::contains_seq(ps, " | xargs"@),
        t.len() >= 9,
        t.subrange(0, 9) == " | xargs "@,
    ensures
        find_from(ps + t, " | xargs"@, i) == Some(ps.len()),
    decreases ps.len() - i,
{
    reveal_strlit(" | xargs");
    reveal_strlit(" | xargs ");
    let p = " | xargs"@;
    let s = ps + t;
    assert(p.len() == 8);
    if i == ps.len() {
        assert(s.subrange(i as int, i as int + 8) =~= t.subrange(0, 8));
        assert(t.subrange(0, 8) =~= t.subrange(0, 9).subrange(0, 8));
        assert(s.subrange(i as int, i as int + 8) =~= p);
    } else {
        if i + 8 <= ps.len() {
            assert(s.subrange(i as int, i as int + 8) =~= ps.subrange(i as int, i as int + 8));
            if ps.subrange(i as int, i as int + 8) == p {
                assert(crate::text::contains_seq(ps, p));
            }
        } else {
            let k = ps.len() - i;
            assert(1 <= k <= 7);
            assert(t[0] == ' ' && t[1] == '|' && t[2] == ' ' && t[3] == 'x' && t[4] == 'a' && t[5] == 'r' && t[6] == 'g') by {
                assert(t.subrange(0, 9)[0] == t[0]);
                assert(t.subrange(0, 9)[1] == t[1]);
                assert(t.subrange(0, 9)[2] == t[2]);
                assert(t.subrange(0, 9)[3] == t[3]);
                assert(t.subrange(0, 9)[4] == t[4]);
                assert(t.subrange(0, 9)[5] == t[5]);
                assert(t.subrange(0, 9)[6] == t[6]);
            }
            let w = s.subrange(i as int, i as int + 8);
            if w == p {
                assert(w[k] == s[ps.len() as int]);
                assert(s[ps.len() as int] == t[0]);
                if k == 1 {
                    assert(w[1] == p[1]);
                } else if k == 2 {
                    assert(w[3] == s[ps.len() as int + 1]);
                    assert(w[3] == p[3]);
                } else if k == 3 {
                    assert(w[4] == s[ps.len() as int + 1]);
                    assert(w[4] == p[4]);
                } else if k == 4 {
                    assert(w[5] == s[ps.len() as int + 1]);
                    assert(w[5] == p[5]);
                } else if k == 5 {
                    assert(w[6] == s[ps.len() as int + 1]);
                    assert(w[6] == p[6]);
                } else if k == 6 {
                    assert(w[7] == s[ps.len() as int + 1]);
                    assert(w[7] == p[7]);
                } else {
                    assert(w[7] == s[ps.len() as int]);
                    assert(w[7] == p[7]);
                }
            }
        }
        lemma_find_after_prefix(ps, t, i + 1);
    }
}

/// The process listing a control task recovers from a stop command is the
/// listing the stop command was built from: for a listing `ps` without
/// ` | xargs`, the stop command `ps` followed by ` | xargs ...` gives back
/// `ps`.
pub proof fn law_stop_listing_roundtrip(ps: Seq<char>, kill: Seq<char>)
    requires
        !crate::text::contains_seq(ps, " | xargs"@),
    ensures
        spec_status_from_stop(ps + " | xargs "@ + kill) == ps,
{
    reveal_strlit(" | xargs ");
    let t = " | xargs "@ + kill;
    assert(t.subrange(0, 9) =~= " | xargs "@);
    lemma_find_after_prefix(ps, t, 0);
    assert(ps + " | xargs "@ + kill =~= ps + t);
    assert((ps + t).subrange(0, ps.len() as int) =~= ps);
}


/// The commands that start the processes of `es` not found running: for
/// each entry of kind Start with a command whose process is not running,
/// its command marked as a start, in entry order.
pub open spec fn stopped_starts(es: Seq<CtlEntryView>, running: Seq<bool>) -> Seq<(Seq<char>, bool)>
    decreases es.len(),
{
    if es.len() == 0 {
        Seq::empty()
    } else {
        let rest = stopped_starts(es.drop_last(), running.subrange(0, es.len() - 1));
        let e = es.last();
        if e.kind == CtlKind::Start && e.exec_cmd is Some && !running[es.len() - 1] {
            rest.push((e.exec_cmd->Some_0, true))
        } else {
            rest
        }
    }
}

/// A `launch` task runs what a `start` task runs: every entry of kind Start
/// whose process was not found running contributes its command, marked as a
/// start, in entry order, and nothing else is run.
pub proof fn law_start_and_launch_start_stopped_processes(t: Seq<char>, es: Seq<CtlEntryView>, running: Seq<bool>, with_install: bool)
    requires
        t == "start"@ || t == "launch"@,
        es.len() == running.len(),
    ensures
        run_list(t, es, running, with_install) == stopped_starts(es, running),
        run_list("launch"@, es, running, with_install) == run_list("start"@, es, running, with_install),
    decreases es.len(),
{
    reveal_strlit("start");
    reveal_strlit("launch");
    reveal_strlit("stop");
    reveal_strlit("remove");
    assert("launch"@ != "stop"@) by { assert("launch"@.len() != "stop"@.len()); }
    assert("launch"@ != "remove"@) by { assert("launch"@[0] != "remove"@[0]); }
    assert("start"@ != "stop"@) by { assert("start"@.len() != "stop"@.len()); }
    assert("start"@ != "remove"@) by { assert("start"@.len() != "remove"@.len()); }
    assert(!is_stop_task(t));
    assert(!is_stop_task("launch"@));
    assert(!is_stop_task("start"@));
    assert(is_start_task(t, with_install));
    if es.len() > 0 {
        let p = es.drop_last();
        let rp = running.subrange(0, es.len() - 1);
        law_start_and_launch_start_stopped_processes(t, p, rp, with_install);
        law_start_and_launch_start_stopped_processes("launch"@, p, rp, with_install);
        law_start_and_launch_start_stopped_processes("start"@, p, rp, with_install);
    }
}

} // verus!
