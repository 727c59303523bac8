//! MonographDB servers and the log service probe: the commands that start,
//! stop and find a server, the tasks that carry them, and what the probe
//! reports.
use vstd::prelude::*;
use crate::text::{dedup, views, join, join_str, decimal, u64_to_string, trim, trim_str, lines, lines_str, to_chars, all_digits, digits_value};
use crate::task::{TaskId, TaskIdView};

verus! {

/// A control command for one MonographDB server.
#[derive(Debug)]
pub enum MonographCtlCmd {
    Start(String),
    Stop(String),
    ForceStop(String),
    Status(String),
}

pub enum MonoCmdView {
    Start(Seq<char>),
    Stop(Seq<char>),
    ForceStop(Seq<char>),
    Status(Seq<char>),
}

impl View for MonographCtlCmd {
    type V = MonoCmdView;

    open spec fn view(&self) -> MonoCmdView {
        match self {
            MonographCtlCmd::Start(s) => MonoCmdView::Start(s@),
            MonographCtlCmd::Stop(s) => MonoCmdView::Stop(s@),
            MonographCtlCmd::ForceStop(s) => MonoCmdView::ForceStop(s@),
            MonographCtlCmd::Status(s) => MonoCmdView::Status(s@),
        }
    }
}

/// The process listing of the server installed under `home`, ending with the
/// pipe into the pid column.
pub open spec fn mono_ps(home: Seq<char>) -> Seq<char> {
    "ps uxwe | grep "@ + home + "/monographdb-release/install/bin/mysqld | grep -v grep |  awk '{print $2}'"@
}

/// The command that starts the server of `host` installed under `home`.
pub open spec fn mono_start(home: Seq<char>, host: Seq<char>) -> Seq<char> {
    "mkdir -p "@ + home + "/monographdb-release/logs && cd "@ + home + "/monographdb-release/install &&  export LD_LIBRARY_PATH="@
        + home + "/monographdb-release/install/lib:$LD_LIBRARY_PATH; "@ + home
        + "/monographdb-release/install/bin/mysqld --defaults-file="@ + home + "/my_"@ + host + ".cnf > "@ + home
        + "/monographdb-release/logs/mysqld_start.log 2>&1 &"@
}

/// The command of subcommand `cmd` for the server of `host`: start it,
/// check it, or stop it (`kill -9` when `force` is `true`).
pub open spec fn spec_mono_cmd(cmd: Seq<char>, force: Option<Seq<char>>, home: Seq<char>, host: Seq<char>) -> MonoCmdView {
    if cmd == "start"@ {
        MonoCmdView::Start(mono_start(home, host))
    } else if cmd == "status"@ {
        MonoCmdView::Status(mono_ps(home) + " "@)
    } else if force == Some("true"@) {
        MonoCmdView::ForceStop(mono_ps(home) + " | xargs kill -9"@)
    } else {
        MonoCmdView::Stop(mono_ps(home) + " | xargs kill"@)
    }
}

/// The command that lists the server's process under `home`.
pub fn monograph_status_cmd(home: &str) -> (r: String)
    ensures
        r@ == mono_ps(home@) + " "@,
{
    let mut c = String::from_str("ps uxwe | grep ");
    c.append(home);
    c.append("/monographdb-release/install/bin/mysqld | grep -v grep |  awk '{print $2}'");
    c.append(" ");
    c
}

impl MonographCtlCmd {
    /// The text of the command.
    pub fn cmd_value(&self) -> (r: String)
        ensures
            r@ == match self@ {
                MonoCmdView::Start(s) => s,
                MonoCmdView::Stop(s) => s,
                MonoCmdView::ForceStop(s) => s,
                MonoCmdView::Status(s) => s,
            },
    {
        match self {
            MonographCtlCmd::Start(c) => c.clone(),
            MonographCtlCmd::Stop(c) => c.clone(),
            MonographCtlCmd::ForceStop(c) => c.clone(),
            MonographCtlCmd::Status(c) => c.clone(),
        }
    }

    /// The command of subcommand `cmd` (start, status or stop) for the
    /// server of `host` installed under `home`.
    pub fn for_host(cmd: &str, force: &Option<String>, home: &str, host: &str) -> (r: MonographCtlCmd)
        requires
            cmd@ == "start"@ || cmd@ == "status"@ || cmd@ == "stop"@,
        ensures
            r@ == spec_mono_cmd(cmd@, match force {
                Some(f) => Some(f@),
                None => None,
            }, home@, host@),
    {
        if crate::text::str_eq(cmd, "start") {
            let mut c = String::from_str("mkdir -p ");
            c.append(home);
            c.append("/monographdb-release/logs && cd ");
            c.append(home);
            c.append("/monographdb-release/install &&  export LD_LIBRARY_PATH=");
            c.append(home);
            c.append("/monographdb-release/install/lib:$LD_LIBRARY_PATH; ");
            c.append(home);
            c.append("/monographdb-release/install/bin/mysqld --defaults-file=");
            c.append(home);
            c.append("/my_");
            c.append(host);
            c.append(".cnf > ");
            c.append(home);
            c.append("/monographdb-release/logs/mysqld_start.log 2>&1 &");
            return MonographCtlCmd::Start(c);
        }
        if crate::text::str_eq(cmd, "status") {
            return MonographCtlCmd::Status(monograph_status_cmd(home));
        }
        let forced = match force {
            Some(f) => crate::text::str_eq(f.as_str(), "true"),
            None => false,
        };
        let mut c = String::from_str("ps uxwe | grep ");
        c.append(home);
        c.append("/monographdb-release/install/bin/mysqld | grep -v grep |  awk '{print $2}'");
        if forced {
            c.append(" | xargs kill -9");
            MonographCtlCmd::ForceStop(c)
        } else {
            c.append(" | xargs kill");
            MonographCtlCmd::Stop(c)
        }
    }
}

/// One MonographDB server control task.
#[derive(Debug)]
pub struct MonographCtlTask {
    pub task_id: TaskId,
    pub ctl_cmd: MonographCtlCmd,
    /// Where MonographDB is installed on the host.
    pub install_dir: String,
}

impl MonographCtlTask {
    pub fn new(task_id: TaskId, ctl_cmd: MonographCtlCmd, install_dir: String) -> (r: MonographCtlTask)
        ensures
            r.task_id@ == task_id@,
            r.ctl_cmd@ == ctl_cmd@,
            r.install_dir@ == install_dir@,
    {
        MonographCtlTask { task_id, ctl_cmd, install_dir }
    }

    /// The command whose output tells the server's pid.
    pub fn monograph_pid(&self) -> (r: String)
        ensures
            r@ == mono_ps(self.install_dir@) + " "@,
    {
        monograph_status_cmd(self.install_dir.as_str())
    }
}

/// Installs MonographDB on one host.
#[derive(Debug)]
pub struct MonographInstall {
    pub task_id: TaskId,
}

impl MonographInstall {
    pub fn new(task_id: TaskId) -> (r: MonographInstall)
        ensures
            r.task_id@ == task_id@,
    {
        MonographInstall { task_id }
    }

    /// The id of the install task for `host`.
    pub fn task_id_for(host: &str) -> (r: TaskId)
        ensures
            r@ == (TaskIdView { cmd: "install"@, task: "monograph-install"@, host: host@ }),
    {
        TaskId::new("install", "monograph-install", host)
    }
}

/// The result of a command as a task reports it.
#[derive(Debug)]
pub struct CommandResult {
    pub cmd: String,
    pub status: i32,
    pub output: String,
}

/// Waits until every log group has a leader.
#[derive(Debug)]
pub struct MonographLogProbeTask {
    pub task_id: TaskId,
    /// The health check URLs of each log group's members, by group.
    pub check_health_url: Vec<(u64, Vec<String>)>,
}

/// `group_id=<g>,check_health_url=<url;url;...>` for every group, separated
/// by tabs.
pub open spec fn health_text(groups: Seq<(u64, Vec<String>)>) -> Seq<char> {
    join(groups.map_values(|g: (u64, Vec<String>)| "group_id="@ + decimal(g.0 as nat) + ",check_health_url="@ + join(views(g.1@), ";"@)), "\t"@)
}

impl MonographLogProbeTask {
    pub fn new(task_id: TaskId, check_health_url: Vec<(u64, Vec<String>)>) -> (r: MonographLogProbeTask)
        ensures
            r.task_id@ == task_id@,
            r.check_health_url@ == check_health_url@,
    {
        MonographLogProbeTask { task_id, check_health_url }
    }

    /// The health check URLs of every group, as the probe reports them.
    pub fn check_health_string(&self) -> (r: String)
        ensures
            r@ == health_text(self.check_health_url@),
    {
        let gs = &self.check_health_url;
        let mut parts: Vec<String> = Vec::new();
        let mut i: usize = 0;
        while i < gs.len()
            invariant
                i <= gs.len(),
                views(parts@) == gs@.subrange(0, i as int).map_values(|g: (u64, Vec<String>)| "group_id="@ + decimal(g.0 as nat) + ",check_health_url="@ + join(views(g.1@), ";"@)),
            decreases gs.len() - i,
        {
            let mut p = String::from_str("group_id=");
            let n = u64_to_string(gs[i].0);
            p.append(n.as_str());
            p.append(",check_health_url=");
            let urls = join_str(&gs[i].1, ";");
            p.append(urls.as_str());
            let ghost old_p = parts@;
            parts.push(p);
            assert(views(parts@) =~= views(old_p).push(p@));
            assert(gs@.subrange(0, i + 1) =~= gs@.subrange(0, i as int).push(gs@[i as int]));
            assert(views(parts@) =~= gs@.subrange(0, i + 1).map_values(|g: (u64, Vec<String>)| "group_id="@ + decimal(g.0 as nat) + ",check_health_url="@ + join(views(g.1@), ";"@)));
            i = i + 1;
        }
        assert(gs@.subrange(0, gs.len() as int) =~= gs@);
        join_str(&parts, "\t")
    }

    /// What the probe reports: the URLs it checked, the status and the output.
    pub fn build_command_result(&self, status: i32, output: String) -> (r: CommandResult)
        ensures
            r.cmd@ == health_text(self.check_health_url@),
            r.status == status,
            r.output@ == output@,
    {
        CommandResult { cmd: self.check_health_string(), status, output }
    }
}


/// What one member of a log group answered in a probe round.
#[derive(Debug)]
pub enum ProbeAnswer {
    /// It answered with success, giving the role of its first group.
    Role { addr: String, state: String },
    /// It answered without success.
    NotOk { addr: String },
    /// The request failed.
    Failed,
}

/// Whether a role makes its member a leader: `LEADER` in any case.
pub open spec fn is_leader_state(state: Seq<char>) -> bool {
    crate::text::str_uppercase(state) == "LEADER"@
}

/// How many leaders an answer counts for.
pub open spec fn answer_leaders(a: ProbeAnswer) -> nat {
    match a {
        ProbeAnswer::Role { state, .. } => if is_leader_state(state@) { 1 } else { 0 },
        _ => 0,
    }
}

/// The leaders counted in a round's answers.
pub open spec fn round_leaders(answers: Seq<(u64, ProbeAnswer)>) -> nat
    decreases answers.len(),
{
    if answers.len() == 0 {
        0
    } else {
        round_leaders(answers.drop_last()) + answer_leaders(answers.last().1)
    }
}

/// How a member's answer is reported: its group, the leaders it counts for
/// and its address.
pub open spec fn member_text(g: u64, a: ProbeAnswer) -> Seq<char> {
    let addr = match a {
        ProbeAnswer::Role { addr, .. } => addr@,
        ProbeAnswer::NotOk { addr } => addr@,
        ProbeAnswer::Failed => ""@,
    };
    "(group:"@ + decimal(g as nat) + ", leaders:"@ + decimal(answer_leaders(a)) + ", addr:"@ + addr + ")"@
}

/// What follows a probe round.
#[derive(Debug)]
pub enum ProbeStep {
    /// Probe again, with this many rounds counted as ready so far.
    Continue { successes: usize },
    /// Every group has had its leader long enough: report the members.
    Done { output: String },
}

pub enum ProbeStepView {
    Continue { successes: nat },
    Done { output: Seq<char> },
}

pub open spec fn probe_step_view(s: ProbeStep) -> ProbeStepView {
    match s {
        ProbeStep::Continue { successes } => ProbeStepView::Continue { successes: successes as nat },
        ProbeStep::Done { output } => ProbeStepView::Done { output: output@ },
    }
}

/// The step after a round with `answers` (each with its group) when
/// `groups` groups must have a leader, `successes` rounds were ready so far
/// and `threshold` more are wanted (3 when not set): when every group has a
/// leader the round counts, and once enough counted the members are
/// reported, each text once, one per line; otherwise probe again.
pub open spec fn spec_probe_step(successes: nat, threshold: Option<usize>, groups: nat, answers: Seq<(u64, ProbeAnswer)>) -> ProbeStepView {
    let t = match threshold { Some(t) => t as nat, None => 3 };
    if round_leaders(answers) == groups {
        if successes < t {
            ProbeStepView::Continue { successes: successes + 1 }
        } else {
            ProbeStepView::Done {
                output: join(dedup(answers.map_values(|p: (u64, ProbeAnswer)| member_text(p.0, p.1))), "\n"@),
            }
        }
    } else {
        ProbeStepView::Continue { successes }
    }
}

/// Whether the round would be reported although one of its requests
/// failed, which the probe cannot report.
pub open spec fn reports_failed_request(successes: nat, threshold: Option<usize>, groups: nat, answers: Seq<(u64, ProbeAnswer)>) -> bool {
    let t = match threshold { Some(t) => t as nat, None => 3 };
    round_leaders(answers) == groups && successes >= t && exists|i: int| 0 <= i < answers.len() && #[trigger] answers[i].1 is Failed
}

fn member_text_exec(g: u64, a: &ProbeAnswer) -> (r: (String, usize))
    ensures
        r.0@ == member_text(g, *a),
        r.1 == answer_leaders(*a),
{
    let (addr, leaders): (&str, usize) = match a {
        ProbeAnswer::Role { addr, state } => {
            let up = crate::text::uppercase(state.as_str());
            (addr.as_str(), if crate::text::str_eq(up.as_str(), "LEADER") { 1 } else { 0 })
        },
        ProbeAnswer::NotOk { addr } => (addr.as_str(), 0),
        ProbeAnswer::Failed => ("", 0),
    };
    let mut t = String::from_str("(group:");
    let gs = u64_to_string(g);
    t.append(gs.as_str());
    t.append(", leaders:");
    let ls = u64_to_string(leaders as u64);
    t.append(ls.as_str());
    t.append(", addr:");
    t.append(addr);
    t.append(")");
    (t, leaders)
}

impl MonographLogProbeTask {
    /// The step after one round of health checks of the probed groups.
    pub fn probe_step(&self, successes: usize, threshold: Option<usize>, answers: &Vec<(u64, ProbeAnswer)>) -> (r: ProbeStep)
        requires
            !reports_failed_request(successes as nat, threshold, self.check_health_url@.len(), answers@),
        ensures
            probe_step_view(r) == spec_probe_step(successes as nat, threshold, self.check_health_url@.len(), answers@),
    {
        let t: usize = match threshold {
            Some(t) => t,
            None => 3,
        };
        let groups = self.check_health_url.len();
        let mut leaders: usize = 0;
        let mut texts: Vec<String> = Vec::new();
        let mut i: usize = 0;
        while i < answers.len()
            invariant
                i <= answers.len(),
                leaders == round_leaders(answers@.subrange(0, i as int)),
                leaders <= i,
                views(texts@) == answers@.subrange(0, i as int).map_values(|p: (u64, ProbeAnswer)| member_text(p.0, p.1)),
            decreases answers.len() - i,
        {
            let ghost pre1 = answers@.subrange(0, i + 1);
            assert(pre1.drop_last() =~= answers@.subrange(0, i as int));
            assert(pre1.last() == answers@[i as int]);
            let (text, n) = member_text_exec(answers[i].0, &answers[i].1);
            leaders = leaders + n;
            let ghost tv = text@;
            let ghost before = views(texts@);
            texts.push(text);
            assert(views(texts@) =~= before.push(tv));
            assert(views(texts@) =~= answers@.subrange(0, i + 1).map_values(|p: (u64, ProbeAnswer)| member_text(p.0, p.1)));
            i = i + 1;
        }
        assert(answers@.subrange(0, answers.len() as int) =~= answers@);
        if leaders == groups {
            if successes < t {
                ProbeStep::Continue { successes: successes + 1 }
            } else {
                let unique = crate::text::dedup_strings(&texts);
                ProbeStep::Done { output: join_str(&unique, "\n") }
            }
        } else {
            ProbeStep::Continue { successes }
        }
    }
}

fn round_summary(answers: &Vec<(u64, ProbeAnswer)>) -> (r: (usize, bool))
    ensures
        r.0 == round_leaders(answers@),
        r.1 == exists|i: int| 0 <= i < answers@.len() && #[trigger] answers@[i].1 is Failed,
{
    let mut leaders: usize = 0;
    let mut failed = false;
    let mut i: usize = 0;
    while i < answers.len()
        invariant
            i <= answers.len(),
            leaders == round_leaders(answers@.subrange(0, i as int)),
            leaders <= i,
            failed == exists|k: int| 0 <= k < i && #[trigger] answers@[k].1 is Failed,
        decreases answers.len() - i,
    {
        let ghost pre1 = answers@.subrange(0, i + 1);
        assert(pre1.drop_last() =~= answers@.subrange(0, i as int));
        assert(pre1.last() == answers@[i as int]);
        let (_, n) = member_text_exec(answers[i].0, &answers[i].1);
        leaders = leaders + n;
        match &answers[i].1 {
            ProbeAnswer::Failed => {
                failed = true;
            },
            _ => {},
        }
        i = i + 1;
    }
    assert(answers@.subrange(0, answers.len() as int) =~= answers@);
    (leaders, failed)
}

impl MonographLogProbeTask {
    /// Decides what follows a probe round; `None` when the round would be
    /// reported although one of its requests failed.
    pub fn try_probe_step(&self, successes: usize, threshold: Option<usize>, answers: &Vec<(u64, ProbeAnswer)>) -> (r: Option<ProbeStep>)
        ensures
            r is None <==> reports_failed_request(successes as nat, threshold, self.check_health_url@.len(), answers@),
            r matches Some(st) ==> probe_step_view(st) == spec_probe_step(successes as nat, threshold, self.check_health_url@.len(), answers@),
    {
        let t: usize = match threshold {
            Some(t) => t,
            None => 3,
        };
        let (leaders, failed) = round_summary(answers);
        if leaders == self.check_health_url.len() && successes >= t && failed {
            None
        } else {
            Some(self.probe_step(successes, threshold, answers))
        }
    }
}

// ── the pid in a process listing ────────────────────────────────────────

/// Whether `char::is_numeric` holds of `c`.
pub uninterp spec fn char_numeric(c: char) -> bool;

/// `char::is_numeric`: whether `c` is in a Unicode number category (`Nd`,
/// `Nl`, `No`). Besides naming the result, the contract states that the
/// ASCII digits are numeric and no other ASCII character is; the non-ASCII
/// numeric characters are left unsaid.
#[verifier::external_body]
fn is_numeric(c: char) -> (b: bool)
    ensures
        b == char_numeric(c),
        ('0' <= c && c <= '9') ==> b,
        ((c as u32) < 128 && !('0' <= c && c <= '9')) ==> !b,
{
    c.is_numeric()
}

/// Every character of `s` is numeric.
pub open spec fn all_numeric(s: Seq<char>) -> bool {
    forall|i: int| 0 <= i < s.len() ==> char_numeric(#[trigger] s[i])
}

/// The first of lines `ls` that, trimmed, is non-empty and all numeric,
/// trimmed.
pub open spec fn first_pid_line(ls: Seq<Seq<char>>) -> Option<Seq<char>>
    decreases ls.len(),
{
    if ls.len() == 0 {
        None
    } else if trim(ls[0]).len() > 0 && all_numeric(trim(ls[0])) {
        Some(trim(ls[0]))
    } else {
        first_pid_line(ls.drop_first())
    }
}

/// The line a pid is read from in `output`, if any.
pub open spec fn pid_line(output: Seq<char>) -> Option<Seq<char>> {
    if output.len() == 0 {
        None
    } else {
        first_pid_line(lines(trim(output)))
    }
}

/// The pid line, when there is one, is ASCII digits whose value fits an
/// `i32`.
pub open spec fn pid_readable(output: Seq<char>) -> bool {
    match pid_line(output) {
        Some(l) => all_digits(l) && digits_value(l) <= i32::MAX,
        None => true,
    }
}

fn all_numeric_str(s: &str) -> (b: bool)
    ensures
        b == all_numeric(s@),
{
    let cs = to_chars(s);
    let mut i: usize = 0;
    while i < cs.len()
        invariant
            cs@ == s@,
            i <= cs.len(),
            forall|k: int| 0 <= k < i ==> char_numeric(s@[k]),
        decreases cs.len() - i,
    {
        if !is_numeric(cs[i]) {
            return false;
        }
        i = i + 1;
    }
    true
}

fn digits_i32(s: &str) -> (r: i32)
    requires
        all_digits(s@),
        digits_value(s@) <= i32::MAX,
    ensures
        r as int == digits_value(s@),
{
    let cs = to_chars(s);
    let mut acc: i32 = 0;
    let mut i: usize = 0;
    while i < cs.len()
        invariant
            cs@ == s@,
            i <= cs.len(),
            all_digits(s@),
            digits_value(s@) <= i32::MAX,
            acc as int == digits_value(s@.subrange(0, i as int)),
        decreases cs.len() - i,
    {
        proof {
            crate::text::lemma_digits_value_prefix(s@, i + 1);
            let p = s@.subrange(0, i + 1);
            assert(p.drop_last() =~= s@.subrange(0, i as int));
            assert(p.last() == s@[i as int]);
        }
        let d = (cs[i] as u32) - ('0' as u32);
        acc = acc * 10 + d as i32;
        i = i + 1;
    }
    assert(s@.subrange(0, cs.len() as int) =~= s@);
    acc
}

/// The pid in the output of a process listing: the first non-empty line,
/// trimmed, made only of numeric characters; `None` when there is none.
pub fn parse_monograph_pid(output: &str) -> (r: Option<i32>)
    requires
        pid_readable(output@),
    ensures
        match pid_line(output@) {
            Some(l) => r == Some(digits_value(l) as i32),
            None => r is None,
        },
{
    if output.unicode_len() == 0 {
        return None;
    }
    let t = trim_str(output);
    let ls = lines_str(t.as_str());
    let ghost lv = views(ls@);
    let mut i: usize = 0;
    assert(lv.skip(0) =~= lv);
    while i < ls.len()
        invariant
            i <= ls.len(),
            lv == views(ls@),
            lv == lines(trim(output@)),
            output@.len() > 0,
            pid_readable(output@),
            first_pid_line(lv) == first_pid_line(lv.skip(i as int)),
        decreases ls.len() - i,
    {
        let ghost rest = lv.skip(i as int);
        assert(rest[0] == ls@[i as int]@);
        assert(rest.drop_first() =~= lv.skip(i + 1));
        let l = trim_str(ls[i].as_str());
        if l.as_str().unicode_len() > 0 && all_numeric_str(l.as_str()) {
            return Some(digits_i32(l.as_str()));
        }
        i = i + 1;
    }
    None
}

/// The pid in the output of a process listing, or `None` inside when the
/// pid line is not a number that fits an `i32` (which the listing's reader
/// would reject).
pub fn try_parse_monograph_pid(output: &str) -> (r: Option<Option<i32>>)
    ensures
        r is Some <==> pid_readable(output@),
        r matches Some(p) ==> match pid_line(output@) {
            Some(l) => p == Some(digits_value(l) as i32),
            None => p is None,
        },
{
    if output.unicode_len() == 0 {
        return Some(None);
    }
    let t = trim_str(output);
    let ls = lines_str(t.as_str());
    let ghost lv = views(ls@);
    let mut i: usize = 0;
    assert(lv.skip(0) =~= lv);
    while i < ls.len()
        invariant
            i <= ls.len(),
            lv == views(ls@),
            lv == lines(trim(output@)),
            output@.len() > 0,
            first_pid_line(lv) == first_pid_line(lv.skip(i as int)),
        decreases ls.len() - i,
    {
        let ghost rest = lv.skip(i as int);
        assert(rest[0] == ls@[i as int]@);
        assert(rest.drop_first() =~= lv.skip(i + 1));
        let l = trim_str(ls[i].as_str());
        if l.as_str().unicode_len() > 0 && all_numeric_str(l.as_str()) {
            let cs = to_chars(l.as_str());
            let mut ok = true;
            let mut k: usize = 0;
            while k < cs.len()
                invariant
                    cs@ == l@,
                    k <= cs.len(),
                    ok == all_digits(l@.subrange(0, k as int)),
                decreases cs.len() - k,
            {
                proof {
                    let p = l@.subrange(0, k + 1);
                    assert(p[k as int] == l@[k as int]);
                    if all_digits(l@.subrange(0, k as int)) && crate::text::is_ascii_digit(l@[k as int]) {
                        assert forall|q: int| 0 <= q < p.len() implies crate::text::is_ascii_digit(#[trigger] p[q]) by {
                            if q < k {
                                assert(p[q] == l@.subrange(0, k as int)[q]);
                            }
                        }
                    }
                    if all_digits(p) {
                        assert forall|q: int| 0 <= q < k implies crate::text::is_ascii_digit(#[trigger] l@.subrange(0, k as int)[q]) by {
                            assert(l@.subrange(0, k as int)[q] == p[q]);
                        }
                    }
                }
                if !('0' <= cs[k] && cs[k] <= '9') {
                    ok = false;
                }
                k = k + 1;
            }
            assert(l@.subrange(0, cs.len() as int) =~= l@);
            if !ok {
                return None;
            }
            let mut acc: u64 = 0;
            let mut q: usize = 0;
            while q < cs.len()
                invariant
                    cs@ == l@,
                    q <= cs.len(),
                    all_digits(l@),
                    first_pid_line(lv) == Some(l@),
                    lv == lines(trim(output@)),
                    output@.len() > 0,
                    acc as int == digits_value(l@.subrange(0, q as int)),
                    acc <= 2147483647,
                decreases cs.len() - q,
            {
                proof {
                    let p = l@.subrange(0, q + 1);
                    assert(p.drop_last() =~= l@.subrange(0, q as int));
                    assert(p.last() == l@[q as int]);
                    assert(crate::text::is_ascii_digit(l@[q as int]));
                    crate::text::lemma_digits_value_prefix(l@, q + 1);
                }
                let d = (cs[q] as u32) - ('0' as u32);
                let next = acc * 10 + d as u64;
                if next > 2147483647 {
                    return None;
                }
                acc = next;
                q = q + 1;
            }
            assert(l@.subrange(0, cs.len() as int) =~= l@);
            return Some(Some(acc as i32));
        }
        i = i + 1;
    }
    Some(None)
}

} // verus!
