//! The log service: the commands that start, stop and find each log
//! member's process, which of them a control task runs, and how the
//! results of several processes on one host are merged.
use vstd::prelude::*;
use crate::text::{replace_all, replace_str, decimal, u64_to_string, str_lowercase, lowercase, dedup, join, join_str, views};
use crate::task::{TaskId, TaskArgValue, ArgView, arg_text, result_views};

verus! {

/// One member of the log service.
#[derive(Debug)]
pub struct LogMember {
    pub host: String,
    pub port: u16,
    pub storage_path: String,
}

/// What the log control commands read of a deployment.
#[derive(Debug)]
pub struct LogDeployment {
    /// The user the processes run as.
    pub user: String,
    /// Where the log service is installed.
    pub log_home: String,
    /// Where the start scripts are.
    pub install_dir: String,
    pub members: Vec<LogMember>,
}

/// The cluster command a log control task serves.
#[derive(Debug)]
pub enum CommandArgs {
    Start { cluster: String },
    Status { cluster: String, user: Option<String>, password: Option<String> },
    Stop { cluster: String, force: Option<bool>, all: bool },
    LogService { cluster: String, command: String },
    Other(String),
}

pub open spec fn args_name(a: CommandArgs) -> Seq<char> {
    match a {
        CommandArgs::Start { .. } => "start"@,
        CommandArgs::Status { .. } => "status"@,
        CommandArgs::Stop { .. } => "stop"@,
        CommandArgs::LogService { .. } => "log-srv"@,
        CommandArgs::Other(n) => n@,
    }
}

impl CommandArgs {
    pub fn name(&self) -> (r: &str)
        ensures
            r@ == args_name(*self),
    {
        match self {
            CommandArgs::Start { .. } => "start",
            CommandArgs::Status { .. } => "status",
            CommandArgs::Stop { .. } => "stop",
            CommandArgs::LogService { .. } => "log-srv",
            CommandArgs::Other(n) => n.as_str(),
        }
    }
}

/// A log member's host and port.
#[derive(Debug)]
pub struct LogProcessKey {
    pub host: String,
    pub port: u16,
}

/// A control command for one log member.
#[derive(Debug)]
pub enum LogCtlCmd {
    Start(String),
    Stop(String),
    Status(String),
}

pub enum LogCmdView {
    Start(Seq<char>),
    Stop(Seq<char>),
    Status(Seq<char>),
}

impl View for LogCtlCmd {
    type V = LogCmdView;

    open spec fn view(&self) -> LogCmdView {
        match self {
            LogCtlCmd::Start(s) => LogCmdView::Start(s@),
            LogCtlCmd::Stop(s) => LogCmdView::Stop(s@),
            LogCtlCmd::Status(s) => LogCmdView::Status(s@),
        }
    }
}

pub open spec fn log_text(c: LogCmdView) -> Seq<char> {
    match c {
        LogCmdView::Start(s) => s,
        LogCmdView::Stop(s) => s,
        LogCmdView::Status(s) => s,
    }
}

pub open spec fn log_views(v: Seq<(LogProcessKey, LogCtlCmd)>) -> Seq<((Seq<char>, u16), LogCmdView)> {
    v.map_values(|p: (LogProcessKey, LogCtlCmd)| ((p.0.host@, p.0.port), p.1@))
}

/// The template of the command that lists a log member's process.
pub const FIND_LOG_PROCESS_CMD: &'static str = "ps uxwe -u _USER | grep '_LOG_BIN_CMD' | grep '_STORAGE_PATH' \\\n ~ | grep -v grep | awk '{print _COLUMN}'";

pub open spec fn find_log_template() -> Seq<char> {
    "ps uxwe -u _USER | grep '_LOG_BIN_CMD' | grep '_STORAGE_PATH' \\\n ~ | grep -v grep | awk '{print _COLUMN}'"@
}

/// The command that lists the process of the log member storing at
/// `storage`: the template with user, binary, storage path and column
/// filled in, in that order.
pub open spec fn log_ps(user: Seq<char>, log_home: Seq<char>, storage: Seq<char>) -> Seq<char> {
    replace_all(
        replace_all(
            replace_all(replace_all(find_log_template(), "_USER"@, user), "_LOG_BIN_CMD"@, log_home + "/bin/launch_sv"@),
            "_STORAGE_PATH"@,
            storage,
        ),
        "_COLUMN"@,
        "$2"@,
    )
}

/// The command that starts the log member at `host` and `port`.
pub open spec fn log_start(log_home: Seq<char>, home: Seq<char>, host: Seq<char>, port: u16) -> Seq<char> {
    "export LD_LIBRARY_PATH="@ + log_home + "/lib:$LD_LIBRARY_PATH;/bin/bash "@ + home + "/start_tx_log_"@ + host + "_"@
        + decimal(port as nat) + ".bash"@
}

/// Whether a log control command can be built for `a`: start, status and
/// stop always; `log-srv` for a non-empty command whose lower-case form is
/// `start`, `stop` or `status`.
pub open spec fn args_supported(a: CommandArgs) -> bool {
    match a {
        CommandArgs::Start { .. } | CommandArgs::Status { .. } | CommandArgs::Stop { .. } => true,
        CommandArgs::LogService { command, .. } => command@.len() > 0 && {
            let l = str_lowercase(command@);
            l == "start"@ || l == "stop"@ || l == "status"@
        },
        CommandArgs::Other(_) => false,
    }
}

/// The command for one member: start runs its start script, status lists
/// its process, stop kills it (`kill -9` when forced); `log-srv` does the
/// same by its lower-cased command, without forcing.
pub open spec fn log_member_cmd(d: LogDeployment, a: CommandArgs, m: LogMember) -> LogCmdView {
    let ps = log_ps(d.user@, d.log_home@, m.storage_path@);
    let start = log_start(d.log_home@, d.install_dir@, m.host@, m.port);
    match a {
        CommandArgs::Start { .. } => LogCmdView::Start(start),
        CommandArgs::Status { .. } => LogCmdView::Status(ps),
        CommandArgs::Stop { force, .. } => LogCmdView::Stop(if force is Some {
            ps + " | xargs kill -9"@
        } else {
            ps + " | xargs kill"@
        }),
        CommandArgs::LogService { command, .. } => {
            let l = str_lowercase(command@);
            if l == "start"@ {
                LogCmdView::Start(start)
            } else if l == "stop"@ {
                LogCmdView::Stop(ps + " | xargs kill"@)
            } else {
                LogCmdView::Status(ps)
            }
        },
        CommandArgs::Other(_) => LogCmdView::Status(ps),
    }
}

/// The member is selected: every member without a filter, else the one at
/// the filter's host and port.
pub open spec fn selected(m: LogMember, only: Option<(String, u16)>) -> bool {
    match only {
        Some((h, p)) => m.host@ == h@ && m.port == p,
        None => true,
    }
}

/// The (member, command) pairs for the selected members, in order.
pub open spec fn log_cmds(d: LogDeployment, a: CommandArgs, ms: Seq<LogMember>, only: Option<(String, u16)>) -> Seq<((Seq<char>, u16), LogCmdView)>
    decreases ms.len(),
{
    if ms.len() == 0 {
        Seq::empty()
    } else {
        let rest = log_cmds(d, a, ms.drop_last(), only);
        let m = ms.last();
        if selected(m, only) {
            rest.push(((m.host@, m.port), log_member_cmd(d, a, m)))
        } else {
            rest
        }
    }
}

/// Some member is selected.
pub open spec fn any_selected(ms: Seq<LogMember>, only: Option<(String, u16)>) -> bool {
    exists|i: int| 0 <= i < ms.len() && selected(#[trigger] ms[i], only)
}

fn log_ps_cmd(user: &str, log_home: &str, storage: &str) -> (r: String)
    ensures
        r@ == log_ps(user@, log_home@, storage@),
{
    let mut bin = String::from_str(log_home);
    bin.append("/bin/launch_sv");
    proof {
        reveal_strlit("_USER");
        reveal_strlit("_LOG_BIN_CMD");
        reveal_strlit("_STORAGE_PATH");
        reveal_strlit("_COLUMN");
    }
    let a = replace_str(FIND_LOG_PROCESS_CMD, "_USER", user);
    let b = replace_str(a.as_str(), "_LOG_BIN_CMD", bin.as_str());
    let c = replace_str(b.as_str(), "_STORAGE_PATH", storage);
    replace_str(c.as_str(), "_COLUMN", "$2")
}

fn log_start_cmd(log_home: &str, home: &str, host: &str, port: u16) -> (r: String)
    ensures
        r@ == log_start(log_home@, home@, host@, port),
{
    let mut s = String::from_str("export LD_LIBRARY_PATH=");
    s.append(log_home);
    s.append("/lib:$LD_LIBRARY_PATH;/bin/bash ");
    s.append(home);
    s.append("/start_tx_log_");
    s.append(host);
    s.append("_");
    let p = u64_to_string(port as u64);
    s.append(p.as_str());
    s.append(".bash");
    s
}

fn with_tail(s: &String, t: &str) -> (r: String)
    ensures
        r@ == s@ + t@,
{
    let mut r = s.clone();
    r.append(t);
    r
}

impl LogCtlCmd {
    /// The text of the command.
    pub fn cmd_value(&self) -> (r: String)
        ensures
            r@ == log_text(self@),
    {
        match self {
            LogCtlCmd::Start(c) => c.clone(),
            LogCtlCmd::Stop(c) => c.clone(),
            LogCtlCmd::Status(c) => c.clone(),
        }
    }

    /// The command of every log member for `cmd_arg`.
    pub fn build_cmd(d: &LogDeployment, cmd_arg: &CommandArgs) -> (r: Vec<(LogProcessKey, LogCtlCmd)>)
        requires
            d.members@.len() > 0 ==> args_supported(*cmd_arg),
        ensures
            log_views(r@) == log_cmds(*d, *cmd_arg, d.members@, None),
    {
        proof {
            if d.members@.len() > 0 {
                assert(selected(d.members@[0], None));
            }
        }
        LogCtlCmd::build_cmd_with_predicate(d, cmd_arg, &None)
    }

    /// The command of every log member `only` selects (all without it).
    pub fn build_cmd_with_predicate(d: &LogDeployment, cmd_arg: &CommandArgs, only: &Option<(String, u16)>) -> (r: Vec<(LogProcessKey, LogCtlCmd)>)
        requires
            any_selected(d.members@, *only) ==> args_supported(*cmd_arg),
        ensures
            log_views(r@) == log_cmds(*d, *cmd_arg, d.members@, *only),
    {
        let ms = &d.members;
        let mut r: Vec<(LogProcessKey, LogCtlCmd)> = Vec::new();
        let mut i: usize = 0;
        while i < ms.len()
            invariant
                i <= ms.len(),
                any_selected(d.members@, *only) ==> args_supported(*cmd_arg),
                ms == &d.members,
                log_views(r@) == log_cmds(*d, *cmd_arg, ms@.subrange(0, i as int), *only),
            decreases ms.len() - i,
        {
            let ghost pre1 = ms@.subrange(0, i + 1);
            assert(pre1.drop_last() =~= ms@.subrange(0, i as int));
            assert(pre1.last() == ms@[i as int]);
            let m = &ms[i];
            let sel = match only {
                Some((h, p)) => m.host == *h && m.port == *p,
                None => true,
            };
            if sel {
                assert(selected(ms@[i as int], *only));
                let ps = log_ps_cmd(d.user.as_str(), d.log_home.as_str(), m.storage_path.as_str());
                let start = log_start_cmd(d.log_home.as_str(), d.install_dir.as_str(), m.host.as_str(), m.port);
                let cmd = match cmd_arg {
                    CommandArgs::Start { .. } => LogCtlCmd::Start(start),
                    CommandArgs::Status { .. } => LogCtlCmd::Status(ps),
                    CommandArgs::Stop { force, .. } => {
                        if force.is_some() {
                            LogCtlCmd::Stop(with_tail(&ps, " | xargs kill -9"))
                        } else {
                            LogCtlCmd::Stop(with_tail(&ps, " | xargs kill"))
                        }
                    },
                    CommandArgs::LogService { command, .. } => {
                        let l = lowercase(command.as_str());
                        if crate::text::str_eq(l.as_str(), "start") {
                            LogCtlCmd::Start(start)
                        } else if crate::text::str_eq(l.as_str(), "stop") {
                            LogCtlCmd::Stop(with_tail(&ps, " | xargs kill"))
                        } else {
                            LogCtlCmd::Status(ps)
                        }
                    },
                    CommandArgs::Other(_) => LogCtlCmd::Status(ps),
                };
                let ghost cv = cmd@;
                let ghost old_r = r@;
                r.push((LogProcessKey { host: m.host.clone(), port: m.port }, cmd));
                assert(log_views(r@) =~= log_views(old_r).push(((m.host@, m.port), cv)));
            }
            i = i + 1;
        }
        assert(ms@.subrange(0, ms.len() as int) =~= ms@);
        r
    }

    /// The commands of [`LogCtlCmd::build_cmd`], or `None` when `cmd_arg`
    /// is not a command the log service is controlled by.
    pub fn try_build_cmd(d: &LogDeployment, cmd_arg: &CommandArgs) -> (r: Option<Vec<(LogProcessKey, LogCtlCmd)>>)
        ensures
            r is Some <==> (d.members@.len() > 0 ==> args_supported(*cmd_arg)),
            r matches Some(v) ==> log_views(v@) == log_cmds(*d, *cmd_arg, d.members@, None),
    {
        if d.members.len() > 0 {
            let ok = match cmd_arg {
                CommandArgs::Start { .. } | CommandArgs::Status { .. } | CommandArgs::Stop { .. } => true,
                CommandArgs::LogService { command, .. } => {
                    if command.as_str().unicode_len() == 0 {
                        false
                    } else {
                        let l = lowercase(command.as_str());
                        crate::text::str_eq(l.as_str(), "start") || crate::text::str_eq(l.as_str(), "stop")
                            || crate::text::str_eq(l.as_str(), "status")
                    }
                },
                CommandArgs::Other(_) => false,
            };
            if !ok {
                return None;
            }
        }
        Some(LogCtlCmd::build_cmd(d, cmd_arg))
    }
}

/// The cluster command a log control task serves, by name: start, stop and
/// status as such, `log-srv` by its own command.
pub open spec fn spec_cluster_cmd(a: CommandArgs) -> Seq<char> {
    match a {
        CommandArgs::LogService { command, .. } => command@,
        _ => args_name(a),
    }
}

/// One log control task: the commands of the members on its host.
#[derive(Debug)]
pub struct MonographLogCtlTask {
    pub task_id: TaskId,
    pub log_cmd: Vec<(LogProcessKey, LogCtlCmd)>,
}

impl MonographLogCtlTask {
    pub fn new(task_id: TaskId, log_cmd: Vec<(LogProcessKey, LogCtlCmd)>) -> (r: MonographLogCtlTask)
        ensures
            r.task_id@ == task_id@,
            log_views(r.log_cmd@) == log_views(log_cmd@),
    {
        MonographLogCtlTask { task_id, log_cmd }
    }

    /// The name of the cluster command, as the task passes it on.
    pub fn cluster_cmd_string(cmd_arg: &CommandArgs) -> (r: String)
        requires
            cmd_arg is Start || cmd_arg is Stop || cmd_arg is Status || cmd_arg is LogService,
        ensures
            r@ == spec_cluster_cmd(*cmd_arg),
    {
        match cmd_arg {
            CommandArgs::LogService { command, .. } => command.clone(),
            _ => String::from_str(cmd_arg.name()),
        }
    }

    /// The commands a `start` or `stop` task runs, given for each of its
    /// members whether a process was found: stop kills the members still
    /// running, start starts those not running.
    pub fn commands_to_run(&self, cluster_cmd: &str, running: &Vec<bool>) -> (r: Vec<(LogProcessKey, LogCtlCmd)>)
        requires
            running.len() == self.log_cmd.len(),
            self.log_cmd.len() > 0 ==> (cluster_cmd@ == "stop"@ || cluster_cmd@ == "start"@),
        ensures
            log_views(r@) == log_run(cluster_cmd@ == "stop"@, log_views(self.log_cmd@), running@),
    {
        let stop = crate::text::str_eq(cluster_cmd, "stop");
        let mut r: Vec<(LogProcessKey, LogCtlCmd)> = Vec::new();
        let mut i: usize = 0;
        while i < self.log_cmd.len()
            invariant
                i <= self.log_cmd.len(),
                running.len() == self.log_cmd.len(),
                stop == (cluster_cmd@ == "stop"@),
                log_views(r@) == log_run(stop, log_views(self.log_cmd@).subrange(0, i as int), running@.subrange(0, i as int)),
            decreases self.log_cmd.len() - i,
        {
            let ghost pre1 = log_views(self.log_cmd@).subrange(0, i + 1);
            assert(pre1.drop_last() =~= log_views(self.log_cmd@).subrange(0, i as int));
            assert(running@.subrange(0, i + 1).drop_last() =~= running@.subrange(0, i as int));
            assert(pre1.last() == ((self.log_cmd@[i as int].0.host@, self.log_cmd@[i as int].0.port), self.log_cmd@[i as int].1@));
            if running[i] == stop {
                let k = LogProcessKey { host: self.log_cmd[i].0.host.clone(), port: self.log_cmd[i].0.port };
                let c = match &self.log_cmd[i].1 {
                    LogCtlCmd::Start(s) => LogCtlCmd::Start(s.clone()),
                    LogCtlCmd::Stop(s) => LogCtlCmd::Stop(s.clone()),
                    LogCtlCmd::Status(s) => LogCtlCmd::Status(s.clone()),
                };
                let ghost old_r = r@;
                r.push((k, c));
                assert(log_views(r@) =~= log_views(old_r).push(pre1.last()));
            }
            i = i + 1;
        }
        assert(log_views(self.log_cmd@).subrange(0, self.log_cmd.len() as int) =~= log_views(self.log_cmd@));
        assert(running@.subrange(0, running.len() as int) =~= running@);
        r
    }
}

/// The entries of `cs` a task runs: when stopping, those whose process was
/// found; when starting, those whose process was not.
pub open spec fn log_run(stop: bool, cs: Seq<((Seq<char>, u16), LogCmdView)>, running: Seq<bool>) -> Seq<((Seq<char>, u16), LogCmdView)>
    decreases cs.len(),
{
    if cs.len() == 0 {
        Seq::empty()
    } else {
        let rest = log_run(stop, cs.drop_last(), running.subrange(0, cs.len() - 1));
        if running[cs.len() - 1] == stop {
            rest.push(cs.last())
        } else {
            rest
        }
    }
}


// ── merging the results of several processes ────────────────────────────

/// The entries of all results, result by result.
pub open spec fn flat_results(rs: Seq<Vec<(String, TaskArgValue)>>) -> Seq<(Seq<char>, ArgView)>
    decreases rs.len(),
{
    if rs.len() == 0 {
        Seq::empty()
    } else {
        flat_results(rs.drop_last()) + result_views(rs.last()@)
    }
}

/// The values entries `f` hold under key `k`, in order.
pub open spec fn values_of(f: Seq<(Seq<char>, ArgView)>, k: Seq<char>) -> Seq<ArgView>
    decreases f.len(),
{
    if f.len() == 0 {
        Seq::empty()
    } else if f.last().0 == k {
        values_of(f.drop_last(), k).push(f.last().1)
    } else {
        values_of(f.drop_last(), k)
    }
}

/// The sum of the numbers among `vs`.
pub open spec fn number_sum(vs: Seq<ArgView>) -> int
    decreases vs.len(),
{
    if vs.len() == 0 {
        0
    } else {
        number_sum(vs.drop_last()) + match vs.last() {
            ArgView::Number(n) => n as int,
            ArgView::Str(_) => 0,
        }
    }
}

/// Every value of `vs` is a number and every running sum of them fits an
/// `i32`.
pub open spec fn sums_fit(vs: Seq<ArgView>) -> bool {
    forall|i: int| 0 <= i < vs.len() ==> (#[trigger] vs[i]) is Number && i32::MIN <= number_sum(vs.subrange(0, i + 1)) <= i32::MAX
}

/// The keys of `f` in order of first appearance.
pub open spec fn result_keys(f: Seq<(Seq<char>, ArgView)>) -> Seq<Seq<char>> {
    dedup(f.map_values(|e: (Seq<char>, ArgView)| e.0))
}

/// The merged value of key `k`: the status key sums its numbers, every
/// other key joins the texts of its values with `;`.
pub open spec fn merged_value(f: Seq<(Seq<char>, ArgView)>, k: Seq<char>, status_key: Seq<char>) -> ArgView {
    if k == status_key {
        ArgView::Number(number_sum(values_of(f, k)) as i32)
    } else {
        ArgView::Str(join(values_of(f, k).map_values(|v: ArgView| arg_text(v)), ";"@))
    }
}

/// One entry per key of the results, in order of first appearance.
pub open spec fn merged_results(f: Seq<(Seq<char>, ArgView)>, status_key: Seq<char>) -> Seq<(Seq<char>, ArgView)> {
    result_keys(f).map_values(|k: Seq<char>| (k, merged_value(f, k, status_key)))
}

fn flatten_results(rs: &Vec<Vec<(String, TaskArgValue)>>) -> (r: Vec<(String, TaskArgValue)>)
    ensures
        result_views(r@) == flat_results(rs@),
{
    let mut r: Vec<(String, TaskArgValue)> = Vec::new();
    let mut i: usize = 0;
    while i < rs.len()
        invariant
            i <= rs.len(),
            result_views(r@) == flat_results(rs@.subrange(0, i as int)),
        decreases rs.len() - i,
    {
        let ghost base = result_views(r@);
        assert(rs@.subrange(0, i + 1).drop_last() =~= rs@.subrange(0, i as int));
        let inner = &rs[i];
        let mut j: usize = 0;
        while j < inner.len()
            invariant
                j <= inner.len(),
                result_views(r@) == base + result_views(inner@).subrange(0, j as int),
            decreases inner.len() - j,
        {
            let ghost before = result_views(r@);
            r.push((inner[j].0.clone(), inner[j].1.duplicate()));
            assert(result_views(r@) =~= before.push((inner@[j as int].0@, inner@[j as int].1@)));
            assert(result_views(inner@).subrange(0, j + 1) =~= result_views(inner@).subrange(0, j as int).push((inner@[j as int].0@, inner@[j as int].1@)));
            j = j + 1;
        }
        assert(result_views(inner@).subrange(0, inner.len() as int) =~= result_views(inner@));
        i = i + 1;
    }
    assert(rs@.subrange(0, rs.len() as int) =~= rs@);
    r
}

proof fn lemma_values_prefix(f: Seq<(Seq<char>, ArgView)>, k: Seq<char>, j: int)
    requires
        0 <= j <= f.len(),
    ensures
        values_of(f.subrange(0, j), k).len() <= values_of(f, k).len(),
        values_of(f.subrange(0, j), k) =~= values_of(f, k).subrange(0, values_of(f.subrange(0, j), k).len() as int),
    decreases f.len() - j,
{
    if j < f.len() {
        lemma_values_prefix(f, k, j + 1);
        let p1 = f.subrange(0, j + 1);
        assert(p1.drop_last() =~= f.subrange(0, j));
    } else {
        assert(f.subrange(0, j) =~= f);
    }
}

/// The sum of the numbers the entries `f` hold under key `k`.
fn sum_values(f: &Vec<(String, TaskArgValue)>, k: &String) -> (r: i32)
    requires
        sums_fit(values_of(result_views(f@), k@)),
    ensures
        r as int == number_sum(values_of(result_views(f@), k@)),
{
    let ghost fv = result_views(f@);
    let mut acc: i32 = 0;
    let mut j: usize = 0;
    while j < f.len()
        invariant
            j <= f.len(),
            fv == result_views(f@),
            sums_fit(values_of(fv, k@)),
            acc as int == number_sum(values_of(fv.subrange(0, j as int), k@)),
        decreases f.len() - j,
    {
        let ghost p1 = fv.subrange(0, j + 1);
        assert(p1.drop_last() =~= fv.subrange(0, j as int));
        assert(p1.last() == (f@[j as int].0@, f@[j as int].1@));
        if f[j].0 == *k {
            proof {
                lemma_values_prefix(fv, k@, j + 1);
                let vs = values_of(fv, k@);
                let pre = values_of(fv.subrange(0, j as int), k@);
                assert(values_of(p1, k@) == pre.push(f@[j as int].1@));
                let m = values_of(p1, k@).len() as int;
                assert(vs.subrange(0, m) =~= values_of(p1, k@));
                assert(vs[m - 1] == f@[j as int].1@);
                assert(vs.subrange(0, m - 1 + 1) =~= vs.subrange(0, m));
                assert(values_of(p1, k@).drop_last() =~= pre);
                assert(number_sum(values_of(p1, k@)) == number_sum(pre) + match f@[j as int].1@ {
                    ArgView::Number(n) => n as int,
                    ArgView::Str(_) => 0,
                });
            }
            match &f[j].1 {
                TaskArgValue::Number(n) => {
                    acc = acc + *n;
                },
                TaskArgValue::Str(_) => {},
            }
        } else {
            assert(values_of(p1, k@) == values_of(fv.subrange(0, j as int), k@));
        }
        j = j + 1;
    }
    assert(fv.subrange(0, f.len() as int) =~= fv);
    acc
}

/// The texts of the values the entries `f` hold under key `k`, joined by
/// `;`.
fn join_values(f: &Vec<(String, TaskArgValue)>, k: &String) -> (r: String)
    ensures
        r@ == join(values_of(result_views(f@), k@).map_values(|v: ArgView| arg_text(v)), ";"@),
{
    let ghost fv = result_views(f@);
    let mut texts: Vec<String> = Vec::new();
    let mut j: usize = 0;
    while j < f.len()
        invariant
            j <= f.len(),
            fv == result_views(f@),
            views(texts@) == values_of(fv.subrange(0, j as int), k@).map_values(|v: ArgView| arg_text(v)),
        decreases f.len() - j,
    {
        let ghost p1 = fv.subrange(0, j + 1);
        assert(p1.drop_last() =~= fv.subrange(0, j as int));
        assert(p1.last() == (f@[j as int].0@, f@[j as int].1@));
        if f[j].0 == *k {
            let t = f[j].1.text();
            let ghost old = views(texts@);
            texts.push(t);
            assert(views(texts@) =~= old.push(arg_text(f@[j as int].1@)));
            assert(values_of(p1, k@) =~= values_of(fv.subrange(0, j as int), k@).push(f@[j as int].1@));
            assert(values_of(p1, k@).map_values(|v: ArgView| arg_text(v)) =~= values_of(fv.subrange(0, j as int), k@).map_values(|v: ArgView| arg_text(v)).push(arg_text(f@[j as int].1@)));
        }
        j = j + 1;
    }
    assert(fv.subrange(0, f.len() as int) =~= fv);
    join_str(&texts, ";")
}

impl MonographLogCtlTask {
    /// Merges the results of the processes on one host: one entry per key,
    /// the status key summing the statuses and every other key joining its
    /// texts with `;`.
    pub fn merge_execution_value(results: &Vec<Vec<(String, TaskArgValue)>>, status_key: &str) -> (r: Vec<(String, TaskArgValue)>)
        requires
            sums_fit(values_of(flat_results(results@), status_key@)),
        ensures
            result_views(r@) == merged_results(flat_results(results@), status_key@),
    {
        let flat = flatten_results(results);
        let ghost fv = result_views(flat@);
        let mut names: Vec<String> = Vec::new();
        let mut i: usize = 0;
        while i < flat.len()
            invariant
                i <= flat.len(),
                fv == result_views(flat@),
                views(names@) == fv.subrange(0, i as int).map_values(|e: (Seq<char>, ArgView)| e.0),
            decreases flat.len() - i,
        {
            let ghost old = views(names@);
            names.push(flat[i].0.clone());
            assert(views(names@) =~= old.push(fv[i as int].0));
            assert(fv.subrange(0, i + 1).map_values(|e: (Seq<char>, ArgView)| e.0) =~= fv.subrange(0, i as int).map_values(|e: (Seq<char>, ArgView)| e.0).push(fv[i as int].0));
            i = i + 1;
        }
        assert(fv.subrange(0, flat.len() as int) =~= fv);
        let keys = crate::text::dedup_strings(&names);
        let ghost kv = views(keys@);
        assert(kv == result_keys(fv));
        let status = String::from_str(status_key);
        let mut out: Vec<(String, TaskArgValue)> = Vec::new();
        let mut q: usize = 0;
        while q < keys.len()
            invariant
                q <= keys.len(),
                fv == result_views(flat@),
                kv == views(keys@),
                kv == result_keys(fv),
                status@ == status_key@,
                sums_fit(values_of(fv, status_key@)),
                result_views(out@) == kv.subrange(0, q as int).map_values(|k: Seq<char>| (k, merged_value(fv, k, status_key@))),
            decreases keys.len() - q,
        {
            let k = &keys[q];
            let v = if *k == status {
                TaskArgValue::Number(sum_values(&flat, k))
            } else {
                TaskArgValue::Str(join_values(&flat, k))
            };
            let ghost old = result_views(out@);
            assert(kv[q as int] == k@);
            assert(v@ == merged_value(fv, k@, status_key@));
            out.push((k.clone(), v));
            assert(result_views(out@) =~= old.push((k@, merged_value(fv, k@, status_key@))));
            assert(kv.subrange(0, q + 1).map_values(|k: Seq<char>| (k, merged_value(fv, k, status_key@))) =~= kv.subrange(0, q as int).map_values(|k: Seq<char>| (k, merged_value(fv, k, status_key@))).push((k@, merged_value(fv, k@, status_key@))));
            q = q + 1;
        }
        assert(kv.subrange(0, keys.len() as int) =~= kv);
        out
    }
}

/// Whether a `log-srv` command is followed by a probe of the log service:
/// `start` or `status` in any case.
pub open spec fn log_srv_probes(cmd: Seq<char>) -> bool {
    crate::text::str_lowercase(cmd) == "start"@ || crate::text::str_lowercase(cmd) == "status"@
}

/// The task group of a `log-srv` command: its name, and whether the log
/// service is probed after the command.
pub fn log_srv_group(cmd: &str) -> (r: (String, bool))
    ensures
        r.0@ == "log-srv-"@ + cmd@,
        r.1 == log_srv_probes(cmd@),
{
    let low = crate::text::lowercase(cmd);
    let probes = crate::text::str_eq(low.as_str(), "start") || crate::text::str_eq(low.as_str(), "status");
    let mut name = String::from_str("log-srv-");
    name.append(cmd);
    (name, probes)
}

} // verus!
