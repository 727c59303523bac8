//! Control of the key-value servers (tx servers, standbys, voters and
//! nodes): the commands that stop and find one server, the name of its
//! task, and the probes that wait for a server to accept connections.
use vstd::prelude::*;
use crate::text::{split_once, split_once_char, split_once_pat, split_once_str, split_on, char_in, split_chars, str_eq, views};
use crate::task::{SubCommand, TaskId, TaskIdView, spec_command_name};

verus! {

/// A control command for one key-value server.
#[derive(Debug)]
pub enum TxCtlCmd {
    Start(String),
    Stop(String),
    ForceStop(String),
    Status(String),
}

pub enum TxCmdView {
    Start(Seq<char>),
    Stop(Seq<char>),
    ForceStop(Seq<char>),
    Status(Seq<char>),
}

impl View for TxCtlCmd {
    type V = TxCmdView;

    open spec fn view(&self) -> TxCmdView {
        match self {
            TxCtlCmd::Start(s) => TxCmdView::Start(s@),
            TxCtlCmd::Stop(s) => TxCmdView::Stop(s@),
            TxCtlCmd::ForceStop(s) => TxCmdView::ForceStop(s@),
            TxCtlCmd::Status(s) => TxCmdView::Status(s@),
        }
    }
}

pub open spec fn tx_text(c: TxCmdView) -> Seq<char> {
    match c {
        TxCmdView::Start(s) => s,
        TxCmdView::Stop(s) => s,
        TxCmdView::ForceStop(s) => s,
        TxCmdView::Status(s) => s,
    }
}

/// The process listing of the server of `bin` on `port` run by `user`,
/// ending with the pipe into the pid column.
pub open spec fn tx_ps(user: Seq<char>, bin: Seq<char>, port: Seq<char>) -> Seq<char> {
    "ps uxwe -u "@ + user + " | grep "@ + bin + " | grep "@ + port + " | grep -v grep |  awk '{print $2}'"@
}

/// The kinds of control command a server task runs besides starting.
#[derive(Debug)]
pub enum TxCtlKind {
    Stop,
    ForceStop,
    Status,
}

/// The command of kind `k` for the server of `bin` on `port`.
pub open spec fn spec_tx_cmd(k: TxCtlKind, user: Seq<char>, bin: Seq<char>, port: Seq<char>) -> TxCmdView {
    match k {
        TxCtlKind::ForceStop => TxCmdView::ForceStop(tx_ps(user, bin, port) + " | xargs -r kill -9"@),
        TxCtlKind::Stop => TxCmdView::Stop(tx_ps(user, bin, port) + " | xargs -r kill"@),
        TxCtlKind::Status => TxCmdView::Status(tx_ps(user, bin, port) + " "@),
    }
}

impl TxCtlCmd {
    /// The text of the command.
    pub fn cmd_value(&self) -> (r: String)
        ensures
            r@ == tx_text(self@),
    {
        match self {
            TxCtlCmd::Start(c) => c.clone(),
            TxCtlCmd::Stop(c) => c.clone(),
            TxCtlCmd::ForceStop(c) => c.clone(),
            TxCtlCmd::Status(c) => c.clone(),
        }
    }

    /// The name of the command's kind.
    pub fn kind_name(&self) -> (r: &'static str)
        ensures
            r@ == match self@ {
                TxCmdView::Start(_) => "start"@,
                TxCmdView::Stop(_) => "stop"@,
                TxCmdView::ForceStop(_) => "force_stop"@,
                TxCmdView::Status(_) => "status"@,
            },
    {
        match self {
            TxCtlCmd::Start(_) => "start",
            TxCtlCmd::Stop(_) => "stop",
            TxCtlCmd::ForceStop(_) => "force_stop",
            TxCtlCmd::Status(_) => "status",
        }
    }

    /// The stop, forced stop or status command of the server of `bin` on
    /// `port`.
    pub fn for_port(k: &TxCtlKind, user: &str, bin: &str, port: &str) -> (r: TxCtlCmd)
        ensures
            r@ == spec_tx_cmd(*k, user@, bin@, port@),
    {
        let mut ps = String::from_str("ps uxwe -u ");
        ps.append(user);
        ps.append(" | grep ");
        ps.append(bin);
        ps.append(" | grep ");
        ps.append(port);
        ps.append(" | grep -v grep |  awk '{print $2}'");
        match k {
            TxCtlKind::ForceStop => {
                ps.append(" | xargs -r kill -9");
                TxCtlCmd::ForceStop(ps)
            },
            TxCtlKind::Stop => {
                ps.append(" | xargs -r kill");
                TxCtlCmd::Stop(ps)
            },
            TxCtlKind::Status => {
                ps.append(" ");
                TxCtlCmd::Status(ps)
            },
        }
    }
}

/// The role of a key-value server.
#[derive(Debug)]
pub enum ServerType {
    Tx,
    Standby,
    Voter,
    Node,
}

pub open spec fn server_type_name(t: ServerType) -> Seq<char> {
    match t {
        ServerType::Tx => "txservice"@,
        ServerType::Standby => "standby"@,
        ServerType::Voter => "voter"@,
        ServerType::Node => "node"@,
    }
}

impl ServerType {
    /// The name the role is shown and named by.
    pub fn name(&self) -> (r: &'static str)
        ensures
            r@ == server_type_name(*self),
    {
        match self {
            ServerType::Tx => "txservice",
            ServerType::Standby => "standby",
            ServerType::Voter => "voter",
            ServerType::Node => "node",
        }
    }
}

/// The id of the task of subcommand `cmd` for the server at `host_port`:
/// named `<role>-<command>-<port>`, run for the host; `None` when
/// `host_port` holds no `:`.
pub open spec fn spec_tx_task_id(cmd: SubCommand, t: ServerType, host_port: Seq<char>) -> Option<TaskIdView> {
    match split_once(host_port, ':') {
        Some((host, port)) => Some(TaskIdView {
            cmd: spec_command_name(cmd),
            task: server_type_name(t) + "-"@ + spec_command_name(cmd) + "-"@ + port,
            host: host,
        }),
        None => None,
    }
}

pub fn tx_task_id(cmd: &SubCommand, t: &ServerType, host_port: &str) -> (r: Option<TaskId>)
    ensures
        match r {
            Some(id) => spec_tx_task_id(*cmd, *t, host_port@) == Some(id@),
            None => spec_tx_task_id(*cmd, *t, host_port@) is None,
        },
{
    match split_once_char(host_port, ':') {
        Some((host, port)) => {
            let mut task = String::from_str(t.name());
            task.append("-");
            task.append(cmd.name());
            task.append("-");
            task.append(port.as_str());
            Some(TaskId { cmd: String::from_str(cmd.name()), task, host })
        },
        None => None,
    }
}

/// The role and port in a server task's name: around the first of
/// `-start-`, `-stop-`, `-status-`, `-remove-` it holds, tried in that
/// order.
pub open spec fn spec_extract_server_type_and_port(s: Seq<char>) -> Option<(Seq<char>, Seq<char>)> {
    if split_once_pat(s, "-start-"@) is Some {
        split_once_pat(s, "-start-"@)
    } else if split_once_pat(s, "-stop-"@) is Some {
        split_once_pat(s, "-stop-"@)
    } else if split_once_pat(s, "-status-"@) is Some {
        split_once_pat(s, "-status-"@)
    } else {
        split_once_pat(s, "-remove-"@)
    }
}

/// The role and port named by a server task's name, which must hold one
/// of the command separators.
pub fn extract_server_type_and_port(input: &str) -> (r: (String, String))
    requires
        spec_extract_server_type_and_port(input@) is Some,
    ensures
        spec_extract_server_type_and_port(input@) == Some((r.0@, r.1@)),
{
    if let Some(p) = split_once_str(input, "-start-") {
        return p;
    }
    if let Some(p) = split_once_str(input, "-stop-") {
        return p;
    }
    if let Some(p) = split_once_str(input, "-status-") {
        return p;
    }
    match split_once_str(input, "-remove-") {
        Some(p) => p,
        None => (String::new(), String::new()),
    }
}

/// Waits for the MySQL protocol of a server.
#[derive(Debug)]
pub struct MySQLProbe {
    pub host: String,
    pub mysql_port: u16,
    pub user: String,
    pub password: String,
}

impl MySQLProbe {
    pub fn new(host: String, mysql_port: u16, user: String, password: String) -> (r: MySQLProbe)
        ensures
            r.host@ == host@,
            r.mysql_port == mysql_port,
            r.user@ == user@,
            r.password@ == password@,
    {
        MySQLProbe { host, mysql_port, user, password }
    }

    /// The URL the probe connects to: the user, with `:` and the password
    /// unless the password is `_NONE`, at the server's MySQL port, database
    /// `mysql`.
    pub fn url(&self) -> (r: String)
        ensures
            r@ == "mysql://"@ + (if self.password@ == "_NONE"@ { self.user@ } else { self.user@ + ":"@ + self.password@ })
                + "@"@ + self.host@ + ":"@ + crate::text::decimal(self.mysql_port as nat) + "/mysql"@,
    {
        let mut u = String::from_str("mysql://");
        u.append(self.user.as_str());
        if !crate::text::str_eq(self.password.as_str(), "_NONE") {
            u.append(":");
            u.append(self.password.as_str());
        }
        u.append("@");
        u.append(self.host.as_str());
        u.append(":");
        let p = crate::text::u64_to_string(self.mysql_port as u64);
        u.append(p.as_str());
        u.append("/mysql");
        u
    }
}

/// Whether a probe tries again after a failed attempt, and with how many
/// seconds of waiting left: only a failure worth waiting out (a refused
/// connection, or for MySQL a failed query) is retried, a second later,
/// while seconds are left.
pub fn probe_retry(retryable: bool, wait_secs: i32) -> (r: Option<i32>)
    ensures
        r == if retryable && wait_secs > 0 { Some((wait_secs - 1) as i32) } else { None::<i32> },
{
    if retryable && wait_secs > 0 {
        Some(wait_secs - 1)
    } else {
        None
    }
}

/// Waits for the Redis protocol of a server.
#[derive(Debug)]
pub struct RedisProbe {
    pub host: String,
    pub port: u16,
}

impl RedisProbe {
    pub fn new(host: String, port: u16) -> (r: RedisProbe)
        ensures
            r.host@ == host@,
            r.port == port,
    {
        RedisProbe { host, port }
    }

    /// The URL the probe connects to.
    pub fn url(&self) -> (r: String)
        ensures
            r@ == "redis://"@ + self.host@ + ":"@ + crate::text::decimal(self.port as nat) + "/"@,
    {
        let mut u = String::from_str("redis://");
        u.append(self.host.as_str());
        u.append(":");
        let p = crate::text::u64_to_string(self.port as u64);
        u.append(p.as_str());
        u.append("/");
        u
    }
}

/// One key-value server control task.
#[derive(Debug)]
pub struct MonographTxCtlTask {
    pub task_id: TaskId,
    pub ctl_cmd: TxCtlCmd,
}

impl MonographTxCtlTask {
    pub fn new(task_id: TaskId, ctl_cmd: TxCtlCmd) -> (r: MonographTxCtlTask)
        ensures
            r.task_id@ == task_id@,
            r.ctl_cmd@ == ctl_cmd@,
    {
        MonographTxCtlTask { task_id, ctl_cmd }
    }
}


/// The port of `hp` when it is exactly `host:port` with host `host`.
pub open spec fn port_on_host(hp: Seq<char>, host: Seq<char>) -> Option<Seq<char>> {
    let parts = split_on(hp, char_in(seq![':']));
    if parts.len() == 2 && parts[0] == host {
        Some(parts[1])
    } else {
        None
    }
}

/// The ports `hps` lists on `host`, in order.
pub open spec fn ports_on_host(hps: Seq<Seq<char>>, host: Seq<char>) -> Seq<Seq<char>>
    decreases hps.len(),
{
    if hps.len() == 0 {
        Seq::empty()
    } else {
        match port_on_host(hps.last(), host) {
            Some(p) => ports_on_host(hps.drop_last(), host).push(p),
            None => ports_on_host(hps.drop_last(), host),
        }
    }
}

/// The roles a server task can have, by name.
pub open spec fn known_role(role: Seq<char>) -> bool {
    role == "txservice"@ || role == "standby"@ || role == "voter"@ || role == "node"@
}

/// The ports a stop task on `host` stops: the current masters' ports there
/// for a tx server, the current replicas' for a standby, none for a voter,
/// the task's own port for a node.
pub open spec fn spec_matching_ports(role: Seq<char>, port: Seq<char>, host: Seq<char>, masters: Seq<Seq<char>>, replicas: Seq<Seq<char>>) -> Seq<Seq<char>> {
    if role == "txservice"@ {
        ports_on_host(masters, host)
    } else if role == "standby"@ {
        ports_on_host(replicas, host)
    } else if role == "voter"@ {
        Seq::empty()
    } else {
        seq![port]
    }
}

fn ports_of_host(hps: &Vec<String>, host: &str) -> (r: Vec<String>)
    ensures
        views(r@) == ports_on_host(views(hps@), host@),
{
    let seps = vec![':'];
    assert(seps@ =~= seq![':']);
    let mut r: Vec<String> = Vec::new();
    let mut i: usize = 0;
    while i < hps.len()
        invariant
            i <= hps.len(),
            seps@ == seq![':'],
            views(r@) == ports_on_host(views(hps@).subrange(0, i as int), host@),
        decreases hps.len() - i,
    {
        let ghost pre1 = views(hps@).subrange(0, i + 1);
        assert(pre1.drop_last() =~= views(hps@).subrange(0, i as int));
        assert(pre1.last() == hps@[i as int]@);
        let parts = split_chars(hps[i].as_str(), &seps);
        if parts.len() == 2 {
            assert(views(parts@)[0] == parts@[0]@);
            assert(views(parts@)[1] == parts@[1]@);
            if str_eq(parts[0].as_str(), host) {
                let ghost old = views(r@);
                r.push(parts[1].clone());
                assert(views(r@) =~= old.push(parts@[1]@));
            }
        }
        i = i + 1;
    }
    assert(views(hps@).subrange(0, hps.len() as int) =~= views(hps@));
    r
}

/// The ports a stop task of role `role` on `host` stops, given the current
/// masters and replicas as `host:port`.
pub fn matching_ports(role: &str, port: &str, host: &str, masters: &Vec<String>, replicas: &Vec<String>) -> (r: Vec<String>)
    requires
        known_role(role@),
    ensures
        views(r@) == spec_matching_ports(role@, port@, host@, views(masters@), views(replicas@)),
{
    if str_eq(role, "txservice") {
        ports_of_host(masters, host)
    } else if str_eq(role, "standby") {
        ports_of_host(replicas, host)
    } else if str_eq(role, "voter") {
        let r: Vec<String> = Vec::new();
        assert(views(r@) =~= Seq::<Seq<char>>::empty());
        r
    } else {
        let mut r: Vec<String> = Vec::new();
        r.push(String::from_str(port));
        assert(views(r@) =~= seq![port@]);
        r
    }
}

/// What `regex::Regex::new("grep \\d+").replace(cmd, rep)` returns: `cmd`
/// with its first `grep ` followed by digits replaced by `rep`.
pub uninterp spec fn regex_replace_grep_port(cmd: Seq<char>, rep: Seq<char>) -> Seq<char>;

/// Replaces, with `regex::Regex::replace`, the first match of `grep \d+` in
/// `cmd` by `rep`. The contract only names the result; which digits `\d`
/// accepts, and how `$` in `rep` expands, are left unsaid.
#[verifier::external_body]
fn replace_grep_port(cmd: &str, rep: &str) -> (r: String)
    ensures
        r@ == regex_replace_grep_port(cmd@, rep@),
{
    let re = regex::Regex::new(r"grep \d+").unwrap();
    re.replace(cmd, rep).to_string()
}

/// `grep -E '<p1|p2|...>'` for the ports `ports`.
pub open spec fn port_pattern(ports: Seq<Seq<char>>) -> Seq<char> {
    "grep -E '"@ + crate::text::join(ports, "|"@) + "'"@
}

/// The stop and status commands restricted to `ports`: their first
/// `grep <port>` replaced by a grep for any of the ports; `None` when there
/// are no ports to restrict to.
pub fn restrict_to_ports(stop_cmd: &str, status_cmd: &str, ports: &Vec<String>) -> (r: Option<(String, String)>)
    ensures
        ports@.len() == 0 ==> r is None,
        ports@.len() > 0 ==> (r matches Some((a, b)) && a@ == regex_replace_grep_port(stop_cmd@, port_pattern(views(ports@)))
            && b@ == regex_replace_grep_port(status_cmd@, port_pattern(views(ports@)))),
{
    if ports.len() == 0 {
        return None;
    }
    let mut pat = String::from_str("grep -E '");
    let j = crate::text::join_str(ports, "|");
    pat.append(j.as_str());
    pat.append("'");
    Some((replace_grep_port(stop_cmd, pat.as_str()), replace_grep_port(status_cmd, pat.as_str())))
}

/// What a key-value server status task reports for the pid it found.
pub fn tx_status_output(pid: &Option<String>) -> (r: String)
    ensures
        r@ == match pid {
            None => "\neloqkv service is down."@,
            Some(p) => "\neloqkv service is running, pid: "@ + p@ + "."@,
        },
{
    match pid {
        None => String::from_str("\neloqkv service is down."),
        Some(p) => {
            let mut s = String::from_str("\neloqkv service is running, pid: ");
            s.append(p.as_str());
            s.append(".");
            s
        },
    }
}

/// Whether the servers of subcommand `cmd` are stopped by force: a forced
/// stop, or a removal.
pub open spec fn force_stop_of(cmd: SubCommand) -> bool {
    match cmd {
        SubCommand::Stop { force } => force,
        SubCommand::Remove => true,
        _ => false,
    }
}

/// The control command of subcommand `cmd` for the server of `bin` on
/// `port`: none for a start (the deployment gives the start command), the
/// status command for a status, and the (forced) stop command for a stop
/// or a removal.
pub open spec fn spec_tx_ctl_cmd(cmd: SubCommand, user: Seq<char>, bin: Seq<char>, port: Seq<char>) -> Option<TxCmdView> {
    match cmd {
        SubCommand::Start => None,
        SubCommand::Status => Some(spec_tx_cmd(TxCtlKind::Status, user, bin, port)),
        _ => Some(if force_stop_of(cmd) {
            spec_tx_cmd(TxCtlKind::ForceStop, user, bin, port)
        } else {
            spec_tx_cmd(TxCtlKind::Stop, user, bin, port)
        }),
    }
}

/// The task of each server at `host_ports` (each `host:port`) for
/// subcommand `cmd`: its id and its control command (none for a start).
pub open spec fn spec_tx_ctl_tasks(cmd: SubCommand, t: ServerType, host_ports: Seq<Seq<char>>, user: Seq<char>, bin: Seq<char>) -> Seq<(Option<TaskIdView>, Option<TxCmdView>)> {
    host_ports.map_values(|hp: Seq<char>| (
        spec_tx_task_id(cmd, t, hp),
        match split_once(hp, ':') {
            Some((_, port)) => spec_tx_ctl_cmd(cmd, user, bin, port),
            None => None,
        },
    ))
}

pub open spec fn opt_tx_view(c: Option<TxCtlCmd>) -> Option<TxCmdView> {
    match c {
        Some(x) => Some(x@),
        None => None,
    }
}

pub open spec fn tx_plan_views(v: Seq<(TaskId, Option<TxCtlCmd>)>) -> Seq<(Option<TaskIdView>, Option<TxCmdView>)> {
    v.map_values(|p: (TaskId, Option<TxCtlCmd>)| (Some(p.0@), opt_tx_view(p.1)))
}

/// The tasks that run subcommand `cmd` (a start, status, stop or removal)
/// on the servers of role `t` at `host_ports`, run as `user` with the
/// server binary `bin`: one per server, in order; a start task carries no
/// command of its own.
pub fn tx_ctl_tasks(cmd: &SubCommand, t: &ServerType, host_ports: &Vec<String>, user: &str, bin: &str) -> (r: Vec<(TaskId, Option<TxCtlCmd>)>)
    requires
        cmd is Start || cmd is Status || cmd is Stop || cmd is Remove,
        forall|i: int| 0 <= i < host_ports@.len() ==> (#[trigger] host_ports@[i])@.contains(':'),
    ensures
        tx_plan_views(r@) == spec_tx_ctl_tasks(*cmd, *t, views(host_ports@), user@, bin@),
{
    let force = match cmd {
        SubCommand::Stop { force } => *force,
        SubCommand::Remove => true,
        _ => false,
    };
    let mut r: Vec<(TaskId, Option<TxCtlCmd>)> = Vec::new();
    let mut i: usize = 0;
    while i < host_ports.len()
        invariant
            i <= host_ports.len(),
            cmd is Start || cmd is Status || cmd is Stop || cmd is Remove,
            force == force_stop_of(*cmd),
            forall|k: int| 0 <= k < host_ports@.len() ==> (#[trigger] host_ports@[k])@.contains(':'),
            tx_plan_views(r@) == spec_tx_ctl_tasks(*cmd, *t, views(host_ports@).subrange(0, i as int), user@, bin@),
        decreases host_ports.len() - i,
    {
        let hp = host_ports[i].as_str();
        let id = match tx_task_id(cmd, t, hp) {
            Some(id) => id,
            None => {
                proof {
                    assert(host_ports@[i as int]@.contains(':'));
                }
                TaskId { cmd: String::new(), task: String::new(), host: String::new() }
            },
        };
        let port = match split_once_char(hp, ':') {
            Some((_, p)) => p,
            None => String::new(),
        };
        let c = match cmd {
            SubCommand::Start => None,
            SubCommand::Status => Some(TxCtlCmd::for_port(&TxCtlKind::Status, user, bin, port.as_str())),
            _ => {
                if force {
                    Some(TxCtlCmd::for_port(&TxCtlKind::ForceStop, user, bin, port.as_str()))
                } else {
                    Some(TxCtlCmd::for_port(&TxCtlKind::Stop, user, bin, port.as_str()))
                }
            },
        };
        let ghost e = (Some(id@), opt_tx_view(c));
        assert(e == (spec_tx_task_id(*cmd, *t, hp@), match split_once(hp@, ':') {
            Some((_, p)) => spec_tx_ctl_cmd(*cmd, user@, bin@, p),
            None => None,
        }));
        let ghost before = tx_plan_views(r@);
        r.push((id, c));
        assert(tx_plan_views(r@) =~= before.push(e));
        assert(views(host_ports@).subrange(0, i + 1) =~= views(host_ports@).subrange(0, i as int).push(host_ports@[i as int]@));
        i = i + 1;
    }
    assert(views(host_ports@).subrange(0, host_ports.len() as int) =~= views(host_ports@));
    r
}

} // verus!
