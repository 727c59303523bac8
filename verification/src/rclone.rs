//! rclone for a cloud EloqStore: the daemons EloqStore talks to, the remote
//! directory it stores data in, and the remote's configuration entry.
use vstd::prelude::*;
use crate::text::{views, split_once, split_once_char};
use crate::deploy::{DeployConfig, DssMode};
use crate::daemon::{CtlCmd, CtlCmdView, with_host, ctl_text, rclone_ps, rclone_ps_cmd};
use crate::monitor::port_text;
use crate::task::{SubCommand, TaskId};

verus! {

/// A control command for the rclone daemon of one port.
#[derive(Debug)]
pub enum RcloneCtlCmd {
    Start(String),
    Stop(String),
    ForceStop(String),
    Status(String),
}

impl View for RcloneCtlCmd {
    type V = CtlCmdView;

    open spec fn view(&self) -> CtlCmdView {
        match self {
            RcloneCtlCmd::Start(s) => CtlCmdView::Start(s@),
            RcloneCtlCmd::Stop(s) => CtlCmdView::Stop(s@),
            RcloneCtlCmd::ForceStop(s) => CtlCmdView::ForceStop(s@),
            RcloneCtlCmd::Status(s) => CtlCmdView::Status(s@),
        }
    }
}

pub open spec fn rclone_cmd_views(v: Seq<RcloneCtlCmd>) -> Seq<CtlCmdView> {
    v.map_values(|c: RcloneCtlCmd| c@)
}

pub open spec fn rclone_task_views(v: Seq<(String, RcloneCtlCmd)>) -> Seq<(Seq<char>, CtlCmdView)> {
    v.map_values(|p: (String, RcloneCtlCmd)| (p.0@, p.1@))
}

/// The part of `s` before its first `:`, or all of `s`.
pub open spec fn before_colon(s: Seq<char>) -> Seq<char> {
    match split_once(s, ':') {
        Some((h, _)) => h,
        None => s,
    }
}

pub fn before_colon_str(s: &str) -> (r: String)
    ensures
        r@ == before_colon(s@),
{
    match split_once_char(s, ':') {
        Some((h, _)) => h,
        None => String::from_str(s),
    }
}

pub open spec fn hosts_before_colon(v: Seq<Seq<char>>) -> Seq<Seq<char>> {
    v.map_values(|s: Seq<char>| before_colon(s))
}

pub(crate) fn hosts_of_peers(peers: &Vec<String>) -> (r: Vec<String>)
    ensures
        views(r@) == hosts_before_colon(views(peers@)),
{
    let mut r: Vec<String> = Vec::new();
    let mut i: usize = 0;
    while i < peers.len()
        invariant
            i <= peers.len(),
            views(r@) == hosts_before_colon(views(peers@)).subrange(0, i as int),
        decreases peers.len() - i,
    {
        let h = before_colon_str(peers[i].as_str());
        let ghost old_r = r@;
        r.push(h);
        assert(views(r@) =~= views(old_r).push(before_colon(peers@[i as int]@)));
        assert(hosts_before_colon(views(peers@)).subrange(0, i + 1) =~= hosts_before_colon(views(peers@)).subrange(0, i as int).push(before_colon(peers@[i as int]@)));
        i = i + 1;
    }
    assert(hosts_before_colon(views(peers@)).subrange(0, peers.len() as int) =~= hosts_before_colon(views(peers@)));
    r
}

/// Where the rclone daemons log.
pub open spec fn rclone_logs(tx_home: Seq<char>) -> Seq<char> {
    tx_home + "/logs/rclone"@
}

/// The command that starts the rclone daemon of `port`.
pub open spec fn rclone_start(tx_home: Seq<char>, port: u16) -> Seq<char> {
    "cd "@ + tx_home + "; mkdir -p "@ + rclone_logs(tx_home) + "; rclone rcd --rc-no-auth --rc-addr=127.0.0.1:"@
        + port_text(port)
        + " --transfers=16 --checkers=16 --s3-upload-concurrency=8 --s3-chunk-size=8M --fast-list -v > "@
        + rclone_logs(tx_home) + "/rclone-"@ + port_text(port) + ".log 2>&1 &"@
}

/// The control commands of the daemon on `port` for subcommand `cmd`: start
/// it (start, launch, install), stop it (`kill -9` when forced or when
/// removing), always followed by a status check; status alone checks.
pub open spec fn rclone_port_cmds(cmd: SubCommand, user: Seq<char>, tx_home: Seq<char>, port: u16) -> Seq<CtlCmdView> {
    let ps = rclone_ps(user, port_text(port));
    match cmd {
        SubCommand::Start | SubCommand::Launch | SubCommand::Install => seq![
            CtlCmdView::Start(rclone_start(tx_home, port)),
            CtlCmdView::Status(ps),
        ],
        SubCommand::Stop { force } => seq![
            if force {
                CtlCmdView::ForceStop(ps + " | xargs -r kill -9"@)
            } else {
                CtlCmdView::Stop(ps + " | xargs -r kill"@)
            },
            CtlCmdView::Status(ps),
        ],
        SubCommand::Status => seq![CtlCmdView::Status(ps)],
        SubCommand::Remove => seq![CtlCmdView::ForceStop(ps + " | xargs -r kill -9"@), CtlCmdView::Status(ps)],
        SubCommand::Other(_) => Seq::empty(),
    }
}

/// The control commands for host `h`, port by port.
pub open spec fn rclone_host_tasks(h: Seq<char>, ports: Seq<u16>, cmd: SubCommand, user: Seq<char>, tx_home: Seq<char>) -> Seq<(Seq<char>, CtlCmdView)>
    decreases ports.len(),
{
    if ports.len() == 0 {
        Seq::empty()
    } else {
        rclone_host_tasks(h, ports.drop_last(), cmd, user, tx_home) + with_host(h, rclone_port_cmds(cmd, user, tx_home, ports.last()))
    }
}

/// The control commands for every host, host by host.
pub open spec fn rclone_tasks(hosts: Seq<Seq<char>>, ports: Seq<u16>, cmd: SubCommand, user: Seq<char>, tx_home: Seq<char>) -> Seq<(Seq<char>, CtlCmdView)>
    decreases hosts.len(),
{
    if hosts.len() == 0 {
        Seq::empty()
    } else {
        rclone_tasks(hosts.drop_last(), ports, cmd, user, tx_home) + rclone_host_tasks(hosts.last(), ports, cmd, user, tx_home)
    }
}

/// The hosts and ports of the rclone daemons a deployment manages: only for
/// a cloud EloqStore with daemon ports; the tx hosts when the data store
/// service is local, its own hosts when remote and managed, none when
/// external.
pub open spec fn rclone_daemons(cfg: DeployConfig) -> Option<(Seq<Seq<char>>, Seq<u16>)> {
    match cfg.storage_service {
        Some(s) => match s.eloqdss {
            Some(d) => if !d.eloq_store.cloud_mode || d.eloq_store.daemon_ports@.len() == 0 {
                None
            } else {
                match d.mode {
                    DssMode::Local => Some((views(cfg.unique_hosts@), d.eloq_store.daemon_ports@)),
                    DssMode::RemoteInternal => match d.peer_host_ports {
                        Some(p) => Some((hosts_before_colon(views(p@)), d.eloq_store.daemon_ports@)),
                        None => None,
                    },
                    DssMode::RemoteExternal => None,
                }
            },
            None => None,
        },
        None => None,
    }
}

/// Every (host, command) pair the rclone control tasks of `cmd` run.
pub open spec fn spec_rclone_build(cfg: DeployConfig, cmd: SubCommand) -> Seq<(Seq<char>, CtlCmdView)> {
    match rclone_daemons(cfg) {
        Some((hosts, ports)) => rclone_tasks(hosts, ports, cmd, cfg.connection.username@, cfg.tx_home@),
        None => Seq::empty(),
    }
}

fn rclone_start_cmd(tx_home: &str, port: u16) -> (r: String)
    ensures
        r@ == rclone_start(tx_home@, port),
{
    let mut logs = String::from_str(tx_home);
    logs.append("/logs/rclone");
    let p = crate::text::u64_to_string(port as u64);
    let mut c = String::from_str("cd ");
    c.append(tx_home);
    c.append("; mkdir -p ");
    c.append(logs.as_str());
    c.append("; rclone rcd --rc-no-auth --rc-addr=127.0.0.1:");
    c.append(p.as_str());
    c.append(" --transfers=16 --checkers=16 --s3-upload-concurrency=8 --s3-chunk-size=8M --fast-list -v > ");
    c.append(logs.as_str());
    c.append("/rclone-");
    c.append(p.as_str());
    c.append(".log 2>&1 &");
    c
}

fn with_suffix(s: &String, suffix: &str) -> (r: String)
    ensures
        r@ == s@ + suffix@,
{
    let mut r = s.clone();
    r.append(suffix);
    r
}

fn rclone_port_commands(cmd: &SubCommand, user: &str, tx_home: &str, port: u16) -> (r: Vec<RcloneCtlCmd>)
    ensures
        rclone_cmd_views(r@) == rclone_port_cmds(*cmd, user@, tx_home@, port),
{
    let p = crate::text::u64_to_string(port as u64);
    let ps = rclone_ps_cmd(user, p.as_str());
    let mut r: Vec<RcloneCtlCmd> = Vec::new();
    match cmd {
        SubCommand::Start | SubCommand::Launch | SubCommand::Install => {
            r.push(RcloneCtlCmd::Start(rclone_start_cmd(tx_home, port)));
            r.push(RcloneCtlCmd::Status(ps));
        },
        SubCommand::Stop { force } => {
            if *force {
                r.push(RcloneCtlCmd::ForceStop(with_suffix(&ps, " | xargs -r kill -9")));
            } else {
                r.push(RcloneCtlCmd::Stop(with_suffix(&ps, " | xargs -r kill")));
            }
            r.push(RcloneCtlCmd::Status(ps));
        },
        SubCommand::Status => {
            r.push(RcloneCtlCmd::Status(ps));
        },
        SubCommand::Remove => {
            r.push(RcloneCtlCmd::ForceStop(with_suffix(&ps, " | xargs -r kill -9")));
            r.push(RcloneCtlCmd::Status(ps));
        },
        SubCommand::Other(_) => {},
    }
    assert(rclone_cmd_views(r@) =~= rclone_port_cmds(*cmd, user@, tx_home@, port));
    r
}

fn clone_ctl(c: &RcloneCtlCmd) -> (r: RcloneCtlCmd)
    ensures
        r@ == c@,
{
    match c {
        RcloneCtlCmd::Start(s) => RcloneCtlCmd::Start(s.clone()),
        RcloneCtlCmd::Stop(s) => RcloneCtlCmd::Stop(s.clone()),
        RcloneCtlCmd::ForceStop(s) => RcloneCtlCmd::ForceStop(s.clone()),
        RcloneCtlCmd::Status(s) => RcloneCtlCmd::Status(s.clone()),
    }
}

impl RcloneCtlCmd {
    /// The same command as a generic control command.
    pub fn to_ctl(&self) -> (r: CtlCmd)
        ensures
            r@ == self@,
    {
        match self {
            RcloneCtlCmd::Start(s) => CtlCmd::Start(s.clone()),
            RcloneCtlCmd::Stop(s) => CtlCmd::Stop(s.clone()),
            RcloneCtlCmd::ForceStop(s) => CtlCmd::ForceStop(s.clone()),
            RcloneCtlCmd::Status(s) => CtlCmd::Status(s.clone()),
        }
    }

    /// The text of the command.
    pub fn cmd_value(&self) -> (r: String)
        ensures
            r@ == ctl_text(self@),
    {
        match self {
            RcloneCtlCmd::Start(c) => c.clone(),
            RcloneCtlCmd::Stop(c) => c.clone(),
            RcloneCtlCmd::ForceStop(c) => c.clone(),
            RcloneCtlCmd::Status(c) => c.clone(),
        }
    }

    /// The (host, command) pairs that control the rclone daemons of a cloud
    /// EloqStore for subcommand `cmd`.
    pub fn build_cmd(config: &DeployConfig, cmd: &SubCommand) -> (r: Vec<(String, RcloneCtlCmd)>)
        ensures
            rclone_task_views(r@) == spec_rclone_build(*config, *cmd),
    {
        let mut tasks: Vec<(String, RcloneCtlCmd)> = Vec::new();
        let storage = match &config.storage_service {
            Some(s) => s,
            None => return tasks,
        };
        let dss = match &storage.eloqdss {
            Some(d) => d,
            None => return tasks,
        };
        if !dss.eloq_store.cloud_mode || dss.eloq_store.daemon_ports.len() == 0 {
            assert(rclone_task_views(tasks@) =~= Seq::<(Seq<char>, CtlCmdView)>::empty());
            return tasks;
        }
        let hosts = match &dss.mode {
            DssMode::Local => crate::rolling::clone_strings(&config.unique_hosts),
            DssMode::RemoteInternal => match &dss.peer_host_ports {
                Some(p) => hosts_of_peers(p),
                None => return tasks,
            },
            DssMode::RemoteExternal => return tasks,
        };
        let ports = &dss.eloq_store.daemon_ports;
        let user = config.connection.username.as_str();
        let tx_home = config.tx_home.as_str();
        let ghost hv = views(hosts@);
        let ghost pv = ports@;
        let mut i: usize = 0;
        while i < hosts.len()
            invariant
                i <= hosts.len(),
                hv == views(hosts@),
                pv == ports@,
                rclone_task_views(tasks@) == rclone_tasks(hv.subrange(0, i as int), pv, *cmd, user@, tx_home@),
            decreases hosts.len() - i,
        {
            let ghost base = rclone_task_views(tasks@);
            let mut j: usize = 0;
            while j < ports.len()
                invariant
                    i < hosts.len(),
                    j <= ports.len(),
                    hv == views(hosts@),
                    pv == ports@,
                    rclone_task_views(tasks@) == base + rclone_host_tasks(hv[i as int], pv.subrange(0, j as int), *cmd, user@, tx_home@),
                decreases ports.len() - j,
            {
                let cmds = rclone_port_commands(cmd, user, tx_home, ports[j]);
                let ghost before = rclone_task_views(tasks@);
                let mut k: usize = 0;
                while k < cmds.len()
                    invariant
                        i < hosts.len(),
                        k <= cmds.len(),
                        hv == views(hosts@),
                        rclone_task_views(tasks@) == before + with_host(hv[i as int], rclone_cmd_views(cmds@).subrange(0, k as int)),
                    decreases cmds.len() - k,
                {
                    let ghost old_t = tasks@;
                    tasks.push((hosts[i].clone(), clone_ctl(&cmds[k])));
                    assert(rclone_task_views(tasks@) =~= rclone_task_views(old_t).push((hv[i as int], cmds@[k as int]@)));
                    assert(with_host(hv[i as int], rclone_cmd_views(cmds@).subrange(0, k + 1)) =~= with_host(hv[i as int], rclone_cmd_views(cmds@).subrange(0, k as int)).push((hv[i as int], cmds@[k as int]@)));
                    k = k + 1;
                }
                assert(rclone_cmd_views(cmds@).subrange(0, cmds.len() as int) =~= rclone_cmd_views(cmds@));
                assert(pv.subrange(0, j + 1).drop_last() =~= pv.subrange(0, j as int));
                assert(rclone_host_tasks(hv[i as int], pv.subrange(0, j + 1), *cmd, user@, tx_home@) =~= rclone_host_tasks(hv[i as int], pv.subrange(0, j as int), *cmd, user@, tx_home@) + with_host(hv[i as int], rclone_port_cmds(*cmd, user@, tx_home@, pv[j as int])));
                j = j + 1;
            }
            assert(pv.subrange(0, ports.len() as int) =~= pv);
            assert(hv.subrange(0, i + 1).drop_last() =~= hv.subrange(0, i as int));
            i = i + 1;
        }
        assert(hv.subrange(0, hosts.len() as int) =~= hv);
        tasks
    }
}

/// One rclone control task: it runs the commands of its host.
#[derive(Debug)]
pub struct RcloneCtlTask {
    pub task_id: TaskId,
    pub ctl_cmd_by_host: Vec<(String, RcloneCtlCmd)>,
}

impl RcloneCtlTask {
    pub fn new(task_id: TaskId, ctl_cmd_by_host: Vec<(String, RcloneCtlCmd)>) -> (r: RcloneCtlTask)
        ensures
            r.task_id@ == task_id@,
            rclone_task_views(r.ctl_cmd_by_host@) == rclone_task_views(ctl_cmd_by_host@),
    {
        RcloneCtlTask { task_id, ctl_cmd_by_host }
    }
}


impl RcloneCtlTask {
    /// The control commands addressed to the host the commands run on.
    pub fn commands_for_host(&self) -> (r: Vec<CtlCmd>)
        ensures
            crate::daemon::ctl_views(r@) == crate::daemon::cmds_for(self.task_id.host@, rclone_task_views(self.ctl_cmd_by_host@)),
    {
        let pairs = &self.ctl_cmd_by_host;
        let mut r: Vec<CtlCmd> = Vec::new();
        let mut i: usize = 0;
        while i < pairs.len()
            invariant
                i <= pairs.len(),
                crate::daemon::ctl_views(r@) == crate::daemon::cmds_for(self.task_id.host@, rclone_task_views(pairs@).subrange(0, i as int)),
            decreases pairs.len() - i,
        {
            let ghost pre1 = rclone_task_views(pairs@).subrange(0, i + 1);
            assert(pre1.drop_last() =~= rclone_task_views(pairs@).subrange(0, i as int));
            assert(pre1.last() == (pairs@[i as int].0@, pairs@[i as int].1@));
            if pairs[i].0 == self.task_id.host {
                let c = pairs[i].1.to_ctl();
                let ghost old_r = r@;
                r.push(c);
                assert(crate::daemon::ctl_views(r@) =~= crate::daemon::ctl_views(old_r).push(c@));
            }
            i = i + 1;
        }
        assert(rclone_task_views(pairs@).subrange(0, pairs.len() as int) =~= rclone_task_views(pairs@));
        r
    }
}


/// A command on the rclone remote directory of a cloud EloqStore.
#[derive(Debug)]
pub enum RcloneDirCmd {
    Mkdir(String),
    Purge(String),
    Rmdir(String),
}

pub enum DirCmdView {
    Mkdir(Seq<char>),
    Purge(Seq<char>),
    Rmdir(Seq<char>),
}

impl View for RcloneDirCmd {
    type V = DirCmdView;

    open spec fn view(&self) -> DirCmdView {
        match self {
            RcloneDirCmd::Mkdir(s) => DirCmdView::Mkdir(s@),
            RcloneDirCmd::Purge(s) => DirCmdView::Purge(s@),
            RcloneDirCmd::Rmdir(s) => DirCmdView::Rmdir(s@),
        }
    }
}

pub open spec fn dir_text(c: DirCmdView) -> Seq<char> {
    match c {
        DirCmdView::Mkdir(s) => s,
        DirCmdView::Purge(s) => s,
        DirCmdView::Rmdir(s) => s,
    }
}

pub open spec fn dir_task_views(v: Seq<(String, RcloneDirCmd)>) -> Seq<(Seq<char>, DirCmdView)> {
    v.map_values(|p: (String, RcloneDirCmd)| (p.0@, p.1@))
}

/// The remote name and path of a cloud EloqStore whose cloud store path has
/// the `remote:path` form.
pub open spec fn cloud_remote(cfg: DeployConfig) -> Option<(Seq<char>, Seq<char>)> {
    match cfg.storage_service {
        Some(s) => match s.eloqdss {
            Some(d) => if d.eloq_store.cloud_mode {
                match d.eloq_store.cloud_store_path {
                    Some((remote, path)) => Some((remote@, path@)),
                    None => None,
                }
            } else {
                None
            },
            None => None,
        },
        None => None,
    }
}

/// The directory commands of subcommand `cmd`, each with `remote:path`:
/// create the directory on launch and install, empty and remove it on
/// removal.
pub open spec fn spec_dir_build(cfg: DeployConfig, cmd: SubCommand) -> Seq<(Seq<char>, DirCmdView)> {
    match cloud_remote(cfg) {
        Some((remote, path)) => {
            let rp = remote + ":"@ + path;
            match cmd {
                SubCommand::Launch | SubCommand::Install => seq![(rp, DirCmdView::Mkdir("rclone mkdir "@ + rp))],
                SubCommand::Remove => seq![
                    (rp, DirCmdView::Purge("rclone purge "@ + rp)),
                    (rp, DirCmdView::Rmdir("rclone rmdir "@ + rp)),
                ],
                _ => Seq::empty(),
            }
        },
        None => Seq::empty(),
    }
}

/// `remote:path` of a cloud EloqStore, as the rclone commands name it.
fn cloud_remote_path(config: &DeployConfig) -> (r: Option<(String, String)>)
    ensures
        match r {
            Some((remote, path)) => cloud_remote(*config) == Some((remote@, path@)),
            None => cloud_remote(*config) is None,
        },
{
    match &config.storage_service {
        Some(s) => match &s.eloqdss {
            Some(d) => {
                if !d.eloq_store.cloud_mode {
                    return None;
                }
                match &d.eloq_store.cloud_store_path {
                    Some((remote, path)) => Some((remote.clone(), path.clone())),
                    None => None,
                }
            },
            None => None,
        },
        None => None,
    }
}

fn prefixed(prefix: &str, s: &str) -> (r: String)
    ensures
        r@ == prefix@ + s@,
{
    let mut r = String::from_str(prefix);
    r.append(s);
    r
}

impl RcloneDirCmd {
    /// The text of the command.
    pub fn cmd_value(&self) -> (r: String)
        ensures
            r@ == dir_text(self@),
    {
        match self {
            RcloneDirCmd::Mkdir(c) => c.clone(),
            RcloneDirCmd::Purge(c) => c.clone(),
            RcloneDirCmd::Rmdir(c) => c.clone(),
        }
    }

    /// The name of the command's kind, as task names use it.
    pub fn kind_name(&self) -> (r: &'static str)
        ensures
            r@ == match self@ {
                DirCmdView::Mkdir(_) => "mkdir"@,
                DirCmdView::Purge(_) => "purge"@,
                DirCmdView::Rmdir(_) => "rmdir"@,
            },
    {
        match self {
            RcloneDirCmd::Mkdir(_) => "mkdir",
            RcloneDirCmd::Purge(_) => "purge",
            RcloneDirCmd::Rmdir(_) => "rmdir",
        }
    }

    /// The directory commands of subcommand `cmd`, each with the
    /// `remote:path` it works on.
    pub fn build_cmd(config: &DeployConfig, cmd: &SubCommand) -> (r: Vec<(String, RcloneDirCmd)>)
        ensures
            dir_task_views(r@) == spec_dir_build(*config, *cmd),
    {
        let mut tasks: Vec<(String, RcloneDirCmd)> = Vec::new();
        let (remote, path) = match cloud_remote_path(config) {
            Some(rp) => rp,
            None => {
                assert(dir_task_views(tasks@) =~= spec_dir_build(*config, *cmd));
                return tasks;
            },
        };
        let mut rp = remote.clone();
        rp.append(":");
        rp.append(path.as_str());
        match cmd {
            SubCommand::Launch | SubCommand::Install => {
                tasks.push((rp.clone(), RcloneDirCmd::Mkdir(prefixed("rclone mkdir ", rp.as_str()))));
            },
            SubCommand::Remove => {
                tasks.push((rp.clone(), RcloneDirCmd::Purge(prefixed("rclone purge ", rp.as_str()))));
                tasks.push((rp.clone(), RcloneDirCmd::Rmdir(prefixed("rclone rmdir ", rp.as_str()))));
            },
            _ => {},
        }
        assert(dir_task_views(tasks@) =~= spec_dir_build(*config, *cmd));
        tasks
    }
}

/// The one host the directory commands run on: the first host of the
/// deployment when the data store service is local, the host of its first
/// peer when remote and managed; none otherwise.
pub open spec fn spec_dir_host(cfg: DeployConfig) -> Option<Seq<char>> {
    match cfg.storage_service {
        Some(s) => match s.eloqdss {
            Some(d) => match d.mode {
                DssMode::Local => if cfg.unique_hosts@.len() > 0 { Some(cfg.unique_hosts@[0]@) } else { None },
                DssMode::RemoteInternal => match d.peer_host_ports {
                    Some(p) => if p@.len() > 0 { Some(before_colon(p@[0]@)) } else { None },
                    None => None,
                },
                DssMode::RemoteExternal => None,
            },
            None => None,
        },
        None => None,
    }
}

/// The host the rclone directory commands run on.
pub fn rclone_dir_host(config: &DeployConfig) -> (r: Option<String>)
    ensures
        crate::daemon::opt_text(r) == spec_dir_host(*config),
{
    match &config.storage_service {
        Some(s) => match &s.eloqdss {
            Some(d) => match &d.mode {
                DssMode::Local => if config.unique_hosts.len() > 0 {
                    Some(config.unique_hosts[0].clone())
                } else {
                    None
                },
                DssMode::RemoteInternal => match &d.peer_host_ports {
                    Some(p) => if p.len() > 0 {
                        Some(before_colon_str(p[0].as_str()))
                    } else {
                        None
                    },
                    None => None,
                },
                DssMode::RemoteExternal => None,
            },
            None => None,
        },
        None => None,
    }
}

/// The name of the directory task for `cmd` on `path_key` at `host`:
/// `<kind>@<path>@<host>`.
pub fn rclone_dir_task_name(cmd: &RcloneDirCmd, path_key: &str, host: &str) -> (r: String)
    ensures
        r@ == (match cmd@ {
            DirCmdView::Mkdir(_) => "mkdir"@,
            DirCmdView::Purge(_) => "purge"@,
            DirCmdView::Rmdir(_) => "rmdir"@,
        }) + "@"@ + path_key@ + "@"@ + host@,
{
    let mut r = String::from_str(cmd.kind_name());
    r.append("@");
    r.append(path_key);
    r.append("@");
    r.append(host);
    r
}

/// A command on the rclone configuration of a cloud EloqStore's remote.
#[derive(Debug)]
pub enum RcloneConfigCmd {
    Create(String),
    Delete(String),
}

pub enum ConfigCmdView {
    Create(Seq<char>),
    Delete(Seq<char>),
}

impl View for RcloneConfigCmd {
    type V = ConfigCmdView;

    open spec fn view(&self) -> ConfigCmdView {
        match self {
            RcloneConfigCmd::Create(s) => ConfigCmdView::Create(s@),
            RcloneConfigCmd::Delete(s) => ConfigCmdView::Delete(s@),
        }
    }
}

pub open spec fn config_task_views(v: Seq<(String, RcloneConfigCmd)>) -> Seq<(Seq<char>, ConfigCmdView)> {
    v.map_values(|p: (String, RcloneConfigCmd)| (p.0@, p.1@))
}

/// The `rclone config create` command of `remote` for cloud settings `c`.
pub open spec fn config_create(remote: Seq<char>, c: crate::deploy::CloudConfig) -> Seq<char> {
    "rclone config create "@ + remote + " "@ + c.cloud_type@ + " provider "@ + c.cloud_provider@
        + " env_auth false access_key_id "@ + c.access_key_id@ + " secret_access_key "@ + c.secret_access_key@
        + " endpoint "@ + c.endpoint@ + " acl private"@
}

/// The configuration commands of subcommand `cmd`, each with the remote
/// name: create the remote on launch and install, delete it on removal.
pub open spec fn spec_config_build(cfg: DeployConfig, cmd: SubCommand) -> Seq<(Seq<char>, ConfigCmdView)> {
    match cfg.storage_service {
        Some(s) => match s.eloqdss {
            Some(d) => if !d.eloq_store.cloud_mode {
                Seq::empty()
            } else {
                match d.eloq_store.cloud_store_path {
                    Some((remote, _)) => match d.eloq_store.cloud_config {
                        Some(c) => match cmd {
                            SubCommand::Launch | SubCommand::Install => seq![(remote@, ConfigCmdView::Create(config_create(remote@, c)))],
                            SubCommand::Remove => seq![(remote@, ConfigCmdView::Delete("rclone config delete "@ + remote@))],
                            _ => Seq::empty(),
                        },
                        None => Seq::empty(),
                    },
                    None => Seq::empty(),
                }
            },
            None => Seq::empty(),
        },
        None => Seq::empty(),
    }
}

impl RcloneConfigCmd {
    /// The text of the command.
    pub fn cmd_value(&self) -> (r: String)
        ensures
            r@ == match self@ {
                ConfigCmdView::Create(s) => s,
                ConfigCmdView::Delete(s) => s,
            },
    {
        match self {
            RcloneConfigCmd::Create(c) => c.clone(),
            RcloneConfigCmd::Delete(c) => c.clone(),
        }
    }

    /// The configuration commands of subcommand `cmd`, each with the remote
    /// it configures.
    pub fn build_cmd(config: &DeployConfig, cmd: &SubCommand) -> (r: Vec<(String, RcloneConfigCmd)>)
        ensures
            config_task_views(r@) == spec_config_build(*config, *cmd),
    {
        let mut tasks: Vec<(String, RcloneConfigCmd)> = Vec::new();
        assert(config_task_views(tasks@) =~= Seq::<(Seq<char>, ConfigCmdView)>::empty());
        let s = match &config.storage_service {
            Some(s) => s,
            None => return tasks,
        };
        let d = match &s.eloqdss {
            Some(d) => d,
            None => return tasks,
        };
        if !d.eloq_store.cloud_mode {
            return tasks;
        }
        let remote = match &d.eloq_store.cloud_store_path {
            Some((remote, _)) => remote,
            None => return tasks,
        };
        let c = match &d.eloq_store.cloud_config {
            Some(c) => c,
            None => return tasks,
        };
        match cmd {
            SubCommand::Launch | SubCommand::Install => {
                let mut t = String::from_str("rclone config create ");
                t.append(remote.as_str());
                t.append(" ");
                t.append(c.cloud_type.as_str());
                t.append(" provider ");
                t.append(c.cloud_provider.as_str());
                t.append(" env_auth false access_key_id ");
                t.append(c.access_key_id.as_str());
                t.append(" secret_access_key ");
                t.append(c.secret_access_key.as_str());
                t.append(" endpoint ");
                t.append(c.endpoint.as_str());
                t.append(" acl private");
                tasks.push((remote.clone(), RcloneConfigCmd::Create(t)));
            },
            SubCommand::Remove => {
                tasks.push((remote.clone(), RcloneConfigCmd::Delete(prefixed("rclone config delete ", remote.as_str()))));
            },
            _ => {},
        }
        assert(config_task_views(tasks@) =~= spec_config_build(*config, *cmd));
        tasks
    }
}


impl RcloneCtlTask {
    /// The hosts that get a control task: those of `pairs`, each once, in
    /// order of first appearance.
    pub fn task_hosts(pairs: &Vec<(String, RcloneCtlCmd)>) -> (r: Vec<String>)
        ensures
            views(r@) == crate::text::dedup(rclone_task_views(pairs@).map_values(|p: (Seq<char>, CtlCmdView)| p.0)),
    {
        let ghost pv = rclone_task_views(pairs@).map_values(|p: (Seq<char>, CtlCmdView)| p.0);
        let mut hosts: Vec<String> = Vec::new();
        let mut i: usize = 0;
        while i < pairs.len()
            invariant
                i <= pairs.len(),
                pv == rclone_task_views(pairs@).map_values(|p: (Seq<char>, CtlCmdView)| p.0),
                views(hosts@) == pv.subrange(0, i as int),
            decreases pairs.len() - i,
        {
            let ghost old = views(hosts@);
            hosts.push(pairs[i].0.clone());
            assert(views(hosts@) =~= old.push(pairs@[i as int].0@));
            assert(pv.subrange(0, i + 1) =~= pv.subrange(0, i as int).push(pv[i as int]));
            i = i + 1;
        }
        assert(pv.subrange(0, pairs.len() as int) =~= pv);
        crate::text::dedup_strings(&hosts)
    }
}


/// A directory command on the rclone remote, run on one host.
#[derive(Debug)]
pub struct RcloneDirTask {
    pub cmd: RcloneDirCmd,
    pub task_id: TaskId,
}

pub open spec fn dir_kind_name(c: DirCmdView) -> Seq<char> {
    match c {
        DirCmdView::Mkdir(_) => "mkdir"@,
        DirCmdView::Purge(_) => "purge"@,
        DirCmdView::Rmdir(_) => "rmdir"@,
    }
}

/// The task of directory command `p` (its `remote:path` and command) on host `h`.
pub open spec fn dir_task_entry(h: Seq<char>, p: (Seq<char>, DirCmdView)) -> (crate::task::TaskIdView, DirCmdView) {
    (crate::task::TaskIdView { cmd: "rclone_dir"@, task: dir_kind_name(p.1) + "@"@ + p.0 + "@"@ + h, host: h }, p.1)
}

/// The directory tasks of subcommand `cmd`: each directory command on the
/// one host chosen for them, named `<kind>@<remote:path>@<host>`.
pub open spec fn spec_dir_tasks(cfg: DeployConfig, cmd: SubCommand) -> Seq<(crate::task::TaskIdView, DirCmdView)> {
    match spec_dir_host(cfg) {
        Some(h) => spec_dir_build(cfg, cmd).map_values(|p: (Seq<char>, DirCmdView)| dir_task_entry(h, p)),
        None => Seq::empty(),
    }
}

fn clone_dir(c: &RcloneDirCmd) -> (r: RcloneDirCmd)
    ensures
        r@ == c@,
{
    match c {
        RcloneDirCmd::Mkdir(s) => RcloneDirCmd::Mkdir(s.clone()),
        RcloneDirCmd::Purge(s) => RcloneDirCmd::Purge(s.clone()),
        RcloneDirCmd::Rmdir(s) => RcloneDirCmd::Rmdir(s.clone()),
    }
}

impl RcloneDirTask {
    /// The directory tasks of subcommand `cmd`.
    pub fn build_tasks(config: &DeployConfig, cmd: &SubCommand) -> (r: Vec<RcloneDirTask>)
        ensures
            r@.map_values(|t: RcloneDirTask| (t.task_id@, t.cmd@)) == spec_dir_tasks(*config, *cmd),
    {
        let mut out: Vec<RcloneDirTask> = Vec::new();
        let cmds = RcloneDirCmd::build_cmd(config, cmd);
        let host = match rclone_dir_host(config) {
            Some(h) => h,
            None => {
                assert(out@.map_values(|t: RcloneDirTask| (t.task_id@, t.cmd@)) =~= spec_dir_tasks(*config, *cmd));
                return out;
            },
        };
        let ghost cv = dir_task_views(cmds@);
        let ghost f = |p: (Seq<char>, DirCmdView)| dir_task_entry(host@, p);
        let mut i: usize = 0;
        while i < cmds.len()
            invariant
                i <= cmds.len(),
                cv == dir_task_views(cmds@),
                f == (|p: (Seq<char>, DirCmdView)| dir_task_entry(host@, p)),
                out@.map_values(|t: RcloneDirTask| (t.task_id@, t.cmd@)) == cv.subrange(0, i as int).map_values(f),
            decreases cmds.len() - i,
        {
            let name = rclone_dir_task_name(&cmds[i].1, cmds[i].0.as_str(), host.as_str());
            let t = RcloneDirTask {
                cmd: clone_dir(&cmds[i].1),
                task_id: TaskId { cmd: String::from_str("rclone_dir"), task: name, host: host.clone() },
            };
            assert(cv[i as int] == (cmds@[i as int].0@, cmds@[i as int].1@));
            assert(t.task_id@.task == dir_kind_name(cv[i as int].1) + "@"@ + cv[i as int].0 + "@"@ + host@);
            assert((t.task_id@, t.cmd@) == f(cv[i as int]));
            let ghost old = out@.map_values(|t: RcloneDirTask| (t.task_id@, t.cmd@));
            out.push(t);
            assert(out@.last() == t);
            assert(out@.map_values(|t: RcloneDirTask| (t.task_id@, t.cmd@)) =~= old.push(f(cv[i as int])));
            assert(cv.subrange(0, i + 1).map_values(f) =~= cv.subrange(0, i as int).map_values(f).push(f(cv[i as int])));
            i = i + 1;
        }
        assert(cv.subrange(0, cmds.len() as int) =~= cv);
        out
    }
}

/// The hosts the rclone configuration is written on: the tx hosts when the
/// data store service is local, its own hosts when remote and managed,
/// none otherwise.
pub open spec fn spec_config_hosts(cfg: DeployConfig) -> Seq<Seq<char>> {
    match cfg.storage_service {
        Some(s) => match s.eloqdss {
            Some(d) => match d.mode {
                DssMode::Local => views(cfg.unique_hosts@),
                DssMode::RemoteInternal => match d.peer_host_ports {
                    Some(p) => hosts_before_colon(views(p@)),
                    None => Seq::empty(),
                },
                DssMode::RemoteExternal => Seq::empty(),
            },
            None => Seq::empty(),
        },
        None => Seq::empty(),
    }
}

fn config_hosts(config: &DeployConfig) -> (r: Vec<String>)
    ensures
        views(r@) == spec_config_hosts(*config),
{
    let empty: Vec<String> = Vec::new();
    assert(views(empty@) =~= Seq::<Seq<char>>::empty());
    match &config.storage_service {
        Some(s) => match &s.eloqdss {
            Some(d) => match &d.mode {
                DssMode::Local => crate::rolling::clone_strings(&config.unique_hosts),
                DssMode::RemoteInternal => match &d.peer_host_ports {
                    Some(p) => hosts_of_peers(p),
                    None => empty,
                },
                DssMode::RemoteExternal => empty,
            },
            None => empty,
        },
        None => empty,
    }
}

/// A configuration command for the rclone remote, run on one host.
#[derive(Debug)]
pub struct RcloneConfigTask {
    pub cmd: RcloneConfigCmd,
    pub task_id: TaskId,
}

/// The configuration tasks of one command on every host, each host once,
/// named `<remote>@<host>`.
pub open spec fn config_tasks_for(remote: Seq<char>, c: ConfigCmdView, hosts: Seq<Seq<char>>) -> Seq<(crate::task::TaskIdView, ConfigCmdView)> {
    hosts.map_values(|h: Seq<char>| (crate::task::TaskIdView { cmd: "rclone_config"@, task: remote + "@"@ + h, host: h }, c))
}

/// The configuration tasks of subcommand `cmd`.
pub open spec fn spec_config_tasks(cfg: DeployConfig, cmd: SubCommand) -> Seq<(crate::task::TaskIdView, ConfigCmdView)> {
    let cs = spec_config_build(cfg, cmd);
    let hosts = crate::text::dedup(spec_config_hosts(cfg));
    if cs.len() == 0 {
        Seq::empty()
    } else {
        config_tasks_for(cs[0].0, cs[0].1, hosts)
    }
}

fn clone_config_cmd(c: &RcloneConfigCmd) -> (r: RcloneConfigCmd)
    ensures
        r@ == c@,
{
    match c {
        RcloneConfigCmd::Create(s) => RcloneConfigCmd::Create(s.clone()),
        RcloneConfigCmd::Delete(s) => RcloneConfigCmd::Delete(s.clone()),
    }
}

impl RcloneConfigTask {
    /// The configuration tasks of subcommand `cmd`: the one configuration
    /// command on every host that uses rclone, each host once.
    pub fn build_tasks(config: &DeployConfig, cmd: &SubCommand) -> (r: Vec<RcloneConfigTask>)
        ensures
            r@.map_values(|t: RcloneConfigTask| (t.task_id@, t.cmd@)) == spec_config_tasks(*config, *cmd),
    {
        let mut out: Vec<RcloneConfigTask> = Vec::new();
        let cmds = RcloneConfigCmd::build_cmd(config, cmd);
        if cmds.len() == 0 {
            assert(out@.map_values(|t: RcloneConfigTask| (t.task_id@, t.cmd@)) =~= spec_config_tasks(*config, *cmd));
            return out;
        }
        proof {
            assert(config_task_views(cmds@).len() <= 1);
        }
        let hs = config_hosts(config);
        let hosts = crate::text::dedup_strings(&hs);
        let remote = &cmds[0].0;
        let c = &cmds[0].1;
        let ghost hv = views(hosts@);
        let ghost rv = remote@;
        let ghost ccv = c@;
        let mut i: usize = 0;
        while i < hosts.len()
            invariant
                i <= hosts.len(),
                hv == views(hosts@),
                rv == remote@,
                ccv == c@,
                out@.map_values(|t: RcloneConfigTask| (t.task_id@, t.cmd@)) == config_tasks_for(rv, ccv, hv.subrange(0, i as int)),
            decreases hosts.len() - i,
        {
            let mut task = remote.clone();
            task.append("@");
            task.append(hosts[i].as_str());
            let t = RcloneConfigTask {
                cmd: clone_config_cmd(c),
                task_id: TaskId { cmd: String::from_str("rclone_config"), task, host: hosts[i].clone() },
            };
            assert(hv[i as int] == hosts@[i as int]@);
            assert(t.task_id@.task == rv + "@"@ + hv[i as int]);
            assert((t.task_id@, t.cmd@) == (crate::task::TaskIdView { cmd: "rclone_config"@, task: rv + "@"@ + hv[i as int], host: hv[i as int] }, ccv));
            let ghost old = out@.map_values(|t: RcloneConfigTask| (t.task_id@, t.cmd@));
            out.push(t);
            assert(out@.map_values(|t: RcloneConfigTask| (t.task_id@, t.cmd@)) =~= old.push(
                (crate::task::TaskIdView { cmd: "rclone_config"@, task: rv + "@"@ + hv[i as int], host: hv[i as int] }, ccv),
            ));
            assert(config_tasks_for(rv, ccv, hv.subrange(0, i + 1)) =~= config_tasks_for(rv, ccv, hv.subrange(0, i as int)).push(
                (crate::task::TaskIdView { cmd: "rclone_config"@, task: rv + "@"@ + hv[i as int], host: hv[i as int] }, ccv),
            ));
            i = i + 1;
        }
        assert(hv.subrange(0, hosts.len() as int) =~= hv);
        assert(config_task_views(cmds@)[0] == (rv, ccv));
        out
    }
}

} // verus!
