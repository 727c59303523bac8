//! The data store servers a deployment runs on hosts of their own: which
//! peers there are, and the commands that start, stop and find them.
use vstd::prelude::*;
use crate::text::{views, opt_pair_view, split_once};
use crate::deploy::{StorageService, DssMode};
use crate::daemon::{CtlCmd, CtlCmdView, ctl_text, ctl_views, dss_ps, dss_ps_cmd, cmds_for};
use crate::task::{SubCommand, TaskId};

verus! {

/// What `^([^:]+):(\d+)$` captures of `hp`: the host and the port, when it
/// matches.
pub uninterp spec fn regex_host_port(hp: Seq<char>) -> Option<(Seq<char>, Seq<char>)>;

/// Matches `hp` against `^([^:]+):(\d+)$` with `regex::Regex::captures` and
/// returns the two groups. Besides naming the result, the contract states
/// what the pattern shows: a match is the host, a colon and the port, with
/// no colon in the host and neither part empty; and a single colon between
/// a non-empty host and a non-empty run of ASCII digits always matches.
/// Which non-ASCII digits `\d` accepts (Unicode `Nd`) is left unsaid.
#[verifier::external_body]
fn regex_capture_host_port(hp: &str) -> (r: Option<(String, String)>)
    ensures
        opt_pair_view(r) == regex_host_port(hp@),
        r matches Some((h, p)) ==> hp@ == h@ + ":"@ + p@ && h@.len() > 0 && !h@.contains(':') && p@.len() > 0,
        (split_once(hp@, ':') matches Some((h, p)) && h.len() > 0 && p.len() > 0 && crate::text::all_digits(p))
            ==> opt_pair_view(r) == split_once(hp@, ':'),
{
    let re = regex::Regex::new(r"^([^:]+):(\d+)$").unwrap();
    match re.captures(hp) {
        Some(caps) => Some((
            caps.get(1).unwrap().as_str().to_string(),
            caps.get(2).unwrap().as_str().to_string(),
        )),
        None => None,
    }
}

/// Splits a data store peer `host:port`; the error quotes the value.
pub fn parse_dss_host_port(hp: &str) -> (r: Result<(String, String), String>)
    ensures
        match r {
            Ok((h, p)) => regex_host_port(hp@) == Some((h@, p@)),
            Err(m) => regex_host_port(hp@) is None && m@ == "invalid host:port '"@ + hp@ + "', expected host:port"@,
        },
{
    match regex_capture_host_port(hp) {
        Some(hp2) => Ok(hp2),
        None => {
            let mut m = String::from_str("invalid host:port '");
            m.append(hp);
            m.append("', expected host:port");
            Err(m)
        },
    }
}

/// The peers of the data store service: those of a RocksDB-backed service,
/// else those of a remote EloqStore service; none for a local one.
pub open spec fn spec_dss_peers(s: StorageService) -> Seq<Seq<char>> {
    match s.rocksdb_dss_peers {
        Some(p) => views(p@),
        None => match s.eloqdss {
            Some(d) => match d.mode {
                DssMode::Local => Seq::empty(),
                _ => match d.peer_host_ports {
                    Some(p) => views(p@),
                    None => Seq::empty(),
                },
            },
            None => Seq::empty(),
        },
    }
}

/// `host:port` of every data store server this deployment controls.
pub fn dss_peer_host_ports(s: &StorageService) -> (r: Vec<String>)
    ensures
        views(r@) == spec_dss_peers(*s),
{
    match &s.rocksdb_dss_peers {
        Some(p) => crate::rolling::clone_strings(p),
        None => match &s.eloqdss {
            Some(d) => match &d.mode {
                DssMode::Local => {
                    let r: Vec<String> = Vec::new();
                    assert(views(r@) =~= Seq::<Seq<char>>::empty());
                    r
                },
                _ => match &d.peer_host_ports {
                    Some(p) => crate::rolling::clone_strings(p),
                    None => {
                        let r: Vec<String> = Vec::new();
                        assert(views(r@) =~= Seq::<Seq<char>>::empty());
                        r
                    },
                },
            },
            None => {
                let r: Vec<String> = Vec::new();
                assert(views(r@) =~= Seq::<Seq<char>>::empty());
                r
            },
        },
    }
}

/// A data store server: its `host:port` and the configuration file the
/// deployment gives it.
#[derive(Debug)]
pub struct DssPeer {
    pub host_port: String,
    pub ini_file: String,
}

/// A control command for one data store server.
#[derive(Debug)]
pub enum DssCtlCmd {
    Start(String),
    Stop(String),
    ForceStop(String),
    Status(String),
}

impl View for DssCtlCmd {
    type V = CtlCmdView;

    open spec fn view(&self) -> CtlCmdView {
        match self {
            DssCtlCmd::Start(s) => CtlCmdView::Start(s@),
            DssCtlCmd::Stop(s) => CtlCmdView::Stop(s@),
            DssCtlCmd::ForceStop(s) => CtlCmdView::ForceStop(s@),
            DssCtlCmd::Status(s) => CtlCmdView::Status(s@),
        }
    }
}

pub open spec fn dss_task_views(v: Seq<(String, DssCtlCmd)>) -> Seq<(Seq<char>, CtlCmdView)> {
    v.map_values(|p: (String, DssCtlCmd)| (p.0@, p.1@))
}

/// Subcommands the data store servers are controlled for.
pub open spec fn dss_command(cmd: SubCommand) -> bool {
    cmd is Start || cmd is Launch || cmd is Status || cmd is Stop || cmd is Remove
}

/// Where the data store servers log.
pub open spec fn dss_logs(tx_home: Seq<char>) -> Seq<char> {
    tx_home + "/logs/dss"@
}

/// The command for one server with configuration `ini` and port text `port`.
pub open spec fn dss_peer_cmd(cmd: SubCommand, user: Seq<char>, tx_home: Seq<char>, ini: Seq<char>, port: Seq<char>) -> CtlCmdView {
    let ps = dss_ps(user, tx_home, ini);
    match cmd {
        SubCommand::Start | SubCommand::Launch => CtlCmdView::Start(
            "cd "@ + tx_home + "; mkdir -p "@ + dss_logs(tx_home) + "; "@ + tx_home + "/bin/dss_server --config="@ + ini
                + " > "@ + dss_logs(tx_home) + "/std-"@ + port + ".log 2>&1 &"@,
        ),
        SubCommand::Stop { force } => if force {
            CtlCmdView::ForceStop(ps + " | xargs -r kill -9"@)
        } else {
            CtlCmdView::Stop(ps + " | xargs -r kill"@)
        },
        SubCommand::Remove => CtlCmdView::ForceStop(ps + " | xargs -r kill -9"@),
        _ => CtlCmdView::Status(ps),
    }
}

/// Every peer parses as `host:port`.
pub open spec fn peers_parse(peers: Seq<DssPeer>) -> bool {
    forall|i: int| 0 <= i < peers.len() ==> (#[trigger] regex_host_port(peers[i].host_port@)) is Some
}

/// One (host, command) pair per server, in order.
pub open spec fn spec_dss_build(user: Seq<char>, tx_home: Seq<char>, peers: Seq<DssPeer>, cmd: SubCommand) -> Seq<(Seq<char>, CtlCmdView)> {
    Seq::new(peers.len(), |i: int| {
        let hp = regex_host_port(peers[i].host_port@)->Some_0;
        (hp.0, dss_peer_cmd(cmd, user, tx_home, peers[i].ini_file@, hp.1))
    })
}

impl DssCtlCmd {
    /// The text of the command.
    pub fn cmd_value(&self) -> (r: String)
        ensures
            r@ == ctl_text(self@),
    {
        match self {
            DssCtlCmd::Start(c) => c.clone(),
            DssCtlCmd::Stop(c) => c.clone(),
            DssCtlCmd::ForceStop(c) => c.clone(),
            DssCtlCmd::Status(c) => c.clone(),
        }
    }

    /// The same command as a generic control command.
    pub fn to_ctl(&self) -> (r: CtlCmd)
        ensures
            r@ == self@,
    {
        match self {
            DssCtlCmd::Start(s) => CtlCmd::Start(s.clone()),
            DssCtlCmd::Stop(s) => CtlCmd::Stop(s.clone()),
            DssCtlCmd::ForceStop(s) => CtlCmd::ForceStop(s.clone()),
            DssCtlCmd::Status(s) => CtlCmd::Status(s.clone()),
        }
    }

    /// The (host, command) pair of every data store server for subcommand
    /// `cmd`, run by `user` from `tx_home`.
    pub fn build_cmd(user: &str, tx_home: &str, peers: &Vec<DssPeer>, cmd: &SubCommand) -> (r: Vec<(String, DssCtlCmd)>)
        requires
            peers_parse(peers@),
            peers@.len() > 0 ==> dss_command(*cmd),
        ensures
            dss_task_views(r@) == spec_dss_build(user@, tx_home@, peers@, *cmd),
    {
        let mut r: Vec<(String, DssCtlCmd)> = Vec::new();
        let mut logs = String::from_str(tx_home);
        logs.append("/logs/dss");
        let mut i: usize = 0;
        while i < peers.len()
            invariant
                i <= peers.len(),
                peers_parse(peers@),
                peers@.len() > 0 ==> dss_command(*cmd),
                logs@ == dss_logs(tx_home@),
                dss_task_views(r@) == spec_dss_build(user@, tx_home@, peers@, *cmd).subrange(0, i as int),
            decreases peers.len() - i,
        {
            assert(regex_host_port(peers@[i as int].host_port@) is Some);
            let (host, port) = match regex_capture_host_port(peers[i].host_port.as_str()) {
                Some(hp) => hp,
                None => (String::new(), String::new()),
            };
            let ini = peers[i].ini_file.as_str();
            let ctl = match cmd {
                SubCommand::Start | SubCommand::Launch => {
                    let mut c = String::from_str("cd ");
                    c.append(tx_home);
                    c.append("; mkdir -p ");
                    c.append(logs.as_str());
                    c.append("; ");
                    c.append(tx_home);
                    c.append("/bin/dss_server --config=");
                    c.append(ini);
                    c.append(" > ");
                    c.append(logs.as_str());
                    c.append("/std-");
                    c.append(port.as_str());
                    c.append(".log 2>&1 &");
                    DssCtlCmd::Start(c)
                },
                SubCommand::Stop { force } => {
                    let mut c = dss_ps_cmd(user, tx_home, ini);
                    if *force {
                        c.append(" | xargs -r kill -9");
                        DssCtlCmd::ForceStop(c)
                    } else {
                        c.append(" | xargs -r kill");
                        DssCtlCmd::Stop(c)
                    }
                },
                SubCommand::Remove => {
                    let mut c = dss_ps_cmd(user, tx_home, ini);
                    c.append(" | xargs -r kill -9");
                    DssCtlCmd::ForceStop(c)
                },
                _ => DssCtlCmd::Status(dss_ps_cmd(user, tx_home, ini)),
            };
            let ghost old_r = r@;
            assert(regex_host_port(peers@[i as int].host_port@) == Some((host@, port@)));
            assert(ctl@ == dss_peer_cmd(*cmd, user@, tx_home@, peers@[i as int].ini_file@, port@));
            let ghost hv = host@;
            let ghost cv = ctl@;
            let ghost sb = spec_dss_build(user@, tx_home@, peers@, *cmd);
            assert(sb[i as int] == (hv, cv));
            r.push((host, ctl));
            assert(dss_task_views(r@) =~= dss_task_views(old_r).push((hv, cv)));
            assert(sb.subrange(0, i + 1) =~= sb.subrange(0, i as int).push(sb[i as int]));
            assert(dss_task_views(r@) =~= spec_dss_build(user@, tx_home@, peers@, *cmd).subrange(0, i + 1));
            i = i + 1;
        }
        assert(spec_dss_build(user@, tx_home@, peers@, *cmd).subrange(0, peers.len() as int) =~= spec_dss_build(user@, tx_home@, peers@, *cmd));
        r
    }

    /// The commands of [`DssCtlCmd::build_cmd`], or `None` when a peer is not
    /// a readable `host:port` or `cmd` controls no data store server.
    pub fn try_build_cmd(user: &str, tx_home: &str, peers: &Vec<DssPeer>, cmd: &SubCommand) -> (r: Option<Vec<(String, DssCtlCmd)>>)
        ensures
            r is Some <==> (peers_parse(peers@) && (peers@.len() > 0 ==> dss_command(*cmd))),
            r matches Some(v) ==> dss_task_views(v@) == spec_dss_build(user@, tx_home@, peers@, *cmd),
    {
        let mut i: usize = 0;
        while i < peers.len()
            invariant
                i <= peers.len(),
                forall|k: int| 0 <= k < i ==> (#[trigger] regex_host_port(peers@[k].host_port@)) is Some,
            decreases peers.len() - i,
        {
            if regex_capture_host_port(peers[i].host_port.as_str()).is_none() {
                return None;
            }
            i = i + 1;
        }
        let known = match cmd {
            SubCommand::Start | SubCommand::Launch | SubCommand::Status | SubCommand::Stop { .. } | SubCommand::Remove => true,
            _ => false,
        };
        if peers.len() > 0 && !known {
            return None;
        }
        Some(DssCtlCmd::build_cmd(user, tx_home, peers, cmd))
    }
}

/// One data store server control task: it runs the commands of its host.
#[derive(Debug)]
pub struct MonographDssCtlTask {
    pub task_id: TaskId,
    pub ctl_cmd_by_host: Vec<(String, DssCtlCmd)>,
}

impl MonographDssCtlTask {
    pub fn new(task_id: TaskId, ctl_cmd_by_host: Vec<(String, DssCtlCmd)>) -> (r: MonographDssCtlTask)
        ensures
            r.task_id@ == task_id@,
            dss_task_views(r.ctl_cmd_by_host@) == dss_task_views(ctl_cmd_by_host@),
    {
        MonographDssCtlTask { task_id, ctl_cmd_by_host }
    }

    /// The control commands addressed to the host the commands run on.
    pub fn commands_for_host(&self) -> (r: Vec<CtlCmd>)
        ensures
            ctl_views(r@) == cmds_for(self.task_id.host@, dss_task_views(self.ctl_cmd_by_host@)),
    {
        let pairs = &self.ctl_cmd_by_host;
        let mut r: Vec<CtlCmd> = Vec::new();
        let mut i: usize = 0;
        while i < pairs.len()
            invariant
                i <= pairs.len(),
                ctl_views(r@) == cmds_for(self.task_id.host@, dss_task_views(pairs@).subrange(0, i as int)),
            decreases pairs.len() - i,
        {
            let ghost pre1 = dss_task_views(pairs@).subrange(0, i + 1);
            assert(pre1.drop_last() =~= dss_task_views(pairs@).subrange(0, i as int));
            assert(pre1.last() == (pairs@[i as int].0@, pairs@[i as int].1@));
            if pairs[i].0 == self.task_id.host {
                let c = pairs[i].1.to_ctl();
                let ghost old_r = r@;
                r.push(c);
                assert(ctl_views(r@) =~= ctl_views(old_r).push(c@));
            }
            i = i + 1;
        }
        assert(dss_task_views(pairs@).subrange(0, pairs.len() as int) =~= dss_task_views(pairs@));
        r
    }
}

} // verus!
