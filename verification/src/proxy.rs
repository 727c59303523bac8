//! The proxy in front of clusters: the commands that start and stop it on
//! its hosts, and the request that removes a cluster from it.
use vstd::prelude::*;
use crate::text::{views, split_on, char_in, trim, trim_str, split_chars, join, join_str};

verus! {

/// Where the proxy is installed and configured.
#[derive(Debug)]
pub struct ProxyService {
    pub conf_path: String,
    pub install_dir: String,
}

/// What a proxy task does.
#[derive(Debug)]
pub enum ProxyTaskType {
    StartProxy { command: String },
    StopProxy { command: String },
    AddCluster { cluster_name: String, request_body: String },
    RemoveCluster { cluster_name: String, token: String },
}

/// One proxy task, run over SSH on `host` (or, for cluster requests, at the
/// proxy's web service address).
#[derive(Debug)]
pub struct ProxyCtlTask {
    pub ssh_key: String,
    pub user: String,
    pub port: usize,
    pub host: String,
    pub task_type: ProxyTaskType,
}

/// The value of the first argument named `key`.
pub open spec fn arg_value(args: Seq<(String, String)>, key: Seq<char>) -> Option<Seq<char>>
    decreases args.len(),
{
    if args.len() == 0 {
        None
    } else if args[0].0@ == key {
        Some(args[0].1@)
    } else {
        arg_value(args.drop_first(), key)
    }
}

/// The value of the argument named `key`.
pub fn get_arg(args: &Vec<(String, String)>, key: &str) -> (r: Option<String>)
    ensures
        match r {
            Some(v) => arg_value(args@, key@) == Some(v@),
            None => arg_value(args@, key@) is None,
        },
{
    let mut i: usize = 0;
    assert(args@.skip(0) =~= args@);
    while i < args.len()
        invariant
            i <= args.len(),
            arg_value(args@, key@) == arg_value(args@.skip(i as int), key@),
        decreases args.len() - i,
    {
        assert(args@.skip(i as int)[0] == args@[i as int]);
        assert(args@.skip(i as int).drop_first() =~= args@.skip(i + 1));
        if crate::text::str_eq(args[i].0.as_str(), key) {
            return Some(args[i].1.clone());
        }
        i = i + 1;
    }
    None
}

/// `chmod +x <bin>; nohup <bin> --config=<conf> > <dir>/proxy.log 2>&1 & echo $! > <dir>/proxy.pid`.
pub open spec fn proxy_start(bin: Seq<char>, conf: Seq<char>, dir: Seq<char>) -> Seq<char> {
    "chmod +x "@ + bin + "; nohup "@ + bin + " --config="@ + conf + " > "@ + dir + "/proxy.log 2>&1 & echo $! > "@ + dir
        + "/proxy.pid"@
}

impl ProxyCtlTask {
    /// The task that starts the proxy binary given as argument `proxy_bin`
    /// on `host`.
    pub fn start_proxy(
        ssh_key: String,
        user: String,
        port: usize,
        host: String,
        args: &Vec<(String, String)>,
        proxy: &ProxyService,
    ) -> (r: ProxyCtlTask)
        requires
            arg_value(args@, "proxy_bin"@) is Some,
        ensures
            r.ssh_key@ == ssh_key@,
            r.user@ == user@,
            r.port == port,
            r.host@ == host@,
            r.task_type matches ProxyTaskType::StartProxy { command } && command@ == proxy_start(
                arg_value(args@, "proxy_bin"@)->Some_0, proxy.conf_path@, proxy.install_dir@),
    {
        let bin = match get_arg(args, "proxy_bin") {
            Some(b) => b,
            None => String::new(),
        };
        let b = bin.as_str();
        let d = proxy.install_dir.as_str();
        let mut c = String::from_str("chmod +x ");
        c.append(b);
        c.append("; nohup ");
        c.append(b);
        c.append(" --config=");
        c.append(proxy.conf_path.as_str());
        c.append(" > ");
        c.append(d);
        c.append("/proxy.log 2>&1 & echo $! > ");
        c.append(d);
        c.append("/proxy.pid");
        ProxyCtlTask { ssh_key, user, port, host, task_type: ProxyTaskType::StartProxy { command: c } }
    }

    /// The task that stops the proxy on `host` by the pid it recorded.
    pub fn stop_proxy(ssh_key: String, user: String, port: usize, host: String, proxy: &ProxyService) -> (r: ProxyCtlTask)
        ensures
            r.ssh_key@ == ssh_key@,
            r.user@ == user@,
            r.port == port,
            r.host@ == host@,
            r.task_type matches ProxyTaskType::StopProxy { command } && command@ == "kill $(cat "@ + proxy.install_dir@
                + "/proxy.pid)"@,
    {
        let mut c = String::from_str("kill $(cat ");
        c.append(proxy.install_dir.as_str());
        c.append("/proxy.pid)");
        ProxyCtlTask { ssh_key, user, port, host, task_type: ProxyTaskType::StopProxy { command: c } }
    }

    /// The request that removes `cluster_name` from the proxy whose web
    /// service address is argument `web_service_addr`, with the cluster's
    /// token from argument `cluster_token`.
    pub fn remove_cluster(ssh_key: String, host: String, cluster_name: &str, args: &Vec<(String, String)>) -> (r: ProxyCtlTask)
        requires
            arg_value(args@, "web_service_addr"@) is Some,
            arg_value(args@, "cluster_token"@) is Some,
        ensures
            r.ssh_key@ == ssh_key@,
            r.user@.len() == 0,
            r.port == 0,
            r.host@ == arg_value(args@, "web_service_addr"@)->Some_0,
            r.task_type matches ProxyTaskType::RemoveCluster { cluster_name: n, token } && n@ == cluster_name@
                && token@ == arg_value(args@, "cluster_token"@)->Some_0,
    {
        let addr = match get_arg(args, "web_service_addr") {
            Some(a) => a,
            None => String::new(),
        };
        let token = match get_arg(args, "cluster_token") {
            Some(t) => t,
            None => String::new(),
        };
        let user = String::new();
        ProxyCtlTask {
            ssh_key,
            user,
            port: 0,
            host: addr,
            task_type: ProxyTaskType::RemoveCluster { cluster_name: String::from_str(cluster_name), token },
        }
    }
}

/// The items of `values`, each value split at its commas and each item
/// without surrounding whitespace, in order.
pub open spec fn trimmed_items(values: Seq<Seq<char>>) -> Seq<Seq<char>>
    decreases values.len(),
{
    if values.len() == 0 {
        Seq::empty()
    } else {
        trimmed_items(values.drop_last()) + split_on(values.last(), char_in(seq![','])).map_values(|t: Seq<char>| trim(t))
    }
}

/// The comma-separated list the proxy is given for a setting with the
/// values `values`: their items, trimmed, joined with commas.
pub fn joined_list(values: &Vec<String>) -> (r: String)
    ensures
        r@ == join(trimmed_items(views(values@)), ","@),
{
    let mut seps: Vec<char> = Vec::new();
    seps.push(',');
    let mut items: Vec<String> = Vec::new();
    let mut i: usize = 0;
    while i < values.len()
        invariant
            i <= values.len(),
            seps@ == seq![','],
            views(items@) == trimmed_items(views(values@).subrange(0, i as int)),
        decreases values.len() - i,
    {
        let ghost pre1 = views(values@).subrange(0, i + 1);
        assert(pre1.drop_last() =~= views(values@).subrange(0, i as int));
        assert(pre1.last() == values@[i as int]@);
        let parts = split_chars(values[i].as_str(), &seps);
        let ghost base = views(items@);
        let mut j: usize = 0;
        while j < parts.len()
            invariant
                j <= parts.len(),
                views(items@) == base + views(parts@).subrange(0, j as int).map_values(|t: Seq<char>| trim(t)),
            decreases parts.len() - j,
        {
            let t = trim_str(parts[j].as_str());
            let ghost tv = t@;
            let ghost before = views(items@);
            items.push(t);
            assert(views(items@) =~= before.push(tv));
            assert(views(parts@).subrange(0, j + 1) =~= views(parts@).subrange(0, j as int).push(parts@[j as int]@));
            assert(views(items@) =~= base + views(parts@).subrange(0, j + 1).map_values(|t: Seq<char>| trim(t)));
            j = j + 1;
        }
        assert(views(parts@).subrange(0, parts.len() as int) =~= views(parts@));
        i = i + 1;
    }
    assert(views(values@).subrange(0, values.len() as int) =~= views(values@));
    join_str(&items, ",")
}


/// The `proxy` subcommands.
#[derive(Debug)]
pub enum ProxyCommand {
    Start { config: String },
    Stop { proxy_name: String },
    List { proxy_name: String },
    Add { cluster_name: String, proxy_name: String },
    Remove { cluster_name: String },
}

/// The stages of a `proxy` command, in order.
#[derive(Debug, Clone, Copy, PartialEq, Eq, Structural)]
pub enum ProxyStage {
    /// Download the proxy binary.
    Download,
    /// Create the install directory on the proxy hosts.
    MakeInstallDir,
    /// Upload the configuration file and the binary.
    Upload,
    /// Start the proxy on each host.
    Start,
    /// Stop the proxy on each host.
    Stop,
}

/// The stages of `command`: start downloads, creates the install
/// directory, uploads and starts; stop stops; list does nothing. Adding
/// and removing clusters are not implemented.
pub open spec fn spec_proxy_stages(command: ProxyCommand) -> Seq<ProxyStage> {
    match command {
        ProxyCommand::Start { .. } => seq![ProxyStage::Download, ProxyStage::MakeInstallDir, ProxyStage::Upload, ProxyStage::Start],
        ProxyCommand::Stop { .. } => seq![ProxyStage::Stop],
        _ => Seq::empty(),
    }
}

/// The stages of the `proxy` task group for `command`.
pub fn proxy_stages(command: &ProxyCommand) -> (r: Vec<ProxyStage>)
    requires
        !(command is Add),
        !(command is Remove),
    ensures
        r@ == spec_proxy_stages(*command),
{
    let mut r: Vec<ProxyStage> = Vec::new();
    match command {
        ProxyCommand::Start { .. } => {
            r.push(ProxyStage::Download);
            r.push(ProxyStage::MakeInstallDir);
            r.push(ProxyStage::Upload);
            r.push(ProxyStage::Start);
        },
        ProxyCommand::Stop { .. } => {
            r.push(ProxyStage::Stop);
        },
        _ => {},
    }
    assert(r@ =~= spec_proxy_stages(*command));
    r
}

/// The command that creates the proxy's install directory.
pub fn proxy_mkdir_command(proxy: &ProxyService) -> (r: String)
    ensures
        r@ == "mkdir -p "@ + proxy.install_dir@,
{
    let mut c = String::from_str("mkdir -p ");
    c.append(proxy.install_dir.as_str());
    c
}

/// The hosts of the proxy: each address up to its first `:`.
pub fn proxy_hosts(proxy_addrs: &Vec<String>) -> (r: Vec<String>)
    ensures
        views(r@) == crate::rclone::hosts_before_colon(views(proxy_addrs@)),
{
    crate::rclone::hosts_of_peers(proxy_addrs)
}

/// The name of the `proxy` task group of the subcommand named `cmd`.
pub fn proxy_group_name(cmd: &str) -> (r: String)
    ensures
        r@ == "proxy-control-"@ + cmd@,
{
    let mut n = String::from_str("proxy-control-");
    n.append(cmd);
    n
}

impl ProxyCtlTask {
    /// The proxy tasks of `command` on `hosts`: one start or stop task per
    /// host, each host once in order of first appearance. Listing and the
    /// cluster requests are not implemented; starting needs argument
    /// `proxy_bin`.
    pub fn from_config(
        command: &ProxyCommand,
        ssh_key: &String,
        user: &String,
        port: usize,
        hosts: &Vec<String>,
        args: &Vec<(String, String)>,
        proxy: &ProxyService,
    ) -> (r: Vec<ProxyCtlTask>)
        requires
            command is Start || command is Stop,
            command is Start && hosts.len() > 0 ==> arg_value(args@, "proxy_bin"@) is Some,
        ensures
            r.len() == crate::text::dedup(views(hosts@)).len(),
            forall|i: int| 0 <= i < r.len() ==> {
                &&& (#[trigger] r[i]).ssh_key@ == ssh_key@
                &&& r[i].user@ == user@
                &&& r[i].port == port
                &&& r[i].host@ == crate::text::dedup(views(hosts@))[i]
                &&& command is Start ==> (r[i].task_type matches ProxyTaskType::StartProxy { command: c } && c@ == proxy_start(
                    arg_value(args@, "proxy_bin"@)->Some_0, proxy.conf_path@, proxy.install_dir@))
                &&& command is Stop ==> (r[i].task_type matches ProxyTaskType::StopProxy { command: c } && c@ == "kill $(cat "@
                    + proxy.install_dir@ + "/proxy.pid)"@)
            },
    {
        let unique = crate::text::dedup_strings(hosts);
        let ghost u = views(unique@);
        proof {
            crate::text::lemma_dedup_props(views(hosts@));
            if u.len() > 0 {
                assert(u.contains(u[0]));
            }
        }
        let mut r: Vec<ProxyCtlTask> = Vec::new();
        let mut i: usize = 0;
        while i < unique.len()
            invariant
                i <= unique.len(),
                u == views(unique@),
                u == crate::text::dedup(views(hosts@)),
                command is Start || command is Stop,
                command is Start && u.len() > 0 ==> arg_value(args@, "proxy_bin"@) is Some,
                r.len() == i,
                forall|k: int| 0 <= k < i ==> {
                    &&& (#[trigger] r[k]).ssh_key@ == ssh_key@
                    &&& r[k].user@ == user@
                    &&& r[k].port == port
                    &&& r[k].host@ == u[k]
                    &&& command is Start ==> (r[k].task_type matches ProxyTaskType::StartProxy { command: c } && c@ == proxy_start(
                        arg_value(args@, "proxy_bin"@)->Some_0, proxy.conf_path@, proxy.install_dir@))
                    &&& command is Stop ==> (r[k].task_type matches ProxyTaskType::StopProxy { command: c } && c@ == "kill $(cat "@
                        + proxy.install_dir@ + "/proxy.pid)"@)
                },
            decreases unique.len() - i,
        {
            assert(u[i as int] == unique@[i as int]@);
            let t = match command {
                ProxyCommand::Start { .. } => Self::start_proxy(ssh_key.clone(), user.clone(), port, unique[i].clone(), args, proxy),
                _ => Self::stop_proxy(ssh_key.clone(), user.clone(), port, unique[i].clone(), proxy),
            };
            let ghost before = r@;
            r.push(t);
            proof {
                assert forall|k: int| 0 <= k < i implies r[k] == before[k] by {}
            }
            i = i + 1;
        }
        r
    }
}

} // verus!
