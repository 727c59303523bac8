//! The stages of the cluster-wide commands that update the binaries of a
//! running cluster and that launch a new one, and the small pieces of text
//! they are built from.
use vstd::prelude::*;
use crate::text::{views, split_once, split_once_char, spec_parse_u16, parse_u16};
use crate::task::{TaskId, TaskIdView};
use crate::scale::{node_host, host_of_node};
use crate::order::{select, ordered_by, lemma_select_contains, lemma_select_ordered, lemma_ordered_facts};

verus! {

/// The stages of an update of the cluster's binaries.
#[derive(Debug, Clone, Copy, PartialEq, Eq, Structural)]
pub enum UpdateStage {
    /// Download the new packages.
    Download,
    /// Copy them to the hosts.
    UploadImages,
    /// Read the topology before the masters are moved.
    MastersTopology,
    /// Move each master's role to a replica.
    FailoverMasters,
    /// Stop the former masters.
    StopMasters,
    /// Stop the transaction service.
    StopTx,
    /// Stop the log service.
    StopLog,
    /// Unpack the new packages.
    Unpack,
    /// Start the log service.
    StartLog,
    /// Wait until the log service answers.
    ProbeLog,
    /// Clear the local data of a cloud EloqStore.
    CleanStoreData,
    /// Start the transaction service.
    StartTx,
    /// Read the topology before the standbys are moved.
    StandbysTopology,
    /// Move the roles back from the standbys.
    FailoverBack,
    /// Stop the standbys.
    StopStandbys,
    /// Start the transaction service again.
    RestartTx,
    /// Start the standbys.
    StartStandbys,
    /// Start the voters.
    StartVoters,
    /// Print the version every host now runs.
    CheckVersion,
}

/// What decides which stages an update has.
#[derive(Debug, Clone, Copy)]
pub struct UpdatePlanInputs {
    /// A new version was asked for; without one the update does nothing.
    pub update_requested: bool,
    pub has_standby: bool,
    pub has_log_service: bool,
    /// The store is a cloud EloqStore that does not reuse its local files.
    pub clean_store_data: bool,
    pub has_voter: bool,
}

/// The stage at place `k` of the fixed order of update stages: everything
/// is stopped (masters moved away first when there are standbys, the
/// transaction service before the log service) before the packages are
/// unpacked, then started (the log service before the transaction service).
pub open spec fn update_stage_at(k: int) -> UpdateStage {
    if k == 0 { UpdateStage::Download }
    else if k == 1 { UpdateStage::UploadImages }
    else if k == 2 { UpdateStage::MastersTopology }
    else if k == 3 { UpdateStage::FailoverMasters }
    else if k == 4 { UpdateStage::StopMasters }
    else if k == 5 { UpdateStage::StopTx }
    else if k == 6 { UpdateStage::StopLog }
    else if k == 7 { UpdateStage::Unpack }
    else if k == 8 { UpdateStage::StartLog }
    else if k == 9 { UpdateStage::ProbeLog }
    else if k == 10 { UpdateStage::CleanStoreData }
    else if k == 11 { UpdateStage::StartTx }
    else if k == 12 { UpdateStage::StandbysTopology }
    else if k == 13 { UpdateStage::FailoverBack }
    else if k == 14 { UpdateStage::StopStandbys }
    else if k == 15 { UpdateStage::RestartTx }
    else if k == 16 { UpdateStage::StartStandbys }
    else if k == 17 { UpdateStage::StartVoters }
    else { UpdateStage::CheckVersion }
}

/// The place of stage `s` in that order.
pub open spec fn update_place(s: UpdateStage) -> int {
    match s {
        UpdateStage::Download => 0,
        UpdateStage::UploadImages => 1,
        UpdateStage::MastersTopology => 2,
        UpdateStage::FailoverMasters => 3,
        UpdateStage::StopMasters => 4,
        UpdateStage::StopTx => 5,
        UpdateStage::StopLog => 6,
        UpdateStage::Unpack => 7,
        UpdateStage::StartLog => 8,
        UpdateStage::ProbeLog => 9,
        UpdateStage::CleanStoreData => 10,
        UpdateStage::StartTx => 11,
        UpdateStage::StandbysTopology => 12,
        UpdateStage::FailoverBack => 13,
        UpdateStage::StopStandbys => 14,
        UpdateStage::RestartTx => 15,
        UpdateStage::StartStandbys => 16,
        UpdateStage::StartVoters => 17,
        UpdateStage::CheckVersion => 18,
    }
}

/// Whether the update described by `inp` has stage `s`.
pub open spec fn has_update_stage(inp: UpdatePlanInputs, s: UpdateStage) -> bool {
    inp.update_requested && match s {
        UpdateStage::MastersTopology | UpdateStage::FailoverMasters | UpdateStage::StopMasters => inp.has_standby,
        UpdateStage::StopTx => !inp.has_standby,
        UpdateStage::StopLog | UpdateStage::StartLog | UpdateStage::ProbeLog => inp.has_log_service,
        UpdateStage::CleanStoreData => inp.clean_store_data,
        UpdateStage::StandbysTopology | UpdateStage::FailoverBack | UpdateStage::StopStandbys
        | UpdateStage::RestartTx | UpdateStage::StartStandbys => inp.has_standby,
        UpdateStage::StartVoters => inp.has_voter,
        _ => true,
    }
}

pub open spec fn update_filter(inp: UpdatePlanInputs) -> spec_fn(UpdateStage) -> bool {
    |s: UpdateStage| has_update_stage(inp, s)
}

pub open spec fn update_places() -> spec_fn(UpdateStage) -> int {
    |s: UpdateStage| update_place(s)
}

pub open spec fn all_update_stages() -> Seq<UpdateStage> {
    Seq::new(19, |k: int| update_stage_at(k))
}

/// The stages of the update described by `inp`, in order.
pub open spec fn spec_update_stages(inp: UpdatePlanInputs) -> Seq<UpdateStage> {
    select(all_update_stages(), update_filter(inp))
}

fn update_stage_at_exec(k: usize) -> (r: UpdateStage)
    ensures
        r == update_stage_at(k as int),
{
    if k == 0 { UpdateStage::Download }
    else if k == 1 { UpdateStage::UploadImages }
    else if k == 2 { UpdateStage::MastersTopology }
    else if k == 3 { UpdateStage::FailoverMasters }
    else if k == 4 { UpdateStage::StopMasters }
    else if k == 5 { UpdateStage::StopTx }
    else if k == 6 { UpdateStage::StopLog }
    else if k == 7 { UpdateStage::Unpack }
    else if k == 8 { UpdateStage::StartLog }
    else if k == 9 { UpdateStage::ProbeLog }
    else if k == 10 { UpdateStage::CleanStoreData }
    else if k == 11 { UpdateStage::StartTx }
    else if k == 12 { UpdateStage::StandbysTopology }
    else if k == 13 { UpdateStage::FailoverBack }
    else if k == 14 { UpdateStage::StopStandbys }
    else if k == 15 { UpdateStage::RestartTx }
    else if k == 16 { UpdateStage::StartStandbys }
    else if k == 17 { UpdateStage::StartVoters }
    else { UpdateStage::CheckVersion }
}

fn has_update_stage_exec(inp: UpdatePlanInputs, s: UpdateStage) -> (r: bool)
    ensures
        r == has_update_stage(inp, s),
{
    inp.update_requested && match s {
        UpdateStage::MastersTopology | UpdateStage::FailoverMasters | UpdateStage::StopMasters => inp.has_standby,
        UpdateStage::StopTx => !inp.has_standby,
        UpdateStage::StopLog | UpdateStage::StartLog | UpdateStage::ProbeLog => inp.has_log_service,
        UpdateStage::CleanStoreData => inp.clean_store_data,
        UpdateStage::StandbysTopology | UpdateStage::FailoverBack | UpdateStage::StopStandbys
        | UpdateStage::RestartTx | UpdateStage::StartStandbys => inp.has_standby,
        UpdateStage::StartVoters => inp.has_voter,
        _ => true,
    }
}

/// The stages an update runs, in order.
pub fn update_stages(inp: UpdatePlanInputs) -> (r: Vec<UpdateStage>)
    ensures
        r@ == spec_update_stages(inp),
{
    let ghost full = all_update_stages();
    let mut r: Vec<UpdateStage> = Vec::new();
    let mut k: usize = 0;
    while k < 19
        invariant
            k <= 19,
            full == all_update_stages(),
            r@ == select(full.subrange(0, k as int), update_filter(inp)),
        decreases 19 - k,
    {
        let st = update_stage_at_exec(k);
        let ghost pre1 = full.subrange(0, k + 1);
        assert(pre1.drop_last() =~= full.subrange(0, k as int));
        assert(pre1.last() == st);
        if has_update_stage_exec(inp, st) {
            r.push(st);
        }
        k = k + 1;
    }
    assert(full.subrange(0, 19) =~= full);
    r
}

proof fn lemma_all_update_stages()
    ensures
        ordered_by(all_update_stages(), update_places()),
        forall|x: UpdateStage| #[trigger] all_update_stages().contains(x),
{
    let full = all_update_stages();
    assert forall|k: int| 0 <= k < 19 implies update_place(#[trigger] update_stage_at(k)) == k by {}
    assert forall|i: int, j: int| 0 <= i < j < full.len() implies update_place(#[trigger] full[i]) < update_place(#[trigger] full[j]) by {
        assert(full[i] == update_stage_at(i));
        assert(full[j] == update_stage_at(j));
    }
    assert forall|x: UpdateStage| #[trigger] full.contains(x) by {
        let k = update_place(x);
        assert(update_stage_at(k) == x);
        assert(full[k] == x);
    }
}

/// The stages of an update keep one fixed order and none repeats: every
/// service is stopped before the new packages are unpacked and started
/// after; the masters' roles are moved away before they stop; the
/// transaction service stops before the log service and starts after it
/// answers again; the store's local data is cleared before the
/// transaction service starts; the version check comes last. Without a
/// new version there is no stage at all.
pub proof fn law_update_stages_order(inp: UpdatePlanInputs)
    ensures
        ({
            let s = spec_update_stages(inp);
            &&& ordered_by(s, update_places())
            &&& s.no_duplicates()
            &&& forall|x: UpdateStage| #[trigger] s.contains(x) <==> has_update_stage(inp, x)
            &&& forall|i: int, j: int| 0 <= i < s.len() && 0 <= j < s.len() && update_place(s[i]) < update_place(s[j]) ==> i < j
            &&& !inp.update_requested ==> s.len() == 0
            &&& inp.update_requested ==> s.last() == UpdateStage::CheckVersion
        }),
{
    let s = spec_update_stages(inp);
    lemma_all_update_stages();
    lemma_select_ordered(all_update_stages(), update_filter(inp), update_places());
    lemma_ordered_facts(s, update_places());
    assert forall|x: UpdateStage| #[trigger] s.contains(x) <==> has_update_stage(inp, x) by {
        lemma_select_contains(all_update_stages(), update_filter(inp), x);
    }
    if !inp.update_requested {
        if s.len() > 0 {
            assert(s.contains(s[0]));
        }
    } else {
        assert(s.contains(UpdateStage::CheckVersion));
        let k = choose|k: int| 0 <= k < s.len() && s[k] == UpdateStage::CheckVersion;
        if k < s.len() - 1 {
            assert(update_place(s[k]) < update_place(s[s.len() - 1]));
        }
    }
}

/// The failover checks of round `round` for the nodes of `host_ports`
/// written `host:port` with a `u16` port: each named after the round and
/// the port as written, for the node's host.
pub open spec fn spec_failover_checks(host_ports: Seq<Seq<char>>, round: Seq<char>) -> Seq<(TaskIdView, u16)>
    decreases host_ports.len(),
{
    if host_ports.len() == 0 {
        Seq::empty()
    } else {
        match split_once(host_ports.last(), ':') {
            Some((h, p)) => match spec_parse_u16(p) {
                Some(n) => spec_failover_checks(host_ports.drop_last(), round).push((
                    TaskIdView { cmd: "failover"@, task: "failover-check-round"@ + round + "-"@ + p, host: h },
                    n,
                )),
                None => spec_failover_checks(host_ports.drop_last(), round),
            },
            None => spec_failover_checks(host_ports.drop_last(), round),
        }
    }
}

pub open spec fn check_views(v: Seq<(TaskId, u16)>) -> Seq<(TaskIdView, u16)> {
    v.map_values(|t: (TaskId, u16)| (t.0@, t.1))
}

/// The failover checks of one round of an update.
pub fn failover_checks(host_ports: &Vec<String>, round: &str) -> (r: Vec<(TaskId, u16)>)
    ensures
        check_views(r@) == spec_failover_checks(views(host_ports@), round@),
{
    let mut r: Vec<(TaskId, u16)> = Vec::new();
    let mut i: usize = 0;
    while i < host_ports.len()
        invariant
            i <= host_ports.len(),
            check_views(r@) == spec_failover_checks(views(host_ports@).subrange(0, i as int), round@),
        decreases host_ports.len() - i,
    {
        let ghost pre1 = views(host_ports@).subrange(0, i + 1);
        assert(pre1.drop_last() =~= views(host_ports@).subrange(0, i as int));
        assert(pre1.last() == host_ports@[i as int]@);
        match split_once_char(host_ports[i].as_str(), ':') {
            Some((h, p)) => match parse_u16(p.as_str()) {
                Some(n) => {
                    let mut task = String::from_str("failover-check-round");
                    task.append(round);
                    task.append("-");
                    task.append(p.as_str());
                    let id = TaskId { cmd: String::from_str("failover"), task, host: h };
                    let ghost e = (id@, n);
                    let ghost before = check_views(r@);
                    r.push((id, n));
                    assert(check_views(r@) =~= before.push(e));
                },
                None => {},
            },
            None => {},
        }
        i = i + 1;
    }
    assert(views(host_ports@).subrange(0, host_ports.len() as int) =~= views(host_ports@));
    r
}

/// The command that prints the version of the transaction service
/// installed under `install_dir`, and its task name.
pub fn version_check_command(install_dir: &str) -> (r: (String, String))
    ensures
        r.0@ == install_dir@ + "/EloqKV/bin/eloqkv --version"@,
        r.1@ == "check_eloqkv_version"@,
{
    let mut cmd = String::from_str(install_dir);
    cmd.append("/EloqKV/bin/eloqkv --version");
    (cmd, String::from_str("check_eloqkv_version"))
}

/// The stages of the launch of a new cluster.
#[derive(Debug, Clone, Copy, PartialEq, Eq, Structural)]
pub enum LaunchStage {
    /// Check that every host answers over SSH.
    SshCheck,
    /// Install the system packages.
    InstallDeps,
    /// Check the hosts.
    Check,
    /// Copy and configure the services.
    Deploy,
    /// Start the log service.
    StartLog,
    /// Wait until the log service answers.
    ProbeLog,
    /// Bootstrap the store.
    Bootstrap,
    /// Start the cluster (its log service already runs).
    StartCluster,
    /// Start the monitoring.
    StartMonitor,
    /// Read the topology.
    Topology,
    /// Record the topology.
    UpdateTopology,
    /// Show the topology.
    DisplayTopology,
}

/// What decides which stages a launch has.
#[derive(Debug, Clone, Copy)]
pub struct LaunchPlanInputs {
    pub skip_deps: bool,
    pub has_log_service: bool,
    pub has_storage_service: bool,
}

pub open spec fn launch_stage_at(k: int) -> LaunchStage {
    if k == 0 { LaunchStage::SshCheck }
    else if k == 1 { LaunchStage::InstallDeps }
    else if k == 2 { LaunchStage::Check }
    else if k == 3 { LaunchStage::Deploy }
    else if k == 4 { LaunchStage::StartLog }
    else if k == 5 { LaunchStage::ProbeLog }
    else if k == 6 { LaunchStage::Bootstrap }
    else if k == 7 { LaunchStage::StartCluster }
    else if k == 8 { LaunchStage::StartMonitor }
    else if k == 9 { LaunchStage::Topology }
    else if k == 10 { LaunchStage::UpdateTopology }
    else { LaunchStage::DisplayTopology }
}

pub open spec fn launch_place(s: LaunchStage) -> int {
    match s {
        LaunchStage::SshCheck => 0,
        LaunchStage::InstallDeps => 1,
        LaunchStage::Check => 2,
        LaunchStage::Deploy => 3,
        LaunchStage::StartLog => 4,
        LaunchStage::ProbeLog => 5,
        LaunchStage::Bootstrap => 6,
        LaunchStage::StartCluster => 7,
        LaunchStage::StartMonitor => 8,
        LaunchStage::Topology => 9,
        LaunchStage::UpdateTopology => 10,
        LaunchStage::DisplayTopology => 11,
    }
}

/// Whether the launch described by `inp` has stage `s`.
pub open spec fn has_launch_stage(inp: LaunchPlanInputs, s: LaunchStage) -> bool {
    match s {
        LaunchStage::InstallDeps => !inp.skip_deps,
        LaunchStage::StartLog | LaunchStage::ProbeLog => inp.has_log_service,
        LaunchStage::Bootstrap => inp.has_storage_service,
        _ => true,
    }
}

pub open spec fn launch_filter(inp: LaunchPlanInputs) -> spec_fn(LaunchStage) -> bool {
    |s: LaunchStage| has_launch_stage(inp, s)
}

pub open spec fn launch_places() -> spec_fn(LaunchStage) -> int {
    |s: LaunchStage| launch_place(s)
}

pub open spec fn all_launch_stages() -> Seq<LaunchStage> {
    Seq::new(12, |k: int| launch_stage_at(k))
}

/// The stages of the launch described by `inp`, in order.
pub open spec fn spec_launch_stages(inp: LaunchPlanInputs) -> Seq<LaunchStage> {
    select(all_launch_stages(), launch_filter(inp))
}

fn launch_stage_at_exec(k: usize) -> (r: LaunchStage)
    ensures
        r == launch_stage_at(k as int),
{
    if k == 0 { LaunchStage::SshCheck }
    else if k == 1 { LaunchStage::InstallDeps }
    else if k == 2 { LaunchStage::Check }
    else if k == 3 { LaunchStage::Deploy }
    else if k == 4 { LaunchStage::StartLog }
    else if k == 5 { LaunchStage::ProbeLog }
    else if k == 6 { LaunchStage::Bootstrap }
    else if k == 7 { LaunchStage::StartCluster }
    else if k == 8 { LaunchStage::StartMonitor }
    else if k == 9 { LaunchStage::Topology }
    else if k == 10 { LaunchStage::UpdateTopology }
    else { LaunchStage::DisplayTopology }
}

fn has_launch_stage_exec(inp: LaunchPlanInputs, s: LaunchStage) -> (r: bool)
    ensures
        r == has_launch_stage(inp, s),
{
    match s {
        LaunchStage::InstallDeps => !inp.skip_deps,
        LaunchStage::StartLog | LaunchStage::ProbeLog => inp.has_log_service,
        LaunchStage::Bootstrap => inp.has_storage_service,
        _ => true,
    }
}

/// The stages a launch runs, in order.
pub fn launch_stages(inp: LaunchPlanInputs) -> (r: Vec<LaunchStage>)
    ensures
        r@ == spec_launch_stages(inp),
{
    let ghost full = all_launch_stages();
    let mut r: Vec<LaunchStage> = Vec::new();
    let mut k: usize = 0;
    while k < 12
        invariant
            k <= 12,
            full == all_launch_stages(),
            r@ == select(full.subrange(0, k as int), launch_filter(inp)),
        decreases 12 - k,
    {
        let st = launch_stage_at_exec(k);
        let ghost pre1 = full.subrange(0, k + 1);
        assert(pre1.drop_last() =~= full.subrange(0, k as int));
        assert(pre1.last() == st);
        if has_launch_stage_exec(inp, st) {
            r.push(st);
        }
        k = k + 1;
    }
    assert(full.subrange(0, 12) =~= full);
    r
}

proof fn lemma_all_launch_stages()
    ensures
        ordered_by(all_launch_stages(), launch_places()),
        forall|x: LaunchStage| #[trigger] all_launch_stages().contains(x),
{
    let full = all_launch_stages();
    assert forall|k: int| 0 <= k < 12 implies launch_place(#[trigger] launch_stage_at(k)) == k by {}
    assert forall|i: int, j: int| 0 <= i < j < full.len() implies launch_place(#[trigger] full[i]) < launch_place(#[trigger] full[j]) by {
        assert(full[i] == launch_stage_at(i));
        assert(full[j] == launch_stage_at(j));
    }
    assert forall|x: LaunchStage| #[trigger] full.contains(x) by {
        let k = launch_place(x);
        assert(launch_stage_at(k) == x);
        assert(full[k] == x);
    }
}

/// The stages of a launch keep one fixed order and none repeats: the SSH
/// check comes first and the display of the topology last; a configured
/// log service is started, and answers, before the store is bootstrapped,
/// which comes before the cluster starts.
pub proof fn law_launch_stages_order(inp: LaunchPlanInputs)
    ensures
        ({
            let s = spec_launch_stages(inp);
            &&& ordered_by(s, launch_places())
            &&& s.no_duplicates()
            &&& forall|x: LaunchStage| #[trigger] s.contains(x) <==> has_launch_stage(inp, x)
            &&& forall|i: int, j: int| 0 <= i < s.len() && 0 <= j < s.len() && launch_place(s[i]) < launch_place(s[j]) ==> i < j
            &&& s[0] == LaunchStage::SshCheck
            &&& s.last() == LaunchStage::DisplayTopology
        }),
{
    let s = spec_launch_stages(inp);
    lemma_all_launch_stages();
    lemma_select_ordered(all_launch_stages(), launch_filter(inp), launch_places());
    lemma_ordered_facts(s, launch_places());
    assert forall|x: LaunchStage| #[trigger] s.contains(x) <==> has_launch_stage(inp, x) by {
        lemma_select_contains(all_launch_stages(), launch_filter(inp), x);
    }
    assert(s.contains(LaunchStage::SshCheck));
    assert(s.contains(LaunchStage::DisplayTopology));
    let a = choose|k: int| 0 <= k < s.len() && s[k] == LaunchStage::SshCheck;
    if a > 0 {
        assert(launch_place(s[a]) < launch_place(s[0]));
    }
    let b = choose|k: int| 0 <= k < s.len() && s[k] == LaunchStage::DisplayTopology;
    if b < s.len() - 1 {
        assert(launch_place(s[s.len() - 1]) < launch_place(s[b]));
    }
}

/// The topology file of the demo of `product`, in the configuration
/// directory `config_dir`.
pub fn demo_topology_file(config_dir: &str, product: &str) -> (r: String)
    ensures
        r@ == config_dir@ + "/demo-"@ + product@ + ".yaml"@,
{
    let mut r = String::from_str(config_dir);
    r.append("/demo-");
    r.append(product);
    r.append(".yaml");
    r
}

/// How many of `n` leader nodes bootstrap the store: the first only when
/// the store is DynamoDB or a data store service, else all.
pub open spec fn bootstrap_count(n: nat, first_only: bool) -> nat {
    if first_only && n > 1 { 1 } else { n }
}

/// The host and the port text of a node `host:port[:...]`: the text
/// before its first `:` and the text between its first and second `:`.
pub open spec fn host_and_port_fields(hp: Seq<char>) -> (Seq<char>, Seq<char>) {
    match split_once(hp, ':') {
        Some((h, rest)) => (h, node_host(rest)),
        None => (hp, Seq::empty()),
    }
}

/// The nodes that bootstrap the store, as host and port text: none (the
/// bootstrap is skipped) for a single leader on a data store service
/// without standbys; else the first leader when the store is DynamoDB or a
/// data store service, every leader otherwise.
pub open spec fn spec_bootstrap_targets(
    host_ports: Seq<Seq<char>>,
    has_dynamodb: bool,
    has_eloqdss: bool,
    has_standby: bool,
) -> Option<Seq<(Seq<char>, Seq<char>)>> {
    if has_eloqdss && host_ports.len() == 1 && !has_standby {
        None
    } else {
        let k = bootstrap_count(host_ports.len(), has_dynamodb || has_eloqdss);
        Some(host_ports.take(k as int).map_values(|hp: Seq<char>| host_and_port_fields(hp)))
    }
}

/// The nodes that bootstrap the store of a deployment whose leaders are
/// `host_ports` (each `host:port`).
pub fn bootstrap_targets(
    host_ports: &Vec<String>,
    has_dynamodb: bool,
    has_eloqdss: bool,
    has_standby: bool,
) -> (r: Option<Vec<(String, String)>>)
    requires
        forall|i: int| 0 <= i < bootstrap_count(host_ports@.len(), has_dynamodb || has_eloqdss)
            ==> (#[trigger] host_ports@[i])@.contains(':'),
    ensures
        match (r, spec_bootstrap_targets(views(host_ports@), has_dynamodb, has_eloqdss, has_standby)) {
            (Some(v), Some(t)) => v@.map_values(|p: (String, String)| (p.0@, p.1@)) == t,
            (None, None) => true,
            _ => false,
        },
{
    if has_eloqdss && host_ports.len() == 1 && !has_standby {
        return None;
    }
    let k: usize = if (has_dynamodb || has_eloqdss) && host_ports.len() > 1 { 1 } else { host_ports.len() };
    let ghost hv = views(host_ports@);
    let mut r: Vec<(String, String)> = Vec::new();
    let mut i: usize = 0;
    while i < k
        invariant
            i <= k,
            k <= host_ports.len(),
            k == bootstrap_count(host_ports@.len(), has_dynamodb || has_eloqdss),
            hv == views(host_ports@),
            forall|j: int| 0 <= j < k ==> (#[trigger] host_ports@[j])@.contains(':'),
            r@.map_values(|p: (String, String)| (p.0@, p.1@)) == hv.take(i as int).map_values(|hp: Seq<char>| host_and_port_fields(hp)),
        decreases k - i,
    {
        assert(hv[i as int] == host_ports@[i as int]@);
        let e = match split_once_char(host_ports[i].as_str(), ':') {
            Some((h, rest)) => {
                let p = host_of_node(rest.as_str());
                (h, p)
            },
            None => {
                proof {
                    assert(host_ports@[i as int]@.contains(':'));
                }
                (host_ports[i].clone(), String::new())
            },
        };
        let ghost ev = (e.0@, e.1@);
        assert(ev == host_and_port_fields(hv[i as int]));
        let ghost before = r@.map_values(|p: (String, String)| (p.0@, p.1@));
        r.push(e);
        assert(r@.map_values(|p: (String, String)| (p.0@, p.1@)) =~= before.push(ev));
        assert(hv.take(i + 1) =~= hv.take(i as int).push(hv[i as int]));
        assert(hv.take(i + 1).map_values(|hp: Seq<char>| host_and_port_fields(hp)) =~= hv.take(i as int).map_values(
            |hp: Seq<char>| host_and_port_fields(hp),
        ).push(host_and_port_fields(hv[i as int])));
        i = i + 1;
    }
    Some(r)
}

/// The stages of a configuration update (before any restart).
#[derive(Debug, Clone, Copy, PartialEq, Eq, Structural)]
pub enum ConfigUpdateStage {
    /// Create the installation and TLS certificate directories.
    CreateTlsDirs,
    /// Read the topology to find the node to update.
    Topology,
    /// Update the stored configuration of that node.
    UpdateNodeConfig,
    /// Update the stored configuration of every node.
    UpdateAllConfig,
    /// Copy the configuration files to the nodes.
    UploadConfig,
}

/// The stages of a configuration update of `has_fields` fields with TLS
/// `tls_enabled`, for one node when `for_one_node`: nothing when there is
/// neither a field nor TLS; else the TLS directories first (with TLS), the
/// stored configuration updated (of the node, found through the topology,
/// or of every node), and the files copied to the nodes last.
pub open spec fn spec_config_update_stages(tls_enabled: bool, has_fields: bool, for_one_node: bool) -> Seq<ConfigUpdateStage> {
    if !has_fields && !tls_enabled {
        Seq::empty()
    } else {
        (if tls_enabled { seq![ConfigUpdateStage::CreateTlsDirs] } else { Seq::empty() })
            + (if for_one_node {
                seq![ConfigUpdateStage::Topology] + (if has_fields { seq![ConfigUpdateStage::UpdateNodeConfig] } else { Seq::empty() })
            } else if has_fields {
                seq![ConfigUpdateStage::UpdateAllConfig]
            } else {
                Seq::empty()
            })
            + seq![ConfigUpdateStage::UploadConfig]
    }
}

/// The stages a configuration update runs, in order.
pub fn config_update_stages(tls_enabled: bool, has_fields: bool, for_one_node: bool) -> (r: Vec<ConfigUpdateStage>)
    ensures
        r@ == spec_config_update_stages(tls_enabled, has_fields, for_one_node),
{
    let mut r: Vec<ConfigUpdateStage> = Vec::new();
    if !has_fields && !tls_enabled {
        assert(r@ =~= spec_config_update_stages(tls_enabled, has_fields, for_one_node));
        return r;
    }
    if tls_enabled {
        r.push(ConfigUpdateStage::CreateTlsDirs);
    }
    if for_one_node {
        r.push(ConfigUpdateStage::Topology);
        if has_fields {
            r.push(ConfigUpdateStage::UpdateNodeConfig);
        }
    } else if has_fields {
        r.push(ConfigUpdateStage::UpdateAllConfig);
    }
    r.push(ConfigUpdateStage::UploadConfig);
    assert(r@ =~= spec_config_update_stages(tls_enabled, has_fields, for_one_node));
    r
}

/// The command that creates the installation directory and, with TLS,
/// the certificate directory `tls_dir` (once when it is the installation
/// directory).
pub fn install_dirs_command(install_dir: &str, tls_dir: Option<&str>) -> (r: String)
    ensures
        match tls_dir {
            Some(t) => if t@ == install_dir@ {
                r@ == "mkdir -p "@ + install_dir@
            } else {
                r@ == "mkdir -p "@ + install_dir@ + " "@ + t@
            },
            None => r@ == "mkdir -p "@ + install_dir@,
        },
{
    let mut cmd = String::from_str("mkdir -p ");
    cmd.append(install_dir);
    match tls_dir {
        Some(t) => {
            if !crate::text::str_eq(install_dir, t) {
                cmd.append(" ");
                cmd.append(t);
            }
        },
        None => {},
    }
    cmd
}

} // verus!
