//! Starting, stopping and restarting a whole cluster: which services a stop
//! reaches, and the stages a stop, a start and a restart run, in order.
use vstd::prelude::*;
use crate::text::{views, join, join_str};
use crate::order::{select, ordered_by, lemma_select_contains, lemma_select_ordered, lemma_ordered_facts};

verus! {

/// How a deployment stores its data, as far as starting and stopping it
/// goes.
#[derive(Debug, Clone, Copy)]
pub struct StoreLayout {
    /// The storage service is a data store service.
    pub has_eloqdss: bool,
    /// That service runs on hosts of its own that this tool manages.
    pub dss_remote_internal: bool,
    /// Its backend is a cloud EloqStore that this tool manages.
    pub eloqstore_cloud_internal: bool,
    /// The storage service is RocksDB served by a data store service.
    pub rocksdb_dss: bool,
    /// The local data of a cloud EloqStore is cleared before a start (it
    /// does not reuse its local files).
    pub clean_store_data: bool,
}

/// Whether a stop must reach the data store service even when not asked
/// to: it runs on managed hosts of its own, or serves a managed cloud
/// EloqStore.
pub open spec fn store_stops_with_cluster(l: StoreLayout) -> bool {
    l.has_eloqdss && (l.dss_remote_internal || l.eloqstore_cloud_internal)
}

/// Which services a stop reaches: the transaction service, the log service,
/// the data store service and the monitoring. `all` reaches every one;
/// otherwise the transaction service unless told not to, the log service
/// and the monitoring as asked, and the store as asked or when it must stop
/// with the cluster.
pub fn stop_targets(all: bool, tx: Option<bool>, log: bool, store: bool, monitor: bool, layout: StoreLayout) -> (r: (bool, bool, bool, bool))
    ensures
        all ==> r == (true, true, true, true),
        !all ==> r == (
            match tx { Some(t) => t, None => true },
            log,
            store || store_stops_with_cluster(layout),
            monitor,
        ),
{
    if all {
        return (true, true, true, true);
    }
    let t = match tx {
        Some(t) => t,
        None => true,
    };
    let auto_store = layout.has_eloqdss && (layout.dss_remote_internal || layout.eloqstore_cloud_internal);
    (t, log, store || auto_store, monitor)
}

/// The stages of stopping and starting a cluster.
#[derive(Debug, Clone, Copy, PartialEq, Eq, Structural)]
pub enum CtrlStage {
    /// Stop the listed nodes.
    StopNodes,
    /// Stop the standbys.
    StopStandby,
    /// Stop the voters.
    StopVoter,
    /// Stop the transaction service.
    StopTx,
    /// Stop the transaction service moving the masters to the standbys first.
    StopWithHotStandby,
    /// Stop the log service.
    StopLog,
    /// Stop the data store service.
    StopStore,
    /// Stop the monitoring.
    StopMonitor,
    /// Start the listed nodes.
    StartNodes,
    /// Clear the local data of a cloud EloqStore.
    CleanStoreData,
    /// Start the data store service.
    StartStore,
    /// Start the log service.
    StartLog,
    /// Wait until the log service answers.
    ProbeLog,
    /// Start the transaction service, standbys and voters.
    StartTx,
    /// Wait until the service processes run.
    CheckStatus,
    /// Wait until the cluster has a serving master.
    WaitCurrentMaster,
}

/// The place of a stage in the one order stages run in: stops before
/// starts; the transaction service stops before the log service, which
/// stops before the store; the store starts before the log service, which
/// starts (and answers) before the transaction service.
pub open spec fn ctrl_place(s: CtrlStage) -> int {
    match s {
        CtrlStage::StopNodes => 0,
        CtrlStage::StopStandby => 1,
        CtrlStage::StopVoter => 2,
        CtrlStage::StopTx => 3,
        CtrlStage::StopWithHotStandby => 4,
        CtrlStage::StopLog => 5,
        CtrlStage::StopStore => 6,
        CtrlStage::StopMonitor => 7,
        CtrlStage::StartNodes => 8,
        CtrlStage::CleanStoreData => 9,
        CtrlStage::StartStore => 10,
        CtrlStage::StartLog => 11,
        CtrlStage::ProbeLog => 12,
        CtrlStage::StartTx => 13,
        CtrlStage::CheckStatus => 14,
        CtrlStage::WaitCurrentMaster => 15,
    }
}

pub open spec fn ctrl_stage_at(k: int) -> CtrlStage {
    if k == 0 { CtrlStage::StopNodes }
    else if k == 1 { CtrlStage::StopStandby }
    else if k == 2 { CtrlStage::StopVoter }
    else if k == 3 { CtrlStage::StopTx }
    else if k == 4 { CtrlStage::StopWithHotStandby }
    else if k == 5 { CtrlStage::StopLog }
    else if k == 6 { CtrlStage::StopStore }
    else if k == 7 { CtrlStage::StopMonitor }
    else if k == 8 { CtrlStage::StartNodes }
    else if k == 9 { CtrlStage::CleanStoreData }
    else if k == 10 { CtrlStage::StartStore }
    else if k == 11 { CtrlStage::StartLog }
    else if k == 12 { CtrlStage::ProbeLog }
    else if k == 13 { CtrlStage::StartTx }
    else if k == 14 { CtrlStage::CheckStatus }
    else { CtrlStage::WaitCurrentMaster }
}

fn ctrl_stage_at_exec(k: usize) -> (r: CtrlStage)
    ensures
        r == ctrl_stage_at(k as int),
{
    if k == 0 { CtrlStage::StopNodes }
    else if k == 1 { CtrlStage::StopStandby }
    else if k == 2 { CtrlStage::StopVoter }
    else if k == 3 { CtrlStage::StopTx }
    else if k == 4 { CtrlStage::StopWithHotStandby }
    else if k == 5 { CtrlStage::StopLog }
    else if k == 6 { CtrlStage::StopStore }
    else if k == 7 { CtrlStage::StopMonitor }
    else if k == 8 { CtrlStage::StartNodes }
    else if k == 9 { CtrlStage::CleanStoreData }
    else if k == 10 { CtrlStage::StartStore }
    else if k == 11 { CtrlStage::StartLog }
    else if k == 12 { CtrlStage::ProbeLog }
    else if k == 13 { CtrlStage::StartTx }
    else if k == 14 { CtrlStage::CheckStatus }
    else { CtrlStage::WaitCurrentMaster }
}

pub open spec fn all_ctrl_stages() -> Seq<CtrlStage> {
    Seq::new(16, |k: int| ctrl_stage_at(k))
}

pub open spec fn ctrl_places() -> spec_fn(CtrlStage) -> int {
    |s: CtrlStage| ctrl_place(s)
}

/// What decides the stages of a stop.
#[derive(Debug, Clone, Copy)]
pub struct StopPlanInputs {
    /// The services the stop reaches (see `stop_targets`).
    pub tx: bool,
    pub log: bool,
    pub store: bool,
    pub monitor: bool,
    /// Particular nodes were named.
    pub has_nodes: bool,
    /// The cluster is removed, or the stop is forced.
    pub remove_or_force: bool,
    pub has_standby: bool,
    pub has_voter: bool,
    pub has_log_service: bool,
    pub has_monitor: bool,
    pub layout: StoreLayout,
}

/// Whether a stop described by `inp` has stage `s`.
pub open spec fn has_stop_stage(inp: StopPlanInputs, s: CtrlStage) -> bool {
    let whole = inp.tx && !inp.has_nodes;
    match s {
        CtrlStage::StopNodes => inp.tx && inp.has_nodes,
        CtrlStage::StopStandby => whole && inp.remove_or_force && inp.has_standby,
        CtrlStage::StopVoter => whole && inp.remove_or_force && inp.has_voter,
        CtrlStage::StopTx => whole && (inp.remove_or_force || !inp.has_standby),
        CtrlStage::StopWithHotStandby => whole && !inp.remove_or_force && inp.has_standby,
        CtrlStage::StopLog => inp.log && inp.has_log_service,
        CtrlStage::StopStore => inp.store && (if inp.layout.has_eloqdss {
            inp.layout.dss_remote_internal
        } else {
            inp.layout.rocksdb_dss
        }),
        CtrlStage::StopMonitor => inp.monitor && inp.has_monitor,
        _ => false,
    }
}

fn has_stop_stage_exec(inp: StopPlanInputs, s: CtrlStage) -> (r: bool)
    ensures
        r == has_stop_stage(inp, s),
{
    let whole = inp.tx && !inp.has_nodes;
    match s {
        CtrlStage::StopNodes => inp.tx && inp.has_nodes,
        CtrlStage::StopStandby => whole && inp.remove_or_force && inp.has_standby,
        CtrlStage::StopVoter => whole && inp.remove_or_force && inp.has_voter,
        CtrlStage::StopTx => whole && (inp.remove_or_force || !inp.has_standby),
        CtrlStage::StopWithHotStandby => whole && !inp.remove_or_force && inp.has_standby,
        CtrlStage::StopLog => inp.log && inp.has_log_service,
        CtrlStage::StopStore => inp.store && (if inp.layout.has_eloqdss {
            inp.layout.dss_remote_internal
        } else {
            inp.layout.rocksdb_dss
        }),
        CtrlStage::StopMonitor => inp.monitor && inp.has_monitor,
        _ => false,
    }
}

/// What decides the stages of a start.
#[derive(Debug, Clone, Copy)]
pub struct StartPlanInputs {
    /// Particular nodes were named.
    pub has_nodes: bool,
    /// The log service already runs (a launch started it).
    pub skip_log_service: bool,
    pub has_log_service: bool,
    /// The product is EloqKV in cluster mode.
    pub eloqkv_cluster_mode: bool,
    pub layout: StoreLayout,
}

/// Whether a start described by `inp` has stage `s`.
pub open spec fn has_start_stage(inp: StartPlanInputs, s: CtrlStage) -> bool {
    let whole = !inp.has_nodes;
    match s {
        CtrlStage::StartNodes => inp.has_nodes,
        CtrlStage::CleanStoreData => whole && inp.layout.clean_store_data,
        CtrlStage::StartStore => whole && (inp.layout.rocksdb_dss || inp.layout.dss_remote_internal),
        CtrlStage::StartLog | CtrlStage::ProbeLog => whole && !inp.skip_log_service && inp.has_log_service,
        CtrlStage::StartTx => whole,
        CtrlStage::CheckStatus => true,
        CtrlStage::WaitCurrentMaster => inp.eloqkv_cluster_mode,
        _ => false,
    }
}

fn has_start_stage_exec(inp: StartPlanInputs, s: CtrlStage) -> (r: bool)
    ensures
        r == has_start_stage(inp, s),
{
    let whole = !inp.has_nodes;
    match s {
        CtrlStage::StartNodes => inp.has_nodes,
        CtrlStage::CleanStoreData => whole && inp.layout.clean_store_data,
        CtrlStage::StartStore => whole && (inp.layout.rocksdb_dss || inp.layout.dss_remote_internal),
        CtrlStage::StartLog | CtrlStage::ProbeLog => whole && !inp.skip_log_service && inp.has_log_service,
        CtrlStage::StartTx => whole,
        CtrlStage::CheckStatus => true,
        CtrlStage::WaitCurrentMaster => inp.eloqkv_cluster_mode,
        _ => false,
    }
}

/// A stop, a start, or a stop followed by a start.
#[derive(Debug, Clone, Copy)]
pub enum CtrlPlan {
    Stop(StopPlanInputs),
    Start(StartPlanInputs),
    Restart(StopPlanInputs, StartPlanInputs),
}

/// Whether the plan has stage `s`.
pub open spec fn has_ctrl_stage(p: CtrlPlan, s: CtrlStage) -> bool {
    match p {
        CtrlPlan::Stop(a) => has_stop_stage(a, s),
        CtrlPlan::Start(b) => has_start_stage(b, s),
        CtrlPlan::Restart(a, b) => has_stop_stage(a, s) || has_start_stage(b, s),
    }
}

pub open spec fn ctrl_filter(p: CtrlPlan) -> spec_fn(CtrlStage) -> bool {
    |s: CtrlStage| has_ctrl_stage(p, s)
}

/// The stages of plan `p`, in order.
pub open spec fn spec_ctrl_stages(p: CtrlPlan) -> Seq<CtrlStage> {
    select(all_ctrl_stages(), ctrl_filter(p))
}

fn has_ctrl_stage_exec(p: CtrlPlan, s: CtrlStage) -> (r: bool)
    ensures
        r == has_ctrl_stage(p, s),
{
    match p {
        CtrlPlan::Stop(a) => has_stop_stage_exec(a, s),
        CtrlPlan::Start(b) => has_start_stage_exec(b, s),
        CtrlPlan::Restart(a, b) => has_stop_stage_exec(a, s) || has_start_stage_exec(b, s),
    }
}

/// The stages a stop, start or restart runs, in order.
pub fn ctrl_stages(p: CtrlPlan) -> (r: Vec<CtrlStage>)
    ensures
        r@ == spec_ctrl_stages(p),
{
    let ghost full = all_ctrl_stages();
    let mut r: Vec<CtrlStage> = Vec::new();
    let mut k: usize = 0;
    while k < 16
        invariant
            k <= 16,
            full == all_ctrl_stages(),
            r@ == select(full.subrange(0, k as int), ctrl_filter(p)),
        decreases 16 - k,
    {
        let st = ctrl_stage_at_exec(k);
        let ghost pre1 = full.subrange(0, k + 1);
        assert(pre1.drop_last() =~= full.subrange(0, k as int));
        assert(pre1.last() == st);
        if has_ctrl_stage_exec(p, st) {
            r.push(st);
        }
        k = k + 1;
    }
    assert(full.subrange(0, 16) =~= full);
    r
}

proof fn lemma_all_ctrl_stages()
    ensures
        ordered_by(all_ctrl_stages(), ctrl_places()),
        forall|x: CtrlStage| #[trigger] all_ctrl_stages().contains(x),
{
    let full = all_ctrl_stages();
    assert forall|k: int| 0 <= k < 16 implies ctrl_place(#[trigger] ctrl_stage_at(k)) == k by {}
    assert forall|i: int, j: int| 0 <= i < j < full.len() implies ctrl_place(#[trigger] full[i]) < ctrl_place(#[trigger] full[j]) by {
        assert(full[i] == ctrl_stage_at(i));
        assert(full[j] == ctrl_stage_at(j));
    }
    assert forall|x: CtrlStage| #[trigger] full.contains(x) by {
        let k = ctrl_place(x);
        assert(ctrl_stage_at(k) == x);
        assert(full[k] == x);
    }
}

/// Whether `s` is a stage that stops something.
pub open spec fn is_stop_stage(s: CtrlStage) -> bool {
    ctrl_place(s) < 8
}

/// The stages of a stop, start or restart keep one order and none repeats:
/// in a restart every stop comes before every start; the transaction
/// service stops before the log service and the log service before the
/// store; the store starts before the log service, the log service answers
/// before the transaction service starts, and the wait for the running
/// processes comes after every start. A stop has only stop stages, a start
/// only start stages.
pub proof fn law_ctrl_stages_order(p: CtrlPlan)
    ensures
        ({
            let s = spec_ctrl_stages(p);
            &&& ordered_by(s, ctrl_places())
            &&& s.no_duplicates()
            &&& forall|x: CtrlStage| #[trigger] s.contains(x) <==> has_ctrl_stage(p, x)
            &&& forall|i: int, j: int| 0 <= i < s.len() && 0 <= j < s.len() && ctrl_place(s[i]) < ctrl_place(s[j]) ==> i < j
            &&& forall|i: int, j: int| 0 <= i < s.len() && 0 <= j < s.len() && is_stop_stage(s[i]) && !is_stop_stage(s[j]) ==> i < j
            &&& (p is Stop ==> forall|i: int| 0 <= i < s.len() ==> is_stop_stage(#[trigger] s[i]))
            &&& (p is Start ==> forall|i: int| 0 <= i < s.len() ==> !is_stop_stage(#[trigger] s[i]))
        }),
{
    let s = spec_ctrl_stages(p);
    lemma_all_ctrl_stages();
    lemma_select_ordered(all_ctrl_stages(), ctrl_filter(p), ctrl_places());
    lemma_ordered_facts(s, ctrl_places());
    assert forall|x: CtrlStage| #[trigger] s.contains(x) <==> has_ctrl_stage(p, x) by {
        lemma_select_contains(all_ctrl_stages(), ctrl_filter(p), x);
    }
    assert forall|i: int| 0 <= i < s.len() implies has_ctrl_stage(p, #[trigger] s[i]) by {
        assert(s.contains(s[i]));
    }
}

/// What a cluster status reports on, in the order it asks.
#[derive(Debug, Clone, Copy, PartialEq, Eq, Structural)]
pub enum StatusTarget {
    Store,
    Log,
    Standby,
    Voter,
    Tx,
    NodeExporter,
    Prometheus,
    Alertmanager,
    Grafana,
    PrometheusAlert,
}

pub open spec fn opt_target(b: bool, t: StatusTarget) -> Seq<StatusTarget> {
    if b { seq![t] } else { Seq::empty() }
}

/// The targets of a cluster status: the data store service when this tool
/// runs it, the log service, standbys and voters when configured, the
/// transaction service, then each monitoring component when monitoring is
/// configured.
pub open spec fn spec_status_targets(
    layout: StoreLayout,
    has_log_service: bool,
    has_standby: bool,
    has_voter: bool,
    has_monitor: bool,
) -> Seq<StatusTarget> {
    opt_target(layout.rocksdb_dss || layout.dss_remote_internal, StatusTarget::Store)
        + opt_target(has_log_service, StatusTarget::Log)
        + opt_target(has_standby, StatusTarget::Standby)
        + opt_target(has_voter, StatusTarget::Voter)
        + seq![StatusTarget::Tx]
        + (if has_monitor {
            seq![StatusTarget::NodeExporter, StatusTarget::Prometheus, StatusTarget::Alertmanager,
                StatusTarget::Grafana, StatusTarget::PrometheusAlert]
        } else {
            Seq::empty()
        })
}

/// The targets of a cluster status, in order.
pub fn status_targets(
    layout: StoreLayout,
    has_log_service: bool,
    has_standby: bool,
    has_voter: bool,
    has_monitor: bool,
) -> (r: Vec<StatusTarget>)
    ensures
        r@ == spec_status_targets(layout, has_log_service, has_standby, has_voter, has_monitor),
{
    let mut r: Vec<StatusTarget> = Vec::new();
    if layout.rocksdb_dss || layout.dss_remote_internal {
        r.push(StatusTarget::Store);
    }
    if has_log_service {
        r.push(StatusTarget::Log);
    }
    if has_standby {
        r.push(StatusTarget::Standby);
    }
    if has_voter {
        r.push(StatusTarget::Voter);
    }
    r.push(StatusTarget::Tx);
    if has_monitor {
        r.push(StatusTarget::NodeExporter);
        r.push(StatusTarget::Prometheus);
        r.push(StatusTarget::Alertmanager);
        r.push(StatusTarget::Grafana);
        r.push(StatusTarget::PrometheusAlert);
    }
    assert(r@ =~= spec_status_targets(layout, has_log_service, has_standby, has_voter, has_monitor));
    r
}

/// The stages of removing a cluster.
#[derive(Debug, Clone, Copy, PartialEq, Eq, Structural)]
pub enum RemoveStage {
    /// Stop every service (as a stop reaching all of them).
    StopCluster,
    /// Delete the log service's data on each of its hosts.
    CleanLogData,
    /// Delete the installation directory on every host.
    CleanInstallDir,
    /// Delete every backup of the cluster.
    RemoveBackups,
}

/// The stages of removing a cluster: nothing at all when forced; else
/// stop it first, then delete its log data (when it has a log service),
/// its installation and its backups.
pub open spec fn spec_remove_stages(force: bool, has_log_service: bool) -> Seq<RemoveStage> {
    if force {
        Seq::empty()
    } else if has_log_service {
        seq![RemoveStage::StopCluster, RemoveStage::CleanLogData, RemoveStage::CleanInstallDir, RemoveStage::RemoveBackups]
    } else {
        seq![RemoveStage::StopCluster, RemoveStage::CleanInstallDir, RemoveStage::RemoveBackups]
    }
}

/// The stages a removal runs, in order.
pub fn remove_stages(force: bool, has_log_service: bool) -> (r: Vec<RemoveStage>)
    ensures
        r@ == spec_remove_stages(force, has_log_service),
{
    let mut r: Vec<RemoveStage> = Vec::new();
    if force {
        assert(r@ =~= spec_remove_stages(force, has_log_service));
        return r;
    }
    r.push(RemoveStage::StopCluster);
    if has_log_service {
        r.push(RemoveStage::CleanLogData);
    }
    r.push(RemoveStage::CleanInstallDir);
    r.push(RemoveStage::RemoveBackups);
    assert(r@ =~= spec_remove_stages(force, has_log_service));
    r
}

/// The command that deletes the log directories `dirs` of one host, and the
/// name of its task.
pub fn log_data_cleanup(host: &str, dirs: &Vec<String>) -> (r: (String, String))
    ensures
        r.0@ == "clean_log@"@ + host@,
        r.1@ == join(views(dirs@).map_values(|d: Seq<char>| "rm -rf "@ + d), " && "@),
{
    let mut parts: Vec<String> = Vec::new();
    let mut i: usize = 0;
    while i < dirs.len()
        invariant
            i <= dirs.len(),
            views(parts@) == views(dirs@).subrange(0, i as int).map_values(|d: Seq<char>| "rm -rf "@ + d),
        decreases dirs.len() - i,
    {
        let mut p = String::from_str("rm -rf ");
        p.append(dirs[i].as_str());
        let ghost pv = p@;
        let ghost before = views(parts@);
        parts.push(p);
        assert(views(parts@) =~= before.push(pv));
        assert(views(dirs@).subrange(0, i + 1) =~= views(dirs@).subrange(0, i as int).push(dirs@[i as int]@));
        assert(views(parts@) =~= views(dirs@).subrange(0, i + 1).map_values(|d: Seq<char>| "rm -rf "@ + d));
        i = i + 1;
    }
    assert(views(dirs@).subrange(0, dirs.len() as int) =~= views(dirs@));
    let mut name = String::from_str("clean_log@");
    name.append(host);
    (name, join_str(&parts, " && "))
}


/// A start or restart of the whole cluster starts the data store service
/// whenever the deployment runs one this tool manages: a RocksDB data store
/// service, or a data store service on managed hosts of its own. So a
/// restart that stops the store also starts it again.
pub proof fn law_whole_start_starts_store(p: CtrlPlan)
    ensures
        (p matches CtrlPlan::Start(b) && !b.has_nodes && (b.layout.rocksdb_dss || b.layout.dss_remote_internal))
            ==> spec_ctrl_stages(p).contains(CtrlStage::StartStore),
        (p matches CtrlPlan::Restart(a, b) && !b.has_nodes && (b.layout.rocksdb_dss || b.layout.dss_remote_internal))
            ==> spec_ctrl_stages(p).contains(CtrlStage::StartStore),
        (p matches CtrlPlan::Restart(a, b) && !b.has_nodes && a.layout == b.layout
            && spec_ctrl_stages(p).contains(CtrlStage::StopStore)) ==> spec_ctrl_stages(p).contains(CtrlStage::StartStore),
{
    lemma_all_ctrl_stages();
    lemma_select_contains(all_ctrl_stages(), ctrl_filter(p), CtrlStage::StartStore);
    lemma_select_contains(all_ctrl_stages(), ctrl_filter(p), CtrlStage::StopStore);
}

} // verus!
