//! The rolling upgrade of a cluster: what the upgrade knows of the
//! deployment, the node batches it records between steps, the ordered
//! steps of a binary upgrade and of a configuration restart, and the
//! decisions each topology-driven step takes on the reported topology.
use vstd::prelude::*;
use crate::text::{views, dedup, lemma_dedup_props, str_eq, split_once, split_once_char, parse_u16, spec_parse_u16, decimal};
use crate::topology::spec_parse_host_port;
use crate::topology::{
    ClusterNodes, NodeView, FailoverError, FailoverErrorView, addrs, connected_managed,
    connected_managed_nodes, ordered_without, without, seconds, pairs_result_view,
    spec_select_failover_targets, spec_plan_selected_failover, select_connected_failover_targets,
    plan_selected_failover,
};

verus! {

/// What the rolling upgrade reads of a deployment.
#[derive(Debug)]
pub struct DeployTopology {
    pub cluster_name: String,
    /// `host:port` of every tx server.
    pub tx_host_ports: Vec<String>,
    /// `host:port` of every standby, when the deployment has standbys.
    pub standby_host_ports: Option<Vec<String>>,
    /// `host:port` of every voter, when the deployment has voters.
    pub voter_host_ports: Option<Vec<String>>,
    pub has_log_service: bool,
    /// The password the deployment configures for the cluster.
    pub redis_password: Option<String>,
}

/// The command that started the upgrade.
#[derive(Debug)]
pub enum UpgradeCommand {
    Update { password: Option<String>, force: bool, skip_log_restart: bool },
    UpdateConf { password: Option<String> },
    Other,
}

/// Mathematical value of an [`UpgradeContext`].
pub struct UpgradeView {
    pub cluster: Seq<char>,
    pub redis_password: Option<Seq<char>>,
    pub force: bool,
    pub skip_log_restart: bool,
    pub tx: Seq<Seq<char>>,
    pub standby: Option<Seq<Seq<char>>>,
    pub voter: Option<Seq<Seq<char>>>,
    pub has_log: bool,
    pub first_batch: Seq<Seq<char>>,
    pub second_batch: Seq<Seq<char>>,
    pub temporary_leaders: Seq<Seq<char>>,
    pub restart: Seq<Seq<char>>,
}

pub open spec fn opt_str_view(o: Option<String>) -> Option<Seq<char>> {
    match o {
        Some(s) => Some(s@),
        None => None,
    }
}

pub open spec fn opt_list_view(o: Option<Vec<String>>) -> Option<Seq<Seq<char>>> {
    match o {
        Some(v) => Some(views(v@)),
        None => None,
    }
}

/// The list an optional list stands for: empty when absent.
pub open spec fn list_or_empty(o: Option<Seq<Seq<char>>>) -> Seq<Seq<char>> {
    match o {
        Some(v) => v,
        None => Seq::empty(),
    }
}

/// The password an upgrade uses: the one given on the command line, else
/// the one the deployment configures.
pub open spec fn resolve_password(cli: Option<Seq<char>>, configured: Option<Seq<char>>) -> Option<Seq<char>> {
    match cli {
        Some(p) => Some(p),
        None => configured,
    }
}

/// Everything a step of the rolling upgrade reads, and the node batches the
/// steps hand on to the later ones.
#[derive(Debug)]
pub struct UpgradeContext {
    pub deploy: DeployTopology,
    pub cluster: String,
    pub redis_password: Option<String>,
    pub force: bool,
    pub skip_log_restart: bool,
    first_batch_nodes: Vec<String>,
    second_batch_nodes: Vec<String>,
    temporary_leader_nodes: Vec<String>,
    restart_nodes: Vec<String>,
}

impl View for UpgradeContext {
    type V = UpgradeView;

    closed spec fn view(&self) -> UpgradeView {
        UpgradeView {
            cluster: self.cluster@,
            redis_password: opt_str_view(self.redis_password),
            force: self.force,
            skip_log_restart: self.skip_log_restart,
            tx: views(self.deploy.tx_host_ports@),
            standby: opt_list_view(self.deploy.standby_host_ports),
            voter: opt_list_view(self.deploy.voter_host_ports),
            has_log: self.deploy.has_log_service,
            first_batch: views(self.first_batch_nodes@),
            second_batch: views(self.second_batch_nodes@),
            temporary_leaders: views(self.temporary_leader_nodes@),
            restart: views(self.restart_nodes@),
        }
    }
}

fn clone_password(o: &Option<String>) -> (r: Option<String>)
    ensures
        opt_str_view(r) == opt_str_view(*o),
{
    match o {
        Some(s) => Some(s.clone()),
        None => None,
    }
}

pub fn clone_strings(v: &Vec<String>) -> (r: Vec<String>)
    ensures
        views(r@) == views(v@),
{
    let mut r: Vec<String> = Vec::new();
    let mut i: usize = 0;
    while i < v.len()
        invariant
            i <= v.len(),
            views(r@) == views(v@).subrange(0, i as int),
        decreases v.len() - i,
    {
        let c = v[i].clone();
        let ghost old_r = r@;
        r.push(c);
        assert(views(r@) =~= views(old_r).push(v@[i as int]@));
        assert(views(v@).subrange(0, i + 1) =~= views(v@).subrange(0, i as int).push(v@[i as int]@));
        i = i + 1;
    }
    assert(views(v@).subrange(0, v.len() as int) =~= views(v@));
    r
}

/// `a` followed by `b`.
pub fn concat_strings(a: &Vec<String>, b: &Vec<String>) -> (r: Vec<String>)
    ensures
        views(r@) == views(a@) + views(b@),
{
    let mut r = clone_strings(a);
    let mut i: usize = 0;
    while i < b.len()
        invariant
            i <= b.len(),
            views(r@) == views(a@) + views(b@).subrange(0, i as int),
        decreases b.len() - i,
    {
        let c = b[i].clone();
        let ghost old_r = r@;
        r.push(c);
        assert(views(r@) =~= views(old_r).push(b@[i as int]@));
        assert(views(b@).subrange(0, i + 1) =~= views(b@).subrange(0, i as int).push(b@[i as int]@));
        assert(views(r@) =~= views(a@) + views(b@).subrange(0, i + 1));
        i = i + 1;
    }
    assert(views(b@).subrange(0, b.len() as int) =~= views(b@));
    r
}

impl UpgradeContext {
    /// The context of an upgrade started by `cmd` on `deploy`: `update` takes
    /// its password, `force` and `skip_log_restart` flags from the command,
    /// `update-conf` its password only; the node batches start empty.
    pub fn new(cmd: &UpgradeCommand, deploy: DeployTopology) -> (r: UpgradeContext)
        ensures
            r@.cluster == deploy.cluster_name@,
            r@.tx == views(deploy.tx_host_ports@),
            r@.standby == opt_list_view(deploy.standby_host_ports),
            r@.voter == opt_list_view(deploy.voter_host_ports),
            r@.has_log == deploy.has_log_service,
            r@.redis_password == match cmd {
                UpgradeCommand::Update { password, .. } => resolve_password(opt_str_view(*password), opt_str_view(deploy.redis_password)),
                UpgradeCommand::UpdateConf { password } => resolve_password(opt_str_view(*password), opt_str_view(deploy.redis_password)),
                UpgradeCommand::Other => None,
            },
            r@.force == match cmd {
                UpgradeCommand::Update { force, .. } => *force,
                _ => false,
            },
            r@.skip_log_restart == match cmd {
                UpgradeCommand::Update { skip_log_restart, .. } => *skip_log_restart,
                _ => false,
            },
            r@.first_batch.len() == 0,
            r@.second_batch.len() == 0,
            r@.temporary_leaders.len() == 0,
            r@.restart.len() == 0,
    {
        let (redis_password, force, skip_log_restart) = match cmd {
            UpgradeCommand::Update { password, force, skip_log_restart } => {
                let p = match password {
                    Some(p) => Some(p.clone()),
                    None => clone_password(&deploy.redis_password),
                };
                (p, *force, *skip_log_restart)
            },
            UpgradeCommand::UpdateConf { password } => {
                let p = match password {
                    Some(p) => Some(p.clone()),
                    None => clone_password(&deploy.redis_password),
                };
                (p, false, false)
            },
            UpgradeCommand::Other => (None, false, false),
        };
        let cluster = deploy.cluster_name.clone();
        let r = UpgradeContext {
            deploy,
            cluster,
            redis_password,
            force,
            skip_log_restart,
            first_batch_nodes: Vec::new(),
            second_batch_nodes: Vec::new(),
            temporary_leader_nodes: Vec::new(),
            restart_nodes: Vec::new(),
        };
        assert(views(r.first_batch_nodes@) =~= Seq::<Seq<char>>::empty());
        assert(views(r.second_batch_nodes@) =~= Seq::<Seq<char>>::empty());
        assert(views(r.temporary_leader_nodes@) =~= Seq::<Seq<char>>::empty());
        assert(views(r.restart_nodes@) =~= Seq::<Seq<char>>::empty());
        r
    }

    /// Whether the deployment has standby nodes.
    pub fn has_standby(&self) -> (b: bool)
        ensures
            b == (self@.standby is Some),
    {
        self.deploy.standby_host_ports.is_some()
    }

    /// Whether the deployment has voter nodes.
    pub fn has_voter(&self) -> (b: bool)
        ensures
            b == (self@.voter is Some),
    {
        self.deploy.voter_host_ports.is_some()
    }

    /// Whether the deployment has a log service.
    pub fn has_log(&self) -> (b: bool)
        ensures
            b == self@.has_log,
    {
        self.deploy.has_log_service
    }

    /// `host:port` of every tx server.
    pub fn tx_host_ports(&self) -> (r: Vec<String>)
        ensures
            views(r@) == self@.tx,
    {
        clone_strings(&self.deploy.tx_host_ports)
    }

    /// `host:port` of every standby; empty without standbys.
    pub fn standby_host_ports(&self) -> (r: Vec<String>)
        ensures
            views(r@) == list_or_empty(self@.standby),
    {
        match &self.deploy.standby_host_ports {
            Some(v) => clone_strings(v),
            None => {
                let r: Vec<String> = Vec::new();
                assert(views(r@) =~= Seq::<Seq<char>>::empty());
                r
            },
        }
    }

    /// `host:port` of every voter; empty without voters.
    pub fn voter_host_ports(&self) -> (r: Vec<String>)
        ensures
            views(r@) == list_or_empty(self@.voter),
    {
        match &self.deploy.voter_host_ports {
            Some(v) => clone_strings(v),
            None => {
                let r: Vec<String> = Vec::new();
                assert(views(r@) =~= Seq::<Seq<char>>::empty());
                r
            },
        }
    }

    /// The nodes a topology query starts from: the tx servers, then the
    /// standbys.
    pub fn redis_cluster_startup_nodes(&self) -> (r: Vec<String>)
        ensures
            views(r@) == self@.tx + list_or_empty(self@.standby),
    {
        let tx = self.tx_host_ports();
        let sb = self.standby_host_ports();
        concat_strings(&tx, &sb)
    }

    /// The tx and standby nodes the upgrade manages, tx servers first.
    pub fn managed_tx_and_standby_nodes(&self) -> (r: Vec<String>)
        ensures
            views(r@) == self@.tx + list_or_empty(self@.standby),
    {
        let tx = self.tx_host_ports();
        let sb = self.standby_host_ports();
        concat_strings(&tx, &sb)
    }

    /// The key-value nodes a rolling update restarts: the managed tx and
    /// standby nodes.
    pub fn rolling_update_kv_nodes(&self) -> (r: Vec<String>)
        ensures
            views(r@) == self@.tx + list_or_empty(self@.standby),
    {
        self.managed_tx_and_standby_nodes()
    }

    /// The managed tx and standby nodes as a set.
    pub fn managed_tx_and_standby_set(&self) -> (r: Vec<String>)
        ensures
            views(r@) == dedup(self@.tx + list_or_empty(self@.standby)),
    {
        let v = self.managed_tx_and_standby_nodes();
        crate::text::dedup_strings(&v)
    }

    pub fn set_first_batch_nodes(&mut self, nodes: Vec<String>)
        ensures
            final(self)@ == (UpgradeView { first_batch: views(nodes@), ..old(self)@ }),
    {
        self.first_batch_nodes = nodes;
    }

    pub fn first_batch_nodes(&self) -> (r: Vec<String>)
        ensures
            views(r@) == self@.first_batch,
    {
        clone_strings(&self.first_batch_nodes)
    }

    pub fn set_second_batch_nodes(&mut self, nodes: Vec<String>)
        ensures
            final(self)@ == (UpgradeView { second_batch: views(nodes@), ..old(self)@ }),
    {
        self.second_batch_nodes = nodes;
    }

    pub fn second_batch_nodes(&self) -> (r: Vec<String>)
        ensures
            views(r@) == self@.second_batch,
    {
        clone_strings(&self.second_batch_nodes)
    }

    pub fn set_temporary_leader_nodes(&mut self, nodes: Vec<String>)
        ensures
            final(self)@ == (UpgradeView { temporary_leaders: views(nodes@), ..old(self)@ }),
    {
        self.temporary_leader_nodes = nodes;
    }

    pub fn temporary_leader_nodes(&self) -> (r: Vec<String>)
        ensures
            views(r@) == self@.temporary_leaders,
    {
        clone_strings(&self.temporary_leader_nodes)
    }

    pub fn set_restart_nodes(&mut self, nodes: Vec<String>)
        ensures
            final(self)@ == (UpgradeView { restart: views(nodes@), ..old(self)@ }),
    {
        self.restart_nodes = nodes;
    }

    pub fn restart_nodes(&self) -> (r: Vec<String>)
        ensures
            views(r@) == self@.restart,
    {
        clone_strings(&self.restart_nodes)
    }
}


/// The steps of a rolling upgrade or configuration restart.
#[derive(Debug, Clone, Copy, PartialEq, Eq, Structural)]
pub enum StepKind {
    StopStandbyOnly,
    FailoverAndStopOldMaster,
    SelectStandbyForFailover,
    FailoverToStandby,
    DownloadAndExtract,
    UploadToStandby,
    UploadToMaster,
    UploadToAllNodes,
    StopTxNodes,
    RestartNonLeaderNodes,
    RestartSelectedStandby,
    RestartTemporaryLeaders,
    StopLog,
    CleanEloqStoreData,
    StartLogAndWait,
    StartTx,
    WaitCurrentMaster,
    FailoverBackAndStopStandby,
    WaitTxReplicaReady,
    WaitStandbyReplicaReady,
    StartStandby,
    StopVoters,
    StartVoters,
    VerifyVersion,
}

/// The name a step is known by.
pub open spec fn step_name(k: StepKind) -> Seq<char> {
    match k {
        StepKind::StopStandbyOnly => "StopStandbyOnly"@,
        StepKind::FailoverAndStopOldMaster => "FailoverAndStopOldMaster"@,
        StepKind::SelectStandbyForFailover => "SelectStandbyForFailover"@,
        StepKind::FailoverToStandby => "FailoverToStandby"@,
        StepKind::DownloadAndExtract => "DownloadAndExtract"@,
        StepKind::UploadToStandby => "UploadToStandby"@,
        StepKind::UploadToMaster => "UploadToMaster"@,
        StepKind::UploadToAllNodes => "UploadToAllNodes"@,
        StepKind::StopTxNodes => "StopTxNodes"@,
        StepKind::RestartNonLeaderNodes => "RestartNonLeaderNodes"@,
        StepKind::RestartSelectedStandby => "RestartSelectedStandby"@,
        StepKind::RestartTemporaryLeaders => "RestartTemporaryLeaders"@,
        StepKind::StopLog => "StopLog"@,
        StepKind::CleanEloqStoreData => "CleanEloqStoreData"@,
        StepKind::StartLogAndWait => "StartLogAndWait"@,
        StepKind::StartTx => "StartTx"@,
        StepKind::WaitCurrentMaster => "WaitCurrentMaster"@,
        StepKind::FailoverBackAndStopStandby => "FailoverBackAndStopStandby"@,
        StepKind::WaitTxReplicaReady => "WaitTxReplicaReady"@,
        StepKind::WaitStandbyReplicaReady => "WaitStandbyReplicaReady"@,
        StepKind::StartStandby => "StartStandby"@,
        StepKind::StopVoters => "StopVoters"@,
        StepKind::StartVoters => "StartVoters"@,
        StepKind::VerifyVersion => "VerifyVersion"@,
    }
}

/// A step of the rolling upgrade.
pub trait Step {
    spec fn kind_spec(&self) -> StepKind;

    /// Which step this is.
    fn kind(&self) -> (k: StepKind)
        ensures
            k == self.kind_spec(),
    ;

    /// The name shown in progress output.
    fn name(&self) -> (r: &'static str)
        ensures
            r@ == step_name(self.kind_spec()),
    ;
}

/// Stops the connected standbys before a configuration restart.
#[derive(Debug)]
pub struct StopStandbyOnly {
    ctx: UpgradeContext,
}

impl StopStandbyOnly {
    pub closed spec fn context(&self) -> UpgradeView {
        self.ctx@
    }

    pub fn new(ctx: UpgradeContext) -> (r: Self)
        ensures
            r.context() == ctx@,
    {
        Self { ctx }
    }
}

impl Step for StopStandbyOnly {
    open spec fn kind_spec(&self) -> StepKind {
        StepKind::StopStandbyOnly
    }

    fn kind(&self) -> (k: StepKind) {
        StepKind::StopStandbyOnly
    }

    fn name(&self) -> (r: &'static str) {
        "StopStandbyOnly"
    }
}

/// Fails the current masters over to their replicas and stops them.
#[derive(Debug)]
pub struct FailoverAndStopOldMaster {
    ctx: UpgradeContext,
}

impl FailoverAndStopOldMaster {
    pub closed spec fn context(&self) -> UpgradeView {
        self.ctx@
    }

    pub fn new(ctx: UpgradeContext) -> (r: Self)
        ensures
            r.context() == ctx@,
    {
        Self { ctx }
    }
}

impl Step for FailoverAndStopOldMaster {
    open spec fn kind_spec(&self) -> StepKind {
        StepKind::FailoverAndStopOldMaster
    }

    fn kind(&self) -> (k: StepKind) {
        StepKind::FailoverAndStopOldMaster
    }

    fn name(&self) -> (r: &'static str) {
        "FailoverAndStopOldMaster"
    }
}

/// Chooses, for every current master, the standby that takes over.
#[derive(Debug)]
pub struct SelectStandbyForFailover {
    ctx: UpgradeContext,
}

impl SelectStandbyForFailover {
    pub closed spec fn context(&self) -> UpgradeView {
        self.ctx@
    }

    pub fn new(ctx: UpgradeContext) -> (r: Self)
        ensures
            r.context() == ctx@,
    {
        Self { ctx }
    }
}

impl Step for SelectStandbyForFailover {
    open spec fn kind_spec(&self) -> StepKind {
        StepKind::SelectStandbyForFailover
    }

    fn kind(&self) -> (k: StepKind) {
        StepKind::SelectStandbyForFailover
    }

    fn name(&self) -> (r: &'static str) {
        "SelectStandbyForFailover"
    }
}

/// Moves traffic to the standbys chosen before.
#[derive(Debug)]
pub struct FailoverToStandby {
    ctx: UpgradeContext,
}

impl FailoverToStandby {
    pub closed spec fn context(&self) -> UpgradeView {
        self.ctx@
    }

    pub fn new(ctx: UpgradeContext) -> (r: Self)
        ensures
            r.context() == ctx@,
    {
        Self { ctx }
    }
}

impl Step for FailoverToStandby {
    open spec fn kind_spec(&self) -> StepKind {
        StepKind::FailoverToStandby
    }

    fn kind(&self) -> (k: StepKind) {
        StepKind::FailoverToStandby
    }

    fn name(&self) -> (r: &'static str) {
        "FailoverToStandby"
    }
}

/// Downloads and unpacks the new packages locally.
#[derive(Debug)]
pub struct DownloadAndExtract {
    ctx: UpgradeContext,
}

impl DownloadAndExtract {
    pub closed spec fn context(&self) -> UpgradeView {
        self.ctx@
    }

    pub fn new(ctx: UpgradeContext) -> (r: Self)
        ensures
            r.context() == ctx@,
    {
        Self { ctx }
    }
}

impl Step for DownloadAndExtract {
    open spec fn kind_spec(&self) -> StepKind {
        StepKind::DownloadAndExtract
    }

    fn kind(&self) -> (k: StepKind) {
        StepKind::DownloadAndExtract
    }

    fn name(&self) -> (r: &'static str) {
        "DownloadAndExtract"
    }
}

/// Uploads the new packages to the first batch and the log hosts.
#[derive(Debug)]
pub struct UploadToStandby {
    ctx: UpgradeContext,
}

impl UploadToStandby {
    pub closed spec fn context(&self) -> UpgradeView {
        self.ctx@
    }

    pub fn new(ctx: UpgradeContext) -> (r: Self)
        ensures
            r.context() == ctx@,
    {
        Self { ctx }
    }
}

impl Step for UploadToStandby {
    open spec fn kind_spec(&self) -> StepKind {
        StepKind::UploadToStandby
    }

    fn kind(&self) -> (k: StepKind) {
        StepKind::UploadToStandby
    }

    fn name(&self) -> (r: &'static str) {
        "UploadToStandby"
    }
}

/// Uploads the new packages to the second batch and the voter hosts.
#[derive(Debug)]
pub struct UploadToMaster {
    ctx: UpgradeContext,
}

impl UploadToMaster {
    pub closed spec fn context(&self) -> UpgradeView {
        self.ctx@
    }

    pub fn new(ctx: UpgradeContext) -> (r: Self)
        ensures
            r.context() == ctx@,
    {
        Self { ctx }
    }
}

impl Step for UploadToMaster {
    open spec fn kind_spec(&self) -> StepKind {
        StepKind::UploadToMaster
    }

    fn kind(&self) -> (k: StepKind) {
        StepKind::UploadToMaster
    }

    fn name(&self) -> (r: &'static str) {
        "UploadToMaster"
    }
}

/// Uploads the new packages to every host.
#[derive(Debug)]
pub struct UploadToAllNodes {
    ctx: UpgradeContext,
}

impl UploadToAllNodes {
    pub closed spec fn context(&self) -> UpgradeView {
        self.ctx@
    }

    pub fn new(ctx: UpgradeContext) -> (r: Self)
        ensures
            r.context() == ctx@,
    {
        Self { ctx }
    }
}

impl Step for UploadToAllNodes {
    open spec fn kind_spec(&self) -> StepKind {
        StepKind::UploadToAllNodes
    }

    fn kind(&self) -> (k: StepKind) {
        StepKind::UploadToAllNodes
    }

    fn name(&self) -> (r: &'static str) {
        "UploadToAllNodes"
    }
}

/// Stops the tx servers, failing masters over first when standbys exist.
#[derive(Debug)]
pub struct StopTxNodes {
    ctx: UpgradeContext,
}

impl StopTxNodes {
    pub closed spec fn context(&self) -> UpgradeView {
        self.ctx@
    }

    pub fn new(ctx: UpgradeContext) -> (r: Self)
        ensures
            r.context() == ctx@,
    {
        Self { ctx }
    }
}

impl Step for StopTxNodes {
    open spec fn kind_spec(&self) -> StepKind {
        StepKind::StopTxNodes
    }

    fn kind(&self) -> (k: StepKind) {
        StepKind::StopTxNodes
    }

    fn name(&self) -> (r: &'static str) {
        "StopTxNodes"
    }
}

/// Restarts, one by one, the nodes that are not temporary leaders.
#[derive(Debug)]
pub struct RestartNonLeaderNodes {
    ctx: UpgradeContext,
}

impl RestartNonLeaderNodes {
    pub closed spec fn context(&self) -> UpgradeView {
        self.ctx@
    }

    pub fn new(ctx: UpgradeContext) -> (r: Self)
        ensures
            r.context() == ctx@,
    {
        Self { ctx }
    }
}

impl Step for RestartNonLeaderNodes {
    open spec fn kind_spec(&self) -> StepKind {
        StepKind::RestartNonLeaderNodes
    }

    fn kind(&self) -> (k: StepKind) {
        StepKind::RestartNonLeaderNodes
    }

    fn name(&self) -> (r: &'static str) {
        "RestartNonLeaderNodes"
    }
}

/// Restarts, one by one, the standbys chosen to take over.
#[derive(Debug)]
pub struct RestartSelectedStandby {
    ctx: UpgradeContext,
}

impl RestartSelectedStandby {
    pub closed spec fn context(&self) -> UpgradeView {
        self.ctx@
    }

    pub fn new(ctx: UpgradeContext) -> (r: Self)
        ensures
            r.context() == ctx@,
    {
        Self { ctx }
    }
}

impl Step for RestartSelectedStandby {
    open spec fn kind_spec(&self) -> StepKind {
        StepKind::RestartSelectedStandby
    }

    fn kind(&self) -> (k: StepKind) {
        StepKind::RestartSelectedStandby
    }

    fn name(&self) -> (r: &'static str) {
        "RestartSelectedStandby"
    }
}

/// Restarts, one by one, the temporary leaders.
#[derive(Debug)]
pub struct RestartTemporaryLeaders {
    ctx: UpgradeContext,
}

impl RestartTemporaryLeaders {
    pub closed spec fn context(&self) -> UpgradeView {
        self.ctx@
    }

    pub fn new(ctx: UpgradeContext) -> (r: Self)
        ensures
            r.context() == ctx@,
    {
        Self { ctx }
    }
}

impl Step for RestartTemporaryLeaders {
    open spec fn kind_spec(&self) -> StepKind {
        StepKind::RestartTemporaryLeaders
    }

    fn kind(&self) -> (k: StepKind) {
        StepKind::RestartTemporaryLeaders
    }

    fn name(&self) -> (r: &'static str) {
        "RestartTemporaryLeaders"
    }
}

/// Stops the log service.
#[derive(Debug)]
pub struct StopLog {
    ctx: UpgradeContext,
}

impl StopLog {
    pub closed spec fn context(&self) -> UpgradeView {
        self.ctx@
    }

    pub fn new(ctx: UpgradeContext) -> (r: Self)
        ensures
            r.context() == ctx@,
    {
        Self { ctx }
    }
}

impl Step for StopLog {
    open spec fn kind_spec(&self) -> StepKind {
        StepKind::StopLog
    }

    fn kind(&self) -> (k: StepKind) {
        StepKind::StopLog
    }

    fn name(&self) -> (r: &'static str) {
        "StopLog"
    }
}

/// Removes local EloqStore data of the first batch in cloud mode.
#[derive(Debug)]
pub struct CleanEloqStoreData {
    ctx: UpgradeContext,
}

impl CleanEloqStoreData {
    pub closed spec fn context(&self) -> UpgradeView {
        self.ctx@
    }

    pub fn new(ctx: UpgradeContext) -> (r: Self)
        ensures
            r.context() == ctx@,
    {
        Self { ctx }
    }
}

impl Step for CleanEloqStoreData {
    open spec fn kind_spec(&self) -> StepKind {
        StepKind::CleanEloqStoreData
    }

    fn kind(&self) -> (k: StepKind) {
        StepKind::CleanEloqStoreData
    }

    fn name(&self) -> (r: &'static str) {
        "CleanEloqStoreData"
    }
}

/// Starts the log service and waits for it.
#[derive(Debug)]
pub struct StartLogAndWait {
    ctx: UpgradeContext,
}

impl StartLogAndWait {
    pub closed spec fn context(&self) -> UpgradeView {
        self.ctx@
    }

    pub fn new(ctx: UpgradeContext) -> (r: Self)
        ensures
            r.context() == ctx@,
    {
        Self { ctx }
    }
}

impl Step for StartLogAndWait {
    open spec fn kind_spec(&self) -> StepKind {
        StepKind::StartLogAndWait
    }

    fn kind(&self) -> (k: StepKind) {
        StepKind::StartLogAndWait
    }

    fn name(&self) -> (r: &'static str) {
        "StartLogAndWait"
    }
}

/// Starts the tx servers (the second batch when standbys exist).
#[derive(Debug)]
pub struct StartTx {
    ctx: UpgradeContext,
}

impl StartTx {
    pub closed spec fn context(&self) -> UpgradeView {
        self.ctx@
    }

    pub fn new(ctx: UpgradeContext) -> (r: Self)
        ensures
            r.context() == ctx@,
    {
        Self { ctx }
    }
}

impl Step for StartTx {
    open spec fn kind_spec(&self) -> StepKind {
        StepKind::StartTx
    }

    fn kind(&self) -> (k: StepKind) {
        StepKind::StartTx
    }

    fn name(&self) -> (r: &'static str) {
        "StartTx"
    }
}

/// Waits until the cluster reports a serving master.
#[derive(Debug)]
pub struct WaitCurrentMaster {
    ctx: UpgradeContext,
}

impl WaitCurrentMaster {
    pub closed spec fn context(&self) -> UpgradeView {
        self.ctx@
    }

    pub fn new(ctx: UpgradeContext) -> (r: Self)
        ensures
            r.context() == ctx@,
    {
        Self { ctx }
    }
}

impl Step for WaitCurrentMaster {
    open spec fn kind_spec(&self) -> StepKind {
        StepKind::WaitCurrentMaster
    }

    fn kind(&self) -> (k: StepKind) {
        StepKind::WaitCurrentMaster
    }

    fn name(&self) -> (r: &'static str) {
        "WaitCurrentMaster"
    }
}

/// Fails the standbys back over and stops them.
#[derive(Debug)]
pub struct FailoverBackAndStopStandby {
    ctx: UpgradeContext,
}

impl FailoverBackAndStopStandby {
    pub closed spec fn context(&self) -> UpgradeView {
        self.ctx@
    }

    pub fn new(ctx: UpgradeContext) -> (r: Self)
        ensures
            r.context() == ctx@,
    {
        Self { ctx }
    }
}

impl Step for FailoverBackAndStopStandby {
    open spec fn kind_spec(&self) -> StepKind {
        StepKind::FailoverBackAndStopStandby
    }

    fn kind(&self) -> (k: StepKind) {
        StepKind::FailoverBackAndStopStandby
    }

    fn name(&self) -> (r: &'static str) {
        "FailoverBackAndStopStandby"
    }
}

/// Waits for the second batch to rejoin as replicas.
#[derive(Debug)]
pub struct WaitTxReplicaReady {
    ctx: UpgradeContext,
}

impl WaitTxReplicaReady {
    pub closed spec fn context(&self) -> UpgradeView {
        self.ctx@
    }

    pub fn new(ctx: UpgradeContext) -> (r: Self)
        ensures
            r.context() == ctx@,
    {
        Self { ctx }
    }
}

impl Step for WaitTxReplicaReady {
    open spec fn kind_spec(&self) -> StepKind {
        StepKind::WaitTxReplicaReady
    }

    fn kind(&self) -> (k: StepKind) {
        StepKind::WaitTxReplicaReady
    }

    fn name(&self) -> (r: &'static str) {
        "WaitTxReplicaReady"
    }
}

/// Waits for the first batch to rejoin as replicas.
#[derive(Debug)]
pub struct WaitStandbyReplicaReady {
    ctx: UpgradeContext,
}

impl WaitStandbyReplicaReady {
    pub closed spec fn context(&self) -> UpgradeView {
        self.ctx@
    }

    pub fn new(ctx: UpgradeContext) -> (r: Self)
        ensures
            r.context() == ctx@,
    {
        Self { ctx }
    }
}

impl Step for WaitStandbyReplicaReady {
    open spec fn kind_spec(&self) -> StepKind {
        StepKind::WaitStandbyReplicaReady
    }

    fn kind(&self) -> (k: StepKind) {
        StepKind::WaitStandbyReplicaReady
    }

    fn name(&self) -> (r: &'static str) {
        "WaitStandbyReplicaReady"
    }
}

/// Starts the first batch again.
#[derive(Debug)]
pub struct StartStandby {
    ctx: UpgradeContext,
}

impl StartStandby {
    pub closed spec fn context(&self) -> UpgradeView {
        self.ctx@
    }

    pub fn new(ctx: UpgradeContext) -> (r: Self)
        ensures
            r.context() == ctx@,
    {
        Self { ctx }
    }
}

impl Step for StartStandby {
    open spec fn kind_spec(&self) -> StepKind {
        StepKind::StartStandby
    }

    fn kind(&self) -> (k: StepKind) {
        StepKind::StartStandby
    }

    fn name(&self) -> (r: &'static str) {
        "StartStandby"
    }
}

/// Stops the voters.
#[derive(Debug)]
pub struct StopVoters {
    ctx: UpgradeContext,
}

impl StopVoters {
    pub closed spec fn context(&self) -> UpgradeView {
        self.ctx@
    }

    pub fn new(ctx: UpgradeContext) -> (r: Self)
        ensures
            r.context() == ctx@,
    {
        Self { ctx }
    }
}

impl Step for StopVoters {
    open spec fn kind_spec(&self) -> StepKind {
        StepKind::StopVoters
    }

    fn kind(&self) -> (k: StepKind) {
        StepKind::StopVoters
    }

    fn name(&self) -> (r: &'static str) {
        "StopVoters"
    }
}

/// Starts the voters.
#[derive(Debug)]
pub struct StartVoters {
    ctx: UpgradeContext,
}

impl StartVoters {
    pub closed spec fn context(&self) -> UpgradeView {
        self.ctx@
    }

    pub fn new(ctx: UpgradeContext) -> (r: Self)
        ensures
            r.context() == ctx@,
    {
        Self { ctx }
    }
}

impl Step for StartVoters {
    open spec fn kind_spec(&self) -> StepKind {
        StepKind::StartVoters
    }

    fn kind(&self) -> (k: StepKind) {
        StepKind::StartVoters
    }

    fn name(&self) -> (r: &'static str) {
        "StartVoters"
    }
}

/// Checks the version the upgraded tx servers report.
#[derive(Debug)]
pub struct VerifyVersion {
    ctx: UpgradeContext,
}

impl VerifyVersion {
    pub closed spec fn context(&self) -> UpgradeView {
        self.ctx@
    }

    pub fn new(ctx: UpgradeContext) -> (r: Self)
        ensures
            r.context() == ctx@,
    {
        Self { ctx }
    }
}

impl Step for VerifyVersion {
    open spec fn kind_spec(&self) -> StepKind {
        StepKind::VerifyVersion
    }

    fn kind(&self) -> (k: StepKind) {
        StepKind::VerifyVersion
    }

    fn name(&self) -> (r: &'static str) {
        "VerifyVersion"
    }
}

impl StepKind {
    /// The name a step is known by.
    pub fn name(&self) -> (r: &'static str)
        ensures
            r@ == step_name(*self),
    {
        match self {
            StepKind::StopStandbyOnly => "StopStandbyOnly",
            StepKind::FailoverAndStopOldMaster => "FailoverAndStopOldMaster",
            StepKind::SelectStandbyForFailover => "SelectStandbyForFailover",
            StepKind::FailoverToStandby => "FailoverToStandby",
            StepKind::DownloadAndExtract => "DownloadAndExtract",
            StepKind::UploadToStandby => "UploadToStandby",
            StepKind::UploadToMaster => "UploadToMaster",
            StepKind::UploadToAllNodes => "UploadToAllNodes",
            StepKind::StopTxNodes => "StopTxNodes",
            StepKind::RestartNonLeaderNodes => "RestartNonLeaderNodes",
            StepKind::RestartSelectedStandby => "RestartSelectedStandby",
            StepKind::RestartTemporaryLeaders => "RestartTemporaryLeaders",
            StepKind::StopLog => "StopLog",
            StepKind::CleanEloqStoreData => "CleanEloqStoreData",
            StepKind::StartLogAndWait => "StartLogAndWait",
            StepKind::StartTx => "StartTx",
            StepKind::WaitCurrentMaster => "WaitCurrentMaster",
            StepKind::FailoverBackAndStopStandby => "FailoverBackAndStopStandby",
            StepKind::WaitTxReplicaReady => "WaitTxReplicaReady",
            StepKind::WaitStandbyReplicaReady => "WaitStandbyReplicaReady",
            StepKind::StartStandby => "StartStandby",
            StepKind::StopVoters => "StopVoters",
            StepKind::StartVoters => "StartVoters",
            StepKind::VerifyVersion => "VerifyVersion",
        }
    }
}

/// The steps of a binary upgrade: without standbys, stop the tx servers,
/// restart the log service unless told to skip it, and start them again;
/// with standbys, restart the standby chosen for each master first, fail over
/// to it, restart the log service unless told to skip it, then restart the
/// remaining nodes one by one. Both begin with the new packages and end by
/// checking the version.
pub open spec fn upgrade_steps(has_standby: bool, skip_log_restart: bool) -> Seq<StepKind> {
    let log_steps = if skip_log_restart {
        Seq::<StepKind>::empty()
    } else {
        seq![StepKind::StopLog, StepKind::StartLogAndWait]
    };
    if !has_standby {
        seq![StepKind::DownloadAndExtract, StepKind::UploadToAllNodes, StepKind::StopTxNodes] + log_steps
            + seq![StepKind::StartTx, StepKind::VerifyVersion]
    } else {
        seq![
            StepKind::DownloadAndExtract,
            StepKind::UploadToAllNodes,
            StepKind::SelectStandbyForFailover,
            StepKind::RestartSelectedStandby,
            StepKind::FailoverToStandby,
        ] + log_steps + seq![StepKind::RestartNonLeaderNodes, StepKind::VerifyVersion]
    }
}

/// The steps of a configuration restart: stop the standbys, fail the masters
/// over and stop them, start the tx servers, wait until they are replicas.
pub open spec fn config_restart_steps() -> Seq<StepKind> {
    seq![
        StepKind::StopStandbyOnly,
        StepKind::FailoverAndStopOldMaster,
        StepKind::StartTx,
        StepKind::WaitTxReplicaReady,
    ]
}

/// The ordered steps of a rolling binary upgrade.
pub fn build_upgrade_steps(ctx: &UpgradeContext) -> (r: Vec<StepKind>)
    ensures
        r@ == upgrade_steps(ctx@.standby is Some, ctx@.skip_log_restart),
{
    let mut steps: Vec<StepKind> = Vec::new();
    steps.push(StepKind::DownloadAndExtract);
    steps.push(StepKind::UploadToAllNodes);
    let has_standby = ctx.has_standby();
    if !has_standby {
        steps.push(StepKind::StopTxNodes);
    } else {
        steps.push(StepKind::SelectStandbyForFailover);
        steps.push(StepKind::RestartSelectedStandby);
        steps.push(StepKind::FailoverToStandby);
    }
    if !ctx.skip_log_restart {
        steps.push(StepKind::StopLog);
        steps.push(StepKind::StartLogAndWait);
    }
    if !has_standby {
        steps.push(StepKind::StartTx);
    } else {
        steps.push(StepKind::RestartNonLeaderNodes);
    }
    steps.push(StepKind::VerifyVersion);
    assert(steps@ =~= upgrade_steps(ctx@.standby is Some, ctx@.skip_log_restart));
    steps
}

/// The ordered steps of a rolling configuration restart.
pub fn build_config_restart_steps(ctx: &UpgradeContext) -> (r: Vec<StepKind>)
    ensures
        r@ == config_restart_steps(),
{
    let mut steps: Vec<StepKind> = Vec::new();
    steps.push(StepKind::StopStandbyOnly);
    steps.push(StepKind::FailoverAndStopOldMaster);
    steps.push(StepKind::StartTx);
    steps.push(StepKind::WaitTxReplicaReady);
    assert(steps@ =~= config_restart_steps());
    steps
}

/// A binary upgrade starts with the new packages and ends by checking the
/// version; it runs no step twice and leaves the voters running; it stops
/// the log service exactly when it starts it again, right before, and only
/// when not told to skip the log restart; with standbys, the standbys chosen
/// as failover targets are restarted before traffic moves to them and every
/// other node after.
pub proof fn law_upgrade_steps_shape(has_standby: bool, skip_log_restart: bool)
    ensures
        ({
            let s = upgrade_steps(has_standby, skip_log_restart);
            &&& s[0] == StepKind::DownloadAndExtract
            &&& s.last() == StepKind::VerifyVersion
            &&& s.no_duplicates()
            &&& !s.contains(StepKind::StopVoters) && !s.contains(StepKind::StartVoters)
            &&& s.contains(StepKind::StopLog) <==> !skip_log_restart
            &&& s.contains(StepKind::StartLogAndWait) <==> !skip_log_restart
            &&& forall|i: int| 0 <= i < s.len() && #[trigger] s[i] == StepKind::StopLog ==> i + 1 < s.len() && s[i + 1] == StepKind::StartLogAndWait
            &&& has_standby ==> {
                &&& s[2] == StepKind::SelectStandbyForFailover
                &&& s[3] == StepKind::RestartSelectedStandby
                &&& s[4] == StepKind::FailoverToStandby
                &&& s[s.len() - 2] == StepKind::RestartNonLeaderNodes
            }
        }),
{
    let s = upgrade_steps(has_standby, skip_log_restart);
    if has_standby {
        if skip_log_restart {
            assert(s =~= seq![StepKind::DownloadAndExtract, StepKind::UploadToAllNodes, StepKind::SelectStandbyForFailover,
                StepKind::RestartSelectedStandby, StepKind::FailoverToStandby, StepKind::RestartNonLeaderNodes, StepKind::VerifyVersion]);
        } else {
            assert(s =~= seq![StepKind::DownloadAndExtract, StepKind::UploadToAllNodes, StepKind::SelectStandbyForFailover,
                StepKind::RestartSelectedStandby, StepKind::FailoverToStandby, StepKind::StopLog, StepKind::StartLogAndWait,
                StepKind::RestartNonLeaderNodes, StepKind::VerifyVersion]);
            assert(s[5] == StepKind::StopLog);
            assert(s[6] == StepKind::StartLogAndWait);
        }
    } else {
        if skip_log_restart {
            assert(s =~= seq![StepKind::DownloadAndExtract, StepKind::UploadToAllNodes, StepKind::StopTxNodes,
                StepKind::StartTx, StepKind::VerifyVersion]);
        } else {
            assert(s =~= seq![StepKind::DownloadAndExtract, StepKind::UploadToAllNodes, StepKind::StopTxNodes,
                StepKind::StopLog, StepKind::StartLogAndWait, StepKind::StartTx, StepKind::VerifyVersion]);
            assert(s[3] == StepKind::StopLog);
            assert(s[4] == StepKind::StartLogAndWait);
        }
    }
}

/// The text shown to an operator for a step named `name`: a description
/// for the steps that have one, else the name itself.
pub open spec fn friendly_name(name: Seq<char>) -> Seq<char> {
    if name == "StopTxNodes"@ {
        "Move traffic away from the current master"@
    } else if name == "StartTx"@ {
        "Start the original master node"@
    } else if name == "WaitCurrentMaster"@ {
        "Wait for a serving master"@
    } else if name == "WaitTxReplicaReady"@ {
        "Wait for the original master to rejoin as replica"@
    } else if name == "FailoverBackAndStopStandby"@ {
        "Move traffic back and restart standby"@
    } else if name == "StartStandby"@ {
        "Start standby nodes"@
    } else if name == "StopVoters"@ {
        "Stop voter nodes"@
    } else if name == "StartVoters"@ {
        "Start voter nodes"@
    } else if name == "DownloadAndUpload"@ {
        "Prepare upgrade package"@
    } else if name == "StopLog"@ {
        "Stop log service"@
    } else if name == "UnpackTxLog"@ {
        "Install upgrade package"@
    } else if name == "CleanEloqStoreData"@ {
        "Clean EloqStore data"@
    } else if name == "StartLogAndWait"@ {
        "Start log service"@
    } else if name == "VerifyVersion"@ {
        "Verify upgraded version"@
    } else {
        name
    }
}

/// The operator-facing description of the step named `name`.
pub fn friendly_step_name<'a>(name: &'a str) -> (r: &'a str)
    ensures
        r@ == friendly_name(name@),
{
    if str_eq(name, "StopTxNodes") {
        return "Move traffic away from the current master";
    }
    if str_eq(name, "StartTx") {
        return "Start the original master node";
    }
    if str_eq(name, "WaitCurrentMaster") {
        return "Wait for a serving master";
    }
    if str_eq(name, "WaitTxReplicaReady") {
        return "Wait for the original master to rejoin as replica";
    }
    if str_eq(name, "FailoverBackAndStopStandby") {
        return "Move traffic back and restart standby";
    }
    if str_eq(name, "StartStandby") {
        return "Start standby nodes";
    }
    if str_eq(name, "StopVoters") {
        return "Stop voter nodes";
    }
    if str_eq(name, "StartVoters") {
        return "Start voter nodes";
    }
    if str_eq(name, "DownloadAndUpload") {
        return "Prepare upgrade package";
    }
    if str_eq(name, "StopLog") {
        return "Stop log service";
    }
    if str_eq(name, "UnpackTxLog") {
        return "Install upgrade package";
    }
    if str_eq(name, "CleanEloqStoreData") {
        return "Clean EloqStore data";
    }
    if str_eq(name, "StartLogAndWait") {
        return "Start log service";
    }
    if str_eq(name, "VerifyVersion") {
        return "Verify upgraded version";
    }
    name
}

/// Runs the steps of a rolling upgrade in order on one context.
#[derive(Debug)]
pub struct RollingUpgrade {
    pub steps: Vec<StepKind>,
    pub ctx: UpgradeContext,
}

impl RollingUpgrade {
    pub fn new(steps: Vec<StepKind>, ctx: UpgradeContext) -> (r: RollingUpgrade)
        ensures
            r.steps@ == steps@,
            r.ctx@ == ctx@,
    {
        RollingUpgrade { steps, ctx }
    }
}

// ── decisions of the topology-driven steps ──────────────────────────────

/// Why a step could not go on with the topology it was given.
#[derive(Debug, PartialEq, Eq, Structural)]
pub enum StepError {
    /// No connected replica or standby to restart first.
    NoConnectedStandby,
    /// No connected current master to fail over from.
    NoMasterBeforeFailover,
    /// No connected current replica to fail over to.
    NoReplicaBeforeFailover,
    /// No connected current master to wait on for replicas.
    NoMasterForReplicaWait,
}

/// The managed tx and standby nodes, tx servers first.
pub open spec fn managed_nodes(u: UpgradeView) -> Seq<Seq<char>> {
    u.tx + list_or_empty(u.standby)
}

/// Addresses of the connected managed nodes among `ns`, in order.
pub open spec fn connected_addrs(ns: Seq<NodeView>, managed: Seq<Seq<char>>) -> Seq<Seq<char>> {
    addrs(connected_managed(ns, managed))
}

pub open spec fn strs_result_view(r: Result<Vec<String>, StepError>) -> Result<Seq<Seq<char>>, StepError> {
    match r {
        Ok(v) => Ok(views(v@)),
        Err(e) => Err(e),
    }
}

/// A round that first fails over the masters among `failover`, then stops
/// the nodes `stop`; the topology is read from `topology_nodes`.
#[derive(Debug)]
pub struct RoundPlan {
    pub label: String,
    pub failover: Vec<String>,
    pub stop: Vec<String>,
    pub topology_nodes: Vec<String>,
}

pub struct RoundView {
    pub label: Seq<char>,
    pub failover: Seq<Seq<char>>,
    pub stop: Seq<Seq<char>>,
    pub topology_nodes: Seq<Seq<char>>,
}

impl View for RoundPlan {
    type V = RoundView;

    open spec fn view(&self) -> RoundView {
        RoundView {
            label: self.label@,
            failover: views(self.failover@),
            stop: views(self.stop@),
            topology_nodes: views(self.topology_nodes@),
        }
    }
}

pub open spec fn round_result_view(r: Result<Option<RoundPlan>, StepError>) -> Result<Option<RoundView>, StepError> {
    match r {
        Ok(Some(p)) => Ok(Some(p@)),
        Ok(None) => Ok(None),
        Err(e) => Err(e),
    }
}

/// Which standbys a configuration restart stops first: the connected
/// managed replicas; none without standbys.
pub open spec fn stop_standby_plan(u: UpgradeView, topo: (Seq<NodeView>, Seq<NodeView>)) -> Result<Seq<Seq<char>>, StepError> {
    let reps = connected_addrs(topo.1, managed_nodes(u));
    if u.standby is None {
        Ok(Seq::empty())
    } else if reps.len() == 0 {
        Err(StepError::NoConnectedStandby)
    } else {
        Ok(reps)
    }
}

/// The round that moves traffic off the current masters and stops them;
/// `None` without standbys, where every tx server is simply stopped.
pub open spec fn failover_stop_plan(u: UpgradeView, topo: (Seq<NodeView>, Seq<NodeView>)) -> Result<Option<RoundView>, StepError> {
    let masters = connected_addrs(topo.0, managed_nodes(u));
    let reps = connected_addrs(topo.1, managed_nodes(u));
    if u.standby is None {
        Ok(None)
    } else if masters.len() == 0 {
        Err(StepError::NoMasterBeforeFailover)
    } else if reps.len() == 0 {
        Err(StepError::NoReplicaBeforeFailover)
    } else {
        Ok(Some(RoundView {
            label: "failover-stop-master"@,
            failover: masters,
            stop: masters,
            topology_nodes: managed_nodes(u),
        }))
    }
}

/// What a failover-to-standby step does.
#[derive(Debug)]
pub enum FailoverPlan {
    /// Nothing: the deployment has no standbys.
    Skip,
    /// Every target already serves as master: wait until these do.
    WaitForMasters(Vec<String>),
    /// Fail each (current master, target) pair over, then wait.
    Failover(Vec<(String, String)>),
}

pub enum FailoverPlanView {
    Skip,
    WaitForMasters(Seq<Seq<char>>),
    Failover(Seq<(Seq<char>, Seq<char>)>),
}

impl View for FailoverPlan {
    type V = FailoverPlanView;

    open spec fn view(&self) -> FailoverPlanView {
        match self {
            FailoverPlan::Skip => FailoverPlanView::Skip,
            FailoverPlan::WaitForMasters(v) => FailoverPlanView::WaitForMasters(views(v@)),
            FailoverPlan::Failover(ps) => FailoverPlanView::Failover(crate::topology::pair_views(ps@)),
        }
    }
}

pub open spec fn plan_result_view(r: Result<FailoverPlan, FailoverError>) -> Result<FailoverPlanView, FailoverErrorView> {
    match r {
        Ok(p) => Ok(p@),
        Err(e) => Err(e@),
    }
}

/// The context after failover pairs `ps` were chosen: their targets are the
/// temporary leaders, and every other managed node, once each, is restarted
/// afterwards as the second batch.
pub open spec fn with_targets(u: UpgradeView, ps: Seq<(Seq<char>, Seq<char>)>) -> UpgradeView {
    let restart = dedup(without(managed_nodes(u), seconds(ps)));
    UpgradeView { temporary_leaders: seconds(ps), restart: restart, second_batch: restart, ..u }
}

/// Pairs `ps` as the plan of a failover-to-standby step: wait for the
/// temporary leaders `leaders` when no failover is left to do.
pub open spec fn pairs_plan(ps: Seq<(Seq<char>, Seq<char>)>, leaders: Seq<Seq<char>>) -> FailoverPlanView {
    if ps.len() == 0 {
        FailoverPlanView::WaitForMasters(leaders)
    } else {
        FailoverPlanView::Failover(ps)
    }
}

/// The plan of a failover-to-standby step and the context after it: without
/// chosen targets, the targets are chosen now as the selection step does;
/// otherwise the chosen targets that are not yet masters are paired with the
/// masters they follow.
pub open spec fn failover_to_standby_plan(u: UpgradeView, topo: (Seq<NodeView>, Seq<NodeView>)) -> (Result<FailoverPlanView, FailoverErrorView>, UpgradeView) {
    if u.standby is None {
        (Ok(FailoverPlanView::Skip), u)
    } else if u.temporary_leaders.len() == 0 {
        match spec_select_failover_targets(topo.0, topo.1, managed_nodes(u)) {
            Err(e) => (Err(e), u),
            Ok(ps) => (Ok(pairs_plan(ps, seconds(ps))), with_targets(u, ps)),
        }
    } else {
        match spec_plan_selected_failover(topo.0, topo.1, managed_nodes(u), u.temporary_leaders) {
            Err(e) => (Err(e), u),
            Ok(ps) => (Ok(pairs_plan(ps, u.temporary_leaders)), u),
        }
    }
}

/// The master replicas are checked against while waiting: the first
/// connected managed master; nothing to wait for without standbys.
pub open spec fn replica_wait_source_plan(u: UpgradeView, topo: (Seq<NodeView>, Seq<NodeView>)) -> Result<Option<Seq<char>>, StepError> {
    let masters = connected_addrs(topo.0, managed_nodes(u));
    if u.standby is None {
        Ok(None)
    } else if masters.len() == 0 {
        Err(StepError::NoMasterForReplicaWait)
    } else {
        Ok(Some(masters[0]))
    }
}

pub open spec fn source_result_view(r: Result<Option<String>, StepError>) -> Result<Option<Seq<char>>, StepError> {
    match r {
        Ok(Some(s)) => Ok(Some(s@)),
        Ok(None) => Ok(None),
        Err(e) => Err(e),
    }
}

fn second_of_pairs(ps: &Vec<(String, String)>) -> (r: Vec<String>)
    ensures
        views(r@) == seconds(crate::topology::pair_views(ps@)),
{
    let mut r: Vec<String> = Vec::new();
    let mut i: usize = 0;
    while i < ps.len()
        invariant
            i <= ps.len(),
            views(r@) == seconds(crate::topology::pair_views(ps@)).subrange(0, i as int),
        decreases ps.len() - i,
    {
        let c = ps[i].1.clone();
        let ghost old_r = r@;
        r.push(c);
        assert(views(r@) =~= views(old_r).push(ps@[i as int].1@));
        assert(seconds(crate::topology::pair_views(ps@)).subrange(0, i + 1) =~= seconds(crate::topology::pair_views(ps@)).subrange(0, i as int).push(ps@[i as int].1@));
        i = i + 1;
    }
    assert(seconds(crate::topology::pair_views(ps@)).subrange(0, ps.len() as int) =~= seconds(crate::topology::pair_views(ps@)));
    r
}

impl UpgradeContext {
    /// Chooses the standbys a configuration restart stops first and records
    /// them as the first batch.
    pub fn plan_stop_standby_only(&mut self, topology: &ClusterNodes) -> (r: Result<Vec<String>, StepError>)
        ensures
            strs_result_view(r) == stop_standby_plan(old(self)@, topology@),
            final(self)@ == (if old(self)@.standby is Some && r is Ok {
                UpgradeView { first_batch: views(r->Ok_0@), ..old(self)@ }
            } else {
                old(self)@
            }),
    {
        if !self.has_standby() {
            let r: Vec<String> = Vec::new();
            assert(views(r@) =~= Seq::<Seq<char>>::empty());
            return Ok(r);
        }
        let managed = self.managed_tx_and_standby_nodes();
        let reps = connected_managed_nodes(&topology.replicas, &managed);
        if reps.len() == 0 {
            return Err(StepError::NoConnectedStandby);
        }
        let batch = clone_strings(&reps);
        self.set_first_batch_nodes(batch);
        Ok(reps)
    }

    /// The round that fails the current masters over and stops them,
    /// recording them as the second batch.
    pub fn plan_failover_and_stop_old_master(&mut self, topology: &ClusterNodes) -> (r: Result<Option<RoundPlan>, StepError>)
        ensures
            round_result_view(r) == failover_stop_plan(old(self)@, topology@),
            final(self)@ == (if r is Ok && r->Ok_0 is Some {
                UpgradeView { second_batch: r->Ok_0->Some_0@.failover, ..old(self)@ }
            } else {
                old(self)@
            }),
    {
        if !self.has_standby() {
            return Ok(None);
        }
        let managed = self.managed_tx_and_standby_nodes();
        let masters = connected_managed_nodes(&topology.masters, &managed);
        let reps = connected_managed_nodes(&topology.replicas, &managed);
        if masters.len() == 0 {
            return Err(StepError::NoMasterBeforeFailover);
        }
        if reps.len() == 0 {
            return Err(StepError::NoReplicaBeforeFailover);
        }
        self.set_second_batch_nodes(clone_strings(&masters));
        let stop = clone_strings(&masters);
        Ok(Some(RoundPlan {
            label: String::from_str("failover-stop-master"),
            failover: masters,
            stop,
            topology_nodes: managed,
        }))
    }

    /// Chooses the standby that takes over from each current master; the
    /// targets become the temporary leaders and all other managed nodes the
    /// nodes restarted afterwards.
    pub fn plan_select_standby_for_failover(&mut self, topology: &ClusterNodes) -> (r: Result<Vec<(String, String)>, FailoverError>)
        ensures
            old(self)@.standby is None ==> r is Ok && r->Ok_0@.len() == 0 && final(self)@ == old(self)@,
            old(self)@.standby is Some ==> pairs_result_view(r) == spec_select_failover_targets(topology@.0, topology@.1, managed_nodes(old(self)@)),
            old(self)@.standby is Some && r is Ok ==> final(self)@ == with_targets(old(self)@, crate::topology::pair_views(r->Ok_0@)),
            r is Err ==> final(self)@ == old(self)@,
    {
        if !self.has_standby() {
            return Ok(Vec::new());
        }
        let managed = self.managed_tx_and_standby_nodes();
        let pairs = select_connected_failover_targets(topology, &managed);
        match pairs {
            Err(e) => Err(e),
            Ok(ps) => {
                let targets = second_of_pairs(&ps);
                let restart = ordered_without(self.rolling_update_kv_nodes(), &targets);
                self.set_temporary_leader_nodes(targets);
                self.set_second_batch_nodes(clone_strings(&restart));
                self.set_restart_nodes(restart);
                Ok(ps)
            },
        }
    }

    /// Decides how traffic moves to the standbys chosen before (choosing them
    /// now when none were).
    pub fn plan_failover_to_standby(&mut self, topology: &ClusterNodes) -> (r: Result<FailoverPlan, FailoverError>)
        ensures
            plan_result_view(r) == failover_to_standby_plan(old(self)@, topology@).0,
            final(self)@ == failover_to_standby_plan(old(self)@, topology@).1,
    {
        if !self.has_standby() {
            return Ok(FailoverPlan::Skip);
        }
        if self.temporary_leader_nodes.len() == 0 {
            assert(old(self)@.temporary_leaders.len() == 0);
            match self.plan_select_standby_for_failover(topology) {
                Err(e) => Err(e),
                Ok(ps) => {
                    if ps.len() == 0 {
                        let t = self.temporary_leader_nodes();
                        Ok(FailoverPlan::WaitForMasters(t))
                    } else {
                        Ok(FailoverPlan::Failover(ps))
                    }
                },
            }
        } else {
            let managed = self.managed_tx_and_standby_nodes();
            let selected = self.temporary_leader_nodes();
            match plan_selected_failover(topology, &managed, &selected) {
                Err(e) => Err(e),
                Ok(ps) => {
                    if ps.len() == 0 {
                        Ok(FailoverPlan::WaitForMasters(selected))
                    } else {
                        Ok(FailoverPlan::Failover(ps))
                    }
                },
            }
        }
    }

    /// The current master that replicas are checked against while waiting
    /// for them to catch up.
    pub fn replica_wait_source(&self, topology: &ClusterNodes) -> (r: Result<Option<String>, StepError>)
        ensures
            source_result_view(r) == replica_wait_source_plan(self@, topology@),
    {
        if !self.has_standby() {
            return Ok(None);
        }
        let managed = self.managed_tx_and_standby_nodes();
        let masters = connected_managed_nodes(&topology.masters, &managed);
        if masters.len() == 0 {
            return Err(StepError::NoMasterForReplicaWait);
        }
        Ok(Some(masters[0].clone()))
    }

    /// The first round of a binary upgrade without chosen targets: fail over
    /// the tx servers and stop them; `None` without standbys.
    pub fn stop_tx_round(&self) -> (r: Option<RoundPlan>)
        ensures
            self@.standby is None ==> r is None,
            self@.standby is Some ==> r is Some && r->Some_0@ == (RoundView {
                label: "round1"@,
                failover: self@.tx,
                stop: self@.tx,
                topology_nodes: self@.tx + list_or_empty(self@.standby),
            }),
    {
        if !self.has_standby() {
            return None;
        }
        let tx = self.tx_host_ports();
        let sb = self.standby_host_ports();
        let all = concat_strings(&tx, &sb);
        Some(RoundPlan { label: String::from_str("round1"), failover: clone_strings(&tx), stop: tx, topology_nodes: all })
    }

    /// The round that fails the standbys back over and stops them; `None`
    /// without standbys.
    pub fn failover_back_round(&self) -> (r: Option<RoundPlan>)
        ensures
            self@.standby is None ==> r is None,
            self@.standby is Some ==> r is Some && r->Some_0@ == (RoundView {
                label: "round2"@,
                failover: list_or_empty(self@.standby),
                stop: list_or_empty(self@.standby),
                topology_nodes: list_or_empty(self@.standby) + self@.tx,
            }),
    {
        if !self.has_standby() {
            return None;
        }
        let tx = self.tx_host_ports();
        let sb = self.standby_host_ports();
        let all = concat_strings(&sb, &tx);
        Some(RoundPlan { label: String::from_str("round2"), failover: clone_strings(&sb), stop: sb, topology_nodes: all })
    }
}

proof fn lemma_push_has(s: Seq<Seq<char>>, a: Seq<char>, x: Seq<char>)
    ensures
        s.push(a).contains(x) <==> (s.contains(x) || x == a),
{
    if s.contains(x) {
        let k = choose|k: int| 0 <= k < s.len() && s[k] == x;
        assert(s.push(a)[k] == x);
    }
    if x == a {
        assert(s.push(a)[s.len() as int] == a);
    }
    if s.push(a).contains(x) {
        let k = choose|k: int| 0 <= k < s.len() + 1 && s.push(a)[k] == x;
        if k < s.len() {
            assert(s[k] == x);
        }
    }
}

pub proof fn lemma_without_contains(v: Seq<Seq<char>>, e: Seq<Seq<char>>, x: Seq<char>)
    ensures
        without(v, e).contains(x) <==> (v.contains(x) && !e.contains(x)),
    decreases v.len(),
{
    if v.len() > 0 {
        let d = v.drop_last();
        lemma_without_contains(d, e, x);
        assert(v =~= d.push(v.last()));
        lemma_push_has(d, v.last(), x);
        lemma_push_has(without(d, e), v.last(), x);
    }
}

proof fn lemma_connected_addr_managed(ns: Seq<NodeView>, m: Seq<Seq<char>>, a: Seq<char>)
    ensures
        addrs(connected_managed(ns, m)).contains(a) ==> m.contains(a),
    decreases ns.len(),
{
    if ns.len() > 0 {
        let d = ns.drop_last();
        lemma_connected_addr_managed(d, m, a);
        let c = connected_managed(d, m);
        let n = ns.last();
        if n.connected && m.contains(crate::topology::addr(n.ip, n.port)) {
            assert(addrs(c.push(n)) =~= addrs(c).push(crate::topology::addr(n.ip, n.port)));
            lemma_push_has(addrs(c), crate::topology::addr(n.ip, n.port), a);
        }
    }
}

/// Choosing the failover targets splits the managed tx and standby nodes in
/// two: every managed node is either a temporary leader (restarted before
/// traffic moves to it) or in the list restarted afterwards, never both and
/// never twice, and neither list holds a node that is not managed.
pub proof fn law_upgrade_restarts_each_node_once(u: UpgradeView, masters: Seq<NodeView>, replicas: Seq<NodeView>)
    requires
        u.standby is Some,
        spec_select_failover_targets(masters, replicas, managed_nodes(u)) is Ok,
    ensures
        ({
            let v = with_targets(u, spec_select_failover_targets(masters, replicas, managed_nodes(u))->Ok_0);
            let m = managed_nodes(u);
            &&& v.temporary_leaders.no_duplicates()
            &&& v.restart.no_duplicates()
            &&& v.second_batch == v.restart
            &&& forall|x: Seq<char>| #[trigger] m.contains(x) ==> (v.temporary_leaders.contains(x) <==> !v.restart.contains(x))
            &&& forall|x: Seq<char>| #[trigger] v.temporary_leaders.contains(x) ==> m.contains(x)
            &&& forall|x: Seq<char>| #[trigger] v.restart.contains(x) ==> m.contains(x)
        }),
{
    let m = managed_nodes(u);
    let ps = spec_select_failover_targets(masters, replicas, m)->Ok_0;
    crate::topology::law_failover_plan_sound(masters, replicas, m);
    let t = seconds(ps);
    let w = without(m, t);
    lemma_dedup_props(w);
    let rs = connected_managed(replicas, m);
    assert forall|x: Seq<char>| #[trigger] t.contains(x) implies m.contains(x) by {
        let k = choose|k: int| 0 <= k < t.len() && t[k] == x;
        assert(t[k] == ps[k].1);
        assert(addrs(rs).contains(ps[k].1));
        lemma_connected_addr_managed(replicas, m, x);
    }
    assert forall|x: Seq<char>| #[trigger] m.contains(x) implies (t.contains(x) <==> !dedup(w).contains(x)) by {
        lemma_without_contains(m, t, x);
    }
    assert forall|x: Seq<char>| #[trigger] dedup(w).contains(x) implies m.contains(x) by {
        lemma_without_contains(m, t, x);
    }
}


// ── the tasks a step is built from ──────────────────────────────────────

/// A stop or start of tx-level processes, as the step hands it to the
/// process control tasks.
#[derive(Debug)]
pub struct NodeCtlRequest {
    pub cluster: String,
    pub password: Option<String>,
    /// The `host:port` of the nodes to act on; all when empty.
    pub nodes: Vec<String>,
    /// Stop (forcefully, with the log processes) rather than start.
    pub stop: bool,
}

/// Stopping `nodes`, forcefully; nothing when there are none.
pub fn build_stop_node_tasks(ctx: &UpgradeContext, nodes: Vec<String>) -> (r: Option<NodeCtlRequest>)
    ensures
        nodes@.len() == 0 ==> r is None,
        nodes@.len() > 0 ==> (r matches Some(q) && q.stop && q.cluster@ == ctx@.cluster
            && opt_str_view(q.password) == ctx@.redis_password && views(q.nodes@) == views(nodes@)),
{
    if nodes.len() == 0 {
        return None;
    }
    Some(NodeCtlRequest { cluster: ctx.cluster.clone(), password: clone_password(&ctx.redis_password), nodes, stop: true })
}

/// Starting `nodes`; nothing when there are none.
pub fn build_start_node_tasks(ctx: &UpgradeContext, nodes: Vec<String>) -> (r: Option<NodeCtlRequest>)
    ensures
        nodes@.len() == 0 ==> r is None,
        nodes@.len() > 0 ==> (r matches Some(q) && !q.stop && q.cluster@ == ctx@.cluster
            && opt_str_view(q.password) == ctx@.redis_password && views(q.nodes@) == views(nodes@)),
{
    if nodes.len() == 0 {
        return None;
    }
    Some(NodeCtlRequest { cluster: ctx.cluster.clone(), password: clone_password(&ctx.redis_password), nodes, stop: false })
}

/// How `value` (an address in the list `what` names) splits into host,
/// port and the port's text; the error names the list and quotes the value.
pub open spec fn addr_in(value: Seq<char>, what: Seq<char>) -> Result<(Seq<char>, u16, Seq<char>), Seq<char>> {
    match split_once(value, ':') {
        None => Err("invalid host:port in "@ + what + ": '"@ + value + "'"@),
        Some((host, port)) => match spec_parse_u16(port) {
            None => Err("invalid port in "@ + what + ": '"@ + value + "'"@),
            Some(p) => Ok((host, p, port)),
        },
    }
}

pub fn parse_addr_in(value: &str, what: &str) -> (r: Result<(String, u16, String), String>)
    ensures
        match r {
            Ok((h, p, t)) => addr_in(value@, what@) == Ok::<(Seq<char>, u16, Seq<char>), Seq<char>>((h@, p, t@)),
            Err(m) => addr_in(value@, what@) == Err::<(Seq<char>, u16, Seq<char>), Seq<char>>(m@),
        },
{
    match split_once_char(value, ':') {
        None => {
            let mut m = String::from_str("invalid host:port in ");
            m.append(what);
            m.append(": '");
            m.append(value);
            m.append("'");
            Err(m)
        },
        Some((host, port)) => match parse_u16(port.as_str()) {
            None => {
                let mut m = String::from_str("invalid port in ");
                m.append(what);
                m.append(": '");
                m.append(value);
                m.append("'");
                Err(m)
            },
            Some(p) => Ok((host, p, port)),
        },
    }
}

/// A task a step runs for one node: the task's name and the node's host and
/// port.
#[derive(Debug)]
pub struct PlannedTask {
    pub task: String,
    pub host: String,
    pub port: u16,
}

/// The failover checks of round `label` for the masters `nodes`, named
/// `failover-check-<label>-<port>` with the port as written; the first
/// unreadable address is the error.
pub open spec fn failover_checks(label: Seq<char>, nodes: Seq<Seq<char>>) -> Result<Seq<(Seq<char>, Seq<char>, u16)>, Seq<char>>
    decreases nodes.len(),
{
    if nodes.len() == 0 {
        Ok(Seq::empty())
    } else {
        match failover_checks(label, nodes.drop_last()) {
            Err(e) => Err(e),
            Ok(cs) => match addr_in(nodes.last(), "failover list"@) {
                Err(e) => Err(e),
                Ok((h, p, t)) => Ok(cs.push(("failover-check-"@ + label + "-"@ + t, h, p))),
            },
        }
    }
}

pub open spec fn planned_view(v: Seq<PlannedTask>) -> Seq<(Seq<char>, Seq<char>, u16)> {
    v.map_values(|c: PlannedTask| (c.task@, c.host@, c.port))
}

proof fn lemma_checks_err(label: Seq<char>, nodes: Seq<Seq<char>>, j: int)
    requires
        0 <= j <= nodes.len(),
        failover_checks(label, nodes.subrange(0, j)) is Err,
    ensures
        failover_checks(label, nodes) == failover_checks(label, nodes.subrange(0, j)),
    decreases nodes.len(),
{
    if j == nodes.len() {
        assert(nodes.subrange(0, j) =~= nodes);
    } else {
        let d = nodes.drop_last();
        assert(d.subrange(0, j) =~= nodes.subrange(0, j));
        lemma_checks_err(label, d, j);
    }
}

impl RoundPlan {
    /// The failover checks of this round.
    pub fn failover_checks(&self) -> (r: Result<Vec<PlannedTask>, String>)
        ensures
            match r {
                Ok(v) => failover_checks(self.label@, views(self.failover@)) == Ok::<Seq<(Seq<char>, Seq<char>, u16)>, Seq<char>>(planned_view(v@)),
                Err(m) => failover_checks(self.label@, views(self.failover@)) == Err::<Seq<(Seq<char>, Seq<char>, u16)>, Seq<char>>(m@),
            },
    {
        let nodes = &self.failover;
        let mut out: Vec<PlannedTask> = Vec::new();
        assert(planned_view(out@) =~= Seq::<(Seq<char>, Seq<char>, u16)>::empty());
        assert(views(nodes@).subrange(0, 0) =~= Seq::<Seq<char>>::empty());
        let mut i: usize = 0;
        while i < nodes.len()
            invariant
                i <= nodes.len(),
                nodes == &self.failover,
                failover_checks(self.label@, views(nodes@).subrange(0, i as int)) == Ok::<Seq<(Seq<char>, Seq<char>, u16)>, Seq<char>>(planned_view(out@)),
            decreases nodes.len() - i,
        {
            let ghost pre1 = views(nodes@).subrange(0, i + 1);
            assert(pre1.drop_last() =~= views(nodes@).subrange(0, i as int));
            assert(pre1.last() == nodes@[i as int]@);
            match parse_addr_in(nodes[i].as_str(), "failover list") {
                Err(m) => {
                    proof {
                        lemma_checks_err(self.label@, views(nodes@), i + 1);
                    }
                    return Err(m);
                },
                Ok((h, p, t)) => {
                    let mut task = String::from_str("failover-check-");
                    task.append(self.label.as_str());
                    task.append("-");
                    task.append(t.as_str());
                    let ghost old = out@;
                    out.push(PlannedTask { task, host: h, port: p });
                    assert(planned_view(out@) =~= planned_view(old).push((out@.last().task@, out@.last().host@, p)));
                },
            }
            i = i + 1;
        }
        assert(views(nodes@).subrange(0, nodes.len() as int) =~= views(nodes@));
        Ok(out)
    }
}

/// One stage of restarting nodes one by one.
#[derive(Debug, Clone, Copy, PartialEq, Eq, Structural)]
pub enum RestartAction {
    Stop,
    Start,
    Wait,
}

#[derive(Debug)]
pub struct RestartStage {
    /// The name of the stage's task group.
    pub group: String,
    pub action: RestartAction,
    pub node: String,
}

pub open spec fn stage_view(s: RestartStage) -> (Seq<char>, RestartAction, Seq<char>) {
    (s.group@, s.action, s.node@)
}

pub open spec fn stages_view(v: Seq<RestartStage>) -> Seq<(Seq<char>, RestartAction, Seq<char>)> {
    v.map_values(|s: RestartStage| stage_view(s))
}

/// The stages that restart `nodes` one at a time: stop, start and wait for
/// each in turn, in groups `<prefix>-stop-<port>`, `<prefix>-start-<port>`
/// and `<prefix>-wait-<port>`; the first unreadable address is the error.
pub open spec fn restart_stages(prefix: Seq<char>, nodes: Seq<Seq<char>>) -> Result<Seq<(Seq<char>, RestartAction, Seq<char>)>, Seq<char>>
    decreases nodes.len(),
{
    if nodes.len() == 0 {
        Ok(Seq::empty())
    } else {
        match restart_stages(prefix, nodes.drop_last()) {
            Err(e) => Err(e),
            Ok(ss) => match spec_parse_host_port(nodes.last(), "restart node"@) {
                Err(e) => Err(e),
                Ok((_, p)) => {
                    let n = nodes.last();
                    let port = decimal(p as nat);
                    Ok(ss + seq![
                        (prefix + "-stop-"@ + port, RestartAction::Stop, n),
                        (prefix + "-start-"@ + port, RestartAction::Start, n),
                        (prefix + "-wait-"@ + port, RestartAction::Wait, n),
                    ])
                },
            },
        }
    }
}

proof fn lemma_stages_err(prefix: Seq<char>, nodes: Seq<Seq<char>>, j: int)
    requires
        0 <= j <= nodes.len(),
        restart_stages(prefix, nodes.subrange(0, j)) is Err,
    ensures
        restart_stages(prefix, nodes) == restart_stages(prefix, nodes.subrange(0, j)),
    decreases nodes.len(),
{
    if j == nodes.len() {
        assert(nodes.subrange(0, j) =~= nodes);
    } else {
        let d = nodes.drop_last();
        assert(d.subrange(0, j) =~= nodes.subrange(0, j));
        lemma_stages_err(prefix, d, j);
    }
}

fn stage(prefix: &str, what: &str, port: &String, action: RestartAction, node: &String) -> (r: RestartStage)
    ensures
        stage_view(r) == (prefix@ + what@ + port@, action, node@),
{
    let mut g = String::from_str(prefix);
    g.append(what);
    g.append(port.as_str());
    RestartStage { group: g, action, node: node.clone() }
}

/// The stages that restart `nodes` one by one.
pub fn restart_sequence(prefix: &str, nodes: &Vec<String>) -> (r: Result<Vec<RestartStage>, String>)
    ensures
        match r {
            Ok(v) => restart_stages(prefix@, views(nodes@)) == Ok::<Seq<(Seq<char>, RestartAction, Seq<char>)>, Seq<char>>(stages_view(v@)),
            Err(m) => restart_stages(prefix@, views(nodes@)) == Err::<Seq<(Seq<char>, RestartAction, Seq<char>)>, Seq<char>>(m@),
        },
{
    let mut out: Vec<RestartStage> = Vec::new();
    assert(stages_view(out@) =~= Seq::<(Seq<char>, RestartAction, Seq<char>)>::empty());
    assert(views(nodes@).subrange(0, 0) =~= Seq::<Seq<char>>::empty());
    let mut i: usize = 0;
    while i < nodes.len()
        invariant
            i <= nodes.len(),
            restart_stages(prefix@, views(nodes@).subrange(0, i as int)) == Ok::<Seq<(Seq<char>, RestartAction, Seq<char>)>, Seq<char>>(stages_view(out@)),
        decreases nodes.len() - i,
    {
        let ghost pre1 = views(nodes@).subrange(0, i + 1);
        assert(pre1.drop_last() =~= views(nodes@).subrange(0, i as int));
        assert(pre1.last() == nodes@[i as int]@);
        match crate::topology::parse_host_port(nodes[i].as_str(), "restart node") {
            Err(m) => {
                proof {
                    lemma_stages_err(prefix@, views(nodes@), i + 1);
                }
                return Err(m);
            },
            Ok((_, p)) => {
                let port = crate::text::u64_to_string(p as u64);
                let ghost old = stages_view(out@);
                let a = stage(prefix, "-stop-", &port, RestartAction::Stop, &nodes[i]);
                let b = stage(prefix, "-start-", &port, RestartAction::Start, &nodes[i]);
                let c = stage(prefix, "-wait-", &port, RestartAction::Wait, &nodes[i]);
                out.push(a);
                out.push(b);
                out.push(c);
                assert(stages_view(out@) =~= old + seq![stage_view(out@[out@.len() - 3]), stage_view(out@[out@.len() - 2]), stage_view(out@[out@.len() - 1])]);
            },
        }
        i = i + 1;
    }
    assert(views(nodes@).subrange(0, nodes.len() as int) =~= views(nodes@));
    Ok(out)
}


/// Waits for nodes `nodes` to serve, named `<prefix>-<port>`; the first
/// address that is not `host:port` is the error.
pub open spec fn node_waits(prefix: Seq<char>, nodes: Seq<Seq<char>>) -> Result<Seq<(Seq<char>, Seq<char>, u16)>, Seq<char>>
    decreases nodes.len(),
{
    if nodes.len() == 0 {
        Ok(Seq::empty())
    } else {
        match node_waits(prefix, nodes.drop_last()) {
            Err(e) => Err(e),
            Ok(ws) => match spec_parse_host_port(nodes.last(), "target node"@) {
                Err(e) => Err(e),
                Ok((h, p)) => Ok(ws.push((prefix + "-"@ + decimal(p as nat), h, p))),
            },
        }
    }
}

/// Waits for `targets` to catch up as replicas, named `<prefix>-<port>`;
/// the first target that is not `host:port` is the error.
pub open spec fn replica_waits(prefix: Seq<char>, targets: Seq<Seq<char>>) -> Result<Seq<(Seq<char>, Seq<char>, u16)>, Seq<char>>
    decreases targets.len(),
{
    if targets.len() == 0 {
        Ok(Seq::empty())
    } else {
        match replica_waits(prefix, targets.drop_last()) {
            Err(e) => Err(e),
            Ok(ws) => match addr_in(targets.last(), "target replica list"@) {
                Err(e) => Err(e),
                Ok((h, p, _)) => Ok(ws.push((prefix + "-"@ + decimal(p as nat), h, p))),
            },
        }
    }
}

proof fn lemma_node_waits_err(prefix: Seq<char>, nodes: Seq<Seq<char>>, j: int)
    requires
        0 <= j <= nodes.len(),
        node_waits(prefix, nodes.subrange(0, j)) is Err,
    ensures
        node_waits(prefix, nodes) == node_waits(prefix, nodes.subrange(0, j)),
    decreases nodes.len(),
{
    if j == nodes.len() {
        assert(nodes.subrange(0, j) =~= nodes);
    } else {
        let d = nodes.drop_last();
        assert(d.subrange(0, j) =~= nodes.subrange(0, j));
        lemma_node_waits_err(prefix, d, j);
    }
}

proof fn lemma_replica_waits_err(prefix: Seq<char>, nodes: Seq<Seq<char>>, j: int)
    requires
        0 <= j <= nodes.len(),
        replica_waits(prefix, nodes.subrange(0, j)) is Err,
    ensures
        replica_waits(prefix, nodes) == replica_waits(prefix, nodes.subrange(0, j)),
    decreases nodes.len(),
{
    if j == nodes.len() {
        assert(nodes.subrange(0, j) =~= nodes);
    } else {
        let d = nodes.drop_last();
        assert(d.subrange(0, j) =~= nodes.subrange(0, j));
        lemma_replica_waits_err(prefix, d, j);
    }
}

pub open spec fn planned_result(r: Result<Vec<PlannedTask>, String>) -> Result<Seq<(Seq<char>, Seq<char>, u16)>, Seq<char>> {
    match r {
        Ok(v) => Ok(planned_view(v@)),
        Err(m) => Err(m@),
    }
}

fn planned(prefix: &str, host: String, port: u16) -> (r: PlannedTask)
    ensures
        r.task@ == prefix@ + "-"@ + decimal(port as nat),
        r.host@ == host@,
        r.port == port,
{
    let mut t = String::from_str(prefix);
    t.append("-");
    let p = crate::text::u64_to_string(port as u64);
    t.append(p.as_str());
    PlannedTask { task: t, host, port }
}

/// The tasks that wait for `nodes` to serve.
pub fn wait_node_tasks(prefix: &str, nodes: &Vec<String>) -> (r: Result<Vec<PlannedTask>, String>)
    ensures
        planned_result(r) == node_waits(prefix@, views(nodes@)),
{
    let mut out: Vec<PlannedTask> = Vec::new();
    assert(planned_view(out@) =~= Seq::<(Seq<char>, Seq<char>, u16)>::empty());
    assert(views(nodes@).subrange(0, 0) =~= Seq::<Seq<char>>::empty());
    let mut i: usize = 0;
    while i < nodes.len()
        invariant
            i <= nodes.len(),
            node_waits(prefix@, views(nodes@).subrange(0, i as int)) == Ok::<Seq<(Seq<char>, Seq<char>, u16)>, Seq<char>>(planned_view(out@)),
        decreases nodes.len() - i,
    {
        let ghost pre1 = views(nodes@).subrange(0, i + 1);
        assert(pre1.drop_last() =~= views(nodes@).subrange(0, i as int));
        assert(pre1.last() == nodes@[i as int]@);
        match crate::topology::parse_host_port(nodes[i].as_str(), "target node") {
            Err(m) => {
                proof {
                    lemma_node_waits_err(prefix@, views(nodes@), i + 1);
                }
                return Err(m);
            },
            Ok((h, p)) => {
                let ghost old = planned_view(out@);
                let t = planned(prefix, h, p);
                out.push(t);
                assert(planned_view(out@) =~= old.push((out@.last().task@, out@.last().host@, p)));
            },
        }
        i = i + 1;
    }
    assert(views(nodes@).subrange(0, nodes.len() as int) =~= views(nodes@));
    Ok(out)
}

/// The source master and the tasks that wait for `targets` to catch up with
/// it as replicas; nothing when there are no targets.
pub open spec fn replica_wait_plan(prefix: Seq<char>, source: Seq<char>, targets: Seq<Seq<char>>) -> Result<Option<((Seq<char>, u16), Seq<(Seq<char>, Seq<char>, u16)>)>, Seq<char>> {
    if targets.len() == 0 {
        Ok(None)
    } else {
        match addr_in(source, "current master"@) {
            Err(e) => Err(e),
            Ok((h, p, _)) => match replica_waits(prefix, targets) {
                Err(e) => Err(e),
                Ok(ws) => Ok(Some(((h, p), ws))),
            },
        }
    }
}

/// The tasks that wait for `targets` to catch up as replicas of `source`.
pub fn wait_replica_tasks(prefix: &str, source: &str, targets: &Vec<String>) -> (r: Result<Option<((String, u16), Vec<PlannedTask>)>, String>)
    ensures
        match r {
            Ok(None) => replica_wait_plan(prefix@, source@, views(targets@)) == Ok::<Option<((Seq<char>, u16), Seq<(Seq<char>, Seq<char>, u16)>)>, Seq<char>>(None),
            Ok(Some(((h, p), v))) => replica_wait_plan(prefix@, source@, views(targets@)) == Ok::<Option<((Seq<char>, u16), Seq<(Seq<char>, Seq<char>, u16)>)>, Seq<char>>(Some(((h@, p), planned_view(v@)))),
            Err(m) => replica_wait_plan(prefix@, source@, views(targets@)) == Err::<Option<((Seq<char>, u16), Seq<(Seq<char>, Seq<char>, u16)>)>, Seq<char>>(m@),
        },
{
    if targets.len() == 0 {
        return Ok(None);
    }
    let (sh, sp) = match parse_addr_in(source, "current master") {
        Err(m) => return Err(m),
        Ok((h, p, _)) => (h, p),
    };
    let mut out: Vec<PlannedTask> = Vec::new();
    assert(planned_view(out@) =~= Seq::<(Seq<char>, Seq<char>, u16)>::empty());
    assert(views(targets@).subrange(0, 0) =~= Seq::<Seq<char>>::empty());
    let mut i: usize = 0;
    while i < targets.len()
        invariant
            i <= targets.len(),
            targets@.len() > 0,
            addr_in(source@, "current master"@) is Ok,
            addr_in(source@, "current master"@)->Ok_0.0 == sh@,
            addr_in(source@, "current master"@)->Ok_0.1 == sp,
            replica_waits(prefix@, views(targets@).subrange(0, i as int)) == Ok::<Seq<(Seq<char>, Seq<char>, u16)>, Seq<char>>(planned_view(out@)),
        decreases targets.len() - i,
    {
        let ghost pre1 = views(targets@).subrange(0, i + 1);
        assert(pre1.drop_last() =~= views(targets@).subrange(0, i as int));
        assert(pre1.last() == targets@[i as int]@);
        match parse_addr_in(targets[i].as_str(), "target replica list") {
            Err(m) => {
                proof {
                    lemma_replica_waits_err(prefix@, views(targets@), i + 1);
                }
                return Err(m);
            },
            Ok((h, p, _)) => {
                let ghost old = planned_view(out@);
                let t = planned(prefix, h, p);
                out.push(t);
                assert(planned_view(out@) =~= old.push((out@.last().task@, out@.last().host@, p)));
            },
        }
        i = i + 1;
    }
    assert(views(targets@).subrange(0, targets.len() as int) =~= views(targets@));
    Ok(Some(((sh, sp), out)))
}

/// One failover of a pair: move leadership from the old leader to the new
/// one, named `failover-<label>-<old port>-to-<new port>`.
#[derive(Debug)]
pub struct PairFailover {
    pub task: String,
    pub old_host: String,
    pub old_port: u16,
    pub new_host: String,
    pub new_port: u16,
}

pub open spec fn pair_failover_view(f: PairFailover) -> (Seq<char>, Seq<char>, u16, Seq<char>, u16) {
    (f.task@, f.old_host@, f.old_port, f.new_host@, f.new_port)
}

pub open spec fn pair_failovers_view(v: Seq<PairFailover>) -> Seq<(Seq<char>, Seq<char>, u16, Seq<char>, u16)> {
    v.map_values(|f: PairFailover| pair_failover_view(f))
}

/// The failovers of the (old leader, new leader) pairs `ps` in round
/// `label`; the first address that is not `host:port` is the error.
pub open spec fn pair_failovers(label: Seq<char>, ps: Seq<(Seq<char>, Seq<char>)>) -> Result<Seq<(Seq<char>, Seq<char>, u16, Seq<char>, u16)>, Seq<char>>
    decreases ps.len(),
{
    if ps.len() == 0 {
        Ok(Seq::empty())
    } else {
        match pair_failovers(label, ps.drop_last()) {
            Err(e) => Err(e),
            Ok(fs) => match spec_parse_host_port(ps.last().0, "old leader"@) {
                Err(e) => Err(e),
                Ok((oh, op)) => match spec_parse_host_port(ps.last().1, "new leader"@) {
                    Err(e) => Err(e),
                    Ok((nh, np)) => Ok(fs.push((
                        "failover-"@ + label + "-"@ + decimal(op as nat) + "-to-"@ + decimal(np as nat),
                        oh,
                        op,
                        nh,
                        np,
                    ))),
                },
            },
        }
    }
}

proof fn lemma_pair_failovers_err(label: Seq<char>, ps: Seq<(Seq<char>, Seq<char>)>, j: int)
    requires
        0 <= j <= ps.len(),
        pair_failovers(label, ps.subrange(0, j)) is Err,
    ensures
        pair_failovers(label, ps) == pair_failovers(label, ps.subrange(0, j)),
    decreases ps.len(),
{
    if j == ps.len() {
        assert(ps.subrange(0, j) =~= ps);
    } else {
        let d = ps.drop_last();
        assert(d.subrange(0, j) =~= ps.subrange(0, j));
        lemma_pair_failovers_err(label, d, j);
    }
}

/// The failover tasks of the pairs `pairs` in round `label`.
pub fn build_failover_pairs(label: &str, pairs: &Vec<(String, String)>) -> (r: Result<Vec<PairFailover>, String>)
    ensures
        match r {
            Ok(v) => pair_failovers(label@, crate::topology::pair_views(pairs@)) == Ok::<Seq<(Seq<char>, Seq<char>, u16, Seq<char>, u16)>, Seq<char>>(pair_failovers_view(v@)),
            Err(m) => pair_failovers(label@, crate::topology::pair_views(pairs@)) == Err::<Seq<(Seq<char>, Seq<char>, u16, Seq<char>, u16)>, Seq<char>>(m@),
        },
{
    let ghost pv = crate::topology::pair_views(pairs@);
    let mut out: Vec<PairFailover> = Vec::new();
    assert(pair_failovers_view(out@) =~= Seq::<(Seq<char>, Seq<char>, u16, Seq<char>, u16)>::empty());
    assert(pv.subrange(0, 0) =~= Seq::<(Seq<char>, Seq<char>)>::empty());
    let mut i: usize = 0;
    while i < pairs.len()
        invariant
            i <= pairs.len(),
            pv == crate::topology::pair_views(pairs@),
            pair_failovers(label@, pv.subrange(0, i as int)) == Ok::<Seq<(Seq<char>, Seq<char>, u16, Seq<char>, u16)>, Seq<char>>(pair_failovers_view(out@)),
        decreases pairs.len() - i,
    {
        let ghost pre1 = pv.subrange(0, i + 1);
        assert(pre1.drop_last() =~= pv.subrange(0, i as int));
        assert(pre1.last() == (pairs@[i as int].0@, pairs@[i as int].1@));
        let (oh, op) = match crate::topology::parse_host_port(pairs[i].0.as_str(), "old leader") {
            Err(m) => {
                proof {
                    lemma_pair_failovers_err(label@, pv, i + 1);
                }
                return Err(m);
            },
            Ok(x) => x,
        };
        let (nh, np) = match crate::topology::parse_host_port(pairs[i].1.as_str(), "new leader") {
            Err(m) => {
                proof {
                    lemma_pair_failovers_err(label@, pv, i + 1);
                }
                return Err(m);
            },
            Ok(x) => x,
        };
        let mut t = String::from_str("failover-");
        t.append(label);
        t.append("-");
        let ops = crate::text::u64_to_string(op as u64);
        t.append(ops.as_str());
        t.append("-to-");
        let nps = crate::text::u64_to_string(np as u64);
        t.append(nps.as_str());
        let ghost old = pair_failovers_view(out@);
        out.push(PairFailover { task: t, old_host: oh, old_port: op, new_host: nh, new_port: np });
        assert(pair_failovers_view(out@) =~= old.push(pair_failover_view(out@.last())));
        i = i + 1;
    }
    assert(pv.subrange(0, pairs.len() as int) =~= pv);
    Ok(out)
}


/// In a binary upgrade without standbys no tx server runs while the log
/// service is down: the tx servers are stopped before the log service is
/// stopped, and started again only after the log service answers again
/// (and after they were stopped, whether or not the log service restarts).
pub proof fn law_upgrade_tx_down_while_log_restarts(skip_log_restart: bool)
    ensures
        ({
            let s = upgrade_steps(false, skip_log_restart);
            &&& s.contains(StepKind::StopTxNodes)
            &&& s.contains(StepKind::StartTx)
            &&& forall|i: int, j: int| 0 <= i < s.len() && 0 <= j < s.len() && s[i] == StepKind::StopTxNodes && s[j] == StepKind::StartTx ==> i < j
            &&& forall|i: int, j: int| 0 <= i < s.len() && 0 <= j < s.len() && s[i] == StepKind::StopTxNodes && s[j] == StepKind::StopLog ==> i < j
            &&& forall|i: int, j: int| 0 <= i < s.len() && 0 <= j < s.len() && s[i] == StepKind::StartLogAndWait && s[j] == StepKind::StartTx ==> i < j
        }),
{
    let s = upgrade_steps(false, skip_log_restart);
    if skip_log_restart {
        assert(s =~= seq![StepKind::DownloadAndExtract, StepKind::UploadToAllNodes, StepKind::StopTxNodes,
            StepKind::StartTx, StepKind::VerifyVersion]);
        assert(s[2] == StepKind::StopTxNodes);
        assert(s[3] == StepKind::StartTx);
    } else {
        assert(s =~= seq![StepKind::DownloadAndExtract, StepKind::UploadToAllNodes, StepKind::StopTxNodes,
            StepKind::StopLog, StepKind::StartLogAndWait, StepKind::StartTx, StepKind::VerifyVersion]);
        assert(s[2] == StepKind::StopTxNodes);
        assert(s[5] == StepKind::StartTx);
    }
}

proof fn lemma_connected_managed_members(ns: Seq<NodeView>, m: Seq<Seq<char>>)
    ensures
        forall|i: int| 0 <= i < connected_managed(ns, m).len() ==> {
            &&& ns.contains(#[trigger] connected_managed(ns, m)[i])
            &&& connected_managed(ns, m)[i].connected
            &&& m.contains(crate::topology::addr(connected_managed(ns, m)[i].ip, connected_managed(ns, m)[i].port))
        },
    decreases ns.len(),
{
    if ns.len() > 0 {
        let p = ns.drop_last();
        lemma_connected_managed_members(p, m);
        let c = connected_managed(ns, m);
        assert forall|i: int| 0 <= i < c.len() implies ns.contains(#[trigger] c[i]) && c[i].connected
            && m.contains(crate::topology::addr(c[i].ip, c[i].port)) by {
            let cp = connected_managed(p, m);
            if i < cp.len() {
                assert(c[i] == cp[i]);
                let k = choose|k: int| 0 <= k < p.len() && p[k] == cp[i];
                assert(ns[k] == p[k]);
            } else {
                assert(c[i] == ns.last());
                assert(ns[ns.len() - 1] == ns.last());
            }
        }
    }
}

/// The round of a FailoverAndStopOldMaster step stops exactly the nodes it
/// fails over, and those are connected managed masters of the topology: it
/// never stops a replica in their place.
pub proof fn law_failover_round_stops_old_masters(u: UpgradeView, topo: (Seq<NodeView>, Seq<NodeView>))
    ensures
        failover_stop_plan(u, topo) matches Ok(Some(rv)) ==> {
            &&& rv.stop == rv.failover
            &&& rv.failover.len() > 0
            &&& forall|i: int| 0 <= i < rv.stop.len() ==> exists|k: int| 0 <= k < topo.0.len() && {
                &&& topo.0[k].connected
                &&& #[trigger] rv.stop[i] == crate::topology::addr(topo.0[k].ip, topo.0[k].port)
                &&& managed_nodes(u).contains(rv.stop[i])
            }
        },
{
    if let Ok(Some(rv)) = failover_stop_plan(u, topo) {
        let cm = connected_managed(topo.0, managed_nodes(u));
        lemma_connected_managed_members(topo.0, managed_nodes(u));
        assert forall|i: int| 0 <= i < rv.stop.len() implies exists|k: int| 0 <= k < topo.0.len() && {
            &&& topo.0[k].connected
            &&& #[trigger] rv.stop[i] == crate::topology::addr(topo.0[k].ip, topo.0[k].port)
            &&& managed_nodes(u).contains(rv.stop[i])
        } by {
            assert(rv.stop[i] == crate::topology::addr(cm[i].ip, cm[i].port));
            assert(topo.0.contains(cm[i]));
            let k = choose|k: int| 0 <= k < topo.0.len() && topo.0[k] == cm[i];
            assert(topo.0[k] == cm[i]);
        }
    }
}

} // verus!
