//! Scaling the log service in and out: the checks on a request, the new
//! membership, the commands that start, stop and clean up log members, and
//! the retries of the request sent to the log service.
use vstd::prelude::*;
use crate::text::{views, split_once, split_once_char, spec_parse_u16, parse_u16, spec_parse_u32, parse_u32, decimal, u64_to_string, dedup, dedup_strings};
use crate::topology::{addr, node_addr, contains_string};
use crate::logctl::LogMember;
use crate::scale::{ScaleOperationType, host_port_pairs, ports_on, parsed_host_ports, ports_on_host, HostCommand, host_command_views};
use crate::logctl::{LogProcessKey, LogCtlCmd, LogCmdView, log_views};
use crate::task::{TaskId, TaskIdView};
use crate::text::{join, join_str};

verus! {

/// The host and port of a node written `host:port` whose port reads as a
/// `u16`.
pub open spec fn log_node(node: Seq<char>) -> Option<(Seq<char>, u16)> {
    match split_once(node, ':') {
        Some((h, p)) => match spec_parse_u16(p) {
            Some(n) => Some((h, n)),
            None => None,
        },
        None => None,
    }
}

pub open spec fn opt_host_port(r: Option<(String, u16)>) -> Option<(Seq<char>, u16)> {
    match r {
        Some((h, p)) => Some((h@, p)),
        None => None,
    }
}

/// Reads a node written `host:port`.
pub fn parse_log_node(node: &str) -> (r: Option<(String, u16)>)
    ensures
        opt_host_port(r) == log_node(node@),
{
    match split_once_char(node, ':') {
        Some((h, p)) => match parse_u16(p.as_str()) {
            Some(n) => Some((h, n)),
            None => None,
        },
        None => None,
    }
}

/// What a log member is, as host, port and storage path.
pub open spec fn member_view(m: LogMember) -> (Seq<char>, u16, Seq<char>) {
    (m.host@, m.port, m.storage_path@)
}

pub open spec fn member_views(v: Seq<LogMember>) -> Seq<(Seq<char>, u16, Seq<char>)> {
    v.map_values(|m: LogMember| member_view(m))
}

/// Whether some member of `ms` runs on host `h` and port `p`.
pub open spec fn has_member(ms: Seq<(Seq<char>, u16, Seq<char>)>, h: Seq<char>, p: u16) -> bool {
    exists|i: int| 0 <= i < ms.len() && #[trigger] ms[i].0 == h && ms[i].1 == p
}

fn member_at(members: &Vec<LogMember>, h: &String, p: u16) -> (r: bool)
    ensures
        r == has_member(member_views(members@), h@, p),
{
    let ghost mv = member_views(members@);
    let mut i: usize = 0;
    while i < members.len()
        invariant
            i <= members.len(),
            mv == member_views(members@),
            forall|k: int| 0 <= k < i ==> !(#[trigger] mv[k].0 == h@ && mv[k].1 == p),
        decreases members.len() - i,
    {
        assert(mv[i as int] == member_view(members@[i as int]));
        if members[i].host == *h && members[i].port == p {
            assert(mv[i as int].0 == h@ && mv[i as int].1 == p);
            return true;
        }
        i = i + 1;
    }
    false
}

/// Why a log scale request is refused.
#[derive(Debug, Clone, Copy, PartialEq, Eq, Structural)]
pub enum ScaleLogError {
    /// Neither log nodes to add nor log nodes to remove.
    NoNodes,
    /// Both log nodes to add and log nodes to remove.
    AddAndRemove,
    /// Log nodes to add without their log group.
    LogNgIdRequired,
    /// A log group given with log nodes to remove.
    LogNgIdNotAllowed,
    /// The deployment has no log service.
    NoLogService,
}

pub open spec fn spec_scale_log_error_message(e: ScaleLogError) -> Seq<char> {
    match e {
        ScaleLogError::NoNodes => "Either --add-nodes or --remove-nodes must be provided with at least one log node"@,
        ScaleLogError::AddAndRemove => "Cannot specify both --add-nodes and --remove-nodes in the same command"@,
        ScaleLogError::LogNgIdRequired => "--log-ng-id is required when adding log nodes"@,
        ScaleLogError::LogNgIdNotAllowed => "--log-ng-id should not be provided when removing log nodes"@,
        ScaleLogError::NoLogService => "Log service configuration not found"@,
    }
}

impl ScaleLogError {
    /// The message the command line reports.
    pub fn message(&self) -> (r: &'static str)
        ensures
            r@ == spec_scale_log_error_message(*self),
    {
        match self {
            ScaleLogError::NoNodes => "Either --add-nodes or --remove-nodes must be provided with at least one log node",
            ScaleLogError::AddAndRemove => "Cannot specify both --add-nodes and --remove-nodes in the same command",
            ScaleLogError::LogNgIdRequired => "--log-ng-id is required when adding log nodes",
            ScaleLogError::LogNgIdNotAllowed => "--log-ng-id should not be provided when removing log nodes",
            ScaleLogError::NoLogService => "Log service configuration not found",
        }
    }
}

/// What a log scale request comes to.
#[derive(Debug)]
pub enum ScaleLogRequest {
    /// Every log node to add already is a member: nothing to do.
    AllPresent,
    /// No log node to remove is a member: nothing to do.
    AllAbsent,
    /// The nodes to add or remove.
    Scale { operation_type: ScaleOperationType, nodes: Vec<String> },
}

pub enum ScaleLogRequestView {
    AllPresent,
    AllAbsent,
    Scale { operation_type: ScaleOperationType, nodes: Seq<Seq<char>> },
}

pub open spec fn log_request_view(r: Result<ScaleLogRequest, ScaleLogError>) -> Result<ScaleLogRequestView, ScaleLogError> {
    match r {
        Ok(ScaleLogRequest::AllPresent) => Ok(ScaleLogRequestView::AllPresent),
        Ok(ScaleLogRequest::AllAbsent) => Ok(ScaleLogRequestView::AllAbsent),
        Ok(ScaleLogRequest::Scale { operation_type, nodes }) => Ok(ScaleLogRequestView::Scale { operation_type, nodes: views(nodes@) }),
        Err(e) => Err(e),
    }
}

/// Whether node `n` is kept in a request of kind `op` against members
/// `ms`: a node to add is kept unless it is a member (a node that does
/// not read as `host:port` is kept); a node to remove is kept when it is a
/// member.
pub open spec fn keep_log_node(op: ScaleOperationType, ms: Seq<(Seq<char>, u16, Seq<char>)>, n: Seq<char>) -> bool {
    match log_node(n) {
        Some((h, p)) => match op {
            ScaleOperationType::AddNodes => !has_member(ms, h, p),
            ScaleOperationType::RemoveNodes => has_member(ms, h, p),
        },
        None => op == ScaleOperationType::AddNodes,
    }
}

/// The nodes of `v` kept in a request of kind `op`, in order.
pub open spec fn kept_log_nodes(op: ScaleOperationType, ms: Seq<(Seq<char>, u16, Seq<char>)>, v: Seq<Seq<char>>) -> Seq<Seq<char>>
    decreases v.len(),
{
    if v.len() == 0 {
        Seq::empty()
    } else if keep_log_node(op, ms, v.last()) {
        kept_log_nodes(op, ms, v.drop_last()).push(v.last())
    } else {
        kept_log_nodes(op, ms, v.drop_last())
    }
}

/// The outcome of a log scale request, checked in the order the command
/// line checks it.
pub open spec fn spec_plan_scale_log(
    add: Seq<Seq<char>>,
    remove: Seq<Seq<char>>,
    log_ng_id: Option<u32>,
    members: Option<Seq<(Seq<char>, u16, Seq<char>)>>,
) -> Result<ScaleLogRequestView, ScaleLogError> {
    if add.len() == 0 && remove.len() == 0 {
        Err(ScaleLogError::NoNodes)
    } else if add.len() > 0 && remove.len() > 0 {
        Err(ScaleLogError::AddAndRemove)
    } else if add.len() > 0 && log_ng_id is None {
        Err(ScaleLogError::LogNgIdRequired)
    } else if add.len() == 0 && log_ng_id is Some {
        Err(ScaleLogError::LogNgIdNotAllowed)
    } else {
        match members {
            None => Err(ScaleLogError::NoLogService),
            Some(ms) => {
                let op = if add.len() > 0 { ScaleOperationType::AddNodes } else { ScaleOperationType::RemoveNodes };
                let nodes = if add.len() > 0 { add } else { remove };
                let kept = kept_log_nodes(op, ms, nodes);
                if kept.len() == 0 {
                    if add.len() > 0 { Ok(ScaleLogRequestView::AllPresent) } else { Ok(ScaleLogRequestView::AllAbsent) }
                } else {
                    Ok(ScaleLogRequestView::Scale { operation_type: op, nodes: kept })
                }
            },
        }
    }
}

pub open spec fn opt_members(o: Option<Vec<LogMember>>) -> Option<Seq<(Seq<char>, u16, Seq<char>)>> {
    match o {
        Some(v) => Some(member_views(v@)),
        None => None,
    }
}

fn keep_log_nodes(op: ScaleOperationType, members: &Vec<LogMember>, nodes: &Vec<String>) -> (r: Vec<String>)
    ensures
        views(r@) == kept_log_nodes(op, member_views(members@), views(nodes@)),
{
    let mut r: Vec<String> = Vec::new();
    let mut i: usize = 0;
    while i < nodes.len()
        invariant
            i <= nodes.len(),
            views(r@) == kept_log_nodes(op, member_views(members@), views(nodes@).subrange(0, i as int)),
        decreases nodes.len() - i,
    {
        let ghost pre1 = views(nodes@).subrange(0, i + 1);
        assert(pre1.drop_last() =~= views(nodes@).subrange(0, i as int));
        assert(pre1.last() == nodes@[i as int]@);
        let keep = match parse_log_node(nodes[i].as_str()) {
            Some((h, p)) => {
                let present = member_at(members, &h, p);
                match op {
                    ScaleOperationType::AddNodes => !present,
                    ScaleOperationType::RemoveNodes => present,
                }
            },
            None => match op {
                ScaleOperationType::AddNodes => true,
                ScaleOperationType::RemoveNodes => false,
            },
        };
        if keep {
            let ghost before = views(r@);
            r.push(nodes[i].clone());
            assert(views(r@) =~= before.push(nodes@[i as int]@));
        }
        i = i + 1;
    }
    assert(views(nodes@).subrange(0, nodes.len() as int) =~= views(nodes@));
    r
}

proof fn lemma_kept_log_nodes(op: ScaleOperationType, ms: Seq<(Seq<char>, u16, Seq<char>)>, v: Seq<Seq<char>>)
    ensures
        forall|i: int| 0 <= i < kept_log_nodes(op, ms, v).len() ==> keep_log_node(op, ms, #[trigger] kept_log_nodes(op, ms, v)[i]),
    decreases v.len(),
{
    if v.len() > 0 {
        lemma_kept_log_nodes(op, ms, v.drop_last());
        let p = kept_log_nodes(op, ms, v.drop_last());
        if keep_log_node(op, ms, v.last()) {
            let q = p.push(v.last());
            assert forall|i: int| 0 <= i < q.len() implies keep_log_node(op, ms, #[trigger] q[i]) by {
                if i < p.len() {
                    assert(q[i] == p[i]);
                }
            }
        }
    }
}

/// A log scale operation that is carried out adds no node that already is
/// a member and removes only members: asking again for what is already so
/// changes nothing.
pub proof fn law_scale_log_request_targets(
    add: Seq<Seq<char>>,
    remove: Seq<Seq<char>>,
    log_ng_id: Option<u32>,
    members: Option<Seq<(Seq<char>, u16, Seq<char>)>>,
)
    ensures
        match (spec_plan_scale_log(add, remove, log_ng_id, members), members) {
            (Ok(ScaleLogRequestView::Scale { operation_type, nodes }), Some(ms)) => forall|i: int| 0 <= i < nodes.len() ==>
                match log_node(#[trigger] nodes[i]) {
                    Some((h, p)) => has_member(ms, h, p) <==> operation_type == ScaleOperationType::RemoveNodes,
                    None => operation_type == ScaleOperationType::AddNodes,
                },
            _ => true,
        },
{
    match (spec_plan_scale_log(add, remove, log_ng_id, members), members) {
        (Ok(ScaleLogRequestView::Scale { operation_type, nodes }), Some(ms)) => {
            let src = if add.len() > 0 { add } else { remove };
            lemma_kept_log_nodes(operation_type, ms, src);
            assert(nodes == kept_log_nodes(operation_type, ms, src));
            assert forall|i: int| 0 <= i < nodes.len() implies match log_node(#[trigger] nodes[i]) {
                Some((h, p)) => has_member(ms, h, p) <==> operation_type == ScaleOperationType::RemoveNodes,
                None => operation_type == ScaleOperationType::AddNodes,
            } by {
                assert(keep_log_node(operation_type, ms, nodes[i]));
            }
        },
        _ => {},
    }
}

/// Checks a log scale request against the log members of the deployment:
/// nodes to add that already are members and nodes to remove that are not
/// are dropped, and a request left with nothing to do is a no-op.
pub fn plan_scale_log_request(
    add_nodes: &Vec<String>,
    remove_nodes: &Vec<String>,
    log_ng_id: Option<u32>,
    members: &Option<Vec<LogMember>>,
) -> (r: Result<ScaleLogRequest, ScaleLogError>)
    ensures
        log_request_view(r) == spec_plan_scale_log(views(add_nodes@), views(remove_nodes@), log_ng_id, opt_members(*members)),
{
    if add_nodes.len() == 0 && remove_nodes.len() == 0 {
        return Err(ScaleLogError::NoNodes);
    }
    if add_nodes.len() > 0 && remove_nodes.len() > 0 {
        return Err(ScaleLogError::AddAndRemove);
    }
    if add_nodes.len() > 0 && log_ng_id.is_none() {
        return Err(ScaleLogError::LogNgIdRequired);
    }
    if add_nodes.len() == 0 && log_ng_id.is_some() {
        return Err(ScaleLogError::LogNgIdNotAllowed);
    }
    let ms = match members {
        Some(m) => m,
        None => {
            return Err(ScaleLogError::NoLogService);
        },
    };
    let add = add_nodes.len() > 0;
    let op = if add { ScaleOperationType::AddNodes } else { ScaleOperationType::RemoveNodes };
    let kept = if add { keep_log_nodes(op, ms, add_nodes) } else { keep_log_nodes(op, ms, remove_nodes) };
    if kept.len() == 0 {
        if add {
            Ok(ScaleLogRequest::AllPresent)
        } else {
            Ok(ScaleLogRequest::AllAbsent)
        }
    } else {
        Ok(ScaleLogRequest::Scale { operation_type: op, nodes: kept })
    }
}

/// The log service of a deployment: its members and its replica count.
#[derive(Debug)]
pub struct LogService {
    pub members: Vec<LogMember>,
    pub replica: u32,
}

/// The members a log scale operation adds: one for each node written
/// `host:port`, storing under `install_dir/wal_eloqkv/<port>`.
pub open spec fn new_members(nodes: Seq<Seq<char>>, install_dir: Seq<char>) -> Seq<(Seq<char>, u16, Seq<char>)>
    decreases nodes.len(),
{
    if nodes.len() == 0 {
        Seq::empty()
    } else {
        match log_node(nodes.last()) {
            Some((h, p)) => new_members(nodes.drop_last(), install_dir).push(
                (h, p, install_dir + "/wal_eloqkv/"@ + decimal(p as nat)),
            ),
            None => new_members(nodes.drop_last(), install_dir),
        }
    }
}

/// The members of `ms` whose `host:port` is not among `nodes`, in order.
pub open spec fn kept_members(ms: Seq<(Seq<char>, u16, Seq<char>)>, nodes: Seq<Seq<char>>) -> Seq<(Seq<char>, u16, Seq<char>)>
    decreases ms.len(),
{
    if ms.len() == 0 {
        Seq::empty()
    } else if nodes.contains(addr(ms.last().0, ms.last().1)) {
        kept_members(ms.drop_last(), nodes)
    } else {
        kept_members(ms.drop_last(), nodes).push(ms.last())
    }
}

/// Why the removal of log nodes is refused.
#[derive(Debug, Clone, Copy, PartialEq, Eq, Structural)]
pub enum LogRemovalError {
    /// No member is among the nodes to remove.
    NoneFound,
    /// Fewer than three members would remain.
    TooFewRemain,
}

pub open spec fn spec_removal_error_message(e: LogRemovalError) -> Seq<char> {
    match e {
        LogRemovalError::NoneFound => "None of the specified nodes were found in the log service configuration"@,
        LogRemovalError::TooFewRemain => "Cannot remove nodes if it would result in fewer than 3 nodes remaining in the log service"@,
    }
}

impl LogRemovalError {
    /// The message the command line reports.
    pub fn message(&self) -> (r: &'static str)
        ensures
            r@ == spec_removal_error_message(*self),
    {
        match self {
            LogRemovalError::NoneFound => "None of the specified nodes were found in the log service configuration",
            LogRemovalError::TooFewRemain => "Cannot remove nodes if it would result in fewer than 3 nodes remaining in the log service",
        }
    }
}

/// The log service once `nodes` are removed from members `ms` with
/// replica count `replica`: the other members, and the replica count less
/// one per removed member; refused when no member goes or fewer than
/// three would stay.
pub open spec fn spec_remove_members(ms: Seq<(Seq<char>, u16, Seq<char>)>, replica: u32, nodes: Seq<Seq<char>>) -> Result<(Seq<(Seq<char>, u16, Seq<char>)>, int), LogRemovalError> {
    let kept = kept_members(ms, nodes);
    if kept.len() == ms.len() {
        Err(LogRemovalError::NoneFound)
    } else if kept.len() < 3 {
        Err(LogRemovalError::TooFewRemain)
    } else {
        Ok((kept, replica - (ms.len() - kept.len())))
    }
}

fn clone_member(m: &LogMember) -> (r: LogMember)
    ensures
        member_view(r) == member_view(*m),
{
    LogMember { host: m.host.clone(), port: m.port, storage_path: m.storage_path.clone() }
}

impl LogService {
    /// The log service with a member for each node written `host:port`,
    /// added after the present ones, the replica count growing by one each.
    pub fn with_added(&self, nodes: &Vec<String>, install_dir: &str) -> (r: LogService)
        requires
            self.replica + new_members(views(nodes@), install_dir@).len() <= u32::MAX,
        ensures
            member_views(r.members@) == member_views(self.members@) + new_members(views(nodes@), install_dir@),
            r.replica == self.replica + new_members(views(nodes@), install_dir@).len(),
    {
        let mut members: Vec<LogMember> = Vec::new();
        let mut k: usize = 0;
        while k < self.members.len()
            invariant
                k <= self.members.len(),
                member_views(members@) == member_views(self.members@).subrange(0, k as int),
            decreases self.members.len() - k,
        {
            let m = clone_member(&self.members[k]);
            let ghost before = member_views(members@);
            members.push(m);
            assert(member_views(members@) =~= before.push(member_view(self.members@[k as int])));
            assert(member_views(self.members@).subrange(0, k + 1) =~= member_views(self.members@).subrange(0, k as int).push(
                member_view(self.members@[k as int]),
            ));
            k = k + 1;
        }
        assert(member_views(self.members@).subrange(0, self.members.len() as int) =~= member_views(self.members@));
        let mut replica = self.replica;
        let mut i: usize = 0;
        while i < nodes.len()
            invariant
                i <= nodes.len(),
                member_views(members@) == member_views(self.members@) + new_members(views(nodes@).subrange(0, i as int), install_dir@),
                replica == self.replica + new_members(views(nodes@).subrange(0, i as int), install_dir@).len(),
                self.replica + new_members(views(nodes@), install_dir@).len() <= u32::MAX,
            decreases nodes.len() - i,
        {
            let ghost pre1 = views(nodes@).subrange(0, i + 1);
            assert(pre1.drop_last() =~= views(nodes@).subrange(0, i as int));
            assert(pre1.last() == nodes@[i as int]@);
            proof {
                lemma_new_members_prefix(views(nodes@), install_dir@, i + 1);
            }
            match parse_log_node(nodes[i].as_str()) {
                Some((h, p)) => {
                    let mut storage = String::from_str(install_dir);
                    storage.append("/wal_eloqkv/");
                    let d = u64_to_string(p as u64);
                    storage.append(d.as_str());
                    let m = LogMember { host: h, port: p, storage_path: storage };
                    let ghost mv = member_view(m);
                    let ghost before = member_views(members@);
                    members.push(m);
                    assert(member_views(members@) =~= before.push(mv));
                    replica = replica + 1;
                },
                None => {},
            }
            i = i + 1;
        }
        assert(views(nodes@).subrange(0, nodes.len() as int) =~= views(nodes@));
        LogService { members, replica }
    }

    /// The log service once `nodes` (as `host:port`) are removed.
    pub fn without_nodes(&self, nodes: &Vec<String>) -> (r: Result<LogService, LogRemovalError>)
        requires
            self.replica >= self.members.len() - kept_members(member_views(self.members@), views(nodes@)).len(),
        ensures
            match (r, spec_remove_members(member_views(self.members@), self.replica, views(nodes@))) {
                (Ok(s), Ok((ms, rep))) => member_views(s.members@) == ms && s.replica == rep,
                (Err(e), Err(f)) => e == f,
                _ => false,
            },
    {
        let ghost mv = member_views(self.members@);
        proof {
            lemma_kept_members_len(mv, views(nodes@));
        }
        let mut kept: Vec<LogMember> = Vec::new();
        let mut i: usize = 0;
        while i < self.members.len()
            invariant
                i <= self.members.len(),
                mv == member_views(self.members@),
                member_views(kept@) == kept_members(mv.subrange(0, i as int), views(nodes@)),
            decreases self.members.len() - i,
        {
            let ghost pre1 = mv.subrange(0, i + 1);
            assert(pre1.drop_last() =~= mv.subrange(0, i as int));
            assert(pre1.last() == member_view(self.members@[i as int]));
            let a = node_addr(self.members[i].host.as_str(), self.members[i].port);
            if !contains_string(nodes, &a) {
                let m = clone_member(&self.members[i]);
                let ghost before = member_views(kept@);
                kept.push(m);
                assert(member_views(kept@) =~= before.push(member_view(self.members@[i as int])));
            }
            i = i + 1;
        }
        assert(mv.subrange(0, self.members.len() as int) =~= mv);
        if kept.len() == self.members.len() {
            return Err(LogRemovalError::NoneFound);
        }
        if kept.len() < 3 {
            return Err(LogRemovalError::TooFewRemain);
        }
        let removed = self.members.len() - kept.len();
        let replica = self.replica - removed as u32;
        Ok(LogService { members: kept, replica })
    }
}

proof fn lemma_new_members_prefix(nodes: Seq<Seq<char>>, install_dir: Seq<char>, k: int)
    requires
        0 <= k <= nodes.len(),
    ensures
        new_members(nodes.subrange(0, k), install_dir).len() <= new_members(nodes, install_dir).len(),
    decreases nodes.len() - k,
{
    if k < nodes.len() {
        lemma_new_members_prefix(nodes, install_dir, k + 1);
        let p = nodes.subrange(0, k + 1);
        assert(p.drop_last() =~= nodes.subrange(0, k));
    } else {
        assert(nodes.subrange(0, k) =~= nodes);
    }
}

proof fn lemma_kept_members_len(ms: Seq<(Seq<char>, u16, Seq<char>)>, nodes: Seq<Seq<char>>)
    ensures
        kept_members(ms, nodes).len() <= ms.len(),
    decreases ms.len(),
{
    if ms.len() > 0 {
        lemma_kept_members_len(ms.drop_last(), nodes);
    }
}

proof fn lemma_kept_members_concat(a: Seq<(Seq<char>, u16, Seq<char>)>, b: Seq<(Seq<char>, u16, Seq<char>)>, nodes: Seq<Seq<char>>)
    ensures
        kept_members(a + b, nodes) == kept_members(a, nodes) + kept_members(b, nodes),
    decreases b.len(),
{
    if b.len() == 0 {
        assert(a + b =~= a);
        assert(kept_members(a, nodes) + kept_members(b, nodes) =~= kept_members(a, nodes));
    } else {
        lemma_kept_members_concat(a, b.drop_last(), nodes);
        assert((a + b).drop_last() =~= a + b.drop_last());
        assert((a + b).last() == b.last());
    }
}

proof fn lemma_kept_members_none_listed(ms: Seq<(Seq<char>, u16, Seq<char>)>, nodes: Seq<Seq<char>>)
    requires
        forall|i: int| 0 <= i < ms.len() ==> !nodes.contains(addr(#[trigger] ms[i].0, ms[i].1)),
    ensures
        kept_members(ms, nodes) == ms,
    decreases ms.len(),
{
    if ms.len() > 0 {
        let p = ms.drop_last();
        assert forall|i: int| 0 <= i < p.len() implies !nodes.contains(addr(#[trigger] p[i].0, p[i].1)) by {
            assert(p[i] == ms[i]);
        }
        lemma_kept_members_none_listed(p, nodes);
        assert(ms[ms.len() - 1] == ms.last());
        assert(p.push(ms.last()) =~= ms);
    }
}

/// Whether every node of `nodes` reads as `host:port` and is written
/// exactly as that host and port print.
pub open spec fn canonical_nodes(nodes: Seq<Seq<char>>) -> bool {
    forall|i: int| 0 <= i < nodes.len() ==> match log_node(#[trigger] nodes[i]) {
        Some((h, p)) => nodes[i] == addr(h, p),
        None => false,
    }
}

proof fn lemma_new_members_listed(v: Seq<Seq<char>>, all: Seq<Seq<char>>, install_dir: Seq<char>)
    requires
        canonical_nodes(v),
        forall|i: int| 0 <= i < v.len() ==> all.contains(#[trigger] v[i]),
    ensures
        kept_members(new_members(v, install_dir), all).len() == 0,
    decreases v.len(),
{
    if v.len() > 0 {
        let p = v.drop_last();
        assert forall|i: int| 0 <= i < p.len() implies match log_node(#[trigger] p[i]) {
            Some((h, q)) => p[i] == addr(h, q),
            None => false,
        } by {
            assert(p[i] == v[i]);
        }
        assert forall|i: int| 0 <= i < p.len() implies all.contains(#[trigger] p[i]) by {
            assert(p[i] == v[i]);
        }
        lemma_new_members_listed(p, all, install_dir);
        let n = v.last();
        assert(v[v.len() - 1] == n);
        assert(all.contains(n));
        match log_node(n) {
            Some((h, q)) => {
                let e = (h, q, install_dir + "/wal_eloqkv/"@ + decimal(q as nat));
                let nm = new_members(p, install_dir).push(e);
                assert(nm.drop_last() =~= new_members(p, install_dir));
                assert(nm.last() == e);
                assert(addr(e.0, e.1) == n);
            },
            None => {},
        }
    }
}

/// Adding log nodes and then removing the same nodes gives back the members
/// and the replica count the service started with, when the nodes are
/// written as their hosts and ports print, none of them is a member yet,
/// and at least three members were there to begin with.
pub proof fn law_add_then_remove_log_nodes(
    ms: Seq<(Seq<char>, u16, Seq<char>)>,
    replica: u32,
    nodes: Seq<Seq<char>>,
    install_dir: Seq<char>,
)
    requires
        canonical_nodes(nodes),
        nodes.len() > 0,
        forall|i: int| 0 <= i < ms.len() ==> !nodes.contains(addr(#[trigger] ms[i].0, ms[i].1)),
        ms.len() >= 3,
        replica + new_members(nodes, install_dir).len() <= u32::MAX,
    ensures
        spec_remove_members(
            ms + new_members(nodes, install_dir),
            (replica + new_members(nodes, install_dir).len()) as u32,
            nodes,
        ) == Ok::<(Seq<(Seq<char>, u16, Seq<char>)>, int), LogRemovalError>((ms, replica as int)),
{
    let nm = new_members(nodes, install_dir);
    lemma_kept_members_concat(ms, nm, nodes);
    lemma_kept_members_none_listed(ms, nodes);
    assert forall|i: int| 0 <= i < nodes.len() implies nodes.contains(#[trigger] nodes[i]) by {}
    lemma_new_members_listed(nodes, nodes, install_dir);
    assert(kept_members(nm, nodes) =~= Seq::<(Seq<char>, u16, Seq<char>)>::empty());
    assert(kept_members(ms + nm, nodes) =~= ms);
    lemma_new_members_nonempty(nodes, install_dir);
}

proof fn lemma_new_members_nonempty(nodes: Seq<Seq<char>>, install_dir: Seq<char>)
    requires
        canonical_nodes(nodes),
        nodes.len() > 0,
    ensures
        new_members(nodes, install_dir).len() > 0,
{
    assert(nodes[nodes.len() - 1] == nodes.last());
    assert(log_node(nodes.last()) is Some);
}

/// The hosts of `ps`, each once, in order of first appearance.
pub open spec fn pair_hosts(ps: Seq<(Seq<char>, u16)>) -> Seq<Seq<char>> {
    dedup(ps.map_values(|q: (Seq<char>, u16)| q.0))
}

/// `v` with every later repetition of an earlier port removed.
pub open spec fn unique_ports(v: Seq<u16>) -> Seq<u16>
    decreases v.len(),
{
    if v.len() == 0 {
        Seq::empty()
    } else if unique_ports(v.drop_last()).contains(v.last()) {
        unique_ports(v.drop_last())
    } else {
        unique_ports(v.drop_last()).push(v.last())
    }
}

fn unique_port_list(v: &Vec<u16>) -> (r: Vec<u16>)
    ensures
        r@ == unique_ports(v@),
{
    let mut r: Vec<u16> = Vec::new();
    let mut i: usize = 0;
    while i < v.len()
        invariant
            i <= v.len(),
            r@ == unique_ports(v@.subrange(0, i as int)),
        decreases v.len() - i,
    {
        let ghost pre1 = v@.subrange(0, i + 1);
        assert(pre1.drop_last() =~= v@.subrange(0, i as int));
        assert(pre1.last() == v@[i as int]);
        let mut found = false;
        let mut j: usize = 0;
        while j < r.len()
            invariant
                j <= r.len(),
                i < v.len(),
                found == r@.subrange(0, j as int).contains(v@[i as int]),
            decreases r.len() - j,
        {
            proof {
                let q = r@.subrange(0, j as int);
                let q1 = r@.subrange(0, j + 1);
                if q.contains(v@[i as int]) {
                    let k = choose|k: int| 0 <= k < q.len() && q[k] == v@[i as int];
                    assert(q1[k] == v@[i as int]);
                }
                if q1.contains(v@[i as int]) {
                    let k = choose|k: int| 0 <= k < q1.len() && q1[k] == v@[i as int];
                    if k < j {
                        assert(q[k] == v@[i as int]);
                    }
                }
                assert(q1[j as int] == r@[j as int]);
            }
            if r[j] == v[i] {
                found = true;
            }
            j = j + 1;
        }
        assert(r@.subrange(0, r.len() as int) =~= r@);
        if !found {
            r.push(v[i]);
        }
        i = i + 1;
    }
    assert(v@.subrange(0, v.len() as int) =~= v@);
    r
}

/// The command that starts the log member on `port`.
pub open spec fn log_member_start(install_dir: Seq<char>, port: u16) -> Seq<char> {
    "/bin/bash "@ + install_dir + "/start_tx_log_"@ + decimal(port as nat) + ".bash"@
}

/// The command that stops the log member on `port`.
pub open spec fn log_member_stop(user: Seq<char>, log_srv_home: Seq<char>, port: u16) -> Seq<char> {
    "ps -e -o pid,cmd --no-headers -u "@ + user + " | grep '"@ + log_srv_home + "/bin/launch_sv' | grep 'wal_eloqkv/"@
        + decimal(port as nat) + "' | grep -v grep | awk '{print $1}' | xargs -r kill"@
}

/// The start (`start` true) or stop commands of the log members of `ps`
/// on host `h`, each member once.
pub open spec fn host_log_cmds(ps: Seq<(Seq<char>, u16)>, h: Seq<char>, start: bool, install_dir: Seq<char>, user: Seq<char>, log_srv_home: Seq<char>) -> Seq<((Seq<char>, u16), LogCmdView)> {
    unique_ports(ports_on(ps, h)).map_values(|p: u16| ((h, p), if start {
        LogCmdView::Start(log_member_start(install_dir, p))
    } else {
        LogCmdView::Stop(log_member_stop(user, log_srv_home, p))
    }))
}

/// The log control task of host `h`, named after the action.
pub open spec fn log_ctl_task_id(h: Seq<char>, start: bool) -> TaskIdView {
    if start {
        TaskIdView { cmd: "eloq_log_start"@, task: "start"@, host: h }
    } else {
        TaskIdView { cmd: "eloq_log_stop"@, task: "stop"@, host: h }
    }
}

/// The log control tasks that start (or stop) the members at `nodes`
/// (nodes not written `host:port` skipped): one task per host in order of
/// first appearance, holding the command of each of its members once.
pub open spec fn spec_log_ctl_tasks(nodes: Seq<Seq<char>>, start: bool, install_dir: Seq<char>, user: Seq<char>, log_srv_home: Seq<char>) -> Seq<(TaskIdView, Seq<((Seq<char>, u16), LogCmdView)>)> {
    let ps = host_port_pairs(nodes);
    pair_hosts(ps).map_values(|h: Seq<char>| (log_ctl_task_id(h, start), host_log_cmds(ps, h, start, install_dir, user, log_srv_home)))
}

pub open spec fn ctl_task_views(v: Seq<(TaskId, Vec<(LogProcessKey, LogCtlCmd)>)>) -> Seq<(TaskIdView, Seq<((Seq<char>, u16), LogCmdView)>)> {
    v.map_values(|t: (TaskId, Vec<(LogProcessKey, LogCtlCmd)>)| (t.0@, log_views(t.1@)))
}

fn pair_host_list(ps: &Vec<(String, u16)>) -> (r: Vec<String>)
    ensures
        views(r@) == pair_hosts(ps@.map_values(|q: (String, u16)| (q.0@, q.1))),
{
    let ghost pv = ps@.map_values(|q: (String, u16)| (q.0@, q.1));
    let mut firsts: Vec<String> = Vec::new();
    let mut k: usize = 0;
    while k < ps.len()
        invariant
            k <= ps.len(),
            pv == ps@.map_values(|q: (String, u16)| (q.0@, q.1)),
            views(firsts@) == pv.subrange(0, k as int).map_values(|q: (Seq<char>, u16)| q.0),
        decreases ps.len() - k,
    {
        let ghost before = views(firsts@);
        firsts.push(ps[k].0.clone());
        assert(views(firsts@) =~= before.push(ps@[k as int].0@));
        assert(pv.subrange(0, k + 1).map_values(|q: (Seq<char>, u16)| q.0) =~= pv.subrange(0, k as int).map_values(
            |q: (Seq<char>, u16)| q.0,
        ).push(ps@[k as int].0@));
        k = k + 1;
    }
    assert(pv.subrange(0, ps.len() as int) =~= pv);
    dedup_strings(&firsts)
}

fn member_start_cmd(install_dir: &str, port: u16) -> (r: String)
    ensures
        r@ == log_member_start(install_dir@, port),
{
    let mut r = String::from_str("/bin/bash ");
    r.append(install_dir);
    r.append("/start_tx_log_");
    let d = u64_to_string(port as u64);
    r.append(d.as_str());
    r.append(".bash");
    r
}

fn member_stop_cmd(user: &str, log_srv_home: &str, port: u16) -> (r: String)
    ensures
        r@ == log_member_stop(user@, log_srv_home@, port),
{
    let mut r = String::from_str("ps -e -o pid,cmd --no-headers -u ");
    r.append(user);
    r.append(" | grep '");
    r.append(log_srv_home);
    r.append("/bin/launch_sv' | grep 'wal_eloqkv/");
    let d = u64_to_string(port as u64);
    r.append(d.as_str());
    r.append("' | grep -v grep | awk '{print $1}' | xargs -r kill");
    r
}

/// The log control tasks that start (`start` true) or stop the log members
/// at `nodes`: one per host, in order of first appearance.
pub fn log_ctl_tasks(
    nodes: &Vec<String>,
    start: bool,
    install_dir: &str,
    user: &str,
    log_srv_home: &str,
) -> (r: Vec<(TaskId, Vec<(LogProcessKey, LogCtlCmd)>)>)
    ensures
        ctl_task_views(r@) == spec_log_ctl_tasks(views(nodes@), start, install_dir@, user@, log_srv_home@),
{
    let ps = parsed_host_ports(nodes);
    let ghost pv = ps@.map_values(|q: (String, u16)| (q.0@, q.1));
    let hosts = pair_host_list(&ps);
    let ghost hv = views(hosts@);
    let ghost f = |h: Seq<char>| (log_ctl_task_id(h, start), host_log_cmds(pv, h, start, install_dir@, user@, log_srv_home@));
    let mut r: Vec<(TaskId, Vec<(LogProcessKey, LogCtlCmd)>)> = Vec::new();
    let mut i: usize = 0;
    while i < hosts.len()
        invariant
            i <= hosts.len(),
            hv == views(hosts@),
            pv == ps@.map_values(|q: (String, u16)| (q.0@, q.1)),
            pv == host_port_pairs(views(nodes@)),
            f == (|h: Seq<char>| (log_ctl_task_id(h, start), host_log_cmds(pv, h, start, install_dir@, user@, log_srv_home@))),
            ctl_task_views(r@) == hv.subrange(0, i as int).map_values(f),
        decreases hosts.len() - i,
    {
        let h = &hosts[i];
        let all_ports = ports_on_host(&ps, h);
        let ports = unique_port_list(&all_ports);
        let ghost g = |p: u16| ((h@, p), if start {
            LogCmdView::Start(log_member_start(install_dir@, p))
        } else {
            LogCmdView::Stop(log_member_stop(user@, log_srv_home@, p))
        });
        let mut cmds: Vec<(LogProcessKey, LogCtlCmd)> = Vec::new();
        let mut j: usize = 0;
        while j < ports.len()
            invariant
                j <= ports.len(),
                g == (|p: u16| ((h@, p), if start {
                    LogCmdView::Start(log_member_start(install_dir@, p))
                } else {
                    LogCmdView::Stop(log_member_stop(user@, log_srv_home@, p))
                })),
                log_views(cmds@) == ports@.subrange(0, j as int).map_values(g),
            decreases ports.len() - j,
        {
            let p = ports[j];
            let c = if start { LogCtlCmd::Start(member_start_cmd(install_dir, p)) } else { LogCtlCmd::Stop(member_stop_cmd(user, log_srv_home, p)) };
            let key = LogProcessKey { host: h.clone(), port: p };
            let ghost e = ((key.host@, key.port), c@);
            assert(e == g(p));
            let ghost before = log_views(cmds@);
            cmds.push((key, c));
            assert(log_views(cmds@) =~= before.push(e));
            assert(ports@.subrange(0, j + 1) =~= ports@.subrange(0, j as int).push(p));
            assert(log_views(cmds@) =~= ports@.subrange(0, j + 1).map_values(g));
            j = j + 1;
        }
        assert(ports@.subrange(0, ports.len() as int) =~= ports@);
        let id = if start {
            TaskId { cmd: String::from_str("eloq_log_start"), task: String::from_str("start"), host: h.clone() }
        } else {
            TaskId { cmd: String::from_str("eloq_log_stop"), task: String::from_str("stop"), host: h.clone() }
        };
        assert(hv[i as int] == h@);
        assert(id@ == log_ctl_task_id(h@, start));
        assert(log_views(cmds@) == host_log_cmds(pv, h@, start, install_dir@, user@, log_srv_home@));
        let ghost tv = (id@, log_views(cmds@));
        let ghost before = ctl_task_views(r@);
        r.push((id, cmds));
        assert(ctl_task_views(r@) =~= before.push(tv));
        assert(hv.subrange(0, i + 1).map_values(f) =~= hv.subrange(0, i as int).map_values(f).push(f(hv[i as int])));
        i = i + 1;
    }
    assert(hv.subrange(0, hosts.len() as int) =~= hv);
    r
}

/// The start script of the log member on port `p`.
pub open spec fn start_script(p: u16) -> Seq<char> {
    "start_tx_log_"@ + decimal(p as nat) + ".bash"@
}

/// The command that deletes the start scripts of removed log members on
/// host `h` from `install_dir`, and its task name.
pub open spec fn script_cleanup_entry(ps: Seq<(Seq<char>, u16)>, h: Seq<char>, install_dir: Seq<char>) -> (Seq<char>, Seq<char>, Seq<char>) {
    (
        h,
        "cd "@ + install_dir + " && rm -f "@ + join(ports_on(ps, h).map_values(|p: u16| start_script(p)), " "@),
        "delete_removed_log_scripts_"@ + h,
    )
}

/// How many of the members `ms` run on host `h` on a port not in `ports`.
pub open spec fn remaining_on(ms: Seq<(Seq<char>, u16, Seq<char>)>, h: Seq<char>, ports: Seq<u16>) -> nat
    decreases ms.len(),
{
    if ms.len() == 0 {
        0
    } else if ms.last().0 == h && !ports.contains(ms.last().1) {
        remaining_on(ms.drop_last(), h, ports) + 1
    } else {
        remaining_on(ms.drop_last(), h, ports)
    }
}

/// The command that deletes the log data of removed members on host `h`:
/// all log data and the log service installation (`log_home` under
/// `install_dir`) when no member of `ms` stays there, else the data of each
/// removed port; and its task name.
pub open spec fn data_cleanup_entry(
    ms: Seq<(Seq<char>, u16, Seq<char>)>,
    ps: Seq<(Seq<char>, u16)>,
    h: Seq<char>,
    install_dir: Seq<char>,
    log_home: Seq<char>,
) -> (Seq<char>, Seq<char>, Seq<char>) {
    let ports = ports_on(ps, h);
    (
        h,
        if remaining_on(ms, h, ports) == 0 {
            "rm -rf "@ + install_dir + "/wal_eloqkv "@ + install_dir + "/"@ + log_home
        } else {
            join(ports.map_values(|p: u16| "rm -rf "@ + install_dir + "/wal_eloqkv/"@ + decimal(p as nat)), " && "@)
        },
        "cleanup_log_data_"@ + h,
    )
}

/// The commands run once log nodes are removed, per host in order of first
/// appearance: first the deletion of their start scripts on every host,
/// then the deletion of their data on every host.
pub open spec fn spec_log_removal_cleanup(
    nodes: Seq<Seq<char>>,
    ms: Seq<(Seq<char>, u16, Seq<char>)>,
    install_dir: Seq<char>,
    log_home: Seq<char>,
) -> Seq<(Seq<char>, Seq<char>, Seq<char>)> {
    let ps = host_port_pairs(nodes);
    let hs = pair_hosts(ps);
    hs.map_values(|h: Seq<char>| script_cleanup_entry(ps, h, install_dir))
        + hs.map_values(|h: Seq<char>| data_cleanup_entry(ms, ps, h, install_dir, log_home))
}

fn remaining_members(members: &Vec<LogMember>, h: &String, ports: &Vec<u16>) -> (r: usize)
    ensures
        r == remaining_on(member_views(members@), h@, ports@),
{
    let ghost mv = member_views(members@);
    let mut r: usize = 0;
    let mut i: usize = 0;
    while i < members.len()
        invariant
            i <= members.len(),
            mv == member_views(members@),
            r == remaining_on(mv.subrange(0, i as int), h@, ports@),
            r <= i,
        decreases members.len() - i,
    {
        let ghost pre1 = mv.subrange(0, i + 1);
        assert(pre1.drop_last() =~= mv.subrange(0, i as int));
        assert(pre1.last() == member_view(members@[i as int]));
        if members[i].host == *h {
            let mut found = false;
            let mut j: usize = 0;
            while j < ports.len()
                invariant
                    j <= ports.len(),
                    i < members.len(),
                    found == ports@.subrange(0, j as int).contains(members@[i as int].port),
                decreases ports.len() - j,
            {
                proof {
                    let q = ports@.subrange(0, j as int);
                    let q1 = ports@.subrange(0, j + 1);
                    let x = members@[i as int].port;
                    if q.contains(x) {
                        let k = choose|k: int| 0 <= k < q.len() && q[k] == x;
                        assert(q1[k] == x);
                    }
                    if q1.contains(x) {
                        let k = choose|k: int| 0 <= k < q1.len() && q1[k] == x;
                        if k < j {
                            assert(q[k] == x);
                        }
                    }
                    assert(q1[j as int] == ports@[j as int]);
                }
                if ports[j] == members[i].port {
                    found = true;
                }
                j = j + 1;
            }
            assert(ports@.subrange(0, ports.len() as int) =~= ports@);
            if !found {
                r = r + 1;
            }
        }
        i = i + 1;
    }
    assert(mv.subrange(0, members.len() as int) =~= mv);
    r
}

/// The cleanup commands once log nodes `nodes` are removed from members
/// `members`: for each host of the nodes, in order of first appearance,
/// the deletion of their start scripts, then for each host the deletion of
/// their data.
pub fn log_removal_cleanup_commands(
    nodes: &Vec<String>,
    members: &Vec<LogMember>,
    install_dir: &str,
    log_home: &str,
) -> (r: Vec<HostCommand>)
    ensures
        host_command_views(r@) == spec_log_removal_cleanup(views(nodes@), member_views(members@), install_dir@, log_home@),
{
    let ps = parsed_host_ports(nodes);
    let ghost pv = ps@.map_values(|q: (String, u16)| (q.0@, q.1));
    let hosts = pair_host_list(&ps);
    let ghost hv = views(hosts@);
    let ghost f1 = |h: Seq<char>| script_cleanup_entry(pv, h, install_dir@);
    let ghost f2 = |h: Seq<char>| data_cleanup_entry(member_views(members@), pv, h, install_dir@, log_home@);
    let mut r: Vec<HostCommand> = Vec::new();
    let mut i: usize = 0;
    while i < hosts.len()
        invariant
            i <= hosts.len(),
            hv == views(hosts@),
            pv == ps@.map_values(|q: (String, u16)| (q.0@, q.1)),
            f1 == (|h: Seq<char>| script_cleanup_entry(pv, h, install_dir@)),
            host_command_views(r@) == hv.subrange(0, i as int).map_values(f1),
        decreases hosts.len() - i,
    {
        let h = &hosts[i];
        let ports = ports_on_host(&ps, h);
        let mut names: Vec<String> = Vec::new();
        let mut j: usize = 0;
        while j < ports.len()
            invariant
                j <= ports.len(),
                views(names@) == ports@.subrange(0, j as int).map_values(|p: u16| start_script(p)),
            decreases ports.len() - j,
        {
            let mut n = String::from_str("start_tx_log_");
            let d = u64_to_string(ports[j] as u64);
            n.append(d.as_str());
            n.append(".bash");
            let ghost nv = n@;
            let ghost before = views(names@);
            names.push(n);
            assert(views(names@) =~= before.push(nv));
            assert(ports@.subrange(0, j + 1) =~= ports@.subrange(0, j as int).push(ports@[j as int]));
            assert(views(names@) =~= ports@.subrange(0, j + 1).map_values(|p: u16| start_script(p)));
            j = j + 1;
        }
        assert(ports@.subrange(0, ports.len() as int) =~= ports@);
        let mut cmd = String::from_str("cd ");
        cmd.append(install_dir);
        cmd.append(" && rm -f ");
        let joined = join_str(&names, " ");
        cmd.append(joined.as_str());
        let mut name = String::from_str("delete_removed_log_scripts_");
        name.append(h.as_str());
        let c = HostCommand { host: h.clone(), cmd, name };
        assert(hv[i as int] == h@);
        assert(c@ == f1(hv[i as int]));
        let ghost cv = c@;
        let ghost before = host_command_views(r@);
        r.push(c);
        assert(host_command_views(r@) =~= before.push(cv));
        assert(hv.subrange(0, i + 1).map_values(f1) =~= hv.subrange(0, i as int).map_values(f1).push(f1(hv[i as int])));
        i = i + 1;
    }
    assert(hv.subrange(0, hosts.len() as int) =~= hv);
    let ghost first = host_command_views(r@);
    let mut k: usize = 0;
    while k < hosts.len()
        invariant
            k <= hosts.len(),
            hv == views(hosts@),
            pv == ps@.map_values(|q: (String, u16)| (q.0@, q.1)),
            f2 == (|h: Seq<char>| data_cleanup_entry(member_views(members@), pv, h, install_dir@, log_home@)),
            first == hv.map_values(f1),
            host_command_views(r@) == first + hv.subrange(0, k as int).map_values(f2),
        decreases hosts.len() - k,
    {
        let h = &hosts[k];
        let ports = ports_on_host(&ps, h);
        let remaining = remaining_members(members, h, &ports);
        let cmd = if remaining == 0 {
            let mut c = String::from_str("rm -rf ");
            c.append(install_dir);
            c.append("/wal_eloqkv ");
            c.append(install_dir);
            c.append("/");
            c.append(log_home);
            c
        } else {
            let mut parts: Vec<String> = Vec::new();
            let mut j: usize = 0;
            while j < ports.len()
                invariant
                    j <= ports.len(),
                    views(parts@) == ports@.subrange(0, j as int).map_values(
                        |p: u16| "rm -rf "@ + install_dir@ + "/wal_eloqkv/"@ + decimal(p as nat),
                    ),
                decreases ports.len() - j,
            {
                let mut one = String::from_str("rm -rf ");
                one.append(install_dir);
                one.append("/wal_eloqkv/");
                let d = u64_to_string(ports[j] as u64);
                one.append(d.as_str());
                let ghost ov = one@;
                let ghost before = views(parts@);
                parts.push(one);
                assert(views(parts@) =~= before.push(ov));
                assert(ports@.subrange(0, j + 1) =~= ports@.subrange(0, j as int).push(ports@[j as int]));
                assert(views(parts@) =~= ports@.subrange(0, j + 1).map_values(
                    |p: u16| "rm -rf "@ + install_dir@ + "/wal_eloqkv/"@ + decimal(p as nat),
                ));
                j = j + 1;
            }
            assert(ports@.subrange(0, ports.len() as int) =~= ports@);
            join_str(&parts, " && ")
        };
        let mut name = String::from_str("cleanup_log_data_");
        name.append(h.as_str());
        let c = HostCommand { host: h.clone(), cmd, name };
        assert(hv[k as int] == h@);
        assert(c@ == f2(hv[k as int]));
        let ghost cv = c@;
        let ghost before = host_command_views(r@);
        r.push(c);
        assert(host_command_views(r@) =~= before.push(cv));
        assert(hv.subrange(0, k + 1).map_values(f2) =~= hv.subrange(0, k as int).map_values(f2).push(f2(hv[k as int])));
        assert(first + hv.subrange(0, k + 1).map_values(f2) =~= (first + hv.subrange(0, k as int).map_values(f2)).push(
            f2(hv[k as int]),
        ));
        k = k + 1;
    }
    assert(hv.subrange(0, hosts.len() as int) =~= hv);
    r
}

/// The hosts and ports of the nodes written `host:port` with a port that
/// reads as a `u32`, in order.
pub open spec fn hosts_and_ports32(v: Seq<Seq<char>>) -> Seq<(Seq<char>, u32)>
    decreases v.len(),
{
    if v.len() == 0 {
        Seq::empty()
    } else {
        match split_once(v.last(), ':') {
            Some((h, p)) => match spec_parse_u32(p) {
                Some(n) => hosts_and_ports32(v.drop_last()).push((h, n)),
                None => hosts_and_ports32(v.drop_last()),
            },
            None => hosts_and_ports32(v.drop_last()),
        }
    }
}

/// The hosts and the ports of the nodes written `host:port`, in order.
pub fn extract_hosts_and_ports(nodes: &Vec<String>) -> (r: (Vec<String>, Vec<u32>))
    ensures
        views(r.0@) == hosts_and_ports32(views(nodes@)).map_values(|q: (Seq<char>, u32)| q.0),
        r.1@ == hosts_and_ports32(views(nodes@)).map_values(|q: (Seq<char>, u32)| q.1),
{
    let mut hosts: Vec<String> = Vec::new();
    let mut ports: Vec<u32> = Vec::new();
    let mut i: usize = 0;
    while i < nodes.len()
        invariant
            i <= nodes.len(),
            views(hosts@) == hosts_and_ports32(views(nodes@).subrange(0, i as int)).map_values(|q: (Seq<char>, u32)| q.0),
            ports@ == hosts_and_ports32(views(nodes@).subrange(0, i as int)).map_values(|q: (Seq<char>, u32)| q.1),
        decreases nodes.len() - i,
    {
        let ghost pre1 = views(nodes@).subrange(0, i + 1);
        assert(pre1.drop_last() =~= views(nodes@).subrange(0, i as int));
        assert(pre1.last() == nodes@[i as int]@);
        let ghost prev = hosts_and_ports32(views(nodes@).subrange(0, i as int));
        match split_once_char(nodes[i].as_str(), ':') {
            Some((h, p)) => match parse_u32(p.as_str()) {
                Some(n) => {
                    let ghost hv = h@;
                    let ghost before = views(hosts@);
                    hosts.push(h);
                    ports.push(n);
                    assert(views(hosts@) =~= before.push(hv));
                    assert(prev.push((hv, n)).map_values(|q: (Seq<char>, u32)| q.0) =~= prev.map_values(|q: (Seq<char>, u32)| q.0).push(hv));
                    assert(prev.push((hv, n)).map_values(|q: (Seq<char>, u32)| q.1) =~= prev.map_values(|q: (Seq<char>, u32)| q.1).push(n));
                },
                None => {},
            },
            None => {},
        }
        i = i + 1;
    }
    assert(views(nodes@).subrange(0, nodes.len() as int) =~= views(nodes@));
    (hosts, ports)
}

/// The request that asks the log service to add or remove peers.
#[derive(Debug)]
pub struct LogPeerRequest {
    pub ip: Vec<String>,
    pub port: Vec<u32>,
    pub log_group_id: u32,
}

/// The request for nodes `nodes` in log group `log_group_id` (0 when
/// none): the hosts and ports of the nodes written `host:port`; none when
/// no node is.
pub fn log_peer_request(nodes: &Vec<String>, log_group_id: Option<u32>) -> (r: Option<LogPeerRequest>)
    ensures
        hosts_and_ports32(views(nodes@)).len() == 0 <==> r is None,
        r matches Some(q) ==> {
            &&& views(q.ip@) == hosts_and_ports32(views(nodes@)).map_values(|p: (Seq<char>, u32)| p.0)
            &&& q.port@ == hosts_and_ports32(views(nodes@)).map_values(|p: (Seq<char>, u32)| p.1)
            &&& q.log_group_id == match log_group_id { Some(g) => g, None => 0 }
        },
{
    let (ip, port) = extract_hosts_and_ports(nodes);
    assert(views(ip@).len() == ip@.len());
    assert(hosts_and_ports32(views(nodes@)).map_values(|p: (Seq<char>, u32)| p.0).len() == hosts_and_ports32(views(nodes@)).len());
    if ip.len() == 0 || port.len() == 0 {
        return None;
    }
    let g: u32 = match log_group_id {
        Some(g) => g,
        None => 0,
    };
    Some(LogPeerRequest { ip, port, log_group_id: g })
}

/// The address of the log service member the request goes to: the first.
pub fn log_rpc_url(members: &Vec<LogMember>) -> (r: String)
    requires
        members.len() > 0,
    ensures
        r@ == "http://"@ + addr(members[0].host@, members[0].port),
{
    let mut r = String::from_str("http://");
    let a = node_addr(members[0].host.as_str(), members[0].port);
    r.append(a.as_str());
    r
}

/// How the log service answered one attempt.
#[derive(Debug)]
pub enum LogPeerReply {
    /// It answered, with its success flag.
    Answered(bool),
    /// The call failed, with the error's text.
    Failed(String),
}

/// What to do after an attempt.
#[derive(Debug)]
pub enum LogPeerAction {
    /// The log service accepted the request.
    Done,
    /// Wait, then try again.
    PauseThenRetry,
    /// Stop trying: report the failure (after a pause when `pause_first`);
    /// for added nodes the failure is also handed to the cleanup task, for
    /// removed nodes the task fails.
    GiveUp { report: String, pause_first: bool, notify_cleanup: bool },
}

/// The number of attempts after which the request is given up.
pub const LOG_PEER_MAX_ATTEMPTS: u32 = 10;

pub open spec fn peer_verb(op: ScaleOperationType) -> Seq<char> {
    match op {
        ScaleOperationType::AddNodes => "AddPeer"@,
        ScaleOperationType::RemoveNodes => "RemovePeer"@,
    }
}

pub open spec fn peer_phrase(op: ScaleOperationType) -> Seq<char> {
    match op {
        ScaleOperationType::AddNodes => "add"@,
        ScaleOperationType::RemoveNodes => "remove"@,
    }
}

pub enum LogPeerActionView {
    Done,
    PauseThenRetry,
    GiveUp { report: Seq<char>, pause_first: bool, notify_cleanup: bool },
}

pub open spec fn action_view(a: LogPeerAction) -> LogPeerActionView {
    match a {
        LogPeerAction::Done => LogPeerActionView::Done,
        LogPeerAction::PauseThenRetry => LogPeerActionView::PauseThenRetry,
        LogPeerAction::GiveUp { report, pause_first, notify_cleanup } => LogPeerActionView::GiveUp { report: report@, pause_first, notify_cleanup },
    }
}

/// The step after attempt number `attempts + 1` of operation `op` got
/// `reply`: the attempts counted so far, and the action. An accepted
/// request ends the retries; a refused one is retried after a pause until
/// ten attempts were made; a failed call pauses first, then is retried or,
/// after ten attempts, given up.
pub open spec fn spec_next_log_peer_step(op: ScaleOperationType, attempts: u32, reply: LogPeerReply) -> (int, LogPeerActionView) {
    let n = attempts + 1;
    let notify = op == ScaleOperationType::AddNodes;
    match reply {
        LogPeerReply::Answered(true) => (attempts as int, LogPeerActionView::Done),
        LogPeerReply::Answered(false) => if n >= LOG_PEER_MAX_ATTEMPTS {
            (n, LogPeerActionView::GiveUp {
                report: peer_verb(op) + " operation failed after "@ + decimal(n as nat) + " attempts - response success: false"@,
                pause_first: false,
                notify_cleanup: notify,
            })
        } else {
            (n, LogPeerActionView::PauseThenRetry)
        },
        LogPeerReply::Failed(e) => if n >= LOG_PEER_MAX_ATTEMPTS {
            (n, LogPeerActionView::GiveUp {
                report: "Failed to "@ + peer_phrase(op) + " log peers after "@ + decimal(n as nat) + " attempts: "@ + e@,
                pause_first: true,
                notify_cleanup: notify,
            })
        } else {
            (n, LogPeerActionView::PauseThenRetry)
        },
    }
}

/// Decides what follows one attempt of the request to the log service.
pub fn next_log_peer_step(op: ScaleOperationType, attempts: u32, reply: LogPeerReply) -> (r: (u32, LogPeerAction))
    requires
        attempts < LOG_PEER_MAX_ATTEMPTS,
    ensures
        (r.0 as int, action_view(r.1)) == spec_next_log_peer_step(op, attempts, reply),
{
    let notify = match op {
        ScaleOperationType::AddNodes => true,
        ScaleOperationType::RemoveNodes => false,
    };
    let n = attempts + 1;
    match reply {
        LogPeerReply::Answered(ok) => {
            if ok {
                return (attempts, LogPeerAction::Done);
            }
            if n >= LOG_PEER_MAX_ATTEMPTS {
                let mut report = String::from_str(match op {
                    ScaleOperationType::AddNodes => "AddPeer",
                    ScaleOperationType::RemoveNodes => "RemovePeer",
                });
                report.append(" operation failed after ");
                let d = u64_to_string(n as u64);
                report.append(d.as_str());
                report.append(" attempts - response success: false");
                (n, LogPeerAction::GiveUp { report, pause_first: false, notify_cleanup: notify })
            } else {
                (n, LogPeerAction::PauseThenRetry)
            }
        },
        LogPeerReply::Failed(e) => {
            if n >= LOG_PEER_MAX_ATTEMPTS {
                let mut report = String::from_str("Failed to ");
                report.append(match op {
                    ScaleOperationType::AddNodes => "add",
                    ScaleOperationType::RemoveNodes => "remove",
                });
                report.append(" log peers after ");
                let d = u64_to_string(n as u64);
                report.append(d.as_str());
                report.append(" attempts: ");
                report.append(e.as_str());
                (n, LogPeerAction::GiveUp { report, pause_first: true, notify_cleanup: notify })
            } else {
                (n, LogPeerAction::PauseThenRetry)
            }
        },
    }
}

/// The report of an accepted log scale request on `nodes`.
pub open spec fn spec_log_scale_report(op: ScaleOperationType, nodes: Seq<Seq<char>>) -> Seq<char> {
    "Successfully "@ + (match op {
        ScaleOperationType::AddNodes => "added"@,
        ScaleOperationType::RemoveNodes => "removed"@,
    }) + " log nodes "@ + (match op {
        ScaleOperationType::AddNodes => "to"@,
        ScaleOperationType::RemoveNodes => "from"@,
    }) + ": "@ + join(nodes, ", "@) + ". Response: true"@
}

/// Reports an accepted log scale request.
pub fn log_scale_report(op: ScaleOperationType, nodes: &Vec<String>) -> (r: String)
    ensures
        r@ == spec_log_scale_report(op, views(nodes@)),
{
    let mut r = String::from_str("Successfully ");
    match op {
        ScaleOperationType::AddNodes => r.append("added"),
        ScaleOperationType::RemoveNodes => r.append("removed"),
    }
    r.append(" log nodes ");
    match op {
        ScaleOperationType::AddNodes => r.append("to"),
        ScaleOperationType::RemoveNodes => r.append("from"),
    }
    r.append(": ");
    let j = join_str(nodes, ", ");
    r.append(j.as_str());
    r.append(". Response: true");
    r
}

/// The stages of a log scale operation, each a set of tasks run together.
#[derive(Debug, Clone, Copy, PartialEq, Eq, Structural)]
pub enum ScaleLogStage {
    /// Check that every host, old and new, answers over SSH.
    SshCheck,
    /// Create the installation directory on the new members' hosts.
    CreateInstallDir,
    /// Download the log service package.
    Download,
    /// Unpack it on this machine.
    Extract,
    /// Copy it to the new members' hosts.
    UploadLogService,
    /// Copy the regenerated start scripts to the members' hosts.
    UploadStartScripts,
    /// Start the new members.
    StartMembers,
    /// Ask the log service to add or remove the peers.
    PeerRpc,
    /// Undo the addition when the log service refused it.
    CleanupOnFailure,
    /// Stop the removed members.
    StopMembers,
    /// Delete the start scripts of the removed members.
    DeleteStartScripts,
    /// Delete the data of the removed members.
    DeleteData,
    /// Wait until every member of the new membership answers.
    ProbeMembers,
    /// Save the new log service configuration.
    SaveConfig,
    /// Read the final topology.
    FinalTopology,
    /// Record the final topology.
    UpdateTopology,
    /// Show the final topology.
    DisplayTopology,
}

/// The stages of a log scale operation of kind `op`, in order;
/// `has_new_hosts` says whether some added member is on a host the
/// deployment does not use yet.
pub open spec fn spec_scale_log_stages(op: ScaleOperationType, has_new_hosts: bool) -> Seq<ScaleLogStage> {
    let tail = seq![ScaleLogStage::ProbeMembers, ScaleLogStage::SaveConfig, ScaleLogStage::FinalTopology,
        ScaleLogStage::UpdateTopology, ScaleLogStage::DisplayTopology];
    match op {
        ScaleOperationType::AddNodes => (if has_new_hosts { seq![ScaleLogStage::SshCheck] } else { Seq::empty() })
            + seq![ScaleLogStage::CreateInstallDir, ScaleLogStage::Download, ScaleLogStage::Extract,
                ScaleLogStage::UploadLogService, ScaleLogStage::UploadStartScripts, ScaleLogStage::StartMembers,
                ScaleLogStage::PeerRpc, ScaleLogStage::CleanupOnFailure] + tail,
        ScaleOperationType::RemoveNodes => seq![ScaleLogStage::PeerRpc, ScaleLogStage::StopMembers,
            ScaleLogStage::DeleteStartScripts, ScaleLogStage::DeleteData, ScaleLogStage::UploadStartScripts] + tail,
    }
}

/// The stages a log scale operation runs, in order.
pub fn scale_log_stages(op: ScaleOperationType, has_new_hosts: bool) -> (r: Vec<ScaleLogStage>)
    ensures
        r@ == spec_scale_log_stages(op, has_new_hosts),
{
    let mut r: Vec<ScaleLogStage> = Vec::new();
    match op {
        ScaleOperationType::AddNodes => {
            if has_new_hosts {
                r.push(ScaleLogStage::SshCheck);
            }
            r.push(ScaleLogStage::CreateInstallDir);
            r.push(ScaleLogStage::Download);
            r.push(ScaleLogStage::Extract);
            r.push(ScaleLogStage::UploadLogService);
            r.push(ScaleLogStage::UploadStartScripts);
            r.push(ScaleLogStage::StartMembers);
            r.push(ScaleLogStage::PeerRpc);
            r.push(ScaleLogStage::CleanupOnFailure);
        },
        ScaleOperationType::RemoveNodes => {
            r.push(ScaleLogStage::PeerRpc);
            r.push(ScaleLogStage::StopMembers);
            r.push(ScaleLogStage::DeleteStartScripts);
            r.push(ScaleLogStage::DeleteData);
            r.push(ScaleLogStage::UploadStartScripts);
        },
    }
    r.push(ScaleLogStage::ProbeMembers);
    r.push(ScaleLogStage::SaveConfig);
    r.push(ScaleLogStage::FinalTopology);
    r.push(ScaleLogStage::UpdateTopology);
    r.push(ScaleLogStage::DisplayTopology);
    assert(r@ =~= spec_scale_log_stages(op, has_new_hosts));
    r
}

/// Whether `a` occurs in `s` and every occurrence of it comes before every
/// occurrence of `b`.
pub open spec fn log_stage_before(s: Seq<ScaleLogStage>, a: ScaleLogStage, b: ScaleLogStage) -> bool {
    &&& s.contains(a)
    &&& s.contains(b)
    &&& forall|i: int, j: int| 0 <= i < s.len() && 0 <= j < s.len() && #[trigger] s[i] == a && #[trigger] s[j] == b ==> i < j
}

/// The order the log scale stages keep: no stage repeats; added members
/// are started before the log service is asked to take them and the
/// cleanup that undoes a refused addition comes right after that request;
/// removed members are stopped only after the log service let them go, and
/// their files are deleted after that; the new membership is probed before
/// it is saved, and the topology is shown last.
pub proof fn law_scale_log_stages_order(op: ScaleOperationType, has_new_hosts: bool)
    ensures
        ({
            let s = spec_scale_log_stages(op, has_new_hosts);
            &&& s.no_duplicates()
            &&& s.last() == ScaleLogStage::DisplayTopology
            &&& log_stage_before(s, ScaleLogStage::ProbeMembers, ScaleLogStage::SaveConfig)
            &&& op == ScaleOperationType::AddNodes ==> {
                &&& log_stage_before(s, ScaleLogStage::StartMembers, ScaleLogStage::PeerRpc)
                &&& forall|i: int| 0 <= i < s.len() && #[trigger] s[i] == ScaleLogStage::PeerRpc ==> i + 1 < s.len() && s[i + 1] == ScaleLogStage::CleanupOnFailure
                &&& !s.contains(ScaleLogStage::StopMembers)
            }
            &&& op == ScaleOperationType::RemoveNodes ==> {
                &&& log_stage_before(s, ScaleLogStage::PeerRpc, ScaleLogStage::StopMembers)
                &&& log_stage_before(s, ScaleLogStage::StopMembers, ScaleLogStage::DeleteData)
                &&& !s.contains(ScaleLogStage::StartMembers)
            }
        }),
{
    let s = spec_scale_log_stages(op, has_new_hosts);
    match op {
        ScaleOperationType::AddNodes => {
            if has_new_hosts {
                assert(s =~= seq![ScaleLogStage::SshCheck, ScaleLogStage::CreateInstallDir, ScaleLogStage::Download,
                    ScaleLogStage::Extract, ScaleLogStage::UploadLogService, ScaleLogStage::UploadStartScripts,
                    ScaleLogStage::StartMembers, ScaleLogStage::PeerRpc, ScaleLogStage::CleanupOnFailure,
                    ScaleLogStage::ProbeMembers, ScaleLogStage::SaveConfig, ScaleLogStage::FinalTopology,
                    ScaleLogStage::UpdateTopology, ScaleLogStage::DisplayTopology]);
                assert(s[6] == ScaleLogStage::StartMembers);
                assert(s[7] == ScaleLogStage::PeerRpc);
                assert(s[9] == ScaleLogStage::ProbeMembers);
                assert(s[10] == ScaleLogStage::SaveConfig);
            } else {
                assert(s =~= seq![ScaleLogStage::CreateInstallDir, ScaleLogStage::Download,
                    ScaleLogStage::Extract, ScaleLogStage::UploadLogService, ScaleLogStage::UploadStartScripts,
                    ScaleLogStage::StartMembers, ScaleLogStage::PeerRpc, ScaleLogStage::CleanupOnFailure,
                    ScaleLogStage::ProbeMembers, ScaleLogStage::SaveConfig, ScaleLogStage::FinalTopology,
                    ScaleLogStage::UpdateTopology, ScaleLogStage::DisplayTopology]);
                assert(s[5] == ScaleLogStage::StartMembers);
                assert(s[6] == ScaleLogStage::PeerRpc);
                assert(s[8] == ScaleLogStage::ProbeMembers);
                assert(s[9] == ScaleLogStage::SaveConfig);
            }
        },
        ScaleOperationType::RemoveNodes => {
            assert(s =~= seq![ScaleLogStage::PeerRpc, ScaleLogStage::StopMembers,
                ScaleLogStage::DeleteStartScripts, ScaleLogStage::DeleteData, ScaleLogStage::UploadStartScripts,
                ScaleLogStage::ProbeMembers, ScaleLogStage::SaveConfig, ScaleLogStage::FinalTopology,
                ScaleLogStage::UpdateTopology, ScaleLogStage::DisplayTopology]);
            assert(s[0] == ScaleLogStage::PeerRpc);
            assert(s[1] == ScaleLogStage::StopMembers);
            assert(s[3] == ScaleLogStage::DeleteData);
            assert(s[5] == ScaleLogStage::ProbeMembers);
            assert(s[6] == ScaleLogStage::SaveConfig);
        },
    }
}

} // verus!
