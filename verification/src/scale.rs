//! Scaling the transaction service in and out: the checks on a scale
//! request, the nodes and hosts it concerns, the request sent to the
//! cluster leader and what the leader's reply means.
use vstd::prelude::*;
use crate::topology::{without, contains_string, NodeInfo, addr, node_addr};
use crate::task::{int_text, i32_text};
use crate::order::{select, ordered_by, lemma_select_contains, lemma_select_ordered, lemma_ordered_facts};
use crate::text::{dedup_strings, views, join, join_str, decimal, spec_parse_u16, parse_u16, u64_to_string, dedup, split_once, split_once_char, after_last, after_last_char, spec_parse_i32, parse_i32};

verus! {

/// Whether nodes join or leave the cluster.
#[derive(Debug, Clone, Copy, PartialEq, Eq, Structural)]
pub enum ScaleOperationType {
    AddNodes,
    RemoveNodes,
}

/// What a scale operation works on.
#[derive(Debug)]
pub struct ScaleOpConfig {
    pub operation_type: ScaleOperationType,
    /// The `host:port` of each node added or removed.
    pub nodes_list: Vec<String>,
    /// For added nodes: whether each may become a leader candidate.
    pub is_candidate: Option<Vec<bool>>,
    pub cluster_name: String,
    /// The node group new nodes join.
    pub ng_id: Option<u32>,
}

pub struct ScaleOpConfigView {
    pub operation_type: ScaleOperationType,
    pub nodes_list: Seq<Seq<char>>,
    pub is_candidate: Option<Seq<bool>>,
    pub cluster_name: Seq<char>,
    pub ng_id: Option<u32>,
}

pub open spec fn opt_flags(o: Option<Vec<bool>>) -> Option<Seq<bool>> {
    match o {
        Some(v) => Some(v@),
        None => None,
    }
}

impl View for ScaleOpConfig {
    type V = ScaleOpConfigView;

    open spec fn view(&self) -> ScaleOpConfigView {
        ScaleOpConfigView {
            operation_type: self.operation_type,
            nodes_list: views(self.nodes_list@),
            is_candidate: opt_flags(self.is_candidate),
            cluster_name: self.cluster_name@,
            ng_id: self.ng_id,
        }
    }
}

/// The text before the first `:` of a node; all of it when there is none
/// (the first item of `str::split`).
pub open spec fn node_host(node: Seq<char>) -> Seq<char> {
    match split_once(node, ':') {
        Some((h, _)) => h,
        None => node,
    }
}

/// The port of a node: its text after the last `:` read as an `i32`, or
/// 0 when that text is no number.
pub open spec fn node_port(node: Seq<char>) -> i32 {
    match spec_parse_i32(after_last(node, ':')) {
        Some(p) => p,
        None => 0,
    }
}

/// The host part of a node.
pub fn host_of_node(node: &str) -> (r: String)
    ensures
        r@ == node_host(node@),
{
    match split_once_char(node, ':') {
        Some((h, _)) => h,
        None => String::from_str(node),
    }
}

/// The port of a node, 0 when it has none that reads as a number.
pub fn port_of_node(node: &str) -> (r: i32)
    ensures
        r == node_port(node@),
{
    let tail = after_last_char(node, ':');
    match parse_i32(tail.as_str()) {
        Some(p) => p,
        None => 0,
    }
}

pub fn clone_flags(o: &Option<Vec<bool>>) -> (r: Option<Vec<bool>>)
    ensures
        opt_flags(r) == opt_flags(*o),
{
    match o {
        Some(v) => Some(v.clone()),
        None => None,
    }
}

impl ScaleOpConfig {
    /// The port of each node, in order.
    pub fn extract_ports_from_nodes(&self) -> (r: Vec<i32>)
        ensures
            r@ == self@.nodes_list.map_values(|n: Seq<char>| node_port(n)),
    {
        let mut r: Vec<i32> = Vec::new();
        let mut i: usize = 0;
        while i < self.nodes_list.len()
            invariant
                i <= self.nodes_list.len(),
                r@ == views(self.nodes_list@).subrange(0, i as int).map_values(|n: Seq<char>| node_port(n)),
            decreases self.nodes_list.len() - i,
        {
            let p = port_of_node(self.nodes_list[i].as_str());
            r.push(p);
            assert(views(self.nodes_list@).subrange(0, i + 1) =~= views(self.nodes_list@).subrange(0, i as int).push(self.nodes_list@[i as int]@));
            assert(r@ =~= views(self.nodes_list@).subrange(0, i + 1).map_values(|n: Seq<char>| node_port(n)));
            i = i + 1;
        }
        assert(views(self.nodes_list@).subrange(0, self.nodes_list.len() as int) =~= views(self.nodes_list@));
        r
    }

    /// The host of each node, in order.
    pub fn node_hosts(&self) -> (r: Vec<String>)
        ensures
            views(r@) == self@.nodes_list.map_values(|n: Seq<char>| node_host(n)),
    {
        let mut r: Vec<String> = Vec::new();
        let mut i: usize = 0;
        while i < self.nodes_list.len()
            invariant
                i <= self.nodes_list.len(),
                views(r@) == views(self.nodes_list@).subrange(0, i as int).map_values(|n: Seq<char>| node_host(n)),
            decreases self.nodes_list.len() - i,
        {
            let h = host_of_node(self.nodes_list[i].as_str());
            let ghost before = views(r@);
            let ghost hv = h@;
            r.push(h);
            assert(views(r@) =~= before.push(hv));
            assert(views(self.nodes_list@).subrange(0, i + 1) =~= views(self.nodes_list@).subrange(0, i as int).push(self.nodes_list@[i as int]@));
            assert(views(r@) =~= views(self.nodes_list@).subrange(0, i + 1).map_values(|n: Seq<char>| node_host(n)));
            i = i + 1;
        }
        assert(views(self.nodes_list@).subrange(0, self.nodes_list.len() as int) =~= views(self.nodes_list@));
        r
    }
}

/// The elements of `v` that `set` holds, in order.
pub open spec fn kept_in(v: Seq<Seq<char>>, set: Seq<Seq<char>>) -> Seq<Seq<char>>
    decreases v.len(),
{
    if v.len() == 0 {
        Seq::empty()
    } else if set.contains(v.last()) {
        kept_in(v.drop_last(), set).push(v.last())
    } else {
        kept_in(v.drop_last(), set)
    }
}

/// The first `k` nodes paired with their flags, without the nodes that
/// `existing` holds.
pub open spec fn fresh_pairs(nodes: Seq<Seq<char>>, flags: Seq<bool>, existing: Seq<Seq<char>>, k: nat) -> Seq<(Seq<char>, bool)>
    decreases k,
{
    if k == 0 {
        Seq::empty()
    } else if existing.contains(nodes[k - 1]) {
        fresh_pairs(nodes, flags, existing, (k - 1) as nat)
    } else {
        fresh_pairs(nodes, flags, existing, (k - 1) as nat).push((nodes[k - 1], flags[k - 1]))
    }
}

pub open spec fn min_len(a: nat, b: nat) -> nat {
    if a <= b { a } else { b }
}

/// Why a scale request is refused.
#[derive(Debug, Clone, Copy, PartialEq, Eq, Structural)]
pub enum ScaleRequestError {
    /// A version was given without nodes to add.
    VersionNeedsAddNodes,
    /// A version was given together with nodes to remove.
    VersionWithRemoveNodes,
    /// Neither nodes to add nor nodes to remove.
    NoNodes,
    /// Both nodes to add and nodes to remove.
    AddAndRemove,
    /// Nodes to add without their candidate flags.
    MissingCandidateFlags,
    /// Nodes to add without a node group.
    MissingNgId,
}

pub open spec fn spec_request_error_message(e: ScaleRequestError) -> Seq<char> {
    match e {
        ScaleRequestError::VersionNeedsAddNodes => "--version requires --add-nodes with at least one node"@,
        ScaleRequestError::VersionWithRemoveNodes => "--version cannot be combined with --remove-nodes"@,
        ScaleRequestError::NoNodes => "Must specify either --add-nodes or --remove-nodes with at least one node"@,
        ScaleRequestError::AddAndRemove => "Cannot specify both --add-nodes and --remove-nodes in the same command"@,
        ScaleRequestError::MissingCandidateFlags => "--is-candidate must be provided when adding nodes"@,
        ScaleRequestError::MissingNgId => "--ng-id must be provided when adding nodes"@,
    }
}

impl ScaleRequestError {
    /// The message the command line reports.
    pub fn message(&self) -> (r: &'static str)
        ensures
            r@ == spec_request_error_message(*self),
    {
        match self {
            ScaleRequestError::VersionNeedsAddNodes => "--version requires --add-nodes with at least one node",
            ScaleRequestError::VersionWithRemoveNodes => "--version cannot be combined with --remove-nodes",
            ScaleRequestError::NoNodes => "Must specify either --add-nodes or --remove-nodes with at least one node",
            ScaleRequestError::AddAndRemove => "Cannot specify both --add-nodes and --remove-nodes in the same command",
            ScaleRequestError::MissingCandidateFlags => "--is-candidate must be provided when adding nodes",
            ScaleRequestError::MissingNgId => "--ng-id must be provided when adding nodes",
        }
    }
}

/// What a scale request comes to once nodes already in the wanted state
/// are dropped.
#[derive(Debug)]
pub enum ScaleRequest {
    /// Every node to add is already part of the cluster: nothing to do.
    AllPresent,
    /// No node to remove is part of the cluster: nothing to do.
    AllAbsent,
    /// The operation to carry out.
    Scale(ScaleOpConfig),
}

pub enum ScaleRequestView {
    AllPresent,
    AllAbsent,
    Scale(ScaleOpConfigView),
}

pub open spec fn request_view(r: Result<ScaleRequest, ScaleRequestError>) -> Result<ScaleRequestView, ScaleRequestError> {
    match r {
        Ok(ScaleRequest::AllPresent) => Ok(ScaleRequestView::AllPresent),
        Ok(ScaleRequest::AllAbsent) => Ok(ScaleRequestView::AllAbsent),
        Ok(ScaleRequest::Scale(c)) => Ok(ScaleRequestView::Scale(c@)),
        Err(e) => Err(e),
    }
}

/// The nodes to add that the cluster does not hold yet, with their flags
/// when flags were given (a node without a flag is dropped with it).
pub open spec fn fresh_additions(add: Seq<Seq<char>>, flags: Option<Seq<bool>>, existing: Seq<Seq<char>>) -> (Seq<Seq<char>>, Option<Seq<bool>>) {
    match flags {
        Some(f) => {
            let ps = fresh_pairs(add, f, existing, min_len(add.len(), f.len()));
            (ps.map_values(|p: (Seq<char>, bool)| p.0), Some(ps.map_values(|p: (Seq<char>, bool)| p.1)))
        },
        None => (without(add, existing), None),
    }
}

/// The outcome of a scale request: nodes to add that `existing` holds and
/// nodes to remove that it does not hold are dropped first, then the
/// request is checked in the order the command line checks it.
pub open spec fn spec_plan_scale(
    add: Seq<Seq<char>>,
    remove: Seq<Seq<char>>,
    flags: Option<Seq<bool>>,
    has_version: bool,
    cluster: Seq<char>,
    ng_id: Option<u32>,
    existing: Seq<Seq<char>>,
) -> Result<ScaleRequestView, ScaleRequestError> {
    let (add2, flags2) = if add.len() > 0 { fresh_additions(add, flags, existing) } else { (add, flags) };
    let remove2 = kept_in(remove, existing);
    if add.len() > 0 && add2.len() == 0 {
        Ok(ScaleRequestView::AllPresent)
    } else if remove.len() > 0 && remove2.len() == 0 {
        Ok(ScaleRequestView::AllAbsent)
    } else if has_version && add2.len() == 0 {
        Err(ScaleRequestError::VersionNeedsAddNodes)
    } else if has_version && remove2.len() > 0 {
        Err(ScaleRequestError::VersionWithRemoveNodes)
    } else if add2.len() == 0 && remove2.len() == 0 {
        Err(ScaleRequestError::NoNodes)
    } else if add2.len() > 0 && remove2.len() > 0 {
        Err(ScaleRequestError::AddAndRemove)
    } else if add2.len() > 0 && flags2 is None {
        Err(ScaleRequestError::MissingCandidateFlags)
    } else if add2.len() > 0 && ng_id is None {
        Err(ScaleRequestError::MissingNgId)
    } else if add2.len() > 0 {
        Ok(ScaleRequestView::Scale(ScaleOpConfigView {
            operation_type: ScaleOperationType::AddNodes,
            nodes_list: add2,
            is_candidate: flags2,
            cluster_name: cluster,
            ng_id,
        }))
    } else {
        Ok(ScaleRequestView::Scale(ScaleOpConfigView {
            operation_type: ScaleOperationType::RemoveNodes,
            nodes_list: remove2,
            is_candidate: None,
            cluster_name: cluster,
            ng_id,
        }))
    }
}

proof fn lemma_kept_in_contains(v: Seq<Seq<char>>, set: Seq<Seq<char>>, x: Seq<char>)
    ensures
        kept_in(v, set).contains(x) <==> (v.contains(x) && set.contains(x)),
    decreases v.len(),
{
    if v.len() > 0 {
        let d = v.drop_last();
        lemma_kept_in_contains(d, set, x);
        let k = kept_in(d, set);
        if v.contains(x) && !d.contains(x) {
            let i = choose|i: int| 0 <= i < v.len() && v[i] == x;
            if i < d.len() {
                assert(d[i] == x);
            }
        }
        if d.contains(x) {
            let i = choose|i: int| 0 <= i < d.len() && d[i] == x;
            assert(v[i] == x);
        }
        assert(v[v.len() - 1] == v.last());
        if set.contains(v.last()) {
            let k1 = k.push(v.last());
            if k1.contains(x) {
                let i = choose|i: int| 0 <= i < k1.len() && k1[i] == x;
                if i < k.len() {
                    assert(k[i] == x);
                }
            }
            if k.contains(x) {
                let i = choose|i: int| 0 <= i < k.len() && k[i] == x;
                assert(k1[i] == x);
            }
            assert(k1[k.len() as int] == v.last());
        }
    }
}

proof fn lemma_fresh_pairs_new(nodes: Seq<Seq<char>>, flags: Seq<bool>, existing: Seq<Seq<char>>, k: nat)
    requires
        k <= nodes.len(),
        k <= flags.len(),
    ensures
        forall|i: int| 0 <= i < fresh_pairs(nodes, flags, existing, k).len()
            ==> !existing.contains(#[trigger] fresh_pairs(nodes, flags, existing, k)[i].0),
    decreases k,
{
    if k > 0 {
        lemma_fresh_pairs_new(nodes, flags, existing, (k - 1) as nat);
        let p = fresh_pairs(nodes, flags, existing, (k - 1) as nat);
        if !existing.contains(nodes[k - 1]) {
            let q = p.push((nodes[k - 1], flags[k - 1]));
            assert forall|i: int| 0 <= i < q.len() implies !existing.contains(#[trigger] q[i].0) by {
                if i < p.len() {
                    assert(q[i] == p[i]);
                }
            }
        }
    }
}

/// A scale operation that is carried out adds only nodes the cluster does
/// not hold yet and removes only nodes it holds: asking again for what is
/// already so changes nothing.
pub proof fn law_scale_request_targets(
    add: Seq<Seq<char>>,
    remove: Seq<Seq<char>>,
    flags: Option<Seq<bool>>,
    has_version: bool,
    cluster: Seq<char>,
    ng_id: Option<u32>,
    existing: Seq<Seq<char>>,
)
    ensures
        match spec_plan_scale(add, remove, flags, has_version, cluster, ng_id, existing) {
            Ok(ScaleRequestView::Scale(c)) => forall|i: int| 0 <= i < c.nodes_list.len() ==> (
                #[trigger] existing.contains(c.nodes_list[i]) <==> c.operation_type == ScaleOperationType::RemoveNodes),
            _ => true,
        },
{
    match spec_plan_scale(add, remove, flags, has_version, cluster, ng_id, existing) {
        Ok(ScaleRequestView::Scale(c)) => {
            let n = c.nodes_list;
            if c.operation_type == ScaleOperationType::AddNodes {
                assert forall|i: int| 0 <= i < n.len() implies !#[trigger] existing.contains(n[i]) by {
                    match flags {
                        Some(f) => {
                            let k = min_len(add.len(), f.len());
                            lemma_fresh_pairs_new(add, f, existing, k);
                            let ps = fresh_pairs(add, f, existing, k);
                            assert(n == ps.map_values(|p: (Seq<char>, bool)| p.0));
                            assert(n[i] == ps[i].0);
                        },
                        None => {
                            assert(n == without(add, existing));
                            assert(n.contains(n[i]));
                            crate::rolling::lemma_without_contains(add, existing, n[i]);
                        },
                    }
                }
            } else {
                assert forall|i: int| 0 <= i < n.len() implies #[trigger] existing.contains(n[i]) by {
                    assert(n == kept_in(remove, existing));
                    assert(n.contains(n[i]));
                    lemma_kept_in_contains(remove, existing, n[i]);
                }
            }
        },
        _ => {},
    }
}

/// The elements of `v` that `set` holds, in order.
pub fn retain_in(v: &Vec<String>, set: &Vec<String>) -> (r: Vec<String>)
    ensures
        views(r@) == kept_in(views(v@), views(set@)),
{
    let mut r: Vec<String> = Vec::new();
    let mut i: usize = 0;
    while i < v.len()
        invariant
            i <= v.len(),
            views(r@) == kept_in(views(v@).subrange(0, i as int), views(set@)),
        decreases v.len() - i,
    {
        let ghost pre1 = views(v@).subrange(0, i + 1);
        assert(pre1.drop_last() =~= views(v@).subrange(0, i as int));
        assert(pre1.last() == v@[i as int]@);
        if contains_string(set, &v[i]) {
            r.push(v[i].clone());
            assert(views(r@) =~= views(r@).drop_last().push(v@[i as int]@));
        }
        i = i + 1;
    }
    assert(views(v@).subrange(0, v.len() as int) =~= views(v@));
    r
}

/// The elements of `v` that `set` does not hold, in order.
pub fn retain_out(v: &Vec<String>, set: &Vec<String>) -> (r: Vec<String>)
    ensures
        views(r@) == without(views(v@), views(set@)),
{
    let mut r: Vec<String> = Vec::new();
    let mut i: usize = 0;
    while i < v.len()
        invariant
            i <= v.len(),
            views(r@) == without(views(v@).subrange(0, i as int), views(set@)),
        decreases v.len() - i,
    {
        let ghost pre1 = views(v@).subrange(0, i + 1);
        assert(pre1.drop_last() =~= views(v@).subrange(0, i as int));
        assert(pre1.last() == v@[i as int]@);
        if !contains_string(set, &v[i]) {
            r.push(v[i].clone());
            assert(views(r@) =~= views(r@).drop_last().push(v@[i as int]@));
        }
        i = i + 1;
    }
    assert(views(v@).subrange(0, v.len() as int) =~= views(v@));
    r
}

/// The nodes to add that `existing` does not hold, each with its flag.
fn fresh_with_flags(add: &Vec<String>, flags: &Vec<bool>, existing: &Vec<String>) -> (r: (Vec<String>, Vec<bool>))
    ensures
        views(r.0@) == fresh_pairs(views(add@), flags@, views(existing@), min_len(add.len() as nat, flags.len() as nat)).map_values(|p: (Seq<char>, bool)| p.0),
        r.1@ == fresh_pairs(views(add@), flags@, views(existing@), min_len(add.len() as nat, flags.len() as nat)).map_values(|p: (Seq<char>, bool)| p.1),
{
    let n: usize = if add.len() <= flags.len() { add.len() } else { flags.len() };
    let mut nodes: Vec<String> = Vec::new();
    let mut fs: Vec<bool> = Vec::new();
    let mut i: usize = 0;
    while i < n
        invariant
            i <= n,
            n == min_len(add.len() as nat, flags.len() as nat),
            views(nodes@) == fresh_pairs(views(add@), flags@, views(existing@), i as nat).map_values(|p: (Seq<char>, bool)| p.0),
            fs@ == fresh_pairs(views(add@), flags@, views(existing@), i as nat).map_values(|p: (Seq<char>, bool)| p.1),
        decreases n - i,
    {
        let ghost ps = fresh_pairs(views(add@), flags@, views(existing@), i as nat);
        assert(views(add@)[i as int] == add@[i as int]@);
        if !contains_string(existing, &add[i]) {
            let ghost before = views(nodes@);
            nodes.push(add[i].clone());
            fs.push(flags[i]);
            assert(views(nodes@) =~= before.push(add@[i as int]@));
            assert(ps.push((add@[i as int]@, flags@[i as int])).map_values(|p: (Seq<char>, bool)| p.0)
                =~= ps.map_values(|p: (Seq<char>, bool)| p.0).push(add@[i as int]@));
            assert(ps.push((add@[i as int]@, flags@[i as int])).map_values(|p: (Seq<char>, bool)| p.1)
                =~= ps.map_values(|p: (Seq<char>, bool)| p.1).push(flags@[i as int]));
        }
        i = i + 1;
    }
    (nodes, fs)
}

/// Checks a scale request against the nodes the cluster holds
/// (`existing_nodes`, as `host:port`): nodes to add that it holds and
/// nodes to remove that it does not hold are dropped; a request left with
/// nothing to do is a no-op, and a request that breaks a rule of the
/// command line is refused.
pub fn plan_scale_request(
    add_nodes: &Vec<String>,
    remove_nodes: &Vec<String>,
    is_candidate: &Option<Vec<bool>>,
    version: &Option<String>,
    cluster_name: &str,
    ng_id: Option<u32>,
    existing_nodes: &Vec<String>,
) -> (r: Result<ScaleRequest, ScaleRequestError>)
    ensures
        request_view(r) == spec_plan_scale(
            views(add_nodes@),
            views(remove_nodes@),
            opt_flags(*is_candidate),
            version is Some,
            cluster_name@,
            ng_id,
            views(existing_nodes@),
        ),
{
    let (add2, flags2): (Vec<String>, Option<Vec<bool>>) = if add_nodes.len() > 0 {
        match is_candidate {
            Some(f) => {
                let (a, b) = fresh_with_flags(add_nodes, f, existing_nodes);
                (a, Some(b))
            },
            None => (retain_out(add_nodes, existing_nodes), None),
        }
    } else {
        (crate::rolling::clone_strings(add_nodes), clone_flags(is_candidate))
    };
    let remove2 = retain_in(remove_nodes, existing_nodes);
    if add_nodes.len() > 0 && add2.len() == 0 {
        return Ok(ScaleRequest::AllPresent);
    }
    if remove_nodes.len() > 0 && remove2.len() == 0 {
        return Ok(ScaleRequest::AllAbsent);
    }
    if version.is_some() && add2.len() == 0 {
        return Err(ScaleRequestError::VersionNeedsAddNodes);
    }
    if version.is_some() && remove2.len() > 0 {
        return Err(ScaleRequestError::VersionWithRemoveNodes);
    }
    if add2.len() == 0 && remove2.len() == 0 {
        return Err(ScaleRequestError::NoNodes);
    }
    if add2.len() > 0 && remove2.len() > 0 {
        return Err(ScaleRequestError::AddAndRemove);
    }
    if add2.len() > 0 && flags2.is_none() {
        return Err(ScaleRequestError::MissingCandidateFlags);
    }
    if add2.len() > 0 && ng_id.is_none() {
        return Err(ScaleRequestError::MissingNgId);
    }
    if add2.len() > 0 {
        Ok(ScaleRequest::Scale(ScaleOpConfig {
            operation_type: ScaleOperationType::AddNodes,
            nodes_list: add2,
            is_candidate: flags2,
            cluster_name: String::from_str(cluster_name),
            ng_id,
        }))
    } else {
        Ok(ScaleRequest::Scale(ScaleOpConfig {
            operation_type: ScaleOperationType::RemoveNodes,
            nodes_list: remove2,
            is_candidate: None,
            cluster_name: String::from_str(cluster_name),
            ng_id,
        }))
    }
}

/// The first `k` nodes whose flag is set.
pub open spec fn flagged(nodes: Seq<Seq<char>>, flags: Seq<bool>, k: nat) -> Seq<Seq<char>>
    decreases k,
{
    if k == 0 {
        Seq::empty()
    } else if flags[k - 1] {
        flagged(nodes, flags, (k - 1) as nat).push(nodes[k - 1])
    } else {
        flagged(nodes, flags, (k - 1) as nat)
    }
}

/// The leader candidates once the operation is done: added nodes flagged
/// as candidates join `before`; removed nodes leave it.
pub open spec fn spec_candidates_after(before: Seq<Seq<char>>, c: ScaleOpConfigView) -> Seq<Seq<char>> {
    match c.operation_type {
        ScaleOperationType::AddNodes => match c.is_candidate {
            Some(f) => before + flagged(c.nodes_list, f, min_len(c.nodes_list.len(), f.len())),
            None => before,
        },
        ScaleOperationType::RemoveNodes => without(before, c.nodes_list),
    }
}

/// The nonempty hosts of `nodes` that `existing_hosts` does not hold, in order.
pub open spec fn unknown_hosts(nodes: Seq<Seq<char>>, existing_hosts: Seq<Seq<char>>) -> Seq<Seq<char>>
    decreases nodes.len(),
{
    if nodes.len() == 0 {
        Seq::empty()
    } else {
        let h = node_host(nodes.last());
        if h.len() > 0 && !existing_hosts.contains(h) {
            unknown_hosts(nodes.drop_last(), existing_hosts).push(h)
        } else {
            unknown_hosts(nodes.drop_last(), existing_hosts)
        }
    }
}

/// `v` with each run of equal neighbours kept once.
pub open spec fn dedup_adjacent(v: Seq<Seq<char>>) -> Seq<Seq<char>>
    decreases v.len(),
{
    if v.len() == 0 {
        Seq::empty()
    } else if v.len() >= 2 && v[v.len() - 2] == v.last() {
        dedup_adjacent(v.drop_last())
    } else {
        dedup_adjacent(v.drop_last()).push(v.last())
    }
}

/// The hosts of the nodes that are not among `before_nodes`' hosts.
pub open spec fn hosts_outside(nodes: Seq<Seq<char>>, before_nodes: Seq<Seq<char>>) -> Seq<Seq<char>> {
    without(nodes.map_values(|n: Seq<char>| node_host(n)), before_nodes.map_values(|n: Seq<char>| node_host(n)))
}

/// The nodes whose host is not among `before_nodes`' hosts, in order.
pub open spec fn nodes_outside(nodes: Seq<Seq<char>>, before_nodes: Seq<Seq<char>>) -> Seq<Seq<char>>
    decreases nodes.len(),
{
    if nodes.len() == 0 {
        Seq::empty()
    } else if before_nodes.map_values(|n: Seq<char>| node_host(n)).contains(node_host(nodes.last())) {
        nodes_outside(nodes.drop_last(), before_nodes)
    } else {
        nodes_outside(nodes.drop_last(), before_nodes).push(nodes.last())
    }
}

/// The host of each node of `v`.
pub fn hosts_of_nodes(v: &Vec<String>) -> (r: Vec<String>)
    ensures
        views(r@) == views(v@).map_values(|n: Seq<char>| node_host(n)),
{
    let mut r: Vec<String> = Vec::new();
    let mut i: usize = 0;
    while i < v.len()
        invariant
            i <= v.len(),
            views(r@) == views(v@).subrange(0, i as int).map_values(|n: Seq<char>| node_host(n)),
        decreases v.len() - i,
    {
        let h = host_of_node(v[i].as_str());
        let ghost before = views(r@);
        let ghost hv = h@;
        r.push(h);
        assert(views(r@) =~= before.push(hv));
        assert(views(v@).subrange(0, i + 1) =~= views(v@).subrange(0, i as int).push(v@[i as int]@));
        assert(views(r@) =~= views(v@).subrange(0, i + 1).map_values(|n: Seq<char>| node_host(n)));
        i = i + 1;
    }
    assert(views(v@).subrange(0, v.len() as int) =~= views(v@));
    r
}

impl ScaleOpConfig {
    /// The leader candidates after the operation, given those before it.
    pub fn candidates_after_scale(&self, before: &Vec<String>) -> (r: Vec<String>)
        ensures
            views(r@) == spec_candidates_after(views(before@), self@),
    {
        match self.operation_type {
            ScaleOperationType::AddNodes => match &self.is_candidate {
                Some(f) => {
                    let n: usize = if self.nodes_list.len() <= f.len() { self.nodes_list.len() } else { f.len() };
                    let mut r = crate::rolling::clone_strings(before);
                    let mut i: usize = 0;
                    while i < n
                        invariant
                            i <= n,
                            n == min_len(self.nodes_list.len() as nat, f.len() as nat),
                            n <= self.nodes_list.len(),
                            n <= f.len(),
                            views(r@) == views(before@) + flagged(views(self.nodes_list@), f@, i as nat),
                        decreases n - i,
                    {
                        if f[i] {
                            let ghost old_r = views(r@);
                            r.push(self.nodes_list[i].clone());
                            assert(views(r@) =~= old_r.push(self.nodes_list@[i as int]@));
                            assert(views(self.nodes_list@)[i as int] == self.nodes_list@[i as int]@);
                            assert(views(before@) + flagged(views(self.nodes_list@), f@, (i + 1) as nat) =~= (views(before@)
                                + flagged(views(self.nodes_list@), f@, i as nat)).push(self.nodes_list@[i as int]@));
                        }
                        i = i + 1;
                    }
                    r
                },
                None => crate::rolling::clone_strings(before),
            },
            ScaleOperationType::RemoveNodes => retain_out(before, &self.nodes_list),
        }
    }
}

/// The hosts of `nodes` that are new to the deployment (not among
/// `existing_hosts`, nonempty), neighbouring repeats kept once: the hosts
/// whose connectivity is checked and whose system packages are installed
/// before nodes are added.
pub fn new_hosts(nodes: &Vec<String>, existing_hosts: &Vec<String>) -> (r: Vec<String>)
    ensures
        views(r@) == dedup_adjacent(unknown_hosts(views(nodes@), views(existing_hosts@))),
{
    let mut hs: Vec<String> = Vec::new();
    let mut i: usize = 0;
    while i < nodes.len()
        invariant
            i <= nodes.len(),
            views(hs@) == unknown_hosts(views(nodes@).subrange(0, i as int), views(existing_hosts@)),
        decreases nodes.len() - i,
    {
        let ghost pre1 = views(nodes@).subrange(0, i + 1);
        assert(pre1.drop_last() =~= views(nodes@).subrange(0, i as int));
        assert(pre1.last() == nodes@[i as int]@);
        let h = host_of_node(nodes[i].as_str());
        if h.as_str().unicode_len() > 0 && !contains_string(existing_hosts, &h) {
            let ghost before = views(hs@);
            let ghost hv = h@;
            hs.push(h);
            assert(views(hs@) =~= before.push(hv));
        }
        i = i + 1;
    }
    assert(views(nodes@).subrange(0, nodes.len() as int) =~= views(nodes@));
    let ghost u = views(hs@);
    let mut r: Vec<String> = Vec::new();
    let mut j: usize = 0;
    while j < hs.len()
        invariant
            j <= hs.len(),
            u == views(hs@),
            views(r@) == dedup_adjacent(u.subrange(0, j as int)),
        decreases hs.len() - j,
    {
        let ghost pre1 = u.subrange(0, j + 1);
        assert(pre1.drop_last() =~= u.subrange(0, j as int));
        assert(pre1.last() == hs@[j as int]@);
        if j > 0 {
            assert(pre1[j - 1] == hs@[j - 1]@);
        }
        if j == 0 || hs[j - 1] != hs[j] {
            let ghost before = views(r@);
            r.push(hs[j].clone());
            assert(views(r@) =~= before.push(hs@[j as int]@));
        }
        j = j + 1;
    }
    assert(u.subrange(0, hs.len() as int) =~= u);
    r
}

/// The hosts that get the transaction service installed when nodes are
/// added: the hosts of `nodes` that none of `before_nodes` runs on, each
/// once in order of first appearance; and the nodes on those hosts.
pub fn upload_targets(nodes: &Vec<String>, before_nodes: &Vec<String>) -> (r: (Vec<String>, Vec<String>))
    ensures
        views(r.0@) == crate::text::dedup(hosts_outside(views(nodes@), views(before_nodes@))),
        views(r.1@) == nodes_outside(views(nodes@), views(before_nodes@)),
{
    let before_hosts = hosts_of_nodes(before_nodes);
    let hosts = hosts_of_nodes(nodes);
    let outside = retain_out(&hosts, &before_hosts);
    let new_hosts = crate::text::dedup_strings(&outside);
    let mut ns: Vec<String> = Vec::new();
    let mut i: usize = 0;
    while i < nodes.len()
        invariant
            i <= nodes.len(),
            views(before_hosts@) == views(before_nodes@).map_values(|n: Seq<char>| node_host(n)),
            views(ns@) == nodes_outside(views(nodes@).subrange(0, i as int), views(before_nodes@)),
        decreases nodes.len() - i,
    {
        let ghost pre1 = views(nodes@).subrange(0, i + 1);
        assert(pre1.drop_last() =~= views(nodes@).subrange(0, i as int));
        assert(pre1.last() == nodes@[i as int]@);
        let h = host_of_node(nodes[i].as_str());
        if !contains_string(&before_hosts, &h) {
            let ghost before = views(ns@);
            ns.push(nodes[i].clone());
            assert(views(ns@) =~= before.push(nodes@[i as int]@));
        }
        i = i + 1;
    }
    assert(views(nodes@).subrange(0, nodes.len() as int) =~= views(nodes@));
    (new_hosts, ns)
}

/// A shell command for one host, with the name of its task.
#[derive(Debug)]
pub struct HostCommand {
    pub host: String,
    pub cmd: String,
    pub name: String,
}

impl View for HostCommand {
    type V = (Seq<char>, Seq<char>, Seq<char>);

    open spec fn view(&self) -> (Seq<char>, Seq<char>, Seq<char>) {
        (self.host@, self.cmd@, self.name@)
    }
}

pub open spec fn host_command_views(v: Seq<HostCommand>) -> Seq<(Seq<char>, Seq<char>, Seq<char>)> {
    v.map_values(|c: HostCommand| c@)
}

/// The host and port of a node written with exactly one `:`.
pub open spec fn host_and_port_text(node: Seq<char>) -> Option<(Seq<char>, Seq<char>)> {
    match split_once(node, ':') {
        Some((h, p)) => if p.contains(':') { None } else { Some((h, p)) },
        None => None,
    }
}

/// For each added node written `host:port`, the command that creates its
/// data directory under the transaction service home `home`, named after
/// the port; other nodes are skipped.
pub open spec fn spec_node_dirs(nodes: Seq<Seq<char>>, home: Seq<char>) -> Seq<(Seq<char>, Seq<char>, Seq<char>)>
    decreases nodes.len(),
{
    if nodes.len() == 0 {
        Seq::empty()
    } else {
        match host_and_port_text(nodes.last()) {
            Some((h, p)) => spec_node_dirs(nodes.drop_last(), home).push(
                (h, "mkdir -p "@ + home + "/data/port-"@ + p + "/tx_service"@, "mkdir-"@ + p),
            ),
            None => spec_node_dirs(nodes.drop_last(), home),
        }
    }
}

fn host_and_port_of(node: &str) -> (r: Option<(String, String)>)
    ensures
        opt_pair_view2(r) == host_and_port_text(node@),
{
    match split_once_char(node, ':') {
        Some((h, p)) => {
            let rest = split_once_char(p.as_str(), ':');
            if let Some(pair) = &rest {
                assert(p@[pair.0@.len() as int] == ':');
            }
            if rest.is_none() {
                Some((h, p))
            } else {
                None
            }
        },
        None => None,
    }
}

pub open spec fn opt_pair_view2(r: Option<(String, String)>) -> Option<(Seq<char>, Seq<char>)> {
    match r {
        Some((a, b)) => Some((a@, b@)),
        None => None,
    }
}

/// The commands that create the data directories of the added nodes.
pub fn node_dir_commands(nodes: &Vec<String>, tx_srv_home: &str) -> (r: Vec<HostCommand>)
    ensures
        host_command_views(r@) == spec_node_dirs(views(nodes@), tx_srv_home@),
{
    let mut r: Vec<HostCommand> = Vec::new();
    let mut i: usize = 0;
    while i < nodes.len()
        invariant
            i <= nodes.len(),
            host_command_views(r@) == spec_node_dirs(views(nodes@).subrange(0, i as int), tx_srv_home@),
        decreases nodes.len() - i,
    {
        let ghost pre1 = views(nodes@).subrange(0, i + 1);
        assert(pre1.drop_last() =~= views(nodes@).subrange(0, i as int));
        assert(pre1.last() == nodes@[i as int]@);
        match host_and_port_of(nodes[i].as_str()) {
            Some((h, p)) => {
                let mut cmd = String::from_str("mkdir -p ");
                cmd.append(tx_srv_home);
                cmd.append("/data/port-");
                cmd.append(p.as_str());
                cmd.append("/tx_service");
                let mut name = String::from_str("mkdir-");
                name.append(p.as_str());
                let c = HostCommand { host: h, cmd, name };
                let ghost cv = c@;
                let ghost before = host_command_views(r@);
                r.push(c);
                assert(host_command_views(r@) =~= before.push(cv));
            },
            None => {},
        }
        i = i + 1;
    }
    assert(views(nodes@).subrange(0, nodes.len() as int) =~= views(nodes@));
    r
}

/// The nodes of `v` written `host:port` with a port that reads as a `u16`,
/// as host and port.
pub open spec fn host_port_pairs(v: Seq<Seq<char>>) -> Seq<(Seq<char>, u16)>
    decreases v.len(),
{
    if v.len() == 0 {
        Seq::empty()
    } else {
        match split_once(v.last(), ':') {
            Some((h, p)) => match spec_parse_u16(p) {
                Some(n) => host_port_pairs(v.drop_last()).push((h, n)),
                None => host_port_pairs(v.drop_last()),
            },
            None => host_port_pairs(v.drop_last()),
        }
    }
}

/// The ports of `ps` on host `h`, in order.
pub open spec fn ports_on(ps: Seq<(Seq<char>, u16)>, h: Seq<char>) -> Seq<u16>
    decreases ps.len(),
{
    if ps.len() == 0 {
        Seq::empty()
    } else if ps.last().0 == h {
        ports_on(ps.drop_last(), h).push(ps.last().1)
    } else {
        ports_on(ps.drop_last(), h)
    }
}

/// How many nodes of `v` are written `h:...`.
pub open spec fn count_on(v: Seq<Seq<char>>, h: Seq<char>) -> nat
    decreases v.len(),
{
    if v.len() == 0 {
        0
    } else {
        match split_once(v.last(), ':') {
            Some((a, _)) => if a == h { count_on(v.drop_last(), h) + 1 } else { count_on(v.drop_last(), h) },
            None => count_on(v.drop_last(), h),
        }
    }
}

/// The command that deletes the files of the node on port `p`.
pub open spec fn port_cleanup(install_dir: Seq<char>, home: Seq<char>, p: Seq<char>) -> Seq<char> {
    "rm -rf "@ + install_dir + "/rocksdb-"@ + p + " "@ + home + "/data/port-"@ + p + " "@ + home + "/logs/node-"@ + p
        + " "@ + install_dir + "/EloqKv-node-"@ + p + ".ini"@
}

/// The cleanup of host `h` once the nodes `ps` on it are removed: the whole
/// installation when no node of `before` stays on it, else the files of
/// each removed port.
pub open spec fn cleanup_entry(
    before: Seq<Seq<char>>,
    ps: Seq<(Seq<char>, u16)>,
    h: Seq<char>,
    install_dir: Seq<char>,
    home: Seq<char>,
) -> (Seq<char>, Seq<char>, Seq<char>) {
    let ports = ports_on(ps, h);
    if count_on(before, h) <= ports.len() {
        (h, "rm -rf "@ + install_dir + "/EloqKV"@, "clean_tx_all_"@ + h)
    } else {
        (
            h,
            join(ports.map_values(|p: u16| port_cleanup(install_dir, home, decimal(p as nat))), " && "@),
            "clean_tx_nodes_"@ + h,
        )
    }
}

/// The cleanup commands after `nodes` were removed from `before`, one per
/// host in order of first appearance.
pub open spec fn spec_cleanup(
    nodes: Seq<Seq<char>>,
    before: Seq<Seq<char>>,
    install_dir: Seq<char>,
    home: Seq<char>,
) -> Seq<(Seq<char>, Seq<char>, Seq<char>)> {
    let ps = host_port_pairs(nodes);
    dedup(ps.map_values(|q: (Seq<char>, u16)| q.0)).map_values(|h: Seq<char>| cleanup_entry(before, ps, h, install_dir, home))
}

pub fn parsed_host_ports(v: &Vec<String>) -> (r: Vec<(String, u16)>)
    ensures
        r@.map_values(|q: (String, u16)| (q.0@, q.1)) == host_port_pairs(views(v@)),
{
    let mut r: Vec<(String, u16)> = Vec::new();
    let mut i: usize = 0;
    while i < v.len()
        invariant
            i <= v.len(),
            r@.map_values(|q: (String, u16)| (q.0@, q.1)) == host_port_pairs(views(v@).subrange(0, i as int)),
        decreases v.len() - i,
    {
        let ghost pre1 = views(v@).subrange(0, i + 1);
        assert(pre1.drop_last() =~= views(v@).subrange(0, i as int));
        assert(pre1.last() == v@[i as int]@);
        match split_once_char(v[i].as_str(), ':') {
            Some((h, p)) => match parse_u16(p.as_str()) {
                Some(n) => {
                    let ghost hv = h@;
                    let ghost before = r@.map_values(|q: (String, u16)| (q.0@, q.1));
                    r.push((h, n));
                    assert(r@.map_values(|q: (String, u16)| (q.0@, q.1)) =~= before.push((hv, n)));
                },
                None => {},
            },
            None => {},
        }
        i = i + 1;
    }
    assert(views(v@).subrange(0, v.len() as int) =~= views(v@));
    r
}

pub fn ports_on_host(ps: &Vec<(String, u16)>, h: &String) -> (r: Vec<u16>)
    ensures
        r@ == ports_on(ps@.map_values(|q: (String, u16)| (q.0@, q.1)), h@),
{
    let ghost pv = ps@.map_values(|q: (String, u16)| (q.0@, q.1));
    let mut r: Vec<u16> = Vec::new();
    let mut i: usize = 0;
    while i < ps.len()
        invariant
            i <= ps.len(),
            pv == ps@.map_values(|q: (String, u16)| (q.0@, q.1)),
            r@ == ports_on(pv.subrange(0, i as int), h@),
        decreases ps.len() - i,
    {
        let ghost pre1 = pv.subrange(0, i + 1);
        assert(pre1.drop_last() =~= pv.subrange(0, i as int));
        assert(pre1.last() == (ps@[i as int].0@, ps@[i as int].1));
        if ps[i].0 == *h {
            r.push(ps[i].1);
        }
        i = i + 1;
    }
    assert(pv.subrange(0, ps.len() as int) =~= pv);
    r
}

fn count_on_host(v: &Vec<String>, h: &String) -> (r: usize)
    ensures
        r == count_on(views(v@), h@),
{
    let mut r: usize = 0;
    let mut i: usize = 0;
    while i < v.len()
        invariant
            i <= v.len(),
            r == count_on(views(v@).subrange(0, i as int), h@),
            r <= i,
        decreases v.len() - i,
    {
        let ghost pre1 = views(v@).subrange(0, i + 1);
        assert(pre1.drop_last() =~= views(v@).subrange(0, i as int));
        assert(pre1.last() == v@[i as int]@);
        match split_once_char(v[i].as_str(), ':') {
            Some((a, _)) => {
                if a == *h {
                    r = r + 1;
                }
            },
            None => {},
        }
        i = i + 1;
    }
    assert(views(v@).subrange(0, v.len() as int) =~= views(v@));
    r
}

fn port_cleanup_command(install_dir: &str, home: &str, port: u16) -> (r: String)
    ensures
        r@ == port_cleanup(install_dir@, home@, decimal(port as nat)),
{
    let p = u64_to_string(port as u64);
    let mut r = String::from_str("rm -rf ");
    r.append(install_dir);
    r.append("/rocksdb-");
    r.append(p.as_str());
    r.append(" ");
    r.append(home);
    r.append("/data/port-");
    r.append(p.as_str());
    r.append(" ");
    r.append(home);
    r.append("/logs/node-");
    r.append(p.as_str());
    r.append(" ");
    r.append(install_dir);
    r.append("/EloqKv-node-");
    r.append(p.as_str());
    r.append(".ini");
    r
}

/// The cleanup commands once `nodes` are removed from a deployment whose
/// nodes were `before_nodes`: a host left without nodes loses the whole
/// installation under `install_dir`, any other host only the files of the
/// removed ports; one command per host, in order of first appearance.
pub fn removal_cleanup_commands(
    nodes: &Vec<String>,
    before_nodes: &Vec<String>,
    install_dir: &str,
    tx_srv_home: &str,
) -> (r: Vec<HostCommand>)
    ensures
        host_command_views(r@) == spec_cleanup(views(nodes@), views(before_nodes@), install_dir@, tx_srv_home@),
{
    let ps = parsed_host_ports(nodes);
    let ghost pv = ps@.map_values(|q: (String, u16)| (q.0@, q.1));
    let mut firsts: Vec<String> = Vec::new();
    let mut k: usize = 0;
    while k < ps.len()
        invariant
            k <= ps.len(),
            pv == ps@.map_values(|q: (String, u16)| (q.0@, q.1)),
            views(firsts@) == pv.subrange(0, k as int).map_values(|q: (Seq<char>, u16)| q.0),
        decreases ps.len() - k,
    {
        let ghost before = views(firsts@);
        firsts.push(ps[k].0.clone());
        assert(views(firsts@) =~= before.push(ps@[k as int].0@));
        assert(pv.subrange(0, k + 1).map_values(|q: (Seq<char>, u16)| q.0) =~= pv.subrange(0, k as int).map_values(
            |q: (Seq<char>, u16)| q.0,
        ).push(ps@[k as int].0@));
        k = k + 1;
    }
    assert(pv.subrange(0, ps.len() as int) =~= pv);
    let hosts = dedup_strings(&firsts);
    let ghost hv = views(hosts@);
    let ghost f = |h: Seq<char>| cleanup_entry(views(before_nodes@), pv, h, install_dir@, tx_srv_home@);
    let mut r: Vec<HostCommand> = Vec::new();
    let mut i: usize = 0;
    while i < hosts.len()
        invariant
            i <= hosts.len(),
            hv == views(hosts@),
            pv == ps@.map_values(|q: (String, u16)| (q.0@, q.1)),
            f == (|h: Seq<char>| cleanup_entry(views(before_nodes@), pv, h, install_dir@, tx_srv_home@)),
            host_command_views(r@) == hv.subrange(0, i as int).map_values(f),
        decreases hosts.len() - i,
    {
        let h = &hosts[i];
        let ports = ports_on_host(&ps, h);
        let count = count_on_host(before_nodes, h);
        let c = if count <= ports.len() {
            let mut cmd = String::from_str("rm -rf ");
            cmd.append(install_dir);
            cmd.append("/EloqKV");
            let mut name = String::from_str("clean_tx_all_");
            name.append(h.as_str());
            HostCommand { host: h.clone(), cmd, name }
        } else {
            let mut parts: Vec<String> = Vec::new();
            let mut j: usize = 0;
            while j < ports.len()
                invariant
                    j <= ports.len(),
                    views(parts@) == ports@.subrange(0, j as int).map_values(
                        |p: u16| port_cleanup(install_dir@, tx_srv_home@, decimal(p as nat)),
                    ),
                decreases ports.len() - j,
            {
                let one = port_cleanup_command(install_dir, tx_srv_home, ports[j]);
                let ghost before = views(parts@);
                let ghost ov = one@;
                parts.push(one);
                assert(views(parts@) =~= before.push(ov));
                assert(ports@.subrange(0, j + 1) =~= ports@.subrange(0, j as int).push(ports@[j as int]));
                assert(views(parts@) =~= ports@.subrange(0, j + 1).map_values(
                    |p: u16| port_cleanup(install_dir@, tx_srv_home@, decimal(p as nat)),
                ));
                j = j + 1;
            }
            assert(ports@.subrange(0, ports.len() as int) =~= ports@);
            let cmd = join_str(&parts, " && ");
            let mut name = String::from_str("clean_tx_nodes_");
            name.append(h.as_str());
            HostCommand { host: h.clone(), cmd, name }
        };
        assert(hv[i as int] == hosts@[i as int]@);
        assert(c@ == f(hv[i as int]));
        let ghost cv = c@;
        let ghost before = host_command_views(r@);
        r.push(c);
        assert(host_command_views(r@) =~= before.push(cv));
        assert(hv.subrange(0, i + 1).map_values(f) =~= hv.subrange(0, i as int).map_values(f).push(f(hv[i as int])));
        i = i + 1;
    }
    assert(hv.subrange(0, hosts.len() as int) =~= hv);
    r
}

/// The error reported when the topology names no master.
pub open spec fn no_master_message() -> Seq<char> {
    "No master nodes found in the cluster topology"@
}

/// The gRPC address of the cluster leader, the first master: its host, and
/// its port plus 10001.
pub open spec fn spec_leader_url(ip: Seq<char>, port: u16) -> Seq<char> {
    "http://"@ + addr(ip, (port + 10001) as u16)
}

/// Where the scale request goes: the first master of the topology, on its
/// port plus 10001; an error when the topology names no master.
pub fn scale_leader_url(masters: &Vec<NodeInfo>) -> (r: Result<String, String>)
    requires
        masters.len() > 0 ==> masters[0].port + 10001 <= u16::MAX,
    ensures
        masters.len() == 0 ==> (r matches Err(e) && e@ == no_master_message()),
        masters.len() > 0 ==> (r matches Ok(u) && u@ == spec_leader_url(masters[0].ip@, masters[0].port)),
{
    if masters.len() == 0 {
        return Err(String::from_str("No master nodes found in the cluster topology"));
    }
    let leader = &masters[0];
    let mut url = String::from_str("http://");
    let a = node_addr(leader.ip.as_str(), leader.port + 10001);
    url.append(a.as_str());
    Ok(url)
}

/// The request that asks the leader to add or remove nodes.
#[derive(Debug)]
pub enum ScaleRpcRequest {
    AddPeers { ng_id: u32, host_list: Vec<String>, port_list: Vec<i32>, is_candidate: Vec<bool>, id: String },
    RemoveNode { id: String, remove_node_count: u32, host_list: Vec<String>, port_list: Vec<i32> },
}

pub enum ScaleRpcRequestView {
    AddPeers { ng_id: u32, host_list: Seq<Seq<char>>, port_list: Seq<i32>, is_candidate: Seq<bool>, id: Seq<char> },
    RemoveNode { id: Seq<char>, remove_node_count: u32, host_list: Seq<Seq<char>>, port_list: Seq<i32> },
}

impl View for ScaleRpcRequest {
    type V = ScaleRpcRequestView;

    open spec fn view(&self) -> ScaleRpcRequestView {
        match self {
            ScaleRpcRequest::AddPeers { ng_id, host_list, port_list, is_candidate, id } => ScaleRpcRequestView::AddPeers {
                ng_id: *ng_id,
                host_list: views(host_list@),
                port_list: port_list@,
                is_candidate: is_candidate@,
                id: id@,
            },
            ScaleRpcRequest::RemoveNode { id, remove_node_count, host_list, port_list } => ScaleRpcRequestView::RemoveNode {
                id: id@,
                remove_node_count: *remove_node_count,
                host_list: views(host_list@),
                port_list: port_list@,
            },
        }
    }
}

/// Whether every node's port plus 10000 fits in an `i32`.
pub open spec fn rpc_ports_fit(nodes: Seq<Seq<char>>) -> bool {
    forall|i: int| 0 <= i < nodes.len() ==> #[trigger] node_port(nodes[i]) + 10000 <= i32::MAX
}

/// The request for operation `c` with event id `id`: the nodes' hosts, and
/// their ports plus 10000; nodes to add join node group `ng_id` (0 when
/// none) with their candidate flags, or, without flags, as candidates
/// exactly when their port is not 0.
pub open spec fn spec_rpc_request(c: ScaleOpConfigView, id: Seq<char>) -> ScaleRpcRequestView {
    let ports = c.nodes_list.map_values(|n: Seq<char>| node_port(n));
    let hosts = c.nodes_list.map_values(|n: Seq<char>| node_host(n));
    let shifted = ports.map_values(|p: i32| (p + 10000) as i32);
    match c.operation_type {
        ScaleOperationType::AddNodes => ScaleRpcRequestView::AddPeers {
            ng_id: match c.ng_id { Some(g) => g, None => 0 },
            host_list: hosts,
            port_list: shifted,
            is_candidate: match c.is_candidate {
                Some(f) => f,
                None => ports.map_values(|p: i32| p != 0),
            },
            id,
        },
        ScaleOperationType::RemoveNodes => ScaleRpcRequestView::RemoveNode {
            id,
            remove_node_count: 0,
            host_list: hosts,
            port_list: shifted,
        },
    }
}

impl ScaleOpConfig {
    /// The request sent to the leader for this operation.
    pub fn rpc_request(&self, event_id: &str) -> (r: ScaleRpcRequest)
        requires
            rpc_ports_fit(self@.nodes_list),
        ensures
            r@ == spec_rpc_request(self@, event_id@),
    {
        let ports = self.extract_ports_from_nodes();
        let hosts = self.node_hosts();
        let ghost pv = ports@;
        let mut shifted: Vec<i32> = Vec::new();
        let mut i: usize = 0;
        while i < ports.len()
            invariant
                i <= ports.len(),
                pv == ports@,
                pv == self@.nodes_list.map_values(|n: Seq<char>| node_port(n)),
                rpc_ports_fit(self@.nodes_list),
                shifted@ == pv.subrange(0, i as int).map_values(|p: i32| (p + 10000) as i32),
            decreases ports.len() - i,
        {
            assert(pv[i as int] == node_port(self@.nodes_list[i as int]));
            let q = ports[i] + 10000;
            shifted.push(q);
            assert(pv.subrange(0, i + 1) =~= pv.subrange(0, i as int).push(pv[i as int]));
            assert(shifted@ =~= pv.subrange(0, i + 1).map_values(|p: i32| (p + 10000) as i32));
            i = i + 1;
        }
        assert(pv.subrange(0, ports.len() as int) =~= pv);
        match self.operation_type {
            ScaleOperationType::AddNodes => {
                let flags = match &self.is_candidate {
                    Some(f) => f.clone(),
                    None => {
                        let mut fs: Vec<bool> = Vec::new();
                        let mut j: usize = 0;
                        while j < ports.len()
                            invariant
                                j <= ports.len(),
                                pv == ports@,
                                fs@ == pv.subrange(0, j as int).map_values(|p: i32| p != 0),
                            decreases ports.len() - j,
                        {
                            fs.push(ports[j] != 0);
                            assert(pv.subrange(0, j + 1) =~= pv.subrange(0, j as int).push(pv[j as int]));
                            assert(fs@ =~= pv.subrange(0, j + 1).map_values(|p: i32| p != 0));
                            j = j + 1;
                        }
                        assert(pv.subrange(0, ports.len() as int) =~= pv);
                        fs
                    },
                };
                let ng_id: u32 = match self.ng_id {
                    Some(g) => g,
                    None => 0,
                };
                ScaleRpcRequest::AddPeers {
                    ng_id,
                    host_list: hosts,
                    port_list: shifted,
                    is_candidate: flags,
                    id: String::from_str(event_id),
                }
            },
            ScaleOperationType::RemoveNodes => ScaleRpcRequest::RemoveNode {
                id: String::from_str(event_id),
                remove_node_count: 0,
                host_list: hosts,
                port_list: shifted,
            },
        }
    }
}

/// The result code of a reply that reports success.
pub const SCALE_RESULT_SUCCESS: i32 = 0;

pub open spec fn spec_operation_name(op: ScaleOperationType) -> Seq<char> {
    match op {
        ScaleOperationType::AddNodes => "add nodes"@,
        ScaleOperationType::RemoveNodes => "remove nodes"@,
    }
}

/// How the operation is named in reports.
pub fn operation_name(op: ScaleOperationType) -> (r: &'static str)
    ensures
        r@ == spec_operation_name(op),
{
    match op {
        ScaleOperationType::AddNodes => "add nodes",
        ScaleOperationType::RemoveNodes => "remove nodes",
    }
}

/// What the leader's reply means: on success, the report and the cluster
/// configuration to hand on (none when the reply carries an empty one);
/// otherwise the failure report with the reply's result code. The topology
/// handed on with the configuration is the one the operation started from.
pub open spec fn spec_reply_outcome(op: ScaleOperationType, id: Seq<char>, result: i32, cluster_config: Seq<char>) -> Result<(Seq<char>, Option<Seq<char>>), Seq<char>> {
    if result == SCALE_RESULT_SUCCESS {
        Ok((
            "Successfully completed "@ + spec_operation_name(op) + " operation with event ID: "@ + id,
            if cluster_config.len() == 0 { None } else { Some(cluster_config) },
        ))
    } else {
        Err("RPC operation failed with result: "@ + int_text(result as int))
    }
}

pub open spec fn outcome_view(r: Result<(String, Option<String>), String>) -> Result<(Seq<char>, Option<Seq<char>>), Seq<char>> {
    match r {
        Ok((m, c)) => Ok((m@, crate::topology::opt_view(c))),
        Err(e) => Err(e@),
    }
}

/// Reads the leader's reply to a scale request.
pub fn scale_reply_outcome(op: ScaleOperationType, event_id: &str, result: i32, cluster_config: String) -> (r: Result<(String, Option<String>), String>)
    ensures
        outcome_view(r) == spec_reply_outcome(op, event_id@, result, cluster_config@),
{
    if result == SCALE_RESULT_SUCCESS {
        let mut m = String::from_str("Successfully completed ");
        m.append(operation_name(op));
        m.append(" operation with event ID: ");
        m.append(event_id);
        let cfg = if cluster_config.as_str().unicode_len() == 0 { None } else { Some(cluster_config) };
        Ok((m, cfg))
    } else {
        let mut e = String::from_str("RPC operation failed with result: ");
        let t = i32_text(result);
        e.append(t.as_str());
        Err(e)
    }
}

/// The stages of a scale operation, each a set of tasks run together.
#[derive(Debug, Clone, Copy, PartialEq, Eq, Structural)]
pub enum ScaleStage {
    /// Check that every host, old and new, answers over SSH.
    SshCheck,
    /// Read the cluster topology before anything changes.
    Topology,
    /// Install the system packages on new hosts.
    InstallDeps,
    /// Create the data directories of the added nodes.
    CreateNodeDirs,
    /// Create the TLS certificate directory on the added nodes' hosts.
    CreateTlsDirs,
    /// Download the transaction service package.
    Download,
    /// Unpack it on this machine.
    Extract,
    /// Copy it to the new hosts.
    UploadTxService,
    /// Ask the leader to add or remove the nodes.
    ScaleRpc,
    /// Rewrite the configuration files with the new topology.
    UpdateConfigs,
    /// Copy the configuration files to the nodes.
    UploadConfigs,
    /// Start the added nodes.
    StartNodes,
    /// Read the topology with the added nodes.
    PostScaleTopology,
    /// Wait until the leader reports the operation finished.
    CheckScaleStatus,
    /// Stop the removed nodes.
    StopNodes,
    /// Save the new topology of the deployment.
    SaveTopology,
    /// Rewrite and copy the monitoring targets.
    UploadMonitorConfigs,
    /// Read the final topology.
    FinalTopology,
    /// Record the final topology.
    UpdateTopology,
    /// Show the final topology.
    DisplayTopology,
    /// Delete the files of the removed nodes.
    CleanupHosts,
}

/// What decides which stages a scale operation has.
#[derive(Debug, Clone, Copy)]
pub struct ScalePlanInputs {
    pub operation_type: ScaleOperationType,
    /// Some added node is on a host the deployment does not use yet.
    pub has_new_hosts: bool,
    pub tls_enabled: bool,
    /// Some added node is on a host that runs no node yet, so the
    /// transaction service must be copied there.
    pub has_upload_nodes: bool,
    pub monitor_enabled: bool,
}

/// The number of stages there are.
pub open spec fn stage_total() -> int {
    21
}

/// The stage at place `k` of the fixed order of stages for operation `op`:
/// preparation first, then the request to the leader, the configuration,
/// and for added nodes their start before the wait for the leader, for
/// removed nodes the wait before they are stopped.
pub open spec fn stage_at(op: ScaleOperationType, k: int) -> ScaleStage {
    if k == 0 { ScaleStage::SshCheck }
    else if k == 1 { ScaleStage::Topology }
    else if k == 2 { ScaleStage::InstallDeps }
    else if k == 3 { ScaleStage::CreateNodeDirs }
    else if k == 4 { ScaleStage::CreateTlsDirs }
    else if k == 5 { ScaleStage::Download }
    else if k == 6 { ScaleStage::Extract }
    else if k == 7 { ScaleStage::UploadTxService }
    else if k == 8 { ScaleStage::ScaleRpc }
    else if k == 9 { ScaleStage::UpdateConfigs }
    else if k == 10 { ScaleStage::UploadConfigs }
    else if k == 11 { if op == ScaleOperationType::AddNodes { ScaleStage::StartNodes } else { ScaleStage::CheckScaleStatus } }
    else if k == 12 { if op == ScaleOperationType::AddNodes { ScaleStage::PostScaleTopology } else { ScaleStage::StopNodes } }
    else if k == 13 { if op == ScaleOperationType::AddNodes { ScaleStage::CheckScaleStatus } else { ScaleStage::StartNodes } }
    else if k == 14 { if op == ScaleOperationType::AddNodes { ScaleStage::StopNodes } else { ScaleStage::PostScaleTopology } }
    else if k == 15 { ScaleStage::SaveTopology }
    else if k == 16 { ScaleStage::UploadMonitorConfigs }
    else if k == 17 { ScaleStage::FinalTopology }
    else if k == 18 { ScaleStage::UpdateTopology }
    else if k == 19 { ScaleStage::DisplayTopology }
    else { ScaleStage::CleanupHosts }
}

/// The place of stage `s` in the order of stages for operation `op`.
pub open spec fn stage_place(op: ScaleOperationType, s: ScaleStage) -> int {
    let add = op == ScaleOperationType::AddNodes;
    match s {
        ScaleStage::SshCheck => 0,
        ScaleStage::Topology => 1,
        ScaleStage::InstallDeps => 2,
        ScaleStage::CreateNodeDirs => 3,
        ScaleStage::CreateTlsDirs => 4,
        ScaleStage::Download => 5,
        ScaleStage::Extract => 6,
        ScaleStage::UploadTxService => 7,
        ScaleStage::ScaleRpc => 8,
        ScaleStage::UpdateConfigs => 9,
        ScaleStage::UploadConfigs => 10,
        ScaleStage::StartNodes => if add { 11 } else { 13 },
        ScaleStage::PostScaleTopology => if add { 12 } else { 14 },
        ScaleStage::CheckScaleStatus => if add { 13 } else { 11 },
        ScaleStage::StopNodes => if add { 14 } else { 12 },
        ScaleStage::SaveTopology => 15,
        ScaleStage::UploadMonitorConfigs => 16,
        ScaleStage::FinalTopology => 17,
        ScaleStage::UpdateTopology => 18,
        ScaleStage::DisplayTopology => 19,
        ScaleStage::CleanupHosts => 20,
    }
}

/// Whether the operation described by `inp` has stage `s`.
pub open spec fn has_stage(inp: ScalePlanInputs, s: ScaleStage) -> bool {
    let add = inp.operation_type == ScaleOperationType::AddNodes;
    match s {
        ScaleStage::SshCheck => add && inp.has_new_hosts,
        ScaleStage::InstallDeps => add && inp.has_new_hosts,
        ScaleStage::CreateNodeDirs => add,
        ScaleStage::CreateTlsDirs => add && inp.tls_enabled,
        ScaleStage::Download => add && inp.has_upload_nodes,
        ScaleStage::Extract => add && inp.has_upload_nodes,
        ScaleStage::UploadTxService => add && inp.has_upload_nodes,
        ScaleStage::StartNodes => add,
        ScaleStage::PostScaleTopology => add,
        ScaleStage::StopNodes => !add,
        ScaleStage::UploadMonitorConfigs => inp.monitor_enabled,
        ScaleStage::CleanupHosts => !add,
        _ => true,
    }
}

/// Every stage in the fixed order for operation `op`.
pub open spec fn all_stages(op: ScaleOperationType) -> Seq<ScaleStage> {
    Seq::new(stage_total() as nat, |k: int| stage_at(op, k))
}

/// The stages of the operation described by `inp`, in order.
pub open spec fn spec_scale_stages(inp: ScalePlanInputs) -> Seq<ScaleStage> {
    select(all_stages(inp.operation_type), stage_filter(inp))
}

/// Whether a stage belongs to the operation described by `inp`.
pub open spec fn stage_filter(inp: ScalePlanInputs) -> spec_fn(ScaleStage) -> bool {
    |s: ScaleStage| has_stage(inp, s)
}

/// The place of each stage in the order for operation `op`.
pub open spec fn stage_places(op: ScaleOperationType) -> spec_fn(ScaleStage) -> int {
    |s: ScaleStage| stage_place(op, s)
}

fn stage_at_exec(op: ScaleOperationType, k: usize) -> (r: ScaleStage)
    ensures
        r == stage_at(op, k as int),
{
    let add = match op {
        ScaleOperationType::AddNodes => true,
        ScaleOperationType::RemoveNodes => false,
    };
    if k == 0 { ScaleStage::SshCheck }
    else if k == 1 { ScaleStage::Topology }
    else if k == 2 { ScaleStage::InstallDeps }
    else if k == 3 { ScaleStage::CreateNodeDirs }
    else if k == 4 { ScaleStage::CreateTlsDirs }
    else if k == 5 { ScaleStage::Download }
    else if k == 6 { ScaleStage::Extract }
    else if k == 7 { ScaleStage::UploadTxService }
    else if k == 8 { ScaleStage::ScaleRpc }
    else if k == 9 { ScaleStage::UpdateConfigs }
    else if k == 10 { ScaleStage::UploadConfigs }
    else if k == 11 { if add { ScaleStage::StartNodes } else { ScaleStage::CheckScaleStatus } }
    else if k == 12 { if add { ScaleStage::PostScaleTopology } else { ScaleStage::StopNodes } }
    else if k == 13 { if add { ScaleStage::CheckScaleStatus } else { ScaleStage::StartNodes } }
    else if k == 14 { if add { ScaleStage::StopNodes } else { ScaleStage::PostScaleTopology } }
    else if k == 15 { ScaleStage::SaveTopology }
    else if k == 16 { ScaleStage::UploadMonitorConfigs }
    else if k == 17 { ScaleStage::FinalTopology }
    else if k == 18 { ScaleStage::UpdateTopology }
    else if k == 19 { ScaleStage::DisplayTopology }
    else { ScaleStage::CleanupHosts }
}

fn has_stage_exec(inp: ScalePlanInputs, s: ScaleStage) -> (r: bool)
    ensures
        r == has_stage(inp, s),
{
    let add = match inp.operation_type {
        ScaleOperationType::AddNodes => true,
        ScaleOperationType::RemoveNodes => false,
    };
    match s {
        ScaleStage::SshCheck => add && inp.has_new_hosts,
        ScaleStage::InstallDeps => add && inp.has_new_hosts,
        ScaleStage::CreateNodeDirs => add,
        ScaleStage::CreateTlsDirs => add && inp.tls_enabled,
        ScaleStage::Download => add && inp.has_upload_nodes,
        ScaleStage::Extract => add && inp.has_upload_nodes,
        ScaleStage::UploadTxService => add && inp.has_upload_nodes,
        ScaleStage::StartNodes => add,
        ScaleStage::PostScaleTopology => add,
        ScaleStage::StopNodes => !add,
        ScaleStage::UploadMonitorConfigs => inp.monitor_enabled,
        ScaleStage::CleanupHosts => !add,
        _ => true,
    }
}

/// The stages a scale operation runs, in order.
pub fn scale_stages(inp: ScalePlanInputs) -> (r: Vec<ScaleStage>)
    ensures
        r@ == spec_scale_stages(inp),
{
    let ghost full = all_stages(inp.operation_type);
    let mut r: Vec<ScaleStage> = Vec::new();
    let mut k: usize = 0;
    while k < 21
        invariant
            k <= 21,
            full == all_stages(inp.operation_type),
            r@ == select(full.subrange(0, k as int), stage_filter(inp)),
        decreases 21 - k,
    {
        let st = stage_at_exec(inp.operation_type, k);
        let ghost pre1 = full.subrange(0, k + 1);
        assert(pre1.drop_last() =~= full.subrange(0, k as int));
        assert(pre1.last() == st);
        if has_stage_exec(inp, st) {
            r.push(st);
        }
        k = k + 1;
    }
    assert(full.subrange(0, 21) =~= full);
    r
}

/// Whether the stages of `s` keep the order of stages for operation `op`.
pub open spec fn in_stage_order(op: ScaleOperationType, s: Seq<ScaleStage>) -> bool {
    ordered_by(s, stage_places(op))
}

proof fn lemma_all_stages(op: ScaleOperationType)
    ensures
        in_stage_order(op, all_stages(op)),
        forall|x: ScaleStage| #[trigger] all_stages(op).contains(x),
{
    let full = all_stages(op);
    assert forall|k: int| 0 <= k < stage_total() implies stage_place(op, #[trigger] stage_at(op, k)) == k by {}
    assert forall|i: int, j: int| 0 <= i < j < full.len() implies stage_place(op, #[trigger] full[i]) < stage_place(op, #[trigger] full[j]) by {
        assert(full[i] == stage_at(op, i));
        assert(full[j] == stage_at(op, j));
    }
    assert forall|x: ScaleStage| #[trigger] full.contains(x) by {
        let k = stage_place(op, x);
        assert(stage_at(op, k) == x);
        assert(full[k] == x);
    }
}

/// The stages of a scale operation follow one fixed order and none
/// repeats: the topology is read and new nodes are prepared before the
/// leader is asked to change the cluster; added nodes are started before
/// the wait for the leader to finish, removed nodes are stopped only after
/// it; the files of removed nodes are deleted last. An operation has a
/// stage exactly when its kind and the request call for it.
pub proof fn law_scale_stages_order(inp: ScalePlanInputs)
    ensures
        ({
            let s = spec_scale_stages(inp);
            let op = inp.operation_type;
            &&& in_stage_order(op, s)
            &&& s.no_duplicates()
            &&& forall|x: ScaleStage| #[trigger] s.contains(x) <==> has_stage(inp, x)
            &&& forall|i: int, j: int| 0 <= i < s.len() && 0 <= j < s.len() && s[i] == ScaleStage::Topology
                && s[j] == ScaleStage::ScaleRpc ==> i < j
            &&& forall|i: int, j: int| 0 <= i < s.len() && 0 <= j < s.len() && stage_place(op, s[i]) < 8
                && s[j] == ScaleStage::ScaleRpc ==> i < j
            &&& op == ScaleOperationType::AddNodes ==> forall|i: int, j: int| 0 <= i < s.len() && 0 <= j < s.len()
                && s[i] == ScaleStage::StartNodes && s[j] == ScaleStage::CheckScaleStatus ==> i < j
            &&& op == ScaleOperationType::RemoveNodes ==> forall|i: int, j: int| 0 <= i < s.len() && 0 <= j < s.len()
                && s[i] == ScaleStage::CheckScaleStatus && s[j] == ScaleStage::StopNodes ==> i < j
            &&& op == ScaleOperationType::RemoveNodes ==> s.last() == ScaleStage::CleanupHosts
        }),
{
    let op = inp.operation_type;
    let s = spec_scale_stages(inp);
    lemma_all_stages(op);
    lemma_select_ordered(all_stages(op), stage_filter(inp), stage_places(op));
    lemma_ordered_facts(s, stage_places(op));
    assert forall|x: ScaleStage| #[trigger] s.contains(x) <==> has_stage(inp, x) by {
        lemma_select_contains(all_stages(op), stage_filter(inp), x);
    }
    if op == ScaleOperationType::RemoveNodes {
        assert(s.contains(ScaleStage::CleanupHosts));
        let k = choose|k: int| 0 <= k < s.len() && s[k] == ScaleStage::CleanupHosts;
        if k < s.len() - 1 {
            assert(stage_place(op, s[k]) < stage_place(op, s[s.len() - 1]));
        }
    }
}

/// The nonempty hosts of `nodes`, in order, repeats kept.
pub open spec fn nonempty_hosts(nodes: Seq<Seq<char>>) -> Seq<Seq<char>>
    decreases nodes.len(),
{
    if nodes.len() == 0 {
        Seq::empty()
    } else if node_host(nodes.last()).len() > 0 {
        nonempty_hosts(nodes.drop_last()).push(node_host(nodes.last()))
    } else {
        nonempty_hosts(nodes.drop_last())
    }
}

/// The command that creates the TLS certificate directory `tls_dir`, and
/// the hosts of the added nodes it runs on (hosts of `nodes` that are not
/// empty, in order).
pub fn tls_dir_command(nodes: &Vec<String>, tls_dir: &str) -> (r: (String, Vec<String>))
    ensures
        r.0@ == "mkdir -p "@ + tls_dir@,
        views(r.1@) == nonempty_hosts(views(nodes@)),
{
    let mut cmd = String::from_str("mkdir -p ");
    cmd.append(tls_dir);
    let mut hosts: Vec<String> = Vec::new();
    let mut i: usize = 0;
    while i < nodes.len()
        invariant
            i <= nodes.len(),
            views(hosts@) == nonempty_hosts(views(nodes@).subrange(0, i as int)),
        decreases nodes.len() - i,
    {
        let ghost pre1 = views(nodes@).subrange(0, i + 1);
        assert(pre1.drop_last() =~= views(nodes@).subrange(0, i as int));
        assert(pre1.last() == nodes@[i as int]@);
        let h = host_of_node(nodes[i].as_str());
        if h.as_str().unicode_len() > 0 {
            let ghost before = views(hosts@);
            let ghost hv = h@;
            hosts.push(h);
            assert(views(hosts@) =~= before.push(hv));
        }
        i = i + 1;
    }
    assert(views(nodes@).subrange(0, nodes.len() as int) =~= views(nodes@));
    (cmd, hosts)
}

impl ScaleRequest {
    /// The notice printed for a request with nothing to do.
    pub fn no_op_notice(&self) -> (r: Option<&'static str>)
        ensures
            match self {
                ScaleRequest::AllPresent => r matches Some(m) && m@ == "All requested nodes already exist; scale add is a no-op."@,
                ScaleRequest::AllAbsent => r matches Some(m) && m@ == "All requested nodes are already absent; scale remove is a no-op."@,
                ScaleRequest::Scale(_) => r is None,
            },
    {
        match self {
            ScaleRequest::AllPresent => Some("All requested nodes already exist; scale add is a no-op."),
            ScaleRequest::AllAbsent => Some("All requested nodes are already absent; scale remove is a no-op."),
            ScaleRequest::Scale(_) => None,
        }
    }
}

} // verus!
