//! Cluster topology as `CLUSTER NODES` and `INFO SERVER` report it, the
//! `host:port` helpers the rolling restart uses, and the choice of failover
//! targets among the connected managed nodes.
use vstd::prelude::*;
use crate::task::TaskId;
use crate::text::{
    char_in, contains_seq, contains_str, decimal, eq_ignore_ascii_case, eq_ignore_ascii_case_str,
    lines, lines_str, parse_u16, spec_parse_u16, split_chars, split_on, split_once,
    split_once_char, split_whitespace, split_whitespace_str, starts_with, starts_with_str, trim,
    trim_str, u64_to_string, views, dedup, dedup_strings,
};

verus! {

/// One node of the cluster as the topology query reports it.
#[derive(Debug)]
pub struct NodeInfo {
    pub ip: String,
    pub port: u16,
    pub connected: bool,
    pub node_id: Option<String>,
    pub master_id: Option<String>,
}

/// Mathematical value of a [`NodeInfo`].
pub struct NodeView {
    pub ip: Seq<char>,
    pub port: u16,
    pub connected: bool,
    pub node_id: Option<Seq<char>>,
    pub master_id: Option<Seq<char>>,
}

pub open spec fn opt_view(o: Option<String>) -> Option<Seq<char>> {
    match o {
        Some(s) => Some(s@),
        None => None,
    }
}

impl View for NodeInfo {
    type V = NodeView;

    open spec fn view(&self) -> NodeView {
        NodeView {
            ip: self.ip@,
            port: self.port,
            connected: self.connected,
            node_id: opt_view(self.node_id),
            master_id: opt_view(self.master_id),
        }
    }
}

pub open spec fn node_views(v: Seq<NodeInfo>) -> Seq<NodeView> {
    v.map_values(|n: NodeInfo| n@)
}

/// Masters and replicas of a cluster.
#[derive(Debug)]
pub struct ClusterNodes {
    pub masters: Vec<NodeInfo>,
    pub replicas: Vec<NodeInfo>,
}

impl View for ClusterNodes {
    type V = (Seq<NodeView>, Seq<NodeView>);

    open spec fn view(&self) -> (Seq<NodeView>, Seq<NodeView>) {
        (node_views(self.masters@), node_views(self.replicas@))
    }
}

pub fn clone_opt_string(o: &Option<String>) -> (r: Option<String>)
    ensures
        opt_view(r) == opt_view(*o),
{
    match o {
        Some(s) => Some(s.clone()),
        None => None,
    }
}

impl NodeInfo {
    /// A copy of this node.
    pub fn duplicate(&self) -> (r: NodeInfo)
        ensures
            r@ == self@,
    {
        NodeInfo {
            ip: self.ip.clone(),
            port: self.port,
            connected: self.connected,
            node_id: clone_opt_string(&self.node_id),
            master_id: clone_opt_string(&self.master_id),
        }
    }
}

/// `host:port` text of a node address.
pub open spec fn addr(host: Seq<char>, port: u16) -> Seq<char> {
    host + ":"@ + decimal(port as nat)
}

/// The `host:port` address of `host` and `port`.
pub fn node_addr(host: &str, port: u16) -> (r: String)
    ensures
        r@ == addr(host@, port),
{
    let mut r = String::from_str(host);
    r.append(":");
    let p = u64_to_string(port as u64);
    r.append(p.as_str());
    r
}

// ── CLUSTER NODES ────────────────────────────────────────────────────────

/// What one line of `CLUSTER NODES` output describes: `None` for a line
/// with fewer than eight words or without a readable `ip:port`, else whether
/// the node is a master (its flags do not contain `slave`) and the node.
pub open spec fn parse_node_line(line: Seq<char>) -> Option<(bool, NodeView)> {
    let parts = split_whitespace(line);
    if parts.len() < 8 {
        None
    } else {
        let ipp = parts[1];
        let fields = if ipp.contains('@') {
            split_on(ipp, char_in(seq![':', '@']))
        } else {
            split_on(ipp, char_in(seq![':']))
        };
        if fields.len() < 2 {
            None
        } else {
            match spec_parse_u16(fields[1]) {
                None => None,
                Some(port) => Some(
                    (
                        !contains_seq(parts[2], "slave"@),
                        NodeView {
                            ip: fields[0],
                            port,
                            connected: eq_ignore_ascii_case(parts[7], "connected"@),
                            node_id: Some(parts[0]),
                            master_id: if parts[3] == "-"@ {
                                None
                            } else {
                                Some(parts[3])
                            },
                        },
                    ),
                ),
            }
        }
    }
}

/// Masters and replicas described by `ls`, each list in line order.
pub open spec fn collect_nodes(ls: Seq<Seq<char>>) -> (Seq<NodeView>, Seq<NodeView>)
    decreases ls.len(),
{
    if ls.len() == 0 {
        (Seq::empty(), Seq::empty())
    } else {
        let (m, r) = collect_nodes(ls.drop_last());
        match parse_node_line(ls.last()) {
            None => (m, r),
            Some((is_master, n)) => if is_master {
                (m.push(n), r)
            } else {
                (m, r.push(n))
            },
        }
    }
}

/// The topology that `CLUSTER NODES` text describes: one group holding all
/// masters and replicas, or no group when no line describes a node.
pub open spec fn spec_parse_cluster_nodes(text: Seq<char>) -> Seq<(Seq<NodeView>, Seq<NodeView>)> {
    let (m, r) = collect_nodes(lines(text));
    if m.len() == 0 && r.len() == 0 {
        Seq::empty()
    } else {
        seq![(m, r)]
    }
}

fn contains_char(s: &str, c: char) -> (b: bool)
    ensures
        b == s@.contains(c),
{
    match split_once_char(s, c) {
        Some((a, b)) => {
            assert(s@[a@.len() as int] == c);
            true
        },
        None => false,
    }
}

/// Parses one line of `CLUSTER NODES` output.
pub fn parse_node_line_str(line: &str) -> (r: Option<(bool, NodeInfo)>)
    ensures
        match r {
            Some((m, n)) => parse_node_line(line@) == Some((m, n@)),
            None => parse_node_line(line@) is None,
        },
{
    let parts = split_whitespace_str(line);
    if parts.len() < 8 {
        return None;
    }
    let ghost ps = views(parts@);
    assert(ps[1] == parts@[1]@);
    assert(ps[0] == parts@[0]@);
    assert(ps[2] == parts@[2]@);
    assert(ps[3] == parts@[3]@);
    assert(ps[7] == parts@[7]@);
    let ipp = parts[1].as_str();
    let fields = if contains_char(ipp, '@') {
        let seps = vec![':', '@'];
        assert(seps@ =~= seq![':', '@']);
        split_chars(ipp, &seps)
    } else {
        let seps = vec![':'];
        assert(seps@ =~= seq![':']);
        split_chars(ipp, &seps)
    };
    if fields.len() < 2 {
        return None;
    }
    assert(views(fields@)[1] == fields@[1]@);
    assert(views(fields@)[0] == fields@[0]@);
    let port = match parse_u16(fields[1].as_str()) {
        Some(p) => p,
        None => {
            return None;
        },
    };
    let is_master = !contains_str(parts[2].as_str(), "slave");
    let connected = eq_ignore_ascii_case_str(parts[7].as_str(), "connected");
    let dash = String::from_str("-");
    let master_id = if parts[3] == dash {
        None
    } else {
        Some(parts[3].clone())
    };
    let ghost dash_eq = parts@[3]@ == "-"@;
    proof {
        if dash_eq {
            assert(opt_view(master_id) == None::<Seq<char>>);
        }
    }
    let node = NodeInfo {
        ip: fields[0].clone(),
        port,
        connected,
        node_id: Some(parts[0].clone()),
        master_id,
    };
    Some((is_master, node))
}

/// Removes one pair of surrounding double quotes, as the bulk-string reply
/// of `CLUSTER NODES` is unquoted before parsing.
pub open spec fn unquote(raw: Seq<char>) -> Seq<char> {
    if raw.len() >= 2 && raw[0] == '"' && raw.last() == '"' {
        raw.subrange(1, raw.len() - 1)
    } else {
        raw
    }
}

/// Strips one pair of surrounding double quotes.  A reply made of a single
/// `"` is refused by `requires`: both tests succeed on it and the slice
/// `[1..0]` that follows would panic.
pub fn strip_surrounding_quotes(raw: &str) -> (r: String)
    requires
        raw@ != seq!['"'],
    ensures
        r@ == unquote(raw@),
{
    let n = raw.unicode_len();
    if n >= 2 && raw.get_char(0) == '"' && raw.get_char(n - 1) == '"' {
        String::from_str(raw.substring_char(1, n - 1))
    } else {
        String::from_str(raw)
    }
}

/// Parses `CLUSTER NODES` output into masters and replicas.
pub fn parse_cluster_nodes(text: &str) -> (r: Vec<ClusterNodes>)
    ensures
        r@.map_values(|c: ClusterNodes| c@) == spec_parse_cluster_nodes(text@),
{
    let ls = lines_str(text);
    let ghost lv = views(ls@);
    let mut masters: Vec<NodeInfo> = Vec::new();
    let mut replicas: Vec<NodeInfo> = Vec::new();
    let mut i: usize = 0;
    while i < ls.len()
        invariant
            lv == views(ls@),
            i <= ls.len(),
            (node_views(masters@), node_views(replicas@)) == collect_nodes(
                lv.subrange(0, i as int),
            ),
        decreases ls.len() - i,
    {
        let ghost pre1 = lv.subrange(0, i + 1);
        assert(pre1.drop_last() =~= lv.subrange(0, i as int));
        assert(lv[i as int] == ls@[i as int]@);
        assert(pre1.last() == ls@[i as int]@);
        match parse_node_line_str(ls[i].as_str()) {
            Some((is_master, node)) => {
                if is_master {
                    masters.push(node);
                    assert(node_views(masters@) =~= node_views(masters@).drop_last().push(
                        node@,
                    ));
                } else {
                    replicas.push(node);
                    assert(node_views(replicas@) =~= node_views(replicas@).drop_last().push(
                        node@,
                    ));
                }
            },
            None => {},
        }
        i = i + 1;
    }
    assert(lv.subrange(0, ls.len() as int) =~= lv);
    let mut out: Vec<ClusterNodes> = Vec::new();
    if masters.len() > 0 || replicas.len() > 0 {
        out.push(ClusterNodes { masters, replicas });
    }
    assert(out@.map_values(|c: ClusterNodes| c@) =~= spec_parse_cluster_nodes(text@));
    out
}


// ── INFO SERVER ──────────────────────────────────────────────────────────

/// Why a topology reply could not be read.
#[derive(Debug)]
pub enum TopologyError {
    /// Neither a `tcp_port:` line nor the host gave a port.
    NoTcpPort,
}

/// For the first line of `ls` that starts with `tcp_port:`, the port its
/// trimmed rest parses to (`None` inside when it does not parse); `None`
/// when no line starts so.
pub open spec fn tcp_port_line(ls: Seq<Seq<char>>) -> Option<Option<u16>>
    decreases ls.len(),
{
    if ls.len() == 0 {
        None
    } else if starts_with(ls[0], "tcp_port:"@) {
        Some(spec_parse_u16(trim(ls[0].subrange("tcp_port:"@.len() as int, ls[0].len() as int))))
    } else {
        tcp_port_line(ls.drop_first())
    }
}

proof fn lemma_tcp_port_line_skip(ls: Seq<Seq<char>>, i: int)
    requires
        0 <= i <= ls.len(),
        forall|k: int| 0 <= k < i ==> !starts_with(#[trigger] ls[k], "tcp_port:"@),
    ensures
        tcp_port_line(ls) == tcp_port_line(ls.subrange(i, ls.len() as int)),
    decreases i,
{
    if i == 0 {
        assert(ls.subrange(0, ls.len() as int) =~= ls);
    } else {
        let t = ls.drop_first();
        assert forall|k: int| 0 <= k < i - 1 implies !starts_with(#[trigger] t[k], "tcp_port:"@) by {
            assert(t[k] == ls[k + 1]);
        }
        lemma_tcp_port_line_skip(t, i - 1);
        assert(t.subrange(i - 1, t.len() as int) =~= ls.subrange(i, ls.len() as int));
        assert(!starts_with(ls[0], "tcp_port:"@));
    }
}

/// The single node that an `INFO SERVER` reply and the `host:port` it was
/// asked on describe: its ip is the text of `host` before the first `:`;
/// its port is that of the reply's first `tcp_port:` line, or, when that is
/// missing or unreadable, the number after the first `:` of `host`.
pub open spec fn spec_parse_single(info: Seq<char>, host: Seq<char>) -> Option<NodeView> {
    let pieces = split_on(host, char_in(seq![':']));
    let fallback = if pieces.len() >= 2 {
        spec_parse_u16(pieces[1])
    } else {
        None
    };
    let port = match tcp_port_line(lines(info)) {
        Some(Some(p)) => Some(p),
        _ => fallback,
    };
    match port {
        Some(p) => Some(
            NodeView { ip: pieces[0], port: p, connected: true, node_id: None, master_id: None },
        ),
        None => None,
    }
}

/// Reads the `INFO SERVER` reply of a single-node deployment as a topology
/// of one connected master.
pub fn parse_cluster_nodes_single(info: &str, default_host: &str) -> (r: Result<ClusterNodes, TopologyError>)
    ensures
        match r {
            Ok(c) => spec_parse_single(info@, default_host@) matches Some(n) && c@ == (
                seq![n],
                Seq::<NodeView>::empty(),
            ),
            Err(_) => spec_parse_single(info@, default_host@) is None,
        },
{
    let seps = vec![':'];
    assert(seps@ =~= seq![':']);
    let pieces = split_chars(default_host, &seps);
    proof {
        crate::text::lemma_split_on_nonempty(default_host@, char_in(seq![':']));
    }
    assert(views(pieces@)[0] == pieces@[0]@);
    let fallback = if pieces.len() >= 2 {
        assert(views(pieces@)[1] == pieces@[1]@);
        parse_u16(pieces[1].as_str())
    } else {
        None
    };
    let ls = lines_str(info);
    let ghost lv = views(ls@);
    let mut i: usize = 0;
    while i < ls.len() && !starts_with_str(ls[i].as_str(), "tcp_port:")
        invariant
            lv == views(ls@),
            i <= ls.len(),
            forall|k: int| 0 <= k < i ==> !starts_with(#[trigger] lv[k], "tcp_port:"@),
        decreases ls.len() - i,
    {
        assert(lv[i as int] == ls@[i as int]@);
        i = i + 1;
    }
    proof {
        lemma_tcp_port_line_skip(lv, i as int);
    }
    let port: Option<u16> = if i < ls.len() {
        assert(lv[i as int] == ls@[i as int]@);
        assert(lv.subrange(i as int, lv.len() as int)[0] == lv[i as int]);
        let line = ls[i].as_str();
        let n = line.unicode_len();
        proof {
            reveal_strlit("tcp_port:");
        }
        let rest = line.substring_char(9, n);
        let t = trim_str(rest);
        parse_u16(t.as_str())
    } else {
        assert(lv.subrange(lv.len() as int, lv.len() as int) =~= Seq::<Seq<char>>::empty());
        None
    };
    let chosen = match port {
        Some(p) => Some(p),
        None => fallback,
    };
    match chosen {
        Some(p) => {
            let node = NodeInfo {
                ip: pieces[0].clone(),
                port: p,
                connected: true,
                node_id: None,
                master_id: None,
            };
            let mut masters: Vec<NodeInfo> = Vec::new();
            masters.push(node);
            let c = ClusterNodes { masters, replicas: Vec::new() };
            assert(node_views(c.masters@) =~= seq![node@]);
            assert(node_views(c.replicas@) =~= Seq::<NodeView>::empty());
            Ok(c)
        },
        None => Err(TopologyError::NoTcpPort),
    }
}

// ── host:port helpers ────────────────────────────────────────────────────

/// Why a `host:port` value was refused; each variant holds the message.
pub open spec fn spec_parse_host_port(value: Seq<char>, field: Seq<char>) -> Result<(Seq<char>, u16), Seq<char>> {
    match split_once(value, ':') {
        None => Err("invalid "@ + field + " host:port: '"@ + value + "'"@),
        Some((host, port)) => if trim(host).len() == 0 {
            Err("invalid "@ + field + " host:port with empty host: '"@ + value + "'"@)
        } else {
            match spec_parse_u16(port) {
                None => Err("invalid "@ + field + " port in host:port: '"@ + value + "'"@),
                Some(p) => Ok((host, p)),
            }
        },
    }
}

/// Splits `value` into host and port at its first `:`; the error names
/// `field` and quotes `value`.
pub fn parse_host_port(value: &str, field: &str) -> (r: Result<(String, u16), String>)
    ensures
        match r {
            Ok((h, p)) => spec_parse_host_port(value@, field@) == Ok::<(Seq<char>, u16), Seq<char>>((h@, p)),
            Err(m) => spec_parse_host_port(value@, field@) == Err::<(Seq<char>, u16), Seq<char>>(m@),
        },
{
    let mut msg = String::from_str("invalid ");
    msg.append(field);
    match split_once_char(value, ':') {
        None => {
            msg.append(" host:port: '");
            msg.append(value);
            msg.append("'");
            Err(msg)
        },
        Some((host, port)) => {
            let t = trim_str(host.as_str());
            if t.as_str().unicode_len() == 0 {
                msg.append(" host:port with empty host: '");
                msg.append(value);
                msg.append("'");
                Err(msg)
            } else {
                match parse_u16(port.as_str()) {
                    None => {
                        msg.append(" port in host:port: '");
                        msg.append(value);
                        msg.append("'");
                        Err(msg)
                    },
                    Some(p) => Ok((host, p)),
                }
            }
        },
    }
}

/// The hosts of the `host:port` entries of `v` that hold a `:`, in order.
pub open spec fn hosts_of(v: Seq<Seq<char>>) -> Seq<Seq<char>>
    decreases v.len(),
{
    if v.len() == 0 {
        Seq::empty()
    } else {
        match split_once(v.last(), ':') {
            Some((h, _)) => hosts_of(v.drop_last()).push(h),
            None => hosts_of(v.drop_last()),
        }
    }
}

/// The distinct hosts named by `host_ports` (entries without `:` are
/// skipped), each once, in the order of first appearance.
pub fn hosts_from_host_ports(host_ports: &Vec<String>) -> (r: Vec<String>)
    ensures
        views(r@) == dedup(hosts_of(views(host_ports@))),
{
    let mut hosts: Vec<String> = Vec::new();
    let mut i: usize = 0;
    while i < host_ports.len()
        invariant
            i <= host_ports.len(),
            views(hosts@) == hosts_of(views(host_ports@).subrange(0, i as int)),
        decreases host_ports.len() - i,
    {
        let ghost pre1 = views(host_ports@).subrange(0, i + 1);
        assert(pre1.drop_last() =~= views(host_ports@).subrange(0, i as int));
        assert(pre1.last() == host_ports@[i as int]@);
        match split_once_char(host_ports[i].as_str(), ':') {
            Some((h, _)) => {
                hosts.push(h);
                assert(views(hosts@) =~= views(hosts@).drop_last().push(hosts@.last()@));
            },
            None => {},
        }
        i = i + 1;
    }
    assert(views(host_ports@).subrange(0, host_ports.len() as int) =~= views(host_ports@));
    dedup_strings(&hosts)
}

/// Whether `v` holds a string equal to `s`.
pub fn contains_string(v: &Vec<String>, s: &String) -> (b: bool)
    ensures
        b == views(v@).contains(s@),
{
    let mut i: usize = 0;
    while i < v.len()
        invariant
            i <= v.len(),
            forall|k: int| 0 <= k < i ==> views(v@)[k] != s@,
        decreases v.len() - i,
    {
        assert(views(v@)[i as int] == v@[i as int]@);
        if v[i] == *s {
            return true;
        }
        i = i + 1;
    }
    false
}

/// The elements of `v` that `excluded` does not hold, in order.
pub open spec fn without(v: Seq<Seq<char>>, excluded: Seq<Seq<char>>) -> Seq<Seq<char>>
    decreases v.len(),
{
    if v.len() == 0 {
        Seq::empty()
    } else if excluded.contains(v.last()) {
        without(v.drop_last(), excluded)
    } else {
        without(v.drop_last(), excluded).push(v.last())
    }
}

/// `nodes` without the excluded ones and without repetitions, in order.
pub fn ordered_without(nodes: Vec<String>, excluded: &Vec<String>) -> (r: Vec<String>)
    ensures
        views(r@) == dedup(without(views(nodes@), views(excluded@))),
{
    let mut kept: Vec<String> = Vec::new();
    let mut i: usize = 0;
    while i < nodes.len()
        invariant
            i <= nodes.len(),
            views(kept@) == without(views(nodes@).subrange(0, i as int), views(excluded@)),
        decreases nodes.len() - i,
    {
        let ghost pre1 = views(nodes@).subrange(0, i + 1);
        assert(pre1.drop_last() =~= views(nodes@).subrange(0, i as int));
        assert(pre1.last() == nodes@[i as int]@);
        if !contains_string(excluded, &nodes[i]) {
            kept.push(nodes[i].clone());
            assert(views(kept@) =~= views(kept@).drop_last().push(nodes@[i as int]@));
        }
        i = i + 1;
    }
    assert(views(nodes@).subrange(0, nodes.len() as int) =~= views(nodes@));
    dedup_strings(&kept)
}

/// The connected nodes of `ns` whose address `managed` holds, in order.
pub open spec fn connected_managed(ns: Seq<NodeView>, managed: Seq<Seq<char>>) -> Seq<NodeView>
    decreases ns.len(),
{
    if ns.len() == 0 {
        Seq::empty()
    } else {
        let n = ns.last();
        if n.connected && managed.contains(addr(n.ip, n.port)) {
            connected_managed(ns.drop_last(), managed).push(n)
        } else {
            connected_managed(ns.drop_last(), managed)
        }
    }
}

/// The addresses of `ns`, in order.
pub open spec fn addrs(ns: Seq<NodeView>) -> Seq<Seq<char>> {
    ns.map_values(|n: NodeView| addr(n.ip, n.port))
}

/// The connected nodes of `nodes` whose address `managed` holds.
pub fn connected_managed_node_infos(nodes: &Vec<NodeInfo>, managed: &Vec<String>) -> (r: Vec<NodeInfo>)
    ensures
        node_views(r@) == connected_managed(node_views(nodes@), views(managed@)),
{
    let mut out: Vec<NodeInfo> = Vec::new();
    let mut i: usize = 0;
    while i < nodes.len()
        invariant
            i <= nodes.len(),
            node_views(out@) == connected_managed(node_views(nodes@).subrange(0, i as int), views(managed@)),
        decreases nodes.len() - i,
    {
        let ghost pre1 = node_views(nodes@).subrange(0, i + 1);
        assert(pre1.drop_last() =~= node_views(nodes@).subrange(0, i as int));
        assert(pre1.last() == nodes@[i as int]@);
        let n = &nodes[i];
        if n.connected {
            let a = node_addr(n.ip.as_str(), n.port);
            if contains_string(managed, &a) {
                let d = n.duplicate();
                out.push(d);
                assert(node_views(out@) =~= node_views(out@).drop_last().push(d@));
            }
        }
        i = i + 1;
    }
    assert(node_views(nodes@).subrange(0, nodes.len() as int) =~= node_views(nodes@));
    out
}

/// The addresses of the connected nodes of `nodes` whose address `managed`
/// holds.
pub fn connected_managed_nodes(nodes: &Vec<NodeInfo>, managed: &Vec<String>) -> (r: Vec<String>)
    ensures
        views(r@) == addrs(connected_managed(node_views(nodes@), views(managed@))),
{
    let infos = connected_managed_node_infos(nodes, managed);
    let mut out: Vec<String> = Vec::new();
    let mut i: usize = 0;
    while i < infos.len()
        invariant
            i <= infos.len(),
            out@.len() == i,
            views(out@) == addrs(node_views(infos@).subrange(0, i as int)),
        decreases infos.len() - i,
    {
        let a = node_addr(infos[i].ip.as_str(), infos[i].port);
        let ghost old = out@;
        out.push(a);
        assert(node_views(infos@)[i as int] == infos@[i as int]@);
        assert forall|k: int| 0 <= k < i + 1 implies #[trigger] views(out@)[k] == addrs(node_views(infos@).subrange(0, i + 1))[k] by {
            if k < i {
                assert(out@[k] == old[k]);
                assert(views(old)[k] == old[k]@);
                assert(views(old)[k] == addrs(node_views(infos@).subrange(0, i as int))[k]);
                assert(node_views(infos@).subrange(0, i as int)[k] == node_views(infos@).subrange(0, i + 1)[k]);
            }
        }
        assert(views(out@) =~= addrs(node_views(infos@).subrange(0, i + 1)));
        i = i + 1;
    }
    assert(node_views(infos@).subrange(0, infos.len() as int) =~= node_views(infos@));
    out
}


// ── failover targets ─────────────────────────────────────────────────────

/// Why no safe failover plan could be made.
#[derive(Debug)]
pub enum FailoverError {
    /// No connected managed master was found.
    NoConnectedMaster,
    /// No connected managed replica was found.
    NoConnectedReplica,
    /// No connected managed replica follows the master at this address.
    NoReplicaForMaster(String),
    /// The master at this address reported no node id while several
    /// masters are connected.
    MissingMasterNodeId(String),
    /// The replica at this address was chosen for two masters.
    TargetReused(String),
    /// A selected target is not a readable `host:port` (the message).
    InvalidTarget(String),
    /// The selected target at this address is not a connected replica.
    TargetNotConnectedReplica(String),
    /// The selected target (first) follows a master id (second) that no
    /// connected master has.
    TargetMasterNotConnected(String, String),
    /// The selected target at this address reported no master id while
    /// several masters are connected.
    MissingTargetMasterId(String),
}

pub enum FailoverErrorView {
    NoConnectedMaster,
    NoConnectedReplica,
    NoReplicaForMaster(Seq<char>),
    MissingMasterNodeId(Seq<char>),
    TargetReused(Seq<char>),
    InvalidTarget(Seq<char>),
    TargetNotConnectedReplica(Seq<char>),
    TargetMasterNotConnected(Seq<char>, Seq<char>),
    MissingTargetMasterId(Seq<char>),
}

impl View for FailoverError {
    type V = FailoverErrorView;

    open spec fn view(&self) -> FailoverErrorView {
        match self {
            FailoverError::NoConnectedMaster => FailoverErrorView::NoConnectedMaster,
            FailoverError::NoConnectedReplica => FailoverErrorView::NoConnectedReplica,
            FailoverError::NoReplicaForMaster(a) => FailoverErrorView::NoReplicaForMaster(a@),
            FailoverError::MissingMasterNodeId(a) => FailoverErrorView::MissingMasterNodeId(a@),
            FailoverError::TargetReused(a) => FailoverErrorView::TargetReused(a@),
            FailoverError::InvalidTarget(a) => FailoverErrorView::InvalidTarget(a@),
            FailoverError::TargetNotConnectedReplica(a) => FailoverErrorView::TargetNotConnectedReplica(a@),
            FailoverError::TargetMasterNotConnected(a, b) => FailoverErrorView::TargetMasterNotConnected(a@, b@),
            FailoverError::MissingTargetMasterId(a) => FailoverErrorView::MissingTargetMasterId(a@),
        }
    }
}

/// The first node of `ns` that `p` accepts.
pub open spec fn first_node(ns: Seq<NodeView>, p: spec_fn(NodeView) -> bool) -> Option<NodeView>
    decreases ns.len(),
{
    if ns.len() == 0 {
        None
    } else if p(ns[0]) {
        Some(ns[0])
    } else {
        first_node(ns.drop_first(), p)
    }
}

pub proof fn lemma_first_node_at(ns: Seq<NodeView>, p: spec_fn(NodeView) -> bool, i: int)
    requires
        0 <= i <= ns.len(),
        forall|k: int| 0 <= k < i ==> !p(#[trigger] ns[k]),
        i == ns.len() || p(ns[i]),
    ensures
        first_node(ns, p) == (if i == ns.len() {
            None
        } else {
            Some(ns[i])
        }),
    decreases i,
{
    if i > 0 {
        let t = ns.drop_first();
        assert forall|k: int| 0 <= k < i - 1 implies !p(#[trigger] t[k]) by {
            assert(t[k] == ns[k + 1]);
        }
        assert(!p(ns[0]));
        lemma_first_node_at(t, p, i - 1);
    }
}

/// Accepts a replica that follows the master with id `id`.
pub open spec fn follows(id: Seq<char>) -> spec_fn(NodeView) -> bool {
    |n: NodeView| n.master_id == Some(id)
}

/// Accepts a node whose node id is `id`.
pub open spec fn has_id(id: Seq<char>) -> spec_fn(NodeView) -> bool {
    |n: NodeView| n.node_id == Some(id)
}

/// Accepts a connected node at `host` and `port`.
pub open spec fn connected_at(host: Seq<char>, port: u16) -> spec_fn(NodeView) -> bool {
    |n: NodeView| n.ip == host && n.port == port && n.connected
}

/// Accepts a node at `host` and `port`.
pub open spec fn at(host: Seq<char>, port: u16) -> spec_fn(NodeView) -> bool {
    |n: NodeView| n.ip == host && n.port == port
}

/// The replica of `rs` that takes over from master `m` when `n_masters`
/// masters are connected: the first replica following `m`'s node id; when
/// `m` reported no id, the first replica if `m` is the only master.
pub open spec fn failover_target(m: NodeView, n_masters: nat, rs: Seq<NodeView>) -> Result<NodeView, FailoverErrorView> {
    match m.node_id {
        Some(id) => match first_node(rs, follows(id)) {
            Some(r) => Ok(r),
            None => Err(FailoverErrorView::NoReplicaForMaster(addr(m.ip, m.port))),
        },
        None => if n_masters == 1 {
            Ok(rs[0])
        } else {
            Err(FailoverErrorView::MissingMasterNodeId(addr(m.ip, m.port)))
        },
    }
}

pub open spec fn seconds(ps: Seq<(Seq<char>, Seq<char>)>) -> Seq<Seq<char>> {
    ps.map_values(|p: (Seq<char>, Seq<char>)| p.1)
}

pub open spec fn firsts(ps: Seq<(Seq<char>, Seq<char>)>) -> Seq<Seq<char>> {
    ps.map_values(|p: (Seq<char>, Seq<char>)| p.0)
}

/// The (master, target) address pairs for the masters `ms`, in order; the
/// first master without a target, or the first target chosen twice, is the
/// error.
pub open spec fn failover_pairs(ms: Seq<NodeView>, n_masters: nat, rs: Seq<NodeView>) -> Result<Seq<(Seq<char>, Seq<char>)>, FailoverErrorView>
    decreases ms.len(),
{
    if ms.len() == 0 {
        Ok(Seq::empty())
    } else {
        match failover_pairs(ms.drop_last(), n_masters, rs) {
            Err(e) => Err(e),
            Ok(ps) => match failover_target(ms.last(), n_masters, rs) {
                Err(e) => Err(e),
                Ok(t) => if seconds(ps).contains(addr(t.ip, t.port)) {
                    Err(FailoverErrorView::TargetReused(addr(t.ip, t.port)))
                } else {
                    Ok(ps.push((addr(ms.last().ip, ms.last().port), addr(t.ip, t.port))))
                },
            },
        }
    }
}

/// The failover plan of a topology: one (current master, replica) pair per
/// connected managed master.
pub open spec fn spec_select_failover_targets(
    masters: Seq<NodeView>,
    replicas: Seq<NodeView>,
    managed: Seq<Seq<char>>,
) -> Result<Seq<(Seq<char>, Seq<char>)>, FailoverErrorView> {
    let ms = connected_managed(masters, managed);
    let rs = connected_managed(replicas, managed);
    if ms.len() == 0 {
        Err(FailoverErrorView::NoConnectedMaster)
    } else if rs.len() == 0 {
        Err(FailoverErrorView::NoConnectedReplica)
    } else {
        failover_pairs(ms, ms.len(), rs)
    }
}

proof fn lemma_failover_pairs_err(ms: Seq<NodeView>, n: nat, rs: Seq<NodeView>, j: int)
    requires
        0 <= j <= ms.len(),
        failover_pairs(ms.subrange(0, j), n, rs) is Err,
    ensures
        failover_pairs(ms, n, rs) == failover_pairs(ms.subrange(0, j), n, rs),
    decreases ms.len(),
{
    if j == ms.len() {
        assert(ms.subrange(0, j) =~= ms);
    } else {
        let d = ms.drop_last();
        assert(d.subrange(0, j) =~= ms.subrange(0, j));
        lemma_failover_pairs_err(d, n, rs, j);
    }
}

pub open spec fn pair_views(v: Seq<(String, String)>) -> Seq<(Seq<char>, Seq<char>)> {
    v.map_values(|p: (String, String)| (p.0@, p.1@))
}

pub open spec fn pairs_result_view(r: Result<Vec<(String, String)>, FailoverError>) -> Result<Seq<(Seq<char>, Seq<char>)>, FailoverErrorView> {
    match r {
        Ok(v) => Ok(pair_views(v@)),
        Err(e) => Err(e@),
    }
}

/// Index of the first node of `ns` that follows master id `id`, or the
/// length of `ns`.
fn find_follower(ns: &Vec<NodeInfo>, id: &String) -> (i: usize)
    ensures
        i <= ns.len(),
        first_node(node_views(ns@), follows(id@)) == (if i == ns.len() {
            None
        } else {
            Some(node_views(ns@)[i as int])
        }),
{
    let mut i: usize = 0;
    while i < ns.len()
        invariant
            i <= ns.len(),
            forall|k: int| 0 <= k < i ==> !follows(id@)(#[trigger] node_views(ns@)[k]),
        decreases ns.len() - i,
    {
        assert(node_views(ns@)[i as int] == ns@[i as int]@);
        let hit = match &ns[i].master_id {
            Some(m) => *m == *id,
            None => false,
        };
        if hit {
            proof {
                lemma_first_node_at(node_views(ns@), follows(id@), i as int);
            }
            return i;
        }
        i = i + 1;
    }
    proof {
        lemma_first_node_at(node_views(ns@), follows(id@), i as int);
    }
    i
}

/// Chooses, for every connected managed master of `topology`, a connected
/// managed replica to fail over to.
pub fn select_connected_failover_targets(topology: &ClusterNodes, managed: &Vec<String>) -> (r: Result<Vec<(String, String)>, FailoverError>)
    ensures
        pairs_result_view(r) == spec_select_failover_targets(
            node_views(topology.masters@),
            node_views(topology.replicas@),
            views(managed@),
        ),
{
    let ms = connected_managed_node_infos(&topology.masters, managed);
    let rs = connected_managed_node_infos(&topology.replicas, managed);
    let ghost msv = node_views(ms@);
    let ghost rsv = node_views(rs@);
    if ms.len() == 0 {
        return Err(FailoverError::NoConnectedMaster);
    }
    if rs.len() == 0 {
        return Err(FailoverError::NoConnectedReplica);
    }
    let n_masters = ms.len();
    let mut pairs: Vec<(String, String)> = Vec::new();
    let mut targets: Vec<String> = Vec::new();
    let mut i: usize = 0;
    assert(msv.subrange(0, 0) =~= Seq::<NodeView>::empty());
    assert(pair_views(pairs@) =~= Seq::<(Seq<char>, Seq<char>)>::empty());
    assert(views(targets@) =~= Seq::<Seq<char>>::empty());
    while i < ms.len()
        invariant
            msv == node_views(ms@),
            rsv == node_views(rs@),
            msv == connected_managed(node_views(topology.masters@), views(managed@)),
            rsv == connected_managed(node_views(topology.replicas@), views(managed@)),
            n_masters == ms.len(),
            rs.len() > 0,
            i <= ms.len(),
            failover_pairs(msv.subrange(0, i as int), n_masters as nat, rsv) == Ok::<
                Seq<(Seq<char>, Seq<char>)>,
                FailoverErrorView,
            >(pair_views(pairs@)),
            views(targets@) == seconds(pair_views(pairs@)),
        decreases ms.len() - i,
    {
        let ghost pre1 = msv.subrange(0, i + 1);
        assert(pre1.drop_last() =~= msv.subrange(0, i as int));
        assert(msv[i as int] == ms@[i as int]@);
        assert(pre1.last() == ms@[i as int]@);
        let m = &ms[i];
        let master_addr = node_addr(m.ip.as_str(), m.port);
        let target: &NodeInfo = match &m.node_id {
            Some(id) => {
                let k = find_follower(&rs, id);
                if k == rs.len() {
                    proof {
                        lemma_failover_pairs_err(msv, n_masters as nat, rsv, i + 1);
                    }
                    return Err(FailoverError::NoReplicaForMaster(master_addr));
                }
                assert(rsv[k as int] == rs@[k as int]@);
                &rs[k]
            },
            None => {
                if n_masters == 1 {
                    assert(rsv[0] == rs@[0]@);
                    &rs[0]
                } else {
                    proof {
                        lemma_failover_pairs_err(msv, n_masters as nat, rsv, i + 1);
                    }
                    return Err(FailoverError::MissingMasterNodeId(master_addr));
                }
            },
        };
        let target_addr = node_addr(target.ip.as_str(), target.port);
        if contains_string(&targets, &target_addr) {
            proof {
                lemma_failover_pairs_err(msv, n_masters as nat, rsv, i + 1);
            }
            return Err(FailoverError::TargetReused(target_addr));
        }
        let ghost old_pairs = pair_views(pairs@);
        let ghost old_targets = views(targets@);
        targets.push(target_addr.clone());
        pairs.push((master_addr, target_addr));
        assert(pair_views(pairs@) =~= old_pairs.push((addr(ms@[i as int]@.ip, ms@[i as int]@.port), addr(target@.ip, target@.port))));
        assert(views(targets@) =~= old_targets.push(addr(target@.ip, target@.port)));
        assert(seconds(pair_views(pairs@)) =~= seconds(old_pairs).push(addr(target@.ip, target@.port)));
        i = i + 1;
    }
    assert(msv.subrange(0, ms.len() as int) =~= msv);
    Ok(pairs)
}


pub proof fn lemma_first_node_found(ns: Seq<NodeView>, p: spec_fn(NodeView) -> bool)
    ensures
        first_node(ns, p) is Some ==> ns.contains(first_node(ns, p)->0) && p(first_node(ns, p)->0),
    decreases ns.len(),
{
    if ns.len() > 0 && !p(ns[0]) {
        let t = ns.drop_first();
        lemma_first_node_found(t, p);
        if let Some(x) = first_node(t, p) {
            let k = choose|k: int| 0 <= k < t.len() && t[k] == x;
            assert(ns[k + 1] == x);
        }
    } else if ns.len() > 0 {
        assert(ns[0] == ns[0]);
    }
}

/// `t` is the address of a node of `rs` that follows master id `id`.
pub open spec fn target_follows(t: Seq<char>, id: Seq<char>, rs: Seq<NodeView>) -> bool {
    exists|j: int| 0 <= j < rs.len() && #[trigger] rs[j].master_id == Some(id) && t == addr(rs[j].ip, rs[j].port)
}

/// The shape a failover plan `ps` for masters `ms` and replicas `rs` has.
pub open spec fn plan_shape(ps: Seq<(Seq<char>, Seq<char>)>, ms: Seq<NodeView>, rs: Seq<NodeView>) -> bool {
    &&& ps.len() == ms.len()
    &&& forall|k: int| 0 <= k < ps.len() ==> #[trigger] ps[k].0 == addr(ms[k].ip, ms[k].port)
    &&& forall|k: int| 0 <= k < ps.len() ==> addrs(rs).contains(#[trigger] ps[k].1)
    &&& forall|k: int|
        0 <= k < ps.len() ==> (#[trigger] ms[k].node_id is Some ==> target_follows(ps[k].1, ms[k].node_id->0, rs))
    &&& seconds(ps).no_duplicates()
}

proof fn lemma_failover_pairs_shape(ms: Seq<NodeView>, n: nat, rs: Seq<NodeView>)
    requires
        rs.len() > 0,
    ensures
        failover_pairs(ms, n, rs) is Ok ==> plan_shape(failover_pairs(ms, n, rs)->Ok_0, ms, rs),
    decreases ms.len(),
{
    if ms.len() == 0 {
        let ps = Seq::<(Seq<char>, Seq<char>)>::empty();
        assert(seconds(ps) =~= Seq::<Seq<char>>::empty());
    } else {
        let d = ms.drop_last();
        lemma_failover_pairs_shape(d, n, rs);
        if let Ok(ps0) = failover_pairs(d, n, rs) {
            let m = ms.last();
            if let Ok(t) = failover_target(m, n, rs) {
                let ps = ps0.push((addr(m.ip, m.port), addr(t.ip, t.port)));
                if !seconds(ps0).contains(addr(t.ip, t.port)) {
                    let ti = if m.node_id is Some {
                        lemma_first_node_found(rs, follows(m.node_id->0));
                        let j = choose|j: int| 0 <= j < rs.len() && rs[j] == t;
                        j
                    } else {
                        0
                    };
                    assert(rs[ti] == t);
                    assert(addrs(rs)[ti] == addr(t.ip, t.port));
                    assert forall|k: int| 0 <= k < ps.len() implies #[trigger] ps[k].0 == addr(ms[k].ip, ms[k].port) by {
                        if k < ps0.len() {
                            assert(ps[k] == ps0[k]);
                            assert(ms[k] == d[k]);
                        }
                    }
                    assert forall|k: int| 0 <= k < ps.len() implies addrs(rs).contains(#[trigger] ps[k].1) by {
                        if k < ps0.len() {
                            assert(ps[k] == ps0[k]);
                        }
                    }
                    assert forall|k: int| 0 <= k < ps.len() implies (#[trigger] ms[k].node_id is Some ==> target_follows(ps[k].1, ms[k].node_id->0, rs)) by {
                        if k < ps0.len() {
                            assert(ps[k] == ps0[k]);
                            assert(ms[k] == d[k]);
                        } else if ms[k].node_id is Some {
                            assert(rs[ti].master_id == Some(ms[k].node_id->0));
                        }
                    }
                    assert(seconds(ps) =~= seconds(ps0).push(addr(t.ip, t.port)));
                    let sp = seconds(ps);
                    assert forall|a: int, b: int| 0 <= a < sp.len() && 0 <= b < sp.len() && a != b implies sp[a] != sp[b] by {
                        if a < sp.len() - 1 && b < sp.len() - 1 {
                            assert(sp[a] == seconds(ps0)[a]);
                            assert(sp[b] == seconds(ps0)[b]);
                        } else if a == sp.len() - 1 {
                            assert(sp[b] == seconds(ps0)[b]);
                        } else {
                            assert(sp[a] == seconds(ps0)[a]);
                        }
                    }
                    assert(plan_shape(ps, ms, rs));
                }
            }
        }
    }
}

/// A failover plan pairs every connected managed master, in order, with a
/// distinct connected managed replica; a master that reported its node id is
/// paired with a replica that follows that id.
pub proof fn law_failover_plan_sound(masters: Seq<NodeView>, replicas: Seq<NodeView>, managed: Seq<Seq<char>>)
    ensures
        spec_select_failover_targets(masters, replicas, managed) is Ok ==> {
            let ps = spec_select_failover_targets(masters, replicas, managed)->Ok_0;
            let ms = connected_managed(masters, managed);
            let rs = connected_managed(replicas, managed);
            &&& ps.len() > 0
            &&& firsts(ps) == addrs(ms)
            &&& plan_shape(ps, ms, rs)
        },
{
    let ms = connected_managed(masters, managed);
    let rs = connected_managed(replicas, managed);
    if ms.len() > 0 && rs.len() > 0 {
        lemma_failover_pairs_shape(ms, ms.len(), rs);
        if let Ok(ps) = failover_pairs(ms, ms.len(), rs) {
            assert(firsts(ps) =~= addrs(ms));
        }
    }
}

/// The failover pairs for standby targets chosen before (`sel`), in order:
/// a target already serving as a connected master needs no failover; any
/// other must be a connected replica, paired with the connected master it
/// follows (or with the only connected master when it reports no master id).
pub open spec fn selected_pairs(sel: Seq<Seq<char>>, cms: Seq<NodeView>, replicas: Seq<NodeView>) -> Result<Seq<(Seq<char>, Seq<char>)>, FailoverErrorView>
    decreases sel.len(),
{
    if sel.len() == 0 {
        Ok(Seq::empty())
    } else {
        match selected_pairs(sel.drop_last(), cms, replicas) {
            Err(e) => Err(e),
            Ok(ps) => {
                let t = sel.last();
                match spec_parse_host_port(t, "selected failover target"@) {
                    Err(m) => Err(FailoverErrorView::InvalidTarget(m)),
                    Ok((th, tp)) => if first_node(cms, at(th, tp)) is Some {
                        Ok(ps)
                    } else {
                        match first_node(replicas, connected_at(th, tp)) {
                            None => Err(FailoverErrorView::TargetNotConnectedReplica(t)),
                            Some(r) => match r.master_id {
                                Some(mid) => match first_node(cms, has_id(mid)) {
                                    None => Err(FailoverErrorView::TargetMasterNotConnected(t, mid)),
                                    Some(m) => Ok(ps.push((addr(m.ip, m.port), t))),
                                },
                                None => if cms.len() == 1 {
                                    Ok(ps.push((addr(cms[0].ip, cms[0].port), t)))
                                } else {
                                    Err(FailoverErrorView::MissingTargetMasterId(t))
                                },
                            },
                        }
                    },
                }
            },
        }
    }
}

/// The failover pairs toward standby targets selected earlier.
pub open spec fn spec_plan_selected_failover(
    masters: Seq<NodeView>,
    replicas: Seq<NodeView>,
    managed: Seq<Seq<char>>,
    sel: Seq<Seq<char>>,
) -> Result<Seq<(Seq<char>, Seq<char>)>, FailoverErrorView> {
    let cms = connected_managed(masters, managed);
    if cms.len() == 0 {
        Err(FailoverErrorView::NoConnectedMaster)
    } else {
        selected_pairs(sel, cms, replicas)
    }
}

proof fn lemma_selected_pairs_err(sel: Seq<Seq<char>>, cms: Seq<NodeView>, rs: Seq<NodeView>, j: int)
    requires
        0 <= j <= sel.len(),
        selected_pairs(sel.subrange(0, j), cms, rs) is Err,
    ensures
        selected_pairs(sel, cms, rs) == selected_pairs(sel.subrange(0, j), cms, rs),
    decreases sel.len(),
{
    if j == sel.len() {
        assert(sel.subrange(0, j) =~= sel);
    } else {
        let d = sel.drop_last();
        assert(d.subrange(0, j) =~= sel.subrange(0, j));
        lemma_selected_pairs_err(d, cms, rs, j);
    }
}

/// Index of the first node of `ns` at `host` and `port` (connected when
/// `need_connected`), or the length of `ns`.
fn find_at(ns: &Vec<NodeInfo>, host: &String, port: u16, need_connected: bool) -> (i: usize)
    ensures
        i <= ns.len(),
        first_node(node_views(ns@), if need_connected { connected_at(host@, port) } else { at(host@, port) }) == (if i == ns.len() {
            None
        } else {
            Some(node_views(ns@)[i as int])
        }),
{
    let ghost p = if need_connected { connected_at(host@, port) } else { at(host@, port) };
    let mut i: usize = 0;
    while i < ns.len()
        invariant
            i <= ns.len(),
            p == (if need_connected { connected_at(host@, port) } else { at(host@, port) }),
            forall|k: int| 0 <= k < i ==> !p(#[trigger] node_views(ns@)[k]),
        decreases ns.len() - i,
    {
        assert(node_views(ns@)[i as int] == ns@[i as int]@);
        if ns[i].ip == *host && ns[i].port == port && (!need_connected || ns[i].connected) {
            proof {
                lemma_first_node_at(node_views(ns@), p, i as int);
            }
            return i;
        }
        i = i + 1;
    }
    proof {
        lemma_first_node_at(node_views(ns@), p, i as int);
    }
    i
}

/// Index of the first node of `ns` with node id `id`, or the length of `ns`.
fn find_id(ns: &Vec<NodeInfo>, id: &String) -> (i: usize)
    ensures
        i <= ns.len(),
        first_node(node_views(ns@), has_id(id@)) == (if i == ns.len() {
            None
        } else {
            Some(node_views(ns@)[i as int])
        }),
{
    let mut i: usize = 0;
    while i < ns.len()
        invariant
            i <= ns.len(),
            forall|k: int| 0 <= k < i ==> !has_id(id@)(#[trigger] node_views(ns@)[k]),
        decreases ns.len() - i,
    {
        assert(node_views(ns@)[i as int] == ns@[i as int]@);
        let hit = match &ns[i].node_id {
            Some(m) => *m == *id,
            None => false,
        };
        if hit {
            proof {
                lemma_first_node_at(node_views(ns@), has_id(id@), i as int);
            }
            return i;
        }
        i = i + 1;
    }
    proof {
        lemma_first_node_at(node_views(ns@), has_id(id@), i as int);
    }
    i
}

/// Plans the failovers toward the standby targets `selected` chosen in an
/// earlier step.
pub fn plan_selected_failover(topology: &ClusterNodes, managed: &Vec<String>, selected: &Vec<String>) -> (r: Result<Vec<(String, String)>, FailoverError>)
    ensures
        pairs_result_view(r) == spec_plan_selected_failover(
            node_views(topology.masters@),
            node_views(topology.replicas@),
            views(managed@),
            views(selected@),
        ),
{
    let cms = connected_managed_node_infos(&topology.masters, managed);
    let ghost cmv = node_views(cms@);
    let ghost rv = node_views(topology.replicas@);
    let ghost sv = views(selected@);
    if cms.len() == 0 {
        return Err(FailoverError::NoConnectedMaster);
    }
    let mut pairs: Vec<(String, String)> = Vec::new();
    let mut i: usize = 0;
    assert(sv.subrange(0, 0) =~= Seq::<Seq<char>>::empty());
    assert(pair_views(pairs@) =~= Seq::<(Seq<char>, Seq<char>)>::empty());
    while i < selected.len()
        invariant
            cmv == node_views(cms@),
            cmv == connected_managed(node_views(topology.masters@), views(managed@)),
            rv == node_views(topology.replicas@),
            sv == views(selected@),
            cms.len() > 0,
            i <= selected.len(),
            selected_pairs(sv.subrange(0, i as int), cmv, rv) == Ok::<
                Seq<(Seq<char>, Seq<char>)>,
                FailoverErrorView,
            >(pair_views(pairs@)),
        decreases selected.len() - i,
    {
        let ghost pre1 = sv.subrange(0, i + 1);
        assert(pre1.drop_last() =~= sv.subrange(0, i as int));
        assert(sv[i as int] == selected@[i as int]@);
        assert(pre1.last() == selected@[i as int]@);
        let target_addr = &selected[i];
        let (th, tp) = match parse_host_port(target_addr.as_str(), "selected failover target") {
            Ok(v) => v,
            Err(m) => {
                proof {
                    lemma_selected_pairs_err(sv, cmv, rv, i + 1);
                }
                return Err(FailoverError::InvalidTarget(m));
            },
        };
        let k = find_at(&cms, &th, tp, false);
        if k < cms.len() {
            i = i + 1;
        } else {
            let j = find_at(&topology.replicas, &th, tp, true);
            if j == topology.replicas.len() {
                proof {
                    lemma_selected_pairs_err(sv, cmv, rv, i + 1);
                }
                return Err(FailoverError::TargetNotConnectedReplica(target_addr.clone()));
            }
            assert(rv[j as int] == topology.replicas@[j as int]@);
            let target = &topology.replicas[j];
            let master_addr = match &target.master_id {
                Some(mid) => {
                    let mi = find_id(&cms, mid);
                    if mi == cms.len() {
                        proof {
                            lemma_selected_pairs_err(sv, cmv, rv, i + 1);
                        }
                        return Err(FailoverError::TargetMasterNotConnected(target_addr.clone(), mid.clone()));
                    }
                    assert(cmv[mi as int] == cms@[mi as int]@);
                    node_addr(cms[mi].ip.as_str(), cms[mi].port)
                },
                None => {
                    if cms.len() == 1 {
                        assert(cmv[0] == cms@[0]@);
                        node_addr(cms[0].ip.as_str(), cms[0].port)
                    } else {
                        proof {
                            lemma_selected_pairs_err(sv, cmv, rv, i + 1);
                        }
                        return Err(FailoverError::MissingTargetMasterId(target_addr.clone()));
                    }
                },
            };
            let ghost old_pairs = pair_views(pairs@);
            let t = target_addr.clone();
            pairs.push((master_addr, t));
            assert(pair_views(pairs@) =~= old_pairs.push((master_addr@, selected@[i as int]@)));
            i = i + 1;
        }
    }
    assert(sv.subrange(0, selected.len() as int) =~= sv);
    Ok(pairs)
}


// ── connecting to the cluster ────────────────────────────────────────────

/// The trimmed, non-empty pieces of `s` between commas.
pub open spec fn comma_pieces(s: Seq<char>) -> Seq<Seq<char>> {
    crate::text::nonempty_only(split_on(s, char_in(seq![','])).map_values(|p: Seq<char>| trim(p)))
}

/// The nodes a list of `host:port` entries names: an entry holding commas
/// stands for its trimmed, non-empty pieces; any other entry for itself.
pub open spec fn expand_nodes(v: Seq<Seq<char>>) -> Seq<Seq<char>>
    decreases v.len(),
{
    if v.len() == 0 {
        Seq::empty()
    } else if v.last().contains(',') {
        expand_nodes(v.drop_last()) + comma_pieces(v.last())
    } else {
        expand_nodes(v.drop_last()).push(v.last())
    }
}

fn comma_pieces_of(s: &str) -> (r: Vec<String>)
    ensures
        views(r@) == comma_pieces(s@),
{
    let seps = vec![','];
    assert(seps@ =~= seq![',']);
    let parts = split_chars(s, &seps);
    let ghost pv = views(parts@);
    let ghost tv = pv.map_values(|p: Seq<char>| trim(p));
    let mut r: Vec<String> = Vec::new();
    let mut i: usize = 0;
    while i < parts.len()
        invariant
            i <= parts.len(),
            pv == views(parts@),
            tv == pv.map_values(|p: Seq<char>| trim(p)),
            views(r@) == crate::text::nonempty_only(tv.subrange(0, i as int)),
        decreases parts.len() - i,
    {
        let t = trim_str(parts[i].as_str());
        let ghost pre1 = tv.subrange(0, i + 1);
        assert(pre1.drop_last() =~= tv.subrange(0, i as int));
        assert(pv[i as int] == parts@[i as int]@);
        assert(pre1.last() == t@);
        if t.as_str().unicode_len() > 0 {
            let ghost old = views(r@);
            r.push(t);
            assert(views(r@) =~= old.push(pre1.last()));
        }
        i = i + 1;
    }
    assert(tv.subrange(0, parts.len() as int) =~= tv);
    r
}

/// The nodes `host_ports` names, comma-separated entries split apart.
pub fn expand_host_ports(host_ports: &Vec<String>) -> (r: Vec<String>)
    ensures
        views(r@) == expand_nodes(views(host_ports@)),
{
    let mut r: Vec<String> = Vec::new();
    let mut i: usize = 0;
    while i < host_ports.len()
        invariant
            i <= host_ports.len(),
            views(r@) == expand_nodes(views(host_ports@).subrange(0, i as int)),
        decreases host_ports.len() - i,
    {
        let ghost pre1 = views(host_ports@).subrange(0, i + 1);
        assert(pre1.drop_last() =~= views(host_ports@).subrange(0, i as int));
        assert(pre1.last() == host_ports@[i as int]@);
        let hp = host_ports[i].as_str();
        if contains_char(hp, ',') {
            let pieces = comma_pieces_of(hp);
            let ghost old = views(r@);
            let mut j: usize = 0;
            while j < pieces.len()
                invariant
                    j <= pieces.len(),
                    views(r@) == old + views(pieces@).subrange(0, j as int),
                decreases pieces.len() - j,
            {
                let ghost before = views(r@);
                r.push(pieces[j].clone());
                assert(views(r@) =~= before.push(pieces@[j as int]@));
                assert(views(pieces@).subrange(0, j + 1) =~= views(pieces@).subrange(0, j as int).push(pieces@[j as int]@));
                j = j + 1;
            }
            assert(views(pieces@).subrange(0, pieces.len() as int) =~= views(pieces@));
        } else {
            let ghost old = views(r@);
            r.push(host_ports[i].clone());
            assert(views(r@) =~= old.push(host_ports@[i as int]@));
        }
        i = i + 1;
    }
    assert(views(host_ports@).subrange(0, host_ports.len() as int) =~= views(host_ports@));
    r
}

/// The URL a client connects to `host_port` with, carrying the password
/// when there is one.
pub open spec fn spec_redis_url(password: Option<Seq<char>>, host_port: Seq<char>) -> Seq<char> {
    match password {
        Some(p) => "redis://:"@ + p + "@"@ + host_port,
        None => "redis://"@ + host_port,
    }
}

pub fn redis_url(password: &Option<String>, host_port: &str) -> (r: String)
    ensures
        r@ == spec_redis_url(opt_view(*password), host_port@),
{
    match password {
        Some(p) => {
            let mut u = String::from_str("redis://:");
            u.append(p.as_str());
            u.append("@");
            u.append(host_port);
            u
        },
        None => {
            let mut u = String::from_str("redis://");
            u.append(host_port);
            u
        },
    }
}

/// How many times the topology is read before giving up: at least once.
pub fn topology_retries(requested: usize) -> (r: usize)
    ensures
        r == if requested < 1 { 1 } else { requested },
{
    if requested < 1 { 1 } else { requested }
}


/// How many times the topology is read by default.
pub const TOPOLOGY_RETRIES: usize = 60;

/// The settings of the task that runs a Redis command on the cluster and
/// reads its topology: the task, the nodes asked (`host:port`), the
/// command, the password, whether the checkpoint before a shutdown is
/// skipped, and how many times the topology is read.
#[derive(Debug)]
pub struct RedisOpTask {
    pub task_id: TaskId,
    pub redis_host_ports: Vec<String>,
    pub redis_cmd: String,
    pub password: Option<String>,
    pub skip_checkpoint: bool,
    pub topology_retries: usize,
}

impl RedisOpTask {
    /// A task that reads the topology the default number of times.
    pub fn new(
        task_id: TaskId,
        redis_host_ports: Vec<String>,
        redis_cmd: String,
        password: Option<String>,
        skip_checkpoint: bool,
    ) -> (r: RedisOpTask)
        ensures
            r.task_id == task_id,
            r.redis_host_ports == redis_host_ports,
            r.redis_cmd == redis_cmd,
            r.password == password,
            r.skip_checkpoint == skip_checkpoint,
            r.topology_retries == TOPOLOGY_RETRIES,
    {
        RedisOpTask { task_id, redis_host_ports, redis_cmd, password, skip_checkpoint, topology_retries: TOPOLOGY_RETRIES }
    }

    /// The same task reading the topology `retries` times, at least once.
    pub fn with_topology_retries(self, retries: usize) -> (r: RedisOpTask)
        ensures
            r.topology_retries == if retries < 1 { 1 } else { retries },
            r.task_id == self.task_id,
            r.redis_host_ports == self.redis_host_ports,
            r.redis_cmd == self.redis_cmd,
            r.password == self.password,
            r.skip_checkpoint == self.skip_checkpoint,
    {
        let mut t = self;
        t.topology_retries = topology_retries(retries);
        t
    }
}


/// Whether `s` holds a node at the address of `n`; nodes are the same node
/// when their ip and port agree.
pub open spec fn node_seen(s: Seq<NodeView>, n: NodeView) -> bool {
    exists|j: int| 0 <= j < s.len() && s[j].ip == n.ip && s[j].port == n.port
}

/// `acc` followed by the nodes of `v` whose address is not in it yet, each
/// address once, the first node reported at it kept.
pub open spec fn add_unique_nodes(acc: Seq<NodeView>, v: Seq<NodeView>) -> Seq<NodeView>
    decreases v.len(),
{
    if v.len() == 0 {
        acc
    } else if node_seen(add_unique_nodes(acc, v.drop_last()), v.last()) {
        add_unique_nodes(acc, v.drop_last())
    } else {
        add_unique_nodes(acc, v.drop_last()).push(v.last())
    }
}

/// The masters of all reports, each address once.
pub open spec fn merged_masters(ps: Seq<(Seq<NodeView>, Seq<NodeView>)>) -> Seq<NodeView>
    decreases ps.len(),
{
    if ps.len() == 0 {
        Seq::empty()
    } else {
        add_unique_nodes(merged_masters(ps.drop_last()), ps.last().0)
    }
}

/// The replicas of all reports, each address once.
pub open spec fn merged_replicas(ps: Seq<(Seq<NodeView>, Seq<NodeView>)>) -> Seq<NodeView>
    decreases ps.len(),
{
    if ps.len() == 0 {
        Seq::empty()
    } else {
        add_unique_nodes(merged_replicas(ps.drop_last()), ps.last().1)
    }
}

/// No two nodes of `s` share an address.
pub open spec fn addresses_distinct(s: Seq<NodeView>) -> bool {
    forall|i: int, j: int| 0 <= i < j < s.len() ==> !(#[trigger] s[i].ip == #[trigger] s[j].ip && s[i].port == s[j].port)
}

proof fn lemma_add_unique_nodes(acc: Seq<NodeView>, v: Seq<NodeView>)
    requires
        addresses_distinct(acc),
    ensures
        addresses_distinct(add_unique_nodes(acc, v)),
        add_unique_nodes(acc, v).len() >= acc.len(),
        forall|i: int| 0 <= i < acc.len() ==> add_unique_nodes(acc, v)[i] == acc[i],
        forall|k: int| 0 <= k < v.len() ==> node_seen(add_unique_nodes(acc, v), #[trigger] v[k]),
    decreases v.len(),
{
    if v.len() > 0 {
        let p = v.drop_last();
        lemma_add_unique_nodes(acc, p);
        let a = add_unique_nodes(acc, p);
        let r = add_unique_nodes(acc, v);
        if !node_seen(a, v.last()) {
            assert forall|i: int, j: int| 0 <= i < j < r.len() implies !(#[trigger] r[i].ip == #[trigger] r[j].ip && r[i].port == r[j].port) by {
                assert(r[i] == a[i]);
                if j < a.len() {
                    assert(r[j] == a[j]);
                } else {
                    assert(r[j] == v.last());
                }
            }
        }
        assert forall|k: int| 0 <= k < v.len() implies node_seen(r, #[trigger] v[k]) by {
            if k < p.len() {
                assert(p[k] == v[k]);
                assert(node_seen(a, p[k]));
                let j = choose|j: int| 0 <= j < a.len() && a[j].ip == p[k].ip && a[j].port == p[k].port;
                if !node_seen(a, v.last()) {
                    assert(r[j] == a[j]);
                }
            } else if !node_seen(a, v.last()) {
                assert(r[a.len() as int] == v.last());
            }
        }
    }
}

/// The topology a query reports names each address once, and every master
/// and replica any node reported is at one of its addresses.
pub proof fn law_topology_addresses_once(ps: Seq<(Seq<NodeView>, Seq<NodeView>)>)
    ensures
        addresses_distinct(merged_masters(ps)),
        addresses_distinct(merged_replicas(ps)),
        forall|p: int, k: int| 0 <= p < ps.len() && 0 <= k < ps[p].0.len() ==> node_seen(merged_masters(ps), #[trigger] ps[p].0[k]),
        forall|p: int, k: int| 0 <= p < ps.len() && 0 <= k < ps[p].1.len() ==> node_seen(merged_replicas(ps), #[trigger] ps[p].1[k]),
    decreases ps.len(),
{
    if ps.len() > 0 {
        let q = ps.drop_last();
        law_topology_addresses_once(q);
        lemma_add_unique_nodes(merged_masters(q), ps.last().0);
        lemma_add_unique_nodes(merged_replicas(q), ps.last().1);
        let mm = merged_masters(ps);
        let mr = merged_replicas(ps);
        assert forall|p: int, k: int| 0 <= p < ps.len() && 0 <= k < ps[p].0.len() implies node_seen(mm, #[trigger] ps[p].0[k]) by {
            if p < q.len() {
                assert(q[p] == ps[p]);
                assert(node_seen(merged_masters(q), q[p].0[k]));
                let j = choose|j: int| 0 <= j < merged_masters(q).len() && merged_masters(q)[j].ip == q[p].0[k].ip && merged_masters(q)[j].port == q[p].0[k].port;
                assert(mm[j] == merged_masters(q)[j]);
            } else {
                assert(ps[p] == ps.last());
            }
        }
        assert forall|p: int, k: int| 0 <= p < ps.len() && 0 <= k < ps[p].1.len() implies node_seen(mr, #[trigger] ps[p].1[k]) by {
            if p < q.len() {
                assert(q[p] == ps[p]);
                assert(node_seen(merged_replicas(q), q[p].1[k]));
                let j = choose|j: int| 0 <= j < merged_replicas(q).len() && merged_replicas(q)[j].ip == q[p].1[k].ip && merged_replicas(q)[j].port == q[p].1[k].port;
                assert(mr[j] == merged_replicas(q)[j]);
            } else {
                assert(ps[p] == ps.last());
            }
        }
    }
}

pub open spec fn topology_views(v: Seq<ClusterNodes>) -> Seq<(Seq<NodeView>, Seq<NodeView>)> {
    v.map_values(|c: ClusterNodes| c@)
}

/// Appends to `acc` the nodes of `v` at an address it does not hold yet.
fn add_unique(acc: &mut Vec<NodeInfo>, v: &Vec<NodeInfo>)
    ensures
        node_views(final(acc)@) == add_unique_nodes(node_views(old(acc)@), node_views(v@)),
{
    let ghost start = node_views(acc@);
    let ghost vv = node_views(v@);
    let mut i: usize = 0;
    while i < v.len()
        invariant
            i <= v.len(),
            vv == node_views(v@),
            node_views(acc@) == add_unique_nodes(start, vv.subrange(0, i as int)),
        decreases v.len() - i,
    {
        let ghost cur = node_views(acc@);
        assert(vv.subrange(0, i + 1).drop_last() =~= vv.subrange(0, i as int));
        assert(vv.subrange(0, i + 1).last() == v@[i as int]@);
        let mut found = false;
        let mut j: usize = 0;
        while j < acc.len()
            invariant
                j <= acc.len(),
                i < v.len(),
                cur == node_views(acc@),
                found <==> exists|k: int| 0 <= k < j && cur[k].ip == v@[i as int]@.ip && cur[k].port == v@[i as int]@.port,
            decreases acc.len() - j,
        {
            assert(cur[j as int] == acc@[j as int]@);
            if acc[j].port == v[i].port && acc[j].ip == v[i].ip {
                found = true;
            }
            j = j + 1;
        }
        if !found {
            acc.push(v[i].duplicate());
            assert(node_views(acc@) =~= cur.push(v@[i as int]@));
        }
        i = i + 1;
    }
    assert(vv.subrange(0, v.len() as int) =~= vv);
}

/// The message of a topology query that found no master and no error.
pub open spec fn no_master_reported() -> Seq<char> {
    "cluster topology query did not return any master"@
}

/// The topology the task reports from the nodes' answers `parts`: their
/// masters and replicas, each address once, the first node reported at it
/// kept. When no master was reported it fails, with the last error met
/// while querying if there was one.
pub fn topology_result(parts: &Vec<ClusterNodes>, last_error: Option<String>) -> (r: Result<ClusterNodes, String>)
    ensures
        merged_masters(topology_views(parts@)).len() == 0 ==> (r matches Err(e) && e@ == (match last_error {
            Some(m) => m@,
            None => no_master_reported(),
        })),
        merged_masters(topology_views(parts@)).len() > 0 ==> (r matches Ok(c) && c@ == (merged_masters(topology_views(parts@)), merged_replicas(topology_views(parts@)))),
{
    let ghost pv = topology_views(parts@);
    let mut masters: Vec<NodeInfo> = Vec::new();
    let mut replicas: Vec<NodeInfo> = Vec::new();
    let mut i: usize = 0;
    while i < parts.len()
        invariant
            i <= parts.len(),
            pv == topology_views(parts@),
            node_views(masters@) == merged_masters(pv.subrange(0, i as int)),
            node_views(replicas@) == merged_replicas(pv.subrange(0, i as int)),
        decreases parts.len() - i,
    {
        assert(pv.subrange(0, i + 1).drop_last() =~= pv.subrange(0, i as int));
        assert(pv.subrange(0, i + 1).last() == parts@[i as int]@);
        add_unique(&mut masters, &parts[i].masters);
        add_unique(&mut replicas, &parts[i].replicas);
        i = i + 1;
    }
    assert(pv.subrange(0, parts.len() as int) =~= pv);
    if masters.len() == 0 {
        match last_error {
            Some(m) => Err(m),
            None => Err(String::from_str("cluster topology query did not return any master")),
        }
    } else {
        Ok(ClusterNodes { masters, replicas })
    }
}

/// How many times a checkpoint still running is asked about again.
pub const MAX_CKPT_RETRIES: usize = 500;

/// A checkpoint's status as a node reports it.
#[derive(Debug, Clone, Copy, PartialEq, Eq, Structural)]
pub enum CkptStatus {
    Finished,
    Running,
    Failed,
    /// A status this tool does not know.
    Unknown,
}

/// What follows a checkpoint status report.
#[derive(Debug)]
pub enum CkptStep {
    /// The checkpoint finished.
    Finished,
    /// Ask again after the retry delay; this many retries made.
    Retry(usize),
    /// Give up, with this message.
    Fail(String),
}

/// The gRPC address of the node listening at `host:port`: its port plus
/// 10001.
pub open spec fn spec_ckpt_url(host: Seq<char>, port: u16) -> Seq<char> {
    "http://"@ + addr(host, (port + 10001) as u16)
}

/// The gRPC address checkpoints of the master at `host:port` are triggered
/// and queried at.
pub fn ckpt_url(host: &str, port: u16) -> (r: String)
    requires
        port + 10001 <= u16::MAX,
    ensures
        r@ == spec_ckpt_url(host@, port),
{
    let mut u = String::from_str("http://");
    let a = node_addr(host, port + 10001);
    u.append(a.as_str());
    u
}

/// The step after the node at `url` reported `status`, `retries` retries
/// having been made of at most `max_retries`.
pub fn ckpt_query_step(status: CkptStatus, retries: usize, max_retries: usize, url: &str) -> (r: CkptStep)
    ensures
        status == CkptStatus::Finished ==> r is Finished,
        status == CkptStatus::Running && retries < max_retries ==> (r matches CkptStep::Retry(n) && n == retries + 1),
        status == CkptStatus::Running && retries >= max_retries ==> (r matches CkptStep::Fail(m) && m@ == "Checkpoint is still running after max retries for "@ + url@),
        status == CkptStatus::Failed ==> (r matches CkptStep::Fail(m) && m@ == "Checkpoint failed for "@ + url@),
        status == CkptStatus::Unknown ==> (r matches CkptStep::Fail(m) && m@ == "Unexpected checkpoint status for "@ + url@),
{
    match status {
        CkptStatus::Finished => CkptStep::Finished,
        CkptStatus::Running => {
            if retries >= max_retries {
                let mut m = String::from_str("Checkpoint is still running after max retries for ");
                m.append(url);
                CkptStep::Fail(m)
            } else {
                CkptStep::Retry(retries + 1)
            }
        },
        CkptStatus::Failed => {
            let mut m = String::from_str("Checkpoint failed for ");
            m.append(url);
            CkptStep::Fail(m)
        },
        CkptStatus::Unknown => {
            let mut m = String::from_str("Unexpected checkpoint status for ");
            m.append(url);
            CkptStep::Fail(m)
        },
    }
}

/// How the task queries the topology.
#[derive(Debug, Clone, Copy, PartialEq, Eq, Structural)]
pub enum TopologyQuery {
    /// `INFO SERVER` on the one node named.
    Single,
    /// `CLUSTER NODES` on each node named until one answers.
    Cluster,
    /// The task's command is not a topology query.
    Unsupported,
}

impl RedisOpTask {
    /// How the task queries the topology: only the `topology` command (in
    /// any case) is supported, on a single node when exactly one is named
    /// (comma-separated entries split apart).
    pub fn query_kind(&self) -> (r: TopologyQuery)
        ensures
            crate::text::str_lowercase(self.task_id.cmd@) != "topology"@ ==> r == TopologyQuery::Unsupported,
            crate::text::str_lowercase(self.task_id.cmd@) == "topology"@ && expand_nodes(views(self.redis_host_ports@)).len() == 1 ==> r == TopologyQuery::Single,
            crate::text::str_lowercase(self.task_id.cmd@) == "topology"@ && expand_nodes(views(self.redis_host_ports@)).len() != 1 ==> r == TopologyQuery::Cluster,
    {
        let low = crate::text::lowercase(self.task_id.cmd.as_str());
        if !crate::text::str_eq(low.as_str(), "topology") {
            return TopologyQuery::Unsupported;
        }
        let nodes = expand_host_ports(&self.redis_host_ports);
        if nodes.len() == 1 {
            TopologyQuery::Single
        } else {
            TopologyQuery::Cluster
        }
    }
}


/// A `CLUSTER NODES` line names a master exactly when its flags (the third
/// word) do not contain `slave`: `myself,master`, `master,fail?` and the
/// like are masters, and only a line flagged `slave` is a replica. The node
/// is at the address of the second word.
pub proof fn law_node_role_from_flags(line: Seq<char>)
    ensures
        forall|m: bool, n: NodeView| #[trigger] parse_node_line(line) == Some((m, n)) ==> {
            &&& split_whitespace(line).len() >= 8
            &&& (m <==> !contains_seq(split_whitespace(line)[2], "slave"@))
            &&& n.node_id == Some(split_whitespace(line)[0])
        },
{
}

} // verus!
