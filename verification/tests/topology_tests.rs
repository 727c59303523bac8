use cluster_mgr::topology::{
    ClusterNodes, FailoverError, NodeInfo, TopologyError, connected_managed_node_infos, connected_managed_nodes,
    hosts_from_host_ports, node_addr, ordered_without, parse_cluster_nodes, parse_cluster_nodes_single,
    parse_host_port, plan_selected_failover, select_connected_failover_targets, strip_surrounding_quotes,
    RedisOpTask, TOPOLOGY_RETRIES, topology_result, ckpt_url, ckpt_query_step, CkptStatus, CkptStep,
    TopologyQuery, MAX_CKPT_RETRIES,
};
use cluster_mgr::task::TaskId;

fn node(ip: &str, port: u16, connected: bool, id: Option<&str>, master: Option<&str>) -> NodeInfo {
    NodeInfo {
        ip: ip.to_string(),
        port,
        connected,
        node_id: id.map(|s| s.to_string()),
        master_id: master.map(|s| s.to_string()),
    }
}

fn strings(v: &[&str]) -> Vec<String> {
    v.iter().map(|s| s.to_string()).collect()
}

#[test]
fn cluster_nodes_output_splits_masters_and_replicas() {
    let text = "07c37 127.0.0.1:30004@31004 slave e7d1e 0 1426238317239 4 connected\n\
                67ed2 127.0.0.1:30002@31002 master - 0 1426238316232 2 connected 5461-10922\n\
                short line\n";
    let parsed = parse_cluster_nodes(text);
    assert_eq!(parsed.len(), 1);
    let c = &parsed[0];
    assert_eq!(c.masters.len(), 1);
    assert_eq!(c.masters[0].ip, "127.0.0.1");
    assert_eq!(c.masters[0].port, 30002);
    assert_eq!(c.masters[0].node_id.as_deref(), Some("67ed2"));
    assert_eq!(c.masters[0].master_id, None);
    assert!(c.masters[0].connected);
    assert_eq!(c.replicas.len(), 1);
    assert_eq!(c.replicas[0].port, 30004);
    assert_eq!(c.replicas[0].master_id.as_deref(), Some("e7d1e"));
}

#[test]
fn cluster_nodes_output_without_nodes_is_empty() {
    assert!(parse_cluster_nodes("").is_empty());
    assert!(parse_cluster_nodes("nothing here\n").is_empty());
}

#[test]
fn disconnected_node_is_reported_disconnected() {
    let text = "a 10.0.0.1:7000 master - 0 0 1 disconnected\n";
    let parsed = parse_cluster_nodes(text);
    assert!(!parsed[0].masters[0].connected);
}

#[test]
fn info_server_reply_gives_single_master() {
    let c = parse_cluster_nodes_single("# Server\r\ntcp_port: 6380\r\n", "10.0.0.9:6379").unwrap();
    assert_eq!(c.masters.len(), 1);
    assert_eq!(c.masters[0].ip, "10.0.0.9");
    assert_eq!(c.masters[0].port, 6380);
    assert!(c.replicas.is_empty());
    let d = parse_cluster_nodes_single("# Server\n", "10.0.0.9:6379").unwrap();
    assert_eq!(d.masters[0].port, 6379);
    assert!(matches!(parse_cluster_nodes_single("", "10.0.0.9"), Err(TopologyError::NoTcpPort)));
}

#[test]
fn quotes_are_stripped_once() {
    assert_eq!(strip_surrounding_quotes("\"abc\""), "abc");
    assert_eq!(strip_surrounding_quotes("abc"), "abc");
    assert_eq!(strip_surrounding_quotes("\"\""), "");
}

#[test]
fn node_addresses() {
    assert_eq!(node_addr("10.0.0.1", 6379), "10.0.0.1:6379");
    assert_eq!(parse_host_port("10.0.0.1:6379", "target node").unwrap(), ("10.0.0.1".to_string(), 6379));
    assert_eq!(parse_host_port("abc", "old leader").unwrap_err(), "invalid old leader host:port: 'abc'");
    assert_eq!(
        parse_host_port(" :80", "new leader").unwrap_err(),
        "invalid new leader host:port with empty host: ' :80'"
    );
    assert_eq!(parse_host_port("h:x", "restart node").unwrap_err(), "invalid restart node port in host:port: 'h:x'");
    assert_eq!(parse_host_port("h:70000", "n").unwrap_err(), "invalid n port in host:port: 'h:70000'");
}

#[test]
fn hosts_are_listed_once_in_order() {
    let hosts = hosts_from_host_ports(&strings(&["a:1", "b:2", "a:3", "c"]));
    assert_eq!(hosts, strings(&["a", "b"]));
}

#[test]
fn ordered_without_drops_excluded_and_repeats() {
    let r = ordered_without(strings(&["a:1", "b:2", "a:1", "c:3"]), &strings(&["b:2"]));
    assert_eq!(r, strings(&["a:1", "c:3"]));
}

#[test]
fn connected_managed_filtering() {
    let nodes = vec![
        node("10.0.0.1", 7000, true, None, None),
        node("10.0.0.2", 7000, false, None, None),
        node("10.0.0.3", 7000, true, None, None),
    ];
    let managed = strings(&["10.0.0.1:7000", "10.0.0.2:7000"]);
    assert_eq!(connected_managed_nodes(&nodes, &managed), strings(&["10.0.0.1:7000"]));
    assert_eq!(connected_managed_node_infos(&nodes, &managed).len(), 1);
}

fn two_shard_topology() -> ClusterNodes {
    ClusterNodes {
        masters: vec![
            node("10.0.0.1", 7000, true, Some("M1"), None),
            node("10.0.0.2", 7000, true, Some("M2"), None),
        ],
        replicas: vec![
            node("10.0.0.3", 7000, true, Some("R2"), Some("M2")),
            node("10.0.0.4", 7000, true, Some("R1"), Some("M1")),
        ],
    }
}

fn all_managed() -> Vec<String> {
    strings(&["10.0.0.1:7000", "10.0.0.2:7000", "10.0.0.3:7000", "10.0.0.4:7000"])
}

#[test]
fn failover_targets_follow_their_masters() {
    let pairs = select_connected_failover_targets(&two_shard_topology(), &all_managed()).unwrap();
    assert_eq!(
        pairs,
        vec![
            ("10.0.0.1:7000".to_string(), "10.0.0.4:7000".to_string()),
            ("10.0.0.2:7000".to_string(), "10.0.0.3:7000".to_string()),
        ]
    );
}

#[test]
fn failover_target_errors() {
    let mut t = two_shard_topology();
    t.replicas.clear();
    assert!(matches!(select_connected_failover_targets(&t, &all_managed()), Err(FailoverError::NoConnectedReplica)));
    let mut u = two_shard_topology();
    u.masters.clear();
    assert!(matches!(select_connected_failover_targets(&u, &all_managed()), Err(FailoverError::NoConnectedMaster)));
    let mut v = two_shard_topology();
    v.replicas.remove(1);
    match select_connected_failover_targets(&v, &all_managed()) {
        Err(FailoverError::NoReplicaForMaster(a)) => assert_eq!(a, "10.0.0.1:7000"),
        _ => panic!("expected NoReplicaForMaster"),
    }
    let w = ClusterNodes {
        masters: vec![node("10.0.0.1", 7000, true, None, None), node("10.0.0.2", 7000, true, None, None)],
        replicas: vec![node("10.0.0.3", 7000, true, None, None)],
    };
    match select_connected_failover_targets(&w, &all_managed()) {
        Err(FailoverError::MissingMasterNodeId(a)) => assert_eq!(a, "10.0.0.1:7000"),
        _ => panic!("expected MissingMasterNodeId"),
    }
}

#[test]
fn single_master_without_id_takes_first_replica() {
    let t = ClusterNodes {
        masters: vec![node("10.0.0.1", 7000, true, None, None)],
        replicas: vec![node("10.0.0.3", 7000, true, None, None), node("10.0.0.4", 7000, true, None, None)],
    };
    let pairs = select_connected_failover_targets(&t, &all_managed()).unwrap();
    assert_eq!(pairs, vec![("10.0.0.1:7000".to_string(), "10.0.0.3:7000".to_string())]);
}

#[test]
fn reused_target_is_refused() {
    let t = ClusterNodes {
        masters: vec![node("10.0.0.1", 7000, true, Some("M"), None), node("10.0.0.2", 7000, true, Some("M"), None)],
        replicas: vec![node("10.0.0.3", 7000, true, None, Some("M"))],
    };
    match select_connected_failover_targets(&t, &all_managed()) {
        Err(FailoverError::TargetReused(a)) => assert_eq!(a, "10.0.0.3:7000"),
        _ => panic!("expected TargetReused"),
    }
}

#[test]
fn selected_targets_pair_with_the_masters_they_follow() {
    let pairs = plan_selected_failover(&two_shard_topology(), &all_managed(), &strings(&["10.0.0.4:7000"])).unwrap();
    assert_eq!(pairs, vec![("10.0.0.1:7000".to_string(), "10.0.0.4:7000".to_string())]);
    let none = plan_selected_failover(&two_shard_topology(), &all_managed(), &strings(&["10.0.0.1:7000"])).unwrap();
    assert!(none.is_empty());
    match plan_selected_failover(&two_shard_topology(), &all_managed(), &strings(&["10.0.0.9:7000"])) {
        Err(FailoverError::TargetNotConnectedReplica(a)) => assert_eq!(a, "10.0.0.9:7000"),
        _ => panic!("expected TargetNotConnectedReplica"),
    }
    assert!(matches!(
        plan_selected_failover(&two_shard_topology(), &all_managed(), &strings(&["bad"])),
        Err(FailoverError::InvalidTarget(_))
    ));
}

#[test]
fn redis_op_task_retries_topology_at_least_once() {
    let t = RedisOpTask::new(
        TaskId::new("stop", "redis_op", "_local"),
        vec!["10.0.0.1:6379".to_string()],
        "SHUTDOWN".to_string(),
        Some("pw".to_string()),
        false,
    );
    assert_eq!(t.topology_retries, TOPOLOGY_RETRIES);
    assert_eq!(t.topology_retries, 60);
    let t = t.with_topology_retries(0);
    assert_eq!(t.topology_retries, 1);
    let t = t.with_topology_retries(5);
    assert_eq!(t.topology_retries, 5);
    assert_eq!(t.redis_cmd, "SHUTDOWN");
    assert_eq!(t.password.as_deref(), Some("pw"));
}

#[test]
fn topology_result_merges_nodes_by_address() {
    let part = ClusterNodes {
        masters: vec![
            node("10.0.0.1", 6379, true, None, None),
            node("10.0.0.2", 6379, true, None, None),
            node("10.0.0.1", 6379, false, None, None),
        ],
        replicas: vec![node("10.0.0.3", 6379, true, None, None)],
    };
    let second = ClusterNodes { masters: vec![node("10.0.0.2", 6379, false, None, None)], replicas: vec![node("10.0.0.3", 6379, false, None, None)] };
    let merged = topology_result(&vec![part, second], None).unwrap();
    let masters: Vec<(String, u16, bool)> = merged.masters.iter().map(|n| (n.ip.clone(), n.port, n.connected)).collect();
    assert_eq!(masters, vec![("10.0.0.1".to_string(), 6379, true), ("10.0.0.2".to_string(), 6379, true)]);
    assert_eq!(merged.replicas.len(), 1);
    assert!(merged.replicas[0].connected);
}

#[test]
fn topology_result_without_master_fails() {
    let only_replicas = ClusterNodes { masters: vec![], replicas: vec![node("10.0.0.3", 6379, true, None, None)] };
    assert_eq!(
        topology_result(&vec![only_replicas], None).err(),
        Some("cluster topology query did not return any master".to_string())
    );
    assert_eq!(
        topology_result(&Vec::new(), Some("Connection refused".to_string())).err(),
        Some("Connection refused".to_string())
    );
}

#[test]
fn checkpoint_polling_steps() {
    let url = ckpt_url("10.0.0.1", 6379);
    assert_eq!(url, "http://10.0.0.1:16380");
    assert!(matches!(ckpt_query_step(CkptStatus::Finished, 3, MAX_CKPT_RETRIES, &url), CkptStep::Finished));
    assert!(matches!(ckpt_query_step(CkptStatus::Running, 3, MAX_CKPT_RETRIES, &url), CkptStep::Retry(4)));
    match ckpt_query_step(CkptStatus::Running, 500, MAX_CKPT_RETRIES, &url) {
        CkptStep::Fail(m) => assert_eq!(m, "Checkpoint is still running after max retries for http://10.0.0.1:16380"),
        other => panic!("unexpected {:?}", other),
    }
    match ckpt_query_step(CkptStatus::Failed, 0, MAX_CKPT_RETRIES, &url) {
        CkptStep::Fail(m) => assert_eq!(m, "Checkpoint failed for http://10.0.0.1:16380"),
        other => panic!("unexpected {:?}", other),
    }
    match ckpt_query_step(CkptStatus::Unknown, 0, MAX_CKPT_RETRIES, &url) {
        CkptStep::Fail(m) => assert_eq!(m, "Unexpected checkpoint status for http://10.0.0.1:16380"),
        other => panic!("unexpected {:?}", other),
    }
}

#[test]
fn topology_query_kind_follows_command_and_node_count() {
    let task = |cmd: &str, nodes: &[&str]| RedisOpTask::new(
        TaskId::new(cmd, "check", "_local"),
        nodes.iter().map(|s| s.to_string()).collect(),
        "cluster topology".to_string(),
        None,
        true,
    );
    assert_eq!(task("topology", &["h:1"]).query_kind(), TopologyQuery::Single);
    assert_eq!(task("Topology", &["h:1,h:2"]).query_kind(), TopologyQuery::Cluster);
    assert_eq!(task("topology", &["h:1", "h:2"]).query_kind(), TopologyQuery::Cluster);
    assert_eq!(task("stop", &["h:1"]).query_kind(), TopologyQuery::Unsupported);
}

#[test]
fn topology_task_uses_standby_startup_node_when_master_is_down() {
    // The standby answered CLUSTER NODES after the first startup node refused.
    let topology = "0000000000000000000000000000000000000001 127.0.0.1:6389@0 master - 0 0 0 connected 0-16383\n\
                    0000000000000000000000000000000000000000 127.0.0.1:6379@0 slave 0000000000000000000000000000000000000001 0 0 0 disconnected";
    let task = RedisOpTask::new(
        TaskId::new("topology", "wait-current-master", "_local"),
        vec!["127.0.0.1:1".to_string(), "127.0.0.1:6389".to_string()],
        "cluster topology".to_string(),
        None,
        true,
    );
    assert_eq!(task.query_kind(), TopologyQuery::Cluster);
    let parsed = parse_cluster_nodes(topology);
    let result = topology_result(&parsed, Some("Connection refused".to_string()));
    let nodes = result.expect("topology readiness should pass when any startup node reports a master");
    let output: Vec<String> = nodes.masters.iter().map(|n| format!("{}:{}", n.ip, n.port)).collect();
    assert!(output.iter().any(|o| o.contains("6389")), "expected current master in {:?}", output);
}
