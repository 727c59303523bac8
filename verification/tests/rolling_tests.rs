use cluster_mgr::rolling::{
    DeployTopology, FailoverPlan, RestartAction, RollingUpgrade, Step, StepError, StepKind, StopTxNodes, UpgradeCommand,
    UpgradeContext, VerifyVersion, build_config_restart_steps, build_failover_pairs, build_start_node_tasks,
    build_stop_node_tasks, build_upgrade_steps, friendly_step_name, restart_sequence, wait_node_tasks,
    wait_replica_tasks,
};
use cluster_mgr::topology::{ClusterNodes, FailoverError, NodeInfo};

fn strings(v: &[&str]) -> Vec<String> {
    v.iter().map(|s| s.to_string()).collect()
}

fn deploy(standby: bool) -> DeployTopology {
    DeployTopology {
        cluster_name: "kv".to_string(),
        tx_host_ports: strings(&["10.0.0.1:7000", "10.0.0.2:7000"]),
        standby_host_ports: if standby { Some(strings(&["10.0.0.3:7000", "10.0.0.4:7000"])) } else { None },
        voter_host_ports: None,
        has_log_service: true,
        redis_password: Some("configured".to_string()),
    }
}

fn node(ip: &str, id: &str, master: Option<&str>) -> NodeInfo {
    NodeInfo {
        ip: ip.to_string(),
        port: 7000,
        connected: true,
        node_id: Some(id.to_string()),
        master_id: master.map(|s| s.to_string()),
    }
}

fn topology() -> ClusterNodes {
    ClusterNodes {
        masters: vec![node("10.0.0.1", "M1", None), node("10.0.0.2", "M2", None)],
        replicas: vec![node("10.0.0.3", "R2", Some("M2")), node("10.0.0.4", "R1", Some("M1"))],
    }
}

fn update_ctx(standby: bool, skip_log_restart: bool) -> UpgradeContext {
    UpgradeContext::new(&UpgradeCommand::Update { password: None, force: true, skip_log_restart }, deploy(standby))
}

#[test]
fn context_takes_flags_and_password() {
    let c = update_ctx(true, false);
    assert_eq!(c.cluster, "kv");
    assert!(c.force);
    assert_eq!(c.redis_password.as_deref(), Some("configured"));
    let d = UpgradeContext::new(&UpgradeCommand::UpdateConf { password: Some("cli".to_string()) }, deploy(false));
    assert_eq!(d.redis_password.as_deref(), Some("cli"));
    assert!(!d.force);
    let e = UpgradeContext::new(&UpgradeCommand::Other, deploy(false));
    assert_eq!(e.redis_password, None);
    assert!(c.has_standby());
    assert!(!d.has_standby());
    assert!(!c.has_voter());
    assert!(c.has_log());
    assert_eq!(
        c.redis_cluster_startup_nodes(),
        strings(&["10.0.0.1:7000", "10.0.0.2:7000", "10.0.0.3:7000", "10.0.0.4:7000"])
    );
    assert!(d.standby_host_ports().is_empty());
    assert!(c.first_batch_nodes().is_empty());
}

#[test]
fn upgrade_steps_with_standby() {
    let steps = build_upgrade_steps(&update_ctx(true, false));
    assert_eq!(
        steps,
        vec![
            StepKind::DownloadAndExtract,
            StepKind::UploadToAllNodes,
            StepKind::SelectStandbyForFailover,
            StepKind::RestartSelectedStandby,
            StepKind::FailoverToStandby,
            StepKind::StopLog,
            StepKind::StartLogAndWait,
            StepKind::RestartNonLeaderNodes,
            StepKind::VerifyVersion,
        ]
    );
}

#[test]
fn upgrade_steps_without_standby_skipping_log() {
    let steps = build_upgrade_steps(&update_ctx(false, true));
    assert_eq!(
        steps,
        vec![
            StepKind::DownloadAndExtract,
            StepKind::UploadToAllNodes,
            StepKind::StopTxNodes,
            StepKind::StartTx,
            StepKind::VerifyVersion,
        ]
    );
}

#[test]
fn config_restart_steps() {
    let steps = build_config_restart_steps(&update_ctx(true, false));
    assert_eq!(
        steps,
        vec![StepKind::StopStandbyOnly, StepKind::FailoverAndStopOldMaster, StepKind::StartTx, StepKind::WaitTxReplicaReady]
    );
}

#[test]
fn step_names() {
    assert_eq!(StepKind::FailoverToStandby.name(), "FailoverToStandby");
    assert_eq!(StopTxNodes::new(update_ctx(false, false)).name(), "StopTxNodes");
    assert_eq!(VerifyVersion::new(update_ctx(false, false)).kind(), StepKind::VerifyVersion);
    assert_eq!(friendly_step_name("StopTxNodes"), "Move traffic away from the current master");
    assert_eq!(friendly_step_name("VerifyVersion"), "Verify upgraded version");
    assert_eq!(friendly_step_name("FailoverToStandby"), "FailoverToStandby");
    let r = RollingUpgrade::new(vec![StepKind::StartTx], update_ctx(false, false));
    assert_eq!(r.steps, vec![StepKind::StartTx]);
}

#[test]
fn selecting_standbys_splits_nodes_into_leaders_and_the_rest() {
    let mut c = update_ctx(true, false);
    let pairs = c.plan_select_standby_for_failover(&topology()).unwrap();
    assert_eq!(
        pairs,
        vec![
            ("10.0.0.1:7000".to_string(), "10.0.0.4:7000".to_string()),
            ("10.0.0.2:7000".to_string(), "10.0.0.3:7000".to_string()),
        ]
    );
    let leaders = c.temporary_leader_nodes();
    let rest = c.restart_nodes();
    assert_eq!(leaders, strings(&["10.0.0.4:7000", "10.0.0.3:7000"]));
    assert_eq!(rest, strings(&["10.0.0.1:7000", "10.0.0.2:7000"]));
    assert_eq!(c.second_batch_nodes(), rest);
    for n in c.managed_tx_and_standby_nodes() {
        assert!(leaders.contains(&n) != rest.contains(&n));
    }
}

#[test]
fn failover_to_chosen_standbys() {
    let mut c = update_ctx(true, false);
    c.plan_select_standby_for_failover(&topology()).unwrap();
    match c.plan_failover_to_standby(&topology()).unwrap() {
        FailoverPlan::Failover(ps) => assert_eq!(ps.len(), 2),
        _ => panic!("expected failovers"),
    }
    let promoted = ClusterNodes {
        masters: vec![node("10.0.0.4", "R1", None), node("10.0.0.3", "R2", None)],
        replicas: vec![node("10.0.0.1", "M1", Some("R1")), node("10.0.0.2", "M2", Some("R2"))],
    };
    match c.plan_failover_to_standby(&promoted).unwrap() {
        FailoverPlan::WaitForMasters(v) => assert_eq!(v, strings(&["10.0.0.4:7000", "10.0.0.3:7000"])),
        _ => panic!("expected to wait"),
    }
    let mut plain = update_ctx(false, false);
    assert!(matches!(plain.plan_failover_to_standby(&topology()).unwrap(), FailoverPlan::Skip));
}

#[test]
fn failover_to_standby_without_choice_chooses_now() {
    let mut c = update_ctx(true, false);
    let empty = ClusterNodes { masters: vec![], replicas: vec![] };
    assert!(matches!(c.plan_failover_to_standby(&empty), Err(FailoverError::NoConnectedMaster)));
    assert!(c.temporary_leader_nodes().is_empty());
    assert!(matches!(c.plan_failover_to_standby(&topology()).unwrap(), FailoverPlan::Failover(_)));
    assert_eq!(c.temporary_leader_nodes().len(), 2);
}

#[test]
fn config_restart_decisions() {
    let mut c = update_ctx(true, false);
    let stopped = c.plan_stop_standby_only(&topology()).unwrap();
    assert_eq!(stopped, strings(&["10.0.0.3:7000", "10.0.0.4:7000"]));
    assert_eq!(c.first_batch_nodes(), stopped);
    let round = c.plan_failover_and_stop_old_master(&topology()).unwrap().unwrap();
    assert_eq!(round.label, "failover-stop-master");
    assert_eq!(round.failover, strings(&["10.0.0.1:7000", "10.0.0.2:7000"]));
    assert_eq!(c.second_batch_nodes(), round.failover);
    assert_eq!(c.replica_wait_source(&topology()).unwrap(), Some("10.0.0.1:7000".to_string()));
    let empty = ClusterNodes { masters: vec![], replicas: vec![] };
    assert!(matches!(c.plan_stop_standby_only(&empty), Err(StepError::NoConnectedStandby)));
    assert!(matches!(c.plan_failover_and_stop_old_master(&empty), Err(StepError::NoMasterBeforeFailover)));
    assert!(matches!(c.replica_wait_source(&empty), Err(StepError::NoMasterForReplicaWait)));
    let mut plain = update_ctx(false, false);
    assert!(plain.plan_stop_standby_only(&empty).unwrap().is_empty());
    assert!(plain.plan_failover_and_stop_old_master(&empty).unwrap().is_none());
}

#[test]
fn rounds_of_stop_tx_and_failover_back() {
    let c = update_ctx(true, false);
    let r1 = c.stop_tx_round().unwrap();
    assert_eq!(r1.label, "round1");
    assert_eq!(r1.stop, strings(&["10.0.0.1:7000", "10.0.0.2:7000"]));
    let checks = r1.failover_checks().unwrap();
    assert_eq!(checks[0].task, "failover-check-round1-7000");
    assert_eq!(checks[1].host, "10.0.0.2");
    let r2 = c.failover_back_round().unwrap();
    assert_eq!(r2.topology_nodes[0], "10.0.0.3:7000");
    assert!(update_ctx(false, false).stop_tx_round().is_none());
}

#[test]
fn round_with_bad_address_is_refused() {
    let mut c = UpgradeContext::new(&UpgradeCommand::Other, DeployTopology {
        cluster_name: "kv".to_string(),
        tx_host_ports: strings(&["nohost"]),
        standby_host_ports: Some(vec![]),
        voter_host_ports: None,
        has_log_service: false,
        redis_password: None,
    });
    let r = c.stop_tx_round().unwrap();
    assert_eq!(r.failover_checks().unwrap_err(), "invalid host:port in failover list: 'nohost'");
    c.set_first_batch_nodes(strings(&["x"]));
    assert_eq!(c.first_batch_nodes(), strings(&["x"]));
}

#[test]
fn stop_and_start_requests() {
    let c = update_ctx(true, false);
    assert!(build_stop_node_tasks(&c, vec![]).is_none());
    let s = build_stop_node_tasks(&c, strings(&["10.0.0.1:7000"])).unwrap();
    assert!(s.stop);
    assert_eq!(s.password.as_deref(), Some("configured"));
    let t = build_start_node_tasks(&c, strings(&["10.0.0.1:7000"])).unwrap();
    assert!(!t.stop);
    assert_eq!(t.cluster, "kv");
}

#[test]
fn restart_sequence_stops_starts_and_waits_each_node() {
    let stages = restart_sequence("restart-non-leader-node", &strings(&["10.0.0.1:7001", "10.0.0.2:7002"])).unwrap();
    let groups: Vec<&str> = stages.iter().map(|s| s.group.as_str()).collect();
    assert_eq!(
        groups,
        vec![
            "restart-non-leader-node-stop-7001",
            "restart-non-leader-node-start-7001",
            "restart-non-leader-node-wait-7001",
            "restart-non-leader-node-stop-7002",
            "restart-non-leader-node-start-7002",
            "restart-non-leader-node-wait-7002",
        ]
    );
    assert!(stages[1].action == RestartAction::Start);
    assert_eq!(
        restart_sequence("p", &strings(&["10.0.0.1:7001", "bad"])).unwrap_err(),
        "invalid restart node host:port: 'bad'"
    );
}

#[test]
fn waits_and_failover_pairs() {
    let w = wait_node_tasks("wait-failover-target-master", &strings(&["10.0.0.4:7000"])).unwrap();
    assert_eq!(w[0].task, "wait-failover-target-master-7000");
    assert_eq!(w[0].host, "10.0.0.4");
    let (src, tasks) = wait_replica_tasks("wait-tx-replica-ready", "10.0.0.3:7000", &strings(&["10.0.0.1:+7000"]))
        .unwrap()
        .unwrap();
    assert_eq!(src, ("10.0.0.3".to_string(), 7000));
    assert_eq!(tasks[0].task, "wait-tx-replica-ready-7000");
    assert!(wait_replica_tasks("p", "bad", &vec![]).unwrap().is_none());
    assert_eq!(
        wait_replica_tasks("p", "bad", &strings(&["a:1"])).unwrap_err(),
        "invalid host:port in current master: 'bad'"
    );
    assert_eq!(
        wait_replica_tasks("p", "h:1", &strings(&["a:x"])).unwrap_err(),
        "invalid port in target replica list: 'a:x'"
    );
    let f = build_failover_pairs(
        "failover-to-standby",
        &vec![("10.0.0.1:7000".to_string(), "10.0.0.4:7001".to_string())],
    )
    .unwrap();
    assert_eq!(f[0].task, "failover-failover-to-standby-7000-to-7001");
    assert_eq!(f[0].new_host, "10.0.0.4");
}

#[test]
fn managed_node_set_has_each_node_once() {
    let mut d = deploy(true);
    d.standby_host_ports = Some(vec![d.tx_host_ports[0].clone(), "10.0.0.9:7000".to_string()]);
    let c = UpgradeContext::new(&UpgradeCommand::Other, d);
    let set = c.managed_tx_and_standby_set();
    let mut expected = c.rolling_update_kv_nodes();
    expected.remove(expected.len() - 2);
    assert_eq!(set, expected);
}
