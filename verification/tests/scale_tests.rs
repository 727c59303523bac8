use cluster_mgr::scale::{
    host_of_node, new_hosts, node_dir_commands, operation_name, plan_scale_request, port_of_node,
    removal_cleanup_commands, scale_leader_url, scale_reply_outcome, scale_stages, tls_dir_command, upload_targets,
    ScaleOpConfig, ScaleOperationType, ScalePlanInputs, ScaleRequest, ScaleRequestError, ScaleRpcRequest, ScaleStage,
};
use cluster_mgr::text::parse_i32;
use cluster_mgr::topology::NodeInfo;

fn strings(v: &[&str]) -> Vec<String> {
    v.iter().map(|s| s.to_string()).collect()
}

fn master(ip: &str, port: u16) -> NodeInfo {
    NodeInfo { ip: ip.to_string(), port, connected: true, node_id: None, master_id: None }
}

fn config(op: ScaleOperationType, nodes: &[&str], flags: Option<Vec<bool>>, ng_id: Option<u32>) -> ScaleOpConfig {
    ScaleOpConfig {
        operation_type: op,
        nodes_list: strings(nodes),
        is_candidate: flags,
        cluster_name: "c1".to_string(),
        ng_id,
    }
}

#[test]
fn parse_i32_follows_std() {
    for s in ["0", "42", "+7", "-13", "2147483647", "-2147483648", "2147483648", "-2147483649", "", "+", "-", "1a", " 1", "007"] {
        assert_eq!(parse_i32(s), s.parse::<i32>().ok(), "input {:?}", s);
    }
}

#[test]
fn node_host_and_port() {
    assert_eq!(host_of_node("10.0.0.1:6379"), "10.0.0.1");
    assert_eq!(host_of_node("plainhost"), "plainhost");
    assert_eq!(host_of_node(":6379"), "");
    assert_eq!(port_of_node("10.0.0.1:6379"), 6379);
    assert_eq!(port_of_node("a:b:7000"), 7000);
    assert_eq!(port_of_node("nohost"), 0);
    assert_eq!(port_of_node("h:x"), 0);
}

#[test]
fn ports_and_hosts_of_config() {
    let c = config(ScaleOperationType::AddNodes, &["h1:7001", "h2:bad", "h3"], None, None);
    assert_eq!(c.extract_ports_from_nodes(), vec![7001, 0, 0]);
    assert_eq!(c.node_hosts(), strings(&["h1", "h2", "h3"]));
}

#[test]
fn scale_add_drops_existing_nodes() {
    let existing = strings(&["h1:6379", "h2:6379"]);
    let r = plan_scale_request(
        &strings(&["h1:6379", "h3:6379"]),
        &vec![],
        &Some(vec![true, false]),
        &None,
        "c1",
        Some(2),
        &existing,
    );
    match r {
        Ok(ScaleRequest::Scale(c)) => {
            assert_eq!(c.operation_type, ScaleOperationType::AddNodes);
            assert_eq!(c.nodes_list, strings(&["h3:6379"]));
            assert_eq!(c.is_candidate, Some(vec![false]));
            assert_eq!(c.ng_id, Some(2));
            assert_eq!(c.cluster_name, "c1");
        }
        other => panic!("unexpected {:?}", other),
    }
}

#[test]
fn scale_add_of_existing_nodes_is_a_no_op() {
    let existing = strings(&["h1:6379"]);
    let r = plan_scale_request(&strings(&["h1:6379"]), &vec![], &None, &None, "c1", Some(0), &existing).unwrap();
    assert!(matches!(r, ScaleRequest::AllPresent));
    assert_eq!(r.no_op_notice(), Some("All requested nodes already exist; scale add is a no-op."));
}

#[test]
fn scale_remove_of_absent_nodes_is_a_no_op() {
    let existing = strings(&["h1:6379"]);
    let r = plan_scale_request(&vec![], &strings(&["h9:6379"]), &None, &None, "c1", None, &existing).unwrap();
    assert!(matches!(r, ScaleRequest::AllAbsent));
    assert_eq!(r.no_op_notice(), Some("All requested nodes are already absent; scale remove is a no-op."));
}

#[test]
fn scale_remove_keeps_present_nodes() {
    let existing = strings(&["h1:6379", "h2:6379"]);
    match plan_scale_request(&vec![], &strings(&["h9:1", "h2:6379"]), &None, &None, "c1", None, &existing) {
        Ok(ScaleRequest::Scale(c)) => {
            assert_eq!(c.operation_type, ScaleOperationType::RemoveNodes);
            assert_eq!(c.nodes_list, strings(&["h2:6379"]));
            assert_eq!(c.is_candidate, None);
        }
        other => panic!("unexpected {:?}", other),
    }
}

#[test]
fn scale_request_errors() {
    let existing = strings(&["h1:6379"]);
    let v = Some("1.0".to_string());
    let e = |r: Result<ScaleRequest, ScaleRequestError>| r.unwrap_err();
    assert_eq!(e(plan_scale_request(&vec![], &vec![], &None, &v, "c", None, &existing)), ScaleRequestError::VersionNeedsAddNodes);
    assert_eq!(
        e(plan_scale_request(&strings(&["h2:1"]), &strings(&["h1:6379"]), &Some(vec![true]), &v, "c", Some(1), &existing)),
        ScaleRequestError::VersionWithRemoveNodes
    );
    assert_eq!(e(plan_scale_request(&vec![], &vec![], &None, &None, "c", None, &existing)), ScaleRequestError::NoNodes);
    assert_eq!(
        e(plan_scale_request(&strings(&["h2:1"]), &strings(&["h1:6379"]), &Some(vec![true]), &None, "c", Some(1), &existing)),
        ScaleRequestError::AddAndRemove
    );
    assert_eq!(
        e(plan_scale_request(&strings(&["h2:1"]), &vec![], &None, &None, "c", Some(1), &existing)),
        ScaleRequestError::MissingCandidateFlags
    );
    assert_eq!(
        e(plan_scale_request(&strings(&["h2:1"]), &vec![], &Some(vec![true]), &None, "c", None, &existing)),
        ScaleRequestError::MissingNgId
    );
    assert_eq!(ScaleRequestError::MissingNgId.message(), "--ng-id must be provided when adding nodes");
    assert_eq!(
        ScaleRequestError::NoNodes.message(),
        "Must specify either --add-nodes or --remove-nodes with at least one node"
    );
}

#[test]
fn candidates_after_scale_add_and_remove() {
    let before = strings(&["h1:1", "h2:2"]);
    let add = config(ScaleOperationType::AddNodes, &["h3:3", "h4:4", "h5:5"], Some(vec![true, false]), Some(0));
    assert_eq!(add.candidates_after_scale(&before), strings(&["h1:1", "h2:2", "h3:3"]));
    let remove = config(ScaleOperationType::RemoveNodes, &["h1:1"], None, None);
    assert_eq!(remove.candidates_after_scale(&before), strings(&["h2:2"]));
}

#[test]
fn new_hosts_skip_known_and_adjacent_repeats() {
    let nodes = strings(&["h1:1", "h3:1", "h3:2", ":9", "h4:1", "h3:3"]);
    assert_eq!(new_hosts(&nodes, &strings(&["h1", "h2"])), strings(&["h3", "h4", "h3"]));
}

#[test]
fn upload_targets_are_hosts_without_nodes() {
    let (hosts, nodes) = upload_targets(&strings(&["h1:2", "h3:1", "h3:2"]), &strings(&["h1:1", "h2:1"]));
    assert_eq!(hosts, strings(&["h3"]));
    assert_eq!(nodes, strings(&["h3:1", "h3:2"]));
}

#[test]
fn node_dir_commands_for_host_port_nodes() {
    let cmds = node_dir_commands(&strings(&["h1:7001", "bad", "a:b:c"]), "/home/tx");
    assert_eq!(cmds.len(), 1);
    assert_eq!(cmds[0].host, "h1");
    assert_eq!(cmds[0].cmd, "mkdir -p /home/tx/data/port-7001/tx_service");
    assert_eq!(cmds[0].name, "mkdir-7001");
    let (cmd, hosts) = tls_dir_command(&strings(&["h1:1", ":2", "h2:3"]), "/etc/tls");
    assert_eq!(cmd, "mkdir -p /etc/tls");
    assert_eq!(hosts, strings(&["h1", "h2"]));
}

#[test]
fn removal_cleanup_whole_host_or_ports() {
    let before = strings(&["h1:7001", "h1:7002", "h2:7001"]);
    let cmds = removal_cleanup_commands(&strings(&["h1:7001", "h2:7001", "h3:x"]), &before, "/opt", "/opt/tx");
    assert_eq!(cmds.len(), 2);
    assert_eq!(cmds[0].host, "h1");
    assert_eq!(
        cmds[0].cmd,
        "rm -rf /opt/rocksdb-7001 /opt/tx/data/port-7001 /opt/tx/logs/node-7001 /opt/EloqKv-node-7001.ini"
    );
    assert_eq!(cmds[0].name, "clean_tx_nodes_h1");
    assert_eq!(cmds[1].host, "h2");
    assert_eq!(cmds[1].cmd, "rm -rf /opt/EloqKV");
    assert_eq!(cmds[1].name, "clean_tx_all_h2");
}

#[test]
fn leader_url_and_missing_master() {
    assert_eq!(scale_leader_url(&vec![master("10.0.0.5", 6379)]), Ok("http://10.0.0.5:16380".to_string()));
    assert_eq!(
        scale_leader_url(&vec![]),
        Err("No master nodes found in the cluster topology".to_string())
    );
}

#[test]
fn rpc_requests_for_add_and_remove() {
    let add = config(ScaleOperationType::AddNodes, &["h1:7001", "h2:0"], None, None);
    match add.rpc_request("ev1") {
        ScaleRpcRequest::AddPeers { ng_id, host_list, port_list, is_candidate, id } => {
            assert_eq!(ng_id, 0);
            assert_eq!(host_list, strings(&["h1", "h2"]));
            assert_eq!(port_list, vec![17001, 10000]);
            assert_eq!(is_candidate, vec![true, false]);
            assert_eq!(id, "ev1");
        }
        other => panic!("unexpected {:?}", other),
    }
    let remove = config(ScaleOperationType::RemoveNodes, &["h1:7001"], None, Some(3));
    match remove.rpc_request("ev2") {
        ScaleRpcRequest::RemoveNode { id, remove_node_count, host_list, port_list } => {
            assert_eq!(id, "ev2");
            assert_eq!(remove_node_count, 0);
            assert_eq!(host_list, strings(&["h1"]));
            assert_eq!(port_list, vec![17001]);
        }
        other => panic!("unexpected {:?}", other),
    }
}

#[test]
fn reply_outcomes() {
    assert_eq!(operation_name(ScaleOperationType::RemoveNodes), "remove nodes");
    assert_eq!(
        scale_reply_outcome(ScaleOperationType::AddNodes, "ev", 0, "cfg".to_string()),
        Ok(("Successfully completed add nodes operation with event ID: ev".to_string(), Some("cfg".to_string())))
    );
    assert_eq!(
        scale_reply_outcome(ScaleOperationType::RemoveNodes, "ev", 0, String::new()),
        Ok(("Successfully completed remove nodes operation with event ID: ev".to_string(), None))
    );
    assert_eq!(
        scale_reply_outcome(ScaleOperationType::AddNodes, "ev", 1, String::new()),
        Err("RPC operation failed with result: 1".to_string())
    );
    assert_eq!(
        scale_reply_outcome(ScaleOperationType::AddNodes, "ev", -2, String::new()),
        Err("RPC operation failed with result: -2".to_string())
    );
}

#[test]
fn scale_stage_order() {
    let add = scale_stages(ScalePlanInputs {
        operation_type: ScaleOperationType::AddNodes,
        has_new_hosts: true,
        tls_enabled: false,
        has_upload_nodes: true,
        monitor_enabled: true,
    });
    assert_eq!(
        add,
        vec![
            ScaleStage::SshCheck, ScaleStage::Topology, ScaleStage::InstallDeps, ScaleStage::CreateNodeDirs, ScaleStage::Download, ScaleStage::Extract, ScaleStage::UploadTxService, ScaleStage::ScaleRpc, ScaleStage::UpdateConfigs,
            ScaleStage::UploadConfigs, ScaleStage::StartNodes, ScaleStage::PostScaleTopology, ScaleStage::CheckScaleStatus, ScaleStage::SaveTopology, ScaleStage::UploadMonitorConfigs,
            ScaleStage::FinalTopology, ScaleStage::UpdateTopology, ScaleStage::DisplayTopology
        ]
    );
    let remove = scale_stages(ScalePlanInputs {
        operation_type: ScaleOperationType::RemoveNodes,
        has_new_hosts: true,
        tls_enabled: true,
        has_upload_nodes: true,
        monitor_enabled: false,
    });
    assert_eq!(
        remove,
        vec![
            ScaleStage::Topology, ScaleStage::ScaleRpc, ScaleStage::UpdateConfigs, ScaleStage::UploadConfigs, ScaleStage::CheckScaleStatus, ScaleStage::StopNodes, ScaleStage::SaveTopology, ScaleStage::FinalTopology,
            ScaleStage::UpdateTopology, ScaleStage::DisplayTopology, ScaleStage::CleanupHosts
        ]
    );
}
