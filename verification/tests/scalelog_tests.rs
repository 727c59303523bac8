use cluster_mgr::logctl::{LogCtlCmd, LogMember};
use cluster_mgr::scale::ScaleOperationType;
use cluster_mgr::scalelog::{
    extract_hosts_and_ports, log_ctl_tasks, log_peer_request, log_removal_cleanup_commands, log_rpc_url,
    log_scale_report, next_log_peer_step, parse_log_node, plan_scale_log_request, scale_log_stages, LogPeerAction,
    LogPeerReply, LogRemovalError, LogService, ScaleLogError, ScaleLogRequest, ScaleLogStage,
};
use cluster_mgr::text::parse_u32;

fn strings(v: &[&str]) -> Vec<String> {
    v.iter().map(|s| s.to_string()).collect()
}

fn member(host: &str, port: u16) -> LogMember {
    LogMember { host: host.to_string(), port, storage_path: format!("/opt/wal_eloqkv/{}", port) }
}

fn members() -> Vec<LogMember> {
    vec![member("h1", 9000), member("h2", 9000), member("h3", 9000)]
}

#[test]
fn parse_u32_follows_std() {
    for s in ["0", "+9", "4294967295", "4294967296", "-1", "", "x"] {
        assert_eq!(parse_u32(s), s.parse::<u32>().ok(), "input {:?}", s);
    }
}

#[test]
fn log_node_parsing() {
    assert_eq!(parse_log_node("h1:9000"), Some(("h1".to_string(), 9000)));
    assert_eq!(parse_log_node("h1:99999"), None);
    assert_eq!(parse_log_node("h1"), None);
}

#[test]
fn scale_log_request_checks() {
    let m = Some(members());
    let e = |r: Result<ScaleLogRequest, ScaleLogError>| r.unwrap_err();
    assert_eq!(e(plan_scale_log_request(&vec![], &vec![], None, &m)), ScaleLogError::NoNodes);
    assert_eq!(
        e(plan_scale_log_request(&strings(&["h4:1"]), &strings(&["h1:9000"]), Some(1), &m)),
        ScaleLogError::AddAndRemove
    );
    assert_eq!(e(plan_scale_log_request(&strings(&["h4:1"]), &vec![], None, &m)), ScaleLogError::LogNgIdRequired);
    assert_eq!(
        e(plan_scale_log_request(&vec![], &strings(&["h1:9000"]), Some(0), &m)),
        ScaleLogError::LogNgIdNotAllowed
    );
    assert_eq!(e(plan_scale_log_request(&strings(&["h4:1"]), &vec![], Some(0), &None)), ScaleLogError::NoLogService);
    assert_eq!(ScaleLogError::LogNgIdRequired.message(), "--log-ng-id is required when adding log nodes");
}

#[test]
fn scale_log_request_filters_nodes() {
    let m = Some(members());
    match plan_scale_log_request(&strings(&["h1:9000", "h4:9000", "bad"]), &vec![], Some(0), &m).unwrap() {
        ScaleLogRequest::Scale { operation_type, nodes } => {
            assert_eq!(operation_type, ScaleOperationType::AddNodes);
            assert_eq!(nodes, strings(&["h4:9000", "bad"]));
        }
        other => panic!("unexpected {:?}", other),
    }
    assert!(matches!(
        plan_scale_log_request(&strings(&["h1:9000"]), &vec![], Some(0), &m).unwrap(),
        ScaleLogRequest::AllPresent
    ));
    match plan_scale_log_request(&vec![], &strings(&["h1:9000", "h9:1", "bad"]), None, &m).unwrap() {
        ScaleLogRequest::Scale { operation_type, nodes } => {
            assert_eq!(operation_type, ScaleOperationType::RemoveNodes);
            assert_eq!(nodes, strings(&["h1:9000"]));
        }
        other => panic!("unexpected {:?}", other),
    }
    assert!(matches!(
        plan_scale_log_request(&vec![], &strings(&["bad"]), None, &m).unwrap(),
        ScaleLogRequest::AllAbsent
    ));
}

#[test]
fn add_then_remove_log_nodes_restores_membership() {
    let s = LogService { members: members(), replica: 3 };
    let added = s.with_added(&strings(&["h4:9001", "junk"]), "/opt");
    assert_eq!(added.replica, 4);
    assert_eq!(added.members.len(), 4);
    assert_eq!(added.members[3].host, "h4");
    assert_eq!(added.members[3].port, 9001);
    assert_eq!(added.members[3].storage_path, "/opt/wal_eloqkv/9001");
    let back = added.without_nodes(&strings(&["h4:9001"])).unwrap();
    assert_eq!(back.replica, 3);
    let hosts: Vec<_> = back.members.iter().map(|m| (m.host.clone(), m.port)).collect();
    assert_eq!(hosts, vec![("h1".to_string(), 9000), ("h2".to_string(), 9000), ("h3".to_string(), 9000)]);
}

#[test]
fn log_removal_refusals() {
    let s = LogService { members: members(), replica: 3 };
    assert_eq!(s.without_nodes(&strings(&["h9:1"])).unwrap_err(), LogRemovalError::NoneFound);
    assert_eq!(s.without_nodes(&strings(&["h1:9000"])).unwrap_err(), LogRemovalError::TooFewRemain);
    assert_eq!(
        LogRemovalError::TooFewRemain.message(),
        "Cannot remove nodes if it would result in fewer than 3 nodes remaining in the log service"
    );
}

#[test]
fn start_and_stop_tasks_per_host() {
    let tasks = log_ctl_tasks(&strings(&["h1:9001", "h2:9001", "h1:9002", "h1:9001"]), true, "/opt", "eloq", "/opt/log");
    assert_eq!(tasks.len(), 2);
    assert_eq!(tasks[0].0.cmd, "eloq_log_start");
    assert_eq!(tasks[0].0.task, "start");
    assert_eq!(tasks[0].0.host, "h1");
    assert_eq!(tasks[0].1.len(), 2);
    assert_eq!(tasks[0].1[0].0.port, 9001);
    match &tasks[0].1[1].1 {
        LogCtlCmd::Start(c) => assert_eq!(c, "/bin/bash /opt/start_tx_log_9002.bash"),
        other => panic!("unexpected {:?}", other),
    }
    let stops = log_ctl_tasks(&strings(&["h2:9001"]), false, "/opt", "eloq", "/opt/log");
    assert_eq!(stops[0].0.cmd, "eloq_log_stop");
    match &stops[0].1[0].1 {
        LogCtlCmd::Stop(c) => assert_eq!(
            c,
            "ps -e -o pid,cmd --no-headers -u eloq | grep '/opt/log/bin/launch_sv' | grep 'wal_eloqkv/9001' | grep -v grep | awk '{print $1}' | xargs -r kill"
        ),
        other => panic!("unexpected {:?}", other),
    }
}

#[test]
fn removal_cleanup_scripts_then_data() {
    let ms = vec![member("h1", 9000), member("h1", 9001), member("h2", 9000)];
    let cmds = log_removal_cleanup_commands(&strings(&["h1:9000", "h2:9000"]), &ms, "/opt", "EloqLog");
    assert_eq!(cmds.len(), 4);
    assert_eq!(cmds[0].cmd, "cd /opt && rm -f start_tx_log_9000.bash");
    assert_eq!(cmds[0].name, "delete_removed_log_scripts_h1");
    assert_eq!(cmds[1].host, "h2");
    assert_eq!(cmds[2].cmd, "rm -rf /opt/wal_eloqkv/9000");
    assert_eq!(cmds[2].name, "cleanup_log_data_h1");
    assert_eq!(cmds[3].cmd, "rm -rf /opt/wal_eloqkv /opt/EloqLog");
    assert_eq!(cmds[3].name, "cleanup_log_data_h2");
}

#[test]
fn peer_request_and_url() {
    let (hosts, ports) = extract_hosts_and_ports(&strings(&["h1:70000", "bad", "h2:x"]));
    assert_eq!(hosts, strings(&["h1"]));
    assert_eq!(ports, vec![70000]);
    let q = log_peer_request(&strings(&["h1:9000"]), None).unwrap();
    assert_eq!(q.ip, strings(&["h1"]));
    assert_eq!(q.port, vec![9000]);
    assert_eq!(q.log_group_id, 0);
    assert!(log_peer_request(&strings(&["bad"]), Some(1)).is_none());
    assert_eq!(log_rpc_url(&members()), "http://h1:9000");
}

#[test]
fn peer_retries() {
    assert!(matches!(
        next_log_peer_step(ScaleOperationType::AddNodes, 3, LogPeerReply::Answered(true)),
        (3, LogPeerAction::Done)
    ));
    assert!(matches!(
        next_log_peer_step(ScaleOperationType::AddNodes, 3, LogPeerReply::Answered(false)),
        (4, LogPeerAction::PauseThenRetry)
    ));
    match next_log_peer_step(ScaleOperationType::AddNodes, 9, LogPeerReply::Answered(false)) {
        (10, LogPeerAction::GiveUp { report, pause_first, notify_cleanup }) => {
            assert_eq!(report, "AddPeer operation failed after 10 attempts - response success: false");
            assert!(!pause_first);
            assert!(notify_cleanup);
        }
        other => panic!("unexpected {:?}", other),
    }
    match next_log_peer_step(ScaleOperationType::RemoveNodes, 9, LogPeerReply::Failed("down".to_string())) {
        (10, LogPeerAction::GiveUp { report, pause_first, notify_cleanup }) => {
            assert_eq!(report, "Failed to remove log peers after 10 attempts: down");
            assert!(pause_first);
            assert!(!notify_cleanup);
        }
        other => panic!("unexpected {:?}", other),
    }
    assert_eq!(
        log_scale_report(ScaleOperationType::RemoveNodes, &strings(&["h1:1", "h2:2"])),
        "Successfully removed log nodes from: h1:1, h2:2. Response: true"
    );
}

#[test]
fn scale_log_stage_order() {
    assert_eq!(
        scale_log_stages(ScaleOperationType::RemoveNodes, true),
        vec![
            ScaleLogStage::PeerRpc, ScaleLogStage::StopMembers, ScaleLogStage::DeleteStartScripts, ScaleLogStage::DeleteData, ScaleLogStage::UploadStartScripts, ScaleLogStage::ProbeMembers, ScaleLogStage::SaveConfig,
            ScaleLogStage::FinalTopology, ScaleLogStage::UpdateTopology, ScaleLogStage::DisplayTopology
        ]
    );
    let add = scale_log_stages(ScaleOperationType::AddNodes, false);
    assert_eq!(add[0], ScaleLogStage::CreateInstallDir);
    let rpc = add.iter().position(|s| *s == ScaleLogStage::PeerRpc).unwrap();
    let start = add.iter().position(|s| *s == ScaleLogStage::StartMembers).unwrap();
    assert!(start < rpc);
    assert_eq!(add[rpc + 1], ScaleLogStage::CleanupOnFailure);
}
