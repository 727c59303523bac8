use cluster_mgr::ctrl::{
    ctrl_stages, status_targets, stop_targets, CtrlPlan, CtrlStage, StartPlanInputs, StatusTarget, StopPlanInputs,
    StoreLayout,
};

fn layout(has_eloqdss: bool, remote: bool, cloud: bool, rocksdb_dss: bool, clean: bool) -> StoreLayout {
    StoreLayout {
        has_eloqdss,
        dss_remote_internal: remote,
        eloqstore_cloud_internal: cloud,
        rocksdb_dss,
        clean_store_data: clean,
    }
}

fn stop_inputs(l: StoreLayout) -> StopPlanInputs {
    StopPlanInputs {
        tx: true,
        log: true,
        store: true,
        monitor: false,
        has_nodes: false,
        remove_or_force: false,
        has_standby: false,
        has_voter: true,
        has_log_service: true,
        has_monitor: true,
        layout: l,
    }
}

fn start_inputs(l: StoreLayout) -> StartPlanInputs {
    StartPlanInputs {
        has_nodes: false,
        skip_log_service: false,
        has_log_service: true,
        eloqkv_cluster_mode: true,
        layout: l,
    }
}

#[test]
fn stop_targets_follow_the_request() {
    let l = layout(true, true, false, false, false);
    assert_eq!(stop_targets(true, Some(false), false, false, false, l), (true, true, true, true));
    assert_eq!(stop_targets(false, None, false, false, false, l), (true, false, true, false));
    let plain = layout(false, false, false, true, false);
    assert_eq!(stop_targets(false, Some(false), true, false, true, plain), (false, true, false, true));
}

#[test]
fn restart_stops_everything_before_starting() {
    let l = layout(true, true, false, false, true);
    let stages = ctrl_stages(CtrlPlan::Restart(stop_inputs(l), start_inputs(l)));
    assert_eq!(
        stages,
        vec![
            CtrlStage::StopTx,
            CtrlStage::StopLog,
            CtrlStage::StopStore,
            CtrlStage::CleanStoreData,
            CtrlStage::StartStore,
            CtrlStage::StartLog,
            CtrlStage::ProbeLog,
            CtrlStage::StartTx,
            CtrlStage::CheckStatus,
            CtrlStage::WaitCurrentMaster,
        ]
    );
}

#[test]
fn stop_variants() {
    let l = layout(false, false, false, false, false);
    let mut forced = stop_inputs(l);
    forced.remove_or_force = true;
    forced.has_standby = true;
    forced.monitor = true;
    assert_eq!(
        ctrl_stages(CtrlPlan::Stop(forced)),
        vec![CtrlStage::StopStandby, CtrlStage::StopVoter, CtrlStage::StopTx, CtrlStage::StopLog, CtrlStage::StopMonitor]
    );
    let mut hot = stop_inputs(l);
    hot.has_standby = true;
    assert_eq!(ctrl_stages(CtrlPlan::Stop(hot)), vec![CtrlStage::StopWithHotStandby, CtrlStage::StopLog]);
    let mut nodes = stop_inputs(l);
    nodes.has_nodes = true;
    nodes.log = false;
    assert_eq!(ctrl_stages(CtrlPlan::Stop(nodes)), vec![CtrlStage::StopNodes]);
}

#[test]
fn start_of_named_nodes() {
    let l = layout(false, false, false, true, false);
    let mut s = start_inputs(l);
    s.has_nodes = true;
    s.eloqkv_cluster_mode = false;
    assert_eq!(ctrl_stages(CtrlPlan::Start(s)), vec![CtrlStage::StartNodes, CtrlStage::CheckStatus]);
}

#[test]
fn status_target_order() {
    assert_eq!(
        status_targets(layout(false, false, false, true, false), true, false, true, false),
        vec![StatusTarget::Store, StatusTarget::Log, StatusTarget::Voter, StatusTarget::Tx]
    );
    assert_eq!(
        status_targets(layout(true, false, true, false, false), false, true, false, true),
        vec![
            StatusTarget::Standby,
            StatusTarget::Tx,
            StatusTarget::NodeExporter,
            StatusTarget::Prometheus,
            StatusTarget::Alertmanager,
            StatusTarget::Grafana,
            StatusTarget::PrometheusAlert,
        ]
    );
}

#[test]
fn remove_stage_order_and_log_cleanup() {
    assert!(cluster_mgr::ctrl::remove_stages(true, true).is_empty());
    assert_eq!(
        cluster_mgr::ctrl::remove_stages(false, true),
        vec![
            cluster_mgr::ctrl::RemoveStage::StopCluster,
            cluster_mgr::ctrl::RemoveStage::CleanLogData,
            cluster_mgr::ctrl::RemoveStage::CleanInstallDir,
            cluster_mgr::ctrl::RemoveStage::RemoveBackups,
        ]
    );
    let dirs = vec!["/a".to_string(), "/b".to_string()];
    assert_eq!(
        cluster_mgr::ctrl::log_data_cleanup("h1", &dirs),
        ("clean_log@h1".to_string(), "rm -rf /a && rm -rf /b".to_string())
    );
}

#[test]
fn proxy_setting_lists_are_trimmed() {
    let values = vec!["a:1, b:2".to_string(), " c:3 ".to_string()];
    assert_eq!(cluster_mgr::proxy::joined_list(&values), "a:1,b:2,c:3");
    assert_eq!(cluster_mgr::proxy::joined_list(&vec![]), "");
}
