use cluster_mgr::logctl::MonographLogCtlTask;
use cluster_mgr::monitor::{MonitorCommand, MonitorComponentCommand, MonitorCtlTask};
use cluster_mgr::monograph::{parse_monograph_pid, try_parse_monograph_pid};
use cluster_mgr::rclone::{RcloneCtlCmd, RcloneCtlTask};
use cluster_mgr::task::{TaskArgValue, TaskId, i32_text};
use cluster_mgr::topology::{expand_host_ports, redis_url, topology_retries};
use cluster_mgr::txctl::{matching_ports, restrict_to_ports, tx_status_output};

fn strings(v: &[&str]) -> Vec<String> {
    v.iter().map(|s| s.to_string()).collect()
}

#[test]
fn comma_separated_nodes_are_expanded() {
    let v = expand_host_ports(&strings(&["a:1, b:2 ,", " c:3 "]));
    assert_eq!(v, strings(&["a:1", "b:2", " c:3 "]));
    assert_eq!(redis_url(&Some("pw".to_string()), "a:1"), "redis://:pw@a:1");
    assert_eq!(redis_url(&None, "a:1"), "redis://a:1");
    assert_eq!(topology_retries(0), 1);
    assert_eq!(topology_retries(3), 3);
}

#[test]
fn stop_tasks_restrict_to_the_ports_on_their_host() {
    let masters = strings(&["10.0.0.1:7000", "10.0.0.2:7000", "10.0.0.1:7001", "10.0.0.1"]);
    let replicas = strings(&["10.0.0.1:7100"]);
    assert_eq!(matching_ports("txservice", "7000", "10.0.0.1", &masters, &replicas), strings(&["7000", "7001"]));
    assert_eq!(matching_ports("standby", "7000", "10.0.0.1", &masters, &replicas), strings(&["7100"]));
    assert!(matching_ports("voter", "7000", "10.0.0.1", &masters, &replicas).is_empty());
    assert_eq!(matching_ports("node", "7005", "10.0.0.1", &masters, &replicas), strings(&["7005"]));
    let (stop, status) = restrict_to_ports(
        "ps uxwe -u eloq | grep /k/bin/eloqkv | grep 7000 | grep -v grep |  awk '{print $2}' | xargs -r kill",
        "ps uxwe -u eloq | grep /k/bin/eloqkv | grep 7000 | grep -v grep |  awk '{print $2}' ",
        &strings(&["7000", "7001"]),
    )
    .unwrap();
    assert_eq!(stop, "ps uxwe -u eloq | grep /k/bin/eloqkv | grep -E '7000|7001' | grep -v grep |  awk '{print $2}' | xargs -r kill");
    assert_eq!(status, "ps uxwe -u eloq | grep /k/bin/eloqkv | grep -E '7000|7001' | grep -v grep |  awk '{print $2}' ");
    assert!(restrict_to_ports("a", "b", &vec![]).is_none());
    assert_eq!(tx_status_output(&None), "\neloqkv service is down.");
    assert_eq!(tx_status_output(&Some("5".to_string())), "\neloqkv service is running, pid: 5.");
}

#[test]
fn failed_start_diagnostics() {
    let t = MonitorCtlTask::new(
        TaskId::new("monitor", "grafana-start-3000", "h"),
        MonitorComponentCommand::Grafana { home: "/g".to_string() },
        MonitorCommand::Start { components: vec![] },
    );
    assert_eq!(
        t.monitor_ctl.startup_log_cmd(),
        "tail -n 40 /tmp/eloq_grafana_server.log 2>/dev/null || echo '<no startup log output>'"
    );
    assert_eq!(t.monitor_ctl.file_modes_cmd(), "ls -l /g/bin/grafana-server /g/bin/grafana");
    assert_eq!(t.start_failure_details(&None, &Some("  ".to_string())), "no additional diagnostics captured for grafana");
    assert_eq!(
        t.start_failure_details(&Some(" boom \n".to_string()), &Some("-rw x".to_string())),
        "startup log:\nboom\nfile modes:\n-rw x"
    );
}

#[test]
fn merged_results_sum_statuses_and_join_texts() {
    let results = vec![
        vec![
            ("cmd".to_string(), TaskArgValue::Str("a".to_string())),
            ("cmd_status".to_string(), TaskArgValue::Number(1)),
        ],
        vec![
            ("cmd_status".to_string(), TaskArgValue::Number(-3)),
            ("cmd".to_string(), TaskArgValue::Str("b".to_string())),
            ("cmd_output".to_string(), TaskArgValue::Number(7)),
        ],
    ];
    let merged = MonographLogCtlTask::merge_execution_value(&results, "cmd_status");
    assert_eq!(merged.len(), 3);
    assert_eq!(merged[0].0, "cmd");
    assert!(matches!(&merged[0].1, TaskArgValue::Str(s) if s == "a;b"));
    assert_eq!(merged[1].0, "cmd_status");
    assert!(matches!(merged[1].1, TaskArgValue::Number(-2)));
    assert!(matches!(&merged[2].1, TaskArgValue::Str(s) if s == "7"));
    assert_eq!(i32_text(-45), "-45");
    assert!(MonographLogCtlTask::merge_execution_value(&vec![], "cmd_status").is_empty());
}

#[test]
fn pid_is_read_from_the_first_numeric_line() {
    assert_eq!(parse_monograph_pid(""), None);
    assert_eq!(parse_monograph_pid("\n  \nabc\n 4242 \n17\n"), Some(4242));
    assert_eq!(parse_monograph_pid("no pid here"), None);
    assert_eq!(try_parse_monograph_pid(" 0017 "), Some(Some(17)));
    assert_eq!(try_parse_monograph_pid("99999999999"), None);
    assert_eq!(try_parse_monograph_pid("x"), Some(None));
}

#[test]
fn rclone_tasks_per_host() {
    let pairs = vec![
        ("h2".to_string(), RcloneCtlCmd::Start("a".to_string())),
        ("h1".to_string(), RcloneCtlCmd::Status("b".to_string())),
        ("h2".to_string(), RcloneCtlCmd::Status("c".to_string())),
    ];
    assert_eq!(RcloneCtlTask::task_hosts(&pairs), strings(&["h2", "h1"]));
}
