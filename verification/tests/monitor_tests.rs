use cluster_mgr::monitor::{
    Alertmanager, Monitor, MonitorAction, MonitorCommand, MonitorComponent, MonitorComponentCommand,
    MonitorCtlTask, MonitorObservation, NodeExporter, Prometheus, component_enabled, component_task_name,
    selected_components, monitor_phases, MonitorPhase, MonitorVerb, Grafana, grafana_ctl_task,
    prometheus_ctl_task, alertmanager_ctl_task, prometheusalert_ctl_task, exporter_ctl_task,
};
use cluster_mgr::task::TaskId;

fn prometheus(retention_time: Option<&str>, retention_size: Option<&str>) -> Prometheus {
    Prometheus {
        download_url: "https://example.com/prometheus.tar.gz".to_string(),
        port: 9500,
        host: "127.0.0.1".to_string(),
        retention_time: retention_time.map(|s| s.to_string()),
        retention_size: retention_size.map(|s| s.to_string()),
        remote_write_urls: None,
        alertmanager_targets: None,
        alert_thresholds: None,
    }
}

fn empty_monitor() -> Monitor {
    Monitor {
        data_dir: None,
        prometheus: None,
        alertmanager: None,
        grafana: None,
        node_exporter: None,
        eloq_metrics: None,
    }
}

#[test]
fn prometheus_start_command_includes_retention_flags() {
    let monitor = Monitor {
        data_dir: None,
        prometheus: Some(Prometheus {
            download_url: "https://example.com/prometheus.tar.gz".to_string(),
            port: 9500,
            host: "127.0.0.1".to_string(),
            retention_time: Some("30d".to_string()),
            retention_size: Some("50GB".to_string()),
            remote_write_urls: None,
            alertmanager_targets: None,
            alert_thresholds: None,
        }),
        alertmanager: None,
        grafana: None,
        node_exporter: None,
        eloq_metrics: None,
    };
    let cmd = MonitorComponentCommand::Prometheus {
        home: "/tmp/prometheus".to_string(),
    }
    .start(&monitor)
    .unwrap();

    assert!(cmd.contains("--web.enable-lifecycle"));
    assert!(cmd.contains(r#"--storage.tsdb.retention.time="30d""#));
    assert!(cmd.contains(r#"--storage.tsdb.retention.size="50GB""#));
}

#[test]
fn prometheus_start_command_exact_text() {
    let mut monitor = empty_monitor();
    monitor.prometheus = Some(prometheus(Some("30d"), None));
    let cmd = MonitorComponentCommand::Prometheus { home: "/opt/p".to_string() }.start(&monitor).unwrap();
    assert_eq!(
        cmd,
        r#"/opt/p/prometheus --web.listen-address="0.0.0.0:9500" --web.enable-lifecycle --storage.tsdb.path=/opt/p/data --storage.tsdb.retention.time="30d" --config.file=/opt/p/prometheus.yml > /tmp/eloq_prometheus.log 2>&1 &"#
    );
}

#[test]
fn prometheus_without_retention_has_no_flags() {
    let p = prometheus(None, None);
    assert_eq!(p.retention_flags(), "");
    let mut monitor = empty_monitor();
    monitor.prometheus = Some(p);
    let cmd = MonitorComponentCommand::Prometheus { home: "/h".to_string() }.start(&monitor).unwrap();
    assert!(cmd.contains("--storage.tsdb.path=/h/data --config.file="));
}

#[test]
fn retention_flags_join_time_then_size() {
    let p = prometheus(Some("7d"), Some("1GB"));
    assert_eq!(
        p.retention_flags(),
        r#"--storage.tsdb.retention.time="7d" --storage.tsdb.retention.size="1GB""#
    );
}

#[test]
fn unconfigured_component_has_no_start_command() {
    let monitor = empty_monitor();
    assert!(MonitorComponentCommand::NodeExporter { home: "/h".to_string() }.start(&monitor).is_none());
    assert!(MonitorComponentCommand::Alertmanager { home: "/h".to_string() }.start(&monitor).is_none());
    assert!(MonitorComponentCommand::Grafana { home: "/g".to_string() }.start(&monitor).is_some());
}

#[test]
fn node_exporter_and_webhook_adapter_commands() {
    let mut monitor = empty_monitor();
    monitor.node_exporter = Some(NodeExporter { port: 9100 });
    monitor.alertmanager = Some(Alertmanager { host: "h".to_string(), port: 9093, webhook_adapter_port: 8080 });
    assert_eq!(
        MonitorComponentCommand::NodeExporter { home: "/ne".to_string() }.start(&monitor).unwrap(),
        "/ne/node_exporter --web.listen-address=:9100 > /tmp/eloq_node_exporter.log 2>&1 &"
    );
    assert_eq!(
        MonitorComponentCommand::Alertmanager { home: "/am".to_string() }.start(&monitor).unwrap(),
        "/am/alertmanager --config.file=/am/alertmanager.yml --storage.path=/am/data --web.listen-address=0.0.0.0:9093 > /tmp/eloq_alertmanager.log 2>&1 &"
    );
    let adapter = MonitorComponentCommand::PrometheusAlert { home: "/pa".to_string() }.start(&monitor).unwrap();
    assert!(adapter.starts_with("sh -c 'cd /pa && exec /pa/PrometheusAlert --listen-address=0.0.0.0:8080"));
}

#[test]
fn stop_reload_and_process_info() {
    let c = MonitorComponentCommand::Prometheus { home: "/p".to_string() };
    assert_eq!(c.stop("42".to_string()), "kill 42");
    assert_eq!(c.force_stop("42".to_string()), "kill -9 42");
    assert_eq!(c.process_info(), "ps -e -o pid,cmd --no-headers | grep \"/p\" | grep -v grep");
    let mut monitor = empty_monitor();
    assert!(c.reload_url(&monitor).is_none());
    monitor.prometheus = Some(prometheus(None, None));
    assert_eq!(c.reload_url(&monitor).unwrap(), "http://127.0.0.1:9500/-/reload");
    assert!(MonitorComponentCommand::Grafana { home: "/g".to_string() }.reload_url(&monitor).is_none());
}

#[test]
fn names_paths_and_binaries() {
    let g = MonitorComponentCommand::Grafana { home: "/g".to_string() };
    assert_eq!(g.service_name(), "grafana");
    assert_eq!(g.log_path(), "/tmp/eloq_grafana_server.log");
    assert_eq!(g.executable_paths(), vec!["/g/bin/grafana-server".to_string(), "/g/bin/grafana".to_string()]);
    let a = MonitorComponentCommand::PrometheusAlert { home: "/a".to_string() };
    assert_eq!(a.service_name(), "alertmanager_webhook_adapter");
    assert_eq!(a.executable_paths(), vec!["/a/PrometheusAlert".to_string()]);
}

#[test]
fn control_task_start_and_stop_decisions() {
    let mut monitor = empty_monitor();
    monitor.prometheus = Some(prometheus(None, None));
    let id = TaskId::new("monitor", "prometheus-start-9500", "h");
    let task = MonitorCtlTask::new(
        id,
        MonitorComponentCommand::Prometheus { home: "/p".to_string() },
        MonitorCommand::Start { components: vec![] },
    );
    assert!(matches!(task.next_action(&monitor, &MonitorObservation::Initial(None)), MonitorAction::RunStart(_)));
    match task.next_action(&monitor, &MonitorObservation::Initial(Some("7".to_string()))) {
        MonitorAction::Reload(u) => assert_eq!(u, "http://127.0.0.1:9500/-/reload"),
        _ => panic!("expected a reload"),
    }
    assert!(matches!(task.next_action(&monitor, &MonitorObservation::AfterStart(None)), MonitorAction::FailedToStart));

    let stop = MonitorCtlTask::new(
        TaskId::new("monitor", "t", "h"),
        MonitorComponentCommand::Grafana { home: "/g".to_string() },
        MonitorCommand::Stop { components: vec![] },
    );
    match stop.next_action(&monitor, &MonitorObservation::Initial(Some("9".to_string()))) {
        MonitorAction::Stop(c) => assert_eq!(c, "kill 9"),
        _ => panic!("expected kill"),
    }
    match stop.next_action(&monitor, &MonitorObservation::AfterStop(Some("9".to_string()))) {
        MonitorAction::ForceStop(c) => assert_eq!(c, "kill -9 9"),
        _ => panic!("expected kill -9"),
    }
    assert!(matches!(stop.next_action(&monitor, &MonitorObservation::AfterForceStop(Some("9".to_string()))), MonitorAction::FailedToStop));
    assert!(matches!(stop.next_action(&monitor, &MonitorObservation::AfterStop(None)), MonitorAction::Report(None)));
    assert_eq!(stop.status_output(&None), "\ngrafana is down.");
    assert_eq!(stop.status_output(&Some("9".to_string())), "\ngrafana is running, pid: 9.");
}

#[test]
fn component_selection() {
    let cmd = MonitorCommand::Start { components: vec![MonitorComponent::Grafana] };
    let sel = selected_components(&cmd);
    assert!(component_enabled(&sel, MonitorComponent::Grafana));
    assert!(!component_enabled(&sel, MonitorComponent::Prometheus));
    assert!(component_enabled(&selected_components(&MonitorCommand::Update), MonitorComponent::Prometheus));
    assert_eq!(component_task_name("grafana", &cmd, 3000), "grafana-start-3000");
    assert_eq!(MonitorCtlTask::monitor_command_name(&MonitorCommand::Update), "update");
}

#[test]
fn monitor_restart_stops_then_starts_selected_components() {
    let cmd = MonitorCommand::Restart { components: vec![MonitorComponent::Grafana, MonitorComponent::NodeExporter] };
    assert_eq!(
        monitor_phases(true, &cmd),
        vec![
            MonitorPhase::UploadConfig,
            MonitorPhase::Run(MonitorVerb::Stop, MonitorComponent::NodeExporter),
            MonitorPhase::Run(MonitorVerb::Stop, MonitorComponent::Grafana),
            MonitorPhase::Run(MonitorVerb::Start, MonitorComponent::NodeExporter),
            MonitorPhase::Run(MonitorVerb::Start, MonitorComponent::Grafana),
        ]
    );
    let status = MonitorCommand::Status { components: vec![] };
    assert_eq!(monitor_phases(true, &status).len(), 5);
    assert!(monitor_phases(false, &status).is_empty());
}

#[test]
fn monitor_task_instance_is_named_for_the_host() {
    let (id, task) = MonitorCtlTask::build_monitor_task_instance(
        MonitorComponentCommand::Grafana { home: "/g".to_string() },
        "grafana_start".to_string(),
        "h1",
        "monitor",
        MonitorCommand::Start { components: vec![] },
    );
    assert_eq!((id.cmd.as_str(), id.task.as_str(), id.host.as_str()), ("monitor", "grafana_start", "h1"));
    assert_eq!(task.task_id.task, "grafana_start");
}

fn full_monitor() -> Monitor {
    Monitor {
        data_dir: None,
        prometheus: Some(prometheus(None, None)),
        alertmanager: Some(Alertmanager { host: "10.0.0.2".to_string(), port: 9093, webhook_adapter_port: 8080 }),
        grafana: Some(Grafana { host: "10.0.0.3".to_string(), port: 3000 }),
        node_exporter: Some(NodeExporter { port: 9100 }),
        eloq_metrics: None,
    }
}

#[test]
fn component_control_tasks_are_named_by_subcommand_and_port() {
    let m = full_monitor();
    let start = || MonitorCommand::Start { components: vec![] };
    let (id, t) = grafana_ctl_task(start(), "monitor", &m, "/opt/grafana".to_string()).unwrap();
    assert_eq!(id.task, "grafana-start-3000");
    assert_eq!(id.host, "10.0.0.3");
    assert_eq!(id.cmd, "monitor");
    assert_eq!(t.task_id.task, "grafana-start-3000");
    assert!(matches!(t.monitor_ctl, MonitorComponentCommand::Grafana { ref home } if home == "/opt/grafana"));
    let (id, _) = prometheus_ctl_task(MonitorCommand::Status { components: vec![] }, "monitor", &m, "/opt/prometheus".to_string()).unwrap();
    assert_eq!(id.task, "prometheus-status-9500");
    assert_eq!(id.host, "127.0.0.1");
    let (id, _) = alertmanager_ctl_task(MonitorCommand::Stop { components: vec![] }, "monitor", &m, "/opt/am".to_string()).unwrap();
    assert_eq!(id.task, "alertmanager-stop-9093");
    let (id, t) = prometheusalert_ctl_task(start(), "monitor", &m, "/opt/pa".to_string()).unwrap();
    assert_eq!(id.task, "alertmanager-webhook-adapter-start-8080");
    assert_eq!(id.host, "10.0.0.2");
    assert!(matches!(t.monitor_ctl, MonitorComponentCommand::PrometheusAlert { .. }));
    let none = empty_monitor();
    assert!(grafana_ctl_task(start(), "monitor", &none, "/g".to_string()).is_none());
    assert!(prometheusalert_ctl_task(start(), "monitor", &none, "/g".to_string()).is_none());
}

#[test]
fn exporter_tasks_cover_each_host_once() {
    let m = full_monitor();
    let hosts: Vec<String> = ["h1", "h2", "h1", "h3", "h2"].iter().map(|s| s.to_string()).collect();
    let cmd = MonitorCommand::Restart { components: vec![MonitorComponent::NodeExporter] };
    let tasks = exporter_ctl_task(&cmd, "monitor", &m, "/opt/node_exporter", &hosts);
    let got: Vec<(String, String)> = tasks.iter().map(|(id, _)| (id.host.clone(), id.task.clone())).collect();
    assert_eq!(
        got,
        vec![
            ("h1".to_string(), "node_exporter-restart-9100".to_string()),
            ("h2".to_string(), "node_exporter-restart-9100".to_string()),
            ("h3".to_string(), "node_exporter-restart-9100".to_string()),
        ]
    );
    assert!(matches!(tasks[0].1.command, MonitorCommand::Restart { ref components } if components == &vec![MonitorComponent::NodeExporter]));
    assert!(exporter_ctl_task(&cmd, "monitor", &empty_monitor(), "/x", &Vec::new()).is_empty());
}
