use cluster_mgr::deploy::{Connection, Config, DeployConfig, StorageService, get_eloqstore_s3_config, is_eloqstore_cloud};
use cluster_mgr::group::{TaskGroupKind, init_task_group, task_group, validate_fields};
use cluster_mgr::ini::{ConfigJson, IniConfigUpdateTask};
use cluster_mgr::logctl::{log_srv_group, CommandArgs, LogCtlCmd, LogDeployment, LogMember, LogProcessKey, MonographLogCtlTask};
use cluster_mgr::misc::{RuntimeDepsInstallation, runtime_deps_command};
use cluster_mgr::monograph::{MonographCtlCmd, MonographCtlTask, MonographLogProbeTask, ProbeAnswer, ProbeStep};
use cluster_mgr::proxy::{proxy_group_name, proxy_hosts, proxy_mkdir_command, proxy_stages, ProxyCommand, ProxyCtlTask, ProxyService, ProxyStage, ProxyTaskType};
use cluster_mgr::task::{SubCommand, TaskId};
use cluster_mgr::txctl::{
    MonographTxCtlTask, MySQLProbe, probe_retry, RedisProbe, ServerType, TxCtlCmd, TxCtlKind, extract_server_type_and_port, tx_task_id,
};

fn strings(v: &[&str]) -> Vec<String> {
    v.iter().map(|s| s.to_string()).collect()
}

fn log_deploy() -> LogDeployment {
    LogDeployment {
        user: "eloq".to_string(),
        log_home: "/l".to_string(),
        install_dir: "/home".to_string(),
        members: vec![
            LogMember { host: "h1".to_string(), port: 9000, storage_path: "/data/a".to_string() },
            LogMember { host: "h2".to_string(), port: 9001, storage_path: "/data/b".to_string() },
        ],
    }
}

const LOG_PS_A: &str = "ps uxwe -u eloq | grep '/l/bin/launch_sv' | grep '/data/a' \\\n ~ | grep -v grep | awk '{print $2}'";

#[test]
fn log_member_commands() {
    let d = log_deploy();
    let start = LogCtlCmd::build_cmd(&d, &CommandArgs::Start { cluster: "kv".to_string() });
    assert_eq!(start.len(), 2);
    assert_eq!(start[0].0.host, "h1");
    assert_eq!(
        start[0].1.cmd_value(),
        "export LD_LIBRARY_PATH=/l/lib:$LD_LIBRARY_PATH;/bin/bash /home/start_tx_log_h1_9000.bash"
    );
    let status = LogCtlCmd::build_cmd(&d, &CommandArgs::Status { cluster: "kv".to_string(), user: None, password: None });
    assert_eq!(status[0].1.cmd_value(), LOG_PS_A);
    let stop = LogCtlCmd::build_cmd(&d, &CommandArgs::Stop { cluster: "kv".to_string(), force: Some(true), all: false });
    assert_eq!(stop[0].1.cmd_value(), format!("{LOG_PS_A} | xargs kill -9"));
    let srv = LogCtlCmd::build_cmd(&d, &CommandArgs::LogService { cluster: "kv".to_string(), command: "STOP".to_string() });
    assert_eq!(srv[1].1.cmd_value(), "ps uxwe -u eloq | grep '/l/bin/launch_sv' | grep '/data/b' \\\n ~ | grep -v grep | awk '{print $2}' | xargs kill");
    let only = LogCtlCmd::build_cmd_with_predicate(
        &d,
        &CommandArgs::Start { cluster: "kv".to_string() },
        &Some(("h2".to_string(), 9001)),
    );
    assert_eq!(only.len(), 1);
    assert_eq!(only[0].0.port, 9001);
}

#[test]
fn unsupported_log_commands_are_refused() {
    let d = log_deploy();
    assert!(LogCtlCmd::try_build_cmd(&d, &CommandArgs::LogService { cluster: "kv".to_string(), command: String::new() }).is_none());
    assert!(LogCtlCmd::try_build_cmd(&d, &CommandArgs::LogService { cluster: "kv".to_string(), command: "restart".to_string() }).is_none());
    assert!(LogCtlCmd::try_build_cmd(&d, &CommandArgs::Other("scale".to_string())).is_none());
    assert!(LogCtlCmd::try_build_cmd(&d, &CommandArgs::LogService { cluster: "kv".to_string(), command: "Status".to_string() }).is_some());
    let empty = LogDeployment { members: vec![], ..log_deploy() };
    assert!(LogCtlCmd::try_build_cmd(&empty, &CommandArgs::Other("scale".to_string())).unwrap().is_empty());
}

#[test]
fn log_task_runs_only_what_is_needed() {
    let task = MonographLogCtlTask::new(
        TaskId::new("monograph_log_start", "start", "h1"),
        vec![
            (LogProcessKey { host: "h1".to_string(), port: 9000 }, LogCtlCmd::Start("a".to_string())),
            (LogProcessKey { host: "h1".to_string(), port: 9001 }, LogCtlCmd::Start("b".to_string())),
        ],
    );
    let run = task.commands_to_run("start", &vec![true, false]);
    assert_eq!(run.len(), 1);
    assert_eq!(run[0].0.port, 9001);
    let kill = task.commands_to_run("stop", &vec![true, false]);
    assert_eq!(kill[0].0.port, 9000);
    assert_eq!(
        MonographLogCtlTask::cluster_cmd_string(&CommandArgs::LogService { cluster: "kv".to_string(), command: "Start".to_string() }),
        "Start"
    );
    assert_eq!(MonographLogCtlTask::cluster_cmd_string(&CommandArgs::Start { cluster: "kv".to_string() }), "start");
}

#[test]
fn tx_server_commands_and_names() {
    let status = TxCtlCmd::for_port(&TxCtlKind::Status, "eloq", "/k/bin/eloqkv", "7000");
    assert_eq!(status.cmd_value(), "ps uxwe -u eloq | grep /k/bin/eloqkv | grep 7000 | grep -v grep |  awk '{print $2}' ");
    let stop = TxCtlCmd::for_port(&TxCtlKind::Stop, "eloq", "/k/bin/eloqkv", "7000");
    assert_eq!(stop.cmd_value(), "ps uxwe -u eloq | grep /k/bin/eloqkv | grep 7000 | grep -v grep |  awk '{print $2}' | xargs -r kill");
    assert_eq!(TxCtlCmd::for_port(&TxCtlKind::ForceStop, "u", "b", "1").kind_name(), "force_stop");
    assert_eq!(ServerType::Standby.name(), "standby");
    let id = tx_task_id(&SubCommand::Stop { force: false }, &ServerType::Tx, "10.0.0.1:7000").unwrap();
    assert_eq!(id.task, "txservice-stop-7000");
    assert_eq!(id.host, "10.0.0.1");
    assert_eq!(id.cmd, "stop");
    assert!(tx_task_id(&SubCommand::Start, &ServerType::Tx, "nohost").is_none());
    assert_eq!(extract_server_type_and_port("txservice-start-7000"), ("txservice".to_string(), "7000".to_string()));
    assert_eq!(extract_server_type_and_port("node-remove-7001"), ("node".to_string(), "7001".to_string()));
    assert_eq!(RedisProbe::new("h".to_string(), 6379).url(), "redis://h:6379/");
    let t = MonographTxCtlTask::new(id, status);
    assert_eq!(t.task_id.host, "10.0.0.1");
}

#[test]
fn monograph_commands() {
    let start = MonographCtlCmd::for_host("start", &None, "/m", "h1");
    assert_eq!(
        start.cmd_value(),
        "mkdir -p /m/monographdb-release/logs && cd /m/monographdb-release/install &&  export LD_LIBRARY_PATH=/m/monographdb-release/install/lib:$LD_LIBRARY_PATH; /m/monographdb-release/install/bin/mysqld --defaults-file=/m/my_h1.cnf > /m/monographdb-release/logs/mysqld_start.log 2>&1 &"
    );
    let forced = MonographCtlCmd::for_host("stop", &Some("true".to_string()), "/m", "h1");
    assert_eq!(forced.cmd_value(), "ps uxwe | grep /m/monographdb-release/install/bin/mysqld | grep -v grep |  awk '{print $2}' | xargs kill -9");
    assert!(matches!(MonographCtlCmd::for_host("stop", &Some("yes".to_string()), "/m", "h1"), MonographCtlCmd::Stop(_)));
    let t = MonographCtlTask::new(TaskId::new("status", "monographdb-status", "h1"), forced, "/m".to_string());
    assert_eq!(t.monograph_pid(), "ps uxwe | grep /m/monographdb-release/install/bin/mysqld | grep -v grep |  awk '{print $2}' ");
}

#[test]
fn log_probe_reports_urls() {
    let p = MonographLogProbeTask::new(
        TaskId::new("monograph_log_service_probe", "readiness", "_NONE"),
        vec![(0, strings(&["http://a/h", "http://b/h"])), (1, strings(&["http://c/h"]))],
    );
    assert_eq!(p.check_health_string(), "group_id=0,check_health_url=http://a/h;http://b/h\tgroup_id=1,check_health_url=http://c/h");
    let r = p.build_command_result(0, "ok".to_string());
    assert_eq!(r.status, 0);
    assert_eq!(r.output, "ok");
}

#[test]
fn proxy_commands() {
    let svc = ProxyService { conf_path: "/p/proxy.toml".to_string(), install_dir: "/p".to_string() };
    let args = vec![("proxy_bin".to_string(), "/p/bin/proxy".to_string())];
    let t = ProxyCtlTask::start_proxy("key".to_string(), "u".to_string(), 22, "h".to_string(), &args, &svc);
    match t.task_type {
        ProxyTaskType::StartProxy { command } => assert_eq!(
            command,
            "chmod +x /p/bin/proxy; nohup /p/bin/proxy --config=/p/proxy.toml > /p/proxy.log 2>&1 & echo $! > /p/proxy.pid"
        ),
        _ => panic!("expected start"),
    }
    let s = ProxyCtlTask::stop_proxy("key".to_string(), "u".to_string(), 22, "h".to_string(), &svc);
    assert!(matches!(s.task_type, ProxyTaskType::StopProxy { ref command } if command == "kill $(cat /p/proxy.pid)"));
    let rargs = vec![
        ("web_service_addr".to_string(), "10.0.0.5:8080".to_string()),
        ("cluster_token".to_string(), "tok".to_string()),
    ];
    let r = ProxyCtlTask::remove_cluster("key".to_string(), "ignored".to_string(), "kv", &rargs);
    assert_eq!(r.host, "10.0.0.5:8080");
    assert!(matches!(r.task_type, ProxyTaskType::RemoveCluster { ref cluster_name, ref token } if cluster_name == "kv" && token == "tok"));
}

#[test]
fn ini_configuration() {
    let (id, task) = IniConfigUpdateTask::new(
        "kv",
        Some(strings(&[" a : 1 ", "b:2", "noseparator", "a:3"])),
        None,
    );
    assert_eq!(id.cmd, "ini-config-update");
    let fields = task.parse_fields();
    assert_eq!(fields, vec![("a".to_string(), "3".to_string()), ("b".to_string(), "2".to_string())]);
    let text = "# comment\n; other\n\neloq_data_path = /data\nenable_data_store=YES\nenable_wal = 0\nunknown = 1\n";
    let c = task.parse_ini_to_config_json(text);
    assert_eq!(c.eloq_data_path, "/data");
    assert!(c.enable_data_store);
    assert!(!c.enable_wal);
    let out = task.config_json_to_ini(&ConfigJson { eloq_data_path: "/d".to_string(), enable_data_store: true, enable_wal: false });
    assert_eq!(out, "eloq_data_path = /d\nenable_data_store = true\nenable_wal = false\n");
    let back = task.parse_ini_to_config_json(&out);
    assert_eq!(back.eloq_data_path, "/d");
    assert!(back.enable_data_store && !back.enable_wal);
}

#[test]
fn task_groups_and_field_validation() {
    assert_eq!(init_task_group().len(), 20);
    assert_eq!(task_group("stop"), Some(TaskGroupKind::CtrlDB));
    assert_eq!(task_group("demo"), Some(TaskGroupKind::Launch));
    assert_eq!(task_group("nope"), None);
    let known = strings(&["enable_wal", "eloq_data_path"]);
    assert_eq!(validate_fields(&strings(&["enable_wal:true"]), &known, None), Ok(()));
    assert_eq!(
        validate_fields(&strings(&["enable_wal"]), &known, Some(1)),
        Err("Invalid field update format: 'enable_wal'. Expected 'field:value'.".to_string())
    );
    assert_eq!(
        validate_fields(&strings(&["foo:1", "bar"]), &known, None),
        Err("Unknown configuration field 'foo'. Run 'eloqctl help config-fields' for a list of valid fields.".to_string())
    );
}

#[test]
fn deployment_helpers() {
    let cfg = DeployConfig {
        cluster_name: "kv".to_string(),
        connection: Connection { username: "eloq".to_string(), ssh_port: 22, ssh_auth_key: Some("/home/eloq/.ssh/id_rsa".to_string()) },
        install_dir: "/i".to_string(),
        tx_home: "/i/kv".to_string(),
        unique_hosts: strings(&["h1"]),
        storage_service: None,
    };
    let c = Config::Cluster(cfg);
    assert_eq!(c.conn_user(), "eloq");
    assert_eq!(c.get_unique_host_list(), strings(&["h1"]));
    assert_eq!(c.ssh_port(), 22);
    assert_eq!(c.conn_ref().username, "eloq");
    assert_eq!(c.conn_ssh_auth_key(), "/home/eloq/.ssh/id_rsa");
    let s = StorageService { rocksdb_dss_peers: None, eloqdss: None };
    assert!(!is_eloqstore_cloud(&s));
    assert!(get_eloqstore_s3_config(&s).is_none());
}

#[test]
fn runtime_dependency_commands() {
    assert_eq!(
        runtime_deps_command("ubuntu", "22", true, "libssl"),
        "apt-get update && DEBIAN_FRONTEND=noninteractive apt-get install -y --no-install-recommends libssl"
    );
    assert_eq!(
        runtime_deps_command("centos", "7", false, "gcc"),
        "sudo yum install -y epel-release && sudo yum update -y && sudo yum install -y gcc"
    );
    let id = RuntimeDepsInstallation::task_id_for("centos", "h1");
    assert_eq!(id.task, "centos_install_deps");
    assert_eq!(RuntimeDepsInstallation::new("x".to_string(), id).install_dep_cmd, "x");
}


#[test]
fn log_probe_waits_for_every_leader_then_reports_members() {
    let p = MonographLogProbeTask::new(
        TaskId::new("monograph_log_service_probe", "readiness", "_NONE"),
        vec![(0, strings(&["http://a/h", "http://b/h"])), (1, strings(&["http://c/h"]))],
    );
    let answers = vec![
        (0u64, ProbeAnswer::Role { addr: "a:1".to_string(), state: "leader".to_string() }),
        (0u64, ProbeAnswer::Role { addr: "b:1".to_string(), state: "FOLLOWER".to_string() }),
        (1u64, ProbeAnswer::Role { addr: "c:1".to_string(), state: "Leader".to_string() }),
    ];
    assert!(matches!(p.probe_step(0, None, &answers), ProbeStep::Continue { successes: 1 }));
    match p.probe_step(3, None, &answers) {
        ProbeStep::Done { output } => assert_eq!(
            output,
            "(group:0, leaders:1, addr:a:1)\n(group:0, leaders:0, addr:b:1)\n(group:1, leaders:1, addr:c:1)"
        ),
        other => panic!("unexpected {:?}", other),
    }
    let short = vec![(0u64, ProbeAnswer::NotOk { addr: "a:1".to_string() }), (1u64, ProbeAnswer::Failed)];
    assert!(matches!(p.probe_step(5, Some(1), &short), ProbeStep::Continue { successes: 5 }));
    let with_failure = vec![
        (0u64, ProbeAnswer::Role { addr: "a:1".to_string(), state: "LEADER".to_string() }),
        (0u64, ProbeAnswer::Failed),
        (1u64, ProbeAnswer::Role { addr: "c:1".to_string(), state: "LEADER".to_string() }),
    ];
    assert!(p.try_probe_step(3, None, &with_failure).is_none());
    assert!(matches!(p.try_probe_step(0, None, &with_failure), Some(ProbeStep::Continue { successes: 1 })));
}

#[test]
fn log_srv_group_names_and_probes() {
    let (name, probes) = log_srv_group("Start");
    assert_eq!(name, "log-srv-Start");
    assert!(probes);
    let (name, probes) = log_srv_group("status");
    assert_eq!(name, "log-srv-status");
    assert!(probes);
    let (name, probes) = log_srv_group("stop");
    assert_eq!(name, "log-srv-stop");
    assert!(!probes);
}

#[test]
fn proxy_group_plan() {
    let svc = ProxyService { conf_path: "/p/proxy.toml".to_string(), install_dir: "/p".to_string() };
    assert_eq!(
        proxy_stages(&ProxyCommand::Start { config: "c.yaml".to_string() }),
        vec![ProxyStage::Download, ProxyStage::MakeInstallDir, ProxyStage::Upload, ProxyStage::Start]
    );
    assert_eq!(proxy_stages(&ProxyCommand::Stop { proxy_name: "p".to_string() }), vec![ProxyStage::Stop]);
    assert!(proxy_stages(&ProxyCommand::List { proxy_name: "p".to_string() }).is_empty());
    assert_eq!(proxy_mkdir_command(&svc), "mkdir -p /p");
    assert_eq!(proxy_group_name("proxy"), "proxy-control-proxy");
    let addrs = vec!["h1:6000".to_string(), "h2".to_string(), "h1:6001".to_string()];
    let hosts = proxy_hosts(&addrs);
    assert_eq!(hosts, vec!["h1".to_string(), "h2".to_string(), "h1".to_string()]);
    let args = vec![("proxy_bin".to_string(), "/p/bin/proxy".to_string())];
    let tasks = ProxyCtlTask::from_config(
        &ProxyCommand::Start { config: "c.yaml".to_string() },
        &"key".to_string(),
        &"u".to_string(),
        22,
        &hosts,
        &args,
        &svc,
    );
    assert_eq!(tasks.len(), 2);
    assert_eq!(tasks[0].host, "h1");
    assert_eq!(tasks[1].host, "h2");
    assert!(matches!(tasks[1].task_type, ProxyTaskType::StartProxy { .. }));
    let stops = ProxyCtlTask::from_config(&ProxyCommand::Stop { proxy_name: "p".to_string() }, &"key".to_string(), &"u".to_string(), 22, &hosts, &Vec::new(), &svc);
    assert_eq!(stops.len(), 2);
    match &stops[0].task_type {
        ProxyTaskType::StopProxy { command } => assert_eq!(command, "kill $(cat /p/proxy.pid)"),
        other => panic!("unexpected {:?}", other),
    }
}

#[test]
fn mysql_probe_url_and_retry() {
    let p = MySQLProbe::new("h".to_string(), 3306, "root".to_string(), "_NONE".to_string());
    assert_eq!(p.url(), "mysql://root@h:3306/mysql");
    let p = MySQLProbe::new("h".to_string(), 3306, "root".to_string(), "pw".to_string());
    assert_eq!(p.url(), "mysql://root:pw@h:3306/mysql");
    assert_eq!(probe_retry(true, 3), Some(2));
    assert_eq!(probe_retry(true, 0), None);
    assert_eq!(probe_retry(true, -1), None);
    assert_eq!(probe_retry(false, 5), None);
}
