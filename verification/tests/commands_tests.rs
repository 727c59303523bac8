use cluster_mgr::daemon::{
    CtlCmd, CtlEntry, CtlKind, StartProbe, any_pid_running, commands_to_run, ctl_entries, dss_status_output,
    rclone_status_output, readiness_check, status_from_start, status_from_stop,
};
use cluster_mgr::deploy::{Connection, CloudConfig, DataStoreService, DeployConfig, DssMode, EloqStoreConfig, StorageService};
use cluster_mgr::dss::{DssCtlCmd, DssPeer, MonographDssCtlTask, dss_peer_host_ports, parse_dss_host_port};
use cluster_mgr::rclone::{
    RcloneConfigCmd, RcloneConfigTask, RcloneCtlCmd, RcloneCtlTask, RcloneDirCmd, RcloneDirTask, rclone_dir_host,
    rclone_dir_task_name,
};
use cluster_mgr::task::{SubCommand, TaskId};
use cluster_mgr::txctl::{tx_ctl_tasks, ServerType};

fn strings(v: &[&str]) -> Vec<String> {
    v.iter().map(|s| s.to_string()).collect()
}

fn cloud_deploy(mode: DssMode, peers: Option<Vec<String>>, ports: Vec<u16>) -> DeployConfig {
    DeployConfig {
        cluster_name: "kv".to_string(),
        connection: Connection { username: "eloq".to_string(), ssh_port: 22, ssh_auth_key: Some("/home/eloq/.ssh/id_rsa".to_string()) },
        install_dir: "/home/eloq".to_string(),
        tx_home: "/home/eloq/kv".to_string(),
        unique_hosts: strings(&["h1", "h2"]),
        storage_service: Some(StorageService {
            rocksdb_dss_peers: None,
            eloqdss: Some(DataStoreService {
                mode,
                peer_host_ports: peers,
                eloq_store: EloqStoreConfig {
                    cloud_mode: true,
                    daemon_ports: ports,
                    cloud_store_path: Some(("remote".to_string(), "bucket/path".to_string())),
                    cloud_config: Some(CloudConfig {
                        cloud_type: "s3".to_string(),
                        cloud_provider: "AWS".to_string(),
                        access_key_id: "AK".to_string(),
                        secret_access_key: "SK".to_string(),
                        region: "us-east-1".to_string(),
                        endpoint: "http://s3".to_string(),
                        reuse_local_files: None,
                    }),
                },
            }),
        }),
    }
}

const PS_5572: &str = "ps uxwe -u eloq | grep 'rclone rcd' | grep -e '--rc-addr=127.0.0.1:5572' | grep -v grep | awk '{print $2}'";

#[test]
fn rclone_start_commands_for_local_store() {
    let cfg = cloud_deploy(DssMode::Local, None, vec![5572]);
    let cmds = RcloneCtlCmd::build_cmd(&cfg, &SubCommand::Start);
    assert_eq!(cmds.len(), 4);
    assert_eq!(cmds[0].0, "h1");
    assert_eq!(
        cmds[0].1.cmd_value(),
        "cd /home/eloq/kv; mkdir -p /home/eloq/kv/logs/rclone; rclone rcd --rc-no-auth --rc-addr=127.0.0.1:5572 --transfers=16 --checkers=16 --s3-upload-concurrency=8 --s3-chunk-size=8M --fast-list -v > /home/eloq/kv/logs/rclone/rclone-5572.log 2>&1 &"
    );
    assert_eq!(cmds[1].1.cmd_value(), PS_5572);
    assert_eq!(cmds[2].0, "h2");
}

#[test]
fn rclone_stop_and_remove_commands_for_remote_store() {
    let cfg = cloud_deploy(DssMode::RemoteInternal, Some(strings(&["d1:9100", "d2"])), vec![5572, 5573]);
    let stop = RcloneCtlCmd::build_cmd(&cfg, &SubCommand::Stop { force: false });
    assert_eq!(stop.len(), 8);
    assert_eq!(stop[0].0, "d1");
    assert_eq!(stop[0].1.cmd_value(), format!("{PS_5572} | xargs -r kill"));
    assert_eq!(stop[4].0, "d2");
    let forced = RcloneCtlCmd::build_cmd(&cfg, &SubCommand::Stop { force: true });
    assert!(matches!(forced[0].1, RcloneCtlCmd::ForceStop(_)));
    let remove = RcloneCtlCmd::build_cmd(&cfg, &SubCommand::Remove);
    assert_eq!(remove[0].1.cmd_value(), format!("{PS_5572} | xargs -r kill -9"));
    let status = RcloneCtlCmd::build_cmd(&cfg, &SubCommand::Status);
    assert_eq!(status.len(), 4);
    assert!(RcloneCtlCmd::build_cmd(&cfg, &SubCommand::Other("backup".to_string())).is_empty());
}

#[test]
fn rclone_is_not_managed_for_external_or_local_stores() {
    assert!(RcloneCtlCmd::build_cmd(&cloud_deploy(DssMode::RemoteExternal, None, vec![5572]), &SubCommand::Start).is_empty());
    assert!(RcloneCtlCmd::build_cmd(&cloud_deploy(DssMode::Local, None, vec![]), &SubCommand::Start).is_empty());
    let mut cfg = cloud_deploy(DssMode::Local, None, vec![5572]);
    cfg.storage_service.as_mut().unwrap().eloqdss.as_mut().unwrap().eloq_store.cloud_mode = false;
    assert!(RcloneCtlCmd::build_cmd(&cfg, &SubCommand::Start).is_empty());
}

#[test]
fn rclone_directory_and_config_commands() {
    let cfg = cloud_deploy(DssMode::Local, None, vec![5572]);
    let mk = RcloneDirCmd::build_cmd(&cfg, &SubCommand::Launch);
    assert_eq!(mk.len(), 1);
    assert_eq!(mk[0].0, "remote:bucket/path");
    assert_eq!(mk[0].1.cmd_value(), "rclone mkdir remote:bucket/path");
    let rm = RcloneDirCmd::build_cmd(&cfg, &SubCommand::Remove);
    assert_eq!(rm[0].1.cmd_value(), "rclone purge remote:bucket/path");
    assert_eq!(rm[1].1.cmd_value(), "rclone rmdir remote:bucket/path");
    assert!(RcloneDirCmd::build_cmd(&cfg, &SubCommand::Start).is_empty());
    assert_eq!(rclone_dir_host(&cfg), Some("h1".to_string()));
    let remote = cloud_deploy(DssMode::RemoteInternal, Some(strings(&["d1:9100"])), vec![]);
    assert_eq!(rclone_dir_host(&remote), Some("d1".to_string()));
    assert_eq!(rclone_dir_task_name(&rm[0].1, "remote:bucket/path", "h1"), "purge@remote:bucket/path@h1");

    let create = RcloneConfigCmd::build_cmd(&cfg, &SubCommand::Install);
    assert_eq!(create[0].0, "remote");
    assert_eq!(
        create[0].1.cmd_value(),
        "rclone config create remote s3 provider AWS env_auth false access_key_id AK secret_access_key SK endpoint http://s3 acl private"
    );
    let delete = RcloneConfigCmd::build_cmd(&cfg, &SubCommand::Remove);
    assert_eq!(delete[0].1.cmd_value(), "rclone config delete remote");
}

#[test]
fn stop_command_gives_its_process_listing() {
    assert_eq!(status_from_stop("ps x | grep y | xargs -r kill"), "ps x | grep y");
    assert_eq!(status_from_stop("ps x"), "ps x");
}

#[test]
fn start_command_gives_its_process_listing() {
    let rclone = StartProbe::Rclone { user: "eloq".to_string() };
    let start = "cd /k; rclone rcd --rc-no-auth --rc-addr=127.0.0.1:5572 --transfers=16 > /k/log 2>&1 &";
    assert_eq!(status_from_start(&rclone, start), Some(PS_5572.to_string()));
    assert_eq!(status_from_start(&rclone, "rclone rcd"), None);
    let dss = StartProbe::Dss { user: "eloq".to_string(), tx_home: "/k".to_string() };
    assert_eq!(
        status_from_start(&dss, "cd /k; /k/bin/dss_server --config=/k/conf/dss.ini > /k/logs/std.log 2>&1 &"),
        Some("ps uxwe -u eloq | grep '/k/bin/dss_server' | grep ' --config=/k/conf/dss.ini' | grep -v grep | awk '{print $2}'".to_string())
    );
}

#[test]
fn control_entries_and_what_runs() {
    let probe = StartProbe::Rclone { user: "eloq".to_string() };
    let start = "rclone rcd --rc-addr=127.0.0.1:5572 -v".to_string();
    let cmds = vec![
        CtlCmd::Start(start.clone()),
        CtlCmd::Status(PS_5572.to_string()),
        CtlCmd::Start("no address".to_string()),
    ];
    let entries = ctl_entries(&probe, &cmds);
    assert_eq!(entries.len(), 2);
    assert!(entries[0].kind == CtlKind::Start);
    assert_eq!(entries[0].status_cmd, PS_5572);
    let run = commands_to_run("start", &entries, &vec![false, false], true);
    assert_eq!(run, vec![(start.clone(), true)]);
    assert!(commands_to_run("start", &entries, &vec![true, false], true).is_empty());
    assert!(commands_to_run("install", &entries, &vec![false, false], false).is_empty());
    let stop = vec![CtlEntry { status_cmd: "ps".to_string(), exec_cmd: Some("ps | xargs kill".to_string()), kind: CtlKind::Stop }];
    assert_eq!(commands_to_run("remove", &stop, &vec![true], false), vec![("ps | xargs kill".to_string(), false)]);
    assert!(commands_to_run("stop", &stop, &vec![false], false).is_empty());
    assert_eq!(readiness_check(&probe, &cmds), Some(PS_5572.to_string()));
    assert!(any_pid_running(&vec![false, true]));
    assert!(!any_pid_running(&vec![]));
    assert_eq!(rclone_status_output(true, &Some("12".to_string())), "\nrclone is running, pid: 12.");
    assert_eq!(rclone_status_output(true, &None), "\nrclone is down.");
    assert_eq!(dss_status_output(false), "\ndss_server is down.");
}

#[test]
fn tasks_run_the_commands_of_their_host() {
    let t = RcloneCtlTask::new(
        TaskId::new("rclone_start", "start", "h2"),
        vec![
            ("h1".to_string(), RcloneCtlCmd::Status("a".to_string())),
            ("h2".to_string(), RcloneCtlCmd::Status("b".to_string())),
        ],
    );
    let cmds = t.commands_for_host();
    assert_eq!(cmds.len(), 1);
    assert!(matches!(&cmds[0], CtlCmd::Status(s) if s == "b"));
    let d = MonographDssCtlTask::new(
        TaskId::new("dss_stop", "stop", "h1"),
        vec![("h1".to_string(), DssCtlCmd::Stop("x".to_string()))],
    );
    assert_eq!(d.commands_for_host().len(), 1);
}

#[test]
fn data_store_peers_and_commands() {
    assert_eq!(parse_dss_host_port("d1:9100").unwrap(), ("d1".to_string(), "9100".to_string()));
    assert_eq!(parse_dss_host_port("d1").unwrap_err(), "invalid host:port 'd1', expected host:port");
    assert!(parse_dss_host_port("d1:91:00").is_err());
    assert!(parse_dss_host_port(":9100").is_err());
    let remote = cloud_deploy(DssMode::RemoteExternal, Some(strings(&["d1:9100"])), vec![]);
    assert_eq!(dss_peer_host_ports(remote.storage_service.as_ref().unwrap()), strings(&["d1:9100"]));
    let local = cloud_deploy(DssMode::Local, Some(strings(&["d1:9100"])), vec![]);
    assert!(dss_peer_host_ports(local.storage_service.as_ref().unwrap()).is_empty());
    let peers = vec![DssPeer { host_port: "d1:9100".to_string(), ini_file: "/k/conf/dss-9100.ini".to_string() }];
    let start = DssCtlCmd::build_cmd("eloq", "/k", &peers, &SubCommand::Start);
    assert_eq!(start[0].0, "d1");
    assert_eq!(
        start[0].1.cmd_value(),
        "cd /k; mkdir -p /k/logs/dss; /k/bin/dss_server --config=/k/conf/dss-9100.ini > /k/logs/dss/std-9100.log 2>&1 &"
    );
    let stop = DssCtlCmd::build_cmd("eloq", "/k", &peers, &SubCommand::Stop { force: true });
    assert_eq!(
        stop[0].1.cmd_value(),
        "ps uxwe -u eloq | grep '/k/bin/dss_server' | grep ' --config=/k/conf/dss-9100.ini' | grep -v grep | awk '{print $2}' | xargs -r kill -9"
    );
    let bad = vec![DssPeer { host_port: "d1".to_string(), ini_file: "x".to_string() }];
    assert!(DssCtlCmd::try_build_cmd("eloq", "/k", &bad, &SubCommand::Start).is_none());
    assert!(DssCtlCmd::try_build_cmd("eloq", "/k", &peers, &SubCommand::Install).is_none());
    assert!(DssCtlCmd::try_build_cmd("eloq", "/k", &vec![], &SubCommand::Install).unwrap().is_empty());
    assert_eq!(DssCtlCmd::try_build_cmd("eloq", "/k", &peers, &SubCommand::Status).unwrap().len(), 1);
}

#[test]
fn rclone_directory_and_config_tasks() {
    let cfg = cloud_deploy(DssMode::Local, None, vec![5572]);
    let dirs = RcloneDirTask::build_tasks(&cfg, &SubCommand::Remove);
    assert_eq!(dirs.len(), 2);
    assert_eq!(dirs[0].task_id.task, "purge@remote:bucket/path@h1");
    assert_eq!(dirs[0].task_id.cmd, "rclone_dir");
    assert_eq!(dirs[1].task_id.host, "h1");
    assert_eq!(dirs[1].cmd.cmd_value(), "rclone rmdir remote:bucket/path");
    let configs = RcloneConfigTask::build_tasks(&cfg, &SubCommand::Install);
    assert_eq!(configs.len(), 2);
    assert_eq!(configs[0].task_id.task, "remote@h1");
    assert_eq!(configs[1].task_id.host, "h2");
    assert_eq!(configs[1].task_id.cmd, "rclone_config");
    assert!(RcloneConfigTask::build_tasks(&cfg, &SubCommand::Start).is_empty());
    let remote = cloud_deploy(DssMode::RemoteInternal, Some(strings(&["d1:9100", "d1:9101", "d2:9100"])), vec![]);
    let remote_configs = RcloneConfigTask::build_tasks(&remote, &SubCommand::Install);
    let hosts: Vec<_> = remote_configs.iter().map(|t| t.task_id.host.clone()).collect();
    assert_eq!(hosts, strings(&["d1", "d2"]));
}

#[test]
fn tx_server_tasks_per_command() {
    let hps = strings(&["h1:6379", "h2:6380"]);
    let stop = tx_ctl_tasks(&SubCommand::Stop { force: false }, &ServerType::Tx, &hps, "eloq", "eloqkv");
    assert_eq!(stop.len(), 2);
    assert_eq!(stop[0].0.task, "txservice-stop-6379");
    assert_eq!(stop[0].0.host, "h1");
    assert_eq!(
        stop[0].1.as_ref().unwrap().cmd_value(),
        "ps uxwe -u eloq | grep eloqkv | grep 6379 | grep -v grep |  awk '{print $2}' | xargs -r kill"
    );
    let removal = tx_ctl_tasks(&SubCommand::Remove, &ServerType::Standby, &hps, "eloq", "eloqkv");
    assert_eq!(removal[1].0.task, "standby-remove-6380");
    assert_eq!(removal[1].1.as_ref().unwrap().kind_name(), "force_stop");
    let start = tx_ctl_tasks(&SubCommand::Start, &ServerType::Voter, &hps, "eloq", "eloqkv");
    assert!(start[0].1.is_none());
    assert_eq!(start[0].0.task, "voter-start-6379");
    let status = tx_ctl_tasks(&SubCommand::Status, &ServerType::Tx, &hps, "eloq", "eloqkv");
    assert_eq!(status[1].1.as_ref().unwrap().kind_name(), "status");
}
