use cluster_mgr::backup::{
    check_restore_snapshot, check_restore_storage, eloqstore_deletion, local_deletion_outcome, s3_deletion_outcome, local_deletion, plan_backup_start,
    plan_snapshot_removal, s3_manifest_deletions, BackupError, RestoreError,
};
use cluster_mgr::misc::{archive_kind, archive_stem, extract_task_id, push_path, ArchiveKind, ExtractSource, LocalExtractTask, SnapshotEntity};
use cluster_mgr::plans::{
    bootstrap_targets, config_update_stages, install_dirs_command, ConfigUpdateStage, demo_topology_file, failover_checks, launch_stages, update_stages, version_check_command, LaunchPlanInputs,
    LaunchStage, UpdatePlanInputs, UpdateStage,
};

fn strings(v: &[&str]) -> Vec<String> {
    v.iter().map(|s| s.to_string()).collect()
}

fn snapshot(path: &str, ts: u64, host: &str, user: &str, status: i32) -> SnapshotEntity {
    SnapshotEntity {
        snapshot_path: path.to_string(),
        snapshot_ts: ts,
        dest_host: host.to_string(),
        dest_user: user.to_string(),
        snapshot_status: status,
    }
}

#[test]
fn backup_start_local_and_cloud() {
    let p = plan_backup_start(false, &Some("/bk".to_string()), &Some("h9".to_string()), &None, "c1", "20240101").unwrap();
    assert_eq!(
        p.mkdir,
        Some(("mkdir for /bk/c1/20240101".to_string(), "mkdir -p /bk/c1/20240101".to_string()))
    );
    assert_eq!(p.path, "/bk");
    assert_eq!(p.dest_host, Some("h9".to_string()));
    assert_eq!(p.dest_user, None);
    let c = plan_backup_start(true, &None, &Some("h9".to_string()), &None, "c1", "x").unwrap();
    assert!(c.mkdir.is_none());
    assert_eq!(c.path, "");
    assert!(c.dest_host.is_none());
    assert_eq!(plan_backup_start(false, &None, &None, &None, "c1", "x").unwrap_err(), BackupError::PathRequired);
    assert_eq!(
        plan_backup_start(false, &Some(String::new()), &None, &None, "c1", "x").unwrap_err(),
        BackupError::PathEmpty
    );
    assert_eq!(
        BackupError::PathRequired.message(),
        "--path is required for local storage. Please specify --path <PATH>"
    );
}

#[test]
fn snapshot_removal_split_by_place() {
    let ss = vec![
        snapshot("m1", 10, "", "", 0),
        snapshot("/bk/a", 20, "h1", "u", 0),
        snapshot("m2", 30, "", "", 0),
        snapshot("/bk/b", 5, "h2", "u", 0),
    ];
    assert_eq!(plan_snapshot_removal(&ss, Some(25)), (vec![0], vec![1, 3]));
    assert_eq!(plan_snapshot_removal(&ss, None), (vec![0, 2], vec![1, 3]));
    assert_eq!(plan_snapshot_removal(&ss, Some(0)), (vec![], vec![]));
}

#[test]
fn snapshot_deletions() {
    let d = local_deletion(&snapshot("/bk/a", 1, "h1", "bob", 0), "eloq");
    assert_eq!(d.task, "remove-local-/bk/a");
    assert_eq!(d.cmd, "rm -rf /bk/a");
    assert_eq!((d.user.as_str(), d.host.as_str()), ("bob", "h1"));
    let d2 = local_deletion(&snapshot("/bk/a", 1, "h1", "", 0), "eloq");
    assert_eq!((d2.user.as_str(), d2.host.as_str()), ("eloq", "localhost"));
    assert_eq!(
        eloqstore_deletion(&snapshot("  1700000000 ", 1, "", "", 0)),
        Some(("delete-eloqstore-1700000000".to_string(), "1700000000".to_string()))
    );
    assert_eq!(eloqstore_deletion(&snapshot("   ", 1, "", "", 0)), None);
    assert_eq!(
        s3_manifest_deletions(&strings(&["abc"])),
        vec![("delete-s3-rocksdb_cloud/CLOUDMANIFEST-abc".to_string(), "rocksdb_cloud/CLOUDMANIFEST-abc".to_string())]
    );
}

#[test]
fn restore_checks() {
    assert_eq!(check_restore_storage(false, false, false), Err(RestoreError::NotCloud));
    assert_eq!(check_restore_storage(true, false, false), Err(RestoreError::NotS3));
    assert_eq!(check_restore_storage(true, false, true), Ok(()));
    assert_eq!(check_restore_storage(false, true, false), Ok(()));
    assert_eq!(check_restore_snapshot(&snapshot("p", 1, "h", "u", 0)), Err(RestoreError::LocalSnapshot));
    assert_eq!(check_restore_snapshot(&snapshot("p", 1, "", "", 2)), Err(RestoreError::NotFinished(2)));
    assert_eq!(check_restore_snapshot(&snapshot("p", 1, "", "", 0)), Ok(()));
    assert_eq!(
        RestoreError::NotFinished(2).message(),
        "Snapshot status is not 'Finished' (status: 2). Only finished snapshots can be restored."
    );
}

#[test]
fn update_stage_order() {
    let with_standby = update_stages(UpdatePlanInputs {
        update_requested: true,
        has_standby: true,
        has_log_service: true,
        clean_store_data: false,
        has_voter: true,
    });
    assert_eq!(
        with_standby,
        vec![
            UpdateStage::Download,
            UpdateStage::UploadImages,
            UpdateStage::MastersTopology,
            UpdateStage::FailoverMasters,
            UpdateStage::StopMasters,
            UpdateStage::StopLog,
            UpdateStage::Unpack,
            UpdateStage::StartLog,
            UpdateStage::ProbeLog,
            UpdateStage::StartTx,
            UpdateStage::StandbysTopology,
            UpdateStage::FailoverBack,
            UpdateStage::StopStandbys,
            UpdateStage::RestartTx,
            UpdateStage::StartStandbys,
            UpdateStage::StartVoters,
            UpdateStage::CheckVersion,
        ]
    );
    let plain = update_stages(UpdatePlanInputs {
        update_requested: true,
        has_standby: false,
        has_log_service: false,
        clean_store_data: true,
        has_voter: false,
    });
    assert_eq!(
        plain,
        vec![
            UpdateStage::Download,
            UpdateStage::UploadImages,
            UpdateStage::StopTx,
            UpdateStage::Unpack,
            UpdateStage::CleanStoreData,
            UpdateStage::StartTx,
            UpdateStage::CheckVersion,
        ]
    );
    let none = update_stages(UpdatePlanInputs {
        update_requested: false,
        has_standby: true,
        has_log_service: true,
        clean_store_data: true,
        has_voter: true,
    });
    assert!(none.is_empty());
}

#[test]
fn update_pieces() {
    let checks = failover_checks(&strings(&["h1:6379", "bad", "h2:+80"]), "1");
    assert_eq!(checks.len(), 2);
    assert_eq!(checks[0].0.task, "failover-check-round1-6379");
    assert_eq!(checks[0].0.cmd, "failover");
    assert_eq!(checks[0].0.host, "h1");
    assert_eq!(checks[0].1, 6379);
    assert_eq!(checks[1].0.task, "failover-check-round1-+80");
    assert_eq!(checks[1].1, 80);
    assert_eq!(
        version_check_command("/opt"),
        ("/opt/EloqKV/bin/eloqkv --version".to_string(), "check_eloqkv_version".to_string())
    );
}

#[test]
fn launch_stage_order() {
    let all = launch_stages(LaunchPlanInputs { skip_deps: false, has_log_service: true, has_storage_service: true });
    assert_eq!(
        all,
        vec![
            LaunchStage::SshCheck,
            LaunchStage::InstallDeps,
            LaunchStage::Check,
            LaunchStage::Deploy,
            LaunchStage::StartLog,
            LaunchStage::ProbeLog,
            LaunchStage::Bootstrap,
            LaunchStage::StartCluster,
            LaunchStage::StartMonitor,
            LaunchStage::Topology,
            LaunchStage::UpdateTopology,
            LaunchStage::DisplayTopology,
        ]
    );
    let few = launch_stages(LaunchPlanInputs { skip_deps: true, has_log_service: false, has_storage_service: false });
    assert_eq!(few.len(), 8);
    assert_eq!(few[0], LaunchStage::SshCheck);
    assert!(!few.contains(&LaunchStage::Bootstrap));
    assert_eq!(demo_topology_file("/etc/eloq", "eloqkv"), "/etc/eloq/demo-eloqkv.yaml");
}

#[test]
fn bootstrap_targets_per_store() {
    let hps = strings(&["h1:6379", "h2:6380:x"]);
    assert_eq!(
        bootstrap_targets(&hps, false, false, false),
        Some(vec![("h1".to_string(), "6379".to_string()), ("h2".to_string(), "6380".to_string())])
    );
    assert_eq!(bootstrap_targets(&hps, true, false, false), Some(vec![("h1".to_string(), "6379".to_string())]));
    assert_eq!(bootstrap_targets(&strings(&["h1:6379"]), false, true, false), None);
    assert_eq!(
        bootstrap_targets(&strings(&["h1:6379"]), false, true, true),
        Some(vec![("h1".to_string(), "6379".to_string())])
    );
}

#[test]
fn archive_names_and_kinds() {
    assert_eq!(archive_stem("eloqkv-1.0.tar.gz"), "eloqkv-1.0");
    assert_eq!(archive_stem("grafana.zip"), "grafana");
    assert_eq!(archive_stem("PrometheusAlert"), "PrometheusAlert");
    assert_eq!(archive_kind("a.zip"), ArchiveKind::Zip);
    assert_eq!(archive_kind("a.tar.gz"), ArchiveKind::TarGz);
    assert_eq!(archive_kind("a.tgz"), ArchiveKind::RawBinary);
    let id = extract_task_id("a.zip");
    assert_eq!((id.cmd.as_str(), id.task.as_str(), id.host.as_str()), ("extract", "a.zip_extract", "_local"));
}

#[test]
fn config_update_stage_order() {
    assert!(config_update_stages(false, false, true).is_empty());
    assert_eq!(
        config_update_stages(true, true, true),
        vec![
            ConfigUpdateStage::CreateTlsDirs,
            ConfigUpdateStage::Topology,
            ConfigUpdateStage::UpdateNodeConfig,
            ConfigUpdateStage::UploadConfig,
        ]
    );
    assert_eq!(
        config_update_stages(false, true, false),
        vec![ConfigUpdateStage::UpdateAllConfig, ConfigUpdateStage::UploadConfig]
    );
    assert_eq!(install_dirs_command("/opt", Some("/opt/tls")), "mkdir -p /opt /opt/tls");
    assert_eq!(install_dirs_command("/opt", Some("/opt")), "mkdir -p /opt");
    assert_eq!(install_dirs_command("/opt", None), "mkdir -p /opt");
}

#[test]
fn pending_tasks_skip_succeeded() {
    let ids = vec![
        cluster_mgr::task::TaskId::new("deploy", "a", "h1"),
        cluster_mgr::task::TaskId::new("deploy", "b", "h1"),
        cluster_mgr::task::TaskId::new("deploy", "a", "h2"),
    ];
    let done = vec![cluster_mgr::task::TaskId::new("deploy", "a", "h1")];
    assert_eq!(cluster_mgr::task::pending_tasks(&ids, &done), vec![1, 2]);
    assert_eq!(cluster_mgr::task::pending_tasks(&ids, &vec![]), vec![0, 1, 2]);
}

#[test]
fn deletion_outcomes_keep_records_of_failed_deletions() {
    let ok = local_deletion_outcome(false, Some(0), "rm -rf /bk/a", &None);
    assert!(ok.delete_record);
    assert_eq!(ok.status, 0);
    assert_eq!(ok.output, "Successfully deleted local backup: rm -rf /bk/a");
    let failed = local_deletion_outcome(false, Some(2), "rm -rf /bk/a", &Some("denied".to_string()));
    assert!(!failed.delete_record);
    assert_eq!(failed.status, 1);
    assert_eq!(failed.output, "Failed to delete local backup: denied");
    let unknown = local_deletion_outcome(false, None, "x", &None);
    assert_eq!(unknown.output, "Failed to delete local backup: Unknown error");
    let forced = local_deletion_outcome(true, Some(2), "x", &None);
    assert!(forced.delete_record);
    assert_eq!(forced.status, 0);
    assert_eq!(forced.output, "Filesystem deletion failed but record removed from database (--force): status=2");
    let s3_ok = s3_deletion_outcome(false, &Ok(()), "b", "k");
    assert_eq!(s3_ok.output, "Successfully deleted s3://b/k");
    let s3_bad = s3_deletion_outcome(false, &Err("gone".to_string()), "b", "k");
    assert!(!s3_bad.delete_record);
    assert_eq!(s3_bad.status, 1);
    assert_eq!(s3_bad.output, "Failed to delete S3 object: gone");
    let s3_forced = s3_deletion_outcome(true, &Err("gone".to_string()), "b", "k");
    assert!(s3_forced.delete_record);
    assert_eq!(s3_forced.output, "S3 deletion failed but record removed from database (--force): gone");
}

#[test]
fn extraction_paths() {
    assert_eq!(LocalExtractTask::cached_archive_path("/home/u/.eloqctl/download", "eloqkv.tar.gz"), "/home/u/.eloqctl/download/eloqkv.tar.gz");
    assert_eq!(LocalExtractTask::cached_archive_path("/cache/", "g.zip"), "/cache/g.zip");
    assert_eq!(LocalExtractTask::extract_root_for("/cache", "grafana-10.zip"), "/cache/_extracted/grafana-10");
    assert_eq!(LocalExtractTask::staged_dir_for("/cache", "eloqkv.tar.gz", "eloqkv"), "/cache/_extracted/eloqkv/eloqkv");
    assert_eq!(push_path("/a", "/b"), "/b");
    assert_eq!(push_path("", "b"), "b");
}

#[test]
fn extraction_plan_keeps_first_source_of_each_package() {
    let src = |f: &str, b: &str, d: &str| ExtractSource { file_name: f.to_string(), base_dir: b.to_string(), unpack_dest: d.to_string() };
    let entries = vec![
        src("prometheus.tar.gz", "/c1", "prometheus"),
        src("grafana.zip", "/c2", "grafana"),
        src("prometheus.tar.gz", "/c3", "prometheus"),
        src("prometheus.tar.gz", "/c4", "other"),
    ];
    let steps = LocalExtractTask::from_urls(&entries);
    assert_eq!(steps.len(), 3);
    assert_eq!(steps[0].task_id.cmd, "extract");
    assert_eq!(steps[0].task_id.host, "_local");
    assert_eq!(steps[0].task_id.task, "prometheus.tar.gz_extract");
    assert_eq!(steps[0].archive_path, "/c1/prometheus.tar.gz");
    assert_eq!(steps[0].extract_root, "/c1/_extracted/prometheus");
    assert_eq!(steps[0].unpack_dest, "prometheus");
    assert_eq!(steps[1].archive_path, "/c2/grafana.zip");
    assert_eq!(steps[2].archive_path, "/c4/prometheus.tar.gz");
    assert_eq!(steps[2].unpack_dest, "other");
}
