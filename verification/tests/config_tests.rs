use cluster_mgr::ini::{apply_field_updates, ini_update_report, no_valid_updates, ConfigJson, IniConfigUpdateTask};
use cluster_mgr::misc::{dep_pkg_commands, dep_pkg_task_id};

fn config() -> ConfigJson {
    ConfigJson { eloq_data_path: "/data".to_string(), enable_data_store: false, enable_wal: true }
}

fn pairs(v: &[(&str, &str)]) -> Vec<(String, String)> {
    v.iter().map(|(a, b)| (a.to_string(), b.to_string())).collect()
}

#[test]
fn field_updates_apply_known_fields() {
    let (c, changed) = apply_field_updates(
        &config(),
        &pairs(&[("enable_data_store", "YES"), ("eloq_data_path", "/new"), ("enable_wal", "no")]),
    );
    assert!(changed);
    assert_eq!(c.eloq_data_path, "/new");
    assert!(c.enable_data_store);
    assert!(!c.enable_wal);
    let (c2, changed2) = apply_field_updates(&config(), &pairs(&[("unknown", "1")]));
    assert!(!changed2);
    assert_eq!(c2.eloq_data_path, "/data");
    let (c3, _) = apply_field_updates(&config(), &pairs(&[("enable_data_store", "1"), ("enable_wal", "True")]));
    assert!(c3.enable_data_store);
    assert!(c3.enable_wal);
}

#[test]
fn update_report_and_refusal() {
    assert_eq!(
        ini_update_report("c1", 3, 0),
        (0, "INI config update completed for cluster c1. Updated 3 nodes, 0 failures.".to_string())
    );
    assert_eq!(ini_update_report("c1", 1, 2).0, 1);
    let (_, task) = IniConfigUpdateTask::new("c1", Some(vec!["bad".to_string()]), None);
    assert_eq!(
        no_valid_updates(&task, &vec![]),
        Some("No valid field updates provided. Format should be field_1:value_1,field_2:value_2".to_string())
    );
    let (_, none) = IniConfigUpdateTask::new("c1", None, None);
    assert_eq!(no_valid_updates(&none, &vec![]), None);
}

#[test]
fn dependency_package_commands_per_os() {
    let (prep, head) = dep_pkg_commands("ubuntu", "22").unwrap();
    assert_eq!(prep, vec!["sudo apt update".to_string()]);
    assert_eq!(head, "sudo DEBIAN_FRONTEND=noninteractive apt install -y --no-install-recommends");
    let (prep7, head7) = dep_pkg_commands("rhel", "7").unwrap();
    assert_eq!(prep7.len(), 2);
    assert_eq!(head7, "sudo yum install -y");
    let (prep9, _) = dep_pkg_commands("rhel", "9").unwrap();
    assert!(prep9[0].ends_with("epel-release-latest-9.noarch.rpm"));
    assert_eq!(dep_pkg_commands("arch", "1").unwrap_err(), "for now only support ubuntu/rhel linux");
    let id = dep_pkg_task_id("ubuntu", "h1");
    assert_eq!((id.cmd.as_str(), id.task.as_str(), id.host.as_str()), ("run_deps", "ubuntu_install_deps", "h1"));
}
