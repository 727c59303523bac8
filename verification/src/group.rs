//! Which task group serves each command, and the check of `field:value`
//! configuration updates before any task runs.
use vstd::prelude::*;
use crate::text::{views, split_once, split_once_char};

verus! {

/// The task groups commands are served by.
#[derive(Debug, Clone, Copy, PartialEq, Eq, Structural)]
pub enum TaskGroupKind {
    InstallDB,
    Deployment,
    CtrlDB,
    CustomCmd,
    InstallDepPkg,
    MonitorCtl,
    LogServiceCtl,
    UpdateCluster,
    UpdateConfig,
    Launch,
    Remove,
    Check,
    Backup,
    Failover,
    Scale,
    ScaleLog,
}

/// The command names and the group serving each, in table order.
pub open spec fn task_group_table() -> Seq<(Seq<char>, TaskGroupKind)> {
    seq![
        ("deploy"@, TaskGroupKind::Deployment),
        ("install"@, TaskGroupKind::InstallDB),
        ("start"@, TaskGroupKind::CtrlDB),
        ("stop"@, TaskGroupKind::CtrlDB),
        ("restart"@, TaskGroupKind::CtrlDB),
        ("status"@, TaskGroupKind::CtrlDB),
        ("exec_cmd"@, TaskGroupKind::CustomCmd),
        ("run-deps"@, TaskGroupKind::InstallDepPkg),
        ("monitor"@, TaskGroupKind::MonitorCtl),
        ("log-srv"@, TaskGroupKind::LogServiceCtl),
        ("update"@, TaskGroupKind::UpdateCluster),
        ("update-conf"@, TaskGroupKind::UpdateConfig),
        ("launch"@, TaskGroupKind::Launch),
        ("remove"@, TaskGroupKind::Remove),
        ("demo"@, TaskGroupKind::Launch),
        ("check"@, TaskGroupKind::Check),
        ("backup"@, TaskGroupKind::Backup),
        ("failover"@, TaskGroupKind::Failover),
        ("scale"@, TaskGroupKind::Scale),
        ("scalelog"@, TaskGroupKind::ScaleLog),
    ]
}

pub open spec fn table_views(v: Seq<(String, TaskGroupKind)>) -> Seq<(Seq<char>, TaskGroupKind)> {
    v.map_values(|p: (String, TaskGroupKind)| (p.0@, p.1))
}

/// The table of command names and the task group serving each.
pub fn init_task_group() -> (r: Vec<(String, TaskGroupKind)>)
    ensures
        table_views(r@) == task_group_table(),
{
    let mut r: Vec<(String, TaskGroupKind)> = Vec::new();
    r.push((String::from_str("deploy"), TaskGroupKind::Deployment));
    r.push((String::from_str("install"), TaskGroupKind::InstallDB));
    r.push((String::from_str("start"), TaskGroupKind::CtrlDB));
    r.push((String::from_str("stop"), TaskGroupKind::CtrlDB));
    r.push((String::from_str("restart"), TaskGroupKind::CtrlDB));
    r.push((String::from_str("status"), TaskGroupKind::CtrlDB));
    r.push((String::from_str("exec_cmd"), TaskGroupKind::CustomCmd));
    r.push((String::from_str("run-deps"), TaskGroupKind::InstallDepPkg));
    r.push((String::from_str("monitor"), TaskGroupKind::MonitorCtl));
    r.push((String::from_str("log-srv"), TaskGroupKind::LogServiceCtl));
    r.push((String::from_str("update"), TaskGroupKind::UpdateCluster));
    r.push((String::from_str("update-conf"), TaskGroupKind::UpdateConfig));
    r.push((String::from_str("launch"), TaskGroupKind::Launch));
    r.push((String::from_str("remove"), TaskGroupKind::Remove));
    r.push((String::from_str("demo"), TaskGroupKind::Launch));
    r.push((String::from_str("check"), TaskGroupKind::Check));
    r.push((String::from_str("backup"), TaskGroupKind::Backup));
    r.push((String::from_str("failover"), TaskGroupKind::Failover));
    r.push((String::from_str("scale"), TaskGroupKind::Scale));
    r.push((String::from_str("scalelog"), TaskGroupKind::ScaleLog));
    assert(table_views(r@) =~= task_group_table());
    r
}

/// The group serving the command named `name`, the first entry of the table
/// with that name.
pub open spec fn spec_task_group(name: Seq<char>) -> Option<TaskGroupKind> {
    if name == "deploy"@ {
        Some(TaskGroupKind::Deployment)
    } else if name == "install"@ {
        Some(TaskGroupKind::InstallDB)
    } else if name == "start"@ {
        Some(TaskGroupKind::CtrlDB)
    } else if name == "stop"@ {
        Some(TaskGroupKind::CtrlDB)
    } else if name == "restart"@ {
        Some(TaskGroupKind::CtrlDB)
    } else if name == "status"@ {
        Some(TaskGroupKind::CtrlDB)
    } else if name == "exec_cmd"@ {
        Some(TaskGroupKind::CustomCmd)
    } else if name == "run-deps"@ {
        Some(TaskGroupKind::InstallDepPkg)
    } else if name == "monitor"@ {
        Some(TaskGroupKind::MonitorCtl)
    } else if name == "log-srv"@ {
        Some(TaskGroupKind::LogServiceCtl)
    } else if name == "update"@ {
        Some(TaskGroupKind::UpdateCluster)
    } else if name == "update-conf"@ {
        Some(TaskGroupKind::UpdateConfig)
    } else if name == "launch"@ {
        Some(TaskGroupKind::Launch)
    } else if name == "remove"@ {
        Some(TaskGroupKind::Remove)
    } else if name == "demo"@ {
        Some(TaskGroupKind::Launch)
    } else if name == "check"@ {
        Some(TaskGroupKind::Check)
    } else if name == "backup"@ {
        Some(TaskGroupKind::Backup)
    } else if name == "failover"@ {
        Some(TaskGroupKind::Failover)
    } else if name == "scale"@ {
        Some(TaskGroupKind::Scale)
    } else if name == "scalelog"@ {
        Some(TaskGroupKind::ScaleLog)
    } else {
        None
    }
}

/// The task group serving the command named `name`.
pub fn task_group(name: &str) -> (r: Option<TaskGroupKind>)
    ensures
        r == spec_task_group(name@),
{
    if crate::text::str_eq(name, "deploy") {
        return Some(TaskGroupKind::Deployment);
    }
    if crate::text::str_eq(name, "install") {
        return Some(TaskGroupKind::InstallDB);
    }
    if crate::text::str_eq(name, "start") {
        return Some(TaskGroupKind::CtrlDB);
    }
    if crate::text::str_eq(name, "stop") {
        return Some(TaskGroupKind::CtrlDB);
    }
    if crate::text::str_eq(name, "restart") {
        return Some(TaskGroupKind::CtrlDB);
    }
    if crate::text::str_eq(name, "status") {
        return Some(TaskGroupKind::CtrlDB);
    }
    if crate::text::str_eq(name, "exec_cmd") {
        return Some(TaskGroupKind::CustomCmd);
    }
    if crate::text::str_eq(name, "run-deps") {
        return Some(TaskGroupKind::InstallDepPkg);
    }
    if crate::text::str_eq(name, "monitor") {
        return Some(TaskGroupKind::MonitorCtl);
    }
    if crate::text::str_eq(name, "log-srv") {
        return Some(TaskGroupKind::LogServiceCtl);
    }
    if crate::text::str_eq(name, "update") {
        return Some(TaskGroupKind::UpdateCluster);
    }
    if crate::text::str_eq(name, "update-conf") {
        return Some(TaskGroupKind::UpdateConfig);
    }
    if crate::text::str_eq(name, "launch") {
        return Some(TaskGroupKind::Launch);
    }
    if crate::text::str_eq(name, "remove") {
        return Some(TaskGroupKind::Remove);
    }
    if crate::text::str_eq(name, "demo") {
        return Some(TaskGroupKind::Launch);
    }
    if crate::text::str_eq(name, "check") {
        return Some(TaskGroupKind::Check);
    }
    if crate::text::str_eq(name, "backup") {
        return Some(TaskGroupKind::Backup);
    }
    if crate::text::str_eq(name, "failover") {
        return Some(TaskGroupKind::Failover);
    }
    if crate::text::str_eq(name, "scale") {
        return Some(TaskGroupKind::Scale);
    }
    if crate::text::str_eq(name, "scalelog") {
        return Some(TaskGroupKind::ScaleLog);
    }
    None
}

/// Why a configuration update was refused.
pub open spec fn field_error(u: Seq<char>, known: Seq<Seq<char>>) -> Option<Seq<char>> {
    match split_once(u, ':') {
        Some((field, _)) => if known.contains(field) {
            None
        } else {
            Some("Unknown configuration field '"@ + field + "'. Run 'eloqctl help config-fields' for a list of valid fields."@)
        },
        None => Some("Invalid field update format: '"@ + u + "'. Expected 'field:value'."@),
    }
}

/// The first refusal among updates `us`, in order.
pub open spec fn first_field_error(us: Seq<Seq<char>>, known: Seq<Seq<char>>) -> Option<Seq<char>>
    decreases us.len(),
{
    if us.len() == 0 {
        None
    } else {
        match field_error(us[0], known) {
            Some(e) => Some(e),
            None => first_field_error(us.drop_first(), known),
        }
    }
}

/// Checks every `field:value` update against the known configuration
/// fields; the first update without `:` or naming an unknown field is the
/// error. Whether the fields are cluster-wide or per node only changes
/// what is logged.
pub fn validate_fields(field_updates: &Vec<String>, known_fields: &Vec<String>, tx_node_id: Option<u32>) -> (r: Result<(), String>)
    ensures
        match r {
            Ok(()) => first_field_error(views(field_updates@), views(known_fields@)) is None,
            Err(m) => first_field_error(views(field_updates@), views(known_fields@)) == Some(m@),
        },
{
    let mut i: usize = 0;
    assert(views(field_updates@).skip(0) =~= views(field_updates@));
    while i < field_updates.len()
        invariant
            i <= field_updates.len(),
            first_field_error(views(field_updates@), views(known_fields@)) == first_field_error(views(field_updates@).skip(i as int), views(known_fields@)),
        decreases field_updates.len() - i,
    {
        let ghost rest = views(field_updates@).skip(i as int);
        assert(rest[0] == field_updates@[i as int]@);
        assert(rest.drop_first() =~= views(field_updates@).skip(i + 1));
        let u = field_updates[i].as_str();
        match split_once_char(u, ':') {
            Some((field, _)) => {
                if !crate::topology::contains_string(known_fields, &field) {
                    let mut m = String::from_str("Unknown configuration field '");
                    m.append(field.as_str());
                    m.append("'. Run 'eloqctl help config-fields' for a list of valid fields.");
                    return Err(m);
                }
            },
            None => {
                let mut m = String::from_str("Invalid field update format: '");
                m.append(u);
                m.append("'. Expected 'field:value'.");
                return Err(m);
            },
        }
        i = i + 1;
    }
    Ok(())
}


} // verus!
