//! Configuration updates of the tx servers: `field:value` updates given on
//! the command line, and the stored configuration read from and written to
//! INI text.
use vstd::prelude::*;
use crate::text::{
    lines, lines_str, trim, trim_str, split_once, split_once_char, starts_with_str, str_lowercase,
    lowercase, str_eq, views,
};
use crate::task::TaskId;

verus! {

/// The stored configuration of a tx server.
#[derive(Debug)]
pub struct ConfigJson {
    pub eloq_data_path: String,
    pub enable_data_store: bool,
    pub enable_wal: bool,
}

pub struct ConfigView {
    pub eloq_data_path: Seq<char>,
    pub enable_data_store: bool,
    pub enable_wal: bool,
}

impl View for ConfigJson {
    type V = ConfigView;

    open spec fn view(&self) -> ConfigView {
        ConfigView {
            eloq_data_path: self.eloq_data_path@,
            enable_data_store: self.enable_data_store,
            enable_wal: self.enable_wal,
        }
    }
}

/// A task that updates configuration fields of a cluster's tx servers.
#[derive(Debug)]
pub struct IniConfigUpdateTask {
    pub task_id: TaskId,
    pub cluster_name: String,
    /// Updates as `field:value`.
    pub fields: Option<Vec<String>>,
    /// The nodes to update, as `host:port`; all when absent.
    pub nodes: Option<Vec<String>>,
}

pub open spec fn opt_views(o: Option<Vec<String>>) -> Option<Seq<Seq<char>>> {
    match o {
        Some(v) => Some(views(v@)),
        None => None,
    }
}

/// `(key, value)` entries with a later entry for a key replacing the
/// earlier one in place: the map a sequence of inserts builds, in the order
/// keys first appear.
pub open spec fn insert_entry(m: Seq<(Seq<char>, Seq<char>)>, k: Seq<char>, v: Seq<char>) -> Seq<(Seq<char>, Seq<char>)> {
    if exists|i: int| 0 <= i < m.len() && m[i].0 == k {
        let i = choose|i: int| 0 <= i < m.len() && m[i].0 == k;
        m.update(i, (k, v))
    } else {
        m.push((k, v))
    }
}

/// The trimmed key and value of every update holding a `:` (split at its
/// first `:`), later updates of a key replacing earlier ones.
pub open spec fn field_map(fs: Seq<Seq<char>>) -> Seq<(Seq<char>, Seq<char>)>
    decreases fs.len(),
{
    if fs.len() == 0 {
        Seq::empty()
    } else {
        let m = field_map(fs.drop_last());
        match split_once(fs.last(), ':') {
            Some((k, v)) => insert_entry(m, trim(k), trim(v)),
            None => m,
        }
    }
}

/// The keys of `m` are distinct.
pub open spec fn keys_distinct(m: Seq<(Seq<char>, Seq<char>)>) -> bool {
    forall|i: int, j: int| 0 <= i < m.len() && 0 <= j < m.len() && i != j ==> m[i].0 != m[j].0
}

pub open spec fn entry_views(v: Seq<(String, String)>) -> Seq<(Seq<char>, Seq<char>)> {
    v.map_values(|p: (String, String)| (p.0@, p.1@))
}

/// Whether an INI value reads as true: `true` or `yes` in any case, or `1`.
pub open spec fn ini_true(v: Seq<char>) -> bool {
    str_lowercase(v) == "true"@ || v == "1"@ || str_lowercase(v) == "yes"@
}

/// The configuration that the INI lines `ls` leave, from `c`: blank lines
/// and `#` or `;` comments are skipped; of `key = value` lines (split at
/// the first `=`, both sides trimmed) the known keys set their field.
pub open spec fn apply_ini(c: ConfigView, ls: Seq<Seq<char>>) -> ConfigView
    decreases ls.len(),
{
    if ls.len() == 0 {
        c
    } else {
        let c0 = apply_ini(c, ls.drop_last());
        let line = trim(ls.last());
        if line.len() == 0 || line[0] == '#' || line[0] == ';' {
            c0
        } else {
            match split_once(line, '=') {
                Some((k, v)) => {
                    let key = trim(k);
                    let value = trim(v);
                    if key == "eloq_data_path"@ {
                        ConfigView { eloq_data_path: value, ..c0 }
                    } else if key == "enable_data_store"@ {
                        ConfigView { enable_data_store: ini_true(value), ..c0 }
                    } else if key == "enable_wal"@ {
                        ConfigView { enable_wal: ini_true(value), ..c0 }
                    } else {
                        c0
                    }
                },
                None => c0,
            }
        }
    }
}

pub open spec fn bool_text(b: bool) -> Seq<char> {
    if b { "true"@ } else { "false"@ }
}

/// The INI text of a configuration.
pub open spec fn config_ini(c: ConfigView) -> Seq<char> {
    "eloq_data_path = "@ + c.eloq_data_path + "\n"@ + "enable_data_store = "@ + bool_text(c.enable_data_store) + "\n"@
        + "enable_wal = "@ + bool_text(c.enable_wal) + "\n"@
}

fn is_true_value(v: &str) -> (b: bool)
    ensures
        b == ini_true(v@),
{
    let l = lowercase(v);
    str_eq(l.as_str(), "true") || str_eq(v, "1") || str_eq(l.as_str(), "yes")
}

fn bool_str(b: bool) -> (r: &'static str)
    ensures
        r@ == bool_text(b),
{
    if b { "true" } else { "false" }
}

/// Index of the entry of `r` with key `key`, or the length of `r`.
fn find_key(r: &Vec<(String, String)>, key: &String) -> (j: usize)
    ensures
        j <= r.len(),
        j < r.len() ==> r@[j as int].0@ == key@,
        forall|t: int| 0 <= t < j ==> r@[t].0@ != key@,
{
    let mut j: usize = 0;
    while j < r.len()
        invariant
            j <= r.len(),
            forall|t: int| 0 <= t < j ==> r@[t].0@ != key@,
        decreases r.len() - j,
    {
        if r[j].0 == *key {
            return j;
        }
        j = j + 1;
    }
    j
}

impl IniConfigUpdateTask {
    /// The task that updates `fields` on `nodes` of `cluster_name`.
    pub fn new(cluster_name: &str, fields: Option<Vec<String>>, nodes: Option<Vec<String>>) -> (r: (TaskId, IniConfigUpdateTask))
        ensures
            r.0@ == (crate::task::TaskIdView { cmd: "ini-config-update"@, task: "update-fields"@, host: "local"@ }),
            r.1.task_id@ == r.0@,
            r.1.cluster_name@ == cluster_name@,
            opt_views(r.1.fields) == opt_views(fields),
            opt_views(r.1.nodes) == opt_views(nodes),
    {
        let id = TaskId::new("ini-config-update", "update-fields", "local");
        let id2 = TaskId::new("ini-config-update", "update-fields", "local");
        (id, IniConfigUpdateTask { task_id: id2, cluster_name: String::from_str(cluster_name), fields, nodes })
    }

    /// The field updates as a map from field to value.
    pub fn parse_fields(&self) -> (r: Vec<(String, String)>)
        ensures
            entry_views(r@) == match self.fields {
                Some(fs) => field_map(views(fs@)),
                None => Seq::empty(),
            },
            keys_distinct(entry_views(r@)),
    {
        let mut r: Vec<(String, String)> = Vec::new();
        match &self.fields {
            None => {
                assert(entry_views(r@) =~= Seq::<(Seq<char>, Seq<char>)>::empty());
                r
            },
            Some(fs) => {
                let mut i: usize = 0;
                while i < fs.len()
                    invariant
                        i <= fs.len(),
                        entry_views(r@) == field_map(views(fs@).subrange(0, i as int)),
                        keys_distinct(entry_views(r@)),
                    decreases fs.len() - i,
                {
                    let ghost pre1 = views(fs@).subrange(0, i + 1);
                    assert(pre1.drop_last() =~= views(fs@).subrange(0, i as int));
                    assert(pre1.last() == fs@[i as int]@);
                    match split_once_char(fs[i].as_str(), ':') {
                        Some((k, v)) => {
                            let key = trim_str(k.as_str());
                            let value = trim_str(v.as_str());
                            let ghost m = entry_views(r@);
                            let j = find_key(&r, &key);
                            if j < r.len() {
                                assert(m[j as int].0 == key@);
                                assert(exists|t: int| 0 <= t < m.len() && m[t].0 == key@);
                                let ghost c = choose|t: int| 0 <= t < m.len() && m[t].0 == key@;
                                assert(c == j) by {
                                    if c != j {
                                        assert(m[c].0 != m[j as int].0);
                                    }
                                }
                                r.set(j, (key, value));
                                assert(entry_views(r@) =~= m.update(j as int, (m[j as int].0, value@)));
                            } else {
                                assert(!(exists|t: int| 0 <= t < m.len() && m[t].0 == key@));
                                r.push((key, value));
                                assert(entry_views(r@) =~= m.push((key@, value@)));
                            }
                        },
                        None => {},
                    }
                    i = i + 1;
                }
                assert(views(fs@).subrange(0, fs.len() as int) =~= views(fs@));
                r
            },
        }
    }

    /// The configuration INI text `ini_content` holds.
    pub fn parse_ini_to_config_json(&self, ini_content: &str) -> (r: ConfigJson)
        ensures
            r@ == apply_ini(ConfigView { eloq_data_path: Seq::empty(), enable_data_store: false, enable_wal: false }, lines(ini_content@)),
    {
        let mut c = ConfigJson { eloq_data_path: String::new(), enable_data_store: false, enable_wal: false };
        let ghost c0 = c@;
        assert(c0 =~= ConfigView { eloq_data_path: Seq::empty(), enable_data_store: false, enable_wal: false });
        let ls = lines_str(ini_content);
        let mut i: usize = 0;
        while i < ls.len()
            invariant
                i <= ls.len(),
                views(ls@) == lines(ini_content@),
                c@ == apply_ini(c0, views(ls@).subrange(0, i as int)),
            decreases ls.len() - i,
        {
            let ghost pre1 = views(ls@).subrange(0, i + 1);
            assert(pre1.drop_last() =~= views(ls@).subrange(0, i as int));
            assert(pre1.last() == ls@[i as int]@);
            let line = trim_str(ls[i].as_str());
            let skip = line.as_str().unicode_len() == 0 || starts_with_str(line.as_str(), "#") || starts_with_str(line.as_str(), ";");
            proof {
                reveal_strlit("#");
                reveal_strlit(";");
                if line@.len() > 0 {
                    assert(("#"@).len() == 1 && ("#"@)[0] == '#');
                    assert((";"@).len() == 1 && (";"@)[0] == ';');
                    assert(line@.subrange(0, 1)[0] == line@[0]);
                    if line@[0] == '#' {
                        assert(line@.subrange(0, 1) =~= "#"@);
                    }
                    if line@[0] == ';' {
                        assert(line@.subrange(0, 1) =~= ";"@);
                    }
                }
            }
            if !skip {
                match split_once_char(line.as_str(), '=') {
                    Some((k, v)) => {
                        let key = trim_str(k.as_str());
                        let value = trim_str(v.as_str());
                        if str_eq(key.as_str(), "eloq_data_path") {
                            c.eloq_data_path = value;
                        } else if str_eq(key.as_str(), "enable_data_store") {
                            c.enable_data_store = is_true_value(value.as_str());
                        } else if str_eq(key.as_str(), "enable_wal") {
                            c.enable_wal = is_true_value(value.as_str());
                        }
                    },
                    None => {},
                }
            }
            i = i + 1;
        }
        assert(views(ls@).subrange(0, ls.len() as int) =~= views(ls@));
        c
    }

    /// The INI text of `config`.
    pub fn config_json_to_ini(&self, config: &ConfigJson) -> (r: String)
        ensures
            r@ == config_ini(config@),
    {
        let mut r = String::from_str("eloq_data_path = ");
        r.append(config.eloq_data_path.as_str());
        r.append("\n");
        r.append("enable_data_store = ");
        r.append(bool_str(config.enable_data_store));
        r.append("\n");
        r.append("enable_wal = ");
        r.append(bool_str(config.enable_wal));
        r.append("\n");
        r
    }
}

/// Whether a field value means yes: `true` or `yes` in any case, or `1`.
pub open spec fn truthy(v: Seq<char>) -> bool {
    str_lowercase(v) == "true"@ || v == "1"@ || str_lowercase(v) == "yes"@
}

/// The configuration `c` after the updates `us` (field and value) in
/// order, and whether any of them named a known field: the data path, and
/// whether the data store and the write-ahead log are enabled; other fields
/// are ignored.
pub open spec fn apply_updates(c: ConfigView, us: Seq<(Seq<char>, Seq<char>)>) -> (ConfigView, bool)
    decreases us.len(),
{
    if us.len() == 0 {
        (c, false)
    } else {
        let (c0, changed) = apply_updates(c, us.drop_last());
        let (f, v) = us.last();
        if f == "eloq_data_path"@ {
            (ConfigView { eloq_data_path: v, ..c0 }, true)
        } else if f == "enable_data_store"@ {
            (ConfigView { enable_data_store: truthy(v), ..c0 }, true)
        } else if f == "enable_wal"@ {
            (ConfigView { enable_wal: truthy(v), ..c0 }, true)
        } else {
            (c0, changed)
        }
    }
}

fn truthy_value(v: &str) -> (r: bool)
    ensures
        r == truthy(v@),
{
    let low = lowercase(v);
    str_eq(low.as_str(), "true") || str_eq(v, "1") || str_eq(low.as_str(), "yes")
}

/// A tx server's stored configuration after the field updates `updates`,
/// and whether any update named a field the configuration has.
pub fn apply_field_updates(config: &ConfigJson, updates: &Vec<(String, String)>) -> (r: (ConfigJson, bool))
    ensures
        (r.0@, r.1) == apply_updates(config@, entry_views(updates@)),
{
    let mut c = ConfigJson {
        eloq_data_path: config.eloq_data_path.clone(),
        enable_data_store: config.enable_data_store,
        enable_wal: config.enable_wal,
    };
    let mut changed = false;
    let mut i: usize = 0;
    while i < updates.len()
        invariant
            i <= updates.len(),
            (c@, changed) == apply_updates(config@, entry_views(updates@).subrange(0, i as int)),
        decreases updates.len() - i,
    {
        let ghost pre1 = entry_views(updates@).subrange(0, i + 1);
        assert(pre1.drop_last() =~= entry_views(updates@).subrange(0, i as int));
        assert(pre1.last() == (updates@[i as int].0@, updates@[i as int].1@));
        let f = updates[i].0.as_str();
        let v = updates[i].1.as_str();
        if str_eq(f, "eloq_data_path") {
            c.eloq_data_path = String::from_str(v);
            changed = true;
        } else if str_eq(f, "enable_data_store") {
            c.enable_data_store = truthy_value(v);
            changed = true;
        } else if str_eq(f, "enable_wal") {
            c.enable_wal = truthy_value(v);
            changed = true;
        }
        i = i + 1;
    }
    assert(entry_views(updates@).subrange(0, updates.len() as int) =~= entry_views(updates@));
    (c, changed)
}

/// The report of a configuration update of `cluster`: how many nodes were
/// updated and how many failed, with status 1 when any failed, else 0.
pub fn ini_update_report(cluster: &str, success: u64, failure: u64) -> (r: (i32, String))
    ensures
        r.0 == (if failure > 0 { 1i32 } else { 0i32 }),
        r.1@ == "INI config update completed for cluster "@ + cluster@ + ". Updated "@ + crate::text::decimal(success as nat)
            + " nodes, "@ + crate::text::decimal(failure as nat) + " failures."@,
{
    let mut m = String::from_str("INI config update completed for cluster ");
    m.append(cluster);
    m.append(". Updated ");
    let a = crate::text::u64_to_string(success);
    m.append(a.as_str());
    m.append(" nodes, ");
    let b = crate::text::u64_to_string(failure);
    m.append(b.as_str());
    m.append(" failures.");
    (if failure > 0 { 1 } else { 0 }, m)
}

/// Whether an update request must be refused: fields were given but none
/// reads as `field:value`.
pub fn no_valid_updates(task: &IniConfigUpdateTask, updates: &Vec<(String, String)>) -> (r: Option<String>)
    ensures
        (updates@.len() == 0 && task.fields is Some) ==> (r matches Some(m)
            && m@ == "No valid field updates provided. Format should be field_1:value_1,field_2:value_2"@),
        !(updates@.len() == 0 && task.fields is Some) ==> r is None,
{
    if updates.len() == 0 && task.fields.is_some() {
        Some(String::from_str("No valid field updates provided. Format should be field_1:value_1,field_2:value_2"))
    } else {
        None
    }
}

} // verus!
