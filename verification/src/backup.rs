//! Backups: the checks on a backup request, which snapshots a removal
//! deletes and how, and the checks before a snapshot is restored.
use vstd::prelude::*;
use crate::text::{views, trim, trim_str};
use crate::misc::SnapshotEntity;

verus! {

/// Why a backup is refused.
#[derive(Debug, Clone, Copy, PartialEq, Eq, Structural)]
pub enum BackupError {
    /// A backup to local storage without a path.
    PathRequired,
    /// A backup to local storage with an empty path.
    PathEmpty,
}

pub open spec fn spec_backup_error_message(e: BackupError) -> Seq<char> {
    match e {
        BackupError::PathRequired => "--path is required for local storage. Please specify --path <PATH>"@,
        BackupError::PathEmpty => "--path cannot be empty for local storage. Please specify --path <PATH>"@,
    }
}

impl BackupError {
    /// The message the command line reports.
    pub fn message(&self) -> (r: &'static str)
        ensures
            r@ == spec_backup_error_message(*self),
    {
        match self {
            BackupError::PathRequired => "--path is required for local storage. Please specify --path <PATH>",
            BackupError::PathEmpty => "--path cannot be empty for local storage. Please specify --path <PATH>",
        }
    }
}

/// What a backup run is given: for local storage the directory the
/// snapshot goes to (and the command that creates it, with its name) and
/// where it is copied; for cloud storage nothing of that.
#[derive(Debug)]
pub struct BackupStartPlan {
    pub mkdir: Option<(String, String)>,
    pub path: String,
    pub dest_host: Option<String>,
    pub dest_user: Option<String>,
}

/// The directory of a snapshot of `cluster` taken at `stamp` under `path`.
pub open spec fn snapshot_dir(path: Seq<char>, cluster: Seq<char>, stamp: Seq<char>) -> Seq<char> {
    path + "/"@ + cluster + "/"@ + stamp
}

pub open spec fn opt_str(o: Option<String>) -> Option<Seq<char>> {
    match o {
        Some(s) => Some(s@),
        None => None,
    }
}

fn clone_opt(o: &Option<String>) -> (r: Option<String>)
    ensures
        opt_str(r) == opt_str(*o),
{
    match o {
        Some(s) => Some(s.clone()),
        None => None,
    }
}

/// Plans a backup of `cluster` taken at `stamp` (its time as the snapshot
/// directory names it): cloud storage needs nothing more; local storage
/// needs a nonempty `path`, under which the snapshot directory
/// `path/cluster/stamp` is created first.
pub fn plan_backup_start(
    is_cloud: bool,
    path: &Option<String>,
    dest_host: &Option<String>,
    dest_user: &Option<String>,
    cluster: &str,
    stamp: &str,
) -> (r: Result<BackupStartPlan, BackupError>)
    ensures
        is_cloud ==> (r matches Ok(p) && p.mkdir is None && p.path@.len() == 0 && p.dest_host is None
            && p.dest_user is None),
        !is_cloud && path is None ==> r == Err::<BackupStartPlan, BackupError>(BackupError::PathRequired),
        !is_cloud && (path matches Some(q) && q@.len() == 0) ==> r == Err::<BackupStartPlan, BackupError>(BackupError::PathEmpty),
        !is_cloud && (path matches Some(q) && q@.len() > 0) ==> (r matches Ok(p) && {
            let dir = snapshot_dir(path->0@, cluster@, stamp@);
            &&& p.mkdir matches Some((name, cmd)) && name@ == "mkdir for "@ + dir && cmd@ == "mkdir -p "@ + dir
            &&& p.path@ == path->0@
            &&& opt_str(p.dest_host) == opt_str(*dest_host)
            &&& opt_str(p.dest_user) == opt_str(*dest_user)
        }),
{
    if is_cloud {
        return Ok(BackupStartPlan { mkdir: None, path: String::new(), dest_host: None, dest_user: None });
    }
    let p = match path {
        Some(p) => p,
        None => {
            return Err(BackupError::PathRequired);
        },
    };
    if p.as_str().unicode_len() == 0 {
        return Err(BackupError::PathEmpty);
    }
    let mut dir = p.clone();
    dir.append("/");
    dir.append(cluster);
    dir.append("/");
    dir.append(stamp);
    let mut name = String::from_str("mkdir for ");
    name.append(dir.as_str());
    let mut cmd = String::from_str("mkdir -p ");
    cmd.append(dir.as_str());
    Ok(BackupStartPlan {
        mkdir: Some((name, cmd)),
        path: p.clone(),
        dest_host: clone_opt(dest_host),
        dest_user: clone_opt(dest_user),
    })
}

/// Whether a removal with cutoff `cutoff` deletes a snapshot taken at
/// `ts`: every snapshot when there is no cutoff, else those taken before it.
pub open spec fn removes(cutoff: Option<u64>, ts: u64) -> bool {
    match cutoff {
        Some(c) => ts < c,
        None => true,
    }
}

/// The places in `ss` of the snapshots a removal deletes that are in cloud
/// storage (`cloud` true) or were copied to a host, in order.
pub open spec fn removal_places(ss: Seq<(u64, bool)>, cutoff: Option<u64>, cloud: bool) -> Seq<int>
    decreases ss.len(),
{
    if ss.len() == 0 {
        Seq::empty()
    } else {
        let k = ss.len() - 1;
        if removes(cutoff, ss[k].0) && ss[k].1 == cloud {
            removal_places(ss.drop_last(), cutoff, cloud).push(k)
        } else {
            removal_places(ss.drop_last(), cutoff, cloud)
        }
    }
}

/// When each snapshot was taken and whether it is in cloud storage (no
/// destination host).
pub open spec fn snapshot_keys(v: Seq<SnapshotEntity>) -> Seq<(u64, bool)> {
    v.map_values(|s: SnapshotEntity| (s.snapshot_ts, s.dest_host@.len() == 0))
}

/// The snapshots a removal with cutoff `cutoff` deletes, as places in
/// `snapshots`: first those in cloud storage, then those copied to a host.
pub fn plan_snapshot_removal(snapshots: &Vec<SnapshotEntity>, cutoff: Option<u64>) -> (r: (Vec<usize>, Vec<usize>))
    ensures
        r.0@.map_values(|i: usize| i as int) == removal_places(snapshot_keys(snapshots@), cutoff, true),
        r.1@.map_values(|i: usize| i as int) == removal_places(snapshot_keys(snapshots@), cutoff, false),
{
    let ghost keys = snapshot_keys(snapshots@);
    let mut cloud: Vec<usize> = Vec::new();
    let mut local: Vec<usize> = Vec::new();
    let mut i: usize = 0;
    while i < snapshots.len()
        invariant
            i <= snapshots.len(),
            keys == snapshot_keys(snapshots@),
            cloud@.map_values(|i: usize| i as int) == removal_places(keys.subrange(0, i as int), cutoff, true),
            local@.map_values(|i: usize| i as int) == removal_places(keys.subrange(0, i as int), cutoff, false),
        decreases snapshots.len() - i,
    {
        let ghost pre1 = keys.subrange(0, i + 1);
        assert(pre1.drop_last() =~= keys.subrange(0, i as int));
        assert(pre1[i as int] == keys[i as int]);
        let s = &snapshots[i];
        let selected = match cutoff {
            Some(c) => s.snapshot_ts < c,
            None => true,
        };
        let in_cloud = s.dest_host.as_str().unicode_len() == 0;
        if selected {
            if in_cloud {
                let ghost before = cloud@.map_values(|i: usize| i as int);
                cloud.push(i);
                assert(cloud@.map_values(|i: usize| i as int) =~= before.push(i as int));
            } else {
                let ghost before = local@.map_values(|i: usize| i as int);
                local.push(i);
                assert(local@.map_values(|i: usize| i as int) =~= before.push(i as int));
            }
        }
        i = i + 1;
    }
    assert(keys.subrange(0, snapshots.len() as int) =~= keys);
    (cloud, local)
}

/// How a snapshot copied to a host is deleted.
#[derive(Debug)]
pub struct LocalDeletion {
    pub task: String,
    pub cmd: String,
    pub user: String,
    pub host: String,
}

/// The deletion of snapshot `s`: named after its path, run as its
/// destination user on its destination host when both are known, else as
/// `conn_user` on this machine.
pub fn local_deletion(s: &SnapshotEntity, conn_user: &str) -> (r: LocalDeletion)
    ensures
        r.task@ == "remove-local-"@ + s.snapshot_path@,
        r.cmd@ == "rm -rf "@ + s.snapshot_path@,
        s.dest_host@.len() > 0 && s.dest_user@.len() > 0 ==> r.user@ == s.dest_user@ && r.host@ == s.dest_host@,
        !(s.dest_host@.len() > 0 && s.dest_user@.len() > 0) ==> r.user@ == conn_user@ && r.host@ == "localhost"@,
{
    let mut task = String::from_str("remove-local-");
    task.append(s.snapshot_path.as_str());
    let mut cmd = String::from_str("rm -rf ");
    cmd.append(s.snapshot_path.as_str());
    if s.dest_host.as_str().unicode_len() > 0 && s.dest_user.as_str().unicode_len() > 0 {
        LocalDeletion { task, cmd, user: s.dest_user.clone(), host: s.dest_host.clone() }
    } else {
        LocalDeletion { task, cmd, user: String::from_str(conn_user), host: String::from_str("localhost") }
    }
}

/// The deletion of a cloud EloqStore snapshot: its backup stamp is its
/// path without surrounding whitespace, and the task is named after it;
/// none when the stamp is empty.
pub fn eloqstore_deletion(s: &SnapshotEntity) -> (r: Option<(String, String)>)
    ensures
        trim(s.snapshot_path@).len() == 0 <==> r is None,
        r matches Some((task, stamp)) ==> stamp@ == trim(s.snapshot_path@) && task@ == "delete-eloqstore-"@ + stamp@,
{
    let stamp = trim_str(s.snapshot_path.as_str());
    if stamp.as_str().unicode_len() == 0 {
        return None;
    }
    let mut task = String::from_str("delete-eloqstore-");
    task.append(stamp.as_str());
    Some((task, stamp))
}

/// The deletions of the manifests of a cloud RocksDB snapshot: for each
/// manifest, its object key and the task named after that key.
pub fn s3_manifest_deletions(manifests: &Vec<String>) -> (r: Vec<(String, String)>)
    ensures
        r@.len() == manifests@.len(),
        forall|i: int| 0 <= i < r@.len() ==> {
            &&& (#[trigger] r@[i]).1@ == "rocksdb_cloud/CLOUDMANIFEST-"@ + manifests@[i]@
            &&& r@[i].0@ == "delete-s3-"@ + r@[i].1@
        },
{
    let mut r: Vec<(String, String)> = Vec::new();
    let mut i: usize = 0;
    while i < manifests.len()
        invariant
            i <= manifests.len(),
            r@.len() == i,
            forall|k: int| 0 <= k < i ==> {
                &&& (#[trigger] r@[k]).1@ == "rocksdb_cloud/CLOUDMANIFEST-"@ + manifests@[k]@
                &&& r@[k].0@ == "delete-s3-"@ + r@[k].1@
            },
        decreases manifests.len() - i,
    {
        let mut key = String::from_str("rocksdb_cloud/CLOUDMANIFEST-");
        key.append(manifests[i].as_str());
        let mut task = String::from_str("delete-s3-");
        task.append(key.as_str());
        r.push((task, key));
        i = i + 1;
    }
    r
}

/// Why a restore is refused.
#[derive(Debug, Clone, Copy, PartialEq, Eq, Structural)]
pub enum RestoreError {
    /// The deployment keeps its data in local storage.
    NotCloud,
    /// The deployment keeps its data in cloud storage other than S3.
    NotS3,
    /// The snapshot was copied to a host, not kept in cloud storage.
    LocalSnapshot,
    /// The snapshot is not finished; its status.
    NotFinished(i32),
}

/// Checks the storage of a deployment before a restore: it must be in the
/// cloud (RocksDB cloud or EloqStore cloud), and on S3 (RocksDB on S3, or
/// EloqStore cloud, which speaks S3).
pub fn check_restore_storage(is_rocksdb_cloud: bool, is_eloqstore_cloud: bool, is_rocksdb_s3: bool) -> (r: Result<(), RestoreError>)
    ensures
        !(is_rocksdb_cloud || is_eloqstore_cloud) ==> r == Err::<(), RestoreError>(RestoreError::NotCloud),
        (is_rocksdb_cloud || is_eloqstore_cloud) && !(is_rocksdb_s3 || is_eloqstore_cloud) ==> r == Err::<(), RestoreError>(RestoreError::NotS3),
        (is_rocksdb_cloud || is_eloqstore_cloud) && (is_rocksdb_s3 || is_eloqstore_cloud) ==> r is Ok,
{
    if !(is_rocksdb_cloud || is_eloqstore_cloud) {
        return Err(RestoreError::NotCloud);
    }
    if !(is_rocksdb_s3 || is_eloqstore_cloud) {
        return Err(RestoreError::NotS3);
    }
    Ok(())
}

/// Checks the snapshot chosen for a restore: it must be kept in cloud
/// storage and finished.
pub fn check_restore_snapshot(s: &SnapshotEntity) -> (r: Result<(), RestoreError>)
    ensures
        s.dest_host@.len() > 0 ==> r == Err::<(), RestoreError>(RestoreError::LocalSnapshot),
        s.dest_host@.len() == 0 && s.snapshot_status != 0 ==> r == Err::<(), RestoreError>(RestoreError::NotFinished(s.snapshot_status)),
        s.dest_host@.len() == 0 && s.snapshot_status == 0 ==> r is Ok,
{
    if s.dest_host.as_str().unicode_len() > 0 {
        return Err(RestoreError::LocalSnapshot);
    }
    if s.snapshot_status != 0 {
        return Err(RestoreError::NotFinished(s.snapshot_status));
    }
    Ok(())
}

pub open spec fn spec_restore_error_message(e: RestoreError) -> Seq<char> {
    match e {
        RestoreError::NotCloud => "Restore command is only supported for cloud storage (S3). Current storage type is not cloud-based. Please use backup commands for local storage."@,
        RestoreError::NotS3 => "Restore command is only supported for S3 storage. GCS storage restore is not yet supported."@,
        RestoreError::LocalSnapshot => "Snapshot is for local storage, not cloud storage. Restore command only supports cloud storage snapshots."@,
        RestoreError::NotFinished(st) => "Snapshot status is not 'Finished' (status: "@ + crate::task::int_text(st as int)
            + "). Only finished snapshots can be restored."@,
    }
}

impl RestoreError {
    /// The message the command line reports.
    pub fn message(&self) -> (r: String)
        ensures
            r@ == spec_restore_error_message(*self),
    {
        match self {
            RestoreError::NotCloud => String::from_str(
                "Restore command is only supported for cloud storage (S3). Current storage type is not cloud-based. Please use backup commands for local storage.",
            ),
            RestoreError::NotS3 => String::from_str(
                "Restore command is only supported for S3 storage. GCS storage restore is not yet supported.",
            ),
            RestoreError::LocalSnapshot => String::from_str(
                "Snapshot is for local storage, not cloud storage. Restore command only supports cloud storage snapshots.",
            ),
            RestoreError::NotFinished(st) => {
                let mut m = String::from_str("Snapshot status is not 'Finished' (status: ");
                let t = crate::task::i32_text(*st);
                m.append(t.as_str());
                m.append("). Only finished snapshots can be restored.");
                m
            },
        }
    }
}

/// What a backup deletion comes to: whether the snapshot's record is
/// removed, and the task's status and output.
#[derive(Debug)]
pub struct DeletionOutcome {
    pub delete_record: bool,
    pub status: i32,
    pub output: String,
}

/// The outcome of deleting a snapshot copied to a host with command `cmd`,
/// which exited with `status` (1 when unknown) and printed `output`: the
/// record goes when the files went or the deletion is forced; the task
/// succeeds in the same cases, a forced deletion of files that stayed
/// saying so.
pub fn local_deletion_outcome(force: bool, status: Option<i32>, cmd: &str, output: &Option<String>) -> (r: DeletionOutcome)
    ensures
        ({
            let code = match status { Some(c) => c, None => 1 };
            &&& r.delete_record == (force || code == 0)
            &&& r.status == (if code == 0 || force { 0i32 } else { 1i32 })
            &&& code == 0 ==> r.output@ == "Successfully deleted local backup: "@ + cmd@
            &&& code != 0 && force ==> r.output@ == "Filesystem deletion failed but record removed from database (--force): status="@
                + crate::task::int_text(code as int)
            &&& code != 0 && !force ==> r.output@ == "Failed to delete local backup: "@ + match output {
                Some(o) => o@,
                None => "Unknown error"@,
            }
        }),
{
    let code: i32 = match status {
        Some(c) => c,
        None => 1,
    };
    let delete_record = force || code == 0;
    if code == 0 {
        let mut m = String::from_str("Successfully deleted local backup: ");
        m.append(cmd);
        DeletionOutcome { delete_record, status: 0, output: m }
    } else if force {
        let mut m = String::from_str("Filesystem deletion failed but record removed from database (--force): status=");
        let t = crate::task::i32_text(code);
        m.append(t.as_str());
        DeletionOutcome { delete_record, status: 0, output: m }
    } else {
        let mut m = String::from_str("Failed to delete local backup: ");
        match output {
            Some(o) => m.append(o.as_str()),
            None => m.append("Unknown error"),
        }
        DeletionOutcome { delete_record, status: 1, output: m }
    }
}

/// The outcome of deleting object `key` of `bucket`, which succeeded or
/// failed with error text `result`: the record goes when the object went or
/// the deletion is forced; the task succeeds in the same cases.
pub fn s3_deletion_outcome(force: bool, result: &Result<(), String>, bucket: &str, key: &str) -> (r: DeletionOutcome)
    ensures
        r.delete_record == (force || result is Ok),
        r.status == (if result is Ok || force { 0i32 } else { 1i32 }),
        result is Ok ==> r.output@ == "Successfully deleted s3://"@ + bucket@ + "/"@ + key@,
        (result matches Err(e) && force) ==> r.output@ == "S3 deletion failed but record removed from database (--force): "@ + result->Err_0@,
        (result matches Err(e) && !force) ==> r.output@ == "Failed to delete S3 object: "@ + result->Err_0@,
{
    match result {
        Ok(()) => {
            let mut m = String::from_str("Successfully deleted s3://");
            m.append(bucket);
            m.append("/");
            m.append(key);
            DeletionOutcome { delete_record: true, status: 0, output: m }
        },
        Err(e) => {
            if force {
                let mut m = String::from_str("S3 deletion failed but record removed from database (--force): ");
                m.append(e.as_str());
                DeletionOutcome { delete_record: true, status: 0, output: m }
            } else {
                let mut m = String::from_str("Failed to delete S3 object: ");
                m.append(e.as_str());
                DeletionOutcome { delete_record: false, status: 1, output: m }
            }
        },
    }
}

} // verus!
