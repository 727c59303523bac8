//! Tasks with little logic of their own: local copies, snapshot restores
//! from S3, and the installation of the runtime dependencies, whose shell
//! command depends on the operating system and on the user.
use vstd::prelude::*;
use crate::text::{views, join, join_str};
use crate::task::{TaskId, TaskIdView};

verus! {

/// Copies a package on the local machine.
#[derive(Debug)]
pub struct LocalCopyTask {
    pub task_id: TaskId,
}

impl LocalCopyTask {
    pub fn new(task_id: TaskId) -> (r: LocalCopyTask)
        ensures
            r.task_id@ == task_id@,
    {
        LocalCopyTask { task_id }
    }
}

/// A snapshot of a cluster: where it is, when it was taken, the host and
/// user it was copied to (both empty for a snapshot kept in cloud storage)
/// and its status (0 once finished).
#[derive(Debug)]
pub struct SnapshotEntity {
    pub snapshot_path: String,
    pub snapshot_ts: u64,
    pub dest_host: String,
    pub dest_user: String,
    pub snapshot_status: i32,
}

/// Restores a cluster's data from a snapshot in S3.
#[derive(Debug)]
pub struct S3RestoreTask {
    pub task_id: TaskId,
    pub cluster_name: String,
    pub snapshot: SnapshotEntity,
    pub bucket: String,
    pub aws_id: String,
    pub aws_secret: String,
    pub region: String,
    pub endpoint: Option<String>,
}

impl S3RestoreTask {
    pub fn new(
        task_id: TaskId,
        cluster_name: String,
        snapshot: SnapshotEntity,
        bucket: String,
        aws_id: String,
        aws_secret: String,
        region: String,
        endpoint: Option<String>,
    ) -> (r: S3RestoreTask)
        ensures
            r.task_id@ == task_id@,
            r.cluster_name@ == cluster_name@,
            r.snapshot == snapshot,
            r.bucket@ == bucket@,
            r.aws_id@ == aws_id@,
            r.aws_secret@ == aws_secret@,
            r.region@ == region@,
            r.endpoint == endpoint,
    {
        S3RestoreTask { task_id, cluster_name, snapshot, bucket, aws_id, aws_secret, region, endpoint }
    }
}

/// The package manager steps for an operating system: Ubuntu, or CentOS 7
/// or 8.
pub open spec fn dep_steps(os: Seq<char>, version: Seq<char>) -> Seq<Seq<char>> {
    if os == "ubuntu"@ {
        seq!["apt-get update"@, "DEBIAN_FRONTEND=noninteractive apt-get install -y --no-install-recommends"@]
    } else if version == "8"@ {
        seq![
            "dnf install https://dl.fedoraproject.org/pub/epel/epel-release-latest-8.noarch.rpm -y"@,
            "/usr/bin/crb enable"@,
            "yum install -y epel-release"@,
            "yum update -y"@,
            "yum install -y"@,
        ]
    } else {
        seq!["yum install -y epel-release"@, "yum update -y"@, "yum install -y"@]
    }
}

/// The operating systems the dependencies can be installed on.
pub open spec fn supported_os(os: Seq<char>, version: Seq<char>) -> bool {
    os == "ubuntu"@ || (os == "centos"@ && (version == "8"@ || version == "7"@))
}

/// The command that installs packages `pkgs`: the steps joined by ` && `,
/// each prefixed with `sudo ` unless run as root, then the packages.
pub open spec fn deps_command(os: Seq<char>, version: Seq<char>, is_root: bool, pkgs: Seq<char>) -> Seq<char> {
    let steps = dep_steps(os, version);
    let steps = if is_root { steps } else { steps.map_values(|s: Seq<char>| "sudo "@ + s) };
    join(steps, " && "@) + " "@ + pkgs
}

/// The command that installs the runtime dependencies `pkgs` on `os` at
/// `version`, for a user who is root or not.
pub fn runtime_deps_command(os: &str, version: &str, is_root: bool, pkgs: &str) -> (r: String)
    requires
        supported_os(os@, version@),
    ensures
        r@ == deps_command(os@, version@, is_root, pkgs@),
{
    let mut steps: Vec<String> = Vec::new();
    if crate::text::str_eq(os, "ubuntu") {
        steps.push(String::from_str("apt-get update"));
        steps.push(String::from_str("DEBIAN_FRONTEND=noninteractive apt-get install -y --no-install-recommends"));
    } else if crate::text::str_eq(version, "8") {
        steps.push(String::from_str("dnf install https://dl.fedoraproject.org/pub/epel/epel-release-latest-8.noarch.rpm -y"));
        steps.push(String::from_str("/usr/bin/crb enable"));
        steps.push(String::from_str("yum install -y epel-release"));
        steps.push(String::from_str("yum update -y"));
        steps.push(String::from_str("yum install -y"));
    } else {
        steps.push(String::from_str("yum install -y epel-release"));
        steps.push(String::from_str("yum update -y"));
        steps.push(String::from_str("yum install -y"));
    }
    assert(views(steps@) =~= dep_steps(os@, version@));
    let ghost sv = views(steps@);
    let parts = if is_root {
        steps
    } else {
        let mut p: Vec<String> = Vec::new();
        let mut i: usize = 0;
        while i < steps.len()
            invariant
                i <= steps.len(),
                sv == views(steps@),
                views(p@) == sv.subrange(0, i as int).map_values(|s: Seq<char>| "sudo "@ + s),
            decreases steps.len() - i,
        {
            let mut s = String::from_str("sudo ");
            s.append(steps[i].as_str());
            let ghost old_p = p@;
            p.push(s);
            assert(views(p@) =~= views(old_p).push(s@));
            assert(sv.subrange(0, i + 1) =~= sv.subrange(0, i as int).push(sv[i as int]));
            assert(views(p@) =~= sv.subrange(0, i + 1).map_values(|s: Seq<char>| "sudo "@ + s));
            i = i + 1;
        }
        assert(sv.subrange(0, steps.len() as int) =~= sv);
        p
    };
    let mut r = join_str(&parts, " && ");
    r.append(" ");
    r.append(pkgs);
    r
}

/// Installs the runtime dependencies on one host.
#[derive(Debug)]
pub struct RuntimeDepsInstallation {
    pub install_dep_cmd: String,
    pub task_id: TaskId,
}

impl RuntimeDepsInstallation {
    pub fn new(install_dep_cmd: String, task_id: TaskId) -> (r: RuntimeDepsInstallation)
        ensures
            r.install_dep_cmd@ == install_dep_cmd@,
            r.task_id@ == task_id@,
    {
        RuntimeDepsInstallation { install_dep_cmd, task_id }
    }

    /// The id of the installation task on `host` for `os`.
    pub fn task_id_for(os: &str, host: &str) -> (r: TaskId)
        ensures
            r@ == (TaskIdView { cmd: "run_deps"@, task: os@ + "_install_deps"@, host: host@ }),
    {
        let mut t = String::from_str(os);
        t.append("_install_deps");
        TaskId { cmd: String::from_str("run_deps"), task: t, host: String::from_str(host) }
    }
}

/// The package manager commands that prepare a host of operating system
/// `os` (major version `version`) for the runtime dependencies, and the
/// command the packages are appended to. The commands keep their `sudo`
/// whoever runs them.
pub open spec fn spec_dep_pkg_commands(os: Seq<char>, version: Seq<char>) -> Option<(Seq<Seq<char>>, Seq<char>)> {
    if os == "ubuntu"@ {
        Some((seq!["sudo apt update"@], "sudo DEBIAN_FRONTEND=noninteractive apt install -y --no-install-recommends"@))
    } else if os == "rhel"@ {
        if version == "7"@ {
            Some((seq!["sudo yum install -y epel-release"@, "sudo yum update -y"@], "sudo yum install -y"@))
        } else if version == "8"@ {
            Some((
                seq![
                    "sudo dnf install -y https://dl.fedoraproject.org/pub/epel/epel-release-latest-8.noarch.rpm"@,
                    "sudo /usr/bin/crb enable"@,
                    "sudo dnf install -y epel-release"@,
                    "sudo dnf update -y"@,
                ],
                "sudo dnf install -y"@,
            ))
        } else {
            Some((
                seq![
                    "sudo dnf install -y https://dl.fedoraproject.org/pub/epel/epel-release-latest-9.noarch.rpm"@,
                    "sudo /usr/bin/crb enable"@,
                    "sudo dnf install -y epel-release"@,
                    "sudo dnf update -y"@,
                ],
                "sudo dnf install -y"@,
            ))
        }
    } else {
        None
    }
}

/// The message reported for an operating system without packages.
pub open spec fn unsupported_os_message() -> Seq<char> {
    "for now only support ubuntu/rhel linux"@
}

/// The preparation commands and the install command for the runtime
/// dependencies on operating system `os`; the error reported when there
/// are none for it.
pub fn dep_pkg_commands(os: &str, version: &str) -> (r: Result<(Vec<String>, String), String>)
    requires
        os@ == "rhel"@ ==> (version@ == "7"@ || version@ == "8"@ || version@ == "9"@),
    ensures
        match (r, spec_dep_pkg_commands(os@, version@)) {
            (Ok((p, h)), Some((sp, sh))) => views(p@) == sp && h@ == sh,
            (Err(e), None) => e@ == unsupported_os_message(),
            _ => false,
        },
{
    let mut prepare: Vec<String> = Vec::new();
    if crate::text::str_eq(os, "ubuntu") {
        prepare.push(String::from_str("sudo apt update"));
        let head = String::from_str("sudo DEBIAN_FRONTEND=noninteractive apt install -y --no-install-recommends");
        assert(views(prepare@) =~= seq!["sudo apt update"@]);
        return Ok((prepare, head));
    }
    if !crate::text::str_eq(os, "rhel") {
        return Err(String::from_str("for now only support ubuntu/rhel linux"));
    }
    if crate::text::str_eq(version, "7") {
        prepare.push(String::from_str("sudo yum install -y epel-release"));
        prepare.push(String::from_str("sudo yum update -y"));
        assert(views(prepare@) =~= seq!["sudo yum install -y epel-release"@, "sudo yum update -y"@]);
        return Ok((prepare, String::from_str("sudo yum install -y")));
    }
    if crate::text::str_eq(version, "8") {
        prepare.push(String::from_str("sudo dnf install -y https://dl.fedoraproject.org/pub/epel/epel-release-latest-8.noarch.rpm"));
    } else {
        prepare.push(String::from_str("sudo dnf install -y https://dl.fedoraproject.org/pub/epel/epel-release-latest-9.noarch.rpm"));
    }
    prepare.push(String::from_str("sudo /usr/bin/crb enable"));
    prepare.push(String::from_str("sudo dnf install -y epel-release"));
    prepare.push(String::from_str("sudo dnf update -y"));
    proof {
        if version@ == "8"@ {
            assert(views(prepare@) =~= seq![
                "sudo dnf install -y https://dl.fedoraproject.org/pub/epel/epel-release-latest-8.noarch.rpm"@,
                "sudo /usr/bin/crb enable"@,
                "sudo dnf install -y epel-release"@,
                "sudo dnf update -y"@,
            ]);
        } else {
            assert(views(prepare@) =~= seq![
                "sudo dnf install -y https://dl.fedoraproject.org/pub/epel/epel-release-latest-9.noarch.rpm"@,
                "sudo /usr/bin/crb enable"@,
                "sudo dnf install -y epel-release"@,
                "sudo dnf update -y"@,
            ]);
        }
    }
    Ok((prepare, String::from_str("sudo dnf install -y")))
}

/// The dependency installation task of `host` on operating system `os`.
pub fn dep_pkg_task_id(os: &str, host: &str) -> (r: TaskId)
    ensures
        r@ == (TaskIdView { cmd: "run_deps"@, task: os@ + "_install_deps"@, host: host@ }),
{
    let mut task = String::from_str(os);
    task.append("_install_deps");
    TaskId { cmd: String::from_str("run_deps"), task, host: String::from_str(host) }
}

/// How a downloaded package is unpacked.
#[derive(Debug, Clone, Copy, PartialEq, Eq, Structural)]
pub enum ArchiveKind {
    Zip,
    TarGz,
    /// A single executable, copied as it is.
    RawBinary,
}

/// How the package named `file_name` is unpacked: by its extension.
pub fn archive_kind(file_name: &str) -> (r: ArchiveKind)
    ensures
        crate::text::ends_with(file_name@, ".zip"@) ==> r == ArchiveKind::Zip,
        !crate::text::ends_with(file_name@, ".zip"@) && crate::text::ends_with(file_name@, ".tar.gz"@) ==> r == ArchiveKind::TarGz,
        !crate::text::ends_with(file_name@, ".zip"@) && !crate::text::ends_with(file_name@, ".tar.gz"@) ==> r == ArchiveKind::RawBinary,
{
    if crate::text::ends_with_str(file_name, ".zip") {
        ArchiveKind::Zip
    } else if crate::text::ends_with_str(file_name, ".tar.gz") {
        ArchiveKind::TarGz
    } else {
        ArchiveKind::RawBinary
    }
}

/// A package's file name without `.tar.gz`, or else without `.zip`.
pub open spec fn spec_archive_stem(f: Seq<char>) -> Seq<char> {
    if crate::text::ends_with(f, ".tar.gz"@) {
        f.subrange(0, f.len() - 7)
    } else if crate::text::ends_with(f, ".zip"@) {
        f.subrange(0, f.len() - 4)
    } else {
        f
    }
}

/// The name of the directory a package is unpacked into: its file name
/// without `.tar.gz`, or else without `.zip`.
pub fn archive_stem(file_name: &str) -> (r: String)
    ensures
        r@ == spec_archive_stem(file_name@),
{
    proof {
        reveal_strlit(".tar.gz");
        reveal_strlit(".zip");
    }
    match crate::text::strip_suffix_str(file_name, ".tar.gz") {
        Some(t) => t,
        None => match crate::text::strip_suffix_str(file_name, ".zip") {
            Some(t) => t,
            None => String::from_str(file_name),
        },
    }
}

/// The local extraction task of the package named `file_name`.
pub fn extract_task_id(file_name: &str) -> (r: TaskId)
    ensures
        r@ == (TaskIdView { cmd: "extract"@, task: file_name@ + "_extract"@, host: "_local"@ }),
{
    let mut task = String::from_str(file_name);
    task.append("_extract");
    TaskId { cmd: String::from_str("extract"), task, host: String::from_str("_local") }
}


/// `base` with the path `p` pushed on: `p` itself when it is absolute,
/// else `p` after `base`, with a `/` between them unless `base` is empty or
/// already ends with one.
pub open spec fn path_push(base: Seq<char>, p: Seq<char>) -> Seq<char> {
    if p.len() > 0 && p[0] == '/' {
        p
    } else if base.len() == 0 || base.last() == '/' {
        base + p
    } else {
        base + "/"@ + p
    }
}

/// `base` with the path `p` pushed on.
pub fn push_path(base: &str, p: &str) -> (r: String)
    ensures
        r@ == path_push(base@, p@),
{
    let pc = crate::text::to_chars(p);
    if pc.len() > 0 && pc[0] == '/' {
        return String::from_str(p);
    }
    let bc = crate::text::to_chars(base);
    let mut r = String::from_str(base);
    if bc.len() == 0 || bc[bc.len() - 1] == '/' {
        r.append(p);
    } else {
        r.append("/");
        r.append(p);
    }
    r
}

/// Where the package `file_name` is cached under the directory `base`.
pub open spec fn spec_cached_archive_path(base: Seq<char>, file_name: Seq<char>) -> Seq<char> {
    path_push(base, file_name)
}

/// The directory the package `file_name`, cached under `base`, is
/// unpacked under: `_extracted/<stem>` below `base`.
pub open spec fn spec_extract_root(base: Seq<char>, file_name: Seq<char>) -> Seq<char> {
    path_push(path_push(base, "_extracted"@), spec_archive_stem(file_name))
}

/// A package to unpack: its file name, the directory it is cached in (the
/// download directory for a local package, its cache directory for a
/// downloaded one) and the directory it is unpacked into.
#[derive(Debug)]
pub struct ExtractSource {
    pub file_name: String,
    pub base_dir: String,
    pub unpack_dest: String,
}

impl View for ExtractSource {
    type V = (Seq<char>, Seq<char>, Seq<char>);

    open spec fn view(&self) -> (Seq<char>, Seq<char>, Seq<char>) {
        (self.file_name@, self.base_dir@, self.unpack_dest@)
    }
}

/// One extraction task: its id, the cached package, the root it is unpacked
/// under and the directory below that root it is unpacked into.
#[derive(Debug)]
pub struct ExtractStep {
    pub task_id: TaskId,
    pub archive_path: String,
    pub extract_root: String,
    pub unpack_dest: String,
}

impl View for ExtractStep {
    type V = (TaskIdView, Seq<char>, Seq<char>, Seq<char>);

    open spec fn view(&self) -> (TaskIdView, Seq<char>, Seq<char>, Seq<char>) {
        (self.task_id@, self.archive_path@, self.extract_root@, self.unpack_dest@)
    }
}

pub open spec fn source_views(v: Seq<ExtractSource>) -> Seq<(Seq<char>, Seq<char>, Seq<char>)> {
    v.map_values(|e: ExtractSource| e@)
}

pub open spec fn step_views(v: Seq<ExtractStep>) -> Seq<(TaskIdView, Seq<char>, Seq<char>, Seq<char>)> {
    v.map_values(|e: ExtractStep| e@)
}

/// Two sources name the same package when file name and destination agree.
pub open spec fn same_package(a: (Seq<char>, Seq<char>, Seq<char>), b: (Seq<char>, Seq<char>, Seq<char>)) -> bool {
    a.0 == b.0 && a.2 == b.2
}

pub open spec fn package_seen(s: Seq<(Seq<char>, Seq<char>, Seq<char>)>, e: (Seq<char>, Seq<char>, Seq<char>)) -> bool {
    exists|j: int| 0 <= j < s.len() && same_package(s[j], e)
}

/// The sources without those naming a package an earlier one names.
pub open spec fn first_sources(v: Seq<(Seq<char>, Seq<char>, Seq<char>)>) -> Seq<(Seq<char>, Seq<char>, Seq<char>)>
    decreases v.len(),
{
    if v.len() == 0 {
        Seq::empty()
    } else if package_seen(first_sources(v.drop_last()), v.last()) {
        first_sources(v.drop_last())
    } else {
        first_sources(v.drop_last()).push(v.last())
    }
}

/// The extraction plan unpacks every package its sources name, each once:
/// no two kept sources name the same package, every source's package is
/// among the kept ones, and every kept source is one of the sources.
pub proof fn law_extraction_once_per_package(v: Seq<(Seq<char>, Seq<char>, Seq<char>)>)
    ensures
        forall|i: int, j: int| 0 <= i < j < first_sources(v).len() ==> !same_package(#[trigger] first_sources(v)[i], #[trigger] first_sources(v)[j]),
        forall|k: int| 0 <= k < v.len() ==> package_seen(first_sources(v), #[trigger] v[k]),
        forall|i: int| 0 <= i < first_sources(v).len() ==> v.contains(#[trigger] first_sources(v)[i]),
    decreases v.len(),
{
    if v.len() > 0 {
        let p = v.drop_last();
        law_extraction_once_per_package(p);
        let fp = first_sources(p);
        let f = first_sources(v);
        assert forall|k: int| 0 <= k < v.len() implies package_seen(f, #[trigger] v[k]) by {
            if k < p.len() {
                assert(p[k] == v[k]);
                assert(package_seen(fp, p[k]));
                let j = choose|j: int| 0 <= j < fp.len() && same_package(fp[j], p[k]);
                if !package_seen(fp, v.last()) {
                    assert(f[j] == fp[j]);
                }
            } else {
                if !package_seen(fp, v.last()) {
                    assert(f[fp.len() as int] == v.last());
                }
            }
        }
        assert forall|i: int| 0 <= i < f.len() implies v.contains(#[trigger] f[i]) by {
            if i < fp.len() {
                assert(f[i] == fp[i]);
                assert(p.contains(fp[i]));
                let k = choose|k: int| 0 <= k < p.len() && p[k] == fp[i];
                assert(v[k] == p[k]);
            } else {
                assert(f[i] == v.last());
                assert(v[v.len() - 1] == v.last());
            }
        }
        if !package_seen(fp, v.last()) {
            assert forall|i: int, j: int| 0 <= i < j < f.len() implies !same_package(#[trigger] f[i], #[trigger] f[j]) by {
                if j < fp.len() {
                    assert(f[i] == fp[i]);
                    assert(f[j] == fp[j]);
                } else {
                    assert(f[i] == fp[i]);
                    assert(f[j] == v.last());
                }
            }
        }
    }
}

/// The extraction task of a source.
pub open spec fn spec_extract_step(e: (Seq<char>, Seq<char>, Seq<char>)) -> (TaskIdView, Seq<char>, Seq<char>, Seq<char>) {
    (
        TaskIdView { cmd: "extract"@, task: e.0 + "_extract"@, host: "_local"@ },
        spec_cached_archive_path(e.1, e.0),
        spec_extract_root(e.1, e.0),
        e.2,
    )
}

/// Unpacks downloaded packages on the local machine.
#[derive(Debug)]
pub struct LocalExtractTask {
    pub task_id: TaskId,
}

impl LocalExtractTask {
    pub fn new(task_id: TaskId) -> (r: LocalExtractTask)
        ensures
            r.task_id@ == task_id@,
    {
        LocalExtractTask { task_id }
    }

    /// Where the package `file_name` is cached under `base_dir`.
    pub fn cached_archive_path(base_dir: &str, file_name: &str) -> (r: String)
        ensures
            r@ == spec_cached_archive_path(base_dir@, file_name@),
    {
        push_path(base_dir, file_name)
    }

    /// The root the package `file_name`, cached under `base_dir`, is
    /// unpacked under.
    pub fn extract_root_for(base_dir: &str, file_name: &str) -> (r: String)
        ensures
            r@ == spec_extract_root(base_dir@, file_name@),
    {
        let under = push_path(base_dir, "_extracted");
        let stem = archive_stem(file_name);
        push_path(under.as_str(), stem.as_str())
    }

    /// The directory the package is unpacked into before it is installed:
    /// `unpack_dest` below its extraction root.
    pub fn staged_dir_for(base_dir: &str, file_name: &str, unpack_dest: &str) -> (r: String)
        ensures
            r@ == path_push(spec_extract_root(base_dir@, file_name@), unpack_dest@),
    {
        let root = Self::extract_root_for(base_dir, file_name);
        push_path(root.as_str(), unpack_dest)
    }

    /// The extraction tasks of `entries`: one per package, the first source
    /// that names it deciding where it is cached, in the order of `entries`.
    pub fn from_urls(entries: &Vec<ExtractSource>) -> (r: Vec<ExtractStep>)
        ensures
            step_views(r@) == first_sources(source_views(entries@)).map_values(|e: (Seq<char>, Seq<char>, Seq<char>)| spec_extract_step(e)),
    {
        let ghost sv = source_views(entries@);
        let mut kept: Vec<(String, String)> = Vec::new();
        let mut r: Vec<ExtractStep> = Vec::new();
        let mut i: usize = 0;
        while i < entries.len()
            invariant
                i <= entries.len(),
                sv == source_views(entries@),
                kept.len() == first_sources(sv.subrange(0, i as int)).len(),
                forall|k: int| 0 <= k < kept.len() ==> (#[trigger] kept@[k]).0@ == first_sources(sv.subrange(0, i as int))[k].0
                    && kept@[k].1@ == first_sources(sv.subrange(0, i as int))[k].2,
                step_views(r@) == first_sources(sv.subrange(0, i as int)).map_values(|e: (Seq<char>, Seq<char>, Seq<char>)| spec_extract_step(e)),
            decreases entries.len() - i,
        {
            let e = &entries[i];
            let ghost fs = first_sources(sv.subrange(0, i as int));
            let ghost ev = sv[i as int];
            assert(ev == e@);
            assert(sv.subrange(0, i + 1).drop_last() =~= sv.subrange(0, i as int));
            assert(sv.subrange(0, i + 1).last() == ev);
            let mut found = false;
            let mut j: usize = 0;
            while j < kept.len()
                invariant
                    j <= kept.len(),
                    kept.len() == fs.len(),
                    forall|k: int| 0 <= k < kept.len() ==> (#[trigger] kept@[k]).0@ == fs[k].0 && kept@[k].1@ == fs[k].2,
                    ev == e@,
                    found <==> exists|k: int| 0 <= k < j && same_package(fs[k], ev),
                decreases kept.len() - j,
            {
                assert(kept@[j as int].0@ == fs[j as int].0);
                if kept[j].0 == e.file_name && kept[j].1 == e.unpack_dest {
                    found = true;
                }
                j = j + 1;
            }
            if !found {
                let task_id = extract_task_id(e.file_name.as_str());
                let archive_path = Self::cached_archive_path(e.base_dir.as_str(), e.file_name.as_str());
                let extract_root = Self::extract_root_for(e.base_dir.as_str(), e.file_name.as_str());
                let step = ExtractStep { task_id, archive_path, extract_root, unpack_dest: e.unpack_dest.clone() };
                assert(step@ == spec_extract_step(ev));
                let ghost before = r@;
                let ghost kept_before = kept@;
                r.push(step);
                kept.push((e.file_name.clone(), e.unpack_dest.clone()));
                proof {
                    let nf = fs.push(ev);
                    assert(step_views(r@) =~= step_views(before).push(spec_extract_step(ev)));
                    assert(nf.map_values(|x: (Seq<char>, Seq<char>, Seq<char>)| spec_extract_step(x)) =~= fs.map_values(|x: (Seq<char>, Seq<char>, Seq<char>)| spec_extract_step(x)).push(spec_extract_step(ev)));
                    assert forall|k: int| 0 <= k < kept.len() implies (#[trigger] kept@[k]).0@ == nf[k].0 && kept@[k].1@ == nf[k].2 by {
                        if k < fs.len() {
                            assert(kept@[k] == kept_before[k]);
                        }
                    }
                }
            }
            i = i + 1;
        }
        assert(sv.subrange(0, entries.len() as int) =~= sv);
        r
    }
}

} // verus!
