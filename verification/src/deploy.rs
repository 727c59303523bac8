//! What the tasks read of a deployment: the account and directories used on
//! the hosts, the hosts themselves and the storage service, with the
//! EloqStore cloud settings that decide whether rclone is managed.
use vstd::prelude::*;
use crate::text::views;

verus! {

/// Credentials and location of the object store EloqStore keeps data in.
#[derive(Debug)]
pub struct CloudConfig {
    pub cloud_type: String,
    pub cloud_provider: String,
    pub access_key_id: String,
    pub secret_access_key: String,
    pub region: String,
    pub endpoint: String,
    pub reuse_local_files: Option<bool>,
}

/// The EloqStore backend of the data store service.
#[derive(Debug)]
pub struct EloqStoreConfig {
    pub cloud_mode: bool,
    /// Ports of the rclone daemons EloqStore talks to.
    pub daemon_ports: Vec<u16>,
    /// The cloud store path split into rclone remote name and path, when it
    /// has that form.
    pub cloud_store_path: Option<(String, String)>,
    pub cloud_config: Option<CloudConfig>,
}

/// Where the data store service runs.
#[derive(Debug)]
pub enum DssMode {
    /// On the tx servers' hosts.
    Local,
    /// On its own hosts, managed by this deployment.
    RemoteInternal,
    /// On hosts this deployment does not manage.
    RemoteExternal,
}

/// The data store service.
#[derive(Debug)]
pub struct DataStoreService {
    pub mode: DssMode,
    pub peer_host_ports: Option<Vec<String>>,
    pub eloq_store: EloqStoreConfig,
}

/// The storage section of a deployment.
#[derive(Debug)]
pub struct StorageService {
    /// Peers of a RocksDB-backed data store service, when that is the store.
    pub rocksdb_dss_peers: Option<Vec<String>>,
    pub eloqdss: Option<DataStoreService>,
}

/// How the hosts of a deployment are reached.
#[derive(Debug)]
pub struct Connection {
    /// The account used on the hosts.
    pub username: String,
    /// The SSH port of the hosts.
    pub ssh_port: u16,
    /// The private key SSH sessions authenticate with, when one is set.
    pub ssh_auth_key: Option<String>,
}

/// A deployment as the task builders read it.
#[derive(Debug)]
pub struct DeployConfig {
    pub cluster_name: String,
    pub connection: Connection,
    pub install_dir: String,
    pub tx_home: String,
    /// Every host of the deployment, each once.
    pub unique_hosts: Vec<String>,
    pub storage_service: Option<StorageService>,
}

/// The configuration a task group is built from.
#[derive(Debug)]
pub enum Config {
    Cluster(DeployConfig),
}

impl Config {
    /// The account used on the hosts.
    pub fn conn_user(&self) -> (r: &str)
        ensures
            match self {
                Config::Cluster(c) => r@ == c.connection.username@,
            },
    {
        match self {
            Config::Cluster(c) => c.connection.username.as_str(),
        }
    }

    /// How the hosts are reached.
    pub fn conn_ref(&self) -> (r: &Connection)
        ensures
            match self {
                Config::Cluster(c) => *r == c.connection,
            },
    {
        match self {
            Config::Cluster(c) => &c.connection,
        }
    }

    /// The SSH port of the hosts.
    pub fn ssh_port(&self) -> (r: u16)
        ensures
            match self {
                Config::Cluster(c) => r == c.connection.ssh_port,
            },
    {
        match self {
            Config::Cluster(c) => c.connection.ssh_port,
        }
    }

    /// The private key SSH sessions authenticate with; the deployment must
    /// have one.
    pub fn conn_ssh_auth_key(&self) -> (r: String)
        requires
            match self {
                Config::Cluster(c) => c.connection.ssh_auth_key is Some,
            },
        ensures
            match self {
                Config::Cluster(c) => r@ == c.connection.ssh_auth_key.unwrap()@,
            },
    {
        match self {
            Config::Cluster(c) => match &c.connection.ssh_auth_key {
                Some(k) => k.clone(),
                None => String::new(),
            },
        }
    }

    /// Every host of the deployment, each once.
    pub fn get_unique_host_list(&self) -> (r: Vec<String>)
        ensures
            match self {
                Config::Cluster(c) => views(r@) == views(c.unique_hosts@),
            },
    {
        match self {
            Config::Cluster(c) => crate::rolling::clone_strings(&c.unique_hosts),
        }
    }
}

/// The EloqStore configuration when the data store service keeps its data
/// in the cloud.
pub open spec fn cloud_store(s: StorageService) -> Option<EloqStoreConfig> {
    match s.eloqdss {
        Some(d) => if d.eloq_store.cloud_mode { Some(d.eloq_store) } else { None },
        None => None,
    }
}

/// Whether EloqStore keeps its data in the cloud.
pub fn is_eloqstore_cloud(storage_service: &StorageService) -> (b: bool)
    ensures
        b == (cloud_store(*storage_service) is Some),
{
    match &storage_service.eloqdss {
        Some(d) => d.eloq_store.cloud_mode,
        None => false,
    }
}

/// The S3 settings of a cloud EloqStore: bucket (the path of the cloud store),
/// access key, secret key, region and endpoint.
pub open spec fn spec_s3_config(s: StorageService) -> Option<(Seq<char>, Seq<char>, Seq<char>, Seq<char>, Option<Seq<char>>)> {
    match cloud_store(s) {
        Some(e) => match e.cloud_config {
            Some(c) => match e.cloud_store_path {
                Some((_, path)) => Some((path@, c.access_key_id@, c.secret_access_key@, c.region@, Some(c.endpoint@))),
                None => None,
            },
            None => None,
        },
        None => None,
    }
}

pub open spec fn s3_view(r: Option<(String, String, String, String, Option<String>)>) -> Option<(Seq<char>, Seq<char>, Seq<char>, Seq<char>, Option<Seq<char>>)> {
    match r {
        Some((a, b, c, d, e)) => Some((a@, b@, c@, d@, match e {
            Some(x) => Some(x@),
            None => None,
        })),
        None => None,
    }
}

/// The S3 settings backups of a cloud EloqStore use; `None` when EloqStore
/// is not in the cloud or its cloud settings are incomplete.
pub fn get_eloqstore_s3_config(storage_service: &StorageService) -> (r: Option<(String, String, String, String, Option<String>)>)
    ensures
        s3_view(r) == spec_s3_config(*storage_service),
{
    match &storage_service.eloqdss {
        Some(d) => {
            if !d.eloq_store.cloud_mode {
                return None;
            }
            match &d.eloq_store.cloud_config {
                Some(c) => match &d.eloq_store.cloud_store_path {
                    Some((_, path)) => Some((
                        path.clone(),
                        c.access_key_id.clone(),
                        c.secret_access_key.clone(),
                        c.region.clone(),
                        Some(c.endpoint.clone()),
                    )),
                    None => None,
                },
                None => None,
            }
        },
        None => None,
    }
}

} // verus!
