//! Verified planning logic of the EloqKV cluster manager's task layer:
//! shell commands for managed processes, CLUSTER NODES parsing, failover
//! target selection, the ordered steps of a rolling upgrade, the stages of
//! the cluster-wide commands (start, stop, update, launch, scaling of the
//! transaction and log services), and the checks on backup requests.
pub mod text;
pub mod topology;
pub mod rolling;
pub mod task;
pub mod monitor;
pub mod deploy;
pub mod daemon;
pub mod rclone;
pub mod dss;
pub mod logctl;
pub mod txctl;
pub mod ini;
pub mod proxy;
pub mod monograph;
pub mod group;
pub mod misc;
pub mod scale;
pub mod scalelog;
pub mod backup;
pub mod order;
pub mod plans;
pub mod ctrl;
