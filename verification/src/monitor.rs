//! The monitoring components (node exporter, Prometheus, Alertmanager,
//! Grafana and the Alertmanager webhook adapter): the shell commands that
//! start, stop and find them, and what a control task does next given the
//! process it found.
use vstd::prelude::*;
use crate::text::{views, decimal, u64_to_string};
use crate::task::{TaskId, TaskIdView};

verus! {

/// Name of Prometheus' configuration file in its home directory.
pub const PROMETHEUS_CONFIG_FILE: &'static str = "prometheus.yml";
/// Name of Alertmanager's configuration file in its home directory.
pub const ALERTMANAGER_CONFIG_FILE: &'static str = "alertmanager.yml";
/// Name of Grafana's configuration file under `conf/`.
pub const GRAFANA_CONFIG_FILE: &'static str = "grafana.ini";
/// File name of the Alertmanager webhook adapter's binary.
pub const ALERTMANAGER_WEBHOOK_ADAPTER_BINARY: &'static str = "PrometheusAlert";

pub open spec fn prometheus_config_file() -> Seq<char> { "prometheus.yml"@ }
pub open spec fn alertmanager_config_file() -> Seq<char> { "alertmanager.yml"@ }
pub open spec fn grafana_config_file() -> Seq<char> { "grafana.ini"@ }
pub open spec fn webhook_adapter_binary() -> Seq<char> { "PrometheusAlert"@ }

/// Prometheus as the deployment configures it.
#[derive(Debug)]
pub struct Prometheus {
    pub download_url: String,
    pub port: u16,
    pub host: String,
    pub retention_time: Option<String>,
    pub retention_size: Option<String>,
    pub remote_write_urls: Option<Vec<String>>,
    pub alertmanager_targets: Option<Vec<String>>,
    /// Alert rule thresholds by name, as written in the configuration.
    pub alert_thresholds: Option<Vec<(String, String)>>,
}

/// Alertmanager and its webhook adapter as the deployment configures them.
#[derive(Debug)]
pub struct Alertmanager {
    pub host: String,
    pub port: u16,
    pub webhook_adapter_port: u16,
}

/// Grafana as the deployment configures it.
#[derive(Debug)]
pub struct Grafana {
    pub host: String,
    pub port: u16,
}

/// The node exporter as the deployment configures it.
#[derive(Debug)]
pub struct NodeExporter {
    pub port: u16,
}

/// The metrics endpoint of the database servers.
#[derive(Debug)]
pub struct EloqMetrics {
    pub port: u16,
}

/// The monitoring section of a deployment.
#[derive(Debug)]
pub struct Monitor {
    pub data_dir: Option<String>,
    pub prometheus: Option<Prometheus>,
    pub alertmanager: Option<Alertmanager>,
    pub grafana: Option<Grafana>,
    pub node_exporter: Option<NodeExporter>,
    pub eloq_metrics: Option<EloqMetrics>,
}

/// `<option>="value"` for a retention option that is set, where `opt`
/// holds the option's name, `=` and the opening quote.
pub open spec fn retention_flag(opt: Seq<char>, v: Option<String>) -> Seq<Seq<char>> {
    match v {
        Some(s) => seq![opt + s@ + "\""@],
        None => Seq::empty(),
    }
}

/// The retention options Prometheus is started with, separated by spaces:
/// the time limit first, then the size limit, each only when configured.
pub open spec fn spec_retention_flags(p: Prometheus) -> Seq<char> {
    crate::text::join(
        retention_flag("--storage.tsdb.retention.time=\""@, p.retention_time)
            + retention_flag("--storage.tsdb.retention.size=\""@, p.retention_size),
        " "@,
    )
}

impl Prometheus {
    /// The `--storage.tsdb.retention.*` options of this configuration.
    pub fn retention_flags(&self) -> (r: String)
        ensures
            r@ == spec_retention_flags(*self),
    {
        let mut parts: Vec<String> = Vec::new();
        if let Some(t) = &self.retention_time {
            let mut f = String::from_str("--storage.tsdb.retention.time=\"");
            f.append(t.as_str());
            f.append("\"");
            parts.push(f);
        }
        if let Some(s) = &self.retention_size {
            let mut f = String::from_str("--storage.tsdb.retention.size=\"");
            f.append(s.as_str());
            f.append("\"");
            parts.push(f);
        }
        assert(views(parts@) =~= retention_flag("--storage.tsdb.retention.time=\""@, self.retention_time)
            + retention_flag("--storage.tsdb.retention.size=\""@, self.retention_size));
        crate::text::join_str(&parts, " ")
    }
}

/// A monitoring component installed under `home`.
#[derive(Debug)]
pub enum MonitorComponentCommand {
    NodeExporter { home: String },
    Prometheus { home: String },
    Alertmanager { home: String },
    Grafana { home: String },
    PrometheusAlert { home: String },
}

pub open spec fn home_of(c: MonitorComponentCommand) -> Seq<char> {
    match c {
        MonitorComponentCommand::NodeExporter { home } => home@,
        MonitorComponentCommand::Prometheus { home } => home@,
        MonitorComponentCommand::Alertmanager { home } => home@,
        MonitorComponentCommand::Grafana { home } => home@,
        MonitorComponentCommand::PrometheusAlert { home } => home@,
    }
}

pub open spec fn spec_service_name(c: MonitorComponentCommand) -> Seq<char> {
    match c {
        MonitorComponentCommand::NodeExporter { .. } => "node_exporter"@,
        MonitorComponentCommand::Prometheus { .. } => "prometheus"@,
        MonitorComponentCommand::Alertmanager { .. } => "alertmanager"@,
        MonitorComponentCommand::Grafana { .. } => "grafana"@,
        MonitorComponentCommand::PrometheusAlert { .. } => "alertmanager_webhook_adapter"@,
    }
}

pub open spec fn spec_log_path(c: MonitorComponentCommand) -> Seq<char> {
    match c {
        MonitorComponentCommand::NodeExporter { .. } => "/tmp/eloq_node_exporter.log"@,
        MonitorComponentCommand::Prometheus { .. } => "/tmp/eloq_prometheus.log"@,
        MonitorComponentCommand::Alertmanager { .. } => "/tmp/eloq_alertmanager.log"@,
        MonitorComponentCommand::Grafana { .. } => "/tmp/eloq_grafana_server.log"@,
        MonitorComponentCommand::PrometheusAlert { .. } => "/tmp/eloq_alertmanager_webhook_adapter.log"@,
    }
}

pub open spec fn spec_executable_paths(c: MonitorComponentCommand) -> Seq<Seq<char>> {
    match c {
        MonitorComponentCommand::NodeExporter { home } => seq![home@ + "/node_exporter"@],
        MonitorComponentCommand::Prometheus { home } => seq![home@ + "/prometheus"@],
        MonitorComponentCommand::Alertmanager { home } => seq![home@ + "/alertmanager"@],
        MonitorComponentCommand::Grafana { home } => seq![home@ + "/bin/grafana-server"@, home@ + "/bin/grafana"@],
        MonitorComponentCommand::PrometheusAlert { home } => seq![home@ + "/"@ + webhook_adapter_binary()],
    }
}

pub open spec fn port_text(p: u16) -> Seq<char> {
    decimal(p as nat)
}

/// The command that starts the node exporter on `port`.
pub open spec fn node_exporter_start(home: Seq<char>, port: u16) -> Seq<char> {
    home + "/node_exporter --web.listen-address=:"@ + port_text(port) + " > /tmp/eloq_node_exporter.log 2>&1 &"@
}

/// The command that starts Grafana, with the server binary of older or of
/// newer releases, whichever is there.
pub open spec fn grafana_start(home: Seq<char>) -> Seq<char> {
    "if [ -x "@ + home + "/bin/grafana-server ]; then "@ + home + "/bin/grafana-server -homepath "@ + home
        + " -config "@ + home + "/conf/"@ + grafana_config_file() + "; else "@ + home
        + "/bin/grafana server -homepath "@ + home + " -config "@ + home + "/conf/"@ + grafana_config_file()
        + "; fi > /tmp/eloq_grafana_server.log 2>&1 &"@
}

/// The command that starts Alertmanager on `port`.
pub open spec fn alertmanager_start(home: Seq<char>, port: u16) -> Seq<char> {
    home + "/alertmanager --config.file="@ + home + "/"@ + alertmanager_config_file() + " --storage.path="@ + home
        + "/data --web.listen-address=0.0.0.0:"@ + port_text(port) + " > /tmp/eloq_alertmanager.log 2>&1 &"@
}

/// The command that starts Prometheus with configuration `p`.
pub open spec fn prometheus_start(home: Seq<char>, p: Prometheus) -> Seq<char> {
    let flags = spec_retention_flags(p);
    let flags = if flags.len() == 0 { Seq::empty() } else { " "@ + flags };
    home + "/prometheus --web.listen-address=\"0.0.0.0:"@ + port_text(p.port) + "\" --web.enable-lifecycle --storage.tsdb.path="@
        + home + "/data"@ + flags + " --config.file="@ + home + "/"@ + prometheus_config_file()
        + " > /tmp/eloq_prometheus.log 2>&1 &"@
}

/// The command that starts the webhook adapter on `port`.
pub open spec fn webhook_adapter_start(home: Seq<char>, port: u16) -> Seq<char> {
    "sh -c 'cd "@ + home + " && exec "@ + home + "/"@ + webhook_adapter_binary() + " --listen-address=0.0.0.0:"@
        + port_text(port) + " --tmpl-dir "@ + home
        + "/templates --tmpl-lang zh --signature EloqKV' > /tmp/eloq_alertmanager_webhook_adapter.log 2>&1 &"@
}

/// The start command of component `c` under `monitor`; `None` when the
/// component's section is not configured (Grafana needs none).
pub open spec fn spec_start(c: MonitorComponentCommand, monitor: Monitor) -> Option<Seq<char>> {
    match c {
        MonitorComponentCommand::NodeExporter { home } => match monitor.node_exporter {
            Some(n) => Some(node_exporter_start(home@, n.port)),
            None => None,
        },
        MonitorComponentCommand::Grafana { home } => Some(grafana_start(home@)),
        MonitorComponentCommand::Alertmanager { home } => match monitor.alertmanager {
            Some(a) => Some(alertmanager_start(home@, a.port)),
            None => None,
        },
        MonitorComponentCommand::Prometheus { home } => match monitor.prometheus {
            Some(p) => Some(prometheus_start(home@, p)),
            None => None,
        },
        MonitorComponentCommand::PrometheusAlert { home } => match monitor.alertmanager {
            Some(a) => Some(webhook_adapter_start(home@, a.webhook_adapter_port)),
            None => None,
        },
    }
}

pub open spec fn opt_text(o: Option<String>) -> Option<Seq<char>> {
    match o {
        Some(s) => Some(s@),
        None => None,
    }
}

/// The URL that makes a running Prometheus reload its configuration.
pub open spec fn spec_reload_url(c: MonitorComponentCommand, monitor: Monitor) -> Option<Seq<char>> {
    match c {
        MonitorComponentCommand::Prometheus { .. } => match monitor.prometheus {
            Some(p) => Some("http://"@ + p.host@ + ":"@ + port_text(p.port) + "/-/reload"@),
            None => None,
        },
        _ => None,
    }
}

/// The command that lists the processes running from `home`.
pub open spec fn spec_process_info(home: Seq<char>) -> Seq<char> {
    "ps -e -o pid,cmd --no-headers | grep \""@ + home + "\" | grep -v grep"@
}

fn port_string(p: u16) -> (r: String)
    ensures
        r@ == port_text(p),
{
    u64_to_string(p as u64)
}

impl MonitorComponentCommand {
    /// The directory the component is installed in.
    pub fn home(&self) -> (r: &String)
        ensures
            r@ == home_of(*self),
    {
        match self {
            MonitorComponentCommand::NodeExporter { home } => home,
            MonitorComponentCommand::Prometheus { home } => home,
            MonitorComponentCommand::Alertmanager { home } => home,
            MonitorComponentCommand::Grafana { home } => home,
            MonitorComponentCommand::PrometheusAlert { home } => home,
        }
    }

    /// The name the component's status is reported under.
    pub fn service_name(&self) -> (r: &'static str)
        ensures
            r@ == spec_service_name(*self),
    {
        match self {
            MonitorComponentCommand::NodeExporter { .. } => "node_exporter",
            MonitorComponentCommand::Prometheus { .. } => "prometheus",
            MonitorComponentCommand::Alertmanager { .. } => "alertmanager",
            MonitorComponentCommand::Grafana { .. } => "grafana",
            MonitorComponentCommand::PrometheusAlert { .. } => "alertmanager_webhook_adapter",
        }
    }

    /// The file the component's output is written to.
    pub fn log_path(&self) -> (r: &'static str)
        ensures
            r@ == spec_log_path(*self),
    {
        match self {
            MonitorComponentCommand::NodeExporter { .. } => "/tmp/eloq_node_exporter.log",
            MonitorComponentCommand::Prometheus { .. } => "/tmp/eloq_prometheus.log",
            MonitorComponentCommand::Alertmanager { .. } => "/tmp/eloq_alertmanager.log",
            MonitorComponentCommand::Grafana { .. } => "/tmp/eloq_grafana_server.log",
            MonitorComponentCommand::PrometheusAlert { .. } => "/tmp/eloq_alertmanager_webhook_adapter.log",
        }
    }

    /// The binaries whose modes are shown when the component fails to start.
    pub fn executable_paths(&self) -> (r: Vec<String>)
        ensures
            views(r@) == spec_executable_paths(*self),
    {
        let mut r: Vec<String> = Vec::new();
        match self {
            MonitorComponentCommand::NodeExporter { home } => {
                let mut p = home.clone();
                p.append("/node_exporter");
                r.push(p);
            },
            MonitorComponentCommand::Prometheus { home } => {
                let mut p = home.clone();
                p.append("/prometheus");
                r.push(p);
            },
            MonitorComponentCommand::Alertmanager { home } => {
                let mut p = home.clone();
                p.append("/alertmanager");
                r.push(p);
            },
            MonitorComponentCommand::Grafana { home } => {
                let mut p = home.clone();
                p.append("/bin/grafana-server");
                r.push(p);
                let mut q = home.clone();
                q.append("/bin/grafana");
                r.push(q);
            },
            MonitorComponentCommand::PrometheusAlert { home } => {
                let mut p = home.clone();
                p.append("/");
                p.append(ALERTMANAGER_WEBHOOK_ADAPTER_BINARY);
                r.push(p);
            },
        }
        assert(views(r@) =~= spec_executable_paths(*self));
        r
    }

    /// The shell command that starts the component, `None` when `monitor`
    /// does not configure it.
    pub fn start(&self, monitor: &Monitor) -> (r: Option<String>)
        ensures
            opt_text(r) == spec_start(*self, *monitor),
    {
        match self {
            MonitorComponentCommand::NodeExporter { home } => match &monitor.node_exporter {
                Some(n) => {
                    let mut c = home.clone();
                    c.append("/node_exporter --web.listen-address=:");
                    let p = port_string(n.port);
                    c.append(p.as_str());
                    c.append(" > /tmp/eloq_node_exporter.log 2>&1 &");
                    Some(c)
                },
                None => None,
            },
            MonitorComponentCommand::Grafana { home } => {
                let h = home.as_str();
                let mut c = String::from_str("if [ -x ");
                c.append(h);
                c.append("/bin/grafana-server ]; then ");
                c.append(h);
                c.append("/bin/grafana-server -homepath ");
                c.append(h);
                c.append(" -config ");
                c.append(h);
                c.append("/conf/");
                c.append(GRAFANA_CONFIG_FILE);
                c.append("; else ");
                c.append(h);
                c.append("/bin/grafana server -homepath ");
                c.append(h);
                c.append(" -config ");
                c.append(h);
                c.append("/conf/");
                c.append(GRAFANA_CONFIG_FILE);
                c.append("; fi > /tmp/eloq_grafana_server.log 2>&1 &");
                Some(c)
            },
            MonitorComponentCommand::Alertmanager { home } => match &monitor.alertmanager {
                Some(a) => {
                    let h = home.as_str();
                    let mut c = home.clone();
                    c.append("/alertmanager --config.file=");
                    c.append(h);
                    c.append("/");
                    c.append(ALERTMANAGER_CONFIG_FILE);
                    c.append(" --storage.path=");
                    c.append(h);
                    c.append("/data --web.listen-address=0.0.0.0:");
                    let p = port_string(a.port);
                    c.append(p.as_str());
                    c.append(" > /tmp/eloq_alertmanager.log 2>&1 &");
                    Some(c)
                },
                None => None,
            },
            MonitorComponentCommand::Prometheus { home } => match &monitor.prometheus {
                Some(prom) => {
                    let h = home.as_str();
                    let flags = prom.retention_flags();
                    let mut c = home.clone();
                    c.append("/prometheus --web.listen-address=\"0.0.0.0:");
                    let p = port_string(prom.port);
                    c.append(p.as_str());
                    c.append("\" --web.enable-lifecycle --storage.tsdb.path=");
                    c.append(h);
                    c.append("/data");
                    if flags.as_str().unicode_len() != 0 {
                        c.append(" ");
                        c.append(flags.as_str());
                    }
                    c.append(" --config.file=");
                    c.append(h);
                    c.append("/");
                    c.append(PROMETHEUS_CONFIG_FILE);
                    c.append(" > /tmp/eloq_prometheus.log 2>&1 &");
                    Some(c)
                },
                None => None,
            },
            MonitorComponentCommand::PrometheusAlert { home } => match &monitor.alertmanager {
                Some(a) => {
                    let h = home.as_str();
                    let mut c = String::from_str("sh -c 'cd ");
                    c.append(h);
                    c.append(" && exec ");
                    c.append(h);
                    c.append("/");
                    c.append(ALERTMANAGER_WEBHOOK_ADAPTER_BINARY);
                    c.append(" --listen-address=0.0.0.0:");
                    let p = port_string(a.webhook_adapter_port);
                    c.append(p.as_str());
                    c.append(" --tmpl-dir ");
                    c.append(h);
                    c.append("/templates --tmpl-lang zh --signature EloqKV' > /tmp/eloq_alertmanager_webhook_adapter.log 2>&1 &");
                    Some(c)
                },
                None => None,
            },
        }
    }

    /// `kill <pid>`.
    pub fn stop(&self, pid: String) -> (r: String)
        ensures
            r@ == "kill "@ + pid@,
    {
        let mut c = String::from_str("kill ");
        c.append(pid.as_str());
        c
    }

    /// `kill -9 <pid>`.
    pub fn force_stop(&self, pid: String) -> (r: String)
        ensures
            r@ == "kill -9 "@ + pid@,
    {
        let mut c = String::from_str("kill -9 ");
        c.append(pid.as_str());
        c
    }

    /// The reload endpoint of a configured Prometheus; `None` for the other
    /// components.
    pub fn reload_url(&self, monitor: &Monitor) -> (r: Option<String>)
        ensures
            opt_text(r) == spec_reload_url(*self, *monitor),
    {
        match self {
            MonitorComponentCommand::Prometheus { .. } => match &monitor.prometheus {
                Some(p) => {
                    let mut u = String::from_str("http://");
                    u.append(p.host.as_str());
                    u.append(":");
                    let port = port_string(p.port);
                    u.append(port.as_str());
                    u.append("/-/reload");
                    Some(u)
                },
                None => None,
            },
            _ => None,
        }
    }

    /// The command that lists the component's processes.
    pub fn process_info(&self) -> (r: String)
        ensures
            r@ == spec_process_info(home_of(*self)),
    {
        let mut c = String::from_str("ps -e -o pid,cmd --no-headers | grep \"");
        c.append(self.home().as_str());
        c.append("\" | grep -v grep");
        c
    }
}

/// A monitoring component an operator can name.
#[derive(Debug, Clone, Copy, PartialEq, Eq, Structural)]
pub enum MonitorComponent {
    NodeExporter,
    Prometheus,
    Alertmanager,
    Grafana,
    PrometheusAlert,
}

/// The subcommands of `monitor`, with the components they are limited to
/// (all when none are named).
#[derive(Debug)]
pub enum MonitorCommand {
    Start { components: Vec<MonitorComponent> },
    Stop { components: Vec<MonitorComponent> },
    Restart { components: Vec<MonitorComponent> },
    Status { components: Vec<MonitorComponent> },
    Update,
}

pub open spec fn spec_monitor_command_name(c: MonitorCommand) -> Seq<char> {
    match c {
        MonitorCommand::Start { .. } => "start"@,
        MonitorCommand::Stop { .. } => "stop"@,
        MonitorCommand::Restart { .. } => "restart"@,
        MonitorCommand::Status { .. } => "status"@,
        MonitorCommand::Update => "update"@,
    }
}

/// The components a subcommand names; none for `update`.
pub open spec fn spec_selected(c: MonitorCommand) -> Seq<MonitorComponent> {
    match c {
        MonitorCommand::Start { components } => components@,
        MonitorCommand::Stop { components } => components@,
        MonitorCommand::Restart { components } => components@,
        MonitorCommand::Status { components } => components@,
        MonitorCommand::Update => Seq::empty(),
    }
}

/// The components `command` is limited to.
pub fn selected_components(command: &MonitorCommand) -> (r: Vec<MonitorComponent>)
    ensures
        r@ == spec_selected(*command),
{
    let empty: Vec<MonitorComponent> = Vec::new();
    let v = match command {
        MonitorCommand::Start { components } => components,
        MonitorCommand::Stop { components } => components,
        MonitorCommand::Restart { components } => components,
        MonitorCommand::Status { components } => components,
        MonitorCommand::Update => &empty,
    };
    let mut r: Vec<MonitorComponent> = Vec::new();
    let mut i: usize = 0;
    while i < v.len()
        invariant
            i <= v.len(),
            r@ == v@.subrange(0, i as int),
        decreases v.len() - i,
    {
        r.push(v[i]);
        assert(r@ =~= v@.subrange(0, i + 1));
        i = i + 1;
    }
    assert(v@.subrange(0, v.len() as int) =~= v@);
    assert(empty@ =~= Seq::<MonitorComponent>::empty());
    r
}

/// Whether a component takes part: every component when none is selected,
/// else the selected ones.
pub fn component_enabled(selected: &Vec<MonitorComponent>, component: MonitorComponent) -> (b: bool)
    ensures
        b == (selected@.len() == 0 || selected@.contains(component)),
{
    if selected.len() == 0 {
        return true;
    }
    let mut i: usize = 0;
    while i < selected.len()
        invariant
            i <= selected.len(),
            forall|k: int| 0 <= k < i ==> selected@[k] != component,
        decreases selected.len() - i,
    {
        if selected[i] == component {
            return true;
        }
        i = i + 1;
    }
    false
}

/// One control task of a monitoring component on one host.
#[derive(Debug)]
pub struct MonitorCtlTask {
    pub task_id: TaskId,
    pub monitor_ctl: MonitorComponentCommand,
    pub command: MonitorCommand,
}

/// What a control task saw when it looked for the component's process:
/// the pid, if one was running, before doing anything, after starting,
/// after `kill`, or after `kill -9`.
#[derive(Debug)]
pub enum MonitorObservation {
    Initial(Option<String>),
    AfterStart(Option<String>),
    AfterStop(Option<String>),
    AfterForceStop(Option<String>),
}

/// What a control task does next.
#[derive(Debug)]
pub enum MonitorAction {
    /// Run this start command, then look again.
    RunStart(String),
    /// Ask the running Prometheus to reload at this URL, then report.
    Reload(String),
    /// Run this `kill` command, then look again.
    Stop(String),
    /// Run this `kill -9` command, then look again.
    ForceStop(String),
    /// Report the process found (or none).
    Report(Option<String>),
    /// The component did not come up.
    FailedToStart,
    /// The component survived `kill` and `kill -9`.
    FailedToStop,
}

pub enum MonitorActionView {
    RunStart(Seq<char>),
    Reload(Seq<char>),
    Stop(Seq<char>),
    ForceStop(Seq<char>),
    Report(Option<Seq<char>>),
    FailedToStart,
    FailedToStop,
}

impl View for MonitorAction {
    type V = MonitorActionView;

    open spec fn view(&self) -> MonitorActionView {
        match self {
            MonitorAction::RunStart(c) => MonitorActionView::RunStart(c@),
            MonitorAction::Reload(u) => MonitorActionView::Reload(u@),
            MonitorAction::Stop(c) => MonitorActionView::Stop(c@),
            MonitorAction::ForceStop(c) => MonitorActionView::ForceStop(c@),
            MonitorAction::Report(p) => MonitorActionView::Report(opt_text(*p)),
            MonitorAction::FailedToStart => MonitorActionView::FailedToStart,
            MonitorAction::FailedToStop => MonitorActionView::FailedToStop,
        }
    }
}

pub open spec fn observed_pid(o: MonitorObservation) -> Option<Seq<char>> {
    match o {
        MonitorObservation::Initial(p) => opt_text(p),
        MonitorObservation::AfterStart(p) => opt_text(p),
        MonitorObservation::AfterStop(p) => opt_text(p),
        MonitorObservation::AfterForceStop(p) => opt_text(p),
    }
}

/// The next action of a control task running `command` on component `c`:
/// `start` starts a stopped component (when configured) and fails if it does
/// not come up, and reloads a running Prometheus; `stop` sends `kill`, then
/// `kill -9`, and fails if the process survives both; `status` reports.
pub open spec fn monitor_next(command: MonitorCommand, c: MonitorComponentCommand, monitor: Monitor, o: MonitorObservation) -> MonitorActionView {
    let found = observed_pid(o);
    match command {
        MonitorCommand::Start { .. } => match o {
            MonitorObservation::Initial(None) => match spec_start(c, monitor) {
                Some(cmd) => MonitorActionView::RunStart(cmd),
                None => MonitorActionView::Report(None),
            },
            MonitorObservation::Initial(Some(_)) => match spec_reload_url(c, monitor) {
                Some(u) => MonitorActionView::Reload(u),
                None => MonitorActionView::Report(found),
            },
            MonitorObservation::AfterStart(None) => MonitorActionView::FailedToStart,
            _ => MonitorActionView::Report(found),
        },
        MonitorCommand::Stop { .. } => match o {
            MonitorObservation::Initial(Some(p)) => MonitorActionView::Stop("kill "@ + p@),
            MonitorObservation::AfterStop(Some(p)) => MonitorActionView::ForceStop("kill -9 "@ + p@),
            MonitorObservation::AfterForceStop(Some(_)) => MonitorActionView::FailedToStop,
            _ => MonitorActionView::Report(found),
        },
        _ => MonitorActionView::Report(found),
    }
}

pub open spec fn status_text(service: Seq<char>, pid: Option<Seq<char>>) -> Seq<char> {
    match pid {
        None => "\n"@ + service + " is down."@,
        Some(p) => "\n"@ + service + " is running, pid: "@ + p + "."@,
    }
}

fn clone_opt(o: &Option<String>) -> (r: Option<String>)
    ensures
        opt_text(r) == opt_text(*o),
{
    match o {
        Some(s) => Some(s.clone()),
        None => None,
    }
}

impl MonitorCtlTask {
    /// The word a `monitor` subcommand is named by.
    pub fn monitor_command_name(command: &MonitorCommand) -> (r: &'static str)
        ensures
            r@ == spec_monitor_command_name(*command),
    {
        match command {
            MonitorCommand::Start { .. } => "start",
            MonitorCommand::Stop { .. } => "stop",
            MonitorCommand::Restart { .. } => "restart",
            MonitorCommand::Status { .. } => "status",
            MonitorCommand::Update => "update",
        }
    }

    pub fn new(task_id: TaskId, ctl_cmd: MonitorComponentCommand, command: MonitorCommand) -> (r: MonitorCtlTask)
        ensures
            r.task_id@ == task_id@,
            r.monitor_ctl == ctl_cmd,
            r.command == command,
    {
        MonitorCtlTask { task_id, monitor_ctl: ctl_cmd, command }
    }

    /// The task that runs `command` (a subcommand of the command `cmd`) on
    /// component `ctl_cmd` at `host`, named `task_name`.
    pub fn build_monitor_task_instance(
        ctl_cmd: MonitorComponentCommand,
        task_name: String,
        host: &str,
        cmd: &str,
        command: MonitorCommand,
    ) -> (r: (TaskId, MonitorCtlTask))
        ensures
            r.0@ == (crate::task::TaskIdView { cmd: cmd@, task: task_name@, host: host@ }),
            r.1.task_id@ == r.0@,
            r.1.monitor_ctl == ctl_cmd,
            r.1.command == command,
    {
        let id = TaskId { cmd: String::from_str(cmd), task: task_name.clone(), host: String::from_str(host) };
        let id2 = TaskId { cmd: String::from_str(cmd), task: task_name, host: String::from_str(host) };
        (id, MonitorCtlTask::new(id2, ctl_cmd, command))
    }

    /// What to do next after observation `o`; only `start`, `stop` and
    /// `status` are run by control tasks.
    pub fn next_action(&self, monitor: &Monitor, o: &MonitorObservation) -> (r: MonitorAction)
        requires
            self.command is Start || self.command is Stop || self.command is Status,
        ensures
            r@ == monitor_next(self.command, self.monitor_ctl, *monitor, *o),
    {
        match self.command {
            MonitorCommand::Start { .. } => match o {
                MonitorObservation::Initial(None) => match self.monitor_ctl.start(monitor) {
                    Some(cmd) => MonitorAction::RunStart(cmd),
                    None => MonitorAction::Report(None),
                },
                MonitorObservation::Initial(Some(p)) => match self.monitor_ctl.reload_url(monitor) {
                    Some(u) => MonitorAction::Reload(u),
                    None => MonitorAction::Report(Some(p.clone())),
                },
                MonitorObservation::AfterStart(None) => MonitorAction::FailedToStart,
                MonitorObservation::AfterStart(p) => MonitorAction::Report(clone_opt(p)),
                MonitorObservation::AfterStop(p) => MonitorAction::Report(clone_opt(p)),
                MonitorObservation::AfterForceStop(p) => MonitorAction::Report(clone_opt(p)),
            },
            MonitorCommand::Stop { .. } => match o {
                MonitorObservation::Initial(Some(p)) => MonitorAction::Stop(self.monitor_ctl.stop(p.clone())),
                MonitorObservation::AfterStop(Some(p)) => MonitorAction::ForceStop(self.monitor_ctl.force_stop(p.clone())),
                MonitorObservation::AfterForceStop(Some(_)) => MonitorAction::FailedToStop,
                MonitorObservation::Initial(None) => MonitorAction::Report(None),
                MonitorObservation::AfterStop(None) => MonitorAction::Report(None),
                MonitorObservation::AfterForceStop(None) => MonitorAction::Report(None),
                MonitorObservation::AfterStart(p) => MonitorAction::Report(clone_opt(p)),
            },
            _ => match o {
                MonitorObservation::Initial(p) => MonitorAction::Report(clone_opt(p)),
                MonitorObservation::AfterStart(p) => MonitorAction::Report(clone_opt(p)),
                MonitorObservation::AfterStop(p) => MonitorAction::Report(clone_opt(p)),
                MonitorObservation::AfterForceStop(p) => MonitorAction::Report(clone_opt(p)),
            },
        }
    }

    /// The line a `status` task reports for the pid it found.
    pub fn status_output(&self, pid: &Option<String>) -> (r: String)
        ensures
            r@ == status_text(spec_service_name(self.monitor_ctl), opt_text(*pid)),
    {
        let mut s = String::from_str("\n");
        s.append(self.monitor_ctl.service_name());
        match pid {
            None => s.append(" is down."),
            Some(p) => {
                s.append(" is running, pid: ");
                s.append(p.as_str());
                s.append(".");
            },
        }
        s
    }
}

/// The name of the control task of a component: its prefix, the subcommand
/// and the component's port, joined by `-`.
pub fn component_task_name(prefix: &str, command: &MonitorCommand, port: u16) -> (r: String)
    ensures
        r@ == prefix@ + "-"@ + spec_monitor_command_name(*command) + "-"@ + port_text(port),
{
    let mut s = String::from_str(prefix);
    s.append("-");
    s.append(MonitorCtlTask::monitor_command_name(command));
    s.append("-");
    let p = port_string(port);
    s.append(p.as_str());
    s
}


impl MonitorComponentCommand {
    /// The command that shows the end of the component's startup log.
    pub fn startup_log_cmd(&self) -> (r: String)
        ensures
            r@ == "tail -n 40 "@ + spec_log_path(*self) + " 2>/dev/null || echo '<no startup log output>'"@,
    {
        let mut c = String::from_str("tail -n 40 ");
        c.append(self.log_path());
        c.append(" 2>/dev/null || echo '<no startup log output>'");
        c
    }

    /// The command that shows the modes of the component's binaries.
    pub fn file_modes_cmd(&self) -> (r: String)
        ensures
            r@ == "ls -l "@ + crate::text::join(spec_executable_paths(*self), " "@),
    {
        let files = self.executable_paths();
        let mut c = String::from_str("ls -l ");
        let j = crate::text::join_str(&files, " ");
        c.append(j.as_str());
        c
    }
}

/// What a failed start reports: the trimmed startup log and file modes that
/// could be read and are not empty, one section each, joined by newlines;
/// when there is neither, a note naming the service.
pub open spec fn spec_failure_details(service: Seq<char>, log: Option<Seq<char>>, modes: Option<Seq<char>>) -> Seq<char> {
    let a = match log {
        Some(o) => if crate::text::trim(o).len() > 0 { seq!["startup log:\n"@ + crate::text::trim(o)] } else { Seq::empty() },
        None => Seq::empty(),
    };
    let b = match modes {
        Some(o) => if crate::text::trim(o).len() > 0 { seq!["file modes:\n"@ + crate::text::trim(o)] } else { Seq::empty() },
        None => Seq::empty(),
    };
    let sections = a + b;
    if sections.len() == 0 {
        "no additional diagnostics captured for "@ + service
    } else {
        crate::text::join(sections, "\n"@)
    }
}

impl MonitorCtlTask {
    /// The diagnostics of a failed start, from the outputs of the startup
    /// log and file mode commands (`None` where a command could not run).
    pub fn start_failure_details(&self, log_output: &Option<String>, modes_output: &Option<String>) -> (r: String)
        ensures
            r@ == spec_failure_details(spec_service_name(self.monitor_ctl), opt_text(*log_output), opt_text(*modes_output)),
    {
        let mut sections: Vec<String> = Vec::new();
        if let Some(o) = log_output {
            let t = crate::text::trim_str(o.as_str());
            if t.as_str().unicode_len() > 0 {
                let mut s = String::from_str("startup log:\n");
                s.append(t.as_str());
                sections.push(s);
            }
        }
        if let Some(o) = modes_output {
            let t = crate::text::trim_str(o.as_str());
            if t.as_str().unicode_len() > 0 {
                let mut s = String::from_str("file modes:\n");
                s.append(t.as_str());
                sections.push(s);
            }
        }
        let ghost a = match opt_text(*log_output) {
            Some(o) => if crate::text::trim(o).len() > 0 { seq!["startup log:\n"@ + crate::text::trim(o)] } else { Seq::<Seq<char>>::empty() },
            None => Seq::<Seq<char>>::empty(),
        };
        let ghost b = match opt_text(*modes_output) {
            Some(o) => if crate::text::trim(o).len() > 0 { seq!["file modes:\n"@ + crate::text::trim(o)] } else { Seq::<Seq<char>>::empty() },
            None => Seq::<Seq<char>>::empty(),
        };
        assert(views(sections@) =~= a + b);
        if sections.len() == 0 {
            let mut s = String::from_str("no additional diagnostics captured for ");
            s.append(self.monitor_ctl.service_name());
            s
        } else {
            crate::text::join_str(&sections, "\n")
        }
    }
}

/// What a monitoring command does to a component.
#[derive(Debug, Clone, Copy, PartialEq, Eq, Structural)]
pub enum MonitorVerb {
    Start,
    Stop,
    Status,
    Update,
}

/// One phase of a monitoring command.
#[derive(Debug, Clone, Copy, PartialEq, Eq, Structural)]
pub enum MonitorPhase {
    /// Copy the monitoring configuration files to the hosts again.
    UploadConfig,
    /// Run the verb on the component.
    Run(MonitorVerb, MonitorComponent),
}

/// What the first pass over the components does: a restart stops them, any
/// other command does what it says.
pub open spec fn first_verb(c: MonitorCommand) -> MonitorVerb {
    match c {
        MonitorCommand::Start { .. } => MonitorVerb::Start,
        MonitorCommand::Stop { .. } => MonitorVerb::Stop,
        MonitorCommand::Restart { .. } => MonitorVerb::Stop,
        MonitorCommand::Status { .. } => MonitorVerb::Status,
        MonitorCommand::Update => MonitorVerb::Update,
    }
}

pub open spec fn enabled_in(sel: Seq<MonitorComponent>, c: MonitorComponent) -> bool {
    sel.len() == 0 || sel.contains(c)
}

pub open spec fn opt_phase(b: bool, p: MonitorPhase) -> Seq<MonitorPhase> {
    if b { seq![p] } else { Seq::empty() }
}

/// Whether phase `p` runs verb `v`.
pub open spec fn runs(p: MonitorPhase, v: MonitorVerb) -> bool {
    match p {
        MonitorPhase::Run(w, _) => w == v,
        MonitorPhase::UploadConfig => false,
    }
}

/// The verb run on each enabled component, in the fixed order node
/// exporter, Prometheus, Alertmanager, Grafana, webhook adapter.
pub open spec fn component_pass(v: MonitorVerb, sel: Seq<MonitorComponent>) -> Seq<MonitorPhase> {
    opt_phase(enabled_in(sel, MonitorComponent::NodeExporter), MonitorPhase::Run(v, MonitorComponent::NodeExporter))
        + opt_phase(enabled_in(sel, MonitorComponent::Prometheus), MonitorPhase::Run(v, MonitorComponent::Prometheus))
        + opt_phase(enabled_in(sel, MonitorComponent::Alertmanager), MonitorPhase::Run(v, MonitorComponent::Alertmanager))
        + opt_phase(enabled_in(sel, MonitorComponent::Grafana), MonitorPhase::Run(v, MonitorComponent::Grafana))
        + opt_phase(enabled_in(sel, MonitorComponent::PrometheusAlert), MonitorPhase::Run(v, MonitorComponent::PrometheusAlert))
}

/// The phases of monitoring command `c` (nothing when the deployment has
/// no monitoring): a start or restart first copies the configuration again;
/// then the command's verb runs on each selected component; a restart,
/// having stopped them, starts them again.
pub open spec fn spec_monitor_phases(has_monitor: bool, c: MonitorCommand) -> Seq<MonitorPhase> {
    let sel = spec_selected(c);
    if !has_monitor {
        Seq::empty()
    } else {
        opt_phase(c is Start || c is Restart, MonitorPhase::UploadConfig)
            + component_pass(first_verb(c), sel)
            + (if c is Restart { component_pass(MonitorVerb::Start, sel) } else { Seq::empty() })
    }
}

fn push_component_pass(r: &mut Vec<MonitorPhase>, v: MonitorVerb, sel: &Vec<MonitorComponent>)
    ensures
        final(r)@ == old(r)@ + component_pass(v, sel@),
{
    let ghost start = r@;
    if component_enabled(sel, MonitorComponent::NodeExporter) {
        r.push(MonitorPhase::Run(v, MonitorComponent::NodeExporter));
    }
    if component_enabled(sel, MonitorComponent::Prometheus) {
        r.push(MonitorPhase::Run(v, MonitorComponent::Prometheus));
    }
    if component_enabled(sel, MonitorComponent::Alertmanager) {
        r.push(MonitorPhase::Run(v, MonitorComponent::Alertmanager));
    }
    if component_enabled(sel, MonitorComponent::Grafana) {
        r.push(MonitorPhase::Run(v, MonitorComponent::Grafana));
    }
    if component_enabled(sel, MonitorComponent::PrometheusAlert) {
        r.push(MonitorPhase::Run(v, MonitorComponent::PrometheusAlert));
    }
    assert(r@ =~= start + component_pass(v, sel@));
}

/// The phases a monitoring command runs, in order.
pub fn monitor_phases(has_monitor: bool, command: &MonitorCommand) -> (r: Vec<MonitorPhase>)
    ensures
        r@ == spec_monitor_phases(has_monitor, *command),
{
    let mut r: Vec<MonitorPhase> = Vec::new();
    if !has_monitor {
        return r;
    }
    let sel = selected_components(command);
    let (start_like, restart, verb) = match command {
        MonitorCommand::Start { .. } => (true, false, MonitorVerb::Start),
        MonitorCommand::Stop { .. } => (false, false, MonitorVerb::Stop),
        MonitorCommand::Restart { .. } => (true, true, MonitorVerb::Stop),
        MonitorCommand::Status { .. } => (false, false, MonitorVerb::Status),
        MonitorCommand::Update => (false, false, MonitorVerb::Update),
    };
    if start_like {
        r.push(MonitorPhase::UploadConfig);
    }
    push_component_pass(&mut r, verb, &sel);
    if restart {
        push_component_pass(&mut r, MonitorVerb::Start, &sel);
    }
    assert(r@ =~= spec_monitor_phases(has_monitor, *command));
    r
}

proof fn lemma_component_pass_verb(v: MonitorVerb, sel: Seq<MonitorComponent>)
    ensures
        forall|i: int| 0 <= i < component_pass(v, sel).len() ==> runs(#[trigger] component_pass(v, sel)[i], v),
        component_pass(v, sel).len() <= 5,
{
    let a = opt_phase(enabled_in(sel, MonitorComponent::NodeExporter), MonitorPhase::Run(v, MonitorComponent::NodeExporter));
    let b = opt_phase(enabled_in(sel, MonitorComponent::Prometheus), MonitorPhase::Run(v, MonitorComponent::Prometheus));
    let c = opt_phase(enabled_in(sel, MonitorComponent::Alertmanager), MonitorPhase::Run(v, MonitorComponent::Alertmanager));
    let d = opt_phase(enabled_in(sel, MonitorComponent::Grafana), MonitorPhase::Run(v, MonitorComponent::Grafana));
    let e = opt_phase(enabled_in(sel, MonitorComponent::PrometheusAlert), MonitorPhase::Run(v, MonitorComponent::PrometheusAlert));
    let all = a + b + c + d + e;
    assert forall|i: int| 0 <= i < all.len() implies runs(#[trigger] all[i], v) by {
        let ab = a + b;
        let abc = ab + c;
        let abcd = abc + d;
        if i < abcd.len() {
            assert(all[i] == abcd[i]);
            if i < abc.len() {
                assert(abcd[i] == abc[i]);
                if i < ab.len() {
                    assert(abc[i] == ab[i]);
                    if i < a.len() {
                        assert(ab[i] == a[i]);
                    } else {
                        assert(ab[i] == b[i - a.len()]);
                    }
                } else {
                    assert(abc[i] == c[i - ab.len()]);
                }
            } else {
                assert(abcd[i] == d[i - abc.len()]);
            }
        } else {
            assert(all[i] == e[i - abcd.len()]);
        }
    }
}

/// A monitoring restart stops every selected component before it starts
/// any again, and copies the configuration before either; a start copies
/// the configuration before starting anything.
pub proof fn law_monitor_restart_order(has_monitor: bool, c: MonitorCommand)
    ensures
        ({
            let s = spec_monitor_phases(has_monitor, c);
            &&& (c is Restart ==> forall|i: int, j: int| 0 <= i < s.len() && 0 <= j < s.len()
                && runs(#[trigger] s[i], MonitorVerb::Stop) && runs(#[trigger] s[j], MonitorVerb::Start) ==> i < j)
            &&& (has_monitor && (c is Start || c is Restart) ==> s[0] == MonitorPhase::UploadConfig)
            &&& forall|i: int| 0 < i < s.len() ==> #[trigger] s[i] != MonitorPhase::UploadConfig
        }),
{
    let s = spec_monitor_phases(has_monitor, c);
    let sel = spec_selected(c);
    if has_monitor {
        let head = opt_phase(c is Start || c is Restart, MonitorPhase::UploadConfig);
        let p1 = component_pass(first_verb(c), sel);
        let p2 = if c is Restart { component_pass(MonitorVerb::Start, sel) } else { Seq::empty() };
        lemma_component_pass_verb(first_verb(c), sel);
        lemma_component_pass_verb(MonitorVerb::Start, sel);
        assert(s == head + p1 + p2);
        assert forall|i: int| 0 < i < s.len() implies #[trigger] s[i] != MonitorPhase::UploadConfig by {
            let hp = head + p1;
            if i < hp.len() {
                assert(s[i] == hp[i]);
                if i >= head.len() {
                    assert(hp[i] == p1[i - head.len()]);
                }
            } else {
                assert(s[i] == p2[i - hp.len()]);
            }
        }
        if c is Restart {
            assert forall|i: int, j: int| 0 <= i < s.len() && 0 <= j < s.len()
                && runs(#[trigger] s[i], MonitorVerb::Stop) && runs(#[trigger] s[j], MonitorVerb::Start) implies i < j by {
                let hp = head + p1;
                if i >= hp.len() {
                    assert(s[i] == p2[i - hp.len()]);
                }
                if j < hp.len() {
                    assert(s[j] == hp[j]);
                    if j >= head.len() {
                        assert(hp[j] == p1[j - head.len()]);
                    }
                }
            }
        }
    }
}


/// Whether `t` is the control task of one component: run by the command
/// `cmd` at `host`, named `<prefix>-<subcommand>-<port>`, for the component
/// `ctl` and the subcommand `command`.
pub open spec fn is_component_task(
    t: (TaskId, MonitorCtlTask),
    cmd: Seq<char>,
    prefix: Seq<char>,
    command: MonitorCommand,
    port: u16,
    host: Seq<char>,
    ctl: MonitorComponentCommand,
) -> bool {
    &&& t.0@ == (TaskIdView {
        cmd,
        task: prefix + "-"@ + spec_monitor_command_name(command) + "-"@ + port_text(port),
        host,
    })
    &&& t.1.task_id@ == t.0@
    &&& t.1.monitor_ctl == ctl
    &&& t.1.command == command
}

/// The control task of Grafana, installed under `home`, for the subcommand
/// `command` of `cmd`; none when Grafana is not configured.
pub fn grafana_ctl_task(command: MonitorCommand, cmd: &str, monitor: &Monitor, home: String) -> (r: Option<(TaskId, MonitorCtlTask)>)
    ensures
        match monitor.grafana {
            None => r is None,
            Some(g) => r is Some && is_component_task(r.unwrap(), cmd@, "grafana"@, command, g.port, g.host@, MonitorComponentCommand::Grafana { home }),
        },
{
    match &monitor.grafana {
        Some(g) => {
            let name = component_task_name("grafana", &command, g.port);
            Some(MonitorCtlTask::build_monitor_task_instance(MonitorComponentCommand::Grafana { home }, name, g.host.as_str(), cmd, command))
        },
        None => None,
    }
}

/// The control task of Prometheus, installed under `home`, for the
/// subcommand `command` of `cmd`; none when Prometheus is not configured.
pub fn prometheus_ctl_task(command: MonitorCommand, cmd: &str, monitor: &Monitor, home: String) -> (r: Option<(TaskId, MonitorCtlTask)>)
    ensures
        match monitor.prometheus {
            None => r is None,
            Some(p) => r is Some && is_component_task(r.unwrap(), cmd@, "prometheus"@, command, p.port, p.host@, MonitorComponentCommand::Prometheus { home }),
        },
{
    match &monitor.prometheus {
        Some(p) => {
            let name = component_task_name("prometheus", &command, p.port);
            Some(MonitorCtlTask::build_monitor_task_instance(MonitorComponentCommand::Prometheus { home }, name, p.host.as_str(), cmd, command))
        },
        None => None,
    }
}

/// The control task of Alertmanager, installed under `home`, for the
/// subcommand `command` of `cmd`; none when Alertmanager is not configured.
pub fn alertmanager_ctl_task(command: MonitorCommand, cmd: &str, monitor: &Monitor, home: String) -> (r: Option<(TaskId, MonitorCtlTask)>)
    ensures
        match monitor.alertmanager {
            None => r is None,
            Some(a) => r is Some && is_component_task(r.unwrap(), cmd@, "alertmanager"@, command, a.port, a.host@, MonitorComponentCommand::Alertmanager { home }),
        },
{
    match &monitor.alertmanager {
        Some(a) => {
            let name = component_task_name("alertmanager", &command, a.port);
            Some(MonitorCtlTask::build_monitor_task_instance(MonitorComponentCommand::Alertmanager { home }, name, a.host.as_str(), cmd, command))
        },
        None => None,
    }
}

/// The control task of the Alertmanager webhook adapter, installed under
/// `home` on Alertmanager's host and listening on its webhook port, for the
/// subcommand `command` of `cmd`; none when Alertmanager is not configured.
pub fn prometheusalert_ctl_task(command: MonitorCommand, cmd: &str, monitor: &Monitor, home: String) -> (r: Option<(TaskId, MonitorCtlTask)>)
    ensures
        match monitor.alertmanager {
            None => r is None,
            Some(a) => r is Some && is_component_task(r.unwrap(), cmd@, "alertmanager-webhook-adapter"@, command, a.webhook_adapter_port, a.host@, MonitorComponentCommand::PrometheusAlert { home }),
        },
{
    match &monitor.alertmanager {
        Some(a) => {
            let name = component_task_name("alertmanager-webhook-adapter", &command, a.webhook_adapter_port);
            Some(MonitorCtlTask::build_monitor_task_instance(MonitorComponentCommand::PrometheusAlert { home }, name, a.host.as_str(), cmd, command))
        },
        None => None,
    }
}

/// The same subcommand, with the same components.
fn copy_monitor_command(c: &MonitorCommand) -> (r: MonitorCommand)
    ensures
        spec_monitor_command_name(r) == spec_monitor_command_name(*c),
        spec_selected(r) == spec_selected(*c),
{
    match c {
        MonitorCommand::Start { .. } => MonitorCommand::Start { components: selected_components(c) },
        MonitorCommand::Stop { .. } => MonitorCommand::Stop { components: selected_components(c) },
        MonitorCommand::Restart { .. } => MonitorCommand::Restart { components: selected_components(c) },
        MonitorCommand::Status { .. } => MonitorCommand::Status { components: selected_components(c) },
        MonitorCommand::Update => MonitorCommand::Update,
    }
}

/// Whether `t` is the node exporter task at `host`: run by `cmd`, named
/// `node_exporter-<subcommand>-<port>`, for the exporter under `home` and a
/// subcommand with the name and components of `command`.
pub open spec fn is_exporter_task(
    t: (TaskId, MonitorCtlTask),
    cmd: Seq<char>,
    command: MonitorCommand,
    port: u16,
    host: Seq<char>,
    home: Seq<char>,
) -> bool {
    &&& t.0@ == (TaskIdView {
        cmd,
        task: "node_exporter"@ + "-"@ + spec_monitor_command_name(command) + "-"@ + port_text(port),
        host,
    })
    &&& t.1.task_id@ == t.0@
    &&& t.1.monitor_ctl is NodeExporter
    &&& home_of(t.1.monitor_ctl) == home
    &&& spec_monitor_command_name(t.1.command) == spec_monitor_command_name(command)
    &&& spec_selected(t.1.command) == spec_selected(command)
}

/// The node exporter control tasks for the subcommand `command` of `cmd`:
/// one per host of `hosts` (the hosts of the tx servers, standbys, log
/// servers and storage), each host once, in order of first appearance. A
/// deployment with such hosts configures the exporter.
pub fn exporter_ctl_task(command: &MonitorCommand, cmd: &str, monitor: &Monitor, home: &str, hosts: &Vec<String>) -> (r: Vec<(TaskId, MonitorCtlTask)>)
    requires
        hosts.len() > 0 ==> monitor.node_exporter is Some,
    ensures
        r.len() == crate::text::dedup(views(hosts@)).len(),
        forall|i: int| 0 <= i < r.len() ==> is_exporter_task(#[trigger] r[i], cmd@, *command, monitor.node_exporter.unwrap().port, crate::text::dedup(views(hosts@))[i], home@),
{
    let unique = crate::text::dedup_strings(hosts);
    let ghost u = views(unique@);
    let mut r: Vec<(TaskId, MonitorCtlTask)> = Vec::new();
    if unique.len() == 0 {
        return r;
    }
    proof {
        crate::text::lemma_dedup_props(views(hosts@));
        assert(u.contains(u[0]));
        assert(views(hosts@).contains(u[0]));
    }
    let port = match &monitor.node_exporter {
        Some(n) => n.port,
        None => 0,
    };
    let mut i: usize = 0;
    while i < unique.len()
        invariant
            i <= unique.len(),
            u == views(unique@),
            u == crate::text::dedup(views(hosts@)),
            monitor.node_exporter is Some,
            port == monitor.node_exporter.unwrap().port,
            r.len() == i,
            forall|k: int| 0 <= k < i ==> is_exporter_task(#[trigger] r[k], cmd@, *command, port, u[k], home@),
        decreases unique.len() - i,
    {
        let name = component_task_name("node_exporter", command, port);
        let ctl = MonitorComponentCommand::NodeExporter { home: String::from_str(home) };
        let t = MonitorCtlTask::build_monitor_task_instance(ctl, name, unique[i].as_str(), cmd, copy_monitor_command(command));
        assert(u[i as int] == unique@[i as int]@);
        assert(is_exporter_task(t, cmd@, *command, port, u[i as int], home@));
        let ghost before = r@;
        r.push(t);
        assert forall|k: int| 0 <= k < i + 1 implies is_exporter_task(#[trigger] r[k], cmd@, *command, port, u[k], home@) by {
            if k < i {
                assert(r[k] == before[k]);
            }
        }
        i = i + 1;
    }
    r
}

} // verus!
