//! Configuration of the controller manager: the settings of each controller,
//! their default values, and which controllers are selected to run.

use std::path::PathBuf;

use vstd::prelude::*;

use crate::text::{
    chars_of, contains_text, push_unique, same_text, split, split_ranges, substring,
    string_views, trim, trim_bounds,
};
use crate::duration_bound::{duration_fits, duration_fits_in};
use crate::time::Duration;

verus! {

/// A path on the local file system, carried through unchanged.
#[verifier::external_type_specification]
#[verifier::external_body]
pub struct ExPathBuf(PathBuf);

/// The IEEE-754 single-precision bit pattern of a setting that the library
/// carries without computing with it.
#[derive(Clone, Copy, Debug, PartialEq, Eq, Structural)]
pub struct Real32 {
    /// The bit pattern.
    pub bits: u32,
}

/// The IEEE-754 double-precision bit pattern of a setting that the library
/// carries without computing with it.
#[derive(Clone, Copy, Debug, PartialEq, Eq, Structural)]
pub struct Real64 {
    /// The bit pattern.
    pub bits: u64,
}

impl Default for Real32 {
    /// The pattern of positive zero.
    fn default() -> (r: Real32)
        ensures
            r.bits == 0,
    {
        Real32 { bits: 0 }
    }
}

impl Default for Real64 {
    /// The pattern of positive zero.
    fn default() -> (r: Real64)
        ensures
            r.bits == 0,
    {
        Real64 { bits: 0 }
    }
}

/// Cloud provider types.
#[derive(Clone, Copy, Debug, PartialEq, Eq, Structural)]
pub enum CloudProvider {
    /// No cloud provider; written `none` in configuration files.
    NoProvider,
    /// AWS cloud provider.
    Aws,
    /// Azure cloud provider.
    Azure,
    /// GCE cloud provider.
    Gce,
    /// OpenStack cloud provider.
    Openstack,
    /// VSphere cloud provider.
    Vsphere,
}

impl Default for CloudProvider {
    /// No cloud provider.
    fn default() -> (r: CloudProvider)
        ensures
            r == CloudProvider::NoProvider,
    {
        CloudProvider::NoProvider
    }
}

/// CIDR allocator types.
#[derive(Clone, Copy, Debug, PartialEq, Eq, Structural)]
pub enum CidrAllocatorType {
    /// Range allocator (default).
    Range,
    /// Cloud provider allocator.
    Cloud,
}

impl Default for CidrAllocatorType {
    /// The range allocator.
    fn default() -> (r: CidrAllocatorType)
        ensures
            r == CidrAllocatorType::Range,
    {
        CidrAllocatorType::Range
    }
}

/// Default number of concurrent syncs.
pub fn default_concurrent_syncs() -> (r: i32)
    ensures
        r == 5,
{
    5
}

/// Default address to serve metrics.
pub fn default_bind_address() -> (r: String)
    ensures
        r@ == "0.0.0.0"@,
{
    "0.0.0.0".to_owned()
}

/// Default port to serve metrics.
pub fn default_metrics_port() -> (r: u16)
    ensures
        r == 10252,
{
    10252
}

/// Default port for profiling.
pub fn default_pprof_port() -> (r: u16)
    ensures
        r == 10253,
{
    10253
}

/// Default controller selection: all controllers.
pub fn default_controllers() -> (r: String)
    ensures
        r@ == "*"@,
{
    "*".to_owned()
}

/// Default minimum resync period: twelve hours.
pub fn default_min_resync_period() -> (r: Duration)
    ensures
        r.is_secs(43200),
{
    Duration::from_secs(12 * 60 * 60)
}

/// Default time between controller starts: one tenth of a second.
pub fn default_controller_start_interval() -> (r: Duration)
    ensures
        r.is_millis(100),
{
    Duration::from_millis(100)
}

/// Default time to wait for controllers to stop.
pub fn default_shutdown_timeout() -> (r: Duration)
    ensures
        r.is_secs(30),
{
    Duration::from_secs(30)
}

/// Default client burst.
pub fn default_client_burst() -> (r: i32)
    ensures
        r == 100,
{
    100
}

/// Default client requests per second: fifty.
pub fn default_client_qps() -> (r: Real32)
    ensures
        r.bits == 0x4248_0000,
{
    Real32 { bits: 0x4248_0000 }
}

/// Default namespace.
pub fn default_namespace() -> (r: String)
    ensures
        r@ == "default"@,
{
    "default".to_owned()
}

/// Default port for the health check server.
pub fn default_healthz_port() -> (r: u16)
    ensures
        r == 10257,
{
    10257
}

/// Default leader election setting: on.
pub fn default_leader_election() -> (r: bool)
    ensures
        r,
{
    true
}

/// Default diagnostics server setting: on.
pub fn default_enable_diagnostics() -> (r: bool)
    ensures
        r,
{
    true
}

/// Default port for the diagnostics server.
pub fn default_diagnostics_port() -> (r: u16)
    ensures
        r == 10256,
{
    10256
}

/// Default number of endpoint workers.
pub fn default_endpoint_concurrent_syncs() -> (r: i32)
    ensures
        r == 5,
{
    5
}

/// Default endpoint updates batch period: fifty milliseconds.
pub fn default_endpoint_batch_period() -> (r: Duration)
    ensures
        r.is_millis(50),
{
    Duration::from_millis(50)
}

/// Default number of replication controller workers.
pub fn default_rc_concurrent_syncs() -> (r: i32)
    ensures
        r == 5,
{
    5
}

/// Default number of terminated pods to keep.
pub fn default_terminated_pod_threshold() -> (r: i32)
    ensures
        r == 12500,
{
    12500
}

/// Default number of resource quota workers.
pub fn default_rq_concurrent_syncs() -> (r: i32)
    ensures
        r == 5,
{
    5
}

/// Default resource quota sync period.
pub fn default_rq_sync_period() -> (r: Duration)
    ensures
        r.is_secs(60),
{
    Duration::from_secs(60)
}

/// Default number of namespace workers.
pub fn default_ns_concurrent_syncs() -> (r: i32)
    ensures
        r == 10,
{
    10
}

/// Default namespace sync period.
pub fn default_ns_sync_period() -> (r: Duration)
    ensures
        r.is_secs(60),
{
    Duration::from_secs(60)
}

/// Default service account token setting: on.
pub fn default_sa_token() -> (r: bool)
    ensures
        r,
{
    true
}

/// Default number of garbage collector workers.
pub fn default_gc_concurrent_syncs() -> (r: i32)
    ensures
        r == 20,
{
    20
}

/// Default garbage collector setting: on.
pub fn default_gc_enabled() -> (r: bool)
    ensures
        r,
{
    true
}

/// Default number of DaemonSet workers.
pub fn default_ds_concurrent_syncs() -> (r: i32)
    ensures
        r == 5,
{
    5
}

/// Default number of Job workers.
pub fn default_job_concurrent_syncs() -> (r: i32)
    ensures
        r == 5,
{
    5
}

/// Default number of Deployment workers.
pub fn default_deploy_concurrent_syncs() -> (r: i32)
    ensures
        r == 5,
{
    5
}

/// Default number of ReplicaSet workers.
pub fn default_rs_concurrent_syncs() -> (r: i32)
    ensures
        r == 5,
{
    5
}

/// Default number of HPA workers.
pub fn default_hpa_concurrent_syncs() -> (r: i32)
    ensures
        r == 5,
{
    5
}

/// Default HPA sync period.
pub fn default_hpa_sync_period() -> (r: Duration)
    ensures
        r.is_secs(15),
{
    Duration::from_secs(15)
}

/// Default HPA downscale stabilization window.
pub fn default_hpa_downscale_stabilization() -> (r: Duration)
    ensures
        r.is_secs(300),
{
    Duration::from_secs(300)
}

/// Default HPA tolerance: one tenth.
pub fn default_hpa_tolerance() -> (r: Real64)
    ensures
        r.bits == 0x3fb9_9999_9999_999a,
{
    Real64 { bits: 0x3fb9_9999_9999_999a }
}

/// Default HPA CPU initialization period.
pub fn default_hpa_cpu_init_period() -> (r: Duration)
    ensures
        r.is_secs(300),
{
    Duration::from_secs(300)
}

/// Default HPA initial readiness delay.
pub fn default_hpa_init_readiness_delay() -> (r: Duration)
    ensures
        r.is_secs(30),
{
    Duration::from_secs(30)
}

/// Default number of disruption workers.
pub fn default_disruption_concurrent_syncs() -> (r: i32)
    ensures
        r == 5,
{
    5
}

/// Default number of StatefulSet workers.
pub fn default_sts_concurrent_syncs() -> (r: i32)
    ensures
        r == 5,
{
    5
}

/// Default number of CronJob workers.
pub fn default_cj_concurrent_syncs() -> (r: i32)
    ensures
        r == 5,
{
    5
}

/// Default CSR signing controller setting: on.
pub fn default_csr_signing_enabled() -> (r: bool)
    ensures
        r,
{
    true
}

/// Default CSR approving controller setting: on.
pub fn default_csr_approving_enabled() -> (r: bool)
    ensures
        r,
{
    true
}

/// Default CSR cleaning controller setting: on.
pub fn default_csr_cleaning_enabled() -> (r: bool)
    ensures
        r,
{
    true
}

/// Default cluster signing duration: one year of 365 days.
pub fn default_cluster_signing_duration() -> (r: Duration)
    ensures
        r.is_secs(31536000),
{
    Duration::from_secs(365 * 24 * 60 * 60)
}

/// Default number of TTL workers.
pub fn default_ttl_concurrent_syncs() -> (r: i32)
    ensures
        r == 5,
{
    5
}

/// Default bootstrap token sign duration: ten years of 365 days.
pub fn default_bootstrap_token_duration() -> (r: Duration)
    ensures
        r.is_secs(315360000),
{
    Duration::from_secs(60 * 60 * 24 * 365 * 10)
}

/// Default node CIDR mask size for IPv4.
pub fn default_node_cidr_mask_size_ipv4() -> (r: i32)
    ensures
        r == 24,
{
    24
}

/// Default node CIDR mask size for IPv6.
pub fn default_node_cidr_mask_size_ipv6() -> (r: i32)
    ensures
        r == 64,
{
    64
}

/// Default node monitor period.
pub fn default_node_monitor_period() -> (r: Duration)
    ensures
        r.is_secs(5),
{
    Duration::from_secs(5)
}

/// Default node startup grace period.
pub fn default_node_startup_grace_period() -> (r: Duration)
    ensures
        r.is_secs(60),
{
    Duration::from_secs(60)
}

/// Default node monitor grace period.
pub fn default_node_monitor_grace_period() -> (r: Duration)
    ensures
        r.is_secs(40),
{
    Duration::from_secs(40)
}

/// Default node eviction rate: one tenth.
pub fn default_node_eviction_rate() -> (r: Real64)
    ensures
        r.bits == 0x3fb9_9999_9999_999a,
{
    Real64 { bits: 0x3fb9_9999_9999_999a }
}

/// Default secondary node eviction rate: one hundredth.
pub fn default_secondary_node_eviction_rate() -> (r: Real64)
    ensures
        r.bits == 0x3f84_7ae1_47ae_147b,
{
    Real64 { bits: 0x3f84_7ae1_47ae_147b }
}

/// Default large cluster size threshold.
pub fn default_large_cluster_threshold() -> (r: i32)
    ensures
        r == 500,
{
    500
}

/// Default unhealthy zone threshold: fifty-five hundredths.
pub fn default_unhealthy_zone_threshold() -> (r: Real64)
    ensures
        r.bits == 0x3fe1_9999_9999_999a,
{
    Real64 { bits: 0x3fe1_9999_9999_999a }
}

/// Default PV claim binder sync period.
pub fn default_pv_claim_binder_sync_period() -> (r: Duration)
    ensures
        r.is_secs(15),
{
    Duration::from_secs(15)
}

/// Default dynamic provisioning setting: on.
pub fn default_enable_dynamic_provisioning() -> (r: bool)
    ensures
        r,
{
    true
}

/// Default reconciler sync loop period.
pub fn default_reconciler_sync_loop_period() -> (r: Duration)
    ensures
        r.is_secs(60),
{
    Duration::from_secs(60)
}

/// Default PVC protection setting: on.
pub fn default_pvc_protection() -> (r: bool)
    ensures
        r,
{
    true
}

/// Default PV protection setting: on.
pub fn default_pv_protection() -> (r: bool)
    ensures
        r,
{
    true
}

/// Default number of TTL after finished workers.
pub fn default_ttl_after_finished_concurrent_syncs() -> (r: i32)
    ensures
        r == 5,
{
    5
}

/// Default resource lock type.
pub fn default_resource_lock() -> (r: String)
    ensures
        r@ == "leases"@,
{
    "leases".to_owned()
}

/// Default resource namespace.
pub fn default_resource_namespace() -> (r: String)
    ensures
        r@ == "kube-system"@,
{
    "kube-system".to_owned()
}

/// Default resource name.
pub fn default_resource_name() -> (r: String)
    ensures
        r@ == "kube-controller-manager"@,
{
    "kube-controller-manager".to_owned()
}

/// Default lease duration.
pub fn default_lease_duration() -> (r: Duration)
    ensures
        r.is_secs(15),
{
    Duration::from_secs(15)
}

/// Default renew deadline.
pub fn default_renew_deadline() -> (r: Duration)
    ensures
        r.is_secs(10),
{
    Duration::from_secs(10)
}

/// Default retry period.
pub fn default_retry_period() -> (r: Duration)
    ensures
        r.is_secs(2),
{
    Duration::from_secs(2)
}

/// Default leader migration resource lock type.
pub fn default_migration_resource_lock() -> (r: String)
    ensures
        r@ == "leases"@,
{
    "leases".to_owned()
}

/// Default leader migration resource name.
pub fn default_migration_resource_name() -> (r: String)
    ensures
        r@ == "kube-controller-manager-migration"@,
{
    "kube-controller-manager-migration".to_owned()
}

/// Generic configuration applicable to all controllers.
#[derive(Debug)]
pub struct GenericControllerManagerConfig {
    /// Kubeconfig file for talking to the apiserver.
    pub kubeconfig: Option<PathBuf>,
    /// Master URL to build a client from.
    pub master: Option<String>,
    /// The address to serve metrics.
    pub bind_address: String,
    /// The port to serve metrics.
    pub bind_port: u16,
    /// Enable content_type = application/vnd.kubernetes.protobuf in watched events.
    pub use_protobuf_content_type: bool,
    /// Enable goroutine profiling via web interface.
    pub enable_contention_profiling: bool,
    /// Enable profiling via web interface.
    pub enable_profiling: bool,
    /// Port for pprof.
    pub pprof_port: u16,
    /// Comma-separated list of controllers to enable.
    /// '*' enables all controllers, 'foo' enables the controller named 'foo',
    /// '-foo' disables the controller named 'foo'.
    pub controllers: String,
    /// Controllers enabled by name, each once.
    pub controllers_enabled: Vec<String>,
    /// Controllers disabled by name, each once.
    pub controllers_disabled: Vec<String>,
    /// Minimum resync period for informers.
    pub min_resync_period: Duration,
    /// The duration between each controller starting.
    pub controller_start_interval: Duration,
    /// The maximum time to wait for controllers to stop.
    pub shutdown_timeout: Duration,
    /// The number of concurrent workers for each controller.
    pub concurrent_syncs: i32,
    /// The client burst QPS.
    pub client_burst: i32,
    /// The client QPS.
    pub client_qps: Real32,
    /// The address for the Kubernetes API server.
    pub api_server: Option<String>,
    /// Namespace to watch for default resources.
    pub namespace: String,
    /// Port for the health check server.
    pub healthz_bind_port: u16,
    /// Whether to enable leader election.
    pub leader_election_enabled: bool,
    /// Whether to enable the insecure diagnostics server.
    pub enable_diagnostics: bool,
    /// Port for the insecure diagnostics server.
    pub diagnostics_port: u16,
}

impl GenericControllerManagerConfig {
    /// Whether every setting has its documented default value.
    pub open spec fn has_documented_defaults(&self) -> bool {
        &&& self.kubeconfig is None
        &&& self.master is None
        &&& self.bind_address@ == "0.0.0.0"@
        &&& self.bind_port == 10252
        &&& !self.use_protobuf_content_type
        &&& !self.enable_contention_profiling
        &&& !self.enable_profiling
        &&& self.pprof_port == 10253
        &&& self.controllers@ == "*"@
        &&& self.controllers_enabled@.len() == 0
        &&& self.controllers_disabled@.len() == 0
        &&& self.min_resync_period.is_secs(43200)
        &&& self.controller_start_interval.is_millis(100)
        &&& self.shutdown_timeout.is_secs(30)
        &&& self.concurrent_syncs == 5
        &&& self.client_burst == 100
        &&& self.client_qps.bits == 0x4248_0000
        &&& self.api_server is None
        &&& self.namespace@ == "default"@
        &&& self.healthz_bind_port == 10257
        &&& self.leader_election_enabled
        &&& self.enable_diagnostics
        &&& self.diagnostics_port == 10256
    }
}

impl Default for GenericControllerManagerConfig {
    /// The documented default of every generic setting.
    fn default() -> (r: GenericControllerManagerConfig)
        ensures
            r.has_documented_defaults(),
    {
        GenericControllerManagerConfig {
            kubeconfig: None,
            master: None,
            bind_address: default_bind_address(),
            bind_port: default_metrics_port(),
            use_protobuf_content_type: false,
            enable_contention_profiling: false,
            enable_profiling: false,
            pprof_port: default_pprof_port(),
            controllers: default_controllers(),
            controllers_enabled: Vec::new(),
            controllers_disabled: Vec::new(),
            min_resync_period: default_min_resync_period(),
            controller_start_interval: default_controller_start_interval(),
            shutdown_timeout: default_shutdown_timeout(),
            concurrent_syncs: default_concurrent_syncs(),
            client_burst: default_client_burst(),
            client_qps: default_client_qps(),
            api_server: None,
            namespace: default_namespace(),
            healthz_bind_port: default_healthz_port(),
            leader_election_enabled: default_leader_election(),
            enable_diagnostics: default_enable_diagnostics(),
            diagnostics_port: default_diagnostics_port(),
        }
    }
}

/// Whether the controller `name` runs under a selection: with exactly `"*"`
/// every controller runs that is not disabled by name; otherwise a controller
/// runs when it is enabled by name, or when `*` is among the enabled names and
/// it is not disabled by name.
pub open spec fn controller_selected(
    controllers: Seq<char>,
    enabled: Seq<Seq<char>>,
    disabled: Seq<Seq<char>>,
    name: Seq<char>,
) -> bool {
    if controllers == "*"@ {
        !disabled.contains(name)
    } else {
        enabled.contains(name) || (enabled.contains("*"@) && !disabled.contains(name))
    }
}

/// The items of a controller selection text: its comma-separated pieces
/// without surrounding white space.
pub open spec fn selection_items(controllers: Seq<char>) -> Seq<Seq<char>> {
    split(controllers, ',').map_values(|p: Seq<char>| trim(p))
}

/// The controllers that a selection text enables by name: its non-empty items
/// that do not start with `-`.
pub open spec fn selection_enabled(controllers: Seq<char>) -> Set<Seq<char>> {
    Set::new(
        |x: Seq<char>|
            exists|i: int|
                0 <= i < selection_items(controllers).len() && #[trigger] selection_items(
                    controllers,
                )[i] == x && x.len() > 0 && x[0] != '-',
    )
}

/// The controllers that a selection text disables by name: its items that
/// start with `-`, without that first `-`.
pub open spec fn selection_disabled(controllers: Seq<char>) -> Set<Seq<char>> {
    Set::new(
        |x: Seq<char>|
            exists|i: int|
                0 <= i < selection_items(controllers).len() && #[trigger] selection_items(
                    controllers,
                )[i].len() > 0 && selection_items(controllers)[i][0] == '-' && selection_items(
                    controllers,
                )[i].drop_first() == x,
    )
}

impl GenericControllerManagerConfig {
    /// Whether the controller `name` is selected to run.
    pub fn is_controller_enabled(&self, name: &str) -> (r: bool)
        ensures
            r == controller_selected(
                self.controllers@,
                string_views(self.controllers_enabled@),
                string_views(self.controllers_disabled@),
                name@,
            ),
    {
        if same_text(self.controllers.as_str(), "*") {
            return !contains_text(&self.controllers_disabled, name);
        }
        if contains_text(&self.controllers_enabled, name) {
            return true;
        }
        contains_text(&self.controllers_enabled, "*") && !contains_text(
            &self.controllers_disabled,
            name,
        )
    }
}

/// The enabled and disabled controller names that the selection text
/// `controllers` gives, each name once.
pub fn selection_sets(controllers: &str) -> (r: (Vec<String>, Vec<String>))
    ensures
        string_views(r.0@).no_duplicates(),
        string_views(r.1@).no_duplicates(),
        string_views(r.0@).to_set() == selection_enabled(controllers@),
        string_views(r.1@).to_set() == selection_disabled(controllers@),
{
    let v = chars_of(controllers);
    let ranges = split_ranges(&v, ',');
    let ghost items = selection_items(v@);
    let mut enabled: Vec<String> = Vec::new();
    let mut disabled: Vec<String> = Vec::new();
    let mut idx: usize = 0;
    while idx < ranges.len()
        invariant
            0 <= idx <= ranges@.len(),
            v@ == controllers@,
            items == selection_items(v@),
            ranges@.len() == items.len(),
            forall|j: int|
                0 <= j < ranges@.len() ==> {
                    &&& (#[trigger] ranges@[j]).0 <= ranges@[j].1 <= v@.len()
                    &&& v@.subrange(ranges@[j].0 as int, ranges@[j].1 as int) == split(v@, ',')[j]
                },
            string_views(enabled@).no_duplicates(),
            string_views(disabled@).no_duplicates(),
            string_views(enabled@).to_set() == Set::new(
                |x: Seq<char>|
                    exists|i: int|
                        0 <= i < idx && #[trigger] items[i] == x && x.len() > 0 && x[0] != '-',
            ),
            string_views(disabled@).to_set() == Set::new(
                |x: Seq<char>|
                    exists|i: int|
                        0 <= i < idx && #[trigger] items[i].len() > 0 && items[i][0] == '-'
                            && items[i].drop_first() == x,
            ),
        decreases ranges@.len() - idx,
    {
        let (a, b) = ranges[idx];
        let (lo, hi) = trim_bounds(&v, a, b);
        let ghost item = v@.subrange(lo as int, hi as int);
        assert(item == items[idx as int]);
        let ghost old_enabled = string_views(enabled@).to_set();
        let ghost old_disabled = string_views(disabled@).to_set();
        if lo < hi {
            if v[lo] == '-' {
                let name = substring(controllers, lo + 1, hi);
                assert(name@ =~= item.drop_first());
                push_unique(&mut disabled, name);
            } else {
                let name = substring(controllers, lo, hi);
                push_unique(&mut enabled, name);
            }
        }
        proof {
            let ne = Set::new(
                |x: Seq<char>|
                    exists|i: int|
                        0 <= i < idx + 1 && #[trigger] items[i] == x && x.len() > 0 && x[0] != '-',
            );
            let nd = Set::new(
                |x: Seq<char>|
                    exists|i: int|
                        0 <= i < idx + 1 && #[trigger] items[i].len() > 0 && items[i][0] == '-'
                            && items[i].drop_first() == x,
            );
            assert forall|x: Seq<char>| string_views(enabled@).to_set().contains(x) <==> ne.contains(x) by {
                if ne.contains(x) {
                    let i = choose|i: int| 0 <= i < idx + 1 && #[trigger] items[i] == x && x.len() > 0 && x[0] != '-';
                    if i < idx {
                        assert(old_enabled.contains(x));
                    }
                }
                if string_views(enabled@).to_set().contains(x) && !old_enabled.contains(x) {
                    assert(items[idx as int] == x);
                }
            }
            assert forall|x: Seq<char>| string_views(disabled@).to_set().contains(x) <==> nd.contains(x) by {
                if nd.contains(x) {
                    let i = choose|i: int| 0 <= i < idx + 1 && #[trigger] items[i].len() > 0 && items[i][0] == '-'
                        && items[i].drop_first() == x;
                    if i < idx {
                        assert(old_disabled.contains(x));
                    }
                }
                if string_views(disabled@).to_set().contains(x) && !old_disabled.contains(x) {
                    assert(items[idx as int].drop_first() == x);
                }
            }
            assert(string_views(enabled@).to_set() =~= ne);
            assert(string_views(disabled@).to_set() =~= nd);
        }
        idx = idx + 1;
    }
    proof {
        assert(string_views(enabled@).to_set() =~= selection_enabled(controllers@));
        assert(string_views(disabled@).to_set() =~= selection_disabled(controllers@));
    }
    (enabled, disabled)
}

/// Main configuration for the controller manager.
#[derive(Debug)]
pub struct ControllerManagerConfig {
    /// Generic configuration applicable to all controllers.
    pub generic: GenericControllerManagerConfig,
    /// KubeCloudShared configuration contains cloud provider related config.
    pub kube_cloud_shared: KubeCloudSharedConfig,
    /// Endpoint controller configuration.
    pub endpoint: EndpointControllerConfig,
    /// Replication controller configuration.
    pub replication: ReplicationControllerConfig,
    /// Pod garbage collector configuration.
    pub pod_gc: PodGCControllerConfig,
    /// Resource quota controller configuration.
    pub resource_quota: ResourceQuotaControllerConfig,
    /// Namespace controller configuration.
    pub namespace: NamespaceControllerConfig,
    /// Service account controller configuration.
    pub service_account: ServiceAccountControllerConfig,
    /// Garbage collector controller configuration.
    pub garbage_collector: GarbageCollectorControllerConfig,
    /// DaemonSet controller configuration.
    pub daemon_set: DaemonSetControllerConfig,
    /// Job controller configuration.
    pub job: JobControllerConfig,
    /// Deployment controller configuration.
    pub deployment: DeploymentControllerConfig,
    /// ReplicaSet controller configuration.
    pub replica_set: ReplicaSetControllerConfig,
    /// Horizontal Pod Autoscaler configuration.
    pub hpa: HPAControllerConfig,
    /// Disruption (PodDisruptionBudget) controller configuration.
    pub disruption: DisruptionControllerConfig,
    /// StatefulSet controller configuration.
    pub stateful_set: StatefulSetControllerConfig,
    /// CronJob controller configuration.
    pub cron_job: CronJobControllerConfig,
    /// Certificate controllers configuration.
    pub certificates: CertificatesConfig,
    /// TTL controller configuration.
    pub ttl: TTLControllerConfig,
    /// Bootstrap controller configuration.
    pub bootstrap: BootstrapControllerConfig,
    /// Node IPAM controller configuration.
    pub node_ipam: NodeIPAMControllerConfig,
    /// Node lifecycle controller configuration.
    pub node_lifecycle: NodeLifecycleControllerConfig,
    /// Persistent volume binder controller configuration.
    pub pv_binder: PersistentVolumeBinderConfig,
    /// Attach detach controller configuration.
    pub attach_detach: AttachDetachControllerConfig,
    /// Persistent volume claim protection controller configuration.
    pub pvc_protection: PVCProtectionControllerConfig,
    /// Persistent volume protection controller configuration.
    pub pv_protection: PVProtectionControllerConfig,
    /// TTL after finished controller configuration.
    pub ttl_after_finished: TTLAfterFinishedControllerConfig,
    /// Leader election configuration.
    pub leader_election: LeaderElectionConfig,
    /// Leader migration configuration.
    pub leader_migration: LeaderMigrationConfig,
    /// Concurrent syncs for device taint eviction controller.
    pub concurrent_device_taint_eviction_syncs: i32,
}

impl Default for ControllerManagerConfig {
    /// The documented generic and leader election defaults, every other
    /// per-controller section with its fields zero, empty, off or absent, and
    /// five device taint eviction syncs.
    fn default() -> (r: ControllerManagerConfig)
        ensures
            r.generic.has_documented_defaults(),
            r.kube_cloud_shared.is_zeroed(),
            r.endpoint.is_zeroed(),
            r.replication.is_zeroed(),
            r.pod_gc.is_zeroed(),
            r.resource_quota.is_zeroed(),
            r.namespace.is_zeroed(),
            r.service_account.is_zeroed(),
            r.garbage_collector.is_zeroed(),
            r.daemon_set.is_zeroed(),
            r.job.is_zeroed(),
            r.deployment.is_zeroed(),
            r.replica_set.is_zeroed(),
            r.hpa.is_zeroed(),
            r.disruption.is_zeroed(),
            r.stateful_set.is_zeroed(),
            r.cron_job.is_zeroed(),
            r.certificates.is_zeroed(),
            r.ttl.is_zeroed(),
            r.bootstrap.is_zeroed(),
            r.node_ipam.is_zeroed(),
            r.node_lifecycle.is_zeroed(),
            r.pv_binder.is_zeroed(),
            r.attach_detach.is_zeroed(),
            r.pvc_protection.is_zeroed(),
            r.pv_protection.is_zeroed(),
            r.ttl_after_finished.is_zeroed(),
            r.leader_election.has_documented_defaults(),
            r.leader_migration.is_zeroed(),
            r.concurrent_device_taint_eviction_syncs == 5,
    {
        ControllerManagerConfig {
            generic: GenericControllerManagerConfig::default(),
            kube_cloud_shared: KubeCloudSharedConfig::default(),
            endpoint: EndpointControllerConfig::default(),
            replication: ReplicationControllerConfig::default(),
            pod_gc: PodGCControllerConfig::default(),
            resource_quota: ResourceQuotaControllerConfig::default(),
            namespace: NamespaceControllerConfig::default(),
            service_account: ServiceAccountControllerConfig::default(),
            garbage_collector: GarbageCollectorControllerConfig::default(),
            daemon_set: DaemonSetControllerConfig::default(),
            job: JobControllerConfig::default(),
            deployment: DeploymentControllerConfig::default(),
            replica_set: ReplicaSetControllerConfig::default(),
            hpa: HPAControllerConfig::default(),
            disruption: DisruptionControllerConfig::default(),
            stateful_set: StatefulSetControllerConfig::default(),
            cron_job: CronJobControllerConfig::default(),
            certificates: CertificatesConfig::default(),
            ttl: TTLControllerConfig::default(),
            bootstrap: BootstrapControllerConfig::default(),
            node_ipam: NodeIPAMControllerConfig::default(),
            node_lifecycle: NodeLifecycleControllerConfig::default(),
            pv_binder: PersistentVolumeBinderConfig::default(),
            attach_detach: AttachDetachControllerConfig::default(),
            pvc_protection: PVCProtectionControllerConfig::default(),
            pv_protection: PVProtectionControllerConfig::default(),
            ttl_after_finished: TTLAfterFinishedControllerConfig::default(),
            leader_election: LeaderElectionConfig::default(),
            leader_migration: LeaderMigrationConfig::default(),
            concurrent_device_taint_eviction_syncs: default_concurrent_syncs(),
        }
    }
}

/// Whether `after` is `before` with the enabled and disabled controller names
/// replaced by those that the selection text of `before` gives.
pub open spec fn selection_applied(before: ControllerManagerConfig, after: ControllerManagerConfig) -> bool {
    &&& after == (ControllerManagerConfig {
        generic: GenericControllerManagerConfig {
            controllers_enabled: after.generic.controllers_enabled,
            controllers_disabled: after.generic.controllers_disabled,
            ..before.generic
        },
        ..before
    })
    &&& string_views(after.generic.controllers_enabled@).no_duplicates()
    &&& string_views(after.generic.controllers_disabled@).no_duplicates()
    &&& string_views(after.generic.controllers_enabled@).to_set() == selection_enabled(
        before.generic.controllers@,
    )
    &&& string_views(after.generic.controllers_disabled@).to_set() == selection_disabled(
        before.generic.controllers@,
    )
}

/// Fills the enabled and disabled controller names from the selection text;
/// a selection of exactly `*` leaves the configuration as it is.
pub fn parse_controllers(config: &mut ControllerManagerConfig)
    ensures
        old(config).generic.controllers@ == "*"@ ==> *final(config) == *old(config),
        old(config).generic.controllers@ != "*"@ ==> selection_applied(*old(config), *final(config)),
{
    if same_text(config.generic.controllers.as_str(), "*") {
        return;
    }
    let (enabled, disabled) = selection_sets(config.generic.controllers.as_str());
    config.generic.controllers_enabled = enabled;
    config.generic.controllers_disabled = disabled;
}

/// Settings given on the command line that replace those of the
/// configuration.
#[derive(Debug)]
pub struct CommandLineOverrides {
    /// Path to the kubeconfig file, if given.
    pub kubeconfig: Option<PathBuf>,
    /// Master URL, if given.
    pub master: Option<String>,
    /// Controller selection text, if given.
    pub controllers: Option<String>,
    /// The address to serve metrics.
    pub bind_address: String,
    /// The port to serve metrics.
    pub bind_port: u16,
    /// Port for the health check server.
    pub healthz_bind_port: u16,
    /// Port for the insecure diagnostics server.
    pub diagnostics_port: u16,
    /// Enable profiling.
    pub enable_profiling: bool,
    /// Namespace to watch.
    pub namespace: String,
    /// Turn leader election on.
    pub leader_elect: bool,
    /// Turn leader election off.
    pub leader_elect_disable: bool,
    /// Minimum resync period, if given.
    pub min_resync_period: Option<Duration>,
}

/// `config` with the command-line settings `o` in place: optional settings
/// replace only when given, leader election is turned on, off or left as it
/// is, and the other settings always replace.
pub open spec fn overridden(config: ControllerManagerConfig, o: CommandLineOverrides) -> ControllerManagerConfig {
    ControllerManagerConfig {
        generic: GenericControllerManagerConfig {
            kubeconfig: if o.kubeconfig is Some {
                o.kubeconfig
            } else {
                config.generic.kubeconfig
            },
            master: if o.master is Some {
                o.master
            } else {
                config.generic.master
            },
            controllers: match o.controllers {
                Some(c) => c,
                None => config.generic.controllers,
            },
            bind_address: o.bind_address,
            bind_port: o.bind_port,
            healthz_bind_port: o.healthz_bind_port,
            diagnostics_port: o.diagnostics_port,
            enable_profiling: o.enable_profiling,
            namespace: o.namespace,
            leader_election_enabled: if o.leader_elect {
                true
            } else if o.leader_elect_disable {
                false
            } else {
                config.generic.leader_election_enabled
            },
            min_resync_period: match o.min_resync_period {
                Some(d) => d,
                None => config.generic.min_resync_period,
            },
            ..config.generic
        },
        ..config
    }
}

/// Puts the command-line settings `overrides` in place and then fills the
/// enabled and disabled controller names from the selection text.
#[verifier::spinoff_prover]
#[verifier::rlimit(60)]
pub fn apply_command_line(config: &mut ControllerManagerConfig, overrides: CommandLineOverrides)
    ensures
        overridden(*old(config), overrides).generic.controllers@ == "*"@ ==> *final(config)
            == overridden(*old(config), overrides),
        overridden(*old(config), overrides).generic.controllers@ != "*"@ ==> selection_applied(
            overridden(*old(config), overrides),
            *final(config),
        ),
{
    let ghost o = overrides;
    let CommandLineOverrides {
        kubeconfig,
        master,
        controllers,
        bind_address,
        bind_port,
        healthz_bind_port,
        diagnostics_port,
        enable_profiling,
        namespace,
        leader_elect,
        leader_elect_disable,
        min_resync_period,
    } = overrides;
    if let Some(k) = kubeconfig {
        config.generic.kubeconfig = Some(k);
    }
    if let Some(m) = master {
        config.generic.master = Some(m);
    }
    if let Some(c) = controllers {
        config.generic.controllers = c;
    }
    config.generic.bind_address = bind_address;
    config.generic.bind_port = bind_port;
    config.generic.healthz_bind_port = healthz_bind_port;
    config.generic.diagnostics_port = diagnostics_port;
    config.generic.enable_profiling = enable_profiling;
    config.generic.namespace = namespace;
    if leader_elect {
        config.generic.leader_election_enabled = true;
    } else if leader_elect_disable {
        config.generic.leader_election_enabled = false;
    }
    if let Some(d) = min_resync_period {
        config.generic.min_resync_period = d;
    }
    assert(*config == overridden(*old(config), o));
    parse_controllers(config);
}

/// What `humantime` gives for a duration text: the whole seconds and further
/// nanoseconds, or the text of its error.
pub uninterp spec fn humantime_duration(text: Seq<char>) -> Result<(u64, u32), Seq<char>>;

/// Parses a duration text with `humantime::parse_duration`; an error is given
/// as its display text. Texts whose bound does not fit ([`duration_fits`])
/// are left out: the parse adds each number times its unit, and a fractional
/// part less than one unit, checking every sum except one: a nanosecond
/// carry that completes a second is handed to the standard library's
/// `Duration::new`, which panics when that second is one past the largest
/// second count. That needs a denoted span of at least that many seconds,
/// which the bound excludes.
#[verifier::external_body]
fn humantime_parse(s: &str) -> (r: Result<Duration, String>)
    requires
        duration_fits(s@),
    ensures
        match r {
            Ok(d) => humantime_duration(s@) == Ok::<(u64, u32), Seq<char>>(
                (d.spec_secs(), d.spec_subsec_nanos()),
            ),
            Err(m) => humantime_duration(s@) == Err::<(u64, u32), Seq<char>>(m@),
        },
{
    match humantime::parse_duration(s) {
        Ok(d) => Ok(Duration::new(d.as_secs(), d.subsec_nanos())),
        Err(e) => Err(e.to_string()),
    }
}

/// The error text of a duration text that denotes too long a span.
pub open spec fn too_large_refusal() -> Seq<char> {
    "number is too large"@
}

/// Parses a duration text such as `10m` or `1h 30s`, giving `humantime`'s own
/// error text on failure; a text that denotes, by its bound
/// ([`duration_fits`]), more than the longest span of time is refused with
/// `number is too large`.
pub fn parse_human_duration(s: &str) -> (r: Result<Duration, String>)
    ensures
        duration_fits(s@) ==> match humantime_duration(s@) {
            Ok(p) => r matches Ok(d) && (d.spec_secs(), d.spec_subsec_nanos()) == p,
            Err(m) => r matches Err(e) && e@ == m,
        },
        !duration_fits(s@) ==> (r matches Err(e) && e@ == too_large_refusal()),
{
    if duration_fits_in(s) {
        humantime_parse(s)
    } else {
        Err("number is too large".to_owned())
    }
}

/// Whether a parse result is exactly the span `d`.
pub open spec fn reads_back_as(parsed: Result<(u64, u32), Seq<char>>, d: Duration) -> bool {
    parsed == Ok::<(u64, u32), Seq<char>>((d.spec_secs(), d.spec_subsec_nanos()))
}

/// What `humantime` writes for a span of `secs` seconds and `nanos`
/// nanoseconds, such as `1h 30m`.
pub uninterp spec fn humantime_text(secs: u64, nanos: u32) -> Seq<char>;

/// The text of `d` as `humantime::format_duration` writes it; the nanoseconds
/// of `d` are below one second, so building the standard span cannot panic.
/// Its documentation guarantees that `humantime::parse_duration` reads the
/// text back as the same span. The text is whole numbers, each followed by
/// one of the units `years`/`year`, `months`/`month`, `days`/`day`, `h`,
/// `m`, `s`, `ms`, `us` (or `µs`) and `ns`, separated by single spaces, whose
/// sum is exactly `d`; so its bound ([`duration_fits`]) is `d` itself and
/// fits.
#[verifier::external_body]
fn humantime_format(d: Duration) -> (r: String)
    ensures
        r@ == humantime_text(d.spec_secs(), d.spec_subsec_nanos()),
        reads_back_as(humantime_duration(r@), d),
        duration_fits(r@),
{
    humantime::format_duration(std::time::Duration::new(d.as_secs(), d.subsec_nanos())).to_string()
}

/// The human-readable text of `d`, such as `1h 30m`, that
/// [`parse_human_duration`] reads back as `d`.
pub fn duration_text(d: Duration) -> (r: String)
    ensures
        r@ == humantime_text(d.spec_secs(), d.spec_subsec_nanos()),
        reads_back_as(humantime_duration(r@), d),
        duration_fits(r@),
{
    humantime_format(d)
}

/// The outcome of a duration parse as the command line reports it: a parsed
/// duration is kept, and the reason of a failure is given after
/// `invalid duration: `.
pub fn duration_outcome(parsed: Result<Duration, String>) -> (r: Result<Duration, String>)
    ensures
        match parsed {
            Ok(d) => r == Ok::<Duration, String>(d),
            Err(m) => r matches Err(e) && e@ == "invalid duration: "@ + m@,
        },
{
    match parsed {
        Ok(d) => Ok(d),
        Err(m) => {
            let mut e = "invalid duration: ".to_owned();
            e.append(m.as_str());
            Err(e)
        },
    }
}

/// Parses a duration text such as `10m` or `1h 30s` as the command line
/// reads it; a text that is not a duration, or that denotes too long a span,
/// gives `invalid duration: ` followed by the reason.
pub fn parse_duration(s: &str) -> (r: Result<Duration, String>)
    ensures
        duration_fits(s@) ==> match humantime_duration(s@) {
            Ok(p) => r matches Ok(d) && (d.spec_secs(), d.spec_subsec_nanos()) == p,
            Err(m) => r matches Err(e) && e@ == "invalid duration: "@ + m,
        },
        !duration_fits(s@) ==> (r matches Err(e) && e@ == "invalid duration: "@
            + too_large_refusal()),
{
    duration_outcome(parse_human_duration(s))
}

/// Cloud provider related configuration.
#[derive(Clone, Debug)]
pub struct KubeCloudSharedConfig {
    /// The cloud provider name.
    pub cloud_provider: CloudProvider,
    /// CIDR Range for Pods in cluster.
    pub cluster_cidr: Option<String>,
    /// CIDR Range for services in cluster.
    pub service_cidr: Option<String>,
    /// Allocate Node CIDRs (for cloud-provider integration).
    pub allocate_node_cidrs: bool,
    /// CIDR Allocator type.
    pub cidr_allocator_type: CidrAllocatorType,
}

impl KubeCloudSharedConfig {
    /// Whether every field is zero, empty, off or absent.
    pub open spec fn is_zeroed(&self) -> bool {
        &&& self.cloud_provider == CloudProvider::NoProvider
        &&& self.cluster_cidr is None
        &&& self.service_cidr is None
        &&& !self.allocate_node_cidrs
        &&& self.cidr_allocator_type == CidrAllocatorType::Range
    }
}

impl Default for KubeCloudSharedConfig {
    /// Every field zero, empty, off or absent.
    fn default() -> (r: KubeCloudSharedConfig)
        ensures
            r.is_zeroed(),
    {
        KubeCloudSharedConfig {
            cloud_provider: CloudProvider::default(),
            cluster_cidr: None,
            service_cidr: None,
            allocate_node_cidrs: false,
            cidr_allocator_type: CidrAllocatorType::default(),
        }
    }
}

/// Endpoint controller configuration.
#[derive(Clone, Debug)]
pub struct EndpointControllerConfig {
    /// Number of endpoint syncing workers.
    pub concurrent_endpoint_syncs: i32,
    /// Endpoint updates batch period.
    pub endpoint_updates_batch_period: Duration,
}

impl EndpointControllerConfig {
    /// Whether every field is zero, empty, off or absent.
    pub open spec fn is_zeroed(&self) -> bool {
        &&& self.concurrent_endpoint_syncs == 0
        &&& self.endpoint_updates_batch_period.is_secs(0)
    }
}

impl Default for EndpointControllerConfig {
    /// Every field zero, empty, off or absent.
    fn default() -> (r: EndpointControllerConfig)
        ensures
            r.is_zeroed(),
    {
        EndpointControllerConfig {
            concurrent_endpoint_syncs: 0,
            endpoint_updates_batch_period: Duration::default(),
        }
    }
}

/// Replication controller configuration.
#[derive(Clone, Debug)]
pub struct ReplicationControllerConfig {
    /// Number of replication controller workers.
    pub concurrent_rc_syncs: i32,
}

impl ReplicationControllerConfig {
    /// Whether every field is zero, empty, off or absent.
    pub open spec fn is_zeroed(&self) -> bool {
        &&& self.concurrent_rc_syncs == 0
    }
}

impl Default for ReplicationControllerConfig {
    /// Every field zero, empty, off or absent.
    fn default() -> (r: ReplicationControllerConfig)
        ensures
            r.is_zeroed(),
    {
        ReplicationControllerConfig {
            concurrent_rc_syncs: 0,
        }
    }
}

/// Pod garbage collector configuration.
#[derive(Clone, Debug)]
pub struct PodGCControllerConfig {
    /// Number of terminated pods to keep.
    pub terminated_pod_gc_threshold: i32,
}

impl PodGCControllerConfig {
    /// Whether every field is zero, empty, off or absent.
    pub open spec fn is_zeroed(&self) -> bool {
        &&& self.terminated_pod_gc_threshold == 0
    }
}

impl Default for PodGCControllerConfig {
    /// Every field zero, empty, off or absent.
    fn default() -> (r: PodGCControllerConfig)
        ensures
            r.is_zeroed(),
    {
        PodGCControllerConfig {
            terminated_pod_gc_threshold: 0,
        }
    }
}

/// Resource quota controller configuration.
#[derive(Clone, Debug)]
pub struct ResourceQuotaControllerConfig {
    /// Number of resource quota workers.
    pub concurrent_resource_quota_syncs: i32,
    /// Sync period for resource quota.
    pub resource_quota_sync_period: Duration,
}

impl ResourceQuotaControllerConfig {
    /// Whether every field is zero, empty, off or absent.
    pub open spec fn is_zeroed(&self) -> bool {
        &&& self.concurrent_resource_quota_syncs == 0
        &&& self.resource_quota_sync_period.is_secs(0)
    }
}

impl Default for ResourceQuotaControllerConfig {
    /// Every field zero, empty, off or absent.
    fn default() -> (r: ResourceQuotaControllerConfig)
        ensures
            r.is_zeroed(),
    {
        ResourceQuotaControllerConfig {
            concurrent_resource_quota_syncs: 0,
            resource_quota_sync_period: Duration::default(),
        }
    }
}

/// Namespace controller configuration.
#[derive(Clone, Debug)]
pub struct NamespaceControllerConfig {
    /// Number of namespace workers.
    pub concurrent_namespace_syncs: i32,
    /// Namespace sync period.
    pub namespace_sync_period: Duration,
}

impl NamespaceControllerConfig {
    /// Whether every field is zero, empty, off or absent.
    pub open spec fn is_zeroed(&self) -> bool {
        &&& self.concurrent_namespace_syncs == 0
        &&& self.namespace_sync_period.is_secs(0)
    }
}

impl Default for NamespaceControllerConfig {
    /// Every field zero, empty, off or absent.
    fn default() -> (r: NamespaceControllerConfig)
        ensures
            r.is_zeroed(),
    {
        NamespaceControllerConfig {
            concurrent_namespace_syncs: 0,
            namespace_sync_period: Duration::default(),
        }
    }
}

/// Service account controller configuration.
#[derive(Clone, Debug)]
pub struct ServiceAccountControllerConfig {
    /// Enable service account token creation.
    pub use_service_account_token: bool,
}

impl ServiceAccountControllerConfig {
    /// Whether every field is zero, empty, off or absent.
    pub open spec fn is_zeroed(&self) -> bool {
        &&& !self.use_service_account_token
    }
}

impl Default for ServiceAccountControllerConfig {
    /// Every field zero, empty, off or absent.
    fn default() -> (r: ServiceAccountControllerConfig)
        ensures
            r.is_zeroed(),
    {
        ServiceAccountControllerConfig {
            use_service_account_token: false,
        }
    }
}

/// Garbage collector controller configuration.
#[derive(Clone, Debug)]
pub struct GarbageCollectorControllerConfig {
    /// Number of garbage collector workers.
    pub concurrent_gc_syncs: i32,
    /// Enable garbage collector.
    pub enable_garbage_collector: bool,
    /// Garbage collector ignored resources.
    pub gc_ignored_resources: Vec<String>,
}

impl GarbageCollectorControllerConfig {
    /// Whether every field is zero, empty, off or absent.
    pub open spec fn is_zeroed(&self) -> bool {
        &&& self.concurrent_gc_syncs == 0
        &&& !self.enable_garbage_collector
        &&& self.gc_ignored_resources@.len() == 0
    }
}

impl Default for GarbageCollectorControllerConfig {
    /// Every field zero, empty, off or absent.
    fn default() -> (r: GarbageCollectorControllerConfig)
        ensures
            r.is_zeroed(),
    {
        GarbageCollectorControllerConfig {
            concurrent_gc_syncs: 0,
            enable_garbage_collector: false,
            gc_ignored_resources: Vec::new(),
        }
    }
}

/// DaemonSet controller configuration.
#[derive(Clone, Debug)]
pub struct DaemonSetControllerConfig {
    /// Number of DaemonSet workers.
    pub concurrent_daemon_set_syncs: i32,
}

impl DaemonSetControllerConfig {
    /// Whether every field is zero, empty, off or absent.
    pub open spec fn is_zeroed(&self) -> bool {
        &&& self.concurrent_daemon_set_syncs == 0
    }
}

impl Default for DaemonSetControllerConfig {
    /// Every field zero, empty, off or absent.
    fn default() -> (r: DaemonSetControllerConfig)
        ensures
            r.is_zeroed(),
    {
        DaemonSetControllerConfig {
            concurrent_daemon_set_syncs: 0,
        }
    }
}

/// Job controller configuration.
#[derive(Clone, Debug)]
pub struct JobControllerConfig {
    /// Number of Job workers.
    pub concurrent_job_syncs: i32,
}

impl JobControllerConfig {
    /// Whether every field is zero, empty, off or absent.
    pub open spec fn is_zeroed(&self) -> bool {
        &&& self.concurrent_job_syncs == 0
    }
}

impl Default for JobControllerConfig {
    /// Every field zero, empty, off or absent.
    fn default() -> (r: JobControllerConfig)
        ensures
            r.is_zeroed(),
    {
        JobControllerConfig {
            concurrent_job_syncs: 0,
        }
    }
}

/// Deployment controller configuration.
#[derive(Clone, Debug)]
pub struct DeploymentControllerConfig {
    /// Number of Deployment workers.
    pub concurrent_deployment_syncs: i32,
}

impl DeploymentControllerConfig {
    /// Whether every field is zero, empty, off or absent.
    pub open spec fn is_zeroed(&self) -> bool {
        &&& self.concurrent_deployment_syncs == 0
    }
}

impl Default for DeploymentControllerConfig {
    /// Every field zero, empty, off or absent.
    fn default() -> (r: DeploymentControllerConfig)
        ensures
            r.is_zeroed(),
    {
        DeploymentControllerConfig {
            concurrent_deployment_syncs: 0,
        }
    }
}

/// ReplicaSet controller configuration.
#[derive(Clone, Debug)]
pub struct ReplicaSetControllerConfig {
    /// Number of ReplicaSet workers.
    pub concurrent_rs_syncs: i32,
}

impl ReplicaSetControllerConfig {
    /// Whether every field is zero, empty, off or absent.
    pub open spec fn is_zeroed(&self) -> bool {
        &&& self.concurrent_rs_syncs == 0
    }
}

impl Default for ReplicaSetControllerConfig {
    /// Every field zero, empty, off or absent.
    fn default() -> (r: ReplicaSetControllerConfig)
        ensures
            r.is_zeroed(),
    {
        ReplicaSetControllerConfig {
            concurrent_rs_syncs: 0,
        }
    }
}

/// Horizontal Pod Autoscaler configuration.
#[derive(Clone, Debug)]
pub struct HPAControllerConfig {
    /// Number of HPA workers.
    pub concurrent_horizontal_pod_autoscaler_syncs: i32,
    /// HPA sync period.
    pub horizontal_pod_autoscaler_sync_period: Duration,
    /// HPA downscale stabilization window.
    pub horizontal_pod_autoscaler_downscale_stabilization_window: Duration,
    /// HPA tolerance.
    pub horizontal_pod_autoscaler_tolerance: Real64,
    /// HPA CPU initialization period.
    pub horizontal_pod_autoscaler_cpu_initialization_period: Duration,
    /// HPA initial readiness delay.
    pub horizontal_pod_autoscaler_initial_readiness_delay: Duration,
}

impl HPAControllerConfig {
    /// Whether every field is zero, empty, off or absent.
    pub open spec fn is_zeroed(&self) -> bool {
        &&& self.concurrent_horizontal_pod_autoscaler_syncs == 0
        &&& self.horizontal_pod_autoscaler_sync_period.is_secs(0)
        &&& self.horizontal_pod_autoscaler_downscale_stabilization_window.is_secs(0)
        &&& self.horizontal_pod_autoscaler_tolerance.bits == 0
        &&& self.horizontal_pod_autoscaler_cpu_initialization_period.is_secs(0)
        &&& self.horizontal_pod_autoscaler_initial_readiness_delay.is_secs(0)
    }
}

impl Default for HPAControllerConfig {
    /// Every field zero, empty, off or absent.
    fn default() -> (r: HPAControllerConfig)
        ensures
            r.is_zeroed(),
    {
        HPAControllerConfig {
            concurrent_horizontal_pod_autoscaler_syncs: 0,
            horizontal_pod_autoscaler_sync_period: Duration::default(),
            horizontal_pod_autoscaler_downscale_stabilization_window: Duration::default(),
            horizontal_pod_autoscaler_tolerance: Real64::default(),
            horizontal_pod_autoscaler_cpu_initialization_period: Duration::default(),
            horizontal_pod_autoscaler_initial_readiness_delay: Duration::default(),
        }
    }
}

/// Disruption (PodDisruptionBudget) controller configuration.
#[derive(Clone, Debug)]
pub struct DisruptionControllerConfig {
    /// Number of disruption workers.
    pub concurrent_disruption_syncs: i32,
}

impl DisruptionControllerConfig {
    /// Whether every field is zero, empty, off or absent.
    pub open spec fn is_zeroed(&self) -> bool {
        &&& self.concurrent_disruption_syncs == 0
    }
}

impl Default for DisruptionControllerConfig {
    /// Every field zero, empty, off or absent.
    fn default() -> (r: DisruptionControllerConfig)
        ensures
            r.is_zeroed(),
    {
        DisruptionControllerConfig {
            concurrent_disruption_syncs: 0,
        }
    }
}

/// StatefulSet controller configuration.
#[derive(Clone, Debug)]
pub struct StatefulSetControllerConfig {
    /// Number of StatefulSet workers.
    pub concurrent_stateful_set_syncs: i32,
}

impl StatefulSetControllerConfig {
    /// Whether every field is zero, empty, off or absent.
    pub open spec fn is_zeroed(&self) -> bool {
        &&& self.concurrent_stateful_set_syncs == 0
    }
}

impl Default for StatefulSetControllerConfig {
    /// Every field zero, empty, off or absent.
    fn default() -> (r: StatefulSetControllerConfig)
        ensures
            r.is_zeroed(),
    {
        StatefulSetControllerConfig {
            concurrent_stateful_set_syncs: 0,
        }
    }
}

/// CronJob controller configuration.
#[derive(Clone, Debug)]
pub struct CronJobControllerConfig {
    /// Number of CronJob workers.
    pub concurrent_cron_job_syncs: i32,
}

impl CronJobControllerConfig {
    /// Whether every field is zero, empty, off or absent.
    pub open spec fn is_zeroed(&self) -> bool {
        &&& self.concurrent_cron_job_syncs == 0
    }
}

impl Default for CronJobControllerConfig {
    /// Every field zero, empty, off or absent.
    fn default() -> (r: CronJobControllerConfig)
        ensures
            r.is_zeroed(),
    {
        CronJobControllerConfig {
            concurrent_cron_job_syncs: 0,
        }
    }
}

/// Certificate controllers configuration.
#[derive(Debug)]
pub struct CertificatesConfig {
    /// Cluster root CA certificate file.
    pub cluster_root_ca_cert_file: Option<PathBuf>,
    /// Cluster root CA certificate file for controllers.
    pub cluster_root_ca_cert_file_controller: Option<PathBuf>,
    /// Request header CA certificate file.
    pub requestheader_client_ca_file: Option<PathBuf>,
    /// Request header allowed names.
    pub requestheader_allowed_names: Vec<String>,
    /// Request header extra headers.
    pub requestheader_extra_headers_prefixes: Vec<String>,
    /// Request header group headers.
    pub requestheader_group_headers: Vec<String>,
    /// Request header username headers.
    pub requestheader_username_headers: Vec<String>,
    /// Client CA file.
    pub client_ca_file: Option<PathBuf>,
    /// Enable the CSR signing controller.
    pub enable_signing_controller: bool,
    /// Enable the CSR approving controller.
    pub enable_approving_controller: bool,
    /// Enable the CSR clean up controller.
    pub enable_cleaning_controller: bool,
    /// Cluster signing duration.
    pub cluster_signing_duration: Duration,
}

impl CertificatesConfig {
    /// Whether every field is zero, empty, off or absent.
    pub open spec fn is_zeroed(&self) -> bool {
        &&& self.cluster_root_ca_cert_file is None
        &&& self.cluster_root_ca_cert_file_controller is None
        &&& self.requestheader_client_ca_file is None
        &&& self.requestheader_allowed_names@.len() == 0
        &&& self.requestheader_extra_headers_prefixes@.len() == 0
        &&& self.requestheader_group_headers@.len() == 0
        &&& self.requestheader_username_headers@.len() == 0
        &&& self.client_ca_file is None
        &&& !self.enable_signing_controller
        &&& !self.enable_approving_controller
        &&& !self.enable_cleaning_controller
        &&& self.cluster_signing_duration.is_secs(0)
    }
}

impl Default for CertificatesConfig {
    /// Every field zero, empty, off or absent.
    fn default() -> (r: CertificatesConfig)
        ensures
            r.is_zeroed(),
    {
        CertificatesConfig {
            cluster_root_ca_cert_file: None,
            cluster_root_ca_cert_file_controller: None,
            requestheader_client_ca_file: None,
            requestheader_allowed_names: Vec::new(),
            requestheader_extra_headers_prefixes: Vec::new(),
            requestheader_group_headers: Vec::new(),
            requestheader_username_headers: Vec::new(),
            client_ca_file: None,
            enable_signing_controller: false,
            enable_approving_controller: false,
            enable_cleaning_controller: false,
            cluster_signing_duration: Duration::default(),
        }
    }
}

/// TTL controller configuration.
#[derive(Clone, Debug)]
pub struct TTLControllerConfig {
    /// Number of TTL workers.
    pub concurrent_ttl_syncs: i32,
}

impl TTLControllerConfig {
    /// Whether every field is zero, empty, off or absent.
    pub open spec fn is_zeroed(&self) -> bool {
        &&& self.concurrent_ttl_syncs == 0
    }
}

impl Default for TTLControllerConfig {
    /// Every field zero, empty, off or absent.
    fn default() -> (r: TTLControllerConfig)
        ensures
            r.is_zeroed(),
    {
        TTLControllerConfig {
            concurrent_ttl_syncs: 0,
        }
    }
}

/// Bootstrap controller configuration.
#[derive(Clone, Debug)]
pub struct BootstrapControllerConfig {
    /// Bootstrap token sign duration.
    pub bootstrap_token_sign_duration: Duration,
}

impl BootstrapControllerConfig {
    /// Whether every field is zero, empty, off or absent.
    pub open spec fn is_zeroed(&self) -> bool {
        &&& self.bootstrap_token_sign_duration.is_secs(0)
    }
}

impl Default for BootstrapControllerConfig {
    /// Every field zero, empty, off or absent.
    fn default() -> (r: BootstrapControllerConfig)
        ensures
            r.is_zeroed(),
    {
        BootstrapControllerConfig {
            bootstrap_token_sign_duration: Duration::default(),
        }
    }
}

/// Node IPAM controller configuration.
#[derive(Clone, Debug)]
pub struct NodeIPAMControllerConfig {
    /// Service CIDR.
    pub service_cidr: Option<String>,
    /// Secondary service CIDR.
    pub secondary_service_cidr: Option<String>,
    /// Node CIDR mask size for IPv4.
    pub node_cidr_mask_size_ipv4: i32,
    /// Node CIDR mask size for IPv6.
    pub node_cidr_mask_size_ipv6: i32,
}

impl NodeIPAMControllerConfig {
    /// Whether every field is zero, empty, off or absent.
    pub open spec fn is_zeroed(&self) -> bool {
        &&& self.service_cidr is None
        &&& self.secondary_service_cidr is None
        &&& self.node_cidr_mask_size_ipv4 == 0
        &&& self.node_cidr_mask_size_ipv6 == 0
    }
}

impl Default for NodeIPAMControllerConfig {
    /// Every field zero, empty, off or absent.
    fn default() -> (r: NodeIPAMControllerConfig)
        ensures
            r.is_zeroed(),
    {
        NodeIPAMControllerConfig {
            service_cidr: None,
            secondary_service_cidr: None,
            node_cidr_mask_size_ipv4: 0,
            node_cidr_mask_size_ipv6: 0,
        }
    }
}

/// Node lifecycle controller configuration.
#[derive(Clone, Debug)]
pub struct NodeLifecycleControllerConfig {
    /// Node monitor period.
    pub node_monitor_period: Duration,
    /// Node startup grace period.
    pub node_startup_grace_period: Duration,
    /// Node monitor grace period.
    pub node_monitor_grace_period: Duration,
    /// Node eviction rate.
    pub node_eviction_rate: Real64,
    /// Secondary node eviction rate.
    pub secondary_node_eviction_rate: Real64,
    /// Large cluster size threshold.
    pub large_cluster_size_threshold: i32,
    /// Unhealthy zone threshold.
    pub unhealthy_zone_threshold: Real64,
}

impl NodeLifecycleControllerConfig {
    /// Whether every field is zero, empty, off or absent.
    pub open spec fn is_zeroed(&self) -> bool {
        &&& self.node_monitor_period.is_secs(0)
        &&& self.node_startup_grace_period.is_secs(0)
        &&& self.node_monitor_grace_period.is_secs(0)
        &&& self.node_eviction_rate.bits == 0
        &&& self.secondary_node_eviction_rate.bits == 0
        &&& self.large_cluster_size_threshold == 0
        &&& self.unhealthy_zone_threshold.bits == 0
    }
}

impl Default for NodeLifecycleControllerConfig {
    /// Every field zero, empty, off or absent.
    fn default() -> (r: NodeLifecycleControllerConfig)
        ensures
            r.is_zeroed(),
    {
        NodeLifecycleControllerConfig {
            node_monitor_period: Duration::default(),
            node_startup_grace_period: Duration::default(),
            node_monitor_grace_period: Duration::default(),
            node_eviction_rate: Real64::default(),
            secondary_node_eviction_rate: Real64::default(),
            large_cluster_size_threshold: 0,
            unhealthy_zone_threshold: Real64::default(),
        }
    }
}

/// Persistent volume binder controller configuration.
#[derive(Clone, Debug)]
pub struct PersistentVolumeBinderConfig {
    /// PV claim binder sync period.
    pub pv_claim_binder_sync_period: Duration,
    /// Volume configuration.
    pub volume_configuration: VolumeConfiguration,
}

impl PersistentVolumeBinderConfig {
    /// Whether every field is zero, empty, off or absent.
    pub open spec fn is_zeroed(&self) -> bool {
        &&& self.pv_claim_binder_sync_period.is_secs(0)
        &&& !self.volume_configuration.enable_dynamic_provisioning
    }
}

impl Default for PersistentVolumeBinderConfig {
    /// Every field zero, empty, off or absent.
    fn default() -> (r: PersistentVolumeBinderConfig)
        ensures
            r.is_zeroed(),
    {
        PersistentVolumeBinderConfig {
            pv_claim_binder_sync_period: Duration::default(),
            volume_configuration: VolumeConfiguration::default(),
        }
    }
}

/// Volume configuration.
#[derive(Clone, Debug)]
pub struct VolumeConfiguration {
    /// Enable dynamic provisioning.
    pub enable_dynamic_provisioning: bool,
}

impl VolumeConfiguration {
    /// Whether every field is zero, empty, off or absent.
    pub open spec fn is_zeroed(&self) -> bool {
        &&& !self.enable_dynamic_provisioning
    }
}

impl Default for VolumeConfiguration {
    /// Every field zero, empty, off or absent.
    fn default() -> (r: VolumeConfiguration)
        ensures
            r.is_zeroed(),
    {
        VolumeConfiguration {
            enable_dynamic_provisioning: false,
        }
    }
}

/// Attach detach controller configuration.
#[derive(Clone, Debug)]
pub struct AttachDetachControllerConfig {
    /// Reconciler sync loop period.
    pub reconciler_sync_loop_period: Duration,
    /// Disable attach detach reconciler sync.
    pub disable_attach_detach_reconciler_sync: bool,
    /// Disable force detach on timeout.
    pub disable_force_detach_on_timeout: bool,
}

impl AttachDetachControllerConfig {
    /// Whether every field is zero, empty, off or absent.
    pub open spec fn is_zeroed(&self) -> bool {
        &&& self.reconciler_sync_loop_period.is_secs(0)
        &&& !self.disable_attach_detach_reconciler_sync
        &&& !self.disable_force_detach_on_timeout
    }
}

impl Default for AttachDetachControllerConfig {
    /// Every field zero, empty, off or absent.
    fn default() -> (r: AttachDetachControllerConfig)
        ensures
            r.is_zeroed(),
    {
        AttachDetachControllerConfig {
            reconciler_sync_loop_period: Duration::default(),
            disable_attach_detach_reconciler_sync: false,
            disable_force_detach_on_timeout: false,
        }
    }
}

/// Persistent volume claim protection controller configuration.
#[derive(Clone, Debug)]
pub struct PVCProtectionControllerConfig {
    /// Enable PVC protection.
    pub enable_pvc_protection: bool,
}

impl PVCProtectionControllerConfig {
    /// Whether every field is zero, empty, off or absent.
    pub open spec fn is_zeroed(&self) -> bool {
        &&& !self.enable_pvc_protection
    }
}

impl Default for PVCProtectionControllerConfig {
    /// Every field zero, empty, off or absent.
    fn default() -> (r: PVCProtectionControllerConfig)
        ensures
            r.is_zeroed(),
    {
        PVCProtectionControllerConfig {
            enable_pvc_protection: false,
        }
    }
}

/// Persistent volume protection controller configuration.
#[derive(Clone, Debug)]
pub struct PVProtectionControllerConfig {
    /// Enable PV protection.
    pub enable_pv_protection: bool,
}

impl PVProtectionControllerConfig {
    /// Whether every field is zero, empty, off or absent.
    pub open spec fn is_zeroed(&self) -> bool {
        &&& !self.enable_pv_protection
    }
}

impl Default for PVProtectionControllerConfig {
    /// Every field zero, empty, off or absent.
    fn default() -> (r: PVProtectionControllerConfig)
        ensures
            r.is_zeroed(),
    {
        PVProtectionControllerConfig {
            enable_pv_protection: false,
        }
    }
}

/// TTL after finished controller configuration.
#[derive(Clone, Debug)]
pub struct TTLAfterFinishedControllerConfig {
    /// Number of TTL after finished workers.
    pub concurrent_ttl_syncs: i32,
}

impl TTLAfterFinishedControllerConfig {
    /// Whether every field is zero, empty, off or absent.
    pub open spec fn is_zeroed(&self) -> bool {
        &&& self.concurrent_ttl_syncs == 0
    }
}

impl Default for TTLAfterFinishedControllerConfig {
    /// Every field zero, empty, off or absent.
    fn default() -> (r: TTLAfterFinishedControllerConfig)
        ensures
            r.is_zeroed(),
    {
        TTLAfterFinishedControllerConfig {
            concurrent_ttl_syncs: 0,
        }
    }
}

/// Leader election configuration.
#[derive(Clone, Debug)]
pub struct LeaderElectionConfig {
    /// Enable leader election.
    pub leader_elect: bool,
    /// Resource lock type.
    pub resource_lock: String,
    /// Resource namespace.
    pub resource_namespace: String,
    /// Resource name.
    pub resource_name: String,
    /// Lease duration.
    pub lease_duration: Duration,
    /// Renew deadline.
    pub renew_deadline: Duration,
    /// Retry period.
    pub retry_period: Duration,
}

impl LeaderElectionConfig {
    /// Whether every setting has its documented default: election off, a
    /// `leases` lock named `kube-controller-manager` in `kube-system`, a lease
    /// of fifteen seconds, a renew deadline of ten seconds and a retry period
    /// of two seconds.
    pub open spec fn has_documented_defaults(&self) -> bool {
        &&& !self.leader_elect
        &&& self.resource_lock@ == "leases"@
        &&& self.resource_namespace@ == "kube-system"@
        &&& self.resource_name@ == "kube-controller-manager"@
        &&& self.lease_duration.is_secs(15)
        &&& self.renew_deadline.is_secs(10)
        &&& self.retry_period.is_secs(2)
    }
}

impl Default for LeaderElectionConfig {
    /// The documented default of every leader election setting.
    fn default() -> (r: LeaderElectionConfig)
        ensures
            r.has_documented_defaults(),
    {
        LeaderElectionConfig {
            leader_elect: false,
            resource_lock: default_resource_lock(),
            resource_namespace: default_resource_namespace(),
            resource_name: default_resource_name(),
            lease_duration: default_lease_duration(),
            renew_deadline: default_renew_deadline(),
            retry_period: default_retry_period(),
        }
    }
}

/// Leader migration configuration.
#[derive(Clone, Debug)]
pub struct LeaderMigrationConfig {
    /// Enable leader migration.
    pub enabled: bool,
    /// Resource lock type.
    pub resource_lock: String,
    /// Resource name.
    pub leader_name: String,
}

impl LeaderMigrationConfig {
    /// Whether every field is zero, empty, off or absent.
    pub open spec fn is_zeroed(&self) -> bool {
        &&& !self.enabled
        &&& self.resource_lock@.len() == 0
        &&& self.leader_name@.len() == 0
    }
}

impl Default for LeaderMigrationConfig {
    /// Every field zero, empty, off or absent.
    fn default() -> (r: LeaderMigrationConfig)
        ensures
            r.is_zeroed(),
    {
        LeaderMigrationConfig {
            enabled: false,
            resource_lock: String::new(),
            leader_name: String::new(),
        }
    }
}

/// After the selection text is parsed, a controller runs exactly when the
/// text enables it by name, or when the text holds `*` and does not disable
/// it by name.
pub proof fn law_parsed_selection(
    before: ControllerManagerConfig,
    after: ControllerManagerConfig,
    name: Seq<char>,
)
    requires
        selection_applied(before, after),
        before.generic.controllers@ != "*"@,
    ensures
        controller_selected(
            after.generic.controllers@,
            string_views(after.generic.controllers_enabled@),
            string_views(after.generic.controllers_disabled@),
            name,
        ) <==> (selection_enabled(before.generic.controllers@).contains(name) || (
        selection_enabled(before.generic.controllers@).contains("*"@) && !selection_disabled(
            before.generic.controllers@,
        ).contains(name))),
{
    let e = string_views(after.generic.controllers_enabled@);
    let d = string_views(after.generic.controllers_disabled@);
    assert(e.contains(name) <==> e.to_set().contains(name));
    assert(e.contains("*"@) <==> e.to_set().contains("*"@));
    assert(d.contains(name) <==> d.to_set().contains(name));
}

/// With the selection `*`, exactly the controllers not disabled by name run.
pub proof fn law_star_selects_all_but_disabled(
    enabled: Seq<Seq<char>>,
    disabled: Seq<Seq<char>>,
    name: Seq<char>,
)
    ensures
        controller_selected("*"@, enabled, disabled, name) <==> !disabled.contains(name),
{
}

/// The command-line settings win over the configuration: given ones replace,
/// absent ones leave the configuration's value; leader election is turned on
/// by `leader_elect`, off by `leader_elect_disable` alone, and otherwise kept
/// as configured; every other setting and section is left as it was.
pub proof fn law_command_line_settings(
    before: ControllerManagerConfig,
    o: CommandLineOverrides,
    after: ControllerManagerConfig,
)
    requires
        overridden(before, o).generic.controllers@ == "*"@ ==> after == overridden(before, o),
        overridden(before, o).generic.controllers@ != "*"@ ==> selection_applied(
            overridden(before, o),
            after,
        ),
    ensures
        !o.leader_elect && !o.leader_elect_disable ==> after.generic.leader_election_enabled
            == before.generic.leader_election_enabled,
        o.leader_elect ==> after.generic.leader_election_enabled,
        !o.leader_elect && o.leader_elect_disable ==> !after.generic.leader_election_enabled,
        after.generic.bind_address == o.bind_address,
        after.generic.bind_port == o.bind_port,
        after.generic.healthz_bind_port == o.healthz_bind_port,
        after.generic.diagnostics_port == o.diagnostics_port,
        after.generic.enable_profiling == o.enable_profiling,
        after.generic.namespace == o.namespace,
        after.generic.kubeconfig == if o.kubeconfig is Some {
            o.kubeconfig
        } else {
            before.generic.kubeconfig
        },
        after.generic.master == if o.master is Some {
            o.master
        } else {
            before.generic.master
        },
        o.controllers matches Some(c) ==> after.generic.controllers == c,
        o.controllers is None ==> after.generic.controllers == before.generic.controllers,
        o.min_resync_period matches Some(d) ==> after.generic.min_resync_period == d,
        o.min_resync_period is None ==> after.generic.min_resync_period
            == before.generic.min_resync_period,
        after.generic.pprof_port == before.generic.pprof_port,
        after.generic.controller_start_interval == before.generic.controller_start_interval,
        after.generic.shutdown_timeout == before.generic.shutdown_timeout,
        after.generic.concurrent_syncs == before.generic.concurrent_syncs,
        after.generic.api_server == before.generic.api_server,
        after.leader_election == before.leader_election,
        after.endpoint == before.endpoint,
        after.concurrent_device_taint_eviction_syncs == before.concurrent_device_taint_eviction_syncs,
{
}

} // verus!
