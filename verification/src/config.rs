//! Deployment configuration: the types behind `deployment.toml`,
//! `build.toml`, `monitoring.toml` and the shared hypervisor files, their
//! defaults, and the decisions that the loader and editor make on them.
//!
//! Tables keyed by name (`[hosts.<name>]`) are held as vectors of
//! `(name, value)` pairs in ascending name order, names unique.
use vstd::prelude::*;
use crate::text::string_from;

verus! {

broadcast use vstd::slice::group_slice_axioms;

// --- Global config (~/.whoah/config.toml) ---

/// The user-wide settings.
pub struct GlobalConfig {
    pub default_deployment: Option<String>,
}

impl Default for GlobalConfig {
    fn default() -> (r: Self)
        ensures
            r.default_deployment is None,
    {
        GlobalConfig { default_deployment: None }
    }
}

// --- Combined deployment view ---

/// A deployment: its three configuration files.
pub struct DeploymentConfig {
    pub deployment: DeploymentToml,
    pub build: BuildToml,
    pub monitoring: MonitoringToml,
}

// --- deployment.toml ---

/// `deployment.toml`.
pub struct DeploymentToml {
    pub deployment: DeploymentMeta,
    /// Hosts by name, names ascending and unique.
    pub hosts: Vec<(String, HostConfig)>,
    pub network: NetworkConfig,
    pub nexus: NexusConfig,
    pub hypervisor: Option<HypervisorRef>,
}

/// Name and description of a deployment.
pub struct DeploymentMeta {
    pub name: String,
    pub description: Option<String>,
}

/// A host of the deployment.
pub struct HostConfig {
    pub address: String,
    pub ssh_user: String,
    pub role: HostRole,
    pub host_type: Option<HostType>,
    pub ssh_port: Option<u16>,
}

impl HostConfig {
    /// SSH port, defaulting to 22 when not set.
    pub fn ssh_port(&self) -> (p: u16)
        ensures
            p == match self.ssh_port {
                Some(q) => q,
                None => 22,
            },
    {
        match self.ssh_port {
            Some(q) => q,
            None => 22,
        }
    }
}

/// The role a host has when none is written.
pub fn default_role() -> (r: HostRole)
    ensures
        r == HostRole::Combined,
{
    HostRole::Combined
}

/// What a host runs.
#[derive(Debug, Clone, Copy, PartialEq, Eq, Structural)]
pub enum HostRole {
    ControlPlane,
    Compute,
    Combined,
}

/// What a host is.
#[derive(Debug, Clone, Copy, PartialEq, Eq, Structural)]
pub enum HostType {
    Vm,
    BareMetal,
}

/// Network settings of the rack.
pub struct NetworkConfig {
    pub gateway: String,
    pub external_dns_ips: Vec<String>,
    pub internal_services_range: IpRange,
    pub infra_ip: String,
    pub instance_pool_range: IpRange,
    pub ntp_servers: Option<Vec<String>>,
    pub dns_servers: Option<Vec<String>>,
    pub external_dns_zone_name: Option<String>,
    pub rack_subnet: Option<String>,
    pub uplink_port_speed: Option<String>,
    pub allowed_source_ips: Option<String>,
}

/// An inclusive range of addresses.
pub struct IpRange {
    pub first: String,
    pub last: String,
}

// --- Nexus API config ---

/// Credentials and desired state for the Nexus API.
pub struct NexusConfig {
    pub silo_name: String,
    pub username: String,
    pub password: String,
    pub ip_pool_name: String,
    pub quotas: QuotaConfig,
}

/// Default silo.
pub fn default_silo_name() -> (s: String)
    ensures
        s@ == "recovery"@,
{
    string_from("recovery")
}

/// Default silo user.
pub fn default_silo_user() -> (s: String)
    ensures
        s@ == "recovery"@,
{
    string_from("recovery")
}

/// Default silo password.
pub fn default_silo_password() -> (s: String)
    ensures
        s@ == "oxide"@,
{
    string_from("oxide")
}

/// Default IP pool.
pub fn default_pool_name() -> (s: String)
    ensures
        s@ == "default"@,
{
    string_from("default")
}

impl Default for NexusConfig {
    fn default() -> (r: Self)
        ensures
            r.silo_name@ == "recovery"@,
            r.username@ == "recovery"@,
            r.password@ == "oxide"@,
            r.ip_pool_name@ == "default"@,
            r.quotas.cpus == 9999999999,
            r.quotas.memory == 999999999999999999,
            r.quotas.storage == 999999999999999999,
    {
        NexusConfig {
            silo_name: default_silo_name(),
            username: default_silo_user(),
            password: default_silo_password(),
            ip_pool_name: default_pool_name(),
            quotas: QuotaConfig::default(),
        }
    }
}

/// Silo quotas.
pub struct QuotaConfig {
    pub cpus: u64,
    pub memory: u64,
    pub storage: u64,
}

/// Default CPU quota.
pub fn default_quota_cpus() -> (r: u64)
    ensures
        r == 9999999999,
{
    9999999999
}

/// Default memory and storage quota.
pub fn default_quota_large() -> (r: u64)
    ensures
        r == 999999999999999999,
{
    999999999999999999
}

impl Default for QuotaConfig {
    fn default() -> (r: Self)
        ensures
            r.cpus == 9999999999,
            r.memory == 999999999999999999,
            r.storage == 999999999999999999,
    {
        QuotaConfig {
            cpus: default_quota_cpus(),
            memory: default_quota_large(),
            storage: default_quota_large(),
        }
    }
}

// --- Proxmox provisioning ---

/// A Proxmox host and the VM to create on it.
pub struct ProxmoxConfig {
    pub host: String,
    pub ssh_user: String,
    pub ssh_port: Option<u16>,
    pub node: String,
    pub iso_storage: String,
    pub disk_storage: String,
    pub iso_file: String,
    pub vm: ProxmoxVmConfig,
}

impl ProxmoxConfig {
    /// SSH port, defaulting to 22 when not set.
    pub fn ssh_port(&self) -> (p: u16)
        ensures
            p == match self.ssh_port {
                Some(q) => q,
                None => 22,
            },
    {
        match self.ssh_port {
            Some(q) => q,
            None => 22,
        }
    }
}

/// Default Proxmox SSH user.
pub fn default_proxmox_ssh_user() -> (s: String)
    ensures
        s@ == "root"@,
{
    string_from("root")
}

/// Default Proxmox node.
pub fn default_proxmox_node() -> (s: String)
    ensures
        s@ == "PVE"@,
{
    string_from("PVE")
}

/// Default ISO storage.
pub fn default_iso_storage() -> (s: String)
    ensures
        s@ == "local"@,
{
    string_from("local")
}

/// Default disk storage.
pub fn default_disk_storage() -> (s: String)
    ensures
        s@ == "local-lvm"@,
{
    string_from("local-lvm")
}

/// Default install ISO.
pub fn default_iso_file() -> (s: String)
    ensures
        s@ == "helios-install-vga.iso"@,
{
    string_from("helios-install-vga.iso")
}

/// Settings of the VM that Proxmox creates.
pub struct ProxmoxVmConfig {
    pub vmid: u32,
    pub name: String,
    pub cores: u32,
    pub sockets: u32,
    pub memory_mb: u32,
    pub disk_gb: u32,
    pub disk_bus: String,
    pub cpu_type: String,
    pub os_type: String,
    pub net_model: String,
    pub net_bridge: String,
}

/// Default VM id.
pub fn default_vmid() -> (r: u32)
    ensures
        r == 302,
{
    302
}

/// Default VM name.
pub fn default_vm_name() -> (s: String)
    ensures
        s@ == "helios02"@,
{
    string_from("helios02")
}

/// Default core count.
pub fn default_cores() -> (r: u32)
    ensures
        r == 2,
{
    2
}

/// Default socket count.
pub fn default_sockets() -> (r: u32)
    ensures
        r == 2,
{
    2
}

/// Default memory.
pub fn default_memory_mb() -> (r: u32)
    ensures
        r == 49152,
{
    49152
}

/// Default disk size.
pub fn default_disk_gb() -> (r: u32)
    ensures
        r == 256,
{
    256
}

/// Default disk bus.
pub fn default_disk_bus() -> (s: String)
    ensures
        s@ == "sata"@,
{
    string_from("sata")
}

/// Default CPU type.
pub fn default_cpu_type() -> (s: String)
    ensures
        s@ == "host"@,
{
    string_from("host")
}

/// Default OS type.
pub fn default_os_type() -> (s: String)
    ensures
        s@ == "solaris"@,
{
    string_from("solaris")
}

/// Default network card model.
pub fn default_net_model() -> (s: String)
    ensures
        s@ == "e1000e"@,
{
    string_from("e1000e")
}

/// Default network bridge.
pub fn default_net_bridge() -> (s: String)
    ensures
        s@ == "vmbr0"@,
{
    string_from("vmbr0")
}

impl Default for ProxmoxVmConfig {
    fn default() -> (r: Self)
        ensures
            r.vmid == 302,
            r.name@ == "helios02"@,
            r.cores == 2,
            r.sockets == 2,
            r.memory_mb == 49152,
            r.disk_gb == 256,
            r.disk_bus@ == "sata"@,
            r.cpu_type@ == "host"@,
            r.os_type@ == "solaris"@,
            r.net_model@ == "e1000e"@,
            r.net_bridge@ == "vmbr0"@,
    {
        ProxmoxVmConfig {
            vmid: default_vmid(),
            name: default_vm_name(),
            cores: default_cores(),
            sockets: default_sockets(),
            memory_mb: default_memory_mb(),
            disk_gb: default_disk_gb(),
            disk_bus: default_disk_bus(),
            cpu_type: default_cpu_type(),
            os_type: default_os_type(),
            net_model: default_net_model(),
            net_bridge: default_net_bridge(),
        }
    }
}

// --- Shared hypervisor config (~/.whoah/shared/hypervisors/*.toml) ---

/// Kind of hypervisor.
#[derive(Debug, Clone, Copy, PartialEq, Eq, Structural)]
pub enum HypervisorType {
    Proxmox,
    LinuxKvm,
}

/// A shared hypervisor file.
pub struct HypervisorConfig {
    pub hypervisor: HypervisorMeta,
    pub credentials: HypervisorCredentials,
    pub proxmox: Option<ProxmoxHypervisorConfig>,
}

/// Name and kind of a hypervisor.
pub struct HypervisorMeta {
    pub name: String,
    pub hypervisor_type: HypervisorType,
}

/// How to reach a hypervisor.
pub struct HypervisorCredentials {
    pub host: String,
    pub ssh_user: String,
    pub ssh_port: Option<u16>,
}

impl HypervisorCredentials {
    /// SSH port, defaulting to 22 when not set.
    pub fn ssh_port(&self) -> (p: u16)
        ensures
            p == match self.ssh_port {
                Some(q) => q,
                None => 22,
            },
    {
        match self.ssh_port {
            Some(q) => q,
            None => 22,
        }
    }
}

/// Type-specific Proxmox hypervisor settings (shared across VMs on this host).
pub struct ProxmoxHypervisorConfig {
    pub node: String,
    pub iso_storage: String,
    pub disk_storage: String,
    pub iso_file: String,
}

// --- Hypervisor reference (per-deployment, points to shared hypervisor) ---

/// The hypervisor a deployment uses, and its VM there.
pub struct HypervisorRef {
    pub hypervisor_ref: String,
    pub vm: Option<VmConfig>,
}

/// Per-deployment VM config (resources, identity). Used when host_type = vm.
pub struct VmConfig {
    pub vmid: u32,
    pub name: String,
    pub cores: u32,
    pub sockets: u32,
    pub memory_mb: u32,
    pub disk_gb: u32,
    pub disk_bus: String,
    pub cpu_type: String,
    pub os_type: String,
    pub net_model: String,
    pub net_bridge: String,
}

impl Default for VmConfig {
    fn default() -> (r: Self)
        ensures
            r.vmid == 100,
            r.name@ == Seq::<char>::empty(),
            r.cores == 2,
            r.sockets == 2,
            r.memory_mb == 49152,
            r.disk_gb == 256,
            r.disk_bus@ == "sata"@,
            r.cpu_type@ == "host"@,
            r.os_type@ == "solaris"@,
            r.net_model@ == "e1000e"@,
            r.net_bridge@ == "vmbr0"@,
    {
        VmConfig {
            vmid: 100,
            name: String::new(),
            cores: default_cores(),
            sockets: default_sockets(),
            memory_mb: default_memory_mb(),
            disk_gb: default_disk_gb(),
            disk_bus: default_disk_bus(),
            cpu_type: default_cpu_type(),
            os_type: default_os_type(),
            net_model: default_net_model(),
            net_bridge: default_net_bridge(),
        }
    }
}

// --- build.toml ---

/// `build.toml`.
pub struct BuildToml {
    pub omicron: OmicronBuildConfig,
    pub propolis: Option<PropolisBuildConfig>,
    pub tuning: TuningConfig,
}

impl Default for BuildToml {
    fn default() -> (r: Self)
        ensures
            r.omicron.repo_path@ == "~/omicron"@,
            r.omicron.repo_url is None,
            r.omicron.git_ref is None,
            r.omicron.rust_toolchain is None,
            r.omicron.overrides == OmicronOverrides::spec_default(),
            r.propolis is None,
            r.tuning == TuningConfig::spec_default(),
    {
        BuildToml {
            omicron: OmicronBuildConfig::default(),
            propolis: None,
            tuning: TuningConfig::default(),
        }
    }
}

/// How Omicron is built.
pub struct OmicronBuildConfig {
    pub repo_path: String,
    pub repo_url: Option<String>,
    pub git_ref: Option<String>,
    pub rust_toolchain: Option<String>,
    pub overrides: OmicronOverrides,
}

/// Default checkout of Omicron.
pub fn default_omicron_repo_path() -> (s: String)
    ensures
        s@ == "~/omicron"@,
{
    string_from("~/omicron")
}

impl Default for OmicronBuildConfig {
    fn default() -> (r: Self)
        ensures
            r.repo_path@ == "~/omicron"@,
            r.repo_url is None,
            r.git_ref is None,
            r.rust_toolchain is None,
            r.overrides == OmicronOverrides::spec_default(),
    {
        OmicronBuildConfig {
            repo_path: default_omicron_repo_path(),
            repo_url: None,
            git_ref: None,
            rust_toolchain: None,
            overrides: OmicronOverrides::default(),
        }
    }
}

/// The service zones that a deployment is expected to run, with their
/// counts: CockroachDB and Crucible from the overrides (5 and 9 when
/// unset), the others fixed per the non-gimlet documentation.
pub open spec fn spec_expected_zones(overrides: OmicronOverrides) -> Seq<(Seq<char>, nat)> {
    let crdb = match overrides.cockroachdb_redundancy {
        Some(n) => n as nat,
        None => 5,
    };
    let vdevs = match overrides.vdev_count {
        Some(n) => n as nat,
        None => 9,
    };
    seq![
        ("clickhouse"@, 1nat),
        ("cockroachdb"@, crdb),
        ("crucible"@, vdevs),
        ("crucible_pantry"@, 3nat),
        ("external_dns"@, 2nat),
        ("internal_dns"@, 3nat),
        ("nexus"@, 3nat),
        ("ntp"@, 1nat),
        ("oximeter"@, 1nat),
        ("sidecar_softnpu"@, 1nat),
        ("switch"@, 1nat),
    ]
}

/// The pairs of a list of `(name, count)`, viewed.
pub open spec fn counts_view(v: Seq<(String, u32)>) -> Seq<(Seq<char>, nat)> {
    v.map_values(|p: (String, u32)| (p.0@, p.1 as nat))
}

/// Sum of the counts of a list.
pub open spec fn total_count(v: Seq<(Seq<char>, nat)>) -> nat
    decreases v.len(),
{
    if v.len() == 0 {
        0
    } else {
        total_count(v.drop_last()) + v.last().1
    }
}

fn push_count(v: &mut Vec<(String, u32)>, name: &str, n: u32)
    ensures
        counts_view(final(v)@) == counts_view(old(v)@).push((name@, n as nat)),
{
    let ghost before = v@;
    v.push((string_from(name), n));
    assert(counts_view(v@) =~= counts_view(before).push((name@, n as nat)));
}

/// Derive expected zone counts from build overrides, one entry per service
/// name in ascending name order.
pub fn derive_expected_zones(overrides: &OmicronOverrides) -> (r: Vec<(String, u32)>)
    ensures
        counts_view(r@) == spec_expected_zones(*overrides),
{
    let crdb = match overrides.cockroachdb_redundancy {
        Some(n) => n,
        None => 5,
    };
    let vdevs = match overrides.vdev_count {
        Some(n) => n,
        None => 9,
    };
    let mut v: Vec<(String, u32)> = Vec::new();
    push_count(&mut v, "clickhouse", 1);
    push_count(&mut v, "cockroachdb", crdb);
    push_count(&mut v, "crucible", vdevs);
    push_count(&mut v, "crucible_pantry", 3);
    push_count(&mut v, "external_dns", 2);
    push_count(&mut v, "internal_dns", 3);
    push_count(&mut v, "nexus", 3);
    push_count(&mut v, "ntp", 1);
    push_count(&mut v, "oximeter", 1);
    push_count(&mut v, "sidecar_softnpu", 1);
    push_count(&mut v, "switch", 1);
    assert(counts_view(v@) =~= spec_expected_zones(*overrides));
    v
}

/// Knobs of the Omicron build.
#[derive(Debug, Clone, Copy, PartialEq, Eq, Structural)]
pub struct OmicronOverrides {
    pub cockroachdb_redundancy: Option<u32>,
    pub control_plane_storage_buffer_gib: Option<u32>,
    pub vdev_count: Option<u32>,
    pub vdev_size_bytes: Option<u64>,
}

impl OmicronOverrides {
    /// No override set.
    pub open spec fn spec_default() -> OmicronOverrides {
        OmicronOverrides {
            cockroachdb_redundancy: None,
            control_plane_storage_buffer_gib: None,
            vdev_count: None,
            vdev_size_bytes: None,
        }
    }
}

impl Default for OmicronOverrides {
    fn default() -> (r: Self)
        ensures
            r == OmicronOverrides::spec_default(),
    {
        OmicronOverrides {
            cockroachdb_redundancy: None,
            control_plane_storage_buffer_gib: None,
            vdev_count: None,
            vdev_size_bytes: None,
        }
    }
}

/// How Propolis is built or fetched.
pub struct PropolisBuildConfig {
    pub repo_path: String,
    pub patched: Option<bool>,
    pub patch_type: Option<String>,
    pub source: Option<PropolisSource>,
    pub repo_url: Option<String>,
    pub git_ref: Option<String>,
    pub local_binary: Option<String>,
}

/// Default checkout of Propolis.
pub fn default_propolis_repo_path() -> (s: String)
    ensures
        s@ == "~/propolis"@,
{
    string_from("~/propolis")
}

/// Where the Propolis binary comes from.
#[derive(Debug, Clone, Copy, PartialEq, Eq, Structural)]
pub enum PropolisSource {
    GithubRelease,
    LocalBuild,
}

// --- Tuning config (in build.toml) ---

/// Advanced tuning options for sled-agent, compile-time flags, and system config.
pub struct TuningConfig {
    /// Enable svcadm_autoclear compile-time flag (auto-clear maintenance services)
    pub svcadm_autoclear: Option<bool>,
    /// Swap zvol size in GB created during OS setup (default: 4)
    pub swap_size_gb: Option<u32>,
    /// Custom vdev directory (default: /var/tmp via xtask)
    pub vdev_dir: Option<String>,
    /// Control plane memory earmark in MB (sled-agent config, default: 6144)
    pub memory_earmark_mb: Option<u32>,
    /// VMM reservoir percentage of unbudgeted DRAM (sled-agent config, default: 60)
    pub vmm_reservoir_percentage: Option<u32>,
    /// Swap device size in GB for sled-agent config (default: 64)
    pub swap_device_size_gb: Option<u32>,
}

impl TuningConfig {
    /// No tuning option set.
    pub open spec fn spec_default() -> TuningConfig {
        TuningConfig {
            svcadm_autoclear: None,
            swap_size_gb: None,
            vdev_dir: None,
            memory_earmark_mb: None,
            vmm_reservoir_percentage: None,
            swap_device_size_gb: None,
        }
    }
}

impl Default for TuningConfig {
    fn default() -> (r: Self)
        ensures
            r == TuningConfig::spec_default(),
    {
        TuningConfig {
            svcadm_autoclear: None,
            swap_size_gb: None,
            vdev_dir: None,
            memory_earmark_mb: None,
            vmm_reservoir_percentage: None,
            swap_device_size_gb: None,
        }
    }
}

// --- state.toml (per-deployment runtime state) ---

/// Runtime state of a deployment.
pub struct DeploymentState {
    pub drift: Option<DriftState>,
}

impl Default for DeploymentState {
    fn default() -> (r: Self)
        ensures
            r.drift is None,
    {
        DeploymentState { drift: None }
    }
}

/// When drift was last checked.
pub struct DriftState {
    pub last_checked: String,
}

// --- monitoring.toml ---

/// `monitoring.toml`.
pub struct MonitoringToml {
    pub thresholds: Thresholds,
    pub polling: PollingConfig,
}

impl Default for MonitoringToml {
    fn default() -> (r: Self)
        ensures
            r.thresholds == Thresholds::spec_default(),
            r.polling == PollingConfig::spec_default(),
    {
        MonitoringToml { thresholds: Thresholds::default(), polling: PollingConfig::default() }
    }
}

/// Alert thresholds.
#[derive(Debug, Clone, Copy, PartialEq, Eq, Structural)]
pub struct Thresholds {
    pub rpool_warning_percent: u8,
    pub rpool_critical_percent: u8,
    pub vdev_warning_gib: u32,
    pub oxp_pool_warning_percent: u8,
}

/// Default rpool warning level.
pub fn default_rpool_warning() -> (r: u8)
    ensures
        r == 85,
{
    85
}

/// Default rpool critical level.
pub fn default_rpool_critical() -> (r: u8)
    ensures
        r == 92,
{
    92
}

/// Default vdev warning size.
pub fn default_vdev_warning() -> (r: u32)
    ensures
        r == 35,
{
    35
}

/// Default oxp pool warning level.
pub fn default_oxp_warning() -> (r: u8)
    ensures
        r == 85,
{
    85
}

impl Thresholds {
    /// The default thresholds.
    pub open spec fn spec_default() -> Thresholds {
        Thresholds {
            rpool_warning_percent: 85,
            rpool_critical_percent: 92,
            vdev_warning_gib: 35,
            oxp_pool_warning_percent: 85,
        }
    }
}

impl Default for Thresholds {
    fn default() -> (r: Self)
        ensures
            r == Thresholds::spec_default(),
    {
        Thresholds {
            rpool_warning_percent: default_rpool_warning(),
            rpool_critical_percent: default_rpool_critical(),
            vdev_warning_gib: default_vdev_warning(),
            oxp_pool_warning_percent: default_oxp_warning(),
        }
    }
}

/// Polling intervals.
#[derive(Debug, Clone, Copy, PartialEq, Eq, Structural)]
pub struct PollingConfig {
    pub status_interval_secs: u64,
    pub disk_interval_secs: u64,
}

/// Default status polling interval.
pub fn default_status_interval() -> (r: u64)
    ensures
        r == 10,
{
    10
}

/// Default disk polling interval.
pub fn default_disk_interval() -> (r: u64)
    ensures
        r == 30,
{
    30
}

impl PollingConfig {
    /// The default intervals.
    pub open spec fn spec_default() -> PollingConfig {
        PollingConfig { status_interval_secs: 10, disk_interval_secs: 30 }
    }
}

impl Default for PollingConfig {
    fn default() -> (r: Self)
        ensures
            r == PollingConfig::spec_default(),
    {
        PollingConfig {
            status_interval_secs: default_status_interval(),
            disk_interval_secs: default_disk_interval(),
        }
    }
}

} // verus!
