//! Creating a deployment: from the answers of the setup wizard, or from
//! what was discovered on a running host.
//!
//! Asking the questions, connecting and writing the files is the caller's.
use vstd::prelude::*;
use crate::config::{BuildToml, DeploymentConfig, DeploymentMeta, DeploymentToml, HostConfig, HostRole, IpRange, MonitoringToml, NetworkConfig, NexusConfig, OmicronBuildConfig, OmicronOverrides, TuningConfig};
use crate::import::DiscoveredConfig;
use crate::parse::network::strings_view;
use crate::text::{contains, has_char, has_char_exec, opt_view, push_str, splitn_char, splitn_char_exec, string_from, string_of, to_chars, trim, trim_chars, views, split_char, split_char_exec, str_eq};

verus! {

/// The answers of the setup wizard.
pub struct WizardAnswers {
    pub name: String,
    pub address: String,
    pub ssh_user: String,
    pub gateway: String,
    /// Comma-separated.
    pub dns_ips: String,
    pub services_first: String,
    pub services_last: String,
    pub infra_ip: String,
    pub pool_first: String,
    pub pool_last: String,
    pub vdev_count: u32,
    pub crdb_redundancy: u32,
    pub storage_buffer: u32,
}

/// The name is free: no deployment has it yet.
pub fn check_new_name(name: &str, existing: &Vec<String>) -> (r: Result<(), String>)
    ensures
        strings_view(existing@).contains(name@) ==> (r matches Err(e) && e@ == "Deployment '"@
            + name@ + "' already exists. Remove ~/.whoah/deployments/"@ + name@ + "/ first."@),
        !strings_view(existing@).contains(name@) ==> r is Ok,
{
    let mut i: usize = 0;
    while i < existing.len()
        invariant
            i <= existing@.len(),
            forall|j: int| 0 <= j < i ==> existing@[j]@ != name@,
        decreases existing@.len() - i,
    {
        if str_eq(existing[i].as_str(), name) {
            assert(strings_view(existing@)[i as int] == name@);
            let mut e = string_from("Deployment '");
            push_str(&mut e, name);
            push_str(&mut e, "' already exists. Remove ~/.whoah/deployments/");
            push_str(&mut e, name);
            push_str(&mut e, "/ first.");
            return Err(e);
        }
        i = i + 1;
    }
    assert(!strings_view(existing@).contains(name@)) by {
        if strings_view(existing@).contains(name@) {
            let k = choose|k: int| 0 <= k < existing@.len() && strings_view(existing@)[k] == name@;
            assert(existing@[k]@ == name@);
        }
    }
    Ok(())
}

/// Each text trimmed.
pub open spec fn trim_each(parts: Seq<Seq<char>>) -> Seq<Seq<char>>
    decreases parts.len(),
{
    if parts.len() == 0 {
        seq![]
    } else {
        trim_each(parts.drop_last()).push(trim(parts.last()))
    }
}

/// Each comma-separated part, trimmed (empty parts kept).
pub open spec fn spec_trimmed_parts(s: Seq<char>) -> Seq<Seq<char>> {
    trim_each(split_char(s, ','))
}

fn trimmed_parts(s: &str) -> (r: Vec<String>)
    ensures
        strings_view(r@) == spec_trimmed_parts(s@),
{
    let v = to_chars(s);
    let parts = split_char_exec(v.as_slice(), ',');
    let ghost pv = views(parts@);
    let mut out: Vec<String> = Vec::new();
    let mut i: usize = 0;
    while i < parts.len()
        invariant
            i <= parts@.len(),
            pv == views(parts@),
            pv == split_char(s@, ','),
            strings_view(out@) == trim_each(pv.take(i as int)),
        decreases parts@.len() - i,
    {
        assert(pv.take(i + 1).drop_last() =~= pv.take(i as int));
        assert(pv.take(i + 1).last() == parts@[i as int]@);
        out.push(string_of(trim_chars(parts[i])));
        assert(strings_view(out@) =~= trim_each(pv.take(i + 1)));
        i = i + 1;
    }
    assert(pv.take(i as int) =~= pv);
    out
}

/// The single host of a new deployment: the deployment's name, combined
/// role, no type, default port.
pub open spec fn single_host(d: DeploymentToml, name: Seq<char>, address: Seq<char>, user: Seq<char>) -> bool {
    &&& d.hosts@.len() == 1
    &&& d.hosts@[0].0@ == name
    &&& d.hosts@[0].1.address@ == address
    &&& d.hosts@[0].1.ssh_user@ == user
    &&& d.hosts@[0].1.role == HostRole::Combined
    &&& d.hosts@[0].1.host_type is None
    &&& d.hosts@[0].1.ssh_port is None
}

/// Settings that every new deployment starts with: the default API
/// settings, no hypervisor, Omicron built with toolchain 1.91.1, no
/// Propolis, default tuning and monitoring.
pub open spec fn fresh_defaults(c: DeploymentConfig) -> bool {
    &&& c.deployment.nexus.silo_name@ == "recovery"@
    &&& c.deployment.nexus.username@ == "recovery"@
    &&& c.deployment.nexus.password@ == "oxide"@
    &&& c.deployment.nexus.ip_pool_name@ == "default"@
    &&& c.deployment.hypervisor is None
    &&& c.build.omicron.repo_url is None
    &&& c.build.omicron.git_ref is None
    &&& opt_view(c.build.omicron.rust_toolchain) == Some("1.91.1"@)
    &&& c.build.propolis is None
    &&& c.build.tuning == TuningConfig::spec_default()
    &&& c.monitoring.thresholds == crate::config::Thresholds::spec_default()
    &&& c.monitoring.polling == crate::config::PollingConfig::spec_default()
}

/// The configuration the wizard's answers describe.
pub open spec fn wizard_matches(c: DeploymentConfig, a: WizardAnswers) -> bool {
    let n = c.deployment.network;
    &&& c.deployment.deployment.name@ == a.name@
    &&& opt_view(c.deployment.deployment.description) == Some("Created by whoah init"@)
    &&& single_host(c.deployment, a.name@, a.address@, a.ssh_user@)
    &&& n.gateway@ == a.gateway@
    &&& strings_view(n.external_dns_ips@) == spec_trimmed_parts(a.dns_ips@)
    &&& n.internal_services_range.first@ == a.services_first@
    &&& n.internal_services_range.last@ == a.services_last@
    &&& n.infra_ip@ == a.infra_ip@
    &&& n.instance_pool_range.first@ == a.pool_first@
    &&& n.instance_pool_range.last@ == a.pool_last@
    &&& n.ntp_servers is None && n.dns_servers is None && n.external_dns_zone_name is None
    &&& n.rack_subnet is None && n.uplink_port_speed is None && n.allowed_source_ips is None
    &&& c.build.omicron.repo_path@ == "~/omicron"@
    &&& c.build.omicron.overrides == (OmicronOverrides {
        cockroachdb_redundancy: Some(a.crdb_redundancy),
        control_plane_storage_buffer_gib: Some(a.storage_buffer),
        vdev_count: Some(a.vdev_count),
        vdev_size_bytes: Some(42949672960),
    })
    &&& fresh_defaults(c)
}

fn one_host(name: &str, address: &str, ssh_user: &str) -> (r: Vec<(String, HostConfig)>)
    ensures
        r@.len() == 1,
        r@[0].0@ == name@,
        r@[0].1.address@ == address@,
        r@[0].1.ssh_user@ == ssh_user@,
        r@[0].1.role == HostRole::Combined,
        r@[0].1.host_type is None,
        r@[0].1.ssh_port is None,
{
    let mut h: Vec<(String, HostConfig)> = Vec::new();
    h.push(
        (
            string_from(name),
            HostConfig {
                address: string_from(address),
                ssh_user: string_from(ssh_user),
                role: HostRole::Combined,
                host_type: None,
                ssh_port: None,
            },
        ),
    );
    h
}

fn omicron_build(repo_path: String, overrides: OmicronOverrides) -> (r: BuildToml)
    ensures
        r.omicron.repo_path@ == repo_path@,
        r.omicron.repo_url is None,
        r.omicron.git_ref is None,
        opt_view(r.omicron.rust_toolchain) == Some("1.91.1"@),
        r.omicron.overrides == overrides,
        r.propolis is None,
        r.tuning == TuningConfig::spec_default(),
{
    BuildToml {
        omicron: OmicronBuildConfig {
            repo_path,
            repo_url: None,
            git_ref: None,
            rust_toolchain: Some(string_from("1.91.1")),
            overrides,
        },
        propolis: None,
        tuning: TuningConfig::default(),
    }
}

/// Build the configuration from the wizard's answers.
pub fn wizard_config(a: WizardAnswers) -> (r: DeploymentConfig)
    ensures
        wizard_matches(r, a),
{
    let ghost a0 = a;
    let dns = trimmed_parts(a.dns_ips.as_str());
    let hosts = one_host(a.name.as_str(), a.address.as_str(), a.ssh_user.as_str());
    let overrides = OmicronOverrides {
        cockroachdb_redundancy: Some(a.crdb_redundancy),
        control_plane_storage_buffer_gib: Some(a.storage_buffer),
        vdev_count: Some(a.vdev_count),
        vdev_size_bytes: Some(42949672960),
    };
    let c = DeploymentConfig {
        deployment: DeploymentToml {
            deployment: DeploymentMeta {
                name: a.name,
                description: Some(string_from("Created by whoah init")),
            },
            hosts,
            network: NetworkConfig {
                gateway: a.gateway,
                external_dns_ips: dns,
                internal_services_range: IpRange { first: a.services_first, last: a.services_last },
                infra_ip: a.infra_ip,
                instance_pool_range: IpRange { first: a.pool_first, last: a.pool_last },
                ntp_servers: None,
                dns_servers: None,
                external_dns_zone_name: None,
                rack_subnet: None,
                uplink_port_speed: None,
                allowed_source_ips: None,
            },
            nexus: NexusConfig::default(),
            hypervisor: None,
        },
        build: omicron_build(string_from("~/omicron"), overrides),
        monitoring: MonitoringToml::default(),
    };
    c
}

/// The configuration an import describes.
pub open spec fn import_matches(c: DeploymentConfig, name: Seq<char>, address: Seq<char>, user: Seq<char>, d: DiscoveredConfig) -> bool {
    &&& c.deployment.deployment.name@ == name
    &&& opt_view(c.deployment.deployment.description) == Some("Imported from "@ + address)
    &&& single_host(c.deployment, name, address, user)
    &&& c.deployment.network == d.network
    &&& c.build.omicron.repo_path@ == d.omicron_path@
    &&& c.build.omicron.overrides == (OmicronOverrides {
        cockroachdb_redundancy: d.cockroachdb_redundancy,
        control_plane_storage_buffer_gib: d.storage_buffer_gib,
        vdev_count: Some(d.vdev_count),
        vdev_size_bytes: d.vdev_size_bytes,
    })
    &&& fresh_defaults(c)
}

/// Build the configuration of an imported deployment.
pub fn build_config_from_discovered(name: &str, address: &str, ssh_user: &str, discovered: DiscoveredConfig) -> (r: DeploymentConfig)
    ensures
        import_matches(r, name@, address@, ssh_user@, discovered),
{
    let ghost d0 = discovered;
    let mut description = string_from("Imported from ");
    push_str(&mut description, address);
    let overrides = OmicronOverrides {
        cockroachdb_redundancy: discovered.cockroachdb_redundancy,
        control_plane_storage_buffer_gib: discovered.storage_buffer_gib,
        vdev_count: Some(discovered.vdev_count),
        vdev_size_bytes: discovered.vdev_size_bytes,
    };
    DeploymentConfig {
        deployment: DeploymentToml {
            deployment: DeploymentMeta { name: string_from(name), description: Some(description) },
            hosts: one_host(name, address, ssh_user),
            network: discovered.network,
            nexus: NexusConfig::default(),
            hypervisor: None,
        },
        build: omicron_build(discovered.omicron_path, overrides),
        monitoring: MonitoringToml::default(),
    }
}

/// `user@address`: the user and the address, when the text names a user.
pub open spec fn spec_import_target(s: Seq<char>) -> Option<(Seq<char>, Seq<char>)> {
    if has_char(s, '@') {
        Some((splitn_char(s, '@', 2)[0], splitn_char(s, '@', 2)[1]))
    } else {
        None
    }
}

/// Read an import target; `None` means the user is to be asked.
pub fn import_target(s: &str) -> (r: Option<(String, String)>)
    ensures
        match spec_import_target(s@) {
            Some((u, a)) => r matches Some((ru, ra)) && ru@ == u && ra@ == a,
            None => r is None,
        },
{
    let v = to_chars(s);
    if !has_char_exec(v.as_slice(), '@') {
        return None;
    }
    let parts = splitn_char_exec(v.as_slice(), '@', 2);
    proof {
        reveal_with_fuel(splitn_char, 2);
        assert(splitn_char(s@, '@', 2).len() == 2);
    }
    assert(views(parts@)[0] == parts@[0]@ && views(parts@)[1] == parts@[1]@);
    Some((string_of(parts[0]), string_of(parts[1])))
}

/// A new deployment becomes the default when it is the only one.
pub fn should_become_default(deployment_count: usize) -> (r: bool)
    ensures
        r == (deployment_count == 1),
{
    deployment_count == 1
}

} // verus!
