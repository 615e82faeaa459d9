//! Which deployment and hypervisor the tool works on: choosing the
//! deployment, turning a deployment's hypervisor reference into the Proxmox
//! settings of the deploy pipeline, and the names of the files involved.
//!
//! Reading directories and files is the caller's.
use vstd::prelude::*;
use crate::config::{DeploymentToml, GlobalConfig, HypervisorConfig, HypervisorType, ProxmoxConfig, ProxmoxVmConfig};
use crate::order::{ascending, insert_ascending};
use crate::parse::network::strings_view;
use crate::text::{push_str, rfind_char, rfind_char_exec, str_eq, string_from, string_of, to_chars};

verus! {

/// Why no deployment could be chosen without asking.
#[derive(Debug, Clone, Copy, PartialEq, Eq, Structural)]
pub enum Unresolved {
    /// There is none.
    NoDeployments,
    /// There are several: the user picks one.
    MustChoose,
}

impl Unresolved {
    /// How the refusal reads.
    pub fn message(&self) -> (r: &'static str)
        ensures
            *self == Unresolved::NoDeployments ==> r@
                == "No deployments found. Run 'whoah init' to create one."@,
            *self == Unresolved::MustChoose ==> r@ == "Multiple deployments found. Select one"@,
    {
        match self {
            Unresolved::NoDeployments => "No deployments found. Run 'whoah init' to create one.",
            Unresolved::MustChoose => "Multiple deployments found. Select one",
        }
    }
}

/// Which deployment to use: the one named, else the global default, else
/// the only one there is.
pub open spec fn spec_resolve(explicit: Option<Seq<char>>, default: Option<Seq<char>>, deployments: Seq<Seq<char>>) -> Result<Seq<char>, Unresolved> {
    match explicit {
        Some(n) => Ok(n),
        None => match default {
            Some(n) => Ok(n),
            None => if deployments.len() == 0 {
                Err(Unresolved::NoDeployments)
            } else if deployments.len() == 1 {
                Ok(deployments[0])
            } else {
                Err(Unresolved::MustChoose)
            },
        },
    }
}

/// Choose the deployment. `global` and `deployments` are only read when no
/// name is given.
pub fn resolve_deployment(explicit: Option<&str>, global: &GlobalConfig, deployments: &Vec<String>) -> (r: Result<String, Unresolved>)
    ensures
        match r {
            Ok(n) => spec_resolve(
                match explicit {
                    Some(e) => Some(e@),
                    None => None,
                },
                crate::text::opt_view(global.default_deployment),
                strings_view(deployments@),
            ) == Ok::<Seq<char>, Unresolved>(n@),
            Err(u) => spec_resolve(
                match explicit {
                    Some(e) => Some(e@),
                    None => None,
                },
                crate::text::opt_view(global.default_deployment),
                strings_view(deployments@),
            ) == Err::<Seq<char>, Unresolved>(u),
        },
{
    if let Some(name) = explicit {
        return Ok(string_from(name));
    }
    if let Some(name) = &global.default_deployment {
        return Ok(string_from(name.as_str()));
    }
    if deployments.len() == 0 {
        Err(Unresolved::NoDeployments)
    } else if deployments.len() == 1 {
        assert(strings_view(deployments@)[0] == deployments@[0]@);
        Ok(string_from(deployments[0].as_str()))
    } else {
        Err(Unresolved::MustChoose)
    }
}

/// A deployment named on the command line is the one used, whatever the
/// default and the deployments present.
pub proof fn law_explicit_wins(name: Seq<char>, default: Option<Seq<char>>, deployments: Seq<Seq<char>>)
    ensures
        spec_resolve(Some(name), default, deployments) == Ok::<Seq<char>, Unresolved>(name),
{
}

/// Without a name, the default deployment comes before the deployments
/// present; only when neither decides is the user asked.
pub proof fn law_default_then_only(default: Option<Seq<char>>, deployments: Seq<Seq<char>>)
    ensures
        default matches Some(d) ==> spec_resolve(None, default, deployments) == Ok::<
            Seq<char>,
            Unresolved,
        >(d),
        default is None && deployments.len() == 1 ==> spec_resolve(None, default, deployments)
            == Ok::<Seq<char>, Unresolved>(deployments[0]),
        spec_resolve(None, default, deployments) == Err::<Seq<char>, Unresolved>(Unresolved::MustChoose)
            <==> (default is None && deployments.len() > 1),
{
}

/// The hypervisor file a deployment needs read, if it references one.
pub fn referenced_hypervisor(deployment: &DeploymentToml) -> (r: Option<&str>)
    ensures
        match deployment.hypervisor {
            Some(h) => r matches Some(n) && n@ == h.hypervisor_ref@,
            None => r is None,
        },
{
    match &deployment.hypervisor {
        Some(h) => Some(h.hypervisor_ref.as_str()),
        None => None,
    }
}

/// The Proxmox settings of a deployment: none without a hypervisor
/// reference or when the hypervisor is not Proxmox; an error when the
/// Proxmox section or the VM section is missing; else the hypervisor's
/// host and storage with the deployment's VM.
pub open spec fn proxmox_matches(p: ProxmoxConfig, d: DeploymentToml, h: HypervisorConfig) -> bool {
    let hp = h.proxmox->Some_0;
    let vm = d.hypervisor->Some_0.vm->Some_0;
    &&& p.host@ == h.credentials.host@
    &&& p.ssh_user@ == h.credentials.ssh_user@
    &&& p.ssh_port == h.credentials.ssh_port
    &&& p.node@ == hp.node@
    &&& p.iso_storage@ == hp.iso_storage@
    &&& p.disk_storage@ == hp.disk_storage@
    &&& p.iso_file@ == hp.iso_file@
    &&& p.vm.vmid == vm.vmid
    &&& p.vm.name@ == vm.name@
    &&& p.vm.cores == vm.cores
    &&& p.vm.sockets == vm.sockets
    &&& p.vm.memory_mb == vm.memory_mb
    &&& p.vm.disk_gb == vm.disk_gb
    &&& p.vm.disk_bus@ == vm.disk_bus@
    &&& p.vm.cpu_type@ == vm.cpu_type@
    &&& p.vm.os_type@ == vm.os_type@
    &&& p.vm.net_model@ == vm.net_model@
    &&& p.vm.net_bridge@ == vm.net_bridge@
}

/// Resolve a deployment's hypervisor reference. `hypervisor` is the file
/// it references, as loaded.
pub fn resolve_proxmox_config(deployment: &DeploymentToml, hypervisor: Option<&HypervisorConfig>) -> (r: Result<Option<ProxmoxConfig>, String>)
    requires
        deployment.hypervisor is Some ==> hypervisor is Some,
    ensures
        deployment.hypervisor is None ==> r matches Ok(None),
        deployment.hypervisor is Some ==> {
            let href = deployment.hypervisor->Some_0;
            let h = *hypervisor->Some_0;
            if h.hypervisor.hypervisor_type != HypervisorType::Proxmox {
                r matches Ok(None)
            } else if h.proxmox is None {
                r matches Err(e) && e@ == "Hypervisor '"@ + href.hypervisor_ref@
                    + "' is type proxmox but has no [proxmox] section"@
            } else if href.vm is None {
                r matches Err(e) && e@ == "Deployment references hypervisor '"@
                    + href.hypervisor_ref@ + "' but has no [hypervisor.vm] section"@
            } else {
                r matches Ok(Some(p)) && proxmox_matches(p, *deployment, h)
            }
        },
{
    let href = match &deployment.hypervisor {
        Some(h) => h,
        None => {
            return Ok(None);
        },
    };
    let hyp = match hypervisor {
        Some(h) => h,
        None => {
            return Ok(None);
        },
    };
    if hyp.hypervisor.hypervisor_type != HypervisorType::Proxmox {
        return Ok(None);
    }
    let px = match &hyp.proxmox {
        Some(p) => p,
        None => {
            let mut e = string_from("Hypervisor '");
            push_str(&mut e, href.hypervisor_ref.as_str());
            push_str(&mut e, "' is type proxmox but has no [proxmox] section");
            return Err(e);
        },
    };
    let vm = match &href.vm {
        Some(v) => v,
        None => {
            let mut e = string_from("Deployment references hypervisor '");
            push_str(&mut e, href.hypervisor_ref.as_str());
            push_str(&mut e, "' but has no [hypervisor.vm] section");
            return Err(e);
        },
    };
    Ok(
        Some(
            ProxmoxConfig {
                host: string_from(hyp.credentials.host.as_str()),
                ssh_user: string_from(hyp.credentials.ssh_user.as_str()),
                ssh_port: hyp.credentials.ssh_port,
                node: string_from(px.node.as_str()),
                iso_storage: string_from(px.iso_storage.as_str()),
                disk_storage: string_from(px.disk_storage.as_str()),
                iso_file: string_from(px.iso_file.as_str()),
                vm: ProxmoxVmConfig {
                    vmid: vm.vmid,
                    name: string_from(vm.name.as_str()),
                    cores: vm.cores,
                    sockets: vm.sockets,
                    memory_mb: vm.memory_mb,
                    disk_gb: vm.disk_gb,
                    disk_bus: string_from(vm.disk_bus.as_str()),
                    cpu_type: string_from(vm.cpu_type.as_str()),
                    os_type: string_from(vm.os_type.as_str()),
                    net_model: string_from(vm.net_model.as_str()),
                    net_bridge: string_from(vm.net_bridge.as_str()),
                },
            },
        ),
    )
}

/// A deployment references the hypervisor.
pub fn references_hypervisor(deployment: &DeploymentToml, hypervisor_name: &str) -> (r: bool)
    ensures
        r == (deployment.hypervisor matches Some(h) && h.hypervisor_ref@ == hypervisor_name@),
{
    match &deployment.hypervisor {
        Some(h) => str_eq(h.hypervisor_ref.as_str(), hypervisor_name),
        None => false,
    }
}

/// Names in ascending order, each once.
pub fn sorted_names(names: &Vec<String>) -> (r: Vec<String>)
    ensures
        ascending(strings_view(r@)),
        strings_view(r@).to_set() == strings_view(names@).to_set(),
{
    let mut out: Vec<String> = Vec::new();
    let mut i: usize = 0;
    assert(strings_view(out@).to_set() =~= strings_view(names@).take(0).to_set());
    while i < names.len()
        invariant
            i <= names@.len(),
            ascending(strings_view(out@)),
            strings_view(out@).to_set() == strings_view(names@).take(i as int).to_set(),
        decreases names@.len() - i,
    {
        let ghost before = strings_view(names@).take(i as int);
        insert_ascending(&mut out, names[i].as_str());
        proof {
            let after = strings_view(names@).take(i + 1);
            assert(after =~= before.push(names@[i as int]@));
            before.lemma_push_to_set_commute(names@[i as int]@);
        }
        i = i + 1;
    }
    assert(strings_view(names@).take(i as int) =~= strings_view(names@));
    out
}

/// The stem of a `.toml` file name: the name before its last dot, when a
/// dot that does not start the name is followed by `toml`.
pub open spec fn spec_toml_stem(file_name: Seq<char>) -> Option<Seq<char>> {
    match rfind_char(file_name, '.') {
        Some(k) => if k > 0 && file_name.skip(k + 1) == "toml"@ {
            Some(file_name.take(k))
        } else {
            None
        },
        None => None,
    }
}

/// The hypervisor a file in the hypervisors directory is for.
pub fn toml_stem(file_name: &str) -> (r: Option<String>)
    ensures
        crate::text::opt_view(r) == spec_toml_stem(file_name@),
{
    let v = to_chars(file_name);
    proof {
        crate::text::lemma_rfind_char_to(v@, '.', v@.len() as int);
    }
    match rfind_char_exec(v.as_slice(), '.') {
        Some(k) => {
            if k > 0 {
                let ext = string_of(vstd::slice::slice_subrange(v.as_slice(), k + 1, v.len()));
                assert(ext@ =~= file_name@.skip(k + 1));
                if str_eq(ext.as_str(), "toml") {
                    let stem = string_of(vstd::slice::slice_subrange(v.as_slice(), 0, k));
                    assert(stem@ =~= file_name@.take(k as int));
                    return Some(stem);
                }
            }
            None
        },
        None => None,
    }
}

/// `<name>.toml`.
pub fn hypervisor_file_name(name: &str) -> (r: String)
    ensures
        r@ == name@ + ".toml"@,
{
    let mut s = string_from(name);
    push_str(&mut s, ".toml");
    s
}

/// `build-<timestamp>.log`.
pub fn build_log_name(timestamp: &str) -> (r: String)
    ensures
        r@ == "build-"@ + timestamp@ + ".log"@,
{
    let mut s = string_from("build-");
    push_str(&mut s, timestamp);
    push_str(&mut s, ".log");
    s
}

/// The error for a deployment that is not there.
pub fn deployment_not_found(name: &str, dir: &str) -> (r: String)
    ensures
        r@ == "Deployment '"@ + name@ + "' not found at "@ + dir@,
{
    let mut s = string_from("Deployment '");
    push_str(&mut s, name);
    push_str(&mut s, "' not found at ");
    push_str(&mut s, dir);
    s
}

} // verus!
