use whoah::config::{
    DeploymentMeta, DeploymentToml, GlobalConfig, HypervisorConfig, HypervisorCredentials,
    HypervisorMeta, HypervisorRef, HypervisorType, IpRange, NetworkConfig, NexusConfig,
    ProxmoxHypervisorConfig, VmConfig,
};
use whoah::loader::{
    build_log_name, deployment_not_found, hypervisor_file_name, references_hypervisor,
    resolve_deployment, resolve_proxmox_config, sorted_names, toml_stem, Unresolved,
};

fn bare_deployment(hypervisor: Option<HypervisorRef>) -> DeploymentToml {
    DeploymentToml {
        deployment: DeploymentMeta { name: "bare".to_string(), description: None },
        hosts: vec![],
        network: NetworkConfig {
            gateway: "10.0.0.1".to_string(),
            external_dns_ips: vec![],
            internal_services_range: IpRange {
                first: "10.0.0.40".to_string(),
                last: "10.0.0.49".to_string(),
            },
            infra_ip: "10.0.0.50".to_string(),
            instance_pool_range: IpRange {
                first: "10.0.0.51".to_string(),
                last: "10.0.0.60".to_string(),
            },
            ntp_servers: None,
            dns_servers: None,
            external_dns_zone_name: None,
            rack_subnet: None,
            uplink_port_speed: None,
            allowed_source_ips: None,
        },
        nexus: NexusConfig::default(),
        hypervisor,
    }
}

fn proxmox_hypervisor(with_section: bool) -> HypervisorConfig {
    HypervisorConfig {
        hypervisor: HypervisorMeta { name: "lab".to_string(), hypervisor_type: HypervisorType::Proxmox },
        credentials: HypervisorCredentials {
            host: "10.0.0.2".to_string(),
            ssh_user: "root".to_string(),
            ssh_port: Some(2222),
        },
        proxmox: if with_section {
            Some(ProxmoxHypervisorConfig {
                node: "pve1".to_string(),
                iso_storage: "local".to_string(),
                disk_storage: "local-lvm".to_string(),
                iso_file: "helios.iso".to_string(),
            })
        } else {
            None
        },
    }
}

#[test]
fn test_resolve_explicit_wins() {
    let result = resolve_deployment(Some("my-lab"), &GlobalConfig::default(), &vec![]);
    assert_eq!(result.unwrap(), "my-lab");
}

#[test]
fn test_resolve_proxmox_config_none() {
    let deployment = bare_deployment(None);
    let result = resolve_proxmox_config(&deployment, None).unwrap();
    assert!(result.is_none());
}

#[test]
fn resolve_order_default_then_single() {
    let g = GlobalConfig { default_deployment: Some("main".to_string()) };
    assert_eq!(resolve_deployment(None, &g, &vec!["a".to_string(), "b".to_string()]).unwrap(), "main");
    let none = GlobalConfig::default();
    assert_eq!(resolve_deployment(None, &none, &vec!["only".to_string()]).unwrap(), "only");
    assert_eq!(resolve_deployment(None, &none, &vec![]).unwrap_err(), Unresolved::NoDeployments);
    assert_eq!(
        resolve_deployment(None, &none, &vec!["a".to_string(), "b".to_string()]).unwrap_err(),
        Unresolved::MustChoose
    );
    assert_eq!(
        Unresolved::NoDeployments.message(),
        "No deployments found. Run 'whoah init' to create one."
    );
}

#[test]
fn resolve_proxmox_from_reference() {
    let vm = VmConfig::default();
    let d = bare_deployment(Some(HypervisorRef { hypervisor_ref: "lab".to_string(), vm: Some(vm) }));
    let h = proxmox_hypervisor(true);
    let p = resolve_proxmox_config(&d, Some(&h)).unwrap().unwrap();
    assert_eq!(p.host, "10.0.0.2");
    assert_eq!(p.ssh_port, Some(2222));
    assert_eq!(p.node, "pve1");
    assert_eq!(p.vm.vmid, 100);
    assert_eq!(p.vm.memory_mb, 49152);
}

#[test]
fn resolve_proxmox_errors() {
    let d = bare_deployment(Some(HypervisorRef { hypervisor_ref: "lab".to_string(), vm: Some(VmConfig::default()) }));
    let err = match resolve_proxmox_config(&d, Some(&proxmox_hypervisor(false))) {
        Err(e) => e,
        Ok(_) => panic!("expected an error"),
    };
    assert_eq!(err, "Hypervisor 'lab' is type proxmox but has no [proxmox] section");
    let d2 = bare_deployment(Some(HypervisorRef { hypervisor_ref: "lab".to_string(), vm: None }));
    let err2 = match resolve_proxmox_config(&d2, Some(&proxmox_hypervisor(true))) {
        Err(e) => e,
        Ok(_) => panic!("expected an error"),
    };
    assert_eq!(err2, "Deployment references hypervisor 'lab' but has no [hypervisor.vm] section");
    let mut kvm = proxmox_hypervisor(true);
    kvm.hypervisor.hypervisor_type = HypervisorType::LinuxKvm;
    assert!(resolve_proxmox_config(&d2, Some(&kvm)).unwrap().is_none());
}

#[test]
fn hypervisor_references_and_names() {
    let d = bare_deployment(Some(HypervisorRef { hypervisor_ref: "lab".to_string(), vm: None }));
    assert!(references_hypervisor(&d, "lab"));
    assert!(!references_hypervisor(&d, "other"));
    assert!(!references_hypervisor(&bare_deployment(None), "lab"));
    assert_eq!(toml_stem("lab.toml").as_deref(), Some("lab"));
    assert_eq!(toml_stem("a.b.toml").as_deref(), Some("a.b"));
    assert_eq!(toml_stem(".toml"), None);
    assert_eq!(toml_stem("lab.txt"), None);
    assert_eq!(hypervisor_file_name("lab"), "lab.toml");
    assert_eq!(build_log_name("2024-01-02T0304"), "build-2024-01-02T0304.log");
    assert_eq!(deployment_not_found("x", "/d/x"), "Deployment 'x' not found at /d/x");
}

#[test]
fn names_come_sorted() {
    let names = vec!["zeta".to_string(), "alpha".to_string(), "mid".to_string()];
    assert_eq!(sorted_names(&names), vec!["alpha", "mid", "zeta"]);
}
