use whoah::config::{IpRange, NetworkConfig};
use whoah::import::DiscoveredConfig;
use whoah::init::{
    build_config_from_discovered, check_new_name, import_target, should_become_default,
    wizard_config, WizardAnswers,
};

fn network() -> NetworkConfig {
    NetworkConfig {
        gateway: "192.168.2.1".to_string(),
        external_dns_ips: vec!["192.168.2.70".to_string()],
        internal_services_range: IpRange { first: "192.168.2.70".to_string(), last: "192.168.2.79".to_string() },
        infra_ip: "192.168.2.80".to_string(),
        instance_pool_range: IpRange { first: "192.168.2.81".to_string(), last: "192.168.2.90".to_string() },
        ntp_servers: None,
        dns_servers: None,
        external_dns_zone_name: None,
        rack_subnet: None,
        uplink_port_speed: None,
        allowed_source_ips: None,
    }
}

#[test]
fn wizard_answers_make_a_deployment() {
    let a = WizardAnswers {
        name: "helios-lab".to_string(),
        address: "192.168.2.209".to_string(),
        ssh_user: "me".to_string(),
        gateway: "192.168.2.1".to_string(),
        dns_ips: "192.168.2.70, 192.168.2.71".to_string(),
        services_first: "192.168.2.70".to_string(),
        services_last: "192.168.2.79".to_string(),
        infra_ip: "192.168.2.80".to_string(),
        pool_first: "192.168.2.81".to_string(),
        pool_last: "192.168.2.90".to_string(),
        vdev_count: 3,
        crdb_redundancy: 3,
        storage_buffer: 5,
    };
    let c = wizard_config(a);
    assert_eq!(c.deployment.deployment.name, "helios-lab");
    assert_eq!(c.deployment.deployment.description.as_deref(), Some("Created by whoah init"));
    assert_eq!(c.deployment.hosts.len(), 1);
    assert_eq!(c.deployment.hosts[0].0, "helios-lab");
    assert_eq!(c.deployment.hosts[0].1.ssh_user, "me");
    assert_eq!(c.deployment.network.external_dns_ips, vec!["192.168.2.70", "192.168.2.71"]);
    assert_eq!(c.build.omicron.repo_path, "~/omicron");
    assert_eq!(c.build.omicron.rust_toolchain.as_deref(), Some("1.91.1"));
    assert_eq!(c.build.omicron.overrides.vdev_size_bytes, Some(42949672960));
    assert_eq!(c.build.omicron.overrides.control_plane_storage_buffer_gib, Some(5));
    assert!(c.deployment.hypervisor.is_none());
}

#[test]
fn imported_deployment() {
    let d = DiscoveredConfig {
        network: network(),
        vdev_count: 4,
        vdev_size_bytes: Some(1 << 30),
        cockroachdb_redundancy: None,
        storage_buffer_gib: Some(7),
        omicron_path: "~/omicron".to_string(),
    };
    let c = build_config_from_discovered("lab", "10.0.0.5", "root", d);
    assert_eq!(c.deployment.deployment.description.as_deref(), Some("Imported from 10.0.0.5"));
    assert_eq!(c.deployment.hosts[0].1.address, "10.0.0.5");
    assert_eq!(c.build.omicron.overrides.vdev_count, Some(4));
    assert_eq!(c.build.omicron.overrides.cockroachdb_redundancy, None);
    assert_eq!(c.deployment.network.gateway, "192.168.2.1");
}

#[test]
fn names_and_targets() {
    let existing = vec!["lab".to_string()];
    assert_eq!(
        check_new_name("lab", &existing).unwrap_err(),
        "Deployment 'lab' already exists. Remove ~/.whoah/deployments/lab/ first."
    );
    assert!(check_new_name("new", &existing).is_ok());
    assert_eq!(import_target("me@10.0.0.5"), Some(("me".to_string(), "10.0.0.5".to_string())));
    assert_eq!(import_target("a@b@c"), Some(("a".to_string(), "b@c".to_string())));
    assert_eq!(import_target("10.0.0.5"), None);
    assert!(should_become_default(1));
    assert!(!should_become_default(2));
}
