use whoah::config::{DeploymentMeta, DeploymentToml, HostConfig, HostRole, IpRange, NetworkConfig, NexusConfig, HypervisorRef};
use whoah::dashboard::{connection_failed, demo_address, should_poll};
use whoah::loader::referenced_hypervisor;
use whoah::ssh::{MockHost, SessionRegistry};

#[test]
fn registry_tracks_sessions() {
    let mut r = SessionRegistry::new();
    r.register("s1", "me@h", "/tmp/s1".to_string(), String::new(), 1000);
    r.register("s2", "me@g", "/tmp/s2".to_string(), "/tmp/s2.log".to_string(), 2000);
    r.set_label("s1", "Build/pkg-update");
    r.record_command("s1", "uname -a", 1500);
    let paths = r.paths();
    assert_eq!(paths.len(), 2);
    assert_eq!(paths[0], ("s1".to_string(), "/tmp/s1".to_string(), String::new()));
    let snaps = r.all(3000, &vec![true, false], &vec![None, Some("gone".to_string())]);
    assert_eq!(snaps[0].label, "Build/pkg-update");
    assert_eq!(snaps[0].command_count, 1);
    assert_eq!(snaps[0].last_command.as_deref(), Some("uname -a"));
    assert_eq!(snaps[0].uptime, 2000);
    assert!(!snaps[1].socket_exists);
    r.unregister("s1");
    assert_eq!(r.paths().len(), 1);
    r.unregister("missing");
    assert_eq!(r.paths().len(), 1);
}

#[test]
fn mock_failures() {
    let mut m = MockHost::new("h");
    m.add_failure("svcs", "no such service", 1);
    let out = m.execute("svcs -a").unwrap();
    assert_eq!(out.exit_code, 1);
    assert_eq!(out.stderr, "no such service");
}

#[test]
fn polling_and_demo_helpers() {
    assert!(!should_poll(None, 10_000, 10));
    assert!(!should_poll(Some(5_000), 14_999, 10));
    assert!(should_poll(Some(5_000), 15_000, 10));
    assert!(!should_poll(Some(20_000), 10_000, 10));
    assert_eq!(connection_failed("refused"), "SSH connection failed: refused");
    let mut d = DeploymentToml {
        deployment: DeploymentMeta { name: "x".to_string(), description: None },
        hosts: vec![],
        network: NetworkConfig {
            gateway: String::new(),
            external_dns_ips: vec![],
            internal_services_range: IpRange { first: String::new(), last: String::new() },
            infra_ip: String::new(),
            instance_pool_range: IpRange { first: String::new(), last: String::new() },
            ntp_servers: None,
            dns_servers: None,
            external_dns_zone_name: None,
            rack_subnet: None,
            uplink_port_speed: None,
            allowed_source_ips: None,
        },
        nexus: NexusConfig::default(),
        hypervisor: None,
    };
    assert_eq!(demo_address(&d), "192.168.2.100");
    assert_eq!(referenced_hypervisor(&d), None);
    d.hosts.push(("a".to_string(), HostConfig { address: "10.1.1.1".to_string(), ssh_user: "u".to_string(), role: HostRole::Combined, host_type: None, ssh_port: None }));
    assert_eq!(demo_address(&d), "10.1.1.1");
    d.hypervisor = Some(HypervisorRef { hypervisor_ref: "lab".to_string(), vm: None });
    assert_eq!(referenced_hypervisor(&d), Some("lab"));
}
