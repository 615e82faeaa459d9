use whoah::config::{BuildToml, DeploymentConfig, DeploymentMeta, DeploymentToml, IpRange, MonitoringToml, NetworkConfig, NexusConfig};
use whoah::demo::{demo_status, realistic_duration, simulated_step_ms, weight};
use whoah::status::{format_status, is_post_reboot};

fn config() -> DeploymentConfig {
    DeploymentConfig {
        deployment: DeploymentToml {
            deployment: DeploymentMeta { name: "demo".to_string(), description: None },
            hosts: vec![],
            network: NetworkConfig {
                gateway: "192.168.2.1".to_string(),
                external_dns_ips: vec![],
                internal_services_range: IpRange { first: "a".to_string(), last: "b".to_string() },
                infra_ip: "c".to_string(),
                instance_pool_range: IpRange { first: "d".to_string(), last: "e".to_string() },
                ntp_servers: None,
                dns_servers: None,
                external_dns_zone_name: None,
                rack_subnet: None,
                uplink_port_speed: None,
                allowed_source_ips: None,
            },
            nexus: NexusConfig::default(),
            hypervisor: None,
        },
        build: BuildToml::default(),
        monitoring: MonitoringToml::default(),
    }
}

#[test]
fn durations_and_weights() {
    assert_eq!(realistic_duration("build-compile"), 2415);
    assert_eq!(realistic_duration("config-ippool"), 1);
    assert_eq!(realistic_duration("unknown-step"), 5);
    assert_eq!(weight("build-compile"), 15);
    assert_eq!(weight("nope"), 1);
    assert_eq!(simulated_step_ms("deploy-install"), 1750);
}

#[test]
fn demo_status_is_healthy_and_complete() {
    let s = demo_status(&config());
    assert_eq!(s.hostname, "192.168.2.100");
    assert_eq!(s.network.dns_addresses, vec!["192.168.2.40".to_string()]);
    assert_eq!(s.zones.zones.len(), 30);
    assert_eq!(s.zones.zones[0].name, "oxz_clickhouse_00000001");
    assert_eq!(s.zones.zones[0].path, "/pool/ext/af5cfbf7-0f55-4c04-b695-dc5a42f0c06e/crypt/zone/oxz_clickhouse_00000001");
    assert_eq!(s.zones.zones[0].uuid, "00000001-0000-0000-0000-000000000000");
    assert_eq!(s.zones.zones[29].name, "oxz_switch_0000001e");
    assert_eq!(s.zones.placement.len(), 3);
    let placed: usize = s.zones.placement.iter().map(|(_, v)| v.len()).sum();
    assert_eq!(placed, 30);
    assert_eq!(s.disk.oxp_pools[1].capacity_pct, 35);
    assert_eq!(s.disk.oxp_pools[1].allocated_bytes, 42949672960 * 35 / 100);
    assert_eq!(s.disk.vdev_files.len(), 5);
    assert!(!is_post_reboot(&s));
    let report = format_status(&s, "demo");
    assert!(report.contains("crucible           9/9\n"));
    assert!(report.contains("vdevs:     u2_0.vdev: 12.0 GiB, u2_1.vdev: 13.3 GiB"));
}

#[test]
fn demo_zones_spread_evenly_over_pools() {
    let s = demo_status(&config());
    let counts: Vec<usize> = s.zones.placement.iter().map(|(_, v)| v.len()).collect();
    assert_eq!(counts, vec![10, 10, 10]);
    assert_eq!(s.zones.placement[0].0, "oxp_af5cfbf7-0f55-4c04-b695-dc5a42f0c06e");
    assert_eq!(s.zones.placement[2].0, "oxp_c8a24d15-e963-41ab-8f72-3b0c59d8e7a1");
}
