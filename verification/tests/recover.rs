use whoah::config::{
    BuildToml, DeploymentConfig, DeploymentMeta, DeploymentToml, HostConfig, HostRole, IpRange,
    MonitoringToml, NetworkConfig, NexusConfig, OmicronBuildConfig, OmicronOverrides,
};
use whoah::parse::network::parse_dns_check;
use whoah::parse::zones::parse_zoneadm_list;
use whoah::recover::{
    baseline_online, baseline_report, count_running_services, create_vhw_command,
    detect_workaround, dns_check_command, failure_message, install_command, nexus_address,
    nexus_ping_command, step_command_error, step_finished, step_gate, tail_lines, uninstall_command,
    zones_ready, RecoveryConfigError, RecoveryEvent, RecoveryParams, RecoveryStep, Workaround,
};

fn sample_config() -> DeploymentConfig {
    DeploymentConfig {
        deployment: DeploymentToml {
            deployment: DeploymentMeta { name: "test-lab".to_string(), description: None },
            hosts: vec![(
                "helios01".to_string(),
                HostConfig {
                    address: "192.168.2.209".to_string(),
                    ssh_user: "testuser".to_string(),
                    role: HostRole::Combined,
                    host_type: None,
                    ssh_port: None,
                },
            )],
            network: NetworkConfig {
                gateway: "192.168.2.1".to_string(),
                external_dns_ips: vec!["192.168.2.70".to_string()],
                internal_services_range: IpRange {
                    first: "192.168.2.70".to_string(),
                    last: "192.168.2.79".to_string(),
                },
                infra_ip: "192.168.2.80".to_string(),
                instance_pool_range: IpRange {
                    first: "192.168.2.81".to_string(),
                    last: "192.168.2.90".to_string(),
                },
                ntp_servers: None,
                dns_servers: None,
                external_dns_zone_name: None,
                rack_subnet: None,
                uplink_port_speed: None,
                allowed_source_ips: None,
            },
            nexus: NexusConfig::default(),
            hypervisor: None,
        },
        build: BuildToml {
            omicron: OmicronBuildConfig {
                overrides: OmicronOverrides {
                    cockroachdb_redundancy: Some(3),
                    vdev_count: Some(3),
                    ..Default::default()
                },
                ..Default::default()
            },
            ..Default::default()
        },
        monitoring: MonitoringToml::default(),
    }
}

#[test]
fn test_recovery_params_from_config() {
    let config = sample_config();
    let params = RecoveryParams::from_config(&config).unwrap();
    assert_eq!(params.gateway, "192.168.2.1");
    assert_eq!(params.pxa_start, "192.168.2.70");
    assert_eq!(params.pxa_end, "192.168.2.90");
    assert_eq!(params.vdev_size_bytes, 42949672960);
    assert_eq!(params.expected_service_total, 22);
}

#[test]
fn recovery_params_need_an_external_dns_address() {
    let mut config = sample_config();
    config.deployment.network.external_dns_ips.clear();
    assert!(matches!(RecoveryParams::from_config(&config), Err(RecoveryConfigError::NoExternalDns)));
}

#[test]
fn test_recovery_step_ordering() {
    let steps = RecoveryStep::all();
    assert_eq!(steps.len(), 7);
    assert_eq!(steps[0], RecoveryStep::WaitForBaseline);
    assert_eq!(steps[6], RecoveryStep::Verify);
    for (i, step) in steps.iter().enumerate() {
        assert_eq!(step.index(), i);
    }
    assert_eq!(RecoveryStep::total_count(), 7);
}

#[test]
fn test_detect_workaround_softnpu() {
    let w = detect_workaround(RecoveryStep::DestroyVirtualHw, "failed to destroy: softnpu zone still running");
    assert!(matches!(w, Some(Workaround::ForceUninstallSoftNpu)));
}

#[test]
fn test_detect_workaround_stale_zpools() {
    let w = detect_workaround(RecoveryStep::CreateVirtualHw, "Error: UnexpectedUuid zpool mismatch");
    assert!(matches!(w, Some(Workaround::DestroyStaleZpools)));
}

#[test]
fn test_detect_workaround_none() {
    let w = detect_workaround(RecoveryStep::Verify, "some random error");
    assert!(w.is_none());
}

#[test]
fn ownership_failures_point_to_chown() {
    let w = detect_workaround(RecoveryStep::Install, "directory owned by root");
    assert_eq!(w, Some(Workaround::FixOwnership));
    assert_eq!(w.unwrap().description(), "Fix ownership of build dirs (pfexec chown), then retry");
    assert_eq!(detect_workaround(RecoveryStep::Install, "zpool"), None);
}

#[test]
fn labels_and_durations() {
    assert_eq!(RecoveryStep::MonitorZones.label(), "Monitor zone startup");
    assert_eq!(RecoveryStep::MonitorZones.estimated_duration(), 360);
    let total: u64 = RecoveryStep::all().iter().map(|s| s.estimated_duration()).sum();
    assert_eq!(total, 545);
}

#[test]
fn steps_run_in_order_until_a_failure() {
    let mut step = RecoveryStep::WaitForBaseline;
    let mut seen = vec![step];
    loop {
        let (ev, next) = step_finished(step, 5, None);
        assert!(matches!(ev, RecoveryEvent::StepCompleted(s, 5) if s == step));
        match next {
            Some(n) => {
                seen.push(n);
                step = n;
            }
            None => break,
        }
    }
    assert_eq!(seen, RecoveryStep::all());
    let (ev, next) = step_finished(RecoveryStep::CreateVirtualHw, 1, Some("oxp_ pool exists"));
    assert!(next.is_none());
    match ev {
        RecoveryEvent::StepFailed { step, error, workaround } => {
            assert_eq!(step, RecoveryStep::CreateVirtualHw);
            assert_eq!(error, "oxp_ pool exists");
            assert_eq!(workaround, Some(Workaround::DestroyStaleZpools));
        }
        _ => panic!("expected a failure"),
    }
}

#[test]
fn recovery_commands() {
    let params = RecoveryParams::from_config(&sample_config()).unwrap();
    assert_eq!(
        uninstall_command(&params),
        "cd ~/omicron && source env.sh && echo 'y' | pfexec ./target/release/omicron-package uninstall 2>&1"
    );
    assert_eq!(
        create_vhw_command(&params),
        "cd ~/omicron && source env.sh && pfexec cargo xtask virtual-hardware create --gateway-ip 192.168.2.1 --pxa-start 192.168.2.70 --pxa-end 192.168.2.90 --vdev-size 42949672960 2>&1"
    );
    assert_eq!(install_command(&params), "cd ~/omicron && source env.sh && pfexec ./target/release/omicron-package install 2>&1");
    assert_eq!(dns_check_command(&params), "dig recovery.sys.oxide.test @192.168.2.70 +short +time=3 +tries=1 2>/dev/null");
    assert_eq!(nexus_ping_command("10.0.0.5"), "curl -sf --connect-timeout 3 --max-time 5 http://10.0.0.5/v1/ping 2>/dev/null");
    assert_eq!(nexus_address(&parse_dns_check("10.1.1.1\n"), &params), "10.1.1.1");
    assert_eq!(nexus_address(&parse_dns_check(""), &params), "192.168.2.70");
}

#[test]
fn step_output_is_read() {
    assert!(baseline_online(" online\n"));
    assert!(!baseline_online("offline"));
    assert_eq!(baseline_report("online\n"), "baseline: online");
    assert_eq!(tail_lines("a\nb\nc\nd\n", 2), vec!["c".to_string(), "d".to_string()]);
    assert_eq!(tail_lines("a\n", 5), vec!["a".to_string()]);
    assert_eq!(failure_message("x", -2, "e1\ne2\n", "unknown error"), "x failed (exit -2): e2");
    assert_eq!(
        step_command_error(RecoveryStep::Install, 1, ""),
        Some("omicron-package install failed (exit 1): unknown error".to_string())
    );
    assert_eq!(
        step_command_error(RecoveryStep::Uninstall, 3, ""),
        Some("omicron-package uninstall failed (exit 3): ".to_string())
    );
    assert_eq!(step_command_error(RecoveryStep::Install, 0, "boom"), None);
}

#[test]
fn running_services_are_counted() {
    let out = "1:oxz_nexus_1:running:/pool/ext/a-b-c-d-e/crypt/zone/x:u:omicron1:excl\n2:oxz_switch:running:/zone/oxz_switch:u:omicron1:excl\n3:oxz_ntp_2:installed:/z:u:omicron1:excl\n";
    let zones = parse_zoneadm_list(out).unwrap();
    assert_eq!(count_running_services(&zones), 1);
    assert!(zones_ready(1, 1));
    assert!(!zones_ready(0, 1));
}

#[test]
fn cancelled_recovery_starts_no_step() {
    match step_gate(true, RecoveryStep::Install) {
        Err(e) => assert_eq!(e, "Recovery cancelled"),
        Ok(_) => panic!("a cancelled run must not start a step"),
    }
    match step_gate(false, RecoveryStep::Install) {
        Ok(RecoveryEvent::StepStarted(s)) => assert_eq!(s, RecoveryStep::Install),
        _ => panic!("a running recovery announces its step"),
    }
}
