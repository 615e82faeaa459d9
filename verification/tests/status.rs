use whoah::config::OmicronOverrides;
use whoah::parse::services::ServiceState;
use whoah::parse::zpool::ZpoolInfo;
use whoah::parse::disk::VdevFileInfo;
use whoah::ssh::{failed_output, CommandOutput};
use whoah::status::{
    assemble_status, format_status, gib_rounded, gib_tenths, is_post_reboot,
    is_post_reboot_from_parts, shorten_pool, status_dns_command, status_ping_command,
    ConnectionState, DiskStatus, HostStatus, NetworkStatus, ServiceStatus, StatusOutputs,
    ZoneStatus,
};
use whoah::parse::network::parse_dns_check;

fn ok(stdout: &str) -> CommandOutput {
    CommandOutput { stdout: stdout.to_string(), stderr: String::new(), exit_code: 0 }
}

fn fail(stderr: &str, code: i32) -> CommandOutput {
    CommandOutput { stdout: String::new(), stderr: stderr.to_string(), exit_code: code }
}

fn sample_status() -> HostStatus {
    HostStatus {
        hostname: "192.168.2.209".to_string(),
        connection: ConnectionState::Connected,
        services: ServiceStatus { sled_agent: Some(ServiceState::Online), baseline: Some(ServiceState::Online) },
        zones: ZoneStatus {
            service_counts: vec![("nexus".to_string(), 3), ("cockroachdb".to_string(), 3)],
            expected_services: vec![("nexus".to_string(), 3), ("cockroachdb".to_string(), 3)],
            instance_count: 0,
            zones: vec![],
            placement: vec![],
        },
        disk: DiskStatus {
            rpool: Some(ZpoolInfo {
                name: "rpool".to_string(),
                size_bytes: 267544698880,
                allocated_bytes: 82530148352,
                free_bytes: 185014550528,
                fragmentation_pct: Some(25),
                capacity_pct: 30,
                health: "ONLINE".to_string(),
            }),
            oxp_pools: vec![],
            vdev_files: vec![],
        },
        network: NetworkStatus {
            nexus_reachable: true,
            dns_resolving: true,
            dns_addresses: vec!["192.168.2.72".to_string()],
            simnets_exist: true,
        },
        reboot_detected: false,
    }
}

#[test]
fn test_format_status() {
    let status = sample_status();
    let output = format_status(&status, "test-lab");
    assert!(output.contains("test-lab"));
    assert!(output.contains("nexus"));
    assert!(output.contains("3/3"));
    assert!(output.contains("30%"));
    assert!(output.contains("reachable"));
}

#[test]
fn format_status_exact_report() {
    let mut status = sample_status();
    status.zones.service_counts = vec![("nexus".to_string(), 2), ("switch".to_string(), 1)];
    status.reboot_detected = true;
    status.network.nexus_reachable = false;
    status.disk.vdev_files = vec![VdevFileInfo { path: "/var/tmp/u2_0.vdev".to_string(), size_blocks: 1, size_bytes: 42949672960 }];
    status.zones.placement = vec![
        ("oxp_ffff0000-1111".to_string(), vec!["nexus".to_string()]),
        ("oxp_aaaa".to_string(), vec!["crucible".to_string(), "ntp".to_string()]),
    ];
    let out = format_status(&status, "lab");
    let expected = [
        "lab / 192.168.2.209 (connected)\n",
        "  *** REBOOT DETECTED \u{2014} run 'whoah recover' ***\n",
        "  Services:  sled-agent: online, baseline: online\n",
        "  cockroachdb        0/3 (!)\n",
        "  nexus              2/3 (!)\n",
        "  switch             1\n",
        "             oxp_aaaa: crucible, ntp\n",
        "             oxp_ffff0000...: nexus\n",
        "  rpool:     30% (172 GiB free)\n",
        "  vdevs:     u2_0.vdev: 40.0 GiB\n",
        "  Nexus:     unreachable\n",
        "  DNS:       resolving\n",
    ]
    .concat();
    assert_eq!(out, expected);
}

#[test]
fn gib_rounding_matches_float_formatting() {
    let g = 1_073_741_824u64;
    for &b in &[0u64, 1, g / 2, g / 2 + 1, 3 * g / 2, 5 * g / 2, 185014550528, 24313856 * 512, g / 20, 3 * g / 20, g * 7 / 4] {
        let f = b as f64 / 1_073_741_824.0;
        assert_eq!(gib_rounded(b).to_string(), format!("{:.0}", f), "bytes {b}");
        let t = gib_tenths(b);
        assert_eq!(format!("{}.{}", t / 10, t % 10), format!("{:.1}", f), "bytes {b}");
    }
}

#[test]
fn pool_names_are_shortened() {
    assert_eq!(shorten_pool("oxp_af5cfbf7-0f55-4c04"), "oxp_af5cfbf7...");
    assert_eq!(shorten_pool("oxp_abc"), "oxp_abc");
    assert_eq!(shorten_pool("rpool"), "rpool");
}

#[test]
fn reboot_detection_ignores_baseline() {
    assert!(is_post_reboot_from_parts(false, 5, &None));
    assert!(is_post_reboot_from_parts(true, 0, &Some(ServiceState::Online)));
    assert!(!is_post_reboot_from_parts(true, 3, &Some(ServiceState::Maintenance)));
    assert!(!is_post_reboot_from_parts(true, 3, &Some(ServiceState::Offline)));
    assert!(!is_post_reboot(&sample_status()));
}

fn healthy_outputs() -> StatusOutputs {
    StatusOutputs {
        zpool: ok("rpool\t267544698880\t82530148352\t185014550528\t-\t-\t25\t30\t1.00\tONLINE\t-\n\
                   oxp_aaa\t42949672960\t16267415552\t26682257408\t-\t-\t10\t38\t1.00\tONLINE\t-\n"),
        zones: ok("0:global:running:/::\tipkg:shared\n\
                   1:oxz_cockroachdb_abc123:running:/pool/ext/oxp_aaa/crypt/zone/oxz_cockroachdb_abc123:abc:omicron1:excl\n\
                   2:oxz_nexus_def456:running:/pool/ext/oxp_aaa/crypt/zone/oxz_nexus_def456:def:omicron1:excl\n"),
        svcs: ok("online         svc:/system/sled-agent:default\n\
                  online         svc:/system/omicron/baseline:default\n"),
        vdevs: ok(" 24313856 /var/tmp/u2_0.vdev\n"),
        dns: ok("192.168.2.72\n"),
        ping: ok(""),
        simnet: ok("net0\tnet1\n"),
    }
}

#[test]
fn status_of_a_healthy_host() {
    let status = assemble_status("192.168.2.209", &OmicronOverrides::default(), &healthy_outputs());
    assert!(!status.reboot_detected);
    let total: u32 = status.zones.service_counts.iter().map(|(_, n)| *n).sum();
    assert_eq!(total, 2);
    assert!(status.network.nexus_reachable);
    assert!(status.network.dns_resolving);
    assert!(status.network.simnets_exist);
    assert_eq!(status.disk.rpool.as_ref().unwrap().capacity_pct, 30);
    assert_eq!(status.disk.oxp_pools.len(), 1);
    assert_eq!(status.disk.vdev_files.len(), 1);
    assert_eq!(status.services.sled_agent, Some(ServiceState::Online));
    assert_eq!(status.zones.expected_services.len(), 11);
}

#[test]
fn status_after_a_reboot() {
    let out = StatusOutputs {
        zpool: ok("rpool\t267544698880\t82530148352\t185014550528\t-\t-\t25\t30\t1.00\tONLINE\t-\n"),
        zones: ok("0:global:running:/::\tipkg:shared\n"),
        svcs: ok("offline        svc:/system/sled-agent:default\n"),
        vdevs: fail("No such file", 1),
        dns: ok(""),
        ping: failed_output(),
        simnet: fail("", 1),
    };
    let status = assemble_status("192.168.2.209", &OmicronOverrides::default(), &out);
    assert!(status.reboot_detected);
    assert!(status.zones.service_counts.is_empty());
    assert!(!status.network.nexus_reachable);
    assert!(!status.network.simnets_exist);
    assert_eq!(status.services.sled_agent, Some(ServiceState::Offline));
    assert_eq!(status.services.baseline, None);
}

#[test]
fn status_commands() {
    assert_eq!(status_dns_command(&vec!["10.0.0.1".to_string()]), "dig recovery.sys.oxide.test @10.0.0.1 +short +time=3 +tries=1 2>/dev/null");
    assert_eq!(status_dns_command(&vec![]), "dig recovery.sys.oxide.test @ +short +time=3 +tries=1 2>/dev/null");
    assert_eq!(status_ping_command(&parse_dns_check("")), None);
    assert_eq!(
        status_ping_command(&parse_dns_check("10.9.9.9\n")),
        Some("curl -sf --connect-timeout 3 --max-time 5 http://10.9.9.9/v1/ping 2>/dev/null".to_string())
    );
}

#[test]
fn nexus_counts_as_reachable_only_through_dns() {
    let mut out = healthy_outputs();
    out.dns = ok("");
    let status = assemble_status("192.168.2.209", &OmicronOverrides::default(), &out);
    assert!(!status.network.dns_resolving);
    assert!(!status.network.nexus_reachable);
}
