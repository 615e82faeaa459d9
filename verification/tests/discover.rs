use whoah::discover::{
    count_vdevs, discovered_config, parse_network_from_rss, parse_rust_constant, vdev_count_or_default,
    vdev_size_from_ls,
};
use whoah::import::{imported_config, parse_network_from_rss as import_parse};

#[test]
fn test_parse_network_from_rss() {
    let toml = r#"
external_dns_ips = ["192.168.2.40", "192.168.2.41"]
external_dns_zone_name = "oxide.test"

[[internal_services_ip_pool_ranges]]
first = "192.168.2.40"
last = "192.168.2.49"

[rack_network_config]
infra_ip_first = "192.168.2.50"
infra_ip_last = "192.168.2.50"
rack_subnet = "fd00:1122:3344:0100::/56"

[[rack_network_config.ports]]
routes = [{nexthop = "192.168.2.1", destination = "0.0.0.0/0"}]
addresses = [{address = "192.168.2.30/24"}]
"#;
    let net = parse_network_from_rss(toml).unwrap();
    assert_eq!(net.gateway, "192.168.2.1");
    assert_eq!(net.external_dns_ips, vec!["192.168.2.40", "192.168.2.41"]);
    assert_eq!(net.internal_services_range.first, "192.168.2.40");
    assert_eq!(net.internal_services_range.last, "192.168.2.49");
    assert_eq!(net.infra_ip, "192.168.2.50");
    assert_eq!(net.external_dns_zone_name.as_deref(), Some("oxide.test"));
    assert_eq!(net.rack_subnet.as_deref(), Some("fd00:1122:3344:0100::/56"));
}

#[test]
fn test_parse_network_minimal() {
    let toml = r#"
[rack_network_config]
infra_ip_first = "10.0.0.1"
"#;
    let net = parse_network_from_rss(toml).unwrap();
    assert_eq!(net.infra_ip, "10.0.0.1");
    assert!(net.external_dns_ips.is_empty());
    assert_eq!(net.internal_services_range.first, "0.0.0.0");
    assert_eq!(net.gateway, "10.0.0.1");
}

#[test]
fn network_instance_pool_from_allowed_sources() {
    let toml = r#"
ntp_servers = ["ntp.example", 3]
[allowed_source_ips]
list = ["10.1.0.1", "10.1.0.2", "10.1.0.9"]
"#;
    let net = parse_network_from_rss(toml).unwrap();
    assert_eq!(net.instance_pool_range.first, "10.1.0.1");
    assert_eq!(net.instance_pool_range.last, "10.1.0.9");
    assert_eq!(net.ntp_servers, Some(vec!["ntp.example".to_string()]));
    assert_eq!(net.dns_servers, None);
    assert_eq!(net.gateway, "0.0.0.0");
}

#[test]
fn import_uses_lab_defaults() {
    let net = import_parse("x = 1\n").unwrap();
    assert_eq!(net.gateway, "192.168.1.1");
    assert_eq!(net.external_dns_ips, vec!["192.168.1.20".to_string()]);
    assert_eq!(net.internal_services_range.last, "192.168.1.29");
    assert_eq!(net.instance_pool_range.last, "192.168.1.40");
    let net = import_parse("[rack_network_config]\ninfra_ip_first = \"10.0.0.7\"\nroutes = [{nexthop = \"10.0.0.1\"}]\n").unwrap();
    assert_eq!(net.gateway, "10.0.0.7");
    let d = imported_config(net, 3, Some(10), None, Some(5));
    assert_eq!(d.omicron_path, "~/omicron");
    assert_eq!(d.storage_buffer_gib, Some(5));
}

#[test]
fn discover_test_count_vdevs() {
    let config = r#"
[data]
vdevs = [
    "/var/tmp/u2_0.vdev",
    "/var/tmp/u2_1.vdev",
    "/var/tmp/u2_2.vdev",
]
"#;
    assert_eq!(count_vdevs(config), 3);
}

#[test]
fn import_test_count_vdevs() {
    let config = r#"
[data]
vdevs = [
    "/var/tmp/u2_0.vdev",
    "/var/tmp/u2_1.vdev",
    "/var/tmp/u2_2.vdev",
]
"#;
    assert_eq!(count_vdevs(config), 3);
}

#[test]
fn test_count_vdevs_empty() {
    assert_eq!(count_vdevs(""), 0);
}

#[test]
fn discover_test_parse_rust_constant_assignment() {
    assert_eq!(parse_rust_constant("pub const COCKROACHDB_REDUNDANCY: usize = 3;"), Some(3));
}

#[test]
fn discover_test_parse_rust_constant_function_call() {
    assert_eq!(parse_rust_constant("    ByteCount::from_gibibytes_u32(5);"), Some(5));
}

#[test]
fn discover_test_parse_rust_constant_empty() {
    assert_eq!(parse_rust_constant(""), None);
}

#[test]
fn import_test_parse_rust_constant_assignment() {
    assert_eq!(parse_rust_constant("pub const COCKROACHDB_REDUNDANCY: usize = 3;"), Some(3));
}

#[test]
fn import_test_parse_rust_constant_function_call() {
    assert_eq!(parse_rust_constant("    ByteCount::from_gibibytes_u32(5);"), Some(5));
}

#[test]
fn import_test_parse_rust_constant_empty() {
    assert_eq!(parse_rust_constant(""), None);
}

#[test]
fn rust_constant_edge_cases() {
    assert_eq!(parse_rust_constant("const X: u32 = 7;;;"), Some(7));
    assert_eq!(parse_rust_constant("let y = f(12);"), Some(12));
    assert_eq!(parse_rust_constant("a ) b ( 3"), None);
    assert_eq!(parse_rust_constant("const BIG: u64 = 5000000000;"), None);
    assert_eq!(parse_rust_constant("   \n"), None);
}

#[test]
fn discovery_reads() {
    assert_eq!(vdev_count_or_default(None), 3);
    assert_eq!(vdev_count_or_default(Some("a.vdev\nb\n")), 1);
    assert_eq!(vdev_size_from_ls(" 42949672960\n"), Some(42949672960));
    assert_eq!(vdev_size_from_ls(""), None);
    let net = parse_network_from_rss("a = 1").unwrap();
    let d = discovered_config(net, 3, None, Some(5), None);
    assert_eq!(d.overrides.vdev_count, Some(3));
    assert_eq!(d.overrides.cockroachdb_redundancy, Some(5));
    assert_eq!(d.omicron_path, "~/omicron");
}

#[test]
fn rss_parse_error_is_reported() {
    let e = match parse_network_from_rss("[rack_network_config\ninfra_ip_first = 1") {
        Err(e) => e,
        Ok(_) => panic!("a broken table header must be refused"),
    };
    assert!(e.starts_with("Failed to parse config-rss.toml: "));
    assert!(e.len() > "Failed to parse config-rss.toml: ".len());
    let e = match import_parse("= nope") {
        Err(e) => e,
        Ok(_) => panic!("a key-less line must be refused"),
    };
    assert!(e.starts_with("Failed to parse config-rss.toml: "));
}
