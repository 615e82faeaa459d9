use whoah::parse::network::{nonempty_trimmed_lines, parse_dns_check, parse_nexus_ping, parse_simnet_check};

#[test]
fn test_nexus_reachable() {
    assert!(parse_nexus_ping(0));
    assert!(!parse_nexus_ping(22));
}

#[test]
fn test_dns_resolving() {
    let result = parse_dns_check("192.168.2.72\n192.168.2.73\n");
    assert!(result.resolved);
    assert_eq!(result.addresses.len(), 2);
}

#[test]
fn test_dns_not_resolving() {
    let result = parse_dns_check("");
    assert!(!result.resolved);
    assert!(result.addresses.is_empty());
}

#[test]
fn test_simnets_exist() {
    assert!(parse_simnet_check(0, "net0\tnet1\n"));
    assert!(!parse_simnet_check(0, ""));
    assert!(!parse_simnet_check(1, ""));
}

#[test]
fn dns_addresses_are_trimmed_and_blank_lines_dropped() {
    let result = parse_dns_check("  10.0.0.1 \n\n 10.0.0.2\n");
    assert_eq!(result.addresses, vec!["10.0.0.1".to_string(), "10.0.0.2".to_string()]);
    assert_eq!(nonempty_trimmed_lines(" a \n\n b"), vec!["a".to_string(), "b".to_string()]);
}

#[test]
fn simnet_whitespace_only_output_is_absent() {
    assert!(!parse_simnet_check(0, "  \n\t\n"));
    assert!(!parse_simnet_check(1, "net0\n"));
}
