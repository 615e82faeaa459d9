use whoah::discover::{tget, tstr_or, tstrings, TomlValue};
use whoah::order::{insert_ascending, str_lt};
use whoah::parse::network::DnsResult;
use whoah::proxmox::{parse_failed, vms_from, FieldStatus, QemuVmInfo};
use whoah::recover::{
    baseline_query, baseline_timeout, destroy_vhw_command, step_intro, sum_counts, verify_report,
    zones_timeout, RecoveryParams, RecoveryStep,
};
use whoah::ssh::log_tail;
use whoah::text::{
    join_exec, parse_i64_exec, parse_u32, parse_u64, parse_u8, split_whitespace_exec, str_eq,
    to_chars, trim_chars,
};

fn params() -> RecoveryParams {
    RecoveryParams {
        gateway: "192.168.2.1".to_string(),
        pxa_start: "192.168.2.70".to_string(),
        pxa_end: "192.168.2.90".to_string(),
        vdev_size_bytes: 42949672960,
        omicron_path: "~/omicron".to_string(),
        expected_service_total: 21,
        dns_ip: "192.168.2.70".to_string(),
        nexus_ip: "192.168.2.72".to_string(),
    }
}

#[test]
fn recovery_texts() {
    assert_eq!(baseline_query(), "svcs -H -o state omicron/baseline 2>/dev/null");
    assert_eq!(
        destroy_vhw_command(&params()),
        "cd ~/omicron && source env.sh && pfexec cargo xtask virtual-hardware destroy 2>&1"
    );
    assert_eq!(step_intro(RecoveryStep::DestroyVirtualHw), Some(("Destroying virtual hardware...", 3)));
    assert_eq!(step_intro(RecoveryStep::Verify), None);
    assert_eq!(baseline_timeout(120), "Timed out waiting for omicron/baseline service (120s)");
    assert_eq!(zones_timeout(600, 21), "Timed out waiting for zones (600s). Expected 21 zones.");
    let dns = DnsResult { resolved: true, addresses: vec!["a".to_string(), "b".to_string()] };
    let r = verify_report(&dns, "a", false, " online\n");
    assert_eq!(r, vec![
        "DNS: resolving (a, b)".to_string(),
        "Nexus: unreachable at a (may need more time to start)".to_string(),
        "sled-agent: online".to_string(),
    ]);
    let none = DnsResult { resolved: false, addresses: vec![] };
    assert_eq!(verify_report(&none, "x", true, "")[0], "DNS: not resolving (may need more time)");
    assert_eq!(sum_counts(&vec![("a".to_string(), 2), ("b".to_string(), 5)]), 7);
}

#[test]
fn proxmox_small_pieces() {
    match parse_failed("bad json") {
        FieldStatus::Invalid(m) => assert_eq!(m, "parse error: bad json"),
        _ => panic!("expected an invalid field"),
    }
    let vms = vms_from(&vec![QemuVmInfo { vmid: 302, name: "helios".to_string(), status: "running".to_string() }]);
    assert_eq!(vms.len(), 1);
    assert_eq!((vms[0].vmid, vms[0].name.as_str()), (302, "helios"));
}

#[test]
fn text_primitives() {
    let v = to_chars("  a b  ");
    let t: String = trim_chars(&v).iter().collect();
    assert_eq!(t, "a b");
    let w = split_whitespace_exec(&v);
    assert_eq!(w.len(), 2);
    assert_eq!(parse_u8(&to_chars("255")), Some(255));
    assert_eq!(parse_u8(&to_chars("256")), None);
    assert_eq!(parse_u32(&to_chars("+7")), Some(7));
    assert_eq!(parse_u64(&to_chars("")), None);
    assert_eq!(parse_i64_exec(&to_chars("-9223372036854775808")), Some(i64::MIN));
    assert_eq!(parse_i64_exec(&to_chars("-")), None);
    assert!(str_eq("x", "x"));
    assert_eq!(join_exec(&vec!["a".to_string(), "b".to_string()], ", "), "a, b");
    assert!(str_lt("abc", "abd"));
    assert!(!str_lt("b", "a"));
    let mut names = vec!["a".to_string(), "c".to_string()];
    insert_ascending(&mut names, "b");
    insert_ascending(&mut names, "a");
    assert_eq!(names, vec!["a", "b", "c"]);
    assert_eq!(log_tail("1\n2\n3\n", 2).as_deref(), Some("2\n3"));
    assert_eq!(log_tail("", 2), None);
}

#[test]
fn toml_lookups() {
    let t = TomlValue::Table(vec![
        ("name".to_string(), TomlValue::String("x".to_string())),
        ("ips".to_string(), TomlValue::Array(vec![TomlValue::String("1".to_string()), TomlValue::Integer(2)])),
    ]);
    assert_eq!(tstr_or(tget(Some(&t), "name"), "d"), "x");
    assert_eq!(tstr_or(tget(Some(&t), "missing"), "d"), "d");
    assert_eq!(tstrings(tget(Some(&t), "ips")), Some(vec!["1".to_string()]));
}
