use whoah::parse::zones::{classify_zone, derive_zone_placement, extract_pool_from_path, parse_zoneadm_list, ZoneKind, ZoneStatus};

const REAL_OUTPUT: &str = "\
0:global:running:/::ipkg:shared
780:sidecar_softnpu:running:/sidecar/sidecar_softnpu:aaa:omicron1:excl
781:oxz_switch:running:/zone/oxz_switch:bbb:omicron1:excl
784:oxz_internal_dns_35486e95:running:/pool/ext/af5cfbf7-0f55-4c04/crypt/zone/oxz_internal_dns_35486e95:ccc:omicron1:excl
786:oxz_cockroachdb_22bb5c45:running:/pool/ext/7003baec-20d6-4267/crypt/zone/oxz_cockroachdb_22bb5c45:ddd:omicron1:excl
789:oxz_external_dns_7f2ab990:running:/pool/ext/ae0ac0ee-146c-4212/crypt/zone/oxz_external_dns_7f2ab990:eee:omicron1:excl
790:oxz_crucible_pantry_dbacdf6a:running:/pool/ext/7003baec-20d6-4267/crypt/zone/oxz_crucible_pantry_dbacdf6a:fff:omicron1:excl
793:oxz_crucible_66009ec5:running:/pool/ext/7003baec-20d6-4267/crypt/zone/oxz_crucible_66009ec5:ggg:omicron1:excl
799:oxz_nexus_5eb902a5:running:/pool/ext/af5cfbf7-0f55-4c04/crypt/zone/oxz_nexus_5eb902a5:hhh:omicron1:excl
804:oxz_propolis-server_9be5fc93:running:/pool/ext/af5cfbf7-0f55-4c04/crypt/zone/oxz_propolis-server_9be5fc93:iii:omicron1:excl";

#[test]
fn test_classify_infrastructure() {
    let (kind, name) = classify_zone("sidecar_softnpu");
    assert_eq!(kind, ZoneKind::Infrastructure);
    assert_eq!(name, "sidecar_softnpu");
    let (kind, name) = classify_zone("oxz_switch");
    assert_eq!(kind, ZoneKind::Infrastructure);
    assert_eq!(name, "switch");
}

#[test]
fn test_classify_services() {
    let (kind, name) = classify_zone("oxz_cockroachdb_22bb5c45");
    assert_eq!(kind, ZoneKind::Service);
    assert_eq!(name, "cockroachdb");
    let (kind, name) = classify_zone("oxz_nexus_5eb902a5");
    assert_eq!(kind, ZoneKind::Service);
    assert_eq!(name, "nexus");
    let (kind, name) = classify_zone("oxz_internal_dns_35486e95");
    assert_eq!(kind, ZoneKind::Service);
    assert_eq!(name, "internal_dns");
}

#[test]
fn test_classify_crucible_pantry() {
    let (kind, name) = classify_zone("oxz_crucible_pantry_dbacdf6a");
    assert_eq!(kind, ZoneKind::Service);
    assert_eq!(name, "crucible_pantry");
    let (kind, name) = classify_zone("oxz_crucible_66009ec5");
    assert_eq!(kind, ZoneKind::Service);
    assert_eq!(name, "crucible");
}

#[test]
fn test_classify_instance() {
    let (kind, name) = classify_zone("oxz_propolis-server_9be5fc93");
    assert_eq!(kind, ZoneKind::Instance);
    assert_eq!(name, "propolis-server");
}

#[test]
fn test_parse_real_data() {
    let zones = parse_zoneadm_list(REAL_OUTPUT).unwrap();
    assert_eq!(zones.len(), 9);
    let services: Vec<_> = zones.iter().filter(|z| z.kind == ZoneKind::Service).collect();
    let instances: Vec<_> = zones.iter().filter(|z| z.kind == ZoneKind::Instance).collect();
    let infra: Vec<_> = zones.iter().filter(|z| z.kind == ZoneKind::Infrastructure).collect();
    assert_eq!(services.len(), 6);
    assert_eq!(instances.len(), 1);
    assert_eq!(infra.len(), 2);
    assert_eq!(instances[0].service_name, "propolis-server");
}

#[test]
fn test_placement_includes_services_and_instances() {
    let zones = parse_zoneadm_list(REAL_OUTPUT).unwrap();
    let placement = derive_zone_placement(&zones);
    for (_pool, names) in &placement {
        assert!(!names.contains(&"sidecar_softnpu".to_string()));
        assert!(!names.contains(&"switch".to_string()));
    }
    let all_names: Vec<_> = placement.iter().flat_map(|(_, v)| v.iter()).collect();
    assert!(all_names.contains(&&"crucible_pantry".to_string()));
    assert!(all_names.contains(&&"crucible".to_string()));
    assert!(all_names.contains(&&"propolis-server".to_string()));
}

#[test]
fn zones_test_empty_output() {
    let zones = parse_zoneadm_list("").unwrap();
    assert!(zones.is_empty());
}

#[test]
fn zone_fields_and_pool_extraction() {
    let zones = parse_zoneadm_list(REAL_OUTPUT).unwrap();
    assert_eq!(zones[0].id, Some(780));
    assert_eq!(zones[0].status, ZoneStatus::Running);
    assert_eq!(zones[2].name, "oxz_internal_dns_35486e95");
    assert_eq!(
        extract_pool_from_path("/pool/ext/af5cfbf7-0f55-4c04/crypt/zone/x"),
        Some("oxp_af5cfbf7-0f55-4c04".to_string())
    );
    assert_eq!(extract_pool_from_path("/zone/oxz_switch"), None);
    let placement = derive_zone_placement(&zones);
    assert_eq!(placement[0].0, "oxp_af5cfbf7-0f55-4c04");
    assert_eq!(placement[0].1, vec!["internal_dns".to_string(), "nexus".to_string(), "propolis-server".to_string()]);
}

#[test]
fn zone_line_with_unreadable_id_has_no_id() {
    let zones = parse_zoneadm_list("x:oxz_a:running:/p:u:b:excl\n-:oxz_b:installed:/q:u:b:excl").unwrap();
    assert_eq!(zones.len(), 2);
    assert_eq!(zones[0].id, None);
    assert_eq!(zones[1].id, None);
}
