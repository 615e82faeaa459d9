use whoah::parse::services::{parse_svcs, ServiceState};

#[test]
fn test_parse_svcs() {
    let output = "online         svc:/system/sled-agent:default\n\
                   online         svc:/system/omicron/baseline:default\n";
    let svcs = parse_svcs(output).unwrap();
    assert_eq!(svcs.len(), 2);
    assert_eq!(svcs[0].state, ServiceState::Online);
    assert!(svcs[0].fmri.contains("sled-agent"));
    assert_eq!(svcs[1].state, ServiceState::Online);
}

#[test]
fn test_maintenance_state() {
    let output = "maintenance    svc:/system/sled-agent:default\n";
    let svcs = parse_svcs(output).unwrap();
    assert_eq!(svcs[0].state, ServiceState::Maintenance);
}

#[test]
fn test_transitioning_state() {
    let output = "online*        svc:/system/sled-agent:default\n";
    let svcs = parse_svcs(output).unwrap();
    assert_eq!(svcs[0].state, ServiceState::Online);
}

#[test]
fn services_unknown_state_and_short_lines() {
    let svcs = parse_svcs("weird svc:/a\nlonely\n\n").unwrap();
    assert_eq!(svcs.len(), 1);
    assert_eq!(svcs[0].state, ServiceState::Unknown("weird".to_string()));
    assert_eq!(ServiceState::from_state("disabled"), ServiceState::Disabled);
    assert_eq!(ServiceState::Offline.to_text(), "offline");
}
