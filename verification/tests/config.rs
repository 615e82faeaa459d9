use whoah::config::{
    derive_expected_zones, BuildToml, DeploymentState, HostConfig, HostRole, MonitoringToml,
    OmicronOverrides,
};

#[test]
fn test_monitoring_defaults() {
    let m = MonitoringToml::default();
    assert_eq!(m.thresholds.rpool_warning_percent, 85);
    assert_eq!(m.thresholds.rpool_critical_percent, 92);
    assert_eq!(m.thresholds.vdev_warning_gib, 35);
    assert_eq!(m.polling.status_interval_secs, 10);
    assert_eq!(m.polling.disk_interval_secs, 30);
}

#[test]
fn test_build_defaults() {
    let b = BuildToml::default();
    assert_eq!(b.omicron.repo_path, "~/omicron");
    assert!(b.omicron.repo_url.is_none());
    assert!(b.omicron.git_ref.is_none());
    assert!(b.propolis.is_none());
}

#[test]
fn test_deployment_state_default() {
    let state = DeploymentState::default();
    assert!(state.drift.is_none());
}

#[test]
fn host_ssh_port_defaults_to_22() {
    let h = HostConfig {
        address: "10.0.0.1".to_string(),
        ssh_user: "u".to_string(),
        role: HostRole::Combined,
        host_type: None,
        ssh_port: None,
    };
    assert_eq!(h.ssh_port(), 22);
    let h2 = HostConfig { ssh_port: Some(2222), ..h };
    assert_eq!(h2.ssh_port(), 2222);
}

#[test]
fn expected_zones_follow_overrides() {
    let z = derive_expected_zones(&OmicronOverrides::default());
    let total: u32 = z.iter().map(|(_, n)| *n).sum();
    assert_eq!(total, 30);
    assert_eq!(z[1], ("cockroachdb".to_string(), 5));
    assert_eq!(z[2], ("crucible".to_string(), 9));
    let o = OmicronOverrides { cockroachdb_redundancy: Some(3), vdev_count: Some(3), ..OmicronOverrides::default() };
    let total: u32 = derive_expected_zones(&o).iter().map(|(_, n)| *n).sum();
    assert_eq!(total, 22);
}
