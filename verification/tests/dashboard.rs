use whoah::config::{DeploymentMeta, DeploymentToml, IpRange, NetworkConfig, NexusConfig};
use whoah::action::{Action, EventResult, Screen};
use whoah::cli::{
    connecting_message, derived_lines, event_output, first_host, healthy_message, log_filter,
    mode_of, Cli, Command, ConfigArgs, ConfigCommand, EventOutput, InitArgs, Mode,
};
use whoah::config::{HostConfig, HostRole, OmicronOverrides, Thresholds};
use whoah::dashboard::{
    alert_for_status, build_key, config_key_fallback, debug_key, global_key, monitor_key,
    route_key, status_summary, AlertChange, Dashboard, FocusedPanel, Key, MonitorMode,
    ScrollTarget,
};
use whoah::monitor::Severity;
use whoah::parse::zpool::ZpoolInfo;
use whoah::pipeline::build_deploy_pipeline;
use whoah::recover::{RecoveryEvent, RecoveryStep, Workaround};
use whoah::status::{ConnectionState, DiskStatus, HostStatus, NetworkStatus, ServiceStatus, ZoneStatus};

fn status(reboot: bool, rpool_pct: Option<u8>) -> HostStatus {
    HostStatus {
        hostname: "h".to_string(),
        connection: ConnectionState::Connected,
        services: ServiceStatus { sled_agent: None, baseline: None },
        zones: ZoneStatus {
            service_counts: vec![("nexus".to_string(), 3), ("ntp".to_string(), 1)],
            expected_services: vec![],
            instance_count: 0,
            zones: vec![],
            placement: vec![],
        },
        disk: DiskStatus {
            rpool: rpool_pct.map(|p| ZpoolInfo {
                name: "rpool".to_string(),
                size_bytes: 100,
                allocated_bytes: p as u64,
                free_bytes: 100 - p as u64,
                fragmentation_pct: None,
                capacity_pct: p,
                health: "ONLINE".to_string(),
            }),
            oxp_pools: vec![],
            vdev_files: vec![],
        },
        network: NetworkStatus {
            nexus_reachable: true,
            dns_resolving: true,
            dns_addresses: vec![],
            simnets_exist: true,
        },
        reboot_detected: reboot,
    }
}

fn dashboard() -> Dashboard {
    Dashboard {
        screen: Screen::Config,
        monitor_mode: MonitorMode::Dashboard,
        focused: FocusedPanel::Status,
        should_quit: false,
        needs_reconnect: false,
        pipeline: build_deploy_pipeline(),
        thresholds: Thresholds::default(),
        last_status_log: None,
    }
}

fn action_of(r: EventResult) -> Option<Option<Action>> {
    match r {
        EventResult::Ignored => None,
        EventResult::Consumed(a) => Some(a),
    }
}

#[test]
fn global_shortcuts() {
    assert!(matches!(global_key(Screen::Build, Key::Char('q')), Some(Action::Quit)));
    assert!(matches!(global_key(Screen::Build, Key::Char('1')), Some(Action::SwitchScreen(Screen::Build))));
    assert!(matches!(global_key(Screen::Build, Key::Char('2')), Some(Action::SwitchScreen(Screen::Config))));
    assert!(matches!(global_key(Screen::Build, Key::Char('3')), Some(Action::SwitchScreen(Screen::Monitor))));
    assert!(matches!(global_key(Screen::Build, Key::Char('d')), Some(Action::SwitchScreen(Screen::Debug))));
    assert!(global_key(Screen::Debug, Key::Char('d')).is_none());
    assert!(global_key(Screen::Build, Key::Char('x')).is_none());
}

#[test]
fn ctrl_c_always_quits() {
    let taken = build_key(Key::Char('c'));
    assert!(matches!(route_key(true, Key::Char('c'), Screen::Build, taken), Some(Action::Quit)));
    let b = build_key(Key::Char('b'));
    assert!(matches!(route_key(false, Key::Char('b'), Screen::Build, b), Some(Action::StartBuild)));
    let tab = build_key(Key::Tab);
    assert!(route_key(false, Key::Tab, Screen::Build, tab).is_none());
    let esc = build_key(Key::Esc);
    assert!(route_key(false, Key::Esc, Screen::Build, esc).is_none());
}

#[test]
fn monitor_keys_by_mode() {
    let mut mode = MonitorMode::Dashboard;
    assert!(matches!(action_of(monitor_key(&mut mode, Key::Tab)), Some(Some(Action::FocusNext))));
    assert!(matches!(action_of(monitor_key(&mut mode, Key::Char('r'))), Some(Some(Action::StartRecovery))));
    assert!(action_of(monitor_key(&mut mode, Key::Esc)).is_none());
    let mut rec = MonitorMode::Recovery;
    assert!(matches!(action_of(monitor_key(&mut rec, Key::Char('j'))), Some(Some(Action::ScrollDown))));
    assert!(matches!(action_of(monitor_key(&mut rec, Key::Esc)), Some(None)));
    assert_eq!(rec, MonitorMode::Dashboard);
}

#[test]
fn debug_and_config_keys() {
    assert!(matches!(action_of(debug_key(Key::Esc)), Some(Some(Action::SwitchScreen(Screen::Monitor)))));
    assert!(matches!(action_of(debug_key(Key::Char('r'))), Some(None)));
    assert!(matches!(action_of(debug_key(Key::Up)), Some(Some(Action::ScrollUp))));
    assert!(matches!(action_of(config_key_fallback(Key::Esc)), Some(Some(Action::SwitchScreen(Screen::Monitor)))));
    assert!(action_of(config_key_fallback(Key::Char('q'))).is_none());
}

#[test]
fn alerts_follow_thresholds() {
    let t = Thresholds::default();
    match alert_for_status(&status(true, Some(10)), &t) {
        AlertChange::Show(Severity::Critical, m) => assert_eq!(m, "Reboot detected. Press [r] to start recovery."),
        _ => panic!("expected a critical alert"),
    }
    match alert_for_status(&status(false, Some(96)), &t) {
        AlertChange::Show(Severity::Critical, m) => assert_eq!(m, "rpool at 96% \u{2014} critical!"),
        _ => panic!("expected a critical alert"),
    }
    match alert_for_status(&status(false, Some(85)), &t) {
        AlertChange::Show(Severity::Warning, m) => assert_eq!(m, "rpool at 85% \u{2014} approaching limit"),
        _ => panic!("expected a warning"),
    }
    assert!(matches!(alert_for_status(&status(false, Some(10)), &t), AlertChange::Clear));
    assert!(matches!(alert_for_status(&status(false, None), &t), AlertChange::Keep));
}

#[test]
fn status_line_logged_once() {
    assert_eq!(status_summary(&status(false, Some(42))), "Status: 4 zones, rpool 42%");
    let mut d = dashboard();
    let e = d.handle_action(Action::UpdateStatus(Box::new(status(false, Some(42)))));
    assert_eq!(e.log.as_deref(), Some("Status: 4 zones, rpool 42%"));
    let e2 = d.handle_action(Action::UpdateStatus(Box::new(status(false, Some(42)))));
    assert!(e2.log.is_none());
    assert!(e2.status_update);
}

#[test]
fn actions_change_the_dashboard() {
    let mut d = dashboard();
    d.needs_reconnect = true;
    let e = d.handle_action(Action::SwitchScreen(Screen::Monitor));
    assert!(e.reconnect);
    assert!(!d.needs_reconnect);
    assert_eq!(d.screen, Screen::Monitor);
    let e = d.handle_action(Action::ScrollDown);
    assert_eq!(e.scroll, Some((ScrollTarget::StatusPanel, true)));
    d.handle_action(Action::FocusNext);
    assert_eq!(d.focused, FocusedPanel::Disk);
    let e = d.handle_action(Action::StartBuild);
    assert!(e.spawn_build);
    assert_eq!(d.screen, Screen::Build);
    let e = d.handle_action(Action::StartRecovery);
    assert!(e.start_recovery);
    assert_eq!(d.monitor_mode, MonitorMode::Recovery);
    let e = d.handle_action(Action::RecoveryProgress(RecoveryEvent::RecoveryComplete(5000)));
    assert!(e.poll_status && e.recovery_update);
    d.handle_action(Action::Quit);
    assert!(d.should_quit);
}

#[test]
fn log_filters_by_verbosity() {
    assert_eq!(log_filter(0), "whoah_cli=info");
    assert_eq!(log_filter(1), "whoah_cli=debug");
    assert_eq!(log_filter(5), "whoah_cli=trace");
}

#[test]
fn commands_select_modes() {
    let cli = |command| Cli { command, deployment: None, verbose: 0 };
    assert_eq!(mode_of(&cli(None)), Mode::Dashboard);
    assert_eq!(mode_of(&cli(Some(Command::Status))), Mode::Status);
    assert_eq!(mode_of(&cli(Some(Command::Recover))), Mode::Recover);
    assert_eq!(mode_of(&cli(Some(Command::Init(InitArgs { import: None })))), Mode::Init);
    assert_eq!(
        mode_of(&cli(Some(Command::Config(ConfigArgs { command: ConfigCommand::Show })))),
        Mode::ConfigShow
    );
}

#[test]
fn headless_messages() {
    let h = HostConfig {
        address: "10.0.0.5".to_string(),
        ssh_user: "me".to_string(),
        role: HostRole::Combined,
        host_type: None,
        ssh_port: None,
    };
    assert_eq!(connecting_message(&h), "Connecting to me@10.0.0.5...");
    assert_eq!(
        healthy_message(21),
        "System appears healthy (21 zones running, simnets present). Recovery not needed."
    );
}

#[test]
fn recovery_progress_lines() {
    let first = RecoveryStep::all()[0];
    match &event_output(&RecoveryEvent::StepStarted(first))[0] {
        EventOutput::Line(l) => assert_eq!(l, &format!("[1/{}] {} ...", RecoveryStep::total_count(), first.label())),
        _ => panic!("expected a line"),
    }
    match &event_output(&RecoveryEvent::ZoneProgress { running: 3, expected: 5 })[0] {
        EventOutput::Progress { text, finished } => {
            assert_eq!(text, "\r      Zones: 3/5 running");
            assert!(!finished);
        }
        _ => panic!("expected progress"),
    }
    let failed = event_output(&RecoveryEvent::StepFailed {
        step: first,
        error: "boom".to_string(),
        workaround: Some(Workaround::ForceUninstallSoftNpu),
    });
    assert_eq!(failed.len(), 2);
    match &event_output(&RecoveryEvent::StepCompleted(first, 1500))[0] {
        EventOutput::Timed { millis, decimals, after, .. } => {
            assert_eq!((*millis, *decimals, after.as_str()), (1500, 1, "s)"));
        }
        _ => panic!("expected a timed line"),
    }
}

#[test]
fn config_show_derived_section() {
    let lines = derived_lines(&OmicronOverrides::default());
    assert_eq!(lines[0], "--- derived ---");
    assert_eq!(lines[1], "Expected zones (30 total):");
    assert_eq!(lines[2], "  clickhouse         1");
    assert_eq!(lines.len(), 2 + 11);
}

#[test]
fn first_host_of_deployment() {
    let mut d = DeploymentToml {
        deployment: DeploymentMeta { name: "x".to_string(), description: None },
        hosts: vec![],
        network: NetworkConfig {
            gateway: String::new(),
            external_dns_ips: vec![],
            internal_services_range: IpRange { first: String::new(), last: String::new() },
            infra_ip: String::new(),
            instance_pool_range: IpRange { first: String::new(), last: String::new() },
            ntp_servers: None,
            dns_servers: None,
            external_dns_zone_name: None,
            rack_subnet: None,
            uplink_port_speed: None,
            allowed_source_ips: None,
        },
        nexus: NexusConfig::default(),
        hypervisor: None,
    };
    match first_host(&d, "x") {
        Err(e) => assert_eq!(e, "No hosts configured in deployment 'x'"),
        Ok(_) => panic!("expected no host"),
    }
    d.hosts.push((
        "a".to_string(),
        HostConfig { address: "1.2.3.4".to_string(), ssh_user: "u".to_string(), role: HostRole::Combined, host_type: None, ssh_port: None },
    ));
    assert_eq!(first_host(&d, "x").unwrap().address, "1.2.3.4");
}
