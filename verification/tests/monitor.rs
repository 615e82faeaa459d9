use whoah::config::{HostConfig, HostRole};
use whoah::monitor::{BuildAction, BuildEvent, BuildMonitor};
use whoah::pipeline::{build_deploy_pipeline, StepStatus};

fn host(addr: &str) -> HostConfig {
    HostConfig { address: addr.to_string(), ssh_user: "u".to_string(), role: HostRole::Combined, host_type: None, ssh_port: None }
}

#[test]
fn compile_output_is_summarised() {
    let mut m = BuildMonitor::new(build_deploy_pipeline(), false);
    let mut hosts = vec![];
    m.handle_build_event(&mut hosts, BuildEvent::StepStarted("build-compile".into()), 1000, None);
    m.handle_build_event(&mut hosts, BuildEvent::StepDetail("build-compile".into(), "   Compiling serde v1.0.0".into()), 1500, None);
    let step = m.pipeline.step_mut("build-compile").unwrap();
    assert_eq!(step.output, vec!["   Compiling serde v1.0.0".to_string()]);
    match &step.status {
        StepStatus::Running { started, detail } => {
            assert_eq!(*started, 1000);
            assert!(detail.as_ref().unwrap().contains("serde"));
        }
        _ => panic!("expected running"),
    }
    assert_eq!(m.cargo_tracker.compiled_count, 1);
}

#[test]
fn raw_lines_show_when_not_parsed() {
    let mut m = BuildMonitor::new(build_deploy_pipeline(), false);
    let mut hosts = vec![];
    m.handle_build_event(&mut hosts, BuildEvent::StepStarted("repo-clone".into()), 10, None);
    m.handle_build_event(&mut hosts, BuildEvent::StepDetail("repo-clone".into(), "Cloning into omicron".into()), 20, None);
    assert_eq!(m.pipeline.step_mut("repo-clone").unwrap().detail(), Some("Cloning into omicron"));
    m.handle_build_event(&mut hosts, BuildEvent::StepStarted("os-update".into()), 30, None);
    m.handle_build_event(&mut hosts, BuildEvent::StepDetail("os-update".into(), "Actions: 1/5 actions".into()), 40, Some("Actions: 1/5".into()));
    assert_eq!(m.pipeline.step_mut("os-update").unwrap().detail(), Some("Actions: 1/5"));
}

#[test]
fn demo_completion_uses_realistic_duration() {
    let mut m = BuildMonitor::new(build_deploy_pipeline(), true);
    let mut hosts = vec![];
    m.handle_build_event(&mut hosts, BuildEvent::StepStarted("prov-install".into()), 100_000, None);
    m.handle_build_event(&mut hosts, BuildEvent::StepCompleted("prov-install".into()), 101_000, None);
    assert!(matches!(m.pipeline.step_mut("prov-install").unwrap().status, StepStatus::Completed { duration: 44_000 }));
    assert_eq!(m.pipeline.started, Some(101_000 - 44_000));
}

#[test]
fn failure_and_discovery() {
    let mut m = BuildMonitor::new(build_deploy_pipeline(), false);
    let mut hosts = vec![("helios01".to_string(), host("10.0.0.1")), ("helios02".to_string(), host("10.0.0.2"))];
    m.handle_build_event(&mut hosts, BuildEvent::StepStarted("deploy-vhw".into()), 5, None);
    m.handle_build_event(&mut hosts, BuildEvent::StepFailed("deploy-vhw".into(), "boom".into()), 9, None);
    assert!(m.pipeline.has_failure());
    let a = m.handle_build_event(&mut hosts, BuildEvent::HostDiscovered { address: "10.0.0.9".into(), ssh_user: "root".into() }, 10, None);
    match a {
        BuildAction::PersistHostAddress { field_path, address } => {
            assert_eq!(field_path, "hosts.helios01.address");
            assert_eq!(address, "10.0.0.9");
        }
        _ => panic!("expected persist"),
    }
    assert_eq!(hosts[0].1.address, "10.0.0.9");
    assert_eq!(hosts[0].1.ssh_user, "root");
    assert_eq!(hosts[1].1.address, "10.0.0.2");
    assert!(m.needs_reconnect);
    assert!(matches!(m.handle_build_event(&mut hosts, BuildEvent::PipelineFinished { success: true }, 11, None), BuildAction::Reconnect));
    assert!(!m.needs_reconnect);
    assert!(matches!(m.handle_build_event(&mut hosts, BuildEvent::PipelineFinished { success: false }, 12, None), BuildAction::Nothing));
}

#[test]
fn packaging_reads_both_streams() {
    let mut m = BuildMonitor::new(build_deploy_pipeline(), false);
    let mut hosts = vec![];
    m.handle_build_event(&mut hosts, BuildEvent::StepStarted("build-package".into()), 1, None);
    let line = r#"{"msg":"nexus: verifying hash","v":0,"package":"nexus"}"#;
    m.handle_build_event(&mut hosts, BuildEvent::StepDetail("build-package".into(), line.into()), 2, None);
    assert_eq!(m.pipeline.step_mut("build-package").unwrap().detail(), Some("Packaging: nexus (1 verified)"));
    m.handle_build_event(&mut hosts, BuildEvent::StepStarted("build-prereqs-builder".into()), 3, None);
    m.handle_build_event(&mut hosts, BuildEvent::StepDetail("build-prereqs-builder".into(), "Mar 18 06:17:14.090 INFO Starting download, target: Cockroach".into()), 4, None);
    assert_eq!(m.pipeline.step_mut("build-prereqs-builder").unwrap().detail(), Some("Downloading Cockroach (0/1)"));
}
