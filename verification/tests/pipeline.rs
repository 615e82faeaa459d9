use whoah::pipeline::{build_deploy_pipeline, Phase, Step, StepStatus};

#[test]
fn test_pipeline_structure() {
    let p = build_deploy_pipeline();
    assert_eq!(p.phases.len(), 8);
    assert_eq!(p.phases[0].name, "Provision VM");
    assert_eq!(p.phases[1].name, "Configure VM");
    assert_eq!(p.phases[2].name, "Configure Access");
    assert_eq!(p.phases[3].name, "Cache Setup");
    assert_eq!(p.phases[4].name, "OS Setup");
    assert_eq!(p.phases[5].name, "Build");
    assert_eq!(p.phases[6].name, "Deploy");
    assert_eq!(p.phases[7].name, "Configure");
    let (done, total) = p.progress();
    assert_eq!(done, 0);
    assert_eq!(total, 28);
}

#[test]
fn test_step_lifecycle() {
    let mut p = build_deploy_pipeline();
    p.start_step("prov-create");
    assert!(p.started.is_some());
    assert!(matches!(p.step_mut("prov-create").unwrap().status, StepStatus::Running { .. }));
    p.complete_step("prov-create");
    assert!(matches!(p.step_mut("prov-create").unwrap().status, StepStatus::Completed { .. }));
    let (done, _) = p.progress();
    assert_eq!(done, 1);
}

#[test]
fn test_step_failure() {
    let mut p = build_deploy_pipeline();
    p.start_step("build-compile");
    p.fail_step("build-compile", "cargo build failed".to_string());
    assert!(p.has_failure());
    assert!(p.phases[5].has_failure());
    assert_eq!(p.step_mut("build-compile").unwrap().detail(), Some("cargo build failed"));
}

#[test]
fn test_find_step() {
    let p = build_deploy_pipeline();
    assert_eq!(p.find_step("prov-create"), Some((0, 0)));
    assert_eq!(p.find_step("access-verify"), Some((2, 1)));
    assert_eq!(p.find_step("cache-configure"), Some((4, 0)));
    assert_eq!(p.find_step("repo-clone"), Some((5, 0)));
    assert_eq!(p.find_step("build-patch"), Some((5, 7)));
    assert_eq!(p.find_step("deploy-verify"), Some((6, 2)));
    assert_eq!(p.find_step("nonexistent"), None);
}

#[test]
fn timed_lifecycle_uses_given_clock() {
    let mut p = build_deploy_pipeline();
    p.start_step_at("prov-create", 1_000);
    assert_eq!(p.started, Some(1_000));
    assert_eq!(p.step_mut("prov-create").unwrap().elapsed_at(1_500), Some(500));
    p.complete_step_at("prov-create", 4_000);
    assert!(matches!(p.step_mut("prov-create").unwrap().status, StepStatus::Completed { duration: 3_000 }));
    assert_eq!(p.total_elapsed_at(6_000), 5_000);
    assert!(!p.is_complete());
    assert!(p.phases[0].elapsed_at(9_999) >= 3_000);
}

#[test]
fn unknown_step_changes_nothing() {
    let mut p = build_deploy_pipeline();
    p.start_step_at("nope", 10);
    p.fail_step_at("nope", "x".to_string(), 20);
    assert_eq!(p.started, Some(10));
    assert!(!p.has_failure());
    assert_eq!(p.progress(), (0, 28));
}

#[test]
fn step_output_is_capped() {
    let mut s = Step::new("a", "A");
    for i in 0..250 {
        s.push_output(format!("line {i}"));
    }
    assert_eq!(s.output.len(), 200);
    assert_eq!(s.output[199], "line 249");
    let ph = Phase::new("P", vec![Step::new("x", "X")]);
    assert!(ph.is_pending());
    assert!(!ph.is_complete());
}

#[test]
fn complete_exactly_when_every_step_is_done() {
    let mut p = build_deploy_pipeline();
    let ids: Vec<String> =
        p.phases.iter().flat_map(|ph| ph.steps.iter().map(|s| s.id.clone())).collect();
    for (k, id) in ids.iter().enumerate() {
        let (done, total) = p.progress();
        assert_eq!((done, total), (k, 28));
        assert!(!p.is_complete());
        if k % 2 == 0 {
            p.complete_step_at(id, 10);
        } else {
            p.fail_step_at(id, "x".to_string(), 10);
        }
    }
    assert_eq!(p.progress(), (28, 28));
    assert!(p.is_complete());
}
