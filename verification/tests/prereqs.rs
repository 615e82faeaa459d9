use whoah::prereqs::{docker_status, gh_status, PrereqResults, PrereqStatus};

#[test]
fn test_prereq_defaults() {
    let r = PrereqResults::default();
    assert_eq!(r.docker, PrereqStatus::Unknown);
    assert_eq!(r.gh, PrereqStatus::Unknown);
}

#[test]
fn docker_probe_outcomes() {
    assert_eq!(docker_status(false, true), PrereqStatus::Missing);
    assert_eq!(docker_status(true, true), PrereqStatus::Ready);
    assert_eq!(docker_status(true, false), PrereqStatus::Degraded);
}

#[test]
fn gh_probe_outcomes() {
    assert_eq!(gh_status(None), PrereqStatus::Missing);
    assert_eq!(gh_status(Some(true)), PrereqStatus::Ready);
    assert_eq!(gh_status(Some(false)), PrereqStatus::Degraded);
}
