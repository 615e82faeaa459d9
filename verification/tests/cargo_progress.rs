use whoah::parse::cargo_progress::{parse_cargo_line, CargoEvent, CargoTracker};

#[test]
fn test_parse_compiling() {
    let event = parse_cargo_line("   Compiling serde v1.0.228").unwrap();
    assert_eq!(
        event,
        CargoEvent::Compiling {
            crate_name: "serde".into(),
            version: Some("1.0.228".into()),
        }
    );
}

#[test]
fn test_parse_compiling_path_dep() {
    let event =
        parse_cargo_line("   Compiling omicron-package v0.1.0 (/home/user/omicron/package)").unwrap();
    assert_eq!(
        event,
        CargoEvent::Compiling {
            crate_name: "omicron-package".into(),
            version: Some("0.1.0".into()),
        }
    );
}

#[test]
fn test_parse_compiling_git_dep() {
    let event = parse_cargo_line(
        "   Compiling bhyve_api v0.0.0 (https://github.com/oxidecomputer/propolis?rev=36f20be#36f20be9)",
    )
    .unwrap();
    assert_eq!(
        event,
        CargoEvent::Compiling {
            crate_name: "bhyve_api".into(),
            version: Some("0.0.0".into()),
        }
    );
}

#[test]
fn cargo_progress_test_parse_downloading() {
    assert_eq!(parse_cargo_line("  Downloading crates ..."), Some(CargoEvent::Downloading));
}

#[test]
fn test_parse_downloaded() {
    let event = parse_cargo_line("   Downloaded serde v1.0.228").unwrap();
    assert_eq!(event, CargoEvent::Downloaded { crate_name: "serde".into() });
}

#[test]
fn test_parse_finished() {
    let event =
        parse_cargo_line("    Finished `release` profile [optimized] target(s) in 5m 38s").unwrap();
    assert_eq!(event, CargoEvent::Finished { duration: "5m 38s".into() });
}

#[test]
fn cargo_progress_test_parse_irrelevant() {
    assert!(parse_cargo_line("     Running `rustc ...`").is_none());
    assert!(parse_cargo_line("warning: unused variable").is_none());
    assert!(parse_cargo_line("").is_none());
}

#[test]
fn cargo_progress_test_tracker() {
    let mut t = CargoTracker::default();
    assert_eq!(t.summary(), "Starting...");
    t.update(&CargoEvent::Compiling { crate_name: "serde".into(), version: None });
    assert_eq!(t.summary(), "Compiling serde (1 crates)");
    t.update(&CargoEvent::Compiling { crate_name: "tokio".into(), version: None });
    assert_eq!(t.summary(), "Compiling tokio (2 crates)");
    t.update(&CargoEvent::Finished { duration: "5m 38s".into() });
    assert_eq!(t.summary(), "Finished in 5m 38s");
}

#[test]
fn test_tracker_with_total() {
    let mut t = CargoTracker::default();
    t.set_estimated_total(583);
    t.update(&CargoEvent::Compiling { crate_name: "serde".into(), version: None });
    assert_eq!(t.summary(), "Compiling serde (1/583 \u{2014} 0%)");
    for _ in 0..422 {
        t.update(&CargoEvent::Compiling { crate_name: "x".into(), version: None });
    }
    t.update(&CargoEvent::Compiling { crate_name: "tokio".into(), version: None });
    assert_eq!(t.summary(), "Compiling tokio (424/583 \u{2014} 72%)");
}

#[test]
fn test_tracker_without_total_unchanged() {
    let mut t = CargoTracker::default();
    t.update(&CargoEvent::Compiling { crate_name: "serde".into(), version: None });
    assert_eq!(t.summary(), "Compiling serde (1 crates)");
}

#[test]
fn cargo_tracker_percent_capped_and_zero_total() {
    let mut t = CargoTracker::default();
    t.set_estimated_total(0);
    t.update(&CargoEvent::Compiling { crate_name: "a".into(), version: None });
    assert_eq!(t.summary(), "Compiling a (1/0 \u{2014} 100%)");
    let mut u = CargoTracker::default();
    u.set_estimated_total(1);
    u.update(&CargoEvent::Compiling { crate_name: "a".into(), version: None });
    u.update(&CargoEvent::Compiling { crate_name: "b".into(), version: None });
    assert_eq!(u.summary(), "Compiling b (2/1 \u{2014} 100%)");
}

#[test]
fn cargo_downloaded_counts_and_bare_downloading() {
    assert_eq!(parse_cargo_line("Downloading"), Some(CargoEvent::Downloading));
    assert_eq!(parse_cargo_line("Downloaded"), None);
    assert_eq!(parse_cargo_line("Finished release"), None);
    let mut t = CargoTracker::default();
    t.update(&CargoEvent::Downloaded { crate_name: "a".into() });
    t.update(&CargoEvent::Downloaded { crate_name: "b".into() });
    assert_eq!(t.summary(), "Downloaded 2 crates");
}
