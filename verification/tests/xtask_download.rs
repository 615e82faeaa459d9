use whoah::parse::xtask_download::{parse_xtask_line, XtaskEvent, XtaskTracker};

#[test]
fn test_parse_starting() {
    let line = "Mar 18 06:17:14.090 INFO Starting download, target: Cockroach";
    assert_eq!(parse_xtask_line(line), Some(XtaskEvent::Starting { target: "Cockroach".into() }));
}

#[test]
fn xtask_download_test_parse_downloading() {
    let line = "Mar 18 06:17:14.093 INFO Downloading out/downloads/cockroach.tgz (attempt 1/3), target: Cockroach";
    let event = parse_xtask_line(line).unwrap();
    match event {
        XtaskEvent::Downloading { target, file } => {
            assert_eq!(target, "Cockroach");
            assert_eq!(file, Some("out/downloads/cockroach.tgz".into()));
        }
        other => panic!("Expected Downloading, got: {:?}", other),
    }
}

#[test]
fn test_parse_complete() {
    let line = "Mar 18 06:24:04.483 INFO Download complete, target: MaghemiteMgd";
    assert_eq!(parse_xtask_line(line), Some(XtaskEvent::Complete { target: "MaghemiteMgd".into() }));
}

#[test]
fn test_parse_cached() {
    let line = "Mar 18 09:35:57.852 INFO Already downloaded (out/downloads/cockroach.tgz), target: Cockroach";
    assert_eq!(parse_xtask_line(line), Some(XtaskEvent::Cached { target: "Cockroach".into() }));
}

#[test]
fn test_parse_unpacking() {
    let line = "Mar 18 06:24:01.849 INFO Unpacking out/downloads/mgd.tar.gz to out/downloads, target: MaghemiteMgd";
    assert_eq!(parse_xtask_line(line), Some(XtaskEvent::Unpacking { target: "MaghemiteMgd".into() }));
}

#[test]
fn xtask_download_test_parse_irrelevant() {
    assert!(parse_xtask_line("Compiling serde v1.0.0").is_none());
    assert!(parse_xtask_line("").is_none());
}

#[test]
fn xtask_download_test_tracker() {
    let mut t = XtaskTracker::default();
    t.update(&XtaskEvent::Starting { target: "Cockroach".into() });
    t.update(&XtaskEvent::Starting { target: "Clickhouse".into() });
    assert_eq!(t.total_targets, 2);
    t.update(&XtaskEvent::Complete { target: "Cockroach".into() });
    assert_eq!(t.summary(), "Downloading Clickhouse (1/2)");
    t.update(&XtaskEvent::Complete { target: "Clickhouse".into() });
    assert_eq!(t.summary(), "All 2 tools downloaded");
}

#[test]
fn test_tracker_all_cached() {
    let mut t = XtaskTracker::default();
    t.update(&XtaskEvent::Starting { target: "A".into() });
    t.update(&XtaskEvent::Starting { target: "B".into() });
    t.update(&XtaskEvent::Cached { target: "A".into() });
    t.update(&XtaskEvent::Cached { target: "B".into() });
    assert_eq!(t.summary(), "All 2 tools cached");
}

#[test]
fn xtask_fresh_tracker_summary() {
    let t = XtaskTracker::default();
    assert_eq!(t.summary(), "Starting downloads...");
}
