use whoah::parse::omicron_pkg_log::{parse_omicron_pkg_line, OmicronPkgEvent, OmicronPkgTracker};

#[test]
fn test_parse_verifying() {
    let line = r#"{"msg":"propolis-server: verifying hash","v":0,"name":"slog-rs","level":30,"time":"2026-03-19T09:33:01.201449194Z","hostname":"helios02","pid":3605,"package":"propolis-server"}"#;
    let event = parse_omicron_pkg_line(line).unwrap();
    assert_eq!(event, OmicronPkgEvent::Verifying { package: "propolis-server".into() });
}

#[test]
fn omicron_pkg_log_test_parse_downloading() {
    let line = r#"{"msg":"propolis-server: downloading prebuilt","v":0,"name":"slog-rs","level":30,"time":"2026-03-19T09:33:02.226746814Z","hostname":"helios02","pid":3605,"package":"propolis-server"}"#;
    let event = parse_omicron_pkg_line(line).unwrap();
    assert_eq!(event, OmicronPkgEvent::Downloading { package: "propolis-server".into() });
}

#[test]
fn test_parse_target_line() {
    let line = r#"{"msg":"target[clickhouse-topology=single-node image=standard machine=non-gimlet rack-topology=single-sled switch=softnpu ]: TargetMap({\"clickhouse-topology\": \"single-node\"})","v":0,"name":"slog-rs","level":20,"time":"2026-03-19T09:32:50.465626753Z","hostname":"helios02","pid":3605}"#;
    assert!(parse_omicron_pkg_line(line).is_none());
}

#[test]
fn test_parse_non_json() {
    assert!(parse_omicron_pkg_line("Compiling serde v1.0.0").is_none());
    assert!(parse_omicron_pkg_line("").is_none());
}

#[test]
fn omicron_pkg_log_test_tracker() {
    let mut t = OmicronPkgTracker::default();
    t.update(&OmicronPkgEvent::Verifying { package: "nexus".into() });
    assert!(t.summary().contains("nexus"));
    assert!(t.summary().contains("1 verified"));

    t.update(&OmicronPkgEvent::Downloading { package: "cockroachdb".into() });
    assert!(t.summary().contains("cockroachdb"));
    assert!(t.summary().contains("1 downloaded"));
}
