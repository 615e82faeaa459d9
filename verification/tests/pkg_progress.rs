use whoah::parse::pkg_progress::{format_actions, is_float_text, parse_pkg_line, PkgActionProgress, PkgEvent};

fn mb(s: &str) -> f32 {
    s.parse::<f32>().unwrap()
}

#[test]
fn test_parse_download_with_speed() {
    let line = "Download: 1031/7134 items   83.6/238.8MB  35% complete (16.8M/s)";
    match parse_pkg_line(line).unwrap() {
        PkgEvent::Download(p) => {
            assert_eq!(p.items_done, 1031);
            assert_eq!(p.items_total, 7134);
            assert_eq!(mb(&p.mb_done), 83.6);
            assert_eq!(mb(&p.mb_total), 238.8);
            assert_eq!(p.pct, 35);
            assert_eq!(p.speed.as_deref(), Some("16.8M/s"));
        }
        other => panic!("expected a download, got {:?}", other),
    }
}

#[test]
fn test_parse_download_no_speed() {
    let line = "Download:    0/7134 items    0.0/238.8MB  0% complete ";
    match parse_pkg_line(line).unwrap() {
        PkgEvent::Download(p) => {
            assert_eq!(p.items_done, 0);
            assert_eq!(p.items_total, 7134);
            assert_eq!(mb(&p.mb_done), 0.0);
            assert_eq!(mb(&p.mb_total), 238.8);
            assert_eq!(p.pct, 0);
            assert_eq!(p.speed, None);
        }
        other => panic!("expected a download, got {:?}", other),
    }
}

#[test]
fn test_parse_download_complete() {
    let line = "Download: Completed 238.83 MB in 15.47 seconds (15.4M/s)";
    assert!(parse_pkg_line(line).is_none());
}

#[test]
fn test_parse_actions() {
    let line = " Actions:    1/7672 actions (Installing new actions)";
    match parse_pkg_line(line).unwrap() {
        PkgEvent::Actions(a) => assert_eq!(a, PkgActionProgress { done: 1, total: 7672 }),
        other => panic!("expected actions, got {:?}", other),
    }
}

#[test]
fn test_parse_up_to_date() {
    assert!(matches!(parse_pkg_line("No updates necessary for this image."), Some(PkgEvent::UpToDate)));
}

#[test]
fn test_parse_no_changes() {
    assert!(matches!(parse_pkg_line("No changes required."), Some(PkgEvent::NoChanges)));
}

#[test]
fn test_parse_planning() {
    let line = "Planning: Solver setup ... Done (2.429s)";
    match parse_pkg_line(line) {
        Some(PkgEvent::Planning(s)) => assert!(s.contains("Solver")),
        other => panic!("Expected Planning, got: {:?}", other),
    }
}

#[test]
fn test_parse_irrelevant_line() {
    assert!(parse_pkg_line("helios-dev").is_none());
    assert!(parse_pkg_line("").is_none());
    assert!(parse_pkg_line("  Done").is_none());
}

#[test]
fn pkg_bad_ratio_is_none() {
    assert!(parse_pkg_line("Download: 10-20 items 1.0/2.0MB 5% complete").is_none());
    assert!(parse_pkg_line("Actions: many actions").is_none());
}

#[test]
fn pkg_actions_summary() {
    assert_eq!(format_actions(&PkgActionProgress { done: 3, total: 9 }), "Actions: 3/9");
}

#[test]
fn download_needs_numeric_megabytes() {
    assert!(parse_pkg_line("Download: 1/2 items   a.b/238.8MB  35% complete").is_none());
    assert!(parse_pkg_line("Download: 1/2 items   83.6/x MB  35% complete").is_none());
    assert!(parse_pkg_line("Download: 1/2 items   83.6/238.8MB  35% complete").is_some());
    assert!(parse_pkg_line("Download: 1/2 items   .5/1e3MB  35% complete").is_some());
}

#[test]
fn float_text_follows_f32_parsing() {
    for s in ["83.6", "238", "5.", ".5", "+1.5", "-2", "1e3", "1E-3", "inf", "-Infinity", "NaN", "0.0e+10"] {
        let chars: Vec<char> = s.chars().collect();
        assert!(is_float_text(&chars), "{s}");
        assert!(s.parse::<f32>().is_ok(), "{s}");
    }
    for s in ["", ".", "1.2.3", "e5", "1e", "1e+", "abc", "1 ", "++1", "in", "0x10"] {
        let chars: Vec<char> = s.chars().collect();
        assert!(!is_float_text(&chars), "{s}");
        assert!(s.parse::<f32>().is_err(), "{s}");
    }
}
