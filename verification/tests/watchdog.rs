use whoah::watchdog::{appear_report, cleared_report, online_report, skipped_zone_report, AppearOutcome};
use whoah::watchdog::{
    builtin_rules, clear_command, clear_decision, explain_command, reports_online, rule_applies,
    running_zone_names, state_query_command, zlogin_command, zone_name_is_safe, ClearDecision,
    OnceSet,
};

#[test]
fn zone_name_validation_rejects_unsafe_chars() {
    assert!(!zone_name_is_safe("oxz_ntp'0"));
    assert!(!zone_name_is_safe("zone name"));
    assert!(!zone_name_is_safe("zone;rm -rf /"));
    assert!(zone_name_is_safe("oxz_ntp_1a2b3c4d"));
    assert!(zone_name_is_safe("oxz_switch_00000001"));
    assert!(zone_name_is_safe("zone-name.test"));
}

#[test]
fn builtin_rules_no_single_quotes_in_commands() {
    for rule in builtin_rules() {
        for cmd in &rule.on_appear {
            assert!(!cmd.contains('\''), "Rule '{}' on_appear command contains single quote: {cmd}", rule.name);
        }
        for fmri in &rule.clear_if_maintenance {
            assert!(!fmri.contains('\''), "Rule '{}' clear_if_maintenance fmri contains single quote: {fmri}", rule.name);
        }
        for fmri in &rule.wait_online {
            assert!(!fmri.contains('\''), "Rule '{}' wait_online fmri contains single quote: {fmri}", rule.name);
        }
    }
}

#[test]
fn running_zones_are_read_from_zoneadm() {
    let out = "0:global:running:/::ipkg:shared\n1:oxz_ntp_1:running:/z::omicron1:excl\n2:oxz_x:installed:/y::b:excl\n";
    assert_eq!(running_zone_names(out), vec!["global".to_string(), "oxz_ntp_1".to_string()]);
    assert!(running_zone_names("").is_empty());
}

#[test]
fn rule_matches_ntp_zones_only() {
    let rules = builtin_rules();
    assert_eq!(rules.len(), 1);
    assert!(rule_applies(&rules[0], "oxz_ntp_1a2b"));
    assert!(!rule_applies(&rules[0], "oxz_nexus_1"));
}

#[test]
fn zlogin_commands_quote_the_inner_command() {
    assert_eq!(zlogin_command("oxz_ntp_1", "svcadm enable x"), "pfexec zlogin oxz_ntp_1 'svcadm enable x'");
    assert_eq!(
        state_query_command("z", "oxide/ntp"),
        "pfexec zlogin z 'svcs -H -o state oxide/ntp 2>/dev/null || true'"
    );
    assert_eq!(explain_command("z", "a/b"), "pfexec zlogin z 'svcs -xv a/b'");
    assert_eq!(clear_command("z", "a/b"), "pfexec zlogin z 'svcadm clear a/b'");
    assert_eq!(zlogin_command("z", "c").matches('\'').count(), 2);
}

#[test]
fn service_states_decide_the_clear() {
    assert_eq!(clear_decision("maintenance\n"), ClearDecision::Clear);
    assert_eq!(clear_decision(" offline* "), ClearDecision::Clear);
    assert_eq!(clear_decision("online"), ClearDecision::Healthy);
    assert_eq!(clear_decision("offline"), ClearDecision::Wait);
    assert_eq!(clear_decision(""), ClearDecision::Wait);
    assert!(reports_online("online\n"));
    assert!(!reports_online("degraded"));
}

#[test]
fn once_set_acts_once_per_key() {
    let mut s = OnceSet::new();
    assert!(s.first_time("ntp_zone", "oxz_ntp_1"));
    assert!(!s.first_time("ntp_zone", "oxz_ntp_1"));
    assert!(s.first_time("ntp_zone", "oxz_ntp_2"));
    assert!(s.contains("ntp_zone", "oxz_ntp_2"));
    assert!(!s.contains("other", "oxz_ntp_2"));
}

#[test]
fn watchdog_reports() {
    assert_eq!(appear_report("ntp", "svcadm restart ntp", "oxz_ntp_1", &AppearOutcome::Succeeded), "watchdog [ntp]: svcadm restart ntp in oxz_ntp_1");
    assert_eq!(
        appear_report("ntp", "x", "z", &AppearOutcome::Exited { code: 1, stderr: " bad \n".to_string() }),
        "watchdog [ntp]: x in z exited 1 \u{2014} bad"
    );
    assert_eq!(appear_report("ntp", "x", "z", &AppearOutcome::Failed { error: "gone".to_string() }), "watchdog [ntp]: x in z failed: gone");
    assert_eq!(skipped_zone_report("ntp", "a\"b"), "watchdog [ntp]: skipping zone with unexpected name: \"a\\\"b\"");
    assert_eq!(cleared_report("ntp", "svc:/x", "z", "maintenance"), "watchdog [ntp]: cleared svc:/x in z (was maintenance)");
    assert_eq!(online_report("ntp", "svc:/x", "z"), "watchdog [ntp]: svc:/x online in z");
}

use whoah::watchdog::{connect_failed_report, log_failed_report, Watchdog, WatchAct, WatchInput};

fn output(stdout: &str) -> WatchInput {
    WatchInput::Output { exit_code: 0, stdout: stdout.to_string(), stderr: String::new() }
}

fn run(act: &WatchAct) -> (&str, bool) {
    match act {
        WatchAct::Run { cmd, quiet } => (cmd.as_str(), *quiet),
        other => panic!("expected a command, got {other:?}"),
    }
}

const ZONES: &str = "0:global:running:/::ipkg:shared\n3:oxz_ntp_1a2b:running:/zones/oxz_ntp_1a2b::omicron1:excl\n4:oxz_crucible_9:installed:/zones/x::omicron1:excl\n";

#[test]
fn watchdog_round_recovers_ntp_zone() {
    let (mut w, reports, act) = Watchdog::new(builtin_rules());
    assert_eq!(reports, vec!["watchdog: active"]);
    assert_eq!(run(&act), ("zoneadm list -cp", true));
    let (reports, act) = w.step(output(ZONES));
    assert!(reports.is_empty());
    assert_eq!(run(&act), ("pfexec zlogin oxz_ntp_1a2b 'svcadm enable network/routing/ndp'", true));
    let (reports, act) = w.step(output(""));
    assert_eq!(reports, vec!["watchdog [ntp_zone]: svcadm enable network/routing/ndp in oxz_ntp_1a2b"]);
    assert_eq!(
        run(&act),
        (
            "pfexec zlogin oxz_ntp_1a2b 'svcs -H -o state network/ip-interface-management 2>/dev/null || true'",
            true
        )
    );
    let (reports, act) = w.step(output("maintenance\n"));
    assert!(reports.is_empty());
    assert_eq!(run(&act), ("pfexec zlogin oxz_ntp_1a2b 'svcs -xv network/ip-interface-management'", false));
    let (_, act) = w.step(output("svc:/network/ip-interface-management:default (...)"));
    assert_eq!(run(&act), ("pfexec zlogin oxz_ntp_1a2b 'svcadm clear network/ip-interface-management'", true));
    let (reports, act) = w.step(output(""));
    assert_eq!(
        reports,
        vec!["watchdog [ntp_zone]: cleared network/ip-interface-management in oxz_ntp_1a2b (was maintenance)"]
    );
    assert_eq!(
        run(&act),
        ("pfexec zlogin oxz_ntp_1a2b 'svcs -H -o state oxide/ntp 2>/dev/null || true'", true)
    );
    let (reports, act) = w.step(output("online\n"));
    assert_eq!(reports, vec!["watchdog [ntp_zone]: oxide/ntp online in oxz_ntp_1a2b"]);
    assert!(matches!(act, WatchAct::Sleep(5)));
    // The next round finds everything done.
    let (_, act) = w.step(WatchInput::Slept);
    assert_eq!(run(&act), ("zoneadm list -cp", true));
    let (reports, act) = w.step(output(ZONES));
    assert!(reports.is_empty());
    assert!(matches!(act, WatchAct::Sleep(5)));
}

#[test]
fn watchdog_retries_until_service_settles() {
    let (mut w, _, _) = Watchdog::new(builtin_rules());
    w.step(output(ZONES));
    let (reports, _) = w.step(WatchInput::Output { exit_code: 1, stdout: String::new(), stderr: " no ndp \n".to_string() });
    assert_eq!(reports, vec!["watchdog [ntp_zone]: svcadm enable network/routing/ndp in oxz_ntp_1a2b exited 1 \u{2014} no ndp"]);
    // offline: look again next round
    let (_, act) = w.step(output("offline\n"));
    assert_eq!(
        run(&act),
        ("pfexec zlogin oxz_ntp_1a2b 'svcs -H -o state oxide/ntp 2>/dev/null || true'", true)
    );
    let (reports, act) = w.step(WatchInput::Error("channel closed".to_string()));
    assert!(reports.is_empty());
    assert!(matches!(act, WatchAct::Sleep(5)));
    w.step(WatchInput::Slept);
    let (_, act) = w.step(output(ZONES));
    // The first-appearance command does not run again; the checks do.
    assert_eq!(
        run(&act),
        (
            "pfexec zlogin oxz_ntp_1a2b 'svcs -H -o state network/ip-interface-management 2>/dev/null || true'",
            true
        )
    );
    let (_, act) = w.step(output("online\n"));
    assert_eq!(
        run(&act),
        ("pfexec zlogin oxz_ntp_1a2b 'svcs -H -o state oxide/ntp 2>/dev/null || true'", true)
    );
}

#[test]
fn watchdog_skips_unsafe_zone_and_survives_poll_errors() {
    let (mut w, _, _) = Watchdog::new(builtin_rules());
    let (reports, act) = w.step(WatchInput::Error("timeout".to_string()));
    assert!(reports.is_empty());
    assert!(matches!(act, WatchAct::Sleep(5)));
    let (_, act) = w.step(WatchInput::Slept);
    assert_eq!(run(&act), ("zoneadm list -cp", true));
    let (reports, act) = w.step(output("5:oxz_ntp;x:running:/z::omicron1:excl\n"));
    assert_eq!(reports, vec!["watchdog [ntp_zone]: skipping zone with unexpected name: \"oxz_ntp;x\""]);
    assert!(matches!(act, WatchAct::Sleep(5)));
}

#[test]
fn watchdog_disabled_reports() {
    assert_eq!(
        connect_failed_report("no route"),
        "watchdog: failed to connect: no route; NTP zone recovery disabled"
    );
    assert_eq!(
        log_failed_report("denied"),
        "watchdog: failed to open log: denied; NTP zone recovery disabled"
    );
}
