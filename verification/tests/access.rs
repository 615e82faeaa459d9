use whoah::access::{AccessAct, AccessInput, AccessSetup, AccessStage};
use whoah::monitor::BuildEvent;

fn details(evs: &[BuildEvent]) -> Vec<String> {
    evs.iter()
        .filter_map(|e| match e {
            BuildEvent::StepDetail(_, m) => Some(m.clone()),
            _ => None,
        })
        .collect()
}

fn failure(evs: &[BuildEvent]) -> Option<(String, String)> {
    evs.iter().find_map(|e| match e {
        BuildEvent::StepFailed(s, m) => Some((s.clone(), m.clone())),
        _ => None,
    })
}

#[test]
fn access_full_run() {
    let (mut a, evs, act) = AccessSetup::new("192.168.2.50");
    assert!(matches!(&evs[0], BuildEvent::StepStarted(s) if s == "access-keys"));
    assert_eq!(details(&evs), vec!["Generating userdata script..."]);
    assert!(matches!(act, AccessAct::MakeScript));
    let (evs, act) = a.step(AccessInput::Script {
        script: "#!/bin/bash\n".to_string(),
        username: "alice".to_string(),
    });
    assert_eq!(details(&evs), vec!["Sending userdata to 192.168.2.50:1701 (user: alice)..."]);
    assert!(matches!(&act, AccessAct::SendScript { ip, script } if ip == "192.168.2.50" && script == "#!/bin/bash\n"));
    let (_, act) = a.step(AccessInput::Sent { success: true, code: Some(0) });
    assert!(matches!(act, AccessAct::Sleep(5)));
    let (evs, act) = a.step(AccessInput::Ack);
    assert!(matches!(&evs[0], BuildEvent::StepCompleted(s) if s == "access-keys"));
    assert!(matches!(&evs[1], BuildEvent::StepStarted(s) if s == "access-verify"));
    assert_eq!(details(&evs), vec!["Connecting via SSH as alice@192.168.2.50..."]);
    assert!(matches!(&act, AccessAct::Connect { ip, user } if ip == "192.168.2.50" && user == "alice"));
    let (_, act) = a.step(AccessInput::Ack);
    assert!(matches!(&act, AccessAct::Run(c) if c == "hostname"));
    let (evs, act) = a.step(AccessInput::Output {
        exit_code: 0,
        stdout: "helios\n".to_string(),
        stderr: String::new(),
    });
    assert_eq!(details(&evs), vec!["SSH connected \u{2014} hostname: helios"]);
    assert!(matches!(act, AccessAct::Close));
    let (evs, act) = a.step(AccessInput::Ack);
    assert!(matches!(&evs[0], BuildEvent::StepCompleted(s) if s == "access-verify"));
    assert!(matches!(&act, AccessAct::Done(u) if u == "alice"));
    assert_eq!(a.stage, AccessStage::Finished);
}

#[test]
fn access_netcat_failure() {
    let (mut a, _, _) = AccessSetup::new("10.0.0.9");
    a.step(AccessInput::Script { script: "x".to_string(), username: "bob".to_string() });
    let (evs, act) = a.step(AccessInput::Sent { success: false, code: Some(1) });
    assert_eq!(failure(&evs), Some(("access-keys".to_string(), "nc exited with code Some(1)".to_string())));
    assert!(matches!(&act, AccessAct::Abort(m) if m == "nc exited with code Some(1)"));
    let (mut a, _, _) = AccessSetup::new("10.0.0.9");
    a.step(AccessInput::Script { script: "x".to_string(), username: "bob".to_string() });
    let (_, act) = a.step(AccessInput::Sent { success: false, code: None });
    assert!(matches!(&act, AccessAct::Abort(m) if m == "nc exited with code None"));
}

#[test]
fn access_ssh_failures() {
    let (mut a, _, _) = AccessSetup::new("10.0.0.9");
    a.step(AccessInput::Script { script: "x".to_string(), username: "bob".to_string() });
    a.step(AccessInput::Sent { success: true, code: Some(0) });
    a.step(AccessInput::Ack);
    let (evs, act) = a.step(AccessInput::Failed("Permission denied (publickey)".to_string()));
    assert_eq!(
        failure(&evs),
        Some(("access-verify".to_string(), "SSH failed: Permission denied (publickey)".to_string()))
    );
    assert!(matches!(&act, AccessAct::Abort(m) if m == "Permission denied (publickey)"));
    let (mut a, _, _) = AccessSetup::new("10.0.0.9");
    let (evs, act) = a.step(AccessInput::Failed("No SSH keys found in ~/.ssh/".to_string()));
    assert!(evs.is_empty());
    assert!(matches!(&act, AccessAct::Abort(m) if m == "No SSH keys found in ~/.ssh/"));
}
