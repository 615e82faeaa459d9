use whoah::monitor::BuildEvent;
use whoah::os_setup::{OsAct, OsInput, OsSetup, OsStage};

fn out(code: i32, stdout: &str, stderr: &str) -> OsInput {
    OsInput::Output { exit_code: code, stdout: stdout.to_string(), stderr: stderr.to_string() }
}

fn cmd(act: &OsAct) -> &str {
    match act {
        OsAct::Run(c) | OsAct::RunStreaming(c) => c.as_str(),
        other => panic!("expected a command, got {other:?}"),
    }
}

fn details(evs: &[BuildEvent]) -> Vec<(String, String)> {
    evs.iter()
        .filter_map(|e| match e {
            BuildEvent::StepDetail(s, m) => Some((s.clone(), m.clone())),
            _ => None,
        })
        .collect()
}

fn failures(evs: &[BuildEvent]) -> Vec<(String, String)> {
    evs.iter()
        .filter_map(|e| match e {
            BuildEvent::StepFailed(s, m) => Some((s.clone(), m.clone())),
            _ => None,
        })
        .collect()
}

/// A run up to the point where the packages are installed.
fn at_packages(stale: &str) -> OsSetup {
    let (mut s, _) = OsSetup::new();
    s.step(OsInput::Ack);
    s.step(OsInput::Ack);
    s.step(OsInput::Exited(4));
    s.step(out(0, "1\n", ""));
    s.step(OsInput::Ack);
    s.step(OsInput::Ack);
    s.step(OsInput::Ack);
    s.step(OsInput::Caches {
        publisher_url: "http://10.0.0.5:8080".to_string(),
        https_proxy_url: "http://10.0.0.5:3128".to_string(),
        lan_ip: "10.0.0.5".to_string(),
    });
    s.step(out(0, "", ""));
    s.step(OsInput::CertPath("/etc/certs/CA/whoah-cache-ca.pem".to_string()));
    s.step(out(0, stale, ""));
    s
}

#[test]
fn os_setup_with_reboot() {
    let (mut s, act) = OsSetup::new();
    assert!(matches!(act, OsAct::Connect("Build/pkg-update")));
    let (evs, act) = s.step(OsInput::Ack);
    assert!(matches!(&evs[0], BuildEvent::StepStarted(id) if id == "os-update"));
    assert!(matches!(act, OsAct::OpenLog("os-update")));
    let (evs, act) = s.step(OsInput::Ack);
    assert_eq!(details(&evs)[0].1, "Running pkg update...");
    assert_eq!(cmd(&act), "pfexec pkg update -v 2>&1; echo \"PKG_EXIT=$?\"");
    let (_, act) = s.step(OsInput::Exited(0));
    assert_eq!(cmd(&act), "beadm list -H | wc -l");
    let (evs, act) = s.step(out(0, "2\n", ""));
    assert_eq!(details(&evs)[0].1, "Rebooting for OS update...");
    assert!(matches!(&act, OsAct::RunBriefly { cmd, secs: 5 } if cmd == "pfexec reboot"));
    let (evs, act) = s.step(OsInput::Failed("connection reset".to_string()));
    assert!(matches!(&evs[0], BuildEvent::StepCompleted(id) if id == "os-update"));
    assert!(matches!(act, OsAct::Close));
    let (evs, act) = s.step(OsInput::Ack);
    assert_eq!(details(&evs), vec![("os-cleanup".to_string(), "Waiting for host to reboot...".to_string())]);
    assert!(matches!(act, OsAct::Sleep(10)));
    let (_, act) = s.step(OsInput::Ack);
    assert!(matches!(act, OsAct::WaitForSsh(300)));
    let (_, act) = s.step(OsInput::Ack);
    assert!(matches!(act, OsAct::Connect("Build/OS-setup")));
    let (_, act) = s.step(OsInput::Ack);
    assert!(matches!(act, OsAct::OpenLog("os-cleanup")));
    let (_, act) = s.step(OsInput::Ack);
    assert!(matches!(act, OsAct::EnsureCaches));
    let (_, act) = s.step(OsInput::Caches {
        publisher_url: "http://10.0.0.5:8080".to_string(),
        https_proxy_url: "http://10.0.0.5:3128".to_string(),
        lan_ip: "10.0.0.5".to_string(),
    });
    assert_eq!(cmd(&act), "pfexec pkg set-publisher -O http://10.0.0.5:8080 helios-dev");
    let (_, act) = s.step(out(1, "", "no"));
    assert!(matches!(&act, OsAct::InstallCaCert(ip) if ip == "10.0.0.5"));
    let (_, act) = s.step(OsInput::Failed("no cert".to_string()));
    assert_eq!(cmd(&act), "beadm list -H");
    assert_eq!(
        s.proxy.as_deref(),
        Some("https_proxy=http://10.0.0.5:3128 HTTPS_PROXY=http://10.0.0.5:3128 SSL_CERT_FILE=/etc/certs/CA/whoah-cache-ca.pem REQUESTS_CA_BUNDLE=/etc/certs/CA/whoah-cache-ca.pem no_proxy=localhost,127.0.0.1 NO_PROXY=localhost,127.0.0.1")
    );
    let (evs, act) = s.step(out(0, "helios-1;uuid;NR;/;1G;static;2024\nhelios-0;uuid;;;1G;static;2023\n", ""));
    assert_eq!(details(&evs)[0].1, "Deleting old BE: helios-0");
    assert_eq!(cmd(&act), "pfexec beadm destroy -Ff helios-0");
    let (evs, act) = s.step(out(0, "", ""));
    assert!(matches!(&evs[0], BuildEvent::StepCompleted(id) if id == "os-cleanup"));
    assert!(cmd(&act).starts_with("pfexec pkg install -v /developer/build-essential"));
    let (_, act) = s.step(OsInput::Exited(0));
    assert_eq!(cmd(&act), "bash -c '. ~/.cargo/env 2>/dev/null; rustc -V 2>/dev/null'");
    let (_, act) = s.step(out(1, "", ""));
    assert!(cmd(&act).starts_with("https_proxy=http://10.0.0.5:3128 "));
    assert!(cmd(&act).ends_with("--default-toolchain 1.91.1' 2>&1"));
    let (_, act) = s.step(OsInput::Exited(0));
    assert_eq!(cmd(&act), "bash -c '. ~/.cargo/env && rustc -V'");
    let (evs, act) = s.step(out(0, "rustc 1.91.1 (ed61e7d7e 2025-11-07)\n", ""));
    assert_eq!(details(&evs)[0].1, "Installed: rustc 1.91.1 (ed61e7d7e 2025-11-07)");
    assert_eq!(cmd(&act), "swap -l");
    let (_, act) = s.step(out(0, "swapfile             dev    swaplo   blocks     free\n", ""));
    assert_eq!(cmd(&act), "zfs list rpool/swap 2>/dev/null");
    let (_, act) = s.step(out(1, "", ""));
    assert_eq!(cmd(&act), "pfexec zfs create -V 8G rpool/swap");
    let (_, act) = s.step(out(0, "", ""));
    assert_eq!(cmd(&act), "grep rpool/swap /etc/vfstab");
    let (_, act) = s.step(out(1, "", ""));
    assert_eq!(cmd(&act), "echo '/dev/zvol/dsk/rpool/swap - - swap - no -' | pfexec tee -a /etc/vfstab");
    let (_, act) = s.step(out(0, "", ""));
    assert_eq!(cmd(&act), "pfexec /usr/sbin/swap -a /dev/zvol/dsk/rpool/swap");
    let (evs, act) = s.step(out(0, "", ""));
    assert_eq!(details(&evs)[0].1, "Swap configured");
    assert!(matches!(act, OsAct::Close));
    let (_, act) = s.step(OsInput::Ack);
    assert!(matches!(act, OsAct::Done));
    assert_eq!(s.stage, OsStage::Finished);
}

#[test]
fn os_setup_without_reboot() {
    let (mut s, _) = OsSetup::new();
    s.step(OsInput::Ack);
    s.step(OsInput::Ack);
    s.step(OsInput::Exited(4));
    let (evs, act) = s.step(out(0, "1\n", ""));
    assert_eq!(details(&evs)[0].1, "Already up to date \u{2014} skipping reboot");
    assert!(matches!(&evs[1], BuildEvent::StepCompleted(id) if id == "os-update"));
    assert!(matches!(act, OsAct::Close));
    let (_, act) = s.step(OsInput::Ack);
    assert!(matches!(act, OsAct::Connect("Build/OS-setup")));
}

#[test]
fn os_setup_rust_present_and_swap_configured() {
    let mut s = at_packages("helios;uuid;NR;/;1G;static;2024\n");
    let (_, act) = s.step(OsInput::Exited(0));
    let (evs, act2) = s.step(out(0, "rustc 1.91.1 (ed61e7d7e 2025-11-07)\n", ""));
    assert_eq!(cmd(&act), "bash -c '. ~/.cargo/env 2>/dev/null; rustc -V 2>/dev/null'");
    assert_eq!(details(&evs)[0].1, "Rust 1.91.1 already installed");
    assert_eq!(cmd(&act2), "swap -l");
    let (evs, act) = s.step(out(0, "swapfile dev swaplo blocks free\n/dev/zvol/dsk/rpool/swap 85,1 8 16777208 16777208\n", ""));
    assert_eq!(details(&evs)[0].1, "Swap already configured");
    assert!(matches!(act, OsAct::Close));
}

#[test]
fn os_setup_package_failure() {
    let mut s = at_packages("");
    let (evs, act) = s.step(OsInput::Exited(1));
    assert_eq!(
        failures(&evs),
        vec![("os-packages".to_string(), "pkg install failed with exit code 1".to_string())]
    );
    assert!(matches!(&act, OsAct::Abort(m) if m == "pkg install failed"));
}

#[test]
fn os_setup_rustup_failure_reported_twice() {
    let mut s = at_packages("");
    s.step(OsInput::Exited(0));
    s.step(out(127, "", ""));
    let (evs, act) = s.step(OsInput::Exited(6));
    let m = "Command failed with exit code 6".to_string();
    assert_eq!(
        failures(&evs),
        vec![("os-rust".to_string(), m.clone()), ("os-rust".to_string(), m.clone())]
    );
    assert!(matches!(&act, OsAct::Abort(a) if *a == m));
}

#[test]
fn os_setup_swap_command_failure() {
    let mut s = at_packages("");
    s.step(OsInput::Exited(0));
    s.step(out(0, "rustc 1.91.1\n", ""));
    s.step(out(0, "No swap devices configured\n", ""));
    s.step(out(1, "", ""));
    let (evs, act) = s.step(out(1, "", " out of space \n"));
    let m = "Command failed (exit 1): out of space".to_string();
    assert_eq!(failures(&evs), vec![("os-swap".to_string(), m.clone())]);
    assert!(matches!(&act, OsAct::Abort(a) if *a == m));
}

#[test]
fn os_setup_steps_are_pipeline_steps() {
    let pipeline = whoah::pipeline::build_deploy_pipeline();
    let (mut s, _) = OsSetup::new();
    let inputs = vec![
        OsInput::Ack,
        OsInput::Ack,
        OsInput::Exited(0),
        out(0, "2\n", ""),
        OsInput::Ack,
        OsInput::Ack,
        OsInput::Ack,
        OsInput::Ack,
        OsInput::Ack,
        OsInput::Ack,
        OsInput::Caches {
            publisher_url: "http://10.0.0.5:8888/helios/2/dev/".to_string(),
            https_proxy_url: "http://10.0.0.5:3128".to_string(),
            lan_ip: "10.0.0.5".to_string(),
        },
        out(0, "", ""),
        OsInput::CertPath("/etc/certs/CA/whoah-cache-ca.pem".to_string()),
        out(0, "a;u;NR;/;1G;static;2024\nb;u;;;1G;static;2023\n", ""),
        out(0, "", ""),
        OsInput::Exited(0),
        out(1, "", ""),
        OsInput::Exited(0),
        out(0, "rustc 1.91.1\n", ""),
        out(0, "none\n", ""),
        out(0, "", ""),
        out(0, "", ""),
        out(0, "", ""),
        OsInput::Ack,
    ];
    let mut all = Vec::new();
    for i in inputs {
        let (evs, _) = s.step(i);
        all.extend(evs);
    }
    assert_eq!(s.stage, OsStage::Finished);
    for e in &all {
        let id = match e {
            BuildEvent::StepStarted(id) | BuildEvent::StepCompleted(id) => id,
            BuildEvent::StepDetail(id, _) | BuildEvent::StepFailed(id, _) => id,
            _ => continue,
        };
        assert!(pipeline.find_step(id).is_some(), "{id} is not a pipeline step");
    }
}
