use whoah::config::{ProxmoxConfig, ProxmoxVmConfig};
use whoah::monitor::BuildEvent;
use whoah::provision::{Act, Input, Provision, Stage, Wait};

fn config() -> ProxmoxConfig {
    ProxmoxConfig {
        host: "10.0.0.2".to_string(),
        ssh_user: "root".to_string(),
        ssh_port: None,
        node: "PVE".to_string(),
        iso_storage: "local".to_string(),
        disk_storage: "local-lvm".to_string(),
        iso_file: "helios-install-vga.iso".to_string(),
        vm: ProxmoxVmConfig {
            vmid: 302,
            name: "helios".to_string(),
            cores: 8,
            sockets: 1,
            memory_mb: 49152,
            disk_gb: 256,
            disk_bus: "sata".to_string(),
            cpu_type: "host".to_string(),
            os_type: "solaris".to_string(),
            net_model: "e1000e".to_string(),
            net_bridge: "vmbr0".to_string(),
        },
    }
}

fn ran(code: i32, stdout: &str, stderr: &str) -> Input {
    Input::Ran { stdout: stdout.to_string(), stderr: stderr.to_string(), exit_code: code }
}

fn met(lines: &[&str], matched: &str) -> Input {
    Input::Met {
        lines: lines.iter().map(|s| s.to_string()).collect(),
        matched: matched.to_string(),
    }
}

fn host(act: &Act) -> &str {
    match act {
        Act::Host(c) => c.as_str(),
        other => panic!("expected a host command, got {other:?}"),
    }
}

fn sent(act: &Act) -> (&str, Wait, u64) {
    match act {
        Act::SendAndWait { line, until, secs } => (line.as_str(), *until, *secs),
        other => panic!("expected a console line, got {other:?}"),
    }
}

fn details(evs: &[BuildEvent]) -> Vec<String> {
    evs.iter()
        .filter_map(|e| match e {
            BuildEvent::StepDetail(_, m) => Some(m.clone()),
            _ => None,
        })
        .collect()
}

fn failure(evs: &[BuildEvent]) -> Option<(String, String)> {
    evs.iter().find_map(|e| match e {
        BuildEvent::StepFailed(s, m) => Some((s.clone(), m.clone())),
        _ => None,
    })
}

fn abort(act: &Act) -> &str {
    match act {
        Act::Abort(m) => m.as_str(),
        other => panic!("expected an abort, got {other:?}"),
    }
}

/// A run up to the console of the installer.
fn at_install_console() -> Provision {
    let (mut p, _, _) = Provision::new(&config());
    p.step(ran(2, "", "Configuration file does not exist"));
    p.step(ran(0, "", ""));
    p.step(ran(0, "", ""));
    p.step(ran(0, "status: running\n", ""));
    assert_eq!(p.stage, Stage::ConsoleInstall);
    p
}

#[test]
fn provision_starts_with_existence_check() {
    let (p, evs, act) = Provision::new(&config());
    assert_eq!(p.stage, Stage::CheckExists);
    assert!(matches!(&evs[0], BuildEvent::StepStarted(s) if s == "prov-create"));
    assert_eq!(details(&evs), vec!["Creating VM helios (VMID 302)..."]);
    assert_eq!(host(&act), "qm status 302");
}

#[test]
fn provision_full_run() {
    let (mut p, _, _) = Provision::new(&config());
    let (_, act) = p.step(ran(2, "", "Configuration file does not exist"));
    assert!(host(&act).starts_with("qm create 302 --name helios --ostype solaris"));
    let (evs, act) = p.step(ran(0, "", ""));
    assert!(matches!(&evs[0], BuildEvent::StepCompleted(s) if s == "prov-create"));
    assert_eq!(details(&evs), vec!["Starting VM 302..."]);
    assert_eq!(host(&act), "qm start 302");
    let (_, act) = p.step(ran(0, "", ""));
    assert_eq!(p.stage, Stage::BootWait(1));
    assert_eq!(host(&act), "qm status 302");
    let (_, act) = p.step(ran(0, "status: stopped\n", ""));
    assert!(matches!(act, Act::Sleep(2)));
    let (_, act) = p.step(Input::Slept);
    assert_eq!(p.stage, Stage::BootWait(2));
    assert_eq!(host(&act), "qm status 302");
    let (_, act) = p.step(ran(0, "status: running\n", ""));
    assert!(matches!(act, Act::Connect("serial-install.log")));
    let (_, act) = p.step(Input::Connected);
    assert!(matches!(act, Act::WaitFor { until: Wait::PromptNudging, secs: 180 }));
    let (evs, act) = p.step(met(&["Loading Helios..."], "root@unknown:~# "));
    assert_eq!(details(&evs), vec!["Loading Helios...", "root@unknown:~# ", "Running diskinfo..."]);
    assert_eq!(sent(&act), ("diskinfo", Wait::Prompt, 15));
    let (evs, act) = p.step(met(
        &[
            "TYPE    DISK                    VID      PID              SIZE",
            "SATA    c2t0d0                  QEMU     HARDDISK          256.00 GiB",
        ],
        "root@unknown:~# ",
    ));
    assert_eq!(details(&evs).last().unwrap(), "Installing Helios to c2t0d0 as 'helios'...");
    assert_eq!(sent(&act), ("install-helios helios c2t0d0", Wait::Prompt, 600));
    let (_, act) = p.step(met(&["installing..."], "root@unknown:~# "));
    assert_eq!(host(&act), "qm set 302 --ide2 none,media=cdrom --boot order=sata0");
    let (_, act) = p.step(ran(0, "", ""));
    assert!(matches!(&act, Act::CloseConsoleThenHost(c) if c == "qm stop 302"));
    let (_, act) = p.step(ran(0, "", ""));
    assert_eq!(host(&act), "qm status 302");
    let (evs, act) = p.step(ran(0, "status: stopped\n", ""));
    assert_eq!(details(&evs), vec!["Starting VM from disk..."]);
    assert_eq!(host(&act), "qm start 302");
    let (evs, act) = p.step(ran(0, "", ""));
    assert!(matches!(&evs[0], BuildEvent::StepCompleted(s) if s == "prov-install"));
    assert!(matches!(&evs[1], BuildEvent::StepStarted(s) if s == "vm-network"));
    assert_eq!(host(&act), "qm status 302");
    let (_, act) = p.step(ran(0, "status: running\n", ""));
    assert!(matches!(act, Act::Sleep(3)));
    let (_, act) = p.step(Input::Slept);
    assert!(matches!(act, Act::Connect("serial-network.log")));
    let (_, act) = p.step(Input::Connected);
    assert!(matches!(act, Act::WaitFor { until: Wait::BootDone, secs: 300 }));
    let (_, act) = p.step(met(&[], "helios console login: "));
    assert_eq!(sent(&act), ("root", Wait::LoginReply, 15));
    let (_, act) = p.step(met(&[], "Password:"));
    assert_eq!(sent(&act), ("", Wait::Prompt, 15));
    let (evs, act) = p.step(met(&[], "root@helios:~# "));
    assert_eq!(details(&evs), vec!["root@helios:~# ", "Configuring network interface..."]);
    assert_eq!(sent(&act), ("ipadm create-if e1000g0", Wait::Prompt, 10));
    let (_, act) = p.step(met(&[], "root@helios:~# "));
    assert_eq!(sent(&act), ("ipadm create-addr -T dhcp -h helios e1000g0/dhcp", Wait::Prompt, 10));
    let (_, act) = p.step(met(&[], "root@helios:~# "));
    assert_eq!(sent(&act), ("svcadm restart network/service", Wait::Prompt, 10));
    let (_, act) = p.step(met(&[], "root@helios:~# "));
    assert_eq!(sent(&act), ("ipadm show-addr -o ADDR e1000g0/dhcp", Wait::Prompt, 5));
    let (_, act) = p.step(met(&["ADDR", "?"], "root@helios:~# "));
    assert!(matches!(act, Act::Sleep(3)));
    assert_eq!(p.stage, Stage::PollSleep(1));
    let (_, act) = p.step(Input::Slept);
    assert_eq!(p.stage, Stage::PollAddr(2));
    assert_eq!(sent(&act), ("ipadm show-addr -o ADDR e1000g0/dhcp", Wait::Prompt, 5));
    let (evs, act) = p.step(met(
        &["ipadm show-addr -o ADDR e1000g0/dhcp", "ADDR", "192.168.2.50/24"],
        "root@helios:~# ",
    ));
    assert_eq!(
        details(&evs),
        vec!["Network configured \u{2014} IP: 192.168.2.50", "Starting netcat listener on port 1701..."]
    );
    assert_eq!(p.ip, "192.168.2.50");
    assert_eq!(sent(&act), ("nc -l 1701 </dev/null | bash -x &", Wait::Prompt, 5));
    let (evs, act) = p.step(met(&[], "root@helios:~# "));
    assert_eq!(details(&evs), vec!["Netcat listener ready on 192.168.2.50:1701"]);
    assert!(matches!(&act, Act::Done(ip) if ip == "192.168.2.50"));
    assert_eq!(p.stage, Stage::Finished);
    let (evs, act) = p.step(Input::Slept);
    assert!(evs.is_empty());
    assert_eq!(abort(&act), "");
}

#[test]
fn provision_refuses_existing_vm() {
    let (mut p, _, _) = Provision::new(&config());
    let (evs, act) = p.step(ran(0, "status: stopped\n", ""));
    assert_eq!(
        failure(&evs),
        Some((
            "prov-create".to_string(),
            "VM 302 already exists. Delete it first or choose a different VMID.".to_string()
        ))
    );
    assert_eq!(abort(&act), "VM 302 already exists");
    assert_eq!(p.stage, Stage::Finished);
}

#[test]
fn provision_create_failure() {
    let (mut p, _, _) = Provision::new(&config());
    p.step(ran(2, "", ""));
    let (evs, act) = p.step(ran(255, "", "storage 'local-lvm' does not exist\n"));
    let msg = "qm create failed (exit 255): storage 'local-lvm' does not exist";
    assert_eq!(failure(&evs), Some(("prov-create".to_string(), msg.to_string())));
    assert_eq!(abort(&act), msg);
}

#[test]
fn provision_boot_wait_gives_up_after_thirty_polls() {
    let (mut p, _, _) = Provision::new(&config());
    p.step(ran(2, "", ""));
    p.step(ran(0, "", ""));
    p.step(ran(0, "", ""));
    for n in 1..=30u32 {
        assert_eq!(p.stage, Stage::BootWait(n));
        p.step(Input::CommandError("ssh: connection reset".to_string()));
        assert_eq!(p.stage, Stage::BootSleep(n));
        if n < 30 {
            p.step(Input::Slept);
        }
    }
    let (evs, act) = p.step(Input::Slept);
    let msg = "VM 302 did not reach running state within 60s";
    assert_eq!(failure(&evs), Some(("prov-boot".to_string(), msg.to_string())));
    assert_eq!(abort(&act), msg);
}

#[test]
fn provision_no_disks() {
    let mut p = at_install_console();
    p.step(Input::Connected);
    p.step(met(&[], "root@unknown:~# "));
    let (evs, act) = p.step(met(&["TYPE    DISK"], "root@unknown:~# "));
    assert_eq!(details(&evs), vec!["TYPE    DISK", "root@unknown:~# "]);
    assert_eq!(
        failure(&evs),
        Some(("prov-install".to_string(), "No disks found in diskinfo output".to_string()))
    );
    assert_eq!(abort(&act), "No disks found in diskinfo output");
}

#[test]
fn provision_prompt_timeout_reports_lines_then_failure() {
    let mut p = at_install_console();
    p.step(Input::Connected);
    let (evs, act) = p.step(Input::WaitFailed {
        lines: vec!["Loading...".to_string()],
        error: "Timeout waiting for shell prompt".to_string(),
    });
    assert_eq!(details(&evs), vec!["Loading..."]);
    assert_eq!(
        failure(&evs),
        Some((
            "prov-install".to_string(),
            "No shell prompt: Timeout waiting for shell prompt".to_string()
        ))
    );
    assert_eq!(abort(&act), "Timeout waiting for shell prompt");
}

#[test]
fn provision_eject_failure() {
    let mut p = at_install_console();
    p.step(Input::Connected);
    p.step(met(&[], "# "));
    p.step(met(&["SATA    c2t0d0   QEMU"], "# "));
    p.step(met(&[], "# "));
    let (evs, act) = p.step(ran(1, "", "  no such option\n"));
    assert_eq!(
        failure(&evs),
        Some(("prov-install".to_string(), "Failed to eject ISO: no such option".to_string()))
    );
    assert_eq!(abort(&act), "Failed to eject ISO");
}

#[test]
fn provision_reports_only_pipeline_steps() {
    let pipeline = whoah::pipeline::build_deploy_pipeline();
    let (mut p, mut all, _) = Provision::new(&config());
    let inputs = vec![
        ran(2, "", ""),
        ran(0, "", ""),
        ran(0, "", ""),
        ran(0, "status: running\n", ""),
        Input::Connected,
        met(&["booting"], "root@unknown:~# "),
        met(&["SATA    c2t0d0   QEMU"], "root@unknown:~# "),
        met(&[], "root@unknown:~# "),
        ran(0, "", ""),
        ran(0, "", ""),
        ran(0, "status: stopped\n", ""),
        ran(0, "", ""),
        ran(0, "status: running\n", ""),
        Input::Slept,
        Input::Connected,
        met(&[], "root@helios:~# "),
        met(&[], "root@helios:~# "),
        met(&[], "root@helios:~# "),
        met(&[], "root@helios:~# "),
        met(&["192.168.2.50/24"], "root@helios:~# "),
        met(&[], "root@helios:~# "),
    ];
    for i in inputs {
        let (evs, _) = p.step(i);
        all.extend(evs);
    }
    assert_eq!(p.stage, Stage::Finished);
    for e in &all {
        let id = match e {
            BuildEvent::StepStarted(id) | BuildEvent::StepCompleted(id) => id,
            BuildEvent::StepDetail(id, _) | BuildEvent::StepFailed(id, _) => id,
            _ => continue,
        };
        assert!(pipeline.find_step(id).is_some(), "{id} is not a pipeline step");
    }
}
