use whoah::cache_setup::{
    cert_read_failed, CacheAct, CacheInput, CacheSetup, CacheStage, CertAct, CertInput, CertInstall,
};
use whoah::monitor::BuildEvent;
use whoah::pkg_cache::cache_info;

fn out(code: i32, stderr: &str) -> CacheInput {
    CacheInput::Output { exit_code: code, stdout: String::new(), stderr: stderr.to_string() }
}

fn run(act: &CacheAct) -> &str {
    match act {
        CacheAct::Run(c) => c.as_str(),
        other => panic!("expected a command, got {other:?}"),
    }
}

fn details(evs: &[BuildEvent]) -> Vec<String> {
    evs.iter()
        .filter_map(|e| match e {
            BuildEvent::StepDetail(_, m) => Some(m.clone()),
            _ => None,
        })
        .collect()
}

fn failure(evs: &[BuildEvent]) -> Option<String> {
    evs.iter().find_map(|e| match e {
        BuildEvent::StepFailed(_, m) => Some(m.clone()),
        _ => None,
    })
}

#[test]
fn cert_install_steps() {
    let (mut c, act) = CertInstall::new();
    assert!(matches!(act, CertAct::Fetch));
    let act = c.step(CertInput::Cert("-----BEGIN CERTIFICATE-----\nAAA\n-----END CERTIFICATE-----\n".to_string()));
    assert!(matches!(&act, CertAct::Run(cmd) if cmd == "pfexec mkdir -p /etc/certs/CA"));
    let act = c.step(CertInput::Output { exit_code: 0, stdout: String::new(), stderr: String::new() });
    assert!(matches!(&act, CertAct::Run(cmd) if cmd == "pfexec bash -c 'cat > /etc/certs/CA/whoah-cache-ca.pem << \"EOF\"\n-----BEGIN CERTIFICATE-----\nAAA\n-----END CERTIFICATE-----\nEOF'"));
    let act = c.step(CertInput::Output { exit_code: 0, stdout: String::new(), stderr: String::new() });
    assert!(matches!(&act, CertAct::Run(cmd) if cmd == "openssl x509 -in /etc/certs/CA/whoah-cache-ca.pem -noout -subject"));
    let act = c.step(CertInput::Output { exit_code: 0, stdout: "subject=CN = whoah".to_string(), stderr: String::new() });
    assert!(matches!(&act, CertAct::Installed(p) if p == "/etc/certs/CA/whoah-cache-ca.pem"));
}

#[test]
fn cert_install_failures() {
    let (mut c, _) = CertInstall::new();
    c.step(CertInput::Cert("x".to_string()));
    c.step(CertInput::Output { exit_code: 1, stdout: String::new(), stderr: String::new() });
    let act = c.step(CertInput::Output { exit_code: 2, stdout: String::new(), stderr: " denied \n".to_string() });
    assert!(matches!(&act, CertAct::Failed(m) if m == "Failed to write CA cert: denied"));
    let (mut c, _) = CertInstall::new();
    let act = c.step(CertInput::Error(cert_read_failed("No such container")));
    assert!(matches!(&act, CertAct::Failed(m) if m == "Failed to read CA cert: No such container"));
}

#[test]
fn cache_setup_full_run() {
    let (mut s, evs, act) = CacheSetup::new();
    assert!(matches!(&evs[0], BuildEvent::StepStarted(id) if id == "cache-start"));
    assert_eq!(details(&evs), vec!["Starting local caching proxies..."]);
    assert!(matches!(act, CacheAct::EnsureCaches));
    let (evs, act) = s.step(CacheInput::Caches(cache_info("192.168.1.20".to_string(), true, false)));
    assert_eq!(details(&evs), vec!["nginx already running, squid started on 192.168.1.20"]);
    assert!(matches!(act, CacheAct::Connect));
    let (_, act) = s.step(CacheInput::Ack);
    assert_eq!(
        run(&act),
        "curl -sf --connect-timeout 5 --max-time 10 http://192.168.1.20:8888/helios/2/dev/catalog/1/catalog.attrs >/dev/null 2>&1"
    );
    let (_, act) = s.step(out(0, ""));
    assert_eq!(run(&act), "pfexec pkg set-publisher -O http://192.168.1.20:8888/helios/2/dev/ helios-dev");
    let (_, act) = s.step(out(0, ""));
    assert!(matches!(act, CacheAct::InstallCaCert));
    let (_, act) = s.step(CacheInput::CertPath("/etc/certs/CA/whoah-cache-ca.pem".to_string()));
    assert!(run(&act).starts_with("pfexec mkdir -p /etc/profile.d && printf 'export https_proxy=\"http://192.168.1.20:3128\""));
    assert!(run(&act).contains("# Don'\\''t proxy local traffic"));
    let (_, act) = s.step(out(0, ""));
    assert!(run(&act).contains("--proxy http://192.168.1.20:3128 -k"));
    let (evs, act) = s.step(out(7, ""));
    assert_eq!(details(&evs), vec!["Warning: HTTPS proxy not reachable \u{2014} downloads will go direct"]);
    assert!(matches!(act, CacheAct::Close));
    let (evs, act) = s.step(CacheInput::Ack);
    assert_eq!(
        details(&evs),
        vec!["Caches configured: pkg=http://192.168.1.20:8888/helios/2/dev/ https_proxy=http://192.168.1.20:3128"]
    );
    assert!(matches!(&evs[1], BuildEvent::StepCompleted(id) if id == "cache-configure"));
    assert!(matches!(act, CacheAct::Done));
    assert_eq!(s.stage, CacheStage::Finished);
}

#[test]
fn cache_setup_failures() {
    let (mut s, _, _) = CacheSetup::new();
    s.step(CacheInput::Caches(cache_info("10.0.0.5".to_string(), false, false)));
    s.step(CacheInput::Ack);
    let (evs, act) = s.step(out(22, ""));
    let m = "Pkg cache not reachable at http://10.0.0.5:8888/helios/2/dev/";
    assert_eq!(failure(&evs).as_deref(), Some(m));
    assert!(matches!(&act, CacheAct::Abort(a) if a == m));

    let (mut s, _, _) = CacheSetup::new();
    s.step(CacheInput::Caches(cache_info("10.0.0.5".to_string(), false, false)));
    let (evs, act) = s.step(CacheInput::Failed("no route to host".to_string()));
    assert_eq!(failure(&evs).as_deref(), Some("SSH failed: no route to host"));
    assert!(matches!(&act, CacheAct::Abort(a) if a == "no route to host"));

    let (mut s, _, _) = CacheSetup::new();
    let (evs, act) = s.step(CacheInput::Failed("docker not found".to_string()));
    assert_eq!(failure(&evs).as_deref(), Some("docker not found"));
    assert!(matches!(&act, CacheAct::Abort(a) if a == "docker not found"));

    let (mut s, _, _) = CacheSetup::new();
    s.step(CacheInput::Caches(cache_info("10.0.0.5".to_string(), false, false)));
    s.step(CacheInput::Ack);
    s.step(out(0, ""));
    s.step(out(0, ""));
    s.step(CacheInput::CertPath("/etc/certs/CA/whoah-cache-ca.pem".to_string()));
    let (evs, act) = s.step(out(1, " read-only \n"));
    assert_eq!(
        failure(&evs).as_deref(),
        Some("Proxy env config failed: Failed to write proxy env: read-only")
    );
    assert!(matches!(&act, CacheAct::Abort(a) if a == "Failed to write proxy env: read-only"));
}

#[test]
fn cache_setup_steps_are_pipeline_steps() {
    let (mut s, evs, _) = CacheSetup::new();
    let (evs2, _) = s.step(CacheInput::Caches(cache_info("10.0.0.5".to_string(), true, true)));
    assert!(matches!(&evs2[1], BuildEvent::StepCompleted(id) if id == "cache-start"));
    assert!(matches!(&evs2[2], BuildEvent::StepStarted(id) if id == "cache-configure"));
    let pipeline = whoah::pipeline::build_deploy_pipeline();
    for e in evs.iter().chain(evs2.iter()) {
        let id = match e {
            BuildEvent::StepStarted(id) | BuildEvent::StepCompleted(id) => id,
            BuildEvent::StepDetail(id, _) | BuildEvent::StepFailed(id, _) => id,
            _ => continue,
        };
        assert!(pipeline.find_step(id).is_some());
    }
    let (mut s, _, _) = CacheSetup::new();
    let (evs, _) = s.step(CacheInput::Failed("docker not found".to_string()));
    assert!(matches!(&evs[0], BuildEvent::StepFailed(id, m) if id == "cache-start" && m == "docker not found"));
}
