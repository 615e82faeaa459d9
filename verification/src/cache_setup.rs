//! Pointing the Helios host at the local caching proxies, as state
//! machines: installing the HTTPS proxy's CA certificate on the host, and
//! the whole cache setup step (check the package cache from the host, set
//! the publisher, install the certificate, write the proxy environment and
//! check the HTTPS proxy).
//!
//! Each step takes what the last action gave and answers with the next
//! action (and, for the setup step, the build events to report); starting
//! the containers, reading the certificate out of the proxy's container,
//! connecting and running commands are the caller's. Starting the proxies
//! is reported as the `cache-start` step and the rest as `cache-configure`,
//! the steps of the build pipeline.
use vstd::prelude::*;
use crate::monitor::BuildEvent;
use crate::pkg_cache::{
    ca_cert_path, proxy_env_command, set_publisher_command, spec_escape_quotes,
    spec_proxy_env_script, verify_ca_cert_command, verify_https_proxy_command,
    verify_pkg_cache_command, write_ca_cert_command, CacheInfo,
};
use crate::provision::{detail, det, evs_view, no_events, prefixed, push_ev, Ev};
use crate::text::{push_chars, push_str, string_from, to_chars, trim, trim_chars};

verus! {

/// `prefix` followed by the trimmed text.
fn prefixed_trimmed(prefix: &str, s: &str) -> (r: String)
    ensures
        r@ == prefix@ + trim(s@),
{
    let mut r = string_from(prefix);
    let v = to_chars(s);
    push_chars(&mut r, trim_chars(v.as_slice()));
    r
}

// --- The CA certificate ---

/// Where the installation of the certificate stands.
#[derive(Debug, Clone, Copy, PartialEq, Eq, Structural)]
pub enum CertStage {
    Fetch,
    Mkdir,
    Write,
    Verify,
    Finished,
}

/// What the caller does next.
#[derive(Debug)]
pub enum CertAct {
    /// Read the certificate out of the proxy's container.
    Fetch,
    /// Run a command on the host.
    Run(String),
    /// The certificate is installed at the path given.
    Installed(String),
    Failed(String),
}

/// What the last action gave.
#[derive(Debug)]
pub enum CertInput {
    /// The certificate's text.
    Cert(String),
    Output { exit_code: i32, stdout: String, stderr: String },
    /// The action could not be done.
    Error(String),
}

pub enum CertActV {
    Fetch,
    Run(Seq<char>),
    Installed(Seq<char>),
    Failed(Seq<char>),
}

pub open spec fn cert_act_view(a: CertAct) -> CertActV {
    match a {
        CertAct::Fetch => CertActV::Fetch,
        CertAct::Run(c) => CertActV::Run(c@),
        CertAct::Installed(p) => CertActV::Installed(p@),
        CertAct::Failed(m) => CertActV::Failed(m@),
    }
}

pub enum CertInV {
    Cert(Seq<char>),
    Output(i32, Seq<char>, Seq<char>),
    Error(Seq<char>),
}

pub open spec fn cert_in_view(i: CertInput) -> CertInV {
    match i {
        CertInput::Cert(c) => CertInV::Cert(c@),
        CertInput::Output { exit_code, stdout, stderr } => CertInV::Output(exit_code, stdout@, stderr@),
        CertInput::Error(e) => CertInV::Error(e@),
    }
}

/// An installation of the certificate: its stage and the certificate read.
pub struct CertInstall {
    pub stage: CertStage,
    pub cert: String,
}

/// The certificate's path on the host.
pub open spec fn cert_path() -> Seq<char> {
    "/etc/certs/CA/whoah-cache-ca.pem"@
}

/// The next stage, certificate and action.
pub open spec fn spec_cert_step(stage: CertStage, cert: Seq<char>, i: CertInV) -> (CertStage, Seq<char>, CertActV) {
    match (stage, i) {
        (CertStage::Fetch, CertInV::Cert(c)) => (
            CertStage::Mkdir,
            c,
            CertActV::Run("pfexec mkdir -p /etc/certs/CA"@),
        ),
        (CertStage::Mkdir, CertInV::Output(_, _, _)) => (
            CertStage::Write,
            cert,
            CertActV::Run(
                "pfexec bash -c 'cat > /etc/certs/CA/whoah-cache-ca.pem << \"EOF\"\n"@ + trim(cert)
                    + "\nEOF'"@,
            ),
        ),
        (CertStage::Write, CertInV::Output(code, _, err)) => if code != 0 {
            (CertStage::Finished, cert, CertActV::Failed("Failed to write CA cert: "@ + trim(err)))
        } else {
            (
                CertStage::Verify,
                cert,
                CertActV::Run("openssl x509 -in /etc/certs/CA/whoah-cache-ca.pem -noout -subject"@),
            )
        },
        (CertStage::Verify, CertInV::Output(code, _, err)) => if code != 0 {
            (
                CertStage::Finished,
                cert,
                CertActV::Failed("CA cert verification failed: "@ + trim(err)),
            )
        } else {
            (CertStage::Finished, cert, CertActV::Installed(cert_path()))
        },
        (CertStage::Finished, _) => (CertStage::Finished, cert, CertActV::Failed(seq![])),
        (_, CertInV::Error(e)) => (CertStage::Finished, cert, CertActV::Failed(e)),
        _ => (CertStage::Finished, cert, CertActV::Failed(seq![])),
    }
}

impl CertInstall {
    /// An installation that has done nothing yet; first, read the
    /// certificate.
    pub fn new() -> (r: (CertInstall, CertAct))
        ensures
            r.0.stage == CertStage::Fetch,
            r.0.cert@ == Seq::<char>::empty(),
            cert_act_view(r.1) == CertActV::Fetch,
    {
        (CertInstall { stage: CertStage::Fetch, cert: String::new() }, CertAct::Fetch)
    }

    /// Take what the last action gave; answer the next action.
    pub fn step(&mut self, input: CertInput) -> (r: CertAct)
        ensures
            (final(self).stage, final(self).cert@, cert_act_view(r)) == spec_cert_step(
                old(self).stage,
                old(self).cert@,
                cert_in_view(input),
            ),
    {
        match (self.stage, input) {
            (CertStage::Fetch, CertInput::Cert(c)) => {
                self.cert = c;
                self.stage = CertStage::Mkdir;
                CertAct::Run(string_from("pfexec mkdir -p /etc/certs/CA"))
            },
            (CertStage::Mkdir, CertInput::Output { .. }) => {
                self.stage = CertStage::Write;
                CertAct::Run(write_ca_cert_command(self.cert.as_str()))
            },
            (CertStage::Write, CertInput::Output { exit_code, stderr, .. }) => {
                if exit_code != 0 {
                    self.stage = CertStage::Finished;
                    CertAct::Failed(prefixed_trimmed("Failed to write CA cert: ", stderr.as_str()))
                } else {
                    self.stage = CertStage::Verify;
                    CertAct::Run(string_from(verify_ca_cert_command()))
                }
            },
            (CertStage::Verify, CertInput::Output { exit_code, stderr, .. }) => {
                self.stage = CertStage::Finished;
                if exit_code != 0 {
                    CertAct::Failed(prefixed_trimmed("CA cert verification failed: ", stderr.as_str()))
                } else {
                    CertAct::Installed(string_from(ca_cert_path()))
                }
            },
            (CertStage::Finished, _) => CertAct::Failed(String::new()),
            (_, CertInput::Error(e)) => {
                self.stage = CertStage::Finished;
                CertAct::Failed(e)
            },
            _ => {
                self.stage = CertStage::Finished;
                CertAct::Failed(String::new())
            },
        }
    }
}

/// The error when the certificate cannot be read out of the container.
pub fn cert_read_failed(stderr: &str) -> (r: String)
    ensures
        r@ == "Failed to read CA cert: "@ + stderr@,
{
    prefixed("Failed to read CA cert: ", stderr)
}

// --- The cache setup step ---

/// Where the cache setup stands.
#[derive(Debug, Clone, Copy, PartialEq, Eq, Structural)]
pub enum CacheStage {
    Ensure,
    Connect,
    VerifyPkg,
    SetPublisher,
    InstallCert,
    ProxyEnv,
    VerifyProxy,
    Close,
    Finished,
}

/// What the caller does next.
#[derive(Debug)]
pub enum CacheAct {
    /// Make sure the caching proxies run, and say where they are.
    EnsureCaches,
    /// Connect to the host.
    Connect,
    Run(String),
    /// Install the proxy's CA certificate on the host (see `CertInstall`).
    InstallCaCert,
    /// Close the connection.
    Close,
    Done,
    /// The step failed; close the connection if one is open.
    Abort(String),
}

/// What the last action gave.
pub enum CacheInput {
    Caches(CacheInfo),
    /// Connected, or the connection closed.
    Ack,
    Output { exit_code: i32, stdout: String, stderr: String },
    /// The certificate was installed at the path given.
    CertPath(String),
    Failed(String),
}

pub enum CacheActV {
    EnsureCaches,
    Connect,
    Run(Seq<char>),
    InstallCaCert,
    Close,
    Done,
    Abort(Seq<char>),
}

pub open spec fn cache_act_view(a: CacheAct) -> CacheActV {
    match a {
        CacheAct::EnsureCaches => CacheActV::EnsureCaches,
        CacheAct::Connect => CacheActV::Connect,
        CacheAct::Run(c) => CacheActV::Run(c@),
        CacheAct::InstallCaCert => CacheActV::InstallCaCert,
        CacheAct::Close => CacheActV::Close,
        CacheAct::Done => CacheActV::Done,
        CacheAct::Abort(m) => CacheActV::Abort(m@),
    }
}

pub enum CacheInV {
    /// Publisher URL, HTTPS proxy URL, LAN address, nginx and squid were
    /// running.
    Caches(Seq<char>, Seq<char>, Seq<char>, bool, bool),
    Ack,
    Output(i32, Seq<char>, Seq<char>),
    CertPath(Seq<char>),
    Failed(Seq<char>),
}

pub open spec fn cache_in_view(i: CacheInput) -> CacheInV {
    match i {
        CacheInput::Caches(c) => CacheInV::Caches(
            c.publisher_url@,
            c.https_proxy_url@,
            c.lan_ip@,
            c.nginx_was_running,
            c.squid_was_running,
        ),
        CacheInput::Ack => CacheInV::Ack,
        CacheInput::Output { exit_code, stdout, stderr } => CacheInV::Output(
            exit_code,
            stdout@,
            stderr@,
        ),
        CacheInput::CertPath(p) => CacheInV::CertPath(p@),
        CacheInput::Failed(e) => CacheInV::Failed(e@),
    }
}

/// A cache setup run: its stage and the cache URLs once known.
pub struct CacheSetup {
    pub stage: CacheStage,
    pub publisher_url: String,
    pub https_proxy_url: String,
}

/// Starting the caching proxies on this machine.
pub open spec fn start_id() -> Seq<char> {
    "cache-start"@
}

/// Pointing the host at them.
pub open spec fn configure_id() -> Seq<char> {
    "cache-configure"@
}

/// How a container was found.
pub open spec fn was(running: bool) -> Seq<char> {
    if running {
        "already running"@
    } else {
        "started"@
    }
}

/// The stage, the URLs (publisher, proxy), the events and the action.
pub open spec fn spec_cache_step(
    stage: CacheStage,
    publisher: Seq<char>,
    proxy: Seq<char>,
    i: CacheInV,
) -> (CacheStage, Seq<char>, Seq<char>, Seq<Ev>, CacheActV) {
    let fail = |m: Seq<char>, abort: Seq<char>|
        (CacheStage::Finished, publisher, proxy, seq![Ev::Failed(configure_id(), m)], CacheActV::Abort(abort));
    let halt = |m: Seq<char>| (CacheStage::Finished, publisher, proxy, seq![], CacheActV::Abort(m));
    match stage {
        CacheStage::Ensure => match i {
            CacheInV::Caches(p, h, lan, nginx, squid) => (
                CacheStage::Connect,
                p,
                h,
                seq![
                    det(start_id(), "nginx "@ + was(nginx) + ", squid "@ + was(squid) + " on "@ + lan),
                    Ev::Completed(start_id()),
                    Ev::Started(configure_id()),
                ],
                CacheActV::Connect,
            ),
            CacheInV::Failed(e) => (
                CacheStage::Finished,
                publisher,
                proxy,
                seq![Ev::Failed(start_id(), e)],
                CacheActV::Abort(e),
            ),
            _ => halt(seq![]),
        },
        CacheStage::Connect => match i {
            CacheInV::Ack => {
                let cmd = "curl -sf --connect-timeout 5 --max-time 10 "@ + publisher
                    + "catalog/1/catalog.attrs >/dev/null 2>&1"@;
                (
                    CacheStage::VerifyPkg,
                    publisher,
                    proxy,
                    seq![det(configure_id(), "Verifying pkg cache from Helios..."@)],
                    CacheActV::Run(cmd),
                )
            },
            CacheInV::Failed(e) => fail("SSH failed: "@ + e, e),
            _ => halt(seq![]),
        },
        CacheStage::VerifyPkg => match i {
            CacheInV::Output(code, _, _) => if code == 0 {
                (
                    CacheStage::SetPublisher,
                    publisher,
                    proxy,
                    seq![det(configure_id(), "Setting pkg publisher..."@)],
                    CacheActV::Run("pfexec pkg set-publisher -O "@ + publisher + " helios-dev"@),
                )
            } else {
                let m = "Pkg cache not reachable at "@ + publisher;
                fail(m, m)
            },
            CacheInV::Failed(e) => halt(e),
            _ => halt(seq![]),
        },
        CacheStage::SetPublisher => match i {
            CacheInV::Output(code, _, err) => if code != 0 {
                let m = "Failed to set publisher: "@ + trim(err);
                fail(m, m)
            } else {
                (
                    CacheStage::InstallCert,
                    publisher,
                    proxy,
                    seq![det(configure_id(), "Installing HTTPS proxy CA cert..."@)],
                    CacheActV::InstallCaCert,
                )
            },
            CacheInV::Failed(e) => fail(e, e),
            _ => halt(seq![]),
        },
        CacheStage::InstallCert => match i {
            CacheInV::CertPath(path) => (
                CacheStage::ProxyEnv,
                publisher,
                proxy,
                seq![det(configure_id(), "Configuring HTTPS proxy env..."@)],
                CacheActV::Run(
                    "pfexec mkdir -p /etc/profile.d && printf '"@ + spec_escape_quotes(
                        spec_proxy_env_script(proxy, path),
                    ) + "' | pfexec tee /etc/profile.d/whoah-proxy.sh > /dev/null"@,
                ),
            ),
            CacheInV::Failed(e) => fail("CA cert install failed: "@ + e, e),
            _ => halt(seq![]),
        },
        CacheStage::ProxyEnv => match i {
            CacheInV::Output(code, _, err) => if code != 0 {
                let e = "Failed to write proxy env: "@ + trim(err);
                fail("Proxy env config failed: "@ + e, e)
            } else {
                (
                    CacheStage::VerifyProxy,
                    publisher,
                    proxy,
                    seq![det(configure_id(), "Verifying HTTPS proxy from Helios..."@)],
                    CacheActV::Run(
                        "curl -sf --connect-timeout 5 --max-time 10 --proxy "@ + proxy
                            + " -k https://pkg.oxide.computer/helios/2/dev/versions/0/ >/dev/null 2>&1"@,
                    ),
                )
            },
            CacheInV::Failed(e) => fail("Proxy env config failed: "@ + e, e),
            _ => halt(seq![]),
        },
        CacheStage::VerifyProxy => match i {
            CacheInV::Output(code, _, _) => (
                CacheStage::Close,
                publisher,
                proxy,
                if code == 0 {
                    seq![]
                } else {
                    seq![
                        det(
                            configure_id(),
                            "Warning: HTTPS proxy not reachable \u{2014} downloads will go direct"@,
                        ),
                    ]
                },
                CacheActV::Close,
            ),
            CacheInV::Failed(e) => halt(e),
            _ => halt(seq![]),
        },
        CacheStage::Close => (
            CacheStage::Finished,
            publisher,
            proxy,
            seq![
                det(configure_id(), "Caches configured: pkg="@ + publisher + " https_proxy="@ + proxy),
                Ev::Completed(configure_id()),
            ],
            CacheActV::Done,
        ),
        CacheStage::Finished => halt(seq![]),
    }
}

fn fail_events(m: String) -> (r: Vec<BuildEvent>)
    ensures
        evs_view(r@) == seq![Ev::Failed(configure_id(), m@)],
{
    let mut v = no_events();
    push_ev(&mut v, BuildEvent::StepFailed(string_from("cache-configure"), m));
    v
}

fn detail_events(m: String) -> (r: Vec<BuildEvent>)
    ensures
        evs_view(r@) == seq![det(configure_id(), m@)],
{
    let mut v = no_events();
    push_ev(&mut v, BuildEvent::StepDetail(string_from("cache-configure"), m));
    v
}

impl CacheSetup {
    /// A setup that has done nothing yet: report the step and start the
    /// caches.
    pub fn new() -> (r: (CacheSetup, Vec<BuildEvent>, CacheAct))
        ensures
            r.0.stage == CacheStage::Ensure,
            r.0.publisher_url@ == Seq::<char>::empty(),
            r.0.https_proxy_url@ == Seq::<char>::empty(),
            evs_view(r.1@) == seq![Ev::Started(start_id()), det(start_id(), "Starting local caching proxies..."@)],
            cache_act_view(r.2) == CacheActV::EnsureCaches,
    {
        let mut evs = no_events();
        push_ev(&mut evs, BuildEvent::StepStarted(string_from("cache-start")));
        push_ev(&mut evs, detail("cache-start", "Starting local caching proxies..."));
        (
            CacheSetup {
                stage: CacheStage::Ensure,
                publisher_url: String::new(),
                https_proxy_url: String::new(),
            },
            evs,
            CacheAct::EnsureCaches,
        )
    }

    /// Take what the last action gave: the events to report and the next
    /// action. A finished run answers every input by stopping.
    pub fn step(&mut self, input: CacheInput) -> (r: (Vec<BuildEvent>, CacheAct))
        ensures
            ({
                let e = spec_cache_step(
                    old(self).stage,
                    old(self).publisher_url@,
                    old(self).https_proxy_url@,
                    cache_in_view(input),
                );
                &&& final(self).stage == e.0
                &&& final(self).publisher_url@ == e.1
                &&& final(self).https_proxy_url@ == e.2
                &&& evs_view(r.0@) == e.3
                &&& cache_act_view(r.1) == e.4
            }),
    {
        let stage = self.stage;
        let (next, evs, act) = match (stage, input) {
            (CacheStage::Ensure, CacheInput::Caches(info)) => {
                let mut m = string_from("nginx ");
                push_str(&mut m, if info.nginx_was_running { "already running" } else { "started" });
                push_str(&mut m, ", squid ");
                push_str(&mut m, if info.squid_was_running { "already running" } else { "started" });
                push_str(&mut m, " on ");
                push_str(&mut m, info.lan_ip.as_str());
                self.publisher_url = info.publisher_url;
                self.https_proxy_url = info.https_proxy_url;
                let mut evs = no_events();
                push_ev(&mut evs, BuildEvent::StepDetail(string_from("cache-start"), m));
                push_ev(&mut evs, BuildEvent::StepCompleted(string_from("cache-start")));
                push_ev(&mut evs, BuildEvent::StepStarted(string_from("cache-configure")));
                (CacheStage::Connect, evs, CacheAct::Connect)
            },
            (CacheStage::Ensure, CacheInput::Failed(e)) => {
                let mut evs = no_events();
                push_ev(&mut evs, BuildEvent::StepFailed(string_from("cache-start"), e.clone()));
                (CacheStage::Finished, evs, CacheAct::Abort(e))
            },
            (CacheStage::Connect, CacheInput::Ack) => (
                CacheStage::VerifyPkg,
                detail_events(string_from("Verifying pkg cache from Helios...")),
                CacheAct::Run(verify_pkg_cache_command(self.publisher_url.as_str())),
            ),
            (CacheStage::Connect, CacheInput::Failed(e)) => (
                CacheStage::Finished,
                fail_events(prefixed("SSH failed: ", e.as_str())),
                CacheAct::Abort(e),
            ),
            (CacheStage::VerifyPkg, CacheInput::Output { exit_code, .. }) => {
                if exit_code == 0 {
                    (
                        CacheStage::SetPublisher,
                        detail_events(string_from("Setting pkg publisher...")),
                        CacheAct::Run(set_publisher_command(self.publisher_url.as_str())),
                    )
                } else {
                    let m = prefixed("Pkg cache not reachable at ", self.publisher_url.as_str());
                    (CacheStage::Finished, fail_events(m.clone()), CacheAct::Abort(m))
                }
            },
            (CacheStage::VerifyPkg, CacheInput::Failed(e)) => (
                CacheStage::Finished,
                no_events(),
                CacheAct::Abort(e),
            ),
            (CacheStage::SetPublisher, CacheInput::Output { exit_code, stderr, .. }) => {
                if exit_code != 0 {
                    let m = prefixed_trimmed("Failed to set publisher: ", stderr.as_str());
                    (CacheStage::Finished, fail_events(m.clone()), CacheAct::Abort(m))
                } else {
                    (
                        CacheStage::InstallCert,
                        detail_events(string_from("Installing HTTPS proxy CA cert...")),
                        CacheAct::InstallCaCert,
                    )
                }
            },
            (CacheStage::InstallCert, CacheInput::CertPath(path)) => (
                CacheStage::ProxyEnv,
                detail_events(string_from("Configuring HTTPS proxy env...")),
                CacheAct::Run(proxy_env_command(self.https_proxy_url.as_str(), path.as_str())),
            ),
            (CacheStage::InstallCert, CacheInput::Failed(e)) => (
                CacheStage::Finished,
                fail_events(prefixed("CA cert install failed: ", e.as_str())),
                CacheAct::Abort(e),
            ),
            (CacheStage::ProxyEnv, CacheInput::Output { exit_code, stderr, .. }) => {
                if exit_code != 0 {
                    let e = prefixed_trimmed("Failed to write proxy env: ", stderr.as_str());
                    (
                        CacheStage::Finished,
                        fail_events(prefixed("Proxy env config failed: ", e.as_str())),
                        CacheAct::Abort(e),
                    )
                } else {
                    (
                        CacheStage::VerifyProxy,
                        detail_events(string_from("Verifying HTTPS proxy from Helios...")),
                        CacheAct::Run(verify_https_proxy_command(self.https_proxy_url.as_str())),
                    )
                }
            },
            (CacheStage::ProxyEnv, CacheInput::Failed(e)) => (
                CacheStage::Finished,
                fail_events(prefixed("Proxy env config failed: ", e.as_str())),
                CacheAct::Abort(e),
            ),
            (CacheStage::VerifyProxy, CacheInput::Output { exit_code, .. }) => {
                if exit_code == 0 {
                    (CacheStage::Close, no_events(), CacheAct::Close)
                } else {
                    (
                        CacheStage::Close,
                        detail_events(
                            string_from(
                                "Warning: HTTPS proxy not reachable \u{2014} downloads will go direct",
                            ),
                        ),
                        CacheAct::Close,
                    )
                }
            },
            (CacheStage::VerifyProxy, CacheInput::Failed(e)) => (
                CacheStage::Finished,
                no_events(),
                CacheAct::Abort(e),
            ),
            (CacheStage::Close, _) => {
                let mut m = string_from("Caches configured: pkg=");
                push_str(&mut m, self.publisher_url.as_str());
                push_str(&mut m, " https_proxy=");
                push_str(&mut m, self.https_proxy_url.as_str());
                let mut evs = detail_events(m);
                push_ev(&mut evs, BuildEvent::StepCompleted(string_from("cache-configure")));
                (CacheStage::Finished, evs, CacheAct::Done)
            },
            (CacheStage::Finished, _) => (CacheStage::Finished, no_events(), CacheAct::Abort(String::new())),
            (_, CacheInput::Failed(e)) => (CacheStage::Finished, fail_events(e.clone()), CacheAct::Abort(e)),
            _ => (CacheStage::Finished, no_events(), CacheAct::Abort(String::new())),
        };
        self.stage = next;
        (evs, act)
    }
}

} // verus!
