//! Setting up the Helios host's OS for the build, as a state machine:
//! update the OS (rebooting when an update landed), point the package
//! publisher and the HTTPS proxy at the local caches, delete stale boot
//! environments, install the build packages and the Rust toolchain, and
//! make sure the host has swap.
//!
//! Each step takes what the last action gave and answers with the build
//! events to report and the next action; connecting, running commands,
//! sleeping and the local caches are the caller's. A command run is
//! reported as a detail of the current step before it runs, and the
//! output of a streamed command is reported by the caller line by line.
use vstd::prelude::*;
use crate::console::{check_failure, proxy_env, spec_proxy_env, streaming_failure, with_proxy};
use crate::deploy::{
    destroy_be_command, rust_installed, rust_toolchain, rustup_command, spec_stale_bes,
    spec_update_needs_reboot, stale_boot_environments, swap_configured, update_needs_reboot,
};
use crate::monitor::BuildEvent;
use crate::parse::network::strings_view;
use crate::pkg_cache::{ca_cert_path, set_publisher_command};
use crate::provision::{detail, det, evs_view, no_events, prefixed, push_ev, Ev};
use crate::text::{contains, lines, opt_view, signed_decimal, string_from, string_of, to_chars, trim, trim_chars};

verus! {

/// Where the setup stands.
#[derive(Debug, Clone, Copy, PartialEq, Eq, Structural)]
pub enum OsStage {
    Connect,
    OpenLog,
    Update,
    CountBe,
    Reboot,
    CloseAfterReboot,
    RebootSleep,
    WaitSsh,
    CloseBeforeSetup,
    ConnectSetup,
    OpenSetupLog,
    EnsureCaches,
    SetPublisher,
    InstallCert,
    ListBe,
    /// Destroying the stale boot environment of that index.
    DestroyBe(usize),
    Packages,
    RustCheck,
    Rustup,
    RustVerify,
    SwapList,
    ZfsList,
    ZfsCreate,
    VfstabGrep,
    VfstabAdd,
    SwapAdd,
    FinalClose,
    Finished,
}

/// What the caller does next.
#[derive(Debug)]
pub enum OsAct {
    /// Connect to the host under the label given, closing any connection
    /// open.
    Connect(&'static str),
    /// Open the command log; its commands are reported under the step given.
    OpenLog(&'static str),
    /// Run a command.
    Run(String),
    /// Run a command, reporting its output lines as they come.
    RunStreaming(String),
    /// Run a command that may not return (a reboot), giving up after the
    /// seconds given.
    RunBriefly { cmd: String, secs: u64 },
    /// Close the connection.
    Close,
    Sleep(u64),
    /// Try to connect until the host answers, for at most the seconds given.
    WaitForSsh(u64),
    /// Make sure the local caching proxies run, and say where they are.
    EnsureCaches,
    /// Install the caching proxy's CA certificate on the host, fetched from
    /// the proxy at the address given.
    InstallCaCert(String),
    Done,
    Abort(String),
}

/// What the last action gave.
#[derive(Debug)]
pub enum OsInput {
    /// The action succeeded (a connection, a log, a sleep, a close).
    Ack,
    /// The action failed.
    Failed(String),
    /// A command ran.
    Output { exit_code: i32, stdout: String, stderr: String },
    /// A streamed command ended with the exit code given.
    Exited(i32),
    /// The caches run, at these URLs, for the LAN address given.
    Caches { publisher_url: String, https_proxy_url: String, lan_ip: String },
    /// The CA certificate was installed at the path given.
    CertPath(String),
}

/// An OS setup run.
#[derive(Debug)]
pub struct OsSetup {
    pub stage: OsStage,
    pub publisher_url: String,
    pub https_proxy_url: String,
    pub lan_ip: String,
    /// The proxy environment of the proxied commands, once known.
    pub proxy: Option<String>,
    /// The stale boot environments found.
    pub stale: Vec<String>,
}

pub enum OsActV {
    Connect(Seq<char>),
    OpenLog(Seq<char>),
    Run(Seq<char>),
    RunStreaming(Seq<char>),
    RunBriefly(Seq<char>, u64),
    Close,
    Sleep(u64),
    WaitForSsh(u64),
    EnsureCaches,
    InstallCaCert(Seq<char>),
    Done,
    Abort(Seq<char>),
}

pub open spec fn os_act_view(a: OsAct) -> OsActV {
    match a {
        OsAct::Connect(l) => OsActV::Connect(l@),
        OsAct::OpenLog(s) => OsActV::OpenLog(s@),
        OsAct::Run(c) => OsActV::Run(c@),
        OsAct::RunStreaming(c) => OsActV::RunStreaming(c@),
        OsAct::RunBriefly { cmd, secs } => OsActV::RunBriefly(cmd@, secs),
        OsAct::Close => OsActV::Close,
        OsAct::Sleep(n) => OsActV::Sleep(n),
        OsAct::WaitForSsh(n) => OsActV::WaitForSsh(n),
        OsAct::EnsureCaches => OsActV::EnsureCaches,
        OsAct::InstallCaCert(ip) => OsActV::InstallCaCert(ip@),
        OsAct::Done => OsActV::Done,
        OsAct::Abort(m) => OsActV::Abort(m@),
    }
}

pub enum OsInV {
    Ack,
    Failed(Seq<char>),
    Output(i32, Seq<char>, Seq<char>),
    Exited(i32),
    Caches(Seq<char>, Seq<char>, Seq<char>),
    CertPath(Seq<char>),
}

pub open spec fn os_in_view(i: OsInput) -> OsInV {
    match i {
        OsInput::Ack => OsInV::Ack,
        OsInput::Failed(e) => OsInV::Failed(e@),
        OsInput::Output { exit_code, stdout, stderr } => OsInV::Output(exit_code, stdout@, stderr@),
        OsInput::Exited(c) => OsInV::Exited(c),
        OsInput::Caches { publisher_url, https_proxy_url, lan_ip } => OsInV::Caches(
            publisher_url@,
            https_proxy_url@,
            lan_ip@,
        ),
        OsInput::CertPath(p) => OsInV::CertPath(p@),
    }
}

/// The state as values.
#[verifier::ext_equal]
pub struct OsView {
    pub stage: OsStage,
    pub publisher_url: Seq<char>,
    pub https_proxy_url: Seq<char>,
    pub lan_ip: Seq<char>,
    pub proxy: Option<Seq<char>>,
    pub stale: Seq<Seq<char>>,
}

impl View for OsSetup {
    type V = OsView;

    open spec fn view(&self) -> OsView {
        OsView {
            stage: self.stage,
            publisher_url: self.publisher_url@,
            https_proxy_url: self.https_proxy_url@,
            lan_ip: self.lan_ip@,
            proxy: opt_view(self.proxy),
            stale: strings_view(self.stale@),
        }
    }
}

// --- The commands ---

pub open spec fn update_cmd() -> Seq<char> {
    "pfexec pkg update -v 2>&1; echo \"PKG_EXIT=$?\""@
}

pub open spec fn be_count_cmd() -> Seq<char> {
    "beadm list -H | wc -l"@
}

pub open spec fn packages_cmd() -> Seq<char> {
    "pfexec pkg install -v /developer/build-essential /developer/illumos-tools /developer/pkg-config /library/libxmlsec1 /system/zones/brand/omicron1/tools 2>&1"@
}

pub open spec fn rust_check_cmd() -> Seq<char> {
    "bash -c '. ~/.cargo/env 2>/dev/null; rustc -V 2>/dev/null'"@
}

pub open spec fn rust_verify_cmd() -> Seq<char> {
    "bash -c '. ~/.cargo/env && rustc -V'"@
}

pub open spec fn rustup_cmd() -> Seq<char> {
    "bash -c 'curl --proto =https --tlsv1.2 -sSf https://sh.rustup.rs | bash -s -- -y --default-toolchain "@
        + "1.91.1"@ + "' 2>&1"@
}

pub open spec fn zfs_list_cmd() -> Seq<char> {
    "zfs list rpool/swap 2>/dev/null"@
}

pub open spec fn zfs_create_cmd() -> Seq<char> {
    "pfexec zfs create -V 8G rpool/swap"@
}

pub open spec fn vfstab_grep_cmd() -> Seq<char> {
    "grep rpool/swap /etc/vfstab"@
}

pub open spec fn vfstab_add_cmd() -> Seq<char> {
    "echo '/dev/zvol/dsk/rpool/swap - - swap - no -' | pfexec tee -a /etc/vfstab"@
}

pub open spec fn swap_add_cmd() -> Seq<char> {
    "pfexec /usr/sbin/swap -a /dev/zvol/dsk/rpool/swap"@
}

// --- The steps ---

pub open spec fn update_id() -> Seq<char> {
    "os-update"@
}

pub open spec fn cleanup_id() -> Seq<char> {
    "os-cleanup"@
}

pub open spec fn packages_id() -> Seq<char> {
    "os-packages"@
}

pub open spec fn rust_id() -> Seq<char> {
    "os-rust"@
}

pub open spec fn swap_id() -> Seq<char> {
    "os-swap"@
}

/// A next stage, the events and the action; the rest of the state kept.
pub open spec fn go(s: OsView, stage: OsStage, evs: Seq<Ev>, act: OsActV) -> (OsView, Seq<Ev>, OsActV) {
    (OsView { stage, ..s }, evs, act)
}

/// The run stops with `m`, reporting nothing more.
pub open spec fn halt(s: OsView, m: Seq<char>) -> (OsView, Seq<Ev>, OsActV) {
    go(s, OsStage::Finished, seq![], OsActV::Abort(m))
}

/// A step fails with `m` and the run stops with `abort`.
pub open spec fn fail_step(s: OsView, id: Seq<char>, m: Seq<char>, abort: Seq<char>) -> (OsView, Seq<Ev>, OsActV) {
    go(s, OsStage::Finished, seq![Ev::Failed(id, m)], OsActV::Abort(abort))
}

/// Delete the stale boot environment of index `k`.
pub open spec fn destroy_be(s: OsView, k: int) -> (OsView, Seq<Ev>, OsActV) {
    go(
        s,
        OsStage::DestroyBe(k as usize),
        seq![
            det(cleanup_id(), "Deleting old BE: "@ + s.stale[k]),
            det(cleanup_id(), "pfexec beadm destroy -Ff "@ + s.stale[k]),
        ],
        OsActV::Run("pfexec beadm destroy -Ff "@ + s.stale[k]),
    )
}

/// Boot environments done: install the packages.
pub open spec fn start_packages(s: OsView) -> (OsView, Seq<Ev>, OsActV) {
    go(
        s,
        OsStage::Packages,
        seq![
            Ev::Completed(cleanup_id()),
            Ev::Started(packages_id()),
            det(packages_id(), "Installing required packages..."@),
            det(packages_id(), packages_cmd()),
        ],
        OsActV::RunStreaming(packages_cmd()),
    )
}

/// Rust done (after the events given): check swap.
pub open spec fn start_swap(s: OsView, before: Seq<Ev>) -> (OsView, Seq<Ev>, OsActV) {
    go(
        s,
        OsStage::SwapList,
        before + seq![Ev::Started(swap_id()), det(swap_id(), "Checking swap..."@), det(swap_id(), "swap -l"@)],
        OsActV::Run("swap -l"@),
    )
}

/// The swap entry in the file system table, once the volume exists.
pub open spec fn check_vfstab(s: OsView) -> (OsView, Seq<Ev>, OsActV) {
    go(s, OsStage::VfstabGrep, seq![det(swap_id(), vfstab_grep_cmd())], OsActV::Run(vfstab_grep_cmd()))
}

/// Add the swap device, once listed.
pub open spec fn add_swap(s: OsView) -> (OsView, Seq<Ev>, OsActV) {
    go(s, OsStage::SwapAdd, seq![det(swap_id(), swap_add_cmd())], OsActV::Run(swap_add_cmd()))
}

/// A checked swap command exited non-zero.
pub open spec fn swap_failed(s: OsView, code: i32, err: Seq<char>) -> (OsView, Seq<Ev>, OsActV) {
    let m = "Command failed (exit "@ + signed_decimal(code as int) + "): "@ + trim(err);
    fail_step(s, swap_id(), m, m)
}

/// The first half of the setup: the OS update and, when one landed, the
/// reboot.
pub open spec fn update_step(s: OsView, i: OsInV) -> (OsView, Seq<Ev>, OsActV) {
    match s.stage {
        OsStage::Connect => match i {
            OsInV::Ack => go(s, OsStage::OpenLog, seq![Ev::Started(update_id())], OsActV::OpenLog(update_id())),
            OsInV::Failed(e) => halt(s, e),
            _ => halt(s, seq![]),
        },
        OsStage::OpenLog => match i {
            OsInV::Ack => go(
                s,
                OsStage::Update,
                seq![det(update_id(), "Running pkg update..."@), det(update_id(), update_cmd())],
                OsActV::RunStreaming(update_cmd()),
            ),
            OsInV::Failed(e) => halt(s, e),
            _ => halt(s, seq![]),
        },
        OsStage::Update => match i {
            OsInV::Exited(_) => go(
                s,
                OsStage::CountBe,
                seq![det(update_id(), be_count_cmd())],
                OsActV::Run(be_count_cmd()),
            ),
            OsInV::Failed(e) => halt(s, e),
            _ => halt(s, seq![]),
        },
        OsStage::CountBe => match i {
            OsInV::Output(_, out, _) => if spec_update_needs_reboot(out) {
                go(
                    s,
                    OsStage::Reboot,
                    seq![det(update_id(), "Rebooting for OS update..."@), det(update_id(), "pfexec reboot"@)],
                    OsActV::RunBriefly("pfexec reboot"@, 5),
                )
            } else {
                go(
                    s,
                    OsStage::CloseBeforeSetup,
                    seq![
                        det(update_id(), "Already up to date \u{2014} skipping reboot"@),
                        Ev::Completed(update_id()),
                    ],
                    OsActV::Close,
                )
            },
            OsInV::Failed(e) => halt(s, e),
            _ => halt(s, seq![]),
        },
        OsStage::Reboot => go(s, OsStage::CloseAfterReboot, seq![Ev::Completed(update_id())], OsActV::Close),
        OsStage::CloseAfterReboot => go(
            s,
            OsStage::RebootSleep,
            seq![det(cleanup_id(), "Waiting for host to reboot..."@)],
            OsActV::Sleep(10),
        ),
        OsStage::RebootSleep => go(s, OsStage::WaitSsh, seq![], OsActV::WaitForSsh(300)),
        OsStage::WaitSsh => match i {
            OsInV::Ack => go(s, OsStage::ConnectSetup, seq![], OsActV::Connect("Build/OS-setup"@)),
            OsInV::Failed(e) => halt(s, e),
            _ => halt(s, seq![]),
        },
        _ => go(s, OsStage::ConnectSetup, seq![], OsActV::Connect("Build/OS-setup"@)),
    }
}

/// The caches and the boot environments.
pub open spec fn caches_step(s: OsView, i: OsInV) -> (OsView, Seq<Ev>, OsActV) {
    match s.stage {
        OsStage::ConnectSetup => match i {
            OsInV::Ack => go(s, OsStage::OpenSetupLog, seq![], OsActV::OpenLog(cleanup_id())),
            OsInV::Failed(e) => halt(s, e),
            _ => halt(s, seq![]),
        },
        OsStage::OpenSetupLog => match i {
            OsInV::Ack => go(
                s,
                OsStage::EnsureCaches,
                seq![det(cleanup_id(), "Re-setting caches after reboot..."@)],
                OsActV::EnsureCaches,
            ),
            OsInV::Failed(e) => halt(s, e),
            _ => halt(s, seq![]),
        },
        OsStage::EnsureCaches => match i {
            OsInV::Caches(p, h, l) => {
                let cmd = "pfexec pkg set-publisher -O "@ + p + " helios-dev"@;
                go(
                    OsView { publisher_url: p, https_proxy_url: h, lan_ip: l, ..s },
                    OsStage::SetPublisher,
                    seq![det(cleanup_id(), cmd)],
                    OsActV::Run(cmd),
                )
            },
            OsInV::Failed(e) => halt(s, e),
            _ => halt(s, seq![]),
        },
        OsStage::SetPublisher => go(s, OsStage::InstallCert, seq![], OsActV::InstallCaCert(s.lan_ip)),
        OsStage::InstallCert => {
            let ca = match i {
                OsInV::CertPath(p) => p,
                _ => "/etc/certs/CA/whoah-cache-ca.pem"@,
            };
            go(
                OsView { proxy: Some(spec_proxy_env(s.https_proxy_url, ca)), ..s },
                OsStage::ListBe,
                seq![
                    Ev::Started(cleanup_id()),
                    det(cleanup_id(), "Listing boot environments..."@),
                    det(cleanup_id(), "beadm list -H"@),
                ],
                OsActV::Run("beadm list -H"@),
            )
        },
        OsStage::ListBe => match i {
            OsInV::Output(_, out, _) => {
                let t = OsView { stale: spec_stale_bes(lines(out)), ..s };
                if t.stale.len() > 0 {
                    destroy_be(t, 0)
                } else {
                    start_packages(t)
                }
            },
            OsInV::Failed(e) => halt(s, e),
            _ => halt(s, seq![]),
        },
        OsStage::DestroyBe(k) => if k + 1 < s.stale.len() {
            destroy_be(s, k + 1)
        } else {
            start_packages(s)
        },
        _ => halt(s, seq![]),
    }
}

/// The packages and the Rust toolchain.
pub open spec fn tools_step(s: OsView, i: OsInV) -> (OsView, Seq<Ev>, OsActV) {
    match s.stage {
        OsStage::Packages => match i {
            OsInV::Exited(code) => if code == 0 || code == 4 {
                go(
                    s,
                    OsStage::RustCheck,
                    seq![
                        Ev::Completed(packages_id()),
                        Ev::Started(rust_id()),
                        det(rust_id(), "Installing Rust toolchain 1.91.1..."@),
                        det(rust_id(), rust_check_cmd()),
                    ],
                    OsActV::Run(rust_check_cmd()),
                )
            } else {
                fail_step(
                    s,
                    packages_id(),
                    "pkg install failed with exit code "@ + signed_decimal(code as int),
                    "pkg install failed"@,
                )
            },
            OsInV::Failed(e) => halt(s, e),
            _ => halt(s, seq![]),
        },
        OsStage::RustCheck => match i {
            OsInV::Output(code, out, _) => if code == 0 && contains(out, "1.91.1"@) {
                start_swap(
                    s,
                    seq![det(rust_id(), "Rust 1.91.1 already installed"@), Ev::Completed(rust_id())],
                )
            } else {
                let cmd = match s.proxy {
                    Some(e) => e + " "@ + rustup_cmd(),
                    None => rustup_cmd(),
                };
                go(s, OsStage::Rustup, seq![det(rust_id(), cmd)], OsActV::RunStreaming(cmd))
            },
            OsInV::Failed(e) => halt(s, e),
            _ => halt(s, seq![]),
        },
        OsStage::Rustup => match i {
            OsInV::Exited(code) => if code == 0 {
                go(s, OsStage::RustVerify, seq![det(rust_id(), rust_verify_cmd())], OsActV::Run(rust_verify_cmd()))
            } else {
                let m = "Command failed with exit code "@ + signed_decimal(code as int);
                go(s, OsStage::Finished, seq![Ev::Failed(rust_id(), m), Ev::Failed(rust_id(), m)], OsActV::Abort(m))
            },
            OsInV::Failed(e) => fail_step(s, rust_id(), e, e),
            _ => halt(s, seq![]),
        },
        OsStage::RustVerify => match i {
            OsInV::Output(_, out, _) => start_swap(
                s,
                seq![det(rust_id(), "Installed: "@ + trim(out)), Ev::Completed(rust_id())],
            ),
            OsInV::Failed(e) => halt(s, e),
            _ => halt(s, seq![]),
        },
        _ => halt(s, seq![]),
    }
}

/// Swap.
pub open spec fn swap_step(s: OsView, i: OsInV) -> (OsView, Seq<Ev>, OsActV) {
    match i {
        OsInV::Output(code, out, err) => match s.stage {
            OsStage::SwapList => if contains(out, "swapfile"@) && lines(out).len() > 1 {
                go(
                    s,
                    OsStage::FinalClose,
                    seq![det(swap_id(), "Swap already configured"@), Ev::Completed(swap_id())],
                    OsActV::Close,
                )
            } else {
                go(
                    s,
                    OsStage::ZfsList,
                    seq![det(swap_id(), "Creating 8GB swap..."@), det(swap_id(), zfs_list_cmd())],
                    OsActV::Run(zfs_list_cmd()),
                )
            },
            OsStage::ZfsList => if code != 0 {
                go(s, OsStage::ZfsCreate, seq![det(swap_id(), zfs_create_cmd())], OsActV::Run(zfs_create_cmd()))
            } else {
                check_vfstab(s)
            },
            OsStage::ZfsCreate => if code != 0 {
                swap_failed(s, code, err)
            } else {
                check_vfstab(s)
            },
            OsStage::VfstabGrep => if code != 0 {
                go(s, OsStage::VfstabAdd, seq![det(swap_id(), vfstab_add_cmd())], OsActV::Run(vfstab_add_cmd()))
            } else {
                add_swap(s)
            },
            OsStage::VfstabAdd => if code != 0 {
                swap_failed(s, code, err)
            } else {
                add_swap(s)
            },
            _ => if code != 0 {
                swap_failed(s, code, err)
            } else {
                go(
                    s,
                    OsStage::FinalClose,
                    seq![det(swap_id(), "Swap configured"@), Ev::Completed(swap_id())],
                    OsActV::Close,
                )
            },
        },
        OsInV::Failed(e) => halt(s, e),
        _ => halt(s, seq![]),
    }
}

/// The next state, events and action, from a state and what the last
/// action gave.
pub open spec fn spec_os_step(s: OsView, i: OsInV) -> (OsView, Seq<Ev>, OsActV) {
    match s.stage {
        OsStage::Connect | OsStage::OpenLog | OsStage::Update | OsStage::CountBe | OsStage::Reboot
        | OsStage::CloseAfterReboot | OsStage::RebootSleep | OsStage::WaitSsh
        | OsStage::CloseBeforeSetup => update_step(s, i),
        OsStage::ConnectSetup | OsStage::OpenSetupLog | OsStage::EnsureCaches
        | OsStage::SetPublisher | OsStage::InstallCert | OsStage::ListBe | OsStage::DestroyBe(_) => caches_step(s, i),
        OsStage::Packages | OsStage::RustCheck | OsStage::Rustup | OsStage::RustVerify => tools_step(s, i),
        OsStage::SwapList | OsStage::ZfsList | OsStage::ZfsCreate | OsStage::VfstabGrep
        | OsStage::VfstabAdd | OsStage::SwapAdd => swap_step(s, i),
        OsStage::FinalClose => go(s, OsStage::Finished, seq![], OsActV::Done),
        OsStage::Finished => halt(s, seq![]),
    }
}

// --- Running the steps ---

fn events1(a: BuildEvent) -> (r: Vec<BuildEvent>)
    ensures
        evs_view(r@) == seq![crate::provision::ev_view(a)],
{
    let mut v = no_events();
    push_ev(&mut v, a);
    v
}

fn events2(a: BuildEvent, b: BuildEvent) -> (r: Vec<BuildEvent>)
    ensures
        evs_view(r@) == seq![crate::provision::ev_view(a), crate::provision::ev_view(b)],
{
    let mut v = events1(a);
    push_ev(&mut v, b);
    v
}

fn step_detail(id: &str, m: String) -> (e: BuildEvent)
    ensures
        crate::provision::ev_view(e) == det(id@, m@),
{
    BuildEvent::StepDetail(string_from(id), m)
}

fn started(id: &str) -> (e: BuildEvent)
    ensures
        crate::provision::ev_view(e) == Ev::Started(id@),
{
    BuildEvent::StepStarted(string_from(id))
}

fn completed(id: &str) -> (e: BuildEvent)
    ensures
        crate::provision::ev_view(e) == Ev::Completed(id@),
{
    BuildEvent::StepCompleted(string_from(id))
}

fn failed(id: &str, m: String) -> (e: BuildEvent)
    ensures
        crate::provision::ev_view(e) == Ev::Failed(id@, m@),
{
    BuildEvent::StepFailed(string_from(id), m)
}

impl OsSetup {
    /// A setup that has done nothing yet, and its first action: connect.
    pub fn new() -> (r: (OsSetup, OsAct))
        ensures
            r.0@ == (OsView {
                stage: OsStage::Connect,
                publisher_url: seq![],
                https_proxy_url: seq![],
                lan_ip: seq![],
                proxy: None,
                stale: seq![],
            }),
            os_act_view(r.1) == OsActV::Connect("Build/pkg-update"@),
    {
        let s = OsSetup {
            stage: OsStage::Connect,
            publisher_url: String::new(),
            https_proxy_url: String::new(),
            lan_ip: String::new(),
            proxy: None,
            stale: Vec::new(),
        };
        assert(strings_view(s.stale@) =~= Seq::<Seq<char>>::empty());
        (s, OsAct::Connect("Build/pkg-update"))
    }

    /// Take what the last action gave: the events to report and the next
    /// action. A finished run answers every input by stopping.
    pub fn step(&mut self, input: OsInput) -> (r: (Vec<BuildEvent>, OsAct))
        ensures
            final(self)@ == spec_os_step(old(self)@, os_in_view(input)).0,
            evs_view(r.0@) == spec_os_step(old(self)@, os_in_view(input)).1,
            os_act_view(r.1) == spec_os_step(old(self)@, os_in_view(input)).2,
    {
        match self.stage {
            OsStage::Connect | OsStage::OpenLog | OsStage::Update | OsStage::CountBe
            | OsStage::Reboot | OsStage::CloseAfterReboot | OsStage::RebootSleep
            | OsStage::WaitSsh | OsStage::CloseBeforeSetup => self.update_part(input),
            OsStage::ConnectSetup | OsStage::OpenSetupLog | OsStage::EnsureCaches
            | OsStage::SetPublisher | OsStage::InstallCert | OsStage::ListBe
            | OsStage::DestroyBe(_) => self.caches_part(input),
            OsStage::Packages | OsStage::RustCheck | OsStage::Rustup | OsStage::RustVerify => self.tools_part(input),
            OsStage::SwapList | OsStage::ZfsList | OsStage::ZfsCreate | OsStage::VfstabGrep
            | OsStage::VfstabAdd | OsStage::SwapAdd => self.swap_part(input),
            OsStage::FinalClose => {
                self.stage = OsStage::Finished;
                (no_events(), OsAct::Done)
            },
            OsStage::Finished => (no_events(), OsAct::Abort(String::new())),
        }
    }

    fn halt(&mut self, m: String) -> (r: (Vec<BuildEvent>, OsAct))
        ensures
            final(self)@ == halt(old(self)@, m@).0,
            evs_view(r.0@) == halt(old(self)@, m@).1,
            os_act_view(r.1) == halt(old(self)@, m@).2,
    {
        self.stage = OsStage::Finished;
        (no_events(), OsAct::Abort(m))
    }

    fn update_part(&mut self, input: OsInput) -> (r: (Vec<BuildEvent>, OsAct))
        requires
            old(self).stage is Connect || old(self).stage is OpenLog || old(self).stage is Update
                || old(self).stage is CountBe || old(self).stage is Reboot
                || old(self).stage is CloseAfterReboot || old(self).stage is RebootSleep
                || old(self).stage is WaitSsh || old(self).stage is CloseBeforeSetup,
        ensures
            final(self)@ == update_step(old(self)@, os_in_view(input)).0,
            evs_view(r.0@) == update_step(old(self)@, os_in_view(input)).1,
            os_act_view(r.1) == update_step(old(self)@, os_in_view(input)).2,
    {
        match self.stage {
            OsStage::Connect => match input {
                OsInput::Ack => {
                    self.stage = OsStage::OpenLog;
                    (events1(started("os-update")), OsAct::OpenLog("os-update"))
                },
                OsInput::Failed(e) => self.halt(e),
                _ => self.halt(String::new()),
            },
            OsStage::OpenLog => match input {
                OsInput::Ack => {
                    self.stage = OsStage::Update;
                    let cmd = "pfexec pkg update -v 2>&1; echo \"PKG_EXIT=$?\"";
                    (
                        events2(
                            detail("os-update", "Running pkg update..."),
                            detail("os-update", cmd),
                        ),
                        OsAct::RunStreaming(string_from(cmd)),
                    )
                },
                OsInput::Failed(e) => self.halt(e),
                _ => self.halt(String::new()),
            },
            OsStage::Update => match input {
                OsInput::Exited(_) => {
                    self.stage = OsStage::CountBe;
                    let cmd = "beadm list -H | wc -l";
                    (events1(detail("os-update", cmd)), OsAct::Run(string_from(cmd)))
                },
                OsInput::Failed(e) => self.halt(e),
                _ => self.halt(String::new()),
            },
            OsStage::CountBe => match input {
                OsInput::Output { stdout, .. } => {
                    if update_needs_reboot(stdout.as_str()) {
                        self.stage = OsStage::Reboot;
                        (
                            events2(
                                detail("os-update", "Rebooting for OS update..."),
                                detail("os-update", "pfexec reboot"),
                            ),
                            OsAct::RunBriefly { cmd: string_from("pfexec reboot"), secs: 5 },
                        )
                    } else {
                        self.stage = OsStage::CloseBeforeSetup;
                        (
                            events2(
                                detail(
                                    "os-update",
                                    "Already up to date \u{2014} skipping reboot",
                                ),
                                completed("os-update"),
                            ),
                            OsAct::Close,
                        )
                    }
                },
                OsInput::Failed(e) => self.halt(e),
                _ => self.halt(String::new()),
            },
            OsStage::Reboot => {
                self.stage = OsStage::CloseAfterReboot;
                (events1(completed("os-update")), OsAct::Close)
            },
            OsStage::CloseAfterReboot => {
                self.stage = OsStage::RebootSleep;
                (events1(detail("os-cleanup", "Waiting for host to reboot...")), OsAct::Sleep(10))
            },
            OsStage::RebootSleep => {
                self.stage = OsStage::WaitSsh;
                (no_events(), OsAct::WaitForSsh(300))
            },
            OsStage::WaitSsh => match input {
                OsInput::Ack => {
                    self.stage = OsStage::ConnectSetup;
                    (no_events(), OsAct::Connect("Build/OS-setup"))
                },
                OsInput::Failed(e) => self.halt(e),
                _ => self.halt(String::new()),
            },
            _ => {
                self.stage = OsStage::ConnectSetup;
                (no_events(), OsAct::Connect("Build/OS-setup"))
            },
        }
    }

    /// Delete the stale boot environment of index `k`.
    fn destroy_be(&mut self, k: usize) -> (r: (Vec<BuildEvent>, OsAct))
        requires
            k < old(self).stale@.len(),
        ensures
            final(self)@ == destroy_be(old(self)@, k as int).0,
            evs_view(r.0@) == destroy_be(old(self)@, k as int).1,
            os_act_view(r.1) == destroy_be(old(self)@, k as int).2,
    {
        let name = self.stale[k].as_str();
        proof {
            assert(strings_view(self.stale@)[k as int] == name@);
        }
        let cmd = destroy_be_command(name);
        let evs = events2(
            step_detail("os-cleanup", prefixed("Deleting old BE: ", name)),
            step_detail("os-cleanup", cmd.clone()),
        );
        self.stage = OsStage::DestroyBe(k);
        (evs, OsAct::Run(cmd))
    }

    fn start_packages(&mut self) -> (r: (Vec<BuildEvent>, OsAct))
        ensures
            final(self)@ == start_packages(old(self)@).0,
            evs_view(r.0@) == start_packages(old(self)@).1,
            os_act_view(r.1) == start_packages(old(self)@).2,
    {
        let cmd = "pfexec pkg install -v /developer/build-essential /developer/illumos-tools /developer/pkg-config /library/libxmlsec1 /system/zones/brand/omicron1/tools 2>&1";
        let mut evs = events2(completed("os-cleanup"), started("os-packages"));
        push_ev(&mut evs, detail("os-packages", "Installing required packages..."));
        push_ev(&mut evs, detail("os-packages", cmd));
        self.stage = OsStage::Packages;
        (evs, OsAct::RunStreaming(string_from(cmd)))
    }

    fn caches_part(&mut self, input: OsInput) -> (r: (Vec<BuildEvent>, OsAct))
        requires
            old(self).stage is ConnectSetup || old(self).stage is OpenSetupLog
                || old(self).stage is EnsureCaches || old(self).stage is SetPublisher
                || old(self).stage is InstallCert || old(self).stage is ListBe
                || old(self).stage is DestroyBe,
        ensures
            final(self)@ == caches_step(old(self)@, os_in_view(input)).0,
            evs_view(r.0@) == caches_step(old(self)@, os_in_view(input)).1,
            os_act_view(r.1) == caches_step(old(self)@, os_in_view(input)).2,
    {
        match self.stage {
            OsStage::ConnectSetup => match input {
                OsInput::Ack => {
                    self.stage = OsStage::OpenSetupLog;
                    (no_events(), OsAct::OpenLog("os-cleanup"))
                },
                OsInput::Failed(e) => self.halt(e),
                _ => self.halt(String::new()),
            },
            OsStage::OpenSetupLog => match input {
                OsInput::Ack => {
                    self.stage = OsStage::EnsureCaches;
                    (
                        events1(detail("os-cleanup", "Re-setting caches after reboot...")),
                        OsAct::EnsureCaches,
                    )
                },
                OsInput::Failed(e) => self.halt(e),
                _ => self.halt(String::new()),
            },
            OsStage::EnsureCaches => match input {
                OsInput::Caches { publisher_url, https_proxy_url, lan_ip } => {
                    let cmd = set_publisher_command(publisher_url.as_str());
                    self.publisher_url = publisher_url;
                    self.https_proxy_url = https_proxy_url;
                    self.lan_ip = lan_ip;
                    self.stage = OsStage::SetPublisher;
                    (events1(step_detail("os-cleanup", cmd.clone())), OsAct::Run(cmd))
                },
                OsInput::Failed(e) => self.halt(e),
                _ => self.halt(String::new()),
            },
            OsStage::SetPublisher => {
                self.stage = OsStage::InstallCert;
                (no_events(), OsAct::InstallCaCert(self.lan_ip.clone()))
            },
            OsStage::InstallCert => {
                let env = match input {
                    OsInput::CertPath(p) => proxy_env(self.https_proxy_url.as_str(), p.as_str()),
                    _ => proxy_env(self.https_proxy_url.as_str(), ca_cert_path()),
                };
                self.proxy = Some(env);
                self.stage = OsStage::ListBe;
                let mut evs = events2(
                    started("os-cleanup"),
                    detail("os-cleanup", "Listing boot environments..."),
                );
                push_ev(&mut evs, detail("os-cleanup", "beadm list -H"));
                (evs, OsAct::Run(string_from("beadm list -H")))
            },
            OsStage::ListBe => match input {
                OsInput::Output { stdout, .. } => {
                    self.stale = stale_boot_environments(stdout.as_str());
                    if self.stale.len() > 0 {
                        self.destroy_be(0)
                    } else {
                        self.start_packages()
                    }
                },
                OsInput::Failed(e) => self.halt(e),
                _ => self.halt(String::new()),
            },
            OsStage::DestroyBe(k) => {
                if k < self.stale.len() && k + 1 < self.stale.len() {
                    self.destroy_be(k + 1)
                } else {
                    self.start_packages()
                }
            },
            _ => self.halt(String::new()),
        }
    }

    /// Rust done, after the events given: check swap.
    fn start_swap(&mut self, before: Vec<BuildEvent>) -> (r: (Vec<BuildEvent>, OsAct))
        ensures
            final(self)@ == start_swap(old(self)@, evs_view(before@)).0,
            evs_view(r.0@) == start_swap(old(self)@, evs_view(before@)).1,
            os_act_view(r.1) == start_swap(old(self)@, evs_view(before@)).2,
    {
        let mut evs = before;
        let ghost pre = evs_view(evs@);
        push_ev(&mut evs, started("os-swap"));
        push_ev(&mut evs, detail("os-swap", "Checking swap..."));
        push_ev(&mut evs, detail("os-swap", "swap -l"));
        assert(evs_view(evs@) =~= pre + seq![
            Ev::Started(swap_id()),
            det(swap_id(), "Checking swap..."@),
            det(swap_id(), "swap -l"@),
        ]);
        self.stage = OsStage::SwapList;
        (evs, OsAct::Run(string_from("swap -l")))
    }

    fn tools_part(&mut self, input: OsInput) -> (r: (Vec<BuildEvent>, OsAct))
        requires
            old(self).stage is Packages || old(self).stage is RustCheck || old(self).stage is Rustup
                || old(self).stage is RustVerify,
        ensures
            final(self)@ == tools_step(old(self)@, os_in_view(input)).0,
            evs_view(r.0@) == tools_step(old(self)@, os_in_view(input)).1,
            os_act_view(r.1) == tools_step(old(self)@, os_in_view(input)).2,
    {
        match self.stage {
            OsStage::Packages => match input {
                OsInput::Exited(code) => {
                    if code == 0 || code == 4 {
                        let cmd = "bash -c '. ~/.cargo/env 2>/dev/null; rustc -V 2>/dev/null'";
                        let mut evs = events2(completed("os-packages"), started("os-rust"));
                        push_ev(&mut evs, detail("os-rust", "Installing Rust toolchain 1.91.1..."));
                        push_ev(&mut evs, detail("os-rust", cmd));
                        self.stage = OsStage::RustCheck;
                        (evs, OsAct::Run(string_from(cmd)))
                    } else {
                        let mut m = string_from("pkg install failed with exit code ");
                        crate::text::push_i64(&mut m, code as i64);
                        self.stage = OsStage::Finished;
                        (
                            events1(failed("os-packages", m)),
                            OsAct::Abort(string_from("pkg install failed")),
                        )
                    }
                },
                OsInput::Failed(e) => self.halt(e),
                _ => self.halt(String::new()),
            },
            OsStage::RustCheck => match input {
                OsInput::Output { exit_code, stdout, .. } => {
                    if rust_installed(exit_code, stdout.as_str(), rust_toolchain()) {
                        self.start_swap(
                            events2(
                                detail("os-rust", "Rust 1.91.1 already installed"),
                                completed("os-rust"),
                            ),
                        )
                    } else {
                        let cmd = with_proxy(&self.proxy, rustup_command(rust_toolchain()).as_str());
                        self.stage = OsStage::Rustup;
                        (events1(step_detail("os-rust", cmd.clone())), OsAct::RunStreaming(cmd))
                    }
                },
                OsInput::Failed(e) => self.halt(e),
                _ => self.halt(String::new()),
            },
            OsStage::Rustup => match input {
                OsInput::Exited(code) => {
                    if code == 0 {
                        let cmd = "bash -c '. ~/.cargo/env && rustc -V'";
                        self.stage = OsStage::RustVerify;
                        (events1(detail("os-rust", cmd)), OsAct::Run(string_from(cmd)))
                    } else {
                        let m = streaming_failure(code);
                        self.stage = OsStage::Finished;
                        (
                            events2(failed("os-rust", m.clone()), failed("os-rust", m.clone())),
                            OsAct::Abort(m),
                        )
                    }
                },
                OsInput::Failed(e) => {
                    self.stage = OsStage::Finished;
                    (events1(failed("os-rust", e.clone())), OsAct::Abort(e))
                },
                _ => self.halt(String::new()),
            },
            _ => match input {
                OsInput::Output { stdout, .. } => {
                    let v = to_chars(stdout.as_str());
                    let t = string_of(trim_chars(v.as_slice()));
                    self.start_swap(
                        events2(
                            step_detail("os-rust", prefixed("Installed: ", t.as_str())),
                            completed("os-rust"),
                        ),
                    )
                },
                OsInput::Failed(e) => self.halt(e),
                _ => self.halt(String::new()),
            },
        }
    }

    fn swap_part(&mut self, input: OsInput) -> (r: (Vec<BuildEvent>, OsAct))
        requires
            old(self).stage is SwapList || old(self).stage is ZfsList || old(self).stage is ZfsCreate
                || old(self).stage is VfstabGrep || old(self).stage is VfstabAdd
                || old(self).stage is SwapAdd,
        ensures
            final(self)@ == swap_step(old(self)@, os_in_view(input)).0,
            evs_view(r.0@) == swap_step(old(self)@, os_in_view(input)).1,
            os_act_view(r.1) == swap_step(old(self)@, os_in_view(input)).2,
    {
        match input {
            OsInput::Output { exit_code, stdout, stderr } => {
                let code = exit_code;
                match self.stage {
                    OsStage::SwapList => {
                        if swap_configured(stdout.as_str()) {
                            self.stage = OsStage::FinalClose;
                            (
                                events2(
                                    detail("os-swap", "Swap already configured"),
                                    completed("os-swap"),
                                ),
                                OsAct::Close,
                            )
                        } else {
                            let cmd = "zfs list rpool/swap 2>/dev/null";
                            self.stage = OsStage::ZfsList;
                            (
                                events2(
                                    detail("os-swap", "Creating 8GB swap..."),
                                    detail("os-swap", cmd),
                                ),
                                OsAct::Run(string_from(cmd)),
                            )
                        }
                    },
                    OsStage::ZfsList => {
                        if code != 0 {
                            let cmd = "pfexec zfs create -V 8G rpool/swap";
                            self.stage = OsStage::ZfsCreate;
                            (events1(detail("os-swap", cmd)), OsAct::Run(string_from(cmd)))
                        } else {
                            self.check_vfstab()
                        }
                    },
                    OsStage::ZfsCreate => {
                        if code != 0 {
                            self.swap_failed(code, stderr.as_str())
                        } else {
                            self.check_vfstab()
                        }
                    },
                    OsStage::VfstabGrep => {
                        if code != 0 {
                            let cmd = "echo '/dev/zvol/dsk/rpool/swap - - swap - no -' | pfexec tee -a /etc/vfstab";
                            self.stage = OsStage::VfstabAdd;
                            (events1(detail("os-swap", cmd)), OsAct::Run(string_from(cmd)))
                        } else {
                            self.add_swap()
                        }
                    },
                    OsStage::VfstabAdd => {
                        if code != 0 {
                            self.swap_failed(code, stderr.as_str())
                        } else {
                            self.add_swap()
                        }
                    },
                    _ => {
                        if code != 0 {
                            self.swap_failed(code, stderr.as_str())
                        } else {
                            self.stage = OsStage::FinalClose;
                            (
                                events2(detail("os-swap", "Swap configured"), completed("os-swap")),
                                OsAct::Close,
                            )
                        }
                    },
                }
            },
            OsInput::Failed(e) => self.halt(e),
            _ => self.halt(String::new()),
        }
    }

    fn check_vfstab(&mut self) -> (r: (Vec<BuildEvent>, OsAct))
        ensures
            final(self)@ == check_vfstab(old(self)@).0,
            evs_view(r.0@) == check_vfstab(old(self)@).1,
            os_act_view(r.1) == check_vfstab(old(self)@).2,
    {
        let cmd = "grep rpool/swap /etc/vfstab";
        self.stage = OsStage::VfstabGrep;
        (events1(detail("os-swap", cmd)), OsAct::Run(string_from(cmd)))
    }

    fn add_swap(&mut self) -> (r: (Vec<BuildEvent>, OsAct))
        ensures
            final(self)@ == add_swap(old(self)@).0,
            evs_view(r.0@) == add_swap(old(self)@).1,
            os_act_view(r.1) == add_swap(old(self)@).2,
    {
        let cmd = "pfexec /usr/sbin/swap -a /dev/zvol/dsk/rpool/swap";
        self.stage = OsStage::SwapAdd;
        (events1(detail("os-swap", cmd)), OsAct::Run(string_from(cmd)))
    }

    fn swap_failed(&mut self, code: i32, stderr: &str) -> (r: (Vec<BuildEvent>, OsAct))
        ensures
            final(self)@ == swap_failed(old(self)@, code, stderr@).0,
            evs_view(r.0@) == swap_failed(old(self)@, code, stderr@).1,
            os_act_view(r.1) == swap_failed(old(self)@, code, stderr@).2,
    {
        let m = check_failure(code, stderr);
        self.stage = OsStage::Finished;
        (events1(failed("os-swap", m.clone())), OsAct::Abort(m))
    }
}

} // verus!
