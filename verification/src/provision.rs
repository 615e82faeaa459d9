//! Provisioning the Helios VM on Proxmox, as a state machine: create the
//! VM, boot the installer, install Helios through the serial console,
//! reboot from disk, bring up the network by DHCP and start the netcat
//! listener that the access setup talks to.
//!
//! Each step takes what the last action gave (a command's output, console
//! lines, a connection) and answers with the build events to report and
//! the next action. Running commands, the console and the sleeps is the
//! caller's.
use vstd::prelude::*;
use crate::config::ProxmoxConfig;
use crate::deploy::{
    command_failure, create_command, dhcp_address, dhcp_command, diskinfo_disks, eject_command,
    install_command, spec_command_failure, spec_create_command, spec_disks, spec_first_addr,
    spec_vm_command, spec_vm_state, start_command, status_command, stop_command, vm_exists_message,
    vm_state,
};
use crate::pipeline::deploy_plan;
use crate::monitor::BuildEvent;
use crate::parse::network::strings_view;
use crate::text::{contains, contains_str, decimal, push_chars, push_str, push_u64, str_eq, string_from, to_chars, trim, trim_chars};

verus! {

/// Where provisioning stands. Counters number the polls of a wait.
#[derive(Debug, Clone, Copy, PartialEq, Eq, Structural)]
pub enum Stage {
    CheckExists,
    Create,
    Start,
    BootWait(u32),
    BootSleep(u32),
    ConsoleInstall,
    PromptInstall,
    Diskinfo,
    Install,
    Eject,
    Stop,
    StopWait(u32),
    StopSleep(u32),
    StartFromDisk,
    RebootWait(u32),
    RebootSleep(u32),
    SettleSleep,
    ConsoleNetwork,
    BootFromDisk,
    Login,
    Password,
    CreateIf,
    CreateAddr,
    RestartNet,
    PollAddr(u32),
    PollSleep(u32),
    Netcat,
    Finished,
}

/// What a console wait waits for.
#[derive(Debug, Clone, Copy, PartialEq, Eq, Structural)]
pub enum Wait {
    /// A shell prompt.
    Prompt,
    /// A shell prompt, sending a carriage return every 5 s meanwhile.
    PromptNudging,
    /// A login or shell prompt.
    BootDone,
    /// A password or shell prompt.
    LoginReply,
}

/// What the caller does next.
#[derive(Debug)]
pub enum Act {
    /// Run a command on the Proxmox host.
    Host(String),
    /// Close the serial console, then run a command on the Proxmox host.
    CloseConsoleThenHost(String),
    /// Connect to the VM's serial console, logging to the named file.
    Connect(&'static str),
    /// Send a line to the console, then collect lines until the wait is
    /// met, within the seconds given.
    SendAndWait { line: String, until: Wait, secs: u64 },
    /// Collect console lines until the wait is met, within the seconds.
    WaitFor { until: Wait, secs: u64 },
    /// Sleep for the seconds given.
    Sleep(u64),
    /// Provisioning is done; the VM's address.
    Done(String),
    /// Provisioning failed.
    Abort(String),
}

/// What the last action gave.
#[derive(Debug)]
pub enum Input {
    /// A host command ran.
    Ran { stdout: String, stderr: String, exit_code: i32 },
    /// A host command could not be run.
    CommandError(String),
    Connected,
    ConnectFailed(String),
    /// The wait was met: the lines before, then the line that met it.
    Met { lines: Vec<String>, matched: String },
    /// The wait timed out or the console closed, after the lines given.
    WaitFailed { lines: Vec<String>, error: String },
    /// The line could not be sent.
    SendFailed(String),
    Slept,
}

/// A provisioning run.
#[derive(Debug)]
pub struct Provision {
    pub vmid: u32,
    pub hostname: String,
    pub create: String,
    pub stage: Stage,
    /// The address found by DHCP, once found.
    pub ip: String,
}

// --- Views ---

/// A build event as values.
pub enum Ev {
    Started(Seq<char>),
    Detail(Seq<char>, Seq<char>),
    Completed(Seq<char>),
    Failed(Seq<char>, Seq<char>),
    Other,
}

pub open spec fn ev_view(e: BuildEvent) -> Ev {
    match e {
        BuildEvent::StepStarted(s) => Ev::Started(s@),
        BuildEvent::StepDetail(s, m) => Ev::Detail(s@, m@),
        BuildEvent::StepCompleted(s) => Ev::Completed(s@),
        BuildEvent::StepFailed(s, m) => Ev::Failed(s@, m@),
        _ => Ev::Other,
    }
}

pub open spec fn evs_view(v: Seq<BuildEvent>) -> Seq<Ev> {
    v.map_values(|e: BuildEvent| ev_view(e))
}

/// An action as values.
pub enum ActV {
    Host(Seq<char>),
    CloseConsoleThenHost(Seq<char>),
    Connect(Seq<char>),
    SendAndWait(Seq<char>, Wait, u64),
    WaitFor(Wait, u64),
    Sleep(u64),
    Done(Seq<char>),
    Abort(Seq<char>),
}

pub open spec fn act_view(a: Act) -> ActV {
    match a {
        Act::Host(c) => ActV::Host(c@),
        Act::CloseConsoleThenHost(c) => ActV::CloseConsoleThenHost(c@),
        Act::Connect(f) => ActV::Connect(f@),
        Act::SendAndWait { line, until, secs } => ActV::SendAndWait(line@, until, secs),
        Act::WaitFor { until, secs } => ActV::WaitFor(until, secs),
        Act::Sleep(s) => ActV::Sleep(s),
        Act::Done(ip) => ActV::Done(ip@),
        Act::Abort(e) => ActV::Abort(e@),
    }
}

/// An input as values.
pub enum InV {
    Ran(Seq<char>, Seq<char>, i32),
    CommandError(Seq<char>),
    Connected,
    ConnectFailed(Seq<char>),
    Met(Seq<Seq<char>>, Seq<char>),
    WaitFailed(Seq<Seq<char>>, Seq<char>),
    SendFailed(Seq<char>),
    Slept,
}

pub open spec fn in_view(i: Input) -> InV {
    match i {
        Input::Ran { stdout, stderr, exit_code } => InV::Ran(stdout@, stderr@, exit_code),
        Input::CommandError(e) => InV::CommandError(e@),
        Input::Connected => InV::Connected,
        Input::ConnectFailed(e) => InV::ConnectFailed(e@),
        Input::Met { lines, matched } => InV::Met(strings_view(lines@), matched@),
        Input::WaitFailed { lines, error } => InV::WaitFailed(strings_view(lines@), error@),
        Input::SendFailed(e) => InV::SendFailed(e@),
        Input::Slept => InV::Slept,
    }
}

/// The state as values: stage, VM id, host name, create command, address.
pub open spec fn state_view(p: Provision) -> (Stage, u32, Seq<char>, Seq<char>, Seq<char>) {
    (p.stage, p.vmid, p.hostname@, p.create@, p.ip@)
}

// --- The steps ---

pub open spec fn det(id: Seq<char>, m: Seq<char>) -> Ev {
    Ev::Detail(id, m)
}

/// Details for each console line.
pub open spec fn line_details(id: Seq<char>, ls: Seq<Seq<char>>) -> Seq<Ev>
    decreases ls.len(),
{
    if ls.len() == 0 {
        seq![]
    } else {
        line_details(id, ls.drop_last()).push(det(id, ls.last()))
    }
}

/// A failure of a step: reported, then the run stops with the message.
pub open spec fn fail(id: Seq<char>, m: Seq<char>) -> (Stage, Seq<Ev>, ActV) {
    (Stage::Finished, seq![Ev::Failed(id, m)], ActV::Abort(m))
}

/// The run stops without a report.
pub open spec fn stop(m: Seq<char>) -> (Stage, Seq<Ev>, ActV) {
    (Stage::Finished, seq![], ActV::Abort(m))
}

/// A status poll found the VM in a state.
pub open spec fn in_state(i: InV, state: Seq<char>) -> bool {
    i matches InV::Ran(out, _, code) && code == 0 && spec_vm_state(out) == state
}

/// The VM did not come up within the status polls.
pub open spec fn not_running(vmid: u32) -> Seq<char> {
    "VM "@ + decimal(vmid as nat) + " did not reach running state within 60s"@
}

/// The address poll of the DHCP wait.
pub open spec fn show_addr() -> Seq<char> {
    "ipadm show-addr -o ADDR e1000g0/dhcp"@
}

/// Bring up the interface: the first of the network commands.
pub open spec fn configure() -> (Stage, Seq<Ev>, ActV) {
    (
        Stage::CreateIf,
        seq![det("vm-network"@, "Configuring network interface..."@)],
        ActV::SendAndWait("ipadm create-if e1000g0"@, Wait::Prompt, 10),
    )
}

/// After the VM stopped (or the stop wait gave up): start it from disk.
pub open spec fn start_from_disk(vmid: u32) -> (Stage, Seq<Ev>, ActV) {
    (
        Stage::StartFromDisk,
        seq![det("prov-install"@, "Starting VM from disk..."@)],
        ActV::Host(spec_vm_command("qm start"@, vmid)),
    )
}

/// The next stage, events and action, from a state and an input; the
/// address is kept, or set when DHCP answered.
pub open spec fn spec_step(s: (Stage, u32, Seq<char>, Seq<char>, Seq<char>), i: InV) -> (Stage, Seq<Ev>, ActV) {
    let (stage, vmid, host, create, ip) = s;
    let status = spec_vm_command("qm status"@, vmid);
    match stage {
        Stage::CheckExists => match i {
            InV::Ran(_, _, code) => if code == 0 {
                (
                    Stage::Finished,
                    seq![Ev::Failed("prov-create"@, "VM "@ + decimal(vmid as nat)
                        + " already exists. Delete it first or choose a different VMID."@)],
                    ActV::Abort("VM "@ + decimal(vmid as nat) + " already exists"@),
                )
            } else {
                (Stage::Create, seq![], ActV::Host(create))
            },
            InV::CommandError(e) => stop(e),
            _ => stop(seq![]),
        },
        Stage::Create => match i {
            InV::Ran(_, err, code) => if code != 0 {
                fail("prov-create"@, spec_command_failure("qm create"@, code, err))
            } else {
                (
                    Stage::Start,
                    seq![Ev::Completed("prov-create"@), Ev::Started("prov-boot"@), det("prov-boot"@, "Starting VM "@ + decimal(vmid as nat) + "..."@)],
                    ActV::Host(spec_vm_command("qm start"@, vmid)),
                )
            },
            InV::CommandError(e) => fail("prov-create"@, e),
            _ => stop(seq![]),
        },
        Stage::Start => match i {
            InV::Ran(_, err, code) => if code != 0 {
                fail("prov-boot"@, spec_command_failure("qm start"@, code, err))
            } else {
                (
                    Stage::BootWait(1),
                    seq![det("prov-boot"@, "Waiting for VM to reach running state..."@)],
                    ActV::Host(status),
                )
            },
            InV::CommandError(e) => fail("prov-boot"@, e),
            _ => stop(seq![]),
        },
        Stage::BootWait(n) => if in_state(i, "running"@) {
            (
                Stage::ConsoleInstall,
                seq![Ev::Completed("prov-boot"@), Ev::Started("prov-install"@), det("prov-install"@, "Connecting to serial console..."@)],
                ActV::Connect("serial-install.log"@),
            )
        } else {
            (Stage::BootSleep(n), seq![], ActV::Sleep(2))
        },
        Stage::BootSleep(n) => if n < 30 {
            (Stage::BootWait((n + 1) as u32), seq![], ActV::Host(status))
        } else {
            fail("prov-boot"@, not_running(vmid))
        },
        Stage::ConsoleInstall => match i {
            InV::Connected => (
                Stage::PromptInstall,
                seq![det("prov-install"@, "Waiting for Helios ISO to boot..."@)],
                ActV::WaitFor(Wait::PromptNudging, 180),
            ),
            InV::ConnectFailed(e) => fail("prov-install"@, e),
            _ => stop(seq![]),
        },
        Stage::PromptInstall => match i {
            InV::Met(b, m) => (
                Stage::Diskinfo,
                line_details("prov-install"@, b.push(m)).push(det("prov-install"@, "Running diskinfo..."@)),
                ActV::SendAndWait("diskinfo"@, Wait::Prompt, 15),
            ),
            InV::WaitFailed(b, e) => (
                Stage::Finished,
                line_details("prov-install"@, b).push(Ev::Failed("prov-install"@, "No shell prompt: "@ + e)),
                ActV::Abort(e),
            ),
            InV::SendFailed(e) => stop(e),
            _ => stop(seq![]),
        },
        Stage::Diskinfo => match i {
            InV::Met(b, m) => if spec_disks(b.push(m)).len() == 0 {
                (
                    Stage::Finished,
                    line_details("prov-install"@, b.push(m)).push(Ev::Failed("prov-install"@, "No disks found in diskinfo output"@)),
                    ActV::Abort("No disks found in diskinfo output"@),
                )
            } else {
                let disk = spec_disks(b.push(m))[0];
                (
                    Stage::Install,
                    line_details("prov-install"@, b.push(m)).push(det("prov-install"@, "Installing Helios to "@ + disk + " as '"@ + host + "'..."@)),
                    ActV::SendAndWait("install-helios "@ + host + " "@ + disk, Wait::Prompt, 600),
                )
            },
            InV::WaitFailed(b, e) => (
                Stage::Finished,
                line_details("prov-install"@, b).push(Ev::Failed("prov-install"@, "diskinfo failed: "@ + e)),
                ActV::Abort(e),
            ),
            InV::SendFailed(e) => stop(e),
            _ => stop(seq![]),
        },
        Stage::Install => match i {
            InV::Met(b, m) => (
                Stage::Eject,
                line_details("prov-install"@, b.push(m)).push(det("prov-install"@, "Ejecting ISO and setting boot to disk..."@)),
                ActV::Host("qm set "@ + decimal(vmid as nat) + " --ide2 none,media=cdrom --boot order=sata0"@),
            ),
            InV::WaitFailed(b, e) => (
                Stage::Finished,
                line_details("prov-install"@, b).push(Ev::Failed("prov-install"@, "install-helios failed: "@ + e)),
                ActV::Abort(e),
            ),
            InV::SendFailed(e) => stop(e),
            _ => stop(seq![]),
        },
        Stage::Eject => match i {
            InV::Ran(_, err, code) => if code != 0 {
                (
                    Stage::Finished,
                    seq![Ev::Failed("prov-install"@, "Failed to eject ISO: "@ + trim(err))],
                    ActV::Abort("Failed to eject ISO"@),
                )
            } else {
                (
                    Stage::Stop,
                    seq![det("prov-install"@, "Stopping VM to apply boot config..."@)],
                    ActV::CloseConsoleThenHost(spec_vm_command("qm stop"@, vmid)),
                )
            },
            InV::CommandError(e) => stop(e),
            _ => stop(seq![]),
        },
        Stage::Stop => match i {
            InV::Ran(_, _, _) => (Stage::StopWait(1), seq![], ActV::Host(status)),
            InV::CommandError(e) => stop(e),
            _ => stop(seq![]),
        },
        Stage::StopWait(n) => if in_state(i, "stopped"@) {
            start_from_disk(vmid)
        } else {
            (Stage::StopSleep(n), seq![], ActV::Sleep(2))
        },
        Stage::StopSleep(n) => if n < 30 {
            (Stage::StopWait((n + 1) as u32), seq![], ActV::Host(status))
        } else {
            start_from_disk(vmid)
        },
        Stage::StartFromDisk => match i {
            InV::Ran(_, err, code) => if code != 0 {
                (
                    Stage::Finished,
                    seq![Ev::Failed("prov-install"@, "Failed to start VM: "@ + spec_command_failure("qm start"@, code, err))],
                    ActV::Abort(spec_command_failure("qm start"@, code, err)),
                )
            } else {
                (
                    Stage::RebootWait(1),
                    seq![Ev::Completed("prov-install"@), Ev::Started("vm-network"@), det("vm-network"@, "Waiting for VM to reboot..."@)],
                    ActV::Host(status),
                )
            },
            InV::CommandError(e) => (
                Stage::Finished,
                seq![Ev::Failed("prov-install"@, "Failed to start VM: "@ + e)],
                ActV::Abort(e),
            ),
            _ => stop(seq![]),
        },
        Stage::RebootWait(n) => if in_state(i, "running"@) {
            (Stage::SettleSleep, seq![], ActV::Sleep(3))
        } else {
            (Stage::RebootSleep(n), seq![], ActV::Sleep(2))
        },
        Stage::RebootSleep(n) => if n < 30 {
            (Stage::RebootWait((n + 1) as u32), seq![], ActV::Host(status))
        } else {
            (
                Stage::Finished,
                seq![Ev::Failed("vm-network"@, "VM didn't restart: "@ + not_running(vmid))],
                ActV::Abort(not_running(vmid)),
            )
        },
        Stage::SettleSleep => (
            Stage::ConsoleNetwork,
            seq![det("vm-network"@, "Reconnecting to serial console..."@)],
            ActV::Connect("serial-network.log"@),
        ),
        Stage::ConsoleNetwork => match i {
            InV::Connected => (
                Stage::BootFromDisk,
                seq![det("vm-network"@, "Waiting for Helios to boot from disk..."@)],
                ActV::WaitFor(Wait::BootDone, 300),
            ),
            InV::ConnectFailed(e) => (
                Stage::Finished,
                seq![Ev::Failed("vm-network"@, "Serial reconnect failed: "@ + e)],
                ActV::Abort(e),
            ),
            _ => stop(seq![]),
        },
        Stage::BootFromDisk => match i {
            InV::Met(b, m) => if contains(m, "login:"@) {
                (
                    Stage::Login,
                    line_details("vm-network"@, b.push(m)),
                    ActV::SendAndWait("root"@, Wait::LoginReply, 15),
                )
            } else {
                let c = configure();
                (c.0, line_details("vm-network"@, b.push(m)) + c.1, c.2)
            },
            InV::WaitFailed(b, e) => (
                Stage::Finished,
                line_details("vm-network"@, b).push(Ev::Failed("vm-network"@, "Boot timeout: "@ + e)),
                ActV::Abort(e),
            ),
            InV::SendFailed(e) => stop(e),
            _ => stop(seq![]),
        },
        Stage::Login => match i {
            InV::Met(b, m) => if contains(m, "Password:"@) {
                (
                    Stage::Password,
                    line_details("vm-network"@, b.push(m)),
                    ActV::SendAndWait(seq![], Wait::Prompt, 15),
                )
            } else {
                let c = configure();
                (c.0, line_details("vm-network"@, b.push(m)) + c.1, c.2)
            },
            InV::WaitFailed(b, e) => (Stage::Finished, line_details("vm-network"@, b), ActV::Abort(e)),
            InV::SendFailed(e) => stop(e),
            _ => stop(seq![]),
        },
        Stage::Password => match i {
            InV::Met(b, m) => {
                let c = configure();
                (c.0, line_details("vm-network"@, b.push(m)) + c.1, c.2)
            },
            InV::WaitFailed(b, e) => (
                Stage::Finished,
                line_details("vm-network"@, b).push(Ev::Failed("vm-network"@, "Login failed: "@ + e)),
                ActV::Abort(e),
            ),
            InV::SendFailed(e) => stop(e),
            _ => stop(seq![]),
        },
        Stage::CreateIf => match i {
            InV::Met(_, _) => (
                Stage::CreateAddr,
                seq![],
                ActV::SendAndWait("ipadm create-addr -T dhcp -h "@ + host + " e1000g0/dhcp"@, Wait::Prompt, 10),
            ),
            InV::WaitFailed(_, e) => stop(e),
            InV::SendFailed(e) => stop(e),
            _ => stop(seq![]),
        },
        Stage::CreateAddr => match i {
            InV::Met(_, _) => (
                Stage::RestartNet,
                seq![],
                ActV::SendAndWait("svcadm restart network/service"@, Wait::Prompt, 10),
            ),
            InV::WaitFailed(_, e) => stop(e),
            InV::SendFailed(e) => stop(e),
            _ => stop(seq![]),
        },
        Stage::RestartNet => match i {
            InV::Met(_, _) => (
                Stage::PollAddr(1),
                seq![det("vm-network"@, "Waiting for DHCP address..."@)],
                ActV::SendAndWait(show_addr(), Wait::Prompt, 5),
            ),
            InV::WaitFailed(_, e) => stop(e),
            InV::SendFailed(e) => stop(e),
            _ => stop(seq![]),
        },
        Stage::PollAddr(n) => match i {
            InV::Met(b, m) => match spec_first_addr(b.push(m)) {
                Some(a) => (
                    Stage::Netcat,
                    seq![
                        det("vm-network"@, "Network configured \u{2014} IP: "@ + a),
                        Ev::Completed("vm-network"@),
                        Ev::Started("vm-netcat"@),
                        det("vm-netcat"@, "Starting netcat listener on port 1701..."@),
                    ],
                    ActV::SendAndWait("nc -l 1701 </dev/null | bash -x &"@, Wait::Prompt, 5),
                ),
                None => (Stage::PollSleep(n), seq![], ActV::Sleep(3)),
            },
            InV::WaitFailed(_, e) => stop(e),
            InV::SendFailed(e) => stop(e),
            _ => stop(seq![]),
        },
        Stage::PollSleep(n) => if n < 15 {
            (Stage::PollAddr((n + 1) as u32), seq![], ActV::SendAndWait(show_addr(), Wait::Prompt, 5))
        } else {
            fail("vm-network"@, "Could not obtain DHCP address after 45s"@)
        },
        Stage::Netcat => match i {
            InV::Met(_, _) => (
                Stage::Finished,
                seq![det("vm-netcat"@, "Netcat listener ready on "@ + ip + ":1701"@), Ev::Completed("vm-netcat"@)],
                ActV::Done(ip),
            ),
            InV::WaitFailed(_, e) => stop(e),
            InV::SendFailed(e) => stop(e),
            _ => stop(seq![]),
        },
        Stage::Finished => stop(seq![]),
    }
}

/// The address after a step: the one DHCP gave when the poll found it.
pub open spec fn spec_ip_after(s: (Stage, u32, Seq<char>, Seq<char>, Seq<char>), i: InV) -> Seq<char> {
    match (s.0, i) {
        (Stage::PollAddr(_), InV::Met(b, m)) => match spec_first_addr(b.push(m)) {
            Some(a) => a,
            None => s.4,
        },
        _ => s.4,
    }
}

/// The wait counters stay within their limits: the VM state polls number
/// from 1 to 30 (a minute at two seconds apart), the address polls from 1
/// to 15 (45 s at three seconds apart).
pub open spec fn counters_bounded(stage: Stage) -> bool {
    match stage {
        Stage::BootWait(n) | Stage::BootSleep(n) | Stage::StopWait(n) | Stage::StopSleep(n)
        | Stage::RebootWait(n) | Stage::RebootSleep(n) => 1 <= n <= 30,
        Stage::PollAddr(n) | Stage::PollSleep(n) => 1 <= n <= 15,
        _ => true,
    }
}

/// Every wait of provisioning is bounded: from a state whose counters are
/// within their limits, a step leads to one whose counters are too, so no
/// poll runs more than 30 times (15 for the address) before the run moves
/// on or fails.
pub proof fn law_waits_bounded(s: (Stage, u32, Seq<char>, Seq<char>, Seq<char>), i: InV)
    requires
        counters_bounded(s.0),
    ensures
        counters_bounded(spec_step(s, i).0),
{
}

// --- Running the steps ---

/// A step's answer as values.
pub open spec fn answer_view(r: (Stage, Vec<BuildEvent>, Act)) -> (Stage, Seq<Ev>, ActV) {
    (r.0, evs_view(r.1@), act_view(r.2))
}

pub(crate) fn push_ev(evs: &mut Vec<BuildEvent>, e: BuildEvent)
    ensures
        evs_view(final(evs)@) == evs_view(old(evs)@).push(ev_view(e)),
{
    let ghost pre = evs@;
    evs.push(e);
    assert(evs_view(evs@) =~= evs_view(pre).push(ev_view(e)));
}

pub(crate) fn no_events() -> (r: Vec<BuildEvent>)
    ensures
        evs_view(r@) == Seq::<Ev>::empty(),
{
    let r = Vec::new();
    assert(evs_view(r@) =~= Seq::<Ev>::empty());
    r
}

/// Report each line as a detail of the step.
fn line_events(id: &str, lines: &Vec<String>) -> (r: Vec<BuildEvent>)
    ensures
        evs_view(r@) == line_details(id@, strings_view(lines@)),
{
    let ghost ls = strings_view(lines@);
    let mut evs = no_events();
    let mut i: usize = 0;
    assert(ls.take(0) =~= Seq::<Seq<char>>::empty());
    while i < lines.len()
        invariant
            i <= lines@.len(),
            ls == strings_view(lines@),
            evs_view(evs@) == line_details(id@, ls.take(i as int)),
        decreases lines@.len() - i,
    {
        push_ev(&mut evs, BuildEvent::StepDetail(string_from(id), lines[i].clone()));
        proof {
            assert(ls.take(i + 1).drop_last() =~= ls.take(i as int));
            assert(ls.take(i + 1).last() == lines@[i as int]@);
        }
        i = i + 1;
    }
    assert(ls.take(i as int) =~= ls);
    evs
}

/// The lines before the one that met the wait, then that one.
fn all_lines(lines: Vec<String>, matched: String) -> (r: Vec<String>)
    ensures
        strings_view(r@) == strings_view(lines@).push(matched@),
{
    let mut r = lines;
    let ghost pre = r@;
    r.push(matched);
    assert(strings_view(r@) =~= strings_view(pre).push(matched@));
    r
}

fn stop_with(m: String) -> (r: (Stage, Vec<BuildEvent>, Act))
    ensures
        answer_view(r) == stop(m@),
{
    (Stage::Finished, no_events(), Act::Abort(m))
}

/// The step reports a failure with `msg` and the run stops with `abort`.
fn fail_with(id: &str, msg: String, abort: String) -> (r: (Stage, Vec<BuildEvent>, Act))
    ensures
        answer_view(r) == (Stage::Finished, seq![Ev::Failed(id@, msg@)], ActV::Abort(abort@)),
{
    let mut evs = no_events();
    push_ev(&mut evs, BuildEvent::StepFailed(string_from(id), msg));
    (Stage::Finished, evs, Act::Abort(abort))
}

/// The lines reported, then a failure with `msg`; the run stops with `abort`.
fn fail_after(id: &str, lines: &Vec<String>, msg: String, abort: String) -> (r: (
    Stage,
    Vec<BuildEvent>,
    Act,
))
    ensures
        answer_view(r) == (
            Stage::Finished,
            line_details(id@, strings_view(lines@)).push(Ev::Failed(id@, msg@)),
            ActV::Abort(abort@),
        ),
{
    let mut evs = line_events(id, lines);
    push_ev(&mut evs, BuildEvent::StepFailed(string_from(id), msg));
    (Stage::Finished, evs, Act::Abort(abort))
}

/// `prefix` followed by `s`.
pub(crate) fn prefixed(prefix: &str, s: &str) -> (r: String)
    ensures
        r@ == prefix@ + s@,
{
    let mut r = string_from(prefix);
    push_str(&mut r, s);
    r
}

/// `VM <vmid> did not reach running state within 60s`.
fn not_running_message(vmid: u32) -> (r: String)
    ensures
        r@ == not_running(vmid),
{
    let mut s = string_from("VM ");
    push_u64(&mut s, vmid as u64);
    push_str(&mut s, " did not reach running state within 60s");
    s
}

/// Whether a status poll found the VM in `state`.
fn polled_state(input: &Input, state: &str) -> (r: bool)
    ensures
        r == in_state(in_view(*input), state@),
{
    match input {
        Input::Ran { stdout, exit_code, .. } => {
            if *exit_code == 0 {
                let s = vm_state(stdout.as_str());
                str_eq(s.as_str(), state)
            } else {
                false
            }
        },
        _ => false,
    }
}

/// The reported events, then the first network command.
fn configure_after(evs: Vec<BuildEvent>) -> (r: (Stage, Vec<BuildEvent>, Act))
    ensures
        answer_view(r) == (configure().0, evs_view(evs@) + configure().1, configure().2),
{
    let mut evs = evs;
    let ghost pre = evs_view(evs@);
    push_ev(
        &mut evs,
        BuildEvent::StepDetail(
            string_from("vm-network"),
            string_from("Configuring network interface..."),
        ),
    );
    assert(pre.push(det("vm-network"@, "Configuring network interface..."@)) =~= pre
        + configure().1);
    (
        Stage::CreateIf,
        evs,
        Act::SendAndWait {
            line: string_from("ipadm create-if e1000g0"),
            until: Wait::Prompt,
            secs: 10,
        },
    )
}

/// A console line that waits for the shell prompt.
fn prompt_wait(line: String, secs: u64) -> (r: Act)
    ensures
        act_view(r) == ActV::SendAndWait(line@, Wait::Prompt, secs),
{
    Act::SendAndWait { line, until: Wait::Prompt, secs }
}

pub(crate) fn detail(id: &str, m: &str) -> (e: BuildEvent)
    ensures
        ev_view(e) == det(id@, m@),
{
    BuildEvent::StepDetail(string_from(id), string_from(m))
}

impl Provision {
    /// Start provisioning the VM of `config`: report the creation step and
    /// ask whether the VM exists already.
    pub fn new(config: &ProxmoxConfig) -> (r: (Provision, Vec<BuildEvent>, Act))
        ensures
            state_view(r.0) == (
                Stage::CheckExists,
                config.vm.vmid,
                config.vm.name@,
                spec_create_command(*config),
                Seq::<char>::empty(),
            ),
            evs_view(r.1@) == seq![
                Ev::Started("prov-create"@),
                det(
                    "prov-create"@,
                    "Creating VM "@ + config.vm.name@ + " (VMID "@ + decimal(config.vm.vmid as nat)
                        + ")..."@,
                ),
            ],
            act_view(r.2) == ActV::Host(spec_vm_command("qm status"@, config.vm.vmid)),
    {
        let vmid = config.vm.vmid;
        let mut evs = no_events();
        push_ev(&mut evs, BuildEvent::StepStarted(string_from("prov-create")));
        let mut m = string_from("Creating VM ");
        push_str(&mut m, config.vm.name.as_str());
        push_str(&mut m, " (VMID ");
        push_u64(&mut m, vmid as u64);
        push_str(&mut m, ")...");
        push_ev(&mut evs, BuildEvent::StepDetail(string_from("prov-create"), m));
        let p = Provision {
            vmid,
            hostname: config.vm.name.clone(),
            create: create_command(config),
            stage: Stage::CheckExists,
            ip: String::new(),
        };
        (p, evs, Act::Host(status_command(vmid)))
    }

    /// Take what the last action gave: the events to report and the next
    /// action. A finished run answers every input by stopping.
    pub fn step(&mut self, input: Input) -> (r: (Vec<BuildEvent>, Act))
        ensures
            (final(self).stage, evs_view(r.0@), act_view(r.1)) == spec_step(
                state_view(*old(self)),
                in_view(input),
            ),
            final(self).vmid == old(self).vmid,
            final(self).hostname@ == old(self).hostname@,
            final(self).create@ == old(self).create@,
            final(self).ip@ == spec_ip_after(state_view(*old(self)), in_view(input)),
    {
        let (stage, evs, act) = match self.stage {
            Stage::CheckExists | Stage::Create | Stage::Start => self.step_create(input),
            Stage::BootWait(_) | Stage::BootSleep(_) | Stage::ConsoleInstall => self.step_boot(
                input,
            ),
            Stage::PromptInstall | Stage::Diskinfo | Stage::Install => self.step_install(input),
            Stage::Eject | Stage::Stop | Stage::StopWait(_) | Stage::StopSleep(_)
            | Stage::StartFromDisk => self.step_reboot(input),
            Stage::RebootWait(_) | Stage::RebootSleep(_) | Stage::SettleSleep
            | Stage::ConsoleNetwork => self.step_reconnect(input),
            Stage::BootFromDisk | Stage::Login | Stage::Password => self.step_login(input),
            _ => {
                let (r, ip) = self.step_network(input);
                match ip {
                    Some(a) => {
                        self.ip = a;
                    },
                    None => {},
                }
                r
            },
        };
        self.stage = stage;
        (evs, act)
    }

    fn step_create(&self, input: Input) -> (r: (Stage, Vec<BuildEvent>, Act))
        requires
            self.stage is CheckExists || self.stage is Create || self.stage is Start,
        ensures
            answer_view(r) == spec_step(state_view(*self), in_view(input)),
    {
        match self.stage {
            Stage::CheckExists => match input {
                Input::Ran { exit_code, .. } => {
                    if exit_code == 0 {
                        let mut a = string_from("VM ");
                        push_u64(&mut a, self.vmid as u64);
                        push_str(&mut a, " already exists");
                        fail_with("prov-create", vm_exists_message(self.vmid), a)
                    } else {
                        (Stage::Create, no_events(), Act::Host(self.create.clone()))
                    }
                },
                Input::CommandError(e) => stop_with(e),
                _ => stop_with(String::new()),
            },
            Stage::Create => match input {
                Input::Ran { stderr, exit_code, .. } => {
                    if exit_code != 0 {
                        let m = command_failure("qm create", exit_code, stderr.as_str());
                        fail_with("prov-create", m.clone(), m)
                    } else {
                        let mut evs = no_events();
                        push_ev(&mut evs, BuildEvent::StepCompleted(string_from("prov-create")));
                        push_ev(&mut evs, BuildEvent::StepStarted(string_from("prov-boot")));
                        let mut m = string_from("Starting VM ");
                        push_u64(&mut m, self.vmid as u64);
                        push_str(&mut m, "...");
                        push_ev(&mut evs, BuildEvent::StepDetail(string_from("prov-boot"), m));
                        (Stage::Start, evs, Act::Host(start_command(self.vmid)))
                    }
                },
                Input::CommandError(e) => fail_with("prov-create", e.clone(), e),
                _ => stop_with(String::new()),
            },
            _ => match input {
                Input::Ran { stderr, exit_code, .. } => {
                    if exit_code != 0 {
                        let m = command_failure("qm start", exit_code, stderr.as_str());
                        fail_with("prov-boot", m.clone(), m)
                    } else {
                        let mut evs = no_events();
                        push_ev(
                            &mut evs,
                            detail("prov-boot", "Waiting for VM to reach running state..."),
                        );
                        (Stage::BootWait(1), evs, Act::Host(status_command(self.vmid)))
                    }
                },
                Input::CommandError(e) => fail_with("prov-boot", e.clone(), e),
                _ => stop_with(String::new()),
            },
        }
    }

    fn step_boot(&self, input: Input) -> (r: (Stage, Vec<BuildEvent>, Act))
        requires
            self.stage is BootWait || self.stage is BootSleep || self.stage is ConsoleInstall,
        ensures
            answer_view(r) == spec_step(state_view(*self), in_view(input)),
    {
        match self.stage {
            Stage::BootWait(n) => {
                if polled_state(&input, "running") {
                    let mut evs = no_events();
                    push_ev(&mut evs, BuildEvent::StepCompleted(string_from("prov-boot")));
                    push_ev(&mut evs, BuildEvent::StepStarted(string_from("prov-install")));
                    push_ev(&mut evs, detail("prov-install", "Connecting to serial console..."));
                    (Stage::ConsoleInstall, evs, Act::Connect("serial-install.log"))
                } else {
                    (Stage::BootSleep(n), no_events(), Act::Sleep(2))
                }
            },
            Stage::BootSleep(n) => {
                if n < 30 {
                    (Stage::BootWait(n + 1), no_events(), Act::Host(status_command(self.vmid)))
                } else {
                    fail_with(
                        "prov-boot",
                        not_running_message(self.vmid),
                        not_running_message(self.vmid),
                    )
                }
            },
            _ => match input {
                Input::Connected => {
                    let mut evs = no_events();
                    push_ev(&mut evs, detail("prov-install", "Waiting for Helios ISO to boot..."));
                    (
                        Stage::PromptInstall,
                        evs,
                        Act::WaitFor { until: Wait::PromptNudging, secs: 180 },
                    )
                },
                Input::ConnectFailed(e) => fail_with("prov-install", e.clone(), e),
                _ => stop_with(String::new()),
            },
        }
    }

    fn step_install(&self, input: Input) -> (r: (Stage, Vec<BuildEvent>, Act))
        requires
            self.stage is PromptInstall || self.stage is Diskinfo || self.stage is Install,
        ensures
            answer_view(r) == spec_step(state_view(*self), in_view(input)),
    {
        match input {
            Input::Met { lines, matched } => {
                let all = all_lines(lines, matched);
                let mut evs = line_events("prov-install", &all);
                match self.stage {
                    Stage::PromptInstall => {
                        push_ev(&mut evs, detail("prov-install", "Running diskinfo..."));
                        (Stage::Diskinfo, evs, prompt_wait(string_from("diskinfo"), 15))
                    },
                    Stage::Diskinfo => {
                        let disks = diskinfo_disks(&all);
                        if disks.len() == 0 {
                            let m = string_from("No disks found in diskinfo output");
                            push_ev(
                                &mut evs,
                                BuildEvent::StepFailed(string_from("prov-install"), m.clone()),
                            );
                            (Stage::Finished, evs, Act::Abort(m))
                        } else {
                            let disk = disks[0].as_str();
                            proof {
                                assert(strings_view(disks@)[0] == disk@);
                            }
                            let mut m = string_from("Installing Helios to ");
                            push_str(&mut m, disk);
                            push_str(&mut m, " as '");
                            push_str(&mut m, self.hostname.as_str());
                            push_str(&mut m, "'...");
                            push_ev(&mut evs, BuildEvent::StepDetail(string_from("prov-install"), m));
                            (
                                Stage::Install,
                                evs,
                                prompt_wait(install_command(self.hostname.as_str(), disk), 600),
                            )
                        }
                    },
                    _ => {
                        push_ev(
                            &mut evs,
                            detail("prov-install", "Ejecting ISO and setting boot to disk..."),
                        );
                        (Stage::Eject, evs, Act::Host(eject_command(self.vmid)))
                    },
                }
            },
            Input::WaitFailed { lines, error } => {
                let what = match self.stage {
                    Stage::PromptInstall => "No shell prompt: ",
                    Stage::Diskinfo => "diskinfo failed: ",
                    _ => "install-helios failed: ",
                };
                fail_after("prov-install", &lines, prefixed(what, error.as_str()), error)
            },
            Input::SendFailed(e) => stop_with(e),
            _ => stop_with(String::new()),
        }
    }

    fn step_reboot(&self, input: Input) -> (r: (Stage, Vec<BuildEvent>, Act))
        requires
            self.stage is Eject || self.stage is Stop || self.stage is StopWait
                || self.stage is StopSleep || self.stage is StartFromDisk,
        ensures
            answer_view(r) == spec_step(state_view(*self), in_view(input)),
    {
        match self.stage {
            Stage::Eject => match input {
                Input::Ran { stderr, exit_code, .. } => {
                    if exit_code != 0 {
                        let mut m = string_from("Failed to eject ISO: ");
                        let v = to_chars(stderr.as_str());
                        push_chars(&mut m, trim_chars(v.as_slice()));
                        fail_with("prov-install", m, string_from("Failed to eject ISO"))
                    } else {
                        let mut evs = no_events();
                        push_ev(&mut evs, detail("prov-install", "Stopping VM to apply boot config..."));
                        (Stage::Stop, evs, Act::CloseConsoleThenHost(stop_command(self.vmid)))
                    }
                },
                Input::CommandError(e) => stop_with(e),
                _ => stop_with(String::new()),
            },
            Stage::Stop => match input {
                Input::Ran { .. } => (
                    Stage::StopWait(1),
                    no_events(),
                    Act::Host(status_command(self.vmid)),
                ),
                Input::CommandError(e) => stop_with(e),
                _ => stop_with(String::new()),
            },
            Stage::StopWait(n) => {
                if polled_state(&input, "stopped") {
                    self.start_from_disk()
                } else {
                    (Stage::StopSleep(n), no_events(), Act::Sleep(2))
                }
            },
            Stage::StopSleep(n) => {
                if n < 30 {
                    (Stage::StopWait(n + 1), no_events(), Act::Host(status_command(self.vmid)))
                } else {
                    self.start_from_disk()
                }
            },
            _ => match input {
                Input::Ran { stderr, exit_code, .. } => {
                    if exit_code != 0 {
                        let m = command_failure("qm start", exit_code, stderr.as_str());
                        fail_with("prov-install", prefixed("Failed to start VM: ", m.as_str()), m)
                    } else {
                        let mut evs = no_events();
                        push_ev(&mut evs, BuildEvent::StepCompleted(string_from("prov-install")));
                        push_ev(&mut evs, BuildEvent::StepStarted(string_from("vm-network")));
                        push_ev(&mut evs, detail("vm-network", "Waiting for VM to reboot..."));
                        (Stage::RebootWait(1), evs, Act::Host(status_command(self.vmid)))
                    }
                },
                Input::CommandError(e) => fail_with(
                    "prov-install",
                    prefixed("Failed to start VM: ", e.as_str()),
                    e,
                ),
                _ => stop_with(String::new()),
            },
        }
    }

    fn start_from_disk(&self) -> (r: (Stage, Vec<BuildEvent>, Act))
        ensures
            answer_view(r) == start_from_disk(self.vmid),
    {
        let mut evs = no_events();
        push_ev(&mut evs, detail("prov-install", "Starting VM from disk..."));
        (Stage::StartFromDisk, evs, Act::Host(start_command(self.vmid)))
    }

    fn step_reconnect(&self, input: Input) -> (r: (Stage, Vec<BuildEvent>, Act))
        requires
            self.stage is RebootWait || self.stage is RebootSleep || self.stage is SettleSleep
                || self.stage is ConsoleNetwork,
        ensures
            answer_view(r) == spec_step(state_view(*self), in_view(input)),
    {
        match self.stage {
            Stage::RebootWait(n) => {
                if polled_state(&input, "running") {
                    (Stage::SettleSleep, no_events(), Act::Sleep(3))
                } else {
                    (Stage::RebootSleep(n), no_events(), Act::Sleep(2))
                }
            },
            Stage::RebootSleep(n) => {
                if n < 30 {
                    (Stage::RebootWait(n + 1), no_events(), Act::Host(status_command(self.vmid)))
                } else {
                    let m = not_running_message(self.vmid);
                    fail_with("vm-network", prefixed("VM didn't restart: ", m.as_str()), m)
                }
            },
            Stage::SettleSleep => {
                let mut evs = no_events();
                push_ev(&mut evs, detail("vm-network", "Reconnecting to serial console..."));
                (Stage::ConsoleNetwork, evs, Act::Connect("serial-network.log"))
            },
            _ => match input {
                Input::Connected => {
                    let mut evs = no_events();
                    push_ev(
                        &mut evs,
                        detail("vm-network", "Waiting for Helios to boot from disk..."),
                    );
                    (Stage::BootFromDisk, evs, Act::WaitFor { until: Wait::BootDone, secs: 300 })
                },
                Input::ConnectFailed(e) => fail_with(
                    "vm-network",
                    prefixed("Serial reconnect failed: ", e.as_str()),
                    e,
                ),
                _ => stop_with(String::new()),
            },
        }
    }

    fn step_login(&self, input: Input) -> (r: (Stage, Vec<BuildEvent>, Act))
        requires
            self.stage is BootFromDisk || self.stage is Login || self.stage is Password,
        ensures
            answer_view(r) == spec_step(state_view(*self), in_view(input)),
    {
        match input {
            Input::Met { lines, matched } => {
                let mv = to_chars(matched.as_str());
                let login = contains_str(mv.as_slice(), "login:");
                let password = contains_str(mv.as_slice(), "Password:");
                let all = all_lines(lines, matched);
                let evs = line_events("vm-network", &all);
                match self.stage {
                    Stage::BootFromDisk => {
                        if login {
                            (
                                Stage::Login,
                                evs,
                                Act::SendAndWait {
                                    line: string_from("root"),
                                    until: Wait::LoginReply,
                                    secs: 15,
                                },
                            )
                        } else {
                            configure_after(evs)
                        }
                    },
                    Stage::Login => {
                        if password {
                            (Stage::Password, evs, prompt_wait(String::new(), 15))
                        } else {
                            configure_after(evs)
                        }
                    },
                    _ => configure_after(evs),
                }
            },
            Input::WaitFailed { lines, error } => match self.stage {
                Stage::BootFromDisk => fail_after(
                    "vm-network",
                    &lines,
                    prefixed("Boot timeout: ", error.as_str()),
                    error,
                ),
                Stage::Login => (Stage::Finished, line_events("vm-network", &lines), Act::Abort(error)),
                _ => fail_after(
                    "vm-network",
                    &lines,
                    prefixed("Login failed: ", error.as_str()),
                    error,
                ),
            },
            Input::SendFailed(e) => stop_with(e),
            _ => stop_with(String::new()),
        }
    }

    /// The network stages; the address, when the poll found one.
    fn step_network(&self, input: Input) -> (r: ((Stage, Vec<BuildEvent>, Act), Option<String>))
        requires
            self.stage is CreateIf || self.stage is CreateAddr || self.stage is RestartNet
                || self.stage is PollAddr || self.stage is PollSleep || self.stage is Netcat
                || self.stage is Finished,
        ensures
            answer_view(r.0) == spec_step(state_view(*self), in_view(input)),
            match r.1 {
                Some(a) => a@ == spec_ip_after(state_view(*self), in_view(input)),
                None => self.ip@ == spec_ip_after(state_view(*self), in_view(input)),
            },
    {
        let show = "ipadm show-addr -o ADDR e1000g0/dhcp";
        match self.stage {
            Stage::PollSleep(n) => {
                if n < 15 {
                    ((Stage::PollAddr(n + 1), no_events(), prompt_wait(string_from(show), 5)), None)
                } else {
                    let m = "Could not obtain DHCP address after 45s";
                    (fail_with("vm-network", string_from(m), string_from(m)), None)
                }
            },
            Stage::Finished => (stop_with(String::new()), None),
            _ => match input {
                Input::Met { lines, matched } => match self.stage {
                    Stage::CreateIf => (
                        (
                            Stage::CreateAddr,
                            no_events(),
                            prompt_wait(dhcp_command(self.hostname.as_str()), 10),
                        ),
                        None,
                    ),
                    Stage::CreateAddr => (
                        (
                            Stage::RestartNet,
                            no_events(),
                            prompt_wait(string_from("svcadm restart network/service"), 10),
                        ),
                        None,
                    ),
                    Stage::RestartNet => {
                        let mut evs = no_events();
                        push_ev(&mut evs, detail("vm-network", "Waiting for DHCP address..."));
                        ((Stage::PollAddr(1), evs, prompt_wait(string_from(show), 5)), None)
                    },
                    Stage::PollAddr(n) => {
                        let all = all_lines(lines, matched);
                        match dhcp_address(&all) {
                            Some(a) => {
                                let mut evs = no_events();
                                push_ev(
                                    &mut evs,
                                    BuildEvent::StepDetail(
                                        string_from("vm-network"),
                                        prefixed("Network configured \u{2014} IP: ", a.as_str()),
                                    ),
                                );
                                push_ev(
                                    &mut evs,
                                    BuildEvent::StepCompleted(string_from("vm-network")),
                                );
                                push_ev(&mut evs, BuildEvent::StepStarted(string_from("vm-netcat")));
                                push_ev(
                                    &mut evs,
                                    detail("vm-netcat", "Starting netcat listener on port 1701..."),
                                );
                                (
                                    (
                                        Stage::Netcat,
                                        evs,
                                        prompt_wait(
                                            string_from("nc -l 1701 </dev/null | bash -x &"),
                                            5,
                                        ),
                                    ),
                                    Some(a),
                                )
                            },
                            None => ((Stage::PollSleep(n), no_events(), Act::Sleep(3)), None),
                        }
                    },
                    _ => {
                        let mut m = string_from("Netcat listener ready on ");
                        push_str(&mut m, self.ip.as_str());
                        push_str(&mut m, ":1701");
                        let mut evs = no_events();
                        push_ev(&mut evs, BuildEvent::StepDetail(string_from("vm-netcat"), m));
                        push_ev(&mut evs, BuildEvent::StepCompleted(string_from("vm-netcat")));
                        ((Stage::Finished, evs, Act::Done(self.ip.clone())), None)
                    },
                },
                Input::WaitFailed { error, .. } => (stop_with(error), None),
                Input::SendFailed(e) => (stop_with(e), None),
                _ => (stop_with(String::new()), None),
            },
        }
    }
}

/// The steps that provisioning reports on: those of the pipeline's first
/// two phases.
pub open spec fn provision_step_id(id: Seq<char>) -> bool {
    ||| id == "prov-create"@
    ||| id == "prov-boot"@
    ||| id == "prov-install"@
    ||| id == "vm-network"@
    ||| id == "vm-netcat"@
}

/// An event names a provisioning step, or no step at all.
pub open spec fn ev_names_provision_step(e: Ev) -> bool {
    match e {
        Ev::Started(id) => provision_step_id(id),
        Ev::Detail(id, _) => provision_step_id(id),
        Ev::Completed(id) => provision_step_id(id),
        Ev::Failed(id, _) => provision_step_id(id),
        Ev::Other => true,
    }
}

proof fn lemma_line_details(id: Seq<char>, ls: Seq<Seq<char>>)
    ensures
        line_details(id, ls).len() == ls.len(),
        forall|k: int| 0 <= k < ls.len() ==> #[trigger] line_details(id, ls)[k] == det(id, ls[k]),
    decreases ls.len(),
{
    if ls.len() > 0 {
        lemma_line_details(id, ls.drop_last());
        assert forall|k: int| 0 <= k < ls.len() implies #[trigger] line_details(id, ls)[k] == det(id, ls[k]) by {
            if k < ls.len() - 1 {
                assert(line_details(id, ls)[k] == line_details(id, ls.drop_last())[k]);
            }
        }
    }
}

/// Every step that provisioning reports on, in any state and on any
/// input, is one of the five steps of the pipeline's "Provision VM" and
/// "Configure VM" phases, so the build screen tracks each of them.
pub proof fn law_provision_reports_pipeline_steps(s: (Stage, u32, Seq<char>, Seq<char>, Seq<char>), i: InV)
    ensures
        forall|k: int| 0 <= k < spec_step(s, i).1.len() ==> ev_names_provision_step(#[trigger] spec_step(s, i).1[k]),
        forall|id: Seq<char>| provision_step_id(id) ==> exists|pi: int, si: int|
            0 <= pi < 2 && 0 <= si < deploy_plan()[pi].1.len() && #[trigger] deploy_plan()[pi].1[si].0 == id,
{
    let out = spec_step(s, i).1;
    assert forall|k: int| 0 <= k < out.len() implies ev_names_provision_step(#[trigger] out[k]) by {
        let id = match s.0 {
            Stage::PromptInstall | Stage::Diskinfo | Stage::Install => "prov-install"@,
            _ => "vm-network"@,
        };
        match i {
            InV::Met(b, m) => {
                lemma_line_details(id, b.push(m));
            },
            InV::WaitFailed(b, _) => {
                lemma_line_details(id, b);
            },
            _ => {},
        }
        match s.0 {
            Stage::CheckExists => assert(ev_names_provision_step(out[k])),
            Stage::Create => assert(ev_names_provision_step(out[k])),
            Stage::Start => assert(ev_names_provision_step(out[k])),
            Stage::BootWait(_) => assert(ev_names_provision_step(out[k])),
            Stage::BootSleep(_) => assert(ev_names_provision_step(out[k])),
            Stage::ConsoleInstall => assert(ev_names_provision_step(out[k])),
            Stage::PromptInstall => assert(ev_names_provision_step(out[k])),
            Stage::Diskinfo => assert(ev_names_provision_step(out[k])),
            Stage::Install => assert(ev_names_provision_step(out[k])),
            Stage::Eject => assert(ev_names_provision_step(out[k])),
            Stage::Stop => assert(ev_names_provision_step(out[k])),
            Stage::StopWait(_) => assert(ev_names_provision_step(out[k])),
            Stage::StopSleep(_) => assert(ev_names_provision_step(out[k])),
            Stage::StartFromDisk => assert(ev_names_provision_step(out[k])),
            Stage::RebootWait(_) => assert(ev_names_provision_step(out[k])),
            Stage::RebootSleep(_) => assert(ev_names_provision_step(out[k])),
            Stage::SettleSleep => assert(ev_names_provision_step(out[k])),
            Stage::ConsoleNetwork => assert(ev_names_provision_step(out[k])),
            Stage::BootFromDisk => assert(ev_names_provision_step(out[k])),
            Stage::Login => assert(ev_names_provision_step(out[k])),
            Stage::Password => assert(ev_names_provision_step(out[k])),
            Stage::CreateIf => assert(ev_names_provision_step(out[k])),
            Stage::CreateAddr => assert(ev_names_provision_step(out[k])),
            Stage::RestartNet => assert(ev_names_provision_step(out[k])),
            Stage::PollAddr(_) => assert(ev_names_provision_step(out[k])),
            Stage::PollSleep(_) => assert(ev_names_provision_step(out[k])),
            Stage::Netcat => assert(ev_names_provision_step(out[k])),
            Stage::Finished => assert(ev_names_provision_step(out[k])),
        }
    }
    assert forall|id: Seq<char>| provision_step_id(id) implies exists|pi: int, si: int|
        0 <= pi < 2 && 0 <= si < deploy_plan()[pi].1.len() && #[trigger] deploy_plan()[pi].1[si].0 == id by {
        if id == "prov-create"@ {
            assert(deploy_plan()[0].1[0].0 == id);
        } else if id == "prov-boot"@ {
            assert(deploy_plan()[0].1[1].0 == id);
        } else if id == "prov-install"@ {
            assert(deploy_plan()[0].1[2].0 == id);
        } else if id == "vm-network"@ {
            assert(deploy_plan()[1].1[0].0 == id);
        } else {
            assert(deploy_plan()[1].1[1].0 == id);
        }
    }
}

} // verus!
