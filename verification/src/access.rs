//! Setting up SSH access to a freshly installed Helios host, as a state
//! machine: send the userdata script (which creates the local user with
//! its SSH keys) to the netcat listener that provisioning left running,
//! then check that SSH as that user works.
//!
//! Each step takes what the last action gave and answers with the build
//! events to report and the next action; writing the script, running
//! netcat, sleeping and SSH are the caller's.
use vstd::prelude::*;
use crate::monitor::BuildEvent;
use crate::provision::{detail, det, evs_view, no_events, prefixed, push_ev, Ev};
use crate::text::{push_chars, push_i64, push_str, signed_decimal, string_from, to_chars, trim, trim_chars};

verus! {

/// Where the access setup stands.
#[derive(Debug, Clone, Copy, PartialEq, Eq, Structural)]
pub enum AccessStage {
    Script,
    Send,
    Settle,
    Connect,
    Hostname,
    Close,
    Finished,
}

/// What the caller does next.
#[derive(Debug)]
pub enum AccessAct {
    /// Write the userdata script for the local user.
    MakeScript,
    /// Send the script with `nc <ip> 1701`, closing its input after it.
    SendScript { ip: String, script: String },
    Sleep(u64),
    /// Connect over SSH as the user given.
    Connect { ip: String, user: String },
    Run(String),
    /// Close the connection.
    Close,
    /// Access works, for the user given.
    Done(String),
    Abort(String),
}

/// What the last action gave.
pub enum AccessInput {
    /// The script, and the local user it creates.
    Script { script: String, username: String },
    /// netcat ended: whether it succeeded, and its exit code if it had one.
    Sent { success: bool, code: Option<i32> },
    /// A sleep ended, a connection was made or closed.
    Ack,
    Output { exit_code: i32, stdout: String, stderr: String },
    Failed(String),
}

pub enum AccessActV {
    MakeScript,
    SendScript(Seq<char>, Seq<char>),
    Sleep(u64),
    Connect(Seq<char>, Seq<char>),
    Run(Seq<char>),
    Close,
    Done(Seq<char>),
    Abort(Seq<char>),
}

pub open spec fn access_act_view(a: AccessAct) -> AccessActV {
    match a {
        AccessAct::MakeScript => AccessActV::MakeScript,
        AccessAct::SendScript { ip, script } => AccessActV::SendScript(ip@, script@),
        AccessAct::Sleep(n) => AccessActV::Sleep(n),
        AccessAct::Connect { ip, user } => AccessActV::Connect(ip@, user@),
        AccessAct::Run(c) => AccessActV::Run(c@),
        AccessAct::Close => AccessActV::Close,
        AccessAct::Done(u) => AccessActV::Done(u@),
        AccessAct::Abort(m) => AccessActV::Abort(m@),
    }
}

pub enum AccessInV {
    Script(Seq<char>, Seq<char>),
    Sent(bool, Option<i32>),
    Ack,
    Output(i32, Seq<char>, Seq<char>),
    Failed(Seq<char>),
}

pub open spec fn access_in_view(i: AccessInput) -> AccessInV {
    match i {
        AccessInput::Script { script, username } => AccessInV::Script(script@, username@),
        AccessInput::Sent { success, code } => AccessInV::Sent(success, code),
        AccessInput::Ack => AccessInV::Ack,
        AccessInput::Output { exit_code, stdout, stderr } => AccessInV::Output(
            exit_code,
            stdout@,
            stderr@,
        ),
        AccessInput::Failed(e) => AccessInV::Failed(e@),
    }
}

/// An access setup run: the host, and the user once known.
pub struct AccessSetup {
    pub stage: AccessStage,
    pub ip: String,
    pub username: String,
}

pub open spec fn keys() -> Seq<char> {
    "access-keys"@
}

pub open spec fn verify() -> Seq<char> {
    "access-verify"@
}

/// The `Debug` form of netcat's exit code.
pub open spec fn debug_code(code: Option<i32>) -> Seq<char> {
    match code {
        Some(c) => "Some("@ + signed_decimal(c as int) + ")"@,
        None => "None"@,
    }
}

/// The stage, the user, the events and the action.
pub open spec fn spec_access_step(
    stage: AccessStage,
    ip: Seq<char>,
    user: Seq<char>,
    i: AccessInV,
) -> (AccessStage, Seq<char>, Seq<Ev>, AccessActV) {
    let halt = |m: Seq<char>| (AccessStage::Finished, user, Seq::<Ev>::empty(), AccessActV::Abort(m));
    match stage {
        AccessStage::Script => match i {
            AccessInV::Script(script, u) => (
                AccessStage::Send,
                u,
                seq![det(keys(), "Sending userdata to "@ + ip + ":1701 (user: "@ + u + ")..."@)],
                AccessActV::SendScript(ip, script),
            ),
            AccessInV::Failed(e) => halt(e),
            _ => halt(seq![]),
        },
        AccessStage::Send => match i {
            AccessInV::Sent(success, code) => if success {
                (AccessStage::Settle, user, seq![], AccessActV::Sleep(5))
            } else {
                let m = "nc exited with code "@ + debug_code(code);
                (AccessStage::Finished, user, seq![Ev::Failed(keys(), m)], AccessActV::Abort(m))
            },
            AccessInV::Failed(e) => halt(e),
            _ => halt(seq![]),
        },
        AccessStage::Settle => (
            AccessStage::Connect,
            user,
            seq![
                Ev::Completed(keys()),
                Ev::Started(verify()),
                det(verify(), "Connecting via SSH as "@ + user + "@"@ + ip + "..."@),
            ],
            AccessActV::Connect(ip, user),
        ),
        AccessStage::Connect => match i {
            AccessInV::Ack => (AccessStage::Hostname, user, seq![], AccessActV::Run("hostname"@)),
            AccessInV::Failed(e) => (
                AccessStage::Finished,
                user,
                seq![Ev::Failed(verify(), "SSH failed: "@ + e)],
                AccessActV::Abort(e),
            ),
            _ => halt(seq![]),
        },
        AccessStage::Hostname => match i {
            AccessInV::Output(_, out, _) => (
                AccessStage::Close,
                user,
                seq![det(verify(), "SSH connected \u{2014} hostname: "@ + trim(out))],
                AccessActV::Close,
            ),
            AccessInV::Failed(e) => (
                AccessStage::Finished,
                user,
                seq![Ev::Failed(verify(), "Command failed: "@ + e)],
                AccessActV::Abort(e),
            ),
            _ => halt(seq![]),
        },
        AccessStage::Close => (
            AccessStage::Finished,
            user,
            seq![Ev::Completed(verify())],
            AccessActV::Done(user),
        ),
        AccessStage::Finished => halt(seq![]),
    }
}

fn debug_code_text(code: Option<i32>) -> (r: String)
    ensures
        r@ == debug_code(code),
{
    match code {
        Some(c) => {
            let mut m = string_from("Some(");
            push_i64(&mut m, c as i64);
            push_str(&mut m, ")");
            m
        },
        None => string_from("None"),
    }
}

fn one(e: BuildEvent) -> (r: Vec<BuildEvent>)
    ensures
        evs_view(r@) == seq![crate::provision::ev_view(e)],
{
    let mut v = no_events();
    push_ev(&mut v, e);
    v
}

impl AccessSetup {
    /// Start setting up access to the host at `ip`: report the key step and
    /// ask for the userdata script.
    pub fn new(ip: &str) -> (r: (AccessSetup, Vec<BuildEvent>, AccessAct))
        ensures
            r.0.stage == AccessStage::Script,
            r.0.ip@ == ip@,
            r.0.username@ == Seq::<char>::empty(),
            evs_view(r.1@) == seq![Ev::Started(keys()), det(keys(), "Generating userdata script..."@)],
            access_act_view(r.2) == AccessActV::MakeScript,
    {
        let mut evs = no_events();
        push_ev(&mut evs, BuildEvent::StepStarted(string_from("access-keys")));
        push_ev(&mut evs, detail("access-keys", "Generating userdata script..."));
        (
            AccessSetup {
                stage: AccessStage::Script,
                ip: string_from(ip),
                username: String::new(),
            },
            evs,
            AccessAct::MakeScript,
        )
    }

    /// Take what the last action gave: the events to report and the next
    /// action. A finished run answers every input by stopping.
    pub fn step(&mut self, input: AccessInput) -> (r: (Vec<BuildEvent>, AccessAct))
        ensures
            ({
                let e = spec_access_step(
                    old(self).stage,
                    old(self).ip@,
                    old(self).username@,
                    access_in_view(input),
                );
                &&& final(self).stage == e.0
                &&& final(self).ip@ == old(self).ip@
                &&& final(self).username@ == e.1
                &&& evs_view(r.0@) == e.2
                &&& access_act_view(r.1) == e.3
            }),
    {
        let (next, evs, act) = match (self.stage, input) {
            (AccessStage::Script, AccessInput::Script { script, username }) => {
                let mut m = string_from("Sending userdata to ");
                push_str(&mut m, self.ip.as_str());
                push_str(&mut m, ":1701 (user: ");
                push_str(&mut m, username.as_str());
                push_str(&mut m, ")...");
                self.username = username;
                (
                    AccessStage::Send,
                    one(BuildEvent::StepDetail(string_from("access-keys"), m)),
                    AccessAct::SendScript { ip: self.ip.clone(), script },
                )
            },
            (AccessStage::Send, AccessInput::Sent { success, code }) => {
                if success {
                    (AccessStage::Settle, no_events(), AccessAct::Sleep(5))
                } else {
                    let m = prefixed("nc exited with code ", debug_code_text(code).as_str());
                    (
                        AccessStage::Finished,
                        one(BuildEvent::StepFailed(string_from("access-keys"), m.clone())),
                        AccessAct::Abort(m),
                    )
                }
            },
            (AccessStage::Settle, _) => {
                let mut evs = no_events();
                push_ev(&mut evs, BuildEvent::StepCompleted(string_from("access-keys")));
                push_ev(&mut evs, BuildEvent::StepStarted(string_from("access-verify")));
                let mut m = string_from("Connecting via SSH as ");
                push_str(&mut m, self.username.as_str());
                push_str(&mut m, "@");
                push_str(&mut m, self.ip.as_str());
                push_str(&mut m, "...");
                push_ev(&mut evs, BuildEvent::StepDetail(string_from("access-verify"), m));
                (
                    AccessStage::Connect,
                    evs,
                    AccessAct::Connect { ip: self.ip.clone(), user: self.username.clone() },
                )
            },
            (AccessStage::Connect, AccessInput::Ack) => (
                AccessStage::Hostname,
                no_events(),
                AccessAct::Run(string_from("hostname")),
            ),
            (AccessStage::Connect, AccessInput::Failed(e)) => (
                AccessStage::Finished,
                one(BuildEvent::StepFailed(string_from("access-verify"), prefixed("SSH failed: ", e.as_str()))),
                AccessAct::Abort(e),
            ),
            (AccessStage::Hostname, AccessInput::Output { stdout, .. }) => {
                let mut m = string_from("SSH connected \u{2014} hostname: ");
                let v = to_chars(stdout.as_str());
                push_chars(&mut m, trim_chars(v.as_slice()));
                (
                    AccessStage::Close,
                    one(BuildEvent::StepDetail(string_from("access-verify"), m)),
                    AccessAct::Close,
                )
            },
            (AccessStage::Hostname, AccessInput::Failed(e)) => (
                AccessStage::Finished,
                one(
                    BuildEvent::StepFailed(
                        string_from("access-verify"),
                        prefixed("Command failed: ", e.as_str()),
                    ),
                ),
                AccessAct::Abort(e),
            ),
            (AccessStage::Close, _) => (
                AccessStage::Finished,
                one(BuildEvent::StepCompleted(string_from("access-verify"))),
                AccessAct::Done(self.username.clone()),
            ),
            (AccessStage::Finished, _) => (AccessStage::Finished, no_events(), AccessAct::Abort(String::new())),
            (_, AccessInput::Failed(e)) => (AccessStage::Finished, no_events(), AccessAct::Abort(e)),
            _ => (AccessStage::Finished, no_events(), AccessAct::Abort(String::new())),
        };
        self.stage = next;
        (evs, act)
    }
}

} // verus!
