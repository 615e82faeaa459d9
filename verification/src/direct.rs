//! SSH through the system `ssh` binary with a control master: the
//! arguments of each invocation, the names of sessions and sockets, and how
//! a credential probe is classified.
//!
//! Running `ssh` is the caller's.
use vstd::prelude::*;
use crate::config::HostConfig;
use crate::parse::network::strings_view;
use crate::ssh::SessionRegistry;
use crate::text::{contains, contains_str, decimal, lines, lines_exec, opt_view, push_i64, push_str, push_u64, signed_decimal, string_from, string_of, to_chars, trim, trim_chars, views};

verus! {

/// `user@host`.
pub fn destination(user: &str, host: &str) -> (r: String)
    ensures
        r@ == user@ + "@"@ + host@,
{
    let mut s = string_from(user);
    push_str(&mut s, "@");
    push_str(&mut s, host);
    s
}

/// `dssh-<n>-<address>`: the session's name in the registry.
pub fn session_id(n: u64, address: &str) -> (r: String)
    ensures
        r@ == "dssh-"@ + decimal(n as nat) + "-"@ + address@,
{
    let mut s = string_from("dssh-");
    push_u64(&mut s, n);
    push_str(&mut s, "-");
    push_str(&mut s, address);
    s
}

/// `whoah-ssh-<n>-<user>@<address>`: the control socket's file name.
pub fn control_socket_name(n: u64, user: &str, address: &str) -> (r: String)
    ensures
        r@ == "whoah-ssh-"@ + decimal(n as nat) + "-"@ + user@ + "@"@ + address@,
{
    let mut s = string_from("whoah-ssh-");
    push_u64(&mut s, n);
    push_str(&mut s, "-");
    push_str(&mut s, user);
    push_str(&mut s, "@");
    push_str(&mut s, address);
    s
}

/// The arguments that start the control master in the background.
pub open spec fn spec_master_args(ctl: Seq<char>, dest: Seq<char>) -> Seq<Seq<char>> {
    seq![
        "-o"@, "StrictHostKeyChecking=no"@,
        "-o"@, "UserKnownHostsFile=/dev/null"@,
        "-o"@, "ConnectTimeout=10"@,
        "-o"@, "ServerAliveInterval=30"@,
        "-o"@, "ServerAliveCountMax=6"@,
        "-o"@, "ControlPath="@ + ctl,
        "-o"@, "ControlMaster=yes"@,
        "-o"@, "ControlPersist=300"@,
        "-M"@, "-f"@, "-N"@,
        dest,
    ]
}

fn push_arg(v: &mut Vec<String>, a: &str)
    ensures
        strings_view(final(v)@) == strings_view(old(v)@).push(a@),
{
    v.push(string_from(a));
    assert(strings_view(v@) =~= strings_view(old(v)@).push(a@));
}

fn push_owned(v: &mut Vec<String>, a: String)
    ensures
        strings_view(final(v)@) == strings_view(old(v)@).push(a@),
{
    let ghost av = a@;
    v.push(a);
    assert(strings_view(v@) =~= strings_view(old(v)@).push(av));
}

fn control_path_option(ctl: &str) -> (r: String)
    ensures
        r@ == "ControlPath="@ + ctl@,
{
    let mut s = string_from("ControlPath=");
    push_str(&mut s, ctl);
    s
}

/// Arguments that start the control master.
pub fn master_args(ctl_path: &str, user: &str, host: &str) -> (r: Vec<String>)
    ensures
        strings_view(r@) == spec_master_args(ctl_path@, user@ + "@"@ + host@),
{
    let mut v: Vec<String> = Vec::new();
    push_arg(&mut v, "-o");
    push_arg(&mut v, "StrictHostKeyChecking=no");
    push_arg(&mut v, "-o");
    push_arg(&mut v, "UserKnownHostsFile=/dev/null");
    push_arg(&mut v, "-o");
    push_arg(&mut v, "ConnectTimeout=10");
    push_arg(&mut v, "-o");
    push_arg(&mut v, "ServerAliveInterval=30");
    push_arg(&mut v, "-o");
    push_arg(&mut v, "ServerAliveCountMax=6");
    push_arg(&mut v, "-o");
    push_owned(&mut v, control_path_option(ctl_path));
    push_arg(&mut v, "-o");
    push_arg(&mut v, "ControlMaster=yes");
    push_arg(&mut v, "-o");
    push_arg(&mut v, "ControlPersist=300");
    push_arg(&mut v, "-M");
    push_arg(&mut v, "-f");
    push_arg(&mut v, "-N");
    push_owned(&mut v, destination(user, host));
    assert(strings_view(v@) =~= spec_master_args(ctl_path@, user@ + "@"@ + host@));
    v
}

/// The arguments of a command run through the master.
pub open spec fn spec_command_args(ctl: Seq<char>, dest: Seq<char>, cmd: Seq<char>) -> Seq<Seq<char>> {
    seq![
        "-o"@, "StrictHostKeyChecking=no"@,
        "-o"@, "UserKnownHostsFile=/dev/null"@,
        "-o"@, "ControlPath="@ + ctl,
        "-o"@, "ControlMaster=auto"@,
        dest,
        "--"@, cmd,
    ]
}

/// Arguments that run a command through the master.
pub fn command_args(ctl_path: &str, user: &str, host: &str, cmd: &str) -> (r: Vec<String>)
    ensures
        strings_view(r@) == spec_command_args(ctl_path@, user@ + "@"@ + host@, cmd@),
{
    let mut v: Vec<String> = Vec::new();
    push_arg(&mut v, "-o");
    push_arg(&mut v, "StrictHostKeyChecking=no");
    push_arg(&mut v, "-o");
    push_arg(&mut v, "UserKnownHostsFile=/dev/null");
    push_arg(&mut v, "-o");
    push_owned(&mut v, control_path_option(ctl_path));
    push_arg(&mut v, "-o");
    push_arg(&mut v, "ControlMaster=auto");
    push_owned(&mut v, destination(user, host));
    push_arg(&mut v, "--");
    push_arg(&mut v, cmd);
    assert(strings_view(v@) =~= spec_command_args(ctl_path@, user@ + "@"@ + host@, cmd@));
    v
}

/// Arguments that ask the master to `exit` or to `check` itself.
pub fn control_args(ctl_path: &str, user: &str, host: &str, op: &str) -> (r: Vec<String>)
    ensures
        strings_view(r@) == seq!["-o"@, "ControlPath="@ + ctl_path@, "-O"@, op@, user@ + "@"@ + host@],
{
    let mut v: Vec<String> = Vec::new();
    push_arg(&mut v, "-o");
    push_owned(&mut v, control_path_option(ctl_path));
    push_arg(&mut v, "-O");
    push_arg(&mut v, op);
    push_owned(&mut v, destination(user, host));
    assert(strings_view(v@) =~= seq!["-o"@, "ControlPath="@ + ctl_path@, "-O"@, op@, user@ + "@"@ + host@]);
    v
}

/// The command as the registry records it: its first 80 characters.
pub fn short_command(cmd: &str) -> (r: String)
    ensures
        r@ == (if cmd@.len() <= 80 {
            cmd@
        } else {
            cmd@.take(80)
        }),
{
    let v = to_chars(cmd);
    if v.len() <= 80 {
        string_of(v.as_slice())
    } else {
        string_of(vstd::slice::slice_subrange(v.as_slice(), 0, 80))
    }
}

/// `SSH ControlMaster failed (exit <code>): <trimmed stderr>`.
pub fn master_failure(code: i32, stderr: &str) -> (r: String)
    ensures
        r@ == "SSH ControlMaster failed (exit "@ + signed_decimal(code as int) + "): "@ + trim(stderr@),
{
    let mut s = string_from("SSH ControlMaster failed (exit ");
    push_i64(&mut s, code as i64);
    push_str(&mut s, "): ");
    let v = to_chars(stderr);
    let t = trim_chars(v.as_slice());
    let ts = string_of(t);
    push_str(&mut s, ts.as_str());
    s
}

/// The first line of `ssh-keygen -l -F` output naming a SHA256 key.
pub open spec fn spec_host_key(ls: Seq<Seq<char>>) -> Option<Seq<char>>
    decreases ls.len(),
{
    if ls.len() == 0 {
        None
    } else if contains(ls[0], "SHA256:"@) {
        Some(trim(ls[0]))
    } else {
        spec_host_key(ls.drop_first())
    }
}

/// The host key fingerprint to log, trimmed.
pub fn host_key_line(stdout: &str) -> (r: Option<String>)
    ensures
        opt_view(r) == spec_host_key(lines(stdout@)),
{
    let v = to_chars(stdout);
    let ls = lines_exec(v.as_slice());
    let ghost lv = views(ls@);
    let mut i: usize = 0;
    assert(lv.skip(0) =~= lv);
    while i < ls.len()
        invariant
            i <= ls@.len(),
            lv == views(ls@),
            lv == lines(stdout@),
            spec_host_key(lv) == spec_host_key(lv.skip(i as int)),
        decreases ls@.len() - i,
    {
        assert(lv.skip(i as int)[0] == ls@[i as int]@);
        assert(lv.skip(i as int).drop_first() =~= lv.skip(i + 1));
        if contains_str(ls[i], "SHA256:") {
            return Some(string_of(trim_chars(ls[i])));
        }
        i = i + 1;
    }
    assert(lv.skip(i as int) =~= Seq::<Seq<char>>::empty());
    None
}

/// What a credential probe found.
#[derive(Debug, Clone, Copy, PartialEq, Eq, Structural)]
pub enum SshProbeStatus {
    /// Not checked yet.
    Unknown,
    /// A probe is running.
    Checking,
    /// Connected and logged in.
    Valid,
    /// Reached, but the login was refused.
    AuthFailed,
    /// Not reached in time.
    Offline,
}

/// Classify a probe: no host or no connection within the time is offline;
/// then the login decides.
pub fn probe_status(host: &str, connected: bool, authenticated: bool) -> (r: SshProbeStatus)
    ensures
        r == (if host@.len() == 0 || !connected {
            SshProbeStatus::Offline
        } else if authenticated {
            SshProbeStatus::Valid
        } else {
            SshProbeStatus::AuthFailed
        }),
{
    if host.is_empty() || !connected {
        SshProbeStatus::Offline
    } else if authenticated {
        SshProbeStatus::Valid
    } else {
        SshProbeStatus::AuthFailed
    }
}

/// `<host>:22`: where a probe connects.
pub fn probe_address(host: &str) -> (r: String)
    ensures
        r@ == host@ + ":22"@,
{
    let mut s = string_from(host);
    push_str(&mut s, ":22");
    s
}

/// A path joined with a relative name: the name itself under an empty
/// path, else separated by one `/`.
pub open spec fn spec_join_path(base: Seq<char>, name: Seq<char>) -> Seq<char> {
    if base.len() == 0 {
        name
    } else if base.last() == '/' {
        base + name
    } else {
        base + "/"@ + name
    }
}

fn join_path(base: &str, name: &str) -> (r: String)
    ensures
        r@ == spec_join_path(base@, name@),
{
    let v = to_chars(base);
    if v.len() == 0 {
        return string_from(name);
    }
    let mut s = string_from(base);
    if v[v.len() - 1] != '/' {
        push_str(&mut s, "/");
    }
    push_str(&mut s, name);
    proof {
        reveal_strlit("/");
        assert(base@.last() == v@[v@.len() - 1]);
    }
    s
}

/// A session through the system `ssh` binary: who, where, its name in the
/// registry, its control socket, and how many commands it has run.
pub struct DirectSsh {
    pub user: String,
    pub host: String,
    pub id: String,
    pub ctl_path: String,
    pub command_count: u64,
}

impl DirectSsh {
    /// The session numbered `n` to a host, its socket in the temporary
    /// directory; no command run yet.
    pub fn for_host(n: u64, config: &HostConfig, temp_dir: &str) -> (r: DirectSsh)
        ensures
            r.user@ == config.ssh_user@,
            r.host@ == config.address@,
            r.id@ == "dssh-"@ + decimal(n as nat) + "-"@ + config.address@,
            r.ctl_path@ == spec_join_path(
                temp_dir@,
                "whoah-ssh-"@ + decimal(n as nat) + "-"@ + config.ssh_user@ + "@"@ + config.address@,
            ),
            r.command_count == 0,
    {
        let name = control_socket_name(n, config.ssh_user.as_str(), config.address.as_str());
        DirectSsh {
            user: string_from(config.ssh_user.as_str()),
            host: string_from(config.address.as_str()),
            id: session_id(n, config.address.as_str()),
            ctl_path: join_path(temp_dir, name.as_str()),
            command_count: 0,
        }
    }

    /// Label the session in the registry (shown in the debug view).
    pub fn set_label(&self, registry: &mut SessionRegistry, label: &str)
        requires
            old(registry).wf(),
        ensures
            final(registry).wf(),
            crate::ssh::registry_view(final(registry).sessions@) == match crate::ssh::id_index(
                crate::ssh::registry_view(old(registry).sessions@),
                self.id@,
                0,
            ) {
                Some(k) => crate::ssh::registry_view(old(registry).sessions@).update(
                    k,
                    (
                        self.id@,
                        crate::ssh::SpecEntry {
                            label: label@,
                            ..crate::ssh::registry_view(old(registry).sessions@)[k].1
                        },
                    ),
                ),
                None => crate::ssh::registry_view(old(registry).sessions@),
            },
    {
        registry.set_label(self.id.as_str(), label);
    }

    /// The arguments that run a command through the session's master.
    pub fn ssh_args(&self, cmd: &str) -> (r: Vec<String>)
        ensures
            strings_view(r@) == spec_command_args(self.ctl_path@, self.user@ + "@"@ + self.host@, cmd@),
    {
        command_args(self.ctl_path.as_str(), self.user.as_str(), self.host.as_str(), cmd)
    }

    /// Count a command about to run: its number in the session (from 1)
    /// and how the registry records it.
    pub fn next_command(&mut self, cmd: &str) -> (r: (u64, String))
        requires
            old(self).command_count < u64::MAX,
        ensures
            final(self).command_count == old(self).command_count + 1,
            r.0 == final(self).command_count,
            r.1@ == (if cmd@.len() <= 80 {
                cmd@
            } else {
                cmd@.take(80)
            }),
            final(self).user@ == old(self).user@ && final(self).host@ == old(self).host@,
            final(self).id@ == old(self).id@ && final(self).ctl_path@ == old(self).ctl_path@,
    {
        self.command_count = self.command_count + 1;
        (self.command_count, short_command(cmd))
    }
}

/// The SSH client's view of the server: every host key is accepted (there
/// is no known-hosts check).
pub struct SshClientHandler;

impl SshClientHandler {
    /// The handler; it holds nothing.
    pub fn new() -> (r: SshClientHandler)
        ensures
            r == SshClientHandler,
    {
        SshClientHandler
    }

    /// Whether a server's key is accepted: always.
    pub fn accepts_server_key(&self) -> (r: bool)
        ensures
            r,
    {
        true
    }
}

impl Default for SshClientHandler {
    fn default() -> (r: SshClientHandler) {
        SshClientHandler
    }
}

} // verus!
