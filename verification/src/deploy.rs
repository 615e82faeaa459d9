//! Decisions of the deploy pipeline: the Proxmox commands that create and
//! drive the VM, how serial console output is read (prompts, disks, the DHCP
//! address), and how the OS setup reads boot environments, package and
//! toolchain checks.
//!
//! The caller runs the commands over SSH or the serial console and hands the
//! output back to these functions.
use vstd::prelude::*;
use crate::config::ProxmoxConfig;
use crate::parse::network::strings_view;
use crate::text::{contains, contains_str, decimal, ends_with, ends_with_str, has_char, has_char_exec, lines, lines_exec, opt_view, parse_unsigned, parse_unsigned_exec, push_char, push_chars, push_i64, push_str, push_u64, signed_decimal, split_char, split_char_exec, split_whitespace, split_whitespace_exec, starts_with, starts_with_str, str_eq, string_from, string_of, strip_prefix, strip_prefix_str, to_chars, trim, trim_chars, views};

verus! {

// --- Proxmox VM commands ---

/// The `qm create` disk key for a bus: `sata0`, `scsi0`, `ide0`, and `sata0`
/// for any other bus.
pub open spec fn spec_disk_key(bus: Seq<char>) -> Seq<char> {
    if bus == "scsi"@ {
        "scsi0"@
    } else if bus == "ide"@ {
        "ide0"@
    } else {
        "sata0"@
    }
}

/// The `qm create` disk key for a bus.
pub fn disk_key(bus: &str) -> (r: &'static str)
    ensures
        r@ == spec_disk_key(bus@),
{
    if str_eq(bus, "scsi") {
        "scsi0"
    } else if str_eq(bus, "ide") {
        "ide0"
    } else {
        "sata0"
    }
}

/// `qm create <vmid> --name .. --boot order=ide2`: the VM with its disk on
/// the disk storage, its NIC on the bridge, a serial console, and the
/// installer ISO in the CD drive.
pub open spec fn spec_create_command(c: ProxmoxConfig) -> Seq<char> {
    "qm create "@ + decimal(c.vm.vmid as nat) + " --name "@ + c.vm.name@ + " --ostype "@
        + c.vm.os_type@ + " --memory "@ + decimal(c.vm.memory_mb as nat) + " --cores "@ + decimal(
        c.vm.cores as nat,
    ) + " --sockets "@ + decimal(c.vm.sockets as nat) + " --cpu "@ + c.vm.cpu_type@ + " --"@
        + spec_disk_key(c.vm.disk_bus@) + " "@ + c.disk_storage@ + ":"@ + decimal(
        c.vm.disk_gb as nat,
    ) + " --net0 "@ + c.vm.net_model@ + ",bridge="@ + c.vm.net_bridge@ + ",firewall=1"@
        + " --serial0 socket --vga serial0 --ide2 "@ + c.iso_storage@ + ":iso/"@ + c.iso_file@
        + ",media=cdrom --boot order=ide2"@
}

/// The command that creates the VM.
pub fn create_command(c: &ProxmoxConfig) -> (r: String)
    ensures
        r@ == spec_create_command(*c),
{
    let mut s = string_from("qm create ");
    push_u64(&mut s, c.vm.vmid as u64);
    push_str(&mut s, " --name ");
    push_str(&mut s, c.vm.name.as_str());
    push_str(&mut s, " --ostype ");
    push_str(&mut s, c.vm.os_type.as_str());
    push_str(&mut s, " --memory ");
    push_u64(&mut s, c.vm.memory_mb as u64);
    push_str(&mut s, " --cores ");
    push_u64(&mut s, c.vm.cores as u64);
    push_str(&mut s, " --sockets ");
    push_u64(&mut s, c.vm.sockets as u64);
    push_str(&mut s, " --cpu ");
    push_str(&mut s, c.vm.cpu_type.as_str());
    push_str(&mut s, " --");
    push_str(&mut s, disk_key(c.vm.disk_bus.as_str()));
    push_str(&mut s, " ");
    push_str(&mut s, c.disk_storage.as_str());
    push_str(&mut s, ":");
    push_u64(&mut s, c.vm.disk_gb as u64);
    push_str(&mut s, " --net0 ");
    push_str(&mut s, c.vm.net_model.as_str());
    push_str(&mut s, ",bridge=");
    push_str(&mut s, c.vm.net_bridge.as_str());
    push_str(&mut s, ",firewall=1");
    push_str(&mut s, " --serial0 socket --vga serial0 --ide2 ");
    push_str(&mut s, c.iso_storage.as_str());
    push_str(&mut s, ":iso/");
    push_str(&mut s, c.iso_file.as_str());
    push_str(&mut s, ",media=cdrom --boot order=ide2");
    s
}

/// `<verb> <vmid>`.
pub open spec fn spec_vm_command(verb: Seq<char>, vmid: u32) -> Seq<char> {
    verb + " "@ + decimal(vmid as nat)
}

fn vm_command(verb: &str, vmid: u32) -> (r: String)
    ensures
        r@ == spec_vm_command(verb@, vmid),
{
    let mut s = string_from(verb);
    push_str(&mut s, " ");
    push_u64(&mut s, vmid as u64);
    s
}

/// `qm start <vmid>`.
pub fn start_command(vmid: u32) -> (r: String)
    ensures
        r@ == spec_vm_command("qm start"@, vmid),
{
    vm_command("qm start", vmid)
}

/// `qm status <vmid>`: exit 0 when the VM exists; its output names the state.
pub fn status_command(vmid: u32) -> (r: String)
    ensures
        r@ == spec_vm_command("qm status"@, vmid),
{
    vm_command("qm status", vmid)
}

/// `qm stop <vmid>`.
pub fn stop_command(vmid: u32) -> (r: String)
    ensures
        r@ == spec_vm_command("qm stop"@, vmid),
{
    vm_command("qm stop", vmid)
}

/// The state in `qm status` output: the trimmed output without its
/// `status: ` prefix (or whole, without one).
pub open spec fn spec_vm_state(stdout: Seq<char>) -> Seq<char> {
    match strip_prefix(trim(stdout), "status: "@) {
        Some(s) => s,
        None => trim(stdout),
    }
}

/// Read the state out of `qm status` output.
pub fn vm_state(stdout: &str) -> (r: String)
    ensures
        r@ == spec_vm_state(stdout@),
{
    let v = to_chars(stdout);
    let t = trim_chars(v.as_slice());
    match strip_prefix_str(t, "status: ") {
        Some(s) => string_of(s),
        None => string_of(t),
    }
}

/// `<what> failed (exit <code>): <trimmed stderr>`.
pub open spec fn spec_command_failure(what: Seq<char>, code: i32, stderr: Seq<char>) -> Seq<char> {
    what + " failed (exit "@ + signed_decimal(code as int) + "): "@ + trim(stderr)
}

/// The error for a `qm` command that exited non-zero.
pub fn command_failure(what: &str, code: i32, stderr: &str) -> (r: String)
    ensures
        r@ == spec_command_failure(what@, code, stderr@),
{
    let mut s = string_from(what);
    push_str(&mut s, " failed (exit ");
    push_i64(&mut s, code as i64);
    push_str(&mut s, "): ");
    let v = to_chars(stderr);
    push_chars(&mut s, trim_chars(v.as_slice()));
    s
}

/// The VM to create exists already.
pub fn vm_exists_message(vmid: u32) -> (r: String)
    ensures
        r@ == "VM "@ + decimal(vmid as nat)
            + " already exists. Delete it first or choose a different VMID."@,
{
    let mut s = string_from("VM ");
    push_u64(&mut s, vmid as u64);
    push_str(&mut s, " already exists. Delete it first or choose a different VMID.");
    s
}

/// `qm set <vmid> --ide2 none,media=cdrom --boot order=sata0`: eject the
/// installer and boot from disk.
pub fn eject_command(vmid: u32) -> (r: String)
    ensures
        r@ == "qm set "@ + decimal(vmid as nat) + " --ide2 none,media=cdrom --boot order=sata0"@,
{
    let mut s = string_from("qm set ");
    push_u64(&mut s, vmid as u64);
    push_str(&mut s, " --ide2 none,media=cdrom --boot order=sata0");
    s
}

// --- Serial console ---

/// A shell prompt: the trimmed line ends with `#`.
pub open spec fn spec_is_prompt(line: Seq<char>) -> bool {
    ends_with(trim(line), "#"@)
}

/// Whether a console line is a shell prompt.
pub fn is_prompt(line: &str) -> (r: bool)
    ensures
        r == spec_is_prompt(line@),
{
    let v = to_chars(line);
    ends_with_str(trim_chars(v.as_slice()), "#")
}

/// After booting from disk: a login prompt or a shell prompt.
pub fn is_boot_done(line: &str) -> (r: bool)
    ensures
        r == (contains(line@, "login:"@) || spec_is_prompt(line@)),
{
    let v = to_chars(line);
    contains_str(v.as_slice(), "login:") || is_prompt(line)
}

/// After sending the user name: a password prompt or a shell prompt.
pub fn is_login_reply(line: &str) -> (r: bool)
    ensures
        r == (contains(line@, "Password:"@) || spec_is_prompt(line@)),
{
    let v = to_chars(line);
    contains_str(v.as_slice(), "Password:") || is_prompt(line)
}

/// The disk on a `diskinfo` line: the second column of a SATA, NVMe or USB
/// line.
pub open spec fn spec_disk_of(line: Seq<char>) -> Option<Seq<char>> {
    if starts_with(line, "SATA"@) || starts_with(line, "NVMe"@) || starts_with(line, "USB"@) {
        if split_whitespace(line).len() >= 2 {
            Some(split_whitespace(line)[1])
        } else {
            None
        }
    } else {
        None
    }
}

/// The disks of `diskinfo` output, in order.
pub open spec fn spec_disks(lines: Seq<Seq<char>>) -> Seq<Seq<char>>
    decreases lines.len(),
{
    if lines.len() == 0 {
        seq![]
    } else {
        let rest = spec_disks(lines.drop_last());
        match spec_disk_of(lines.last()) {
            Some(d) => rest.push(d),
            None => rest,
        }
    }
}

fn disk_of(line: &str) -> (r: Option<String>)
    ensures
        opt_view(r) == spec_disk_of(line@),
{
    let v = to_chars(line);
    let l = v.as_slice();
    if starts_with_str(l, "SATA") || starts_with_str(l, "NVMe") || starts_with_str(l, "USB") {
        let w = split_whitespace_exec(l);
        if w.len() >= 2 {
            assert(views(w@)[1] == w@[1]@);
            Some(string_of(w[1]))
        } else {
            None
        }
    } else {
        None
    }
}

/// The disks that `diskinfo` listed; the first is the one to install to.
pub fn diskinfo_disks(lines: &Vec<String>) -> (r: Vec<String>)
    ensures
        strings_view(r@) == spec_disks(strings_view(lines@)),
{
    let ghost lv = strings_view(lines@);
    let mut out: Vec<String> = Vec::new();
    let mut i: usize = 0;
    while i < lines.len()
        invariant
            i <= lines@.len(),
            lv == strings_view(lines@),
            strings_view(out@) == spec_disks(lv.take(i as int)),
        decreases lines@.len() - i,
    {
        assert(lv.take(i + 1).drop_last() =~= lv.take(i as int));
        assert(lv.take(i + 1).last() == lines@[i as int]@);
        match disk_of(lines[i].as_str()) {
            Some(d) => {
                out.push(d);
                assert(strings_view(out@) =~= spec_disks(lv.take(i as int)).push(
                    out@[out@.len() - 1]@,
                ));
            },
            None => {},
        }
        i = i + 1;
    }
    assert(lv.take(i as int) =~= lv);
    out
}

/// `install-helios <hostname> <disk>`.
pub fn install_command(hostname: &str, disk: &str) -> (r: String)
    ensures
        r@ == "install-helios "@ + hostname@ + " "@ + disk@,
{
    let mut s = string_from("install-helios ");
    push_str(&mut s, hostname);
    push_str(&mut s, " ");
    push_str(&mut s, disk);
    s
}

/// `ipadm create-addr -T dhcp -h <hostname> e1000g0/dhcp`.
pub fn dhcp_command(hostname: &str) -> (r: String)
    ensures
        r@ == "ipadm create-addr -T dhcp -h "@ + hostname@ + " e1000g0/dhcp"@,
{
    let mut s = string_from("ipadm create-addr -T dhcp -h ");
    push_str(&mut s, hostname);
    push_str(&mut s, " e1000g0/dhcp");
    s
}

/// The address on a line of `ipadm show-addr -o ADDR` output: the part
/// before the prefix length, when it holds a dot. Blank lines, the header,
/// the echoed command and prompts hold none.
pub open spec fn spec_addr_of(line: Seq<char>) -> Option<Seq<char>> {
    let t = trim(line);
    if t.len() == 0 || starts_with(t, "ADDR"@) || starts_with(t, "ipadm"@) || ends_with(t, "#"@) {
        None
    } else if has_char(split_char(t, '/')[0], '.') {
        Some(split_char(t, '/')[0])
    } else {
        None
    }
}

/// The first address in the output.
pub open spec fn spec_first_addr(lines: Seq<Seq<char>>) -> Option<Seq<char>>
    decreases lines.len(),
{
    if lines.len() == 0 {
        None
    } else {
        match spec_addr_of(lines[0]) {
            Some(a) => Some(a),
            None => spec_first_addr(lines.drop_first()),
        }
    }
}

fn addr_of(line: &str) -> (r: Option<String>)
    ensures
        opt_view(r) == spec_addr_of(line@),
{
    let v = to_chars(line);
    let t = trim_chars(v.as_slice());
    if t.len() == 0 || starts_with_str(t, "ADDR") || starts_with_str(t, "ipadm") || ends_with_str(
        t,
        "#",
    ) {
        return None;
    }
    let parts = split_char_exec(t, '/');
    assert(views(parts@)[0] == parts@[0]@);
    if has_char_exec(parts[0], '.') {
        Some(string_of(parts[0]))
    } else {
        None
    }
}

/// The DHCP address in `ipadm show-addr` output, if it has one yet.
pub fn dhcp_address(lines: &Vec<String>) -> (r: Option<String>)
    ensures
        opt_view(r) == spec_first_addr(strings_view(lines@)),
{
    let ghost lv = strings_view(lines@);
    let mut i: usize = 0;
    assert(lv.skip(0) =~= lv);
    while i < lines.len()
        invariant
            i <= lines@.len(),
            lv == strings_view(lines@),
            spec_first_addr(lv) == spec_first_addr(lv.skip(i as int)),
        decreases lines@.len() - i,
    {
        assert(lv.skip(i as int)[0] == lines@[i as int]@);
        assert(lv.skip(i as int).drop_first() =~= lv.skip(i + 1));
        match addr_of(lines[i].as_str()) {
            Some(a) => {
                return Some(a);
            },
            None => {},
        }
        i = i + 1;
    }
    assert(lv.skip(i as int) =~= Seq::<Seq<char>>::empty());
    None
}

// --- OS setup ---

/// Boot environments after `pkg update`: more than one (the count read
/// from `beadm list -H | wc -l`, one when unreadable) means an update
/// landed and the host must reboot.
pub open spec fn spec_update_needs_reboot(wc_output: Seq<char>) -> bool {
    match parse_unsigned(trim(wc_output), usize::MAX as nat) {
        Some(n) => n > 1,
        None => false,
    }
}

/// Whether the update calls for a reboot.
pub fn update_needs_reboot(wc_output: &str) -> (r: bool)
    ensures
        r == spec_update_needs_reboot(wc_output@),
{
    let v = to_chars(wc_output);
    let t = trim_chars(v.as_slice());
    let max: u64 = if usize::MAX as u64 >= 9 { usize::MAX as u64 } else { 9 };
    assert(usize::MAX >= 9);
    match parse_unsigned_exec(t, max) {
        Some(n) => n > 1,
        None => false,
    }
}

/// The boot environment a line of `beadm list -H` names for deletion: one
/// that is neither active now (`N`) nor on reboot (`R`).
pub open spec fn spec_stale_be(line: Seq<char>) -> Option<Seq<char>> {
    let f = split_char(line, ';');
    if f.len() >= 3 && !has_char(f[2], 'N') && !has_char(f[2], 'R') {
        Some(f[0])
    } else {
        None
    }
}

/// The stale boot environments, in order.
pub open spec fn spec_stale_bes(ls: Seq<Seq<char>>) -> Seq<Seq<char>>
    decreases ls.len(),
{
    if ls.len() == 0 {
        seq![]
    } else {
        let rest = spec_stale_bes(ls.drop_last());
        match spec_stale_be(ls.last()) {
            Some(b) => rest.push(b),
            None => rest,
        }
    }
}

fn stale_be(line: &[char]) -> (r: Option<String>)
    ensures
        opt_view(r) == spec_stale_be(line@),
{
    let f = split_char_exec(line, ';');
    if f.len() >= 3 {
        assert(views(f@)[2] == f@[2]@ && views(f@)[0] == f@[0]@);
        if !has_char_exec(f[2], 'N') && !has_char_exec(f[2], 'R') {
            return Some(string_of(f[0]));
        }
    }
    None
}

/// The boot environments to destroy, read from `beadm list -H`.
pub fn stale_boot_environments(output: &str) -> (r: Vec<String>)
    ensures
        strings_view(r@) == spec_stale_bes(lines(output@)),
{
    let v = to_chars(output);
    let ls = lines_exec(v.as_slice());
    let ghost lv = views(ls@);
    let mut out: Vec<String> = Vec::new();
    let mut i: usize = 0;
    while i < ls.len()
        invariant
            i <= ls@.len(),
            lv == views(ls@),
            lv == lines(output@),
            strings_view(out@) == spec_stale_bes(lv.take(i as int)),
        decreases ls@.len() - i,
    {
        assert(lv.take(i + 1).drop_last() =~= lv.take(i as int));
        assert(lv.take(i + 1).last() == ls@[i as int]@);
        match stale_be(ls[i]) {
            Some(b) => {
                out.push(b);
                assert(strings_view(out@) =~= spec_stale_bes(lv.take(i as int)).push(
                    out@[out@.len() - 1]@,
                ));
            },
            None => {},
        }
        i = i + 1;
    }
    assert(lv.take(i as int) =~= lv);
    out
}

/// `pfexec beadm destroy -Ff <name>`.
pub fn destroy_be_command(name: &str) -> (r: String)
    ensures
        r@ == "pfexec beadm destroy -Ff "@ + name@,
{
    let mut s = string_from("pfexec beadm destroy -Ff ");
    push_str(&mut s, name);
    s
}

/// `pkg install` succeeded: exit 0 (installed) or 4 (nothing to do).
pub fn pkg_install_ok(code: i32) -> (r: bool)
    ensures
        r == (code == 0 || code == 4),
{
    code == 0 || code == 4
}

/// The Rust toolchain the build uses.
pub fn rust_toolchain() -> (r: &'static str)
    ensures
        r@ == "1.91.1"@,
{
    "1.91.1"
}

/// The toolchain is in place: `rustc -V` ran and names it.
pub fn rust_installed(code: i32, stdout: &str, toolchain: &str) -> (r: bool)
    ensures
        r == (code == 0 && contains(stdout@, toolchain@)),
{
    let v = to_chars(stdout);
    code == 0 && contains_str(v.as_slice(), toolchain)
}

/// The rustup install command for a toolchain.
pub fn rustup_command(toolchain: &str) -> (r: String)
    ensures
        r@ == "bash -c 'curl --proto =https --tlsv1.2 -sSf https://sh.rustup.rs | bash -s -- -y --default-toolchain "@
            + toolchain@ + "' 2>&1"@,
{
    let mut s = string_from(
        "bash -c 'curl --proto =https --tlsv1.2 -sSf https://sh.rustup.rs | bash -s -- -y --default-toolchain ",
    );
    push_str(&mut s, toolchain);
    push_str(&mut s, "' 2>&1");
    s
}

/// Swap is configured: `swap -l` lists a swap file beyond its header.
pub fn swap_configured(swap_list: &str) -> (r: bool)
    ensures
        r == (contains(swap_list@, "swapfile"@) && lines(swap_list@).len() > 1),
{
    let v = to_chars(swap_list);
    if !contains_str(v.as_slice(), "swapfile") {
        return false;
    }
    let ls = lines_exec(v.as_slice());
    assert(views(ls@).len() == ls@.len());
    ls.len() > 1
}

// --- Access setup ---

/// The full name in a `getent passwd` line (its fifth field), or the user
/// name when the line has fewer fields.
pub open spec fn spec_gecos(passwd_line: Seq<char>, username: Seq<char>) -> Seq<char> {
    if split_char(passwd_line, ':').len() > 4 {
        split_char(passwd_line, ':')[4]
    } else {
        username
    }
}

/// Read the full name out of a `getent passwd` line.
pub fn gecos_from_passwd(passwd_line: &str, username: &str) -> (r: String)
    ensures
        r@ == spec_gecos(passwd_line@, username@),
{
    let v = to_chars(passwd_line);
    let f = split_char_exec(v.as_slice(), ':');
    if f.len() > 4 {
        assert(views(f@)[4] == f@[4]@);
        string_of(f[4])
    } else {
        string_from(username)
    }
}

/// The script that the new host runs from the netcat listener: it creates
/// the user's home and account with the same uid and full name, installs
/// the SSH keys, adds the ooce paths and syncs the clock.
pub open spec fn spec_userdata_script(user: Seq<char>, uid: u32, gecos: Seq<char>, keys: Seq<char>) -> Seq<char> {
    "#!/bin/bash\nset -o errexit\nset -o pipefail\nset -o xtrace\necho 'Just a moment...' >/dev/msglog\n/sbin/zfs create 'rpool/home/"@
        + user + "'\n/usr/sbin/useradd -u '"@ + decimal(uid as nat) + "' -g staff -c '"@ + gecos
        + "' -d '/home/"@ + user + "' \\\n    -P 'Primary Administrator' -s /bin/bash '"@ + user
        + "'\n/bin/passwd -N '"@ + user + "'\n/bin/mkdir -p '/home/"@ + user
        + "/.ssh'\ncat > '/home/"@ + user + "/.ssh/authorized_keys' <<'EOSSH'\n"@ + keys
        + "EOSSH\n/bin/chmod 600 '/home/"@ + user + "/.ssh/authorized_keys'\n/bin/chown -R '"@
        + user + ":staff' '/home/"@ + user + "'\n/bin/chmod 0700 '/home/"@ + user
        + "'\n/bin/sed -i \\\n    -e '/^PATH=/s#$#:/opt/ooce/bin:/opt/ooce/sbin#' \\\n    /etc/default/login\n/bin/ntpdig -S 0.pool.ntp.org || true\necho 'ok go' >/dev/msglog\n"@
}

/// Write the account setup script.
pub fn userdata_script(user: &str, uid: u32, gecos: &str, keys: &str) -> (r: String)
    ensures
        r@ == spec_userdata_script(user@, uid, gecos@, keys@),
{
    let mut s = string_from(
        "#!/bin/bash\nset -o errexit\nset -o pipefail\nset -o xtrace\necho 'Just a moment...' >/dev/msglog\n/sbin/zfs create 'rpool/home/",
    );
    push_str(&mut s, user);
    push_str(&mut s, "'\n/usr/sbin/useradd -u '");
    push_u64(&mut s, uid as u64);
    push_str(&mut s, "' -g staff -c '");
    push_str(&mut s, gecos);
    push_str(&mut s, "' -d '/home/");
    push_str(&mut s, user);
    push_str(&mut s, "' \\\n    -P 'Primary Administrator' -s /bin/bash '");
    push_str(&mut s, user);
    push_str(&mut s, "'\n/bin/passwd -N '");
    push_str(&mut s, user);
    push_str(&mut s, "'\n/bin/mkdir -p '/home/");
    push_str(&mut s, user);
    push_str(&mut s, "/.ssh'\ncat > '/home/");
    push_str(&mut s, user);
    push_str(&mut s, "/.ssh/authorized_keys' <<'EOSSH'\n");
    push_str(&mut s, keys);
    push_str(&mut s, "EOSSH\n/bin/chmod 600 '/home/");
    push_str(&mut s, user);
    push_str(&mut s, "/.ssh/authorized_keys'\n/bin/chown -R '");
    push_str(&mut s, user);
    push_str(&mut s, ":staff' '/home/");
    push_str(&mut s, user);
    push_str(&mut s, "'\n/bin/chmod 0700 '/home/");
    push_str(&mut s, user);
    push_str(
        &mut s,
        "'\n/bin/sed -i \\\n    -e '/^PATH=/s#$#:/opt/ooce/bin:/opt/ooce/sbin#' \\\n    /etc/default/login\n/bin/ntpdig -S 0.pool.ntp.org || true\necho 'ok go' >/dev/msglog\n",
    );
    s
}

/// Gather public keys into an authorized_keys text: each key file's
/// contents, with a newline added where one is missing.
pub open spec fn spec_collect_keys(files: Seq<Seq<char>>) -> Seq<char>
    decreases files.len(),
{
    if files.len() == 0 {
        seq![]
    } else {
        let f = files.last();
        spec_collect_keys(files.drop_last()) + f + (if f.len() > 0 && f.last() == '\n' {
            seq![]
        } else {
            seq!['\n']
        })
    }
}

/// Join the contents of the public key files; `None` when that gives no
/// key at all.
pub fn collect_keys(files: &Vec<String>) -> (r: Option<String>)
    ensures
        match r {
            Some(k) => k@ == spec_collect_keys(strings_view(files@)) && k@.len() > 0,
            None => spec_collect_keys(strings_view(files@)).len() == 0,
        },
{
    let ghost fv = strings_view(files@);
    let mut keys = String::new();
    let mut i: usize = 0;
    while i < files.len()
        invariant
            i <= files@.len(),
            fv == strings_view(files@),
            keys@ == spec_collect_keys(fv.take(i as int)),
        decreases files@.len() - i,
    {
        assert(fv.take(i + 1).drop_last() =~= fv.take(i as int));
        assert(fv.take(i + 1).last() == files@[i as int]@);
        let v = to_chars(files[i].as_str());
        push_str(&mut keys, files[i].as_str());
        if !(v.len() > 0 && v[v.len() - 1] == '\n') {
            push_char(&mut keys, '\n');
        }
        i = i + 1;
    }
    assert(fv.take(i as int) =~= fv);
    if keys.as_str().is_empty() {
        None
    } else {
        Some(keys)
    }
}

} // verus!
