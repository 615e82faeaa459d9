use whoah::config::{ProxmoxConfig, ProxmoxVmConfig};
use whoah::deploy::{
    collect_keys, command_failure, create_command, destroy_be_command, dhcp_address, dhcp_command,
    disk_key, diskinfo_disks, eject_command, gecos_from_passwd, install_command, is_boot_done,
    is_login_reply, is_prompt, pkg_install_ok, rust_installed, rust_toolchain, rustup_command,
    stale_boot_environments, start_command, status_command, stop_command, swap_configured,
    update_needs_reboot, userdata_script, vm_exists_message, vm_state,
};

fn config() -> ProxmoxConfig {
    ProxmoxConfig {
        host: "10.0.0.2".to_string(),
        ssh_user: "root".to_string(),
        ssh_port: None,
        node: "PVE".to_string(),
        iso_storage: "local".to_string(),
        disk_storage: "local-lvm".to_string(),
        iso_file: "helios-install-vga.iso".to_string(),
        vm: ProxmoxVmConfig {
            vmid: 302,
            name: "helios".to_string(),
            cores: 8,
            sockets: 1,
            memory_mb: 49152,
            disk_gb: 256,
            disk_bus: "scsi".to_string(),
            cpu_type: "host".to_string(),
            os_type: "solaris".to_string(),
            net_model: "e1000e".to_string(),
            net_bridge: "vmbr0".to_string(),
        },
    }
}

fn strings(v: &[&str]) -> Vec<String> {
    v.iter().map(|s| s.to_string()).collect()
}

#[test]
fn qm_create_command() {
    assert_eq!(
        create_command(&config()),
        "qm create 302 --name helios --ostype solaris --memory 49152 --cores 8 --sockets 1 --cpu host --scsi0 local-lvm:256 --net0 e1000e,bridge=vmbr0,firewall=1 --serial0 socket --vga serial0 --ide2 local:iso/helios-install-vga.iso,media=cdrom --boot order=ide2"
    );
    assert_eq!(disk_key("sata"), "sata0");
    assert_eq!(disk_key("ide"), "ide0");
    assert_eq!(disk_key("virtio"), "sata0");
}

#[test]
fn qm_small_commands() {
    assert_eq!(start_command(302), "qm start 302");
    assert_eq!(status_command(302), "qm status 302");
    assert_eq!(stop_command(7), "qm stop 7");
    assert_eq!(eject_command(302), "qm set 302 --ide2 none,media=cdrom --boot order=sata0");
    assert_eq!(vm_state("status: running\n"), "running");
    assert_eq!(vm_state("  stopped "), "stopped");
    assert_eq!(command_failure("qm start", 2, " no such VM \n"), "qm start failed (exit 2): no such VM");
    assert_eq!(vm_exists_message(302), "VM 302 already exists. Delete it first or choose a different VMID.");
}

#[test]
fn serial_prompts() {
    assert!(is_prompt("root@unknown:~# "));
    assert!(!is_prompt("booting..."));
    assert!(is_boot_done("helios console login: "));
    assert!(is_login_reply("Password:"));
    assert!(!is_login_reply("Last login"));
}

#[test]
fn disks_from_diskinfo() {
    let lines = strings(&[
        "TYPE    DISK                    VID      PID              SIZE",
        "SATA    c2t0d0                  QEMU     HARDDISK          256.00 GiB",
        "NVMe    c3t0d0                  QEMU     NVMe              16.00 GiB",
        "USB",
        "root@unknown:~# ",
    ]);
    assert_eq!(diskinfo_disks(&lines), vec!["c2t0d0", "c3t0d0"]);
    assert_eq!(install_command("helios", "c2t0d0"), "install-helios helios c2t0d0");
}

#[test]
fn dhcp_address_from_show_addr() {
    let lines = strings(&["ipadm show-addr -o ADDR e1000g0/dhcp", "ADDR", "192.168.2.50/24", "root@helios:~# "]);
    assert_eq!(dhcp_address(&lines).as_deref(), Some("192.168.2.50"));
    let pending = strings(&["ADDR", "?", "root@helios:~# "]);
    assert_eq!(dhcp_address(&pending), None);
    assert_eq!(dhcp_command("helios"), "ipadm create-addr -T dhcp -h helios e1000g0/dhcp");
}

#[test]
fn boot_environments() {
    assert!(!update_needs_reboot("1\n"));
    assert!(update_needs_reboot(" 2 "));
    assert!(!update_needs_reboot("garbage"));
    let out = "helios;uuid1;NR;/;123\nold-be;uuid2;;/;456\nother;uuid3;-;/;7\n";
    assert_eq!(stale_boot_environments(out), vec!["old-be", "other"]);
    assert_eq!(destroy_be_command("old-be"), "pfexec beadm destroy -Ff old-be");
}

#[test]
fn os_setup_checks() {
    assert!(pkg_install_ok(0));
    assert!(pkg_install_ok(4));
    assert!(!pkg_install_ok(1));
    assert_eq!(rust_toolchain(), "1.91.1");
    assert!(rust_installed(0, "rustc 1.91.1 (ed61e7d7e 2025-11-07)", "1.91.1"));
    assert!(!rust_installed(1, "rustc 1.91.1", "1.91.1"));
    assert!(rustup_command("1.91.1").ends_with("--default-toolchain 1.91.1' 2>&1"));
    assert!(swap_configured("swapfile             dev    swaplo   blocks   free\n/dev/zvol/dsk/rpool/swap 85,1 8 16777208 16777208\n"));
    assert!(!swap_configured("No swap devices configured\n"));
}

#[test]
fn access_setup() {
    assert_eq!(gecos_from_passwd("me:x:1000:1000:Me Myself:/home/me:/bin/bash", "me"), "Me Myself");
    assert_eq!(gecos_from_passwd("short:x", "me"), "me");
    let script = userdata_script("me", 1000, "Me", "ssh-ed25519 AAA me\n");
    assert!(script.starts_with("#!/bin/bash\n"));
    assert!(script.contains("/usr/sbin/useradd -u '1000' -g staff -c 'Me' -d '/home/me'"));
    assert!(script.contains("<<'EOSSH'\nssh-ed25519 AAA me\nEOSSH\n"));
    assert!(script.ends_with("echo 'ok go' >/dev/msglog\n"));
    assert_eq!(collect_keys(&strings(&["a", "b\n"])).as_deref(), Some("a\nb\n"));
    assert_eq!(collect_keys(&vec![]), None);
}
