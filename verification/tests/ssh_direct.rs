use whoah::config::{HostConfig, HostRole};
use whoah::direct::{DirectSsh, SshClientHandler};
use whoah::channel::{auth_failure, download_command, download_outcome, identity_files, ChannelMessage, ChannelOutput};
use whoah::direct::{
    command_args, control_args, control_socket_name, destination, host_key_line, master_args,
    master_failure, probe_address, probe_status, session_id, short_command, SshProbeStatus,
};
use whoah::ssh::MockHost;

#[test]
fn test_mock_execute() {
    let mut mock = MockHost::new("test-host");
    mock.add_success("zpool list", "rpool\t100\t50\t50\t-\t-\t0\t50\t1.00\tONLINE\t-\n");
    let result = mock.execute("zpool list -Hp").unwrap();
    assert_eq!(result.exit_code, 0);
    assert!(result.stdout.contains("rpool"));
}

#[test]
fn test_mock_no_match() {
    let mock = MockHost::new("test-host");
    assert!(mock.execute("unknown command").is_err());
}

#[test]
fn test_mock_streaming() {
    let mut mock = MockHost::new("test-host");
    mock.add_success("build", "line1\nline2\nline3\n");
    let (lines, exit_code) = mock.execute_streaming("cargo build").unwrap();
    assert_eq!(exit_code, 0);
    assert_eq!(lines, vec!["line1", "line2", "line3"]);
}

#[test]
fn test_probe_empty_host() {
    assert_eq!(probe_status("", true, true), SshProbeStatus::Offline);
    assert_eq!(probe_status("h", false, true), SshProbeStatus::Offline);
    assert_eq!(probe_status("h", true, true), SshProbeStatus::Valid);
    assert_eq!(probe_status("h", true, false), SshProbeStatus::AuthFailed);
    assert_eq!(probe_address("h"), "h:22");
}

#[test]
fn ssh_invocations() {
    assert_eq!(destination("me", "h"), "me@h");
    assert_eq!(session_id(1000, "10.0.0.5"), "dssh-1000-10.0.0.5");
    assert_eq!(control_socket_name(7, "me", "h"), "whoah-ssh-7-me@h");
    let m = master_args("/tmp/s", "me", "h");
    assert_eq!(m.len(), 20);
    assert_eq!(m[11], "ControlPath=/tmp/s");
    assert_eq!(m[19], "me@h");
    let c = command_args("/tmp/s", "me", "h", "uname -a");
    assert_eq!(c, vec![
        "-o", "StrictHostKeyChecking=no", "-o", "UserKnownHostsFile=/dev/null", "-o",
        "ControlPath=/tmp/s", "-o", "ControlMaster=auto", "me@h", "--", "uname -a",
    ]);
    assert_eq!(control_args("/tmp/s", "me", "h", "exit"), vec!["-o", "ControlPath=/tmp/s", "-O", "exit", "me@h"]);
    let long = "x".repeat(100);
    assert_eq!(short_command(&long).len(), 80);
    assert_eq!(short_command("ls"), "ls");
    assert_eq!(master_failure(255, " refused \n"), "SSH ControlMaster failed (exit 255): refused");
    assert_eq!(
        host_key_line("# Host h found\nh ED25519 SHA256:abc \n").as_deref(),
        Some("h ED25519 SHA256:abc")
    );
    assert_eq!(host_key_line("nothing"), None);
}

#[test]
fn channel_messages_add_up() {
    let mut out = ChannelOutput::new();
    assert!(out.on_message(ChannelMessage::Data(b"hel".to_vec())));
    assert!(out.on_message(ChannelMessage::Data(b"lo".to_vec())));
    assert!(out.on_message(ChannelMessage::ExtendedData { data: b"err".to_vec(), ext: 1 }));
    assert!(out.on_message(ChannelMessage::ExtendedData { data: b"other".to_vec(), ext: 2 }));
    assert!(out.on_message(ChannelMessage::ExitStatus(3)));
    assert!(out.on_message(ChannelMessage::Eof));
    assert!(!out.on_message(ChannelMessage::Close));
    let r = out.finish();
    assert_eq!(r.stdout, "hello");
    assert_eq!(r.stderr, "err");
    assert_eq!(r.exit_code, 3);
    let none = ChannelOutput::new();
    assert_eq!(none.finish().exit_code, -1);
    let mut bad = ChannelOutput::new();
    bad.on_message(ChannelMessage::Data(vec![0x66, 0xff]));
    assert_eq!(bad.finish().stdout, "f\u{fffd}");
}

#[test]
fn downloads() {
    assert_eq!(download_command("https://x/iso", "/var/lib/vz/a.iso"), "curl --progress-bar -o '/var/lib/vz/a.iso' 'https://x/iso'");
    assert!(download_outcome(Some(0)).is_ok());
    assert_eq!(download_outcome(Some(22)).unwrap_err(), "Download failed (exit code 22)");
    assert_eq!(download_outcome(None).unwrap_err(), "Download failed (exit code 1)");
    let files = identity_files("/home/me");
    assert_eq!(files, vec!["/home/me/.ssh/id_ed25519", "/home/me/.ssh/id_rsa", "/home/me/.ssh/id_ecdsa"]);
    assert_eq!(auth_failure("me"), "SSH authentication failed for me: no agent keys or identity files accepted");
}

#[test]
fn direct_session_bookkeeping() {
    let h = HostConfig { address: "10.0.0.5".to_string(), ssh_user: "me".to_string(), role: HostRole::Combined, host_type: None, ssh_port: None };
    let mut d = DirectSsh::for_host(1000, &h, "/tmp");
    assert_eq!(d.id, "dssh-1000-10.0.0.5");
    assert_eq!(d.ctl_path, "/tmp/whoah-ssh-1000-me@10.0.0.5");
    assert_eq!(DirectSsh::for_host(1, &h, "/tmp/").ctl_path, "/tmp/whoah-ssh-1-me@10.0.0.5");
    let (n, short) = d.next_command("uptime");
    assert_eq!((n, short.as_str()), (1, "uptime"));
    assert_eq!(d.ssh_args("uptime").last().map(|s| s.as_str()), Some("uptime"));
    assert!(SshClientHandler::new().accepts_server_key());
}
