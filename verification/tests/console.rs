use whoah::console::{check_failure, log_text, proxy_env, shown_detail, streaming_failure, with_proxy, LogEntry};
use whoah::console::{console_input, socat_command, visible, LineSplitter};
use whoah::console::{is_noise_line, strip_ansi_and_cr};

#[test]
fn test_strip_ansi_simple() {
    assert_eq!(strip_ansi_and_cr("\x1b[?2004l# "), "# ");
}

#[test]
fn test_strip_ansi_with_cr() {
    assert_eq!(strip_ansi_and_cr("\x1b[?2004l\rSunOS unknown 5.11\r"), "SunOS unknown 5.11");
}

#[test]
fn test_strip_plain_text() {
    assert_eq!(strip_ansi_and_cr("hello world"), "hello world");
}

#[test]
fn test_strip_color_codes() {
    assert_eq!(strip_ansi_and_cr("\x1b[32mgreen\x1b[0m text"), "green text");
}

#[test]
fn strip_lone_escape_and_unterminated_sequence() {
    assert_eq!(strip_ansi_and_cr("a\x1bb"), "ab");
    assert_eq!(strip_ansi_and_cr("ok\x1b[12;3"), "ok");
    assert_eq!(strip_ansi_and_cr(""), "");
}

#[test]
fn strip_twice_is_strip_once() {
    let once = strip_ansi_and_cr("\x1b[1m\rbold\x1b[0m\r\n");
    assert_eq!(strip_ansi_and_cr(&once), once);
    assert!(!once.contains('\r') && !once.contains('\x1b'));
}

#[test]
fn noise_lines_are_recognised() {
    assert!(is_noise_line("Warning: Permanently added 'h' (ED25519) to the list of known hosts."));
    assert!(is_noise_line("++ export PATH=/usr/bin"));
    assert!(is_noise_line("++ OMICRON_WS=/ws"));
    assert!(is_noise_line("+++ readlink -f env.sh"));
    assert!(!is_noise_line("Compiling serde v1.0.0"));
    assert!(!is_noise_line(" ++ PATH=x"));
    assert!(!is_noise_line(""));
}

#[test]
fn logged_session_text() {
    assert_eq!(shown_detail("  building  ").as_deref(), Some("building"));
    assert_eq!(shown_detail("   "), None);
    assert_eq!(shown_detail("++ PATH=/usr/bin"), None);
    let env = proxy_env("http://p:3128", "/ca.pem");
    assert_eq!(env, "https_proxy=http://p:3128 HTTPS_PROXY=http://p:3128 SSL_CERT_FILE=/ca.pem REQUESTS_CA_BUNDLE=/ca.pem no_proxy=localhost,127.0.0.1 NO_PROXY=localhost,127.0.0.1");
    assert_eq!(with_proxy(&Some("A=1".to_string()), "curl x"), "A=1 curl x");
    assert_eq!(with_proxy(&None, "curl x"), "curl x");
    assert_eq!(check_failure(1, " no \n"), "Command failed (exit 1): no");
    assert_eq!(streaming_failure(-1), "Command failed with exit code -1");
    assert_eq!(log_text(&LogEntry::Command("ls".to_string())), ">>> ls");
    assert_eq!(log_text(&LogEntry::StreamingCommand("make".to_string())), ">>> make (streaming)");
    assert_eq!(log_text(&LogEntry::ExitCode(4)), "--- exit_code=4");
    assert_eq!(log_text(&LogEntry::Failed("x".to_string())), "!!! FAILED: x");
}

#[test]
fn serial_lines_split() {
    let mut s = LineSplitter::new();
    assert!(s.feed("hel").is_empty());
    assert_eq!(s.feed("lo\r\n\x1b[1mworld\x1b[0m\n\nlogin: "), vec!["hello", "world"]);
    assert_eq!(s.partial, "login: ");
    assert_eq!(s.flush().as_deref(), Some("login: "));
    assert_eq!(s.flush(), None);
    assert_eq!(socat_command(302), "socat - UNIX-CONNECT:/var/run/qemu-server/302.serial0");
    assert_eq!(console_input("ls"), "ls\r\n");
    assert_eq!(visible("a\r\nb"), "a\\r\\nb");
}
