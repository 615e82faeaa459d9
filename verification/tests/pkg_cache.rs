use whoah::pkg_cache::{
    ca_cert_path, cache_info, container_running, fallback_ip, is_wsl_version, lan_ip_from_hostname,
    listed_ips, nginx_container, pkg_cache_info, proxy_env_command, set_publisher_command,
    squid_container, verify_ca_cert_command, verify_https_proxy_command, verify_pkg_cache_command,
    write_ca_cert_command,
};

#[test]
fn cache_urls() {
    let info = cache_info("192.168.2.10".to_string(), true, false);
    assert_eq!(info.publisher_url, "http://192.168.2.10:8888/helios/2/dev/");
    assert_eq!(info.https_proxy_url, "http://192.168.2.10:3128");
    let pkg = pkg_cache_info(info);
    assert!(pkg.was_running);
    assert_eq!(pkg.lan_ip, "192.168.2.10");
    assert_eq!(nginx_container(), "whoah-pkg-cache");
    assert_eq!(squid_container(), "whoah-https-cache");
}

#[test]
fn cache_commands() {
    assert!(container_running("true\n"));
    assert!(!container_running("false"));
    assert_eq!(
        verify_pkg_cache_command("http://h:8888/helios/2/dev/"),
        "curl -sf --connect-timeout 5 --max-time 10 http://h:8888/helios/2/dev/catalog/1/catalog.attrs >/dev/null 2>&1"
    );
    assert!(verify_https_proxy_command("http://h:3128").contains("--proxy http://h:3128 -k https://pkg.oxide.computer/"));
    assert_eq!(set_publisher_command("http://u/"), "pfexec pkg set-publisher -O http://u/ helios-dev");
    assert_eq!(ca_cert_path(), "/etc/certs/CA/whoah-cache-ca.pem");
    assert_eq!(
        write_ca_cert_command("\n-----BEGIN-----\n"),
        "pfexec bash -c 'cat > /etc/certs/CA/whoah-cache-ca.pem << \"EOF\"\n-----BEGIN-----\nEOF'"
    );
    assert!(verify_ca_cert_command().starts_with("openssl x509"));
}

#[test]
fn proxy_env_quotes_escaped() {
    let cmd = proxy_env_command("http://p:3128", "/ca.pem");
    assert!(cmd.starts_with("pfexec mkdir -p /etc/profile.d && printf 'export https_proxy=\"http://p:3128\"\n"));
    assert!(cmd.contains("# Don'\\''t proxy local traffic"));
    assert!(cmd.ends_with("' | pfexec tee /etc/profile.d/whoah-proxy.sh > /dev/null"));
}

#[test]
fn lan_address_choice() {
    assert_eq!(lan_ip_from_hostname("172.17.0.1 192.168.2.10 10.0.0.3\n").as_deref(), Some("192.168.2.10"));
    assert_eq!(lan_ip_from_hostname("172.17.0.1 10.0.0.3").as_deref(), Some("10.0.0.3"));
    assert_eq!(lan_ip_from_hostname("172.17.0.1"), None);
    let ips = listed_ips("10.1.1.1\r\n\r\n  192.168.5.5 \r\n");
    assert_eq!(ips, vec!["10.1.1.1", "192.168.5.5"]);
    assert_eq!(fallback_ip(&ips).as_deref(), Some("192.168.5.5"));
    assert_eq!(fallback_ip(&vec!["10.1.1.1".to_string()]).as_deref(), Some("10.1.1.1"));
    assert_eq!(fallback_ip(&vec![]), None);
}

#[test]
fn wsl_detection() {
    assert!(is_wsl_version("Linux version 5.15.90.1-Microsoft-standard-WSL2"));
    assert!(!is_wsl_version("Linux version 6.1.0-18-amd64"));
}
