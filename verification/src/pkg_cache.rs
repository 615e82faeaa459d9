//! The local caching proxies that builds go through: an nginx reverse proxy
//! for the package repository (port 8888) and a squid HTTPS proxy (port
//! 3128). This module holds their addresses, the commands that point a
//! host at them, and how the workstation's LAN address is chosen.
//!
//! Starting the containers and running the commands is the caller's.
use vstd::prelude::*;
use crate::proxmox::{lowercase, to_lowercase};
use crate::parse::network::strings_view;
use crate::text::{contains, contains_str, decimal, lines, lines_exec, opt_view, push_char, push_str, push_u64, split_whitespace, split_whitespace_exec, starts_with, starts_with_str, str_eq, string_from, string_of, to_chars, trim, trim_chars, views};

verus! {

/// The nginx container's name.
pub fn nginx_container() -> (r: &'static str)
    ensures
        r@ == "whoah-pkg-cache"@,
{
    "whoah-pkg-cache"
}

/// The port nginx listens on.
pub const NGINX_PORT: u16 = 8888;

/// The squid container's name.
pub fn squid_container() -> (r: &'static str)
    ensures
        r@ == "whoah-https-cache"@,
{
    "whoah-https-cache"
}

/// The port squid listens on.
pub const SQUID_PORT: u16 = 3128;

/// Where the caches are.
pub struct CacheInfo {
    /// The package publisher origin for hosts.
    pub publisher_url: String,
    /// The HTTPS proxy for other downloads.
    pub https_proxy_url: String,
    /// The LAN address the caches are reached on.
    pub lan_ip: String,
    pub nginx_was_running: bool,
    pub squid_was_running: bool,
}

/// The publisher URL on a LAN address.
pub open spec fn spec_publisher_url(ip: Seq<char>) -> Seq<char> {
    "http://"@ + ip + ":"@ + decimal(8888) + "/helios/2/dev/"@
}

/// The HTTPS proxy URL on a LAN address.
pub open spec fn spec_proxy_url(ip: Seq<char>) -> Seq<char> {
    "http://"@ + ip + ":"@ + decimal(3128)
}

/// The caches on a LAN address, with what was running before.
pub fn cache_info(lan_ip: String, nginx_was_running: bool, squid_was_running: bool) -> (r: CacheInfo)
    ensures
        r.publisher_url@ == spec_publisher_url(lan_ip@),
        r.https_proxy_url@ == spec_proxy_url(lan_ip@),
        r.lan_ip@ == lan_ip@,
        r.nginx_was_running == nginx_was_running,
        r.squid_was_running == squid_was_running,
{
    let mut publisher_url = string_from("http://");
    push_str(&mut publisher_url, lan_ip.as_str());
    push_str(&mut publisher_url, ":");
    push_u64(&mut publisher_url, NGINX_PORT as u64);
    push_str(&mut publisher_url, "/helios/2/dev/");
    let mut https_proxy_url = string_from("http://");
    push_str(&mut https_proxy_url, lan_ip.as_str());
    push_str(&mut https_proxy_url, ":");
    push_u64(&mut https_proxy_url, SQUID_PORT as u64);
    CacheInfo { publisher_url, https_proxy_url, lan_ip, nginx_was_running, squid_was_running }
}

/// The package cache alone.
pub struct PkgCacheInfo {
    pub publisher_url: String,
    pub lan_ip: String,
    pub was_running: bool,
}

/// The package cache part of the cache information.
pub fn pkg_cache_info(info: CacheInfo) -> (r: PkgCacheInfo)
    ensures
        r.publisher_url@ == info.publisher_url@,
        r.lan_ip@ == info.lan_ip@,
        r.was_running == info.nginx_was_running,
{
    PkgCacheInfo {
        publisher_url: info.publisher_url,
        lan_ip: info.lan_ip,
        was_running: info.nginx_was_running,
    }
}

/// A container runs: `docker inspect -f {{.State.Running}}` printed `true`.
pub fn container_running(inspect_stdout: &str) -> (r: bool)
    ensures
        r == (trim(inspect_stdout@) == "true"@),
{
    let v = to_chars(inspect_stdout);
    let t = trim_chars(v.as_slice());
    let s = string_of(t);
    str_eq(s.as_str(), "true")
}

/// Fetch the catalog through the cache; exit 0 when it answers.
pub fn verify_pkg_cache_command(publisher_url: &str) -> (r: String)
    ensures
        r@ == "curl -sf --connect-timeout 5 --max-time 10 "@ + publisher_url@
            + "catalog/1/catalog.attrs >/dev/null 2>&1"@,
{
    let mut s = string_from("curl -sf --connect-timeout 5 --max-time 10 ");
    push_str(&mut s, publisher_url);
    push_str(&mut s, "catalog/1/catalog.attrs >/dev/null 2>&1");
    s
}

/// Fetch through the HTTPS proxy; exit 0 when it answers.
pub fn verify_https_proxy_command(proxy_url: &str) -> (r: String)
    ensures
        r@ == "curl -sf --connect-timeout 5 --max-time 10 --proxy "@ + proxy_url@
            + " -k https://pkg.oxide.computer/helios/2/dev/versions/0/ >/dev/null 2>&1"@,
{
    let mut s = string_from("curl -sf --connect-timeout 5 --max-time 10 --proxy ");
    push_str(&mut s, proxy_url);
    push_str(&mut s, " -k https://pkg.oxide.computer/helios/2/dev/versions/0/ >/dev/null 2>&1");
    s
}

/// Point the `helios-dev` publisher at the cache.
pub fn set_publisher_command(publisher_url: &str) -> (r: String)
    ensures
        r@ == "pfexec pkg set-publisher -O "@ + publisher_url@ + " helios-dev"@,
{
    let mut s = string_from("pfexec pkg set-publisher -O ");
    push_str(&mut s, publisher_url);
    push_str(&mut s, " helios-dev");
    s
}

/// Where the proxy's CA certificate is installed on a host.
pub fn ca_cert_path() -> (r: &'static str)
    ensures
        r@ == "/etc/certs/CA/whoah-cache-ca.pem"@,
{
    "/etc/certs/CA/whoah-cache-ca.pem"
}

/// Write the certificate (trimmed) to its path through a quoted heredoc.
pub fn write_ca_cert_command(cert: &str) -> (r: String)
    ensures
        r@ == "pfexec bash -c 'cat > /etc/certs/CA/whoah-cache-ca.pem << \"EOF\"\n"@ + trim(cert@)
            + "\nEOF'"@,
{
    let mut s = string_from("pfexec bash -c 'cat > /etc/certs/CA/whoah-cache-ca.pem << \"EOF\"\n");
    let v = to_chars(cert);
    let t = trim_chars(v.as_slice());
    let ts = string_of(t);
    push_str(&mut s, ts.as_str());
    push_str(&mut s, "\nEOF'");
    s
}

/// Check the installed certificate.
pub fn verify_ca_cert_command() -> (r: &'static str)
    ensures
        r@ == "openssl x509 -in /etc/certs/CA/whoah-cache-ca.pem -noout -subject"@,
{
    "openssl x509 -in /etc/certs/CA/whoah-cache-ca.pem -noout -subject"
}

/// The profile script that routes HTTPS through the proxy and trusts its CA.
pub open spec fn spec_proxy_env_script(proxy: Seq<char>, ca: Seq<char>) -> Seq<char> {
    "export https_proxy=\""@ + proxy + "\"\nexport HTTPS_PROXY=\""@ + proxy
        + "\"\nexport SSL_CERT_FILE=\""@ + ca + "\"\nexport REQUESTS_CA_BUNDLE=\""@ + ca
        + "\"\n# Don't proxy local traffic\nexport no_proxy=\"localhost,127.0.0.1\"\nexport NO_PROXY=\"localhost,127.0.0.1\"\n"@
}

/// Quote a text for a single-quoted shell word: each `'` becomes `'\''`.
pub open spec fn spec_escape_quotes(s: Seq<char>) -> Seq<char>
    decreases s.len(),
{
    if s.len() == 0 {
        seq![]
    } else {
        spec_escape_quotes(s.drop_last()) + (if s.last() == '\'' {
            seq!['\'', '\\', '\'', '\'']
        } else {
            seq![s.last()]
        })
    }
}

fn escape_quotes(s: &str) -> (r: String)
    ensures
        r@ == spec_escape_quotes(s@),
{
    let v = to_chars(s);
    let mut out = String::new();
    let mut i: usize = 0;
    while i < v.len()
        invariant
            i <= v@.len(),
            v@ == s@,
            out@ == spec_escape_quotes(v@.take(i as int)),
        decreases v@.len() - i,
    {
        assert(v@.take(i + 1).drop_last() =~= v@.take(i as int));
        if v[i] == '\'' {
            push_str(&mut out, "'\\''");
            proof {
                reveal_strlit("'\\''");
            }
            assert(out@ =~= spec_escape_quotes(v@.take(i + 1)));
        } else {
            push_char(&mut out, v[i]);
            assert(out@ =~= spec_escape_quotes(v@.take(i + 1)));
        }
        i = i + 1;
    }
    assert(v@.take(i as int) =~= v@);
    out
}

/// Write the proxy settings to `/etc/profile.d/whoah-proxy.sh`.
pub fn proxy_env_command(proxy_url: &str, ca_cert_path: &str) -> (r: String)
    ensures
        r@ == "pfexec mkdir -p /etc/profile.d && printf '"@ + spec_escape_quotes(
            spec_proxy_env_script(proxy_url@, ca_cert_path@),
        ) + "' | pfexec tee /etc/profile.d/whoah-proxy.sh > /dev/null"@,
{
    let mut script = string_from("export https_proxy=\"");
    push_str(&mut script, proxy_url);
    push_str(&mut script, "\"\nexport HTTPS_PROXY=\"");
    push_str(&mut script, proxy_url);
    push_str(&mut script, "\"\nexport SSL_CERT_FILE=\"");
    push_str(&mut script, ca_cert_path);
    push_str(&mut script, "\"\nexport REQUESTS_CA_BUNDLE=\"");
    push_str(&mut script, ca_cert_path);
    push_str(
        &mut script,
        "\"\n# Don't proxy local traffic\nexport no_proxy=\"localhost,127.0.0.1\"\nexport NO_PROXY=\"localhost,127.0.0.1\"\n",
    );
    let mut s = string_from("pfexec mkdir -p /etc/profile.d && printf '");
    let e = escape_quotes(script.as_str());
    push_str(&mut s, e.as_str());
    push_str(&mut s, "' | pfexec tee /etc/profile.d/whoah-proxy.sh > /dev/null");
    s
}

/// A LAN address: in 192.168.0.0/16 or 10.0.0.0/8, by its text.
pub open spec fn is_lan_address(ip: Seq<char>) -> bool {
    starts_with(ip, "192.168."@) || starts_with(ip, "10."@)
}

/// The first LAN address among the words of `hostname -I`.
pub open spec fn spec_first_lan(words: Seq<Seq<char>>) -> Option<Seq<char>>
    decreases words.len(),
{
    if words.len() == 0 {
        None
    } else if is_lan_address(words[0]) {
        Some(words[0])
    } else {
        spec_first_lan(words.drop_first())
    }
}

/// The workstation's LAN address from `hostname -I`.
pub fn lan_ip_from_hostname(stdout: &str) -> (r: Option<String>)
    ensures
        opt_view(r) == spec_first_lan(split_whitespace(stdout@)),
{
    let v = to_chars(stdout);
    let w = split_whitespace_exec(v.as_slice());
    let ghost wv = views(w@);
    let mut i: usize = 0;
    assert(wv.skip(0) =~= wv);
    while i < w.len()
        invariant
            i <= w@.len(),
            wv == views(w@),
            wv == split_whitespace(stdout@),
            spec_first_lan(wv) == spec_first_lan(wv.skip(i as int)),
        decreases w@.len() - i,
    {
        assert(wv.skip(i as int)[0] == w@[i as int]@);
        assert(wv.skip(i as int).drop_first() =~= wv.skip(i + 1));
        if starts_with_str(w[i], "192.168.") || starts_with_str(w[i], "10.") {
            return Some(string_of(w[i]));
        }
        i = i + 1;
    }
    assert(wv.skip(i as int) =~= Seq::<Seq<char>>::empty());
    None
}

/// The trimmed non-empty lines of PowerShell's address listing.
pub open spec fn spec_listed_ips(ls: Seq<Seq<char>>) -> Seq<Seq<char>>
    decreases ls.len(),
{
    if ls.len() == 0 {
        seq![]
    } else {
        let rest = spec_listed_ips(ls.drop_last());
        if trim(ls.last()).len() == 0 {
            rest
        } else {
            rest.push(trim(ls.last()))
        }
    }
}

/// The addresses PowerShell listed, in order.
pub fn listed_ips(stdout: &str) -> (r: Vec<String>)
    ensures
        strings_view(r@) == spec_listed_ips(lines(stdout@)),
{
    let v = to_chars(stdout);
    let ls = lines_exec(v.as_slice());
    let ghost lv = views(ls@);
    let mut out: Vec<String> = Vec::new();
    let mut i: usize = 0;
    while i < ls.len()
        invariant
            i <= ls@.len(),
            lv == views(ls@),
            lv == lines(stdout@),
            strings_view(out@) == spec_listed_ips(lv.take(i as int)),
        decreases ls@.len() - i,
    {
        assert(lv.take(i + 1).drop_last() =~= lv.take(i as int));
        assert(lv.take(i + 1).last() == ls@[i as int]@);
        let t = trim_chars(ls[i]);
        if t.len() > 0 {
            out.push(string_of(t));
            assert(strings_view(out@) =~= spec_listed_ips(lv.take(i as int)).push(t@));
        }
        i = i + 1;
    }
    assert(lv.take(i as int) =~= lv);
    out
}

/// The address to fall back on when none answered: the first in
/// 192.168.0.0/16, else the first listed.
pub fn fallback_ip(ips: &Vec<String>) -> (r: Option<String>)
    ensures
        match r {
            Some(ip) => {
                ||| (exists|i: int|
                    0 <= i < ips@.len() && ip@ == ips@[i]@ && starts_with(ips@[i]@, "192.168."@)
                        && forall|j: int| 0 <= j < i ==> !starts_with(#[trigger] ips@[j]@, "192.168."@))
                ||| (forall|j: int| 0 <= j < ips@.len() ==> !starts_with(#[trigger] ips@[j]@, "192.168."@))
                    && ips@.len() > 0 && ip@ == ips@[0]@
            },
            None => ips@.len() == 0,
        },
{
    let mut i: usize = 0;
    while i < ips.len()
        invariant
            i <= ips@.len(),
            forall|j: int| 0 <= j < i ==> !starts_with(#[trigger] ips@[j]@, "192.168."@),
        decreases ips@.len() - i,
    {
        let v = to_chars(ips[i].as_str());
        if starts_with_str(v.as_slice(), "192.168.") {
            let r = ips[i].clone();
            assert(r@ == ips@[i as int]@);
            return Some(r);
        }
        i = i + 1;
    }
    if ips.len() > 0 {
        Some(ips[0].clone())
    } else {
        None
    }
}

/// The workstation runs under WSL: the kernel version names Microsoft.
pub fn is_wsl_version(proc_version: &str) -> (r: bool)
    ensures
        r == contains(lowercase(proc_version@), "microsoft"@),
{
    let l = to_lowercase(proc_version);
    let v = to_chars(l.as_str());
    contains_str(v.as_slice(), "microsoft")
}

} // verus!
