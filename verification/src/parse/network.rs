//! Network checks: Nexus ping, DNS resolution, simulated links.
use vstd::prelude::*;
use crate::text::{lines, lines_exec, string_of, trim, trim_chars, to_chars, views};

verus! {

/// Result of a DNS query.
pub struct DnsResult {
    pub resolved: bool,
    pub addresses: Vec<String>,
}

/// Parse exit code of `curl -sf http://<ip>/v1/ping`.
pub fn parse_nexus_ping(exit_code: i32) -> (r: bool)
    ensures
        r == (exit_code == 0),
{
    exit_code == 0
}

/// The trimmed lines that are not empty, in order.
pub open spec fn nonempty_trimmed(ls: Seq<Seq<char>>) -> Seq<Seq<char>>
    decreases ls.len(),
{
    if ls.len() == 0 {
        seq![]
    } else {
        let rest = nonempty_trimmed(ls.drop_last());
        if trim(ls.last()).len() > 0 {
            rest.push(trim(ls.last()))
        } else {
            rest
        }
    }
}

/// The views of a vector of strings.
pub open spec fn strings_view(v: Seq<String>) -> Seq<Seq<char>> {
    v.map_values(|s: String| s@)
}

/// The trimmed non-empty lines of a text.
pub fn nonempty_trimmed_lines(output: &str) -> (r: Vec<String>)
    ensures
        strings_view(r@) == nonempty_trimmed(lines(output@)),
{
    let all = to_chars(output);
    let ls = lines_exec(all.as_slice());
    let ghost lv = views(ls@);
    let mut out: Vec<String> = Vec::new();
    let mut i: usize = 0;
    while i < ls.len()
        invariant
            i <= ls@.len(),
            lv == views(ls@),
            lv == lines(output@),
            strings_view(out@) == nonempty_trimmed(lv.take(i as int)),
        decreases ls@.len() - i,
    {
        let l = trim_chars(ls[i]);
        assert(lv.take(i + 1).drop_last() =~= lv.take(i as int));
        assert(lv.take(i + 1).last() == ls@[i as int]@);
        if l.len() > 0 {
            let ghost before = out@;
            out.push(string_of(l));
            assert(strings_view(out@) =~= strings_view(before).push(l@));
        }
        i = i + 1;
    }
    assert(lv.take(i as int) =~= lv);
    out
}

/// Parse output of `dig recovery.sys.oxide.test @<ip> +short`: the
/// addresses are its trimmed non-empty lines; it resolved if there is one.
pub fn parse_dns_check(output: &str) -> (r: DnsResult)
    ensures
        strings_view(r.addresses@) == nonempty_trimmed(lines(output@)),
        r.resolved == (r.addresses@.len() > 0),
{
    let addresses = nonempty_trimmed_lines(output);
    DnsResult { resolved: addresses.len() > 0, addresses }
}

/// Parse whether simnets exist from `dladm show-simnet` output.
/// Exit code 0 with output means simnets exist.
pub fn parse_simnet_check(exit_code: i32, output: &str) -> (r: bool)
    ensures
        r == (exit_code == 0 && trim(output@).len() > 0),
{
    let all = to_chars(output);
    exit_code == 0 && trim_chars(all.as_slice()).len() > 0
}

} // verus!
