//! `dladm show-ether -p -o LINK`: the name of the host's NIC.
use vstd::prelude::*;
use crate::text::{
    contains, contains_str, has_char, has_char_exec, lines, lines_exec, string_of, trim,
    trim_chars, to_chars, views,
};

verus! {

/// A line that names a link: not empty, no prompt (`#`), no space, not the
/// echoed command.
pub open spec fn is_link_line(l: Seq<char>) -> bool {
    l.len() > 0 && !has_char(l, '#') && !has_char(l, ' ') && !contains(l, "dladm"@)
}

/// The first link line at or after index `i`, trimmed.
pub open spec fn first_link_from(ls: Seq<Seq<char>>, i: int) -> Option<Seq<char>>
    decreases ls.len() - i,
{
    if i < 0 || i >= ls.len() {
        None
    } else if is_link_line(trim(ls[i])) {
        Some(trim(ls[i]))
    } else {
        first_link_from(ls, i + 1)
    }
}

/// The NIC named in the output: its first trimmed line that names a link.
pub open spec fn spec_parse_ether_link(output: Seq<char>) -> Option<Seq<char>> {
    first_link_from(lines(output), 0)
}

/// Parse `dladm show-ether -p -o LINK` output to extract the NIC device name.
/// Output captured from a serial console may hold the command echo and the
/// prompt, which are skipped.
pub fn parse_ether_link(output: &str) -> (r: Option<String>)
    ensures
        match r {
            Some(s) => spec_parse_ether_link(output@) == Some(s@),
            None => spec_parse_ether_link(output@) is None,
        },
{
    let all = to_chars(output);
    let ls = lines_exec(all.as_slice());
    let ghost lv = views(ls@);
    let mut i: usize = 0;
    while i < ls.len()
        invariant
            i <= ls@.len(),
            lv == views(ls@),
            lv == lines(all@),
            all@ == output@,
            first_link_from(lv, 0) == first_link_from(lv, i as int),
        decreases ls@.len() - i,
    {
        let l = trim_chars(ls[i]);
        assert(ls@[i as int]@ == lv[i as int]);
        if l.len() > 0 && !has_char_exec(l, '#') && !has_char_exec(l, ' ') && !contains_str(l, "dladm") {
            return Some(string_of(l));
        }
        i = i + 1;
    }
    None
}

} // verus!
