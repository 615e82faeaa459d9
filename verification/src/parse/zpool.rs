//! `zpool list -Hp`: pools, their sizes and health.
use vstd::prelude::*;
use crate::text::{
    chars_eq_str, lines, lines_exec, parse_u64, parse_u8, parse_unsigned, split_char,
    split_char_exec, starts_with, starts_with_str, string_from, string_of, to_chars, trim,
    trim_chars, views,
};

verus! {

broadcast use vstd::slice::group_slice_axioms;

/// A pool.
pub struct ZpoolInfo {
    pub name: String,
    pub size_bytes: u64,
    pub allocated_bytes: u64,
    pub free_bytes: u64,
    pub fragmentation_pct: Option<u8>,
    pub capacity_pct: u8,
    pub health: String,
}

/// The mathematical value of a [`ZpoolInfo`].
pub struct SpecZpool {
    pub name: Seq<char>,
    pub size_bytes: nat,
    pub allocated_bytes: nat,
    pub free_bytes: nat,
    pub fragmentation_pct: Option<nat>,
    pub capacity_pct: nat,
    pub health: Seq<char>,
}

/// The view of a pool.
pub open spec fn zpool_view(p: ZpoolInfo) -> SpecZpool {
    SpecZpool {
        name: p.name@,
        size_bytes: p.size_bytes as nat,
        allocated_bytes: p.allocated_bytes as nat,
        free_bytes: p.free_bytes as nat,
        fragmentation_pct: match p.fragmentation_pct {
            Some(f) => Some(f as nat),
            None => None,
        },
        capacity_pct: p.capacity_pct as nat,
        health: p.health@,
    }
}

/// The views of a list of pools.
pub open spec fn zpools_view(v: Seq<ZpoolInfo>) -> Seq<SpecZpool> {
    v.map_values(|p: ZpoolInfo| zpool_view(p))
}

/// A text without its trailing `%` signs (`trim_end_matches('%')`).
pub open spec fn strip_percent(s: Seq<char>) -> Seq<char>
    decreases s.len(),
{
    if s.len() > 0 && s.last() == '%' {
        strip_percent(s.drop_last())
    } else {
        s
    }
}

/// A field that is not a number, named as in the error message.
pub type BadField = (Seq<char>, Seq<char>);

/// A line of `zpool list -Hp` (tab-separated NAME SIZE ALLOC FREE CKPOINT
/// EXPANDSZ FRAG CAP DEDUP HEALTH ALTROOT): nothing for an empty line or
/// one of fewer than ten fields, the pool, or the first of size, alloc,
/// free and cap that is not a number.
pub open spec fn zpool_entry(l: Seq<char>) -> Option<Result<SpecZpool, BadField>> {
    let t = trim(l);
    let f = split_char(t, '\t');
    if t.len() == 0 || f.len() < 10 {
        None
    } else {
        let frag = strip_percent(f[6]);
        Some(
            match parse_unsigned(f[1], u64::MAX as nat) {
                None => Err(("size"@, f[1])),
                Some(size) => match parse_unsigned(f[2], u64::MAX as nat) {
                    None => Err(("alloc"@, f[2])),
                    Some(alloc) => match parse_unsigned(f[3], u64::MAX as nat) {
                        None => Err(("free"@, f[3])),
                        Some(free) => match parse_unsigned(f[7], u8::MAX as nat) {
                            None => Err(("cap"@, f[7])),
                            Some(cap) => Ok(
                                SpecZpool {
                                    name: f[0],
                                    size_bytes: size,
                                    allocated_bytes: alloc,
                                    free_bytes: free,
                                    fragmentation_pct: if frag == "-"@ {
                                        None
                                    } else {
                                        parse_unsigned(frag, u8::MAX as nat)
                                    },
                                    capacity_pct: cap,
                                    health: f[9],
                                },
                            ),
                        },
                    },
                },
            },
        )
    }
}

/// The pools of the lines, or the first bad field.
pub open spec fn zpool_entries(ls: Seq<Seq<char>>) -> Result<Seq<SpecZpool>, BadField>
    decreases ls.len(),
{
    if ls.len() == 0 {
        Ok(seq![])
    } else {
        match zpool_entries(ls.drop_last()) {
            Err(e) => Err(e),
            Ok(rest) => match zpool_entry(ls.last()) {
                None => Ok(rest),
                Some(Ok(p)) => Ok(rest.push(p)),
                Some(Err(e)) => Err(e),
            },
        }
    }
}

/// The pools of `zpool list -Hp` output, or the first bad field.
pub open spec fn spec_parse_zpool_list(output: Seq<char>) -> Result<Seq<SpecZpool>, BadField> {
    zpool_entries(lines(output))
}

/// The tab-separated fields of a line of `zpool list -Hp`.
pub open spec fn zpool_fields(l: Seq<char>) -> Seq<Seq<char>> {
    split_char(trim(l), '\t')
}

/// A line that describes a pool: not blank, with at least the ten columns
/// NAME SIZE ALLOC FREE CKPOINT EXPANDSZ FRAG CAP DEDUP HEALTH.
pub open spec fn pool_line(l: Seq<char>) -> bool {
    trim(l).len() > 0 && zpool_fields(l).len() >= 10
}

#[verifier::opaque]
/// A pool read off a line: the name, size, allocated and free bytes, the
/// fragmentation, capacity and health, each from its own column.
pub open spec fn pool_of_line(p: SpecZpool, l: Seq<char>) -> bool {
    let f = zpool_fields(l);
    &&& pool_line(l)
    &&& p.name == f[0]
    &&& parse_unsigned(f[1], u64::MAX as nat) == Some(p.size_bytes)
    &&& parse_unsigned(f[2], u64::MAX as nat) == Some(p.allocated_bytes)
    &&& parse_unsigned(f[3], u64::MAX as nat) == Some(p.free_bytes)
    &&& parse_unsigned(f[7], u8::MAX as nat) == Some(p.capacity_pct)
    &&& p.fragmentation_pct == (if strip_percent(f[6]) == "-"@ {
        None
    } else {
        parse_unsigned(strip_percent(f[6]), u8::MAX as nat)
    })
    &&& p.health == f[9]
}

#[verifier::opaque]
/// The numeric columns of a pool line are numbers.
pub open spec fn numeric_pool_line(l: Seq<char>) -> bool {
    let f = zpool_fields(l);
    &&& parse_unsigned(f[1], u64::MAX as nat) is Some
    &&& parse_unsigned(f[2], u64::MAX as nat) is Some
    &&& parse_unsigned(f[3], u64::MAX as nat) is Some
    &&& parse_unsigned(f[7], u8::MAX as nat) is Some
}

#[verifier::opaque]
/// The error names a column of the line that is not a number.
pub open spec fn bad_column(l: Seq<char>, e: BadField) -> bool {
    let f = zpool_fields(l);
    ||| (e.0 == "size"@ && e.1 == f[1] && parse_unsigned(f[1], u64::MAX as nat) is None)
    ||| (e.0 == "alloc"@ && e.1 == f[2] && parse_unsigned(f[2], u64::MAX as nat) is None)
    ||| (e.0 == "free"@ && e.1 == f[3] && parse_unsigned(f[3], u64::MAX as nat) is None)
    ||| (e.0 == "cap"@ && e.1 == f[7] && parse_unsigned(f[7], u8::MAX as nat) is None)
}

/// The lines that describe pools, in order.
pub open spec fn pool_lines(ls: Seq<Seq<char>>) -> Seq<Seq<char>>
    decreases ls.len(),
{
    if ls.len() == 0 {
        seq![]
    } else if pool_line(ls.last()) {
        pool_lines(ls.drop_last()).push(ls.last())
    } else {
        pool_lines(ls.drop_last())
    }
}

/// The `k`-th pool is read off the `k`-th pool line, for every `k`.
pub open spec fn pools_in_line_order(ps: Seq<SpecZpool>, ls: Seq<Seq<char>>) -> bool {
    ps.len() == pool_lines(ls).len() && forall|k: int| 0 <= k < ps.len() ==> pool_of_line(#[trigger] ps[k], pool_lines(ls)[k])
}

/// How many lines describe pools.
pub open spec fn pool_line_count(ls: Seq<Seq<char>>) -> nat
    decreases ls.len(),
{
    if ls.len() == 0 {
        0
    } else {
        pool_line_count(ls.drop_last()) + if pool_line(ls.last()) {
            1nat
        } else {
            0nat
        }
    }
}

/// The pool is read off one of the lines.
pub open spec fn from_some_line(p: SpecZpool, ls: Seq<Seq<char>>) -> bool {
    exists|j: int| 0 <= j < ls.len() && #[trigger] pool_of_line(p, ls[j])
}

/// One of the pools is read off the line.
pub open spec fn gives_some_pool(ps: Seq<SpecZpool>, l: Seq<char>) -> bool {
    exists|k: int| 0 <= k < ps.len() && #[trigger] pool_of_line(ps[k], l)
}

/// Each pool is read off one of the lines.
pub open spec fn pools_from_lines(ps: Seq<SpecZpool>, ls: Seq<Seq<char>>) -> bool {
    forall|k: int| 0 <= k < ps.len() ==> from_some_line(#[trigger] ps[k], ls)
}

/// Each pool line gives one of the pools.
pub open spec fn lines_give_pools(ps: Seq<SpecZpool>, ls: Seq<Seq<char>>) -> bool {
    forall|j: int| 0 <= j < ls.len() && pool_line(#[trigger] ls[j]) ==> gives_some_pool(ps, ls[j])
}

/// Some pool line has the column the error names, and it is not a number.
pub open spec fn error_from_lines(e: BadField, ls: Seq<Seq<char>>) -> bool {
    exists|j: int| 0 <= j < ls.len() && pool_line(ls[j]) && #[trigger] bad_column(ls[j], e)
}

/// Every pool line's numeric columns are numbers.
pub open spec fn all_pool_lines_numeric(ls: Seq<Seq<char>>) -> bool {
    forall|j: int| 0 <= j < ls.len() && pool_line(#[trigger] ls[j]) ==> numeric_pool_line(ls[j])
}

proof fn lemma_zpool_line(l: Seq<char>)
    ensures
        zpool_entry(l) is None <==> !pool_line(l),
        zpool_entry(l) matches Some(Ok(p)) ==> pool_of_line(p, l),
        zpool_entry(l) matches Some(Err(e)) ==> bad_column(l, e),
        pool_line(l) && numeric_pool_line(l) ==> zpool_entry(l) matches Some(Ok(_)),
{
    reveal(pool_of_line);
    reveal(bad_column);
    reveal(numeric_pool_line);
}

#[verifier::spinoff_prover]
#[verifier::rlimit(40)]
proof fn lemma_zpool_columns(ls: Seq<Seq<char>>)
    ensures
        all_pool_lines_numeric(ls) ==> zpool_entries(ls) is Ok,
        zpool_entries(ls) matches Ok(ps) ==> ps.len() == pool_line_count(ls),
        zpool_entries(ls) matches Ok(ps) ==> pools_from_lines(ps, ls),
        zpool_entries(ls) matches Ok(ps) ==> lines_give_pools(ps, ls),
        zpool_entries(ls) matches Ok(ps) ==> pools_in_line_order(ps, ls),
        zpool_entries(ls) matches Err(e) ==> error_from_lines(e, ls),
    decreases ls.len(),
{
    if ls.len() > 0 {
        let d = ls.drop_last();
        let l = ls.last();
        let n = ls.len() - 1;
        lemma_zpool_columns(d);
        lemma_zpool_line(l);
        assert forall|j: int| 0 <= j < d.len() implies #[trigger] d[j] == ls[j] by {}
        if forall|j: int| 0 <= j < ls.len() && pool_line(#[trigger] ls[j]) ==> numeric_pool_line(ls[j]) {
            assert forall|j: int| 0 <= j < d.len() && pool_line(#[trigger] d[j]) implies numeric_pool_line(d[j]) by {
                assert(d[j] == ls[j]);
            }
            if pool_line(l) {
                assert(ls[n] == l);
            }
        }
        assert(zpool_entries(d) is Ok ==> zpool_entries(d)->Ok_0.len() == pool_line_count(d));
        match zpool_entries(d) {
            Err(e) => {
                let j = choose|j: int| 0 <= j < d.len() && pool_line(d[j]) && #[trigger] bad_column(d[j], e);
                assert(ls[j] == d[j]);
                assert(pool_line(ls[j]) && bad_column(ls[j], e));
                assert(zpool_entries(ls) == Err::<Seq<SpecZpool>, BadField>(e));
                assert(error_from_lines(e, ls));
            },
            Ok(rest) => {
                assert(ls[n] == l);
                match zpool_entry(l) {
                    None => {
                        assert(!pool_line(l));
                        let ps = rest;
                        assert(zpool_entries(ls) == Ok::<Seq<SpecZpool>, BadField>(ps));
                        assert(pool_line_count(ls) == pool_line_count(d));
                        assert forall|k: int| 0 <= k < ps.len() implies from_some_line(#[trigger] ps[k], ls) by {
                            let j = choose|j: int| 0 <= j < d.len() && #[trigger] pool_of_line(rest[k], d[j]);
                            assert(pool_of_line(rest[k], d[j]));
                            assert(ls[j] == d[j]);
                        }
                        assert forall|j: int| 0 <= j < ls.len() && pool_line(#[trigger] ls[j]) implies gives_some_pool(ps, ls[j]) by {
                            if j < d.len() {
                                assert(ls[j] == d[j]);
                                assert(pool_line(d[j]));
                            }
                        }
                        assert(pools_from_lines(ps, ls));
                        assert(lines_give_pools(ps, ls));
                        assert(pool_lines(ls) == pool_lines(d));
                        assert(pools_in_line_order(ps, ls));
                    },
                    Some(Ok(p)) => {
                        assert(pool_line(l));
                        assert(pool_of_line(p, l));
                        let ps = rest.push(p);
                        assert(zpool_entries(ls) == Ok::<Seq<SpecZpool>, BadField>(ps));
                        assert(pool_line_count(ls) == pool_line_count(d) + 1);
                        assert forall|k: int| 0 <= k < ps.len() implies from_some_line(#[trigger] ps[k], ls) by {
                            if k < rest.len() {
                                let j = choose|j: int| 0 <= j < d.len() && #[trigger] pool_of_line(rest[k], d[j]);
                            assert(pool_of_line(rest[k], d[j]));
                                assert(ls[j] == d[j]);
                                assert(ps[k] == rest[k]);
                            } else {
                                assert(ps[k] == p);
                                assert(pool_of_line(ps[k], ls[n]));
                            }
                        }
                        assert forall|j: int| 0 <= j < ls.len() && pool_line(#[trigger] ls[j]) implies gives_some_pool(ps, ls[j]) by {
                            if j < d.len() {
                                assert(ls[j] == d[j]);
                                assert(pool_line(d[j]));
                                let k = choose|k: int| 0 <= k < rest.len() && #[trigger] pool_of_line(rest[k], d[j]);
                                assert(ps[k] == rest[k]);
                            } else {
                                assert(pool_of_line(ps[rest.len() as int], ls[j]));
                            }
                        }
                        assert(pools_from_lines(ps, ls));
                        assert(lines_give_pools(ps, ls));
                        assert(pool_lines(ls) == pool_lines(d).push(l));
                        assert forall|k: int| 0 <= k < ps.len() implies pool_of_line(#[trigger] ps[k], pool_lines(ls)[k]) by {
                            if k < rest.len() {
                                assert(ps[k] == rest[k]);
                                assert(pool_lines(ls)[k] == pool_lines(d)[k]);
                            }
                        }
                        assert(pools_in_line_order(ps, ls));
                    },
                    Some(Err(e)) => {
                        assert(pool_line(l));
                        assert(bad_column(ls[n], e));
                        assert(pool_line(ls[n]));
                        assert(zpool_entries(ls) == Err::<Seq<SpecZpool>, BadField>(e));
                        assert(error_from_lines(e, ls));
                    },
                }
            },
        }
    } else {
        assert(zpool_entries(ls) == Ok::<Seq<SpecZpool>, BadField>(Seq::empty()));
        assert(pool_line_count(ls) == 0);
        assert(pool_lines(ls) == Seq::<Seq<char>>::empty());
    }
}

/// The pools read from `zpool list -Hp` output are its pool lines, each
/// read column by column and kept in the order of the lines: one pool per
/// line of ten or more fields, whose
/// free bytes are the FREE column (the fourth), allocated bytes the ALLOC
/// column, size the SIZE column, capacity the CAP column, and so on. The
/// listing is read whenever every pool line's numeric columns are
/// numbers; otherwise the error names a column of some pool line that is
/// not a number.
pub proof fn law_zpool_columns(output: Seq<char>)
    ensures
        all_pool_lines_numeric(lines(output)) ==> spec_parse_zpool_list(output) is Ok,
        spec_parse_zpool_list(output) matches Ok(ps) ==> ps.len() == pool_line_count(lines(output)),
        spec_parse_zpool_list(output) matches Ok(ps) ==> pools_from_lines(ps, lines(output)),
        spec_parse_zpool_list(output) matches Ok(ps) ==> lines_give_pools(ps, lines(output)),
        spec_parse_zpool_list(output) matches Ok(ps) ==> pools_in_line_order(ps, lines(output)),
        spec_parse_zpool_list(output) matches Err(e) ==> error_from_lines(e, lines(output)),
{
    lemma_zpool_columns(lines(output));
}

/// The error for a field that is not a number.
pub open spec fn bad_field_view(e: super::ParseError) -> BadField {
    match e {
        super::ParseError::BadNumber { field, value } => (field@, value@),
    }
}

fn bad(field: &str, value: &[char]) -> (e: super::ParseError)
    ensures
        bad_field_view(e) == (field@, value@),
{
    super::ParseError::BadNumber { field: string_from(field), value: string_of(value) }
}

fn zpool_entry_exec(l: &[char]) -> (r: Option<Result<ZpoolInfo, super::ParseError>>)
    ensures
        match r {
            None => zpool_entry(l@) is None,
            Some(Ok(p)) => zpool_entry(l@) == Some(Ok::<SpecZpool, BadField>(zpool_view(p))),
            Some(Err(e)) => zpool_entry(l@) == Some(Err::<SpecZpool, BadField>(bad_field_view(e))),
        },
{
    let t = trim_chars(l);
    if t.len() == 0 {
        return None;
    }
    let f = split_char_exec(t, '\t');
    if f.len() < 10 {
        return None;
    }
    let ghost fv = views(f@);
    assert(forall|k: int| 0 <= k < 10 ==> f@[k]@ == #[trigger] fv[k]);
    let size = match parse_u64(f[1]) {
        Some(v) => v,
        None => {
            return Some(Err(bad("size", f[1])));
        },
    };
    let alloc = match parse_u64(f[2]) {
        Some(v) => v,
        None => {
            return Some(Err(bad("alloc", f[2])));
        },
    };
    let free = match parse_u64(f[3]) {
        Some(v) => v,
        None => {
            return Some(Err(bad("free", f[3])));
        },
    };
    let cap = match parse_u8(f[7]) {
        Some(v) => v,
        None => {
            return Some(Err(bad("cap", f[7])));
        },
    };
    let f6 = f[6];
    let mut k: usize = f6.len();
    assert(f6@.take(k as int) =~= f6@);
    while k > 0 && f6[k - 1] == '%'
        invariant
            k <= f6@.len(),
            strip_percent(f6@) == strip_percent(f6@.take(k as int)),
        decreases k,
    {
        assert(f6@.take(k as int).drop_last() =~= f6@.take(k - 1));
        k = k - 1;
    }
    let frag = vstd::slice::slice_subrange(f6, 0, k);
    assert(frag@ =~= f6@.take(k as int));
    assert(strip_percent(frag@) == frag@);
    let fragmentation_pct = if chars_eq_str(frag, "-") {
        None
    } else {
        parse_u8(frag)
    };
    let p = ZpoolInfo {
        name: string_of(f[0]),
        size_bytes: size,
        allocated_bytes: alloc,
        free_bytes: free,
        fragmentation_pct,
        capacity_pct: cap,
        health: string_of(f[9]),
    };
    assert(f6@.take(f6@.len() as int) =~= f6@);
    Some(Ok(p))
}

/// Parse output of `zpool list -Hp` (tab-delimited, no headers).
/// Fails on the first size, alloc, free or cap field that is not a number.
pub fn parse_zpool_list(output: &str) -> (r: Result<Vec<ZpoolInfo>, super::ParseError>)
    ensures
        match r {
            Ok(v) => spec_parse_zpool_list(output@) == Ok::<Seq<SpecZpool>, BadField>(zpools_view(v@)),
            Err(e) => spec_parse_zpool_list(output@) == Err::<Seq<SpecZpool>, BadField>(bad_field_view(e)),
        },
{
    let all = to_chars(output);
    let ls = lines_exec(all.as_slice());
    let ghost lv = views(ls@);
    let mut out: Vec<ZpoolInfo> = Vec::new();
    let mut i: usize = 0;
    assert(lv.take(0) =~= Seq::<Seq<char>>::empty());
    assert(zpools_view(out@) =~= Seq::<SpecZpool>::empty());
    while i < ls.len()
        invariant
            i <= ls@.len(),
            lv == views(ls@),
            lv == lines(output@),
            zpool_entries(lv.take(i as int)) == Ok::<Seq<SpecZpool>, BadField>(zpools_view(out@)),
        decreases ls@.len() - i,
    {
        assert(lv.take(i + 1).drop_last() =~= lv.take(i as int));
        assert(lv.take(i + 1).last() == ls@[i as int]@);
        match zpool_entry_exec(ls[i]) {
            None => {},
            Some(Ok(p)) => {
                let ghost before = out@;
                out.push(p);
                assert(zpools_view(out@) =~= zpools_view(before).push(zpool_view(p)));
            },
            Some(Err(e)) => {
                proof {
                    lemma_zpool_error_sticks(lv, i as int + 1);
                }
                return Err(e);
            },
        }
        i = i + 1;
    }
    assert(lv.take(i as int) =~= lv);
    Ok(out)
}

/// Once a prefix of the lines fails, the whole fails the same way.
pub proof fn lemma_zpool_error_sticks(ls: Seq<Seq<char>>, k: int)
    requires
        0 <= k <= ls.len(),
        zpool_entries(ls.take(k)) is Err,
    ensures
        zpool_entries(ls) == zpool_entries(ls.take(k)),
    decreases ls.len() - k,
{
    if k < ls.len() {
        assert(ls.take(k + 1).drop_last() =~= ls.take(k));
        lemma_zpool_error_sticks(ls, k + 1);
    } else {
        assert(ls.take(k) =~= ls);
    }
}

/// A copy of a pool.
pub fn copy_zpool(p: &ZpoolInfo) -> (r: ZpoolInfo)
    ensures
        zpool_view(r) == zpool_view(*p),
{
    ZpoolInfo {
        name: p.name.clone(),
        size_bytes: p.size_bytes,
        allocated_bytes: p.allocated_bytes,
        free_bytes: p.free_bytes,
        fragmentation_pct: p.fragmentation_pct,
        capacity_pct: p.capacity_pct,
        health: p.health.clone(),
    }
}

/// Index of the first pool named `rpool`, from `i` on.
pub open spec fn rpool_index_from(ps: Seq<SpecZpool>, i: int) -> Option<int>
    decreases ps.len() - i,
{
    if i < 0 || i >= ps.len() {
        None
    } else if ps[i].name == "rpool"@ {
        Some(i)
    } else {
        rpool_index_from(ps, i + 1)
    }
}

/// Filter to just rpool: the first pool of that name.
pub fn parse_rpool(output: &str) -> (r: Result<Option<ZpoolInfo>, super::ParseError>)
    ensures
        match r {
            Ok(o) => match spec_parse_zpool_list(output@) {
                Ok(ps) => match rpool_index_from(ps, 0) {
                    Some(k) => o is Some && zpool_view(o->0) == ps[k],
                    None => o is None,
                },
                Err(_) => false,
            },
            Err(e) => spec_parse_zpool_list(output@) == Err::<Seq<SpecZpool>, BadField>(bad_field_view(e)),
        },
{
    let pools = parse_zpool_list(output)?;
    let ghost pv = zpools_view(pools@);
    let mut i: usize = 0;
    while i < pools.len()
        invariant
            i <= pools@.len(),
            pv == zpools_view(pools@),
            spec_parse_zpool_list(output@) == Ok::<Seq<SpecZpool>, BadField>(pv),
            rpool_index_from(pv, 0) == rpool_index_from(pv, i as int),
        decreases pools@.len() - i,
    {
        assert(pv[i as int] == zpool_view(pools@[i as int]));
        if str_is(&pools[i].name, "rpool") {
            return Ok(Some(copy_zpool(&pools[i])));
        }
        i = i + 1;
    }
    Ok(None)
}

fn str_is(s: &String, lit: &str) -> (r: bool)
    ensures
        r == (s@ == lit@),
{
    crate::text::str_eq(s.as_str(), lit)
}

/// The pools whose names start with `oxp_`.
pub open spec fn oxp_only(ps: Seq<SpecZpool>) -> Seq<SpecZpool>
    decreases ps.len(),
{
    if ps.len() == 0 {
        seq![]
    } else {
        let rest = oxp_only(ps.drop_last());
        if starts_with(ps.last().name, "oxp_"@) {
            rest.push(ps.last())
        } else {
            rest
        }
    }
}

/// Filter to oxp_ pools only.
pub fn parse_oxp_pools(output: &str) -> (r: Result<Vec<ZpoolInfo>, super::ParseError>)
    ensures
        match r {
            Ok(v) => match spec_parse_zpool_list(output@) {
                Ok(ps) => zpools_view(v@) == oxp_only(ps),
                Err(_) => false,
            },
            Err(e) => spec_parse_zpool_list(output@) == Err::<Seq<SpecZpool>, BadField>(bad_field_view(e)),
        },
{
    let pools = parse_zpool_list(output)?;
    let ghost pv = zpools_view(pools@);
    let mut out: Vec<ZpoolInfo> = Vec::new();
    let mut i: usize = 0;
    while i < pools.len()
        invariant
            i <= pools@.len(),
            pv == zpools_view(pools@),
            spec_parse_zpool_list(output@) == Ok::<Seq<SpecZpool>, BadField>(pv),
            zpools_view(out@) == oxp_only(pv.take(i as int)),
        decreases pools@.len() - i,
    {
        assert(pv.take(i + 1).drop_last() =~= pv.take(i as int));
        assert(pv.take(i + 1).last() == zpool_view(pools@[i as int]));
        let name = to_chars(pools[i].name.as_str());
        if starts_with_str(name.as_slice(), "oxp_") {
            let c = copy_zpool(&pools[i]);
            let ghost before = out@;
            out.push(c);
            assert(zpools_view(out@) =~= zpools_view(before).push(zpool_view(c)));
        }
        i = i + 1;
    }
    assert(pv.take(i as int) =~= pv);
    Ok(out)
}

} // verus!
