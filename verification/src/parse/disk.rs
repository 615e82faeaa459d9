//! `ls -s /var/tmp/*.vdev`: the virtual disk files and their sizes.
use vstd::prelude::*;
use crate::text::{
    contains, contains_str, lines, lines_exec, parse_u64, parse_unsigned, split2_ws,
    split2_ws_exec, string_of, trim, trim_chars, to_chars, views,
};

verus! {

broadcast use vstd::slice::group_slice_axioms;

/// A vdev file and its allocated size.
pub struct VdevFileInfo {
    pub path: String,
    pub size_blocks: u64,
    pub size_bytes: u64,
}

/// A line of `ls -s` read as (path, blocks): lines that are empty, that
/// report a missing file, or that name no path are skipped; a block count
/// that is not a number counts as 0.
pub open spec fn vdev_entry(l: Seq<char>) -> Option<(Seq<char>, nat)> {
    let t = trim(l);
    if t.len() == 0 || contains(t, "No such file"@) || contains(t, "not found"@) {
        None
    } else {
        let (blocks, rest) = split2_ws(t);
        let path = match rest {
            Some(r) => trim(r),
            None => seq![],
        };
        if path.len() == 0 {
            None
        } else {
            Some(
                (
                    path,
                    match parse_unsigned(blocks, u64::MAX as nat) {
                        Some(v) => v,
                        None => 0,
                    },
                ),
            )
        }
    }
}

/// The entries of the lines, in order.
pub open spec fn vdev_entries(ls: Seq<Seq<char>>) -> Seq<(Seq<char>, nat)>
    decreases ls.len(),
{
    if ls.len() == 0 {
        seq![]
    } else {
        let rest = vdev_entries(ls.drop_last());
        match vdev_entry(ls.last()) {
            Some(e) => rest.push(e),
            None => rest,
        }
    }
}

/// Every block count, in bytes, fits in a `u64`.
pub open spec fn vdev_sizes_fit(output: Seq<char>) -> bool {
    forall|i: int|
        0 <= i < vdev_entries(lines(output)).len() ==> (#[trigger] vdev_entries(lines(output))[i]).1
            * 512 <= u64::MAX
}

/// The view of a list of vdev files: (path, blocks, bytes).
pub open spec fn vdevs_view(v: Seq<VdevFileInfo>) -> Seq<(Seq<char>, nat, nat)> {
    v.map_values(|f: VdevFileInfo| (f.path@, f.size_blocks as nat, f.size_bytes as nat))
}

/// The entries with their size in bytes (512-byte blocks).
pub open spec fn with_bytes(e: Seq<(Seq<char>, nat)>) -> Seq<(Seq<char>, nat, nat)> {
    e.map_values(|p: (Seq<char>, nat)| (p.0, p.1, p.1 * 512))
}

fn vdev_entry_exec(l: &[char]) -> (r: Option<(&[char], u64)>)
    ensures
        match r {
            Some((p, b)) => vdev_entry(l@) == Some((p@, b as nat)),
            None => vdev_entry(l@) is None,
        },
{
    let t = trim_chars(l);
    if t.len() == 0 || contains_str(t, "No such file") || contains_str(t, "not found") {
        return None;
    }
    let (blocks, rest) = split2_ws_exec(t);
    let path: &[char] = match rest {
        Some(r) => trim_chars(r),
        None => vstd::slice::slice_subrange(t, 0, 0),
    };
    assert(rest is None ==> path@ =~= Seq::<char>::empty());
    if path.len() == 0 {
        return None;
    }
    let n = match parse_u64(blocks) {
        Some(v) => v,
        None => 0,
    };
    Some((path, n))
}

/// Whether every block count of the output, in bytes, fits in a `u64`.
pub fn vdev_sizes_fit_exec(output: &str) -> (r: bool)
    ensures
        r == vdev_sizes_fit(output@),
{
    let all = to_chars(output);
    let ls = lines_exec(all.as_slice());
    let ghost lv = views(ls@);
    let ghost e = vdev_entries(lv);
    let mut i: usize = 0;
    while i < ls.len()
        invariant
            i <= ls@.len(),
            lv == views(ls@),
            lv == lines(output@),
            forall|j: int|
                0 <= j < vdev_entries(lv.take(i as int)).len() ==> (#[trigger] vdev_entries(
                    lv.take(i as int),
                )[j]).1 * 512 <= u64::MAX,
        decreases ls@.len() - i,
    {
        assert(lv.take(i + 1).drop_last() =~= lv.take(i as int));
        assert(lv.take(i + 1).last() == ls@[i as int]@);
        let en = vdev_entry_exec(ls[i]);
        if let Some((p, b)) = en {
            assert(vdev_entries(lv.take(i + 1)) =~= vdev_entries(lv.take(i as int)).push((p@, b as nat)));
            if b > u64::MAX / 512 {
                proof {
                    lemma_vdev_entries_prefix(lv, i as int + 1);
                    let k = vdev_entries(lv.take(i + 1)).len() - 1;
                    assert(vdev_entries(lv.take(i + 1))[k] == vdev_entries(lv)[k]);
                }
                return false;
            }
        } else {
            assert(vdev_entries(lv.take(i + 1)) =~= vdev_entries(lv.take(i as int)));
        }
        i = i + 1;
    }
    assert(lv.take(i as int) =~= lv);
    true
}

/// The entries of a prefix of the lines are a prefix of the entries.
pub proof fn lemma_vdev_entries_prefix(ls: Seq<Seq<char>>, k: int)
    requires
        0 <= k <= ls.len(),
    ensures
        vdev_entries(ls.take(k)).len() <= vdev_entries(ls).len(),
        forall|j: int|
            0 <= j < vdev_entries(ls.take(k)).len() ==> #[trigger] vdev_entries(ls.take(k))[j]
                == vdev_entries(ls)[j],
    decreases ls.len() - k,
{
    if k < ls.len() {
        lemma_vdev_entries_prefix(ls, k + 1);
        assert(ls.take(k + 1).drop_last() =~= ls.take(k));
        let a = vdev_entries(ls.take(k));
        let b = vdev_entries(ls.take(k + 1));
        assert forall|j: int| 0 <= j < a.len() implies #[trigger] a[j] == vdev_entries(ls)[j] by {
            assert(a[j] == b[j]);
        }
    } else {
        assert(ls.take(k) =~= ls);
    }
}

/// Parse output of `ls -s /var/tmp/*.vdev`.
/// Each line: BLOCKS FILENAME (blocks are 512 bytes on illumos). Never fails.
pub fn parse_vdev_files(output: &str) -> (r: Result<Vec<VdevFileInfo>, super::ParseError>)
    requires
        vdev_sizes_fit(output@),
    ensures
        match r {
            Ok(v) => vdevs_view(v@) == with_bytes(vdev_entries(lines(output@))),
            Err(_) => false,
        },
{
    let all = to_chars(output);
    let ls = lines_exec(all.as_slice());
    let ghost lv = views(ls@);
    let mut out: Vec<VdevFileInfo> = Vec::new();
    let mut i: usize = 0;
    while i < ls.len()
        invariant
            i <= ls@.len(),
            lv == views(ls@),
            lv == lines(output@),
            vdev_sizes_fit(output@),
            vdevs_view(out@) == with_bytes(vdev_entries(lv.take(i as int))),
        decreases ls@.len() - i,
    {
        assert(lv.take(i + 1).drop_last() =~= lv.take(i as int));
        assert(lv.take(i + 1).last() == ls@[i as int]@);
        if let Some((path, b)) = vdev_entry_exec(ls[i]) {
            proof {
                lemma_vdev_entries_prefix(lv, i as int + 1);
                let k = vdev_entries(lv.take(i + 1)).len() - 1;
                assert(vdev_entries(lv.take(i + 1))[k] == vdev_entries(lv)[k]);
                assert(vdev_entries(lv)[k].1 * 512 <= u64::MAX);
            }
            let ghost before = out@;
            out.push(VdevFileInfo { path: string_of(path), size_blocks: b, size_bytes: b * 512 });
            assert(vdevs_view(out@) =~= vdevs_view(before).push((path@, b as nat, b as nat * 512)));
            assert(with_bytes(vdev_entries(lv.take(i + 1))) =~= with_bytes(
                vdev_entries(lv.take(i as int)),
            ).push((path@, b as nat, b as nat * 512)));
        }
        i = i + 1;
    }
    assert(lv.take(i as int) =~= lv);
    Ok(out)
}

} // verus!
