//! The order of `String` (lexicographic by character) and lists of names
//! kept in that order without repetition.
use vstd::prelude::*;
use crate::parse::network::strings_view;
use crate::text::to_chars;

verus! {

broadcast use vstd::slice::group_slice_axioms;

/// `a < b` in the order of `str`: the first differing character decides,
/// and a proper prefix comes first.
pub open spec fn seq_lt(a: Seq<char>, b: Seq<char>) -> bool
    decreases a.len(),
{
    if b.len() == 0 {
        false
    } else if a.len() == 0 {
        true
    } else if a[0] != b[0] {
        a[0] < b[0]
    } else {
        seq_lt(a.drop_first(), b.drop_first())
    }
}

/// The order is irreflexive.
pub proof fn lemma_seq_lt_irreflexive(a: Seq<char>)
    ensures
        !seq_lt(a, a),
    decreases a.len(),
{
    if a.len() > 0 {
        lemma_seq_lt_irreflexive(a.drop_first());
    }
}

/// The order is total on distinct sequences and asymmetric.
pub proof fn lemma_seq_lt_total(a: Seq<char>, b: Seq<char>)
    ensures
        a != b ==> (seq_lt(a, b) || seq_lt(b, a)),
        !(seq_lt(a, b) && seq_lt(b, a)),
    decreases a.len(),
{
    if a.len() > 0 && b.len() > 0 {
        if a[0] == b[0] {
            lemma_seq_lt_total(a.drop_first(), b.drop_first());
            if a != b {
                assert(a =~= seq![a[0]] + a.drop_first());
                assert(b =~= seq![b[0]] + b.drop_first());
            }
        }
    } else if a.len() == 0 && b.len() == 0 {
        assert(a =~= b);
    }
}

/// The order is transitive.
pub proof fn lemma_seq_lt_transitive(a: Seq<char>, b: Seq<char>, c: Seq<char>)
    requires
        seq_lt(a, b),
        seq_lt(b, c),
    ensures
        seq_lt(a, c),
    decreases a.len(),
{
    if a.len() > 0 && b.len() > 0 && c.len() > 0 && a[0] == b[0] && b[0] == c[0] {
        lemma_seq_lt_transitive(a.drop_first(), b.drop_first(), c.drop_first());
    }
}

/// `a < b` for strings.
pub fn str_lt(a: &str, b: &str) -> (r: bool)
    ensures
        r == seq_lt(a@, b@),
{
    let av = to_chars(a);
    let bv = to_chars(b);
    let mut i: usize = 0;
    proof {
        assert(av@.skip(0) =~= av@);
        assert(bv@.skip(0) =~= bv@);
    }
    while i < av.len() && i < bv.len() && av[i] == bv[i]
        invariant
            i <= av@.len(),
            i <= bv@.len(),
            av@ == a@,
            bv@ == b@,
            seq_lt(av@.skip(i as int), bv@.skip(i as int)) == seq_lt(a@, b@),
        decreases av@.len() - i,
    {
        proof {
            assert(av@.skip(i as int).drop_first() =~= av@.skip(i + 1));
            assert(bv@.skip(i as int).drop_first() =~= bv@.skip(i + 1));
        }
        i = i + 1;
    }
    if i == bv.len() {
        false
    } else if i == av.len() {
        true
    } else {
        av[i] < bv[i]
    }
}

/// Strictly ascending: sorted and without repetition.
pub open spec fn ascending(s: Seq<Seq<char>>) -> bool {
    forall|i: int, j: int| 0 <= i < j < s.len() ==> seq_lt(#[trigger] s[i], #[trigger] s[j])
}

/// A strictly ascending list holds each element once.
pub proof fn lemma_ascending_unique(s: Seq<Seq<char>>)
    requires
        ascending(s),
    ensures
        s.no_duplicates(),
{
    assert forall|i: int, j: int| 0 <= i < s.len() && 0 <= j < s.len() && i != j implies s[i]
        != s[j] by {
        if i < j {
            lemma_seq_lt_irreflexive(s[i]);
        } else {
            lemma_seq_lt_irreflexive(s[j]);
        }
    }
}

/// Two ascending lists with the same elements are the same list.
pub proof fn lemma_ascending_unique_order(a: Seq<Seq<char>>, b: Seq<Seq<char>>)
    requires
        ascending(a),
        ascending(b),
        a.to_set() == b.to_set(),
    ensures
        a == b,
    decreases a.len(),
{
    lemma_ascending_unique(a);
    lemma_ascending_unique(b);
    a.unique_seq_to_set();
    b.unique_seq_to_set();
    if a.len() == 0 {
        assert(b.len() == 0);
        assert(a =~= b);
    } else {
        let x = a.last();
        let y = b.last();
        assert(a.to_set().contains(x));
        assert(b.to_set().contains(x));
        assert(a.to_set().contains(y));
        let ix = choose|i: int| 0 <= i < b.len() && b[i] == x;
        let iy = choose|i: int| 0 <= i < a.len() && a[i] == y;
        if x != y {
            lemma_seq_lt_total(x, y);
            if ix < b.len() - 1 {
            } else {
                assert(false);
            }
            if iy < a.len() - 1 {
                assert(seq_lt(a[iy], a[a.len() - 1]));
            }
            assert(seq_lt(x, y) || seq_lt(y, x));
            assert(seq_lt(b[ix], b[b.len() - 1]));
            assert(seq_lt(a[iy], a[a.len() - 1]));
            assert(false);
        }
        let a2 = a.drop_last();
        let b2 = b.drop_last();
        assert forall|e: Seq<char>| a2.to_set().contains(e) implies b2.to_set().contains(e) by {
            let k = choose|k: int| 0 <= k < a2.len() && a2[k] == e;
            assert(a.to_set().contains(e));
            let m = choose|m: int| 0 <= m < b.len() && b[m] == e;
            if m == b.len() - 1 {
                assert(seq_lt(a[k], a[a.len() - 1]));
                lemma_seq_lt_irreflexive(e);
            }
            assert(b2[m] == e);
        }
        assert forall|e: Seq<char>| b2.to_set().contains(e) implies a2.to_set().contains(e) by {
            let k = choose|k: int| 0 <= k < b2.len() && b2[k] == e;
            assert(b.to_set().contains(e));
            let m = choose|m: int| 0 <= m < a.len() && a[m] == e;
            if m == a.len() - 1 {
                assert(seq_lt(b[k], b[b.len() - 1]));
                lemma_seq_lt_irreflexive(e);
            }
            assert(a2[m] == e);
        }
        assert(a2.to_set() =~= b2.to_set());
        lemma_ascending_unique_order(a2, b2);
        assert(a =~= a2.push(x));
        assert(b =~= b2.push(y));
    }
}

/// Add a name to a strictly ascending list of names, keeping it so.
pub fn insert_ascending(v: &mut Vec<String>, x: &str)
    requires
        ascending(strings_view(old(v)@)),
    ensures
        ascending(strings_view(final(v)@)),
        strings_view(final(v)@).to_set() == strings_view(old(v)@).to_set().insert(x@),
{
    let ghost s0 = strings_view(v@);
    let mut i: usize = 0;
    while i < v.len() && str_lt(v[i].as_str(), x)
        invariant
            i <= v@.len(),
            s0 == strings_view(v@),
            ascending(s0),
            forall|k: int| 0 <= k < i ==> seq_lt(#[trigger] s0[k], x@),
        decreases v@.len() - i,
    {
        i = i + 1;
    }
    if i < v.len() && !str_lt(x, v[i].as_str()) {
        proof {
            lemma_seq_lt_total(s0[i as int], x@);
            assert(s0[i as int] == x@);
            assert(s0.to_set().insert(x@) =~= s0.to_set());
        }
        return;
    }
    proof {
        if i < s0.len() {
            assert(seq_lt(x@, s0[i as int]));
        }
    }
    v.insert(i, crate::text::string_from(x));
    let ghost s1 = strings_view(v@);
    assert(s1 =~= s0.insert(i as int, x@));
    assert forall|a: int, b: int| 0 <= a < b < s1.len() implies seq_lt(
        #[trigger] s1[a],
        #[trigger] s1[b],
    ) by {
        if b < i {
        } else if a < i && b == i {
        } else if a < i && b > i {
            assert(seq_lt(s0[a], x@));
            assert(seq_lt(x@, s0[i as int]));
            lemma_seq_lt_transitive(s0[a], x@, s0[i as int]);
            if b - 1 > i {
                lemma_seq_lt_transitive(s0[a], s0[i as int], s0[b - 1]);
            }
        } else if a == i {
            if b - 1 > i {
                lemma_seq_lt_transitive(x@, s0[i as int], s0[b - 1]);
            }
        } else {
        }
    }
    assert forall|e: Seq<char>| #[trigger] s1.to_set().contains(e) == s0.to_set().insert(
        x@,
    ).contains(e) by {
        if s1.to_set().contains(e) {
            let k = choose|k: int| 0 <= k < s1.len() && s1[k] == e;
            if k < i {
                assert(s0[k] == e);
            } else if k > i {
                assert(s0[k - 1] == e);
            }
        }
        if s0.to_set().contains(e) {
            let k = choose|k: int| 0 <= k < s0.len() && s0[k] == e;
            if k < i {
                assert(s1[k] == e);
            } else {
                assert(s1[k + 1] == e);
            }
        }
        if e == x@ {
            assert(s1[i as int] == x@);
        }
    }
    assert(s1.to_set() =~= s0.to_set().insert(x@));
}

} // verus!
