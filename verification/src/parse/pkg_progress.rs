//! Progress lines of `pkg install -v` and `pkg update -v`:
//!
//! ```text
//! Download: 1031/7134 items   83.6/238.8MB  35% complete (16.8M/s)
//! Actions: 1/7672 actions (Installing new actions)
//! No updates necessary for this image.
//! ```
//!
//! Megabyte amounts are decimal fractions; a line is read only where both
//! read as `f32` numbers, and they are handed on as the text the line
//! holds, for the caller to read as numbers.
use vstd::prelude::*;
use vstd::slice::slice_subrange;
use crate::text::{contains, contains_str, ends_with, ends_with_str, find_char, find_char_exec, opt_view, parse_unsigned, parse_u32, split_char, split_char_exec, split_whitespace, split_whitespace_exec, starts_with, starts_with_str, str_eq, string_of, strip_prefix_str, strip_suffix, strip_suffix_str, to_chars, trim, trim_chars, views};

verus! {

/// A download progress line.
#[derive(Debug)]
pub struct PkgDownloadProgress {
    pub items_done: u32,
    pub items_total: u32,
    /// Megabytes downloaded, as written (`83.6`).
    pub mb_done: String,
    /// Megabytes in all, as written (`238.8`).
    pub mb_total: String,
    pub pct: u32,
    /// The rate in brackets (`16.8M/s`), when there is one.
    pub speed: Option<String>,
}

/// An action progress line.
#[derive(Debug, Clone, Copy, PartialEq, Eq, Structural)]
pub struct PkgActionProgress {
    pub done: u32,
    pub total: u32,
}

/// What a line of `pkg` output says.
#[derive(Debug)]
pub enum PkgEvent {
    Download(PkgDownloadProgress),
    Actions(PkgActionProgress),
    UpToDate,
    NoChanges,
    Planning(String),
}

/// `str::split_once` with a character: the text before and after its
/// first occurrence.
pub open spec fn split_once(s: Seq<char>, c: char) -> Option<(Seq<char>, Seq<char>)> {
    match find_char(s, c) {
        Some(k) => Some((s.take(k), s.skip(k + 1))),
        None => None,
    }
}

/// A `u32` written in decimal.
pub open spec fn spec_u32(s: Seq<char>) -> Option<u32> {
    match parse_unsigned(s, u32::MAX as nat) {
        Some(n) => Some(n as u32),
        None => None,
    }
}

/// Two `u32`s written `a/b`.
pub open spec fn spec_ratio(s: Seq<char>) -> Option<(u32, u32)> {
    match split_once(s, '/') {
        Some((a, b)) => match (spec_u32(a), spec_u32(b)) {
            (Some(x), Some(y)) => Some((x, y)),
            _ => None,
        },
        None => None,
    }
}

/// The first word with a suffix.
pub open spec fn first_ending(ws: Seq<Seq<char>>, suffix: Seq<char>) -> Option<Seq<char>>
    decreases ws.len(),
{
    if ws.len() == 0 {
        None
    } else if ends_with(ws[0], suffix) {
        Some(ws[0])
    } else {
        first_ending(ws.drop_first(), suffix)
    }
}

/// A word found by its suffix has that suffix.
pub proof fn lemma_first_ending(ws: Seq<Seq<char>>, suffix: Seq<char>)
    ensures
        first_ending(ws, suffix) matches Some(w) ==> ends_with(w, suffix),
    decreases ws.len(),
{
    if ws.len() > 0 && !ends_with(ws[0], suffix) {
        lemma_first_ending(ws.drop_first(), suffix);
    }
}

/// The rate: what follows the first `(`, up to the next `(`, when it ends
/// with `)` (which is dropped).
pub open spec fn spec_speed(s: Seq<char>) -> Option<Seq<char>> {
    if split_char(s, '(').len() >= 2 {
        strip_suffix(split_char(s, '(')[1], ")"@)
    } else {
        None
    }
}

/// The text after an optional `+` or `-`.
pub open spec fn unsigned_part(s: Seq<char>) -> Seq<char> {
    if s.len() > 0 && (s[0] == '+' || s[0] == '-') {
        s.drop_first()
    } else {
        s
    }
}

/// A character in ASCII lower case.
pub open spec fn ascii_lower(c: char) -> char {
    if 'A' <= c && c <= 'Z' {
        ((c as u32) + 32) as char
    } else {
        c
    }
}

/// The text is `word` (lower case), ignoring ASCII case.
pub open spec fn word_ignoring_case(s: Seq<char>, word: Seq<char>) -> bool {
    s.len() == word.len() && forall|i: int| 0 <= i < s.len() ==> ascii_lower(#[trigger] s[i]) == word[i]
}

/// Digits with at most one `.` among them, and at least one digit.
pub open spec fn mantissa_text(m: Seq<char>) -> bool {
    &&& forall|i: int| 0 <= i < m.len() ==> crate::text::is_digit(#[trigger] m[i]) || m[i] == '.'
    &&& forall|i: int, j: int| 0 <= i < j < m.len() ==> !(#[trigger] m[i] == '.' && #[trigger] m[j] == '.')
    &&& exists|i: int| 0 <= i < m.len() && crate::text::is_digit(#[trigger] m[i])
}

/// An exponent after `e`: an optional sign, then digits.
pub open spec fn exponent_text(x: Seq<char>) -> bool {
    unsigned_part(x).len() > 0 && crate::text::all_digits(unsigned_part(x))
}

pub open spec fn is_exp_mark(c: char) -> bool {
    c == 'e' || c == 'E'
}

/// A decimal number with an optional exponent.
pub open spec fn number_text(b: Seq<char>) -> bool {
    exists|k: int|
        0 <= k <= b.len() && mantissa_text(#[trigger] b.take(k)) && (k == b.len() || (is_exp_mark(b[k])
            && exponent_text(b.skip(k + 1))))
}

/// What `f32::from_str` accepts, by the grammar of its documentation: an
/// optional sign, then `inf`, `infinity` or `nan` in any case, or digits
/// with at most one `.` and an optional exponent.
pub open spec fn float_text(s: Seq<char>) -> bool {
    let b = unsigned_part(s);
    ||| word_ignoring_case(b, seq!['i', 'n', 'f'])
    ||| word_ignoring_case(b, seq!['i', 'n', 'f', 'i', 'n', 'i', 't', 'y'])
    ||| word_ignoring_case(b, seq!['n', 'a', 'n'])
    ||| number_text(b)
}

fn lower_char(c: char) -> (r: char)
    ensures
        r == ascii_lower(c),
{
    if 'A' <= c && c <= 'Z' {
        ((c as u8) + 32) as char
    } else {
        c
    }
}

fn word_ignoring_case_exec(s: &[char], word: &[char]) -> (r: bool)
    ensures
        r == word_ignoring_case(s@, word@),
{
    if s.len() != word.len() {
        return false;
    }
    let mut i: usize = 0;
    while i < s.len()
        invariant
            i <= s@.len(),
            s@.len() == word@.len(),
            forall|j: int| 0 <= j < i ==> ascii_lower(#[trigger] s@[j]) == word@[j],
        decreases s@.len() - i,
    {
        if lower_char(s[i]) != word[i] {
            return false;
        }
        i = i + 1;
    }
    true
}

fn mantissa_exec(m: &[char]) -> (r: bool)
    ensures
        r == mantissa_text(m@),
{
    let mut dot: Option<usize> = None;
    let mut digit = false;
    let mut i: usize = 0;
    while i < m.len()
        invariant
            i <= m@.len(),
            forall|j: int| 0 <= j < i ==> crate::text::is_digit(#[trigger] m@[j]) || m@[j] == '.',
            forall|a: int, b: int| 0 <= a < b < i ==> !(#[trigger] m@[a] == '.' && #[trigger] m@[b] == '.'),
            match dot {
                Some(d) => d < i && m@[d as int] == '.',
                None => forall|j: int| 0 <= j < i ==> m@[j] != '.',
            },
            digit == exists|j: int| 0 <= j < i && crate::text::is_digit(#[trigger] m@[j]),
        decreases m@.len() - i,
    {
        let c = m[i];
        if c == '.' {
            if dot.is_some() {
                assert(!(m@[dot->0 as int] == '.' && m@[i as int] == '.') ==> false);
                assert(!mantissa_text(m@));
                return false;
            }
            dot = Some(i);
        } else if '0' <= c && c <= '9' {
            digit = true;
        } else {
            assert(!mantissa_text(m@));
            return false;
        }
        i = i + 1;
    }
    assert(m@.take(i as int) =~= m@);
    digit
}

fn exponent_exec(x: &[char]) -> (r: bool)
    ensures
        r == exponent_text(x@),
{
    let d = if x.len() > 0 && (x[0] == '+' || x[0] == '-') {
        slice_subrange(x, 1, x.len())
    } else {
        x
    };
    assert(d@ =~= unsigned_part(x@));
    if d.len() == 0 {
        return false;
    }
    let mut i: usize = 0;
    while i < d.len()
        invariant
            i <= d@.len(),
            d@ == unsigned_part(x@),
            forall|j: int| 0 <= j < i ==> crate::text::is_digit(#[trigger] d@[j]),
        decreases d@.len() - i,
    {
        if !('0' <= d[i] && d[i] <= '9') {
            assert(!crate::text::is_digit(d@[i as int]));
            assert(!crate::text::all_digits(unsigned_part(x@)));
            return false;
        }
        i = i + 1;
    }
    true
}

fn number_exec(b: &[char]) -> (r: bool)
    ensures
        r == number_text(b@),
{
    let mut k: usize = 0;
    while k < b.len() && !(b[k] == 'e' || b[k] == 'E')
        invariant
            k <= b@.len(),
            forall|j: int| 0 <= j < k ==> !is_exp_mark(#[trigger] b@[j]),
        decreases b@.len() - k,
    {
        k = k + 1;
    }
    let m = slice_subrange(b, 0, k);
    assert(m@ =~= b@.take(k as int));
    let ok = mantissa_exec(m) && (k == b.len() || exponent_exec(slice_subrange(b, k + 1, b.len())));
    proof {
        if k < b.len() {
            assert(b@.subrange(k + 1, b@.len() as int) =~= b@.skip(k + 1));
        }
        if ok {
            assert(mantissa_text(b@.take(k as int)));
        } else {
            assert forall|k2: int|
                0 <= k2 <= b@.len() && mantissa_text(#[trigger] b@.take(k2)) implies !(k2 == b@.len() || (is_exp_mark(b@[k2])
                    && exponent_text(b@.skip(k2 + 1)))) by {
                if k2 > k {
                    assert(b@.take(k2)[k as int] == b@[k as int]);
                    assert(is_exp_mark(b@[k as int]));
                } else if k2 < k {
                    assert(!is_exp_mark(b@[k2]));
                }
            }
        }
    }
    ok
}

/// Whether a text reads as an `f32`.
pub fn is_float_text(s: &[char]) -> (r: bool)
    ensures
        r == float_text(s@),
{
    let b = if s.len() > 0 && (s[0] == '+' || s[0] == '-') {
        slice_subrange(s, 1, s.len())
    } else {
        s
    };
    assert(b@ =~= unsigned_part(s@));
    let inf = ['i', 'n', 'f'];
    let infinity = ['i', 'n', 'f', 'i', 'n', 'i', 't', 'y'];
    let nan = ['n', 'a', 'n'];
    assert(inf@ =~= seq!['i', 'n', 'f']);
    assert(infinity@ =~= seq!['i', 'n', 'f', 'i', 'n', 'i', 't', 'y']);
    assert(nan@ =~= seq!['n', 'a', 'n']);
    word_ignoring_case_exec(b, &inf) || word_ignoring_case_exec(b, &infinity) || word_ignoring_case_exec(b, &nan)
        || number_exec(b)
}

/// A download line, after `Download:`.
pub open spec fn spec_download(after: Seq<char>) -> Option<(u32, u32, Seq<char>, Seq<char>, u32, Option<Seq<char>>)> {
    let ws = split_whitespace(after);
    if ws.len() == 0 {
        None
    } else {
        match (spec_ratio(ws[0]), first_ending(ws, "MB"@), first_ending(ws, "%"@)) {
            (Some((d, t)), Some(mb), Some(pc)) => match (
                split_once(strip_suffix(mb, "MB"@)->Some_0, '/'),
                spec_u32(strip_suffix(pc, "%"@)->Some_0),
            ) {
                (Some((md, mt)), Some(p)) => if float_text(md) && float_text(mt) {
                    Some((d, t, md, mt, p, spec_speed(after)))
                } else {
                    None
                },
                _ => None,
            },
            _ => None,
        }
    }
}

/// An action line, after `Actions:`.
pub open spec fn spec_actions(after: Seq<char>) -> Option<(u32, u32)> {
    let ws = split_whitespace(after);
    if ws.len() == 0 {
        None
    } else {
        spec_ratio(ws[0])
    }
}

/// What a line says, by its trimmed text.
pub open spec fn spec_pkg_line(line: Seq<char>) -> Option<PkgKind> {
    let t = trim(line);
    if t == "No updates necessary for this image."@ {
        Some(PkgKind::UpToDate)
    } else if t == "No changes required."@ {
        Some(PkgKind::NoChanges)
    } else if starts_with(t, "Planning:"@) {
        Some(PkgKind::Planning(t))
    } else if starts_with(t, "Download:"@) && contains(t, "items"@) {
        match spec_download(trim(t.skip(9))) {
            Some((d, tt, md, mt, p, sp)) => Some(PkgKind::Download(d, tt, md, mt, p, sp)),
            None => None,
        }
    } else if starts_with(t, "Actions:"@) && contains(t, "actions"@) {
        match spec_actions(trim(t.skip(8))) {
            Some((d, tt)) => Some(PkgKind::Actions(d, tt)),
            None => None,
        }
    } else {
        None
    }
}

/// The meaning of a `pkg` line, over plain values.
pub enum PkgKind {
    Download(u32, u32, Seq<char>, Seq<char>, u32, Option<Seq<char>>),
    Actions(u32, u32),
    UpToDate,
    NoChanges,
    Planning(Seq<char>),
}

/// The meaning of an event.
pub open spec fn pkg_kind(e: PkgEvent) -> PkgKind {
    match e {
        PkgEvent::Download(p) => PkgKind::Download(
            p.items_done,
            p.items_total,
            p.mb_done@,
            p.mb_total@,
            p.pct,
            opt_view(p.speed),
        ),
        PkgEvent::Actions(a) => PkgKind::Actions(a.done, a.total),
        PkgEvent::UpToDate => PkgKind::UpToDate,
        PkgEvent::NoChanges => PkgKind::NoChanges,
        PkgEvent::Planning(s) => PkgKind::Planning(s@),
    }
}

fn split_once_exec<'a>(s: &'a [char], c: char) -> (r: Option<(&'a [char], &'a [char])>)
    ensures
        match r {
            Some((a, b)) => split_once(s@, c) == Some((a@, b@)),
            None => split_once(s@, c) is None,
        },
{
    proof {
        crate::text::lemma_find_char_from(s@, c, 0);
    }
    match find_char_exec(s, c, 0) {
        Some(k) => {
            assert(s@.len() == s.len());
            assert(k < s@.len());
            Some(
                (vstd::slice::slice_subrange(s, 0, k), vstd::slice::slice_subrange(s, k + 1, s.len())),
            )
        },
        None => None,
    }
}

fn ratio(s: &[char]) -> (r: Option<(u32, u32)>)
    ensures
        r == spec_ratio(s@),
{
    match split_once_exec(s, '/') {
        Some((a, b)) => match (parse_u32(a), parse_u32(b)) {
            (Some(x), Some(y)) => Some((x, y)),
            _ => None,
        },
        None => None,
    }
}

fn first_ending_exec<'a>(ws: &Vec<&'a [char]>, suffix: &str) -> (r: Option<&'a [char]>)
    ensures
        match r {
            Some(w) => first_ending(views(ws@), suffix@) == Some(w@),
            None => first_ending(views(ws@), suffix@) is None,
        },
{
    let ghost wv = views(ws@);
    let mut i: usize = 0;
    assert(wv.skip(0) =~= wv);
    while i < ws.len()
        invariant
            i <= ws@.len(),
            wv == views(ws@),
            first_ending(wv, suffix@) == first_ending(wv.skip(i as int), suffix@),
        decreases ws@.len() - i,
    {
        assert(wv.skip(i as int)[0] == ws@[i as int]@);
        assert(wv.skip(i as int).drop_first() =~= wv.skip(i + 1));
        if ends_with_str(ws[i], suffix) {
            return Some(ws[i]);
        }
        i = i + 1;
    }
    assert(wv.skip(i as int) =~= Seq::<Seq<char>>::empty());
    None
}

fn speed(s: &[char]) -> (r: Option<String>)
    ensures
        opt_view(r) == spec_speed(s@),
{
    let parts = split_char_exec(s, '(');
    if parts.len() >= 2 {
        assert(views(parts@)[1] == parts@[1]@);
        match strip_suffix_str(parts[1], ")") {
            Some(t) => Some(string_of(t)),
            None => None,
        }
    } else {
        None
    }
}

fn parse_download(after: &[char]) -> (r: Option<PkgDownloadProgress>)
    ensures
        match r {
            Some(p) => spec_download(after@) == Some(
                (p.items_done, p.items_total, p.mb_done@, p.mb_total@, p.pct, opt_view(p.speed)),
            ),
            None => spec_download(after@) is None,
        },
{
    let ws = split_whitespace_exec(after);
    if ws.len() == 0 {
        return None;
    }
    assert(views(ws@)[0] == ws@[0]@);
    let (items_done, items_total) = match ratio(ws[0]) {
        Some(x) => x,
        None => {
            return None;
        },
    };
    let mb = match first_ending_exec(&ws, "MB") {
        Some(m) => m,
        None => {
            return None;
        },
    };
    let pc = match first_ending_exec(&ws, "%") {
        Some(p) => p,
        None => {
            return None;
        },
    };
    proof {
        lemma_first_ending(views(ws@), "MB"@);
        lemma_first_ending(views(ws@), "%"@);
    }
    let mb_str = strip_suffix_str(mb, "MB");
    let mb_str = match mb_str {
        Some(m) => m,
        None => {
            return None;
        },
    };
    let (md, mt) = match split_once_exec(mb_str, '/') {
        Some(x) => x,
        None => {
            return None;
        },
    };
    let pct_str = match strip_suffix_str(pc, "%") {
        Some(p) => p,
        None => {
            return None;
        },
    };
    let pct = match parse_u32(pct_str) {
        Some(p) => p,
        None => {
            return None;
        },
    };
    if !is_float_text(md) || !is_float_text(mt) {
        return None;
    }
    Some(
        PkgDownloadProgress {
            items_done,
            items_total,
            mb_done: string_of(md),
            mb_total: string_of(mt),
            pct,
            speed: speed(after),
        },
    )
}

/// Read a line of `pkg install -v` / `pkg update -v` output.
pub fn parse_pkg_line(line: &str) -> (r: Option<PkgEvent>)
    ensures
        match r {
            Some(e) => spec_pkg_line(line@) == Some(pkg_kind(e)),
            None => spec_pkg_line(line@) is None,
        },
{
    let v = to_chars(line);
    let t = trim_chars(v.as_slice());
    let ts = string_of(t);
    if str_eq(ts.as_str(), "No updates necessary for this image.") {
        return Some(PkgEvent::UpToDate);
    }
    if str_eq(ts.as_str(), "No changes required.") {
        return Some(PkgEvent::NoChanges);
    }
    if starts_with_str(t, "Planning:") {
        return Some(PkgEvent::Planning(ts));
    }
    if starts_with_str(t, "Download:") && contains_str(t, "items") {
        let after = match strip_prefix_str(t, "Download:") {
            Some(a) => a,
            None => {
                return None;
            },
        };
        proof {
            reveal_strlit("Download:");
        }
        assert(after@ =~= t@.skip(9));
        return match parse_download(trim_chars(after)) {
            Some(p) => Some(PkgEvent::Download(p)),
            None => None,
        };
    }
    if starts_with_str(t, "Actions:") && contains_str(t, "actions") {
        let after = match strip_prefix_str(t, "Actions:") {
            Some(a) => a,
            None => {
                return None;
            },
        };
        proof {
            reveal_strlit("Actions:");
        }
        assert(after@ =~= t@.skip(8));
        let a = trim_chars(after);
        let ws = split_whitespace_exec(a);
        if ws.len() == 0 {
            return None;
        }
        assert(views(ws@)[0] == ws@[0]@);
        return match ratio(ws[0]) {
            Some((done, total)) => Some(PkgEvent::Actions(PkgActionProgress { done, total })),
            None => None,
        };
    }
    None
}

/// How an action or status event reads in the summary. Download lines show
/// megabytes with one decimal, which is left to the caller.
pub fn format_actions(a: &PkgActionProgress) -> (r: String)
    ensures
        r@ == "Actions: "@ + crate::text::decimal(a.done as nat) + "/"@ + crate::text::decimal(
            a.total as nat,
        ),
{
    let mut s = crate::text::string_from("Actions: ");
    crate::text::push_u64(&mut s, a.done as u64);
    crate::text::push_str(&mut s, "/");
    crate::text::push_u64(&mut s, a.total as u64);
    s
}

} // verus!
