//! Text primitives over sequences of characters, with the specifications
//! that the parsers are stated in.
//!
//! A string is modelled by its sequence of characters. Each operation of
//! `str` that the parsers rely on (trimming, splitting, searching, decimal
//! conversion) has a spec function here that says what it yields, and an
//! executable function on `&[char]` proved to compute it.
use vstd::prelude::*;
use vstd::slice::slice_subrange;

verus! {

broadcast use vstd::slice::group_slice_axioms;

// ---------------------------------------------------------------------------
// Specifications
// ---------------------------------------------------------------------------

/// Unicode `White_Space`, the property behind `char::is_whitespace`.
pub open spec fn is_ws(c: char) -> bool {
    let u = c as u32;
    (9 <= u && u <= 13) || u == 32 || u == 0x85 || u == 0xa0 || u == 0x1680
        || (0x2000 <= u && u <= 0x200a) || u == 0x2028 || u == 0x2029 || u == 0x202f
        || u == 0x205f || u == 0x3000
}

/// ASCII decimal digit.
pub open spec fn is_digit(c: char) -> bool {
    '0' <= c && c <= '9'
}

/// Value of an ASCII decimal digit.
pub open spec fn digit_value(c: char) -> nat {
    ((c as u32) - 48) as nat
}

/// The digit character for a value below ten.
pub open spec fn digit_char(d: nat) -> char {
    ((d + 48) as u32) as char
}

/// First index at or after `i` that holds no whitespace (or the length).
pub open spec fn skip_ws_from(s: Seq<char>, i: int) -> int
    decreases s.len() - i,
{
    if 0 <= i < s.len() && is_ws(s[i]) {
        skip_ws_from(s, i + 1)
    } else {
        i
    }
}

/// First index at or after `i` that holds whitespace (or the length).
pub open spec fn next_ws_from(s: Seq<char>, i: int) -> int
    decreases s.len() - i,
{
    if 0 <= i < s.len() && !is_ws(s[i]) {
        next_ws_from(s, i + 1)
    } else {
        i
    }
}

/// Last index, going back from `j`, behind which no whitespace stands.
pub open spec fn skip_ws_back(s: Seq<char>, j: int) -> int
    decreases j,
{
    if 0 < j <= s.len() && is_ws(s[j - 1]) {
        skip_ws_back(s, j - 1)
    } else {
        j
    }
}

/// `str::trim_start`.
pub open spec fn trim_start(s: Seq<char>) -> Seq<char> {
    s.subrange(skip_ws_from(s, 0), s.len() as int)
}

/// `str::trim_end`.
pub open spec fn trim_end(s: Seq<char>) -> Seq<char> {
    s.subrange(0, skip_ws_back(s, s.len() as int))
}

/// `str::trim`.
pub open spec fn trim(s: Seq<char>) -> Seq<char> {
    trim_end(trim_start(s))
}

/// First index at or after `i` holding `c`.
pub open spec fn find_char_from(s: Seq<char>, c: char, i: int) -> Option<int>
    decreases s.len() - i,
{
    if i < 0 || i >= s.len() {
        None
    } else if s[i] == c {
        Some(i)
    } else {
        find_char_from(s, c, i + 1)
    }
}

/// `str::find` with a character.
pub open spec fn find_char(s: Seq<char>, c: char) -> Option<int> {
    find_char_from(s, c, 0)
}

/// Last index below `j` holding `c`.
pub open spec fn rfind_char_to(s: Seq<char>, c: char, j: int) -> Option<int>
    decreases j,
{
    if j <= 0 || j > s.len() {
        None
    } else if s[j - 1] == c {
        Some(j - 1)
    } else {
        rfind_char_to(s, c, j - 1)
    }
}

/// `str::rfind` with a character.
pub open spec fn rfind_char(s: Seq<char>, c: char) -> Option<int> {
    rfind_char_to(s, c, s.len() as int)
}

/// `str::contains` with a character.
pub open spec fn has_char(s: Seq<char>, c: char) -> bool {
    find_char(s, c) is Some
}

/// `p` occurs in `s` at index `i`.
pub open spec fn occurs_at(s: Seq<char>, p: Seq<char>, i: int) -> bool {
    0 <= i && i + p.len() <= s.len() && s.subrange(i, i + p.len()) == p
}

/// First index at or after `i` where `p` occurs.
pub open spec fn find_str_from(s: Seq<char>, p: Seq<char>, i: int) -> Option<int>
    decreases s.len() - i,
{
    if i < 0 || i + p.len() > s.len() {
        None
    } else if s.subrange(i, i + p.len()) == p {
        Some(i)
    } else {
        proof {
            if p.len() == 0 {
                assert(s.subrange(i, i + p.len()) =~= p);
            }
        }
        find_str_from(s, p, i + 1)
    }
}

/// `str::find` with a string pattern.
pub open spec fn find_str(s: Seq<char>, p: Seq<char>) -> Option<int> {
    find_str_from(s, p, 0)
}

/// `str::contains` with a string pattern.
pub open spec fn contains(s: Seq<char>, p: Seq<char>) -> bool {
    find_str(s, p) is Some
}

/// `str::starts_with`.
pub open spec fn starts_with(s: Seq<char>, p: Seq<char>) -> bool {
    p.len() <= s.len() && s.take(p.len() as int) == p
}

/// `str::ends_with`.
pub open spec fn ends_with(s: Seq<char>, p: Seq<char>) -> bool {
    p.len() <= s.len() && s.skip(s.len() - p.len()) == p
}

/// `str::strip_prefix`.
pub open spec fn strip_prefix(s: Seq<char>, p: Seq<char>) -> Option<Seq<char>> {
    if starts_with(s, p) {
        Some(s.skip(p.len() as int))
    } else {
        None
    }
}

/// `str::strip_suffix`.
pub open spec fn strip_suffix(s: Seq<char>, p: Seq<char>) -> Option<Seq<char>> {
    if ends_with(s, p) {
        Some(s.take(s.len() - p.len()))
    } else {
        None
    }
}

/// Pieces of `s` from index `start` on, separated by `c` (`str::split`).
pub open spec fn split_from(s: Seq<char>, c: char, start: int) -> Seq<Seq<char>>
    decreases s.len() - start,
{
    if start < 0 || start > s.len() {
        seq![]
    } else {
        match find_char_from(s, c, start) {
            None => seq![s.subrange(start, s.len() as int)],
            Some(k) => {
                proof {
                    lemma_find_char_from(s, c, start);
                }
                seq![s.subrange(start, k)] + split_from(s, c, k + 1)
            },
        }
    }
}

/// `str::split` with a character separator.
pub open spec fn split_char(s: Seq<char>, c: char) -> Seq<Seq<char>> {
    split_from(s, c, 0)
}

/// `str::splitn` with a character separator: at most `n` pieces, the last
/// one holding the rest.
pub open spec fn splitn_char(s: Seq<char>, c: char, n: nat) -> Seq<Seq<char>>
    decreases n,
{
    if n == 0 {
        seq![]
    } else if n == 1 {
        seq![s]
    } else {
        match find_char(s, c) {
            None => seq![s],
            Some(k) => seq![s.take(k)] + splitn_char(s.skip(k + 1), c, (n - 1) as nat),
        }
    }
}

/// A line without the carriage return that ended it.
pub open spec fn strip_cr(l: Seq<char>) -> Seq<char> {
    if l.len() > 0 && l.last() == '\r' {
        l.drop_last()
    } else {
        l
    }
}

/// `str::lines`: pieces ended by `\n` (an `\r` before it dropped), the
/// last line ending optional.
pub open spec fn lines(s: Seq<char>) -> Seq<Seq<char>> {
    if s.len() == 0 {
        seq![]
    } else {
        let p = split_char(s, '\n');
        let ended = p.drop_last().map_values(|l: Seq<char>| strip_cr(l));
        if s.last() == '\n' {
            ended
        } else {
            ended.push(p.last())
        }
    }
}

/// `str::splitn(2, char::is_whitespace)`: the text before the first
/// whitespace character, and the rest after it if there is one.
pub open spec fn split2_ws(s: Seq<char>) -> (Seq<char>, Option<Seq<char>>) {
    let k = next_ws_from(s, 0);
    if k >= s.len() {
        (s, None)
    } else {
        (s.take(k), Some(s.skip(k + 1)))
    }
}

/// Whitespace-separated tokens from index `i` on (`str::split_whitespace`).
pub open spec fn ws_tokens_from(s: Seq<char>, i: int) -> Seq<Seq<char>>
    decreases s.len() - i,
{
    let a = skip_ws_from(s, i);
    if i < 0 || a >= s.len() {
        seq![]
    } else {
        let b = next_ws_from(s, a);
        proof {
            lemma_skip_ws_from(s, i);
            lemma_next_ws_from(s, a);
        }
        seq![s.subrange(a, b)] + ws_tokens_from(s, b)
    }
}

/// `str::split_whitespace`.
pub open spec fn split_whitespace(s: Seq<char>) -> Seq<Seq<char>> {
    ws_tokens_from(s, 0)
}

/// All characters are ASCII digits.
pub open spec fn all_digits(s: Seq<char>) -> bool {
    forall|i: int| 0 <= i < s.len() ==> is_digit(#[trigger] s[i])
}

/// Value of a sequence of decimal digits.
pub open spec fn digits_value(s: Seq<char>) -> nat
    decreases s.len(),
{
    if s.len() == 0 {
        0
    } else {
        digits_value(s.drop_last()) * 10 + digit_value(s.last())
    }
}

/// `FromStr` for an unsigned integer type whose largest value is `max`:
/// an optional `+`, then at least one digit, the value at most `max`.
pub open spec fn parse_unsigned(s: Seq<char>, max: nat) -> Option<nat> {
    let d = if s.len() > 0 && s[0] == '+' {
        s.drop_first()
    } else {
        s
    };
    if d.len() == 0 || !all_digits(d) || digits_value(d) > max {
        None
    } else {
        Some(digits_value(d))
    }
}

/// `FromStr` for `i64`: an optional sign, then at least one digit.
pub open spec fn parse_i64(s: Seq<char>) -> Option<int> {
    if s.len() > 0 && s[0] == '-' {
        let d = s.drop_first();
        if d.len() == 0 || !all_digits(d) || digits_value(d) > 0x8000_0000_0000_0000 {
            None
        } else {
            Some(-(digits_value(d) as int))
        }
    } else {
        match parse_unsigned(s, 0x7fff_ffff_ffff_ffff) {
            Some(v) => Some(v as int),
            None => None,
        }
    }
}

/// Decimal representation of a natural number, without leading zeros.
pub open spec fn decimal(n: nat) -> Seq<char>
    decreases n,
{
    if n < 10 {
        seq![digit_char(n)]
    } else {
        decimal(n / 10).push(digit_char(n % 10))
    }
}

/// Decimal representation of an integer, with a minus sign when negative.
pub open spec fn signed_decimal(n: int) -> Seq<char> {
    if n < 0 {
        seq!['-'] + decimal((-n) as nat)
    } else {
        decimal(n as nat)
    }
}

/// Number of bytes of a character in UTF-8.
pub open spec fn char_utf8_len(c: char) -> nat {
    let u = c as u32;
    if u < 0x80 {
        1
    } else if u < 0x800 {
        2
    } else if u < 0x10000 {
        3
    } else {
        4
    }
}

/// Number of bytes of a text in UTF-8 (`str::len`).
pub open spec fn utf8_len(s: Seq<char>) -> nat
    decreases s.len(),
{
    if s.len() == 0 {
        0
    } else {
        utf8_len(s.drop_last()) + char_utf8_len(s.last())
    }
}

/// The view of an optional string.
pub open spec fn opt_view(o: Option<String>) -> Option<Seq<char>> {
    match o {
        Some(s) => Some(s@),
        None => None,
    }
}

/// `s.split(p).nth(1)` for a non-empty pattern: the text between the first
/// and second occurrence of `p`, or after the first if there is no second.
pub open spec fn split_str_second(s: Seq<char>, p: Seq<char>) -> Option<Seq<char>> {
    match find_str(s, p) {
        None => None,
        Some(i) => {
            let rest = s.skip(i + p.len());
            match find_str(rest, p) {
                None => Some(rest),
                Some(j) => Some(rest.take(j)),
            }
        },
    }
}

/// The views of a sequence of character slices.
pub open spec fn views(v: Seq<&[char]>) -> Seq<Seq<char>> {
    v.map_values(|x: &[char]| x@)
}

/// Concatenation of pieces with a separator between them (`join`).
pub open spec fn join(parts: Seq<Seq<char>>, sep: Seq<char>) -> Seq<char>
    decreases parts.len(),
{
    if parts.len() == 0 {
        seq![]
    } else if parts.len() == 1 {
        parts[0]
    } else {
        join(parts.drop_last(), sep) + sep + parts.last()
    }
}

// ---------------------------------------------------------------------------
// Lemmas
// ---------------------------------------------------------------------------

/// What the forward character search returns.
pub proof fn lemma_find_char_from(s: Seq<char>, c: char, i: int)
    requires
        0 <= i,
    ensures
        match find_char_from(s, c, i) {
            Some(k) => i <= k < s.len() && s[k] == c && forall|j: int|
                i <= j < k ==> s[j] != c,
            None => forall|j: int| i <= j < s.len() ==> s[j] != c,
        },
    decreases s.len() - i,
{
    if i < s.len() && s[i] != c {
        lemma_find_char_from(s, c, i + 1);
    }
}

/// What the backward character search returns.
pub proof fn lemma_rfind_char_to(s: Seq<char>, c: char, j: int)
    requires
        j <= s.len(),
    ensures
        match rfind_char_to(s, c, j) {
            Some(k) => 0 <= k < j && s[k] == c && forall|m: int| k < m < j ==> s[m] != c,
            None => forall|m: int| 0 <= m < j ==> s[m] != c,
        },
    decreases j,
{
    if j > 0 && s[j - 1] != c {
        lemma_rfind_char_to(s, c, j - 1);
    }
}

/// Bounds of the whitespace skip.
pub proof fn lemma_skip_ws_from(s: Seq<char>, i: int)
    requires
        0 <= i,
    ensures
        i <= skip_ws_from(s, i),
        i <= s.len() ==> skip_ws_from(s, i) <= s.len(),
        forall|j: int| i <= j < skip_ws_from(s, i) ==> is_ws(#[trigger] s[j]),
        skip_ws_from(s, i) < s.len() ==> !is_ws(s[skip_ws_from(s, i)]),
    decreases s.len() - i,
{
    if i < s.len() && is_ws(s[i]) {
        lemma_skip_ws_from(s, i + 1);
    }
}

/// Bounds of the scan to the next whitespace.
pub proof fn lemma_next_ws_from(s: Seq<char>, i: int)
    requires
        0 <= i,
    ensures
        i <= next_ws_from(s, i),
        i <= s.len() ==> next_ws_from(s, i) <= s.len(),
        forall|j: int| i <= j < next_ws_from(s, i) ==> !is_ws(#[trigger] s[j]),
        next_ws_from(s, i) < s.len() ==> is_ws(s[next_ws_from(s, i)]),
    decreases s.len() - i,
{
    if i < s.len() && !is_ws(s[i]) {
        lemma_next_ws_from(s, i + 1);
    }
}

/// Bounds of the backward whitespace skip.
pub proof fn lemma_skip_ws_back(s: Seq<char>, j: int)
    requires
        0 <= j <= s.len(),
    ensures
        0 <= skip_ws_back(s, j) <= j,
        forall|m: int| skip_ws_back(s, j) <= m < j ==> is_ws(#[trigger] s[m]),
        skip_ws_back(s, j) > 0 ==> !is_ws(s[skip_ws_back(s, j) - 1]),
    decreases j,
{
    if j > 0 && is_ws(s[j - 1]) {
        lemma_skip_ws_back(s, j - 1);
    }
}

/// What the forward substring search returns.
pub proof fn lemma_find_str_from(s: Seq<char>, p: Seq<char>, i: int)
    requires
        0 <= i,
    ensures
        match find_str_from(s, p, i) {
            Some(k) => i <= k && k + p.len() <= s.len() && occurs_at(s, p, k) && forall|j: int|
                i <= j < k ==> !occurs_at(s, p, j),
            None => forall|j: int| i <= j ==> !occurs_at(s, p, j),
        },
    decreases s.len() - i,
{
    if i + p.len() <= s.len() && s.subrange(i, i + p.len()) != p {
        if p.len() == 0 {
            assert(s.subrange(i, i + p.len()) =~= p);
        }
        lemma_find_str_from(s, p, i + 1);
    }
}

/// `splitn` with a positive count yields at least one piece.
pub proof fn lemma_splitn_len(s: Seq<char>, c: char, n: nat)
    requires
        n >= 1,
    ensures
        splitn_char(s, c, n).len() >= 1,
        splitn_char(s, c, n).len() <= n,
    decreases n,
{
    if n > 1 {
        match find_char(s, c) {
            None => {},
            Some(k) => {
                lemma_splitn_len(s.skip(k + 1), c, (n - 1) as nat);
            },
        }
    }
}

/// A piece of a `split` holds no separator.
pub proof fn lemma_split_from_pieces(s: Seq<char>, c: char, start: int)
    requires
        0 <= start <= s.len(),
    ensures
        split_from(s, c, start).len() >= 1,
        forall|k: int, m: int|
            0 <= k < split_from(s, c, start).len() && 0 <= m < split_from(s, c, start)[k].len()
                ==> split_from(s, c, start)[k][m] != c,
    decreases s.len() - start,
{
    lemma_find_char_from(s, c, start);
    match find_char_from(s, c, start) {
        None => {},
        Some(k) => {
            lemma_split_from_pieces(s, c, k + 1);
            let rest = split_from(s, c, k + 1);
            assert forall|a: int, m: int|
                0 <= a < split_from(s, c, start).len() && 0 <= m < split_from(
                    s,
                    c,
                    start,
                )[a].len() implies split_from(s, c, start)[a][m] != c by {
                if a > 0 {
                    assert(split_from(s, c, start)[a] == rest[a - 1]);
                }
            }
        },
    }
}

/// Searching from a position of a suffix finds what searching the whole
/// finds, shifted by where the suffix starts.
pub proof fn lemma_find_char_skip(x: Seq<char>, c: char, i: int, j: int)
    requires
        0 <= i <= j,
        i <= x.len(),
    ensures
        find_char_from(x, c, j) == match find_char_from(x.skip(i), c, j - i) {
            Some(k) => Some(k + i),
            None => None,
        },
    decreases x.len() - j,
{
    if j < x.len() {
        assert(x.skip(i)[j - i] == x[j]);
        if x[j] != c {
            lemma_find_char_skip(x, c, i, j + 1);
        }
    }
}

/// Splitting from a position of a suffix gives what splitting the whole
/// from there gives.
pub proof fn lemma_split_skip(x: Seq<char>, c: char, i: int, j: int)
    requires
        0 <= i <= j <= x.len(),
    ensures
        split_from(x, c, j) == split_from(x.skip(i), c, j - i),
    decreases x.len() - j,
{
    lemma_find_char_skip(x, c, i, j);
    lemma_find_char_from(x, c, j);
    match find_char_from(x, c, j) {
        None => {
            assert(x.subrange(j, x.len() as int) =~= x.skip(i).subrange(j - i, x.skip(i).len() as int));
        },
        Some(k) => {
            assert(x.subrange(j, k) =~= x.skip(i).subrange(j - i, k - i));
            lemma_split_skip(x, c, i, k + 1);
        },
    }
}

/// A separator found in a text is found at the same place in any
/// longer text that starts with it.
pub proof fn lemma_find_char_prefix(s: Seq<char>, t: Seq<char>, c: char, i: int)
    requires
        0 <= i,
        find_char_from(s, c, i) is Some,
    ensures
        find_char_from(s + t, c, i) == find_char_from(s, c, i),
    decreases s.len() - i,
{
    if i < s.len() {
        assert((s + t)[i] == s[i]);
        if s[i] != c {
            lemma_find_char_prefix(s, t, c, i + 1);
        }
    }
}

/// Splitting `s + t`: the pieces of `s` but its last, then the pieces of
/// its last piece followed by `t`.
pub proof fn lemma_split_concat(s: Seq<char>, t: Seq<char>, c: char, i: int)
    requires
        0 <= i <= s.len(),
    ensures
        split_from(s + t, c, i) == split_from(s, c, i).drop_last() + split_char(
            split_from(s, c, i).last() + t,
            c,
        ),
    decreases s.len() - i,
{
    lemma_find_char_from(s, c, i);
    match find_char_from(s, c, i) {
        Some(k) => {
            lemma_find_char_prefix(s, t, c, i);
            lemma_split_concat(s, t, c, k + 1);
            lemma_split_from_pieces(s, c, k + 1);
            let head = s.subrange(i, k);
            let rest = split_from(s, c, k + 1);
            assert((s + t).subrange(i, k) =~= head);
            assert(split_from(s, c, i) == seq![head] + rest);
            assert((seq![head] + rest).drop_last() =~= seq![head] + rest.drop_last());
            assert((seq![head] + rest).last() == rest.last());
            assert(seq![head] + (rest.drop_last() + split_char(rest.last() + t, c)) =~= (seq![head]
                + rest.drop_last()) + split_char(rest.last() + t, c));
        },
        None => {
            lemma_split_skip(s + t, c, i, i);
            assert((s + t).skip(i) =~= s.subrange(i, s.len() as int) + t);
            assert(split_from(s, c, i) == seq![s.subrange(i, s.len() as int)]);
            assert(seq![s.subrange(i, s.len() as int)].drop_last() =~= Seq::<Seq<char>>::empty());
            assert(Seq::<Seq<char>>::empty() + split_char(s.subrange(i, s.len() as int) + t, c)
                =~= split_char(s.subrange(i, s.len() as int) + t, c));
        },
    }
}

/// Digits of a longer sequence are worth at least those of its prefix.
pub proof fn lemma_digits_value_prefix(s: Seq<char>, k: int)
    requires
        0 <= k <= s.len(),
    ensures
        digits_value(s.take(k)) <= digits_value(s),
    decreases s.len() - k,
{
    if k < s.len() {
        lemma_digits_value_prefix(s, k + 1);
        assert(s.take(k + 1).drop_last() =~= s.take(k));
        assert(digits_value(s.take(k + 1)) == digits_value(s.take(k)) * 10 + digit_value(
            s.take(k + 1).last(),
        ));
    } else {
        assert(s.take(k) =~= s);
    }
}

/// The digit character of a value below ten is a digit of that value.
pub proof fn lemma_digit_char(d: nat)
    requires
        d < 10,
    ensures
        is_digit(digit_char(d)),
        digit_value(digit_char(d)) == d,
        digit_char(d) == '0' <==> d == 0,
{
    assert((d + 48) as u32 as char as u32 == d + 48);
}

/// The decimal representation of a number consists of digits that spell it.
pub proof fn lemma_decimal(n: nat)
    ensures
        decimal(n).len() >= 1,
        all_digits(decimal(n)),
        digits_value(decimal(n)) == n,
        decimal(n)[0] != '0' || n == 0,
    decreases n,
{
    lemma_digit_char(n % 10);
    if n >= 10 {
        lemma_decimal(n / 10);
        let d = decimal(n);
        assert(d.drop_last() =~= decimal(n / 10));
        assert(d[0] == decimal(n / 10)[0]);
        assert(digits_value(d) == digits_value(decimal(n / 10)) * 10 + digit_value(d.last()));
        assert(d.last() == digit_char(n % 10));
        assert((n / 10) * 10 + n % 10 == n);
        assert forall|i: int| 0 <= i < d.len() implies is_digit(#[trigger] d[i]) by {
            if i < d.len() - 1 {
                assert(d[i] == decimal(n / 10)[i]);
            }
        }
    } else {
        let d = decimal(n);
        assert(d.drop_last() =~= Seq::<char>::empty());
        assert(digits_value(d.drop_last()) == 0);
        assert(d.last() == digit_char(n));
    }
}

// ---------------------------------------------------------------------------
// Conversions between `str`, `String` and `[char]`
// ---------------------------------------------------------------------------

/// Append one character to a string (`String::push`).
#[verifier::external_body]
pub(crate) fn push_char(s: &mut String, c: char)
    ensures
        final(s)@ == old(s)@.push(c),
{
    s.push(c);
}

/// The characters of a string slice, in order.
pub fn to_chars(s: &str) -> (v: Vec<char>)
    ensures
        v@ == s@,
{
    broadcast use vstd::string::group_string_axioms;

    let mut v: Vec<char> = Vec::new();
    let mut it = s.chars();
    let ghost all = s@;
    loop
        invariant
            vstd::std_specs::iter::IteratorSpec::remaining(&it) == all.skip(v@.len() as int),
            v@ == all.take(v@.len() as int),
            v@.len() <= all.len(),
            all == s@,
        ensures
            v@ == all,
        decreases all.len() - v@.len(),
    {
        match it.next() {
            Some(c) => {
                v.push(c);
            },
            None => {
                assert(v@ =~= all);
                break;
            },
        }
    }
    v
}

/// Append characters to a string.
pub fn push_chars(s: &mut String, t: &[char])
    ensures
        final(s)@ == old(s)@ + t@,
{
    let mut i: usize = 0;
    while i < t.len()
        invariant
            i <= t@.len(),
            s@ == old(s)@ + t@.take(i as int),
        decreases t@.len() - i,
    {
        push_char(s, t[i]);
        i = i + 1;
        assert(t@.take(i as int) =~= t@.take(i - 1).push(t@[i - 1]));
    }
    assert(t@.take(i as int) =~= t@);
}

/// Append a string slice to a string.
pub fn push_str(s: &mut String, t: &str)
    ensures
        final(s)@ == old(s)@ + t@,
{
    let v = to_chars(t);
    push_chars(s, v.as_slice());
}

/// A string holding the given characters.
pub fn string_of(t: &[char]) -> (r: String)
    ensures
        r@ == t@,
{
    let mut s = String::new();
    push_chars(&mut s, t);
    assert(s@ =~= t@);
    s
}

/// A string holding the characters of a string slice (`str::to_string`).
pub fn string_from(t: &str) -> (r: String)
    ensures
        r@ == t@,
{
    let mut s = String::new();
    push_str(&mut s, t);
    assert(s@ =~= t@);
    s
}

/// Append the decimal representation of a number.
pub fn push_u64(s: &mut String, n: u64)
    ensures
        final(s)@ == old(s)@ + decimal(n as nat),
    decreases n,
{
    if n >= 10 {
        push_u64(s, n / 10);
    }
    let d = (n % 10) as u32;
    let c = char_from_digit(d);
    push_char(s, c);
    assert(decimal(n as nat) =~= (if n >= 10 { decimal((n / 10) as nat) } else { seq![] }).push(
        digit_char((n % 10) as nat),
    ));
}

/// Append the decimal representation of a signed number.
pub fn push_i64(s: &mut String, n: i64)
    ensures
        final(s)@ == old(s)@ + signed_decimal(n as int),
{
    if n < 0 {
        push_char(s, '-');
        let m: u64 = if n == i64::MIN {
            0x8000_0000_0000_0000u64
        } else {
            (-n) as u64
        };
        push_u64(s, m);
        assert(s@ =~= old(s)@ + signed_decimal(n as int));
    } else {
        push_u64(s, n as u64);
    }
}

/// The digit character of a value below ten.
pub fn char_from_digit(d: u32) -> (c: char)
    requires
        d < 10,
    ensures
        c == digit_char(d as nat),
        is_digit(c),
{
    let c: char = if d == 0 {
        '0'
    } else if d == 1 {
        '1'
    } else if d == 2 {
        '2'
    } else if d == 3 {
        '3'
    } else if d == 4 {
        '4'
    } else if d == 5 {
        '5'
    } else if d == 6 {
        '6'
    } else if d == 7 {
        '7'
    } else if d == 8 {
        '8'
    } else {
        '9'
    };
    c
}

// ---------------------------------------------------------------------------
// Executable text operations
// ---------------------------------------------------------------------------

/// `char::is_whitespace`.
pub fn char_is_ws(c: char) -> (b: bool)
    ensures
        b == is_ws(c),
{
    let u = c as u32;
    (9 <= u && u <= 13) || u == 32 || u == 0x85 || u == 0xa0 || u == 0x1680 || (0x2000 <= u && u
        <= 0x200a) || u == 0x2028 || u == 0x2029 || u == 0x202f || u == 0x205f || u == 0x3000
}

/// `str::trim_start`.
pub fn trim_start_chars(s: &[char]) -> (r: &[char])
    ensures
        r@ == trim_start(s@),
{
    let mut i: usize = 0;
    while i < s.len() && char_is_ws(s[i])
        invariant
            i <= s@.len(),
            skip_ws_from(s@, 0) == skip_ws_from(s@, i as int),
        decreases s@.len() - i,
    {
        i = i + 1;
    }
    slice_subrange(s, i, s.len())
}

/// `str::trim_end`.
pub fn trim_end_chars(s: &[char]) -> (r: &[char])
    ensures
        r@ == trim_end(s@),
{
    let mut j: usize = s.len();
    while j > 0 && char_is_ws(s[j - 1])
        invariant
            j <= s@.len(),
            skip_ws_back(s@, s@.len() as int) == skip_ws_back(s@, j as int),
        decreases j,
    {
        j = j - 1;
    }
    slice_subrange(s, 0, j)
}

/// `str::trim`.
pub fn trim_chars(s: &[char]) -> (r: &[char])
    ensures
        r@ == trim(s@),
{
    let a = trim_start_chars(s);
    trim_end_chars(a)
}

/// Character sequences are equal.
pub fn chars_eq(a: &[char], b: &[char]) -> (r: bool)
    ensures
        r == (a@ == b@),
{
    if a.len() != b.len() {
        return false;
    }
    let mut i: usize = 0;
    while i < a.len()
        invariant
            a@.len() == b@.len(),
            i <= a@.len(),
            forall|j: int| 0 <= j < i ==> a@[j] == b@[j],
        decreases a@.len() - i,
    {
        if a[i] != b[i] {
            return false;
        }
        i = i + 1;
    }
    assert(a@ =~= b@);
    true
}

/// String slices are equal.
pub fn str_eq(a: &str, b: &str) -> (r: bool)
    ensures
        r == (a@ == b@),
{
    let av = to_chars(a);
    let bv = to_chars(b);
    chars_eq(av.as_slice(), bv.as_slice())
}

/// Characters equal a string slice.
pub fn chars_eq_str(a: &[char], b: &str) -> (r: bool)
    ensures
        r == (a@ == b@),
{
    let bv = to_chars(b);
    chars_eq(a, bv.as_slice())
}

/// `p` occurs in `s` at `i`.
pub fn occurs_at_exec(s: &[char], p: &[char], i: usize) -> (r: bool)
    ensures
        r == occurs_at(s@, p@, i as int),
{
    if i > s.len() || p.len() > s.len() - i {
        return false;
    }
    let mut k: usize = 0;
    while k < p.len()
        invariant
            i + p@.len() <= s@.len(),
            s@.len() == s.len(),
            k <= p@.len(),
            forall|j: int| 0 <= j < k ==> s@[i + j] == p@[j],
        decreases p@.len() - k,
    {
        if s[i + k] != p[k] {
            assert(s@.subrange(i as int, i + p@.len())[k as int] != p@[k as int]);
            return false;
        }
        k = k + 1;
    }
    assert(s@.subrange(i as int, i + p@.len()) =~= p@);
    true
}

/// `str::find` with a character, from index `from` on.
pub fn find_char_exec(s: &[char], c: char, from: usize) -> (r: Option<usize>)
    ensures
        match r {
            Some(k) => find_char_from(s@, c, from as int) == Some(k as int),
            None => find_char_from(s@, c, from as int) is None,
        },
{
    let mut i = from;
    while i < s.len()
        invariant
            from <= i,
            find_char_from(s@, c, from as int) == find_char_from(s@, c, i as int),
        decreases s@.len() - i,
    {
        if s[i] == c {
            return Some(i);
        }
        i = i + 1;
    }
    None
}

/// `str::rfind` with a character.
pub fn rfind_char_exec(s: &[char], c: char) -> (r: Option<usize>)
    ensures
        match r {
            Some(k) => rfind_char(s@, c) == Some(k as int),
            None => rfind_char(s@, c) is None,
        },
{
    let mut j: usize = s.len();
    while j > 0
        invariant
            j <= s@.len(),
            rfind_char(s@, c) == rfind_char_to(s@, c, j as int),
        decreases j,
    {
        if s[j - 1] == c {
            return Some(j - 1);
        }
        j = j - 1;
    }
    None
}

/// `str::contains` with a character.
pub fn has_char_exec(s: &[char], c: char) -> (r: bool)
    ensures
        r == has_char(s@, c),
{
    find_char_exec(s, c, 0).is_some()
}

/// `str::find` with a string pattern, from index `from` on.
pub fn find_str_exec(s: &[char], p: &[char], from: usize) -> (r: Option<usize>)
    ensures
        match r {
            Some(k) => find_str_from(s@, p@, from as int) == Some(k as int),
            None => find_str_from(s@, p@, from as int) is None,
        },
{
    if from > s.len() {
        return None;
    }
    let mut i = from;
    while i < s.len() && p.len() <= s.len() - i
        invariant
            from <= i <= s@.len(),
            find_str_from(s@, p@, from as int) == find_str_from(s@, p@, i as int),
        decreases s@.len() - i,
    {
        if occurs_at_exec(s, p, i) {
            return Some(i);
        }
        i = i + 1;
    }
    if i == s.len() && p.len() == 0 {
        assert(s@.subrange(i as int, i as int) =~= p@);
        return Some(i);
    }
    None
}

/// `str::contains` with a string pattern.
pub fn contains_exec(s: &[char], p: &[char]) -> (r: bool)
    ensures
        r == contains(s@, p@),
{
    find_str_exec(s, p, 0).is_some()
}

/// `str::contains` with a string slice pattern.
pub fn contains_str(s: &[char], p: &str) -> (r: bool)
    ensures
        r == contains(s@, p@),
{
    let pv = to_chars(p);
    contains_exec(s, pv.as_slice())
}

/// `str::starts_with`.
pub fn starts_with_exec(s: &[char], p: &[char]) -> (r: bool)
    ensures
        r == starts_with(s@, p@),
{
    let r = occurs_at_exec(s, p, 0);
    assert(r ==> s@.take(p@.len() as int) =~= s@.subrange(0, p@.len() as int));
    assert(starts_with(s@, p@) ==> s@.take(p@.len() as int) =~= s@.subrange(
        0,
        p@.len() as int,
    ));
    r
}

/// `str::starts_with` with a string slice pattern.
pub fn starts_with_str(s: &[char], p: &str) -> (r: bool)
    ensures
        r == starts_with(s@, p@),
{
    let pv = to_chars(p);
    starts_with_exec(s, pv.as_slice())
}

/// `str::ends_with`.
pub fn ends_with_exec(s: &[char], p: &[char]) -> (r: bool)
    ensures
        r == ends_with(s@, p@),
{
    if p.len() > s.len() {
        return false;
    }
    let i = s.len() - p.len();
    let r = occurs_at_exec(s, p, i);
    assert(s@.skip(i as int) =~= s@.subrange(i as int, i + p@.len()));
    r
}

/// `str::ends_with` with a string slice pattern.
pub fn ends_with_str(s: &[char], p: &str) -> (r: bool)
    ensures
        r == ends_with(s@, p@),
{
    let pv = to_chars(p);
    ends_with_exec(s, pv.as_slice())
}

/// `str::strip_prefix` with a string slice pattern.
pub fn strip_prefix_str<'a>(s: &'a [char], p: &str) -> (r: Option<&'a [char]>)
    ensures
        match r {
            Some(t) => strip_prefix(s@, p@) == Some(t@),
            None => strip_prefix(s@, p@) is None,
        },
{
    let pv = to_chars(p);
    if starts_with_exec(s, pv.as_slice()) {
        Some(slice_subrange(s, pv.len(), s.len()))
    } else {
        None
    }
}

/// `str::strip_suffix` with a string slice pattern.
pub fn strip_suffix_str<'a>(s: &'a [char], p: &str) -> (r: Option<&'a [char]>)
    ensures
        match r {
            Some(t) => strip_suffix(s@, p@) == Some(t@),
            None => strip_suffix(s@, p@) is None,
        },
{
    let pv = to_chars(p);
    if ends_with_exec(s, pv.as_slice()) {
        Some(slice_subrange(s, 0, s.len() - pv.len()))
    } else {
        None
    }
}

/// `str::split` with a character separator.
pub fn split_char_exec<'a>(s: &'a [char], c: char) -> (r: Vec<&'a [char]>)
    ensures
        views(r@) == split_char(s@, c),
        r@.len() >= 1,
{
    let mut out: Vec<&'a [char]> = Vec::new();
    let mut start: usize = 0;
    loop
        invariant
            start <= s@.len(),
            s@.len() == s.len(),
            views(out@) + split_from(s@, c, start as int) == split_char(s@, c),
        decreases s@.len() - start,
    {
        match find_char_exec(s, c, start) {
            None => {
                let piece = slice_subrange(s, start, s.len());
                let ghost before = out@;
                out.push(piece);
                assert(views(out@) =~= views(before) + seq![piece@]);
                assert(views(out@) =~= split_char(s@, c));
                return out;
            },
            Some(k) => {
                proof {
                    lemma_find_char_from(s@, c, start as int);
                }
                let piece = slice_subrange(s, start, k);
                let ghost before = out@;
                out.push(piece);
                assert(views(out@) =~= views(before) + seq![piece@]);
                assert(split_from(s@, c, start as int) =~= seq![piece@] + split_from(
                    s@,
                    c,
                    k + 1,
                ));
                start = k + 1;
            },
        }
    }
}

/// `str::splitn` with a character separator.
pub fn splitn_char_exec<'a>(s: &'a [char], c: char, n: usize) -> (r: Vec<&'a [char]>)
    ensures
        views(r@) == splitn_char(s@, c, n as nat),
    decreases n,
{
    if n == 0 {
        let out: Vec<&'a [char]> = Vec::new();
        assert(views(out@) =~= seq![]);
        return out;
    }
    if n == 1 {
        let mut out: Vec<&'a [char]> = Vec::new();
        out.push(s);
        assert(views(out@) =~= seq![s@]);
        return out;
    }
    match find_char_exec(s, c, 0) {
        None => {
            let mut out: Vec<&'a [char]> = Vec::new();
            out.push(s);
            assert(views(out@) =~= seq![s@]);
            out
        },
        Some(k) => {
            proof {
                lemma_find_char_from(s@, c, 0);
                assert(s@.len() == s.len());
            }
            let head = slice_subrange(s, 0, k);
            let tail = slice_subrange(s, k + 1, s.len());
            let rest = splitn_char_exec(tail, c, n - 1);
            let mut out: Vec<&'a [char]> = Vec::new();
            out.push(head);
            let mut i: usize = 0;
            while i < rest.len()
                invariant
                    i <= rest@.len(),
                    views(out@) == seq![head@] + views(rest@).take(i as int),
                decreases rest@.len() - i,
            {
                let ghost before = out@;
                out.push(rest[i]);
                assert(views(out@) =~= views(before).push(rest@[i as int]@));
                assert(views(rest@).take(i + 1) =~= views(rest@).take(i as int).push(
                    rest@[i as int]@,
                ));
                i = i + 1;
            }
            assert(views(rest@).take(rest@.len() as int) =~= views(rest@));
            assert(s@.take(k as int) =~= head@);
            assert(s@.skip(k + 1) =~= tail@);
            out
        },
    }
}

/// `str::lines`.
pub fn lines_exec<'a>(s: &'a [char]) -> (r: Vec<&'a [char]>)
    ensures
        views(r@) == lines(s@),
{
    let mut out: Vec<&'a [char]> = Vec::new();
    if s.len() == 0 {
        assert(views(out@) =~= lines(s@));
        return out;
    }
    let p = split_char_exec(s, '\n');
    let ghost pv = split_char(s@, '\n');
    let n = p.len();
    let mut i: usize = 0;
    while i + 1 < n
        invariant
            n == p@.len(),
            n >= 1,
            views(p@) == pv,
            i + 1 <= n,
            views(out@) == pv.take(i as int).map_values(|l: Seq<char>| strip_cr(l)),
        decreases n - i,
    {
        let l = p[i];
        let piece = if l.len() > 0 && l[l.len() - 1] == '\r' {
            slice_subrange(l, 0, l.len() - 1)
        } else {
            l
        };
        assert(piece@ == strip_cr(l@)) by {
            if l@.len() > 0 && l@.last() == '\r' {
                assert(piece@ =~= l@.drop_last());
            }
        }
        let ghost before = out@;
        out.push(piece);
        assert(views(out@) =~= views(before).push(piece@));
        assert(pv.take(i + 1).map_values(|l: Seq<char>| strip_cr(l)) =~= pv.take(
            i as int,
        ).map_values(|l: Seq<char>| strip_cr(l)).push(strip_cr(pv[i as int])));
        i = i + 1;
    }
    assert(pv.take(i as int) =~= pv.drop_last());
    if s[s.len() - 1] != '\n' {
        let ghost before = out@;
        out.push(p[n - 1]);
        assert(views(out@) =~= views(before).push(pv.last()));
    }
    out
}

/// `str::split_whitespace`.
pub fn split_whitespace_exec<'a>(s: &'a [char]) -> (r: Vec<&'a [char]>)
    ensures
        views(r@) == split_whitespace(s@),
{
    let mut out: Vec<&'a [char]> = Vec::new();
    let mut i: usize = 0;
    loop
        invariant
            i <= s@.len(),
            views(out@) + ws_tokens_from(s@, i as int) == split_whitespace(s@),
        decreases s@.len() - i,
    {
        let ghost i0 = i as int;
        let mut a = i;
        while a < s.len() && char_is_ws(s[a])
            invariant
                i0 <= a <= s@.len(),
                skip_ws_from(s@, i0) == skip_ws_from(s@, a as int),
            decreases s@.len() - a,
        {
            a = a + 1;
        }
        if a >= s.len() {
            assert(ws_tokens_from(s@, i0) =~= seq![]);
            assert(views(out@) =~= split_whitespace(s@));
            return out;
        }
        let mut b = a;
        while b < s.len() && !char_is_ws(s[b])
            invariant
                a <= b <= s@.len(),
                next_ws_from(s@, a as int) == next_ws_from(s@, b as int),
            decreases s@.len() - b,
        {
            b = b + 1;
        }
        let tok = slice_subrange(s, a, b);
        let ghost before = out@;
        out.push(tok);
        assert(views(out@) =~= views(before) + seq![tok@]);
        assert(ws_tokens_from(s@, i0) =~= seq![tok@] + ws_tokens_from(s@, b as int));
        i = b;
    }
}

/// `str::splitn(2, char::is_whitespace)`.
pub fn split2_ws_exec<'a>(s: &'a [char]) -> (r: (&'a [char], Option<&'a [char]>))
    ensures
        r.0@ == split2_ws(s@).0,
        match r.1 {
            Some(t) => split2_ws(s@).1 == Some(t@),
            None => split2_ws(s@).1 is None,
        },
{
    let mut k: usize = 0;
    while k < s.len() && !char_is_ws(s[k])
        invariant
            k <= s@.len(),
            next_ws_from(s@, 0) == next_ws_from(s@, k as int),
        decreases s@.len() - k,
    {
        k = k + 1;
    }
    if k >= s.len() {
        (s, None)
    } else {
        let a = slice_subrange(s, 0, k);
        let b = slice_subrange(s, k + 1, s.len());
        assert(a@ =~= s@.take(k as int));
        assert(b@ =~= s@.skip(k + 1));
        (a, Some(b))
    }
}

/// Whether the UTF-8 encoding of a text is longer than `n` bytes.
pub fn utf8_len_exceeds(s: &[char], n: u64) -> (r: bool)
    ensures
        r == (utf8_len(s@) > n),
{
    let mut total: u64 = 0;
    let mut i: usize = 0;
    while i < s.len()
        invariant
            i <= s@.len(),
            total == utf8_len(s@.take(i as int)),
            total <= n,
        decreases s@.len() - i,
    {
        let u = s[i] as u32;
        let w: u64 = if u < 0x80 {
            1
        } else if u < 0x800 {
            2
        } else if u < 0x10000 {
            3
        } else {
            4
        };
        assert(s@.take(i + 1).drop_last() =~= s@.take(i as int));
        if w > n - total {
            proof {
                lemma_utf8_len_prefix(s@, i as int + 1);
            }
            return true;
        }
        total = total + w;
        i = i + 1;
    }
    assert(s@.take(i as int) =~= s@);
    false
}

/// The UTF-8 length of a prefix is at most that of the whole.
pub proof fn lemma_utf8_len_prefix(s: Seq<char>, k: int)
    requires
        0 <= k <= s.len(),
    ensures
        utf8_len(s.take(k)) <= utf8_len(s),
    decreases s.len() - k,
{
    if k < s.len() {
        lemma_utf8_len_prefix(s, k + 1);
        assert(s.take(k + 1).drop_last() =~= s.take(k));
    } else {
        assert(s.take(k) =~= s);
    }
}

/// `s.split(p).nth(1)` for a string slice pattern.
pub fn split_str_second_exec<'a>(s: &'a [char], p: &str) -> (r: Option<&'a [char]>)
    ensures
        match r {
            Some(t) => split_str_second(s@, p@) == Some(t@),
            None => split_str_second(s@, p@) is None,
        },
{
    let pv = to_chars(p);
    match find_str_exec(s, pv.as_slice(), 0) {
        None => None,
        Some(i) => {
            proof {
                lemma_find_str_from(s@, pv@, 0);
                assert(s@.len() == s.len());
            }
            let rest = slice_subrange(s, i + pv.len(), s.len());
            assert(rest@ =~= s@.skip(i + pv@.len()));
            match find_str_exec(rest, pv.as_slice(), 0) {
                None => Some(rest),
                Some(j) => {
                    proof {
                        lemma_find_str_from(rest@, pv@, 0);
                    }
                    let t = slice_subrange(rest, 0, j);
                    assert(t@ =~= rest@.take(j as int));
                    Some(t)
                },
            }
        },
    }
}

/// Parse an unsigned decimal number at most `max` (`FromStr` of the
/// unsigned integer types).
pub fn parse_unsigned_exec(s: &[char], max: u64) -> (r: Option<u64>)
    requires
        max >= 9,
    ensures
        match r {
            Some(v) => parse_unsigned(s@, max as nat) == Some(v as nat),
            None => parse_unsigned(s@, max as nat) is None,
        },
{
    let d = if s.len() > 0 && s[0] == '+' {
        slice_subrange(s, 1, s.len())
    } else {
        s
    };
    assert(d@ == (if s@.len() > 0 && s@[0] == '+' {
        s@.drop_first()
    } else {
        s@
    })) by {
        if s@.len() > 0 && s@[0] == '+' {
            assert(d@ =~= s@.drop_first());
        }
    }
    if d.len() == 0 {
        return None;
    }
    let mut acc: u64 = 0;
    let mut i: usize = 0;
    while i < d.len()
        invariant
            i <= d@.len(),
            max >= 9,
            d@ == (if s@.len() > 0 && s@[0] == '+' {
                s@.drop_first()
            } else {
                s@
            }),
            all_digits(d@.take(i as int)),
            acc == digits_value(d@.take(i as int)),
            acc <= max,
        decreases d@.len() - i,
    {
        let c = d[i];
        if !('0' <= c && c <= '9') {
            assert(!is_digit(d@[i as int]));
            assert(!all_digits(d@));
            return None;
        }
        let v = (c as u32 - 48) as u64;
        assert(d@.take(i + 1).drop_last() =~= d@.take(i as int));
        if acc > (max - v) / 10 {
            proof {
                assert(acc * 10 + v > max) by (nonlinear_arith)
                    requires
                        acc > (max - v) / 10,
                        v <= 9,
                        max >= 9,
                ;
                lemma_digits_value_prefix(d@, i + 1);
            }
            assert(digits_value(d@.take(i + 1)) == acc * 10 + v);
            return None;
        }
        assert(acc * 10 + v <= max) by (nonlinear_arith)
            requires
                acc <= (max - v) / 10,
                v <= 9,
                max >= 9,
        ;
        acc = acc * 10 + v;
        i = i + 1;
        assert(all_digits(d@.take(i as int))) by {
            assert forall|j: int| 0 <= j < i implies is_digit(#[trigger] d@.take(i as int)[j]) by {
                if j < i - 1 {
                    assert(d@.take(i as int)[j] == d@.take(i - 1)[j]);
                }
            }
        }
    }
    assert(d@.take(i as int) =~= d@);
    Some(acc)
}

/// Parse a `u64`.
pub fn parse_u64(s: &[char]) -> (r: Option<u64>)
    ensures
        match r {
            Some(v) => parse_unsigned(s@, u64::MAX as nat) == Some(v as nat),
            None => parse_unsigned(s@, u64::MAX as nat) is None,
        },
{
    parse_unsigned_exec(s, u64::MAX)
}

/// Parse a `u32`.
pub fn parse_u32(s: &[char]) -> (r: Option<u32>)
    ensures
        match r {
            Some(v) => parse_unsigned(s@, u32::MAX as nat) == Some(v as nat),
            None => parse_unsigned(s@, u32::MAX as nat) is None,
        },
{
    match parse_unsigned_exec(s, u32::MAX as u64) {
        Some(v) => Some(v as u32),
        None => None,
    }
}

/// Parse a `u8`.
pub fn parse_u8(s: &[char]) -> (r: Option<u8>)
    ensures
        match r {
            Some(v) => parse_unsigned(s@, u8::MAX as nat) == Some(v as nat),
            None => parse_unsigned(s@, u8::MAX as nat) is None,
        },
{
    match parse_unsigned_exec(s, u8::MAX as u64) {
        Some(v) => Some(v as u8),
        None => None,
    }
}

/// Parse an `i64`.
pub fn parse_i64_exec(s: &[char]) -> (r: Option<i64>)
    ensures
        match r {
            Some(v) => parse_i64(s@) == Some(v as int),
            None => parse_i64(s@) is None,
        },
{
    if s.len() > 0 && s[0] == '-' {
        let d = slice_subrange(s, 1, s.len());
        assert(d@ =~= s@.drop_first());
        if d.len() > 0 && d[0] == '+' {
            // `parse_unsigned` would accept the sign; a second sign is refused.
            assert(!is_digit(d@[0]));
            return None;
        }
        match parse_unsigned_exec(d, 0x8000_0000_0000_0000u64) {
            Some(v) => {
                if v == 0x8000_0000_0000_0000u64 {
                    Some(i64::MIN)
                } else {
                    Some(-(v as i64))
                }
            },
            None => None,
        }
    } else {
        match parse_unsigned_exec(s, 0x7fff_ffff_ffff_ffffu64) {
            Some(v) => Some(v as i64),
            None => None,
        }
    }
}

/// Join pieces with a separator.
pub fn join_exec(parts: &Vec<String>, sep: &str) -> (r: String)
    ensures
        r@ == join(parts@.map_values(|p: String| p@), sep@),
{
    let ghost pv = parts@.map_values(|p: String| p@);
    let mut out = String::new();
    let mut i: usize = 0;
    while i < parts.len()
        invariant
            i <= parts@.len(),
            pv == parts@.map_values(|p: String| p@),
            out@ == join(pv.take(i as int), sep@),
        decreases parts@.len() - i,
    {
        let ghost before = out@;
        if i > 0 {
            push_str(&mut out, sep);
        }
        push_str(&mut out, parts[i].as_str());
        assert(pv.take(i + 1).drop_last() =~= pv.take(i as int));
        if i == 0 {
            assert(join(pv.take(1), sep@) == pv[0]);
            assert(out@ =~= pv[0]);
        }
        i = i + 1;
    }
    assert(pv.take(i as int) =~= pv);
    out
}

} // verus!
