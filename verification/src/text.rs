//! Character-level helpers shared by the status-line parser, the TAI64N
//! decoder and the message builders: digit runs and their numeric value,
//! space runs, trimming, substring search, and decimal rendering.
use vstd::prelude::*;

verus! {

pub open spec fn is_digit_char(c: char) -> bool {
    '0' <= c && c <= '9'
}

pub open spec fn digit_val(c: char) -> nat {
    ((c as u32) - ('0' as u32)) as nat
}

/// Numeric value of a digit run, most significant digit first.
pub open spec fn digits_val(s: Seq<char>) -> nat
    decreases s.len(),
{
    if s.len() == 0 {
        0
    } else {
        digits_val(s.drop_last()) * 10 + digit_val(s.last())
    }
}

pub open spec fn all_digits(s: Seq<char>) -> bool {
    forall|i: int| 0 <= i < s.len() ==> is_digit_char(#[trigger] s[i])
}

/// First index at or after `i` whose character is not a space, or the end.
pub open spec fn skip_spaces(s: Seq<char>, i: int) -> int
    decreases s.len() - i,
{
    if 0 <= i < s.len() && s[i] == ' ' {
        skip_spaces(s, i + 1)
    } else {
        i
    }
}

/// First index at or after `i` whose character is not a digit, or the end.
pub open spec fn end_of_digits(s: Seq<char>, i: int) -> int
    decreases s.len() - i,
{
    if 0 <= i < s.len() && is_digit_char(s[i]) {
        end_of_digits(s, i + 1)
    } else {
        i
    }
}

/// First index at or after `i` holding character `c`, or the length if none.
pub open spec fn find_char(s: Seq<char>, i: int, c: char) -> int
    decreases s.len() - i,
{
    if i < 0 {
        find_char(s, 0, c)
    } else if i < s.len() {
        if s[i] == c {
            i
        } else {
            find_char(s, i + 1, c)
        }
    } else {
        s.len() as int
    }
}

pub proof fn lemma_skip_spaces_bounds(s: Seq<char>, i: int)
    requires
        0 <= i <= s.len(),
    ensures
        i <= skip_spaces(s, i) <= s.len(),
        forall|k: int| i <= k < skip_spaces(s, i) ==> s[k] == ' ',
        skip_spaces(s, i) < s.len() ==> s[skip_spaces(s, i)] != ' ',
    decreases s.len() - i,
{
    if i < s.len() && s[i] == ' ' {
        lemma_skip_spaces_bounds(s, i + 1);
    }
}

pub proof fn lemma_end_of_digits_bounds(s: Seq<char>, i: int)
    requires
        0 <= i <= s.len(),
    ensures
        i <= end_of_digits(s, i) <= s.len(),
        forall|k: int| i <= k < end_of_digits(s, i) ==> is_digit_char(s[k]),
        end_of_digits(s, i) < s.len() ==> !is_digit_char(s[end_of_digits(s, i)]),
    decreases s.len() - i,
{
    if i < s.len() && is_digit_char(s[i]) {
        lemma_end_of_digits_bounds(s, i + 1);
    }
}

pub proof fn lemma_find_char_bounds(s: Seq<char>, i: int, c: char)
    requires
        0 <= i <= s.len(),
    ensures
        i <= find_char(s, i, c) <= s.len(),
        forall|k: int| i <= k < find_char(s, i, c) ==> s[k] != c,
        find_char(s, i, c) < s.len() ==> s[find_char(s, i, c)] == c,
    decreases s.len() - i,
{
    if i < s.len() && s[i] != c {
        lemma_find_char_bounds(s, i + 1, c);
    }
}

/// `skip_spaces` lands exactly where the space run ends.
pub proof fn lemma_skip_spaces_exact(s: Seq<char>, i: int, a: int)
    requires
        0 <= i <= a <= s.len(),
        forall|k: int| i <= k < a ==> s[k] == ' ',
        a < s.len() ==> s[a] != ' ',
    ensures
        skip_spaces(s, i) == a,
    decreases a - i,
{
    if i < a {
        lemma_skip_spaces_exact(s, i + 1, a);
    }
}

/// `end_of_digits` lands exactly where the digit run ends.
pub proof fn lemma_end_of_digits_exact(s: Seq<char>, i: int, a: int)
    requires
        0 <= i <= a <= s.len(),
        forall|k: int| i <= k < a ==> is_digit_char(#[trigger] s[k]),
        a < s.len() ==> !is_digit_char(s[a]),
    ensures
        end_of_digits(s, i) == a,
    decreases a - i,
{
    if i < a {
        lemma_end_of_digits_exact(s, i + 1, a);
    }
}

/// `find_char` lands exactly on the first occurrence.
pub proof fn lemma_find_char_exact(s: Seq<char>, i: int, j: int, c: char)
    requires
        0 <= i <= j <= s.len(),
        forall|k: int| i <= k < j ==> s[k] != c,
        j < s.len() ==> s[j] == c,
    ensures
        j < s.len() ==> find_char(s, i, c) == j,
        j == s.len() ==> find_char(s, i, c) == s.len(),
    decreases j - i,
{
    if i < j {
        lemma_find_char_exact(s, i + 1, j, c);
    }
}

/// Advance past a run of spaces; mirrors `skip_spaces`.
pub fn scan_spaces(s: &str, i: usize) -> (r: usize)
    requires
        i <= s@.len(),
    ensures
        r == skip_spaces(s@, i as int),
        i <= r <= s@.len(),
{
    proof {
        lemma_skip_spaces_bounds(s@, i as int);
    }
    let len = s.unicode_len();
    let mut j = i;
    while j < len && s.get_char(j) == ' '
        invariant
            i <= j <= len,
            len == s@.len(),
            skip_spaces(s@, i as int) == skip_spaces(s@, j as int),
        decreases len - j,
    {
        j += 1;
    }
    j
}

/// Advance past a run of decimal digits; mirrors `end_of_digits`.
pub fn scan_digits(s: &str, i: usize) -> (r: usize)
    requires
        i <= s@.len(),
    ensures
        r == end_of_digits(s@, i as int),
        i <= r <= s@.len(),
{
    proof {
        lemma_end_of_digits_bounds(s@, i as int);
    }
    let len = s.unicode_len();
    let mut j = i;
    while j < len && '0' <= s.get_char(j) && s.get_char(j) <= '9'
        invariant
            i <= j <= len,
            len == s@.len(),
            end_of_digits(s@, i as int) == end_of_digits(s@, j as int),
        decreases len - j,
    {
        j += 1;
    }
    j
}

/// Whitespace stripped from text ends: the characters with the Unicode
/// White_Space property, as `str::trim` strips them.
pub open spec fn is_space(c: char) -> bool {
    c == ' ' || ('\t' <= c && c <= '\r') || c == '\u{85}' || c == '\u{a0}' || c == '\u{1680}' || (
    '\u{2000}' <= c && c <= '\u{200a}') || c == '\u{2028}' || c == '\u{2029}' || c == '\u{202f}'
        || c == '\u{205f}' || c == '\u{3000}'
}

/// Whitespace test matching `is_space`.
pub fn space_char(c: char) -> (r: bool)
    ensures
        r == is_space(c),
{
    c == ' ' || ('\t' <= c && c <= '\r') || c == '\u{85}' || c == '\u{a0}' || c == '\u{1680}' || (
    '\u{2000}' <= c && c <= '\u{200a}') || c == '\u{2028}' || c == '\u{2029}' || c == '\u{202f}'
        || c == '\u{205f}' || c == '\u{3000}'
}

/// First index in `[i, hi)` whose character is not whitespace, or `hi`.
pub open spec fn skip_ws(s: Seq<char>, i: int, hi: int) -> int
    decreases hi - i,
{
    if 0 <= i < hi && hi <= s.len() && is_space(s[i]) {
        skip_ws(s, i + 1, hi)
    } else {
        i
    }
}

/// Largest `b` in `[lo, j]` such that `[b, j)` is all whitespace... scanned
/// from the right: steps back over trailing whitespace down to `lo`.
pub open spec fn rskip_ws(s: Seq<char>, j: int, lo: int) -> int
    decreases j - lo,
{
    if 0 <= lo < j && j <= s.len() && is_space(s[j - 1]) {
        rskip_ws(s, j - 1, lo)
    } else {
        j
    }
}

/// The slice of `[lo, hi)` with leading and trailing whitespace removed.
pub open spec fn trim_in(s: Seq<char>, lo: int, hi: int) -> Seq<char> {
    let a = skip_ws(s, lo, hi);
    let b = rskip_ws(s, hi, a);
    s.subrange(a, b)
}

/// The first line of a raw text, trimmed of surrounding whitespace.
pub open spec fn first_line_trimmed(s: Seq<char>) -> Seq<char> {
    trim_in(s, 0, find_char(s, 0, '\n'))
}

pub proof fn lemma_skip_ws_bounds(s: Seq<char>, i: int, hi: int)
    requires
        0 <= i <= hi <= s.len(),
    ensures
        i <= skip_ws(s, i, hi) <= hi,
        forall|k: int| i <= k < skip_ws(s, i, hi) ==> is_space(s[k]),
        skip_ws(s, i, hi) < hi ==> !is_space(s[skip_ws(s, i, hi)]),
    decreases hi - i,
{
    if i < hi && is_space(s[i]) {
        lemma_skip_ws_bounds(s, i + 1, hi);
    }
}

pub proof fn lemma_rskip_ws_bounds(s: Seq<char>, j: int, lo: int)
    requires
        0 <= lo <= j <= s.len(),
    ensures
        lo <= rskip_ws(s, j, lo) <= j,
        forall|k: int| rskip_ws(s, j, lo) <= k < j ==> is_space(s[k]),
        rskip_ws(s, j, lo) > lo ==> !is_space(s[rskip_ws(s, j, lo) - 1]),
    decreases j - lo,
{
    if lo < j && is_space(s[j - 1]) {
        lemma_rskip_ws_bounds(s, j - 1, lo);
    }
}

pub proof fn lemma_digits_val_concat(a: Seq<char>, b: Seq<char>)
    ensures
        digits_val(a + b) == digits_val(a) * pow10(b.len()) + digits_val(b),
    decreases b.len(),
{
    if b.len() == 0 {
        assert(a + b =~= a);
        assert(pow10(b.len()) == 1);
        assert(digits_val(b) == 0);
        assert(digits_val(a) * 1 == digits_val(a));
    } else {
        lemma_digits_val_concat(a, b.drop_last());
        assert((a + b).drop_last() =~= a + b.drop_last());
        assert((a + b).last() == b.last());
        let p = pow10((b.len() - 1) as nat);
        assert(pow10(b.len()) == 10 * p);
        assert(digits_val(b) == digits_val(b.drop_last()) * 10 + digit_val(b.last()));
        assert(digits_val(a + b) == (digits_val(a) * p + digits_val(b.drop_last())) * 10
            + digit_val(b.last()));
        assert((digits_val(a) * p + digits_val(b.drop_last())) * 10 == digits_val(a) * (10 * p)
            + digits_val(b.drop_last()) * 10) by (nonlinear_arith);
        assert(digits_val(a + b) == digits_val(a) * pow10(b.len()) + digits_val(b));
    }
}

pub open spec fn pow10(n: nat) -> nat
    decreases n,
{
    if n == 0 {
        1
    } else {
        10 * pow10((n - 1) as nat)
    }
}

/// The value of a digit run never shrinks as the run is extended.
pub proof fn lemma_digits_val_prefix(s: Seq<char>, i: int)
    requires
        0 <= i <= s.len(),
    ensures
        digits_val(s.subrange(0, i)) <= digits_val(s),
{
    let a = s.subrange(0, i);
    let b = s.subrange(i, s.len() as int);
    assert(s =~= a + b);
    lemma_digits_val_concat(a, b);
    lemma_pow10_pos(b.len());
    assert(digits_val(a) * pow10(b.len()) >= digits_val(a) * 1) by (nonlinear_arith)
        requires
            pow10(b.len()) >= 1,
    ;
}

pub proof fn lemma_pow10_pos(n: nat)
    ensures
        pow10(n) >= 1,
    decreases n,
{
    if n > 0 {
        lemma_pow10_pos((n - 1) as nat);
    }
}

/// Numeric value of the digit run `[from, to)`, or `None` on a value that
/// does not fit in a `u64`.
pub fn digits_value_u64(s: &str, from: usize, to: usize) -> (r: Option<u64>)
    requires
        from <= to <= s@.len(),
        forall|k: int| from <= k < to ==> is_digit_char(#[trigger] s@[k]),
    ensures
        match r {
            Some(v) => v == digits_val(s@.subrange(from as int, to as int)),
            None => digits_val(s@.subrange(from as int, to as int)) > u64::MAX,
        },
{
    let mut val: u64 = 0;
    let mut i = from;
    while i < to
        invariant
            from <= i <= to <= s@.len(),
            forall|k: int| from <= k < to ==> is_digit_char(#[trigger] s@[k]),
            val == digits_val(s@.subrange(from as int, i as int)),
        decreases to - i,
    {
        let c = s.get_char(i);
        assert(is_digit_char(c));
        let d: u64 = (c as u32 - '0' as u32) as u64;
        proof {
            let cur = s@.subrange(from as int, i as int);
            let next = s@.subrange(from as int, i + 1 as int);
            assert(next.drop_last() =~= cur);
            assert(next.last() == s@[i as int]);
        }
        if val > (u64::MAX - d) / 10 {
            proof {
                let next = s@.subrange(from as int, i + 1 as int);
                assert(digits_val(next) == val * 10 + d);
                assert(val * 10 + d > u64::MAX) by (nonlinear_arith)
                    requires
                        val > (u64::MAX - d) / 10,
                        d <= 9,
                        val <= u64::MAX,
                ;
                let whole = s@.subrange(from as int, to as int);
                assert(whole.subrange(0, i + 1 - from) =~= next);
                lemma_digits_val_prefix(whole, i + 1 - from);
            }
            return None;
        }
        assert(val * 10 + d <= u64::MAX) by (nonlinear_arith)
            requires
                val <= (u64::MAX - d) / 10,
                d <= 9,
        ;
        val = val * 10 + d;
        i += 1;
    }
    Some(val)
}

/// Advance past a run of whitespace, not beyond `hi`; mirrors `skip_ws`.
pub fn scan_ws(s: &str, i: usize, hi: usize) -> (r: usize)
    requires
        i <= hi <= s@.len(),
    ensures
        r == skip_ws(s@, i as int, hi as int),
        i <= r <= hi,
{
    proof {
        lemma_skip_ws_bounds(s@, i as int, hi as int);
    }
    let mut j = i;
    while j < hi && space_char(s.get_char(j))
        invariant
            i <= j <= hi <= s@.len(),
            skip_ws(s@, i as int, hi as int) == skip_ws(s@, j as int, hi as int),
        decreases hi - j,
    {
        j += 1;
    }
    j
}

/// The whole string with leading and trailing whitespace removed.
pub fn trim_spaces(s: &str) -> (r: &str)
    ensures
        r@ == trim_in(s@, 0, s@.len() as int),
{
    let len = s.unicode_len();
    let mut a: usize = 0;
    while a < len && space_char(s.get_char(a))
        invariant
            0 <= a <= len == s@.len(),
            skip_ws(s@, 0, len as int) == skip_ws(s@, a as int, len as int),
        decreases len - a,
    {
        a += 1;
    }
    proof {
        lemma_skip_ws_bounds(s@, a as int, len as int);
        assert(skip_ws(s@, a as int, len as int) == a);
    }
    let mut b: usize = len;
    while b > a && space_char(s.get_char(b - 1))
        invariant
            0 <= a <= b <= len == s@.len(),
            rskip_ws(s@, len as int, a as int) == rskip_ws(s@, b as int, a as int),
        decreases b,
    {
        b -= 1;
    }
    proof {
        lemma_rskip_ws_bounds(s@, b as int, a as int);
        assert(rskip_ws(s@, b as int, a as int) == b);
    }
    s.substring_char(a, b)
}

/// Lexicographic order on character sequences, by code point order of the
/// first differing character.
pub open spec fn seq_lex_le(a: Seq<char>, b: Seq<char>) -> bool
    decreases a.len(),
{
    if a.len() == 0 {
        true
    } else if b.len() == 0 {
        false
    } else if a[0] == b[0] {
        seq_lex_le(a.drop_first(), b.drop_first())
    } else {
        a[0] < b[0]
    }
}

/// The order is total.
pub proof fn lemma_seq_lex_le_total(a: Seq<char>, b: Seq<char>)
    ensures
        seq_lex_le(a, b) || seq_lex_le(b, a),
    decreases a.len(),
{
    if a.len() > 0 && b.len() > 0 && a[0] == b[0] {
        lemma_seq_lex_le_total(a.drop_first(), b.drop_first());
    }
}

/// The order is transitive.
pub proof fn lemma_seq_lex_le_trans(a: Seq<char>, b: Seq<char>, c: Seq<char>)
    requires
        seq_lex_le(a, b),
        seq_lex_le(b, c),
    ensures
        seq_lex_le(a, c),
    decreases a.len(),
{
    if a.len() > 0 && b.len() > 0 && c.len() > 0 && a[0] == b[0] && b[0] == c[0] {
        lemma_seq_lex_le_trans(a.drop_first(), b.drop_first(), c.drop_first());
    }
}

/// Compare two string slices in the lexicographic order.
pub fn str_lex_le(a: &str, b: &str) -> (r: bool)
    ensures
        r == seq_lex_le(a@, b@),
{
    let na = a.unicode_len();
    let nb = b.unicode_len();
    proof {
        assert(a@.skip(0) =~= a@);
        assert(b@.skip(0) =~= b@);
    }
    let mut i: usize = 0;
    loop
        invariant
            0 <= i <= na == a@.len(),
            i <= nb == b@.len(),
            seq_lex_le(a@, b@) == seq_lex_le(a@.skip(i as int), b@.skip(i as int)),
        decreases na - i,
    {
        if i == na {
            return true;
        }
        if i == nb {
            return false;
        }
        let ca = a.get_char(i);
        let cb = b.get_char(i);
        proof {
            assert(a@.skip(i as int)[0] == a@[i as int]);
            assert(b@.skip(i as int)[0] == b@[i as int]);
        }
        if ca != cb {
            return ca < cb;
        }
        proof {
            assert(a@.skip(i as int).drop_first() =~= a@.skip(i + 1 as int));
            assert(b@.skip(i as int).drop_first() =~= b@.skip(i + 1 as int));
        }
        i += 1;
    }
}

/// Equality of string slices, by characters.
pub fn str_eq(a: &str, b: &str) -> (r: bool)
    ensures
        r == (a@ == b@),
{
    let n = a.unicode_len();
    if n != b.unicode_len() {
        return false;
    }
    let mut i: usize = 0;
    while i < n
        invariant
            0 <= i <= n,
            n == a@.len() == b@.len(),
            forall|j: int| 0 <= j < i ==> a@[j] == b@[j],
        decreases n - i,
    {
        if a.get_char(i) != b.get_char(i) {
            return false;
        }
        i += 1;
    }
    assert(a@ =~= b@);
    true
}

/// Two characters equal up to ASCII case.
pub open spec fn chars_eq_ignore_ascii_case(x: char, y: char) -> bool {
    x == y || ('A' <= x && x <= 'Z' && (y as u32) == (x as u32) + 32) || ('A' <= y && y <= 'Z' && (
    x as u32) == (y as u32) + 32)
}

/// Two strings equal up to ASCII case.
pub open spec fn eq_ignore_ascii_case(a: Seq<char>, b: Seq<char>) -> bool {
    a.len() == b.len() && forall|i: int|
        0 <= i < a.len() ==> chars_eq_ignore_ascii_case(#[trigger] a[i], b[i])
}

/// Compare two string slices up to ASCII case.
pub fn str_eq_ignore_ascii_case(a: &str, b: &str) -> (r: bool)
    ensures
        r == eq_ignore_ascii_case(a@, b@),
{
    let n = a.unicode_len();
    if n != b.unicode_len() {
        return false;
    }
    let mut i: usize = 0;
    while i < n
        invariant
            0 <= i <= n,
            n == a@.len() == b@.len(),
            forall|j: int| 0 <= j < i ==> chars_eq_ignore_ascii_case(#[trigger] a@[j], b@[j]),
        decreases n - i,
    {
        let x = a.get_char(i);
        let y = b.get_char(i);
        let same = x == y || ('A' <= x && x <= 'Z' && (y as u32) == (x as u32) + 32) || ('A' <= y
            && y <= 'Z' && (x as u32) == (y as u32) + 32);
        if !same {
            return false;
        }
        i += 1;
    }
    true
}

/// The bounds of the segment `[lo, hi)` with surrounding whitespace
/// removed: the pair `(skip_ws, rskip_ws)` of the trim.
pub fn trim_segment(s: &str, lo: usize, hi: usize) -> (r: (usize, usize))
    requires
        lo <= hi <= s@.len(),
    ensures
        r.0 == skip_ws(s@, lo as int, hi as int),
        r.1 == rskip_ws(s@, hi as int, r.0 as int),
        lo <= r.0 <= r.1 <= hi,
        s@.subrange(r.0 as int, r.1 as int) == trim_in(s@, lo as int, hi as int),
{
    let a = scan_ws(s, lo, hi);
    proof {
        lemma_skip_ws_bounds(s@, lo as int, hi as int);
    }
    let mut b: usize = hi;
    while b > a && space_char(s.get_char(b - 1))
        invariant
            a <= b <= hi <= s@.len(),
            rskip_ws(s@, hi as int, a as int) == rskip_ws(s@, b as int, a as int),
        decreases b,
    {
        b -= 1;
    }
    proof {
        lemma_rskip_ws_bounds(s@, b as int, a as int);
        assert(rskip_ws(s@, b as int, a as int) == b);
    }
    (a, b)
}

/// The string with trailing whitespace removed.
pub fn trim_end_spaces(s: &str) -> (r: &str)
    ensures
        r@ == s@.subrange(0, rskip_ws(s@, s@.len() as int, 0)),
{
    let len = s.unicode_len();
    let mut b: usize = len;
    while b > 0 && space_char(s.get_char(b - 1))
        invariant
            0 <= b <= len == s@.len(),
            rskip_ws(s@, len as int, 0) == rskip_ws(s@, b as int, 0),
        decreases b,
    {
        b -= 1;
    }
    proof {
        lemma_rskip_ws_bounds(s@, b as int, 0);
        assert(rskip_ws(s@, b as int, 0) == b);
    }
    s.substring_char(0, b)
}

pub open spec fn has_substring_at(s: Seq<char>, k: int, pat: Seq<char>) -> bool {
    0 <= k && k + pat.len() <= s.len() && s.subrange(k, k + pat.len()) == pat
}

pub open spec fn contains_from(s: Seq<char>, start: int, pat: Seq<char>) -> bool {
    exists|k: int| start <= k && has_substring_at(s, k, pat)
}

/// Whether `pat` occurs in `s` at position `k`.
pub fn match_at(s: &str, k: usize, pat: &str) -> (r: bool)
    requires
        k <= s@.len(),
    ensures
        r == has_substring_at(s@, k as int, pat@),
{
    let n = pat.unicode_len();
    let len = s.unicode_len();
    if n > len - k {
        return false;
    }
    let mut i: usize = 0;
    while i < n
        invariant
            0 <= i <= n == pat@.len(),
            k + n <= len == s@.len(),
            forall|j: int| 0 <= j < i ==> s@[k + j] == pat@[j],
        decreases n - i,
    {
        if s.get_char(k + i) != pat.get_char(i) {
            assert(s@.subrange(k as int, k + n as int) != pat@);
            return false;
        }
        i += 1;
    }
    assert(s@.subrange(k as int, k + n as int) =~= pat@);
    true
}

/// Whether `pat` occurs anywhere in `s` at or after `start`.
pub fn contains_at_or_after(s: &str, start: usize, pat: &str) -> (r: bool)
    requires
        start <= s@.len(),
    ensures
        r == contains_from(s@, start as int, pat@),
{
    let n = pat.unicode_len();
    let len = s.unicode_len();
    let mut k = start;
    while k < len
        invariant
            start <= k <= len == s@.len(),
            n == pat@.len(),
            forall|j: int| start <= j < k ==> !has_substring_at(s@, j, pat@),
        decreases len - k,
    {
        if match_at(s, k, pat) {
            return true;
        }
        k += 1;
    }
    if n == 0 && start <= len {
        assert(s@.subrange(start as int, start as int) =~= pat@);
        assert(has_substring_at(s@, start as int, pat@));
        return true;
    }
    assert forall|j: int| start <= j implies !has_substring_at(s@, j, pat@) by {
        if j + pat@.len() <= s@.len() {
            assert(j < len);
        }
    }
    false
}

/// Find the next occurrence of `c`; mirrors `find_char`.
pub fn scan_to_char(s: &str, i: usize, c: char) -> (r: usize)
    requires
        i <= s@.len(),
    ensures
        r == find_char(s@, i as int, c),
        i <= r <= s@.len(),
{
    proof {
        lemma_find_char_bounds(s@, i as int, c);
    }
    let len = s.unicode_len();
    let mut j = i;
    while j < len && s.get_char(j) != c
        invariant
            i <= j <= len,
            len == s@.len(),
            find_char(s@, i as int, c) == find_char(s@, j as int, c),
        decreases len - j,
    {
        j += 1;
    }
    j
}

} // verus!
