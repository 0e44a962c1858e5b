//! Byte-level text utilities for the wire protocol: whitespace trimming,
//! byte search, substring search, and decimal numbers, each specified over
//! `Seq<u8>` and proved on the executable code.

use vstd::prelude::*;

verus! {

/// The ASCII whitespace bytes, exactly those that Rust's `char::is_whitespace`
/// accepts below 128: tab, line feed, vertical tab, form feed, carriage
/// return, and space.
pub open spec fn is_ws(b: u8) -> bool {
    b == 9 || b == 10 || b == 11 || b == 12 || b == 13 || b == 32
}

/// `s` with its leading whitespace bytes removed.
pub open spec fn spec_trim_start(s: Seq<u8>) -> Seq<u8>
    decreases s.len(),
{
    if s.len() > 0 && is_ws(s[0]) {
        spec_trim_start(s.drop_first())
    } else {
        s
    }
}

/// `s` with its trailing whitespace bytes removed.
pub open spec fn spec_trim_end(s: Seq<u8>) -> Seq<u8>
    decreases s.len(),
{
    if s.len() > 0 && is_ws(s[s.len() - 1]) {
        spec_trim_end(s.drop_last())
    } else {
        s
    }
}

/// `s` with leading and trailing whitespace bytes removed.
pub open spec fn spec_trim(s: Seq<u8>) -> Seq<u8> {
    spec_trim_end(spec_trim_start(s))
}

/// The position of the first occurrence of `b` in `s` at or after `from`.
pub open spec fn spec_find(s: Seq<u8>, from: int, b: u8) -> Option<int>
    decreases s.len() - from,
{
    if from < 0 || from >= s.len() {
        None
    } else if s[from] == b {
        Some(from)
    } else {
        spec_find(s, from + 1, b)
    }
}

/// `pat` occurs in `s` starting at position `i`.
pub open spec fn contains_at(s: Seq<u8>, i: int, pat: Seq<u8>) -> bool {
    0 <= i && i + pat.len() <= s.len() && s.subrange(i, i + pat.len()) == pat
}

/// `pat` occurs somewhere in `s` as a contiguous subsequence.
pub open spec fn spec_contains(s: Seq<u8>, pat: Seq<u8>) -> bool {
    exists|i: int| contains_at(s, i, pat)
}

/// Copy `s[lo..hi]` into a fresh vector.
pub fn slice_range_to_vec(s: &[u8], lo: usize, hi: usize) -> (r: Vec<u8>)
    requires
        lo <= hi <= s@.len(),
    ensures
        r@ == s@.subrange(lo as int, hi as int),
{
    let mut out: Vec<u8> = Vec::new();
    let mut i: usize = lo;
    while i < hi
        invariant
            lo <= i <= hi <= s@.len(),
            out@ == s@.subrange(lo as int, i as int),
        decreases hi - i,
    {
        out.push(s[i]);
        i = i + 1;
        proof {
            assert(out@ =~= s@.subrange(lo as int, i as int));
        }
    }
    out
}

/// Whether two byte slices hold the same bytes.
pub fn bytes_eq(a: &[u8], b: &[u8]) -> (r: bool)
    ensures
        r == (a@ == b@),
{
    if a.len() != b.len() {
        return false;
    }
    let n = a.len();
    let mut i: usize = 0;
    while i < n
        invariant
            i <= n,
            n == a@.len() == b@.len(),
            forall|j: int| 0 <= j < i ==> a@[j] == b@[j],
        decreases n - i,
    {
        if a[i] != b[i] {
            return false;
        }
        i = i + 1;
    }
    proof {
        assert(a@ =~= b@);
    }
    true
}

/// Find the first occurrence of `b` in `s` at or after `from`.
pub fn find_byte(s: &[u8], from: usize, b: u8) -> (r: Option<usize>)
    requires
        from <= s@.len(),
    ensures
        match r {
            Some(i) => from <= i < s@.len() && spec_find(s@, from as int, b) == Some(i as int),
            None => spec_find(s@, from as int, b) is None,
        },
{
    let n = s.len();
    let mut i: usize = from;
    while i < n
        invariant
            from <= i <= n,
            n == s@.len(),
            spec_find(s@, from as int, b) == spec_find(s@, i as int, b),
        decreases n - i,
    {
        if s[i] == b {
            return Some(i);
        }
        i = i + 1;
    }
    None
}

proof fn lemma_trim_start_subrange(s: Seq<u8>, lo: int, hi: int)
    requires
        0 <= lo < hi <= s.len(),
        is_ws(s[lo]),
    ensures
        spec_trim_start(s.subrange(lo, hi)) == spec_trim_start(s.subrange(lo + 1, hi)),
{
    assert(s.subrange(lo, hi).drop_first() =~= s.subrange(lo + 1, hi));
}

proof fn lemma_trim_end_subrange(s: Seq<u8>, lo: int, hi: int)
    requires
        0 <= lo < hi <= s.len(),
        is_ws(s[hi - 1]),
    ensures
        spec_trim_end(s.subrange(lo, hi)) == spec_trim_end(s.subrange(lo, hi - 1)),
{
    assert(s.subrange(lo, hi).drop_last() =~= s.subrange(lo, hi - 1));
}

/// Copy `s[lo..hi]` with leading and trailing whitespace removed.
pub fn trim_to_vec(s: &[u8], lo: usize, hi: usize) -> (r: Vec<u8>)
    requires
        lo <= hi <= s@.len(),
    ensures
        r@ == spec_trim(s@.subrange(lo as int, hi as int)),
{
    let mut a: usize = lo;
    let mut b: usize = hi;
    while a < b && is_ws_byte(s[a])
        invariant
            lo <= a <= b <= hi <= s@.len(),
            b == hi,
            spec_trim_start(s@.subrange(lo as int, hi as int)) == spec_trim_start(
                s@.subrange(a as int, b as int),
            ),
        decreases b - a,
    {
        proof {
            lemma_trim_start_subrange(s@, a as int, b as int);
        }
        a = a + 1;
    }
    proof {
        assert(spec_trim_start(s@.subrange(a as int, b as int)) == s@.subrange(
            a as int,
            b as int,
        ));
    }
    while a < b && is_ws_byte(s[b - 1])
        invariant
            lo <= a <= b <= hi <= s@.len(),
            spec_trim(s@.subrange(lo as int, hi as int)) == spec_trim_end(
                s@.subrange(a as int, b as int),
            ),
        decreases b - a,
    {
        proof {
            lemma_trim_end_subrange(s@, a as int, b as int);
        }
        b = b - 1;
    }
    proof {
        assert(spec_trim_end(s@.subrange(a as int, b as int)) == s@.subrange(a as int, b as int));
    }
    slice_range_to_vec(s, a, b)
}

/// Trimming never lengthens a byte string.
pub proof fn lemma_trim_start_len(s: Seq<u8>)
    ensures
        spec_trim_start(s).len() <= s.len(),
        s.len() > 0 && is_ws(s[0]) ==> spec_trim_start(s).len() < s.len(),
    decreases s.len(),
{
    if s.len() > 0 && is_ws(s[0]) {
        lemma_trim_start_len(s.drop_first());
    }
}

/// Trimming never lengthens a byte string.
pub proof fn lemma_trim_end_len(s: Seq<u8>)
    ensures
        spec_trim_end(s).len() <= s.len(),
        s.len() > 0 && is_ws(s[s.len() - 1]) ==> spec_trim_end(s).len() < s.len(),
    decreases s.len(),
{
    if s.len() > 0 && is_ws(s[s.len() - 1]) {
        lemma_trim_end_len(s.drop_last());
    }
}

/// A byte string that trimming leaves unchanged is already free of leading
/// and of trailing whitespace.
pub proof fn lemma_trim_stable(s: Seq<u8>)
    requires
        spec_trim(s) == s,
    ensures
        spec_trim_start(s) == s,
        spec_trim_end(s) == s,
{
    lemma_trim_start_len(s);
    lemma_trim_end_len(spec_trim_start(s));
    if s.len() > 0 && is_ws(s[0]) {
        assert(spec_trim(s).len() < s.len());
    }
    lemma_trim_end_len(s);
}

/// When `b` first occurs at `j` looking from `i`, the search finds `j`.
pub proof fn lemma_find_at(s: Seq<u8>, i: int, j: int, b: u8)
    requires
        0 <= i <= j < s.len(),
        s[j] == b,
        forall|t: int| i <= t < j ==> s[t] != b,
    ensures
        spec_find(s, i, b) == Some(j),
    decreases j - i,
{
    if i < j {
        lemma_find_at(s, i + 1, j, b);
    }
}

/// A successful search is not disturbed by bytes appended afterwards.
pub proof fn lemma_find_prefix(s1: Seq<u8>, s2: Seq<u8>, i: int, b: u8)
    requires
        0 <= i,
        spec_find(s1, i, b) is Some,
    ensures
        spec_find(s1 + s2, i, b) == spec_find(s1, i, b),
    decreases s1.len() - i,
{
    assert(i < s1.len());
    assert((s1 + s2)[i] == s1[i]);
    if s1[i] != b {
        lemma_find_prefix(s1, s2, i + 1, b);
    }
}

/// A byte string holding a non-whitespace byte does not trim to nothing.
pub proof fn lemma_trim_keeps_nonws(s: Seq<u8>, t: int)
    requires
        0 <= t < s.len(),
        !is_ws(s[t]),
    ensures
        spec_trim(s).len() > 0,
{
    lemma_trim_start_keeps_nonws(s, t);
    let u = choose|u: int| 0 <= u < spec_trim_start(s).len() && !is_ws(spec_trim_start(s)[u]);
    lemma_trim_end_keeps_nonws(spec_trim_start(s), u);
}

proof fn lemma_trim_start_keeps_nonws(s: Seq<u8>, t: int)
    requires
        0 <= t < s.len(),
        !is_ws(s[t]),
    ensures
        exists|u: int|
            0 <= u < spec_trim_start(s).len() && !is_ws(#[trigger] spec_trim_start(s)[u]),
    decreases s.len(),
{
    if s.len() > 0 && is_ws(s[0]) {
        lemma_trim_start_keeps_nonws(s.drop_first(), t - 1);
        let u = choose|u: int|
            0 <= u < spec_trim_start(s.drop_first()).len() && !is_ws(
                #[trigger] spec_trim_start(s.drop_first())[u],
            );
        assert(!is_ws(spec_trim_start(s)[u]));
    } else {
        assert(!is_ws(spec_trim_start(s)[t]));
    }
}

proof fn lemma_trim_end_keeps_nonws(s: Seq<u8>, t: int)
    requires
        0 <= t < s.len(),
        !is_ws(s[t]),
    ensures
        spec_trim_end(s).len() > 0,
    decreases s.len(),
{
    if s.len() > 0 && is_ws(s[s.len() - 1]) {
        lemma_trim_end_keeps_nonws(s.drop_last(), t);
    }
}

/// Trimming a byte string that a single space precedes gives the string
/// itself, when it is already trimmed.
pub proof fn lemma_trim_space_prefix(v: Seq<u8>)
    requires
        spec_trim(v) == v,
    ensures
        spec_trim(seq![32u8] + v) == v,
{
    assert((seq![32u8] + v).drop_first() =~= v);
    lemma_trim_stable(v);
}

/// Append the bytes of `s` to `out`.
pub fn append_bytes(out: &mut Vec<u8>, s: &[u8])
    ensures
        final(out)@ == old(out)@ + s@,
{
    let n = s.len();
    let mut i: usize = 0;
    while i < n
        invariant
            i <= n,
            n == s@.len(),
            out@ == old(out)@ + s@.take(i as int),
        decreases n - i,
    {
        out.push(s[i]);
        i = i + 1;
        proof {
            assert(out@ =~= old(out)@ + s@.take(i as int));
        }
    }
    proof {
        assert(old(out)@ + s@.take(n as int) =~= old(out)@ + s@);
    }
}

/// Whether `b` is an ASCII whitespace byte.
pub fn is_ws_byte(b: u8) -> (r: bool)
    ensures
        r == is_ws(b),
{
    b == 9 || b == 10 || b == 11 || b == 12 || b == 13 || b == 32
}

/// Whether `pat` occurs in `s` at position `i`.
pub fn matches_at(s: &[u8], i: usize, pat: &[u8]) -> (r: bool)
    requires
        i <= s@.len(),
    ensures
        r == contains_at(s@, i as int, pat@),
{
    let n = s.len();
    let m = pat.len();
    if m > n - i {
        return false;
    }
    let mut j: usize = 0;
    while j < m
        invariant
            j <= m,
            i + m <= n,
            n == s@.len(),
            m == pat@.len(),
            forall|t: int| 0 <= t < j ==> s@[i + t] == pat@[t],
        decreases m - j,
    {
        if s[i + j] != pat[j] {
            proof {
                assert(s@.subrange(i as int, i + m) != pat@) by {
                    assert(s@.subrange(i as int, i + m)[j as int] != pat@[j as int]);
                }
            }
            return false;
        }
        j = j + 1;
    }
    proof {
        assert(s@.subrange(i as int, i + m) =~= pat@);
    }
    true
}

/// Whether `pat` occurs anywhere in `s`.
pub fn contains_seq(s: &[u8], pat: &[u8]) -> (r: bool)
    ensures
        r == spec_contains(s@, pat@),
{
    let n = s.len();
    let m = pat.len();
    if m == 0 {
        proof {
            assert(contains_at(s@, 0, pat@)) by {
                assert(s@.subrange(0, 0) =~= pat@);
            }
        }
        return true;
    }
    if m > n {
        proof {
            assert forall|i: int| !contains_at(s@, i, pat@) by {}
        }
        return false;
    }
    let mut i: usize = 0;
    while i <= n - m
        invariant
            0 < m <= n,
            n == s@.len(),
            m == pat@.len(),
            i <= n - m + 1,
            forall|t: int| 0 <= t < i ==> !contains_at(s@, t, pat@),
        decreases n - i,
    {
        if matches_at(s, i, pat) {
            proof {
                assert(spec_contains(s@, pat@)) by {
                    assert(contains_at(s@, i as int, pat@));
                }
            }
            return true;
        }
        i = i + 1;
    }
    proof {
        assert forall|t: int| !contains_at(s@, t, pat@) by {
            if 0 <= t && t + pat@.len() <= s@.len() {
                assert(t < i);
            }
        }
    }
    false
}

/// The value of an ASCII hexadecimal digit, upper or lower case.
pub open spec fn hex_val(b: u8) -> Option<u8> {
    if 48 <= b <= 57 {
        Some((b - 48) as u8)
    } else if 65 <= b <= 70 {
        Some((b - 55) as u8)
    } else if 97 <= b <= 102 {
        Some((b - 87) as u8)
    } else {
        None
    }
}

/// Percent-decoding of `s`: each `%hh` escape with two hexadecimal digits
/// becomes the byte it denotes; a `%` followed by fewer than two bytes is
/// kept literally together with the rest; a `%` whose first following byte is
/// not a hexadecimal digit is kept literally and scanning resumes at that
/// byte; when only the second is not, the `%` and the first byte are kept
/// and scanning resumes after them. An unencoded `+` is preserved.
pub open spec fn spec_percent_decode(s: Seq<u8>) -> Seq<u8>
    decreases s.len(),
{
    if s.len() == 0 {
        s
    } else if s[0] != 37 {
        seq![s[0]] + spec_percent_decode(s.drop_first())
    } else if s.len() < 3 {
        s
    } else {
        match (hex_val(s[1]), hex_val(s[2])) {
            (Some(h), Some(l)) => seq![(h * 16 + l) as u8] + spec_percent_decode(s.skip(3)),
            (Some(h), None) => seq![37u8, s[1]] + spec_percent_decode(s.skip(2)),
            (None, _) => seq![37u8] + spec_percent_decode(s.skip(1)),
        }
    }
}

/// Percent-decoding leaves a byte string without `%` unchanged; in
/// particular a body from which one decode removed every escape is not
/// decoded any further.
pub proof fn lemma_percent_decode_identity(s: Seq<u8>)
    requires
        forall|i: int| 0 <= i < s.len() ==> s[i] != 37,
    ensures
        spec_percent_decode(s) == s,
    decreases s.len(),
{
    if s.len() > 0 {
        lemma_percent_decode_identity(s.drop_first());
        assert(seq![s[0]] + s.drop_first() =~= s);
    }
}

/// Whether `b` is an ASCII decimal digit.
pub open spec fn is_digit(b: u8) -> bool {
    48 <= b <= 57
}

/// Every byte of `s` is an ASCII decimal digit.
pub open spec fn all_digits(s: Seq<u8>) -> bool {
    forall|i: int| 0 <= i < s.len() ==> is_digit(#[trigger] s[i])
}

/// The number the digit string `s` denotes in base ten.
pub open spec fn digits_val(s: Seq<u8>) -> int
    decreases s.len(),
{
    if s.len() == 0 {
        0
    } else {
        digits_val(s.drop_last()) * 10 + (s.last() - 48)
    }
}

/// The digit part of `s` under Rust's `usize` grammar: `s` without its
/// optional leading `+`.
pub open spec fn usize_digits(s: Seq<u8>) -> Seq<u8> {
    if s.len() > 0 && s[0] == 43 {
        s.drop_first()
    } else {
        s
    }
}

/// The value of `s` under Rust's `usize` grammar: an optional leading `+`,
/// then one or more digits, denoting a value that fits in `usize`.
pub open spec fn spec_parse_usize(s: Seq<u8>) -> Option<usize> {
    let d = usize_digits(s);
    if d.len() > 0 && all_digits(d) && digits_val(d) <= usize::MAX {
        Some(digits_val(d) as usize)
    } else {
        None
    }
}

proof fn lemma_digits_val_nonneg(s: Seq<u8>)
    requires
        all_digits(s),
    ensures
        digits_val(s) >= 0,
    decreases s.len(),
{
    if s.len() > 0 {
        assert(all_digits(s.drop_last())) by {
            assert(forall|i: int|
                0 <= i < s.drop_last().len() ==> s.drop_last()[i] == #[trigger] s[i]);
        }
        lemma_digits_val_nonneg(s.drop_last());
    }
}

proof fn lemma_digits_val_prefix(s: Seq<u8>, m: int)
    requires
        all_digits(s),
        0 <= m <= s.len(),
    ensures
        digits_val(s) >= digits_val(s.take(m)),
    decreases s.len() - m,
{
    if m < s.len() {
        lemma_digits_val_prefix(s, m + 1);
        assert(s.take(m + 1).drop_last() =~= s.take(m));
        assert(all_digits(s.take(m))) by {
            assert(forall|i: int| 0 <= i < m ==> s.take(m)[i] == #[trigger] s[i]);
        }
        lemma_digits_val_nonneg(s.take(m));
        assert(digits_val(s.take(m + 1)) == digits_val(s.take(m)) * 10 + (s[m] - 48));
    } else {
        assert(s.take(m) =~= s);
    }
}

/// Parse `s` as a non-negative decimal integer, exactly as Rust's
/// `usize::from_str` does: an optional leading `+`, then digits; anything
/// else, or a value that does not fit, is rejected.
pub fn parse_usize(s: &[u8]) -> (r: Option<usize>)
    ensures
        r == spec_parse_usize(s@),
{
    let n = s.len();
    let start: usize = if n > 0 && s[0] == 43 {
        1
    } else {
        0
    };
    proof {
        assert(usize_digits(s@) =~= s@.subrange(start as int, n as int));
    }
    if start >= n {
        return None;
    }
    let ghost d = usize_digits(s@);
    let mut acc: usize = 0;
    let mut j: usize = start;
    while j < n
        invariant
            start <= j <= n,
            start <= 1,
            n == s@.len(),
            d == usize_digits(s@),
            d == s@.subrange(start as int, n as int),
            all_digits(s@.subrange(start as int, j as int)),
            acc == digits_val(s@.subrange(start as int, j as int)),
        decreases n - j,
    {
        let b = s[j];
        if b < 48 || b > 57 {
            proof {
                assert(!all_digits(d)) by {
                    assert(!is_digit(d[j - start]));
                }
            }
            return None;
        }
        let digit = (b - 48) as usize;
        if acc > (usize::MAX - digit) / 10 {
            proof {
                let p = s@.subrange(start as int, (j + 1) as int);
                assert(p.drop_last() =~= s@.subrange(start as int, j as int));
                assert(all_digits(p)) by {
                    assert(forall|i: int|
                        0 <= i < p.len() ==> p[i] == #[trigger] s@[start + i]);
                }
                assert(digits_val(p) == acc * 10 + digit);
                assert(acc * 10 + digit > usize::MAX) by (nonlinear_arith)
                    requires
                        acc > (usize::MAX - digit) / 10,
                        0 <= digit <= 9,
                {}
                if all_digits(d) {
                    assert(p =~= d.take(j + 1 - start));
                    lemma_digits_val_prefix(d, j + 1 - start);
                }
            }
            return None;
        }
        proof {
            let p = s@.subrange(start as int, (j + 1) as int);
            assert(p.drop_last() =~= s@.subrange(start as int, j as int));
            assert(p.last() == s@[j as int]);
            assert(all_digits(p)) by {
                assert(forall|i: int| 0 <= i < p.len() ==> p[i] == #[trigger] s@[start + i]);
            }
            assert(acc * 10 + digit <= usize::MAX) by (nonlinear_arith)
                requires
                    acc <= (usize::MAX - digit) / 10,
                    0 <= digit <= 9,
            {}
        }
        acc = acc * 10 + digit;
        j = j + 1;
    }
    proof {
        assert(s@.subrange(start as int, n as int) == d);
    }
    Some(acc)
}

/// The shortest base-ten rendering of `n`.
pub open spec fn spec_decimal(n: int) -> Seq<u8>
    decreases n,
{
    if n < 10 {
        seq![(48 + n) as u8]
    } else {
        spec_decimal(n / 10).push((48 + n % 10) as u8)
    }
}

/// Render `n` in base ten.
pub fn decimal_bytes(n: usize) -> (r: Vec<u8>)
    ensures
        r@ == spec_decimal(n as int),
{
    let mut digits: Vec<u8> = Vec::new();
    let mut m: usize = n;
    while m >= 10
        invariant
            spec_decimal(n as int) == spec_decimal(m as int) + digits@.reverse(),
        decreases m,
    {
        let d = (48 + (m % 10)) as u8;
        proof {
            assert(digits@.push(d).reverse() =~= seq![d] + digits@.reverse());
        }
        digits.push(d);
        m = m / 10;
    }
    proof {
        assert(digits@.push((48 + (m % 10)) as u8).reverse() =~= seq![(48 + (m % 10)) as u8]
            + digits@.reverse());
        assert(m % 10 == m as int);
    }
    digits.push((48 + (m % 10)) as u8);
    let k = digits.len();
    let mut out: Vec<u8> = Vec::new();
    let mut i: usize = 0;
    while i < k
        invariant
            i <= k,
            k == digits@.len(),
            out@ == digits@.reverse().take(i as int),
        decreases k - i,
    {
        out.push(digits[k - 1 - i]);
        i = i + 1;
        proof {
            assert(out@ =~= digits@.reverse().take(i as int));
        }
    }
    proof {
        assert(digits@.reverse().take(k as int) =~= digits@.reverse());
    }
    out
}

} // verus!
