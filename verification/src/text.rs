//! Character-level text operations with their meaning stated over `Seq<char>`.

use vstd::prelude::*;
use vstd::string::*;

verus! {

// ----------------------------------------------------------------------
// Specifications
// ----------------------------------------------------------------------

/// The character sequences of a list of strings.
pub open spec fn views_of(v: Seq<String>) -> Seq<Seq<char>> {
    v.map_values(|s: String| s@)
}

/// Unicode `White_Space`, the set that `char::is_whitespace` tests.
pub open spec fn is_ws(c: char) -> bool {
    ||| ('\u{9}' <= c && c <= '\u{d}')
    ||| c == ' '
    ||| c == '\u{85}'
    ||| c == '\u{a0}'
    ||| c == '\u{1680}'
    ||| ('\u{2000}' <= c && c <= '\u{200a}')
    ||| c == '\u{2028}'
    ||| c == '\u{2029}'
    ||| c == '\u{202f}'
    ||| c == '\u{205f}'
    ||| c == '\u{3000}'
}

/// `s` with leading white space removed.
pub open spec fn trim_start_s(s: Seq<char>) -> Seq<char>
    decreases s.len(),
{
    if s.len() > 0 && is_ws(s[0]) {
        trim_start_s(s.drop_first())
    } else {
        s
    }
}

/// `s` with trailing white space removed.
pub open spec fn trim_end_s(s: Seq<char>) -> Seq<char>
    decreases s.len(),
{
    if s.len() > 0 && is_ws(s.last()) {
        trim_end_s(s.drop_last())
    } else {
        s
    }
}

/// `s` with white space removed at both ends (what `str::trim` returns).
pub open spec fn trim_s(s: Seq<char>) -> Seq<char> {
    trim_end_s(trim_start_s(s))
}

/// `pat` occurs in `s` at position `i`.
pub open spec fn occurs_at(s: Seq<char>, pat: Seq<char>, i: int) -> bool {
    0 <= i && i + pat.len() <= s.len() && s.subrange(i, i + pat.len()) == pat
}

/// `pat` occurs somewhere in `s` (what `str::contains` tests).
pub open spec fn contains_s(s: Seq<char>, pat: Seq<char>) -> bool {
    exists|i: int| occurs_at(s, pat, i)
}

/// `s` begins with `p`.
pub open spec fn starts_with_s(s: Seq<char>, p: Seq<char>) -> bool {
    p.len() <= s.len() && s.take(p.len() as int) == p
}

/// `c` does not occur in `s`.
pub open spec fn lacks_char(s: Seq<char>, c: char) -> bool {
    forall|k: int| 0 <= k < s.len() ==> s[k] != c
}

/// Index of the first occurrence of `c` in `s`.
pub open spec fn first_index_of(s: Seq<char>, c: char) -> Option<int>
    decreases s.len(),
{
    if s.len() == 0 {
        None
    } else if s[0] == c {
        Some(0)
    } else {
        match first_index_of(s.drop_first(), c) {
            Some(i) => Some(i + 1),
            None => None,
        }
    }
}

/// What `str::split_once(c)` returns: the parts before and after the first `c`.
pub open spec fn split_once_s(s: Seq<char>, c: char) -> Option<(Seq<char>, Seq<char>)> {
    match first_index_of(s, c) {
        Some(i) => Some((s.take(i), s.skip(i + 1))),
        None => None,
    }
}

pub open spec fn is_digit(c: char) -> bool {
    '0' <= c && c <= '9'
}

pub open spec fn all_digits(s: Seq<char>) -> bool {
    forall|k: int| 0 <= k < s.len() ==> is_digit(#[trigger] s[k])
}

pub open spec fn digit_value(c: char) -> nat {
    (c as int - '0' as int) as nat
}

/// The number that a string of decimal digits denotes.
pub open spec fn decimal_value(s: Seq<char>) -> nat
    decreases s.len(),
{
    if s.len() == 0 {
        0
    } else {
        decimal_value(s.drop_last()) * 10 + digit_value(s.last())
    }
}

/// The magnitude part of an unsigned number text: an optional `+` is dropped.
pub open spec fn unsigned_body(s: Seq<char>) -> Seq<char> {
    if s.len() > 0 && s[0] == '+' {
        s.skip(1)
    } else {
        s
    }
}

/// What `str::parse` returns for an unsigned integer type whose largest value
/// is `max`: an optional `+`, then one or more ASCII digits, value at most `max`.
pub open spec fn parse_unsigned_s(s: Seq<char>, max: nat) -> Option<nat> {
    let b = unsigned_body(s);
    if b.len() > 0 && all_digits(b) && decimal_value(b) <= max {
        Some(decimal_value(b))
    } else {
        None
    }
}

/// What `str::parse::<i64>` returns: an optional sign, one or more ASCII
/// digits, value within the range of `i64`.
pub open spec fn parse_i64_s(s: Seq<char>) -> Option<int> {
    if s.len() > 0 && s[0] == '-' {
        let b = s.skip(1);
        if b.len() > 0 && all_digits(b) && decimal_value(b) <= 0x8000_0000_0000_0000 {
            Some(-(decimal_value(b) as int))
        } else {
            None
        }
    } else {
        match parse_unsigned_s(s, 0x7fff_ffff_ffff_ffff) {
            Some(n) => Some(n as int),
            None => None,
        }
    }
}

// ----------------------------------------------------------------------
// Lemmas
// ----------------------------------------------------------------------

pub proof fn lemma_decimal_prefix_le(s: Seq<char>, k: int)
    requires
        0 <= k <= s.len(),
    ensures
        decimal_value(s.take(k)) <= decimal_value(s),
    decreases s.len(),
{
    if k < s.len() {
        lemma_decimal_prefix_le(s.drop_last(), k);
        assert(s.drop_last().take(k) =~= s.take(k));
    } else {
        assert(s.take(k) =~= s);
    }
}

pub proof fn lemma_decimal_step(s: Seq<char>, i: int)
    requires
        0 <= i < s.len(),
    ensures
        decimal_value(s.take(i + 1)) == decimal_value(s.take(i)) * 10 + digit_value(s[i]),
{
    assert(s.take(i + 1).drop_last() =~= s.take(i));
}

proof fn lemma_trim_start_skip(s: Seq<char>, i: int)
    requires
        0 <= i <= s.len(),
        forall|k: int| 0 <= k < i ==> is_ws(s[k]),
    ensures
        trim_start_s(s) == trim_start_s(s.skip(i)),
    decreases i,
{
    if i > 0 {
        assert(s.drop_first().skip(i - 1) =~= s.skip(i));
        lemma_trim_start_skip(s.drop_first(), i - 1);
    } else {
        assert(s.skip(0) =~= s);
    }
}

proof fn lemma_trim_end_take(s: Seq<char>, j: int)
    requires
        0 <= j <= s.len(),
        forall|k: int| j <= k < s.len() ==> is_ws(s[k]),
    ensures
        trim_end_s(s) == trim_end_s(s.take(j)),
    decreases s.len() - j,
{
    if j < s.len() {
        assert(s.drop_last().take(j) =~= s.take(j));
        lemma_trim_end_take(s.drop_last(), j);
    } else {
        assert(s.take(j) =~= s);
    }
}

// ----------------------------------------------------------------------
// Conversions between strings and character vectors
// ----------------------------------------------------------------------

/// The characters of `s`, in order.
pub fn chars_of(s: &str) -> (v: Vec<char>)
    ensures
        v@ == s@,
{
    let n = s.unicode_len();
    let mut v: Vec<char> = Vec::new();
    let mut i: usize = 0;
    while i < n
        invariant
            n == s@.len(),
            i <= n,
            v@ == s@.take(i as int),
        decreases n - i,
    {
        let c = s.get_char(i);
        v.push(c);
        i = i + 1;
        assert(v@ =~= s@.take(i as int));
    }
    assert(s@.take(n as int) =~= s@);
    v
}

/// Appends `c` to `s` (`String::push`).
#[verifier::external_body]
pub(crate) fn push_char(s: &mut String, c: char)
    ensures
        final(s)@ == old(s)@.push(c),
{
    s.push(c);
}

/// The string made of the characters `v[from..to]`.
pub fn string_of_range(v: &Vec<char>, from: usize, to: usize) -> (s: String)
    requires
        from <= to <= v@.len(),
    ensures
        s@ == v@.subrange(from as int, to as int),
{
    let mut s = String::new();
    let mut i = from;
    while i < to
        invariant
            from <= i <= to,
            to <= v@.len(),
            s@ == v@.subrange(from as int, i as int),
        decreases to - i,
    {
        push_char(&mut s, v[i]);
        i = i + 1;
        assert(s@ =~= v@.subrange(from as int, i as int));
    }
    s
}

/// The string made of the characters `v`.
pub fn string_of(v: &Vec<char>) -> (s: String)
    ensures
        s@ == v@,
{
    let s = string_of_range(v, 0, v.len());
    assert(v@.subrange(0, v@.len() as int) =~= v@);
    s
}

/// An owned copy of `s`.
pub fn owned(s: &str) -> (r: String)
    ensures
        r@ == s@,
{
    s.to_owned()
}

/// `a + b` as a new string.
pub fn concat(a: &str, b: &str) -> (r: String)
    ensures
        r@ == a@ + b@,
{
    let mut r = a.to_owned();
    r.append(b);
    r
}

/// Appends the characters of `b` to `s`.
pub fn append_str(s: &mut String, b: &str)
    ensures
        final(s)@ == old(s)@ + b@,
{
    s.append(b);
}

// ----------------------------------------------------------------------
// Comparisons and searches
// ----------------------------------------------------------------------

/// Character-wise equality.
pub fn seq_eq(a: &Vec<char>, b: &Vec<char>) -> (r: bool)
    ensures
        r == (a@ == b@),
{
    if a.len() != b.len() {
        return false;
    }
    let mut i: usize = 0;
    while i < a.len()
        invariant
            a@.len() == b@.len(),
            i <= a@.len(),
            a@.take(i as int) == b@.take(i as int),
        decreases a.len() - i,
    {
        if a[i] != b[i] {
            assert(a@[i as int] != b@[i as int]);
            return false;
        }
        assert(a@.take(i + 1) =~= a@.take(i as int).push(a@[i as int]));
        assert(b@.take(i + 1) =~= b@.take(i as int).push(b@[i as int]));
        i = i + 1;
    }
    assert(a@.take(a@.len() as int) =~= a@);
    assert(b@.take(b@.len() as int) =~= b@);
    true
}

/// `a == b` for string slices.
pub fn str_eq(a: &str, b: &str) -> (r: bool)
    ensures
        r == (a@ == b@),
{
    let x = a.to_owned();
    let y = b.to_owned();
    x == y
}

/// Whether `pat` occurs in `s` at position `i`.
pub fn occurs_at_exec(s: &Vec<char>, pat: &Vec<char>, i: usize) -> (r: bool)
    ensures
        r == occurs_at(s@, pat@, i as int),
{
    let sl = s.len();
    if i > sl || pat.len() > sl - i {
        return false;
    }
    let mut k: usize = 0;
    while k < pat.len()
        invariant
            sl == s@.len(),
            i + pat@.len() <= s@.len(),
            k <= pat@.len(),
            forall|m: int| 0 <= m < k ==> s@[i + m] == pat@[m],
        decreases pat.len() - k,
    {
        if s[i + k] != pat[k] {
            assert(s@.subrange(i as int, i + pat@.len())[k as int] != pat@[k as int]);
            return false;
        }
        k = k + 1;
    }
    assert(s@.subrange(i as int, i + pat@.len()) =~= pat@);
    true
}

/// Whether `pat` occurs somewhere in `s`.
pub fn contains_vec(s: &Vec<char>, pat: &Vec<char>) -> (r: bool)
    ensures
        r == contains_s(s@, pat@),
{
    if pat.len() > s.len() {
        assert forall|i: int| !occurs_at(s@, pat@, i) by {}
        return false;
    }
    let last = s.len() - pat.len();
    let mut i: usize = 0;
    while i < last
        invariant
            last == s@.len() - pat@.len(),
            i <= last,
            forall|j: int| 0 <= j < i ==> !occurs_at(s@, pat@, j),
        decreases last - i,
    {
        if occurs_at_exec(s, pat, i) {
            return true;
        }
        i = i + 1;
    }
    if occurs_at_exec(s, pat, last) {
        return true;
    }
    assert forall|j: int| !occurs_at(s@, pat@, j) by {
        if 0 <= j < i {
        }
    }
    false
}

/// `s.contains(pat)` for string slices.
pub fn contains_str(s: &str, pat: &str) -> (r: bool)
    ensures
        r == contains_s(s@, pat@),
{
    let sv = chars_of(s);
    let pv = chars_of(pat);
    contains_vec(&sv, &pv)
}

/// `s.starts_with(p)`.
pub fn starts_with_str(s: &str, p: &str) -> (r: bool)
    ensures
        r == starts_with_s(s@, p@),
{
    let sv = chars_of(s);
    let pv = chars_of(p);
    let r = occurs_at_exec(&sv, &pv, 0);
    assert(sv@.subrange(0, pv@.len() as int) =~= sv@.take(pv@.len() as int));
    r
}

/// Index of the first `c` in `v`.
pub fn find_char(v: &Vec<char>, c: char) -> (r: Option<usize>)
    ensures
        match r {
            Some(i) => i < v@.len() && v@[i as int] == c && lacks_char(v@.take(i as int), c)
                && first_index_of(v@, c) == Some(i as int),
            None => first_index_of(v@, c) is None && lacks_char(v@, c),
        },
{
    let mut i: usize = 0;
    while i < v.len()
        invariant
            i <= v@.len(),
            lacks_char(v@.take(i as int), c),
        decreases v.len() - i,
    {
        if v[i] == c {
            proof {
                lemma_first_index(v@, c, i as int);
            }
            return Some(i);
        }
        assert(v@.take(i + 1) =~= v@.take(i as int).push(c_at(v@, i as int)));
        i = i + 1;
    }
    assert(v@.take(v@.len() as int) =~= v@);
    proof {
        lemma_no_index(v@, c);
    }
    None
}

spec fn c_at(s: Seq<char>, i: int) -> char {
    s[i]
}

/// The first occurrence of `c` is at `i` when `s[i] == c` and no earlier
/// character is `c`.
pub proof fn lemma_first_index(s: Seq<char>, c: char, i: int)
    requires
        0 <= i < s.len(),
        s[i] == c,
        lacks_char(s.take(i), c),
    ensures
        first_index_of(s, c) == Some(i),
    decreases i,
{
    if i > 0 {
        assert(s.take(i)[0] == s[0]);
        assert(s.drop_first().take(i - 1) =~= s.take(i).drop_first());
        assert forall|k: int| 0 <= k < i - 1 implies #[trigger] s.drop_first().take(i - 1)[k] != c by {
            assert(s.drop_first().take(i - 1)[k] == s.take(i)[k + 1]);
        }
        lemma_first_index(s.drop_first(), c, i - 1);
    }
}

/// `c` has no first occurrence when it does not occur.
pub proof fn lemma_no_index(s: Seq<char>, c: char)
    requires
        lacks_char(s, c),
    ensures
        first_index_of(s, c) is None,
    decreases s.len(),
{
    if s.len() > 0 {
        assert forall|k: int| 0 <= k < s.len() - 1 implies #[trigger] s.drop_first()[k] != c by {
            assert(s.drop_first()[k] == s[k + 1]);
        }
        lemma_no_index(s.drop_first(), c);
    }
}

/// `s.split_once(c)`.
pub fn split_once_char(s: &str, c: char) -> (r: Option<(String, String)>)
    ensures
        match r {
            Some((a, b)) => split_once_s(s@, c) == Some((a@, b@)),
            None => split_once_s(s@, c) is None,
        },
{
    let v = chars_of(s);
    let n = v.len();
    match find_char(&v, c) {
        Some(i) => {
            let a = string_of_range(&v, 0, i);
            let b = string_of_range(&v, i + 1, n);
            assert(v@.subrange(0, i as int) =~= v@.take(i as int));
            assert(v@.subrange(i + 1, v@.len() as int) =~= v@.skip(i + 1));
            Some((a, b))
        },
        None => None,
    }
}

// ----------------------------------------------------------------------
// White space
// ----------------------------------------------------------------------

/// `c.is_whitespace()`.
pub fn is_ws_exec(c: char) -> (r: bool)
    ensures
        r == is_ws(c),
{
    ('\u{9}' <= c && c <= '\u{d}') || c == ' ' || c == '\u{85}' || c == '\u{a0}' || c
        == '\u{1680}' || ('\u{2000}' <= c && c <= '\u{200a}') || c == '\u{2028}' || c
        == '\u{2029}' || c == '\u{202f}' || c == '\u{205f}' || c == '\u{3000}'
}

/// Bounds of the trimmed part of `v`: `trim_s(v@) == v@[lo..hi]`.
pub fn trim_bounds(v: &Vec<char>) -> (r: (usize, usize))
    ensures
        r.0 <= r.1 <= v@.len(),
        trim_s(v@) == v@.subrange(r.0 as int, r.1 as int),
{
    let mut lo: usize = 0;
    while lo < v.len() && is_ws_exec(v[lo])
        invariant
            lo <= v@.len(),
            forall|k: int| 0 <= k < lo ==> is_ws(v@[k]),
        decreases v.len() - lo,
    {
        lo = lo + 1;
    }
    proof {
        lemma_trim_start_skip(v@, lo as int);
    }
    let ghost t = v@.skip(lo as int);
    assert(trim_start_s(t) == t);
    let mut hi: usize = v.len();
    while hi > lo && is_ws_exec(v[hi - 1])
        invariant
            lo <= hi <= v@.len(),
            forall|k: int| hi <= k < v@.len() ==> is_ws(v@[k]),
        decreases hi,
    {
        hi = hi - 1;
    }
    proof {
        let tt = v@.skip(lo as int);
        assert forall|k: int| hi - lo <= k < tt.len() implies is_ws(tt[k]) by {
            assert(tt[k] == v@[k + lo]);
        }
        lemma_trim_end_take(tt, hi - lo);
        assert(tt.take(hi - lo) =~= v@.subrange(lo as int, hi as int));
        let u = v@.subrange(lo as int, hi as int);
        if u.len() > 0 {
            assert(u.last() == v@[hi - 1]);
        }
    }
    (lo, hi)
}

/// `s.trim()` as an owned string.
pub fn trim(s: &str) -> (r: String)
    ensures
        r@ == trim_s(s@),
{
    let v = chars_of(s);
    let (lo, hi) = trim_bounds(&v);
    string_of_range(&v, lo, hi)
}

/// Whether `s.trim()` is empty.
pub fn is_blank(s: &str) -> (r: bool)
    ensures
        r == (trim_s(s@).len() == 0),
{
    let v = chars_of(s);
    let (lo, hi) = trim_bounds(&v);
    lo == hi
}

// ----------------------------------------------------------------------
// Integer parsing
// ----------------------------------------------------------------------

/// Value of the digit string `v[from..]` if it is non-empty, made of ASCII
/// digits and at most `max`.
fn parse_digits(v: &Vec<char>, from: usize, max: u64) -> (r: Option<u64>)
    requires
        from <= v@.len(),
        max >= 9,
    ensures
        ({
            let b = v@.skip(from as int);
            match r {
                Some(n) => b.len() > 0 && all_digits(b) && decimal_value(b) <= max
                    && n as nat == decimal_value(b),
                None => !(b.len() > 0 && all_digits(b) && decimal_value(b) <= max),
            }
        }),
{
    let ghost b = v@.skip(from as int);
    if from == v.len() {
        return None;
    }
    let mut acc: u64 = 0;
    let mut i: usize = from;
    while i < v.len()
        invariant
            from <= i <= v@.len(),
            b == v@.skip(from as int),
            all_digits(b.take(i - from)),
            acc as nat == decimal_value(b.take(i - from)),
            acc <= max,
            max >= 9,
        decreases v.len() - i,
    {
        let c = v[i];
        if !('0' <= c && c <= '9') {
            assert(!is_digit(b[i - from]));
            return None;
        }
        let d = (c as u32 - '0' as u32) as u64;
        assert(d <= 9);
        proof {
            lemma_decimal_step(b, i - from);
            assert(b[i - from] == c);
        }
        if acc > (max - d) / 10 {
            proof {
                assert(acc * 10 + d > max) by (nonlinear_arith)
                    requires
                        acc > (max - d) / 10,
                        d <= 9,
                ;
                lemma_decimal_prefix_le(b, i - from + 1);
            }
            return None;
        }
        proof {
            assert(acc * 10 + d <= max) by (nonlinear_arith)
                requires
                    acc <= (max - d) / 10,
                    d <= max,
            ;
        }
        acc = acc * 10 + d;
        proof {
            assert(all_digits(b.take(i - from + 1))) by {
                assert forall|k: int| 0 <= k < i - from + 1 implies is_digit(
                    #[trigger] b.take(i - from + 1)[k],
                ) by {
                    if k < i - from {
                        assert(b.take(i - from + 1)[k] == b.take(i - from)[k]);
                    }
                }
            }
        }
        i = i + 1;
    }
    assert(b.take(i - from) =~= b);
    Some(acc)
}

/// `s.parse::<u64>().ok()`.
pub fn parse_u64(s: &str) -> (r: Option<u64>)
    ensures
        match r {
            Some(n) => parse_unsigned_s(s@, u64::MAX as nat) == Some(n as nat),
            None => parse_unsigned_s(s@, u64::MAX as nat) is None,
        },
{
    let v = chars_of(s);
    let from: usize = if v.len() > 0 && v[0] == '+' {
        1
    } else {
        0
    };
    assert(unsigned_body(s@) =~= v@.skip(from as int));
    parse_digits(&v, from, u64::MAX)
}

/// `s.parse::<u32>().ok()`.
pub fn parse_u32(s: &str) -> (r: Option<u32>)
    ensures
        match r {
            Some(n) => parse_unsigned_s(s@, u32::MAX as nat) == Some(n as nat),
            None => parse_unsigned_s(s@, u32::MAX as nat) is None,
        },
{
    match parse_u64(s) {
        Some(n) => {
            if n <= u32::MAX as u64 {
                Some(n as u32)
            } else {
                None
            }
        },
        None => None,
    }
}

/// `s.parse::<u8>().ok()`.
pub fn parse_u8(s: &str) -> (r: Option<u8>)
    ensures
        match r {
            Some(n) => parse_unsigned_s(s@, u8::MAX as nat) == Some(n as nat),
            None => parse_unsigned_s(s@, u8::MAX as nat) is None,
        },
{
    match parse_u64(s) {
        Some(n) => {
            if n <= u8::MAX as u64 {
                Some(n as u8)
            } else {
                None
            }
        },
        None => None,
    }
}

/// `s.parse::<i64>().ok()`.
pub fn parse_i64(s: &str) -> (r: Option<i64>)
    ensures
        match r {
            Some(n) => parse_i64_s(s@) == Some(n as int),
            None => parse_i64_s(s@) is None,
        },
{
    let v = chars_of(s);
    if v.len() > 0 && v[0] == '-' {
        match parse_digits(&v, 1, 0x8000_0000_0000_0000) {
            Some(n) => {
                if n == 0x8000_0000_0000_0000 {
                    Some(i64::MIN)
                } else {
                    Some(-(n as i64))
                }
            },
            None => None,
        }
    } else {
        let from: usize = if v.len() > 0 && v[0] == '+' {
            1
        } else {
            0
        };
        assert(unsigned_body(s@) =~= v@.skip(from as int));
        match parse_digits(&v, from, 0x7fff_ffff_ffff_ffff) {
            Some(n) => Some(n as i64),
            None => None,
        }
    }
}

// ----------------------------------------------------------------------
// Lists of strings
// ----------------------------------------------------------------------

/// Item-wise equality of two string lists.
pub fn strings_eq(a: &Vec<String>, b: &Vec<String>) -> (r: bool)
    ensures
        r == (views_of(a@) == views_of(b@)),
{
    if a.len() != b.len() {
        assert(views_of(a@).len() != views_of(b@).len());
        return false;
    }
    let mut i: usize = 0;
    while i < a.len()
        invariant
            a@.len() == b@.len(),
            i <= a@.len(),
            forall|k: int| 0 <= k < i ==> a@[k]@ == b@[k]@,
        decreases a.len() - i,
    {
        if a[i] != b[i] {
            assert(views_of(a@)[i as int] != views_of(b@)[i as int]);
            return false;
        }
        i = i + 1;
    }
    assert(views_of(a@) =~= views_of(b@));
    true
}

/// Whether `x` is one of the strings in `v`.
pub fn strings_contain(v: &Vec<String>, x: &str) -> (r: bool)
    ensures
        r == views_of(v@).contains(x@),
{
    let xs = owned(x);
    let mut i: usize = 0;
    while i < v.len()
        invariant
            i <= v@.len(),
            xs@ == x@,
            forall|k: int| 0 <= k < i ==> v@[k]@ != x@,
        decreases v.len() - i,
    {
        if v[i] == xs {
            assert(views_of(v@)[i as int] == x@);
            return true;
        }
        i = i + 1;
    }
    assert forall|k: int| 0 <= k < views_of(v@).len() implies views_of(v@)[k] != x@ by {
        assert(views_of(v@)[k] == v@[k]@);
    }
    false
}


// ----------------------------------------------------------------------
// Decimal text of integers
// ----------------------------------------------------------------------

/// The ASCII digit of `d` (for `d < 10`).
pub open spec fn digit_char(d: nat) -> char {
    if d == 0 {
        '0'
    } else if d == 1 {
        '1'
    } else if d == 2 {
        '2'
    } else if d == 3 {
        '3'
    } else if d == 4 {
        '4'
    } else if d == 5 {
        '5'
    } else if d == 6 {
        '6'
    } else if d == 7 {
        '7'
    } else if d == 8 {
        '8'
    } else {
        '9'
    }
}

/// The decimal text of `n`, without leading zeros (`"0"` for zero).
pub open spec fn dec_text(n: nat) -> Seq<char>
    decreases n,
{
    if n < 10 {
        seq![digit_char(n)]
    } else {
        dec_text(n / 10).push(digit_char(n % 10))
    }
}

/// The decimal text of a signed integer: a `-` before the magnitude when negative.
pub open spec fn signed_text(n: int) -> Seq<char> {
    if n < 0 {
        seq!['-'] + dec_text((-n) as nat)
    } else {
        dec_text(n as nat)
    }
}

fn digit_of(d: u128) -> (c: char)
    requires
        d < 10,
    ensures
        c == digit_char(d as nat),
{
    if d == 0 {
        '0'
    } else if d == 1 {
        '1'
    } else if d == 2 {
        '2'
    } else if d == 3 {
        '3'
    } else if d == 4 {
        '4'
    } else if d == 5 {
        '5'
    } else if d == 6 {
        '6'
    } else if d == 7 {
        '7'
    } else if d == 8 {
        '8'
    } else {
        '9'
    }
}

/// Appends the decimal text of `n` to `s`.
pub fn push_decimal(s: &mut String, n: u128)
    ensures
        final(s)@ == old(s)@ + dec_text(n as nat),
    decreases n,
{
    if n >= 10 {
        push_decimal(s, n / 10);
    }
    push_char(s, digit_of(n % 10));
    proof {
        if n >= 10 {
            assert(dec_text(n as nat) == dec_text((n / 10) as nat).push(digit_char((n % 10) as nat)));
        } else {
            assert(dec_text(n as nat) == seq![digit_char(n as nat)]);
        }
        assert(final(s)@ =~= old(s)@ + dec_text(n as nat));
    }
}

/// The decimal text of `n` with zeros in front up to `width` characters
/// (`format!("{:0width$}", n)`).
pub open spec fn zero_padded(n: nat, width: nat) -> Seq<char> {
    let d = dec_text(n);
    if d.len() >= width {
        d
    } else {
        Seq::new((width - d.len()) as nat, |i: int| '0') + d
    }
}

/// Appends the decimal text of `n` to `s`, with zeros in front up to `width`
/// characters.
pub fn push_padded(s: &mut String, n: u32, width: usize)
    ensures
        final(s)@ == old(s)@ + zero_padded(n as nat, width as nat),
{
    let mut d = String::new();
    push_decimal(&mut d, n as u128);
    assert(d@ =~= dec_text(n as nat));
    let len = d.as_str().unicode_len();
    let ghost s0 = s@;
    let mut k = len;
    while k < width
        invariant
            len <= k,
            len == d@.len(),
            k <= width || k == len,
            s@ == s0 + Seq::new((k - len) as nat, |i: int| '0'),
        decreases width - k,
    {
        push_char(s, '0');
        assert(s@ =~= s0 + Seq::new((k + 1 - len) as nat, |i: int| '0'));
        k = k + 1;
    }
    append_str(s, d.as_str());
    proof {
        if len >= width {
            assert(s@ =~= s0 + dec_text(n as nat));
        } else {
            assert(k == width);
            assert(s@ =~= s0 + (Seq::new((width - len) as nat, |i: int| '0') + dec_text(n as nat)));
        }
    }
}

/// `n.to_string()` for `u64`.
pub fn u64_text(n: u64) -> (r: String)
    ensures
        r@ == dec_text(n as nat),
{
    let mut s = String::new();
    push_decimal(&mut s, n as u128);
    assert(s@ =~= dec_text(n as nat));
    s
}

/// `n.to_string()` for `i64`.
pub fn i64_text(n: i64) -> (r: String)
    ensures
        r@ == signed_text(n as int),
{
    let mut s = String::new();
    if n < 0 {
        push_char(&mut s, '-');
        let m: u128 = (0i128 - (n as i128)) as u128;
        push_decimal(&mut s, m);
        assert(s@ =~= seq!['-'] + dec_text((-n) as nat));
    } else {
        push_decimal(&mut s, n as u128);
        assert(s@ =~= dec_text(n as nat));
    }
    s
}

/// `n.to_string()` for `i128`.
pub fn i128_text(n: i128) -> (r: String)
    ensures
        r@ == signed_text(n as int),
{
    let mut s = String::new();
    if n < 0 {
        push_char(&mut s, '-');
        let m: u128 = ((-(n + 1)) as u128) + 1;
        push_decimal(&mut s, m);
        assert(s@ =~= seq!['-'] + dec_text((-n) as nat));
    } else {
        push_decimal(&mut s, n as u128);
        assert(s@ =~= dec_text(n as nat));
    }
    s
}

// ----------------------------------------------------------------------
// Lines
// ----------------------------------------------------------------------

/// The pieces of `s` between `\n` characters, in order (one piece when
/// there is no `\n`).
pub open spec fn split_nl(s: Seq<char>) -> Seq<Seq<char>>
    decreases s.len(),
{
    match first_index_of(s, '\n') {
        None => seq![s],
        Some(i) => if 0 <= i < s.len() {
            seq![s.take(i)] + split_nl(s.skip(i + 1))
        } else {
            seq![s]
        },
    }
}

/// `s.split('\n')` as owned strings.
pub fn split_newlines(s: &str) -> (r: Vec<String>)
    ensures
        views_of(r@) == split_nl(s@),
{
    let v = chars_of(s);
    let n = v.len();
    let mut out: Vec<String> = Vec::new();
    let mut start: usize = 0;
    let mut i: usize = 0;
    assert(views_of(out@) =~= Seq::<Seq<char>>::empty());
    assert(v@.skip(0) =~= v@);
    assert(v@.subrange(0, 0) =~= Seq::<char>::empty());
    while i < n
        invariant
            n == v@.len(),
            v@ == s@,
            start <= i <= n,
            lacks_char(v@.subrange(start as int, i as int), '\n'),
            views_of(out@) + split_nl(v@.skip(start as int)) == split_nl(v@),
        decreases n - i,
    {
        if v[i] == '\n' {
            let piece = string_of_range(&v, start, i);
            proof {
                let t = v@.skip(start as int);
                let k = (i - start) as int;
                assert(t.take(k) =~= v@.subrange(start as int, i as int));
                assert(t[k] == '\n');
                lemma_first_index(t, '\n', k);
                assert(t.skip(k + 1) =~= v@.skip(i + 1));
                assert(split_nl(t) == seq![t.take(k)] + split_nl(t.skip(k + 1)));
                assert(views_of(out@.push(piece)) =~= views_of(out@).push(piece@));
                assert(views_of(out@).push(piece@) + split_nl(v@.skip(i + 1)) =~= views_of(out@) + (
                seq![t.take(k)] + split_nl(t.skip(k + 1))));
            }
            out.push(piece);
            start = i + 1;
            assert(v@.subrange(start as int, start as int) =~= Seq::<char>::empty());
        } else {
            assert(v@.subrange(start as int, i + 1) =~= v@.subrange(start as int, i as int).push(
                v@[i as int],
            ));
        }
        i = i + 1;
    }
    let last = string_of_range(&v, start, n);
    proof {
        let t = v@.skip(start as int);
        assert(t =~= v@.subrange(start as int, n as int));
        lemma_no_index(t, '\n');
        assert(split_nl(t) == seq![t]);
        assert(views_of(out@.push(last)) =~= views_of(out@) + split_nl(t));
    }
    out.push(last);
    out
}

// ----------------------------------------------------------------------
// Joining and tokens
// ----------------------------------------------------------------------

/// The strings of `l` with `sep` between neighbours.
pub open spec fn joined(l: Seq<Seq<char>>, sep: Seq<char>) -> Seq<char>
    decreases l.len(),
{
    if l.len() == 0 {
        Seq::empty()
    } else if l.len() == 1 {
        l[0]
    } else {
        joined(l.drop_last(), sep) + sep + l.last()
    }
}

/// `l.join(sep)`.
pub fn join_strings(l: &[String], sep: &str) -> (r: String)
    ensures
        r@ == joined(views_of(l@), sep@),
{
    let mut out = String::new();
    let mut i: usize = 0;
    assert(views_of(l@).take(0) =~= Seq::<Seq<char>>::empty());
    while i < l.len()
        invariant
            i <= l@.len(),
            out@ == joined(views_of(l@).take(i as int), sep@),
        decreases l.len() - i,
    {
        let ghost t = views_of(l@).take(i + 1);
        assert(t.drop_last() =~= views_of(l@).take(i as int));
        assert(t.last() == l@[i as int]@);
        if i > 0 {
            append_str(&mut out, sep);
        } else {
            assert(t =~= seq![l@[0]@]);
        }
        append_str(&mut out, l[i].as_str());
        assert(out@ =~= joined(t, sep@));
        i = i + 1;
    }
    assert(views_of(l@).take(l@.len() as int) =~= views_of(l@));
    out
}

/// A separator of ids: white space or a comma.
pub open spec fn is_id_sep(c: char) -> bool {
    is_ws(c) || c == ','
}

/// Scanning state over `s`: the finished tokens and the run being read.
pub open spec fn token_scan(s: Seq<char>) -> (Seq<Seq<char>>, Seq<char>)
    decreases s.len(),
{
    if s.len() == 0 {
        (Seq::empty(), Seq::empty())
    } else {
        let (done, cur) = token_scan(s.drop_last());
        let c = s.last();
        if is_id_sep(c) {
            if cur.len() > 0 {
                (done.push(cur), Seq::empty())
            } else {
                (done, Seq::empty())
            }
        } else {
            (done, cur.push(c))
        }
    }
}

/// The non-empty runs of `s` between separators (white space or commas).
pub open spec fn id_tokens(s: Seq<char>) -> Seq<Seq<char>> {
    let (done, cur) = token_scan(s);
    if cur.len() > 0 {
        done.push(cur)
    } else {
        done
    }
}

/// Splits on white space and commas, dropping empty pieces.
pub fn split_ids(s: &str) -> (r: Vec<String>)
    ensures
        views_of(r@) == id_tokens(s@),
{
    let v = chars_of(s);
    let mut out: Vec<String> = Vec::new();
    let mut start: usize = 0;
    let mut i: usize = 0;
    assert(v@.take(0) =~= Seq::<char>::empty());
    assert(views_of(out@) =~= Seq::<Seq<char>>::empty());
    while i < v.len()
        invariant
            i <= v@.len(),
            start <= i,
            v@ == s@,
            views_of(out@) == token_scan(v@.take(i as int)).0,
            v@.subrange(start as int, i as int) == token_scan(v@.take(i as int)).1,
        decreases v.len() - i,
    {
        let ghost t = v@.take(i + 1);
        assert(t.drop_last() =~= v@.take(i as int));
        assert(t.last() == v@[i as int]);
        if is_ws_exec(v[i]) || v[i] == ',' {
            if start < i {
                let piece = string_of_range(&v, start, i);
                out.push(piece);
                assert(views_of(out@) =~= token_scan(v@.take(i as int)).0.push(piece@));
            }
            start = i + 1;
            assert(v@.subrange(start as int, i + 1) =~= Seq::<char>::empty());
        } else {
            assert(v@.subrange(start as int, i + 1) =~= v@.subrange(start as int, i as int).push(
                v@[i as int],
            ));
        }
        i = i + 1;
    }
    assert(v@.take(v@.len() as int) =~= v@);
    if start < v.len() {
        let piece = string_of_range(&v, start, v.len());
        out.push(piece);
        assert(views_of(out@) =~= token_scan(v@).0.push(piece@));
    }
    out
}

/// ASCII letters lowered; other characters kept.
pub open spec fn ascii_lower(s: Seq<char>) -> Seq<char> {
    s.map_values(|c: char| if 'A' <= c && c <= 'Z' {
        ((c as u8) + 32) as char
    } else {
        c
    })
}

/// Whether `a` equals `b` ignoring ASCII case.
pub fn eq_ignore_ascii_case(a: &str, b: &str) -> (r: bool)
    ensures
        r == (ascii_lower(a@) == ascii_lower(b@)),
{
    let x = chars_of(a);
    let y = chars_of(b);
    if x.len() != y.len() {
        assert(ascii_lower(a@).len() != ascii_lower(b@).len());
        return false;
    }
    let mut i: usize = 0;
    while i < x.len()
        invariant
            x@ == a@,
            y@ == b@,
            x@.len() == y@.len(),
            i <= x@.len(),
            forall|k: int| 0 <= k < i ==> ascii_lower(a@)[k] == ascii_lower(b@)[k],
        decreases x.len() - i,
    {
        let cx = x[i];
        let cy = y[i];
        let lx = if 'A' <= cx && cx <= 'Z' {
            ((cx as u8) + 32) as char
        } else {
            cx
        };
        let ly = if 'A' <= cy && cy <= 'Z' {
            ((cy as u8) + 32) as char
        } else {
            cy
        };
        assert(ascii_lower(a@)[i as int] == lx);
        assert(ascii_lower(b@)[i as int] == ly);
        if lx != ly {
            return false;
        }
        i = i + 1;
    }
    assert(ascii_lower(a@) =~= ascii_lower(b@));
    true
}

/// Drops the last character of `s`, if any (`String::pop`).
pub fn pop_last(s: &mut String)
    ensures
        final(s)@ == if old(s)@.len() > 0 {
            old(s)@.drop_last()
        } else {
            old(s)@
        },
{
    let v = chars_of(s.as_str());
    if v.len() > 0 {
        let t = string_of_range(&v, 0, v.len() - 1);
        assert(v@.subrange(0, v@.len() - 1) =~= v@.drop_last());
        *s = t;
    }
}

// ----------------------------------------------------------------------
// Columns
// ----------------------------------------------------------------------

/// `n` spaces.
pub open spec fn spaces(n: nat) -> Seq<char> {
    Seq::new(n, |i: int| ' ')
}

/// `s` left-aligned in a column of `w` characters (`format!("{:<w$}", s)`).
pub open spec fn padded(s: Seq<char>, w: nat) -> Seq<char> {
    if s.len() < w {
        s + spaces((w - s.len()) as nat)
    } else {
        s
    }
}

/// `s` left-aligned in a column of `width` characters.
pub fn pad_right(s: &str, width: usize) -> (r: String)
    ensures
        r@ == padded(s@, width as nat),
{
    let mut r = owned(s);
    let n = s.unicode_len();
    if n < width {
        let mut i: usize = n;
        while i < width
            invariant
                n <= i <= width,
                n == s@.len(),
                r@ == s@ + spaces((i - n) as nat),
            decreases width - i,
        {
            push_char(&mut r, ' ');
            assert(r@ =~= s@ + spaces((i + 1 - n) as nat));
            i = i + 1;
        }
    }
    r
}

} // verus!
