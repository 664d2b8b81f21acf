//! The event lines of the command-line work that the program does itself:
//! fetching a films list and running the self-check.

use vstd::prelude::*;

use crate::maoyan::pair_views;
use crate::text::{append_str, chars_of, dec_text, joined, owned, string_of_range, views_of};

verus! {

/// The number of bytes of `c` in UTF-8.
pub open spec fn utf8_width(c: char) -> nat {
    let n = c as u32;
    if n < 0x80 {
        1
    } else if n < 0x800 {
        2
    } else if n < 0x10000 {
        3
    } else {
        4
    }
}

/// The number of bytes of `s` in UTF-8.
pub open spec fn byte_len(s: Seq<char>) -> nat
    decreases s.len(),
{
    if s.len() == 0 {
        0
    } else {
        byte_len(s.drop_last()) + utf8_width(s.last())
    }
}

/// The cap, in bytes, of the films shown in the event line.
pub open spec fn films_cap() -> nat {
    80
}

/// Whether `s` can be cut at the cap: it is no longer, or the cap falls
/// between two characters (cutting inside a character is refused).
pub open spec fn cuttable(s: Seq<char>) -> bool {
    byte_len(s) <= films_cap() || exists|k: int| 0 <= k <= s.len() && #[trigger] byte_len(s.take(k)) == films_cap()
}

/// `s` cut to its first `films_cap()` bytes.
pub open spec fn cut(s: Seq<char>) -> Seq<char> {
    if byte_len(s) <= films_cap() {
        s
    } else {
        s.take(choose|k: int| 0 <= k <= s.len() && #[trigger] byte_len(s.take(k)) == films_cap())
    }
}

/// The films as `id name`, joined by `; `.
pub open spec fn films_text(pairs: Seq<(Seq<char>, Seq<char>)>) -> Seq<char> {
    joined(pairs.map_values(|p: (Seq<char>, Seq<char>)| p.0 + " "@ + p.1), "; "@)
}

/// The event of a films fetch: how many came, and the first bytes of the
/// list; or the error.
pub open spec fn films_event_s(res: Result<Seq<(Seq<char>, Seq<char>)>, Seq<char>>) -> Seq<char> {
    match res {
        Ok(p) => "✓ cmd: 已拉取 "@ + dec_text(p.len()) + " 条 → "@ + cut(films_text(p)),
        Err(e) => "✗ cmd: "@ + e,
    }
}

pub proof fn lemma_byte_len_step(s: Seq<char>, j: int)
    requires
        0 <= j < s.len(),
    ensures
        byte_len(s.take(j + 1)) == byte_len(s.take(j)) + utf8_width(s[j]),
{
    assert(s.take(j + 1).drop_last() =~= s.take(j));
}

/// A longer prefix has more bytes.
pub proof fn lemma_byte_len_grows(s: Seq<char>, a: int, b: int)
    requires
        0 <= a < b <= s.len(),
    ensures
        byte_len(s.take(a)) < byte_len(s.take(b)),
    decreases b - a,
{
    lemma_byte_len_step(s, b - 1);
    if a < b - 1 {
        lemma_byte_len_grows(s, a, b - 1);
    }
}

fn char_width(c: char) -> (r: u64)
    ensures
        r == utf8_width(c),
{
    let n = c as u32;
    if n < 0x80 {
        1
    } else if n < 0x800 {
        2
    } else if n < 0x10000 {
        3
    } else {
        4
    }
}

/// The prefix of `s` with `films_cap()` bytes, or all of `s` when it is no
/// longer; `None` when the cap falls inside a character.
fn cut_exec(s: &str) -> (r: Option<String>)
    ensures
        match r {
            Some(t) => cuttable(s@) && t@ == cut(s@),
            None => !cuttable(s@),
        },
{
    let v = chars_of(s);
    let mut i: usize = 0;
    let mut b: u64 = 0;
    while i < v.len() && b < 80
        invariant
            i <= v@.len(),
            v@ == s@,
            b == byte_len(v@.take(i as int)),
            b <= 83,
            i > 0 ==> byte_len(v@.take(i - 1)) < films_cap(),
        decreases v.len() - i,
    {
        proof {
            lemma_byte_len_step(v@, i as int);
        }
        b = b + char_width(v[i]);
        i = i + 1;
    }
    if i == v.len() && b <= 80 {
        assert(v@.take(i as int) =~= s@);
        return Some(owned(s));
    }
    if b == 80 {
        proof {
            assert(i < v@.len());
            lemma_byte_len_grows(s@, i as int, s@.len() as int);
            assert(s@.take(s@.len() as int) =~= s@);
            assert(byte_len(s@.take(i as int)) == films_cap());
            let k = choose|k: int| 0 <= k <= s@.len() && #[trigger] byte_len(s@.take(k)) == films_cap();
            if k < i {
                lemma_byte_len_grows(s@, k, i as int);
            } else if k > i {
                lemma_byte_len_grows(s@, i as int, k);
            }
        }
        let t = string_of_range(&v, 0, i);
        assert(t@ =~= s@.take(i as int));
        return Some(t);
    }
    proof {
        assert(b > 80);
        assert(i > 0);
        lemma_byte_len_step(s@, i - 1);
        if i < s@.len() {
            lemma_byte_len_grows(s@, i as int, s@.len() as int);
        }
        assert(s@.take(s@.len() as int) =~= s@);
        assert forall|k: int| 0 <= k <= s@.len() implies #[trigger] byte_len(s@.take(k)) != films_cap() by {
            if k < i - 1 {
                lemma_byte_len_grows(s@, k, i - 1);
            } else if k > i {
                lemma_byte_len_grows(s@, i as int, k);
            }
        }
    }
    None
}

fn films_text_exec(pairs: &[(String, String)]) -> (r: String)
    ensures
        r@ == films_text(pair_views(pairs@)),
{
    let ghost parts = pair_views(pairs@).map_values(|p: (Seq<char>, Seq<char>)| p.0 + " "@ + p.1);
    let mut items: Vec<String> = Vec::new();
    let mut i: usize = 0;
    while i < pairs.len()
        invariant
            i <= pairs@.len(),
            parts == pair_views(pairs@).map_values(|p: (Seq<char>, Seq<char>)| p.0 + " "@ + p.1),
            views_of(items@) == parts.take(i as int),
        decreases pairs.len() - i,
    {
        let ghost before = items@;
        let mut t = pairs[i].0.clone();
        append_str(&mut t, " ");
        append_str(&mut t, pairs[i].1.as_str());
        items.push(t);
        proof {
            let a = views_of(items@);
            let b = parts.take(i + 1);
            assert(views_of(before).len() == before.len());
            assert(a.len() == b.len());
            assert forall|j: int| 0 <= j < a.len() implies a[j] == b[j] by {
                if j < before.len() {
                    assert(a[j] == views_of(before)[j]);
                } else {
                    assert(pair_views(pairs@)[i as int] == (pairs@[i as int].0@, pairs@[i as int].1@));
                }
            }
            assert(a =~= b);
        }
        i = i + 1;
    }
    assert(parts.take(pairs@.len() as int) =~= parts);
    crate::text::join_strings(items.as_slice(), "; ")
}

/// Whether the event of a fetch that gave `pairs` can be written: the list
/// is cut at its first eighty bytes, which must not fall inside a
/// character.
pub fn films_event_fits(pairs: &[(String, String)]) -> (r: bool)
    ensures
        r == cuttable(films_text(pair_views(pairs@))),
{
    let t = films_text_exec(pairs);
    cut_exec(t.as_str()).is_some()
}

/// The event line of `films`: `✓ cmd: 已拉取 <n> 条 → <first 80 bytes>`, or
/// `✗ cmd: <error>`.
pub fn films_event(res: Result<Vec<(String, String)>, String>) -> (r: String)
    requires
        res matches Ok(p) ==> cuttable(films_text(pair_views(p@))),
    ensures
        r@ == films_event_s(
            match res {
                Ok(p) => Ok(pair_views(p@)),
                Err(e) => Err(e@),
            },
        ),
{
    match res {
        Ok(p) => {
            let t = films_text_exec(p.as_slice());
            let shown = match cut_exec(t.as_str()) {
                Some(c) => c,
                None => {
                    assert(false);
                    String::new()
                },
            };
            let mut m = owned("✓ cmd: 已拉取 ");
            let n = crate::text::u64_text(p.len() as u64);
            append_str(&mut m, n.as_str());
            append_str(&mut m, " 条 → ");
            append_str(&mut m, shown.as_str());
            assert(pair_views(p@).len() == p@.len());
            m
        },
        Err(e) => {
            let mut m = owned("✗ cmd: ");
            append_str(&mut m, e.as_str());
            m
        },
    }
}

/// The event line of `doctor`, which prints its report on standard output.
pub fn doctor_event(res: Result<(), String>) -> (r: String)
    ensures
        r@ == match res {
            Ok(_) => "✓ cmd: doctor 已运行（输出见 stdout）"@,
            Err(e) => "✗ cmd: "@ + e@,
        },
{
    match res {
        Ok(_) => owned("✓ cmd: doctor 已运行（输出见 stdout）"),
        Err(e) => {
            let mut m = owned("✗ cmd: ");
            append_str(&mut m, e.as_str());
            m
        },
    }
}

/// How many events the log keeps.
pub const EVENTS_KEPT: usize = 64;

/// An event as logged: `[<time>] <line>`.
pub fn event_entry(time: &str, line: &str) -> (r: String)
    ensures
        r@ == "["@ + time@ + "] "@ + line@,
{
    let mut t = owned("[");
    append_str(&mut t, time);
    append_str(&mut t, "] ");
    append_str(&mut t, line);
    t
}

/// The event log after `entry` is logged: newest first, the oldest
/// dropped once `EVENTS_KEPT` are kept.
pub open spec fn logged(events: Seq<Seq<char>>, entry: Seq<char>) -> Seq<Seq<char>> {
    seq![entry] + if events.len() >= EVENTS_KEPT {
        events.take(EVENTS_KEPT - 1)
    } else {
        events
    }
}

/// Logs `entry` at the front of `events`.
pub fn log_event(events: &mut Vec<String>, entry: String)
    requires
        old(events)@.len() <= EVENTS_KEPT,
    ensures
        views_of(final(events)@) == logged(views_of(old(events)@), entry@),
        final(events)@.len() <= EVENTS_KEPT,
{
    let ghost before = views_of(events@);
    if events.len() >= EVENTS_KEPT {
        events.pop();
        assert(views_of(events@) =~= before.take(EVENTS_KEPT - 1));
    }
    let ghost kept = views_of(events@);
    events.insert(0, entry);
    assert(views_of(events@) =~= seq![entry@] + kept);
}

/// A delete confirmation lapses after five seconds.
pub open spec fn confirm_lapsed_s(elapsed_nanos: u128) -> bool {
    elapsed_nanos > 5_000_000_000
}

/// Whether a confirmation asked `elapsed_nanos` ago has lapsed.
pub fn confirm_lapsed(elapsed_nanos: u128) -> (r: bool)
    ensures
        r == confirm_lapsed_s(elapsed_nanos),
{
    elapsed_nanos > 5_000_000_000
}

} // verus!
