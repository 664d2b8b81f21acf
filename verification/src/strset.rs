//! Ordered sets of strings, kept as strictly increasing lists.
//!
//! Strings are ordered as `String`'s `Ord` orders them: by their characters,
//! first difference deciding, a proper prefix coming first.

use vstd::prelude::*;

use crate::text::{chars_of, views_of};

verus! {

/// `a < b` in the order of `String`.
pub open spec fn lex_lt(a: Seq<char>, b: Seq<char>) -> bool
    decreases a.len(),
{
    if a.len() == 0 {
        b.len() > 0
    } else if b.len() == 0 {
        false
    } else if (a[0] as int) < (b[0] as int) {
        true
    } else if a[0] == b[0] {
        lex_lt(a.drop_first(), b.drop_first())
    } else {
        false
    }
}

/// Each item is smaller than every later one.
pub open spec fn strictly_sorted(s: Seq<Seq<char>>) -> bool {
    forall|i: int, j: int| 0 <= i < j < s.len() ==> lex_lt(#[trigger] s[i], #[trigger] s[j])
}

pub proof fn lemma_lex_irreflexive(a: Seq<char>)
    ensures
        !lex_lt(a, a),
    decreases a.len(),
{
    if a.len() > 0 {
        lemma_lex_irreflexive(a.drop_first());
    }
}

pub proof fn lemma_lex_asym(a: Seq<char>, b: Seq<char>)
    ensures
        !(lex_lt(a, b) && lex_lt(b, a)),
    decreases a.len(),
{
    if a.len() > 0 && b.len() > 0 && a[0] == b[0] {
        lemma_lex_asym(a.drop_first(), b.drop_first());
    }
}

pub proof fn lemma_lex_trans(a: Seq<char>, b: Seq<char>, c: Seq<char>)
    requires
        lex_lt(a, b),
        lex_lt(b, c),
    ensures
        lex_lt(a, c),
    decreases a.len(),
{
    if a.len() > 0 && b.len() > 0 && c.len() > 0 && a[0] == b[0] && b[0] == c[0] {
        lemma_lex_trans(a.drop_first(), b.drop_first(), c.drop_first());
    }
}

pub proof fn lemma_lex_total(a: Seq<char>, b: Seq<char>)
    requires
        a != b,
    ensures
        lex_lt(a, b) || lex_lt(b, a),
    decreases a.len(),
{
    if a.len() > 0 && b.len() > 0 && a[0] == b[0] {
        if a.drop_first() == b.drop_first() {
            assert(a =~= seq![a[0]] + a.drop_first());
            assert(b =~= seq![b[0]] + b.drop_first());
        }
        lemma_lex_total(a.drop_first(), b.drop_first());
    } else if a.len() == 0 && b.len() == 0 {
        assert(a =~= b);
    }
}

/// Dropping a common prefix does not change the order.
pub proof fn lemma_lex_skip_prefix(a: Seq<char>, b: Seq<char>, i: int)
    requires
        0 <= i <= a.len(),
        i <= b.len(),
        a.take(i) == b.take(i),
    ensures
        lex_lt(a, b) == lex_lt(a.skip(i), b.skip(i)),
    decreases i,
{
    if i == 0 {
        assert(a.skip(0) =~= a);
        assert(b.skip(0) =~= b);
    } else {
        assert(a[0] == a.take(i)[0]);
        assert(b[0] == b.take(i)[0]);
        assert(a.drop_first().take(i - 1) =~= a.take(i).drop_first());
        assert(b.drop_first().take(i - 1) =~= b.take(i).drop_first());
        lemma_lex_skip_prefix(a.drop_first(), b.drop_first(), i - 1);
        assert(a.drop_first().skip(i - 1) =~= a.skip(i));
        assert(b.drop_first().skip(i - 1) =~= b.skip(i));
    }
}

/// Compares two character lists: `-1`, `0` or `1`.
pub fn lex_order(a: &Vec<char>, b: &Vec<char>) -> (r: i8)
    ensures
        r == -1 <==> lex_lt(a@, b@),
        r == 0 <==> a@ == b@,
        r == 1 <==> lex_lt(b@, a@),
        r == -1 || r == 0 || r == 1,
{
    let mut i: usize = 0;
    while i < a.len() && i < b.len()
        invariant
            i <= a@.len(),
            i <= b@.len(),
            a@.take(i as int) == b@.take(i as int),
        decreases a.len() - i,
    {
        if a[i] != b[i] {
            proof {
                lemma_lex_skip_prefix(a@, b@, i as int);
                lemma_lex_skip_prefix(b@, a@, i as int);
                assert(a@.skip(i as int)[0] == a@[i as int]);
                assert(b@.skip(i as int)[0] == b@[i as int]);
                if a@ == b@ {
                    assert(a@[i as int] == b@[i as int]);
                }
            }
            if a[i] < b[i] {
                return -1;
            } else {
                return 1;
            }
        }
        proof {
            assert(a@.take(i + 1) =~= a@.take(i as int).push(a@[i as int]));
            assert(b@.take(i + 1) =~= b@.take(i as int).push(b@[i as int]));
        }
        i = i + 1;
    }
    proof {
        lemma_lex_skip_prefix(a@, b@, i as int);
        lemma_lex_skip_prefix(b@, a@, i as int);
    }
    if a.len() == b.len() {
        assert(a@ =~= a@.take(i as int));
        assert(b@ =~= b@.take(i as int));
        proof {
            lemma_lex_irreflexive(a@);
        }
        0
    } else if a.len() < b.len() {
        assert(a@.skip(i as int).len() == 0);
        assert(a@.len() != b@.len());
        -1
    } else {
        assert(b@.skip(i as int).len() == 0);
        assert(a@.len() != b@.len());
        1
    }
}

pub proof fn lemma_push_to_set<A>(s: Seq<A>, e: A)
    ensures
        s.push(e).to_set() == s.to_set().insert(e),
{
    assert forall|x: A| s.push(e).to_set().contains(x) implies s.to_set().insert(e).contains(x) by {
        let k = choose|k: int| 0 <= k < s.push(e).len() && s.push(e)[k] == x;
        if k < s.len() {
            assert(s[k] == x);
        }
    }
    assert forall|x: A| s.to_set().insert(e).contains(x) implies s.push(e).to_set().contains(x) by {
        if x == e {
            assert(s.push(e)[s.len() as int] == x);
        } else {
            let k = choose|k: int| 0 <= k < s.len() && s[k] == x;
            assert(s.push(e)[k] == x);
        }
    }
    assert(s.push(e).to_set() =~= s.to_set().insert(e));
}

/// Adds `x` to the ordered set `v` unless it is there already.
pub fn insert_sorted(v: &mut Vec<String>, x: String)
    requires
        strictly_sorted(views_of(old(v)@)),
    ensures
        strictly_sorted(views_of(final(v)@)),
        views_of(final(v)@).to_set() == views_of(old(v)@).to_set().insert(x@),
{
    let ghost s0 = views_of(v@);
    let xc = chars_of(x.as_str());
    let mut p: usize = 0;
    let mut stop = false;
    while p < v.len() && !stop
        invariant
            p <= v@.len(),
            views_of(v@) == s0,
            strictly_sorted(s0),
            xc@ == x@,
            forall|i: int| 0 <= i < p ==> lex_lt(s0[i], x@),
            stop ==> p < s0.len() && lex_lt(x@, s0[p as int]),
        decreases v.len() - p + (if stop { 0int } else { 1int }),
    {
        let cur = chars_of(v[p].as_str());
        let c = lex_order(&cur, &xc);
        if c == 0 {
            proof {
                assert(s0[p as int] == x@);
                assert(s0.to_set().insert(x@) =~= s0.to_set());
            }
            return ;
        }
        if c == 1 {
            stop = true;
        } else {
            p = p + 1;
        }
    }
    let ghost pp = p;
    let ghost was_end = p == v.len();
    v.insert(p, x);
    proof {
        let s1 = views_of(v@);
        assert(s1 =~= s0.insert(pp as int, x@));
        assert forall|i: int, j: int| 0 <= i < j < s1.len() implies lex_lt(
            #[trigger] s1[i],
            #[trigger] s1[j],
        ) by {
            if j < pp {
                assert(s1[i] == s0[i] && s1[j] == s0[j]);
            } else if j == pp {
                assert(s1[i] == s0[i]);
            } else if i < pp {
                assert(s1[i] == s0[i] && s1[j] == s0[j - 1]);
                assert(lex_lt(s0[i], x@));
                if j - 1 > pp {
                    assert(lex_lt(x@, s0[pp as int]));
                    assert(lex_lt(s0[pp as int], s0[j - 1]));
                    lemma_lex_trans(x@, s0[pp as int], s0[j - 1]);
                    lemma_lex_trans(s0[i], x@, s0[j - 1]);
                } else {
                    lemma_lex_trans(s0[i], x@, s0[j - 1]);
                }
            } else if i == pp {
                assert(s1[j] == s0[j - 1]);
                if j - 1 > pp {
                    lemma_lex_trans(x@, s0[pp as int], s0[j - 1]);
                }
            } else {
                assert(s1[i] == s0[i - 1] && s1[j] == s0[j - 1]);
            }
        }
        assert(s1.to_set() =~= s0.to_set().insert(x@)) by {
            assert forall|e: Seq<char>| s1.to_set().contains(e) implies s0.to_set().insert(
                x@,
            ).contains(e) by {
                let k = choose|k: int| 0 <= k < s1.len() && s1[k] == e;
                if k < pp {
                    assert(s0[k] == e);
                } else if k > pp {
                    assert(s0[k - 1] == e);
                }
            }
            assert forall|e: Seq<char>| s0.to_set().insert(x@).contains(e) implies s1.to_set().contains(
                e,
            ) by {
                if e == x@ {
                    assert(s1[pp as int] == e);
                } else {
                    let k = choose|k: int| 0 <= k < s0.len() && s0[k] == e;
                    if k < pp {
                        assert(s1[k] == e);
                    } else {
                        assert(s1[k + 1] == e);
                    }
                }
            }
        }
    }
}

/// The items of `v` as an ordered set.
pub fn sort_dedup(v: &[String]) -> (r: Vec<String>)
    ensures
        strictly_sorted(views_of(r@)),
        views_of(r@).to_set() == views_of(v@).to_set(),
{
    let mut out: Vec<String> = Vec::new();
    let mut i: usize = 0;
    proof {
        assert(views_of(out@).to_set() =~= views_of(v@.take(0)).to_set());
    }
    while i < v.len()
        invariant
            i <= v@.len(),
            strictly_sorted(views_of(out@)),
            views_of(out@).to_set() == views_of(v@.take(i as int)).to_set(),
        decreases v.len() - i,
    {
        insert_sorted(&mut out, v[i].clone());
        proof {
            assert(views_of(v@.take(i + 1)) =~= views_of(v@.take(i as int)).push(v@[i as int]@));
            lemma_push_to_set(views_of(v@.take(i as int)), v@[i as int]@);
        }
        i = i + 1;
    }
    assert(v@.take(v@.len() as int) =~= v@);
    out
}

/// An ordered set is determined by its items: two strictly increasing
/// lists with the same items are equal.
pub proof fn lemma_sorted_unique(a: Seq<Seq<char>>, b: Seq<Seq<char>>)
    requires
        strictly_sorted(a),
        strictly_sorted(b),
        a.to_set() == b.to_set(),
    ensures
        a == b,
    decreases a.len(),
{
    if a.len() == 0 {
        if b.len() > 0 {
            assert(b.to_set().contains(b[0]));
        }
        assert(a =~= b);
    } else if b.len() == 0 {
        assert(a.to_set().contains(a[0]));
    } else {
        assert(b.to_set().contains(a[0]));
        let j = choose|j: int| 0 <= j < b.len() && b[j] == a[0];
        assert(a.to_set().contains(b[0]));
        let k = choose|k: int| 0 <= k < a.len() && a[k] == b[0];
        if j > 0 {
            assert(lex_lt(b[0], b[j]));
            if k == 0 {
                lemma_lex_irreflexive(a[0]);
            } else {
                assert(lex_lt(a[0], a[k]));
                lemma_lex_asym(a[0], a[k]);
            }
        }
        assert(a[0] == b[0]);
        let ta = a.drop_first();
        let tb = b.drop_first();
        assert forall|x: Seq<char>| ta.to_set().contains(x) implies tb.to_set().contains(x) by {
            let p = choose|p: int| 0 <= p < ta.len() && ta[p] == x;
            assert(a[p + 1] == x);
            assert(lex_lt(a[0], x));
            assert(b.to_set().contains(x));
            let q = choose|q: int| 0 <= q < b.len() && b[q] == x;
            if q == 0 {
                lemma_lex_irreflexive(x);
            }
            assert(tb[q - 1] == x);
        }
        assert forall|x: Seq<char>| tb.to_set().contains(x) implies ta.to_set().contains(x) by {
            let p = choose|p: int| 0 <= p < tb.len() && tb[p] == x;
            assert(b[p + 1] == x);
            assert(lex_lt(b[0], x));
            assert(a.to_set().contains(x));
            let q = choose|q: int| 0 <= q < a.len() && a[q] == x;
            if q == 0 {
                lemma_lex_irreflexive(x);
            }
            assert(ta[q - 1] == x);
        }
        assert(ta.to_set() =~= tb.to_set());
        assert forall|i: int, j: int| 0 <= i < j < ta.len() implies lex_lt(
            #[trigger] ta[i],
            #[trigger] ta[j],
        ) by {
            assert(ta[i] == a[i + 1] && ta[j] == a[j + 1]);
        }
        assert forall|i: int, j: int| 0 <= i < j < tb.len() implies lex_lt(
            #[trigger] tb[i],
            #[trigger] tb[j],
        ) by {
            assert(tb[i] == b[i + 1] && tb[j] == b[j + 1]);
        }
        lemma_sorted_unique(ta, tb);
        assert(a =~= b) by {
            assert forall|i: int| 0 <= i < a.len() implies a[i] == b[i] by {
                if i > 0 {
                    assert(a[i] == ta[i - 1] && b[i] == tb[i - 1]);
                }
            }
        }
    }
}

/// The strictly increasing list of the items of a finite set of strings.
pub open spec fn sorted_list_of(s: Set<Seq<char>>) -> Seq<Seq<char>> {
    choose|l: Seq<Seq<char>>| strictly_sorted(l) && l.to_set() == s
}

/// A strictly increasing list is the sorted list of its items.
pub proof fn lemma_sorted_list_of(l: Seq<Seq<char>>)
    requires
        strictly_sorted(l),
    ensures
        sorted_list_of(l.to_set()) == l,
{
    let c = sorted_list_of(l.to_set());
    assert(strictly_sorted(c) && c.to_set() == l.to_set());
    lemma_sorted_unique(c, l);
}

} // verus!
