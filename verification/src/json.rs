//! The JSON document model of the configuration file.
//!
//! The configuration is a JSON document. `Json` holds it as plain values:
//! integers that fit `i64` or `u64` as `Int`, any other number as its text in
//! `Frac`, and objects as lists of (key, value) members. Reading a member
//! finds the first member with that key; writing one replaces that member or
//! appends a new one, so a document with distinct keys keeps them distinct.

use vstd::prelude::*;

use crate::text::owned;

verus! {

/// A JSON value.
#[derive(Debug, PartialEq)]
pub enum Json {
    Null,
    Bool(bool),
    /// An integer; documents read from disk keep it within `i64::MIN..=u64::MAX`.
    Int(i128),
    /// A number with a fraction or exponent, kept as its decimal text.
    Frac(String),
    Str(String),
    Arr(Vec<Json>),
    Obj(Vec<(String, Json)>),
}

// ----------------------------------------------------------------------
// Specification of reads
// ----------------------------------------------------------------------

/// The value of the first member named `k`.
pub open spec fn obj_lookup(f: Seq<(String, Json)>, k: Seq<char>) -> Option<Json>
    decreases f.len(),
{
    if f.len() == 0 {
        None
    } else if f[0].0@ == k {
        Some(f[0].1)
    } else {
        obj_lookup(f.drop_first(), k)
    }
}

/// `j.get(k)`: the member `k` of an object, `None` for any other value.
pub open spec fn field(j: Json, k: Seq<char>) -> Option<Json> {
    match j {
        Json::Obj(f) => obj_lookup(f@, k),
        _ => None,
    }
}

pub open spec fn is_obj(j: Json) -> bool {
    j is Obj
}

/// `v.as_str()`.
pub open spec fn as_str_v(j: Json) -> Option<Seq<char>> {
    match j {
        Json::Str(s) => Some(s@),
        _ => None,
    }
}

/// `v.as_u64()`.
pub open spec fn as_u64_v(j: Json) -> Option<u64> {
    match j {
        Json::Int(n) => if 0 <= n <= u64::MAX {
            Some(n as u64)
        } else {
            None
        },
        _ => None,
    }
}

/// `v.as_i64()`.
pub open spec fn as_i64_v(j: Json) -> Option<i64> {
    match j {
        Json::Int(n) => if i64::MIN <= n <= i64::MAX {
            Some(n as i64)
        } else {
            None
        },
        _ => None,
    }
}

/// `v.as_bool()`.
pub open spec fn as_bool_v(j: Json) -> Option<bool> {
    match j {
        Json::Bool(b) => Some(b),
        _ => None,
    }
}

/// `v.as_array()`, by the items' sequence.
pub open spec fn as_arr_v(j: Json) -> Option<Seq<Json>> {
    match j {
        Json::Arr(v) => Some(v@),
        _ => None,
    }
}

/// `j.get(k).and_then(as_str)`.
pub open spec fn str_field(j: Json, k: Seq<char>) -> Option<Seq<char>> {
    match field(j, k) {
        Some(v) => as_str_v(v),
        None => None,
    }
}

/// `j.get(k).and_then(as_u64)`.
pub open spec fn u64_field(j: Json, k: Seq<char>) -> Option<u64> {
    match field(j, k) {
        Some(v) => as_u64_v(v),
        None => None,
    }
}

/// `j.get(k).and_then(as_i64)`.
pub open spec fn i64_field(j: Json, k: Seq<char>) -> Option<i64> {
    match field(j, k) {
        Some(v) => as_i64_v(v),
        None => None,
    }
}

/// `j.get(k).and_then(as_bool)`.
pub open spec fn bool_field(j: Json, k: Seq<char>) -> Option<bool> {
    match field(j, k) {
        Some(v) => as_bool_v(v),
        None => None,
    }
}

/// `j.get(k).and_then(as_array)`.
pub open spec fn arr_field(j: Json, k: Seq<char>) -> Option<Seq<Json>> {
    match field(j, k) {
        Some(v) => as_arr_v(v),
        None => None,
    }
}

/// The string items of a list, in order (`filter_map(as_str)`).
pub open spec fn strings_of(items: Seq<Json>) -> Seq<Seq<char>>
    decreases items.len(),
{
    if items.len() == 0 {
        Seq::empty()
    } else {
        let rest = strings_of(items.drop_last());
        match as_str_v(items.last()) {
            Some(s) => rest.push(s),
            None => rest,
        }
    }
}

/// The string items of the list `j[k]`; empty when `j[k]` is absent or no list.
pub open spec fn str_list_field(j: Json, k: Seq<char>) -> Seq<Seq<char>> {
    match arr_field(j, k) {
        Some(items) => strings_of(items),
        None => Seq::empty(),
    }
}

/// A list of strings as JSON.
pub open spec fn json_strings(items: Seq<Seq<char>>, v: Json) -> bool {
    match v {
        Json::Arr(a) => a@.len() == items.len() && forall|i: int|
            0 <= i < items.len() ==> as_str_v(#[trigger] a@[i]) == Some(items[i]),
        _ => false,
    }
}

/// Members of `f` with key `k` removed.
pub open spec fn obj_without(f: Seq<(String, Json)>, k: Seq<char>) -> Seq<(String, Json)>
    decreases f.len(),
{
    if f.len() == 0 {
        Seq::empty()
    } else {
        let rest = obj_without(f.drop_last(), k);
        if f.last().0@ != k {
            rest.push(f.last())
        } else {
            rest
        }
    }
}

// ----------------------------------------------------------------------
// Lemmas
// ----------------------------------------------------------------------

pub proof fn lemma_lookup_index(f: Seq<(String, Json)>, k: Seq<char>, i: int)
    requires
        0 <= i < f.len(),
        f[i].0@ == k,
        forall|j: int| 0 <= j < i ==> f[j].0@ != k,
    ensures
        obj_lookup(f, k) == Some(f[i].1),
    decreases i,
{
    if i > 0 {
        lemma_lookup_index(f.drop_first(), k, i - 1);
    }
}

pub proof fn lemma_lookup_absent(f: Seq<(String, Json)>, k: Seq<char>)
    requires
        forall|j: int| 0 <= j < f.len() ==> f[j].0@ != k,
    ensures
        obj_lookup(f, k) is None,
    decreases f.len(),
{
    if f.len() > 0 {
        lemma_lookup_absent(f.drop_first(), k);
    }
}

/// Looking up in a list where one entry changed its value but not its key.
pub proof fn lemma_lookup_update(f: Seq<(String, Json)>, i: int, v: Json, k: Seq<char>)
    requires
        0 <= i < f.len(),
    ensures
        obj_lookup(f.update(i, (f[i].0, v)), k) == if f[i].0@ == k && (forall|j: int|
            0 <= j < i ==> f[j].0@ != k) {
            Some(v)
        } else {
            obj_lookup(f, k)
        },
    decreases i,
{
    let g = f.update(i, (f[i].0, v));
    if i == 0 {
        assert(g.drop_first() =~= f.drop_first());
    }
    if i > 0 {
        assert(g[0] == f[0]);
        assert(g.drop_first() =~= f.drop_first().update(i - 1, (f.drop_first()[i - 1].0, v)));
        lemma_lookup_update(f.drop_first(), i - 1, v, k);
        if f[0].0@ != k {
            assert((forall|j: int| 0 <= j < i ==> f[j].0@ != k) == (forall|j: int|
                0 <= j < i - 1 ==> f.drop_first()[j].0@ != k)) by {
                if forall|j: int| 0 <= j < i - 1 ==> f.drop_first()[j].0@ != k {
                    assert forall|j: int| 0 <= j < i implies f[j].0@ != k by {
                        if j > 0 {
                            assert(f[j] == f.drop_first()[j - 1]);
                        }
                    }
                }
            }
        }
    }
}

/// Appending a member whose key is new.
pub proof fn lemma_lookup_push(f: Seq<(String, Json)>, m: (String, Json), k: Seq<char>)
    ensures
        obj_lookup(f.push(m), k) == match obj_lookup(f, k) {
            Some(v) => Some(v),
            None => if m.0@ == k {
                Some(m.1)
            } else {
                None
            },
        },
    decreases f.len(),
{
    if f.len() > 0 {
        assert(f.push(m)[0] == f[0]);
        assert(f.push(m).drop_first() =~= f.drop_first().push(m));
        lemma_lookup_push(f.drop_first(), m, k);
    } else {
        assert(f.push(m).drop_first() =~= Seq::<(String, Json)>::empty());
        assert(f.push(m)[0] == m);
        assert(obj_lookup(f.push(m).drop_first(), k) is None);
    }
}

/// Filtering out key `k` leaves the other keys readable as before.
pub proof fn lemma_lookup_without(f: Seq<(String, Json)>, k: Seq<char>, k2: Seq<char>)
    ensures
        obj_lookup(obj_without(f, k), k2) == if k2 == k {
            None
        } else {
            obj_lookup(f, k2)
        },
    decreases f.len(),
{
    if f.len() > 0 {
        lemma_lookup_without(f.drop_last(), k, k2);
        let last = f.last();
        lemma_lookup_push(f.drop_last(), last, k2);
        assert(f.drop_last().push(last) =~= f);
        if last.0@ != k {
            lemma_lookup_push(obj_without(f.drop_last(), k), last, k2);
        }
    }
}

/// The string items of a list of strings are those strings.
pub proof fn lemma_strings_of_json_strings(items: Seq<Seq<char>>, v: Json)
    requires
        json_strings(items, v),
    ensures
        strings_of(as_arr_v(v).unwrap()) == items,
{
    let a = as_arr_v(v).unwrap();
    assert forall|n: int| 0 <= n <= a.len() implies strings_of(#[trigger] a.take(n))
        == items.take(n) by {
        lemma_strings_prefix(items, a, n);
    }
    assert(a.take(a.len() as int) =~= a);
    assert(items.take(items.len() as int) =~= items);
}

proof fn lemma_strings_prefix(items: Seq<Seq<char>>, a: Seq<Json>, n: int)
    requires
        a.len() == items.len(),
        forall|i: int| 0 <= i < items.len() ==> as_str_v(#[trigger] a[i]) == Some(items[i]),
        0 <= n <= a.len(),
    ensures
        strings_of(a.take(n)) == items.take(n),
    decreases n,
{
    if n > 0 {
        lemma_strings_prefix(items, a, n - 1);
        assert(a.take(n).drop_last() =~= a.take(n - 1));
        assert(items.take(n) =~= items.take(n - 1).push(items[n - 1]));
        assert(as_str_v(a.take(n).last()) == Some(items[n - 1]));
    }
}

// ----------------------------------------------------------------------
// Reads
// ----------------------------------------------------------------------

/// Index of the first member named `k` in `f`.
pub fn member_index(f: &Vec<(String, Json)>, k: &str) -> (r: Option<usize>)
    ensures
        match r {
            Some(i) => i < f@.len() && f@[i as int].0@ == k@ && (forall|j: int|
                0 <= j < i ==> f@[j].0@ != k@) && obj_lookup(f@, k@) == Some(f@[i as int].1),
            None => (forall|j: int| 0 <= j < f@.len() ==> f@[j].0@ != k@) && obj_lookup(
                f@,
                k@,
            ) is None,
        },
{
    let ks = owned(k);
    let mut i: usize = 0;
    while i < f.len()
        invariant
            i <= f@.len(),
            ks@ == k@,
            forall|j: int| 0 <= j < i ==> f@[j].0@ != k@,
        decreases f.len() - i,
    {
        if f[i].0 == ks {
            proof {
                lemma_lookup_index(f@, k@, i as int);
            }
            return Some(i);
        }
        i = i + 1;
    }
    proof {
        lemma_lookup_absent(f@, k@);
    }
    None
}

/// `j.get(k)`.
pub fn get<'a>(j: &'a Json, k: &str) -> (r: Option<&'a Json>)
    ensures
        match r {
            Some(v) => field(*j, k@) == Some(*v),
            None => field(*j, k@) is None,
        },
{
    match j {
        Json::Obj(f) => match member_index(f, k) {
            Some(i) => Some(&f[i].1),
            None => None,
        },
        _ => None,
    }
}

/// `v.as_str()` as an owned string.
pub fn as_str(v: &Json) -> (r: Option<String>)
    ensures
        match r {
            Some(s) => as_str_v(*v) == Some(s@),
            None => as_str_v(*v) is None,
        },
{
    match v {
        Json::Str(s) => Some(s.clone()),
        _ => None,
    }
}

/// `v.as_u64()`.
pub fn as_u64(v: &Json) -> (r: Option<u64>)
    ensures
        r == as_u64_v(*v),
{
    match v {
        Json::Int(n) => if 0 <= *n && *n <= u64::MAX as i128 {
            Some(*n as u64)
        } else {
            None
        },
        _ => None,
    }
}

/// `v.as_i64()`.
pub fn as_i64(v: &Json) -> (r: Option<i64>)
    ensures
        r == as_i64_v(*v),
{
    match v {
        Json::Int(n) => if i64::MIN as i128 <= *n && *n <= i64::MAX as i128 {
            Some(*n as i64)
        } else {
            None
        },
        _ => None,
    }
}

/// `v.as_bool()`.
pub fn as_bool(v: &Json) -> (r: Option<bool>)
    ensures
        r == as_bool_v(*v),
{
    match v {
        Json::Bool(b) => Some(*b),
        _ => None,
    }
}

/// `j.get(k).and_then(as_str)`.
pub fn get_str(j: &Json, k: &str) -> (r: Option<String>)
    ensures
        match r {
            Some(s) => str_field(*j, k@) == Some(s@),
            None => str_field(*j, k@) is None,
        },
{
    match get(j, k) {
        Some(v) => as_str(v),
        None => None,
    }
}

/// `j.get(k).and_then(as_u64)`.
pub fn get_u64(j: &Json, k: &str) -> (r: Option<u64>)
    ensures
        r == u64_field(*j, k@),
{
    match get(j, k) {
        Some(v) => as_u64(v),
        None => None,
    }
}

/// `j.get(k).and_then(as_i64)`.
pub fn get_i64(j: &Json, k: &str) -> (r: Option<i64>)
    ensures
        r == i64_field(*j, k@),
{
    match get(j, k) {
        Some(v) => as_i64(v),
        None => None,
    }
}

/// `j.get(k).and_then(as_bool)`.
pub fn get_bool(j: &Json, k: &str) -> (r: Option<bool>)
    ensures
        r == bool_field(*j, k@),
{
    match get(j, k) {
        Some(v) => as_bool(v),
        None => None,
    }
}

/// Whether `j[k]` exists.
pub fn has_field(j: &Json, k: &str) -> (r: bool)
    ensures
        r == field(*j, k@) is Some,
{
    get(j, k).is_some()
}

/// Whether `j[k]` exists and is not `null`.
pub fn has_non_null(j: &Json, k: &str) -> (r: bool)
    ensures
        r == (field(*j, k@) is Some && !(field(*j, k@).unwrap() is Null)),
{
    match get(j, k) {
        Some(v) => !(matches!(v, Json::Null)),
        None => false,
    }
}

/// The string items of a list.
pub fn strings_in(items: &Vec<Json>) -> (r: Vec<String>)
    ensures
        r@.len() == strings_of(items@).len(),
        forall|i: int| 0 <= i < r@.len() ==> #[trigger] r@[i]@ == strings_of(items@)[i],
{
    let mut out: Vec<String> = Vec::new();
    let mut i: usize = 0;
    while i < items.len()
        invariant
            i <= items@.len(),
            out@.len() == strings_of(items@.take(i as int)).len(),
            forall|m: int|
                0 <= m < out@.len() ==> #[trigger] out@[m]@ == strings_of(items@.take(i as int))[m],
        decreases items.len() - i,
    {
        assert(items@.take(i + 1).drop_last() =~= items@.take(i as int));
        match as_str(&items[i]) {
            Some(s) => {
                out.push(s);
            },
            None => {},
        }
        i = i + 1;
    }
    assert(items@.take(items@.len() as int) =~= items@);
    out
}

/// `j.get(k).and_then(as_array)` mapped to its string items; empty when absent.
pub fn get_str_list(j: &Json, k: &str) -> (r: Vec<String>)
    ensures
        r@.len() == str_list_field(*j, k@).len(),
        forall|i: int| 0 <= i < r@.len() ==> #[trigger] r@[i]@ == str_list_field(*j, k@)[i],
{
    match get(j, k) {
        Some(Json::Arr(items)) => strings_in(items),
        _ => Vec::new(),
    }
}

// ----------------------------------------------------------------------
// Writes
// ----------------------------------------------------------------------

/// `j[k] = v` for an object or `null` (`null` becomes an object first).
pub fn set_field(j: &mut Json, k: &str, v: Json)
    requires
        (*old(j)) is Obj || (*old(j)) is Null,
    ensures
        (*final(j)) is Obj,
        field(*final(j), k@) == Some(v),
        forall|k2: Seq<char>| k2 != k@ ==> field(*final(j), k2) == field(*old(j), k2),
{
    let mut cur = Json::Null;
    std::mem::swap(&mut cur, j);
    let mut f: Vec<(String, Json)> = match cur {
        Json::Obj(f) => f,
        _ => Vec::new(),
    };
    let ghost f0 = f@;
    assert(forall|k2: Seq<char>| field(*old(j), k2) == obj_lookup(f0, k2));
    match member_index(&f, k) {
        Some(i) => {
            let key = f[i].0.clone();
            let ghost fi = f@[i as int];
            f.set(i, (key, v));
            proof {
                assert(f@ == f0.update(i as int, (fi.0, v)));
                assert forall|k2: Seq<char>|
                    obj_lookup(f@, k2) == (if k2 == k@ {
                        Some(v)
                    } else {
                        obj_lookup(f0, k2)
                    }) by {
                    lemma_lookup_update(f0, i as int, v, k2);
                }
            }
        },
        None => {
            f.push((owned(k), v));
            proof {
                assert forall|k2: Seq<char>|
                    obj_lookup(f@, k2) == (if k2 == k@ {
                        Some(v)
                    } else {
                        obj_lookup(f0, k2)
                    }) by {
                    lemma_lookup_push(f0, f@.last(), k2);
                    assert(f@ =~= f0.push(f@.last()));
                }
            }
        },
    }
    *j = Json::Obj(f);
}

/// Takes the value of member `k` out of an object, leaving `null` in its
/// place; any other value, or an object without `k`, stays as it is.
pub fn take_field(j: &mut Json, k: &str) -> (r: Option<Json>)
    ensures
        r == field(*old(j), k@),
        r is None ==> *final(j) == *old(j),
        r is Some ==> (*final(j)) is Obj && field(*final(j), k@) == Some(Json::Null) && (forall|
            k2: Seq<char>,
        | k2 != k@ ==> field(*final(j), k2) == field(*old(j), k2)),
{
    let idx = match j {
        Json::Obj(f) => member_index(f, k),
        _ => None,
    };
    let i = match idx {
        Some(i) => i,
        None => return None,
    };
    let mut cur = Json::Null;
    std::mem::swap(&mut cur, j);
    let mut f: Vec<(String, Json)> = match cur {
        Json::Obj(f) => f,
        _ => Vec::new(),
    };
    let ghost f0 = f@;
    let (key, v) = f.remove(i);
    f.insert(i, (key, Json::Null));
    proof {
        assert(f@ =~= f0.update(i as int, (f0[i as int].0, Json::Null)));
        assert forall|k2: Seq<char>|
            obj_lookup(f@, k2) == (if k2 == k@ {
                Some(Json::Null)
            } else {
                obj_lookup(f0, k2)
            }) by {
            lemma_lookup_update(f0, i as int, Json::Null, k2);
        }
    }
    *j = Json::Obj(f);
    Some(v)
}

/// `j.as_object_mut().map(|o| o.remove(k))`: drops member `k` of an object;
/// any other value stays as it is.
pub fn remove_field(j: &mut Json, k: &str)
    ensures
        (*old(j)) is Obj ==> (*final(j)) is Obj,
        !((*old(j)) is Obj) ==> *final(j) == *old(j),
        (*old(j)) is Obj ==> field(*final(j), k@) is None,
        forall|k2: Seq<char>| k2 != k@ ==> field(*final(j), k2) == field(*old(j), k2),
{
    if !(matches!(j, Json::Obj(_))) {
        return ;
    }
    let mut cur = Json::Null;
    std::mem::swap(&mut cur, j);
    let f: Vec<(String, Json)> = match cur {
        Json::Obj(f) => f,
        _ => Vec::new(),
    };
    let ghost f0 = f@;
    let ks = owned(k);
    let mut out: Vec<(String, Json)> = Vec::new();
    let mut i: usize = 0;
    let n = f.len();
    let mut f = f;
    while i < n
        invariant
            n == f0.len(),
            i <= n,
            f@ == f0.skip(i as int),
            ks@ == k@,
            out@ == obj_without(f0.take(i as int), k@),
        decreases n - i,
    {
        assert(f0.take(i + 1).drop_last() =~= f0.take(i as int));
        assert(f@[0] == f0[i as int]);
        let m = f.remove(0);
        assert(f@ =~= f0.skip(i + 1));
        if m.0 != ks {
            out.push(m);
        }
        i = i + 1;
    }
    assert(f0.take(n as int) =~= f0);
    proof {
        assert forall|k2: Seq<char>|
            obj_lookup(out@, k2) == (if k2 == k@ {
                None
            } else {
                obj_lookup(f0, k2)
            }) by {
            lemma_lookup_without(f0, k@, k2);
        }
    }
    *j = Json::Obj(out);
}

/// A JSON string.
pub fn jstr(s: &str) -> (r: Json)
    ensures
        r is Str,
        as_str_v(r) == Some(s@),
{
    Json::Str(owned(s))
}

/// A JSON list of the strings `items`.
pub fn jstr_list(items: &Vec<String>) -> (r: Json)
    ensures
        json_strings(items@.map_values(|s: String| s@), r),
{
    let mut out: Vec<Json> = Vec::new();
    let mut i: usize = 0;
    while i < items.len()
        invariant
            i <= items@.len(),
            out@.len() == i,
            forall|m: int| 0 <= m < i ==> as_str_v(#[trigger] out@[m]) == Some(items@[m]@),
        decreases items.len() - i,
    {
        out.push(Json::Str(items[i].clone()));
        i = i + 1;
    }
    Json::Arr(out)
}

/// An empty JSON object.
pub fn empty_obj() -> (r: Json)
    ensures
        r is Obj,
        forall|k: Seq<char>| field(r, k) is None,
{
    let v: Vec<(String, Json)> = Vec::new();
    proof {
        assert forall|k: Seq<char>| obj_lookup(v@, k) is None by {
            lemma_lookup_absent(v@, k);
        }
    }
    Json::Obj(v)
}

/// `b` is a copy of `a`: the same value, list for list and member for member.
pub open spec fn same_json(a: Json, b: Json) -> bool
    decreases a,
{
    match a {
        Json::Arr(x) => match b {
            Json::Arr(y) => x@.len() == y@.len() && forall|i: int|
                0 <= i < x@.len() ==> same_json(#[trigger] x@[i], y@[i]),
            _ => false,
        },
        Json::Obj(f) => match b {
            Json::Obj(g) => f@.len() == g@.len() && forall|i: int|
                0 <= i < f@.len() ==> (#[trigger] f@[i]).0@ == g@[i].0@ && same_json(
                    f@[i].1,
                    g@[i].1,
                ),
            _ => false,
        },
        Json::Str(x) => b matches Json::Str(y) && x@ == y@,
        Json::Frac(x) => b matches Json::Frac(y) && x@ == y@,
        _ => b == a,
    }
}

/// A deep copy of `a`.
pub fn clone_json(a: &Json) -> (r: Json)
    ensures
        same_json(*a, r),
    decreases a, 1nat,
{
    match a {
        Json::Null => Json::Null,
        Json::Bool(b) => Json::Bool(*b),
        Json::Int(n) => Json::Int(*n),
        Json::Frac(s) => Json::Frac(s.clone()),
        Json::Str(s) => Json::Str(s.clone()),
        Json::Arr(x) => Json::Arr(clone_items(x)),
        Json::Obj(f) => Json::Obj(clone_members(f)),
    }
}

fn clone_items(x: &Vec<Json>) -> (r: Vec<Json>)
    ensures
        x@.len() == r@.len(),
        forall|m: int| 0 <= m < x@.len() ==> same_json(#[trigger] x@[m], r@[m]),
    decreases x, 0nat,
{
    let mut out: Vec<Json> = Vec::new();
    let mut i: usize = 0;
    while i < x.len()
        invariant
            i <= x@.len(),
            out@.len() == i,
            forall|m: int| 0 <= m < i ==> same_json(#[trigger] x@[m], out@[m]),
        decreases x.len() - i,
    {
        proof {
            vstd::std_specs::vec::axiom_vec_index_decreases(*x, i as int);
        }
        out.push(clone_json(&x[i]));
        i = i + 1;
    }
    out
}

fn clone_members(f: &Vec<(String, Json)>) -> (r: Vec<(String, Json)>)
    ensures
        f@.len() == r@.len(),
        forall|m: int|
            0 <= m < f@.len() ==> (#[trigger] f@[m]).0@ == r@[m].0@ && same_json(f@[m].1, r@[m].1),
    decreases f, 0nat,
{
    let mut out: Vec<(String, Json)> = Vec::new();
    let mut i: usize = 0;
    while i < f.len()
        invariant
            i <= f@.len(),
            out@.len() == i,
            forall|m: int|
                0 <= m < i ==> (#[trigger] f@[m]).0@ == out@[m].0@ && same_json(
                    f@[m].1,
                    out@[m].1,
                ),
        decreases f.len() - i,
    {
        proof {
            vstd::std_specs::vec::axiom_vec_index_decreases(*f, i as int);
        }
        let k = f[i].0.clone();
        let v = clone_json(&f[i].1);
        out.push((k, v));
        i = i + 1;
    }
    out
}

} // verus!
