//! The Maoyan listings: addresses of the endpoints, and what is read out of
//! their replies (cinema payloads, show lists, movie names, the films page).
//!
//! The requests themselves are made by the program; this module shapes the
//! replies it hands over.

use vstd::prelude::*;

use crate::json::{
    as_i64_v, as_str_v, field, get, get_i64, get_str, i64_field, same_json, clone_json, str_field,
    arr_field, Json,
};
use crate::strset::{lex_lt, lex_order, sort_dedup, strictly_sorted};
use crate::text::{
    append_str, chars_of, contains_s, contains_str, owned, signed_text, i64_text, string_of_range,
    trim, trim_s, views_of,
};

verus! {

/// Mobile page of a cinema, also the referer of its detail request.
pub open spec fn buy_mobile_url_s(cid: Seq<char>) -> Seq<char> {
    "https://m.maoyan.com/shows/"@ + cid
}

/// Desktop page of a cinema.
pub open spec fn buy_pc_url_s(cid: Seq<char>) -> Seq<char> {
    "https://www.maoyan.com/cinema/"@ + cid
}

/// The cinema detail endpoint.
pub open spec fn cinema_api_url_s(cid: Seq<char>) -> Seq<char> {
    "https://m.maoyan.com/ajax/cinemaDetail?cinemaId="@ + cid
}

/// The movie detail endpoint.
pub open spec fn film_api_url_s(mid: i64) -> Seq<char> {
    "https://m.maoyan.com/ajax/detailmovie?movieId="@ + signed_text(mid as int)
}

fn prefixed(prefix: &str, tail: &str) -> (r: String)
    ensures
        r@ == prefix@ + tail@,
{
    let mut s = owned(prefix);
    append_str(&mut s, tail);
    s
}

/// The mobile page of a cinema.
pub fn buy_mobile_url(cinema_id: &str) -> (r: String)
    ensures
        r@ == buy_mobile_url_s(cinema_id@),
{
    prefixed("https://m.maoyan.com/shows/", cinema_id)
}

/// The desktop page where tickets of a cinema are bought.
pub fn buy_pc_url(cinema_id: &str) -> (r: String)
    ensures
        r@ == buy_pc_url_s(cinema_id@),
{
    prefixed("https://www.maoyan.com/cinema/", cinema_id)
}

/// [`buy_pc_url`], for callers that keep the string.
pub fn buy_pc_url_owned(cinema_id: &str) -> (r: String)
    ensures
        r@ == buy_pc_url_s(cinema_id@),
{
    buy_pc_url(cinema_id)
}

/// The cinema detail endpoint of `cinema_id`.
pub fn cinema_api_url(cinema_id: &str) -> (r: String)
    ensures
        r@ == cinema_api_url_s(cinema_id@),
{
    prefixed("https://m.maoyan.com/ajax/cinemaDetail?cinemaId=", cinema_id)
}

/// The movie detail endpoint of `movie_id`.
pub fn film_api_url(movie_id: i64) -> (r: String)
    ensures
        r@ == film_api_url_s(movie_id),
{
    let n = i64_text(movie_id);
    prefixed("https://m.maoyan.com/ajax/detailmovie?movieId=", n.as_str())
}

/// The desktop films page of one listing type (1: now showing, 2: coming).
pub fn films_list_url(show_type: u8) -> (r: String)
    ensures
        r@ == "https://www.maoyan.com/films?showType="@ + signed_text(show_type as int),
{
    let n = i64_text(show_type as i64);
    prefixed("https://www.maoyan.com/films?showType=", n.as_str())
}

// ----------------------------------------------------------------------
// Cinema payload
// ----------------------------------------------------------------------

/// The payload made of a cinema detail reply `data`: the id, the cinema
/// name (`影城 <id>` when the reply has none) and a copy of the movie list
/// (an empty list when absent).
pub open spec fn is_cinema_payload(p: Json, cid: Seq<char>, data: Json) -> bool {
    let show = match field(data, "showData"@) {
        Some(s) => s,
        None => Json::Null,
    };
    &&& p is Obj
    &&& str_field(p, "cinema_id"@) == Some(cid)
    &&& str_field(p, "cinema_name"@) == Some(
        match str_field(show, "cinemaName"@) {
            Some(n) => n,
            None => "影城 "@ + cid,
        },
    )
    &&& field(p, "movies"@) matches Some(m) && match field(show, "movies"@) {
        Some(src) => same_json(src, m),
        None => m matches Json::Arr(a) && a@.len() == 0,
    }
    &&& forall|k: Seq<char>|
        k != "cinema_id"@ && k != "cinema_name"@ && k != "movies"@ ==> field(p, k) is None
}

proof fn reveal_payload_keys()
    ensures
        "cinema_id"@ != "cinema_name"@,
        "cinema_id"@ != "movies"@,
        "cinema_name"@ != "movies"@,
{
    reveal_strlit("cinema_id");
    reveal_strlit("cinema_name");
    reveal_strlit("movies");
    assert("cinema_id"@.len() != "cinema_name"@.len());
    assert("cinema_id"@.len() != "movies"@.len());
    assert("cinema_name"@.len() != "movies"@.len());
}

/// Shapes a cinema detail reply into the payload the monitor reads.
pub fn cinema_payload(cinema_id: &str, data: &Json) -> (p: Json)
    ensures
        is_cinema_payload(p, cinema_id@, *data),
{
    proof {
        reveal_payload_keys();
    }
    let null = Json::Null;
    let show: &Json = match get(data, "showData") {
        Some(s) => s,
        None => &null,
    };
    let name = match get_str(show, "cinemaName") {
        Some(n) => n,
        None => prefixed("影城 ", cinema_id),
    };
    let movies = match get(show, "movies") {
        Some(m) => clone_json(m),
        None => Json::Arr(Vec::new()),
    };
    let mut f: Vec<(String, Json)> = Vec::new();
    f.push((owned("cinema_id"), Json::Str(owned(cinema_id))));
    f.push((owned("cinema_name"), Json::Str(name)));
    f.push((owned("movies"), movies));
    let ghost fs = f@;
    proof {
        assert(fs[0].0@ == "cinema_id"@);
        assert(fs[1].0@ == "cinema_name"@);
        assert(fs[2].0@ == "movies"@);
        crate::json::lemma_lookup_index(fs, "cinema_id"@, 0);
        crate::json::lemma_lookup_index(fs, "cinema_name"@, 1);
        crate::json::lemma_lookup_index(fs, "movies"@, 2);
        assert forall|k: Seq<char>|
            k != "cinema_id"@ && k != "cinema_name"@ && k != "movies"@ implies crate::json::obj_lookup(
            fs,
            k,
        ) is None by {
            crate::json::lemma_lookup_absent(fs, k);
        }
    }
    Json::Obj(f)
}

// ----------------------------------------------------------------------
// Shows of a movie
// ----------------------------------------------------------------------

/// The show entries of a movie: every item of every `plist` of its
/// `shows`, in order (lists that are absent or no list count as empty).
pub open spec fn plist_items(shows: Seq<Json>) -> Seq<Json>
    decreases shows.len(),
{
    if shows.len() == 0 {
        Seq::empty()
    } else {
        plist_items(shows.drop_last()) + match arr_field(shows.last(), "plist"@) {
            Some(p) => p,
            None => Seq::empty(),
        }
    }
}

pub open spec fn show_entries(movie: Json) -> Seq<Json> {
    match arr_field(movie, "shows"@) {
        Some(s) => plist_items(s),
        None => Seq::empty(),
    }
}

/// The dates of a movie's shows: the set of its entries' `dt` strings.
pub open spec fn show_dates(entries: Seq<Json>) -> Seq<Seq<char>>
    decreases entries.len(),
{
    if entries.len() == 0 {
        Seq::empty()
    } else {
        let rest = show_dates(entries.drop_last());
        match str_field(entries.last(), "dt"@) {
            Some(d) => rest.push(d),
            None => rest,
        }
    }
}

fn plist_of(s: &Json) -> (r: &[Json])
    ensures
        r@ == match arr_field(*s, "plist"@) {
            Some(p) => p,
            None => Seq::empty(),
        },
{
    match get(s, "plist") {
        Some(Json::Arr(p)) => p.as_slice(),
        _ => &[],
    }
}

fn shows_of(m: &Json) -> (r: &[Json])
    ensures
        r@ == match arr_field(*m, "shows"@) {
            Some(s) => s,
            None => Seq::empty(),
        },
{
    match get(m, "shows") {
        Some(Json::Arr(s)) => s.as_slice(),
        _ => &[],
    }
}

/// The show dates of a movie, as an ordered set.
pub fn movie_dates(movie: &Json) -> (r: Vec<String>)
    ensures
        strictly_sorted(views_of(r@)),
        views_of(r@).to_set() == show_dates(show_entries(*movie)).to_set(),
{
    let shows = shows_of(movie);
    let mut all: Vec<String> = Vec::new();
    let mut i: usize = 0;
    assert(shows@.take(0) =~= Seq::<Json>::empty());
    while i < shows.len()
        invariant
            i <= shows@.len(),
            views_of(all@) == show_dates(plist_items(shows@.take(i as int))),
        decreases shows.len() - i,
    {
        let plist = plist_of(&shows[i]);
        let ghost before = plist_items(shows@.take(i as int));
        let mut j: usize = 0;
        assert(before + plist@.take(0) =~= before);
        while j < plist.len()
            invariant
                j <= plist@.len(),
                views_of(all@) == show_dates(before + plist@.take(j as int)),
            decreases plist.len() - j,
        {
            let ghost e = before + plist@.take(j as int);
            assert((before + plist@.take(j + 1)).drop_last() =~= e);
            assert((before + plist@.take(j + 1)).last() == plist@[j as int]);
            match get_str(&plist[j], "dt") {
                Some(d) => {
                    all.push(d);
                    assert(views_of(all@) =~= show_dates(e).push(all@.last()@));
                },
                None => {},
            }
            j = j + 1;
        }
        assert(plist@.take(plist@.len() as int) =~= plist@);
        assert(shows@.take(i + 1).drop_last() =~= shows@.take(i as int));
        assert(shows@.take(i + 1).last() == shows@[i as int]);
        i = i + 1;
    }
    assert(shows@.take(shows@.len() as int) =~= shows@);
    sort_dedup(all.as_slice())
}

/// One show of a movie at a cinema. `seq_no` is Maoyan's number of the
/// show, by which new shows are told from known ones.
#[derive(Debug, Clone)]
pub struct ShowInfo {
    pub seq_no: String,
    /// Date `YYYY-MM-DD`.
    pub dt: String,
    /// Start time `HH:MM`.
    pub tm: String,
    /// Hall, such as `IMAX 激光厅`.
    pub th: String,
    /// Format, such as `IMAX2D`.
    pub tp: String,
}

/// A show by the text of its fields.
pub struct ShowV {
    pub seq_no: Seq<char>,
    pub dt: Seq<char>,
    pub tm: Seq<char>,
    pub th: Seq<char>,
    pub tp: Seq<char>,
}

impl View for ShowInfo {
    type V = ShowV;

    open spec fn view(&self) -> ShowV {
        ShowV { seq_no: self.seq_no@, dt: self.dt@, tm: self.tm@, th: self.th@, tp: self.tp@ }
    }
}

/// Bytes of `c` in UTF-8.
pub open spec fn utf8_len(c: char) -> nat {
    if (c as u32) < 0x80 {
        1
    } else if (c as u32) < 0x800 {
        2
    } else if (c as u32) < 0x10000 {
        3
    } else {
        4
    }
}

/// `s.get(n..)` by bytes: the rest of `s` after its first `n` bytes, when
/// `n` falls on a character boundary within `s`.
pub open spec fn skip_bytes(s: Seq<char>, n: nat) -> Option<Seq<char>>
    decreases s.len(),
{
    if n == 0 {
        Some(s)
    } else if s.len() == 0 {
        None
    } else if utf8_len(s[0]) <= n {
        skip_bytes(s.drop_first(), (n - utf8_len(s[0])) as nat)
    } else {
        None
    }
}

/// The one-line label of a show: the date without its year (the whole date
/// when it is shorter), the time, and the hall and the format when present.
pub open spec fn show_label(s: ShowV) -> Seq<char> {
    let date = match skip_bytes(s.dt, 5) {
        Some(d) => d,
        None => s.dt,
    };
    let base = date + " "@ + s.tm;
    let with_hall = if s.th.len() > 0 {
        base + " "@ + s.th
    } else {
        base
    };
    if s.tp.len() > 0 {
        with_hall + " "@ + s.tp
    } else {
        with_hall
    }
}

fn utf8_len_exec(c: char) -> (r: usize)
    ensures
        r == utf8_len(c),
{
    if (c as u32) < 0x80 {
        1
    } else if (c as u32) < 0x800 {
        2
    } else if (c as u32) < 0x10000 {
        3
    } else {
        4
    }
}

/// `s.get(n..)`, by bytes.
pub fn skip_bytes_exec(s: &str, n: usize) -> (r: Option<String>)
    ensures
        match r {
            Some(t) => skip_bytes(s@, n as nat) == Some(t@),
            None => skip_bytes(s@, n as nat) is None,
        },
{
    let v = chars_of(s);
    let mut i: usize = 0;
    let mut left: usize = n;
    assert(v@.skip(0) =~= v@);
    while left > 0
        invariant
            i <= v@.len(),
            left <= n,
            skip_bytes(s@, n as nat) == skip_bytes(v@.skip(i as int), left as nat),
            v@ == s@,
        decreases left,
    {
        if i >= v.len() {
            return None;
        }
        let b = utf8_len_exec(v[i]);
        assert(v@.skip(i as int)[0] == v@[i as int]);
        if b > left {
            return None;
        }
        assert(v@.skip(i as int).drop_first() =~= v@.skip(i + 1));
        left = left - b;
        i = i + 1;
    }
    let r = string_of_range(&v, i, v.len());
    assert(v@.subrange(i as int, v@.len() as int) =~= v@.skip(i as int));
    Some(r)
}

impl ShowInfo {
    /// The line used in notices: `08-09 19:30 IMAX 激光厅 IMAX2D`.
    pub fn label(&self) -> (r: String)
        ensures
            r@ == show_label(self@),
    {
        let mut s = match skip_bytes_exec(self.dt.as_str(), 5) {
            Some(d) => d,
            None => self.dt.clone(),
        };
        append_str(&mut s, " ");
        append_str(&mut s, self.tm.as_str());
        if self.th.unicode_len() > 0 {
            append_str(&mut s, " ");
            append_str(&mut s, self.th.as_str());
        }
        if self.tp.unicode_len() > 0 {
            append_str(&mut s, " ");
            append_str(&mut s, self.tp.as_str());
        }
        s
    }
}

/// The text of an entry's `seqNo`: a string as it is, a number in its
/// decimal text.
pub open spec fn seq_no_text(e: Json) -> Option<Seq<char>> {
    match field(e, "seqNo"@) {
        Some(Json::Str(t)) => Some(t@),
        Some(Json::Int(n)) => Some(signed_text(n as int)),
        Some(Json::Frac(t)) => Some(t@),
        _ => None,
    }
}

pub open spec fn str_or_blank(e: Json, k: Seq<char>) -> Seq<char> {
    match str_field(e, k) {
        Some(t) => t,
        None => Seq::empty(),
    }
}

/// The show of an entry; entries without a show number give none.
pub open spec fn entry_show(e: Json) -> Option<ShowV> {
    match seq_no_text(e) {
        Some(sn) => if sn.len() > 0 {
            Some(
                ShowV {
                    seq_no: sn,
                    dt: str_or_blank(e, "dt"@),
                    tm: str_or_blank(e, "tm"@),
                    th: str_or_blank(e, "th"@),
                    tp: str_or_blank(e, "tp"@),
                },
            )
        } else {
            None
        },
        None => None,
    }
}

/// The shows of a list of entries, in order.
pub open spec fn shows_in(entries: Seq<Json>) -> Seq<ShowV>
    decreases entries.len(),
{
    if entries.len() == 0 {
        Seq::empty()
    } else {
        let rest = shows_in(entries.drop_last());
        match entry_show(entries.last()) {
            Some(x) => rest.push(x),
            None => rest,
        }
    }
}

/// `a` starts before `b`: earlier date, or same date and earlier time.
pub open spec fn show_before(a: ShowV, b: ShowV) -> bool {
    lex_lt(a.dt, b.dt) || (a.dt == b.dt && lex_lt(a.tm, b.tm))
}

/// `x` put into `l` before the first show that starts after it.
pub open spec fn insert_show(l: Seq<ShowV>, x: ShowV) -> Seq<ShowV>
    decreases l.len(),
{
    if l.len() == 0 {
        seq![x]
    } else if show_before(x, l[0]) {
        seq![x] + l
    } else {
        seq![l[0]] + insert_show(l.drop_first(), x)
    }
}

/// The shows ordered by start, shows that start together kept in their
/// order (a stable sort by date and time).
pub open spec fn sort_shows(s: Seq<ShowV>) -> Seq<ShowV>
    decreases s.len(),
{
    if s.len() == 0 {
        Seq::empty()
    } else {
        insert_show(sort_shows(s.drop_last()), s.last())
    }
}

pub open spec fn show_views(v: Seq<ShowInfo>) -> Seq<ShowV> {
    v.map_values(|s: ShowInfo| s@)
}

fn entry_to_show(e: &Json) -> (r: Option<ShowInfo>)
    ensures
        match r {
            Some(x) => entry_show(*e) == Some(x@),
            None => entry_show(*e) is None,
        },
{
    let seq_no = match get(e, "seqNo") {
        Some(Json::Str(t)) => t.clone(),
        Some(Json::Int(n)) => crate::text::i128_text(*n),
        Some(Json::Frac(t)) => t.clone(),
        _ => return None,
    };
    if seq_no.unicode_len() == 0 {
        return None;
    }
    let dt = match get_str(e, "dt") {
        Some(t) => t,
        None => String::new(),
    };
    let tm = match get_str(e, "tm") {
        Some(t) => t,
        None => String::new(),
    };
    let th = match get_str(e, "th") {
        Some(t) => t,
        None => String::new(),
    };
    let tp = match get_str(e, "tp") {
        Some(t) => t,
        None => String::new(),
    };
    Some(ShowInfo { seq_no, dt, tm, th, tp })
}

fn starts_before(a: &ShowInfo, b: &ShowInfo) -> (r: bool)
    ensures
        r == show_before(a@, b@),
{
    let ad = chars_of(a.dt.as_str());
    let bd = chars_of(b.dt.as_str());
    let c = lex_order(&ad, &bd);
    if c == -1 {
        true
    } else if c == 1 {
        false
    } else {
        let at = chars_of(a.tm.as_str());
        let bt = chars_of(b.tm.as_str());
        lex_order(&at, &bt) == -1
    }
}

fn insert_show_exec(v: &mut Vec<ShowInfo>, x: ShowInfo)
    ensures
        show_views(final(v)@) == insert_show(show_views(old(v)@), x@),
{
    let ghost s0 = show_views(v@);
    let mut p: usize = 0;
    assert(s0.take(0) + insert_show(s0.skip(0), x@) =~= insert_show(s0, x@)) by {
        assert(s0.skip(0) =~= s0);
    }
    while p < v.len() && !starts_before(&x, &v[p])
        invariant
            p <= v@.len(),
            show_views(v@) == s0,
            insert_show(s0, x@) == s0.take(p as int) + insert_show(s0.skip(p as int), x@),
        decreases v.len() - p,
    {
        proof {
            let t = s0.skip(p as int);
            assert(t[0] == v@[p as int]@);
            assert(t.drop_first() =~= s0.skip(p + 1));
            assert(s0.take(p + 1) =~= s0.take(p as int).push(t[0]));
            assert(s0.take(p as int) + insert_show(t, x@) =~= s0.take(p + 1) + insert_show(
                s0.skip(p + 1),
                x@,
            ));
        }
        p = p + 1;
    }
    proof {
        let t = s0.skip(p as int);
        if p < v@.len() {
            assert(t[0] == v@[p as int]@);
        } else {
            assert(t =~= Seq::<ShowV>::empty());
        }
        assert(insert_show(t, x@) == seq![x@] + t);
    }
    v.insert(p, x);
    proof {
        assert(show_views(v@) =~= s0.take(p as int) + (seq![x@] + s0.skip(p as int)));
    }
}

/// Every show of a movie that has a show number, ordered by date and time
/// (shows at the same time keep their order). A number given as a number
/// is read as its decimal text.
pub fn movie_shows(movie: &Json) -> (r: Vec<ShowInfo>)
    ensures
        show_views(r@) == sort_shows(shows_in(show_entries(*movie))),
{
    let shows = shows_of(movie);
    let mut out: Vec<ShowInfo> = Vec::new();
    let mut i: usize = 0;
    assert(shows@.take(0) =~= Seq::<Json>::empty());
    assert(show_views(out@) =~= Seq::<ShowV>::empty());
    while i < shows.len()
        invariant
            i <= shows@.len(),
            show_views(out@) == sort_shows(shows_in(plist_items(shows@.take(i as int)))),
        decreases shows.len() - i,
    {
        let plist = plist_of(&shows[i]);
        let ghost before = plist_items(shows@.take(i as int));
        let mut j: usize = 0;
        assert(before + plist@.take(0) =~= before);
        while j < plist.len()
            invariant
                j <= plist@.len(),
                show_views(out@) == sort_shows(shows_in(before + plist@.take(j as int))),
            decreases plist.len() - j,
        {
            let ghost e = before + plist@.take(j as int);
            assert((before + plist@.take(j + 1)).drop_last() =~= e);
            assert((before + plist@.take(j + 1)).last() == plist@[j as int]);
            let ghost e2 = before + plist@.take(j + 1);
            match entry_to_show(&plist[j]) {
                Some(x) => {
                    let ghost xv = x@;
                    insert_show_exec(&mut out, x);
                    proof {
                        assert(shows_in(e2) == shows_in(e).push(xv));
                        assert(shows_in(e).push(xv).drop_last() =~= shows_in(e));
                        assert(sort_shows(shows_in(e2)) == insert_show(sort_shows(shows_in(e)), xv));
                    }
                },
                None => {
                    assert(shows_in(e2) == shows_in(e));
                },
            }
            j = j + 1;
        }
        assert(plist@.take(plist@.len() as int) =~= plist@);
        assert(shows@.take(i + 1).drop_last() =~= shows@.take(i as int));
        assert(shows@.take(i + 1).last() == shows@[i as int]);
        i = i + 1;
    }
    assert(shows@.take(shows@.len() as int) =~= shows@);
    out
}

/// No show of a sorted list starts before an earlier one.
pub open spec fn shows_ordered(s: Seq<ShowV>) -> bool {
    forall|i: int, j: int| 0 <= i < j < s.len() ==> !show_before(#[trigger] s[j], #[trigger] s[i])
}

proof fn lemma_show_before_trans(a: ShowV, b: ShowV, c: ShowV)
    requires
        !show_before(b, a),
        !show_before(c, b),
    ensures
        !show_before(c, a),
{
    crate::strset::lemma_lex_irreflexive(a.dt);
    if a.dt != b.dt {
        crate::strset::lemma_lex_total(a.dt, b.dt);
    }
    if b.dt != c.dt {
        crate::strset::lemma_lex_total(b.dt, c.dt);
    }
    if a.tm != b.tm {
        crate::strset::lemma_lex_total(a.tm, b.tm);
    }
    if b.tm != c.tm {
        crate::strset::lemma_lex_total(b.tm, c.tm);
    }
    if show_before(c, a) {
        if lex_lt(c.dt, a.dt) {
            if lex_lt(a.dt, b.dt) {
                crate::strset::lemma_lex_trans(c.dt, a.dt, b.dt);
                crate::strset::lemma_lex_asym(c.dt, b.dt);
            }
            if lex_lt(b.dt, c.dt) {
                crate::strset::lemma_lex_asym(c.dt, a.dt);
                crate::strset::lemma_lex_trans(b.dt, c.dt, a.dt);
                crate::strset::lemma_lex_asym(a.dt, b.dt);
            }
            if a.dt == b.dt && b.dt == c.dt {
                crate::strset::lemma_lex_irreflexive(c.dt);
            }
        } else {
            if lex_lt(a.dt, b.dt) {
                crate::strset::lemma_lex_asym(a.dt, b.dt);
            }
            if lex_lt(b.dt, c.dt) {
                crate::strset::lemma_lex_asym(b.dt, c.dt);
            }
            if lex_lt(c.tm, a.tm) && lex_lt(a.tm, b.tm) {
                crate::strset::lemma_lex_trans(c.tm, a.tm, b.tm);
                crate::strset::lemma_lex_asym(c.tm, b.tm);
            }
            if lex_lt(b.tm, c.tm) && lex_lt(c.tm, a.tm) {
                crate::strset::lemma_lex_trans(b.tm, c.tm, a.tm);
                crate::strset::lemma_lex_asym(a.tm, b.tm);
            }
        }
    }
}

proof fn lemma_insert_show_ordered(l: Seq<ShowV>, x: ShowV)
    requires
        shows_ordered(l),
    ensures
        shows_ordered(insert_show(l, x)),
        insert_show(l, x).len() == l.len() + 1,
        forall|k: int|
            0 <= k < insert_show(l, x).len() ==> #[trigger] insert_show(l, x)[k] == x || l.contains(
                insert_show(l, x)[k],
            ),
    decreases l.len(),
{
    let r = insert_show(l, x);
    if l.len() == 0 {
    } else if show_before(x, l[0]) {
        assert forall|i: int, j: int| 0 <= i < j < r.len() implies !show_before(
            #[trigger] r[j],
            #[trigger] r[i],
        ) by {
            if i == 0 {
                assert(r[j] == l[j - 1]);
                if j - 1 > 0 {
                    assert(!show_before(l[j - 1], l[0]));
                }
                lemma_before_not_back(x, l[0]);
                if j - 1 > 0 {
                    lemma_show_before_trans(x, l[0], l[j - 1]);
                }
            } else {
                assert(r[i] == l[i - 1] && r[j] == l[j - 1]);
            }
        }
        assert forall|k: int| 0 <= k < r.len() implies #[trigger] r[k] == x || l.contains(r[k]) by {
            if k > 0 {
                assert(r[k] == l[k - 1]);
            }
        }
    } else {
        let t = l.drop_first();
        assert forall|i: int, j: int| 0 <= i < j < t.len() implies !show_before(
            #[trigger] t[j],
            #[trigger] t[i],
        ) by {
            assert(t[i] == l[i + 1] && t[j] == l[j + 1]);
        }
        lemma_insert_show_ordered(t, x);
        let rt = insert_show(t, x);
        assert forall|i: int, j: int| 0 <= i < j < r.len() implies !show_before(
            #[trigger] r[j],
            #[trigger] r[i],
        ) by {
            if i == 0 {
                assert(r[0] == l[0]);
                assert(r[j] == rt[j - 1]);
                if rt[j - 1] == x {
                } else {
                    assert(t.contains(rt[j - 1]));
                    let m = choose|m: int| 0 <= m < t.len() && t[m] == rt[j - 1];
                    assert(l[m + 1] == t[m]);
                    assert(!show_before(l[m + 1], l[0]));
                }
            } else {
                assert(r[i] == rt[i - 1] && r[j] == rt[j - 1]);
            }
        }
        assert forall|k: int| 0 <= k < r.len() implies #[trigger] r[k] == x || l.contains(r[k]) by {
            if k == 0 {
                assert(r[0] == l[0]);
            } else {
                assert(r[k] == rt[k - 1]);
                if rt[k - 1] != x {
                    assert(t.contains(rt[k - 1]));
                    let m = choose|m: int| 0 <= m < t.len() && t[m] == rt[k - 1];
                    assert(l[m + 1] == t[m]);
                }
            }
        }
    }
}

proof fn lemma_before_not_back(a: ShowV, b: ShowV)
    requires
        show_before(a, b),
    ensures
        !show_before(b, a),
{
    crate::strset::lemma_lex_asym(a.dt, b.dt);
    crate::strset::lemma_lex_asym(a.tm, b.tm);
    crate::strset::lemma_lex_irreflexive(a.dt);
}

/// The shows come out ordered by date and time.
pub proof fn law_sort_shows_ordered(s: Seq<ShowV>)
    ensures
        shows_ordered(sort_shows(s)),
        sort_shows(s).len() == s.len(),
    decreases s.len(),
{
    if s.len() > 0 {
        law_sort_shows_ordered(s.drop_last());
        lemma_insert_show_ordered(sort_shows(s.drop_last()), s.last());
    }
}

// ----------------------------------------------------------------------
// Finding a movie in a cinema payload
// ----------------------------------------------------------------------

/// The movies of a cinema payload; none when absent or no list.
pub open spec fn movies_of(p: Json) -> Seq<Json> {
    match arr_field(p, "movies"@) {
        Some(m) => m,
        None => Seq::empty(),
    }
}

/// The movie's `id` is `id`.
pub open spec fn has_movie_id(m: Json, id: i64) -> bool {
    i64_field(m, "id"@) == Some(id)
}

/// The movie's name holds one of the non-empty keywords.
pub open spec fn matches_keyword(m: Json, kws: Seq<Seq<char>>) -> bool {
    exists|k: int|
        0 <= k < kws.len() && kws[k].len() > 0 && contains_s(
            str_or_blank(m, "nm"@),
            #[trigger] kws[k],
        )
}

/// Index of the first movie meeting `pred`.
pub open spec fn first_index(ms: Seq<Json>, pred: spec_fn(Json) -> bool) -> Option<int>
    decreases ms.len(),
{
    if ms.len() == 0 {
        None
    } else if pred(ms[0]) {
        Some(0)
    } else {
        match first_index(ms.drop_first(), pred) {
            Some(i) => Some(i + 1),
            None => None,
        }
    }
}

proof fn lemma_first_index_at(ms: Seq<Json>, pred: spec_fn(Json) -> bool, i: int)
    requires
        0 <= i < ms.len(),
        pred(ms[i]),
        forall|j: int| 0 <= j < i ==> !pred(#[trigger] ms[j]),
    ensures
        first_index(ms, pred) == Some(i),
    decreases i,
{
    if i > 0 {
        assert(!pred(ms[0]));
        assert forall|j: int| 0 <= j < i - 1 implies !pred(#[trigger] ms.drop_first()[j]) by {
            assert(ms.drop_first()[j] == ms[j + 1]);
        }
        lemma_first_index_at(ms.drop_first(), pred, i - 1);
    }
}

proof fn lemma_first_index_none(ms: Seq<Json>, pred: spec_fn(Json) -> bool)
    requires
        forall|j: int| 0 <= j < ms.len() ==> !pred(#[trigger] ms[j]),
    ensures
        first_index(ms, pred) is None,
    decreases ms.len(),
{
    if ms.len() > 0 {
        assert(!pred(ms[0]));
        assert forall|j: int| 0 <= j < ms.len() - 1 implies !pred(#[trigger] ms.drop_first()[j]) by {
            assert(ms.drop_first()[j] == ms[j + 1]);
        }
        lemma_first_index_none(ms.drop_first(), pred);
    }
}

/// The movie a watch means: the first with its id, else the first whose
/// name holds one of the non-empty keywords.
pub open spec fn find_movie_s(p: Json, id: i64, kws: Seq<Seq<char>>) -> Option<Json> {
    let ms = movies_of(p);
    match first_index(ms, |m: Json| has_movie_id(m, id)) {
        Some(i) => Some(ms[i]),
        None => match first_index(ms, |m: Json| matches_keyword(m, kws)) {
            Some(i) => Some(ms[i]),
            None => None,
        },
    }
}

fn matches_keyword_exec(m: &Json, keywords: &[&str]) -> (r: bool)
    ensures
        r == matches_keyword(*m, crate::config::strs_view(keywords@)),
{
    let nm = match get_str(m, "nm") {
        Some(n) => n,
        None => String::new(),
    };
    let ghost kv = crate::config::strs_view(keywords@);
    let mut k: usize = 0;
    while k < keywords.len()
        invariant
            k <= keywords@.len(),
            kv == crate::config::strs_view(keywords@),
            nm@ == str_or_blank(*m, "nm"@),
            forall|j: int|
                0 <= j < k ==> !(kv[j].len() > 0 && contains_s(nm@, #[trigger] kv[j])),
        decreases keywords.len() - k,
    {
        let kw = keywords[k];
        assert(kv[k as int] == kw@);
        if kw.unicode_len() > 0 && contains_str(nm.as_str(), kw) {
            return true;
        }
        k = k + 1;
    }
    false
}

/// The movie a watch means in a cinema payload (see [`find_movie_s`]).
pub fn find_movie<'a>(cinema_payload: &'a Json, movie_id: i64, keywords: &[&str]) -> (r: Option<
    &'a Json,
>)
    ensures
        match r {
            Some(m) => find_movie_s(*cinema_payload, movie_id, crate::config::strs_view(keywords@))
                == Some(*m),
            None => find_movie_s(
                *cinema_payload,
                movie_id,
                crate::config::strs_view(keywords@),
            ) is None,
        },
{
    let ms: &[Json] = match get(cinema_payload, "movies") {
        Some(Json::Arr(v)) => v.as_slice(),
        _ => &[],
    };
    let ghost by_id = |m: Json| has_movie_id(m, movie_id);
    let ghost by_kw = |m: Json| matches_keyword(m, crate::config::strs_view(keywords@));
    let mut i: usize = 0;
    while i < ms.len()
        invariant
            i <= ms@.len(),
            ms@ == movies_of(*cinema_payload),
            by_id == (|m: Json| has_movie_id(m, movie_id)),
            forall|j: int| 0 <= j < i ==> !by_id(#[trigger] ms@[j]),
        decreases ms.len() - i,
    {
        if get_i64(&ms[i], "id") == Some(movie_id) {
            proof {
                lemma_first_index_at(ms@, by_id, i as int);
            }
            return Some(&ms[i]);
        }
        i = i + 1;
    }
    proof {
        lemma_first_index_none(ms@, by_id);
    }
    let mut i: usize = 0;
    while i < ms.len()
        invariant
            i <= ms@.len(),
            ms@ == movies_of(*cinema_payload),
            by_kw == (|m: Json| matches_keyword(m, crate::config::strs_view(keywords@))),
            first_index(ms@, |m: Json| has_movie_id(m, movie_id)) is None,
            forall|j: int| 0 <= j < i ==> !by_kw(#[trigger] ms@[j]),
        decreases ms.len() - i,
    {
        if matches_keyword_exec(&ms[i], keywords) {
            proof {
                lemma_first_index_at(ms@, by_kw, i as int);
            }
            return Some(&ms[i]);
        }
        i = i + 1;
    }
    proof {
        lemma_first_index_none(ms@, by_kw);
    }
    None
}

// ----------------------------------------------------------------------
// Movie name from a detail reply
// ----------------------------------------------------------------------

/// The movie part of a detail reply: `detailMovie`, else `movie`, else the
/// reply itself.
pub open spec fn detail_movie(data: Json) -> Json {
    match field(data, "detailMovie"@) {
        Some(v) => v,
        None => match field(data, "movie"@) {
            Some(v) => v,
            None => data,
        },
    }
}

/// The movie name in a movie detail reply.
pub fn movie_name_from_detail(data: &Json) -> (r: Option<String>)
    ensures
        match r {
            Some(n) => str_field(detail_movie(*data), "nm"@) == Some(n@),
            None => str_field(detail_movie(*data), "nm"@) is None,
        },
{
    let mv: &Json = match get(data, "detailMovie") {
        Some(v) => v,
        None => match get(data, "movie") {
            Some(v) => v,
            None => data,
        },
    };
    get_str(mv, "nm")
}

// ----------------------------------------------------------------------
// The films page
// ----------------------------------------------------------------------

/// The pattern of a film link on the films page; its first group is the
/// film id and its second the link text.
pub const FILM_LINK_PATTERN: &'static str = "<a href=\"/films/(\\d+)\"[^>]*>([^<]+)</a>";

/// What `regex::Regex::captures_iter` finds in `body` with the regular
/// expression `pattern`: for each match, leftmost first and without
/// overlap, the text of its first and of its second group.
pub uninterp spec fn regex_captures(pattern: Seq<char>, body: Seq<char>) -> Seq<(Seq<char>, Seq<char>)>;

/// The film links in a page: the two groups of each match of
/// [`FILM_LINK_PATTERN`], in order.
pub open spec fn film_links(body: Seq<char>) -> Seq<(Seq<char>, Seq<char>)> {
    regex_captures(FILM_LINK_PATTERN@, body)
}

pub open spec fn pair_views(v: Seq<(String, String)>) -> Seq<(Seq<char>, Seq<char>)> {
    v.map_values(|p: (String, String)| (p.0@, p.1@))
}

/// `regex::Regex::new(pattern)`, then `captures_iter` over `body`, giving
/// group 1 and group 2 of each match in order. The contract names the
/// result ([`regex_captures`]); what a pattern matches is the `regex`
/// crate's. It is called with the film link pattern only: that pattern is
/// valid and both of its groups take part in every match, so neither the
/// compilation nor the group lookups fail.
#[verifier::external_body]
fn captures_of(pattern: &str, body: &str) -> (r: Vec<(String, String)>)
    requires
        pattern@ == FILM_LINK_PATTERN@,
    ensures
        pair_views(r@) == regex_captures(pattern@, body@),
{
    let re = regex::Regex::new(pattern).unwrap();
    re.captures_iter(body).map(|cap| (cap[1].to_string(), cap[2].to_string())).collect()
}

/// The name a film id gets: the trimmed text of its first link.
pub open spec fn first_link_name(links: Seq<(Seq<char>, Seq<char>)>, id: Seq<char>) -> Option<
    Seq<char>,
>
    decreases links.len(),
{
    if links.len() == 0 {
        None
    } else if links[0].0 == id {
        Some(trim_s(links[0].1))
    } else {
        first_link_name(links.drop_first(), id)
    }
}

/// The films of a list of links: every film id once, ascending, with the
/// trimmed text of its first link.
pub open spec fn films_of_links(links: Seq<(Seq<char>, Seq<char>)>, r: Seq<(Seq<char>, Seq<char>)>) -> bool {
    let ids = r.map_values(|p: (Seq<char>, Seq<char>)| p.0);
    &&& strictly_sorted(ids)
    &&& ids.to_set() == links.map_values(|p: (Seq<char>, Seq<char>)| p.0).to_set()
    &&& forall|i: int| 0 <= i < r.len() ==> Some(#[trigger] r[i].1) == first_link_name(links, r[i].0)
}

fn first_link_name_exec(links: &Vec<(String, String)>, id: &str) -> (r: String)
    requires
        first_link_name(pair_views(links@), id@) is Some,
    ensures
        Some(r@) == first_link_name(pair_views(links@), id@),
{
    let ghost lv = pair_views(links@);
    let mut i: usize = 0;
    assert(lv.skip(0) =~= lv);
    while i < links.len()
        invariant
            i <= links@.len(),
            lv == pair_views(links@),
            first_link_name(lv, id@) == first_link_name(lv.skip(i as int), id@),
        decreases links.len() - i,
    {
        assert(lv.skip(i as int)[0] == (links@[i as int].0@, links@[i as int].1@));
        if crate::text::str_eq(links[i].0.as_str(), id) {
            return trim(links[i].1.as_str());
        }
        assert(lv.skip(i as int).drop_first() =~= lv.skip(i + 1));
        i = i + 1;
    }
    assert(lv.skip(i as int) =~= Seq::<(Seq<char>, Seq<char>)>::empty());
    String::new()
}

/// The films named by a list of links (see [`films_of_links`]).
pub fn films_from_links(links: &Vec<(String, String)>) -> (r: Vec<(String, String)>)
    ensures
        films_of_links(pair_views(links@), pair_views(r@)),
{
    let ghost lv = pair_views(links@);
    let mut ids: Vec<String> = Vec::new();
    let mut i: usize = 0;
    while i < links.len()
        invariant
            i <= links@.len(),
            ids@.len() == i,
            forall|m: int| 0 <= m < i ==> (#[trigger] ids@[m])@ == links@[m].0@,
        decreases links.len() - i,
    {
        ids.push(links[i].0.clone());
        i = i + 1;
    }
    let ghost idv = lv.map_values(|p: (Seq<char>, Seq<char>)| p.0);
    assert(views_of(ids@) =~= idv);
    let keys = sort_dedup(ids.as_slice());
    let mut out: Vec<(String, String)> = Vec::new();
    let mut j: usize = 0;
    while j < keys.len()
        invariant
            j <= keys@.len(),
            out@.len() == j,
            lv == pair_views(links@),
            idv == lv.map_values(|p: (Seq<char>, Seq<char>)| p.0),
            views_of(keys@).to_set() == idv.to_set(),
            forall|m: int| 0 <= m < j ==> (#[trigger] out@[m]).0@ == keys@[m]@ && Some(out@[m].1@)
                == first_link_name(lv, keys@[m]@),
        decreases keys.len() - j,
    {
        let k = keys[j].as_str();
        proof {
            assert(views_of(keys@)[j as int] == k@);
            assert(views_of(keys@).to_set().contains(k@));
            assert(idv.to_set().contains(k@));
            let p = choose|p: int| 0 <= p < idv.len() && idv[p] == k@;
            lemma_first_link_name_some(lv, k@, p);
        }
        let name = first_link_name_exec(links, k);
        out.push((keys[j].clone(), name));
        j = j + 1;
    }
    proof {
        let rv = pair_views(out@);
        let rids = rv.map_values(|p: (Seq<char>, Seq<char>)| p.0);
        assert(rids =~= views_of(keys@));
    }
    out
}

proof fn lemma_first_link_name_some(links: Seq<(Seq<char>, Seq<char>)>, id: Seq<char>, p: int)
    requires
        0 <= p < links.len(),
        links[p].0 == id,
    ensures
        first_link_name(links, id) is Some,
    decreases p,
{
    if p > 0 && links[0].0 != id {
        lemma_first_link_name_some(links.drop_first(), id, p - 1);
    }
}

/// The films listed on a films page: every film id once, ascending, with
/// the trimmed text of its first link.
pub fn parse_films_page(body: &str) -> (r: Vec<(String, String)>)
    ensures
        films_of_links(film_links(body@), pair_views(r@)),
{
    let links = captures_of(FILM_LINK_PATTERN, body);
    films_from_links(&links)
}

/// The id and name a cinema lookup reports from the payload of cinema `id`:
/// the payload's `cinema_id` (else `id`) and `cinema_name` (else nothing).
pub fn cinema_identity(id: &str, payload: &Json) -> (r: (String, String))
    ensures
        r.0@ == match str_field(*payload, "cinema_id"@) {
            Some(c) => c,
            None => id@,
        },
        r.1@ == match str_field(*payload, "cinema_name"@) {
            Some(n) => n,
            None => Seq::empty(),
        },
{
    let cid = match crate::json::get_str(payload, "cinema_id") {
        Some(c) => c,
        None => crate::text::owned(id),
    };
    let name = match crate::json::get_str(payload, "cinema_name") {
        Some(n) => n,
        None => String::new(),
    };
    (cid, name)
}

} // verus!
