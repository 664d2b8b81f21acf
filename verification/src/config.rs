//! The configuration document: time windows, cinemas, watches, the
//! incremental-show baseline and the seat-lock state kept per watch.
//!
//! Reading and writing the file is done by the caller; every function here
//! works on the document in memory.

use vstd::prelude::*;

use crate::json::{
    arr_field, as_str_v, bool_field, lemma_lookup_absent, lemma_lookup_index, field, get, get_bool, get_i64, get_str, get_str_list, has_field,
    get_u64, has_non_null, i64_field, is_obj, json_strings, jstr, jstr_list, obj_lookup, remove_field,
    set_field, str_field, str_list_field, strings_in, strings_of, take_field, u64_field, empty_obj,
    lemma_strings_of_json_strings, clone_json, same_json, Json,
};
use crate::strset::{lemma_sorted_list_of, lemma_sorted_unique, sort_dedup, sorted_list_of, strictly_sorted, lex_lt, lemma_lex_trans, lemma_lex_total};
use crate::text::{
    append_str, chars_of, dec_text, push_char, push_padded, zero_padded, i64_text, owned, signed_text, parse_u32, string_of_range, parse_unsigned_s, split_once_char, split_once_s, str_eq,
    strings_contain, strings_eq, trim, trim_s, views_of, is_blank,
};

verus! {

pub type Config = Json;

pub const CONFIG_VERSION: u32 = 2;

/// Default number of seats a watch locks (`--num-seats`).
pub const DEFAULT_LOCK_NUM_SEATS: u64 = 2;

/// Default number of lock attempts per cinema before giving it up.
pub const DEFAULT_LOCK_MAX_RETRIES: u64 = 3;

/// Watch mode: alert on the first presale, then stop.
pub const MODE_PRESALE: &'static str = "presale";

/// Watch mode: keep a baseline of shows and alert on every new one.
pub const MODE_INCREMENTAL: &'static str = "incremental";

// ----------------------------------------------------------------------
// Time windows
// ----------------------------------------------------------------------

/// The alerting mode of the current hour.
#[derive(PartialEq, Eq, Structural, Debug, Clone, Copy)]
pub enum Mode {
    Quiet,
    PhoneOnly,
    Normal,
}

pub open spec fn mode_name(m: Mode) -> Seq<char> {
    match m {
        Mode::Quiet => "quiet"@,
        Mode::PhoneOnly => "phone_only"@,
        Mode::Normal => "normal"@,
    }
}

impl Mode {
    pub fn as_str(self) -> (r: &'static str)
        ensures
            r@ == mode_name(self),
    {
        match self {
            Mode::Quiet => "quiet",
            Mode::PhoneOnly => "phone_only",
            Mode::Normal => "normal",
        }
    }
}

/// Why a time window text was refused.
#[derive(Debug, Clone)]
pub enum WindowError {
    /// No `-` between the two ends.
    NoDash,
    /// An end without `:`; holds that end.
    NoColon(String),
    /// The hour is not a number.
    BadHour,
    /// The minute is not a number.
    BadMinute,
    /// Hour above 23 or minute above 59.
    OutOfRange,
}

pub enum WindowErrorV {
    NoDash,
    NoColon(Seq<char>),
    BadHour,
    BadMinute,
    OutOfRange,
}

impl View for WindowError {
    type V = WindowErrorV;

    open spec fn view(&self) -> WindowErrorV {
        match self {
            WindowError::NoDash => WindowErrorV::NoDash,
            WindowError::NoColon(s) => WindowErrorV::NoColon(s@),
            WindowError::BadHour => WindowErrorV::BadHour,
            WindowError::BadMinute => WindowErrorV::BadMinute,
            WindowError::OutOfRange => WindowErrorV::OutOfRange,
        }
    }
}

impl WindowError {
    /// The message shown to the user.
    pub fn message(&self) -> (r: String)
        ensures
            r@ == window_error_text(self@),
    {
        match self {
            WindowError::NoDash => owned("时段格式错误，应像 '01:00-06:00'"),
            WindowError::NoColon(t) => {
                let mut r = owned("时段格式错误：'");
                append_str(&mut r, t.as_str());
                append_str(&mut r, "'");
                r
            },
            WindowError::BadHour => owned("时段小时非法"),
            WindowError::BadMinute => owned("时段分钟非法"),
            WindowError::OutOfRange => owned("时段超出范围"),
        }
    }
}

pub open spec fn window_error_text(e: WindowErrorV) -> Seq<char> {
    match e {
        WindowErrorV::NoDash => "时段格式错误，应像 '01:00-06:00'"@,
        WindowErrorV::NoColon(t) => "时段格式错误：'"@ + t + "'"@,
        WindowErrorV::BadHour => "时段小时非法"@,
        WindowErrorV::BadMinute => "时段分钟非法"@,
        WindowErrorV::OutOfRange => "时段超出范围"@,
    }
}

/// One end of a window, `HH:MM`.
pub open spec fn parse_hhmm_s(t: Seq<char>) -> Result<(u32, u32), WindowErrorV> {
    match split_once_s(t, ':') {
        None => Err(WindowErrorV::NoColon(t)),
        Some((h, m)) => match parse_unsigned_s(h, u32::MAX as nat) {
            None => Err(WindowErrorV::BadHour),
            Some(hv) => match parse_unsigned_s(m, u32::MAX as nat) {
                None => Err(WindowErrorV::BadMinute),
                Some(mv) => if hv > 23 || mv > 59 {
                    Err(WindowErrorV::OutOfRange)
                } else {
                    Ok((hv as u32, mv as u32))
                },
            },
        },
    }
}

/// A window `HH:MM-HH:MM` (surrounding white space allowed) as
/// `(start hour, start minute, end hour, end minute)`.
pub open spec fn parse_window_s(s: Seq<char>) -> Result<(u32, u32, u32, u32), WindowErrorV> {
    match split_once_s(trim_s(s), '-') {
        None => Err(WindowErrorV::NoDash),
        Some((a, b)) => match parse_hhmm_s(a) {
            Err(e) => Err(e),
            Ok((sh, sm)) => match parse_hhmm_s(b) {
                Err(e) => Err(e),
                Ok((eh, em)) => Ok((sh, sm, eh, em)),
            },
        },
    }
}

proof fn lemma_split_joined(x: Seq<char>, y: Seq<char>, c: char)
    requires
        crate::text::lacks_char(x, c),
    ensures
        split_once_s(x + seq![c] + y, c) == Some((x, y)),
{
    let s = x + seq![c] + y;
    assert(s.take(x.len() as int) =~= x);
    crate::text::lemma_first_index(s, c, x.len() as int);
    assert(s.skip(x.len() + 1int) =~= y);
}

/// A window written `sh:sm-eh:em`, with hours up to 23 and minutes up to
/// 59 written as numbers, reads as `(sh, sm, eh, em)`: the start hour and
/// minute, then the end hour and minute.
pub proof fn law_parse_window_parts(
    hs: Seq<char>,
    ms: Seq<char>,
    he: Seq<char>,
    me: Seq<char>,
    sh: nat,
    sm: nat,
    eh: nat,
    em: nat,
)
    requires
        crate::text::lacks_char(hs, ':'),
        crate::text::lacks_char(hs, '-'),
        crate::text::lacks_char(ms, '-'),
        crate::text::lacks_char(he, ':'),
        parse_unsigned_s(hs, u32::MAX as nat) == Some(sh),
        parse_unsigned_s(ms, u32::MAX as nat) == Some(sm),
        parse_unsigned_s(he, u32::MAX as nat) == Some(eh),
        parse_unsigned_s(me, u32::MAX as nat) == Some(em),
        sh <= 23 && sm <= 59 && eh <= 23 && em <= 59,
        trim_s(hs + ":"@ + ms + "-"@ + he + ":"@ + me) == hs + ":"@ + ms + "-"@ + he + ":"@ + me,
    ensures
        parse_window_s(hs + ":"@ + ms + "-"@ + he + ":"@ + me) == Ok::<(u32, u32, u32, u32), WindowErrorV>(
            (sh as u32, sm as u32, eh as u32, em as u32),
        ),
{
    reveal_strlit(":");
    reveal_strlit("-");
    let a = hs + ":"@ + ms;
    let b = he + ":"@ + me;
    let s = hs + ":"@ + ms + "-"@ + he + ":"@ + me;
    assert(s =~= a + seq!['-'] + b);
    assert(crate::text::lacks_char(a, '-'));
    lemma_split_joined(a, b, '-');
    assert(a =~= hs + seq![':'] + ms);
    lemma_split_joined(hs, ms, ':');
    assert(b =~= he + seq![':'] + me);
    lemma_split_joined(he, me, ':');
}

fn parse_hhmm(t: &str) -> (r: Result<(u32, u32), WindowError>)
    ensures
        match r {
            Ok(p) => parse_hhmm_s(t@) == Ok::<(u32, u32), WindowErrorV>(p),
            Err(e) => parse_hhmm_s(t@) == Err::<(u32, u32), WindowErrorV>(e@),
        },
{
    match split_once_char(t, ':') {
        None => Err(WindowError::NoColon(owned(t))),
        Some((h, m)) => match parse_u32(h.as_str()) {
            None => Err(WindowError::BadHour),
            Some(hv) => match parse_u32(m.as_str()) {
                None => Err(WindowError::BadMinute),
                Some(mv) => if hv > 23 || mv > 59 {
                    Err(WindowError::OutOfRange)
                } else {
                    Ok((hv, mv))
                },
            },
        },
    }
}

/// `'01:00-06:00'` → `(1, 0, 6, 0)`.
pub fn parse_window(s: &str) -> (r: Result<(u32, u32, u32, u32), WindowError>)
    ensures
        match r {
            Ok(p) => parse_window_s(s@) == Ok::<(u32, u32, u32, u32), WindowErrorV>(p),
            Err(e) => parse_window_s(s@) == Err::<(u32, u32, u32, u32), WindowErrorV>(e@),
        },
{
    let t = trim(s);
    match split_once_char(t.as_str(), '-') {
        None => Err(WindowError::NoDash),
        Some((a, b)) => match parse_hhmm(a.as_str()) {
            Err(e) => Err(e),
            Ok((sh, sm)) => match parse_hhmm(b.as_str()) {
                Err(e) => Err(e),
                Ok((eh, em)) => Ok((sh, sm, eh, em)),
            },
        },
    }
}

/// The mode of `hour`: the quiet window, else the phone-only window, else normal.
/// A window counts its start hour and not its end hour.
pub open spec fn mode_at(q: (u32, u32, u32, u32), p: (u32, u32, u32, u32), hour: u32) -> Mode {
    if q.0 <= hour < q.2 {
        Mode::Quiet
    } else if p.0 <= hour < p.2 {
        Mode::PhoneOnly
    } else {
        Mode::Normal
    }
}

/// An hour inside the quiet window (from its start hour, before its end
/// hour) is quiet, whatever the phone-only window says; an hour outside it
/// and inside the phone-only window is phone-only; any other hour is normal.
pub proof fn law_mode_of_hour(q: (u32, u32, u32, u32), p: (u32, u32, u32, u32), hour: u32)
    ensures
        q.0 <= hour && hour < q.2 ==> mode_at(q, p, hour) == Mode::Quiet,
        !(q.0 <= hour && hour < q.2) && p.0 <= hour && hour < p.2 ==> mode_at(q, p, hour)
            == Mode::PhoneOnly,
        !(q.0 <= hour && hour < q.2) && !(p.0 <= hour && hour < p.2) ==> mode_at(q, p, hour)
            == Mode::Normal,
{
}

/// The mode of `hour` under the two windows; an unreadable window is an error.
pub fn current_mode(quiet_window: &str, phone_only_window: &str, hour: u32) -> (r: Result<
    Mode,
    WindowError,
>)
    ensures
        match (parse_window_s(quiet_window@), parse_window_s(phone_only_window@)) {
            (Ok(q), Ok(p)) => r == Ok::<Mode, WindowError>(mode_at(q, p, hour)),
            (Err(e), _) => r is Err && r->Err_0@ == e,
            (Ok(_), Err(e)) => r is Err && r->Err_0@ == e,
        },
{
    let (qs, _qm, qe, _qem) = match parse_window(quiet_window) {
        Ok(q) => q,
        Err(e) => return Err(e),
    };
    let (ps, _pm, pe, _pem) = match parse_window(phone_only_window) {
        Ok(p) => p,
        Err(e) => return Err(e),
    };
    if qs <= hour && hour < qe {
        Ok(Mode::Quiet)
    } else if ps <= hour && hour < pe {
        Ok(Mode::PhoneOnly)
    } else {
        Ok(Mode::Normal)
    }
}

// ----------------------------------------------------------------------
// Watch settings read from one watch object
// ----------------------------------------------------------------------

/// The watch's mode; anything but `incremental` counts as `presale`.
pub open spec fn watch_mode_s(w: Json) -> Seq<char> {
    if str_field(w, "mode"@) == Some("incremental"@) {
        "incremental"@
    } else {
        "presale"@
    }
}

pub fn watch_mode(watch: &Json) -> (r: &'static str)
    ensures
        r@ == watch_mode_s(*watch),
{
    match get_str(watch, "mode") {
        Some(m) => if str_eq(m.as_str(), MODE_INCREMENTAL) {
            MODE_INCREMENTAL
        } else {
            MODE_PRESALE
        },
        None => MODE_PRESALE,
    }
}

/// The watch's time window; absent, blank or unreadable means none.
pub open spec fn watch_time_window_s(w: Json) -> Option<(u32, u32, u32, u32)> {
    match str_field(w, "time_window"@) {
        Some(s) => if trim_s(s).len() == 0 {
            None
        } else {
            match parse_window_s(trim_s(s)) {
                Ok(p) => Some(p),
                Err(_) => None,
            }
        },
        None => None,
    }
}

pub fn watch_time_window(watch: &Json) -> (r: Option<(u32, u32, u32, u32)>)
    ensures
        r == watch_time_window_s(*watch),
{
    match get_str(watch, "time_window") {
        Some(s) => {
            let t = trim(s.as_str());
            if t.unicode_len() == 0 {
                None
            } else {
                match parse_window(t.as_str()) {
                    Ok(p) => Some(p),
                    Err(_) => None,
                }
            }
        },
        None => None,
    }
}

/// A show time `HH:MM` read as minutes after midnight; `None` when it does
/// not read as two numbers.
pub open spec fn show_minutes(tm: Seq<char>) -> Option<int> {
    match split_once_s(tm, ':') {
        None => None,
        Some((h, m)) => match (parse_unsigned_s(h, u32::MAX as nat), parse_unsigned_s(m, u32::MAX as nat)) {
            (Some(hv), Some(mv)) => Some((hv * 60 + mv) as int),
            _ => None,
        },
    }
}

/// Whether a show at `tm` passes the watch's window. No window, or a time
/// that does not read, lets it pass; the window holds its start and not its end.
pub open spec fn in_time_window_s(w: Json, tm: Seq<char>) -> bool {
    match watch_time_window_s(w) {
        None => true,
        Some((sh, sm, eh, em)) => match show_minutes(tm) {
            None => true,
            Some(t) => sh * 60 + sm <= t < eh * 60 + em,
        },
    }
}

/// With a readable window `sh:sm-eh:em` and a show time `h:m` that reads,
/// the show passes exactly when its minute of the day is at or after the
/// window's start minute and before its end minute: a show even one minute
/// before the start is outside.
pub proof fn law_in_time_window_bounds(
    w: Json,
    tm: Seq<char>,
    hs: Seq<char>,
    ms: Seq<char>,
    h: nat,
    m: nat,
)
    requires
        watch_time_window_s(w) is Some,
        split_once_s(tm, ':') == Some((hs, ms)),
        parse_unsigned_s(hs, u32::MAX as nat) == Some(h),
        parse_unsigned_s(ms, u32::MAX as nat) == Some(m),
    ensures
        ({
            let (sh, sm, eh, em) = watch_time_window_s(w)->0;
            in_time_window_s(w, tm) == (sh * 60 + sm <= h * 60 + m && h * 60 + m < eh * 60 + em)
        }),
{
}

/// A show passes when there is no window or its time does not read.
pub proof fn law_in_time_window_open(w: Json, tm: Seq<char>)
    requires
        watch_time_window_s(w) is None || show_minutes(tm) is None,
    ensures
        in_time_window_s(w, tm),
{
}

/// `tm` names no time whose minute count overflows `u32` (the count is
/// computed in `u32`).
pub open spec fn show_minutes_fit(tm: Seq<char>) -> bool {
    match show_minutes(tm) {
        Some(t) => t <= u32::MAX,
        None => true,
    }
}

pub fn in_time_window(watch: &Json, tm: &str) -> (r: bool)
    requires
        watch_time_window_s(*watch) is Some ==> show_minutes_fit(tm@),
    ensures
        r == in_time_window_s(*watch, tm@),
{
    let (sh, sm, eh, em) = match watch_time_window(watch) {
        Some(w) => w,
        None => return true,
    };
    let (hh, mm) = match split_once_char(tm, ':') {
        Some(p) => p,
        None => return true,
    };
    let (h, m) = match (parse_u32(hh.as_str()), parse_u32(mm.as_str())) {
        (Some(h), Some(m)) => (h, m),
        _ => return true,
    };
    assert(h * 60 + m <= u32::MAX);
    let t = h * 60 + m;
    let lo = sh * 60 + sm;
    let hi = eh * 60 + em;
    lo <= t && t < hi
}

// ----------------------------------------------------------------------
// Cinemas and watches: lists of objects found by their `id`
// ----------------------------------------------------------------------

/// The list `cfg[key]`; empty when absent or not a list.
pub open spec fn list_of(cfg: Json, key: Seq<char>) -> Seq<Json> {
    match arr_field(cfg, key) {
        Some(items) => items,
        None => Seq::empty(),
    }
}

/// `cfg["watches"]` as a list.
pub open spec fn watches_of(cfg: Json) -> Seq<Json> {
    list_of(cfg, "watches"@)
}

/// `cfg["cinemas"]` as a list.
pub open spec fn cinemas_of(cfg: Json) -> Seq<Json> {
    list_of(cfg, "cinemas"@)
}

/// The item's `id` is the string `id`.
pub open spec fn has_id(item: Json, id: Seq<char>) -> bool {
    str_field(item, "id"@) == Some(id)
}

/// Index of the first item whose `id` is `id`.
pub open spec fn index_by_id(items: Seq<Json>, id: Seq<char>) -> Option<int>
    decreases items.len(),
{
    if items.len() == 0 {
        None
    } else if has_id(items[0], id) {
        Some(0)
    } else {
        match index_by_id(items.drop_first(), id) {
            Some(i) => Some(i + 1),
            None => None,
        }
    }
}

/// The first item whose `id` is `id`.
pub open spec fn find_by_id(items: Seq<Json>, id: Seq<char>) -> Option<Json> {
    match index_by_id(items, id) {
        Some(i) => Some(items[i]),
        None => None,
    }
}

pub proof fn lemma_index_by_id_bounds(items: Seq<Json>, id: Seq<char>)
    ensures
        match index_by_id(items, id) {
            Some(i) => 0 <= i < items.len() && has_id(items[i], id) && (forall|j: int|
                0 <= j < i ==> !has_id(#[trigger] items[j], id)),
            None => forall|j: int| 0 <= j < items.len() ==> !has_id(#[trigger] items[j], id),
        },
    decreases items.len(),
{
    if items.len() > 0 {
        lemma_index_by_id_bounds(items.drop_first(), id);
        if !has_id(items[0], id) {
            match index_by_id(items.drop_first(), id) {
                Some(i) => {
                    assert forall|j: int| 0 <= j < i + 1 implies !has_id(#[trigger] items[j], id) by {
                        if j > 0 {
                            assert(items[j] == items.drop_first()[j - 1]);
                        }
                    }
                },
                None => {
                    assert forall|j: int| 0 <= j < items.len() implies !has_id(
                        #[trigger] items[j],
                        id,
                    ) by {
                        if j > 0 {
                            assert(items[j] == items.drop_first()[j - 1]);
                        }
                    }
                },
            }
        }
    }
}

pub proof fn lemma_index_by_id_first(items: Seq<Json>, id: Seq<char>, i: int)
    requires
        0 <= i < items.len(),
        has_id(items[i], id),
        forall|j: int| 0 <= j < i ==> !has_id(#[trigger] items[j], id),
    ensures
        index_by_id(items, id) == Some(i),
    decreases i,
{
    if i > 0 {
        assert(!has_id(items[0], id));
        assert forall|j: int| 0 <= j < i - 1 implies !has_id(#[trigger] items.drop_first()[j], id) by {
            assert(items.drop_first()[j] == items[j + 1]);
        }
        lemma_index_by_id_first(items.drop_first(), id, i - 1);
    }
}

pub proof fn lemma_index_by_id_none(items: Seq<Json>, id: Seq<char>)
    requires
        forall|j: int| 0 <= j < items.len() ==> !has_id(#[trigger] items[j], id),
    ensures
        index_by_id(items, id) is None,
    decreases items.len(),
{
    if items.len() > 0 {
        assert(!has_id(items[0], id));
        assert forall|j: int| 0 <= j < items.len() - 1 implies !has_id(
            #[trigger] items.drop_first()[j],
            id,
        ) by {
            assert(items.drop_first()[j] == items[j + 1]);
        }
        lemma_index_by_id_none(items.drop_first(), id);
    }
}

/// Replacing the found item by one with the same `id` keeps it found there.
pub proof fn lemma_index_by_id_update(items: Seq<Json>, id: Seq<char>, i: int, w: Json)
    requires
        index_by_id(items, id) == Some(i),
        has_id(w, id),
    ensures
        index_by_id(items.update(i, w), id) == Some(i),
{
    lemma_index_by_id_bounds(items, id);
    let u = items.update(i, w);
    assert forall|j: int| 0 <= j < i implies !has_id(#[trigger] u[j], id) by {
        assert(u[j] == items[j]);
    }
    lemma_index_by_id_first(u, id, i);
}

/// Appending an item leaves earlier finds as they were, and finds the new
/// item when nothing before it had its `id`.
pub proof fn lemma_index_by_id_push(items: Seq<Json>, id: Seq<char>, w: Json)
    ensures
        index_by_id(items.push(w), id) == match index_by_id(items, id) {
            Some(i) => Some(i),
            None => if has_id(w, id) {
                Some(items.len() as int)
            } else {
                None
            },
        },
{
    lemma_index_by_id_bounds(items, id);
    let p = items.push(w);
    match index_by_id(items, id) {
        Some(i) => {
            assert forall|j: int| 0 <= j < i implies !has_id(#[trigger] p[j], id) by {
                assert(p[j] == items[j]);
            }
            lemma_index_by_id_first(p, id, i);
        },
        None => {
            if has_id(w, id) {
                assert forall|j: int| 0 <= j < items.len() implies !has_id(#[trigger] p[j], id) by {
                    assert(p[j] == items[j]);
                }
                lemma_index_by_id_first(p, id, items.len() as int);
            } else {
                assert forall|j: int| 0 <= j < p.len() implies !has_id(#[trigger] p[j], id) by {
                    if j < items.len() {
                        assert(p[j] == items[j]);
                    }
                }
                lemma_index_by_id_none(p, id);
            }
        },
    }
}

/// Index of the first item of `items` whose `id` is `id`.
pub fn index_of_id(items: &[Json], id: &str) -> (r: Option<usize>)
    ensures
        match r {
            Some(i) => i < items@.len() && index_by_id(items@, id@) == Some(i as int),
            None => index_by_id(items@, id@) is None,
        },
{
    let mut i: usize = 0;
    while i < items.len()
        invariant
            i <= items@.len(),
            forall|j: int| 0 <= j < i ==> !has_id(#[trigger] items@[j], id@),
        decreases items.len() - i,
    {
        let found = match get_str(&items[i], "id") {
            Some(s) => str_eq(s.as_str(), id),
            None => false,
        };
        if found {
            proof {
                lemma_index_by_id_first(items@, id@, i as int);
            }
            return Some(i);
        }
        i = i + 1;
    }
    proof {
        lemma_index_by_id_none(items@, id@);
    }
    None
}

/// The items of `cfg[key]`, or none.
pub fn list_items<'a>(cfg: &'a Json, key: &str) -> (r: &'a [Json])
    ensures
        r@ == list_of(*cfg, key@),
{
    match get(cfg, key) {
        Some(Json::Arr(items)) => items.as_slice(),
        _ => &[],
    }
}

/// The watches of the configuration, in order.
pub fn list_watches(cfg: &Json) -> (r: &[Json])
    ensures
        r@ == watches_of(*cfg),
{
    list_items(cfg, "watches")
}

/// The first watch whose `id` is `watch_id`.
pub fn find_watch<'a>(cfg: &'a Json, watch_id: &str) -> (r: Option<&'a Json>)
    ensures
        match r {
            Some(w) => find_by_id(watches_of(*cfg), watch_id@) == Some(*w),
            None => find_by_id(watches_of(*cfg), watch_id@) is None,
        },
{
    let items = list_items(cfg, "watches");
    match index_of_id(items, watch_id) {
        Some(i) => Some(&items[i]),
        None => None,
    }
}

/// The first cinema whose `id` is `cinema_id`.
pub fn find_cinema<'a>(cfg: &'a Json, cinema_id: &str) -> (r: Option<&'a Json>)
    ensures
        match r {
            Some(c) => find_by_id(cinemas_of(*cfg), cinema_id@) == Some(*c),
            None => find_by_id(cinemas_of(*cfg), cinema_id@) is None,
        },
{
    let items = list_items(cfg, "cinemas");
    match index_of_id(items, cinema_id) {
        Some(i) => Some(&items[i]),
        None => None,
    }
}

/// `cfg` after item `i` of the list `cfg[key]` became `w`, all else kept.
pub open spec fn item_replaced(old: Json, new: Json, key: Seq<char>, i: int, w: Json) -> bool {
    &&& new is Obj
    &&& arr_field(new, key) == Some(list_of(old, key).update(i, w))
    &&& forall|k: Seq<char>| k != key ==> field(new, k) == field(old, k)
}

/// Puts `w` in slot `i` of the list `cfg[key]` and hands back what was there.
pub fn swap_item(cfg: &mut Json, key: &str, i: usize, w: Json) -> (r: Json)
    requires
        arr_field(*old(cfg), key@) is Some,
        i < list_of(*old(cfg), key@).len(),
    ensures
        r == list_of(*old(cfg), key@)[i as int],
        item_replaced(*old(cfg), *final(cfg), key@, i as int, w),
{
    let taken = take_field(cfg, key);
    match taken {
        Some(Json::Arr(mut items)) => {
            let ghost s0 = items@;
            let prev = items.remove(i);
            items.insert(i, w);
            assert(items@ =~= s0.update(i as int, w));
            set_field(cfg, key, Json::Arr(items));
            prev
        },
        _ => {
            proof {
                assert(false);
            }
            Json::Null
        },
    }
}

/// Two successive replacements of the same item are one replacement.
pub proof fn lemma_item_replaced_twice(a: Json, b: Json, c: Json, key: Seq<char>, i: int, w1: Json, w2: Json)
    requires
        arr_field(a, key) is Some,
        0 <= i < list_of(a, key).len(),
        item_replaced(a, b, key, i, w1),
        item_replaced(b, c, key, i, w2),
    ensures
        item_replaced(a, c, key, i, w2),
{
    assert(list_of(b, key) == list_of(a, key).update(i, w1));
    assert(list_of(a, key).update(i, w1).update(i, w2) =~= list_of(a, key).update(i, w2));
}

// ----------------------------------------------------------------------
// Seat-lock settings and state of a watch
// ----------------------------------------------------------------------

/// Locking runs headless unless `lock_headless` is `false`.
pub open spec fn global_lock_headless_s(cfg: Json) -> bool {
    match bool_field(cfg, "lock_headless"@) {
        Some(b) => b,
        None => true,
    }
}

pub fn global_lock_headless(cfg: &Json) -> (r: bool)
    ensures
        r == global_lock_headless_s(*cfg),
{
    match get_bool(cfg, "lock_headless") {
        Some(b) => b,
        None => true,
    }
}

/// A boolean setting of a watch, `false` when absent.
pub open spec fn flag_of(w: Json, k: Seq<char>) -> bool {
    match bool_field(w, k) {
        Some(b) => b,
        None => false,
    }
}

/// Whether the watch locks seats on its own.
pub fn watch_auto_lock(watch: &Json) -> (r: bool)
    ensures
        r == flag_of(*watch, "auto_lock"@),
{
    match get_bool(watch, "auto_lock") {
        Some(b) => b,
        None => false,
    }
}

/// Whether the watch only looks at IMAX halls.
pub fn watch_imax_only(watch: &Json) -> (r: bool)
    ensures
        r == flag_of(*watch, "imax_only"@),
{
    match get_bool(watch, "imax_only") {
        Some(b) => b,
        None => false,
    }
}

/// An unsigned setting of a watch, `d` when absent or not an unsigned integer.
pub open spec fn count_of(w: Json, k: Seq<char>, d: u64) -> u64 {
    match u64_field(w, k) {
        Some(n) => n,
        None => d,
    }
}

/// Seats to lock (`--num-seats`).
pub fn watch_lock_num_seats(watch: &Json) -> (r: u64)
    ensures
        r == count_of(*watch, "lock_num_seats"@, DEFAULT_LOCK_NUM_SEATS),
{
    match get_u64(watch, "lock_num_seats") {
        Some(n) => n,
        None => DEFAULT_LOCK_NUM_SEATS,
    }
}

/// Lock attempts per cinema before it is given up.
pub fn watch_lock_max_retries(watch: &Json) -> (r: u64)
    ensures
        r == count_of(*watch, "lock_max_retries"@, DEFAULT_LOCK_MAX_RETRIES),
{
    match get_u64(watch, "lock_max_retries") {
        Some(n) => n,
        None => DEFAULT_LOCK_MAX_RETRIES,
    }
}

pub fn str_list(j: &Json, k: &str) -> (r: Vec<String>)
    ensures
        views_of(r@) == str_list_field(*j, k@),
{
    let v = get_str_list(j, k);
    assert(views_of(v@) =~= str_list_field(*j, k@));
    v
}

/// Seats chosen by hand (`--seat`), the string items of `lock_seats`.
pub fn watch_lock_seats(watch: &Json) -> (r: Vec<String>)
    ensures
        views_of(r@) == str_list_field(*watch, "lock_seats"@),
{
    str_list(watch, "lock_seats")
}

/// Cinemas where seats were locked, the string items of `lock_ok_cinemas`.
pub fn lock_ok_cinemas(watch: &Json) -> (r: Vec<String>)
    ensures
        views_of(r@) == str_list_field(*watch, "lock_ok_cinemas"@),
{
    str_list(watch, "lock_ok_cinemas")
}

pub open spec fn cinema_lock_ok_s(w: Json, cid: Seq<char>) -> bool {
    str_list_field(w, "lock_ok_cinemas"@).contains(cid)
}

/// Whether seats were locked at the cinema.
pub fn cinema_lock_ok(watch: &Json, cinema_id: &str) -> (r: bool)
    ensures
        r == cinema_lock_ok_s(*watch, cinema_id@),
{
    let v = lock_ok_cinemas(watch);
    strings_contain(&v, cinema_id)
}

/// Lock attempts made at the cinema: `lock_tries[cid]`, 0 when absent.
pub open spec fn cinema_lock_tries_s(w: Json, cid: Seq<char>) -> u64 {
    match field(w, "lock_tries"@) {
        Some(t) => match u64_field(t, cid) {
            Some(n) => n,
            None => 0,
        },
        None => 0,
    }
}

pub fn cinema_lock_tries(watch: &Json, cinema_id: &str) -> (r: u64)
    ensures
        r == cinema_lock_tries_s(*watch, cinema_id@),
{
    match get(watch, "lock_tries") {
        Some(t) => match get_u64(t, cinema_id) {
            Some(n) => n,
            None => 0,
        },
        None => 0,
    }
}

pub open spec fn cinema_lock_exhausted_s(w: Json, cid: Seq<char>) -> bool {
    cinema_lock_tries_s(w, cid) >= count_of(w, "lock_max_retries"@, DEFAULT_LOCK_MAX_RETRIES)
}

/// Whether the cinema has used up its lock attempts.
pub fn cinema_lock_exhausted(watch: &Json, cinema_id: &str) -> (r: bool)
    ensures
        r == cinema_lock_exhausted_s(*watch, cinema_id@),
{
    cinema_lock_tries(watch, cinema_id) >= watch_lock_max_retries(watch)
}

pub open spec fn all_settled_s(w: Json, cinemas: Seq<Seq<char>>) -> bool {
    cinemas.len() > 0 && forall|i: int|
        0 <= i < cinemas.len() ==> cinema_lock_ok_s(w, #[trigger] cinemas[i])
            || cinema_lock_exhausted_s(w, cinemas[i])
}

/// Whether every cinema is locked or exhausted; an empty list never is.
pub fn all_cinemas_lock_settled(watch: &Json, cinemas: &[String]) -> (r: bool)
    ensures
        r == all_settled_s(*watch, views_of(cinemas@)),
{
    if cinemas.len() == 0 {
        return false;
    }
    let mut i: usize = 0;
    while i < cinemas.len()
        invariant
            i <= cinemas@.len(),
            forall|j: int|
                0 <= j < i ==> cinema_lock_ok_s(*watch, #[trigger] views_of(cinemas@)[j])
                    || cinema_lock_exhausted_s(*watch, views_of(cinemas@)[j]),
        decreases cinemas.len() - i,
    {
        let c = cinemas[i].as_str();
        assert(views_of(cinemas@)[i as int] == c@);
        if !(cinema_lock_ok(watch, c) || cinema_lock_exhausted(watch, c)) {
            return false;
        }
        i = i + 1;
    }
    true
}

// ----------------------------------------------------------------------
// Lock defaults of a watch
// ----------------------------------------------------------------------

pub open spec fn is_empty_list(v: Json) -> bool {
    v matches Json::Arr(a) && a@.len() == 0
}

pub open spec fn is_empty_object(v: Json) -> bool {
    v is Obj && forall|k: Seq<char>| field(v, k) is None
}

/// The keys that [`settle_lock_defaults`] fills.
pub open spec fn is_lock_key(k: Seq<char>) -> bool {
    ||| k == "auto_lock"@
    ||| k == "imax_only"@
    ||| k == "lock_num_seats"@
    ||| k == "lock_max_retries"@
    ||| k == "lock_seats"@
    ||| k == "lock_ok_cinemas"@
    ||| k == "lock_tries"@
}

/// Member `k` of `new`: that of `old` when present, else a value meeting `d`.
pub open spec fn kept_or(old: Json, new: Json, k: Seq<char>, d: spec_fn(Json) -> bool) -> bool {
    match field(old, k) {
        Some(v) => field(new, k) == Some(v),
        None => field(new, k) matches Some(x) && d(x),
    }
}

/// `new` is `old` with every missing lock setting at its default.
pub open spec fn lock_defaults_settled(old: Json, new: Json) -> bool {
    &&& new is Obj
    &&& kept_or(old, new, "auto_lock"@, |x: Json| x == Json::Bool(false))
    &&& kept_or(old, new, "imax_only"@, |x: Json| x == Json::Bool(false))
    &&& kept_or(
        old,
        new,
        "lock_num_seats"@,
        |x: Json| x == Json::Int(DEFAULT_LOCK_NUM_SEATS as i128),
    )
    &&& kept_or(
        old,
        new,
        "lock_max_retries"@,
        |x: Json| x == Json::Int(DEFAULT_LOCK_MAX_RETRIES as i128),
    )
    &&& kept_or(old, new, "lock_seats"@, |x: Json| is_empty_list(x))
    &&& kept_or(old, new, "lock_ok_cinemas"@, |x: Json| is_empty_list(x))
    &&& kept_or(old, new, "lock_tries"@, |x: Json| is_empty_object(x))
    &&& forall|k: Seq<char>| !is_lock_key(k) ==> field(new, k) == field(old, k)
}

fn fill_default(w: &mut Json, k: &str, d: Json)
    requires
        (*old(w)) is Obj || (*old(w)) is Null,
    ensures
        (*final(w)) is Obj,
        field(*final(w), k@) == if field(*old(w), k@) is Some {
            field(*old(w), k@)
        } else {
            Some(d)
        },
        forall|k2: Seq<char>| k2 != k@ ==> field(*final(w), k2) == field(*old(w), k2),
{
    if !has_field(w, k) {
        set_field(w, k, d);
    }
}

/// Fills every missing lock setting of a watch with its default; present
/// ones stay as they are.
pub fn settle_lock_defaults(w: &mut Json)
    requires
        (*old(w)) is Obj || (*old(w)) is Null,
    ensures
        lock_defaults_settled(*old(w), *final(w)),
{
    proof {
        reveal_lock_keys();
    }
    let ghost w0 = *w;
    fill_default(w, "auto_lock", Json::Bool(false));
    let ghost w1 = *w;
    fill_default(w, "imax_only", Json::Bool(false));
    let ghost w2 = *w;
    fill_default(w, "lock_num_seats", Json::Int(DEFAULT_LOCK_NUM_SEATS as i128));
    let ghost w3 = *w;
    fill_default(w, "lock_max_retries", Json::Int(DEFAULT_LOCK_MAX_RETRIES as i128));
    let ghost w4 = *w;
    let e1: Vec<Json> = Vec::new();
    assert(is_empty_list(Json::Arr(e1)));
    fill_default(w, "lock_seats", Json::Arr(e1));
    let ghost w5 = *w;
    let e2: Vec<Json> = Vec::new();
    assert(is_empty_list(Json::Arr(e2)));
    fill_default(w, "lock_ok_cinemas", Json::Arr(e2));
    let ghost w6 = *w;
    let e3 = empty_obj();
    assert(is_empty_object(e3));
    fill_default(w, "lock_tries", e3);
    proof {
        let w7 = *w;
        assert(field(w7, "auto_lock"@) == field(w1, "auto_lock"@));
        assert(field(w7, "imax_only"@) == field(w2, "imax_only"@));
        assert(field(w7, "lock_num_seats"@) == field(w3, "lock_num_seats"@));
        assert(field(w7, "lock_max_retries"@) == field(w4, "lock_max_retries"@));
        assert(field(w7, "lock_seats"@) == field(w5, "lock_seats"@));
        assert(field(w7, "lock_ok_cinemas"@) == field(w6, "lock_ok_cinemas"@));
        assert(field(w1, "imax_only"@) == field(w0, "imax_only"@));
        assert(field(w2, "lock_num_seats"@) == field(w0, "lock_num_seats"@));
        assert(field(w3, "lock_max_retries"@) == field(w0, "lock_max_retries"@));
        assert(field(w4, "lock_seats"@) == field(w0, "lock_seats"@));
        assert(field(w5, "lock_ok_cinemas"@) == field(w0, "lock_ok_cinemas"@));
        assert(field(w6, "lock_tries"@) == field(w0, "lock_tries"@));
    }
}

/// The lock keys are distinct strings.
proof fn reveal_lock_keys()
    ensures
        "auto_lock"@ != "imax_only"@,
        "auto_lock"@ != "lock_num_seats"@,
        "auto_lock"@ != "lock_max_retries"@,
        "auto_lock"@ != "lock_seats"@,
        "auto_lock"@ != "lock_ok_cinemas"@,
        "auto_lock"@ != "lock_tries"@,
        "imax_only"@ != "lock_num_seats"@,
        "imax_only"@ != "lock_max_retries"@,
        "imax_only"@ != "lock_seats"@,
        "imax_only"@ != "lock_ok_cinemas"@,
        "imax_only"@ != "lock_tries"@,
        "lock_num_seats"@ != "lock_max_retries"@,
        "lock_num_seats"@ != "lock_seats"@,
        "lock_num_seats"@ != "lock_ok_cinemas"@,
        "lock_num_seats"@ != "lock_tries"@,
        "lock_max_retries"@ != "lock_seats"@,
        "lock_max_retries"@ != "lock_ok_cinemas"@,
        "lock_max_retries"@ != "lock_tries"@,
        "lock_seats"@ != "lock_ok_cinemas"@,
        "lock_seats"@ != "lock_tries"@,
        "lock_ok_cinemas"@ != "lock_tries"@,
{
    reveal_strlit("auto_lock");
    reveal_strlit("imax_only");
    reveal_strlit("lock_num_seats");
    reveal_strlit("lock_max_retries");
    reveal_strlit("lock_seats");
    reveal_strlit("lock_ok_cinemas");
    reveal_strlit("lock_tries");
    assert("auto_lock"@[0] != "imax_only"@[0]);
    assert("auto_lock"@.len() != "lock_num_seats"@.len());
    assert("auto_lock"@.len() != "lock_max_retries"@.len());
    assert("auto_lock"@.len() != "lock_seats"@.len());
    assert("auto_lock"@.len() != "lock_ok_cinemas"@.len());
    assert("auto_lock"@.len() != "lock_tries"@.len());
    assert("imax_only"@.len() != "lock_num_seats"@.len());
    assert("imax_only"@.len() != "lock_max_retries"@.len());
    assert("imax_only"@.len() != "lock_seats"@.len());
    assert("imax_only"@.len() != "lock_ok_cinemas"@.len());
    assert("imax_only"@.len() != "lock_tries"@.len());
    assert("lock_num_seats"@.len() != "lock_max_retries"@.len());
    assert("lock_num_seats"@.len() != "lock_seats"@.len());
    assert("lock_num_seats"@.len() != "lock_ok_cinemas"@.len());
    assert("lock_num_seats"@.len() != "lock_tries"@.len());
    assert("lock_max_retries"@.len() != "lock_seats"@.len());
    assert("lock_max_retries"@.len() != "lock_ok_cinemas"@.len());
    assert("lock_max_retries"@.len() != "lock_tries"@.len());
    assert("lock_seats"@.len() != "lock_ok_cinemas"@.len());
    assert("lock_seats"@[5] != "lock_tries"@[5]);
    assert("lock_ok_cinemas"@.len() != "lock_tries"@.len());
}

/// Settling the lock defaults twice changes nothing the second time.
pub proof fn law_settle_lock_defaults_idempotent(w0: Json, w1: Json, w2: Json)
    requires
        lock_defaults_settled(w0, w1),
        lock_defaults_settled(w1, w2),
    ensures
        forall|k: Seq<char>| field(w2, k) == field(w1, k),
{
    assert forall|k: Seq<char>| field(w2, k) == field(w1, k) by {
        if is_lock_key(k) {
            assert(field(w1, k) is Some);
        }
    }
}

// ----------------------------------------------------------------------
// Lock state updates
// ----------------------------------------------------------------------

/// `w2` is `w` after a lock at `cid`: `cid` appended to `lock_ok_cinemas`
/// unless listed there, and its count dropped from `lock_tries` when that
/// is an object.
pub open spec fn lock_ok_marked(w: Json, w2: Json, cid: Seq<char>) -> bool {
    &&& w2 is Obj
    &&& if cinema_lock_ok_s(w, cid) {
        field(w2, "lock_ok_cinemas"@) == field(w, "lock_ok_cinemas"@)
    } else {
        arr_field(w2, "lock_ok_cinemas"@) matches Some(a) && a.len() > 0 && Some(a.drop_last())
            == arr_field(w, "lock_ok_cinemas"@) && as_str_v(a.last()) == Some(cid)
    }
    &&& match field(w, "lock_tries"@) {
        Some(t) => if t is Obj {
            field(w2, "lock_tries"@) matches Some(t2) && t2 is Obj && field(t2, cid) is None && (
            forall|k2: Seq<char>| k2 != cid ==> field(t2, k2) == field(t, k2))
        } else {
            field(w2, "lock_tries"@) == Some(t)
        },
        None => field(w2, "lock_tries"@) is None,
    }
    &&& forall|k: Seq<char>|
        k != "lock_ok_cinemas"@ && k != "lock_tries"@ ==> field(w2, k) == field(w, k)
}

/// The watch `watch_id` may be updated by `mark_lock_ok`: when it does not
/// list `cid` yet, `lock_ok_cinemas` is a list to append to.
pub open spec fn can_mark_lock_ok(cfg: Json, wid: Seq<char>, cid: Seq<char>) -> bool {
    match find_by_id(watches_of(cfg), wid) {
        Some(w) => cinema_lock_ok_s(w, cid) || arr_field(w, "lock_ok_cinemas"@) is Some,
        None => true,
    }
}

/// `new` is `old` after `upd` was applied to the watch `wid`; when there is
/// no such watch nothing changed.
pub open spec fn watch_updated(
    old: Json,
    new: Json,
    wid: Seq<char>,
    upd: spec_fn(Json, Json) -> bool,
) -> bool {
    match index_by_id(watches_of(old), wid) {
        None => new == old,
        Some(i) => exists|w2: Json|
            #![trigger upd(watches_of(old)[i], w2)]
            upd(watches_of(old)[i], w2) && has_id(w2, wid) && item_replaced(
                old,
                new,
                "watches"@,
                i,
                w2,
            ),
    }
}

fn mark_ok_in_watch(w: &mut Json, cinema_id: &str)
    requires
        (*old(w)) is Obj,
        cinema_lock_ok_s(*old(w), cinema_id@) || arr_field(*old(w), "lock_ok_cinemas"@) is Some,
    ensures
        lock_ok_marked(*old(w), *final(w), cinema_id@),
{
    let ghost w0 = *w;
    proof {
        reveal_lock_keys();
    }
    if !cinema_lock_ok(w, cinema_id) {
        match take_field(w, "lock_ok_cinemas") {
            Some(Json::Arr(mut a)) => {
                let ghost a0 = a@;
                a.push(jstr(cinema_id));
                assert(a@.drop_last() =~= a0);
                set_field(w, "lock_ok_cinemas", Json::Arr(a));
            },
            _ => {
                assert(false);
            },
        }
    }
    let ghost w1 = *w;
    let tries_is_obj = match get(w, "lock_tries") {
        Some(Json::Obj(_)) => true,
        _ => false,
    };
    if tries_is_obj {
        match take_field(w, "lock_tries") {
            Some(mut t) => {
                remove_field(&mut t, cinema_id);
                set_field(w, "lock_tries", t);
            },
            None => {},
        }
    }
    assert(field(w1, "lock_tries"@) == field(w0, "lock_tries"@));
}

/// Records a lock at `cinema_id` for the watch `watch_id`: lists the cinema
/// in `lock_ok_cinemas` (once) and drops its attempt count. The caller saves.
pub fn mark_lock_ok(cfg: &mut Json, watch_id: &str, cinema_id: &str)
    requires
        can_mark_lock_ok(*old(cfg), watch_id@, cinema_id@),
    ensures
        watch_updated(
            *old(cfg),
            *final(cfg),
            watch_id@,
            |w: Json, w2: Json| lock_ok_marked(w, w2, cinema_id@),
        ),
{
    let ghost c0 = *cfg;
    let i = match index_of_id(list_items(cfg, "watches"), watch_id) {
        Some(i) => i,
        None => return ,
    };
    proof {
        lemma_index_by_id_bounds(watches_of(c0), watch_id@);
    }
    let mut w = swap_item(cfg, "watches", i, Json::Null);
    let ghost c1 = *cfg;
    mark_ok_in_watch(&mut w, cinema_id);
    let ghost w2 = w;
    assert(has_id(w2, watch_id@));
    swap_item(cfg, "watches", i, w);
    proof {
        lemma_item_replaced_twice(c0, c1, *cfg, "watches"@, i as int, Json::Null, w2);
        let upd = |w: Json, w2: Json| lock_ok_marked(w, w2, cinema_id@);
        assert(upd(watches_of(c0)[i as int], w2));
    }
}

/// `w2` is `w` after one more lock attempt at `cid`: `lock_tries` is an
/// object (a fresh one when it was none) whose `cid` count went up by one.
pub open spec fn lock_try_counted(w: Json, w2: Json, cid: Seq<char>) -> bool {
    &&& w2 is Obj
    &&& field(w2, "lock_tries"@) matches Some(t2) && t2 is Obj && field(t2, cid) == Some(
        Json::Int((cinema_lock_tries_s(w, cid) + 1) as i128),
    ) && (forall|k2: Seq<char>|
        k2 != cid ==> field(t2, k2) == match field(w, "lock_tries"@) {
            Some(t) => field(t, k2),
            None => None,
        })
    &&& forall|k: Seq<char>| k != "lock_tries"@ ==> field(w2, k) == field(w, k)
}

/// The count of the watch `wid` at `cid` can go up by one.
pub open spec fn can_count_lock_try(cfg: Json, wid: Seq<char>, cid: Seq<char>) -> bool {
    match find_by_id(watches_of(cfg), wid) {
        Some(w) => cinema_lock_tries_s(w, cid) < u64::MAX,
        None => true,
    }
}

fn count_try_in_watch(w: &mut Json, cinema_id: &str)
    requires
        (*old(w)) is Obj,
        cinema_lock_tries_s(*old(w), cinema_id@) < u64::MAX,
    ensures
        lock_try_counted(*old(w), *final(w), cinema_id@),
{
    let cur = cinema_lock_tries(w, cinema_id);
    let is_obj = match get(w, "lock_tries") {
        Some(Json::Obj(_)) => true,
        _ => false,
    };
    if !is_obj {
        set_field(w, "lock_tries", empty_obj());
    }
    match take_field(w, "lock_tries") {
        Some(mut t) => {
            set_field(&mut t, cinema_id, Json::Int(cur as i128 + 1));
            set_field(w, "lock_tries", t);
        },
        None => {
            assert(false);
        },
    }
}

/// Records one more failed lock attempt at `cinema_id` for the watch
/// `watch_id`. The caller saves.
pub fn incr_lock_tries(cfg: &mut Json, watch_id: &str, cinema_id: &str)
    requires
        can_count_lock_try(*old(cfg), watch_id@, cinema_id@),
    ensures
        watch_updated(
            *old(cfg),
            *final(cfg),
            watch_id@,
            |w: Json, w2: Json| lock_try_counted(w, w2, cinema_id@),
        ),
{
    let ghost c0 = *cfg;
    let i = match index_of_id(list_items(cfg, "watches"), watch_id) {
        Some(i) => i,
        None => return ,
    };
    proof {
        lemma_index_by_id_bounds(watches_of(c0), watch_id@);
    }
    let mut w = swap_item(cfg, "watches", i, Json::Null);
    let ghost c1 = *cfg;
    count_try_in_watch(&mut w, cinema_id);
    let ghost w2 = w;
    proof {
        reveal_strlit("id");
        reveal_strlit("lock_tries");
        assert("id"@.len() != "lock_tries"@.len());
    }
    assert(has_id(w2, watch_id@));
    swap_item(cfg, "watches", i, w);
    proof {
        lemma_item_replaced_twice(c0, c1, *cfg, "watches"@, i as int, Json::Null, w2);
        let upd = |w: Json, w2: Json| lock_try_counted(w, w2, cinema_id@);
        assert(upd(watches_of(c0)[i as int], w2));
    }
}

/// `w2` is `w` with its lock state reset: no locked cinemas and no counts.
/// A value that is no object stays as it is.
pub open spec fn lock_state_cleared(w: Json, w2: Json) -> bool {
    if w is Obj {
        &&& w2 is Obj
        &&& field(w2, "lock_ok_cinemas"@) matches Some(a) && is_empty_list(a)
        &&& field(w2, "lock_tries"@) matches Some(t) && is_empty_object(t)
        &&& forall|k: Seq<char>|
            k != "lock_ok_cinemas"@ && k != "lock_tries"@ ==> field(w2, k) == field(w, k)
    } else {
        w2 == w
    }
}

/// Resets the lock state of a watch (`lock_ok_cinemas` and `lock_tries`)
/// and returns how many cinemas were listed as locked. The caller saves.
pub fn clear_lock_state(watch: &mut Json) -> (r: usize)
    ensures
        r == str_list_field(*old(watch), "lock_ok_cinemas"@).len(),
        lock_state_cleared(*old(watch), *final(watch)),
{
    let cleared = lock_ok_cinemas(watch).len();
    if matches!(watch, Json::Obj(_)) {
        let e: Vec<Json> = Vec::new();
        assert(is_empty_list(Json::Arr(e)));
        set_field(watch, "lock_ok_cinemas", Json::Arr(e));
        let t = empty_obj();
        set_field(watch, "lock_tries", t);
        proof {
            reveal_lock_keys();
        }
    }
    cleared
}

/// After a lock at a cinema, it counts as locked and its attempts as none.
pub proof fn law_mark_lock_ok(w: Json, w2: Json, cid: Seq<char>)
    requires
        lock_ok_marked(w, w2, cid),
    ensures
        cinema_lock_ok_s(w2, cid),
        cinema_lock_tries_s(w2, cid) == 0,
{
    if !cinema_lock_ok_s(w, cid) {
        let a = arr_field(w2, "lock_ok_cinemas"@).unwrap();
        assert(a == a.drop_last().push(a.last()));
        lemma_strings_of_push(a.drop_last(), a.last());
        assert(strings_of(a).last() == cid);
        assert(strings_of(a)[strings_of(a).len() - 1] == cid);
    }
}

proof fn lemma_strings_of_push(items: Seq<Json>, v: Json)
    ensures
        strings_of(items.push(v)) == match as_str_v(v) {
            Some(s) => strings_of(items).push(s),
            None => strings_of(items),
        },
{
    assert(items.push(v).drop_last() =~= items);
}

/// One more attempt raises the count of that cinema by one.
pub proof fn law_incr_lock_tries(w: Json, w2: Json, cid: Seq<char>)
    requires
        lock_try_counted(w, w2, cid),
        cinema_lock_tries_s(w, cid) < u64::MAX,
    ensures
        cinema_lock_tries_s(w2, cid) == cinema_lock_tries_s(w, cid) + 1,
{
}

/// After a reset no cinema counts as locked and none has attempts.
pub proof fn law_clear_lock_state(w: Json, w2: Json, cid: Seq<char>)
    requires
        w is Obj,
        lock_state_cleared(w, w2),
    ensures
        !cinema_lock_ok_s(w2, cid),
        cinema_lock_tries_s(w2, cid) == 0,
        str_list_field(w2, "lock_ok_cinemas"@).len() == 0,
{
}

// ----------------------------------------------------------------------
// Baseline of shows seen per cinema (incremental mode)
// ----------------------------------------------------------------------

/// The baseline of show numbers of the watch at `cid`: `None` when none was
/// ever taken, else the set of the strings listed under `seen_shows[cid]`.
pub open spec fn seen_shows_s(w: Json, cid: Seq<char>) -> Option<Set<Seq<char>>> {
    match field(w, "seen_shows"@) {
        Some(s) => match arr_field(s, cid) {
            Some(items) => Some(strings_of(items).to_set()),
            None => None,
        },
        None => None,
    }
}

/// The baseline at `cinema_id`, as an ordered set; `None` tells "never
/// taken" apart from an empty baseline.
pub fn seen_shows(watch: &Json, cinema_id: &str) -> (r: Option<Vec<String>>)
    ensures
        match r {
            Some(v) => strictly_sorted(views_of(v@)) && seen_shows_s(*watch, cinema_id@) == Some(
                views_of(v@).to_set(),
            ),
            None => seen_shows_s(*watch, cinema_id@) is None,
        },
{
    match get(watch, "seen_shows") {
        Some(s) => match get(s, cinema_id) {
            Some(Json::Arr(items)) => {
                let v = strings_in(items);
                assert(views_of(v@) =~= strings_of(items@));
                Some(sort_dedup(v.as_slice()))
            },
            _ => None,
        },
        None => None,
    }
}

/// `w2` is `w` with the baseline at `cid` written as the ordered list of
/// `set`; the other baselines stay (none when `seen_shows` was no object).
pub open spec fn baseline_written(w: Json, w2: Json, cid: Seq<char>, set: Set<Seq<char>>) -> bool {
    &&& w2 is Obj
    &&& field(w2, "seen_shows"@) matches Some(s2) && s2 is Obj && (field(s2, cid) matches Some(v)
        && json_strings(sorted_list_of(set), v)) && (forall|k2: Seq<char>|
        k2 != cid ==> field(s2, k2) == match field(w, "seen_shows"@) {
            Some(s) => field(s, k2),
            None => None,
        })
    &&& forall|k: Seq<char>| k != "seen_shows"@ ==> field(w2, k) == field(w, k)
}

/// The result and effect of `set_seen_shows`.
pub open spec fn seen_shows_set(
    old: Json,
    new: Json,
    wid: Seq<char>,
    cid: Seq<char>,
    set: Set<Seq<char>>,
    changed: bool,
) -> bool {
    match index_by_id(watches_of(old), wid) {
        None => !changed && new == old,
        Some(i) => {
            let w = watches_of(old)[i];
            &&& changed == (seen_shows_s(w, cid) != Some(set))
            &&& !changed ==> new == old
            &&& changed ==> exists|w2: Json|
                #![trigger baseline_written(w, w2, cid, set)]
                baseline_written(w, w2, cid, set) && has_id(w2, wid) && item_replaced(
                    old,
                    new,
                    "watches"@,
                    i,
                    w2,
                )
        },
    }
}

fn write_baseline(w: &mut Json, cinema_id: &str, sorted: Vec<String>)
    requires
        (*old(w)) is Obj,
        strictly_sorted(views_of(sorted@)),
    ensures
        baseline_written(*old(w), *final(w), cinema_id@, views_of(sorted@).to_set()),
{
    let ghost l = views_of(sorted@);
    proof {
        lemma_sorted_list_of(l);
    }
    let is_obj = match get(w, "seen_shows") {
        Some(Json::Obj(_)) => true,
        _ => false,
    };
    if !is_obj {
        set_field(w, "seen_shows", empty_obj());
    }
    let list = jstr_list(&sorted);
    assert(sorted@.map_values(|s: String| s@) == l);
    match take_field(w, "seen_shows") {
        Some(mut t) => {
            set_field(&mut t, cinema_id, list);
            set_field(w, "seen_shows", t);
        },
        None => {
            assert(false);
        },
    }
}

/// Overwrites the baseline of the watch `watch_id` at `cinema_id` with the
/// set of `seqs`; returns whether it changed. Nothing is written when it
/// did not change or the watch is unknown. The caller saves.
pub fn set_seen_shows(cfg: &mut Json, watch_id: &str, cinema_id: &str, seqs: &Vec<String>) -> (r:
    bool)
    ensures
        seen_shows_set(*old(cfg), *final(cfg), watch_id@, cinema_id@, views_of(seqs@).to_set(), r),
{
    let ghost c0 = *cfg;
    let ghost set = views_of(seqs@).to_set();
    let i = match index_of_id(list_items(cfg, "watches"), watch_id) {
        Some(i) => i,
        None => return false,
    };
    proof {
        lemma_index_by_id_bounds(watches_of(c0), watch_id@);
    }
    let sorted = sort_dedup(seqs.as_slice());
    let changed = match seen_shows(&list_items(cfg, "watches")[i], cinema_id) {
        Some(old_list) => {
            let same = strings_eq(&old_list, &sorted);
            proof {
                if !same {
                    if views_of(old_list@).to_set() == views_of(sorted@).to_set() {
                        lemma_sorted_unique(views_of(old_list@), views_of(sorted@));
                    }
                }
            }
            !same
        },
        None => true,
    };
    if !changed {
        return false;
    }
    let mut w = swap_item(cfg, "watches", i, Json::Null);
    let ghost c1 = *cfg;
    write_baseline(&mut w, cinema_id, sorted);
    let ghost w2 = w;
    proof {
        reveal_strlit("id");
        reveal_strlit("seen_shows");
        assert("id"@.len() != "seen_shows"@.len());
    }
    assert(has_id(w2, watch_id@));
    swap_item(cfg, "watches", i, w);
    proof {
        lemma_item_replaced_twice(c0, c1, *cfg, "watches"@, i as int, Json::Null, w2);
        assert(baseline_written(watches_of(c0)[i as int], w2, cinema_id@, set));
    }
    true
}

/// A written baseline reads back as the set written.
pub proof fn law_baseline_read_after_write(w: Json, w2: Json, cid: Seq<char>, set: Set<Seq<char>>)
    requires
        set.finite(),
        baseline_written(w, w2, cid, set),
    ensures
        seen_shows_s(w2, cid) == Some(set),
{
    lemma_sorted_list_exists(set);
    let l = sorted_list_of(set);
    let s2 = field(w2, "seen_shows"@).unwrap();
    let v = field(s2, cid).unwrap();
    lemma_strings_of_json_strings(l, v);
}

/// Every finite set of strings has a sorted list.
pub proof fn lemma_sorted_list_exists(set: Set<Seq<char>>)
    requires
        set.finite(),
    ensures
        strictly_sorted(sorted_list_of(set)),
        sorted_list_of(set).to_set() == set,
    decreases set.len(),
{
    if set.len() == 0 {
        let e = Seq::<Seq<char>>::empty();
        assert(e.to_set() =~= set);
        assert(strictly_sorted(e));
    } else {
        let x = set.choose();
        let rest = set.remove(x);
        lemma_sorted_list_exists(rest);
        let l = sorted_list_of(rest);
        let l2 = sorted_insert(l, x);
        lemma_sorted_insert(l, x);
        assert(l2.to_set() =~= set);
    }
}

/// `l` with `x` put at its place (when `x` is not in `l`).
spec fn sorted_insert(l: Seq<Seq<char>>, x: Seq<char>) -> Seq<Seq<char>>
    decreases l.len(),
{
    if l.len() == 0 {
        seq![x]
    } else if lex_lt(x, l[0]) {
        seq![x] + l
    } else {
        seq![l[0]] + sorted_insert(l.drop_first(), x)
    }
}

proof fn lemma_sorted_insert(l: Seq<Seq<char>>, x: Seq<char>)
    requires
        strictly_sorted(l),
        !l.contains(x),
    ensures
        strictly_sorted(sorted_insert(l, x)),
        sorted_insert(l, x).to_set() == l.to_set().insert(x),
        forall|y: Seq<char>|
            #![trigger sorted_insert(l, x).contains(y)]
            sorted_insert(l, x).contains(y) <==> (l.contains(y) || y == x),
    decreases l.len(),
{
    let r = sorted_insert(l, x);
    if l.len() == 0 {
        assert(r.to_set() =~= l.to_set().insert(x)) by {
            assert forall|y: Seq<char>| r.to_set().contains(y) implies l.to_set().insert(x).contains(y) by {
                let k = choose|k: int| 0 <= k < r.len() && r[k] == y;
            }
            assert(r[0] == x);
        }
        assert forall|y: Seq<char>| r.contains(y) <==> (l.contains(y) || y == x) by {
            if y == x {
                assert(r[0] == x);
            }
        }
    } else if lex_lt(x, l[0]) {
        assert forall|i: int, j: int| 0 <= i < j < r.len() implies lex_lt(
            #[trigger] r[i],
            #[trigger] r[j],
        ) by {
            if i == 0 {
                assert(r[j] == l[j - 1]);
                if j - 1 > 0 {
                    lemma_lex_trans(x, l[0], l[j - 1]);
                }
            } else {
                assert(r[i] == l[i - 1] && r[j] == l[j - 1]);
            }
        }
        assert forall|y: Seq<char>| r.contains(y) <==> (l.contains(y) || y == x) by {
            if r.contains(y) {
                let k = choose|k: int| 0 <= k < r.len() && r[k] == y;
                if k > 0 {
                    assert(l[k - 1] == y);
                }
            }
            if l.contains(y) {
                let k = choose|k: int| 0 <= k < l.len() && l[k] == y;
                assert(r[k + 1] == y);
            }
            if y == x {
                assert(r[0] == x);
            }
        }
        assert(r.to_set() =~= l.to_set().insert(x));
    } else {
        let t = l.drop_first();
        assert forall|i: int, j: int| 0 <= i < j < t.len() implies lex_lt(
            #[trigger] t[i],
            #[trigger] t[j],
        ) by {
            assert(t[i] == l[i + 1] && t[j] == l[j + 1]);
        }
        assert(!t.contains(x)) by {
            if t.contains(x) {
                let k = choose|k: int| 0 <= k < t.len() && t[k] == x;
                assert(l[k + 1] == x);
            }
        }
        lemma_sorted_insert(t, x);
        let rt = sorted_insert(t, x);
        assert(x != l[0]) by {
            assert(l[0] == l[0]);
        }
        lemma_lex_total(x, l[0]);
        assert forall|i: int, j: int| 0 <= i < j < r.len() implies lex_lt(
            #[trigger] r[i],
            #[trigger] r[j],
        ) by {
            if i == 0 {
                assert(r[j] == rt[j - 1]);
                assert(rt.contains(rt[j - 1]));
                if rt[j - 1] == x {
                } else {
                    assert(t.contains(rt[j - 1]));
                    let k = choose|k: int| 0 <= k < t.len() && t[k] == rt[j - 1];
                    assert(l[k + 1] == t[k]);
                }
            } else {
                assert(r[i] == rt[i - 1] && r[j] == rt[j - 1]);
            }
        }
        assert forall|y: Seq<char>| r.contains(y) <==> (l.contains(y) || y == x) by {
            if r.contains(y) {
                let k = choose|k: int| 0 <= k < r.len() && r[k] == y;
                if k > 0 {
                    assert(rt[k - 1] == y);
                    assert(rt.contains(y));
                    if t.contains(y) {
                        let m = choose|m: int| 0 <= m < t.len() && t[m] == y;
                        assert(l[m + 1] == y);
                    }
                } else {
                    assert(l[0] == y);
                }
            }
            if l.contains(y) {
                let k = choose|k: int| 0 <= k < l.len() && l[k] == y;
                if k == 0 {
                    assert(r[0] == y);
                } else {
                    assert(t[k - 1] == y);
                    assert(rt.contains(y));
                    let m = choose|m: int| 0 <= m < rt.len() && rt[m] == y;
                    assert(r[m + 1] == y);
                }
            }
            if y == x {
                assert(rt.contains(x));
                let m = choose|m: int| 0 <= m < rt.len() && rt[m] == x;
                assert(r[m + 1] == x);
            }
        }
        assert(r.to_set() =~= l.to_set().insert(x));
    }
}

/// Writing the same baseline twice: the second write changes nothing.
pub proof fn law_set_seen_shows_idempotent(
    c0: Json,
    c1: Json,
    c2: Json,
    wid: Seq<char>,
    cid: Seq<char>,
    set: Set<Seq<char>>,
    r1: bool,
    r2: bool,
)
    requires
        set.finite(),
        seen_shows_set(c0, c1, wid, cid, set, r1),
        seen_shows_set(c1, c2, wid, cid, set, r2),
    ensures
        !r2,
        c2 == c1,
{
    match index_by_id(watches_of(c0), wid) {
        None => {},
        Some(i) => {
            lemma_index_by_id_bounds(watches_of(c0), wid);
            if r1 {
                let w = watches_of(c0)[i];
                let w2 = choose|w2: Json|
                    #![trigger baseline_written(w, w2, cid, set)]
                    baseline_written(w, w2, cid, set) && has_id(w2, wid) && item_replaced(
                        c0,
                        c1,
                        "watches"@,
                        i,
                        w2,
                    );
                lemma_index_by_id_update(watches_of(c0), wid, i, w2);
                assert(watches_of(c1) == watches_of(c0).update(i, w2));
                law_baseline_read_after_write(w, w2, cid, set);
            }
        },
    }
}

/// After `set_seen_shows` on a known watch, the watch's baseline at the
/// cinema reads back as the set written, its baselines at the other
/// cinemas are as they were, and every other watch is as it was.
pub proof fn law_set_seen_shows_reads_back(
    c0: Json,
    c1: Json,
    wid: Seq<char>,
    cid: Seq<char>,
    set: Set<Seq<char>>,
    changed: bool,
    other: Seq<char>,
    j: int,
)
    requires
        set.finite(),
        seen_shows_set(c0, c1, wid, cid, set, changed),
        find_by_id(watches_of(c0), wid) is Some,
    ensures
        find_by_id(watches_of(c1), wid) matches Some(w1) && seen_shows_s(w1, cid) == Some(set) && (
        other != cid ==> seen_shows_s(w1, other) == seen_shows_s(
            find_by_id(watches_of(c0), wid)->0,
            other,
        )),
        watches_of(c1).len() == watches_of(c0).len(),
        0 <= j < watches_of(c0).len() && index_by_id(watches_of(c0), wid) != Some(j) ==> watches_of(
            c1,
        )[j] == watches_of(c0)[j],
{
    lemma_index_by_id_bounds(watches_of(c0), wid);
    let i = index_by_id(watches_of(c0), wid)->0;
    let w = watches_of(c0)[i];
    if changed {
        let w2 = choose|w2: Json|
            #![trigger baseline_written(w, w2, cid, set)]
            baseline_written(w, w2, cid, set) && has_id(w2, wid) && item_replaced(
                c0,
                c1,
                "watches"@,
                i,
                w2,
            );
        lemma_index_by_id_update(watches_of(c0), wid, i, w2);
        assert(watches_of(c1) == watches_of(c0).update(i, w2));
        law_baseline_read_after_write(w, w2, cid, set);
        if other != cid {
            law_baseline_keeps_others(w, w2, cid, set, other);
        }
    }
}

/// A written baseline leaves the baselines of other cinemas as they were.
pub proof fn law_baseline_keeps_others(
    w: Json,
    w2: Json,
    cid: Seq<char>,
    set: Set<Seq<char>>,
    other: Seq<char>,
)
    requires
        baseline_written(w, w2, cid, set),
        other != cid,
    ensures
        seen_shows_s(w2, other) == seen_shows_s(w, other),
{
}

// ----------------------------------------------------------------------
// Alerts
// ----------------------------------------------------------------------

/// A local date and time of day, by its calendar fields.
#[derive(Clone, Copy, Debug)]
pub struct LocalTime {
    pub year: i32,
    pub month: u32,
    pub day: u32,
    pub hour: u32,
    pub minute: u32,
    pub second: u32,
}

/// The fields of a local time are in their calendar ranges.
pub open spec fn local_time_valid(t: LocalTime) -> bool {
    &&& 1 <= t.month <= 12
    &&& 1 <= t.day <= 31
    &&& t.hour < 24
    &&& t.minute < 60
    &&& t.second < 60
}

/// A year as `%Y` writes it: four digits (zeros in front) from 0 to 9999,
/// otherwise a sign and at least four digits.
pub open spec fn year_text(y: int) -> Seq<char> {
    if 0 <= y <= 9999 {
        zero_padded(y as nat, 4)
    } else if y > 0 {
        seq!['+'] + zero_padded(y as nat, 4)
    } else {
        seq!['-'] + zero_padded((-y) as nat, 4)
    }
}

/// The time stamp of a local time, `%Y-%m-%dT%H:%M:%S`.
pub open spec fn stamp_text(t: LocalTime) -> Seq<char> {
    year_text(t.year as int) + seq!['-'] + zero_padded(t.month as nat, 2) + seq!['-']
        + zero_padded(t.day as nat, 2) + seq!['T'] + zero_padded(t.hour as nat, 2) + seq![':']
        + zero_padded(t.minute as nat, 2) + seq![':'] + zero_padded(t.second as nat, 2)
}

/// A time stamp of some valid local time.
pub open spec fn is_stamp(s: Seq<char>) -> bool {
    exists|t: LocalTime| local_time_valid(t) && #[trigger] stamp_text(t) == s
}

/// The time stamp of `t` (see [`stamp_text`]).
pub fn timestamp_text(t: &LocalTime) -> (r: String)
    ensures
        r@ == stamp_text(*t),
{
    let mut s = String::new();
    let y = t.year;
    if 0 <= y && y <= 9999 {
        push_padded(&mut s, y as u32, 4);
    } else if y > 0 {
        push_char(&mut s, '+');
        push_padded(&mut s, y as u32, 4);
    } else {
        push_char(&mut s, '-');
        let m: u32 = (0i64 - (y as i64)) as u32;
        push_padded(&mut s, m, 4);
    }
    let ghost after_year = s@;
    assert(after_year =~= year_text(t.year as int));
    push_char(&mut s, '-');
    push_padded(&mut s, t.month, 2);
    push_char(&mut s, '-');
    push_padded(&mut s, t.day, 2);
    push_char(&mut s, 'T');
    push_padded(&mut s, t.hour, 2);
    push_char(&mut s, ':');
    push_padded(&mut s, t.minute, 2);
    push_char(&mut s, ':');
    push_padded(&mut s, t.second, 2);
    assert(s@ =~= stamp_text(*t));
    s
}

/// The local date and time now: `chrono::Local::now()` read by its
/// `Datelike` and `Timelike` fields, which chrono documents in their
/// calendar ranges. Which time it is rests on the clock and the time zone.
#[verifier::external_body]
fn local_now() -> (r: LocalTime)
    ensures
        local_time_valid(r),
{
    let t = chrono::Local::now();
    LocalTime {
        year: chrono::Datelike::year(&t),
        month: chrono::Datelike::month(&t),
        day: chrono::Datelike::day(&t),
        hour: chrono::Timelike::hour(&t),
        minute: chrono::Timelike::minute(&t),
        second: chrono::Timelike::second(&t),
    }
}

/// The local time as `%Y-%m-%dT%H:%M:%S`, the time stamp of alerts.
fn local_timestamp() -> (r: String)
    ensures
        is_stamp(r@),
{
    let t = local_now();
    timestamp_text(&t)
}

/// `w2` is `w` after a presale alert at `cid` at time `ts`: `presale_fired`
/// set, `cid` appended to `fired_cinemas` (made a list when absent) unless
/// listed, and `last_alert_at` set to `ts`.
pub open spec fn presale_marked(w: Json, w2: Json, cid: Seq<char>, ts: Seq<char>) -> bool {
    let a0 = match arr_field(w, "fired_cinemas"@) {
        Some(a) => a,
        None => Seq::empty(),
    };
    &&& w2 is Obj
    &&& field(w2, "presale_fired"@) == Some(Json::Bool(true))
    &&& str_field(w2, "last_alert_at"@) == Some(ts)
    &&& if strings_of(a0).contains(cid) {
        arr_field(w2, "fired_cinemas"@) == Some(a0)
    } else {
        arr_field(w2, "fired_cinemas"@) matches Some(a) && a.len() > 0 && a.drop_last() == a0
            && as_str_v(a.last()) == Some(cid)
    }
    &&& forall|k: Seq<char>|
        k != "presale_fired"@ && k != "fired_cinemas"@ && k != "last_alert_at"@ ==> field(w2, k)
            == field(w, k)
}

/// `new` is `old` after a presale alert of the watch `wid` at `cid` at `ts`.
pub open spec fn presale_fired_at(old: Json, new: Json, wid: Seq<char>, cid: Seq<char>, ts: Seq<char>) -> bool {
    watch_updated(old, new, wid, |w: Json, w2: Json| presale_marked(w, w2, cid, ts))
}

/// The watch `wid` has no `fired_cinemas`, or a list of them.
pub open spec fn can_mark_presale(cfg: Json, wid: Seq<char>) -> bool {
    match find_by_id(watches_of(cfg), wid) {
        Some(w) => field(w, "fired_cinemas"@) is None || arr_field(w, "fired_cinemas"@) is Some,
        None => true,
    }
}

proof fn reveal_alert_keys()
    ensures
        "id"@ != "presale_fired"@,
        "id"@ != "fired_cinemas"@,
        "id"@ != "last_alert_at"@,
        "presale_fired"@ != "fired_cinemas"@,
        "presale_fired"@ != "last_alert_at"@,
        "fired_cinemas"@ != "last_alert_at"@,
{
    reveal_strlit("id");
    reveal_strlit("presale_fired");
    reveal_strlit("fired_cinemas");
    reveal_strlit("last_alert_at");
    assert("id"@.len() != "presale_fired"@.len());
    assert("id"@.len() != "fired_cinemas"@.len());
    assert("id"@.len() != "last_alert_at"@.len());
    assert("presale_fired"@[0] != "fired_cinemas"@[0]);
    assert("presale_fired"@[0] != "last_alert_at"@[0]);
    assert("fired_cinemas"@[0] != "last_alert_at"@[0]);
}

fn mark_presale_in_watch(w: &mut Json, cinema_id: &str, now: &str)
    requires
        (*old(w)) is Obj,
        field(*old(w), "fired_cinemas"@) is None || arr_field(*old(w), "fired_cinemas"@) is Some,
    ensures
        presale_marked(*old(w), *final(w), cinema_id@, now@),
{
    proof {
        reveal_alert_keys();
    }
    let ghost w0 = *w;
    set_field(w, "presale_fired", Json::Bool(true));
    if !has_field(w, "fired_cinemas") {
        set_field(w, "fired_cinemas", Json::Arr(Vec::new()));
    }
    let ghost w1 = *w;
    match take_field(w, "fired_cinemas") {
        Some(Json::Arr(mut a)) => {
            let ghost a0 = a@;
            let names = strings_in(&a);
            assert(views_of(names@) =~= strings_of(a0));
            if !strings_contain(&names, cinema_id) {
                a.push(jstr(cinema_id));
                assert(a@.drop_last() =~= a0);
            }
            set_field(w, "fired_cinemas", Json::Arr(a));
        },
        _ => {
            assert(false);
        },
    }
    set_field(w, "last_alert_at", jstr(now));
}

/// Records a presale alert for the watch `watch_id` at `cinema_id` at time
/// `now`. The caller saves.
pub fn mark_presale_fired_at(cfg: &mut Json, watch_id: &str, cinema_id: &str, now: &str)
    requires
        can_mark_presale(*old(cfg), watch_id@),
    ensures
        presale_fired_at(*old(cfg), *final(cfg), watch_id@, cinema_id@, now@),
{
    let ghost c0 = *cfg;
    let i = match index_of_id(list_items(cfg, "watches"), watch_id) {
        Some(i) => i,
        None => return ,
    };
    proof {
        lemma_index_by_id_bounds(watches_of(c0), watch_id@);
        reveal_alert_keys();
    }
    let mut w = swap_item(cfg, "watches", i, Json::Null);
    let ghost c1 = *cfg;
    mark_presale_in_watch(&mut w, cinema_id, now);
    let ghost w2 = w;
    assert(has_id(w2, watch_id@));
    swap_item(cfg, "watches", i, w);
    proof {
        lemma_item_replaced_twice(c0, c1, *cfg, "watches"@, i as int, Json::Null, w2);
        let upd = |w: Json, w2: Json| presale_marked(w, w2, cinema_id@, now@);
        assert(upd(watches_of(c0)[i as int], w2));
    }
}

/// Records a presale alert now (the local time is the stamp).
pub fn mark_presale_fired(cfg: &mut Json, watch_id: &str, cinema_id: &str)
    requires
        can_mark_presale(*old(cfg), watch_id@),
    ensures
        exists|ts: Seq<char>| is_stamp(ts) && #[trigger] presale_fired_at(*old(cfg), *final(cfg), watch_id@, cinema_id@, ts),
{
    let now = local_timestamp();
    mark_presale_fired_at(cfg, watch_id, cinema_id, now.as_str());
}

/// `w2` is `w` with `last_alert_at` set to `ts`.
pub open spec fn alert_touched(w: Json, w2: Json, ts: Seq<char>) -> bool {
    &&& w2 is Obj
    &&& str_field(w2, "last_alert_at"@) == Some(ts)
    &&& forall|k: Seq<char>| k != "last_alert_at"@ ==> field(w2, k) == field(w, k)
}

/// `new` is `old` after an alert of the watch `wid` at `ts`.
pub open spec fn alert_touched_at(old: Json, new: Json, wid: Seq<char>, ts: Seq<char>) -> bool {
    watch_updated(old, new, wid, |w: Json, w2: Json| alert_touched(w, w2, ts))
}

/// Stamps the watch `watch_id` with an alert at time `now` (incremental
/// mode keeps no list of fired cinemas). The caller saves.
pub fn touch_last_alert_at(cfg: &mut Json, watch_id: &str, now: &str)
    ensures
        alert_touched_at(*old(cfg), *final(cfg), watch_id@, now@),
{
    let ghost c0 = *cfg;
    let i = match index_of_id(list_items(cfg, "watches"), watch_id) {
        Some(i) => i,
        None => return ,
    };
    proof {
        lemma_index_by_id_bounds(watches_of(c0), watch_id@);
        reveal_alert_keys();
    }
    let mut w = swap_item(cfg, "watches", i, Json::Null);
    let ghost c1 = *cfg;
    set_field(&mut w, "last_alert_at", jstr(now));
    let ghost w2 = w;
    assert(has_id(w2, watch_id@));
    swap_item(cfg, "watches", i, w);
    proof {
        lemma_item_replaced_twice(c0, c1, *cfg, "watches"@, i as int, Json::Null, w2);
        let upd = |w: Json, w2: Json| alert_touched(w, w2, now@);
        assert(upd(watches_of(c0)[i as int], w2));
    }
}

/// Stamps the watch `watch_id` with an alert now.
pub fn touch_last_alert(cfg: &mut Json, watch_id: &str)
    ensures
        exists|ts: Seq<char>| is_stamp(ts) && #[trigger] alert_touched_at(*old(cfg), *final(cfg), watch_id@, ts),
{
    let now = local_timestamp();
    touch_last_alert_at(cfg, watch_id, now.as_str());
}

// ----------------------------------------------------------------------
// Edits of the match range
// ----------------------------------------------------------------------

pub open spec fn str_or_empty(w: Json, k: Seq<char>) -> Seq<char> {
    match str_field(w, k) {
        Some(s) => s,
        None => Seq::empty(),
    }
}

pub open spec fn i64_or_zero(w: Json, k: Seq<char>) -> i64 {
    match i64_field(w, k) {
        Some(n) => n,
        None => 0,
    }
}

/// Whether the match range differs between two versions of a watch: its
/// cinemas, dates (an absent list reads as empty), time window, IMAX-only
/// flag or movie.
pub open spec fn lock_keys_changed_s(a: Json, b: Json) -> bool {
    ||| str_list_field(a, "cinemas"@) != str_list_field(b, "cinemas"@)
    ||| str_list_field(a, "dates"@) != str_list_field(b, "dates"@)
    ||| str_or_empty(a, "time_window"@) != str_or_empty(b, "time_window"@)
    ||| flag_of(a, "imax_only"@) != flag_of(b, "imax_only"@)
    ||| i64_or_zero(a, "movie_id"@) != i64_or_zero(b, "movie_id"@)
}

/// Whether an edit changed the match range, so that the lock state no
/// longer holds. Notification fields, lock parameters, `mode` and
/// `interval` do not count.
pub fn lock_keys_changed(old: &Json, new: &Json) -> (r: bool)
    ensures
        r == lock_keys_changed_s(*old, *new),
{
    if !strings_eq(&str_list(old, "cinemas"), &str_list(new, "cinemas")) {
        return true;
    }
    if !strings_eq(&str_list(old, "dates"), &str_list(new, "dates")) {
        return true;
    }
    let tw_old = match get_str(old, "time_window") {
        Some(s) => s,
        None => owned(""),
    };
    let tw_new = match get_str(new, "time_window") {
        Some(s) => s,
        None => owned(""),
    };
    proof {
        reveal_strlit("");
        assert(""@ =~= Seq::<char>::empty());
    }
    assert(tw_old@ == str_or_empty(*old, "time_window"@));
    assert(tw_new@ == str_or_empty(*new, "time_window"@));
    if !str_eq(tw_old.as_str(), tw_new.as_str()) {
        return true;
    }
    let imax_old = match get_bool(old, "imax_only") {
        Some(b) => b,
        None => false,
    };
    let imax_new = match get_bool(new, "imax_only") {
        Some(b) => b,
        None => false,
    };
    if imax_old != imax_new {
        return true;
    }
    let movie_old = match get_i64(old, "movie_id") {
        Some(n) => n,
        None => 0,
    };
    let movie_new = match get_i64(new, "movie_id") {
        Some(n) => n,
        None => 0,
    };
    movie_old != movie_new
}

/// A watch compared with itself has an unchanged match range.
pub proof fn law_lock_keys_unchanged_by_itself(w: Json)
    ensures
        !lock_keys_changed_s(w, w),
{
}

/// The comparison does not depend on which version comes first.
pub proof fn law_lock_keys_changed_symmetric(a: Json, b: Json)
    ensures
        lock_keys_changed_s(a, b) == lock_keys_changed_s(b, a),
{
}

// ----------------------------------------------------------------------
// Adding and removing cinemas and watches
// ----------------------------------------------------------------------

/// Why a change of the configuration was refused.
#[derive(Debug, Clone)]
pub enum ConfigError {
    /// `cinemas` is missing or no list.
    MissingCinemas,
    /// `watches` is missing or no list.
    MissingWatches,
    /// The time window of a new watch does not read.
    BadTimeWindow(WindowError),
}

pub open spec fn config_error_text(e: ConfigError) -> Seq<char> {
    match e {
        ConfigError::MissingCinemas => "config 缺少 cinemas[]"@,
        ConfigError::MissingWatches => "config 缺少 watches[]"@,
        ConfigError::BadTimeWindow(w) => "time_window 格式错误: "@ + window_error_text(w@),
    }
}

impl ConfigError {
    /// The message shown to the user.
    pub fn message(&self) -> (r: String)
        ensures
            r@ == config_error_text(*self),
    {
        match self {
            ConfigError::MissingCinemas => owned("config 缺少 cinemas[]"),
            ConfigError::MissingWatches => owned("config 缺少 watches[]"),
            ConfigError::BadTimeWindow(w) => {
                let mut r = owned("time_window 格式错误: ");
                let m = w.message();
                append_str(&mut r, m.as_str());
                r
            },
        }
    }
}

/// `cfg` after `item` was appended to the list `cfg[key]`, all else kept.
pub open spec fn item_pushed(old: Json, new: Json, key: Seq<char>, item: Json) -> bool {
    &&& new is Obj
    &&& arr_field(new, key) == Some(list_of(old, key).push(item))
    &&& forall|k: Seq<char>| k != key ==> field(new, k) == field(old, k)
}

fn push_item(cfg: &mut Json, key: &str, item: Json)
    requires
        arr_field(*old(cfg), key@) is Some,
    ensures
        item_pushed(*old(cfg), *final(cfg), key@, item),
{
    match take_field(cfg, key) {
        Some(Json::Arr(mut items)) => {
            items.push(item);
            set_field(cfg, key, Json::Arr(items));
        },
        _ => {
            assert(false);
        },
    }
}

/// The name a cinema gets when none is given.
pub open spec fn default_cinema_name(cid: Seq<char>) -> Seq<char> {
    "影城 "@ + cid
}

/// A cinema entry made by [`add_cinema`]: its `id`, its `name`, and
/// `builtin` false, nothing else.
pub open spec fn is_new_cinema(c: Json, cid: Seq<char>, name: Seq<char>) -> bool {
    &&& c is Obj
    &&& str_field(c, "id"@) == Some(cid)
    &&& str_field(c, "name"@) == Some(name)
    &&& field(c, "builtin"@) == Some(Json::Bool(false))
    &&& forall|k: Seq<char>|
        k != "id"@ && k != "name"@ && k != "builtin"@ ==> field(c, k) is None
}

/// The result and effect of `add_cinema`.
pub open spec fn cinema_added(
    old: Json,
    new: Json,
    cid: Seq<char>,
    name: Option<Seq<char>>,
    r: Result<bool, ConfigError>,
) -> bool {
    if find_by_id(cinemas_of(old), cid) is Some {
        r == Ok::<bool, ConfigError>(false) && new == old
    } else if arr_field(old, "cinemas"@) is None {
        r matches Err(ConfigError::MissingCinemas) && new == old
    } else {
        &&& r == Ok::<bool, ConfigError>(true)
        &&& exists|c: Json|
            #![trigger item_pushed(old, new, "cinemas"@, c)]
            item_pushed(old, new, "cinemas"@, c) && is_new_cinema(
                c,
                cid,
                match name {
                    Some(n) => n,
                    None => default_cinema_name(cid),
                },
            )
    }
}

/// Registers the cinema `cinema_id` unless it is known; `Ok(true)` when it
/// was added. The caller saves.
pub fn add_cinema(cfg: &mut Json, cinema_id: &str, name: Option<&str>) -> (r: Result<
    bool,
    ConfigError,
>)
    ensures
        cinema_added(
            *old(cfg),
            *final(cfg),
            cinema_id@,
            match name {
                Some(n) => Some(n@),
                None => None,
            },
            r,
        ),
{
    if find_cinema(cfg, cinema_id).is_some() {
        return Ok(false);
    }
    let is_list = match get(cfg, "cinemas") {
        Some(Json::Arr(_)) => true,
        _ => false,
    };
    if !is_list {
        return Err(ConfigError::MissingCinemas);
    }
    let name_value = match name {
        Some(n) => owned(n),
        None => {
            let mut t = owned("影城 ");
            append_str(&mut t, cinema_id);
            t
        },
    };
    let mut c = empty_obj();
    set_field(&mut c, "id", jstr(cinema_id));
    set_field(&mut c, "name", Json::Str(name_value));
    set_field(&mut c, "builtin", Json::Bool(false));
    proof {
        reveal_strlit("id");
        reveal_strlit("name");
        reveal_strlit("builtin");
        assert("id"@.len() != "name"@.len());
        assert("id"@.len() != "builtin"@.len());
        assert("name"@.len() != "builtin"@.len());
    }
    let ghost cv = c;
    push_item(cfg, "cinemas", c);
    Ok(true)
}

/// Items of `items` whose `id` is not `id`, in order.
pub open spec fn without_id(items: Seq<Json>, id: Seq<char>) -> Seq<Json>
    decreases items.len(),
{
    if items.len() == 0 {
        Seq::empty()
    } else {
        let rest = without_id(items.drop_last(), id);
        if has_id(items.last(), id) {
            rest
        } else {
            rest.push(items.last())
        }
    }
}

/// No item left by `without_id` has the id.
pub proof fn lemma_without_id(items: Seq<Json>, id: Seq<char>)
    ensures
        forall|j: int|
            0 <= j < without_id(items, id).len() ==> !has_id(#[trigger] without_id(items, id)[j], id),
        index_by_id(without_id(items, id), id) is None,
    decreases items.len(),
{
    if items.len() > 0 {
        lemma_without_id(items.drop_last(), id);
    }
    lemma_index_by_id_none(without_id(items, id), id);
}

/// The result and effect of removing the items with id `id` from `cfg[key]`.
pub open spec fn items_removed(old: Json, new: Json, key: Seq<char>, id: Seq<char>, r: bool) -> bool {
    match arr_field(old, key) {
        Some(items) => {
            &&& r == index_by_id(items, id) is Some
            &&& new is Obj
            &&& arr_field(new, key) == Some(without_id(items, id))
            &&& forall|k: Seq<char>| k != key ==> field(new, k) == field(old, k)
        },
        None => !r && new == old,
    }
}

fn remove_items(cfg: &mut Json, key: &str, id: &str) -> (r: bool)
    ensures
        items_removed(*old(cfg), *final(cfg), key@, id@, r),
{
    let ghost c0 = *cfg;
    let is_list = match get(cfg, key) {
        Some(Json::Arr(_)) => true,
        _ => false,
    };
    if !is_list {
        return false;
    }
    let items = match take_field(cfg, key) {
        Some(Json::Arr(items)) => items,
        _ => {
            proof {
                assert(false);
            }
            return false;
        },
    };
    let ghost s0 = items@;
    let mut items = items;
    let n = items.len();
    let mut out: Vec<Json> = Vec::new();
    let mut removed = false;
    let mut i: usize = 0;
    while i < n
        invariant
            n == s0.len(),
            i <= n,
            items@ == s0.skip(i as int),
            out@ == without_id(s0.take(i as int), id@),
            removed == exists|j: int| 0 <= j < i && has_id(#[trigger] s0[j], id@),
        decreases n - i,
    {
        assert(s0.take(i + 1).drop_last() =~= s0.take(i as int));
        assert(items@[0] == s0[i as int]);
        let it = items.remove(0);
        assert(items@ =~= s0.skip(i + 1));
        let matches_id = match get_str(&it, "id") {
            Some(s) => str_eq(s.as_str(), id),
            None => false,
        };
        if matches_id {
            removed = true;
        } else {
            out.push(it);
        }
        i = i + 1;
    }
    assert(s0.take(n as int) =~= s0);
    proof {
        lemma_index_by_id_bounds(s0, id@);
        if !removed {
            lemma_index_by_id_none(s0, id@);
        }
    }
    set_field(cfg, key, Json::Arr(out));
    removed
}

/// Drops the cinema `cinema_id`; `true` when one was there. The caller saves.
pub fn remove_cinema(cfg: &mut Json, cinema_id: &str) -> (r: bool)
    ensures
        items_removed(*old(cfg), *final(cfg), "cinemas"@, cinema_id@, r),
{
    remove_items(cfg, "cinemas", cinema_id)
}

/// Drops the watch `watch_id`; `true` when one was there. The caller saves.
pub fn remove_watch(cfg: &mut Json, watch_id: &str) -> (r: bool)
    ensures
        items_removed(*old(cfg), *final(cfg), "watches"@, watch_id@, r),
{
    remove_items(cfg, "watches", watch_id)
}

/// A cinema that was added, or was there, is found afterwards.
pub proof fn law_add_cinema_then_found(
    old: Json,
    new: Json,
    cid: Seq<char>,
    name: Option<Seq<char>>,
    r: Result<bool, ConfigError>,
)
    requires
        cinema_added(old, new, cid, name, r),
        r is Ok,
    ensures
        find_by_id(cinemas_of(new), cid) is Some,
{
    if find_by_id(cinemas_of(old), cid) is None {
        let c = choose|c: Json|
            #![trigger item_pushed(old, new, "cinemas"@, c)]
            item_pushed(old, new, "cinemas"@, c) && is_new_cinema(
                c,
                cid,
                match name {
                    Some(n) => n,
                    None => default_cinema_name(cid),
                },
            );
        lemma_index_by_id_push(cinemas_of(old), cid, c);
    }
}

/// Adding a known cinema again changes nothing and reports `false`.
pub proof fn law_add_cinema_twice(
    c0: Json,
    c1: Json,
    c2: Json,
    cid: Seq<char>,
    name: Option<Seq<char>>,
    r1: Result<bool, ConfigError>,
    r2: Result<bool, ConfigError>,
)
    requires
        cinema_added(c0, c1, cid, name, r1),
        r1 is Ok,
        cinema_added(c1, c2, cid, name, r2),
    ensures
        r2 == Ok::<bool, ConfigError>(false),
        c2 == c1,
{
    law_add_cinema_then_found(c0, c1, cid, name, r1);
}

/// After a removal no item with that id is found.
pub proof fn law_removed_not_found(old: Json, new: Json, key: Seq<char>, id: Seq<char>, r: bool)
    requires
        items_removed(old, new, key, id, r),
    ensures
        index_by_id(list_of(new, key), id) is None,
{
    match arr_field(old, key) {
        Some(items) => {
            lemma_without_id(items, id);
        },
        None => {
            lemma_index_by_id_bounds(list_of(new, key), id);
        },
    }
}

/// The keys of a new watch are distinct strings.
proof fn reveal_watch_keys()
    ensures
        "id"@ != "movie_id"@,
        "id"@ != "movie_name"@,
        "id"@ != "cinemas"@,
        "id"@ != "dates"@,
        "id"@ != "interval"@,
        "id"@ != "mode"@,
        "id"@ != "time_window"@,
        "id"@ != "notify_webhook"@,
        "id"@ != "notify_email_to"@,
        "id"@ != "xhs_group"@,
        "id"@ != "wechat_notify"@,
        "id"@ != "auto_lock"@,
        "id"@ != "imax_only"@,
        "id"@ != "lock_num_seats"@,
        "id"@ != "lock_max_retries"@,
        "id"@ != "lock_seats"@,
        "id"@ != "enabled"@,
        "id"@ != "presale_fired"@,
        "id"@ != "created_at"@,
        "id"@ != "lock_ok_cinemas"@,
        "id"@ != "lock_tries"@,
        "movie_id"@ != "movie_name"@,
        "movie_id"@ != "cinemas"@,
        "movie_id"@ != "dates"@,
        "movie_id"@ != "interval"@,
        "movie_id"@ != "mode"@,
        "movie_id"@ != "time_window"@,
        "movie_id"@ != "notify_webhook"@,
        "movie_id"@ != "notify_email_to"@,
        "movie_id"@ != "xhs_group"@,
        "movie_id"@ != "wechat_notify"@,
        "movie_id"@ != "auto_lock"@,
        "movie_id"@ != "imax_only"@,
        "movie_id"@ != "lock_num_seats"@,
        "movie_id"@ != "lock_max_retries"@,
        "movie_id"@ != "lock_seats"@,
        "movie_id"@ != "enabled"@,
        "movie_id"@ != "presale_fired"@,
        "movie_id"@ != "created_at"@,
        "movie_id"@ != "lock_ok_cinemas"@,
        "movie_id"@ != "lock_tries"@,
        "movie_name"@ != "cinemas"@,
        "movie_name"@ != "dates"@,
        "movie_name"@ != "interval"@,
        "movie_name"@ != "mode"@,
        "movie_name"@ != "time_window"@,
        "movie_name"@ != "notify_webhook"@,
        "movie_name"@ != "notify_email_to"@,
        "movie_name"@ != "xhs_group"@,
        "movie_name"@ != "wechat_notify"@,
        "movie_name"@ != "auto_lock"@,
        "movie_name"@ != "imax_only"@,
        "movie_name"@ != "lock_num_seats"@,
        "movie_name"@ != "lock_max_retries"@,
        "movie_name"@ != "lock_seats"@,
        "movie_name"@ != "enabled"@,
        "movie_name"@ != "presale_fired"@,
        "movie_name"@ != "created_at"@,
        "movie_name"@ != "lock_ok_cinemas"@,
        "movie_name"@ != "lock_tries"@,
        "cinemas"@ != "dates"@,
        "cinemas"@ != "interval"@,
        "cinemas"@ != "mode"@,
        "cinemas"@ != "time_window"@,
        "cinemas"@ != "notify_webhook"@,
        "cinemas"@ != "notify_email_to"@,
        "cinemas"@ != "xhs_group"@,
        "cinemas"@ != "wechat_notify"@,
        "cinemas"@ != "auto_lock"@,
        "cinemas"@ != "imax_only"@,
        "cinemas"@ != "lock_num_seats"@,
        "cinemas"@ != "lock_max_retries"@,
        "cinemas"@ != "lock_seats"@,
        "cinemas"@ != "enabled"@,
        "cinemas"@ != "presale_fired"@,
        "cinemas"@ != "created_at"@,
        "cinemas"@ != "lock_ok_cinemas"@,
        "cinemas"@ != "lock_tries"@,
        "dates"@ != "interval"@,
        "dates"@ != "mode"@,
        "dates"@ != "time_window"@,
        "dates"@ != "notify_webhook"@,
        "dates"@ != "notify_email_to"@,
        "dates"@ != "xhs_group"@,
        "dates"@ != "wechat_notify"@,
        "dates"@ != "auto_lock"@,
        "dates"@ != "imax_only"@,
        "dates"@ != "lock_num_seats"@,
        "dates"@ != "lock_max_retries"@,
        "dates"@ != "lock_seats"@,
        "dates"@ != "enabled"@,
        "dates"@ != "presale_fired"@,
        "dates"@ != "created_at"@,
        "dates"@ != "lock_ok_cinemas"@,
        "dates"@ != "lock_tries"@,
        "interval"@ != "mode"@,
        "interval"@ != "time_window"@,
        "interval"@ != "notify_webhook"@,
        "interval"@ != "notify_email_to"@,
        "interval"@ != "xhs_group"@,
        "interval"@ != "wechat_notify"@,
        "interval"@ != "auto_lock"@,
        "interval"@ != "imax_only"@,
        "interval"@ != "lock_num_seats"@,
        "interval"@ != "lock_max_retries"@,
        "interval"@ != "lock_seats"@,
        "interval"@ != "enabled"@,
        "interval"@ != "presale_fired"@,
        "interval"@ != "created_at"@,
        "interval"@ != "lock_ok_cinemas"@,
        "interval"@ != "lock_tries"@,
        "mode"@ != "time_window"@,
        "mode"@ != "notify_webhook"@,
        "mode"@ != "notify_email_to"@,
        "mode"@ != "xhs_group"@,
        "mode"@ != "wechat_notify"@,
        "mode"@ != "auto_lock"@,
        "mode"@ != "imax_only"@,
        "mode"@ != "lock_num_seats"@,
        "mode"@ != "lock_max_retries"@,
        "mode"@ != "lock_seats"@,
        "mode"@ != "enabled"@,
        "mode"@ != "presale_fired"@,
        "mode"@ != "created_at"@,
        "mode"@ != "lock_ok_cinemas"@,
        "mode"@ != "lock_tries"@,
        "time_window"@ != "notify_webhook"@,
        "time_window"@ != "notify_email_to"@,
        "time_window"@ != "xhs_group"@,
        "time_window"@ != "wechat_notify"@,
        "time_window"@ != "auto_lock"@,
        "time_window"@ != "imax_only"@,
        "time_window"@ != "lock_num_seats"@,
        "time_window"@ != "lock_max_retries"@,
        "time_window"@ != "lock_seats"@,
        "time_window"@ != "enabled"@,
        "time_window"@ != "presale_fired"@,
        "time_window"@ != "created_at"@,
        "time_window"@ != "lock_ok_cinemas"@,
        "time_window"@ != "lock_tries"@,
        "notify_webhook"@ != "notify_email_to"@,
        "notify_webhook"@ != "xhs_group"@,
        "notify_webhook"@ != "wechat_notify"@,
        "notify_webhook"@ != "auto_lock"@,
        "notify_webhook"@ != "imax_only"@,
        "notify_webhook"@ != "lock_num_seats"@,
        "notify_webhook"@ != "lock_max_retries"@,
        "notify_webhook"@ != "lock_seats"@,
        "notify_webhook"@ != "enabled"@,
        "notify_webhook"@ != "presale_fired"@,
        "notify_webhook"@ != "created_at"@,
        "notify_webhook"@ != "lock_ok_cinemas"@,
        "notify_webhook"@ != "lock_tries"@,
        "notify_email_to"@ != "xhs_group"@,
        "notify_email_to"@ != "wechat_notify"@,
        "notify_email_to"@ != "auto_lock"@,
        "notify_email_to"@ != "imax_only"@,
        "notify_email_to"@ != "lock_num_seats"@,
        "notify_email_to"@ != "lock_max_retries"@,
        "notify_email_to"@ != "lock_seats"@,
        "notify_email_to"@ != "enabled"@,
        "notify_email_to"@ != "presale_fired"@,
        "notify_email_to"@ != "created_at"@,
        "notify_email_to"@ != "lock_ok_cinemas"@,
        "notify_email_to"@ != "lock_tries"@,
        "xhs_group"@ != "wechat_notify"@,
        "xhs_group"@ != "auto_lock"@,
        "xhs_group"@ != "imax_only"@,
        "xhs_group"@ != "lock_num_seats"@,
        "xhs_group"@ != "lock_max_retries"@,
        "xhs_group"@ != "lock_seats"@,
        "xhs_group"@ != "enabled"@,
        "xhs_group"@ != "presale_fired"@,
        "xhs_group"@ != "created_at"@,
        "xhs_group"@ != "lock_ok_cinemas"@,
        "xhs_group"@ != "lock_tries"@,
        "wechat_notify"@ != "auto_lock"@,
        "wechat_notify"@ != "imax_only"@,
        "wechat_notify"@ != "lock_num_seats"@,
        "wechat_notify"@ != "lock_max_retries"@,
        "wechat_notify"@ != "lock_seats"@,
        "wechat_notify"@ != "enabled"@,
        "wechat_notify"@ != "presale_fired"@,
        "wechat_notify"@ != "created_at"@,
        "wechat_notify"@ != "lock_ok_cinemas"@,
        "wechat_notify"@ != "lock_tries"@,
        "auto_lock"@ != "imax_only"@,
        "auto_lock"@ != "lock_num_seats"@,
        "auto_lock"@ != "lock_max_retries"@,
        "auto_lock"@ != "lock_seats"@,
        "auto_lock"@ != "enabled"@,
        "auto_lock"@ != "presale_fired"@,
        "auto_lock"@ != "created_at"@,
        "auto_lock"@ != "lock_ok_cinemas"@,
        "auto_lock"@ != "lock_tries"@,
        "imax_only"@ != "lock_num_seats"@,
        "imax_only"@ != "lock_max_retries"@,
        "imax_only"@ != "lock_seats"@,
        "imax_only"@ != "enabled"@,
        "imax_only"@ != "presale_fired"@,
        "imax_only"@ != "created_at"@,
        "imax_only"@ != "lock_ok_cinemas"@,
        "imax_only"@ != "lock_tries"@,
        "lock_num_seats"@ != "lock_max_retries"@,
        "lock_num_seats"@ != "lock_seats"@,
        "lock_num_seats"@ != "enabled"@,
        "lock_num_seats"@ != "presale_fired"@,
        "lock_num_seats"@ != "created_at"@,
        "lock_num_seats"@ != "lock_ok_cinemas"@,
        "lock_num_seats"@ != "lock_tries"@,
        "lock_max_retries"@ != "lock_seats"@,
        "lock_max_retries"@ != "enabled"@,
        "lock_max_retries"@ != "presale_fired"@,
        "lock_max_retries"@ != "created_at"@,
        "lock_max_retries"@ != "lock_ok_cinemas"@,
        "lock_max_retries"@ != "lock_tries"@,
        "lock_seats"@ != "enabled"@,
        "lock_seats"@ != "presale_fired"@,
        "lock_seats"@ != "created_at"@,
        "lock_seats"@ != "lock_ok_cinemas"@,
        "lock_seats"@ != "lock_tries"@,
        "enabled"@ != "presale_fired"@,
        "enabled"@ != "created_at"@,
        "enabled"@ != "lock_ok_cinemas"@,
        "enabled"@ != "lock_tries"@,
        "presale_fired"@ != "created_at"@,
        "presale_fired"@ != "lock_ok_cinemas"@,
        "presale_fired"@ != "lock_tries"@,
        "created_at"@ != "lock_ok_cinemas"@,
        "created_at"@ != "lock_tries"@,
        "lock_ok_cinemas"@ != "lock_tries"@,
{
    reveal_strlit("id");
    reveal_strlit("movie_id");
    reveal_strlit("movie_name");
    reveal_strlit("cinemas");
    reveal_strlit("dates");
    reveal_strlit("interval");
    reveal_strlit("mode");
    reveal_strlit("time_window");
    reveal_strlit("notify_webhook");
    reveal_strlit("notify_email_to");
    reveal_strlit("xhs_group");
    reveal_strlit("wechat_notify");
    reveal_strlit("auto_lock");
    reveal_strlit("imax_only");
    reveal_strlit("lock_num_seats");
    reveal_strlit("lock_max_retries");
    reveal_strlit("lock_seats");
    reveal_strlit("enabled");
    reveal_strlit("presale_fired");
    reveal_strlit("created_at");
    reveal_strlit("lock_ok_cinemas");
    reveal_strlit("lock_tries");
    assert("id"@.len() != "movie_id"@.len());
    assert("id"@.len() != "movie_name"@.len());
    assert("id"@.len() != "cinemas"@.len());
    assert("id"@.len() != "dates"@.len());
    assert("id"@.len() != "interval"@.len());
    assert("id"@.len() != "mode"@.len());
    assert("id"@.len() != "time_window"@.len());
    assert("id"@.len() != "notify_webhook"@.len());
    assert("id"@.len() != "notify_email_to"@.len());
    assert("id"@.len() != "xhs_group"@.len());
    assert("id"@.len() != "wechat_notify"@.len());
    assert("id"@.len() != "auto_lock"@.len());
    assert("id"@.len() != "imax_only"@.len());
    assert("id"@.len() != "lock_num_seats"@.len());
    assert("id"@.len() != "lock_max_retries"@.len());
    assert("id"@.len() != "lock_seats"@.len());
    assert("id"@.len() != "enabled"@.len());
    assert("id"@.len() != "presale_fired"@.len());
    assert("id"@.len() != "created_at"@.len());
    assert("id"@.len() != "lock_ok_cinemas"@.len());
    assert("id"@.len() != "lock_tries"@.len());
    assert("movie_id"@.len() != "movie_name"@.len());
    assert("movie_id"@.len() != "cinemas"@.len());
    assert("movie_id"@.len() != "dates"@.len());
    assert("movie_id"@[0] != "interval"@[0]);
    assert("movie_id"@.len() != "mode"@.len());
    assert("movie_id"@.len() != "time_window"@.len());
    assert("movie_id"@.len() != "notify_webhook"@.len());
    assert("movie_id"@.len() != "notify_email_to"@.len());
    assert("movie_id"@.len() != "xhs_group"@.len());
    assert("movie_id"@.len() != "wechat_notify"@.len());
    assert("movie_id"@.len() != "auto_lock"@.len());
    assert("movie_id"@.len() != "imax_only"@.len());
    assert("movie_id"@.len() != "lock_num_seats"@.len());
    assert("movie_id"@.len() != "lock_max_retries"@.len());
    assert("movie_id"@.len() != "lock_seats"@.len());
    assert("movie_id"@.len() != "enabled"@.len());
    assert("movie_id"@.len() != "presale_fired"@.len());
    assert("movie_id"@.len() != "created_at"@.len());
    assert("movie_id"@.len() != "lock_ok_cinemas"@.len());
    assert("movie_id"@.len() != "lock_tries"@.len());
    assert("movie_name"@.len() != "cinemas"@.len());
    assert("movie_name"@.len() != "dates"@.len());
    assert("movie_name"@.len() != "interval"@.len());
    assert("movie_name"@.len() != "mode"@.len());
    assert("movie_name"@.len() != "time_window"@.len());
    assert("movie_name"@.len() != "notify_webhook"@.len());
    assert("movie_name"@.len() != "notify_email_to"@.len());
    assert("movie_name"@.len() != "xhs_group"@.len());
    assert("movie_name"@.len() != "wechat_notify"@.len());
    assert("movie_name"@.len() != "auto_lock"@.len());
    assert("movie_name"@.len() != "imax_only"@.len());
    assert("movie_name"@.len() != "lock_num_seats"@.len());
    assert("movie_name"@.len() != "lock_max_retries"@.len());
    assert("movie_name"@[0] != "lock_seats"@[0]);
    assert("movie_name"@.len() != "enabled"@.len());
    assert("movie_name"@.len() != "presale_fired"@.len());
    assert("movie_name"@[0] != "created_at"@[0]);
    assert("movie_name"@.len() != "lock_ok_cinemas"@.len());
    assert("movie_name"@[0] != "lock_tries"@[0]);
    assert("cinemas"@.len() != "dates"@.len());
    assert("cinemas"@.len() != "interval"@.len());
    assert("cinemas"@.len() != "mode"@.len());
    assert("cinemas"@.len() != "time_window"@.len());
    assert("cinemas"@.len() != "notify_webhook"@.len());
    assert("cinemas"@.len() != "notify_email_to"@.len());
    assert("cinemas"@.len() != "xhs_group"@.len());
    assert("cinemas"@.len() != "wechat_notify"@.len());
    assert("cinemas"@.len() != "auto_lock"@.len());
    assert("cinemas"@.len() != "imax_only"@.len());
    assert("cinemas"@.len() != "lock_num_seats"@.len());
    assert("cinemas"@.len() != "lock_max_retries"@.len());
    assert("cinemas"@.len() != "lock_seats"@.len());
    assert("cinemas"@[0] != "enabled"@[0]);
    assert("cinemas"@.len() != "presale_fired"@.len());
    assert("cinemas"@.len() != "created_at"@.len());
    assert("cinemas"@.len() != "lock_ok_cinemas"@.len());
    assert("cinemas"@.len() != "lock_tries"@.len());
    assert("dates"@.len() != "interval"@.len());
    assert("dates"@.len() != "mode"@.len());
    assert("dates"@.len() != "time_window"@.len());
    assert("dates"@.len() != "notify_webhook"@.len());
    assert("dates"@.len() != "notify_email_to"@.len());
    assert("dates"@.len() != "xhs_group"@.len());
    assert("dates"@.len() != "wechat_notify"@.len());
    assert("dates"@.len() != "auto_lock"@.len());
    assert("dates"@.len() != "imax_only"@.len());
    assert("dates"@.len() != "lock_num_seats"@.len());
    assert("dates"@.len() != "lock_max_retries"@.len());
    assert("dates"@.len() != "lock_seats"@.len());
    assert("dates"@.len() != "enabled"@.len());
    assert("dates"@.len() != "presale_fired"@.len());
    assert("dates"@.len() != "created_at"@.len());
    assert("dates"@.len() != "lock_ok_cinemas"@.len());
    assert("dates"@.len() != "lock_tries"@.len());
    assert("interval"@.len() != "mode"@.len());
    assert("interval"@.len() != "time_window"@.len());
    assert("interval"@.len() != "notify_webhook"@.len());
    assert("interval"@.len() != "notify_email_to"@.len());
    assert("interval"@.len() != "xhs_group"@.len());
    assert("interval"@.len() != "wechat_notify"@.len());
    assert("interval"@.len() != "auto_lock"@.len());
    assert("interval"@.len() != "imax_only"@.len());
    assert("interval"@.len() != "lock_num_seats"@.len());
    assert("interval"@.len() != "lock_max_retries"@.len());
    assert("interval"@.len() != "lock_seats"@.len());
    assert("interval"@.len() != "enabled"@.len());
    assert("interval"@.len() != "presale_fired"@.len());
    assert("interval"@.len() != "created_at"@.len());
    assert("interval"@.len() != "lock_ok_cinemas"@.len());
    assert("interval"@.len() != "lock_tries"@.len());
    assert("mode"@.len() != "time_window"@.len());
    assert("mode"@.len() != "notify_webhook"@.len());
    assert("mode"@.len() != "notify_email_to"@.len());
    assert("mode"@.len() != "xhs_group"@.len());
    assert("mode"@.len() != "wechat_notify"@.len());
    assert("mode"@.len() != "auto_lock"@.len());
    assert("mode"@.len() != "imax_only"@.len());
    assert("mode"@.len() != "lock_num_seats"@.len());
    assert("mode"@.len() != "lock_max_retries"@.len());
    assert("mode"@.len() != "lock_seats"@.len());
    assert("mode"@.len() != "enabled"@.len());
    assert("mode"@.len() != "presale_fired"@.len());
    assert("mode"@.len() != "created_at"@.len());
    assert("mode"@.len() != "lock_ok_cinemas"@.len());
    assert("mode"@.len() != "lock_tries"@.len());
    assert("time_window"@.len() != "notify_webhook"@.len());
    assert("time_window"@.len() != "notify_email_to"@.len());
    assert("time_window"@.len() != "xhs_group"@.len());
    assert("time_window"@.len() != "wechat_notify"@.len());
    assert("time_window"@.len() != "auto_lock"@.len());
    assert("time_window"@.len() != "imax_only"@.len());
    assert("time_window"@.len() != "lock_num_seats"@.len());
    assert("time_window"@.len() != "lock_max_retries"@.len());
    assert("time_window"@.len() != "lock_seats"@.len());
    assert("time_window"@.len() != "enabled"@.len());
    assert("time_window"@.len() != "presale_fired"@.len());
    assert("time_window"@.len() != "created_at"@.len());
    assert("time_window"@.len() != "lock_ok_cinemas"@.len());
    assert("time_window"@.len() != "lock_tries"@.len());
    assert("notify_webhook"@.len() != "notify_email_to"@.len());
    assert("notify_webhook"@.len() != "xhs_group"@.len());
    assert("notify_webhook"@.len() != "wechat_notify"@.len());
    assert("notify_webhook"@.len() != "auto_lock"@.len());
    assert("notify_webhook"@.len() != "imax_only"@.len());
    assert("notify_webhook"@[0] != "lock_num_seats"@[0]);
    assert("notify_webhook"@.len() != "lock_max_retries"@.len());
    assert("notify_webhook"@.len() != "lock_seats"@.len());
    assert("notify_webhook"@.len() != "enabled"@.len());
    assert("notify_webhook"@.len() != "presale_fired"@.len());
    assert("notify_webhook"@.len() != "created_at"@.len());
    assert("notify_webhook"@.len() != "lock_ok_cinemas"@.len());
    assert("notify_webhook"@.len() != "lock_tries"@.len());
    assert("notify_email_to"@.len() != "xhs_group"@.len());
    assert("notify_email_to"@.len() != "wechat_notify"@.len());
    assert("notify_email_to"@.len() != "auto_lock"@.len());
    assert("notify_email_to"@.len() != "imax_only"@.len());
    assert("notify_email_to"@.len() != "lock_num_seats"@.len());
    assert("notify_email_to"@.len() != "lock_max_retries"@.len());
    assert("notify_email_to"@.len() != "lock_seats"@.len());
    assert("notify_email_to"@.len() != "enabled"@.len());
    assert("notify_email_to"@.len() != "presale_fired"@.len());
    assert("notify_email_to"@.len() != "created_at"@.len());
    assert("notify_email_to"@[0] != "lock_ok_cinemas"@[0]);
    assert("notify_email_to"@.len() != "lock_tries"@.len());
    assert("xhs_group"@.len() != "wechat_notify"@.len());
    assert("xhs_group"@[0] != "auto_lock"@[0]);
    assert("xhs_group"@[0] != "imax_only"@[0]);
    assert("xhs_group"@.len() != "lock_num_seats"@.len());
    assert("xhs_group"@.len() != "lock_max_retries"@.len());
    assert("xhs_group"@.len() != "lock_seats"@.len());
    assert("xhs_group"@.len() != "enabled"@.len());
    assert("xhs_group"@.len() != "presale_fired"@.len());
    assert("xhs_group"@.len() != "created_at"@.len());
    assert("xhs_group"@.len() != "lock_ok_cinemas"@.len());
    assert("xhs_group"@.len() != "lock_tries"@.len());
    assert("wechat_notify"@.len() != "auto_lock"@.len());
    assert("wechat_notify"@.len() != "imax_only"@.len());
    assert("wechat_notify"@.len() != "lock_num_seats"@.len());
    assert("wechat_notify"@.len() != "lock_max_retries"@.len());
    assert("wechat_notify"@.len() != "lock_seats"@.len());
    assert("wechat_notify"@.len() != "enabled"@.len());
    assert("wechat_notify"@[0] != "presale_fired"@[0]);
    assert("wechat_notify"@.len() != "created_at"@.len());
    assert("wechat_notify"@.len() != "lock_ok_cinemas"@.len());
    assert("wechat_notify"@.len() != "lock_tries"@.len());
    assert("auto_lock"@[0] != "imax_only"@[0]);
    assert("auto_lock"@.len() != "lock_num_seats"@.len());
    assert("auto_lock"@.len() != "lock_max_retries"@.len());
    assert("auto_lock"@.len() != "lock_seats"@.len());
    assert("auto_lock"@.len() != "enabled"@.len());
    assert("auto_lock"@.len() != "presale_fired"@.len());
    assert("auto_lock"@.len() != "created_at"@.len());
    assert("auto_lock"@.len() != "lock_ok_cinemas"@.len());
    assert("auto_lock"@.len() != "lock_tries"@.len());
    assert("imax_only"@.len() != "lock_num_seats"@.len());
    assert("imax_only"@.len() != "lock_max_retries"@.len());
    assert("imax_only"@.len() != "lock_seats"@.len());
    assert("imax_only"@.len() != "enabled"@.len());
    assert("imax_only"@.len() != "presale_fired"@.len());
    assert("imax_only"@.len() != "created_at"@.len());
    assert("imax_only"@.len() != "lock_ok_cinemas"@.len());
    assert("imax_only"@.len() != "lock_tries"@.len());
    assert("lock_num_seats"@.len() != "lock_max_retries"@.len());
    assert("lock_num_seats"@.len() != "lock_seats"@.len());
    assert("lock_num_seats"@.len() != "enabled"@.len());
    assert("lock_num_seats"@.len() != "presale_fired"@.len());
    assert("lock_num_seats"@.len() != "created_at"@.len());
    assert("lock_num_seats"@.len() != "lock_ok_cinemas"@.len());
    assert("lock_num_seats"@.len() != "lock_tries"@.len());
    assert("lock_max_retries"@.len() != "lock_seats"@.len());
    assert("lock_max_retries"@.len() != "enabled"@.len());
    assert("lock_max_retries"@.len() != "presale_fired"@.len());
    assert("lock_max_retries"@.len() != "created_at"@.len());
    assert("lock_max_retries"@.len() != "lock_ok_cinemas"@.len());
    assert("lock_max_retries"@.len() != "lock_tries"@.len());
    assert("lock_seats"@.len() != "enabled"@.len());
    assert("lock_seats"@.len() != "presale_fired"@.len());
    assert("lock_seats"@[0] != "created_at"@[0]);
    assert("lock_seats"@.len() != "lock_ok_cinemas"@.len());
    assert("lock_seats"@[5] != "lock_tries"@[5]);
    assert("enabled"@.len() != "presale_fired"@.len());
    assert("enabled"@.len() != "created_at"@.len());
    assert("enabled"@.len() != "lock_ok_cinemas"@.len());
    assert("enabled"@.len() != "lock_tries"@.len());
    assert("presale_fired"@.len() != "created_at"@.len());
    assert("presale_fired"@.len() != "lock_ok_cinemas"@.len());
    assert("presale_fired"@.len() != "lock_tries"@.len());
    assert("created_at"@.len() != "lock_ok_cinemas"@.len());
    assert("created_at"@[0] != "lock_tries"@[0]);
    assert("lock_ok_cinemas"@.len() != "lock_tries"@.len());
}

/// The keys that a new watch has.
pub open spec fn is_watch_key(k: Seq<char>) -> bool {
    ||| k == "id"@
    ||| k == "movie_id"@
    ||| k == "movie_name"@
    ||| k == "cinemas"@
    ||| k == "dates"@
    ||| k == "interval"@
    ||| k == "mode"@
    ||| k == "time_window"@
    ||| k == "notify_webhook"@
    ||| k == "notify_email_to"@
    ||| k == "xhs_group"@
    ||| k == "wechat_notify"@
    ||| k == "auto_lock"@
    ||| k == "imax_only"@
    ||| k == "lock_num_seats"@
    ||| k == "lock_max_retries"@
    ||| k == "lock_seats"@
    ||| k == "enabled"@
    ||| k == "presale_fired"@
    ||| k == "created_at"@
    ||| k == "lock_ok_cinemas"@
    ||| k == "lock_tries"@
}

/// The views of a list of `&str`.
pub open spec fn strs_view(v: Seq<&str>) -> Seq<Seq<char>> {
    v.map_values(|s: &str| s@)
}

/// The view of an optional `&str`.
pub open spec fn opt_view(v: Option<&str>) -> Option<Seq<char>> {
    match v {
        Some(s) => Some(s@),
        None => None,
    }
}

/// The views of an optional list of strings.
pub open spec fn opt_views(v: Option<&[String]>) -> Option<Seq<Seq<char>>> {
    match v {
        Some(d) => Some(views_of(d@)),
        None => None,
    }
}

/// `s` trimmed, when that leaves something.
pub open spec fn trimmed_opt(s: Option<Seq<char>>) -> Option<Seq<char>> {
    match s {
        Some(x) => if trim_s(x).len() > 0 {
            Some(trim_s(x))
        } else {
            None
        },
        None => None,
    }
}

/// A member that is the string `s`, or `null` for `None`.
pub open spec fn str_or_null(v: Option<Json>, s: Option<Seq<char>>) -> bool {
    match s {
        Some(x) => v matches Some(j) && as_str_v(j) == Some(x),
        None => v == Some(Json::Null),
    }
}

/// A member that is the list of strings `l`.
pub open spec fn str_list_is(v: Option<Json>, l: Seq<Seq<char>>) -> bool {
    v matches Some(j) && json_strings(l, j)
}

/// The watch made by [`add_watch`] from its arguments.
pub open spec fn is_new_watch(
    w: Json,
    id: Seq<char>,
    created_at: Seq<char>,
    movie_id: i64,
    cinemas: Seq<Seq<char>>,
    dates: Option<Seq<Seq<char>>>,
    name: Option<Seq<char>>,
    interval: Option<u64>,
    mode: Seq<char>,
    time_window: Option<Seq<char>>,
    notify_webhook: Option<Seq<char>>,
    notify_email_to: Option<Seq<char>>,
    xhs_group: Option<Seq<char>>,
    wechat_notify: bool,
    auto_lock: bool,
    imax_only: bool,
    lock_num_seats: u64,
    lock_max_retries: u64,
    lock_seats: Seq<Seq<char>>,
) -> bool {
    &&& w is Obj
    &&& str_field(w, "id"@) == Some(id)
    &&& field(w, "movie_id"@) == Some(Json::Int(movie_id as i128))
    &&& str_or_null(field(w, "movie_name"@), name)
    &&& str_list_is(field(w, "cinemas"@), cinemas)
    &&& match dates {
        Some(d) => str_list_is(field(w, "dates"@), sorted_list_of(d.to_set())),
        None => field(w, "dates"@) == Some(Json::Null),
    }
    &&& field(w, "interval"@) == match interval {
        Some(n) => Some(Json::Int(n as i128)),
        None => Some(Json::Null),
    }
    &&& str_field(w, "mode"@) == Some(
        if mode == "incremental"@ {
            "incremental"@
        } else {
            "presale"@
        },
    )
    &&& str_or_null(field(w, "time_window"@), trimmed_opt(time_window))
    &&& str_or_null(field(w, "notify_webhook"@), notify_webhook)
    &&& str_or_null(field(w, "notify_email_to"@), notify_email_to)
    &&& str_or_null(field(w, "xhs_group"@), trimmed_opt(xhs_group))
    &&& field(w, "wechat_notify"@) == Some(Json::Bool(wechat_notify))
    &&& field(w, "auto_lock"@) == Some(Json::Bool(auto_lock))
    &&& field(w, "imax_only"@) == Some(Json::Bool(imax_only))
    &&& field(w, "lock_num_seats"@) == Some(Json::Int(lock_num_seats as i128))
    &&& field(w, "lock_max_retries"@) == Some(Json::Int(lock_max_retries as i128))
    &&& str_list_is(field(w, "lock_seats"@), lock_seats)
    &&& field(w, "enabled"@) == Some(Json::Bool(true))
    &&& field(w, "presale_fired"@) == Some(Json::Bool(false))
    &&& str_field(w, "created_at"@) == Some(created_at)
    &&& field(w, "lock_ok_cinemas"@) matches Some(a) && is_empty_list(a)
    &&& field(w, "lock_tries"@) matches Some(t) && is_empty_object(t)
    &&& forall|k: Seq<char>| !is_watch_key(k) ==> field(w, k) is None
}

/// The ids of `cids` that `list` lacks, in order, each once.
pub open spec fn unknown_ids(list: Seq<Json>, cids: Seq<Seq<char>>) -> Seq<Seq<char>>
    decreases cids.len(),
{
    if cids.len() == 0 {
        Seq::empty()
    } else {
        let u = unknown_ids(list, cids.drop_last());
        let c = cids.last();
        if index_by_id(list, c) is Some || u.contains(c) {
            u
        } else {
            u.push(c)
        }
    }
}

/// `new` is `old` with a cinema entry (default name) appended for each
/// unknown id of `cids`, in order, all else kept.
pub open spec fn cinemas_registered(old: Json, new: Json, cids: Seq<Seq<char>>) -> bool {
    let u = unknown_ids(cinemas_of(old), cids);
    let l = cinemas_of(old);
    if u.len() == 0 {
        new == old
    } else {
        &&& new is Obj
        &&& arr_field(new, "cinemas"@) matches Some(l2) && l2.len() == l.len() + u.len()
            && l2.take(l.len() as int) == l && (forall|j: int|
            0 <= j < u.len() ==> is_new_cinema(
                #[trigger] l2[l.len() + j],
                u[j],
                default_cinema_name(u[j]),
            ))
        &&& forall|k: Seq<char>| k != "cinemas"@ ==> field(new, k) == field(old, k)
    }
}

proof fn lemma_unknown_ids_grow(list: Seq<Json>, cids: Seq<Seq<char>>, n: int)
    requires
        0 <= n <= cids.len(),
    ensures
        unknown_ids(list, cids.take(n)).len() <= unknown_ids(list, cids).len(),
    decreases cids.len(),
{
    if n == cids.len() {
        assert(cids.take(n) =~= cids);
    } else {
        lemma_unknown_ids_grow(list, cids.drop_last(), n);
        assert(cids.drop_last().take(n) =~= cids.take(n));
    }
}

fn register_cinemas(cfg: &mut Json, cids: &[&str]) -> (r: Result<(), ConfigError>)
    ensures
        if arr_field(*old(cfg), "cinemas"@) is None && unknown_ids(
            cinemas_of(*old(cfg)),
            strs_view(cids@),
        ).len() > 0 {
            r matches Err(ConfigError::MissingCinemas) && *final(cfg) == *old(cfg)
        } else {
            r is Ok && cinemas_registered(*old(cfg), *final(cfg), strs_view(cids@))
        },
{
    let ghost c0 = *cfg;
    let ghost l0 = cinemas_of(c0);
    let ghost cv = strs_view(cids@);
    let mut i: usize = 0;
    assert(cv.take(0) =~= Seq::<Seq<char>>::empty());
    while i < cids.len()
        invariant
            i <= cids@.len(),
            c0 == *old(cfg),
            cv == strs_view(cids@),
            l0 == cinemas_of(c0),
            arr_field(c0, "cinemas"@) is None ==> unknown_ids(l0, cv.take(i as int)).len() == 0
                && *cfg == c0,
            unknown_ids(l0, cv.take(i as int)).len() == 0 ==> *cfg == c0,
            cinemas_registered(c0, *cfg, cv.take(i as int)),
            forall|c: Seq<char>|
                #![trigger index_by_id(cinemas_of(*cfg), c)]
                (index_by_id(cinemas_of(*cfg), c) is Some) == (index_by_id(l0, c) is Some
                    || unknown_ids(l0, cv.take(i as int)).contains(c)),
        decreases cids.len() - i,
    {
        let cid = cids[i];
        let ghost u0 = unknown_ids(l0, cv.take(i as int));
        let ghost before = *cfg;
        assert(cv.take(i + 1).drop_last() =~= cv.take(i as int));
        assert(cv.take(i + 1).last() == cid@);
        let known = find_cinema(cfg, cid).is_some();
        if !known {
            match add_cinema(cfg, cid, None) {
                Ok(_) => {},
                Err(e) => {
                    proof {
                        assert(arr_field(before, "cinemas"@) is None);
                        if arr_field(c0, "cinemas"@) is Some {
                            if u0.len() == 0 {
                                assert(before == c0);
                            } else {
                                assert(arr_field(before, "cinemas"@) is Some);
                            }
                        }
                        assert(before == c0);
                        assert(l0 == Seq::<Json>::empty());
                        let u1 = unknown_ids(l0, cv.take(i + 1));
                        assert(u1 == u0.push(cid@));
                        lemma_unknown_ids_grow(l0, cv, i + 1);
                        assert(unknown_ids(cinemas_of(c0), strs_view(cids@)).len() > 0);
                        assert(e matches ConfigError::MissingCinemas);
                        assert(*cfg == c0);
                    }
                    return Err(e);
                },
            }
            proof {
                let u1 = unknown_ids(l0, cv.take(i + 1));
                assert(u1 == u0.push(cid@));
                let c = choose|c: Json|
                    #![trigger item_pushed(before, *cfg, "cinemas"@, c)]
                    item_pushed(before, *cfg, "cinemas"@, c) && is_new_cinema(
                        c,
                        cid@,
                        default_cinema_name(cid@),
                    );
                assert forall|x: Seq<char>|
                    #![trigger index_by_id(cinemas_of(*cfg), x)]
                    (index_by_id(cinemas_of(*cfg), x) is Some) == (index_by_id(l0, x) is Some
                        || u1.contains(x)) by {
                    lemma_index_by_id_push(cinemas_of(before), x, c);
                    assert(cinemas_of(*cfg) == cinemas_of(before).push(c));
                    if u1.contains(x) && !u0.contains(x) {
                        assert(x == cid@) by {
                            let k = choose|k: int| 0 <= k < u1.len() && u1[k] == x;
                            if k < u0.len() {
                                assert(u0[k] == x);
                            }
                        }
                    }
                    if u0.contains(x) {
                        let k = choose|k: int| 0 <= k < u0.len() && u0[k] == x;
                        assert(u1[k] == x);
                    }
                    if x == cid@ {
                        assert(u1[u0.len() as int] == x);
                    }
                }
                let l2 = cinemas_of(*cfg);
                if u0.len() == 0 {
                    assert(before == c0);
                    assert(l2.take(l0.len() as int) =~= l0);
                } else {
                    assert(l2.take(l0.len() as int) =~= l0);
                }
                assert forall|j: int| 0 <= j < u1.len() implies is_new_cinema(
                    #[trigger] l2[l0.len() + j],
                    u1[j],
                    default_cinema_name(u1[j]),
                ) by {
                    if j < u0.len() {
                        assert(l2[l0.len() + j] == cinemas_of(before)[l0.len() + j]);
                    }
                }
            }
        } else {
            proof {
                let u1 = unknown_ids(l0, cv.take(i + 1));
                assert(index_by_id(cinemas_of(*cfg), cid@) is Some);
                assert(u1 == u0);
            }
        }
        i = i + 1;
    }
    assert(cv.take(cids@.len() as int) =~= cv);
    Ok(())
}

fn strs_json(items: &[&str]) -> (r: Json)
    ensures
        json_strings(strs_view(items@), r),
{
    let mut out: Vec<Json> = Vec::new();
    let mut i: usize = 0;
    while i < items.len()
        invariant
            i <= items@.len(),
            out@.len() == i,
            forall|m: int| 0 <= m < i ==> as_str_v(#[trigger] out@[m]) == Some(items@[m]@),
        decreases items.len() - i,
    {
        out.push(jstr(items[i]));
        i = i + 1;
    }
    Json::Arr(out)
}

pub fn strings_json(items: &[String]) -> (r: Json)
    ensures
        json_strings(views_of(items@), r),
{
    let mut out: Vec<Json> = Vec::new();
    let mut i: usize = 0;
    while i < items.len()
        invariant
            i <= items@.len(),
            out@.len() == i,
            forall|m: int| 0 <= m < i ==> as_str_v(#[trigger] out@[m]) == Some(items@[m]@),
        decreases items.len() - i,
    {
        out.push(jstr(items[i].as_str()));
        i = i + 1;
    }
    Json::Arr(out)
}

fn str_or_null_json(s: Option<&str>) -> (r: Json)
    ensures
        str_or_null(Some(r), opt_view(s)),
{
    match s {
        Some(x) => jstr(x),
        None => Json::Null,
    }
}

fn trimmed_json(s: Option<&str>) -> (r: Json)
    ensures
        str_or_null(Some(r), trimmed_opt(opt_view(s))),
{
    match s {
        Some(x) => {
            let t = trim(x);
            if t.unicode_len() == 0 {
                Json::Null
            } else {
                Json::Str(t)
            }
        },
        None => Json::Null,
    }
}

/// The result and effect of `add_watch` with the id and time stamp given.
pub open spec fn watch_added(
    old: Json,
    new: Json,
    r: Result<String, ConfigError>,
    id: Seq<char>,
    created_at: Seq<char>,
    movie_id: i64,
    cinemas: Seq<Seq<char>>,
    dates: Option<Seq<Seq<char>>>,
    name: Option<Seq<char>>,
    interval: Option<u64>,
    mode: Seq<char>,
    time_window: Option<Seq<char>>,
    notify_webhook: Option<Seq<char>>,
    notify_email_to: Option<Seq<char>>,
    xhs_group: Option<Seq<char>>,
    wechat_notify: bool,
    auto_lock: bool,
    imax_only: bool,
    lock_num_seats: u64,
    lock_max_retries: u64,
    lock_seats: Seq<Seq<char>>,
) -> bool {
    if arr_field(old, "cinemas"@) is None && unknown_ids(cinemas_of(old), cinemas).len() > 0 {
        r matches Err(ConfigError::MissingCinemas) && new == old
    } else {
        exists|mid: Json|
            #![trigger cinemas_registered(old, mid, cinemas)]
            cinemas_registered(old, mid, cinemas) && match time_window {
                Some(tw) if trim_s(tw).len() > 0 && parse_window_s(tw) is Err => r matches Err(
                    ConfigError::BadTimeWindow(e),
                ) && Err::<(u32, u32, u32, u32), WindowErrorV>(e@) == parse_window_s(tw) && new
                    == mid,
                _ => if arr_field(mid, "watches"@) is None {
                    r matches Err(ConfigError::MissingWatches) && new == mid
                } else {
                    r matches Ok(s) && s@ == id && exists|w: Json|
                        #![trigger item_pushed(mid, new, "watches"@, w)]
                        item_pushed(mid, new, "watches"@, w) && is_new_watch(
                            w,
                            id,
                            created_at,
                            movie_id,
                            cinemas,
                            dates,
                            name,
                            interval,
                            mode,
                            time_window,
                            notify_webhook,
                            notify_email_to,
                            xhs_group,
                            wechat_notify,
                            auto_lock,
                            imax_only,
                            lock_num_seats,
                            lock_max_retries,
                            lock_seats,
                        )
                },
            }
    }
}

fn build_watch(
    watch_id: &str,
    created_at: &str,
    movie_id: i64,
    cinemas: &[&str],
    dates: Option<&[String]>,
    name: Option<&str>,
    interval: Option<u64>,
    mode: &str,
    time_window: Option<&str>,
    notify_webhook: Option<&str>,
    notify_email_to: Option<&str>,
    xhs_group: Option<&str>,
    wechat_notify: bool,
    auto_lock: bool,
    imax_only: bool,
    lock_num_seats: u64,
    lock_max_retries: u64,
    lock_seats: &[String],
) -> (w: Json)
    ensures
        is_new_watch(
            w,
            watch_id@,
            created_at@,
            movie_id,
            strs_view(cinemas@),
            opt_views(dates),
            opt_view(name),
            interval,
            mode@,
            opt_view(time_window),
            opt_view(notify_webhook),
            opt_view(notify_email_to),
            opt_view(xhs_group),
            wechat_notify,
            auto_lock,
            imax_only,
            lock_num_seats,
            lock_max_retries,
            views_of(lock_seats@),
        ),
{
    proof {
        reveal_watch_keys();
    }
    let dates_json = match dates {
        Some(d) => {
            let sd = sort_dedup(d);
            proof {
                lemma_sorted_list_of(views_of(sd@));
            }
            strings_json(sd.as_slice())
        },
        None => Json::Null,
    };
    let interval_json = match interval {
        Some(n) => Json::Int(n as i128),
        None => Json::Null,
    };
    let mode_json = if str_eq(mode, MODE_INCREMENTAL) {
        jstr(MODE_INCREMENTAL)
    } else {
        jstr(MODE_PRESALE)
    };
    let mut f: Vec<(String, Json)> = Vec::new();
    f.push((owned("id"), jstr(watch_id)));
    f.push((owned("movie_id"), Json::Int(movie_id as i128)));
    f.push((owned("movie_name"), str_or_null_json(name)));
    f.push((owned("cinemas"), strs_json(cinemas)));
    f.push((owned("dates"), dates_json));
    f.push((owned("interval"), interval_json));
    f.push((owned("mode"), mode_json));
    f.push((owned("time_window"), trimmed_json(time_window)));
    f.push((owned("notify_webhook"), str_or_null_json(notify_webhook)));
    f.push((owned("notify_email_to"), str_or_null_json(notify_email_to)));
    f.push((owned("xhs_group"), trimmed_json(xhs_group)));
    f.push((owned("wechat_notify"), Json::Bool(wechat_notify)));
    f.push((owned("auto_lock"), Json::Bool(auto_lock)));
    f.push((owned("imax_only"), Json::Bool(imax_only)));
    f.push((owned("lock_num_seats"), Json::Int(lock_num_seats as i128)));
    f.push((owned("lock_max_retries"), Json::Int(lock_max_retries as i128)));
    f.push((owned("lock_seats"), strings_json(lock_seats)));
    f.push((owned("enabled"), Json::Bool(true)));
    f.push((owned("presale_fired"), Json::Bool(false)));
    f.push((owned("created_at"), jstr(created_at)));
    f.push((owned("lock_ok_cinemas"), Json::Arr(Vec::new())));
    f.push((owned("lock_tries"), empty_obj()));
    let ghost fs = f@;
    proof {
        assert(fs[0].0@ == "id"@);
        assert(fs[1].0@ == "movie_id"@);
        assert(fs[2].0@ == "movie_name"@);
        assert(fs[3].0@ == "cinemas"@);
        assert(fs[4].0@ == "dates"@);
        assert(fs[5].0@ == "interval"@);
        assert(fs[6].0@ == "mode"@);
        assert(fs[7].0@ == "time_window"@);
        assert(fs[8].0@ == "notify_webhook"@);
        assert(fs[9].0@ == "notify_email_to"@);
        assert(fs[10].0@ == "xhs_group"@);
        assert(fs[11].0@ == "wechat_notify"@);
        assert(fs[12].0@ == "auto_lock"@);
        assert(fs[13].0@ == "imax_only"@);
        assert(fs[14].0@ == "lock_num_seats"@);
        assert(fs[15].0@ == "lock_max_retries"@);
        assert(fs[16].0@ == "lock_seats"@);
        assert(fs[17].0@ == "enabled"@);
        assert(fs[18].0@ == "presale_fired"@);
        assert(fs[19].0@ == "created_at"@);
        assert(fs[20].0@ == "lock_ok_cinemas"@);
        assert(fs[21].0@ == "lock_tries"@);
        assert forall|k: Seq<char>| !is_watch_key(k) implies obj_lookup(fs, k) is None by {
            lemma_lookup_absent(fs, k);
        }
        lemma_lookup_index(fs, "id"@, 0);
        lemma_lookup_index(fs, "movie_id"@, 1);
        lemma_lookup_index(fs, "movie_name"@, 2);
        lemma_lookup_index(fs, "cinemas"@, 3);
        lemma_lookup_index(fs, "dates"@, 4);
        lemma_lookup_index(fs, "interval"@, 5);
        lemma_lookup_index(fs, "mode"@, 6);
        lemma_lookup_index(fs, "time_window"@, 7);
        lemma_lookup_index(fs, "notify_webhook"@, 8);
        lemma_lookup_index(fs, "notify_email_to"@, 9);
        lemma_lookup_index(fs, "xhs_group"@, 10);
        lemma_lookup_index(fs, "wechat_notify"@, 11);
        lemma_lookup_index(fs, "auto_lock"@, 12);
        lemma_lookup_index(fs, "imax_only"@, 13);
        lemma_lookup_index(fs, "lock_num_seats"@, 14);
        lemma_lookup_index(fs, "lock_max_retries"@, 15);
        lemma_lookup_index(fs, "lock_seats"@, 16);
        lemma_lookup_index(fs, "enabled"@, 17);
        lemma_lookup_index(fs, "presale_fired"@, 18);
        lemma_lookup_index(fs, "created_at"@, 19);
        lemma_lookup_index(fs, "lock_ok_cinemas"@, 20);
        lemma_lookup_index(fs, "lock_tries"@, 21);
    }
    Json::Obj(f)
}


/// Adds a watch with the id `watch_id` and the creation stamp `created_at`:
/// registers its unknown cinemas, checks its time window, and appends it
/// to `watches` with its lock defaults. The caller saves, also after an
/// error, as cinemas may have been registered.
pub fn add_watch_with(
    cfg: &mut Json,
    watch_id: &str,
    created_at: &str,
    movie_id: i64,
    cinemas: &[&str],
    dates: Option<&[String]>,
    name: Option<&str>,
    interval: Option<u64>,
    mode: &str,
    time_window: Option<&str>,
    notify_webhook: Option<&str>,
    notify_email_to: Option<&str>,
    xhs_group: Option<&str>,
    wechat_notify: bool,
    auto_lock: bool,
    imax_only: bool,
    lock_num_seats: u64,
    lock_max_retries: u64,
    lock_seats: &[String],
) -> (r: Result<String, ConfigError>)
    ensures
        watch_added(
            *old(cfg),
            *final(cfg),
            r,
            watch_id@,
            created_at@,
            movie_id,
            strs_view(cinemas@),
            opt_views(dates),
            opt_view(name),
            interval,
            mode@,
            opt_view(time_window),
            opt_view(notify_webhook),
            opt_view(notify_email_to),
            opt_view(xhs_group),
            wechat_notify,
            auto_lock,
            imax_only,
            lock_num_seats,
            lock_max_retries,
            views_of(lock_seats@),
        ),
{
    match register_cinemas(cfg, cinemas) {
        Ok(()) => {},
        Err(e) => return Err(e),
    }
    let ghost mid = *cfg;
    match time_window {
        Some(tw) => {
            if !is_blank(tw) {
                match parse_window(tw) {
                    Ok(_) => {},
                    Err(e) => {
                        return Err(ConfigError::BadTimeWindow(e));
                    },
                }
            }
        },
        None => {},
    }
    let w = build_watch(
        watch_id,
        created_at,
        movie_id,
        cinemas,
        dates,
        name,
        interval,
        mode,
        time_window,
        notify_webhook,
        notify_email_to,
        xhs_group,
        wechat_notify,
        auto_lock,
        imax_only,
        lock_num_seats,
        lock_max_retries,
        lock_seats,
    );
    let is_list = match get(cfg, "watches") {
        Some(Json::Arr(_)) => true,
        _ => false,
    };
    if !is_list {
        return Err(ConfigError::MissingWatches);
    }
    let ghost wv = w;
    push_item(cfg, "watches", w);
    Ok(owned(watch_id))
}

pub open spec fn is_lower_hex(c: char) -> bool {
    ('0' <= c && c <= '9') || ('a' <= c && c <= 'f')
}

/// The shape of a hyphenated lower-case UUID text.
pub open spec fn is_uuid_text(s: Seq<char>) -> bool {
    &&& s.len() == 36
    &&& forall|i: int|
        0 <= i < 36 ==> if i == 8 || i == 13 || i == 18 || i == 23 {
            s[i] == '-'
        } else {
            is_lower_hex(#[trigger] s[i])
        }
}

/// `uuid::Uuid::new_v4().to_string()`: a random version-4 UUID in its
/// hyphenated lower-case form (`Display` of `Uuid`), 36 characters with `-`
/// at 8, 13, 18 and 23 and lower-case hex digits elsewhere. Which digits
/// come out is left open.
#[verifier::external_body]
fn new_uuid_text() -> (r: String)
    ensures
        is_uuid_text(r@),
{
    uuid::Uuid::new_v4().to_string()
}

/// The id of a new watch: `w_` and six lower-case hex digits.
pub open spec fn is_watch_id(s: Seq<char>) -> bool {
    &&& s.len() == 8
    &&& s[0] == 'w' && s[1] == '_'
    &&& forall|i: int| 2 <= i < 8 ==> is_lower_hex(#[trigger] s[i])
}

fn new_watch_id() -> (r: String)
    ensures
        is_watch_id(r@),
{
    let u = new_uuid_text();
    let v = chars_of(u.as_str());
    let mut id = owned("w_");
    let tail = string_of_range(&v, 0, 6);
    append_str(&mut id, tail.as_str());
    proof {
        reveal_strlit("w_");
        assert forall|i: int| 2 <= i < 8 implies is_lower_hex(#[trigger] id@[i]) by {
            assert(id@[i] == v@[i - 2]);
        }
    }
    id
}

/// Adds a watch (see [`add_watch_with`]) under a fresh random id, stamped
/// with the local time; returns the id. The caller saves.
pub fn add_watch(
    cfg: &mut Json,
    movie_id: i64,
    cinemas: &[&str],
    dates: Option<&[String]>,
    name: Option<&str>,
    interval: Option<u64>,
    mode: &str,
    time_window: Option<&str>,
    notify_webhook: Option<&str>,
    notify_email_to: Option<&str>,
    xhs_group: Option<&str>,
    wechat_notify: bool,
    auto_lock: bool,
    imax_only: bool,
    lock_num_seats: u64,
    lock_max_retries: u64,
    lock_seats: &[String],
) -> (r: Result<String, ConfigError>)
    ensures
        exists|id: Seq<char>, ts: Seq<char>|
            is_watch_id(id) && is_stamp(ts) && #[trigger] watch_added(
                *old(cfg),
                *final(cfg),
                r,
                id,
                ts,
                movie_id,
                strs_view(cinemas@),
                opt_views(dates),
                opt_view(name),
                interval,
                mode@,
                opt_view(time_window),
                opt_view(notify_webhook),
                opt_view(notify_email_to),
                opt_view(xhs_group),
                wechat_notify,
                auto_lock,
                imax_only,
                lock_num_seats,
                lock_max_retries,
                views_of(lock_seats@),
            ),
{
    let id = new_watch_id();
    let now = local_timestamp();
    add_watch_with(
        cfg,
        id.as_str(),
        now.as_str(),
        movie_id,
        cinemas,
        dates,
        name,
        interval,
        mode,
        time_window,
        notify_webhook,
        notify_email_to,
        xhs_group,
        wechat_notify,
        auto_lock,
        imax_only,
        lock_num_seats,
        lock_max_retries,
        lock_seats,
    )
}

/// An added watch is found under its id, when no earlier watch had that id,
/// and starts with no lock state.
pub proof fn law_added_watch_found(
    old: Json,
    new: Json,
    r: Result<String, ConfigError>,
    id: Seq<char>,
    created_at: Seq<char>,
    movie_id: i64,
    cinemas: Seq<Seq<char>>,
    dates: Option<Seq<Seq<char>>>,
    name: Option<Seq<char>>,
    interval: Option<u64>,
    mode: Seq<char>,
    time_window: Option<Seq<char>>,
    notify_webhook: Option<Seq<char>>,
    notify_email_to: Option<Seq<char>>,
    xhs_group: Option<Seq<char>>,
    wechat_notify: bool,
    auto_lock: bool,
    imax_only: bool,
    lock_num_seats: u64,
    lock_max_retries: u64,
    lock_seats: Seq<Seq<char>>,
    cid: Seq<char>,
)
    requires
        watch_added(
            old,
            new,
            r,
            id,
            created_at,
            movie_id,
            cinemas,
            dates,
            name,
            interval,
            mode,
            time_window,
            notify_webhook,
            notify_email_to,
            xhs_group,
            wechat_notify,
            auto_lock,
            imax_only,
            lock_num_seats,
            lock_max_retries,
            lock_seats,
        ),
        r is Ok,
        index_by_id(watches_of(old), id) is None,
    ensures
        find_by_id(watches_of(new), id) matches Some(w) && !cinema_lock_ok_s(w, cid)
            && cinema_lock_tries_s(w, cid) == 0 && str_field(w, "id"@) == Some(id),
{
    let mid = choose|mid: Json|
        #![trigger cinemas_registered(old, mid, cinemas)]
        cinemas_registered(old, mid, cinemas) && match time_window {
            Some(tw) if trim_s(tw).len() > 0 && parse_window_s(tw) is Err => r matches Err(
                ConfigError::BadTimeWindow(e),
            ) && Err::<(u32, u32, u32, u32), WindowErrorV>(e@) == parse_window_s(tw) && new
                == mid,
            _ => if arr_field(mid, "watches"@) is None {
                r matches Err(ConfigError::MissingWatches) && new == mid
            } else {
                r matches Ok(s) && s@ == id && exists|w: Json|
                    #![trigger item_pushed(mid, new, "watches"@, w)]
                    item_pushed(mid, new, "watches"@, w) && is_new_watch(
                        w,
                        id,
                        created_at,
                        movie_id,
                        cinemas,
                        dates,
                        name,
                        interval,
                        mode,
                        time_window,
                        notify_webhook,
                        notify_email_to,
                        xhs_group,
                        wechat_notify,
                        auto_lock,
                        imax_only,
                        lock_num_seats,
                        lock_max_retries,
                        lock_seats,
                    )
            },
        };
    proof_watches_kept(old, mid, cinemas);
    let w = choose|w: Json|
        #![trigger item_pushed(mid, new, "watches"@, w)]
        item_pushed(mid, new, "watches"@, w) && is_new_watch(
            w,
            id,
            created_at,
            movie_id,
            cinemas,
            dates,
            name,
            interval,
            mode,
            time_window,
            notify_webhook,
            notify_email_to,
            xhs_group,
            wechat_notify,
            auto_lock,
            imax_only,
            lock_num_seats,
            lock_max_retries,
            lock_seats,
        );
    lemma_index_by_id_push(watches_of(mid), id, w);
    assert(watches_of(new) == watches_of(mid).push(w));
}

proof fn proof_watches_kept(old: Json, mid: Json, cinemas: Seq<Seq<char>>)
    requires
        cinemas_registered(old, mid, cinemas),
    ensures
        watches_of(mid) == watches_of(old),
{
    reveal_strlit("cinemas");
    reveal_strlit("watches");
    assert("cinemas"@[0] != "watches"@[0]);
}

// ----------------------------------------------------------------------
// The default document and the defaults of a loaded one
// ----------------------------------------------------------------------

proof fn reveal_default_keys()
    ensures
        "version"@ != "discord_webhook"@,
        "version"@ != "quiet_window"@,
        "version"@ != "phone_only_window"@,
        "version"@ != "check_interval"@,
        "version"@ != "alert_duration_sec"@,
        "version"@ != "heartbeat_interval_sec"@,
        "version"@ != "cinemas"@,
        "version"@ != "watches"@,
        "version"@ != "lock_headless"@,
        "version"@ != "_runtime"@,
        "discord_webhook"@ != "quiet_window"@,
        "discord_webhook"@ != "phone_only_window"@,
        "discord_webhook"@ != "check_interval"@,
        "discord_webhook"@ != "alert_duration_sec"@,
        "discord_webhook"@ != "heartbeat_interval_sec"@,
        "discord_webhook"@ != "cinemas"@,
        "discord_webhook"@ != "watches"@,
        "discord_webhook"@ != "lock_headless"@,
        "discord_webhook"@ != "_runtime"@,
        "quiet_window"@ != "phone_only_window"@,
        "quiet_window"@ != "check_interval"@,
        "quiet_window"@ != "alert_duration_sec"@,
        "quiet_window"@ != "heartbeat_interval_sec"@,
        "quiet_window"@ != "cinemas"@,
        "quiet_window"@ != "watches"@,
        "quiet_window"@ != "lock_headless"@,
        "quiet_window"@ != "_runtime"@,
        "phone_only_window"@ != "check_interval"@,
        "phone_only_window"@ != "alert_duration_sec"@,
        "phone_only_window"@ != "heartbeat_interval_sec"@,
        "phone_only_window"@ != "cinemas"@,
        "phone_only_window"@ != "watches"@,
        "phone_only_window"@ != "lock_headless"@,
        "phone_only_window"@ != "_runtime"@,
        "check_interval"@ != "alert_duration_sec"@,
        "check_interval"@ != "heartbeat_interval_sec"@,
        "check_interval"@ != "cinemas"@,
        "check_interval"@ != "watches"@,
        "check_interval"@ != "lock_headless"@,
        "check_interval"@ != "_runtime"@,
        "alert_duration_sec"@ != "heartbeat_interval_sec"@,
        "alert_duration_sec"@ != "cinemas"@,
        "alert_duration_sec"@ != "watches"@,
        "alert_duration_sec"@ != "lock_headless"@,
        "alert_duration_sec"@ != "_runtime"@,
        "heartbeat_interval_sec"@ != "cinemas"@,
        "heartbeat_interval_sec"@ != "watches"@,
        "heartbeat_interval_sec"@ != "lock_headless"@,
        "heartbeat_interval_sec"@ != "_runtime"@,
        "cinemas"@ != "watches"@,
        "cinemas"@ != "lock_headless"@,
        "cinemas"@ != "_runtime"@,
        "watches"@ != "lock_headless"@,
        "watches"@ != "_runtime"@,
        "lock_headless"@ != "_runtime"@,
{
    reveal_strlit("version");
    reveal_strlit("discord_webhook");
    reveal_strlit("quiet_window");
    reveal_strlit("phone_only_window");
    reveal_strlit("check_interval");
    reveal_strlit("alert_duration_sec");
    reveal_strlit("heartbeat_interval_sec");
    reveal_strlit("cinemas");
    reveal_strlit("watches");
    reveal_strlit("lock_headless");
    reveal_strlit("_runtime");
    assert("version"@.len() != "discord_webhook"@.len());
    assert("version"@.len() != "quiet_window"@.len());
    assert("version"@.len() != "phone_only_window"@.len());
    assert("version"@.len() != "check_interval"@.len());
    assert("version"@.len() != "alert_duration_sec"@.len());
    assert("version"@.len() != "heartbeat_interval_sec"@.len());
    assert("version"@[0] != "cinemas"@[0]);
    assert("version"@[0] != "watches"@[0]);
    assert("version"@.len() != "lock_headless"@.len());
    assert("version"@.len() != "_runtime"@.len());
    assert("discord_webhook"@.len() != "quiet_window"@.len());
    assert("discord_webhook"@.len() != "phone_only_window"@.len());
    assert("discord_webhook"@.len() != "check_interval"@.len());
    assert("discord_webhook"@.len() != "alert_duration_sec"@.len());
    assert("discord_webhook"@.len() != "heartbeat_interval_sec"@.len());
    assert("discord_webhook"@.len() != "cinemas"@.len());
    assert("discord_webhook"@.len() != "watches"@.len());
    assert("discord_webhook"@.len() != "lock_headless"@.len());
    assert("discord_webhook"@.len() != "_runtime"@.len());
    assert("quiet_window"@.len() != "phone_only_window"@.len());
    assert("quiet_window"@.len() != "check_interval"@.len());
    assert("quiet_window"@.len() != "alert_duration_sec"@.len());
    assert("quiet_window"@.len() != "heartbeat_interval_sec"@.len());
    assert("quiet_window"@.len() != "cinemas"@.len());
    assert("quiet_window"@.len() != "watches"@.len());
    assert("quiet_window"@.len() != "lock_headless"@.len());
    assert("quiet_window"@.len() != "_runtime"@.len());
    assert("phone_only_window"@.len() != "check_interval"@.len());
    assert("phone_only_window"@.len() != "alert_duration_sec"@.len());
    assert("phone_only_window"@.len() != "heartbeat_interval_sec"@.len());
    assert("phone_only_window"@.len() != "cinemas"@.len());
    assert("phone_only_window"@.len() != "watches"@.len());
    assert("phone_only_window"@.len() != "lock_headless"@.len());
    assert("phone_only_window"@.len() != "_runtime"@.len());
    assert("check_interval"@.len() != "alert_duration_sec"@.len());
    assert("check_interval"@.len() != "heartbeat_interval_sec"@.len());
    assert("check_interval"@.len() != "cinemas"@.len());
    assert("check_interval"@.len() != "watches"@.len());
    assert("check_interval"@.len() != "lock_headless"@.len());
    assert("check_interval"@.len() != "_runtime"@.len());
    assert("alert_duration_sec"@.len() != "heartbeat_interval_sec"@.len());
    assert("alert_duration_sec"@.len() != "cinemas"@.len());
    assert("alert_duration_sec"@.len() != "watches"@.len());
    assert("alert_duration_sec"@.len() != "lock_headless"@.len());
    assert("alert_duration_sec"@.len() != "_runtime"@.len());
    assert("heartbeat_interval_sec"@.len() != "cinemas"@.len());
    assert("heartbeat_interval_sec"@.len() != "watches"@.len());
    assert("heartbeat_interval_sec"@.len() != "lock_headless"@.len());
    assert("heartbeat_interval_sec"@.len() != "_runtime"@.len());
    assert("cinemas"@[0] != "watches"@[0]);
    assert("cinemas"@.len() != "lock_headless"@.len());
    assert("cinemas"@.len() != "_runtime"@.len());
    assert("watches"@.len() != "lock_headless"@.len());
    assert("watches"@.len() != "_runtime"@.len());
    assert("lock_headless"@.len() != "_runtime"@.len());
}

/// The top-level keys of the default configuration.
pub open spec fn is_default_key(k: Seq<char>) -> bool {
    ||| k == "version"@
    ||| k == "discord_webhook"@
    ||| k == "quiet_window"@
    ||| k == "phone_only_window"@
    ||| k == "check_interval"@
    ||| k == "alert_duration_sec"@
    ||| k == "heartbeat_interval_sec"@
    ||| k == "cinemas"@
    ||| k == "watches"@
    ||| k == "lock_headless"@
    ||| k == "_runtime"@
}

/// The configuration written on first start.
pub open spec fn is_default_config(c: Json) -> bool {
    &&& c is Obj
    &&& field(c, "version"@) matches Some(x) && (|x: Json| x == Json::Int(CONFIG_VERSION as i128))(x)
    &&& field(c, "discord_webhook"@) matches Some(x) && (|x: Json| x == Json::Null)(x)
    &&& field(c, "quiet_window"@) matches Some(x) && (|x: Json| as_str_v(x) == Some("01:00-06:00"@))(x)
    &&& field(c, "phone_only_window"@) matches Some(x) && (|x: Json| as_str_v(x) == Some("06:00-09:00"@))(x)
    &&& field(c, "check_interval"@) matches Some(x) && (|x: Json| x == Json::Int(90))(x)
    &&& field(c, "alert_duration_sec"@) matches Some(x) && (|x: Json| x == Json::Int(60))(x)
    &&& field(c, "heartbeat_interval_sec"@) matches Some(x) && (|x: Json| x == Json::Int(3600))(x)
    &&& field(c, "cinemas"@) matches Some(x) && (|x: Json| is_empty_list(x))(x)
    &&& field(c, "watches"@) matches Some(x) && (|x: Json| is_empty_list(x))(x)
    &&& field(c, "lock_headless"@) matches Some(x) && (|x: Json| x == Json::Bool(true))(x)
    &&& field(c, "_runtime"@) matches Some(x) && (|x: Json| is_empty_object(x))(x)
    &&& forall|k: Seq<char>| !is_default_key(k) ==> field(c, k) is None
}

/// The configuration written on first start: no cinemas or watches, the
/// quiet and phone-only windows, the check cadence, headless locking.
pub fn default_config() -> (c: Json)
    ensures
        is_default_config(c),
{
    let mut f: Vec<(String, Json)> = Vec::new();
    f.push((owned("version"), Json::Int(2)));
    f.push((owned("discord_webhook"), Json::Null));
    f.push((owned("quiet_window"), jstr("01:00-06:00")));
    f.push((owned("phone_only_window"), jstr("06:00-09:00")));
    f.push((owned("check_interval"), Json::Int(90)));
    f.push((owned("alert_duration_sec"), Json::Int(60)));
    f.push((owned("heartbeat_interval_sec"), Json::Int(3600)));
    f.push((owned("cinemas"), Json::Arr(Vec::new())));
    f.push((owned("watches"), Json::Arr(Vec::new())));
    f.push((owned("lock_headless"), Json::Bool(true)));
    f.push((owned("_runtime"), empty_obj()));
    let ghost fs = f@;
    proof {
        reveal_default_keys();
        assert(fs[0].0@ == "version"@);
        assert(fs[1].0@ == "discord_webhook"@);
        assert(fs[2].0@ == "quiet_window"@);
        assert(fs[3].0@ == "phone_only_window"@);
        assert(fs[4].0@ == "check_interval"@);
        assert(fs[5].0@ == "alert_duration_sec"@);
        assert(fs[6].0@ == "heartbeat_interval_sec"@);
        assert(fs[7].0@ == "cinemas"@);
        assert(fs[8].0@ == "watches"@);
        assert(fs[9].0@ == "lock_headless"@);
        assert(fs[10].0@ == "_runtime"@);
        assert forall|k: Seq<char>| !is_default_key(k) implies obj_lookup(fs, k) is None by {
            lemma_lookup_absent(fs, k);
        }
        lemma_lookup_index(fs, "version"@, 0);
        lemma_lookup_index(fs, "discord_webhook"@, 1);
        lemma_lookup_index(fs, "quiet_window"@, 2);
        lemma_lookup_index(fs, "phone_only_window"@, 3);
        lemma_lookup_index(fs, "check_interval"@, 4);
        lemma_lookup_index(fs, "alert_duration_sec"@, 5);
        lemma_lookup_index(fs, "heartbeat_interval_sec"@, 6);
        lemma_lookup_index(fs, "cinemas"@, 7);
        lemma_lookup_index(fs, "watches"@, 8);
        lemma_lookup_index(fs, "lock_headless"@, 9);
        lemma_lookup_index(fs, "_runtime"@, 10);
    }
    let c = Json::Obj(f);
    proof {
        assert(field(c, "version"@) matches Some(x) && (|x: Json| x == Json::Int(CONFIG_VERSION as i128))(x));
        assert(field(c, "discord_webhook"@) matches Some(x) && (|x: Json| x == Json::Null)(x));
        assert(field(c, "quiet_window"@) matches Some(x) && (|x: Json| as_str_v(x) == Some("01:00-06:00"@))(x));
        assert(field(c, "phone_only_window"@) matches Some(x) && (|x: Json| as_str_v(x) == Some("06:00-09:00"@))(x));
        assert(field(c, "check_interval"@) matches Some(x) && (|x: Json| x == Json::Int(90))(x));
        assert(field(c, "alert_duration_sec"@) matches Some(x) && (|x: Json| x == Json::Int(60))(x));
        assert(field(c, "heartbeat_interval_sec"@) matches Some(x) && (|x: Json| x == Json::Int(3600))(x));
        assert(field(c, "cinemas"@) matches Some(x) && (|x: Json| is_empty_list(x))(x));
        assert(field(c, "watches"@) matches Some(x) && (|x: Json| is_empty_list(x))(x));
        assert(field(c, "lock_headless"@) matches Some(x) && (|x: Json| x == Json::Bool(true))(x));
        assert(field(c, "_runtime"@) matches Some(x) && (|x: Json| is_empty_object(x))(x));
    }
    c
}

/// `new` is a loaded configuration `old` completed: `version` set to the
/// current one when it did not read as it, every missing default key
/// added with its default, all else kept.
pub open spec fn config_completed(old: Json, new: Json) -> bool {
    &&& new is Obj
    &&& if u64_field(old, "version"@) == Some(CONFIG_VERSION as u64) {
        field(new, "version"@) == field(old, "version"@)
    } else {
        field(new, "version"@) == Some(Json::Int(CONFIG_VERSION as i128))
    }
    &&& kept_or(old, new, "discord_webhook"@, |x: Json| x == Json::Null)
    &&& kept_or(old, new, "quiet_window"@, |x: Json| as_str_v(x) == Some("01:00-06:00"@))
    &&& kept_or(old, new, "phone_only_window"@, |x: Json| as_str_v(x) == Some("06:00-09:00"@))
    &&& kept_or(old, new, "check_interval"@, |x: Json| x == Json::Int(90))
    &&& kept_or(old, new, "alert_duration_sec"@, |x: Json| x == Json::Int(60))
    &&& kept_or(old, new, "heartbeat_interval_sec"@, |x: Json| x == Json::Int(3600))
    &&& kept_or(old, new, "cinemas"@, |x: Json| is_empty_list(x))
    &&& kept_or(old, new, "watches"@, |x: Json| is_empty_list(x))
    &&& kept_or(old, new, "lock_headless"@, |x: Json| x == Json::Bool(true))
    &&& kept_or(old, new, "_runtime"@, |x: Json| is_empty_object(x))
    &&& forall|k: Seq<char>| !is_default_key(k) ==> field(new, k) == field(old, k)
}

/// Completes a loaded configuration with the current version and the
/// default of every missing key. A document that is no object (only `null`
/// is taken) cannot be completed.
pub fn complete_config(cfg: &mut Json)
    requires
        (*old(cfg)) is Obj || (*old(cfg)) is Null,
    ensures
        config_completed(*old(cfg), *final(cfg)),
{
    proof {
        reveal_default_keys();
    }
    let ghost c0 = *cfg;
    if get_u64(cfg, "version") != Some(CONFIG_VERSION as u64) {
        set_field(cfg, "version", Json::Int(CONFIG_VERSION as i128));
    }
    let ghost s_version = *cfg;
    fill_default(cfg, "discord_webhook", Json::Null);
    let ghost s_discord_webhook = *cfg;
    fill_default(cfg, "quiet_window", jstr("01:00-06:00"));
    let ghost s_quiet_window = *cfg;
    fill_default(cfg, "phone_only_window", jstr("06:00-09:00"));
    let ghost s_phone_only_window = *cfg;
    fill_default(cfg, "check_interval", Json::Int(90));
    let ghost s_check_interval = *cfg;
    fill_default(cfg, "alert_duration_sec", Json::Int(60));
    let ghost s_alert_duration_sec = *cfg;
    fill_default(cfg, "heartbeat_interval_sec", Json::Int(3600));
    let ghost s_heartbeat_interval_sec = *cfg;
    fill_default(cfg, "cinemas", Json::Arr(Vec::new()));
    let ghost s_cinemas = *cfg;
    fill_default(cfg, "watches", Json::Arr(Vec::new()));
    let ghost s_watches = *cfg;
    fill_default(cfg, "lock_headless", Json::Bool(true));
    let ghost s_lock_headless = *cfg;
    fill_default(cfg, "_runtime", empty_obj());
    let ghost s_runtime = *cfg;
    proof {
        assert(field(*cfg, "version"@) == field(s_version, "version"@));
        assert(field(*cfg, "discord_webhook"@) == field(s_discord_webhook, "discord_webhook"@));
        assert(field(s_version, "discord_webhook"@) == field(c0, "discord_webhook"@));
        assert(field(*cfg, "quiet_window"@) == field(s_quiet_window, "quiet_window"@));
        assert(field(s_discord_webhook, "quiet_window"@) == field(c0, "quiet_window"@));
        assert(field(*cfg, "phone_only_window"@) == field(s_phone_only_window, "phone_only_window"@));
        assert(field(s_quiet_window, "phone_only_window"@) == field(c0, "phone_only_window"@));
        assert(field(*cfg, "check_interval"@) == field(s_check_interval, "check_interval"@));
        assert(field(s_phone_only_window, "check_interval"@) == field(c0, "check_interval"@));
        assert(field(*cfg, "alert_duration_sec"@) == field(s_alert_duration_sec, "alert_duration_sec"@));
        assert(field(s_check_interval, "alert_duration_sec"@) == field(c0, "alert_duration_sec"@));
        assert(field(*cfg, "heartbeat_interval_sec"@) == field(s_heartbeat_interval_sec, "heartbeat_interval_sec"@));
        assert(field(s_alert_duration_sec, "heartbeat_interval_sec"@) == field(c0, "heartbeat_interval_sec"@));
        assert(field(*cfg, "cinemas"@) == field(s_cinemas, "cinemas"@));
        assert(field(s_heartbeat_interval_sec, "cinemas"@) == field(c0, "cinemas"@));
        assert(field(*cfg, "watches"@) == field(s_watches, "watches"@));
        assert(field(s_cinemas, "watches"@) == field(c0, "watches"@));
        assert(field(*cfg, "lock_headless"@) == field(s_lock_headless, "lock_headless"@));
        assert(field(s_watches, "lock_headless"@) == field(c0, "lock_headless"@));
        assert(field(*cfg, "_runtime"@) == field(s_runtime, "_runtime"@));
        assert(field(s_lock_headless, "_runtime"@) == field(c0, "_runtime"@));
    }
}

/// Completing twice changes nothing the second time.
pub proof fn law_complete_config_idempotent(c0: Json, c1: Json, c2: Json)
    requires
        config_completed(c0, c1),
        config_completed(c1, c2),
    ensures
        forall|k: Seq<char>| field(c2, k) == field(c1, k),
{
    assert forall|k: Seq<char>| field(c2, k) == field(c1, k) by {
        if is_default_key(k) {
            assert(field(c1, k) is Some);
        }
    }
}

// ----------------------------------------------------------------------
// Migration of the global notification targets to each watch
// ----------------------------------------------------------------------

/// A non-empty string at `cfg[k]`.
pub open spec fn nonempty_str(cfg: Json, k: Seq<char>) -> Option<Seq<char>> {
    match str_field(cfg, k) {
        Some(s) => if s.len() > 0 {
            Some(s)
        } else {
            None
        },
        None => None,
    }
}

pub open spec fn has_value(w: Json, k: Seq<char>) -> bool {
    field(w, k) is Some && !(field(w, k).unwrap() is Null)
}

/// Member `k` of `w2` inherits the global `g` when `w` has no value there.
pub open spec fn inherits(w: Json, w2: Json, k: Seq<char>, g: Option<Seq<char>>) -> bool {
    if has_value(w, k) || g is None {
        field(w2, k) == field(w, k)
    } else {
        str_field(w2, k) == g
    }
}

/// Whether the watch takes any global target.
pub open spec fn takes_global(w: Json, gwh: Option<Seq<char>>, gem: Option<Seq<char>>) -> bool {
    (!has_value(w, "notify_webhook"@) && gwh is Some) || (!has_value(w, "notify_email_to"@)
        && gem is Some)
}

/// `w2` is `w` with the global webhook and mail targets filled in where it
/// has none of its own.
pub open spec fn notify_inherited(
    w: Json,
    w2: Json,
    gwh: Option<Seq<char>>,
    gem: Option<Seq<char>>,
) -> bool {
    if takes_global(w, gwh, gem) {
        &&& w2 is Obj
        &&& inherits(w, w2, "notify_webhook"@, gwh)
        &&& inherits(w, w2, "notify_email_to"@, gem)
        &&& forall|k: Seq<char>|
            k != "notify_webhook"@ && k != "notify_email_to"@ ==> field(w2, k) == field(w, k)
    } else {
        w2 == w
    }
}

/// The migration can run: when there is a global target to hand down, the
/// watches are objects (or `null`).
pub open spec fn can_migrate_notify(cfg: Json) -> bool {
    (nonempty_str(cfg, "notify_webhook"@) is Some || nonempty_str(cfg, "notify_email_to"@) is Some)
        ==> forall|i: int|
        0 <= i < watches_of(cfg).len() ==> (#[trigger] watches_of(cfg)[i]) is Obj
            || watches_of(cfg)[i] is Null
}

/// The result and effect of `migrate_per_watch_notify`.
pub open spec fn notify_migrated(old: Json, new: Json, needs_save: bool) -> bool {
    if field(old, "_per_watch_notify_migrated"@) == Some(Json::Bool(true)) {
        !needs_save && new == old
    } else {
        let gwh = nonempty_str(old, "notify_webhook"@);
        let gem = nonempty_str(old, "notify_email_to"@);
        &&& needs_save == (gwh is Some || gem is Some)
        &&& new is Obj
        &&& field(new, "notify_webhook"@) is None
        &&& field(new, "notify_email_to"@) is None
        &&& field(new, "_per_watch_notify_migrated"@) == Some(Json::Bool(true))
        &&& match arr_field(old, "watches"@) {
            Some(ws) => arr_field(new, "watches"@) matches Some(ws2) && ws2.len() == ws.len() && (
            forall|i: int|
                0 <= i < ws.len() ==> notify_inherited(#[trigger] ws[i], ws2[i], gwh, gem)),
            None => field(new, "watches"@) == field(old, "watches"@),
        }
        &&& forall|k: Seq<char>|
            k != "notify_webhook"@ && k != "notify_email_to"@ && k != "_per_watch_notify_migrated"@
                && k != "watches"@ ==> field(new, k) == field(old, k)
    }
}

proof fn reveal_notify_keys()
    ensures
        "notify_webhook"@ != "notify_email_to"@,
        "notify_webhook"@ != "_per_watch_notify_migrated"@,
        "notify_webhook"@ != "watches"@,
        "notify_email_to"@ != "_per_watch_notify_migrated"@,
        "notify_email_to"@ != "watches"@,
        "_per_watch_notify_migrated"@ != "watches"@,
{
    reveal_strlit("notify_webhook");
    reveal_strlit("notify_email_to");
    reveal_strlit("_per_watch_notify_migrated");
    reveal_strlit("watches");
    assert("notify_webhook"@.len() != "notify_email_to"@.len());
    assert("notify_webhook"@.len() != "_per_watch_notify_migrated"@.len());
    assert("notify_webhook"@.len() != "watches"@.len());
    assert("notify_email_to"@.len() != "_per_watch_notify_migrated"@.len());
    assert("notify_email_to"@.len() != "watches"@.len());
    assert("_per_watch_notify_migrated"@.len() != "watches"@.len());
}

fn nonempty_str_of(cfg: &Json, k: &str) -> (r: Option<String>)
    ensures
        match r {
            Some(s) => nonempty_str(*cfg, k@) == Some(s@),
            None => nonempty_str(*cfg, k@) is None,
        },
{
    match get_str(cfg, k) {
        Some(s) => if s.unicode_len() > 0 {
            Some(s)
        } else {
            None
        },
        None => None,
    }
}

fn inherit_notify(w: &mut Json, gwh: &Option<String>, gem: &Option<String>)
    requires
        takes_global(*old(w), opt_string_view(*gwh), opt_string_view(*gem)) ==> (*old(w)) is Obj
            || (*old(w)) is Null,
    ensures
        notify_inherited(*old(w), *final(w), opt_string_view(*gwh), opt_string_view(*gem)),
{
    proof {
        reveal_notify_keys();
    }
    let has_wh = has_non_null(w, "notify_webhook");
    let has_email = has_non_null(w, "notify_email_to");
    if !has_wh {
        match gwh {
            Some(g) => {
                set_field(w, "notify_webhook", jstr(g.as_str()));
            },
            None => {},
        }
    }
    let ghost w1 = *w;
    if !has_email {
        match gem {
            Some(g) => {
                set_field(w, "notify_email_to", jstr(g.as_str()));
            },
            None => {},
        }
    }
}

pub open spec fn opt_string_view(v: Option<String>) -> Option<Seq<char>> {
    match v {
        Some(s) => Some(s@),
        None => None,
    }
}

/// Hands the global `notify_webhook` / `notify_email_to` down to every
/// watch without one of its own, then drops the global keys and marks the
/// migration done; returns whether a global target was there, i.e. whether
/// the caller must save. Runs once.
pub fn migrate_per_watch_notify(cfg: &mut Json) -> (needs_save: bool)
    requires
        (*old(cfg)) is Obj || (*old(cfg)) is Null,
        can_migrate_notify(*old(cfg)),
    ensures
        notify_migrated(*old(cfg), *final(cfg), needs_save),
{
    proof {
        reveal_notify_keys();
    }
    let done = match get(cfg, "_per_watch_notify_migrated") {
        Some(Json::Bool(true)) => true,
        _ => false,
    };
    if done {
        return false;
    }
    let ghost c0 = *cfg;
    let gwh = nonempty_str_of(cfg, "notify_webhook");
    let gem = nonempty_str_of(cfg, "notify_email_to");
    let needs_save = gwh.is_some() || gem.is_some();
    let is_list = match get(cfg, "watches") {
        Some(Json::Arr(_)) => true,
        _ => false,
    };
    if is_list {
        match take_field(cfg, "watches") {
            Some(Json::Arr(items)) => {
                let ghost s0 = items@;
                let mut items = items;
                let n = items.len();
                let mut out: Vec<Json> = Vec::new();
                let mut i: usize = 0;
                while i < n
                    invariant
                        n == s0.len(),
                        i <= n,
                        s0 == watches_of(c0),
                        can_migrate_notify(c0),
                        opt_string_view(gwh) == nonempty_str(c0, "notify_webhook"@),
                        opt_string_view(gem) == nonempty_str(c0, "notify_email_to"@),
                        items@ == s0.skip(i as int),
                        out@.len() == i,
                        forall|m: int|
                            0 <= m < i ==> notify_inherited(
                                #[trigger] s0[m],
                                out@[m],
                                opt_string_view(gwh),
                                opt_string_view(gem),
                            ),
                    decreases n - i,
                {
                    assert(items@[0] == s0[i as int]);
                    let mut it = items.remove(0);
                    assert(items@ =~= s0.skip(i + 1));
                    inherit_notify(&mut it, &gwh, &gem);
                    out.push(it);
                    i = i + 1;
                }
                set_field(cfg, "watches", Json::Arr(out));
            },
            _ => {
                assert(false);
            },
        }
    }
    let ghost c1 = *cfg;
    remove_field(cfg, "notify_webhook");
    remove_field(cfg, "notify_email_to");
    set_field(cfg, "_per_watch_notify_migrated", Json::Bool(true));
    needs_save
}

// ----------------------------------------------------------------------
// Migration of the watch schema (one cinema → a list of cinemas)
// ----------------------------------------------------------------------

/// The name found for movie `mid` in a table of fetched names; `None` when
/// the table has none (or the fetch found none).
pub open spec fn name_lookup(names: Seq<(i64, Option<String>)>, mid: i64) -> Option<Seq<char>>
    decreases names.len(),
{
    if names.len() == 0 {
        None
    } else if names[0].0 == mid {
        match names[0].1 {
            Some(s) => Some(s@),
            None => None,
        }
    } else {
        name_lookup(names.drop_first(), mid)
    }
}

/// The watch lacks a movie name (absent or `null`).
pub open spec fn lacks_name(w: Json) -> bool {
    field(w, "movie_name"@) is None || field(w, "movie_name"@) == Some(Json::Null)
}

/// The movie ids whose names a schema migration needs, in watch order.
pub open spec fn ids_needing_names(ws: Seq<Json>) -> Seq<i64>
    decreases ws.len(),
{
    if ws.len() == 0 {
        Seq::empty()
    } else {
        let rest = ids_needing_names(ws.drop_last());
        let w = ws.last();
        if lacks_name(w) && i64_field(w, "movie_id"@) is Some {
            rest.push(i64_field(w, "movie_id"@).unwrap())
        } else {
            rest
        }
    }
}

/// Whether the schema migration still has to run.
pub open spec fn schema_pending(cfg: Json) -> bool {
    field(cfg, "_watch_schema_migrated"@) != Some(Json::Bool(true))
}

/// The movie ids whose names the schema migration will ask for; empty when
/// it already ran.
pub fn movie_ids_needing_names(cfg: &Json) -> (r: Vec<i64>)
    ensures
        r@ == if schema_pending(*cfg) {
            ids_needing_names(watches_of(*cfg))
        } else {
            Seq::empty()
        },
{
    let done = match get(cfg, "_watch_schema_migrated") {
        Some(Json::Bool(true)) => true,
        _ => false,
    };
    let mut out: Vec<i64> = Vec::new();
    if done {
        return out;
    }
    let ws = list_items(cfg, "watches");
    let mut i: usize = 0;
    while i < ws.len()
        invariant
            i <= ws@.len(),
            out@ == ids_needing_names(ws@.take(i as int)),
        decreases ws.len() - i,
    {
        assert(ws@.take(i + 1).drop_last() =~= ws@.take(i as int));
        let w = &ws[i];
        let lacks = match get(w, "movie_name") {
            None => true,
            Some(Json::Null) => true,
            _ => false,
        };
        if lacks {
            match get_i64(w, "movie_id") {
                Some(mid) => out.push(mid),
                None => {},
            }
        }
        i = i + 1;
    }
    assert(ws@.take(ws@.len() as int) =~= ws@);
    out
}

fn lookup_name(names: &[(i64, Option<String>)], mid: i64) -> (r: Option<String>)
    ensures
        opt_string_view(r) == name_lookup(names@, mid),
{
    let mut i: usize = 0;
    assert(names@.skip(0) =~= names@);
    while i < names.len()
        invariant
            i <= names@.len(),
            name_lookup(names@, mid) == name_lookup(names@.skip(i as int), mid),
        decreases names.len() - i,
    {
        assert(names@.skip(i as int)[0] == names@[i as int]);
        if names[i].0 == mid {
            return match &names[i].1 {
                Some(s) => Some(s.clone()),
                None => None,
            };
        }
        assert(names@.skip(i as int).drop_first() =~= names@.skip(i + 1));
        i = i + 1;
    }
    None
}

/// The cinema id a legacy watch names, when it is a non-empty string that
/// the migration turns into its cinema list.
pub open spec fn legacy_cinema(w: Json) -> Option<Seq<char>> {
    if field(w, "cinemas"@) is None {
        match field(w, "cinema_id"@) {
            Some(c) => match as_str_v(c) {
                Some(s) => if s.len() > 0 {
                    Some(s)
                } else {
                    None
                },
                None => None,
            },
            None => None,
        }
    } else {
        None
    }
}

/// The cinema ids to register after migrating `ws`, in order.
pub open spec fn legacy_cinemas(ws: Seq<Json>) -> Seq<Seq<char>>
    decreases ws.len(),
{
    if ws.len() == 0 {
        Seq::empty()
    } else {
        let rest = legacy_cinemas(ws.drop_last());
        match legacy_cinema(ws.last()) {
            Some(c) => rest.push(c),
            None => rest,
        }
    }
}

/// The keys a schema migration may change in a watch.
pub open spec fn is_schema_key(k: Seq<char>) -> bool {
    ||| k == "cinemas"@
    ||| k == "cinema_id"@
    ||| k == "dates"@
    ||| k == "movie_name"@
    ||| k == "wechat_notify"@
    ||| is_lock_key(k)
}

/// `w2` is the watch `w` in the current schema: its single `cinema_id`
/// moved into a `cinemas` list (an empty one when it had none), `dates`
/// `null` when absent, a missing name filled from `names`, `wechat_notify`
/// false when absent, and the lock defaults settled.
pub open spec fn watch_schema_migrated(w: Json, w2: Json, names: Seq<(i64, Option<String>)>) -> bool {
    &&& w2 is Obj
    &&& if field(w, "cinemas"@) is Some {
        field(w2, "cinemas"@) == field(w, "cinemas"@) && field(w2, "cinema_id"@) == field(
            w,
            "cinema_id"@,
        )
    } else {
        match field(w, "cinema_id"@) {
            Some(c) => (field(w2, "cinemas"@) matches Some(Json::Arr(a)) && a@ == seq![c]) && field(
                w2,
                "cinema_id"@,
            ) is None,
            None => (field(w2, "cinemas"@) matches Some(a) && is_empty_list(a)) && field(
                w2,
                "cinema_id"@,
            ) is None,
        }
    }
    &&& kept_or(w, w2, "dates"@, |x: Json| x == Json::Null)
    &&& if lacks_name(w) && i64_field(w, "movie_id"@) is Some {
        str_or_null(
            field(w2, "movie_name"@),
            name_lookup(names, i64_field(w, "movie_id"@).unwrap()),
        )
    } else {
        field(w2, "movie_name"@) == field(w, "movie_name"@)
    }
    &&& kept_or(w, w2, "wechat_notify"@, |x: Json| x == Json::Bool(false))
    &&& kept_or(w, w2, "auto_lock"@, |x: Json| x == Json::Bool(false))
    &&& kept_or(w, w2, "imax_only"@, |x: Json| x == Json::Bool(false))
    &&& kept_or(
        w,
        w2,
        "lock_num_seats"@,
        |x: Json| x == Json::Int(DEFAULT_LOCK_NUM_SEATS as i128),
    )
    &&& kept_or(
        w,
        w2,
        "lock_max_retries"@,
        |x: Json| x == Json::Int(DEFAULT_LOCK_MAX_RETRIES as i128),
    )
    &&& kept_or(w, w2, "lock_seats"@, |x: Json| is_empty_list(x))
    &&& kept_or(w, w2, "lock_ok_cinemas"@, |x: Json| is_empty_list(x))
    &&& kept_or(w, w2, "lock_tries"@, |x: Json| is_empty_object(x))
    &&& forall|k: Seq<char>| !is_schema_key(k) ==> field(w2, k) == field(w, k)
}

proof fn reveal_schema_keys()
    ensures
        "cinemas"@ != "cinema_id"@,
        "cinemas"@ != "dates"@,
        "cinemas"@ != "movie_name"@,
        "cinemas"@ != "wechat_notify"@,
        "cinema_id"@ != "dates"@,
        "cinema_id"@ != "movie_name"@,
        "cinema_id"@ != "wechat_notify"@,
        "dates"@ != "movie_name"@,
        "dates"@ != "wechat_notify"@,
        "movie_name"@ != "wechat_notify"@,
        forall|k: Seq<char>|
            is_lock_key(k) ==> k != "cinemas"@ && k != "cinema_id"@ && k != "dates"@ && k
                != "movie_name"@ && k != "wechat_notify"@,
{
    reveal_strlit("cinemas");
    reveal_strlit("cinema_id");
    reveal_strlit("dates");
    reveal_strlit("movie_name");
    reveal_strlit("wechat_notify");
    reveal_strlit("auto_lock");
    reveal_strlit("imax_only");
    reveal_strlit("lock_num_seats");
    reveal_strlit("lock_max_retries");
    reveal_strlit("lock_seats");
    reveal_strlit("lock_ok_cinemas");
    reveal_strlit("lock_tries");
    assert("cinemas"@[6] != "cinema_id"@[6]);
    assert("cinemas"@.len() != "dates"@.len());
    assert("cinemas"@.len() != "movie_name"@.len());
    assert("cinemas"@.len() != "wechat_notify"@.len());
    assert("cinema_id"@.len() != "dates"@.len());
    assert("cinema_id"@.len() != "movie_name"@.len());
    assert("cinema_id"@.len() != "wechat_notify"@.len());
    assert("dates"@.len() != "movie_name"@.len());
    assert("dates"@.len() != "wechat_notify"@.len());
    assert("movie_name"@.len() != "wechat_notify"@.len());
    assert("auto_lock"@[0] != "cinemas"@[0]);
    assert("auto_lock"@[0] != "cinema_id"@[0]);
    assert("auto_lock"@[0] != "dates"@[0]);
    assert("auto_lock"@[0] != "movie_name"@[0]);
    assert("auto_lock"@[0] != "wechat_notify"@[0]);
    assert("imax_only"@[0] != "cinemas"@[0]);
    assert("imax_only"@[0] != "cinema_id"@[0]);
    assert("imax_only"@[0] != "dates"@[0]);
    assert("imax_only"@[0] != "movie_name"@[0]);
    assert("imax_only"@[0] != "wechat_notify"@[0]);
    assert("lock_num_seats"@[0] != "cinemas"@[0]);
    assert("lock_num_seats"@[0] != "cinema_id"@[0]);
    assert("lock_num_seats"@[0] != "dates"@[0]);
    assert("lock_num_seats"@[0] != "movie_name"@[0]);
    assert("lock_num_seats"@[0] != "wechat_notify"@[0]);
    assert("lock_max_retries"@[0] != "cinemas"@[0]);
    assert("lock_max_retries"@[0] != "cinema_id"@[0]);
    assert("lock_max_retries"@[0] != "dates"@[0]);
    assert("lock_max_retries"@[0] != "movie_name"@[0]);
    assert("lock_max_retries"@[0] != "wechat_notify"@[0]);
    assert("lock_seats"@[0] != "cinemas"@[0]);
    assert("lock_seats"@[0] != "cinema_id"@[0]);
    assert("lock_seats"@[0] != "dates"@[0]);
    assert("lock_seats"@[0] != "movie_name"@[0]);
    assert("lock_seats"@[0] != "wechat_notify"@[0]);
    assert("lock_ok_cinemas"@[0] != "cinemas"@[0]);
    assert("lock_ok_cinemas"@[0] != "cinema_id"@[0]);
    assert("lock_ok_cinemas"@[0] != "dates"@[0]);
    assert("lock_ok_cinemas"@[0] != "movie_name"@[0]);
    assert("lock_ok_cinemas"@[0] != "wechat_notify"@[0]);
    assert("lock_tries"@[0] != "cinemas"@[0]);
    assert("lock_tries"@[0] != "cinema_id"@[0]);
    assert("lock_tries"@[0] != "dates"@[0]);
    assert("lock_tries"@[0] != "movie_name"@[0]);
    assert("lock_tries"@[0] != "wechat_notify"@[0]);
}

proof fn reveal_movie_id_key()
    ensures
        "movie_id"@ != "cinemas"@,
        "movie_id"@ != "cinema_id"@,
        "movie_id"@ != "dates"@,
        "movie_id"@ != "movie_name"@,
        "movie_id"@ != "wechat_notify"@,
{
    reveal_strlit("movie_id");
    reveal_strlit("cinemas");
    reveal_strlit("cinema_id");
    reveal_strlit("dates");
    reveal_strlit("movie_name");
    reveal_strlit("wechat_notify");
    assert("movie_id"@.len() != "cinemas"@.len());
    assert("movie_id"@[6] != "cinema_id"@[6]);
    assert("movie_id"@.len() != "dates"@.len());
    assert("movie_id"@.len() != "movie_name"@.len());
    assert("movie_id"@.len() != "wechat_notify"@.len());
}

proof fn reveal_movie_id_lock()
    ensures
        !is_lock_key("movie_id"@),
{
    reveal_strlit("movie_id");
    reveal_strlit("auto_lock");
    reveal_strlit("imax_only");
    reveal_strlit("lock_num_seats");
    reveal_strlit("lock_max_retries");
    reveal_strlit("lock_seats");
    reveal_strlit("lock_ok_cinemas");
    reveal_strlit("lock_tries");
    assert("movie_id"@[0] != "auto_lock"@[0]);
    assert("movie_id"@[0] != "imax_only"@[0]);
    assert("movie_id"@[0] != "lock_num_seats"@[0]);
    assert("movie_id"@[0] != "lock_max_retries"@[0]);
    assert("movie_id"@[0] != "lock_seats"@[0]);
    assert("movie_id"@[0] != "lock_ok_cinemas"@[0]);
    assert("movie_id"@[0] != "lock_tries"@[0]);
}

fn migrate_one_watch(w: &mut Json, names: &[(i64, Option<String>)]) -> (reg: Option<String>)
    requires
        (*old(w)) is Obj || (*old(w)) is Null,
    ensures
        watch_schema_migrated(*old(w), *final(w), names@),
        opt_string_view(reg) == legacy_cinema(*old(w)),
{
    proof {
        reveal_schema_keys();
        reveal_lock_keys();
    }
    let ghost w0 = *w;
    let mut reg: Option<String> = None;
    if !has_field(w, "cinemas") {
        match take_field(w, "cinema_id") {
            Some(cid) => {
                reg = match &cid {
                    Json::Str(s) => if s.unicode_len() > 0 {
                        Some(s.clone())
                    } else {
                        None
                    },
                    _ => None,
                };
                let mut one: Vec<Json> = Vec::new();
                one.push(cid);
                set_field(w, "cinemas", Json::Arr(one));
                remove_field(w, "cinema_id");
            },
            None => {
                set_field(w, "cinemas", Json::Arr(Vec::new()));
            },
        }
    }
    let ghost w1 = *w;
    if !has_field(w, "dates") {
        set_field(w, "dates", Json::Null);
    }
    let ghost w2 = *w;
    let lacks = match get(w, "movie_name") {
        None => true,
        Some(Json::Null) => true,
        _ => false,
    };
    if lacks {
        match get_i64(w, "movie_id") {
            Some(mid) => {
                let name = lookup_name(names, mid);
                let v = match name {
                    Some(n) => Json::Str(n),
                    None => Json::Null,
                };
                set_field(w, "movie_name", v);
            },
            None => {},
        }
    }
    let ghost w3 = *w;
    if !has_field(w, "wechat_notify") {
        set_field(w, "wechat_notify", Json::Bool(false));
    }
    let ghost w4 = *w;
    settle_lock_defaults(w);
    proof {
        reveal_movie_id_key();
        assert(field(w4, "movie_id"@) == field(w0, "movie_id"@));
        let wf = *w;
        assert(!is_lock_key("cinemas"@));
        assert(!is_lock_key("cinema_id"@));
        assert(!is_lock_key("dates"@));
        assert(!is_lock_key("movie_name"@));
        assert(!is_lock_key("wechat_notify"@));
        assert(!is_lock_key("movie_id"@)) by {
            reveal_movie_id_lock();
        }
        assert(field(wf, "cinemas"@) == field(w4, "cinemas"@));
        assert(field(wf, "cinema_id"@) == field(w4, "cinema_id"@));
        assert(field(w4, "cinemas"@) == field(w1, "cinemas"@));
        assert(field(w4, "cinema_id"@) == field(w1, "cinema_id"@));
        assert(field(wf, "dates"@) == field(w2, "dates"@));
        assert(field(w2, "dates"@) == field(w4, "dates"@));
        assert(field(w1, "dates"@) == field(w0, "dates"@));
        assert(field(wf, "movie_name"@) == field(w3, "movie_name"@));
        assert(field(w2, "movie_name"@) == field(w0, "movie_name"@));
        assert(field(wf, "wechat_notify"@) == field(w4, "wechat_notify"@));
        assert(field(w3, "wechat_notify"@) == field(w0, "wechat_notify"@));
    }
    reg
}

/// The result and effect of `migrate_watch_schema`.
pub open spec fn schema_migrated(
    old: Json,
    new: Json,
    names: Seq<(i64, Option<String>)>,
    r: Result<(), ConfigError>,
) -> bool {
    if !schema_pending(old) {
        r is Ok && new == old
    } else {
        exists|mid: Json|
            #![trigger schema_mid(old, mid, names)]
            schema_mid(old, mid, names) && {
                let regs = legacy_cinemas(watches_of(old));
                if arr_field(mid, "cinemas"@) is None && unknown_ids(cinemas_of(mid), regs).len()
                    > 0 {
                    r matches Err(ConfigError::MissingCinemas) && new == mid
                } else {
                    r is Ok && exists|fin: Json|
                        #![trigger cinemas_registered(mid, fin, regs)]
                        cinemas_registered(mid, fin, regs) && new is Obj && field(
                            new,
                            "_watch_schema_migrated"@,
                        ) == Some(Json::Bool(true)) && forall|k: Seq<char>|
                            k != "_watch_schema_migrated"@ ==> field(new, k) == field(fin, k)
                }
            }
    }
}

/// `mid` is `old` with each watch migrated to the current schema.
pub open spec fn schema_mid(old: Json, mid: Json, names: Seq<(i64, Option<String>)>) -> bool {
    match arr_field(old, "watches"@) {
        Some(ws) => {
            &&& mid is Obj
            &&& arr_field(mid, "watches"@) matches Some(ws2) && ws2.len() == ws.len() && (forall|
                i: int,
            | 0 <= i < ws.len() ==> watch_schema_migrated(#[trigger] ws[i], ws2[i], names))
            &&& forall|k: Seq<char>| k != "watches"@ ==> field(mid, k) == field(old, k)
        },
        None => mid == old,
    }
}

/// The schema migration can run: the watches are objects (or `null`) and
/// the document is an object.
pub open spec fn can_migrate_schema(cfg: Json) -> bool {
    &&& cfg is Obj || cfg is Null
    &&& forall|i: int|
        0 <= i < watches_of(cfg).len() ==> (#[trigger] watches_of(cfg)[i]) is Obj
            || watches_of(cfg)[i] is Null
}

pub fn register_cinema_ids(cfg: &mut Json, cids: &Vec<String>) -> (r: Result<(), ConfigError>)
    ensures
        if arr_field(*old(cfg), "cinemas"@) is None && unknown_ids(
            cinemas_of(*old(cfg)),
            views_of(cids@),
        ).len() > 0 {
            r matches Err(ConfigError::MissingCinemas) && *final(cfg) == *old(cfg)
        } else {
            r is Ok && cinemas_registered(*old(cfg), *final(cfg), views_of(cids@))
        },
{
    let mut refs: Vec<&str> = Vec::new();
    let mut i: usize = 0;
    while i < cids.len()
        invariant
            i <= cids@.len(),
            refs@.len() == i,
            forall|m: int| 0 <= m < i ==> (#[trigger] refs@[m])@ == cids@[m]@,
        decreases cids.len() - i,
    {
        refs.push(cids[i].as_str());
        i = i + 1;
    }
    assert(strs_view(refs@) =~= views_of(cids@));
    register_cinemas(cfg, refs.as_slice())
}

/// Migrates every watch to the current schema (see
/// [`watch_schema_migrated`]), using `names` for missing movie names,
/// registers the cinemas of legacy watches and marks the migration done.
/// Runs once. The caller saves.
pub fn migrate_watch_schema(cfg: &mut Json, names: &[(i64, Option<String>)]) -> (r: Result<
    (),
    ConfigError,
>)
    requires
        can_migrate_schema(*old(cfg)),
    ensures
        schema_migrated(*old(cfg), *final(cfg), names@, r),
{
    let done = match get(cfg, "_watch_schema_migrated") {
        Some(Json::Bool(true)) => true,
        _ => false,
    };
    if done {
        return Ok(());
    }
    let ghost c0 = *cfg;
    let mut regs: Vec<String> = Vec::new();
    let is_list = match get(cfg, "watches") {
        Some(Json::Arr(_)) => true,
        _ => false,
    };
    if is_list {
        match take_field(cfg, "watches") {
            Some(Json::Arr(items)) => {
                let ghost s0 = items@;
                let mut items = items;
                let n = items.len();
                let mut out: Vec<Json> = Vec::new();
                let mut i: usize = 0;
                while i < n
                    invariant
                        n == s0.len(),
                        i <= n,
                        s0 == watches_of(c0),
                        can_migrate_schema(c0),
                        items@ == s0.skip(i as int),
                        out@.len() == i,
                        views_of(regs@) == legacy_cinemas(s0.take(i as int)),
                        forall|m: int|
                            0 <= m < i ==> watch_schema_migrated(
                                #[trigger] s0[m],
                                out@[m],
                                names@,
                            ),
                    decreases n - i,
                {
                    assert(items@[0] == s0[i as int]);
                    assert(s0.take(i + 1).drop_last() =~= s0.take(i as int));
                    let mut it = items.remove(0);
                    assert(items@ =~= s0.skip(i + 1));
                    let reg = migrate_one_watch(&mut it, names);
                    match reg {
                        Some(c) => {
                            regs.push(c);
                        },
                        None => {},
                    }
                    assert(views_of(regs@) =~= legacy_cinemas(s0.take(i + 1)));
                    out.push(it);
                    i = i + 1;
                }
                assert(s0.take(n as int) =~= s0);
                set_field(cfg, "watches", Json::Arr(out));
            },
            _ => {
                assert(false);
            },
        }
    } else {
        assert(watches_of(c0) =~= Seq::<Json>::empty());
        assert(legacy_cinemas(watches_of(c0)) =~= Seq::<Seq<char>>::empty());
    }
    let ghost mid = *cfg;
    assert(schema_mid(c0, mid, names@));
    assert(views_of(regs@) == legacy_cinemas(watches_of(c0)));
    match register_cinema_ids(cfg, &regs) {
        Ok(()) => {},
        Err(e) => {
            proof {
                assert(schema_mid(*old(cfg), mid, names@));
            }
            return Err(e);
        },
    }
    let ghost fin = *cfg;
    set_field(cfg, "_watch_schema_migrated", Json::Bool(true));
    proof {
        assert(cinemas_registered(mid, fin, views_of(regs@)));
    }
    Ok(())
}

// ----------------------------------------------------------------------
// Migration of the legacy per-movie state file
// ----------------------------------------------------------------------

/// Whether the legacy state file still has to be looked at.
pub open spec fn legacy_pending(cfg: Json) -> bool {
    field(cfg, "_migrated_legacy_state"@) != Some(Json::Bool(true))
}

pub fn legacy_state_pending(cfg: &Json) -> (r: bool)
    ensures
        r == legacy_pending(*cfg),
{
    match get(cfg, "_migrated_legacy_state") {
        Some(Json::Bool(true)) => false,
        _ => true,
    }
}

/// The key of a watch's movie in the legacy state: `movie_<id>`.
pub open spec fn legacy_key(w: Json) -> Seq<char> {
    "movie_"@ + signed_text(i64_or_zero(w, "movie_id"@) as int)
}

/// The legacy entry says the presale of the watch's movie was open.
pub open spec fn legacy_presale(state: Json, w: Json) -> bool {
    match field(state, legacy_key(w)) {
        Some(e) => bool_field(e, "presale_open"@) == Some(true),
        None => false,
    }
}

/// `w2` is `w` after the legacy state: when it recorded an open presale,
/// `presale_fired` is set and a missing `last_alert_at` copies the
/// recorded `detected_at`.
pub open spec fn legacy_applied(state: Json, w: Json, w2: Json) -> bool {
    if legacy_presale(state, w) {
        let e = field(state, legacy_key(w)).unwrap();
        &&& w2 is Obj
        &&& field(w2, "presale_fired"@) == Some(Json::Bool(true))
        &&& if field(w, "last_alert_at"@) is None && field(e, "detected_at"@) is Some {
            field(w2, "last_alert_at"@) matches Some(x) && same_json(
                field(e, "detected_at"@).unwrap(),
                x,
            )
        } else {
            field(w2, "last_alert_at"@) == field(w, "last_alert_at"@)
        }
        &&& forall|k: Seq<char>|
            k != "presale_fired"@ && k != "last_alert_at"@ ==> field(w2, k) == field(w, k)
    } else {
        w2 == w
    }
}

/// The watches that the legacy state changes are objects (or `null`).
pub open spec fn can_apply_legacy(cfg: Json, state: Option<Json>) -> bool {
    &&& cfg is Obj || cfg is Null
    &&& match state {
        Some(st) => forall|i: int|
            0 <= i < watches_of(cfg).len() && legacy_presale(st, #[trigger] watches_of(cfg)[i])
                ==> watches_of(cfg)[i] is Obj || watches_of(cfg)[i] is Null,
        None => true,
    }
}

/// The effect of `apply_legacy_state`.
pub open spec fn legacy_migrated(old: Json, new: Json, state: Option<Json>) -> bool {
    &&& new is Obj
    &&& field(new, "_migrated_legacy_state"@) == Some(Json::Bool(true))
    &&& match (state, arr_field(old, "watches"@)) {
        (Some(st), Some(ws)) => arr_field(new, "watches"@) matches Some(ws2) && ws2.len()
            == ws.len() && (forall|i: int|
            0 <= i < ws.len() ==> legacy_applied(st, #[trigger] ws[i], ws2[i])),
        _ => field(new, "watches"@) == field(old, "watches"@),
    }
    &&& forall|k: Seq<char>|
        k != "_migrated_legacy_state"@ && k != "watches"@ ==> field(new, k) == field(old, k)
}

proof fn reveal_legacy_keys()
    ensures
        "presale_fired"@ != "last_alert_at"@,
        "id"@ != "presale_fired"@,
        "id"@ != "last_alert_at"@,
        "movie_id"@ != "presale_fired"@,
        "movie_id"@ != "last_alert_at"@,
        "_migrated_legacy_state"@ != "watches"@,
{
    reveal_strlit("presale_fired");
    reveal_strlit("last_alert_at");
    reveal_strlit("id");
    reveal_strlit("movie_id");
    reveal_strlit("_migrated_legacy_state");
    reveal_strlit("watches");
    assert("presale_fired"@[0] != "last_alert_at"@[0]);
    assert("id"@.len() != "presale_fired"@.len());
    assert("id"@.len() != "last_alert_at"@.len());
    assert("movie_id"@.len() != "presale_fired"@.len());
    assert("movie_id"@.len() != "last_alert_at"@.len());
    assert("_migrated_legacy_state"@.len() != "watches"@.len());
}

fn apply_legacy_to_watch(state: &Json, w: &mut Json)
    requires
        legacy_presale(*state, *old(w)) ==> (*old(w)) is Obj || (*old(w)) is Null,
    ensures
        legacy_applied(*state, *old(w), *final(w)),
{
    proof {
        reveal_legacy_keys();
    }
    let mid = match get_i64(w, "movie_id") {
        Some(n) => n,
        None => 0,
    };
    let mut key = owned("movie_");
    let digits = i64_text(mid);
    append_str(&mut key, digits.as_str());
    assert(key@ == legacy_key(*w));
    let entry = match get(state, key.as_str()) {
        Some(e) => e,
        None => return ,
    };
    let presale = match get_bool(entry, "presale_open") {
        Some(b) => b,
        None => false,
    };
    if !presale {
        return ;
    }
    let ghost w0 = *w;
    set_field(w, "presale_fired", Json::Bool(true));
    if !has_field(w, "last_alert_at") {
        match get(entry, "detected_at") {
            Some(d) => {
                let c = clone_json(d);
                set_field(w, "last_alert_at", c);
            },
            None => {},
        }
    }
}

/// Applies the legacy per-movie state (`None` when there is no readable
/// legacy file) to the watches and marks the migration done. The caller
/// saves when a state was applied.
pub fn apply_legacy_state(cfg: &mut Json, state: Option<&Json>)
    requires
        can_apply_legacy(
            *old(cfg),
            match state {
                Some(s) => Some(*s),
                None => None,
            },
        ),
    ensures
        legacy_migrated(
            *old(cfg),
            *final(cfg),
            match state {
                Some(s) => Some(*s),
                None => None,
            },
        ),
{
    proof {
        reveal_legacy_keys();
    }
    let ghost c0 = *cfg;
    match state {
        Some(st) => {
            let is_list = match get(cfg, "watches") {
                Some(Json::Arr(_)) => true,
                _ => false,
            };
            if is_list {
                match take_field(cfg, "watches") {
                    Some(Json::Arr(items)) => {
                        let ghost s0 = items@;
                        let mut items = items;
                        let n = items.len();
                        let mut out: Vec<Json> = Vec::new();
                        let mut i: usize = 0;
                        while i < n
                            invariant
                                n == s0.len(),
                                i <= n,
                                s0 == watches_of(c0),
                                can_apply_legacy(c0, Some(*st)),
                                items@ == s0.skip(i as int),
                                out@.len() == i,
                                forall|m: int|
                                    0 <= m < i ==> legacy_applied(*st, #[trigger] s0[m], out@[m]),
                            decreases n - i,
                        {
                            assert(items@[0] == s0[i as int]);
                            let mut it = items.remove(0);
                            assert(items@ =~= s0.skip(i + 1));
                            apply_legacy_to_watch(st, &mut it);
                            out.push(it);
                            i = i + 1;
                        }
                        set_field(cfg, "watches", Json::Arr(out));
                    },
                    _ => {
                        assert(false);
                    },
                }
            }
        },
        None => {},
    }
    set_field(cfg, "_migrated_legacy_state", Json::Bool(true));
}

// ----------------------------------------------------------------------
// The match range of a watch, for edits
// ----------------------------------------------------------------------

/// What decides the match range and the baseline of a watch: its cinemas,
/// dates, time window, IMAX-only flag, movie and mode.
pub struct RangeKeys {
    pub cinemas: Vec<String>,
    pub dates: Vec<String>,
    pub time_window: String,
    pub imax_only: bool,
    pub movie_id: i64,
    pub mode: &'static str,
}

/// `k` was read from the watch `w`.
pub open spec fn keys_of(k: RangeKeys, w: Json) -> bool {
    &&& views_of(k.cinemas@) == str_list_field(w, "cinemas"@)
    &&& views_of(k.dates@) == str_list_field(w, "dates"@)
    &&& k.time_window@ == str_or_empty(w, "time_window"@)
    &&& k.imax_only == flag_of(w, "imax_only"@)
    &&& k.movie_id == i64_or_zero(w, "movie_id"@)
    &&& k.mode@ == watch_mode_s(w)
}

/// Reads the range keys of a watch.
pub fn range_keys(w: &Json) -> (r: RangeKeys)
    ensures
        keys_of(r, *w),
{
    RangeKeys {
        cinemas: str_list(w, "cinemas"),
        dates: str_list(w, "dates"),
        time_window: match get_str(w, "time_window") {
            Some(s) => s,
            None => String::new(),
        },
        imax_only: match get_bool(w, "imax_only") {
            Some(b) => b,
            None => false,
        },
        movie_id: match get_i64(w, "movie_id") {
            Some(n) => n,
            None => 0,
        },
        mode: watch_mode(w),
    }
}

/// Whether the match range differs between the watches the keys were read
/// from (see [`lock_keys_changed_s`]).
pub fn range_changed(a: &RangeKeys, b: &RangeKeys) -> (r: bool)
    ensures
        forall|wa: Json, wb: Json|
            keys_of(*a, wa) && keys_of(*b, wb) ==> r == lock_keys_changed_s(wa, wb),
{
    !strings_eq(&a.cinemas, &b.cinemas) || !strings_eq(&a.dates, &b.dates) || !str_eq(
        a.time_window.as_str(),
        b.time_window.as_str(),
    ) || a.imax_only != b.imax_only || a.movie_id != b.movie_id
}

/// Whether the mode differs between the watches the keys were read from.
pub fn mode_changed(a: &RangeKeys, b: &RangeKeys) -> (r: bool)
    ensures
        forall|wa: Json, wb: Json|
            keys_of(*a, wa) && keys_of(*b, wb) ==> r == (watch_mode_s(wa) != watch_mode_s(wb)),
{
    !str_eq(a.mode, b.mode)
}

/// The notice of an edit that released lock state.
pub fn lock_release_event(watch_id: &str, released: usize) -> (r: String)
    ensures
        r@ == "🔓 "@ + watch_id@ + " 匹配范围变化，释放 "@ + dec_text(released as nat)
            + " 个影院锁票状态"@,
{
    let mut m = owned("🔓 ");
    append_str(&mut m, watch_id);
    append_str(&mut m, " 匹配范围变化，释放 ");
    let n = crate::text::u64_text(released as u64);
    append_str(&mut m, n.as_str());
    append_str(&mut m, " 个影院锁票状态");
    m
}

} // verus!
