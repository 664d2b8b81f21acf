//! What the detail pane says of the selected watch. Laying it out and
//! colouring it belong to the program.

use vstd::prelude::*;

use crate::config::{i64_or_zero, str_or_empty};
use crate::json::{arr_field, as_str_v, bool_field, field, str_field, str_list_field, u64_field, Json};
use crate::text::{append_str, dec_text, joined, owned, signed_text, views_of};

verus! {

/// A member list whose every value is text (what reads as a map of names).
pub open spec fn all_text(o: Json) -> bool {
    o matches Json::Obj(f) && forall|i: int| 0 <= i < f@.len() ==> as_str_v(#[trigger] f@[i].1) is Some
}

/// The name of cinema `cid` in the watch's last listing: only when the
/// listing's names all are text (else none is read), and not empty.
pub open spec fn listed_name(w: Json, cid: Seq<char>) -> Option<Seq<char>> {
    match field(w, "_last_payload"@) {
        Some(p) => match field(p, "cinema_names"@) {
            Some(o) => if all_text(o) {
                match str_field(o, cid) {
                    Some(n) => if n.len() > 0 {
                        Some(n)
                    } else {
                        None
                    },
                    None => None,
                }
            } else {
                None
            },
            None => None,
        },
        None => None,
    }
}

/// The line of cinema `cid`: `  name (cid)` when its name is listed, else
/// `  cid`.
pub open spec fn cinema_line(w: Json, cid: Seq<char>) -> Seq<char> {
    match listed_name(w, cid) {
        Some(n) => "  "@ + n + " ("@ + cid + ")"@,
        None => "  "@ + cid,
    }
}

/// The detail pane's text of a watch, by its text.
pub struct DetailV {
    pub id: Seq<char>,
    pub heading: Seq<char>,
    pub cinema_lines: Seq<Seq<char>>,
    pub dates: Seq<char>,
    pub interval: Seq<char>,
    pub enabled: bool,
    pub fired: Seq<char>,
}

/// What the detail pane says of watch `w`: its id, `name (movie id)`, one
/// line per cinema (or `（无）`), the dates (`不限` when none), the interval
/// (`(默认)` when unset), whether it is on, and how many of its cinemas
/// have fired.
pub open spec fn detail_s(w: Json) -> DetailV {
    let cinemas = str_list_field(w, "cinemas"@);
    let dates = str_list_field(w, "dates"@);
    DetailV {
        id: match str_field(w, "id"@) {
            Some(s) => s,
            None => "?"@,
        },
        heading: str_or_empty(w, "movie_name"@) + " ("@ + signed_text(i64_or_zero(w, "movie_id"@) as int)
            + ")"@,
        cinema_lines: if cinemas.len() == 0 {
            seq!["  （无）"@]
        } else {
            cinemas.map_values(|cid: Seq<char>| cinema_line(w, cid))
        },
        dates: if dates.len() == 0 {
            "不限"@
        } else {
            joined(dates, ", "@)
        },
        interval: match u64_field(w, "interval"@) {
            Some(n) => dec_text(n as nat) + "s"@,
            None => "(默认)"@,
        },
        enabled: bool_field(w, "enabled"@) == Some(true),
        fired: " "@ + dec_text(
            match arr_field(w, "fired_cinemas"@) {
                Some(a) => a.len(),
                None => 0,
            },
        ) + "/"@ + dec_text(cinemas.len()),
    }
}

/// The detail pane's text of a watch.
pub struct Detail {
    pub id: String,
    pub heading: String,
    pub cinema_lines: Vec<String>,
    pub dates: String,
    pub interval: String,
    pub enabled: bool,
    pub fired: String,
}

impl View for Detail {
    type V = DetailV;

    open spec fn view(&self) -> DetailV {
        DetailV {
            id: self.id@,
            heading: self.heading@,
            cinema_lines: views_of(self.cinema_lines@),
            dates: self.dates@,
            interval: self.interval@,
            enabled: self.enabled,
            fired: self.fired@,
        }
    }
}

fn names_all_text(o: &Json) -> (r: bool)
    ensures
        r == all_text(*o),
{
    match o {
        Json::Obj(f) => {
            let mut i: usize = 0;
            while i < f.len()
                invariant
                    i <= f@.len(),
                    *o == Json::Obj(*f),
                    forall|k: int| 0 <= k < i ==> as_str_v(#[trigger] f@[k].1) is Some,
                decreases f.len() - i,
            {
                match &f[i].1 {
                    Json::Str(_) => {},
                    _ => {
                        return false;
                    },
                }
                i = i + 1;
            }
            true
        },
        _ => false,
    }
}

fn cinema_line_exec(w: &Json, cid: &str) -> (r: String)
    ensures
        r@ == cinema_line(*w, cid@),
{
    let name: Option<String> = match crate::json::get(w, "_last_payload") {
        Some(p) => match crate::json::get(p, "cinema_names") {
            Some(o) => if names_all_text(o) {
                match crate::json::get_str(o, cid) {
                    Some(n) => if n.as_str().unicode_len() > 0 {
                        Some(n)
                    } else {
                        None
                    },
                    None => None,
                }
            } else {
                None
            },
            None => None,
        },
        None => None,
    };
    let mut t = owned("  ");
    match name {
        Some(n) => {
            append_str(&mut t, n.as_str());
            append_str(&mut t, " (");
            append_str(&mut t, cid);
            append_str(&mut t, ")");
        },
        None => append_str(&mut t, cid),
    }
    t
}

/// The detail pane's text of watch `w`.
pub fn detail(w: &Json) -> (r: Detail)
    ensures
        r@ == detail_s(*w),
{
    let id = match crate::json::get_str(w, "id") {
        Some(s) => s,
        None => owned("?"),
    };
    let mut heading = match crate::json::get_str(w, "movie_name") {
        Some(s) => s,
        None => String::new(),
    };
    append_str(&mut heading, " (");
    let mid = match crate::json::get_i64(w, "movie_id") {
        Some(m) => m,
        None => 0,
    };
    let mt = crate::text::i64_text(mid);
    append_str(&mut heading, mt.as_str());
    append_str(&mut heading, ")");
    let cinemas = crate::json::get_str_list(w, "cinemas");
    assert(views_of(cinemas@) =~= str_list_field(*w, "cinemas"@));
    let mut cinema_lines: Vec<String> = Vec::new();
    if cinemas.len() == 0 {
        cinema_lines.push(owned("  （无）"));
        assert(views_of(cinema_lines@) =~= seq!["  （无）"@]);
    } else {
        let mut i: usize = 0;
        while i < cinemas.len()
            invariant
                i <= cinemas@.len(),
                views_of(cinemas@) == str_list_field(*w, "cinemas"@),
                views_of(cinema_lines@) == views_of(cinemas@).take(i as int).map_values(
                    |cid: Seq<char>| cinema_line(*w, cid),
                ),
            decreases cinemas.len() - i,
        {
            let ghost before = cinema_lines@;
            assert(views_of(before).len() == before.len());
            let line = cinema_line_exec(w, cinemas[i].as_str());
            assert(views_of(cinemas@)[i as int] == cinemas@[i as int]@);
            cinema_lines.push(line);
            proof {
                let a = views_of(cinema_lines@);
                let b = views_of(cinemas@).take(i + 1).map_values(|cid: Seq<char>| cinema_line(*w, cid));
                assert(a.len() == b.len());
                assert forall|j: int| 0 <= j < a.len() implies a[j] == b[j] by {
                    if j < before.len() {
                        assert(a[j] == views_of(before)[j]);
                    }
                }
                assert(a =~= b);
            }
            i = i + 1;
        }
        assert(views_of(cinemas@).take(cinemas@.len() as int) =~= views_of(cinemas@));
    }
    let dates_list = crate::json::get_str_list(w, "dates");
    assert(views_of(dates_list@) =~= str_list_field(*w, "dates"@));
    let dates = if dates_list.len() == 0 {
        owned("不限")
    } else {
        crate::text::join_strings(dates_list.as_slice(), ", ")
    };
    let interval = match crate::json::get_u64(w, "interval") {
        Some(n) => {
            let mut t = crate::text::u64_text(n);
            append_str(&mut t, "s");
            t
        },
        None => owned("(默认)"),
    };
    let enabled = match crate::json::get_bool(w, "enabled") {
        Some(b) => b,
        None => false,
    };
    let fired_n: usize = match crate::json::get(w, "fired_cinemas") {
        Some(Json::Arr(a)) => a.len(),
        _ => 0,
    };
    let mut fired = owned(" ");
    let fd = crate::text::u64_text(fired_n as u64);
    append_str(&mut fired, fd.as_str());
    append_str(&mut fired, "/");
    let td = crate::text::u64_text(cinemas.len() as u64);
    append_str(&mut fired, td.as_str());
    Detail { id, heading, cinema_lines, dates, interval, enabled, fired }
}

/// The number of watches switched on.
pub open spec fn active_count(ws: Seq<Json>) -> nat
    decreases ws.len(),
{
    if ws.len() == 0 {
        0
    } else {
        active_count(ws.drop_last()) + if bool_field(ws.last(), "enabled"@) == Some(true) {
            1nat
        } else {
            0nat
        }
    }
}

/// How many watches of `cfg` are on (the header's `N active`).
pub fn active_watches(cfg: &Json) -> (r: usize)
    ensures
        r == active_count(crate::config::watches_of(*cfg)),
{
    let ws = crate::config::list_watches(cfg);
    let mut n: usize = 0;
    let mut i: usize = 0;
    while i < ws.len()
        invariant
            i <= ws@.len(),
            ws@ == crate::config::watches_of(*cfg),
            n == active_count(ws@.take(i as int)),
            n <= i,
        decreases ws.len() - i,
    {
        assert(ws@.take(i + 1).drop_last() =~= ws@.take(i as int));
        match crate::json::get_bool(&ws[i], "enabled") {
            Some(true) => {
                n = n + 1;
            },
            _ => {},
        }
        i = i + 1;
    }
    assert(ws@.take(ws@.len() as int) =~= ws@);
    n
}

/// The header's name of the alerting mode of `hour` under the windows of
/// `cfg` (their defaults when unset); `normal` when a window is unreadable.
pub open spec fn header_mode_s(cfg: Json, hour: u32) -> Seq<char> {
    let q = match str_field(cfg, "quiet_window"@) {
        Some(s) => s,
        None => "01:00-06:00"@,
    };
    let p = match str_field(cfg, "phone_only_window"@) {
        Some(s) => s,
        None => "06:00-09:00"@,
    };
    match (crate::config::parse_window_s(q), crate::config::parse_window_s(p)) {
        (Ok(a), Ok(b)) => match crate::config::mode_at(a, b, hour) {
            crate::config::Mode::Quiet => "quiet"@,
            crate::config::Mode::PhoneOnly => "phone"@,
            crate::config::Mode::Normal => "normal"@,
        },
        _ => "normal"@,
    }
}

pub fn header_mode(cfg: &Json, hour: u32) -> (r: &'static str)
    ensures
        r@ == header_mode_s(*cfg, hour),
{
    let q = match crate::json::get_str(cfg, "quiet_window") {
        Some(s) => s,
        None => owned("01:00-06:00"),
    };
    let p = match crate::json::get_str(cfg, "phone_only_window") {
        Some(s) => s,
        None => owned("06:00-09:00"),
    };
    match crate::config::current_mode(q.as_str(), p.as_str(), hour) {
        Ok(crate::config::Mode::Quiet) => "quiet",
        Ok(crate::config::Mode::PhoneOnly) => "phone",
        Ok(crate::config::Mode::Normal) => "normal",
        Err(_) => "normal",
    }
}

} // verus!
