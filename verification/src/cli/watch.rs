//! `tt watch list | add | show | edit | remove | enable | disable`.

use vstd::prelude::*;

use crate::cli::cinema::str_or_q;
use crate::cli::{line_reply, outs_view, text_reply, texts, Out, OutV, Reply};
use crate::config::{
    cinemas_of, cinemas_registered, config_error_text, find_by_id, i64_or_zero, index_by_id,
    is_watch_id, item_replaced, items_removed, list_of, opt_view, opt_views, parse_window_s,
    str_list_is, str_or_null, strs_view, unknown_ids, watch_added, watches_of, window_error_text,
    ConfigError, DEFAULT_LOCK_MAX_RETRIES, DEFAULT_LOCK_NUM_SEATS, MODE_INCREMENTAL, MODE_PRESALE,
};
use crate::json::{arr_field, bool_field, field, same_json, Json};
use crate::strset::sorted_list_of;
use crate::text::{append_str, owned, pad_right, padded, signed_text, str_eq, views_of};

verus! {

/// The `watch` subcommands.
pub enum WatchAction {
    List,
    Add {
        movie_id: i64,
        cinema: Vec<String>,
        date: Vec<String>,
        name: Option<String>,
        interval: Option<u64>,
        /// `presale` (the default) or `incremental`.
        mode: String,
        time_window: Option<String>,
        notify_webhook: Option<String>,
        notify_email: Option<String>,
    },
    Show { id: String },
    /// Options left out stay; an empty time window, webhook or email clears it.
    Edit {
        id: String,
        cinema: Vec<String>,
        date: Vec<String>,
        interval: Option<u64>,
        name: Option<String>,
        mode: Option<String>,
        time_window: Option<String>,
        notify_webhook: Option<String>,
        notify_email: Option<String>,
    },
    Remove { id: String },
    Enable { id: String },
    Disable { id: String },
}

pub open spec fn is_mode(m: Seq<char>) -> bool {
    m == "presale"@ || m == "incremental"@
}

pub open spec fn mode_error() -> Seq<char> {
    "--mode 只能是 presale 或 incremental"@
}

/// A row of `watch list`.
pub open spec fn watch_row(w: Json) -> Seq<char> {
    padded(str_or_q(w, "id"@), 10) + " "@ + padded(signed_text(i64_or_zero(w, "movie_id"@) as int), 10)
        + " "@ + padded(str_or_q(w, "movie_name"@), 20) + " "@ + if bool_field(w, "enabled"@) == Some(
        true,
    ) {
        "✓"@
    } else {
        "×"@
    }
}

/// The lines of `watch list`.
pub open spec fn watch_list_lines(ws: Seq<Json>) -> Seq<Seq<char>> {
    if ws.len() == 0 {
        seq!["(无 watch)"@]
    } else {
        seq![padded("ID"@, 10) + " "@ + padded("MOVIE"@, 10) + " "@ + padded("NAME"@, 20) + " ENABLED"@]
            + ws.map_values(|w: Json| watch_row(w))
    }
}

/// The dates given, when any were.
pub open spec fn dates_opt(d: Seq<Seq<char>>) -> Option<Seq<Seq<char>>> {
    if d.len() == 0 {
        None
    } else {
        Some(d)
    }
}

pub open spec fn opt_s(v: Option<String>) -> Option<Seq<char>> {
    match v {
        Some(s) => Some(s@),
        None => None,
    }
}

/// A member written by `watch edit` from an option: `null` for an empty
/// value, else the text.
pub open spec fn cleared_or_text(v: Option<Json>, s: Seq<char>) -> bool {
    if s.len() == 0 {
        v == Some(Json::Null)
    } else {
        str_or_null(v, Some(s))
    }
}

/// The options of `watch edit`, by their text.
pub struct EditOpts {
    pub cinema: Seq<Seq<char>>,
    pub date: Seq<Seq<char>>,
    pub interval: Option<u64>,
    pub name: Option<Seq<char>>,
    pub mode: Option<Seq<char>>,
    pub time_window: Option<Seq<char>>,
    pub notify_webhook: Option<Seq<char>>,
    pub notify_email: Option<Seq<char>>,
}

/// The keys `watch edit` writes for `o`.
pub open spec fn edit_writes(o: EditOpts, k: Seq<char>) -> bool {
    ||| k == "cinemas"@ && o.cinema.len() > 0
    ||| k == "dates"@ && o.date.len() > 0
    ||| k == "interval"@ && o.interval is Some
    ||| k == "movie_name"@ && o.name is Some
    ||| k == "mode"@ && o.mode is Some
    ||| k == "time_window"@ && o.time_window is Some
    ||| k == "notify_webhook"@ && o.notify_webhook is Some
    ||| k == "notify_email_to"@ && o.notify_email is Some
}

/// The watch `w1` is `w` with each option of `o` written (the dates sorted
/// without repeats), every other member kept.
pub open spec fn edit_written(w: Json, w2: Json, o: EditOpts) -> bool {
    &&& w2 is Obj
    &&& o.cinema.len() > 0 ==> str_list_is(field(w2, "cinemas"@), o.cinema)
    &&& o.date.len() > 0 ==> str_list_is(field(w2, "dates"@), sorted_list_of(o.date.to_set()))
    &&& o.interval matches Some(n) ==> field(w2, "interval"@) == Some(Json::Int(n as i128))
    &&& o.name matches Some(n) ==> str_or_null(field(w2, "movie_name"@), Some(n))
    &&& o.mode matches Some(m) ==> str_or_null(field(w2, "mode"@), Some(m))
    &&& o.time_window matches Some(t) ==> cleared_or_text(field(w2, "time_window"@), t)
    &&& o.notify_webhook matches Some(t) ==> cleared_or_text(field(w2, "notify_webhook"@), t)
    &&& o.notify_email matches Some(t) ==> cleared_or_text(field(w2, "notify_email_to"@), t)
    &&& forall|k: Seq<char>| !edit_writes(o, k) ==> field(w2, k) == field(w, k)
}

/// The watch `w` after `watch edit` with `o`: the options written, then the
/// clean-up of any edit ([`crate::tui::modal::edit_cleanup`]): the baseline
/// dropped when the match range or the mode actually changed, the lock
/// state reset when the match range actually changed.
pub open spec fn watch_edited(w: Json, w2: Json, o: EditOpts) -> bool {
    exists|w1: Json, released: usize, reset: bool|
        #![trigger edit_written(w, w1, o), crate::tui::modal::edit_cleanup(w, w1, w2, released, reset)]
        edit_written(w, w1, o) && crate::tui::modal::edit_cleanup(w, w1, w2, released, reset)
}

/// The time window option does not read.
pub open spec fn bad_window(o: EditOpts) -> bool {
    o.time_window matches Some(t) && t.len() > 0 && parse_window_s(t) is Err
}

pub open spec fn window_error_of(t: Seq<char>) -> Seq<char> {
    match parse_window_s(t) {
        Err(e) => "--time-window 格式错误: "@ + window_error_text(e),
        Ok(_) => Seq::empty(),
    }
}

/// What `watch edit` of watch `id` with `o` does to `old` and replies.
pub open spec fn edit_done(old: Json, new: Json, id: Seq<char>, o: EditOpts, res: Result<Reply, String>) -> bool {
    if o.mode matches Some(m) && !is_mode(m) {
        new == old && (res matches Err(e) && e@ == mode_error())
    } else {
        match index_by_id(watches_of(old), id) {
            None => new == old && (res matches Err(e) && e@ == "watch 不存在"@),
            Some(i) => if o.cinema.len() > 0 && arr_field(old, "cinemas"@) is None && unknown_ids(
                cinemas_of(old),
                o.cinema,
            ).len() > 0 {
                new == old && (res matches Err(e) && e@ == config_error_text(ConfigError::MissingCinemas))
            } else if bad_window(o) {
                (if o.cinema.len() > 0 {
                    cinemas_registered(old, new, o.cinema)
                } else {
                    new == old
                }) && (res matches Err(e) && e@ == window_error_of(o.time_window->0))
            } else {
                exists|mid: Json, w2: Json|
                    #![trigger item_replaced(mid, new, "watches"@, i, w2)]
                    (if o.cinema.len() > 0 {
                        cinemas_registered(old, mid, o.cinema)
                    } else {
                        mid == old
                    }) && item_replaced(mid, new, "watches"@, i, w2) && watch_edited(
                        watches_of(old)[i],
                        w2,
                        o,
                    ) && (res matches Ok(r) && text_reply(r, seq!["✓ 已更新 watch: "@ + id], true))
            },
        }
    }
}

/// The watch `w` with `enabled` set to `b`, all else kept.
pub open spec fn enabled_set(w: Json, w2: Json, b: bool) -> bool {
    &&& w2 is Obj
    &&& field(w2, "enabled"@) == Some(Json::Bool(b))
    &&& forall|k: Seq<char>| k != "enabled"@ ==> field(w2, k) == field(w, k)
}

/// What `watch` with `a` does to the configuration `old` (giving `new`)
/// and replies.
pub open spec fn dispatched(old: Json, new: Json, a: WatchAction, res: Result<Reply, String>) -> bool {
    match a {
        WatchAction::List => new == old && (res matches Ok(r) && text_reply(
            r,
            watch_list_lines(watches_of(old)),
            false,
        )),
        WatchAction::Show { id } => new == old && match find_by_id(watches_of(old), id@) {
            Some(w) => res matches Ok(r) && !r.save && r.out@.len() == 1 && (r.out@[0]@ matches OutV::Pretty(
                j,
            ) && same_json(w, j)),
            None => res matches Err(e) && e@ == "watch 不存在"@,
        },
        WatchAction::Add {
            movie_id,
            cinema,
            date,
            name,
            interval,
            mode,
            time_window,
            notify_webhook,
            notify_email,
        } => if !is_mode(mode@) {
            new == old && (res matches Err(e) && e@ == mode_error())
        } else {
            exists|wid: Seq<char>, ts: Seq<char>, added: Result<String, ConfigError>|
                #![trigger watch_added(old, new, added, wid, ts, movie_id, views_of(cinema@), dates_opt(views_of(date@)), opt_s(name), interval, mode@, opt_s(time_window), opt_s(notify_webhook), opt_s(notify_email), None, false, false, false, DEFAULT_LOCK_NUM_SEATS, DEFAULT_LOCK_MAX_RETRIES, Seq::empty())]
                is_watch_id(wid) && watch_added(
                    old,
                    new,
                    added,
                    wid,
                    ts,
                    movie_id,
                    views_of(cinema@),
                    dates_opt(views_of(date@)),
                    opt_s(name),
                    interval,
                    mode@,
                    opt_s(time_window),
                    opt_s(notify_webhook),
                    opt_s(notify_email),
                    None,
                    false,
                    false,
                    false,
                    DEFAULT_LOCK_NUM_SEATS,
                    DEFAULT_LOCK_MAX_RETRIES,
                    Seq::empty(),
                ) && match added {
                    Ok(w) => res matches Ok(r) && text_reply(r, seq!["✓ 已添加 watch: "@ + w@], true),
                    Err(e) => res matches Err(m) && m@ == config_error_text(e),
                }
        },
        WatchAction::Edit {
            id,
            cinema,
            date,
            interval,
            name,
            mode,
            time_window,
            notify_webhook,
            notify_email,
        } => edit_done(
            old,
            new,
            id@,
            EditOpts {
                cinema: views_of(cinema@),
                date: views_of(date@),
                interval,
                name: opt_s(name),
                mode: opt_s(mode),
                time_window: opt_s(time_window),
                notify_webhook: opt_s(notify_webhook),
                notify_email: opt_s(notify_email),
            },
            res,
        ),
        WatchAction::Remove { id } => exists|found: bool|
            #![trigger items_removed(old, new, "watches"@, id@, found)]
            items_removed(old, new, "watches"@, id@, found) && if found {
                res matches Ok(r) && text_reply(r, seq!["✓ 已删除: "@ + id@], true)
            } else {
                res matches Err(m) && m@ == "watch 不存在: "@ + id@
            },
        WatchAction::Enable { id } => switched(old, new, id@, true, res),
        WatchAction::Disable { id } => switched(old, new, id@, false, res),
    }
}

/// What `watch enable` (`b`) or `watch disable` of `id` does.
pub open spec fn switched(old: Json, new: Json, id: Seq<char>, b: bool, res: Result<Reply, String>) -> bool {
    match index_by_id(watches_of(old), id) {
        None => new == old && (res matches Err(m) && m@ == "watch 不存在: "@ + id),
        Some(i) => exists|w2: Json|
            #![trigger item_replaced(old, new, "watches"@, i, w2)]
            item_replaced(old, new, "watches"@, i, w2) && enabled_set(watches_of(old)[i], w2, b) && (
            res matches Ok(r) && text_reply(
                r,
                seq![
                    "✓ "@ + id + if b {
                        " 已启用"@
                    } else {
                        " 已停用"@
                    },
                ],
                true,
            )),
    }
}

fn list(cfg: &Json) -> (r: Reply)
    ensures
        text_reply(r, watch_list_lines(watches_of(*cfg)), false),
{
    let items = crate::config::list_items(cfg, "watches");
    let ghost lines = watch_list_lines(watches_of(*cfg));
    if items.len() == 0 {
        return line_reply(owned("(无 watch)"), false);
    }
    let mut out: Vec<Out> = Vec::new();
    let mut head = pad_right("ID", 10);
    append_str(&mut head, " ");
    let a = pad_right("MOVIE", 10);
    append_str(&mut head, a.as_str());
    append_str(&mut head, " ");
    let b = pad_right("NAME", 20);
    append_str(&mut head, b.as_str());
    append_str(&mut head, " ENABLED");
    let o = Out::Text(head);
    proof {
        assert(outs_view(out@) =~= texts(lines.take(0)));
        crate::cli::lemma_push_line(out@, lines, 0, o);
    }
    out.push(o);
    let mut i: usize = 0;
    while i < items.len()
        invariant
            i <= items@.len(),
            items@ == watches_of(*cfg),
            items@.len() > 0,
            lines == watch_list_lines(watches_of(*cfg)),
            outs_view(out@) == texts(lines.take(i + 1)),
        decreases items.len() - i,
    {
        let w = &items[i];
        let id = match crate::json::get_str(w, "id") {
            Some(s) => s,
            None => owned("?"),
        };
        let mid = match crate::json::get_i64(w, "movie_id") {
            Some(n) => n,
            None => 0,
        };
        let name = match crate::json::get_str(w, "movie_name") {
            Some(s) => s,
            None => owned("?"),
        };
        let en = match crate::json::get_bool(w, "enabled") {
            Some(b) => b,
            None => false,
        };
        let mut line = pad_right(id.as_str(), 10);
        append_str(&mut line, " ");
        let mt = crate::text::i64_text(mid);
        let mp = pad_right(mt.as_str(), 10);
        append_str(&mut line, mp.as_str());
        append_str(&mut line, " ");
        let np = pad_right(name.as_str(), 20);
        append_str(&mut line, np.as_str());
        append_str(&mut line, " ");
        append_str(
            &mut line,
            if en {
                "✓"
            } else {
                "×"
            },
        );
        assert(line@ == watch_row(items@[i as int]));
        assert(lines[i + 1] == watch_row(items@[i as int]));
        let o = Out::Text(line);
        proof {
            crate::cli::lemma_push_line(out@, lines, i + 1, o);
        }
        out.push(o);
        i = i + 1;
    }
    assert(lines.take(items@.len() as int + 1) =~= lines);
    Reply { out, save: false }
}

pub(crate) fn check_mode(m: &str) -> (r: bool)
    ensures
        r == is_mode(m@),
{
    str_eq(m, MODE_PRESALE) || str_eq(m, MODE_INCREMENTAL)
}

fn opt_str(v: &Option<String>) -> (r: Option<&str>)
    ensures
        opt_view(r) == opt_s(*v),
{
    match v {
        Some(s) => Some(s.as_str()),
        None => None,
    }
}

fn str_refs(v: &Vec<String>) -> (r: Vec<&str>)
    ensures
        strs_view(r@) == views_of(v@),
{
    let mut refs: Vec<&str> = Vec::new();
    let mut i: usize = 0;
    while i < v.len()
        invariant
            i <= v@.len(),
            refs@.len() == i,
            forall|m: int| 0 <= m < i ==> (#[trigger] refs@[m])@ == v@[m]@,
        decreases v.len() - i,
    {
        refs.push(v[i].as_str());
        i = i + 1;
    }
    assert(strs_view(refs@) =~= views_of(v@));
    refs
}

fn text_or_null(s: &str) -> (r: Json)
    ensures
        cleared_or_text(Some(r), s@),
{
    if s.unicode_len() == 0 {
        Json::Null
    } else {
        crate::json::jstr(s)
    }
}

fn edit(cfg: &mut Json, id: &str, o: &WatchAction) -> (r: Result<Reply, String>)
    requires
        *old(cfg) is Obj,
        o is Edit,
    ensures
        match *o {
            WatchAction::Edit {
                id: _,
                cinema,
                date,
                interval,
                name,
                mode,
                time_window,
                notify_webhook,
                notify_email,
            } => edit_done(
                *old(cfg),
                *final(cfg),
                id@,
                EditOpts {
                    cinema: views_of(cinema@),
                    date: views_of(date@),
                    interval,
                    name: opt_s(name),
                    mode: opt_s(mode),
                    time_window: opt_s(time_window),
                    notify_webhook: opt_s(notify_webhook),
                    notify_email: opt_s(notify_email),
                },
                r,
            ),
            _ => true,
        },
{
    match o {
        WatchAction::Edit {
            id: _,
            cinema,
            date,
            interval,
            name,
            mode,
            time_window,
            notify_webhook,
            notify_email,
        } => {
            let ghost ov = EditOpts {
                cinema: views_of(cinema@),
                date: views_of(date@),
                interval: *interval,
                name: opt_s(*name),
                mode: opt_s(*mode),
                time_window: opt_s(*time_window),
                notify_webhook: opt_s(*notify_webhook),
                notify_email: opt_s(*notify_email),
            };
            let ghost c0 = *cfg;
            match mode {
                Some(m) => {
                    if !check_mode(m.as_str()) {
                        return Err(owned("--mode 只能是 presale 或 incremental"));
                    }
                },
                None => {},
            }
            let i = match crate::config::index_of_id(crate::config::list_items(cfg, "watches"), id) {
                Some(i) => i,
                None => {
                    return Err(owned("watch 不存在"));
                },
            };
            proof {
                crate::config::lemma_index_by_id_bounds(watches_of(c0), id@);
            }
            if cinema.len() > 0 {
                match crate::config::register_cinema_ids(cfg, cinema) {
                    Err(e) => {
                        return Err(e.message());
                    },
                    Ok(()) => {},
                }
            }
            let ghost mid = *cfg;
            proof {
                reveal_strlit("cinemas");
                reveal_strlit("watches");
                assert("cinemas"@[0] != "watches"@[0]);
                assert(watches_of(mid) == watches_of(c0));
            }
            match time_window {
                Some(t) => {
                    if t.unicode_len() > 0 {
                        match crate::config::parse_window(t.as_str()) {
                            Err(e) => {
                                let mut m = owned("--time-window 格式错误: ");
                                let em = e.message();
                                append_str(&mut m, em.as_str());
                                return Err(m);
                            },
                            Ok(_) => {},
                        }
                    }
                },
                None => {},
            }
            assert(!bad_window(ov));
            let mut w = crate::config::swap_item(cfg, "watches", i, Json::Null);
            let ghost cmid = *cfg;
            let ghost w0 = w;
            assert(w0 == watches_of(c0)[i as int]);
            assert(w0 is Obj);
            let before = crate::config::range_keys(&w);
            if cinema.len() > 0 {
                crate::json::set_field(&mut w, "cinemas", crate::config::strings_json(cinema.as_slice()));
            }
            if date.len() > 0 {
                let sorted = crate::strset::sort_dedup(date.as_slice());
                proof {
                    crate::strset::lemma_sorted_list_of(views_of(sorted@));
                }
                crate::json::set_field(&mut w, "dates", crate::config::strings_json(sorted.as_slice()));
            }
            match interval {
                Some(n) => crate::json::set_field(&mut w, "interval", Json::Int(*n as i128)),
                None => {},
            }
            match name {
                Some(n) => crate::json::set_field(&mut w, "movie_name", crate::json::jstr(n.as_str())),
                None => {},
            }
            match mode {
                Some(m) => crate::json::set_field(&mut w, "mode", crate::json::jstr(m.as_str())),
                None => {},
            }
            match time_window {
                Some(t) => crate::json::set_field(&mut w, "time_window", text_or_null(t.as_str())),
                None => {},
            }
            match notify_webhook {
                Some(t) => crate::json::set_field(&mut w, "notify_webhook", text_or_null(t.as_str())),
                None => {},
            }
            match notify_email {
                Some(t) => crate::json::set_field(&mut w, "notify_email_to", text_or_null(t.as_str())),
                None => {},
            }
            let ghost w1 = w;
            proof {
                reveal_edit_keys();
            }
            assert(edit_written(w0, w1, ov));
            let (released, reset) = crate::tui::modal::clean_up_edit(&before, &mut w);
            let ghost w2 = w;
            assert(crate::tui::modal::edit_cleanup(w0, w1, w2, released, reset));
            assert(watch_edited(w0, w2, ov));
            crate::config::swap_item(cfg, "watches", i, w);
            proof {
                crate::config::lemma_item_replaced_twice(mid, cmid, *cfg, "watches"@, i as int, Json::Null, w2);
            }
            let mut m = owned("✓ 已更新 watch: ");
            append_str(&mut m, id);
            let res = Ok(line_reply(m, true));
            assert(item_replaced(mid, *cfg, "watches"@, i as int, w2));
            res
        },
        _ => Err(String::new()),
    }
}

proof fn reveal_edit_keys()
    ensures
        "cinemas"@ != "dates"@,
        "cinemas"@ != "interval"@,
        "cinemas"@ != "movie_name"@,
        "cinemas"@ != "mode"@,
        "cinemas"@ != "time_window"@,
        "cinemas"@ != "notify_webhook"@,
        "cinemas"@ != "notify_email_to"@,
        "cinemas"@ != "seen_shows"@,
        "dates"@ != "interval"@,
        "dates"@ != "movie_name"@,
        "dates"@ != "mode"@,
        "dates"@ != "time_window"@,
        "dates"@ != "notify_webhook"@,
        "dates"@ != "notify_email_to"@,
        "dates"@ != "seen_shows"@,
        "interval"@ != "movie_name"@,
        "interval"@ != "mode"@,
        "interval"@ != "time_window"@,
        "interval"@ != "notify_webhook"@,
        "interval"@ != "notify_email_to"@,
        "interval"@ != "seen_shows"@,
        "movie_name"@ != "mode"@,
        "movie_name"@ != "time_window"@,
        "movie_name"@ != "notify_webhook"@,
        "movie_name"@ != "notify_email_to"@,
        "movie_name"@ != "seen_shows"@,
        "mode"@ != "time_window"@,
        "mode"@ != "notify_webhook"@,
        "mode"@ != "notify_email_to"@,
        "mode"@ != "seen_shows"@,
        "time_window"@ != "notify_webhook"@,
        "time_window"@ != "notify_email_to"@,
        "time_window"@ != "seen_shows"@,
        "notify_webhook"@ != "notify_email_to"@,
        "notify_webhook"@ != "seen_shows"@,
        "notify_email_to"@ != "seen_shows"@,
{
    reveal_strlit("cinemas");
    reveal_strlit("dates");
    reveal_strlit("interval");
    reveal_strlit("movie_name");
    reveal_strlit("mode");
    reveal_strlit("time_window");
    reveal_strlit("notify_webhook");
    reveal_strlit("notify_email_to");
    reveal_strlit("seen_shows");
    assert("cinemas"@.len() != "dates"@.len());
    assert("cinemas"@.len() != "interval"@.len());
    assert("cinemas"@.len() != "movie_name"@.len());
    assert("cinemas"@.len() != "mode"@.len());
    assert("cinemas"@.len() != "time_window"@.len());
    assert("cinemas"@.len() != "notify_webhook"@.len());
    assert("cinemas"@.len() != "notify_email_to"@.len());
    assert("cinemas"@.len() != "seen_shows"@.len());
    assert("dates"@.len() != "interval"@.len());
    assert("dates"@.len() != "movie_name"@.len());
    assert("dates"@.len() != "mode"@.len());
    assert("dates"@.len() != "time_window"@.len());
    assert("dates"@.len() != "notify_webhook"@.len());
    assert("dates"@.len() != "notify_email_to"@.len());
    assert("dates"@.len() != "seen_shows"@.len());
    assert("interval"@.len() != "movie_name"@.len());
    assert("interval"@.len() != "mode"@.len());
    assert("interval"@.len() != "time_window"@.len());
    assert("interval"@.len() != "notify_webhook"@.len());
    assert("interval"@.len() != "notify_email_to"@.len());
    assert("interval"@.len() != "seen_shows"@.len());
    assert("movie_name"@.len() != "mode"@.len());
    assert("movie_name"@.len() != "time_window"@.len());
    assert("movie_name"@.len() != "notify_webhook"@.len());
    assert("movie_name"@.len() != "notify_email_to"@.len());
    assert("movie_name"@[0] != "seen_shows"@[0]);
    assert("mode"@.len() != "time_window"@.len());
    assert("mode"@.len() != "notify_webhook"@.len());
    assert("mode"@.len() != "notify_email_to"@.len());
    assert("mode"@.len() != "seen_shows"@.len());
    assert("time_window"@.len() != "notify_webhook"@.len());
    assert("time_window"@.len() != "notify_email_to"@.len());
    assert("time_window"@.len() != "seen_shows"@.len());
    assert("notify_webhook"@.len() != "notify_email_to"@.len());
    assert("notify_webhook"@.len() != "seen_shows"@.len());
    assert("notify_email_to"@.len() != "seen_shows"@.len());
}

fn add(cfg: &mut Json, a: &WatchAction) -> (r: Result<Reply, String>)
    requires
        a is Add,
    ensures
        dispatched(*old(cfg), *final(cfg), *a, r),
{
    match a {
        WatchAction::Add {
            movie_id,
            cinema,
            date,
            name,
            interval,
            mode,
            time_window,
            notify_webhook,
            notify_email,
        } => {
            if !check_mode(mode.as_str()) {
                return Err(owned("--mode 只能是 presale 或 incremental"));
            }
            let refs = str_refs(cinema);
            let dates: Option<&[String]> = if date.len() == 0 {
                None
            } else {
                Some(date.as_slice())
            };
            let no_seats: Vec<String> = Vec::new();
            let added = crate::config::add_watch(
                cfg,
                *movie_id,
                refs.as_slice(),
                dates,
                opt_str(name),
                *interval,
                mode.as_str(),
                opt_str(time_window),
                opt_str(notify_webhook),
                opt_str(notify_email),
                None,
                false,
                false,
                false,
                DEFAULT_LOCK_NUM_SEATS,
                DEFAULT_LOCK_MAX_RETRIES,
                no_seats.as_slice(),
            );
            assert(opt_views(dates) == dates_opt(views_of(date@)));
            assert(views_of(no_seats@) =~= Seq::<Seq<char>>::empty());
            let ghost g = added;
            let r = match added {
                Ok(w) => {
                    let mut m = owned("✓ 已添加 watch: ");
                    append_str(&mut m, w.as_str());
                    Ok(line_reply(m, true))
                },
                Err(e) => Err(e.message()),
            };
            assert(match g {
                Ok(w) => r matches Ok(rr) && text_reply(rr, seq!["✓ 已添加 watch: "@ + w@], true),
                Err(e) => r matches Err(m) && m@ == config_error_text(e),
            });
            r
        },
        _ => Err(String::new()),
    }
}

fn set_enabled(cfg: &mut Json, id: &str, b: bool) -> (r: Result<Reply, String>)
    ensures
        switched(*old(cfg), *final(cfg), id@, b, r),
{
    let ghost c0 = *cfg;
    let i = match crate::config::index_of_id(crate::config::list_items(cfg, "watches"), id) {
        Some(i) => i,
        None => {
            let mut m = owned("watch 不存在: ");
            append_str(&mut m, id);
            return Err(m);
        },
    };
    proof {
        crate::config::lemma_index_by_id_bounds(watches_of(c0), id@);
    }
    let mut w = crate::config::swap_item(cfg, "watches", i, Json::Null);
    let ghost cmid = *cfg;
    let ghost w0 = w;
    crate::json::set_field(&mut w, "enabled", Json::Bool(b));
    let ghost w2 = w;
    crate::config::swap_item(cfg, "watches", i, w);
    proof {
        crate::config::lemma_item_replaced_twice(c0, cmid, *cfg, "watches"@, i as int, Json::Null, w2);
    }
    let mut m = owned("✓ ");
    append_str(&mut m, id);
    append_str(
        &mut m,
        if b {
            " 已启用"
        } else {
            " 已停用"
        },
    );
    let res = Ok(line_reply(m, true));
    proof {
        assert(enabled_set(w0, w2, b));
    }
    res
}

/// Runs `watch` with `a` on the configuration `cfg`.
pub fn dispatch(cfg: &mut Json, a: WatchAction) -> (r: Result<Reply, String>)
    requires
        *old(cfg) is Obj,
    ensures
        dispatched(*old(cfg), *final(cfg), a, r),
{
    match &a {
        WatchAction::List => Ok(list(cfg)),
        WatchAction::Show { id } => match crate::config::find_watch(cfg, id.as_str()) {
            Some(w) => {
                let mut out: Vec<Out> = Vec::new();
                out.push(Out::Pretty(crate::json::clone_json(w)));
                Ok(Reply { out, save: false })
            },
            None => Err(owned("watch 不存在")),
        },
        WatchAction::Add { .. } => self::add(cfg, &a),
        WatchAction::Edit { id, .. } => edit(cfg, id.as_str(), &a),
        WatchAction::Remove { id } => {
            let found = crate::config::remove_watch(cfg, id.as_str());
            assert(items_removed(*old(cfg), *cfg, "watches"@, id@, found));
            if found {
                let mut m = owned("✓ 已删除: ");
                append_str(&mut m, id.as_str());
                Ok(line_reply(m, true))
            } else {
                let mut m = owned("watch 不存在: ");
                append_str(&mut m, id.as_str());
                Err(m)
            }
        },
        WatchAction::Enable { id } => set_enabled(cfg, id.as_str(), true),
        WatchAction::Disable { id } => set_enabled(cfg, id.as_str(), false),
    }
}

} // verus!
