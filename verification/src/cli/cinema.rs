//! `tt cinema list | add | remove | presets | add-preset`.

use vstd::prelude::*;

use crate::cli::{line_reply, outs_view, text_reply, texts, Out, OutV, Reply};
use crate::config::{
    add_cinema, cinema_added, cinemas_of, config_error_text, items_removed, remove_cinema,
    ConfigError,
};
use crate::json::{str_field, Json};
use crate::presets::{find_preset, get_preset, list_presets, preset_entries_view, preset_table, PresetV};
use crate::text::{append_str, owned, pad_right, padded};

verus! {

/// The `cinema` subcommands.
pub enum CinemaAction {
    List,
    Add { cinema_id: String, name: Option<String> },
    Remove { cinema_id: String },
    Presets,
    AddPreset { name: String },
}

pub open spec fn str_or_q(c: Json, k: Seq<char>) -> Seq<char> {
    match str_field(c, k) {
        Some(s) => s,
        None => "?"@,
    }
}

/// The lines of `cinema list`.
pub open spec fn cinema_list_lines(cs: Seq<Json>) -> Seq<Seq<char>> {
    if cs.len() == 0 {
        seq!["(无影院)"@]
    } else {
        seq![padded("ID"@, 10) + " NAME"@] + cs.map_values(
            |c: Json| padded(str_or_q(c, "id"@), 10) + " "@ + str_or_q(c, "name"@),
        )
    }
}

/// The lines of `cinema presets`.
pub open spec fn preset_lines(t: Seq<(Seq<char>, PresetV)>) -> Seq<Seq<char>> {
    seq![padded("名称"@, 20) + " "@ + padded("ID"@, 10) + " "@ + padded("城市"@, 6) + " 说明"@]
        + t.map_values(
        |e: (Seq<char>, PresetV)|
            padded(e.0, 20) + " "@ + padded(e.1.id, 10) + " "@ + padded(e.1.city, 6) + " "@ + e.1.note,
    )
}

pub open spec fn opt_text(v: Option<String>) -> Option<Seq<char>> {
    match v {
        Some(s) => Some(s@),
        None => None,
    }
}

/// The reply to adding cinema `cid`: `added` is what `add_cinema` returned.
pub open spec fn add_reply(
    added: Result<bool, ConfigError>,
    yes: Seq<char>,
    cid: Seq<char>,
    res: Result<Reply, String>,
) -> bool {
    match added {
        Err(e) => res matches Err(m) && m@ == config_error_text(e),
        Ok(true) => res matches Ok(r) && text_reply(r, seq![yes], true),
        Ok(false) => res matches Ok(r) && text_reply(r, seq!["已存在: "@ + cid], false),
    }
}

/// What `cinema` with `a` does to the configuration `old` (giving `new`)
/// and replies.
pub open spec fn dispatched(old: Json, new: Json, a: CinemaAction, res: Result<Reply, String>) -> bool {
    match a {
        CinemaAction::List => new == old && (res matches Ok(r) && text_reply(
            r,
            cinema_list_lines(cinemas_of(old)),
            false,
        )),
        CinemaAction::Presets => new == old && (res matches Ok(r) && text_reply(
            r,
            preset_lines(preset_table()),
            false,
        )),
        CinemaAction::Add { cinema_id, name } => exists|added: Result<bool, ConfigError>|
            #![trigger cinema_added(old, new, cinema_id@, opt_text(name), added)]
            cinema_added(old, new, cinema_id@, opt_text(name), added) && add_reply(
                added,
                "✓ 已添加影院 "@ + cinema_id@ + " ("@ + match name {
                    Some(n) => n@,
                    None => Seq::empty(),
                } + ")"@,
                cinema_id@,
                res,
            ),
        CinemaAction::Remove { cinema_id } => exists|found: bool|
            #![trigger items_removed(old, new, "cinemas"@, cinema_id@, found)]
            items_removed(old, new, "cinemas"@, cinema_id@, found) && if found {
                res matches Ok(r) && text_reply(r, seq!["✓ 已删除: "@ + cinema_id@], true)
            } else {
                res matches Err(m) && m@ == "影院不存在: "@ + cinema_id@
            },
        CinemaAction::AddPreset { name } => match find_preset(preset_table(), name@) {
            None => new == old && (res matches Err(m) && m@ == "预设不存在: "@ + name@),
            Some(p) => exists|added: Result<bool, ConfigError>|
                #![trigger cinema_added(old, new, p.id, Some(p.name), added)]
                cinema_added(old, new, p.id, Some(p.name), added) && add_reply(
                    added,
                    "✓ 已添加预设: "@ + name@ + " ("@ + p.id + ")"@,
                    p.id,
                    res,
                ),
        },
    }
}

fn str_or_q_exec(c: &Json, k: &str) -> (r: String)
    ensures
        r@ == str_or_q(*c, k@),
{
    match crate::json::get_str(c, k) {
        Some(s) => s,
        None => owned("?"),
    }
}

fn list(cfg: &Json) -> (r: Reply)
    ensures
        text_reply(r, cinema_list_lines(cinemas_of(*cfg)), false),
{
    let items = crate::config::list_items(cfg, "cinemas");
    let ghost lines = cinema_list_lines(cinemas_of(*cfg));
    if items.len() == 0 {
        return line_reply(owned("(无影院)"), false);
    }
    let mut out: Vec<Out> = Vec::new();
    let mut head = pad_right("ID", 10);
    append_str(&mut head, " NAME");
    let o = Out::Text(head);
    proof {
        assert(outs_view(out@) =~= texts(lines.take(0)));
        crate::cli::lemma_push_line(out@, lines, 0, o);
    }
    out.push(o);
    let mut i: usize = 0;
    while i < items.len()
        invariant
            i <= items@.len(),
            items@ == cinemas_of(*cfg),
            items@.len() > 0,
            lines == cinema_list_lines(cinemas_of(*cfg)),
            outs_view(out@) == texts(lines.take(i + 1)),
        decreases items.len() - i,
    {
        let id = str_or_q_exec(&items[i], "id");
        let name = str_or_q_exec(&items[i], "name");
        let mut line = pad_right(id.as_str(), 10);
        append_str(&mut line, " ");
        append_str(&mut line, name.as_str());
        assert(lines[i + 1] == padded(str_or_q(items@[i as int], "id"@), 10) + " "@ + str_or_q(items@[i as int], "name"@));
        let o = Out::Text(line);
        proof {
            crate::cli::lemma_push_line(out@, lines, i + 1, o);
        }
        out.push(o);
        i = i + 1;
    }
    assert(lines.take(items@.len() as int + 1) =~= lines);
    Reply { out, save: false }
}

fn presets_list() -> (r: Reply)
    ensures
        text_reply(r, preset_lines(preset_table()), false),
{
    let all = list_presets();
    let ghost lines = preset_lines(preset_table());
    let mut out: Vec<Out> = Vec::new();
    let mut head = pad_right("名称", 20);
    append_str(&mut head, " ");
    let c2 = pad_right("ID", 10);
    append_str(&mut head, c2.as_str());
    append_str(&mut head, " ");
    let c3 = pad_right("城市", 6);
    append_str(&mut head, c3.as_str());
    append_str(&mut head, " 说明");
    let o = Out::Text(head);
    proof {
        assert(outs_view(out@) =~= texts(lines.take(0)));
        crate::cli::lemma_push_line(out@, lines, 0, o);
    }
    out.push(o);
    let mut i: usize = 0;
    while i < all.len()
        invariant
            i <= all@.len(),
            preset_entries_view(all@) == preset_table(),
            lines == preset_lines(preset_table()),
            outs_view(out@) == texts(lines.take(i + 1)),
        decreases all.len() - i,
    {
        let (k, p) = all[i];
        let mut line = pad_right(k, 20);
        append_str(&mut line, " ");
        let a = pad_right(p.id, 10);
        append_str(&mut line, a.as_str());
        append_str(&mut line, " ");
        let b = pad_right(p.city, 6);
        append_str(&mut line, b.as_str());
        append_str(&mut line, " ");
        append_str(&mut line, p.note);
        assert(preset_entries_view(all@)[i as int] == (k@, p@));
        let o = Out::Text(line);
        proof {
            crate::cli::lemma_push_line(out@, lines, i + 1, o);
        }
        out.push(o);
        i = i + 1;
    }
    assert(lines.take(all@.len() as int + 1) =~= lines);
    Reply { out, save: false }
}

fn added_reply(added: Result<bool, ConfigError>, yes: String, cid: &str) -> (r: Result<Reply, String>)
    ensures
        add_reply(added, yes@, cid@, r),
{
    match added {
        Err(e) => Err(e.message()),
        Ok(true) => Ok(line_reply(yes, true)),
        Ok(false) => {
            let mut m = owned("已存在: ");
            append_str(&mut m, cid);
            Ok(line_reply(m, false))
        },
    }
}

/// Runs `cinema` with `a` on the configuration `cfg`.
pub fn dispatch(cfg: &mut Json, a: CinemaAction) -> (r: Result<Reply, String>)
    requires
        *old(cfg) is Obj,
    ensures
        dispatched(*old(cfg), *final(cfg), a, r),
{
    match a {
        CinemaAction::List => Ok(list(cfg)),
        CinemaAction::Presets => Ok(presets_list()),
        CinemaAction::Add { cinema_id, name } => {
            let nm: Option<&str> = match &name {
                Some(n) => Some(n.as_str()),
                None => None,
            };
            let added = add_cinema(cfg, cinema_id.as_str(), nm);
            let ghost g = added;
            assert(opt_text(name) == match nm {
                Some(n) => Some(n@),
                None => None::<Seq<char>>,
            });
            let mut yes = owned("✓ 已添加影院 ");
            append_str(&mut yes, cinema_id.as_str());
            append_str(&mut yes, " (");
            match &name {
                Some(n) => append_str(&mut yes, n.as_str()),
                None => {},
            }
            append_str(&mut yes, ")");
            let r = added_reply(added, yes, cinema_id.as_str());
            assert(cinema_added(*old(cfg), *cfg, cinema_id@, opt_text(name), g));
            assert(dispatched(*old(cfg), *cfg, CinemaAction::Add { cinema_id, name }, r));
            r
        },
        CinemaAction::Remove { cinema_id } => {
            let found = remove_cinema(cfg, cinema_id.as_str());
            assert(items_removed(*old(cfg), *cfg, "cinemas"@, cinema_id@, found));
            if found {
                let mut m = owned("✓ 已删除: ");
                append_str(&mut m, cinema_id.as_str());
                Ok(line_reply(m, true))
            } else {
                let mut m = owned("影院不存在: ");
                append_str(&mut m, cinema_id.as_str());
                Err(m)
            }
        },
        CinemaAction::AddPreset { name } => match get_preset(name.as_str()) {
            None => {
                let mut m = owned("预设不存在: ");
                append_str(&mut m, name.as_str());
                Err(m)
            },
            Some(p) => {
                let added = add_cinema(cfg, p.id, Some(p.name));
                let ghost g = added;
                let mut yes = owned("✓ 已添加预设: ");
                append_str(&mut yes, name.as_str());
                append_str(&mut yes, " (");
                append_str(&mut yes, p.id);
                append_str(&mut yes, ")");
                let r = added_reply(added, yes, p.id);
                let ghost pv = find_preset(preset_table(), name@)->0;
                assert(cinema_added(*old(cfg), *cfg, pv.id, Some(pv.name), g));
                r
            },
        },
    }
}

} // verus!
