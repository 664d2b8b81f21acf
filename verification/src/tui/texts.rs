//! The texts the terminal UI draws: titles, rows, button labels, the status
//! and input lines, and the lines of the form, search and picker overlays.
//! Colours and layout belong to the program.

use vstd::prelude::*;

use crate::json::{bool_field, str_field, Json};
use crate::text::{append_str, dec_text, owned, starts_with_s, starts_with_str, views_of};
use crate::tui::modal::{
    cinema_state_view, search_view, CinemaChoice, CinemaMode, CinemaPickerModal, CinemaState, CinemaStateV,
    ChoiceV, FieldKind, FieldV, FormField, SearchState, SearchV,
};
use crate::tui::{prompt_label, Focus, FocusMode, PromptTarget};

verus! {

// ----------------------------------------------------------------------
// Header and pane titles
// ----------------------------------------------------------------------

pub open spec fn block_label_s(f: Focus) -> Seq<char> {
    match f {
        Focus::Watches => "Watches"@,
        Focus::Detail => "Detail"@,
        Focus::Events => "Logs"@,
        Focus::Actions => "Menu"@,
    }
}

pub open spec fn level_label_s(m: FocusMode) -> Seq<char> {
    match m {
        FocusMode::Top => "TOP"@,
        FocusMode::In => "IN"@,
    }
}

/// The header's place: `[TOP] Watches`, `[IN] Menu`, ...
pub fn header_place(focus: Focus, mode: FocusMode) -> (r: String)
    ensures
        r@ == "["@ + level_label_s(mode) + "] "@ + block_label_s(focus),
{
    let mut t = owned("[");
    append_str(
        &mut t,
        match mode {
            FocusMode::Top => "TOP",
            FocusMode::In => "IN",
        },
    );
    append_str(&mut t, "] ");
    append_str(
        &mut t,
        match focus {
            Focus::Watches => "Watches",
            Focus::Detail => "Detail",
            Focus::Events => "Logs",
            Focus::Actions => "Menu",
        },
    );
    t
}

/// The header's count of watches that are on.
pub fn active_text(n: usize) -> (r: String)
    ensures
        r@ == dec_text(n as nat) + " active"@,
{
    let mut t = crate::text::u64_text(n as u64);
    append_str(&mut t, " active");
    t
}

/// The title of the watches pane: ` watches (<n>) `.
pub fn watches_title(n: usize) -> (r: String)
    ensures
        r@ == " watches ("@ + dec_text(n as nat) + ") "@,
{
    let mut t = owned(" watches (");
    let d = crate::text::u64_text(n as u64);
    append_str(&mut t, d.as_str());
    append_str(&mut t, ") ");
    t
}

/// The title of the detail pane: ` detail · <id> ` for a watch, else ` detail `.
pub fn detail_title(id: Option<&str>) -> (r: String)
    ensures
        r@ == match id {
            Some(i) => " detail · "@ + i@ + " "@,
            None => " detail "@,
        },
{
    match id {
        Some(i) => {
            let mut t = owned(" detail · ");
            append_str(&mut t, i);
            append_str(&mut t, " ");
            t
        },
        None => owned(" detail "),
    }
}

// ----------------------------------------------------------------------
// Rows and buttons
// ----------------------------------------------------------------------

/// A row of the watches pane: the watch's id (`?` without one) and whether
/// it is on (marked `×`).
pub fn watch_row(w: &Json) -> (r: (String, bool))
    ensures
        r.0@ == match str_field(*w, "id"@) {
            Some(s) => s,
            None => "?"@,
        },
        r.1 == (bool_field(*w, "enabled"@) == Some(true)),
{
    let id = match crate::json::get_str(w, "id") {
        Some(s) => s,
        None => owned("?"),
    };
    let on = match crate::json::get_bool(w, "enabled") {
        Some(b) => b,
        None => false,
    };
    (id, on)
}

pub open spec fn button_text_s(icon: Seq<char>, label: Seq<char>) -> Seq<char> {
    " ["@ + icon + "] "@ + label + " "@
}

/// A button: ` [<icon>] <label> `.
pub fn button_text(icon: &str, label: &str) -> (r: String)
    ensures
        r@ == button_text_s(icon@, label@),
{
    let mut t = owned(" [");
    append_str(&mut t, icon);
    append_str(&mut t, "] ");
    append_str(&mut t, label);
    append_str(&mut t, " ");
    t
}

/// The width of the first `n` texts together, in characters.
pub open spec fn width_of(texts: Seq<Seq<char>>, n: int) -> int
    decreases n,
{
    if n <= 0 {
        0
    } else {
        width_of(texts, n - 1) + texts[n - 1].len()
    }
}

/// How many of `texts` fit, in order, in `width` characters: the longest
/// run from the first whose widths add up to no more than `width`.
pub fn fitting(texts: &[String], width: usize) -> (r: usize)
    ensures
        r <= texts@.len(),
        width_of(views_of(texts@), r as int) <= width,
        r < texts@.len() ==> width_of(views_of(texts@), r + 1) > width,
{
    let ghost v = views_of(texts@);
    let mut used: usize = 0;
    let mut i: usize = 0;
    while i < texts.len()
        invariant
            i <= texts@.len(),
            v == views_of(texts@),
            used == width_of(v, i as int),
            used <= width,
        decreases texts.len() - i,
    {
        let w = texts[i].as_str().unicode_len();
        assert(v[i as int] == texts@[i as int]@);
        if w > width - used {
            return i;
        }
        used = used + w;
        i = i + 1;
    }
    i
}

// ----------------------------------------------------------------------
// Status and input lines
// ----------------------------------------------------------------------

/// The status line: the message while it is live, else the key help.
pub fn status_text(msg: Option<&str>, live: bool) -> (r: String)
    ensures
        r@ == match msg {
            Some(m) => if live {
                m@
            } else {
                crate::tui::tips_s()
            },
            None => crate::tui::tips_s(),
        },
{
    match msg {
        Some(m) => if live {
            owned(m)
        } else {
            crate::tui::default_tips()
        },
        None => crate::tui::default_tips(),
    }
}

/// The command words whose typed line names its prompt.
pub open spec fn prompt_words() -> Seq<Seq<char>> {
    seq!["add"@, "edit"@, "interval"@, "webhook"@, "quiet"@, "phone"@, "report"@]
}

/// The first of `words` that `buf` starts with, followed by a space.
pub open spec fn first_word_of(buf: Seq<char>, words: Seq<Seq<char>>) -> Option<Seq<char>>
    decreases words.len(),
{
    if words.len() == 0 {
        None
    } else if starts_with_s(buf, words[0] + " "@) {
        Some(words[0])
    } else {
        first_word_of(buf, words.drop_first())
    }
}

/// The prompt of the input line: the setting being asked for, else the
/// command typed so far, else `input`.
pub open spec fn input_prefix_s(target: Option<PromptTarget>, buf: Seq<char>) -> Seq<char> {
    match target {
        Some(t) => prompt_label(t) + "> "@,
        None => match first_word_of(buf, prompt_words()) {
            Some(w) => w + "> "@,
            None => "input> "@,
        },
    }
}

/// The prompt of the input line.
pub fn input_prefix(target: Option<PromptTarget>, buf: &str) -> (r: String)
    ensures
        r@ == input_prefix_s(target, buf@),
{
    match target {
        Some(t) => {
            let mut p = owned(t.label());
            append_str(&mut p, "> ");
            p
        },
        None => {
            let words = ["add", "edit", "interval", "webhook", "quiet", "phone", "report"];
            let ghost ws = prompt_words();
            assert(ws.len() == 7);
            assert(ws.skip(0) =~= ws);
            let mut i: usize = 0;
            while i < 7
                invariant
                    0 <= i <= 7,
                    target is None,
                    ws == prompt_words(),
                    words@.len() == 7,
                    forall|k: int| 0 <= k < 7 ==> (#[trigger] words@[k])@ == ws[k],
                    first_word_of(buf@, ws) == first_word_of(buf@, ws.skip(i as int)),
                decreases 7 - i,
            {
                let wi: &str = words[i];
                let mut w = owned(wi);
                append_str(&mut w, " ");
                assert(ws.skip(i as int).drop_first() =~= ws.skip(i + 1));
                assert(ws.skip(i as int)[0] == ws[i as int]);
                assert(w@ == ws[i as int] + " "@);
                if starts_with_str(buf, w.as_str()) {
                    let mut p = owned(wi);
                    append_str(&mut p, "> ");
                    return p;
                }
                i = i + 1;
            }
            assert(ws.skip(7) =~= Seq::<Seq<char>>::empty());
            owned("input> ")
        },
    }
}

// ----------------------------------------------------------------------
// Overlays
// ----------------------------------------------------------------------

/// A form line: `> ` on the focused line, then `[label]` for a button,
/// else `label: value`, with `(空)` for an empty value that is not being
/// typed into.
pub open spec fn form_line_s(f: FieldV, focused: bool, editing: bool) -> Seq<char> {
    (if focused {
        "> "@
    } else {
        "  "@
    }) + if f.kind == FieldKind::Submit || f.kind == FieldKind::Cancel {
        "["@ + f.label + "]"@
    } else {
        f.label + ": "@ + if f.value.len() > 0 {
            f.value
        } else if focused && editing {
            Seq::empty()
        } else {
            "(空)"@
        }
    }
}

pub fn form_line(f: &FormField, focused: bool, editing: bool) -> (r: String)
    ensures
        r@ == form_line_s(f@, focused, editing),
{
    let mut t = owned(
        if focused {
            "> "
        } else {
            "  "
        },
    );
    if f.kind == FieldKind::Submit || f.kind == FieldKind::Cancel {
        append_str(&mut t, "[");
        append_str(&mut t, f.label.as_str());
        append_str(&mut t, "]");
    } else {
        append_str(&mut t, f.label.as_str());
        append_str(&mut t, ": ");
        if f.value.as_str().unicode_len() > 0 {
            append_str(&mut t, f.value.as_str());
        } else if !(focused && editing) {
            append_str(&mut t, "(空)");
        }
    }
    t
}

/// The state line of the movie search.
pub open spec fn search_status_s(s: SearchV) -> Seq<char> {
    match s {
        SearchV::Loading => "加载中…（Esc 返回）"@,
        SearchV::Ready(l) => "共 "@ + dec_text(l.len()) + " 部，↑↓ 选择，Enter 回填"@,
        SearchV::Error(e) => "加载失败："@ + e + "（r 重试）"@,
    }
}

pub fn search_status(s: &SearchState) -> (r: String)
    ensures
        r@ == search_status_s(search_view(*s)),
{
    match s {
        SearchState::Loading(_) => owned("加载中…（Esc 返回）"),
        SearchState::Ready(l) => {
            let mut t = owned("共 ");
            let n = crate::text::u64_text(l.len() as u64);
            append_str(&mut t, n.as_str());
            append_str(&mut t, " 部，↑↓ 选择，Enter 回填");
            assert(crate::tui::modal::pairs_view(l@).len() == l@.len());
            t
        },
        SearchState::Error(e) => {
            let mut t = owned("加载失败：");
            append_str(&mut t, e.as_str());
            append_str(&mut t, "（r 重试）");
            t
        },
    }
}

/// A cinema of the picker: its tick (`[x]` or `[ ]`, and ` ★` when built
/// in), and its name with the id (the id alone when it has no name).
pub open spec fn choice_texts_s(c: ChoiceV) -> (Seq<char>, Seq<char>) {
    (
        (if c.selected {
            "[x]"@
        } else {
            "[ ]"@
        }) + (if c.builtin {
            " ★"@
        } else {
            Seq::empty()
        }) + " "@,
        if c.name.len() == 0 {
            c.id
        } else {
            c.name + " ("@ + c.id + ")"@
        },
    )
}

pub fn choice_texts(c: &CinemaChoice) -> (r: (String, String))
    ensures
        (r.0@, r.1@) == choice_texts_s(c@),
{
    let mut mark = owned(
        if c.selected {
            "[x]"
        } else {
            "[ ]"
        },
    );
    if c.builtin {
        append_str(&mut mark, " ★");
    }
    append_str(&mut mark, " ");
    let name = if c.name.as_str().unicode_len() == 0 {
        c.id.clone()
    } else {
        let mut n = c.name.clone();
        append_str(&mut n, " (");
        append_str(&mut n, c.id.as_str());
        append_str(&mut n, ")");
        n
    };
    (mark, name)
}

/// The id line of the picker: its label, and what was typed (with the
/// cursor while typing).
pub open spec fn add_line_s(mode: CinemaMode, typed: Seq<char>) -> (Seq<char>, Seq<char>) {
    if mode == CinemaMode::AddInput {
        ("> 添加影院 ID: "@, typed + "▮"@)
    } else {
        ("  添加影院 ID: "@, typed)
    }
}

pub fn add_line(p: &CinemaPickerModal) -> (r: (String, String))
    ensures
        (r.0@, r.1@) == add_line_s(p.mode, p.add_input@),
{
    if p.mode == CinemaMode::AddInput {
        let mut v = p.add_input.clone();
        append_str(&mut v, "▮");
        (owned("> 添加影院 ID: "), v)
    } else {
        (owned("  添加影院 ID: "), p.add_input.clone())
    }
}

/// The state line of the cinema picker.
pub open spec fn picker_status_s(s: CinemaStateV) -> Seq<char> {
    match s {
        CinemaStateV::Ready => "Enter 确定 · Tab 输入影院 ID"@,
        CinemaStateV::Loading => "加载中…（Esc 返回列表）"@,
        CinemaStateV::Error(e) => "加载失败："@ + e + "（Enter 重试）"@,
    }
}

pub fn picker_status(s: &CinemaState) -> (r: String)
    ensures
        r@ == picker_status_s(cinema_state_view(*s)),
{
    match s {
        CinemaState::Ready => owned("Enter 确定 · Tab 输入影院 ID"),
        CinemaState::Loading(_) => owned("加载中…（Esc 返回列表）"),
        CinemaState::Error(e) => {
            let mut t = owned("加载失败：");
            append_str(&mut t, e.as_str());
            append_str(&mut t, "（Enter 重试）");
            t
        },
    }
}

} // verus!
