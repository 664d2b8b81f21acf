//! The buttons of the menu bar and of the detail pane, and what the command
//! line's Enter and Esc do.

use vstd::prelude::*;

use crate::text::{append_str, owned, trim, trim_s};
use crate::tui::input::{Nav, NavV, DETAIL_BUTTON_COUNT, MENU_BUTTON_COUNT};
use crate::tui::{prompt_label, prompt_next, InputMode, PromptTarget};

verus! {

pub open spec fn pairs_of(v: Seq<(&'static str, &'static str)>) -> Seq<(Seq<char>, Seq<char>)> {
    v.map_values(|p: (&'static str, &'static str)| (p.0@, p.1@))
}

/// The menu bar: global actions, as (key, label).
pub open spec fn menu_table() -> Seq<(Seq<char>, Seq<char>)> {
    seq![
        ("A"@, "添加"@),
        ("D"@, "删除"@),
        ("R"@, "立即检查"@),
        ("I"@, "间隔"@),
        ("W"@, "webhook"@),
        ("Q"@, "静默"@),
        ("P"@, "手机"@),
        ("H"@, "报告"@),
        ("?"@, "帮助"@),
        ("q"@, "退出"@),
    ]
}

/// The buttons of the detail pane, acting on the selected watch.
pub open spec fn detail_table() -> Seq<(Seq<char>, Seq<char>)> {
    seq![
        ("◉"@, "启停"@),
        ("~"@, "影院"@),
        ("~"@, "日期"@),
        ("~"@, "间隔"@),
        ("r"@, "立即检查"@),
        ("-"@, "删除"@),
    ]
}

/// The buttons of the menu bar, in order.
pub fn menu_buttons() -> (r: Vec<(&'static str, &'static str)>)
    ensures
        pairs_of(r@) == menu_table(),
        r@.len() == MENU_BUTTON_COUNT,
{
    let r = vec![
        ("A", "添加"),
        ("D", "删除"),
        ("R", "立即检查"),
        ("I", "间隔"),
        ("W", "webhook"),
        ("Q", "静默"),
        ("P", "手机"),
        ("H", "报告"),
        ("?", "帮助"),
        ("q", "退出"),
    ];
    assert(pairs_of(r@) =~= menu_table());
    r
}

/// The buttons of the detail pane, in order.
pub fn detail_buttons() -> (r: Vec<(&'static str, &'static str)>)
    ensures
        pairs_of(r@) == detail_table(),
        r@.len() == DETAIL_BUTTON_COUNT,
{
    let r = vec![("◉", "启停"), ("~", "影院"), ("~", "日期"), ("~", "间隔"), ("r", "立即检查"), ("-", "删除")];
    assert(pairs_of(r@) =~= detail_table());
    r
}

/// The question asked before deleting watch `wid`.
pub open spec fn delete_question(wid: Seq<char>) -> Seq<char> {
    "删 watch "@ + wid + " ? (y/n)"@
}

fn delete_question_exec(wid: &str) -> (r: String)
    ensures
        r@ == delete_question(wid@),
{
    let mut t = owned("删 watch ");
    append_str(&mut t, wid);
    append_str(&mut t, " ? (y/n)");
    t
}

/// What a menu button asks of the program.
pub enum MenuEffect {
    Nothing,
    /// Open the form for a new watch.
    OpenAddWatch,
    /// Ask this question before deleting.
    Confirm(String),
    /// Show this status for so many seconds.
    Status(String, u64),
    /// Check every watch now; log the event and show the status.
    ForceCheckAll { event: String, status: String },
    /// Open the global settings form on this field.
    OpenGlobal(usize),
}

/// What the selected menu button does; `wid` is the selected watch. Help
/// and quit change `nav` directly.
pub fn dispatch(nav: &mut Nav, wid: Option<&str>) -> (r: MenuEffect)
    ensures
        match old(nav).action_idx {
            0 => r is OpenAddWatch && final(nav)@ == old(nav)@,
            1 => final(nav)@ == old(nav)@ && match wid {
                Some(w) => r matches MenuEffect::Confirm(t) && t@ == delete_question(w@),
                None => r matches MenuEffect::Status(t, s) && t@ == "没有选中 watch，请先在左栏选一条"@ && s == 3,
            },
            2 => final(nav)@ == old(nav)@ && (r matches MenuEffect::ForceCheckAll { event, status }
                && event@ == "· 手动触发一轮检查…"@ && status@ == "已触发立即检查"@),
            3 => r == MenuEffect::OpenGlobal(1) && final(nav)@ == old(nav)@,
            4 => r == MenuEffect::OpenGlobal(0) && final(nav)@ == old(nav)@,
            5 => r == MenuEffect::OpenGlobal(2) && final(nav)@ == old(nav)@,
            6 => r == MenuEffect::OpenGlobal(3) && final(nav)@ == old(nav)@,
            7 => r == MenuEffect::OpenGlobal(4) && final(nav)@ == old(nav)@,
            8 => r is Nothing && final(nav)@ == (NavV { show_help: !old(nav).show_help, ..old(nav)@ }),
            9 => r is Nothing && final(nav)@ == (NavV { should_quit: true, ..old(nav)@ }),
            _ => r is Nothing && final(nav)@ == old(nav)@,
        },
{
    match nav.action_idx {
        0 => MenuEffect::OpenAddWatch,
        1 => match wid {
            Some(w) => MenuEffect::Confirm(delete_question_exec(w)),
            None => MenuEffect::Status(owned("没有选中 watch，请先在左栏选一条"), 3),
        },
        2 => MenuEffect::ForceCheckAll { event: owned("· 手动触发一轮检查…"), status: owned("已触发立即检查") },
        3 => MenuEffect::OpenGlobal(1),
        4 => MenuEffect::OpenGlobal(0),
        5 => MenuEffect::OpenGlobal(2),
        6 => MenuEffect::OpenGlobal(3),
        7 => MenuEffect::OpenGlobal(4),
        8 => {
            nav.show_help = !nav.show_help;
            MenuEffect::Nothing
        },
        9 => {
            nav.should_quit = true;
            MenuEffect::Nothing
        },
        _ => MenuEffect::Nothing,
    }
}

/// What a button of the detail pane asks of the program.
pub enum DetailEffect {
    Nothing,
    Status(String, u64),
    /// Run this command line.
    Execute(String),
    /// Open the form of this watch on this field.
    OpenEdit(String, usize),
    /// Check this watch now; log the event and show the status.
    ForceCheck { wid: String, event: String, status: String },
    /// Ask this question before deleting.
    Confirm(String),
}

/// What detail button `btn_idx` does to the selected watch `wid`: switch it
/// on or off, edit its cinemas, dates or interval, check it now, delete it.
pub fn dispatch_detail_action(btn_idx: usize, wid: Option<&str>) -> (r: DetailEffect)
    ensures
        match wid {
            None => r matches DetailEffect::Status(t, s) && t@ == "没有选中 watch"@ && s == 3,
            Some(w) => match btn_idx {
                0 => r matches DetailEffect::Execute(c) && c@ == "toggle"@,
                1 => r matches DetailEffect::OpenEdit(x, f) && x@ == w@ && f == 0,
                2 => r matches DetailEffect::OpenEdit(x, f) && x@ == w@ && f == 1,
                3 => r matches DetailEffect::OpenEdit(x, f) && x@ == w@ && f == 4,
                4 => r matches DetailEffect::ForceCheck { wid: x, event, status } && x@ == w@ && event@
                    == "· 手动检查 watch "@ + w@ + " …"@ && status@ == "已触发 "@ + w@ + " 立即检查"@,
                5 => r matches DetailEffect::Confirm(t) && t@ == delete_question(w@),
                _ => r is Nothing,
            },
        },
{
    let w = match wid {
        Some(w) => w,
        None => {
            return DetailEffect::Status(owned("没有选中 watch"), 3);
        },
    };
    match btn_idx {
        0 => DetailEffect::Execute(owned("toggle")),
        1 => DetailEffect::OpenEdit(owned(w), 0),
        2 => DetailEffect::OpenEdit(owned(w), 1),
        3 => DetailEffect::OpenEdit(owned(w), 4),
        4 => {
            let mut event = owned("· 手动检查 watch ");
            append_str(&mut event, w);
            append_str(&mut event, " …");
            let mut status = owned("已触发 ");
            append_str(&mut status, w);
            append_str(&mut status, " 立即检查");
            DetailEffect::ForceCheck { wid: owned(w), event, status }
        },
        5 => DetailEffect::Confirm(delete_question_exec(w)),
        _ => DetailEffect::Nothing,
    }
}

/// The command line that deletes watch `wid`.
pub fn cmd_delete_wid(wid: &str) -> (r: String)
    ensures
        r@ == "rm "@ + wid@,
{
    let mut t = owned("rm ");
    append_str(&mut t, wid);
    t
}

/// What submitting the command line asks of the program: run a command
/// line (first), then show a status.
pub struct Submitted {
    pub execute: Option<String>,
    pub status: Option<(String, u64)>,
}

/// The command a settings step runs for the (trimmed) input `buf`: the
/// setting with its value, nothing for an empty value; the films list and
/// the self-check take no value.
pub open spec fn prompt_command(t: PromptTarget, buf: Seq<char>) -> Option<Seq<char>> {
    match t {
        PromptTarget::Films => Some("films 2"@),
        PromptTarget::Doctor => Some("doctor"@),
        _ => if buf.len() > 0 {
            Some(prompt_label(t) + " "@ + buf)
        } else {
            None
        },
    }
}

pub open spec fn next_prompt_status(t: PromptTarget) -> Seq<char> {
    "配置项：当前 = "@ + prompt_label(prompt_next(t)) + "（回车提交 → 跳下一项，Esc 退出）"@
}

/// Enter on the command line. In the settings cycle it runs the step's
/// command and opens the next step; otherwise it runs the typed line.
pub fn dispatch_prompt_submit(nav: &mut Nav) -> (r: Submitted)
    ensures
        ({
            let buf = trim_s(old(nav).input_buf@);
            match old(nav).prompt_target {
                Some(t) => {
                    &&& final(nav)@ == (NavV {
                        input_mode: InputMode::Cmd,
                        input_buf: Seq::empty(),
                        prompt_target: Some(prompt_next(t)),
                        ..old(nav)@
                    })
                    &&& match prompt_command(t, buf) {
                        Some(c) => r.execute matches Some(e) && e@ == c,
                        None => r.execute is None,
                    }
                    &&& r.status matches Some((m, s)) && m@ == next_prompt_status(t) && s == 8
                },
                None => {
                    &&& final(nav)@ == (NavV {
                        input_mode: InputMode::Normal,
                        input_buf: Seq::empty(),
                        ..old(nav)@
                    })
                    &&& if buf.len() == 0 {
                        r.execute is None && (r.status matches Some((m, s)) && m@ == "输入为空，已取消"@
                            && s == 3)
                    } else {
                        (r.execute matches Some(e) && e@ == buf) && r.status is None
                    }
                },
            }
        }),
{
    let buf = trim(nav.input_buf.as_str());
    match nav.prompt_target {
        Some(t) => {
            nav.input_buf = String::new();
            let execute = match t {
                PromptTarget::Films => Some(owned("films 2")),
                PromptTarget::Doctor => Some(owned("doctor")),
                _ => if buf.as_str().unicode_len() > 0 {
                    let mut c = owned(t.label());
                    append_str(&mut c, " ");
                    append_str(&mut c, buf.as_str());
                    Some(c)
                } else {
                    None
                },
            };
            let next = t.next();
            nav.prompt_target = Some(next);
            nav.input_mode = InputMode::Cmd;
            let mut m = owned("配置项：当前 = ");
            append_str(&mut m, next.label());
            append_str(&mut m, "（回车提交 → 跳下一项，Esc 退出）");
            Submitted { execute, status: Some((m, 8)) }
        },
        None => {
            nav.input_mode = InputMode::Normal;
            nav.input_buf = String::new();
            if buf.as_str().unicode_len() == 0 {
                Submitted { execute: None, status: Some((owned("输入为空，已取消"), 3)) }
            } else {
                Submitted { execute: Some(buf), status: None }
            }
        },
    }
}

/// Esc on the command line: leave it, and the settings cycle; the status
/// to show.
pub fn dispatch_prompt_cancel(nav: &mut Nav) -> (r: (String, u64))
    ensures
        final(nav)@ == (NavV {
            input_mode: InputMode::Normal,
            input_buf: Seq::empty(),
            prompt_target: None,
            ..old(nav)@
        }),
        r.0@ == "已取消"@,
        r.1 == 3,
{
    nav.input_mode = InputMode::Normal;
    nav.input_buf = String::new();
    nav.prompt_target = None;
    (owned("已取消"), 3)
}

} // verus!
