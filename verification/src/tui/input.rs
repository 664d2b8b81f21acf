//! Keys in the main view. Arrows choose, Enter goes in or acts, Esc goes
//! back one level:
//! - at the top level the arrows move between the blocks (the three panes
//!   and the menu bar), Enter goes into the block, Esc, `q` or Ctrl+C quit;
//! - inside a block the arrows choose within it, Enter acts, Esc goes back
//!   to the top level;
//! - the help overlay, a pending confirmation, an open form and the command
//!   line take keys first, in that order.

use vstd::prelude::*;

use crate::text::{is_ws, trim_s, trim_start_s};
use crate::tui::report::{confirm_lapsed, confirm_lapsed_s};
use crate::tui::{ConfirmPrompt, Focus, FocusMode, InputMode, Key, KeyCode, PromptTarget};

verus! {

/// The navigation state of the main view.
pub struct Nav {
    pub focus: Focus,
    pub focus_mode: FocusMode,
    /// The selected watch (left pane).
    pub watch_idx: usize,
    /// The scroll position of the events (right pane).
    pub event_idx: usize,
    /// The selected button of the detail pane.
    pub detail_btn_idx: usize,
    /// The selected button of the menu bar.
    pub action_idx: usize,
    pub input_mode: InputMode,
    pub input_buf: String,
    /// What the command line is asking for, in the settings cycle.
    pub prompt_target: Option<PromptTarget>,
    pub show_help: bool,
    pub should_quit: bool,
}

pub struct NavV {
    pub focus: Focus,
    pub focus_mode: FocusMode,
    pub watch_idx: usize,
    pub event_idx: usize,
    pub detail_btn_idx: usize,
    pub action_idx: usize,
    pub input_mode: InputMode,
    pub input_buf: Seq<char>,
    pub prompt_target: Option<PromptTarget>,
    pub show_help: bool,
    pub should_quit: bool,
}

impl View for Nav {
    type V = NavV;

    open spec fn view(&self) -> NavV {
        NavV {
            focus: self.focus,
            focus_mode: self.focus_mode,
            watch_idx: self.watch_idx,
            event_idx: self.event_idx,
            detail_btn_idx: self.detail_btn_idx,
            action_idx: self.action_idx,
            input_mode: self.input_mode,
            input_buf: self.input_buf@,
            prompt_target: self.prompt_target,
            show_help: self.show_help,
            should_quit: self.should_quit,
        }
    }
}

/// The number of buttons in the detail pane.
pub const DETAIL_BUTTON_COUNT: usize = 6;

/// The number of buttons in the menu bar.
pub const MENU_BUTTON_COUNT: usize = 10;

/// What the program does after a key, beyond the change of [`Nav`].
pub enum KeyEffect {
    Nothing,
    /// Drop the pending confirmation.
    DismissConfirm,
    /// Drop the pending confirmation and delete this watch, if the
    /// confirmation named one.
    ConfirmDelete(Option<String>),
    /// The key goes to the open form or picker.
    ToModal,
    /// Leave the command line.
    PromptCancel,
    /// Submit the command line.
    PromptSubmit,
    /// Clear the status line.
    ClearStatus,
    /// Act on this button of the detail pane.
    DetailAction(usize),
    /// Act on the selected button of the menu bar.
    MenuAction,
}

pub enum EffectV {
    Nothing,
    DismissConfirm,
    ConfirmDelete(Option<Seq<char>>),
    ToModal,
    PromptCancel,
    PromptSubmit,
    ClearStatus,
    DetailAction(usize),
    MenuAction,
}

pub open spec fn effect_view(e: KeyEffect) -> EffectV {
    match e {
        KeyEffect::Nothing => EffectV::Nothing,
        KeyEffect::DismissConfirm => EffectV::DismissConfirm,
        KeyEffect::ConfirmDelete(w) => EffectV::ConfirmDelete(
            match w {
                Some(s) => Some(s@),
                None => None,
            },
        ),
        KeyEffect::ToModal => EffectV::ToModal,
        KeyEffect::PromptCancel => EffectV::PromptCancel,
        KeyEffect::PromptSubmit => EffectV::PromptSubmit,
        KeyEffect::ClearStatus => EffectV::ClearStatus,
        KeyEffect::DetailAction(i) => EffectV::DetailAction(i),
        KeyEffect::MenuAction => EffectV::MenuAction,
    }
}

// ----------------------------------------------------------------------
// The watch id of a delete confirmation
// ----------------------------------------------------------------------

/// The characters of `s` up to its first white space.
pub open spec fn word_prefix(s: Seq<char>) -> Seq<char>
    decreases s.len(),
{
    if s.len() == 0 || is_ws(s[0]) {
        Seq::empty()
    } else {
        seq![s[0]] + word_prefix(s.drop_first())
    }
}

/// The first word of `s` (`split_whitespace().next()`).
pub open spec fn first_word(s: Seq<char>) -> Option<Seq<char>> {
    let t = trim_start_s(s);
    if t.len() == 0 {
        None
    } else {
        Some(word_prefix(t))
    }
}

pub open spec fn delete_prefix() -> Seq<char> {
    "删 watch "@
}

/// The watch id of a confirmation text `删 watch <id> ...`, if it is one.
pub open spec fn confirm_wid(text: Seq<char>) -> Option<Seq<char>> {
    let s = trim_s(text);
    if s.len() >= delete_prefix().len() && s.take(delete_prefix().len() as int) == delete_prefix() {
        first_word(s.skip(delete_prefix().len() as int))
    } else {
        None
    }
}

fn first_word_exec(v: &Vec<char>, from: usize) -> (r: Option<String>)
    requires
        from <= v@.len(),
    ensures
        match r {
            Some(w) => first_word(v@.skip(from as int)) == Some(w@),
            None => first_word(v@.skip(from as int)) is None,
        },
{
    let mut i = from;
    while i < v.len() && crate::text::is_ws_exec(v[i])
        invariant
            from <= i <= v@.len(),
            trim_start_s(v@.skip(from as int)) == trim_start_s(v@.skip(i as int)),
        decreases v.len() - i,
    {
        proof {
            lemma_trim_start_step(v@.skip(i as int));
            assert(v@.skip(i as int).drop_first() =~= v@.skip(i + 1));
        }
        i = i + 1;
    }
    proof {
        if i < v@.len() {
            lemma_trim_start_stop(v@.skip(i as int));
        } else {
            assert(v@.skip(i as int) =~= Seq::<char>::empty());
            lemma_trim_start_stop(v@.skip(i as int));
        }
    }
    if i == v.len() {
        return None;
    }
    let start = i;
    let mut j = i;
    while j < v.len() && !crate::text::is_ws_exec(v[j])
        invariant
            start <= j <= v@.len(),
            word_prefix(v@.skip(start as int)) == v@.subrange(start as int, j as int) + word_prefix(
                v@.skip(j as int),
            ),
        decreases v.len() - j,
    {
        proof {
            assert(v@.skip(j as int).drop_first() =~= v@.skip(j + 1));
            assert(v@.subrange(start as int, j + 1) =~= v@.subrange(start as int, j as int) + seq![v@[j as int]]);
        }
        j = j + 1;
    }
    proof {
        if j < v@.len() {
            assert(is_ws(v@.skip(j as int)[0]));
        }
        assert(word_prefix(v@.skip(j as int)) =~= Seq::<char>::empty());
        assert(v@.subrange(start as int, j as int) + Seq::<char>::empty() =~= v@.subrange(start as int, j as int));
    }
    Some(crate::text::string_of_range(v, start, j))
}

proof fn lemma_trim_start_step(s: Seq<char>)
    requires
        s.len() > 0,
        is_ws(s[0]),
    ensures
        trim_start_s(s) == trim_start_s(s.drop_first()),
{
}

proof fn lemma_trim_start_stop(s: Seq<char>)
    requires
        s.len() == 0 || !is_ws(s[0]),
    ensures
        trim_start_s(s) == s,
{
}

/// The first word of a text that starts with a word and then white space
/// is that word.
proof fn lemma_word_prefix_concat(a: Seq<char>, b: Seq<char>)
    requires
        forall|i: int| 0 <= i < a.len() ==> !is_ws(#[trigger] a[i]),
        b.len() > 0 && is_ws(b[0]),
    ensures
        word_prefix(a + b) == a,
    decreases a.len(),
{
    if a.len() == 0 {
        assert(a + b =~= b);
    } else {
        assert((a + b)[0] == a[0]);
        assert((a + b).drop_first() =~= a.drop_first() + b);
        lemma_word_prefix_concat(a.drop_first(), b);
        assert(seq![a[0]] + a.drop_first() =~= a);
    }
}

/// The watch id read back from the question asked before deleting watch
/// `wid` is `wid`, for an id that is not empty and holds no white space.
pub proof fn law_confirm_wid_roundtrip(wid: Seq<char>)
    requires
        wid.len() > 0,
        forall|i: int| 0 <= i < wid.len() ==> !is_ws(#[trigger] wid[i]),
    ensures
        confirm_wid(crate::tui::actions::delete_question(wid)) == Some(wid),
{
    reveal_strlit("删 watch ");
    reveal_strlit(" ? (y/n)");
    let p = delete_prefix();
    let q = " ? (y/n)"@;
    let text = p + wid + q;
    assert(crate::tui::actions::delete_question(wid) == text);
    assert(text[0] == '删');
    assert(trim_start_s(text) == text);
    assert(text.last() == ')');
    assert(crate::text::trim_end_s(text) == text);
    assert(trim_s(text) == text);
    assert(text.take(p.len() as int) =~= p);
    let rest = text.skip(p.len() as int);
    assert(rest =~= wid + q);
    assert(rest[0] == wid[0]);
    lemma_trim_start_stop(rest);
    assert(q[0] == ' ');
    lemma_word_prefix_concat(wid, q);
}

/// The watch id of a delete confirmation (`删 watch <id> ? (y/n)`), or none
/// for any other text.
pub fn extract_wid_from_confirm(text: &str) -> (r: Option<String>)
    ensures
        match r {
            Some(w) => confirm_wid(text@) == Some(w@),
            None => confirm_wid(text@) is None,
        },
{
    let s = crate::text::trim(text);
    let v = crate::text::chars_of(s.as_str());
    let p = crate::text::chars_of("删 watch ");
    proof {
        reveal_strlit("删 watch ");
    }
    assert(v@ == trim_s(text@));
    assert(p@ == delete_prefix());
    if v.len() < p.len() {
        return None;
    }
    let mut k: usize = 0;
    while k < p.len()
        invariant
            k <= p@.len(),
            p@.len() <= v@.len(),
            p@ == delete_prefix(),
            v@ == trim_s(text@),
            forall|m: int| 0 <= m < k ==> v@[m] == p@[m],
        decreases p.len() - k,
    {
        if v[k] != p[k] {
            assert(v@.take(p@.len() as int)[k as int] != delete_prefix()[k as int]);
            return None;
        }
        k = k + 1;
    }
    assert(v@.take(p@.len() as int) =~= delete_prefix());
    first_word_exec(&v, p.len())
}

// ----------------------------------------------------------------------
// Keys
// ----------------------------------------------------------------------

pub open spec fn key_char(k: Key, c: char) -> bool {
    k.code == KeyCode::Char(c)
}

pub open spec fn ctrl_c(k: Key) -> bool {
    key_char(k, 'c') && k.ctrl
}

pub open spec fn with_focus(n: NavV, f: Focus) -> NavV {
    NavV { focus: f, ..n }
}

pub open spec fn quitting(n: NavV) -> NavV {
    NavV { should_quit: true, ..n }
}

/// One step up, stopping at 0.
pub open spec fn step_up(i: usize) -> usize {
    if i > 0 {
        (i - 1) as usize
    } else {
        0
    }
}

/// One step down in a list of `len` items, stopping at the last.
pub open spec fn step_down(i: usize, len: usize) -> usize {
    let last: int = if len > 0 {
        len - 1
    } else {
        0
    };
    if i + 1 <= last {
        (i + 1) as usize
    } else {
        last as usize
    }
}

/// Keys at the top level.
pub open spec fn top_key_s(n: NavV, k: Key) -> NavV {
    let plain = !k.ctrl;
    if k.code == KeyCode::Esc || key_char(k, 'q') || ctrl_c(k) {
        quitting(n)
    } else if (k.code == KeyCode::Left || key_char(k, 'h')) && plain {
        with_focus(n, n.focus.prev_s())
    } else if (k.code == KeyCode::Right || key_char(k, 'l')) && plain {
        with_focus(n, n.focus.next_s())
    } else if (k.code == KeyCode::Up || key_char(k, 'k')) && plain {
        with_focus(n, n.focus.prev_s())
    } else if (k.code == KeyCode::Down || key_char(k, 'j')) && plain {
        with_focus(n, n.focus.next_s())
    } else if k.code == KeyCode::Tab {
        with_focus(n, n.focus.next_s())
    } else if k.code == KeyCode::BackTab {
        with_focus(n, n.focus.prev_s())
    } else if k.code == KeyCode::Enter {
        NavV { focus_mode: FocusMode::In, ..n }
    } else if key_char(k, '?') {
        NavV { show_help: !n.show_help, ..n }
    } else {
        n
    }
}

/// Keys inside the watches pane (`len` watches).
pub open spec fn watches_key_s(n: NavV, k: Key, len: usize) -> NavV {
    let plain = !k.ctrl;
    if (k.code == KeyCode::Up || key_char(k, 'k')) && plain {
        NavV { watch_idx: step_up(n.watch_idx), ..n }
    } else if (k.code == KeyCode::Down || key_char(k, 'j')) && plain {
        NavV { watch_idx: step_down(n.watch_idx, len), ..n }
    } else if (k.code == KeyCode::Home || key_char(k, 'g')) && plain {
        NavV { watch_idx: 0, ..n }
    } else if (k.code == KeyCode::End || key_char(k, 'G')) && plain {
        if len > 0 {
            NavV { watch_idx: (len - 1) as usize, ..n }
        } else {
            n
        }
    } else if k.code == KeyCode::Enter {
        with_focus(n, Focus::Detail)
    } else if key_char(k, 'q') || ctrl_c(k) {
        quitting(n)
    } else {
        n
    }
}

/// Keys inside the events pane (`len` events).
pub open spec fn events_key_s(n: NavV, k: Key, len: usize) -> NavV {
    let plain = !k.ctrl;
    if (k.code == KeyCode::Up || key_char(k, 'k')) && plain {
        NavV { event_idx: step_up(n.event_idx), ..n }
    } else if (k.code == KeyCode::Down || key_char(k, 'j')) && plain {
        NavV { event_idx: step_down(n.event_idx, len), ..n }
    } else if (k.code == KeyCode::Home || key_char(k, 'g')) && plain {
        NavV { event_idx: 0, ..n }
    } else if (k.code == KeyCode::End || key_char(k, 'G')) && plain {
        if len > 0 {
            NavV { event_idx: (len - 1) as usize, ..n }
        } else {
            n
        }
    } else if key_char(k, 'q') || ctrl_c(k) {
        quitting(n)
    } else {
        n
    }
}

/// The button before `i` in a row of `count`, cycling.
pub open spec fn cycle_back(i: usize, count: usize) -> usize {
    ((i + count - 1) % (count as int)) as usize
}

/// The button after `i` in a row of `count`, cycling.
pub open spec fn cycle_on(i: usize, count: usize) -> usize {
    ((i + 1) % (count as int)) as usize
}

pub open spec fn is_back_key(k: Key) -> bool {
    (k.code == KeyCode::Up || key_char(k, 'k') || k.code == KeyCode::Left || key_char(k, 'h')) && !k.ctrl
}

pub open spec fn is_on_key(k: Key) -> bool {
    (k.code == KeyCode::Down || key_char(k, 'j') || k.code == KeyCode::Right || key_char(k, 'l'))
        && !k.ctrl
}

/// Keys inside the detail pane: its buttons, and Enter acts on one.
pub open spec fn detail_key_s(n: NavV, k: Key) -> (NavV, EffectV) {
    if is_back_key(k) {
        (NavV { detail_btn_idx: cycle_back(n.detail_btn_idx, DETAIL_BUTTON_COUNT), ..n }, EffectV::Nothing)
    } else if is_on_key(k) {
        (NavV { detail_btn_idx: cycle_on(n.detail_btn_idx, DETAIL_BUTTON_COUNT), ..n }, EffectV::Nothing)
    } else if k.code == KeyCode::Enter {
        (n, EffectV::DetailAction(n.detail_btn_idx))
    } else if key_char(k, 'q') || ctrl_c(k) {
        (quitting(n), EffectV::Nothing)
    } else {
        (n, EffectV::Nothing)
    }
}

/// Keys inside the menu bar: its buttons, and Enter acts on one.
pub open spec fn menu_key_s(n: NavV, k: Key) -> (NavV, EffectV) {
    if is_back_key(k) {
        (NavV { action_idx: cycle_back(n.action_idx, MENU_BUTTON_COUNT), ..n }, EffectV::Nothing)
    } else if is_on_key(k) {
        (NavV { action_idx: cycle_on(n.action_idx, MENU_BUTTON_COUNT), ..n }, EffectV::Nothing)
    } else if k.code == KeyCode::Enter {
        (n, EffectV::MenuAction)
    } else if key_char(k, 'q') || ctrl_c(k) {
        (quitting(n), EffectV::Nothing)
    } else {
        (n, EffectV::Nothing)
    }
}

/// Keys inside a block.
pub open spec fn in_key_s(n: NavV, k: Key, watches: usize, events: usize) -> (NavV, EffectV) {
    if k.code == KeyCode::Esc {
        (NavV { focus_mode: FocusMode::Top, ..n }, EffectV::ClearStatus)
    } else if k.code == KeyCode::Tab {
        (with_focus(n, n.focus.next_s()), EffectV::Nothing)
    } else if k.code == KeyCode::BackTab {
        (with_focus(n, n.focus.prev_s()), EffectV::Nothing)
    } else if key_char(k, '?') {
        (NavV { show_help: !n.show_help, ..n }, EffectV::Nothing)
    } else {
        match n.focus {
            Focus::Watches => (watches_key_s(n, k, watches), EffectV::Nothing),
            Focus::Detail => detail_key_s(n, k),
            Focus::Events => (events_key_s(n, k, events), EffectV::Nothing),
            Focus::Actions => menu_key_s(n, k),
        }
    }
}

/// Keys on the command line.
pub open spec fn prompt_key_s(n: NavV, k: Key) -> (NavV, EffectV) {
    if k.code == KeyCode::Esc {
        (n, EffectV::PromptCancel)
    } else if k.code == KeyCode::Enter {
        (n, EffectV::PromptSubmit)
    } else if k.code == KeyCode::Backspace {
        (
            NavV {
                input_buf: if n.input_buf.len() > 0 {
                    n.input_buf.drop_last()
                } else {
                    n.input_buf
                },
                ..n
            },
            EffectV::Nothing,
        )
    } else {
        match k.code {
            KeyCode::Char(c) => if !k.ctrl {
                (NavV { input_buf: n.input_buf.push(c), ..n }, EffectV::Nothing)
            } else {
                (n, EffectV::Nothing)
            },
            _ => (n, EffectV::Nothing),
        }
    }
}

/// A key in the main view. `confirm` is the text of a pending confirmation
/// that has not lapsed; `has_modal` tells whether a form or picker is open;
/// `watches` and `events` are the lengths of the two lists.
pub open spec fn key_s(
    n: NavV,
    k: Key,
    confirm: Option<Seq<char>>,
    has_modal: bool,
    watches: usize,
    events: usize,
) -> (NavV, EffectV) {
    if n.show_help {
        if k.code == KeyCode::Esc || k.code == KeyCode::Enter || key_char(k, '?') {
            (NavV { show_help: false, ..n }, EffectV::Nothing)
        } else {
            (n, EffectV::Nothing)
        }
    } else if confirm is Some {
        if key_char(k, 'y') || key_char(k, 'Y') || k.code == KeyCode::Enter {
            (n, EffectV::ConfirmDelete(confirm_wid(confirm->0)))
        } else if key_char(k, 'n') || key_char(k, 'N') || k.code == KeyCode::Esc {
            (n, EffectV::DismissConfirm)
        } else {
            (n, EffectV::Nothing)
        }
    } else if has_modal {
        (n, EffectV::ToModal)
    } else if n.input_mode == InputMode::Cmd {
        prompt_key_s(n, k)
    } else if n.focus_mode == FocusMode::Top {
        (top_key_s(n, k), EffectV::Nothing)
    } else {
        in_key_s(n, k, watches, events)
    }
}

fn is_code(k: Key, c: KeyCode) -> (r: bool)
    ensures
        r == (k.code == c),
{
    k.code == c
}

fn is_ch(k: Key, c: char) -> (r: bool)
    ensures
        r == key_char(k, c),
{
    k.code == KeyCode::Char(c)
}

fn down_from(i: usize, len: usize) -> (r: usize)
    ensures
        r == step_down(i, len),
{
    let last = if len > 0 {
        len - 1
    } else {
        0
    };
    if i < last {
        i + 1
    } else {
        last
    }
}

fn back_in(i: usize, count: usize) -> (r: usize)
    requires
        count > 0,
    ensures
        r == cycle_back(i, count),
{
    let m = i % count;
    proof {
        let c = count as int;
        vstd::arithmetic::div_mod::lemma_mod_pos_bound(i as int, c);
        vstd::arithmetic::div_mod::lemma_add_mod_noop_right(c - 1, i as int, c);
        assert((c - 1 + i) % c == (c - 1 + m) % c);
        if m == 0 {
            vstd::arithmetic::div_mod::lemma_small_mod((c - 1) as nat, c as nat);
        } else {
            vstd::arithmetic::div_mod::lemma_mod_add_multiples_vanish(m - 1, c);
            vstd::arithmetic::div_mod::lemma_small_mod((m - 1) as nat, c as nat);
        }
    }
    if m == 0 {
        count - 1
    } else {
        m - 1
    }
}

fn on_in(i: usize, count: usize) -> (r: usize)
    requires
        count > 0,
    ensures
        r == cycle_on(i, count),
{
    let m = i % count;
    proof {
        let c = count as int;
        vstd::arithmetic::div_mod::lemma_mod_pos_bound(i as int, c);
        vstd::arithmetic::div_mod::lemma_add_mod_noop_right(1, i as int, c);
        assert((1 + i) % c == (1 + m) % c);
        if m + 1 == c {
            vstd::arithmetic::div_mod::lemma_mod_self_0(c);
        } else {
            vstd::arithmetic::div_mod::lemma_small_mod((m + 1) as nat, c as nat);
        }
    }
    if m + 1 == count {
        0
    } else {
        m + 1
    }
}

/// The confirmation that still waits for an answer: the text of `c` unless
/// it was asked more than five seconds ago (`age_nanos`).
pub open spec fn live_confirm(c: Option<ConfirmPrompt>, age_nanos: u128) -> Option<Seq<char>> {
    match c {
        Some(p) => if confirm_lapsed_s(age_nanos) {
            None
        } else {
            Some(p.text@)
        },
        None => None,
    }
}

/// The confirmation after a key with effect `e`: untouched under the help
/// overlay; dropped when it has lapsed or was answered; else kept.
pub open spec fn confirm_after(
    show_help: bool,
    c: Option<ConfirmPrompt>,
    age_nanos: u128,
    e: EffectV,
) -> Option<ConfirmPrompt> {
    if show_help {
        c
    } else if live_confirm(c, age_nanos) is None {
        None
    } else if e is ConfirmDelete || e is DismissConfirm {
        None
    } else {
        c
    }
}

/// Handles a key in the main view, with the pending confirmation `confirm`
/// asked `confirm_age_nanos` ago: changes `nav`, drops the confirmation
/// when it has lapsed or is answered, and says what else to do. A lapsed
/// confirmation takes no key: the key goes on as if none were pending.
pub fn handle_key(
    nav: &mut Nav,
    key: Key,
    confirm: &mut Option<ConfirmPrompt>,
    confirm_age_nanos: u128,
    has_modal: bool,
    watches: usize,
    events: usize,
) -> (r: KeyEffect)
    ensures
        ({
            let (n2, e) = key_s(
                old(nav)@,
                key,
                live_confirm(*old(confirm), confirm_age_nanos),
                has_modal,
                watches,
                events,
            );
            &&& final(nav)@ == n2
            &&& effect_view(r) == e
            &&& *final(confirm) == confirm_after(old(nav)@.show_help, *old(confirm), confirm_age_nanos, e)
        }),
{
    if !nav.show_help {
        let lapsed = match confirm {
            Some(_) => confirm_lapsed(confirm_age_nanos),
            None => false,
        };
        if lapsed {
            *confirm = None;
        }
    }
    let r = match confirm {
        Some(c) => main_key(nav, key, Some(c.text.as_str()), has_modal, watches, events),
        None => main_key(nav, key, None, has_modal, watches, events),
    };
    let answered = match r {
        KeyEffect::ConfirmDelete(_) => true,
        KeyEffect::DismissConfirm => true,
        _ => false,
    };
    if answered {
        *confirm = None;
    }
    r
}

fn main_key(
    nav: &mut Nav,
    key: Key,
    confirm: Option<&str>,
    has_modal: bool,
    watches: usize,
    events: usize,
) -> (r: KeyEffect)
    ensures
        ({
            let (n2, e) = key_s(
                old(nav)@,
                key,
                match confirm {
                    Some(c) => Some(c@),
                    None => None,
                },
                has_modal,
                watches,
                events,
            );
            final(nav)@ == n2 && effect_view(r) == e
        }),
{
    let plain = !key.ctrl;
    if nav.show_help {
        if is_code(key, KeyCode::Esc) || is_code(key, KeyCode::Enter) || is_ch(key, '?') {
            nav.show_help = false;
        }
        return KeyEffect::Nothing;
    }
    match confirm {
        Some(text) => {
            if is_ch(key, 'y') || is_ch(key, 'Y') || is_code(key, KeyCode::Enter) {
                return KeyEffect::ConfirmDelete(extract_wid_from_confirm(text));
            } else if is_ch(key, 'n') || is_ch(key, 'N') || is_code(key, KeyCode::Esc) {
                return KeyEffect::DismissConfirm;
            } else {
                return KeyEffect::Nothing;
            }
        },
        None => {},
    }
    if has_modal {
        return KeyEffect::ToModal;
    }
    if nav.input_mode == InputMode::Cmd {
        match key.code {
            KeyCode::Esc => {
                return KeyEffect::PromptCancel;
            },
            KeyCode::Enter => {
                return KeyEffect::PromptSubmit;
            },
            KeyCode::Backspace => {
                crate::text::pop_last(&mut nav.input_buf);
            },
            KeyCode::Char(c) => {
                if plain {
                    crate::text::push_char(&mut nav.input_buf, c);
                }
            },
            _ => {},
        }
        return KeyEffect::Nothing;
    }
    if nav.focus_mode == FocusMode::Top {
        if is_code(key, KeyCode::Esc) || is_ch(key, 'q') || (is_ch(key, 'c') && key.ctrl) {
            nav.should_quit = true;
        } else if (is_code(key, KeyCode::Left) || is_ch(key, 'h')) && plain {
            nav.focus = nav.focus.prev();
        } else if (is_code(key, KeyCode::Right) || is_ch(key, 'l')) && plain {
            nav.focus = nav.focus.next();
        } else if (is_code(key, KeyCode::Up) || is_ch(key, 'k')) && plain {
            nav.focus = nav.focus.prev();
        } else if (is_code(key, KeyCode::Down) || is_ch(key, 'j')) && plain {
            nav.focus = nav.focus.next();
        } else if is_code(key, KeyCode::Tab) {
            nav.focus = nav.focus.next();
        } else if is_code(key, KeyCode::BackTab) {
            nav.focus = nav.focus.prev();
        } else if is_code(key, KeyCode::Enter) {
            nav.focus_mode = FocusMode::In;
        } else if is_ch(key, '?') {
            nav.show_help = !nav.show_help;
        }
        return KeyEffect::Nothing;
    }
    if is_code(key, KeyCode::Esc) {
        nav.focus_mode = FocusMode::Top;
        return KeyEffect::ClearStatus;
    } else if is_code(key, KeyCode::Tab) {
        nav.focus = nav.focus.next();
        return KeyEffect::Nothing;
    } else if is_code(key, KeyCode::BackTab) {
        nav.focus = nav.focus.prev();
        return KeyEffect::Nothing;
    } else if is_ch(key, '?') {
        nav.show_help = !nav.show_help;
        return KeyEffect::Nothing;
    }
    let quit_key = is_ch(key, 'q') || (is_ch(key, 'c') && key.ctrl);
    let up = (is_code(key, KeyCode::Up) || is_ch(key, 'k')) && plain;
    let down = (is_code(key, KeyCode::Down) || is_ch(key, 'j')) && plain;
    let back = (is_code(key, KeyCode::Up) || is_ch(key, 'k') || is_code(key, KeyCode::Left) || is_ch(key, 'h'))
        && plain;
    let on = (is_code(key, KeyCode::Down) || is_ch(key, 'j') || is_code(key, KeyCode::Right) || is_ch(key, 'l'))
        && plain;
    let home = (is_code(key, KeyCode::Home) || is_ch(key, 'g')) && plain;
    let end = (is_code(key, KeyCode::End) || is_ch(key, 'G')) && plain;
    match nav.focus {
        Focus::Watches => {
            if up {
                nav.watch_idx = if nav.watch_idx > 0 {
                    nav.watch_idx - 1
                } else {
                    0
                };
            } else if down {
                nav.watch_idx = down_from(nav.watch_idx, watches);
            } else if home {
                nav.watch_idx = 0;
            } else if end {
                if watches > 0 {
                    nav.watch_idx = watches - 1;
                }
            } else if is_code(key, KeyCode::Enter) {
                nav.focus = Focus::Detail;
            } else if quit_key {
                nav.should_quit = true;
            }
            KeyEffect::Nothing
        },
        Focus::Events => {
            if up {
                nav.event_idx = if nav.event_idx > 0 {
                    nav.event_idx - 1
                } else {
                    0
                };
            } else if down {
                nav.event_idx = down_from(nav.event_idx, events);
            } else if home {
                nav.event_idx = 0;
            } else if end {
                if events > 0 {
                    nav.event_idx = events - 1;
                }
            } else if quit_key {
                nav.should_quit = true;
            }
            KeyEffect::Nothing
        },
        Focus::Detail => {
            if back {
                nav.detail_btn_idx = back_in(nav.detail_btn_idx, DETAIL_BUTTON_COUNT);
            } else if on {
                nav.detail_btn_idx = on_in(nav.detail_btn_idx, DETAIL_BUTTON_COUNT);
            } else if is_code(key, KeyCode::Enter) {
                return KeyEffect::DetailAction(nav.detail_btn_idx);
            } else if quit_key {
                nav.should_quit = true;
            }
            KeyEffect::Nothing
        },
        Focus::Actions => {
            if back {
                nav.action_idx = back_in(nav.action_idx, MENU_BUTTON_COUNT);
            } else if on {
                nav.action_idx = on_in(nav.action_idx, MENU_BUTTON_COUNT);
            } else if is_code(key, KeyCode::Enter) {
                return KeyEffect::MenuAction;
            } else if quit_key {
                nav.should_quit = true;
            }
            KeyEffect::Nothing
        },
    }
}

} // verus!
