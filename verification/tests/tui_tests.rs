use std::sync::mpsc;

use ticket_tracker::config::find_cinema;
use ticket_tracker::json::{get_str, Json};
use ticket_tracker::tui::actions::{
    cmd_delete_wid, detail_buttons, dispatch, dispatch_detail_action, dispatch_prompt_cancel,
    dispatch_prompt_submit, menu_buttons, DetailEffect, MenuEffect,
};
use ticket_tracker::tui::cmd::{execute, execute_parts, External};
use ticket_tracker::tui::input::{extract_wid_from_confirm, handle_key, KeyEffect, Nav};
use ticket_tracker::tui::modal::{
    cinema_key, cinema_lookup_done, form_key, movie_key, open_cinema_picker, open_movie_search,
    pump_search, search_after_poll, CinemaMode, CinemaOutcome, CinemaState, FieldKind, FormMode,
    FormModal, FormOutcome, MovieOutcome, Polled, SearchState,
};
use ticket_tracker::tui::panes::detail;
use ticket_tracker::tui::notice::{split_commas, split_words, test_notice, test_notify_summary};
use ticket_tracker::tui::{ConfirmPrompt, Focus, FocusMode, InputMode, Key, KeyCode, PromptTarget};

fn conv(v: &serde_json::Value) -> Json {
    match v {
        serde_json::Value::Null => Json::Null,
        serde_json::Value::Bool(b) => Json::Bool(*b),
        serde_json::Value::Number(n) => {
            if let Some(i) = n.as_i64() {
                Json::Int(i as i128)
            } else if let Some(u) = n.as_u64() {
                Json::Int(u as i128)
            } else {
                Json::Frac(n.to_string())
            }
        }
        serde_json::Value::String(s) => Json::Str(s.clone()),
        serde_json::Value::Array(a) => Json::Arr(a.iter().map(conv).collect()),
        serde_json::Value::Object(o) => {
            Json::Obj(o.iter().map(|(k, v)| (k.clone(), conv(v))).collect())
        }
    }
}

fn j(text: &str) -> Json {
    conv(&serde_json::from_str::<serde_json::Value>(text).unwrap())
}

fn key(code: KeyCode) -> Key {
    Key { code, ctrl: false }
}

fn ch(c: char) -> Key {
    key(KeyCode::Char(c))
}

fn cfg_with_watch() -> Json {
    j(r#"{
        "cinemas": [
            {"id": "37534", "name": "MOViE MOViE 影城", "builtin": true},
            {"id": "42020", "name": "影城 42020", "builtin": false}
        ],
        "watches": [
            {"id": "w_1", "movie_id": 1545360, "movie_name": "某电影", "cinemas": ["37534", "42020"],
             "dates": ["2026-08-31"], "time_window": "19:00-22:00", "mode": "incremental",
             "interval": 60, "notify_webhook": "https://hook", "notify_email_to": "a@b.com",
             "xhs_group": "", "wechat_notify": true, "enabled": true,
             "_last_payload": {"cinema_names": {"42020": "新影城"}}}
        ]
    }"#)
}

fn stay(o: FormOutcome) -> FormModal {
    match o {
        FormOutcome::Stay(f) => f,
        _ => panic!("form closed"),
    }
}

// ----------------------------------------------------------------------
// Forms
// ----------------------------------------------------------------------

#[test]
fn form_arrows_wrap_around() {
    let mut cfg = cfg_with_watch();
    let f = FormModal::add_watch();
    let n = f.fields.len();
    let f = stay(form_key(&mut cfg, f, key(KeyCode::Up)));
    assert_eq!(f.focus, n - 1);
    let f = stay(form_key(&mut cfg, f, ch('j')));
    assert_eq!(f.focus, 0);
}

#[test]
fn form_typing_and_escape_restores() {
    let mut cfg = cfg_with_watch();
    let f = FormModal::edit_watch(&cfg, "w_1", 1).unwrap();
    assert_eq!(f.fields[1].value, "2026-08-31");
    let f = stay(form_key(&mut cfg, f, key(KeyCode::Enter)));
    assert!(matches!(f.mode, FormMode::Editing { .. }));
    let f = stay(form_key(&mut cfg, f, key(KeyCode::Backspace)));
    let f = stay(form_key(&mut cfg, f, ch('9')));
    assert_eq!(f.fields[1].value, "2026-08-39");
    let f = stay(form_key(&mut cfg, f, key(KeyCode::Esc)));
    assert_eq!(f.fields[1].value, "2026-08-31");
    assert!(matches!(f.mode, FormMode::Navigation));
}

#[test]
fn form_enter_toggles_mode_and_wechat() {
    let mut cfg = cfg_with_watch();
    let f = FormModal::edit_watch(&cfg, "w_1", 3).unwrap();
    assert_eq!(f.fields[3].value, "增场监控");
    let f = stay(form_key(&mut cfg, f, key(KeyCode::Enter)));
    assert_eq!(f.fields[3].value, "开票提醒");
    let f = stay(form_key(&mut cfg, f, key(KeyCode::Down)));
    let f = stay(form_key(&mut cfg, f, ch('j')));
    let f = stay(form_key(&mut cfg, f, ch('j')));
    let f = stay(form_key(&mut cfg, f, ch('j')));
    let f = stay(form_key(&mut cfg, f, ch('j')));
    assert_eq!(f.fields[f.focus].kind, FieldKind::WechatNotify);
    assert_eq!(f.fields[8].value, "开");
    let f = stay(form_key(&mut cfg, f, key(KeyCode::Enter)));
    assert_eq!(f.fields[8].value, "关");
}

#[test]
fn form_escape_closes_and_special_fields_open_pickers() {
    let mut cfg = cfg_with_watch();
    let f = FormModal::add_watch();
    assert!(matches!(form_key(&mut cfg, f, key(KeyCode::Esc)), FormOutcome::Close));
    let f = FormModal::add_watch();
    assert!(matches!(form_key(&mut cfg, f, key(KeyCode::Enter)), FormOutcome::SearchMovies(_)));
    let f = FormModal::add_watch();
    let f = stay(form_key(&mut cfg, f, ch('i')));
    assert!(matches!(f.mode, FormMode::Editing { .. }));
    let f = FormModal::add_watch();
    let f = stay(form_key(&mut cfg, f, key(KeyCode::Down)));
    match form_key(&mut cfg, f, key(KeyCode::Enter)) {
        FormOutcome::PickCinemas(c) => assert_eq!(c.cinemas.len(), 2),
        _ => panic!("expected the cinema picker"),
    }
}

#[test]
fn form_submit_reports_error_and_stays() {
    let mut cfg = cfg_with_watch();
    let mut f = FormModal::add_watch();
    f.focus = f.fields.len() - 2;
    let f = stay(form_key(&mut cfg, f, key(KeyCode::Enter)));
    assert!(f.error.is_some());
    assert_eq!(ticket_tracker::config::list_watches(&cfg).len(), 1);
}

#[test]
fn form_submit_adds_a_watch() {
    let mut cfg = cfg_with_watch();
    let mut f = FormModal::add_watch();
    f.fields[0].value = "1545360".to_string();
    f.fields[1].value = "37534".to_string();
    f.focus = f.fields.len() - 2;
    match form_key(&mut cfg, f, key(KeyCode::Enter)) {
        FormOutcome::Saved { status, event } => {
            assert!(status.contains("w_"));
            assert!(event.is_none());
        }
        _ => panic!("expected the form to save"),
    }
    assert_eq!(ticket_tracker::config::list_watches(&cfg).len(), 2);
}

#[test]
fn forms_carry_imax_and_auto_lock_switches() {
    let mut cfg = cfg_with_watch();
    let mut f = FormModal::add_watch();
    let labels: Vec<&str> = f.fields.iter().map(|x| x.label.as_str()).collect();
    assert!(labels.contains(&"只看IMAX") && labels.contains(&"自动锁票"));
    f.fields[0].value = "7".to_string();
    f.fields[1].value = "37534".to_string();
    f.fields[11].value = "开".to_string();
    f.fields[12].value = "开".to_string();
    f.focus = f.fields.len() - 2;
    assert!(matches!(form_key(&mut cfg, f, key(KeyCode::Enter)), FormOutcome::Saved { .. }));
    let w = &ticket_tracker::config::list_watches(&cfg)[1];
    assert_eq!(ticket_tracker::json::get_bool(w, "imax_only"), Some(true));
    assert_eq!(ticket_tracker::json::get_bool(w, "auto_lock"), Some(true));
    // The edit form shows and writes them; turning IMAX on changes the match range.
    let mut f = FormModal::edit_watch(&cfg, "w_1", 9).unwrap();
    assert_eq!(f.fields[9].label, "只看IMAX");
    assert_eq!(f.fields[9].value, "关");
    assert_eq!(f.fields[10].label, "自动锁票");
    f = stay(form_key(&mut cfg, f, key(KeyCode::Enter)));
    assert_eq!(f.fields[9].value, "开");
    f.focus = f.fields.len() - 2;
    assert!(matches!(form_key(&mut cfg, f, key(KeyCode::Enter)), FormOutcome::Saved { .. }));
    let w = ticket_tracker::config::find_watch(&cfg, "w_1").unwrap();
    assert_eq!(ticket_tracker::json::get_bool(w, "imax_only"), Some(true));
    assert_eq!(ticket_tracker::json::get_bool(w, "auto_lock"), Some(false));
}

#[test]
fn global_form_switches_headless_locking() {
    let mut cfg = cfg_with_watch();
    let mut f = FormModal::global_settings(&cfg, 5);
    assert_eq!(f.fields[5].label, "无头");
    assert_eq!(f.fields[5].value, "开");
    f.fields[1].value = "90".to_string();
    f.fields[4].value = "3600".to_string();
    f = stay(form_key(&mut cfg, f, key(KeyCode::Enter)));
    assert_eq!(f.fields[5].value, "关");
    f.focus = f.fields.len() - 2;
    assert!(matches!(form_key(&mut cfg, f, key(KeyCode::Enter)), FormOutcome::Saved { .. }));
    assert_eq!(ticket_tracker::json::get_bool(&cfg, "lock_headless"), Some(false));
}

// ----------------------------------------------------------------------
// Cinema picker
// ----------------------------------------------------------------------

#[test]
fn picker_ticks_typed_ids_and_adds_unknown_ones() {
    let cfg = cfg_with_watch();
    let mut f = FormModal::add_watch();
    f.fields[1].value = "42020, 99999 99999".to_string();
    let c = open_cinema_picker(&cfg, f);
    let ids: Vec<(&str, bool)> = c.cinemas.iter().map(|x| (x.id.as_str(), x.selected)).collect();
    assert_eq!(ids, vec![("37534", false), ("42020", true), ("99999", true)]);
    assert_eq!(c.selected, 0);
    assert_eq!(c.mode, CinemaMode::List);
}

#[test]
fn picker_space_ticks_and_enter_writes_ids_back() {
    let mut cfg = cfg_with_watch();
    let f = FormModal::add_watch();
    let c = open_cinema_picker(&cfg, f);
    let c = match cinema_key(&mut cfg, c, ch(' ')) {
        CinemaOutcome::Stay(c) => c,
        _ => panic!(),
    };
    assert!(c.cinemas[0].selected);
    let c = match cinema_key(&mut cfg, c, ch('j')) {
        CinemaOutcome::Stay(c) => c,
        _ => panic!(),
    };
    let c = match cinema_key(&mut cfg, c, ch(' ')) {
        CinemaOutcome::Stay(c) => c,
        _ => panic!(),
    };
    match cinema_key(&mut cfg, c, key(KeyCode::Enter)) {
        CinemaOutcome::Back(f) => assert_eq!(f.fields[1].value, "37534 42020"),
        _ => panic!(),
    }
}

#[test]
fn picker_refuses_to_delete_builtin_and_deletes_saved() {
    let mut cfg = cfg_with_watch();
    let c = open_cinema_picker(&cfg, FormModal::add_watch());
    let c = match cinema_key(&mut cfg, c, ch('d')) {
        CinemaOutcome::Stay(c) => c,
        _ => panic!(),
    };
    assert!(matches!(&c.state, CinemaState::Error(e) if e == "内置影院不能删除"));
    let c = match cinema_key(&mut cfg, c, key(KeyCode::Down)) {
        CinemaOutcome::Stay(c) => c,
        _ => panic!(),
    };
    match cinema_key(&mut cfg, c, key(KeyCode::Delete)) {
        CinemaOutcome::Changed(c) => {
            assert_eq!(c.cinemas.len(), 1);
            assert_eq!(c.selected, 0);
        }
        _ => panic!("expected a change"),
    }
    assert!(find_cinema(&cfg, "42020").is_none());
}

#[test]
fn picker_typed_id_is_looked_up_trimmed() {
    let mut cfg = cfg_with_watch();
    let c = open_cinema_picker(&cfg, FormModal::add_watch());
    let mut c = match cinema_key(&mut cfg, c, key(KeyCode::Tab)) {
        CinemaOutcome::Stay(c) => c,
        _ => panic!(),
    };
    assert_eq!(c.mode, CinemaMode::AddInput);
    for k in [ch(' '), ch('1'), ch('2'), ch('x'), key(KeyCode::Backspace), ch(' ')] {
        c = match cinema_key(&mut cfg, c, k) {
            CinemaOutcome::Stay(c) => c,
            _ => panic!(),
        };
    }
    assert_eq!(c.add_input, " 12 ");
    match cinema_key(&mut cfg, c, key(KeyCode::Enter)) {
        CinemaOutcome::Lookup(_, id) => assert_eq!(id, "12"),
        _ => panic!("expected a lookup"),
    }
}

#[test]
fn lookup_reply_saves_and_ticks_the_cinema() {
    let mut cfg = cfg_with_watch();
    let mut c = open_cinema_picker(&cfg, FormModal::add_watch());
    c.mode = CinemaMode::AddInput;
    c.add_input = "555".to_string();
    match cinema_lookup_done(&mut cfg, c, Ok(("555".to_string(), "新开影城".to_string()))) {
        CinemaOutcome::Changed(c) => {
            let last = c.cinemas.last().unwrap();
            assert_eq!((last.id.as_str(), last.name.as_str(), last.selected), ("555", "新开影城", true));
            assert_eq!(c.add_input, "");
            assert_eq!(c.mode, CinemaMode::List);
        }
        _ => panic!("expected a change"),
    }
    let saved = find_cinema(&cfg, "555").unwrap();
    assert_eq!(get_str(saved, "name").as_deref(), Some("新开影城"));
}

#[test]
fn lookup_of_known_cinema_ticks_without_change_and_errors_show() {
    let mut cfg = cfg_with_watch();
    let c = open_cinema_picker(&cfg, FormModal::add_watch());
    let c = match cinema_lookup_done(&mut cfg, c, Ok(("42020".to_string(), String::new()))) {
        CinemaOutcome::Stay(c) => c,
        _ => panic!("known cinema needs no save"),
    };
    assert!(c.cinemas[1].selected);
    assert_eq!(c.cinemas[1].name, "影城 42020");
    match cinema_lookup_done(&mut cfg, c, Err("网络错误".to_string())) {
        CinemaOutcome::Stay(c) => assert!(matches!(&c.state, CinemaState::Error(e) if e == "网络错误")),
        _ => panic!(),
    }
}

// ----------------------------------------------------------------------
// Movie search
// ----------------------------------------------------------------------

#[test]
fn movie_search_switches_lists_and_fills_the_form() {
    let (_tx, rx) = mpsc::channel();
    let m = open_movie_search(FormModal::add_watch(), rx);
    assert_eq!(m.show_type, 1);
    let mut m = match movie_key(m, key(KeyCode::Right)) {
        MovieOutcome::Search(m) => m,
        _ => panic!("expected a new search"),
    };
    assert_eq!((m.show_type, m.selected), (2, 0));
    m.state = SearchState::Ready(vec![
        ("1".to_string(), "甲".to_string()),
        ("2".to_string(), "乙".to_string()),
    ]);
    let m = match movie_key(m, ch('j')) {
        MovieOutcome::Stay(m) => m,
        _ => panic!(),
    };
    let m = match movie_key(m, ch('j')) {
        MovieOutcome::Stay(m) => m,
        _ => panic!(),
    };
    assert_eq!(m.selected, 1);
    match movie_key(m, key(KeyCode::Enter)) {
        MovieOutcome::Back(f) => {
            assert_eq!(f.fields[0].value, "2");
            assert_eq!(f.fields[5].value, "乙");
        }
        _ => panic!(),
    }
}

#[test]
fn search_state_follows_the_reply() {
    let (tx, rx) = mpsc::channel::<Result<Vec<(String, String)>, String>>();
    let s = search_after_poll(rx, Polled::Got(Err("超时".to_string())));
    assert!(matches!(s, SearchState::Error(e) if e == "超时"));
    let (_tx2, rx2) = mpsc::channel::<Result<Vec<(String, String)>, String>>();
    assert!(matches!(search_after_poll(rx2, Polled::Empty), SearchState::Loading(_)));
    let (_tx3, rx3) = mpsc::channel::<Result<Vec<(String, String)>, String>>();
    let s = search_after_poll(rx3, Polled::Gone);
    assert!(matches!(s, SearchState::Error(e) if e == "请求线程中断"));
    drop(tx);
    let (tx4, rx4) = mpsc::channel();
    tx4.send(Ok(vec![("9".to_string(), "丙".to_string())])).unwrap();
    let s = pump_search(SearchState::Loading(rx4));
    assert!(matches!(s, SearchState::Ready(l) if l.len() == 1));
}

// ----------------------------------------------------------------------
// Navigation
// ----------------------------------------------------------------------

fn nav() -> Nav {
    Nav {
        focus: Focus::Watches,
        focus_mode: FocusMode::Top,
        watch_idx: 0,
        event_idx: 0,
        detail_btn_idx: 0,
        action_idx: 0,
        input_mode: InputMode::Normal,
        input_buf: String::new(),
        prompt_target: None,
        show_help: false,
        should_quit: false,
    }
}

#[test]
fn top_level_arrows_cycle_the_four_blocks() {
    let mut n = nav();
    for expected in [Focus::Detail, Focus::Events, Focus::Actions, Focus::Watches] {
        handle_key(&mut n, key(KeyCode::Right), &mut None, 0, false, 3, 3);
        assert_eq!(n.focus, expected);
    }
    handle_key(&mut n, key(KeyCode::BackTab), &mut None, 0, false, 3, 3);
    assert_eq!(n.focus, Focus::Actions);
    handle_key(&mut n, key(KeyCode::Enter), &mut None, 0, false, 3, 3);
    assert_eq!(n.focus_mode, FocusMode::In);
}

#[test]
fn quit_keys_and_help_overlay() {
    let mut n = nav();
    handle_key(&mut n, ch('?'), &mut None, 0, false, 0, 0);
    assert!(n.show_help);
    handle_key(&mut n, ch('q'), &mut None, 0, false, 0, 0);
    assert!(!n.should_quit);
    handle_key(&mut n, key(KeyCode::Esc), &mut None, 0, false, 0, 0);
    assert!(!n.show_help);
    handle_key(&mut n, Key { code: KeyCode::Char('c'), ctrl: true }, &mut None, 0, false, 0, 0);
    assert!(n.should_quit);
}

#[test]
fn watches_pane_moves_within_the_list() {
    let mut n = nav();
    n.focus_mode = FocusMode::In;
    for _ in 0..5 {
        handle_key(&mut n, ch('j'), &mut None, 0, false, 3, 0);
    }
    assert_eq!(n.watch_idx, 2);
    handle_key(&mut n, ch('g'), &mut None, 0, false, 3, 0);
    assert_eq!(n.watch_idx, 0);
    handle_key(&mut n, ch('G'), &mut None, 0, false, 3, 0);
    assert_eq!(n.watch_idx, 2);
    handle_key(&mut n, key(KeyCode::Enter), &mut None, 0, false, 3, 0);
    assert_eq!(n.focus, Focus::Detail);
    let e = handle_key(&mut n, key(KeyCode::Esc), &mut None, 0, false, 3, 0);
    assert!(matches!(e, KeyEffect::ClearStatus));
    assert_eq!(n.focus_mode, FocusMode::Top);
}

#[test]
fn detail_and_menu_buttons_cycle_and_act() {
    let mut n = nav();
    n.focus = Focus::Detail;
    n.focus_mode = FocusMode::In;
    handle_key(&mut n, key(KeyCode::Left), &mut None, 0, false, 1, 0);
    assert_eq!(n.detail_btn_idx, 5);
    let e = handle_key(&mut n, key(KeyCode::Enter), &mut None, 0, false, 1, 0);
    assert!(matches!(e, KeyEffect::DetailAction(5)));
    n.focus = Focus::Actions;
    handle_key(&mut n, key(KeyCode::Up), &mut None, 0, false, 1, 0);
    assert_eq!(n.action_idx, 9);
    handle_key(&mut n, key(KeyCode::Right), &mut None, 0, false, 1, 0);
    assert_eq!(n.action_idx, 0);
    assert!(matches!(handle_key(&mut n, key(KeyCode::Enter), &mut None, 0, false, 1, 0), KeyEffect::MenuAction));
}

fn pending(text: &str) -> Option<ConfirmPrompt> {
    Some(ConfirmPrompt { text: text.to_string(), created_at: std::time::Instant::now() })
}

#[test]
fn confirmation_and_modal_take_keys_first() {
    let mut n = nav();
    let mut c = pending("删 watch w_1 ? (y/n)");
    match handle_key(&mut n, ch('y'), &mut c, 0, false, 1, 0) {
        KeyEffect::ConfirmDelete(Some(w)) => assert_eq!(w, "w_1"),
        _ => panic!(),
    }
    assert!(c.is_none());
    let mut c = pending("删 watch w_1 ? (y/n)");
    assert!(matches!(handle_key(&mut n, ch('N'), &mut c, 0, false, 1, 0), KeyEffect::DismissConfirm));
    assert!(c.is_none());
    let mut c = pending("删 watch w_1 ? (y/n)");
    assert!(matches!(handle_key(&mut n, ch('x'), &mut c, 0, true, 1, 0), KeyEffect::Nothing));
    assert!(c.is_some());
    assert!(matches!(handle_key(&mut n, ch('x'), &mut None, 0, true, 1, 0), KeyEffect::ToModal));
}

#[test]
fn lapsed_confirmation_is_dropped() {
    let mut n = nav();
    let mut c = pending("删 watch w_1 ? (y/n)");
    // Five seconds is not yet lapsed.
    assert!(matches!(handle_key(&mut n, ch('x'), &mut c, 5_000_000_000, false, 1, 0), KeyEffect::Nothing));
    assert!(c.is_some());
    // After that, `y` deletes nothing and goes on as a plain key.
    let e = handle_key(&mut n, ch('y'), &mut c, 5_000_000_001, false, 1, 0);
    assert!(matches!(e, KeyEffect::Nothing));
    assert!(c.is_none());
    let mut c = pending("删 watch w_1 ? (y/n)");
    assert!(matches!(handle_key(&mut n, ch('x'), &mut c, 9_000_000_000, true, 1, 0), KeyEffect::ToModal));
    assert!(c.is_none());
    // Under the help overlay the confirmation is left as it is.
    n.show_help = true;
    let mut c = pending("删 watch w_1 ? (y/n)");
    handle_key(&mut n, ch('y'), &mut c, 9_000_000_000, false, 1, 0);
    assert!(c.is_some());
}

#[test]
fn command_line_collects_typing() {
    let mut n = nav();
    n.input_mode = InputMode::Cmd;
    for c in "rmx".chars() {
        handle_key(&mut n, ch(c), &mut None, 0, false, 0, 0);
    }
    handle_key(&mut n, key(KeyCode::Backspace), &mut None, 0, false, 0, 0);
    handle_key(&mut n, Key { code: KeyCode::Char('z'), ctrl: true }, &mut None, 0, false, 0, 0);
    assert_eq!(n.input_buf, "rm");
    assert!(matches!(handle_key(&mut n, key(KeyCode::Enter), &mut None, 0, false, 0, 0), KeyEffect::PromptSubmit));
    assert!(matches!(handle_key(&mut n, key(KeyCode::Esc), &mut None, 0, false, 0, 0), KeyEffect::PromptCancel));
}

#[test]
fn confirm_text_yields_the_watch_id() {
    assert_eq!(extract_wid_from_confirm("  删 watch w_1a2b3c ? (y/n)").as_deref(), Some("w_1a2b3c"));
    assert_eq!(extract_wid_from_confirm("删 watch    w_9 "), Some("w_9".to_string()));
    assert_eq!(extract_wid_from_confirm("删 watch "), None);
    // The question the detail pane asks reads back to its watch.
    match dispatch_detail_action(5, Some("w_77aa00")) {
        DetailEffect::Confirm(q) => assert_eq!(extract_wid_from_confirm(&q).as_deref(), Some("w_77aa00")),
        _ => panic!("expected a confirmation"),
    }
    assert_eq!(extract_wid_from_confirm("删除 watch w_1"), None);
}

// ----------------------------------------------------------------------
// Buttons and the command line
// ----------------------------------------------------------------------

#[test]
fn button_rows_have_their_lengths() {
    assert_eq!(menu_buttons().len(), 10);
    assert_eq!(detail_buttons()[0], ("◉", "启停"));
    assert_eq!(menu_buttons()[9], ("q", "退出"));
}

#[test]
fn menu_buttons_ask_for_their_actions() {
    let mut n = nav();
    n.action_idx = 1;
    assert!(matches!(dispatch(&mut n, Some("w_1")), MenuEffect::Confirm(t) if t == "删 watch w_1 ? (y/n)"));
    assert!(matches!(dispatch(&mut n, None), MenuEffect::Status(t, 3) if t == "没有选中 watch，请先在左栏选一条"));
    n.action_idx = 5;
    assert!(matches!(dispatch(&mut n, None), MenuEffect::OpenGlobal(2)));
    n.action_idx = 9;
    dispatch(&mut n, None);
    assert!(n.should_quit);
}

#[test]
fn detail_buttons_act_on_the_selected_watch() {
    assert!(matches!(dispatch_detail_action(0, None), DetailEffect::Status(t, 3) if t == "没有选中 watch"));
    assert!(matches!(dispatch_detail_action(0, Some("w_1")), DetailEffect::Execute(c) if c == "toggle"));
    assert!(matches!(dispatch_detail_action(2, Some("w_1")), DetailEffect::OpenEdit(w, 1) if w == "w_1"));
    assert!(matches!(dispatch_detail_action(3, Some("w_1")), DetailEffect::OpenEdit(w, 4) if w == "w_1"));
    match dispatch_detail_action(4, Some("w_1")) {
        DetailEffect::ForceCheck { event, status, .. } => {
            assert_eq!(event, "· 手动检查 watch w_1 …");
            assert_eq!(status, "已触发 w_1 立即检查");
        }
        _ => panic!(),
    }
    assert_eq!(cmd_delete_wid("w_1"), "rm w_1");
}

#[test]
fn settings_cycle_runs_and_moves_on() {
    let mut n = nav();
    n.input_mode = InputMode::Cmd;
    n.prompt_target = Some(PromptTarget::Quiet);
    n.input_buf = "  01:00-06:00 ".to_string();
    let s = dispatch_prompt_submit(&mut n);
    assert_eq!(s.execute.as_deref(), Some("quiet 01:00-06:00"));
    assert_eq!(s.status.unwrap().0, "配置项：当前 = phone（回车提交 → 跳下一项，Esc 退出）");
    assert_eq!(n.prompt_target, Some(PromptTarget::Phone));
    assert_eq!(n.input_mode, InputMode::Cmd);
    let s = dispatch_prompt_submit(&mut n);
    assert!(s.execute.is_none());
    let (m, secs) = dispatch_prompt_cancel(&mut n);
    assert_eq!((m.as_str(), secs), ("已取消", 3));
    assert_eq!(n.prompt_target, None);
    n.input_buf = "   ".to_string();
    let s = dispatch_prompt_submit(&mut n);
    assert_eq!(s.status.unwrap().0, "输入为空，已取消");
}

#[test]
fn commands_change_the_configuration() {
    let mut cfg = cfg_with_watch();
    let r = execute(&mut cfg, "interval 45", None);
    assert_eq!(r.event.as_deref(), Some("✓ cmd: interval = 45s"));
    assert!(r.save);
    assert_eq!(ticket_tracker::json::get_u64(&cfg, "check_interval"), Some(45));
    let r = execute(&mut cfg, "interval abc", None);
    assert_eq!(r.event.as_deref(), Some("✗ cmd: interval 必须是数字"));
    let r = execute(&mut cfg, "webhook clear", None);
    assert_eq!(r.event.as_deref(), Some("✓ cmd: webhook = (cleared)"));
    let r = execute(&mut cfg, "quiet 25:00-01:00", None);
    assert!(r.event.unwrap().starts_with("✗ cmd: "));
    assert!(!r.save);
    let r = execute(&mut cfg, "toggle", Some("w_1"));
    assert_eq!(r.event.as_deref(), Some("✓ cmd: w_1 已停用"));
    let r = execute(&mut cfg, "enable w_1", None);
    assert_eq!(r.event.as_deref(), Some("✓ cmd: w_1 已启用"));
    let r = execute(&mut cfg, "rm w_x", None);
    assert_eq!(r.event.as_deref(), Some("✗ cmd: watch 不存在: w_x"));
}

#[test]
fn toggle_twice_restores_the_watch() {
    let mut cfg = cfg_with_watch();
    let before = ticket_tracker::json::clone_json(&cfg);
    let r = execute(&mut cfg, "toggle", Some("w_1"));
    assert_eq!(r.event.as_deref(), Some("✓ cmd: w_1 已停用"));
    let r = execute(&mut cfg, "toggle", Some("w_1"));
    assert_eq!(r.event.as_deref(), Some("✓ cmd: w_1 已启用"));
    assert_eq!(cfg, before);
}

#[test]
fn command_line_words_and_errors() {
    let mut cfg = cfg_with_watch();
    let r = execute(&mut cfg, "add 'x", None);
    assert_eq!(r.event.as_deref(), Some("✗ cmd: 解析失败: missing closing quote"));
    let r = execute(&mut cfg, "frobnicate", None);
    assert_eq!(r.event.as_deref(), Some("✗ cmd: 未知命令: frobnicate"));
    let r = execute(&mut cfg, "q", None);
    assert!(r.quit && r.event.is_none());
    let r = execute(&mut cfg, "films 1", None);
    assert_eq!(r.external, Some(External::Films(1)));
    let r = execute(&mut cfg, "films x", None);
    assert_eq!(r.external, Some(External::Films(2)));
    let r = execute_parts(&mut cfg, &[], None);
    assert!(r.event.is_none() && !r.save);
}

#[test]
fn add_command_reads_its_options() {
    let mut cfg = cfg_with_watch();
    let r = execute(&mut cfg, "add 1545360 -c 37534 -d 2026-09-01 --name \"某 电影\" --interval 30", None);
    assert!(r.event.as_deref().unwrap().starts_with("✓ cmd: 添加 watch w_"));
    assert_eq!(ticket_tracker::config::list_watches(&cfg).len(), 2);
    let r = execute(&mut cfg, "add 1 -c", None);
    assert_eq!(r.event.as_deref(), Some("✗ cmd: -c 缺参数"));
    let r = execute(&mut cfg, "add 1 --bogus", None);
    assert_eq!(r.event.as_deref(), Some("✗ cmd: 未知参数: --bogus"));
    let r = execute(&mut cfg, "add one", None);
    assert_eq!(r.event.as_deref(), Some("✗ cmd: movie_id 必须是数字"));
    let r = execute(&mut cfg, "add 1 --interval x", None);
    assert_eq!(r.event.as_deref(), Some("✗ cmd: interval 数字错误"));
}

// ----------------------------------------------------------------------
// Test notices
// ----------------------------------------------------------------------

#[test]
fn test_notice_names_cinemas_and_channels() {
    let cfg = cfg_with_watch();
    let f = FormModal::edit_watch(&cfg, "w_1", 9).unwrap();
    let n = test_notice(&cfg, &f, "2026-08-01 10:00:00");
    assert_eq!(n.title, "🎬 ticket-tracker · 测试通知");
    assert!(n.body.contains("任务 ID    : w_1\n"));
    assert!(n.body.contains("影片       : 某电影 (ID 1545360)\n"));
    assert!(n.body.contains("影院       : MOViE MOViE 影城 (37534)、新影城 (42020)\n"));
    assert!(n.body.contains("独立间隔   : 60s\n"));
    assert!(n.body.contains("XHS 群     : （未填）\n"));
    assert!(n.body.contains("触发时间   : 2026-08-01 10:00:00\n"));
    assert_eq!(n.webhook, "https://hook");
    assert!(n.wechat_on);
    assert!(n.wechat_msg.starts_with("🧪 测试通知\n\n🎬 预售开启\n\n🎞 某电影\n🏛 MOViE"));
}

#[test]
fn test_notice_of_an_add_form_is_unknown() {
    let cfg = cfg_with_watch();
    let f = FormModal::add_watch();
    let n = test_notice(&cfg, &f, "t");
    assert!(n.body.contains("任务 ID    : (未知)\n"));
    assert!(n.body.contains("日期       : 不限\n"));
    assert!(!n.wechat_on);
}

#[test]
fn test_summary_marks_failures() {
    assert_eq!(
        test_notify_summary(Some(Ok(true)), None, None, None),
        "webhook ✓ 已送达  邮箱 未填（仅发 webhook）  XHS 群 未填（不测试）  微信大群 关（不测试）"
    );
    assert_eq!(
        test_notify_summary(Some(Err("boom".to_string())), Some(true), Some(false), Some(true)),
        "部分通道失败： webhook ✗ 内部错误: boom  邮箱 ✓ 已交付 msmtp  XHS 群 ✗ 发送失败（看 stderr）  微信大群 ✓ 已发送"
    );
}

#[test]
fn word_and_comma_splits() {
    assert_eq!(split_words("  a  b\tc "), vec!["a", "b", "c"]);
    assert_eq!(split_commas(" 2026-08-01 ,, 2026-08-02,"), vec!["2026-08-01", "2026-08-02"]);
}

#[test]
fn detail_pane_lists_cinemas_dates_and_fired_count() {
    let w = j(r#"{ "id": "w1", "movie_id": 1545360, "movie_name": "奥德赛",
        "cinemas": ["26845", "9"], "dates": ["2026-08-08", "2026-08-09"],
        "interval": 30, "enabled": true, "fired_cinemas": ["9"],
        "_last_payload": { "cinema_names": { "26845": "万达影城" } } }"#);
    let d = detail(&w);
    assert_eq!(d.id, "w1");
    assert_eq!(d.heading, "奥德赛 (1545360)");
    assert_eq!(d.cinema_lines, vec!["  万达影城 (26845)".to_string(), "  9".to_string()]);
    assert_eq!(d.dates, "2026-08-08, 2026-08-09");
    assert_eq!(d.interval, "30s");
    assert!(d.enabled);
    assert_eq!(d.fired, " 1/2");
    let bare = detail(&j("{}"));
    assert_eq!(bare.id, "?");
    assert_eq!(bare.heading, " (0)");
    assert_eq!(bare.cinema_lines, vec!["  （无）".to_string()]);
    assert_eq!(bare.dates, "不限");
    assert_eq!(bare.interval, "(默认)");
    assert!(!bare.enabled);
    assert_eq!(bare.fired, " 0/0");
}
