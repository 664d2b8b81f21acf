use std::sync::mpsc;

use ticket_tracker::json::Json;
use ticket_tracker::tui::modal::{
    open_cinema_picker, CinemaChoice, CinemaMode, CinemaState, FieldKind, FormField, FormModal, SearchState,
};
use ticket_tracker::tui::texts::{
    active_text, add_line, button_text, choice_texts, detail_title, fitting, form_line, header_place,
    input_prefix, picker_status, search_status, status_text, watch_row, watches_title,
};
use ticket_tracker::tui::{default_tips, Focus, FocusMode, PromptTarget};

fn obj(pairs: Vec<(&str, Json)>) -> Json {
    Json::Obj(pairs.into_iter().map(|(k, v)| (k.to_string(), v)).collect())
}

#[test]
fn header_and_titles() {
    assert_eq!(header_place(Focus::Events, FocusMode::Top), "[TOP] Logs");
    assert_eq!(header_place(Focus::Actions, FocusMode::In), "[IN] Menu");
    assert_eq!(active_text(3), "3 active");
    assert_eq!(watches_title(0), " watches (0) ");
    assert_eq!(detail_title(Some("w_1")), " detail · w_1 ");
    assert_eq!(detail_title(None), " detail ");
}

#[test]
fn watch_rows_show_id_and_switch() {
    let w = obj(vec![("id", Json::Str("w_9".into())), ("enabled", Json::Bool(true))]);
    assert_eq!(watch_row(&w), ("w_9".to_string(), true));
    assert_eq!(watch_row(&obj(vec![("enabled", Json::Str("yes".into()))])), ("?".to_string(), false));
}

#[test]
fn buttons_fit_the_width() {
    assert_eq!(button_text("A", "添加"), " [A] 添加 ");
    let labels: Vec<String> = vec![button_text("A", "添加"), button_text("D", "删除"), button_text("R", "立即检查")];
    // Each of the first two is 8 characters wide.
    assert_eq!(fitting(&labels, 100), 3);
    assert_eq!(fitting(&labels, 16), 2);
    assert_eq!(fitting(&labels, 15), 1);
    assert_eq!(fitting(&labels, 7), 0);
    assert_eq!(fitting(&[], 0), 0);
}

#[test]
fn status_and_input_lines() {
    assert_eq!(status_text(Some("已保存"), true), "已保存");
    assert_eq!(status_text(Some("已保存"), false), default_tips());
    assert_eq!(status_text(None, true), default_tips());
    assert_eq!(input_prefix(Some(PromptTarget::Quiet), "x"), "quiet> ");
    assert_eq!(input_prefix(None, "edit w_1 --interval 5"), "edit> ");
    assert_eq!(input_prefix(None, "report 60"), "report> ");
    assert_eq!(input_prefix(None, "add"), "input> ");
    assert_eq!(input_prefix(None, ""), "input> ");
}

#[test]
fn form_lines() {
    let f = FormField::with_value("间隔(秒)", FieldKind::OptionalInteger, false, String::new());
    assert_eq!(form_line(&f, false, false), "  间隔(秒): (空)");
    assert_eq!(form_line(&f, true, true), "> 间隔(秒): ");
    assert_eq!(form_line(&f, true, false), "> 间隔(秒): (空)");
    let g = FormField::with_value("日期", FieldKind::DateList, false, "2026-08-01".into());
    assert_eq!(form_line(&g, false, true), "  日期: 2026-08-01");
    assert_eq!(form_line(&FormField::button("保存", FieldKind::Submit), true, false), "> [保存]");
}

#[test]
fn search_and_picker_lines() {
    let (_tx, rx) = mpsc::channel();
    assert_eq!(search_status(&SearchState::Loading(rx)), "加载中…（Esc 返回）");
    assert_eq!(
        search_status(&SearchState::Ready(vec![("1".into(), "A".into()), ("2".into(), "B".into())])),
        "共 2 部，↑↓ 选择，Enter 回填"
    );
    assert_eq!(search_status(&SearchState::Error("断网".into())), "加载失败：断网（r 重试）");
    let c = CinemaChoice { id: "37534".into(), name: "MOViE".into(), builtin: true, selected: true };
    assert_eq!(choice_texts(&c), ("[x] ★ ".to_string(), "MOViE (37534)".to_string()));
    let c = CinemaChoice { id: "9".into(), name: String::new(), builtin: false, selected: false };
    assert_eq!(choice_texts(&c), ("[ ] ".to_string(), "9".to_string()));
    assert_eq!(picker_status(&CinemaState::Ready), "Enter 确定 · Tab 输入影院 ID");
    assert_eq!(picker_status(&CinemaState::Error("x".into())), "加载失败：x（Enter 重试）");
    let mut p = open_cinema_picker(&obj(vec![]), FormModal::add_watch());
    assert_eq!(add_line(&p), ("  添加影院 ID: ".to_string(), String::new()));
    p.mode = CinemaMode::AddInput;
    p.add_input = "12".into();
    assert_eq!(add_line(&p), ("> 添加影院 ID: ".to_string(), "12▮".to_string()));
}
