use ticket_tracker::cli::doctor::{doctor_lines, init_lines, network_line};
use ticket_tracker::cli::films::{films_heading, films_table};
use ticket_tracker::json::Json;
use ticket_tracker::tui::panes::{active_watches, header_mode};
use ticket_tracker::tui::report::{
    confirm_lapsed, doctor_event, event_entry, films_event, films_event_fits, log_event, EVENTS_KEPT,
};

fn conv(v: &serde_json::Value) -> Json {
    match v {
        serde_json::Value::Null => Json::Null,
        serde_json::Value::Bool(b) => Json::Bool(*b),
        serde_json::Value::Number(n) => match n.as_i64() {
            Some(i) => Json::Int(i as i128),
            None => Json::Frac(n.to_string()),
        },
        serde_json::Value::String(s) => Json::Str(s.clone()),
        serde_json::Value::Array(a) => Json::Arr(a.iter().map(conv).collect()),
        serde_json::Value::Object(o) => Json::Obj(o.iter().map(|(k, v)| (k.clone(), conv(v))).collect()),
    }
}

fn j(text: &str) -> Json {
    conv(&serde_json::from_str::<serde_json::Value>(text).unwrap())
}

fn pair(id: &str, name: &str) -> (String, String) {
    (id.to_string(), name.to_string())
}

#[test]
fn films_heading_names_the_list() {
    assert_eq!(films_heading(1), "→ 拉取「热映」列表…");
    assert_eq!(films_heading(2), "→ 拉取「即将上映」列表…");
    assert_eq!(films_heading(3), "→ 拉取「经典」列表…");
    assert_eq!(films_heading(9), "→ 拉取「未知」列表…");
}

#[test]
fn films_table_pads_ids_to_ten() {
    let t = films_table(&[pair("1545360", "奥德赛"), pair("22", "B")]);
    assert_eq!(t, vec!["ID         NAME", "1545360    奥德赛", "22         B"]);
    assert_eq!(films_table(&[pair("12345678901", "x")])[1], "12345678901 x");
}

#[test]
fn films_event_counts_and_cuts_at_eighty_bytes() {
    assert_eq!(films_event(Ok(vec![pair("1", "A"), pair("2", "B")])), "✓ cmd: 已拉取 2 条 → 1 A; 2 B");
    assert_eq!(films_event(Err("boom".to_string())), "✗ cmd: boom");
    let long: Vec<(String, String)> = (0..20).map(|i| pair(&format!("{:04}", i), "abcd")).collect();
    assert!(films_event_fits(&long));
    let e = films_event(Ok(long));
    assert!(e.starts_with("✓ cmd: 已拉取 20 条 → 0000 abcd; 0001 abcd"));
    assert_eq!(e.len(), "✓ cmd: 已拉取 20 条 → ".len() + 80);
    // 26 three-byte names put byte 80 inside a character.
    let cjk = vec![pair("12", &"奥".repeat(40))];
    assert!(!films_event_fits(&cjk));
    // Exactly on a boundary: "1 " + 26 three-byte characters is 80 bytes.
    let edge = vec![pair("1", &"奥".repeat(26)), pair("2", "x")];
    assert!(films_event_fits(&edge));
    assert_eq!(films_event(Ok(edge)), format!("✓ cmd: 已拉取 2 条 → 1 {}", "奥".repeat(26)));
}

#[test]
fn doctor_event_lines() {
    assert_eq!(doctor_event(Ok(())), "✓ cmd: doctor 已运行（输出见 stdout）");
    assert_eq!(doctor_event(Err("x".into())), "✗ cmd: x");
}

#[test]
fn init_lines_say_whether_the_file_existed() {
    assert_eq!(init_lines(true, "/c/config.json"), vec!["✓ 配置已存在：/c/config.json", "  编辑：tt config show"]);
    assert_eq!(init_lines(false, "/c/config.json")[0], "✓ 已创建配置：/c/config.json");
}

#[test]
fn doctor_lines_report_the_configuration() {
    let cfg = j(r#"{ "watches": [{}, {}], "discord_webhook": "https://discord.com/api/webhooks/1" }"#);
    assert_eq!(
        doctor_lines(&cfg, "1.5.3", "linux", "/c/config.json", false),
        vec![
            "ticket-tracker 自检",
            "  版本: 1.5.3 (linux)",
            "✓ 配置文件：/c/config.json",
            "✓ watches: 2 条",
            "✓ Discord webhook: 已配置",
            "○ caffeinate（防休眠）: 当前平台不可用",
        ]
    );
    let bare = doctor_lines(&j(r#"{ "discord_webhook": null }"#), "1", "macos", "p", true);
    assert_eq!(bare[3], "✓ watches: 0 条");
    assert_eq!(bare[4], "✗ Discord webhook: 未配置");
    assert_eq!(bare[5], "✓ caffeinate（防休眠）: 可用");
    assert_eq!(network_line(true, 42), "✓ 网络可达 m.maoyan.com (42 ms)");
    assert_eq!(network_line(false, 5000), "✗ 网络不通 m.maoyan.com (5000 ms)");
}

#[test]
fn header_counts_active_watches_and_names_the_mode() {
    let cfg = j(r#"{ "watches": [{ "enabled": true }, { "enabled": false }, { "enabled": true }, {}] }"#);
    assert_eq!(active_watches(&cfg), 2);
    assert_eq!(active_watches(&j("{}")), 0);
    assert_eq!(header_mode(&cfg, 3), "quiet");
    assert_eq!(header_mode(&cfg, 7), "phone");
    assert_eq!(header_mode(&cfg, 12), "normal");
    let custom = j(r#"{ "quiet_window": "22:00-23:00", "phone_only_window": "bad" }"#);
    assert_eq!(header_mode(&custom, 22), "normal");
    let windows = j(r#"{ "quiet_window": "10:00-12:00", "phone_only_window": "12:00-13:00" }"#);
    assert_eq!(header_mode(&windows, 11), "quiet");
    assert_eq!(header_mode(&windows, 12), "phone");
    assert_eq!(header_mode(&windows, 3), "normal");
}

#[test]
fn events_are_stamped_and_capped() {
    assert_eq!(event_entry("09:30:00", "✓ cmd: x"), "[09:30:00] ✓ cmd: x");
    let mut events: Vec<String> = Vec::new();
    for i in 0..70 {
        log_event(&mut events, format!("e{}", i));
    }
    assert_eq!(events.len(), EVENTS_KEPT);
    assert_eq!(events[0], "e69");
    assert_eq!(events[63], "e6");
}

#[test]
fn confirmations_lapse_after_five_seconds() {
    assert!(!confirm_lapsed(5_000_000_000));
    assert!(confirm_lapsed(5_000_000_001));
    assert!(confirm_lapsed(6_000_000_000));
    assert!(!confirm_lapsed(0));
}
