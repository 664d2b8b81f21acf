use ticket_tracker::cli::config_cmd::{dispatch as config_dispatch, resolve_key, ConfigAction};
use ticket_tracker::cli::start::{log_tail, run as start_run, started_line, status_line, StartPlan};
use ticket_tracker::cli::test_cmd::{test_plan, TestStep};
use ticket_tracker::cli::watch::{dispatch as watch_dispatch, WatchAction};
use ticket_tracker::cli::{
    cinema::dispatch as cinema_dispatch, dispatch, reads_config, CinemaAction, Cmd, Dispatched, Out, Reply,
};
use ticket_tracker::config::{find_cinema, find_watch, list_watches};
use ticket_tracker::json::{get, get_bool, get_str, get_u64, Json};
use ticket_tracker::lock::{booker_dir, booker_screenshots_dir, locked_screenshot};
use ticket_tracker::notify::{
    after_send, caffeinate_args, discord_payload, is_caffeinated, is_discord_webhook, macos_script,
    ring_seconds, SendStep,
};
use ticket_tracker::paths::{config_dir, config_file, join_path, log_file, pid_file, state_dir};
use ticket_tracker::tui::Focus;

fn conv(v: &serde_json::Value) -> Json {
    match v {
        serde_json::Value::Null => Json::Null,
        serde_json::Value::Bool(b) => Json::Bool(*b),
        serde_json::Value::Number(n) => {
            if let Some(i) = n.as_i64() {
                Json::Int(i as i128)
            } else if let Some(u) = n.as_u64() {
                Json::Int(u as i128)
            } else {
                Json::Frac(n.to_string())
            }
        }
        serde_json::Value::String(s) => Json::Str(s.clone()),
        serde_json::Value::Array(a) => Json::Arr(a.iter().map(conv).collect()),
        serde_json::Value::Object(o) => {
            Json::Obj(o.iter().map(|(k, v)| (k.clone(), conv(v))).collect())
        }
    }
}

fn j(text: &str) -> Json {
    conv(&serde_json::from_str::<serde_json::Value>(text).unwrap())
}

fn cfg() -> Json {
    j(r#"{
        "discord_webhook": "https://discord.com/api/webhooks/1/x",
        "check_interval": 90,
        "cinemas": [{"id": "37534", "name": "MOViE MOViE", "builtin": true}],
        "watches": [
            {"id": "w_1", "movie_id": 1545360, "movie_name": "某电影", "enabled": true,
             "cinemas": ["37534"], "dates": null, "xhs_group": "  群A ", "wechat_notify": false},
            {"id": "w_2", "movie_id": 7, "enabled": false, "wechat_notify": true}
        ]
    }"#)
}

fn lines(r: &Reply) -> Vec<String> {
    r.out
        .iter()
        .map(|o| match o {
            Out::Text(t) => t.clone(),
            Out::Pretty(_) => "<pretty>".to_string(),
            Out::Compact(_) => "<compact>".to_string(),
        })
        .collect()
}

#[test]
fn cinema_list_prints_a_table() {
    let mut c = cfg();
    let r = cinema_dispatch(&mut c, CinemaAction::List).unwrap();
    assert_eq!(
        lines(&r),
        vec![format!("{:<10} {}", "ID", "NAME"), format!("{:<10} {}", "37534", "MOViE MOViE")]
    );
    assert!(!r.save);
    let mut empty = j(r#"{"cinemas": []}"#);
    let r = cinema_dispatch(&mut empty, CinemaAction::List).unwrap();
    assert_eq!(lines(&r), vec!["(无影院)"]);
}

#[test]
fn cinema_add_and_remove() {
    let mut c = cfg();
    let r = cinema_dispatch(&mut c, CinemaAction::Add { cinema_id: "42020".into(), name: Some("新".into()) }).unwrap();
    assert_eq!(lines(&r), vec!["✓ 已添加影院 42020 (新)"]);
    assert!(r.save);
    let r = cinema_dispatch(&mut c, CinemaAction::Add { cinema_id: "42020".into(), name: None }).unwrap();
    assert_eq!(lines(&r), vec!["已存在: 42020"]);
    assert!(!r.save);
    let r = cinema_dispatch(&mut c, CinemaAction::Remove { cinema_id: "42020".into() }).unwrap();
    assert_eq!(lines(&r), vec!["✓ 已删除: 42020"]);
    assert!(find_cinema(&c, "42020").is_none());
    let e = cinema_dispatch(&mut c, CinemaAction::Remove { cinema_id: "42020".into() }).err().unwrap();
    assert_eq!(e, "影院不存在: 42020");
}

#[test]
fn cinema_presets_list_and_add() {
    let mut c = cfg();
    let r = cinema_dispatch(&mut c, CinemaAction::Presets).unwrap();
    let l = lines(&r);
    assert_eq!(l.len(), 6);
    assert_eq!(l[0], format!("{:<20} {:<10} {:<6} {}", "名称", "ID", "城市", "说明"));
    assert_eq!(
        l[1],
        format!("{:<20} {:<10} {:<6} {}", "前滩太古里", "37534", "上海", "艺术影院，挂幕类活动常有")
    );
    let r = cinema_dispatch(&mut c, CinemaAction::AddPreset { name: "上海影城".into() }).unwrap();
    assert_eq!(lines(&r), vec!["✓ 已添加预设: 上海影城 (2120)"]);
    assert_eq!(get_str(find_cinema(&c, "2120").unwrap(), "name").as_deref(), Some("上海影城（新华路）"));
    let r = cinema_dispatch(&mut c, CinemaAction::AddPreset { name: "前滩太古里".into() }).unwrap();
    assert_eq!(lines(&r), vec!["已存在: 37534"]);
    let e = cinema_dispatch(&mut c, CinemaAction::AddPreset { name: "nope".into() }).err().unwrap();
    assert_eq!(e, "预设不存在: nope");
}

#[test]
fn config_keys_have_short_names() {
    assert_eq!(resolve_key("webhook"), "discord_webhook");
    assert_eq!(resolve_key("discord-webhook"), "discord_webhook");
    assert_eq!(resolve_key("quiet"), "quiet_window");
    assert_eq!(resolve_key("phone-only"), "phone_only_window");
    assert_eq!(resolve_key("interval"), "check_interval");
    assert_eq!(resolve_key("other"), "other");
}

#[test]
fn config_get_set_unset() {
    let mut c = cfg();
    let r = config_dispatch(&mut c, ConfigAction::Get { key: "interval".into() }, "/p").unwrap();
    assert_eq!(lines(&r), vec!["90"]);
    let r = config_dispatch(&mut c, ConfigAction::Get { key: "watches".into() }, "/p").unwrap();
    assert_eq!(lines(&r), vec!["<compact>"]);
    let e = config_dispatch(&mut c, ConfigAction::Get { key: "quiet".into() }, "/p").err().unwrap();
    assert_eq!(e, "未配置: quiet_window");
    for (v, expected) in [
        ("TRUE", Json::Bool(true)),
        ("None", Json::Null),
        ("", Json::Null),
        ("-12", Json::Int(-12)),
        ("12a", Json::Str("12a".into())),
    ] {
        let r = config_dispatch(&mut c, ConfigAction::SetValue { key: "x".into(), value: v.into() }, "/p").unwrap();
        assert!(r.save);
        assert_eq!(lines(&r), vec![format!("✓ x = {}", v)]);
        assert_eq!(get(&c, "x"), Some(&expected));
    }
    let r = config_dispatch(&mut c, ConfigAction::Unset { key: "x".into() }, "/p").unwrap();
    assert_eq!(lines(&r), vec!["✓ 已删除: x"]);
    assert!(get(&c, "x").is_none());
    let r = config_dispatch(&mut c, ConfigAction::Path, "/home/u/.config/ticket-tracker/config.json").unwrap();
    assert_eq!(lines(&r), vec!["/home/u/.config/ticket-tracker/config.json"]);
}

#[test]
fn config_set_then_get_reads_back() {
    let mut c = cfg();
    config_dispatch(&mut c, ConfigAction::SetValue { key: "quiet".into(), value: "02:00-05:00".into() }, "/p").unwrap();
    let r = config_dispatch(&mut c, ConfigAction::Get { key: "quiet".into() }, "/p").unwrap();
    assert_eq!(lines(&r), vec!["02:00-05:00"]);
    config_dispatch(&mut c, ConfigAction::SetValue { key: "interval".into(), value: "120".into() }, "/p").unwrap();
    let r = config_dispatch(&mut c, ConfigAction::Get { key: "check_interval".into() }, "/p").unwrap();
    assert_eq!(lines(&r), vec!["120"]);
    config_dispatch(&mut c, ConfigAction::Unset { key: "interval".into() }, "/p").unwrap();
    let e = config_dispatch(&mut c, ConfigAction::Get { key: "interval".into() }, "/p").err().unwrap();
    assert_eq!(e, "未配置: check_interval");
}

#[test]
fn watch_list_prints_rows() {
    let mut c = cfg();
    let r = watch_dispatch(&mut c, WatchAction::List).unwrap();
    assert_eq!(
        lines(&r),
        vec![
            format!("{:<10} {:<10} {:<20} {}", "ID", "MOVIE", "NAME", "ENABLED"),
            format!("{:<10} {:<10} {:<20} {}", "w_1", 1545360, "某电影", "✓"),
            format!("{:<10} {:<10} {:<20} {}", "w_2", 7, "?", "×"),
        ]
    );
}

#[test]
fn watch_edit_writes_given_options() {
    let mut c = cfg();
    let r = watch_dispatch(
        &mut c,
        WatchAction::Edit {
            id: "w_1".into(),
            cinema: vec!["42020".into()],
            date: vec!["2026-09-02".into(), "2026-09-01".into(), "2026-09-02".into()],
            interval: Some(30),
            name: None,
            mode: Some("incremental".into()),
            time_window: Some("".into()),
            notify_webhook: Some("https://x".into()),
            notify_email: None,
        },
    )
    .unwrap();
    assert_eq!(lines(&r), vec!["✓ 已更新 watch: w_1"]);
    let w = find_watch(&c, "w_1").unwrap();
    assert_eq!(get_u64(w, "interval"), Some(30));
    assert_eq!(get(w, "time_window"), Some(&Json::Null));
    assert_eq!(get_str(w, "mode").as_deref(), Some("incremental"));
    assert_eq!(get(w, "dates"), Some(&j(r#"["2026-09-01", "2026-09-02"]"#)));
    assert!(get(w, "seen_shows").is_none());
    assert_eq!(get(w, "lock_ok_cinemas"), Some(&j("[]")));
    assert_eq!(get(w, "lock_tries"), Some(&j("{}")));
    assert_eq!(get_str(w, "movie_name").as_deref(), Some("某电影"));
    assert!(find_cinema(&c, "42020").is_some());
}

#[test]
fn watch_edit_clears_state_only_on_real_changes() {
    let base = r#"{
        "cinemas": [{"id": "37534", "name": "MOViE MOViE", "builtin": true}],
        "watches": [{"id": "w_1", "movie_id": 1, "cinemas": ["37534"], "dates": null,
            "mode": "incremental", "seen_shows": {"37534": ["a"]},
            "lock_ok_cinemas": ["37534"], "lock_tries": {"37534": 1}}]
    }"#;
    let edit = |cinema: Vec<String>, mode: Option<String>, interval: Option<u64>| WatchAction::Edit {
        id: "w_1".into(),
        cinema,
        date: vec![],
        interval,
        name: None,
        mode,
        time_window: None,
        notify_webhook: None,
        notify_email: None,
    };
    // The same cinema and mode again: nothing is cleared.
    let mut c = j(base);
    watch_dispatch(&mut c, edit(vec!["37534".into()], Some("incremental".into()), None)).unwrap();
    let w = find_watch(&c, "w_1").unwrap();
    assert_eq!(get(w, "seen_shows"), Some(&j(r#"{"37534": ["a"]}"#)));
    assert_eq!(get(w, "lock_ok_cinemas"), Some(&j(r#"["37534"]"#)));
    // The mode changes: the baseline goes, the lock state stays.
    let mut c = j(base);
    watch_dispatch(&mut c, edit(vec![], Some("presale".into()), None)).unwrap();
    let w = find_watch(&c, "w_1").unwrap();
    assert!(get(w, "seen_shows").is_none());
    assert_eq!(get(w, "lock_tries"), Some(&j(r#"{"37534": 1}"#)));
    // Only the interval changes: both stay.
    let mut c = j(base);
    watch_dispatch(&mut c, edit(vec![], None, Some(30))).unwrap();
    let w = find_watch(&c, "w_1").unwrap();
    assert_eq!(get(w, "seen_shows"), Some(&j(r#"{"37534": ["a"]}"#)));
    assert_eq!(get(w, "lock_ok_cinemas"), Some(&j(r#"["37534"]"#)));
}

#[test]
fn watch_edit_refusals() {
    let mut c = cfg();
    let e = watch_dispatch(
        &mut c,
        WatchAction::Edit {
            id: "w_1".into(),
            cinema: vec![],
            date: vec![],
            interval: None,
            name: None,
            mode: Some("weekly".into()),
            time_window: None,
            notify_webhook: None,
            notify_email: None,
        },
    )
    .err()
    .unwrap();
    assert_eq!(e, "--mode 只能是 presale 或 incremental");
    let e = watch_dispatch(
        &mut c,
        WatchAction::Edit {
            id: "w_1".into(),
            cinema: vec![],
            date: vec![],
            interval: None,
            name: None,
            mode: None,
            time_window: Some("7-8".into()),
            notify_webhook: None,
            notify_email: None,
        },
    )
    .err()
    .unwrap();
    assert!(e.starts_with("--time-window 格式错误: "));
    let e = watch_dispatch(&mut c, WatchAction::Show { id: "w_9".into() }).err().unwrap();
    assert_eq!(e, "watch 不存在");
}

#[test]
fn watch_enable_disable_remove_add() {
    let mut c = cfg();
    let r = watch_dispatch(&mut c, WatchAction::Disable { id: "w_1".into() }).unwrap();
    assert_eq!(lines(&r), vec!["✓ w_1 已停用"]);
    assert_eq!(get_bool(find_watch(&c, "w_1").unwrap(), "enabled"), Some(false));
    let e = watch_dispatch(&mut c, WatchAction::Enable { id: "w_9".into() }).err().unwrap();
    assert_eq!(e, "watch 不存在: w_9");
    let r = watch_dispatch(&mut c, WatchAction::Remove { id: "w_2".into() }).unwrap();
    assert_eq!(lines(&r), vec!["✓ 已删除: w_2"]);
    let r = watch_dispatch(
        &mut c,
        WatchAction::Add {
            movie_id: 9,
            cinema: vec!["37534".into()],
            date: vec![],
            name: Some("新片".into()),
            interval: None,
            mode: "presale".into(),
            time_window: None,
            notify_webhook: None,
            notify_email: None,
        },
    )
    .unwrap();
    assert!(lines(&r)[0].starts_with("✓ 已添加 watch: w_"));
    assert_eq!(list_watches(&c).len(), 2);
    let e = watch_dispatch(
        &mut c,
        WatchAction::Add {
            movie_id: 9,
            cinema: vec![],
            date: vec![],
            name: None,
            interval: None,
            mode: "bogus".into(),
            time_window: None,
            notify_webhook: None,
            notify_email: None,
        },
    )
    .err()
    .unwrap();
    assert_eq!(e, "--mode 只能是 presale 或 incremental");
}

#[test]
fn top_level_dispatch_routes() {
    let mut c = cfg();
    assert!(matches!(dispatch(&mut c, Cmd::Status, "/p"), Dispatched::Status));
    assert!(matches!(dispatch(&mut c, Cmd::Films { show_type: 3 }, "/p"), Dispatched::Films { show_type: 3 }));
    match dispatch(&mut c, Cmd::Cinema { action: CinemaAction::List }, "/p") {
        Dispatched::Done(Ok(r)) => assert_eq!(lines(&r).len(), 2),
        _ => panic!(),
    }
}

#[test]
fn start_in_background_unless_running() {
    let mut c = cfg();
    assert!(matches!(start_run(false, None, vec![], &mut c, None), StartPlan::Tui));
    match start_run(true, Some(30), vec![], &mut c, Some(" 123\n")) {
        StartPlan::Refused { save, message } => {
            assert!(!save);
            assert_eq!(message, "daemon 已在运行（pid=123），先 tt stop");
        }
        _ => panic!(),
    }
    match start_run(true, Some(30), vec![], &mut c, None) {
        StartPlan::Background { save } => assert!(save),
        _ => panic!(),
    }
    assert_eq!(get_u64(&c, "check_interval"), Some(30));
    assert!(matches!(start_run(true, None, vec![], &mut c, None), StartPlan::Background { save: false }));
    assert_eq!(started_line(4242, "/s/ticket-tracker.log"), "✓ 后台已启动 pid=4242（日志：/s/ticket-tracker.log）");
}

#[test]
fn status_and_log_tail() {
    assert_eq!(status_line(Some("42\n"), true), "daemon pid 42 (running)");
    assert_eq!(status_line(Some("42"), false), "daemon pid 42 (stale)");
    assert_eq!(status_line(None, false), "无后台 daemon。前台模式：tt start");
    assert_eq!(log_tail("a\nb\r\nc\n", 2), vec!["b", "c"]);
    assert_eq!(log_tail("a\nb", 5), vec!["a", "b"]);
    assert!(log_tail("", 3).is_empty());
}

#[test]
fn test_command_plans_sends() {
    let c = cfg();
    let steps = test_plan(&c, None);
    assert_eq!(steps.len(), 4);
    assert!(matches!(&steps[0], TestStep::Discord(u) if u == "https://discord.com/api/webhooks/1/x"));
    assert!(matches!(&steps[1], TestStep::Macos));
    assert!(matches!(&steps[2], TestStep::Xhs(g) if g == "群A"));
    assert!(matches!(&steps[3], TestStep::Wechat(m) if m.starts_with("🧪 测试通知\n\n🎬 预售开启\n\n🎞 (未命名影片)\n🏛 测试影院")));
    let none = j(r#"{"watches": []}"#);
    let steps = test_plan(&none, Some("all"));
    assert!(matches!(&steps[0], TestStep::DiscordMissing));
    assert!(matches!(&steps[2], TestStep::XhsMissing));
    assert!(matches!(&steps[3], TestStep::WechatMissing));
    assert_eq!(steps.len(), 4);
    let only_wechat = j(r#"{"watches": [{"wechat_notify": true, "movie_name": "某电影"}]}"#);
    let steps = test_plan(&only_wechat, Some("all"));
    assert!(matches!(&steps[2], TestStep::XhsMissing));
    assert!(matches!(&steps[3], TestStep::Wechat(m) if m.starts_with("🧪 测试通知") && m.contains("某电影")));
    let steps = test_plan(&none, Some("wechat"));
    assert!(matches!(&steps[..], [TestStep::WechatMissing]));
}

#[test]
fn paths_follow_xdg() {
    assert_eq!(config_dir(None, Some("/home/u"), None, false), "/home/u/.config/ticket-tracker");
    assert_eq!(config_dir(Some(""), Some("/home/u/"), Some("/ad"), false), "/home/u/.config/ticket-tracker");
    assert_eq!(config_dir(Some("/x/cfg"), Some("/home/u"), None, false), "/x/cfg/ticket-tracker");
    assert_eq!(state_dir(None, None), "~/.local/state/ticket-tracker");
    assert_eq!(config_file("/c", false), "/c/config.json");
    assert_eq!(log_file("/s/"), "/s/ticket-tracker.log");
    assert_eq!(pid_file("/s"), "/s/ticket-tracker.pid");
    assert_eq!(join_path("/a", "/b"), "/b");
}

#[test]
fn windows_config_under_appdata() {
    let appdata = "C:\\Users\\u\\AppData\\Roaming";
    let dir = config_dir(None, Some("C:\\Users\\u"), Some(appdata), true);
    assert_eq!(dir, "C:\\Users\\u\\AppData\\Roaming\\ticket-tracker");
    assert_eq!(config_file(&dir, true), "C:\\Users\\u\\AppData\\Roaming\\ticket-tracker\\config.json");
    assert_eq!(config_dir(Some(""), None, Some("D:\\ad\\"), true), "D:\\ad\\ticket-tracker");
    assert_eq!(config_dir(Some("/x/cfg"), None, Some("D:\\ad"), true), "/x/cfg/ticket-tracker");
    assert_eq!(config_dir(None, Some("/h"), None, true), "/h/.config/ticket-tracker");
}

#[test]
fn booker_paths() {
    assert_eq!(booker_dir(Some("/opt/b"), Some("/home/u")), "/opt/b");
    assert_eq!(booker_dir(Some(""), Some("/home/u")), "/home/u/Applications/maoyan-booker");
    assert_eq!(booker_dir(None, None), "./Applications/maoyan-booker");
    assert_eq!(booker_screenshots_dir("/b"), "/b/screenshots");
    assert_eq!(locked_screenshot("/b"), "/b/screenshots/05_locked.png");
}

#[test]
fn discord_payload_and_target() {
    assert!(is_discord_webhook(Some("https://discord.com/api/webhooks/1/x")));
    assert!(!is_discord_webhook(Some("https://example.com/hook")));
    assert!(!is_discord_webhook(None));
    let p = discord_payload("标题", "正文", Some("https://m"));
    assert_eq!(get_str(&p, "content").as_deref(), Some("**标题**\n正文\n👉 https://m"));
    let p = discord_payload("t", "m", None);
    assert_eq!(get_str(&p, "content").as_deref(), Some("**t**\nm"));
    assert_eq!(after_send(1, false), SendStep::Retry);
    assert_eq!(after_send(3, false), SendStep::GiveUp);
    assert_eq!(after_send(3, true), SendStep::Delivered);
}

#[test]
fn desktop_notice_helpers() {
    assert_eq!(
        macos_script("say \"hi\"", "a\"b"),
        "display notification \"a'b\" with title \"say 'hi'\" sound name \"Glass\""
    );
    assert_eq!(ring_seconds(0), 1);
    assert_eq!(ring_seconds(5), 5);
    assert_eq!(caffeinate_args(77), vec!["-i", "-s", "-w", "77"]);
    assert_eq!(is_caffeinated(false, Some(true)), None);
    assert_eq!(is_caffeinated(true, None), Some(false));
    assert_eq!(is_caffeinated(true, Some(true)), Some(true));
}

#[test]
fn focus_left_right_stay_in_panes() {
    assert_eq!(Focus::Actions.left(), Focus::Actions);
    assert_eq!(Focus::Events.left(), Focus::Detail);
    assert_eq!(Focus::Detail.right(), Focus::Events);
    assert_eq!(Focus::Actions.next(), Focus::Watches);
    assert_eq!(Focus::Watches.prev(), Focus::Actions);
}

fn watch_add_with_mode(mode: &str) -> Cmd {
    Cmd::Watch {
        action: WatchAction::Add {
            movie_id: 9,
            cinema: vec![],
            date: vec![],
            name: None,
            interval: None,
            mode: mode.into(),
            time_window: None,
            notify_webhook: None,
            notify_email: None,
        },
    }
}

#[test]
fn commands_that_read_the_configuration() {
    assert!(!reads_config(&Cmd::Stop));
    assert!(!reads_config(&Cmd::Status));
    assert!(!reads_config(&Cmd::Films { show_type: 1 }));
    assert!(!reads_config(&Cmd::Config { action: ConfigAction::Path }));
    assert!(reads_config(&Cmd::Config { action: ConfigAction::Show }));
    assert!(!reads_config(&Cmd::Cinema { action: CinemaAction::Presets }));
    assert!(!reads_config(&Cmd::Cinema { action: CinemaAction::AddPreset { name: "no-such".into() } }));
    assert!(reads_config(&Cmd::Cinema { action: CinemaAction::AddPreset { name: "上海大光明".into() } }));
    assert!(reads_config(&Cmd::Cinema { action: CinemaAction::List }));
    assert!(reads_config(&watch_add_with_mode("incremental")));
    assert!(!reads_config(&watch_add_with_mode("weekly")));
    assert!(reads_config(&Cmd::Test { kind: None }));
    assert!(reads_config(&Cmd::Test { kind: Some("xhs".into()) }));
    assert!(!reads_config(&Cmd::Test { kind: Some("macos".into()) }));
    assert!(reads_config(&Cmd::Init));
    assert!(reads_config(&Cmd::Doctor));
}
