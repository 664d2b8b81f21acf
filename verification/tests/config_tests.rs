use ticket_tracker::config::{
    add_cinema, add_watch_with, all_cinemas_lock_settled, cinema_lock_exhausted, cinema_lock_ok,
    cinema_lock_tries, clear_lock_state, complete_config, current_mode, default_config,
    find_cinema, find_watch, global_lock_headless, in_time_window, incr_lock_tries,
    lock_keys_changed, mark_lock_ok, mark_presale_fired_at, migrate_per_watch_notify,
    migrate_watch_schema, movie_ids_needing_names, parse_window, remove_cinema, remove_watch,
    seen_shows, set_seen_shows, settle_lock_defaults, touch_last_alert_at, watch_auto_lock,
    watch_imax_only, watch_lock_max_retries, watch_lock_num_seats, watch_lock_seats, watch_mode,
    watch_time_window, timestamp_text, mark_presale_fired, touch_last_alert, ConfigError, LocalTime, Mode, WindowError, DEFAULT_LOCK_MAX_RETRIES,
    DEFAULT_LOCK_NUM_SEATS, MODE_INCREMENTAL, MODE_PRESALE,
};
use ticket_tracker::json::{clone_json, get, set_field, Json};

fn conv(v: &serde_json::Value) -> Json {
    match v {
        serde_json::Value::Null => Json::Null,
        serde_json::Value::Bool(b) => Json::Bool(*b),
        serde_json::Value::Number(n) => {
            if let Some(i) = n.as_i64() {
                Json::Int(i as i128)
            } else if let Some(u) = n.as_u64() {
                Json::Int(u as i128)
            } else {
                Json::Frac(n.to_string())
            }
        }
        serde_json::Value::String(s) => Json::Str(s.clone()),
        serde_json::Value::Array(a) => Json::Arr(a.iter().map(conv).collect()),
        serde_json::Value::Object(o) => {
            Json::Obj(o.iter().map(|(k, v)| (k.clone(), conv(v))).collect())
        }
    }
}

fn j(text: &str) -> Json {
    conv(&serde_json::from_str::<serde_json::Value>(text).unwrap())
}

fn s(x: &str) -> Json {
    Json::Str(x.to_string())
}

fn strs(items: &[&str]) -> Vec<String> {
    items.iter().map(|x| x.to_string()).collect()
}

fn cfg_with_watch(watch: Json) -> Json {
    Json::Obj(vec![("watches".to_string(), Json::Arr(vec![watch]))])
}

fn watch_mut<'a>(cfg: &'a mut Json, id: &str) -> &'a mut Json {
    match cfg {
        Json::Obj(f) => {
            for (k, v) in f.iter_mut() {
                if k == "watches" {
                    if let Json::Arr(ws) = v {
                        for w in ws.iter_mut() {
                            if get(w, "id") == Some(&s(id)) {
                                return w;
                            }
                        }
                    }
                }
            }
            panic!("no watch {id}")
        }
        _ => panic!("not an object"),
    }
}

#[test]
fn watch_mode_defaults_to_presale_for_legacy_watches() {
    assert_eq!(watch_mode(&j(r#"{ "id": "w_1" }"#)), MODE_PRESALE);
    assert_eq!(watch_mode(&j(r#"{ "mode": "乱写" }"#)), MODE_PRESALE);
    assert_eq!(watch_mode(&j(r#"{ "mode": "incremental" }"#)), MODE_INCREMENTAL);
}

#[test]
fn seen_shows_distinguishes_never_baselined_from_empty_baseline() {
    assert_eq!(seen_shows(&j(r#"{ "id": "w_1" }"#), "37534"), None);
    assert_eq!(seen_shows(&j(r#"{ "seen_shows": { "999": [] } }"#), "37534"), None);
    assert_eq!(
        seen_shows(&j(r#"{ "seen_shows": { "37534": [] } }"#), "37534"),
        Some(Vec::new())
    );
    assert_eq!(
        seen_shows(&j(r#"{ "seen_shows": { "37534": ["a"] } }"#), "37534"),
        Some(strs(&["a"]))
    );
}

#[test]
fn set_seen_shows_reports_no_change_when_identical() {
    let mut cfg = cfg_with_watch(j(
        r#"{ "id": "w_1", "seen_shows": { "37534": ["202608090008709"] } }"#,
    ));
    assert!(!set_seen_shows(&mut cfg, "w_1", "37534", &strs(&["202608090008709"])));
}

#[test]
fn set_seen_shows_creates_baseline_on_first_call() {
    let mut cfg = cfg_with_watch(j(r#"{ "id": "w_1" }"#));
    assert!(set_seen_shows(&mut cfg, "w_1", "37534", &strs(&["a", "b"])));
    let w = find_watch(&cfg, "w_1").unwrap();
    assert_eq!(seen_shows(w, "37534"), Some(strs(&["a", "b"])));
}

#[test]
fn set_seen_shows_prunes_disappeared_showtimes() {
    let mut cfg = cfg_with_watch(j(r#"{ "id": "w_1", "seen_shows": { "37534": ["a", "b"] } }"#));
    assert!(set_seen_shows(&mut cfg, "w_1", "37534", &strs(&["b"])));
    let w = find_watch(&cfg, "w_1").unwrap();
    assert_eq!(seen_shows(w, "37534"), Some(strs(&["b"])));
}

#[test]
fn set_seen_shows_keeps_other_cinemas_untouched() {
    let mut cfg = cfg_with_watch(j(
        r#"{ "id": "w_1", "seen_shows": { "37534": ["a"], "42020": ["z"] } }"#,
    ));
    set_seen_shows(&mut cfg, "w_1", "37534", &strs(&["a", "new"]));
    let w = find_watch(&cfg, "w_1").unwrap();
    assert_eq!(seen_shows(w, "42020"), Some(strs(&["z"])));
}

#[test]
fn set_seen_shows_writes_an_ordered_set_and_is_idempotent() {
    let mut cfg = cfg_with_watch(j(r#"{ "id": "w_1", "seen_shows": 5 }"#));
    assert!(set_seen_shows(&mut cfg, "w_1", "1", &strs(&["c", "a", "c", "b"])));
    let w = find_watch(&cfg, "w_1").unwrap();
    assert_eq!(get(w, "seen_shows"), Some(&j(r#"{ "1": ["a", "b", "c"] }"#)));
    let before = clone_json(&cfg);
    assert!(!set_seen_shows(&mut cfg, "w_1", "1", &strs(&["b", "a", "c"])));
    assert_eq!(cfg, before);
    assert!(!set_seen_shows(&mut cfg, "w_9", "1", &strs(&["a"])));
}

fn watch_with_tw(tw: &str) -> Json {
    Json::Obj(vec![("id".to_string(), s("w_1")), ("time_window".to_string(), s(tw))])
}

#[test]
fn watch_time_window_parses_or_returns_none() {
    assert_eq!(watch_time_window(&watch_with_tw("19:00-22:00")), Some((19, 0, 22, 0)));
    assert_eq!(watch_time_window(&watch_with_tw("")), None);
    assert_eq!(watch_time_window(&watch_with_tw("  ")), None);
    assert_eq!(watch_time_window(&j("{}")), None);
    assert_eq!(watch_time_window(&j(r#"{"time_window": null}"#)), None);
    assert_eq!(watch_time_window(&watch_with_tw("乱写")), None);
}

#[test]
fn in_time_window_open_when_unset_or_malformed() {
    let w_no = j("{}");
    for tm in ["00:00", "12:00", "23:59"] {
        assert!(in_time_window(&w_no, tm));
    }
    let w_bad = watch_with_tw("乱写");
    assert!(in_time_window(&w_bad, "12:00"));
    let w_bad_tm = j("{}");
    assert!(in_time_window(&w_bad_tm, "not-a-time"));
}

#[test]
fn in_time_window_inclusive_lo_exclusive_hi() {
    let w = watch_with_tw("19:00-22:00");
    assert!(in_time_window(&w, "19:00"));
    assert!(in_time_window(&w, "21:59"));
    assert!(!in_time_window(&w, "22:00"));
    assert!(!in_time_window(&w, "18:59"));
    assert!(!in_time_window(&w, "23:00"));
    assert!(in_time_window(&w, "not-a-time"));
}

#[test]
fn parse_window_and_current_mode() {
    assert_eq!(parse_window(" 01:00-06:00 ").unwrap(), (1, 0, 6, 0));
    assert!(matches!(parse_window("0100"), Err(WindowError::NoDash)));
    assert!(matches!(parse_window("01-06:00"), Err(WindowError::NoColon(t)) if t == "01"));
    assert!(matches!(parse_window("xx:00-06:00"), Err(WindowError::BadHour)));
    assert!(matches!(parse_window("01:yy-06:00"), Err(WindowError::BadMinute)));
    assert!(matches!(parse_window("24:00-06:00"), Err(WindowError::OutOfRange)));
    assert_eq!(
        WindowError::NoColon("01".to_string()).message(),
        "时段格式错误：'01'"
    );
    assert_eq!(current_mode("01:00-06:00", "06:00-09:00", 1).unwrap(), Mode::Quiet);
    assert_eq!(current_mode("01:00-06:00", "06:00-09:00", 6).unwrap(), Mode::PhoneOnly);
    assert_eq!(current_mode("01:00-06:00", "06:00-09:00", 9).unwrap(), Mode::Normal);
    assert_eq!(current_mode("01:00-06:00", "06:00-09:00", 0).unwrap(), Mode::Normal);
    assert!(current_mode("bad", "06:00-09:00", 3).is_err());
    assert_eq!(Mode::PhoneOnly.as_str(), "phone_only");
}

#[test]
fn global_lock_defaults_headless() {
    assert!(global_lock_headless(&j("{}")));
    assert!(global_lock_headless(&j(r#"{ "lock_headless": false }"#)) == false);
    assert!(global_lock_headless(&j(r#"{ "lock_headless": true }"#)));
}

#[test]
fn watch_lock_defaults_for_legacy_or_out_of_range() {
    assert!(!watch_auto_lock(&j("{}")));
    assert!(!watch_imax_only(&j("{}")));
    assert_eq!(watch_lock_num_seats(&j("{}")), DEFAULT_LOCK_NUM_SEATS);
    assert_eq!(watch_lock_num_seats(&j(r#"{ "lock_num_seats": 0 }"#)), 0);
    assert_eq!(watch_lock_max_retries(&j("{}")), DEFAULT_LOCK_MAX_RETRIES);
    assert_eq!(watch_lock_seats(&j("{}")), Vec::<String>::new());
    assert_eq!(
        watch_lock_seats(&j(r#"{ "lock_seats": ["5排6座", "5排7座"] }"#)),
        vec!["5排6座", "5排7座"]
    );
}

#[test]
fn lock_state_tracks_ok_and_tries() {
    let mut cfg = cfg_with_watch(j(
        r#"{ "id": "w_1", "lock_max_retries": 3, "lock_ok_cinemas": [], "lock_tries": {} }"#,
    ));
    assert!(!cinema_lock_ok(find_watch(&cfg, "w_1").unwrap(), "37534"));
    assert_eq!(cinema_lock_tries(find_watch(&cfg, "w_1").unwrap(), "37534"), 0);

    incr_lock_tries(&mut cfg, "w_1", "37534");
    incr_lock_tries(&mut cfg, "w_1", "37534");
    let w = find_watch(&cfg, "w_1").unwrap();
    assert_eq!(cinema_lock_tries(w, "37534"), 2);
    assert!(!cinema_lock_exhausted(w, "37534"));

    incr_lock_tries(&mut cfg, "w_1", "37534");
    let w = find_watch(&cfg, "w_1").unwrap();
    assert!(cinema_lock_exhausted(w, "37534"));

    mark_lock_ok(&mut cfg, "w_1", "37534");
    let w = find_watch(&cfg, "w_1").unwrap();
    assert!(cinema_lock_ok(w, "37534"));
    assert!(cinema_lock_exhausted(w, "37534") == false);
    assert_eq!(cinema_lock_tries(w, "37534"), 0);
}

#[test]
fn all_cinemas_lock_settled_requires_all_done() {
    let mut cfg = cfg_with_watch(j(
        r#"{ "id": "w_1", "lock_max_retries": 2, "lock_ok_cinemas": [], "lock_tries": {} }"#,
    ));
    let cinemas = vec!["37534".to_string(), "42020".to_string()];
    assert!(!all_cinemas_lock_settled(find_watch(&cfg, "w_1").unwrap(), &cinemas));
    assert!(!all_cinemas_lock_settled(find_watch(&cfg, "w_1").unwrap(), &[]));
    mark_lock_ok(&mut cfg, "w_1", "37534");
    incr_lock_tries(&mut cfg, "w_1", "42020");
    incr_lock_tries(&mut cfg, "w_1", "42020");
    assert!(all_cinemas_lock_settled(find_watch(&cfg, "w_1").unwrap(), &cinemas));
}

#[test]
fn settle_lock_defaults_fills_missing_fields_idempotently() {
    let mut w = j(r#"{ "id": "w_1" }"#);
    settle_lock_defaults(&mut w);
    assert_eq!(get(&w, "auto_lock"), Some(&Json::Bool(false)));
    assert_eq!(get(&w, "imax_only"), Some(&Json::Bool(false)));
    assert_eq!(get(&w, "lock_num_seats"), Some(&Json::Int(DEFAULT_LOCK_NUM_SEATS as i128)));
    assert_eq!(get(&w, "lock_max_retries"), Some(&Json::Int(DEFAULT_LOCK_MAX_RETRIES as i128)));
    assert_eq!(get(&w, "lock_seats"), Some(&Json::Arr(vec![])));
    assert_eq!(get(&w, "lock_ok_cinemas"), Some(&Json::Arr(vec![])));
    assert_eq!(get(&w, "lock_tries"), Some(&Json::Obj(vec![])));
    let mut w2 = j(r#"{ "id": "w_2", "lock_num_seats": 5, "auto_lock": true }"#);
    settle_lock_defaults(&mut w2);
    assert_eq!(get(&w2, "lock_num_seats"), Some(&Json::Int(5)));
    assert_eq!(get(&w2, "auto_lock"), Some(&Json::Bool(true)));
    let once = clone_json(&w2);
    settle_lock_defaults(&mut w2);
    assert_eq!(w2, once);
}

fn w(cinemas: &[&str], dates: Option<&[&str]>, tw: Option<&str>, imax: bool, movie: i64) -> Json {
    let mut v = Json::Obj(vec![
        ("id".to_string(), s("w_1")),
        ("cinemas".to_string(), Json::Arr(cinemas.iter().map(|c| s(c)).collect())),
        ("imax_only".to_string(), Json::Bool(imax)),
        ("movie_id".to_string(), Json::Int(movie as i128)),
    ]);
    if let Some(d) = dates {
        set_field(&mut v, "dates", Json::Arr(d.iter().map(|x| s(x)).collect()));
    }
    if let Some(t) = tw {
        set_field(&mut v, "time_window", s(t));
    }
    v
}

#[test]
fn lock_keys_changed_triggers_on_each_range_field() {
    let base = w(&["37534"], Some(&["2026-08-31"]), Some("19:00-22:00"), true, 1545360);
    assert!(lock_keys_changed(&base, &w(&["42020"], Some(&["2026-08-31"]), Some("19:00-22:00"), true, 1545360)));
    assert!(lock_keys_changed(&base, &w(&["37534", "42020"], Some(&["2026-08-31"]), Some("19:00-22:00"), true, 1545360)));
    assert!(lock_keys_changed(&base, &w(&["37534"], Some(&["2026-09-01"]), Some("19:00-22:00"), true, 1545360)));
    assert!(lock_keys_changed(&base, &w(&["37534"], Some(&[]), Some("19:00-22:00"), true, 1545360)));
    assert!(lock_keys_changed(&base, &w(&["37534"], None, Some("19:00-22:00"), true, 1545360)));
    assert!(lock_keys_changed(&base, &w(&["37534"], Some(&["2026-08-31"]), Some("20:00-22:00"), true, 1545360)));
    assert!(lock_keys_changed(&base, &w(&["37534"], Some(&["2026-08-31"]), None, true, 1545360)));
    assert!(lock_keys_changed(&base, &w(&["37534"], Some(&["2026-08-31"]), Some("19:00-22:00"), false, 1545360)));
    assert!(lock_keys_changed(&base, &w(&["37534"], Some(&["2026-08-31"]), Some("19:00-22:00"), true, 9999999)));
}

#[test]
fn lock_keys_changed_ignores_unrelated_fields() {
    let base = w(&["37534"], Some(&["2026-08-31"]), Some("19:00-22:00"), true, 1545360);
    let mut same = clone_json(&base);
    set_field(&mut same, "wechat_notify", Json::Bool(true));
    set_field(&mut same, "xhs_group", s("another"));
    set_field(&mut same, "notify_webhook", s("https://example/hook"));
    set_field(&mut same, "notify_email_to", s("a@b.com"));
    set_field(&mut same, "auto_lock", Json::Bool(false));
    set_field(&mut same, "lock_num_seats", Json::Int(4));
    set_field(&mut same, "lock_max_retries", Json::Int(5));
    set_field(&mut same, "lock_seats", Json::Arr(vec![s("5排6座"), s("7排8座")]));
    set_field(&mut same, "mode", s("presale"));
    set_field(&mut same, "interval", Json::Int(30));
    assert!(!lock_keys_changed(&base, &same), "无关字段全部改了也应返回 false");

    let null_dates = j(
        r#"{ "id": "w_1", "cinemas": ["37534"], "dates": null, "time_window": "19:00-22:00",
             "imax_only": true, "movie_id": 1545360 }"#,
    );
    let empty_dates = j(
        r#"{ "id": "w_1", "cinemas": ["37534"], "dates": [], "time_window": "19:00-22:00",
             "imax_only": true, "movie_id": 1545360 }"#,
    );
    assert!(!lock_keys_changed(&null_dates, &empty_dates));
}

#[test]
fn clear_lock_state_empties_arrays_and_reports_count() {
    let mut w = j(
        r#"{ "id": "w_1", "lock_ok_cinemas": ["37534", "42020"],
             "lock_tries": { "37534": 2, "42020": 3 } }"#,
    );
    let n = clear_lock_state(&mut w);
    assert_eq!(n, 2);
    assert_eq!(get(&w, "lock_ok_cinemas"), Some(&Json::Arr(vec![])));
    assert_eq!(get(&w, "lock_tries"), Some(&Json::Obj(vec![])));
}

#[test]
fn clear_lock_state_handles_missing_fields_gracefully() {
    let mut w = j(r#"{ "id": "w_1" }"#);
    let n = clear_lock_state(&mut w);
    assert_eq!(n, 0);
    assert_eq!(get(&w, "lock_ok_cinemas"), Some(&Json::Arr(vec![])));
    assert_eq!(get(&w, "lock_tries"), Some(&Json::Obj(vec![])));
}

#[test]
fn edit_clears_lock_state_when_range_changes() {
    let mut cfg = cfg_with_watch(j(
        r#"{ "id": "w_1", "cinemas": ["37534"], "dates": ["2026-08-31"],
             "time_window": "19:00-22:00", "imax_only": true, "movie_id": 1545360,
             "lock_ok_cinemas": ["37534"], "lock_tries": {},
             "seen_shows": { "37534": ["202608310023070"] } }"#,
    ));
    let w_ref = find_watch(&cfg, "w_1").unwrap();
    let mut snap = clone_json(&w_ref);
    set_field(&mut snap, "dates", Json::Arr(vec![s("2026-09-01")]));
    assert!(lock_keys_changed(w_ref, &snap));

    let w = watch_mut(&mut cfg, "w_1");
    set_field(w, "dates", Json::Arr(vec![s("2026-09-01")]));
    let cleared = clear_lock_state(w);
    assert_eq!(cleared, 1);

    let w = find_watch(&cfg, "w_1").unwrap();
    assert!(!cinema_lock_ok(w, "37534"), "锁状态必须被清空");
    assert_eq!(get(w, "lock_ok_cinemas"), Some(&Json::Arr(vec![])));
}

#[test]
fn cinemas_are_added_once_and_removed() {
    let mut cfg = default_config();
    assert_eq!(add_cinema(&mut cfg, "37534", None).unwrap(), true);
    assert_eq!(add_cinema(&mut cfg, "37534", Some("x")).unwrap(), false);
    let c = find_cinema(&cfg, "37534").unwrap();
    assert_eq!(get(c, "name"), Some(&s("影城 37534")));
    assert_eq!(get(c, "builtin"), Some(&Json::Bool(false)));
    assert!(remove_cinema(&mut cfg, "37534"));
    assert!(find_cinema(&cfg, "37534").is_none());
    assert!(!remove_cinema(&mut cfg, "37534"));
    let mut bare = j("{}");
    assert!(matches!(add_cinema(&mut bare, "1", None), Err(ConfigError::MissingCinemas)));
    assert_eq!(ConfigError::MissingCinemas.message(), "config 缺少 cinemas[]");
}

#[test]
fn add_watch_builds_the_watch_and_registers_cinemas() {
    let mut cfg = default_config();
    let dates = strs(&["2026-08-10", "2026-08-09", "2026-08-10"]);
    let id = add_watch_with(
        &mut cfg,
        "w_abc123",
        "2026-01-02T03:04:05",
        1545360,
        &["37534", "42020", "37534"],
        Some(dates.as_slice()),
        Some("奥德赛"),
        None,
        "incremental",
        Some("  19:00-22:00 "),
        None,
        Some("a@b.com"),
        Some("   "),
        true,
        false,
        true,
        2,
        3,
        &[],
    )
    .unwrap();
    assert_eq!(id, "w_abc123");
    let w = find_watch(&cfg, "w_abc123").unwrap();
    assert_eq!(get(w, "dates"), Some(&j(r#"["2026-08-09", "2026-08-10"]"#)));
    assert_eq!(get(w, "time_window"), Some(&s("19:00-22:00")));
    assert_eq!(get(w, "xhs_group"), Some(&Json::Null));
    assert_eq!(get(w, "mode"), Some(&s("incremental")));
    assert_eq!(get(w, "interval"), Some(&Json::Null));
    assert_eq!(get(w, "lock_tries"), Some(&Json::Obj(vec![])));
    assert_eq!(get(w, "created_at"), Some(&s("2026-01-02T03:04:05")));
    assert!(find_cinema(&cfg, "42020").is_some());
    assert_eq!(
        match get(&cfg, "cinemas") {
            Some(Json::Arr(a)) => a.len(),
            _ => 99,
        },
        2
    );
    let bad = add_watch_with(
        &mut cfg, "w_x", "t", 1, &[], None, None, None, "presale", Some("25:00-26:00"), None,
        None, None, false, false, false, 2, 3, &[],
    );
    assert!(matches!(bad, Err(ConfigError::BadTimeWindow(WindowError::OutOfRange))));
    assert!(remove_watch(&mut cfg, "w_abc123"));
    assert!(find_watch(&cfg, "w_abc123").is_none());
}

#[test]
fn alerts_stamp_the_watch() {
    let mut cfg = cfg_with_watch(j(r#"{ "id": "w_1" }"#));
    mark_presale_fired_at(&mut cfg, "w_1", "37534", "T1");
    mark_presale_fired_at(&mut cfg, "w_1", "37534", "T2");
    let w = find_watch(&cfg, "w_1").unwrap();
    assert_eq!(get(w, "presale_fired"), Some(&Json::Bool(true)));
    assert_eq!(get(w, "fired_cinemas"), Some(&j(r#"["37534"]"#)));
    assert_eq!(get(w, "last_alert_at"), Some(&s("T2")));
    touch_last_alert_at(&mut cfg, "w_1", "T3");
    let w = find_watch(&cfg, "w_1").unwrap();
    assert_eq!(get(w, "last_alert_at"), Some(&s("T3")));
}

#[test]
fn loading_completes_and_migrates() {
    let mut cfg = j(r#"{ "version": 1, "cinemas": [], "notify_webhook": "https://h",
        "watches": [ { "id": "w_1", "cinema_id": "37534", "movie_id": 7 },
                     { "id": "w_2", "cinemas": ["1"], "movie_name": "x", "notify_webhook": "own" } ] }"#);
    complete_config(&mut cfg);
    assert_eq!(get(&cfg, "version"), Some(&Json::Int(2)));
    assert_eq!(get(&cfg, "quiet_window"), Some(&s("01:00-06:00")));
    assert_eq!(movie_ids_needing_names(&cfg), vec![7]);
    migrate_watch_schema(&mut cfg, &[(7, Some("名".to_string()))]).unwrap();
    let w1 = find_watch(&cfg, "w_1").unwrap();
    assert_eq!(get(w1, "cinemas"), Some(&j(r#"["37534"]"#)));
    assert_eq!(get(w1, "cinema_id"), None);
    assert_eq!(get(w1, "movie_name"), Some(&s("名")));
    assert_eq!(get(w1, "dates"), Some(&Json::Null));
    assert_eq!(get(w1, "wechat_notify"), Some(&Json::Bool(false)));
    assert!(find_cinema(&cfg, "37534").is_some());
    assert_eq!(movie_ids_needing_names(&cfg), Vec::<i64>::new());
    assert!(migrate_per_watch_notify(&mut cfg));
    let w1 = find_watch(&cfg, "w_1").unwrap();
    assert_eq!(get(w1, "notify_webhook"), Some(&s("https://h")));
    let w2 = find_watch(&cfg, "w_2").unwrap();
    assert_eq!(get(w2, "notify_webhook"), Some(&s("own")));
    assert_eq!(get(&cfg, "notify_webhook"), None);
    assert!(!migrate_per_watch_notify(&mut cfg));
}

#[test]
fn stamps_are_zero_padded() {
    let t = LocalTime { year: 2024, month: 3, day: 5, hour: 7, minute: 8, second: 9 };
    assert_eq!(timestamp_text(&t), "2024-03-05T07:08:09");
    let t = LocalTime { year: 987, month: 12, day: 31, hour: 23, minute: 59, second: 59 };
    assert_eq!(timestamp_text(&t), "0987-12-31T23:59:59");
    let t = LocalTime { year: 12345, month: 1, day: 1, hour: 0, minute: 0, second: 0 };
    assert_eq!(timestamp_text(&t), "+12345-01-01T00:00:00");
    let t = LocalTime { year: -5, month: 1, day: 1, hour: 0, minute: 0, second: 0 };
    assert_eq!(timestamp_text(&t), "-0005-01-01T00:00:00");
}

fn stamp_shaped(s: &str) -> bool {
    let b: Vec<char> = s.chars().collect();
    b.len() == 19
        && b.iter().enumerate().all(|(i, c)| match i {
            4 | 7 => *c == '-',
            10 => *c == 'T',
            13 | 16 => *c == ':',
            _ => c.is_ascii_digit(),
        })
}

#[test]
fn alerts_stamp_the_local_time() {
    let mut cfg = cfg_with_watch(j(r#"{ "id": "w_1" }"#));
    touch_last_alert(&mut cfg, "w_1");
    let w = find_watch(&cfg, "w_1").unwrap();
    match get(w, "last_alert_at") {
        Some(Json::Str(ts)) => assert!(stamp_shaped(ts), "{ts}"),
        other => panic!("{other:?}"),
    }
    mark_presale_fired(&mut cfg, "w_1", "c1");
    let w = find_watch(&cfg, "w_1").unwrap();
    match get(w, "last_alert_at") {
        Some(Json::Str(ts)) => assert!(stamp_shaped(ts), "{ts}"),
        other => panic!("{other:?}"),
    }
}
