use ticket_tracker::json::Json;
use ticket_tracker::maoyan::{
    buy_pc_url, buy_pc_url_owned, cinema_api_url, cinema_identity, cinema_payload, film_api_url, find_movie,
    movie_dates, movie_name_from_detail, movie_shows, parse_films_page, ShowInfo,
};

fn conv(v: &serde_json::Value) -> Json {
    match v {
        serde_json::Value::Null => Json::Null,
        serde_json::Value::Bool(b) => Json::Bool(*b),
        serde_json::Value::Number(n) => {
            if let Some(i) = n.as_i64() {
                Json::Int(i as i128)
            } else if let Some(u) = n.as_u64() {
                Json::Int(u as i128)
            } else {
                Json::Frac(n.to_string())
            }
        }
        serde_json::Value::String(s) => Json::Str(s.clone()),
        serde_json::Value::Array(a) => Json::Arr(a.iter().map(conv).collect()),
        serde_json::Value::Object(o) => {
            Json::Obj(o.iter().map(|(k, v)| (k.clone(), conv(v))).collect())
        }
    }
}

fn j(text: &str) -> Json {
    conv(&serde_json::from_str::<serde_json::Value>(text).unwrap())
}

fn sample_movie() -> Json {
    j(r#"{
        "id": 1545360,
        "nm": "奥德赛",
        "showCount": 3,
        "shows": [
            { "showDate": "2026-08-08", "plist": [
                { "seqNo": "202608080026845", "dt": "2026-08-08", "tm": "15:40",
                  "th": "IMAX 激光厅", "tp": "IMAX2D" }
            ]},
            { "showDate": "2026-08-09", "plist": [
                { "seqNo": "202608090008709", "dt": "2026-08-09", "tm": "15:40",
                  "th": "IMAX 激光厅", "tp": "IMAX2D" },
                { "dt": "2026-08-09", "tm": "20:00" }
            ]}
        ]
    }"#)
}

#[test]
fn movie_shows_extracts_seq_no_and_skips_entries_without_it() {
    let shows = movie_shows(&sample_movie());
    let seqs: Vec<&str> = shows.iter().map(|s| s.seq_no.as_str()).collect();
    assert_eq!(seqs, vec!["202608080026845", "202608090008709"]);
}

#[test]
fn movie_shows_sorts_by_date_then_time() {
    let m = j(r#"{ "shows": [{ "plist": [
        { "seqNo": "b", "dt": "2026-08-09", "tm": "22:15" },
        { "seqNo": "c", "dt": "2026-08-10", "tm": "09:00" },
        { "seqNo": "a", "dt": "2026-08-09", "tm": "19:30" }
    ]}]}"#);
    let shows = movie_shows(&m);
    let seqs: Vec<&str> = shows.iter().map(|s| s.seq_no.as_str()).collect();
    assert_eq!(seqs, vec!["a", "b", "c"]);
}

#[test]
fn label_is_human_readable() {
    let shows = movie_shows(&sample_movie());
    assert_eq!(shows[1].label(), "08-09 15:40 IMAX 激光厅 IMAX2D");
}

#[test]
fn movie_shows_on_movie_without_shows_is_empty() {
    assert!(movie_shows(&j(r#"{ "nm": "x" }"#)).is_empty());
}

#[test]
fn movie_shows_reads_numbers_keeps_ties_in_order_and_skips_empty() {
    let m = j(r#"{ "shows": [{ "plist": [
        { "seqNo": 42, "dt": "2026-08-09", "tm": "10:00" },
        { "seqNo": "", "dt": "2026-08-01", "tm": "10:00" },
        { "seqNo": "x", "dt": "2026-08-09", "tm": "10:00" }
    ]}, { "plist": 3 }]}"#);
    let shows = movie_shows(&m);
    let seqs: Vec<&str> = shows.iter().map(|s| s.seq_no.as_str()).collect();
    assert_eq!(seqs, vec!["42", "x"]);
    assert_eq!(shows[0].th, "");
}

#[test]
fn label_handles_short_dates_and_missing_parts() {
    let s = ShowInfo {
        seq_no: "1".into(),
        dt: "2026".into(),
        tm: "09:00".into(),
        th: String::new(),
        tp: "2D".into(),
    };
    assert_eq!(s.label(), "2026 09:00 2D");
    let s = ShowInfo {
        seq_no: "1".into(),
        dt: "八月九号".into(),
        tm: "09:00".into(),
        th: String::new(),
        tp: String::new(),
    };
    assert_eq!(s.label(), "八月九号 09:00");
}

#[test]
fn movie_dates_are_a_sorted_set() {
    assert_eq!(movie_dates(&sample_movie()), vec!["2026-08-08", "2026-08-09"]);
    assert!(movie_dates(&j("{}")).is_empty());
}

#[test]
fn urls_and_payload() {
    assert_eq!(buy_pc_url("37534"), "https://www.maoyan.com/cinema/37534");
    assert_eq!(buy_pc_url_owned("1"), "https://www.maoyan.com/cinema/1");
    assert_eq!(cinema_api_url("7"), "https://m.maoyan.com/ajax/cinemaDetail?cinemaId=7");
    assert_eq!(film_api_url(12), "https://m.maoyan.com/ajax/detailmovie?movieId=12");
    let p = cinema_payload("7", &j(r#"{ "showData": { "cinemaName": "A", "movies": [1] } }"#));
    assert_eq!(p, j(r#"{ "cinema_id": "7", "cinema_name": "A", "movies": [1] }"#));
    let p = cinema_payload("7", &j("{}"));
    assert_eq!(p, j(r#"{ "cinema_id": "7", "cinema_name": "影城 7", "movies": [] }"#));
}

#[test]
fn find_movie_prefers_id_then_keyword() {
    let p = j(r#"{ "movies": [ { "id": 1, "nm": "奥德赛 IMAX" }, { "id": 2, "nm": "别的" } ] }"#);
    assert_eq!(find_movie(&p, 2, &["奥德赛"]), Some(&j(r#"{ "id": 2, "nm": "别的" }"#)));
    assert_eq!(find_movie(&p, 9, &["", "奥德赛"]), Some(&j(r#"{ "id": 1, "nm": "奥德赛 IMAX" }"#)));
    assert_eq!(find_movie(&p, 9, &[""]), None);
    assert_eq!(find_movie(&j("{}"), 1, &["x"]), None);
}

#[test]
fn movie_name_from_detail_reply() {
    assert_eq!(movie_name_from_detail(&j(r#"{ "detailMovie": { "nm": "A" } }"#)), Some("A".into()));
    assert_eq!(movie_name_from_detail(&j(r#"{ "movie": { "nm": "B" } }"#)), Some("B".into()));
    assert_eq!(movie_name_from_detail(&j(r#"{ "nm": "C" }"#)), Some("C".into()));
    assert_eq!(movie_name_from_detail(&j(r#"{ "detailMovie": null, "nm": "C" }"#)), None);
}

#[test]
fn films_page_is_parsed_into_sorted_unique_films() {
    let body = r#"<div><a href="/films/1545360" class="x"> 奥德赛 </a>
        <a href="/films/22">B</a><a href="/films/1545360">重复</a>
        <a href="/films/abc">no</a></div>"#;
    assert_eq!(
        parse_films_page(body),
        vec![
            ("1545360".to_string(), "奥德赛".to_string()),
            ("22".to_string(), "B".to_string())
        ]
    );
    assert!(parse_films_page("<p>none</p>").is_empty());
}

#[test]
fn cinema_identity_prefers_payload_fields() {
    let p = j(r#"{ "cinema_id": "26845", "cinema_name": "万达影城" }"#);
    assert_eq!(cinema_identity("1", &p), ("26845".to_string(), "万达影城".to_string()));
    assert_eq!(cinema_identity("77", &j("{}")), ("77".to_string(), String::new()));
}
