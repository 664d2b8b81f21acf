use std::time::Duration;

use ticket_tracker::lock::{
    booker_command_args, classify, early_verdict, final_result, LockArgs, LockOutcome, LockResult,
};

#[test]
fn classify_matches_readme_table() {
    // exit 0 with the lock line: locked
    assert_eq!(classify(Some(0), "[lock] 已尝试锁票成功", ""), LockResult::Locked);
    // exit 0 with a seat choice and no lock line: dry run
    assert_eq!(classify(Some(0), "[seat] 选中: ['H8', 'H9']", ""), LockResult::DryRun);
    // exit 0 with a precise pick in the best area: also a dry run
    assert_eq!(classify(Some(0), "[seat] 手动选中: ['G8', 'G9']", ""), LockResult::DryRun);
    // exit 0 with only the detection line before any choice: unknown
    assert_eq!(
        classify(Some(0), "[seat] 自动检测 11 排 (['A','B'])", ""),
        LockResult::Unknown
    );
    // non-zero exit with a flow error: error first
    assert_eq!(
        classify(Some(1), "[ERROR] 流程异常: 崩了", "traceback"),
        LockResult::Error
    );
    // non-zero exit, show not found: show gone
    assert_eq!(classify(Some(2), "", "找不到场次"), LockResult::ShowGone);
    // non-zero exit with TimeoutError (on stdout too): timeout
    assert_eq!(
        classify(Some(3), "TimeoutError: click 超时", ""),
        LockResult::Timeout
    );
    // non-zero exit, nothing telling: unknown
    assert_eq!(classify(Some(1), "", "啥也没"), LockResult::Unknown);
    // exit 0 without lock or seat lines: unknown
    assert_eq!(classify(Some(0), "[range] 没有可锁场次", ""), LockResult::Unknown);
    // exit 0, no output: unknown
    assert_eq!(classify(Some(0), "", ""), LockResult::Unknown);
}

fn outcome(result: LockResult, stdout: &str, stderr: &str) -> LockOutcome {
    LockOutcome {
        result,
        stdout: stdout.to_string(),
        stderr: stderr.to_string(),
        elapsed: Duration::from_secs(0),
    }
}

#[test]
fn outcome_summary_picks_key_line() {
    let o = outcome(
        LockResult::Locked,
        "[range] 15:30 落入最佳区域 ✓\n[lock] 已尝试锁票成功",
        "",
    );
    assert_eq!(o.summary(), "[lock] 已尝试锁票成功");
    let d = outcome(LockResult::DryRun, "[seat] 选中: ['H8', 'H9'] (平均分 0.487)", "");
    assert_eq!(d.summary(), "[seat] 选中: ['H8', 'H9'] (平均分 0.487)");
    // the detection line coming first is not picked; the precise pick wins
    let z = outcome(
        LockResult::DryRun,
        "[seat] 自动检测 11 排 (['A','B','C'])，偏好: ['G','F']\n\
         [seat] 手动选中: ['G8', 'G9']",
        "",
    );
    assert_eq!(z.summary(), "[seat] 手动选中: ['G8', 'G9']");
    // a failed pick line comes before the detection line
    let f = outcome(
        LockResult::Unknown,
        "[seat] 自动检测 3 排 (['A','B','C'])，偏好: ['B']\n[lock] 20:00 pick 失败: caught",
        "",
    );
    assert_eq!(f.summary(), "[lock] 20:00 pick 失败: caught");
}

#[test]
fn summary_falls_back_to_stderr_then_placeholder() {
    let o = outcome(LockResult::Unknown, "nothing here", "  boom  \n");
    assert_eq!(o.summary(), "boom");
    let long = "x".repeat(250);
    let o = outcome(LockResult::Unknown, "", &long);
    assert_eq!(o.summary().chars().count(), 200);
    let o = outcome(LockResult::Unknown, "", "   ");
    assert_eq!(o.summary(), "(无输出)");
    let o = outcome(LockResult::Unknown, "a\r\n  [range] 19:00 ok  \r\nb", "");
    assert_eq!(o.summary(), "[range] 19:00 ok");
}

#[test]
fn result_flags_and_labels() {
    assert!(LockResult::Locked.succeeded());
    assert!(!LockResult::DryRun.succeeded());
    assert!(!LockResult::Locked.retryable());
    assert!(!LockResult::DryRun.retryable());
    assert!(LockResult::ShowGone.retryable());
    assert!(LockResult::Error.retryable());
    assert!(LockResult::Timeout.retryable());
    assert!(LockResult::Unknown.retryable());
    assert_eq!(LockResult::Locked.label(), "锁成功");
    assert_eq!(LockResult::DryRun.label(), "dry-run（未真锁）");
    assert_eq!(LockResult::ShowGone.label(), "场次没了");
    assert_eq!(LockResult::Error.label(), "流程异常");
    assert_eq!(LockResult::Timeout.label(), "超时");
    assert_eq!(LockResult::Unknown.label(), "未知");
}

#[test]
fn early_verdict_and_final_result() {
    assert_eq!(early_verdict("x\n[lock] 已尝试锁票", true), Some(LockResult::Locked));
    assert_eq!(early_verdict("[seat] 选中: ['A1']", false), Some(LockResult::DryRun));
    assert_eq!(early_verdict("[seat] 选中: ['A1']", true), None);
    assert_eq!(early_verdict("", false), None);
    assert_eq!(
        final_result(Some(LockResult::Timeout), Some(0), "[lock] 已尝试锁票", ""),
        LockResult::Timeout
    );
    assert_eq!(final_result(None, Some(2), "", "找不到场次"), LockResult::ShowGone);
}

#[test]
fn booker_args_follow_the_fields() {
    let a = LockArgs {
        cinema_id: "37534".to_string(),
        movie_id: -12,
        show_date: "2026-08-09".to_string(),
        time_range: Some("19:00-22:00".to_string()),
        num_seats: 2,
        imax_only: true,
        seats: vec![],
        confirm: true,
        headless: false,
    };
    assert_eq!(
        booker_command_args(&a),
        vec![
            "run", "python", "booker.py", "--cinema-id", "37534", "--movie-id", "-12",
            "--show-date", "2026-08-09", "--show-time-range", "19:00-22:00", "--imax-only",
            "--num-seats", "2", "--auto-seat", "manual", "--confirm"
        ]
    );
    let b = LockArgs {
        cinema_id: "1".to_string(),
        movie_id: 1545360,
        show_date: "2026-08-10".to_string(),
        time_range: None,
        num_seats: 4,
        imax_only: false,
        seats: vec!["5排6座".to_string(), "5排7座".to_string()],
        confirm: false,
        headless: true,
    };
    assert_eq!(
        booker_command_args(&b),
        vec![
            "run", "python", "booker.py", "--cinema-id", "1", "--movie-id", "1545360",
            "--show-date", "2026-08-10", "--seat", "5排6座", "--seat", "5排7座", "--headless"
        ]
    );
}
