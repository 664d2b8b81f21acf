//! Seat locking through the external booker program.
//!
//! The booker is run as a child process by the program; this module decides
//! its argument list, reads its output and classifies the run:
//!   - locked: exit code 0 and stdout holds `[lock] 已尝试锁票`
//!   - dry run: exit code 0 and stdout holds `[seat] 选中:` or `[seat] 手动选中:`
//!   - flow error: non-zero exit and the output holds `[ERROR] 流程异常:`
//!   - show gone: non-zero exit and the output holds `找不到场次`
//!   - timeout: non-zero exit and the output holds `TimeoutError`

use vstd::prelude::*;

use crate::text::{
    append_str, chars_of, contains_s, contains_str, dec_text, i64_text, occurs_at, owned, signed_text, split_newlines,
    split_nl, string_of_range, trim, trim_s, u64_text, views_of,
};

verus! {

/// Seconds a booker run may take before it is killed.
pub const LOCK_TIMEOUT_SECS: u64 = 180;

/// Minutes the user has to pay for a locked order in the app.
pub const PAY_WINDOW_MINUTES: u64 = 15;

/// The class of one booker run.
#[derive(Debug, Clone, Copy, PartialEq, Eq, Structural)]
pub enum LockResult {
    /// Seats locked; payment is due within the pay window.
    Locked,
    /// Run without `--confirm`: seats chosen, nothing locked.
    DryRun,
    /// The show is gone or could not be matched.
    ShowGone,
    /// The booker reported a flow error.
    Error,
    /// A click or a page load timed out, or the run was killed.
    Timeout,
    /// Anything else.
    Unknown,
}

pub open spec fn lock_label(r: LockResult) -> Seq<char> {
    match r {
        LockResult::Locked => "锁成功"@,
        LockResult::DryRun => "dry-run（未真锁）"@,
        LockResult::ShowGone => "场次没了"@,
        LockResult::Error => "流程异常"@,
        LockResult::Timeout => "超时"@,
        LockResult::Unknown => "未知"@,
    }
}

/// Results that use up one retry of the cinema.
pub open spec fn is_retryable(r: LockResult) -> bool {
    r is ShowGone || r is Error || r is Timeout || r is Unknown
}

impl LockResult {
    /// Whether seats were really locked.
    pub fn succeeded(self) -> (r: bool)
        ensures
            r == (self == LockResult::Locked),
    {
        matches!(self, LockResult::Locked)
    }

    /// Whether another attempt at the same cinema is worth it.
    pub fn retryable(self) -> (r: bool)
        ensures
            r == is_retryable(self),
    {
        matches!(self, LockResult::ShowGone | LockResult::Error | LockResult::Timeout | LockResult::Unknown)
    }

    /// Short name for notices and logs.
    pub fn label(self) -> (r: &'static str)
        ensures
            r@ == lock_label(self),
    {
        match self {
            LockResult::Locked => "锁成功",
            LockResult::DryRun => "dry-run（未真锁）",
            LockResult::ShowGone => "场次没了",
            LockResult::Error => "流程异常",
            LockResult::Timeout => "超时",
            LockResult::Unknown => "未知",
        }
    }
}

/// Everything the booker needs for one run.
#[derive(Debug, Clone)]
pub struct LockArgs {
    pub cinema_id: String,
    pub movie_id: i64,
    /// Show date `YYYY-MM-DD` (`--show-date`).
    pub show_date: String,
    /// `--show-time-range "HH:MM-HH:MM"`; `None` lets the booker rank the whole day.
    pub time_range: Option<String>,
    /// `--num-seats`, used when `seats` is empty.
    pub num_seats: u64,
    /// `--imax-only`.
    pub imax_only: bool,
    /// `--seat "X排Y座"`, one flag per seat; overrides automatic choice.
    pub seats: Vec<String>,
    /// `--confirm` locks for real; without it the run is a dry run.
    pub confirm: bool,
    /// `--headless`.
    pub headless: bool,
}

/// The `--seat` flags for `seats`, in order.
pub open spec fn seat_flags(seats: Seq<Seq<char>>) -> Seq<Seq<char>>
    decreases seats.len(),
{
    if seats.len() == 0 {
        Seq::empty()
    } else {
        seat_flags(seats.drop_last()) + seq!["--seat"@, seats.last()]
    }
}

/// The arguments given to `uv` to run the booker for `a`.
pub open spec fn booker_args(a: LockArgs) -> Seq<Seq<char>> {
    let head = seq![
        "run"@,
        "python"@,
        "booker.py"@,
        "--cinema-id"@,
        a.cinema_id@,
        "--movie-id"@,
        signed_text(a.movie_id as int),
        "--show-date"@,
        a.show_date@,
    ];
    let range = match a.time_range {
        Some(r) => seq!["--show-time-range"@, r@],
        None => Seq::empty(),
    };
    let imax = if a.imax_only {
        seq!["--imax-only"@]
    } else {
        Seq::empty()
    };
    let seats = if a.seats@.len() == 0 {
        seq!["--num-seats"@, dec_text(a.num_seats as nat), "--auto-seat"@, "manual"@]
    } else {
        seat_flags(views_of(a.seats@))
    };
    let confirm = if a.confirm {
        seq!["--confirm"@]
    } else {
        Seq::empty()
    };
    let headless = if a.headless {
        seq!["--headless"@]
    } else {
        Seq::empty()
    };
    head + range + imax + seats + confirm + headless
}

/// No value the user gives to the booker (cinema, date, time range, seats)
/// is the text `f`.
pub open spec fn no_value_is(a: LockArgs, f: Seq<char>) -> bool {
    &&& a.cinema_id@ != f
    &&& a.show_date@ != f
    &&& (a.time_range matches Some(r) ==> r@ != f)
    &&& forall|i: int| 0 <= i < a.seats@.len() ==> (#[trigger] a.seats@[i])@ != f
}

/// The booker locks for real exactly when it is given `--confirm`, and runs
/// without a window exactly when it is given `--headless`. `--confirm` is
/// among the arguments when `confirm` is set and `--headless` when
/// `headless` is set, each whatever the other flag is (`--confirm` comes
/// right before a trailing `--headless`); unless the user's own values
/// spell a flag, neither is there when its setting is off.
pub proof fn law_booker_flags(a: LockArgs)
    ensures
        a.confirm ==> booker_args(a).contains("--confirm"@),
        a.headless ==> booker_args(a).contains("--headless"@),
        a.headless ==> booker_args(a).last() == "--headless"@,
        a.confirm ==> booker_args(a)[booker_args(a).len() - 1 - (if a.headless {
            1int
        } else {
            0int
        })] == "--confirm"@,
        no_value_is(a, "--confirm"@) ==> (booker_args(a).contains("--confirm"@) <==> a.confirm),
        no_value_is(a, "--headless"@) ==> (booker_args(a).contains("--headless"@) <==> a.headless),
{
    reveal_strlit("--confirm");
    reveal_strlit("--headless");
    let args = booker_args(a);
    let h: Seq<Seq<char>> = if a.headless {
        seq!["--headless"@]
    } else {
        Seq::empty()
    };
    let c: Seq<Seq<char>> = if a.confirm {
        seq!["--confirm"@]
    } else {
        Seq::empty()
    };
    let x = args.take(args.len() - h.len() - c.len());
    assert(args =~= x + c + h);
    if a.headless {
        assert(args[args.len() - 1] == "--headless"@);
        assert(args.contains("--headless"@));
    }
    if a.confirm {
        assert(args[x.len() as int] == "--confirm"@);
        assert(args.contains("--confirm"@));
    }
    if no_value_is(a, "--confirm"@) && !a.confirm {
        lemma_no_flag_in_body(a, "--confirm"@);
        lemma_not_in_add(x, h, "--confirm"@);
        assert(args =~= x + h);
    }
    if no_value_is(a, "--headless"@) && !a.headless {
        lemma_no_flag_in_body(a, "--headless"@);
        lemma_not_in_add(x, c, "--headless"@);
        assert(args =~= x + c);
    }
}

proof fn lemma_not_in_add(x: Seq<Seq<char>>, y: Seq<Seq<char>>, f: Seq<char>)
    requires
        !x.contains(f),
        forall|j: int| 0 <= j < y.len() ==> y[j] != f,
    ensures
        !(x + y).contains(f),
{
    if (x + y).contains(f) {
        let j = choose|j: int| 0 <= j < (x + y).len() && (x + y)[j] == f;
        if j < x.len() {
            assert(x[j] == f);
        } else {
            assert(y[j - x.len()] == f);
        }
    }
}

/// The last character of a decimal text is a digit.
proof fn lemma_dec_text_last(n: nat)
    ensures
        dec_text(n).len() > 0,
        dec_text(n).last() == crate::text::digit_char(n % 10),
    decreases n,
{
    if n >= 10 {
        lemma_dec_text_last(n / 10);
    }
}

proof fn lemma_seat_flags_items(seats: Seq<Seq<char>>, j: int)
    requires
        0 <= j < seat_flags(seats).len(),
    ensures
        seat_flags(seats)[j] == "--seat"@ || seats.contains(seat_flags(seats)[j]),
    decreases seats.len(),
{
    if seats.len() > 0 {
        let p = seat_flags(seats.drop_last());
        if j < p.len() {
            lemma_seat_flags_items(seats.drop_last(), j);
            if seats.drop_last().contains(p[j]) {
                let k = choose|k: int| 0 <= k < seats.drop_last().len() && seats.drop_last()[k] == p[j];
                assert(seats[k] == p[j]);
            }
        } else if j > p.len() {
            assert(seats[seats.len() - 1] == seats.last());
        }
    }
}

/// The arguments before `--confirm` and `--headless` hold neither flag when
/// no value of the user's spells it.
proof fn lemma_no_flag_in_body(a: LockArgs, f: Seq<char>)
    requires
        f == "--confirm"@ || f == "--headless"@,
        no_value_is(a, f),
    ensures
        !({
            let args = booker_args(a);
            let h: Seq<Seq<char>> = if a.headless {
                seq!["--headless"@]
            } else {
                Seq::empty()
            };
            let c: Seq<Seq<char>> = if a.confirm {
                seq!["--confirm"@]
            } else {
                Seq::empty()
            };
            args.take(args.len() - h.len() - c.len())
        }).contains(f),
{
    reveal_strlit("--confirm");
    reveal_strlit("--headless");
    reveal_strlit("run");
    reveal_strlit("python");
    reveal_strlit("booker.py");
    reveal_strlit("--cinema-id");
    reveal_strlit("--movie-id");
    reveal_strlit("--show-date");
    reveal_strlit("--show-time-range");
    reveal_strlit("--imax-only");
    reveal_strlit("--num-seats");
    reveal_strlit("--auto-seat");
    reveal_strlit("manual");
    reveal_strlit("--seat");
    assert("--confirm"@.len() == 9 && "--confirm"@[8] == 'm');
    assert("--headless"@.len() == 10 && "--headless"@[9] == 's');
    assert("run"@.len() == 3 && "python"@.len() == 6 && "booker.py"@.len() == 9 && "booker.py"@[8]
        == 'y');
    assert("--cinema-id"@.len() == 11 && "--movie-id"@.len() == 10 && "--movie-id"@[9] == 'd');
    assert("--show-date"@.len() == 11 && "--show-time-range"@.len() == 17 && "--imax-only"@.len()
        == 11);
    assert("--num-seats"@.len() == 11 && "--auto-seat"@.len() == 11 && "manual"@.len() == 6
        && "--seat"@.len() == 6);
    let args = booker_args(a);
    let h: Seq<Seq<char>> = if a.headless {
        seq!["--headless"@]
    } else {
        Seq::empty()
    };
    let c: Seq<Seq<char>> = if a.confirm {
        seq!["--confirm"@]
    } else {
        Seq::empty()
    };
    let head = seq![
        "run"@,
        "python"@,
        "booker.py"@,
        "--cinema-id"@,
        a.cinema_id@,
        "--movie-id"@,
        signed_text(a.movie_id as int),
        "--show-date"@,
        a.show_date@,
    ];
    let range = match a.time_range {
        Some(r) => seq!["--show-time-range"@, r@],
        None => Seq::empty(),
    };
    let imax: Seq<Seq<char>> = if a.imax_only {
        seq!["--imax-only"@]
    } else {
        Seq::empty()
    };
    let seats = if a.seats@.len() == 0 {
        seq!["--num-seats"@, dec_text(a.num_seats as nat), "--auto-seat"@, "manual"@]
    } else {
        seat_flags(views_of(a.seats@))
    };
    let body = head + range + imax + seats;
    assert(args.take(args.len() - h.len() - c.len()) =~= body);
    let mid = signed_text(a.movie_id as int);
    let mag: nat = if a.movie_id < 0 {
        (-a.movie_id) as nat
    } else {
        a.movie_id as nat
    };
    lemma_dec_text_last(mag);
    assert(mid.last() == dec_text(mag).last());
    lemma_dec_text_last(a.num_seats as nat);
    assert forall|j: int| 0 <= j < body.len() implies body[j] != f by {
        if j < head.len() {
            assert(body[j] == head[j]);
            if j == 6 {
                assert(mid.last() != f.last());
            }
        } else if j < head.len() + range.len() {
            assert(body[j] == range[j - head.len()]);
        } else if j < head.len() + range.len() + imax.len() {
            assert(body[j] == imax[j - head.len() - range.len()]);
        } else {
            let k = j - head.len() - range.len() - imax.len();
            assert(body[j] == seats[k]);
            if a.seats@.len() == 0 {
                if k == 1 {
                    assert(dec_text(a.num_seats as nat).last() != f.last());
                }
            } else {
                lemma_seat_flags_items(views_of(a.seats@), k);
                if views_of(a.seats@).contains(seats[k]) {
                    let q = choose|q: int| 0 <= q < views_of(a.seats@).len() && views_of(a.seats@)[q] == seats[k];
                    assert(a.seats@[q]@ != f);
                }
            }
        }
    }
}

fn push_arg(out: &mut Vec<String>, s: &str)
    ensures
        views_of(final(out)@) == views_of(old(out)@).push(s@),
{
    out.push(owned(s));
    assert(views_of(final(out)@) =~= views_of(old(out)@).push(s@));
}

/// The argument list of the booker command (the program is `uv`).
pub fn booker_command_args(a: &LockArgs) -> (r: Vec<String>)
    ensures
        views_of(r@) == booker_args(*a),
{
    let mut out: Vec<String> = Vec::new();
    push_arg(&mut out, "run");
    push_arg(&mut out, "python");
    push_arg(&mut out, "booker.py");
    push_arg(&mut out, "--cinema-id");
    push_arg(&mut out, a.cinema_id.as_str());
    push_arg(&mut out, "--movie-id");
    let mid = i64_text(a.movie_id);
    push_arg(&mut out, mid.as_str());
    push_arg(&mut out, "--show-date");
    push_arg(&mut out, a.show_date.as_str());
    let ghost head = views_of(out@);
    match &a.time_range {
        Some(r) => {
            push_arg(&mut out, "--show-time-range");
            push_arg(&mut out, r.as_str());
        },
        None => {},
    }
    let ghost with_range = views_of(out@);
    if a.imax_only {
        push_arg(&mut out, "--imax-only");
    }
    let ghost with_imax = views_of(out@);
    if a.seats.len() == 0 {
        push_arg(&mut out, "--num-seats");
        let ns = u64_text(a.num_seats);
        push_arg(&mut out, ns.as_str());
        push_arg(&mut out, "--auto-seat");
        push_arg(&mut out, "manual");
    } else {
        let mut i: usize = 0;
        assert(views_of(a.seats@).take(0) =~= Seq::<Seq<char>>::empty());
        assert(with_imax + seat_flags(Seq::<Seq<char>>::empty()) =~= with_imax);
        while i < a.seats.len()
            invariant
                i <= a.seats@.len(),
                views_of(out@) == with_imax + seat_flags(views_of(a.seats@).take(i as int)),
            decreases a.seats.len() - i,
        {
            push_arg(&mut out, "--seat");
            push_arg(&mut out, a.seats[i].as_str());
            proof {
                let t = views_of(a.seats@).take(i + 1);
                assert(t.drop_last() =~= views_of(a.seats@).take(i as int));
                assert(t.last() == a.seats@[i as int]@);
                assert(views_of(out@) =~= with_imax + seat_flags(t));
            }
            i = i + 1;
        }
        assert(views_of(a.seats@).take(a.seats@.len() as int) =~= views_of(a.seats@));
    }
    let ghost with_seats = views_of(out@);
    if a.confirm {
        push_arg(&mut out, "--confirm");
    }
    let ghost with_confirm = views_of(out@);
    if a.headless {
        push_arg(&mut out, "--headless");
    }
    proof {
        assert(head =~= seq![
            "run"@,
            "python"@,
            "booker.py"@,
            "--cinema-id"@,
            a.cinema_id@,
            "--movie-id"@,
            signed_text(a.movie_id as int),
            "--show-date"@,
            a.show_date@,
        ]);
        let b = booker_args(*a);
        assert(views_of(out@) =~= b);
    }
    out
}

// ----------------------------------------------------------------------
// Reading the output
// ----------------------------------------------------------------------

/// Classifies a finished run by its exit code and output.
pub open spec fn classify_s(rc: Option<i32>, stdout: Seq<char>, stderr: Seq<char>) -> LockResult {
    if rc == Some(0i32) {
        if contains_s(stdout, "[lock] 已尝试锁票"@) {
            LockResult::Locked
        } else if contains_s(stdout, "[seat] 选中:"@) || contains_s(stdout, "[seat] 手动选中:"@) {
            LockResult::DryRun
        } else {
            LockResult::Unknown
        }
    } else {
        let all = stdout + "\n"@ + stderr;
        if contains_s(all, "[ERROR] 流程异常:"@) {
            LockResult::Error
        } else if contains_s(all, "找不到场次"@) {
            LockResult::ShowGone
        } else if contains_s(all, "TimeoutError"@) {
            LockResult::Timeout
        } else {
            LockResult::Unknown
        }
    }
}

/// Puts `(exit code, stdout, stderr)` of a booker run into its class.
pub fn classify(rc: Option<i32>, stdout: &str, stderr: &str) -> (r: LockResult)
    ensures
        r == classify_s(rc, stdout@, stderr@),
{
    match rc {
        Some(0) => {
            if contains_str(stdout, "[lock] 已尝试锁票") {
                LockResult::Locked
            } else if contains_str(stdout, "[seat] 选中:") || contains_str(
                stdout,
                "[seat] 手动选中:",
            ) {
                LockResult::DryRun
            } else {
                LockResult::Unknown
            }
        },
        _ => {
            let mut all = owned(stdout);
            append_str(&mut all, "\n");
            append_str(&mut all, stderr);
            if contains_str(all.as_str(), "[ERROR] 流程异常:") {
                LockResult::Error
            } else if contains_str(all.as_str(), "找不到场次") {
                LockResult::ShowGone
            } else if contains_str(all.as_str(), "TimeoutError") {
                LockResult::Timeout
            } else {
                LockResult::Unknown
            }
        },
    }
}

/// A run that exits with 0 is locked exactly when its stdout holds the lock
/// line `[lock] 已尝试锁票`, whatever seat lines it also holds (a real run
/// prints the seat choice before the lock line); it is a dry run exactly
/// when its stdout holds a seat line and no lock line. A run that does not
/// exit with 0 is neither locked nor a dry run.
pub proof fn law_classify_lock_line(rc: Option<i32>, stdout: Seq<char>, stderr: Seq<char>)
    ensures
        (classify_s(rc, stdout, stderr) == LockResult::Locked) <==> (rc == Some(0i32) && contains_s(
            stdout,
            "[lock] 已尝试锁票"@,
        )),
        (classify_s(rc, stdout, stderr) == LockResult::DryRun) <==> (rc == Some(0i32) && !contains_s(
            stdout,
            "[lock] 已尝试锁票"@,
        ) && (contains_s(stdout, "[seat] 选中:"@) || contains_s(stdout, "[seat] 手动选中:"@))),
        rc == Some(0i32) && !contains_s(stdout, "[lock] 已尝试锁票"@) && !contains_s(stdout, "[seat] 选中:"@)
            && !contains_s(stdout, "[seat] 手动选中:"@) ==> classify_s(rc, stdout, stderr) == LockResult::Unknown,
{
}

/// The verdict that can be given while the booker is still running, from
/// the stdout read so far: a lock line settles it as locked; without
/// `--confirm` a seat choice settles it as a dry run.
pub open spec fn early_verdict_s(stdout: Seq<char>, confirm: bool) -> Option<LockResult> {
    if contains_s(stdout, "[lock] 已尝试锁票"@) {
        Some(LockResult::Locked)
    } else if !confirm && (contains_s(stdout, "[seat] 选中:"@) || contains_s(
        stdout,
        "[seat] 手动选中:"@,
    )) {
        Some(LockResult::DryRun)
    } else {
        None
    }
}

/// A run that does not exit with 0 is a flow error when its output (stdout,
/// then stderr) holds `[ERROR] 流程异常:`; otherwise the show is gone when
/// it holds `找不到场次`; otherwise it timed out when it holds
/// `TimeoutError`; a run with none of the markers of its exit is unknown.
pub proof fn law_classify_failed_run(rc: Option<i32>, stdout: Seq<char>, stderr: Seq<char>)
    requires
        rc != Some(0i32),
    ensures
        ({
            let all = stdout + "\n"@ + stderr;
            let r = classify_s(rc, stdout, stderr);
            &&& contains_s(all, "[ERROR] 流程异常:"@) ==> r == LockResult::Error
            &&& !contains_s(all, "[ERROR] 流程异常:"@) && contains_s(all, "找不到场次"@) ==> r
                == LockResult::ShowGone
            &&& !contains_s(all, "[ERROR] 流程异常:"@) && !contains_s(all, "找不到场次"@)
                && contains_s(all, "TimeoutError"@) ==> r == LockResult::Timeout
            &&& !contains_s(all, "[ERROR] 流程异常:"@) && !contains_s(all, "找不到场次"@)
                && !contains_s(all, "TimeoutError"@) ==> r == LockResult::Unknown
        }),
{
}

/// An early verdict of locked stands: the finished run, exiting with 0 and
/// with more output after what was read, is classified locked too.
pub proof fn law_early_locked_stands(read: Seq<char>, rest: Seq<char>, stderr: Seq<char>, confirm: bool)
    requires
        early_verdict_s(read, confirm) == Some(LockResult::Locked),
    ensures
        classify_s(Some(0i32), read + rest, stderr) == LockResult::Locked,
{
    let lock = "[lock] 已尝试锁票"@;
    let i = choose|i: int| occurs_at(read, lock, i);
    assert((read + rest).subrange(i, i + lock.len()) =~= read.subrange(i, i + lock.len()));
    assert(occurs_at(read + rest, lock, i));
}

pub fn early_verdict(stdout: &str, confirm: bool) -> (r: Option<LockResult>)
    ensures
        r == early_verdict_s(stdout@, confirm),
{
    if contains_str(stdout, "[lock] 已尝试锁票") {
        Some(LockResult::Locked)
    } else if !confirm && (contains_str(stdout, "[seat] 选中:") || contains_str(
        stdout,
        "[seat] 手动选中:",
    )) {
        Some(LockResult::DryRun)
    } else {
        None
    }
}

/// The final class of a run: the early verdict when there was one (a kill
/// on timeout counts as one), else the class of the exit code and output.
pub fn final_result(decided: Option<LockResult>, rc: Option<i32>, stdout: &str, stderr: &str) -> (r:
    LockResult)
    ensures
        r == match decided {
            Some(d) => d,
            None => classify_s(rc, stdout@, stderr@),
        },
{
    match decided {
        Some(d) => d,
        None => classify(rc, stdout, stderr),
    }
}

// ----------------------------------------------------------------------
// Outcome summary
// ----------------------------------------------------------------------

/// The first of `lines` that contains `m`.
pub open spec fn first_containing(lines: Seq<Seq<char>>, m: Seq<char>) -> Option<Seq<char>>
    decreases lines.len(),
{
    if lines.len() == 0 {
        None
    } else if contains_s(lines[0], m) {
        Some(lines[0])
    } else {
        first_containing(lines.drop_first(), m)
    }
}

/// The markers of a summary line, most telling first.
pub open spec fn summary_markers() -> Seq<Seq<char>> {
    seq![
        "[lock] 已尝试锁票"@,
        "[seat] 手动选中:"@,
        "[seat] 选中:"@,
        "[lock]"@,
        "[range]"@,
        "[ERROR] 流程异常:"@,
    ]
}

/// The first line holding the first marker that any line holds.
pub open spec fn pick_line(lines: Seq<Seq<char>>, markers: Seq<Seq<char>>) -> Option<Seq<char>>
    decreases markers.len(),
{
    if markers.len() == 0 {
        None
    } else {
        match first_containing(lines, markers[0]) {
            Some(l) => Some(l),
            None => pick_line(lines, markers.drop_first()),
        }
    }
}

/// The summary of a run: the picked stdout line trimmed; else the first 200
/// characters of the trimmed stderr; else `(无输出)`.
pub open spec fn summary_text(stdout: Seq<char>, stderr: Seq<char>) -> Seq<char> {
    match pick_line(split_nl(stdout), summary_markers()) {
        Some(l) => trim_s(l),
        None => {
            let ss = trim_s(stderr);
            if ss.len() == 0 {
                "(无输出)"@
            } else if ss.len() <= 200 {
                ss
            } else {
                ss.take(200)
            }
        },
    }
}

fn find_line(lines: &Vec<String>, m: &str) -> (r: Option<usize>)
    ensures
        match r {
            Some(i) => i < lines@.len() && first_containing(views_of(lines@), m@) == Some(
                lines@[i as int]@,
            ),
            None => first_containing(views_of(lines@), m@) is None,
        },
{
    let mut i: usize = 0;
    assert(views_of(lines@).skip(0) =~= views_of(lines@));
    while i < lines.len()
        invariant
            i <= lines@.len(),
            first_containing(views_of(lines@), m@) == first_containing(
                views_of(lines@).skip(i as int),
                m@,
            ),
        decreases lines.len() - i,
    {
        let ghost t = views_of(lines@).skip(i as int);
        assert(t[0] == lines@[i as int]@);
        if contains_str(lines[i].as_str(), m) {
            return Some(i);
        }
        assert(t.drop_first() =~= views_of(lines@).skip(i + 1));
        i = i + 1;
    }
    assert(views_of(lines@).skip(i as int) =~= Seq::<Seq<char>>::empty());
    None
}

/// One run of the booker, as the notices see it.
#[derive(Debug)]
pub struct LockOutcome {
    pub result: LockResult,
    pub stdout: String,
    pub stderr: String,
    pub elapsed: core::time::Duration,
}

impl LockOutcome {
    /// The most telling stdout line for a notice, by the marker order of
    /// [`summary_markers`]; a seat-detection debug line is never picked.
    pub fn summary(&self) -> (r: String)
        ensures
            r@ == summary_text(self.stdout@, self.stderr@),
    {
        let lines = split_newlines(self.stdout.as_str());
        let ghost ls = views_of(lines@);
        let ghost ms = summary_markers();
        proof {
            reveal_with_fuel(pick_line, 7);
        }
        let found = match find_line(&lines, "[lock] 已尝试锁票") {
            Some(i) => Some(i),
            None => match find_line(&lines, "[seat] 手动选中:") {
                Some(i) => Some(i),
                None => match find_line(&lines, "[seat] 选中:") {
                    Some(i) => Some(i),
                    None => match find_line(&lines, "[lock]") {
                        Some(i) => Some(i),
                        None => match find_line(&lines, "[range]") {
                            Some(i) => Some(i),
                            None => find_line(&lines, "[ERROR] 流程异常:"),
                        },
                    },
                },
            },
        };
        proof {
            assert(ms.drop_first().drop_first().drop_first().drop_first().drop_first().drop_first()
                =~= Seq::<Seq<char>>::empty());
        }
        match found {
            Some(i) => {
                assert(pick_line(ls, ms) == Some(lines@[i as int]@));
                trim(lines[i].as_str())
            },
            None => {
                assert(pick_line(ls, ms) is None);
                let ss = trim(self.stderr.as_str());
                let v = chars_of(ss.as_str());
                if v.len() == 0 {
                    owned("(无输出)")
                } else if v.len() <= 200 {
                    ss
                } else {
                    let r = string_of_range(&v, 0, 200);
                    assert(v@.subrange(0, 200) =~= v@.take(200));
                    r
                }
            },
        }
    }
}

// ----------------------------------------------------------------------
// Where the booker lives
// ----------------------------------------------------------------------

/// The booker's directory: `MAOYAN_BOOKER_DIR` when set and not empty,
/// else `Applications/maoyan-booker` in the home directory (or in `.`).
pub open spec fn booker_dir_s(env: Option<Seq<char>>, home: Option<Seq<char>>) -> Seq<char> {
    match env {
        Some(d) if d.len() > 0 => d,
        _ => crate::paths::joined_path(
            crate::paths::joined_path(
                match home {
                    Some(h) => h,
                    None => "."@,
                },
                "Applications"@,
            ),
            "maoyan-booker"@,
        ),
    }
}

/// The booker's directory, from `MAOYAN_BOOKER_DIR` and `HOME`.
pub fn booker_dir(env: Option<&str>, home: Option<&str>) -> (r: String)
    ensures
        r@ == booker_dir_s(crate::paths::opt_text(env), crate::paths::opt_text(home)),
{
    match env {
        Some(d) => {
            if d.unicode_len() > 0 {
                return owned(d);
            }
        },
        None => {},
    }
    let h = match home {
        Some(h) => h,
        None => ".",
    };
    let a = crate::paths::join_path(h, "Applications");
    crate::paths::join_path(a.as_str(), "maoyan-booker")
}

/// The booker's screenshots directory.
pub fn booker_screenshots_dir(booker_dir: &str) -> (r: String)
    ensures
        r@ == crate::paths::joined_path(booker_dir@, "screenshots"@),
{
    crate::paths::join_path(booker_dir, "screenshots")
}

/// The screenshot the booker takes once it has locked seats.
pub fn locked_screenshot(booker_dir: &str) -> (r: String)
    ensures
        r@ == crate::paths::joined_path(crate::paths::joined_path(booker_dir@, "screenshots"@), "05_locked.png"@),
{
    let d = booker_screenshots_dir(booker_dir);
    crate::paths::join_path(d.as_str(), "05_locked.png")
}

} // verus!
