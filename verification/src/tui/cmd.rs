//! The command line of the terminal UI: `interval`, `webhook`, `quiet`,
//! `phone`, `report`, `add`, `rm`, `enable`, `disable`, `toggle`, `films`,
//! `doctor`, `help`, `quit`. A command that changes the configuration
//! changes the one it is given; the program saves it.

use vstd::prelude::*;

use crate::cli::watch::{enabled_set, opt_s};
use crate::config::{
    config_error_text, index_by_id, is_watch_id, item_replaced, items_removed, parse_window_s,
    strs_view, watch_added, watches_of, window_error_text, ConfigError, DEFAULT_LOCK_MAX_RETRIES,
    DEFAULT_LOCK_NUM_SEATS,
};
use crate::json::{arr_field, bool_field, field, Json};
use crate::text::{append_str, dec_text, owned, parse_i64_s, parse_unsigned_s, str_eq, views_of};

verus! {

/// `shell_words::split` of a line: its words as a POSIX shell reads them.
pub uninterp spec fn shell_words_of(line: Seq<char>) -> Option<Seq<Seq<char>>>;

/// `shell_words::split`: the words of `line` as a POSIX shell splits them
/// (quotes and backslashes), or the error when a quote is left open, whose
/// text is `missing closing quote`. Claimed: the words are a function of the
/// line alone (named `shell_words_of`), and the error's text.
#[verifier::external_body]
fn split_words(line: &str) -> (r: Result<Vec<String>, String>)
    ensures
        match r {
            Ok(w) => shell_words_of(line@) == Some(views_of(w@)),
            Err(e) => shell_words_of(line@) is None && e@ == "missing closing quote"@,
        },
{
    match shell_words::split(line) {
        Ok(w) => Ok(w),
        Err(e) => Err(e.to_string()),
    }
}

/// Work that the program does itself for a command, and reports.
#[derive(Debug, Clone, Copy, PartialEq, Eq, Structural)]
pub enum External {
    /// Fetch and summarise a films list (1 now showing, 2 coming soon).
    Films(u8),
    /// Run the self-check.
    Doctor,
}

/// What a command line did.
pub struct Executed {
    /// The line for the event log, `✓ cmd: ...` or `✗ cmd: ...`.
    pub event: Option<String>,
    /// The configuration changed: save it.
    pub save: bool,
    pub quit: bool,
    pub external: Option<External>,
}

/// The options of `add` after the movie id.
pub struct AddArgs {
    pub cinemas: Seq<Seq<char>>,
    pub dates: Seq<Seq<char>>,
    pub name: Option<Seq<char>>,
    pub interval: Option<u64>,
}

/// Reads the options `rest[i..]` of `add` into `acc`: `-c <cinema>` and
/// `-d <date>` (repeatable), `--name <name>`, `--interval <sec>`.
pub open spec fn add_flags(rest: Seq<Seq<char>>, i: int, acc: AddArgs) -> Result<AddArgs, Seq<char>>
    decreases rest.len() - i,
{
    if i < 0 || i >= rest.len() {
        Ok(acc)
    } else if rest[i] == "-c"@ {
        if i + 1 < rest.len() {
            add_flags(rest, i + 2, AddArgs { cinemas: acc.cinemas.push(rest[i + 1]), ..acc })
        } else {
            Err("-c 缺参数"@)
        }
    } else if rest[i] == "-d"@ {
        if i + 1 < rest.len() {
            add_flags(rest, i + 2, AddArgs { dates: acc.dates.push(rest[i + 1]), ..acc })
        } else {
            Err("-d 缺参数"@)
        }
    } else if rest[i] == "--name"@ {
        if i + 1 < rest.len() {
            add_flags(rest, i + 2, AddArgs { name: Some(rest[i + 1]), ..acc })
        } else {
            Err("--name 缺参数"@)
        }
    } else if rest[i] == "--interval"@ {
        if i + 1 < rest.len() {
            match parse_unsigned_s(rest[i + 1], u64::MAX as nat) {
                Some(n) => add_flags(rest, i + 2, AddArgs { interval: Some(n as u64), ..acc }),
                None => Err("interval 数字错误"@),
            }
        } else {
            Err("--interval 缺参数"@)
        }
    } else {
        Err("未知参数: "@ + rest[i])
    }
}

/// The values given to option `f` among the option pairs `rest[i..]`
/// (`<option> <value>` each), in order.
pub open spec fn option_values(rest: Seq<Seq<char>>, i: int, f: Seq<char>) -> Seq<Seq<char>>
    decreases rest.len() - i,
{
    if i < 0 || i + 1 >= rest.len() {
        Seq::empty()
    } else if rest[i] == f {
        seq![rest[i + 1]] + option_values(rest, i + 2, f)
    } else {
        option_values(rest, i + 2, f)
    }
}

/// Reading the options of `add` keeps what was gathered before and appends
/// every value given to `-c`, in order, to the cinemas, and every value
/// given to `-d` to the dates: a repeated `-c` or `-d` adds one entry each.
/// The last `--name` gives the name and the last `--interval` the interval.
pub proof fn law_add_flags_gather(rest: Seq<Seq<char>>, i: int, acc: AddArgs)
    requires
        0 <= i,
        add_flags(rest, i, acc) is Ok,
    ensures
        add_flags(rest, i, acc)->Ok_0.cinemas == acc.cinemas + option_values(rest, i, "-c"@),
        add_flags(rest, i, acc)->Ok_0.dates == acc.dates + option_values(rest, i, "-d"@),
        add_flags(rest, i, acc)->Ok_0.name == if option_values(rest, i, "--name"@).len() > 0 {
            Some(option_values(rest, i, "--name"@).last())
        } else {
            acc.name
        },
        option_values(rest, i, "--interval"@).len() > 0 ==> add_flags(rest, i, acc)->Ok_0.interval
            == Some(
            parse_unsigned_s(option_values(rest, i, "--interval"@).last(), u64::MAX as nat)->0 as u64,
        ),
        option_values(rest, i, "--interval"@).len() == 0 ==> add_flags(rest, i, acc)->Ok_0.interval
            == acc.interval,
    decreases rest.len() - i,
{
    reveal_strlit("-c");
    reveal_strlit("-d");
    reveal_strlit("--name");
    reveal_strlit("--interval");
    assert("-c"@.len() == 2 && "-d"@.len() == 2 && "-c"@[1] == 'c' && "-d"@[1] == 'd');
    assert("--name"@.len() == 6 && "--interval"@.len() == 10);
    if i >= rest.len() {
        assert(acc.cinemas + Seq::<Seq<char>>::empty() =~= acc.cinemas);
        assert(acc.dates + Seq::<Seq<char>>::empty() =~= acc.dates);
    } else if rest[i] == "-c"@ {
        let next = AddArgs { cinemas: acc.cinemas.push(rest[i + 1]), ..acc };
        law_add_flags_gather(rest, i + 2, next);
        assert(acc.cinemas + option_values(rest, i, "-c"@) =~= next.cinemas + option_values(
            rest,
            i + 2,
            "-c"@,
        ));
    } else if rest[i] == "-d"@ {
        let next = AddArgs { dates: acc.dates.push(rest[i + 1]), ..acc };
        law_add_flags_gather(rest, i + 2, next);
        assert(acc.dates + option_values(rest, i, "-d"@) =~= next.dates + option_values(
            rest,
            i + 2,
            "-d"@,
        ));
    } else if rest[i] == "--name"@ {
        law_add_flags_gather(rest, i + 2, AddArgs { name: Some(rest[i + 1]), ..acc });
    } else {
        let n = parse_unsigned_s(rest[i + 1], u64::MAX as nat)->0;
        law_add_flags_gather(rest, i + 2, AddArgs { interval: Some(n as u64), ..acc });
    }
}

/// The cinemas and dates of `add <movie_id> [options]` are exactly the
/// values given to `-c` and to `-d`, in order.
pub proof fn law_add_args_cinemas(rest: Seq<Seq<char>>)
    requires
        add_args(rest) is Ok,
    ensures
        add_args(rest)->Ok_0.1.cinemas == option_values(rest, 1, "-c"@),
        add_args(rest)->Ok_0.1.dates == option_values(rest, 1, "-d"@),
{
    law_add_flags_gather(rest, 1, no_args());
    assert(Seq::<Seq<char>>::empty() + option_values(rest, 1, "-c"@) =~= option_values(rest, 1, "-c"@));
    assert(Seq::<Seq<char>>::empty() + option_values(rest, 1, "-d"@) =~= option_values(rest, 1, "-d"@));
}

/// No options yet.
pub open spec fn no_args() -> AddArgs {
    AddArgs { cinemas: Seq::empty(), dates: Seq::empty(), name: None, interval: None }
}

pub open spec fn add_usage() -> Seq<char> {
    "用法: :add <movie_id> [-c <cinema>...] [-d <date>...] [--name ...]"@
}

/// The movie id and options of `add <movie_id> [options]`, or the error.
pub open spec fn add_args(rest: Seq<Seq<char>>) -> Result<(i64, AddArgs), Seq<char>> {
    if rest.len() == 0 {
        Err(add_usage())
    } else {
        match parse_i64_s(rest[0]) {
            None => Err("movie_id 必须是数字"@),
            Some(m) => match add_flags(rest, 1, no_args()) {
                Ok(a) => Ok((m as i64, a)),
                Err(e) => Err(e),
            },
        }
    }
}

/// `new` is `old` with member `k` set to `v`.
pub open spec fn set_to(old: Json, new: Json, k: Seq<char>, v: Json) -> bool {
    &&& new is Obj
    &&& field(new, k) == Some(v)
    &&& forall|k2: Seq<char>| k2 != k ==> field(new, k2) == field(old, k2)
}

/// `new` is `old` with member `k` set to the text `s`.
pub open spec fn set_text(old: Json, new: Json, k: Seq<char>, s: Seq<char>) -> bool {
    &&& new is Obj
    &&& field(new, k) matches Some(Json::Str(x)) && x@ == s
    &&& forall|k2: Seq<char>| k2 != k ==> field(new, k2) == field(old, k2)
}

/// A command that only answers.
pub open spec fn answers(old: Json, new: Json, res: Result<Seq<char>, Seq<char>>, save: bool, r: Result<Seq<char>, Seq<char>>) -> bool {
    new == old && res == r && !save
}

/// A command that sets a number of seconds from its first argument.
pub open spec fn seconds_set(
    old: Json,
    new: Json,
    rest: Seq<Seq<char>>,
    key: Seq<char>,
    usage: Seq<char>,
    bad: Seq<char>,
    shown: Seq<char>,
    res: Result<Seq<char>, Seq<char>>,
    save: bool,
) -> bool {
    if rest.len() == 0 {
        answers(old, new, res, save, Err(usage))
    } else {
        match parse_unsigned_s(rest[0], u64::MAX as nat) {
            None => answers(old, new, res, save, Err(bad)),
            Some(n) => set_to(old, new, key, Json::Int(n as i128)) && save && res == Ok::<
                Seq<char>,
                Seq<char>,
            >(shown + " = "@ + dec_text(n) + "s"@),
        }
    }
}

/// A command that sets a time window from its first argument.
pub open spec fn window_set(
    old: Json,
    new: Json,
    rest: Seq<Seq<char>>,
    key: Seq<char>,
    usage: Seq<char>,
    res: Result<Seq<char>, Seq<char>>,
    save: bool,
) -> bool {
    if rest.len() == 0 {
        answers(old, new, res, save, Err(usage))
    } else {
        match parse_window_s(rest[0]) {
            Err(e) => answers(old, new, res, save, Err(window_error_text(e))),
            Ok(_) => set_text(old, new, key, rest[0]) && save && res == Ok::<Seq<char>, Seq<char>>(
                key + " = "@ + rest[0],
            ),
        }
    }
}

/// What command `cmd` with arguments `rest` does to `old` (giving `new`),
/// with `wid` the selected watch: its result, whether to save, to quit, and
/// the work left to the program.
pub open spec fn ran(
    old: Json,
    new: Json,
    cmd: Seq<char>,
    rest: Seq<Seq<char>>,
    wid: Option<Seq<char>>,
    res: Result<Seq<char>, Seq<char>>,
    save: bool,
    quit: bool,
    ext: Option<External>,
) -> bool {
    &&& quit == (cmd == "quit"@ || cmd == "q"@)
    &&& ext == (if cmd == "films"@ {
        Some(
            External::Films(
                if rest.len() > 0 && parse_unsigned_s(rest[0], u8::MAX as nat) is Some {
                    parse_unsigned_s(rest[0], u8::MAX as nat)->0 as u8
                } else {
                    2
                },
            ),
        )
    } else if cmd == "doctor"@ {
        Some(External::Doctor)
    } else {
        None
    })
    &&& if cmd == "run"@ {
        answers(old, new, res, save, Err("r 键已经触发；这里不重复"@))
    } else if cmd == "interval"@ {
        seconds_set(
            old,
            new,
            rest,
            "check_interval"@,
            "用法: :interval <sec>"@,
            "interval 必须是数字"@,
            "interval"@,
            res,
            save,
        )
    } else if cmd == "report"@ {
        seconds_set(
            old,
            new,
            rest,
            "heartbeat_interval_sec"@,
            "用法: :report <sec>"@,
            "report 必须是数字"@,
            "heartbeat"@,
            res,
            save,
        )
    } else if cmd == "webhook"@ {
        if rest.len() > 0 && rest[0] == "clear"@ {
            set_to(old, new, "discord_webhook"@, Json::Null) && save && res == Ok::<Seq<char>, Seq<char>>(
                "webhook = (cleared)"@,
            )
        } else if rest.len() == 0 {
            answers(old, new, res, save, Err("用法: :webhook <url|clear>"@))
        } else {
            set_text(old, new, "discord_webhook"@, rest[0]) && save && res == Ok::<Seq<char>, Seq<char>>(
                "webhook = "@ + rest[0],
            )
        }
    } else if cmd == "quiet"@ {
        window_set(old, new, rest, "quiet_window"@, "用法: :quiet HH:MM-HH:MM"@, res, save)
    } else if cmd == "phone"@ {
        window_set(old, new, rest, "phone_only_window"@, "用法: :phone HH:MM-HH:MM"@, res, save)
    } else if cmd == "films"@ || cmd == "doctor"@ {
        new == old && !save && res == Ok::<Seq<char>, Seq<char>>(Seq::empty())
    } else if cmd == "log"@ {
        answers(old, new, res, save, Err("请用 tt log 命令行查看"@))
    } else if cmd == "add"@ {
        match add_args(rest) {
            Err(e) => answers(old, new, res, save, Err(e)),
            Ok(p) => watch_added_by(old, new, p.0, p.1, res, save),
        }
    } else if cmd == "rm"@ {
        if rest.len() == 0 {
            answers(old, new, res, save, Err("用法: :rm <watch_id>"@))
        } else {
            exists|found: bool|
                #![trigger items_removed(old, new, "watches"@, rest[0], found)]
                items_removed(old, new, "watches"@, rest[0], found) && if found {
                    save && res == Ok::<Seq<char>, Seq<char>>("已删除 "@ + rest[0])
                } else {
                    !save && res == Err::<Seq<char>, Seq<char>>("watch 不存在: "@ + rest[0])
                }
        }
    } else if cmd == "enable"@ || cmd == "disable"@ {
        if rest.len() == 0 {
            answers(old, new, res, save, Err("用法: :enable|disable <watch_id>"@))
        } else {
            switched_in(old, new, rest[0], cmd == "enable"@, res, save)
        }
    } else if cmd == "toggle"@ {
        match wid {
            None => answers(old, new, res, save, Err("当前没有选中的 watch"@)),
            Some(w) => toggled(old, new, w, res, save),
        }
    } else if cmd == "edit"@ {
        answers(old, new, res, save, Err("简化版：未实现，编辑请用 tt watch edit"@))
    } else if cmd == "help"@ || cmd == "h"@ || cmd == "?"@ {
        answers(old, new, res, save, Ok("可用的命令见 ? 帮助覆盖层"@))
    } else if cmd == "quit"@ || cmd == "q"@ {
        answers(old, new, res, save, Ok(Seq::empty()))
    } else {
        answers(old, new, res, save, Err("未知命令: "@ + cmd))
    }
}

/// `add` of a watch of movie `mid` with options `a`, in presale mode
/// without notice channels or seat locking.
pub open spec fn watch_added_by(old: Json, new: Json, mid: i64, a: AddArgs, res: Result<Seq<char>, Seq<char>>, save: bool) -> bool {
    exists|id: Seq<char>, ts: Seq<char>, added: Result<String, ConfigError>|
        #![trigger watch_added(old, new, added, id, ts, mid, a.cinemas, crate::cli::watch::dates_opt(a.dates), a.name, a.interval, "presale"@, None, None, None, None, false, false, false, DEFAULT_LOCK_NUM_SEATS, DEFAULT_LOCK_MAX_RETRIES, Seq::empty())]
        is_watch_id(id) && watch_added(
            old,
            new,
            added,
            id,
            ts,
            mid,
            a.cinemas,
            crate::cli::watch::dates_opt(a.dates),
            a.name,
            a.interval,
            "presale"@,
            None,
            None,
            None,
            None,
            false,
            false,
            false,
            DEFAULT_LOCK_NUM_SEATS,
            DEFAULT_LOCK_MAX_RETRIES,
            Seq::empty(),
        ) && match added {
            Ok(w) => save && res == Ok::<Seq<char>, Seq<char>>("添加 watch "@ + w@),
            Err(e) => !save && res == Err::<Seq<char>, Seq<char>>(config_error_text(e)),
        }
}

pub open spec fn on_off(b: bool) -> Seq<char> {
    if b {
        "已启用"@
    } else {
        "已停用"@
    }
}

/// `enable` (`b`) or `disable` of watch `id`.
pub open spec fn switched_in(old: Json, new: Json, id: Seq<char>, b: bool, res: Result<Seq<char>, Seq<char>>, save: bool) -> bool {
    match index_by_id(watches_of(old), id) {
        None => answers(old, new, res, save, Err("watch 不存在: "@ + id)),
        Some(i) => enabled_at(old, new, i, b) && save && res == Ok::<Seq<char>, Seq<char>>(
            id + " "@ + on_off(b),
        ),
    }
}

/// `new` is `old` with `enabled` of watch `i` set to `b`, all else kept.
pub open spec fn enabled_at(old: Json, new: Json, i: int, b: bool) -> bool {
    exists|w2: Json|
        #![trigger item_replaced(old, new, "watches"@, i, w2)]
        item_replaced(old, new, "watches"@, i, w2) && enabled_set(watches_of(old)[i], w2, b)
}

/// Whether a watch is on (`enabled` is `true`).
pub open spec fn is_on(w: Json) -> bool {
    bool_field(w, "enabled"@) == Some(true)
}

/// `toggle` of the selected watch `w`: it switches, and the configuration
/// is saved even when no watch has that id.
pub open spec fn toggled(old: Json, new: Json, w: Seq<char>, res: Result<Seq<char>, Seq<char>>, save: bool) -> bool {
    &&& save
    &&& match index_by_id(watches_of(old), w) {
        None => new == old && res == Ok::<Seq<char>, Seq<char>>(w + " "@ + on_off(true)),
        Some(i) => {
            let on = is_on(watches_of(old)[i]);
            &&& enabled_at(old, new, i, !on)
            &&& res == Ok::<Seq<char>, Seq<char>>(w + " "@ + on_off(!on))
        },
    }
}

/// The event line of a command's result: none for an empty success.
pub open spec fn event_of(res: Result<Seq<char>, Seq<char>>) -> Option<Seq<char>> {
    match res {
        Ok(m) => if m.len() > 0 {
            Some("✓ cmd: "@ + m)
        } else {
            None
        },
        Err(e) => Some("✗ cmd: "@ + e),
    }
}

pub open spec fn opt_string(v: Option<String>) -> Option<Seq<char>> {
    match v {
        Some(s) => Some(s@),
        None => None,
    }
}

/// What running the words `parts` did: nothing for no words; otherwise
/// the first word's command on the others.
pub open spec fn executed_parts(old: Json, new: Json, parts: Seq<Seq<char>>, wid: Option<Seq<char>>, r: Executed) -> bool {
    if parts.len() == 0 {
        new == old && r.event is None && !r.save && !r.quit && r.external is None
    } else {
        exists|res: Result<Seq<char>, Seq<char>>|
            #![trigger ran(old, new, parts[0], parts.skip(1), wid, res, r.save, r.quit, r.external)]
            ran(old, new, parts[0], parts.skip(1), wid, res, r.save, r.quit, r.external) && opt_string(r.event)
                == event_of(res)
    }
}

fn set_seconds(cfg: &mut Json, rest: &[String], key: &str, usage: &str, bad: &str, shown: &str) -> (r: (
    Result<String, String>,
    bool,
))
    requires
        *old(cfg) is Obj,
    ensures
        seconds_set(
            *old(cfg),
            *final(cfg),
            views_of(rest@),
            key@,
            usage@,
            bad@,
            shown@,
            match r.0 {
                Ok(m) => Ok(m@),
                Err(e) => Err(e@),
            },
            r.1,
        ),
{
    if rest.len() == 0 {
        return (Err(owned(usage)), false);
    }
    assert(views_of(rest@)[0] == rest@[0]@);
    match crate::text::parse_u64(rest[0].as_str()) {
        None => (Err(owned(bad)), false),
        Some(n) => {
            crate::json::set_field(cfg, key, Json::Int(n as i128));
            let mut m = owned(shown);
            append_str(&mut m, " = ");
            let t = crate::text::u64_text(n);
            append_str(&mut m, t.as_str());
            append_str(&mut m, "s");
            (Ok(m), true)
        },
    }
}

fn set_window(cfg: &mut Json, rest: &[String], key: &str, usage: &str) -> (r: (Result<String, String>, bool))
    requires
        *old(cfg) is Obj,
    ensures
        window_set(
            *old(cfg),
            *final(cfg),
            views_of(rest@),
            key@,
            usage@,
            match r.0 {
                Ok(m) => Ok(m@),
                Err(e) => Err(e@),
            },
            r.1,
        ),
{
    if rest.len() == 0 {
        return (Err(owned(usage)), false);
    }
    assert(views_of(rest@)[0] == rest@[0]@);
    match crate::config::parse_window(rest[0].as_str()) {
        Err(e) => (Err(e.message()), false),
        Ok(_) => {
            crate::json::set_field(cfg, key, crate::json::jstr(rest[0].as_str()));
            let mut m = owned(key);
            append_str(&mut m, " = ");
            append_str(&mut m, rest[0].as_str());
            (Ok(m), true)
        },
    }
}

proof fn reveal_flags()
    ensures
        "-c"@ != "-d"@,
        "-c"@ != "--name"@,
        "-c"@ != "--interval"@,
        "-d"@ != "--name"@,
        "-d"@ != "--interval"@,
        "--name"@ != "--interval"@,
{
    reveal_strlit("-c");
    reveal_strlit("-d");
    reveal_strlit("--name");
    reveal_strlit("--interval");
    assert("-c"@[1] != "-d"@[1]);
    assert("-c"@.len() != "--name"@.len());
    assert("-c"@.len() != "--interval"@.len());
    assert("-d"@.len() != "--name"@.len());
    assert("-d"@.len() != "--interval"@.len());
    assert("--name"@.len() != "--interval"@.len());
}

fn add_flags_exec(rest: &[String]) -> (r: Result<(Vec<String>, Vec<String>, Option<String>, Option<u64>), String>)
    requires
        rest@.len() >= 1,
    ensures
        match r {
            Ok((c, d, n, i)) => add_flags(views_of(rest@), 1, no_args()) == Ok::<AddArgs, Seq<char>>(
                AddArgs { cinemas: views_of(c@), dates: views_of(d@), name: opt_s(n), interval: i },
            ),
            Err(e) => add_flags(views_of(rest@), 1, no_args()) == Err::<AddArgs, Seq<char>>(e@),
        },
{
    let ghost rs = views_of(rest@);
    let ghost empty = no_args();
    let mut cinemas: Vec<String> = Vec::new();
    let mut dates: Vec<String> = Vec::new();
    let mut name: Option<String> = None;
    let mut interval: Option<u64> = None;
    let mut i: usize = 1;
    proof {
        reveal_strlit("-c");
        reveal_strlit("-d");
        reveal_strlit("--name");
        reveal_strlit("--interval");
        assert(views_of(cinemas@) =~= Seq::<Seq<char>>::empty());
        assert(views_of(dates@) =~= Seq::<Seq<char>>::empty());
    }
    let mut err: Option<String> = None;
    while i < rest.len() && err.is_none()
        invariant
            1 <= i,
            rs == views_of(rest@),
            match err {
                None => add_flags(rs, 1, empty) == add_flags(
                    rs,
                    i as int,
                    AddArgs { cinemas: views_of(cinemas@), dates: views_of(dates@), name: opt_s(name), interval },
                ),
                Some(e) => add_flags(rs, 1, empty) == Err::<AddArgs, Seq<char>>(e@),
            },
            i <= rest@.len(),
        decreases (rest.len() - i) * 2 + if err is None {
            1int
        } else {
            0int
        },
    {
        let ghost acc = AddArgs {
            cinemas: views_of(cinemas@),
            dates: views_of(dates@),
            name: opt_s(name),
            interval,
        };
        proof {
            reveal_flags();
        }
        assert(rs[i as int] == rest@[i as int]@);
        let flag = rest[i].as_str();
        let has_next = i + 1 < rest.len();
        if has_next {
            assert(rs[i + 1] == rest@[i + 1]@);
        }
        if str_eq(flag, "-c") {
            if !has_next {
                err = Some(owned("-c 缺参数"));
            } else {
                cinemas.push(rest[i + 1].clone());
                assert(views_of(cinemas@) =~= acc.cinemas.push(rs[i + 1]));
                i = i + 2;
            }
        } else if str_eq(flag, "-d") {
            if !has_next {
                err = Some(owned("-d 缺参数"));
            } else {
                dates.push(rest[i + 1].clone());
                assert(views_of(dates@) =~= acc.dates.push(rs[i + 1]));
                i = i + 2;
            }
        } else if str_eq(flag, "--name") {
            if !has_next {
                err = Some(owned("--name 缺参数"));
            } else {
                name = Some(rest[i + 1].clone());
                i = i + 2;
            }
        } else if str_eq(flag, "--interval") {
            if !has_next {
                err = Some(owned("--interval 缺参数"));
            } else {
                match crate::text::parse_u64(rest[i + 1].as_str()) {
                    Some(n) => {
                        interval = Some(n);
                        i = i + 2;
                    },
                    None => {
                        err = Some(owned("interval 数字错误"));
                    },
                }
            }
        } else {
            let mut m = owned("未知参数: ");
            append_str(&mut m, flag);
            err = Some(m);
        }
    }
    if let Some(e) = err {
        return Err(e);
    }
    Ok((cinemas, dates, name, interval))
}

fn str_refs(v: &Vec<String>) -> (r: Vec<&str>)
    ensures
        strs_view(r@) == views_of(v@),
{
    let mut refs: Vec<&str> = Vec::new();
    let mut i: usize = 0;
    while i < v.len()
        invariant
            i <= v@.len(),
            refs@.len() == i,
            forall|m: int| 0 <= m < i ==> (#[trigger] refs@[m])@ == v@[m]@,
        decreases v.len() - i,
    {
        refs.push(v[i].as_str());
        i = i + 1;
    }
    assert(strs_view(refs@) =~= views_of(v@));
    refs
}

/// `add <movie_id> [-c <cinema>]... [-d <date>]... [--name <name>] [--interval <sec>]`.
pub fn cmd_add(cfg: &mut Json, rest: &[String]) -> (r: (Result<String, String>, bool))
    ensures
        ran(
            *old(cfg),
            *final(cfg),
            "add"@,
            views_of(rest@),
            None,
            match r.0 {
                Ok(m) => Ok(m@),
                Err(e) => Err(e@),
            },
            r.1,
            false,
            None,
        ),
{
    proof {
        reveal_strlit("add");
        reveal_strlit("quit");
        reveal_strlit("q");
        reveal_strlit("films");
        reveal_strlit("doctor");
        reveal_strlit("run");
        reveal_strlit("interval");
        reveal_strlit("report");
        reveal_strlit("webhook");
        reveal_strlit("quiet");
        reveal_strlit("phone");
        reveal_strlit("log");
        assert("add"@.len() != "quit"@.len());
        assert("add"@.len() != "q"@.len());
        assert("add"@.len() != "films"@.len());
        assert("add"@.len() != "doctor"@.len());
        assert("add"@[0] != "run"@[0]);
        assert("add"@.len() != "interval"@.len());
        assert("add"@.len() != "report"@.len());
        assert("add"@.len() != "webhook"@.len());
        assert("add"@.len() != "quiet"@.len());
        assert("add"@.len() != "phone"@.len());
        assert("add"@[0] != "log"@[0]);
    }
    if rest.len() == 0 {
        return (Err(owned("用法: :add <movie_id> [-c <cinema>...] [-d <date>...] [--name ...]")), false);
    }
    assert(views_of(rest@)[0] == rest@[0]@);
    let movie_id = match crate::text::parse_i64(rest[0].as_str()) {
        Some(m) => m,
        None => {
            return (Err(owned("movie_id 必须是数字")), false);
        },
    };
    let (cinemas, dates, name, interval) = match add_flags_exec(rest) {
        Ok(a) => a,
        Err(e) => {
            return (Err(e), false);
        },
    };
    let refs = str_refs(&cinemas);
    let ds: Option<&[String]> = if dates.len() == 0 {
        None
    } else {
        Some(dates.as_slice())
    };
    let nm: Option<&str> = match &name {
        Some(n) => Some(n.as_str()),
        None => None,
    };
    let no_seats: Vec<String> = Vec::new();
    let added = crate::config::add_watch(
        cfg,
        movie_id,
        refs.as_slice(),
        ds,
        nm,
        interval,
        crate::config::MODE_PRESALE,
        None,
        None,
        None,
        None,
        false,
        false,
        false,
        DEFAULT_LOCK_NUM_SEATS,
        DEFAULT_LOCK_MAX_RETRIES,
        no_seats.as_slice(),
    );
    assert(views_of(no_seats@) =~= Seq::<Seq<char>>::empty());
    assert(crate::config::opt_views(ds) == crate::cli::watch::dates_opt(views_of(dates@)));
    let ghost g = added;
    proof {
        let a = add_args(views_of(rest@))->Ok_0.1;
        assert(add_args(views_of(rest@)) == Ok::<(i64, AddArgs), Seq<char>>((movie_id, a)));
        assert(a.cinemas == strs_view(refs@));
        assert(a.name == crate::config::opt_view(nm));
        assert(crate::cli::watch::dates_opt(a.dates) == crate::config::opt_views(ds));
        reveal_strlit("presale");
    }
    let ghost (id, ts) = choose|id: Seq<char>, ts: Seq<char>|
            is_watch_id(id) && #[trigger] watch_added(
                *old(cfg),
                *cfg,
                g,
                id,
                ts,
                movie_id,
                strs_view(refs@),
                crate::config::opt_views(ds),
                crate::config::opt_view(nm),
                interval,
                crate::config::MODE_PRESALE@,
                None,
                None,
                None,
                None,
                false,
                false,
                false,
                DEFAULT_LOCK_NUM_SEATS,
                DEFAULT_LOCK_MAX_RETRIES,
                views_of(no_seats@),
            );
    proof {
        let a = add_args(views_of(rest@))->Ok_0.1;
        assert(is_watch_id(id) && watch_added(
            *old(cfg),
            *cfg,
            g,
            id,
            ts,
            movie_id,
            a.cinemas,
            crate::cli::watch::dates_opt(a.dates),
            a.name,
            a.interval,
            "presale"@,
            None,
            None,
            None,
            None,
            false,
            false,
            false,
            DEFAULT_LOCK_NUM_SEATS,
            DEFAULT_LOCK_MAX_RETRIES,
            Seq::empty(),
        ));
    }
    let out = match added {
        Ok(w) => {
            let mut m = owned("添加 watch ");
            append_str(&mut m, w.as_str());
            (Ok(m), true)
        },
        Err(e) => (Err(e.message()), false),
    };
    proof {
        let a = AddArgs {
            cinemas: views_of(cinemas@),
            dates: views_of(dates@),
            name: opt_s(name),
            interval,
        };
        let res: Result<Seq<char>, Seq<char>> = match &out.0 {
            Ok(m) => Ok(m@),
            Err(e) => Err(e@),
        };
        assert(match g {
            Ok(w) => out.1 && res == Ok::<Seq<char>, Seq<char>>("添加 watch "@ + w@),
            Err(e) => !out.1 && res == Err::<Seq<char>, Seq<char>>(config_error_text(e)),
        });
        assert(watch_added(
            *old(cfg),
            *cfg,
            g,
            id,
            ts,
            movie_id,
            a.cinemas,
            crate::cli::watch::dates_opt(a.dates),
            a.name,
            a.interval,
            "presale"@,
            None,
            None,
            None,
            None,
            false,
            false,
            false,
            DEFAULT_LOCK_NUM_SEATS,
            DEFAULT_LOCK_MAX_RETRIES,
            Seq::empty(),
        ));
        assert(watch_added_by(*old(cfg), *cfg, movie_id, a, res, out.1));
    }
    assert(ran(
        *old(cfg),
        *cfg,
        "add"@,
        views_of(rest@),
        None,
        match out.0 {
            Ok(m) => Ok(m@),
            Err(e) => Err(e@),
        },
        out.1,
        false,
        None,
    ));
    out
}

/// The command words are distinct.
proof fn reveal_commands()
    ensures
        "run"@ != "interval"@,
        "run"@ != "report"@,
        "run"@ != "webhook"@,
        "run"@ != "quiet"@,
        "run"@ != "phone"@,
        "run"@ != "films"@,
        "run"@ != "doctor"@,
        "run"@ != "log"@,
        "run"@ != "add"@,
        "run"@ != "rm"@,
        "run"@ != "enable"@,
        "run"@ != "disable"@,
        "run"@ != "toggle"@,
        "run"@ != "edit"@,
        "run"@ != "help"@,
        "run"@ != "h"@,
        "run"@ != "?"@,
        "run"@ != "quit"@,
        "run"@ != "q"@,
        "interval"@ != "report"@,
        "interval"@ != "webhook"@,
        "interval"@ != "quiet"@,
        "interval"@ != "phone"@,
        "interval"@ != "films"@,
        "interval"@ != "doctor"@,
        "interval"@ != "log"@,
        "interval"@ != "add"@,
        "interval"@ != "rm"@,
        "interval"@ != "enable"@,
        "interval"@ != "disable"@,
        "interval"@ != "toggle"@,
        "interval"@ != "edit"@,
        "interval"@ != "help"@,
        "interval"@ != "h"@,
        "interval"@ != "?"@,
        "interval"@ != "quit"@,
        "interval"@ != "q"@,
        "report"@ != "webhook"@,
        "report"@ != "quiet"@,
        "report"@ != "phone"@,
        "report"@ != "films"@,
        "report"@ != "doctor"@,
        "report"@ != "log"@,
        "report"@ != "add"@,
        "report"@ != "rm"@,
        "report"@ != "enable"@,
        "report"@ != "disable"@,
        "report"@ != "toggle"@,
        "report"@ != "edit"@,
        "report"@ != "help"@,
        "report"@ != "h"@,
        "report"@ != "?"@,
        "report"@ != "quit"@,
        "report"@ != "q"@,
        "webhook"@ != "quiet"@,
        "webhook"@ != "phone"@,
        "webhook"@ != "films"@,
        "webhook"@ != "doctor"@,
        "webhook"@ != "log"@,
        "webhook"@ != "add"@,
        "webhook"@ != "rm"@,
        "webhook"@ != "enable"@,
        "webhook"@ != "disable"@,
        "webhook"@ != "toggle"@,
        "webhook"@ != "edit"@,
        "webhook"@ != "help"@,
        "webhook"@ != "h"@,
        "webhook"@ != "?"@,
        "webhook"@ != "quit"@,
        "webhook"@ != "q"@,
        "quiet"@ != "phone"@,
        "quiet"@ != "films"@,
        "quiet"@ != "doctor"@,
        "quiet"@ != "log"@,
        "quiet"@ != "add"@,
        "quiet"@ != "rm"@,
        "quiet"@ != "enable"@,
        "quiet"@ != "disable"@,
        "quiet"@ != "toggle"@,
        "quiet"@ != "edit"@,
        "quiet"@ != "help"@,
        "quiet"@ != "h"@,
        "quiet"@ != "?"@,
        "quiet"@ != "quit"@,
        "quiet"@ != "q"@,
        "phone"@ != "films"@,
        "phone"@ != "doctor"@,
        "phone"@ != "log"@,
        "phone"@ != "add"@,
        "phone"@ != "rm"@,
        "phone"@ != "enable"@,
        "phone"@ != "disable"@,
        "phone"@ != "toggle"@,
        "phone"@ != "edit"@,
        "phone"@ != "help"@,
        "phone"@ != "h"@,
        "phone"@ != "?"@,
        "phone"@ != "quit"@,
        "phone"@ != "q"@,
        "films"@ != "doctor"@,
        "films"@ != "log"@,
        "films"@ != "add"@,
        "films"@ != "rm"@,
        "films"@ != "enable"@,
        "films"@ != "disable"@,
        "films"@ != "toggle"@,
        "films"@ != "edit"@,
        "films"@ != "help"@,
        "films"@ != "h"@,
        "films"@ != "?"@,
        "films"@ != "quit"@,
        "films"@ != "q"@,
        "doctor"@ != "log"@,
        "doctor"@ != "add"@,
        "doctor"@ != "rm"@,
        "doctor"@ != "enable"@,
        "doctor"@ != "disable"@,
        "doctor"@ != "toggle"@,
        "doctor"@ != "edit"@,
        "doctor"@ != "help"@,
        "doctor"@ != "h"@,
        "doctor"@ != "?"@,
        "doctor"@ != "quit"@,
        "doctor"@ != "q"@,
        "log"@ != "add"@,
        "log"@ != "rm"@,
        "log"@ != "enable"@,
        "log"@ != "disable"@,
        "log"@ != "toggle"@,
        "log"@ != "edit"@,
        "log"@ != "help"@,
        "log"@ != "h"@,
        "log"@ != "?"@,
        "log"@ != "quit"@,
        "log"@ != "q"@,
        "add"@ != "rm"@,
        "add"@ != "enable"@,
        "add"@ != "disable"@,
        "add"@ != "toggle"@,
        "add"@ != "edit"@,
        "add"@ != "help"@,
        "add"@ != "h"@,
        "add"@ != "?"@,
        "add"@ != "quit"@,
        "add"@ != "q"@,
        "rm"@ != "enable"@,
        "rm"@ != "disable"@,
        "rm"@ != "toggle"@,
        "rm"@ != "edit"@,
        "rm"@ != "help"@,
        "rm"@ != "h"@,
        "rm"@ != "?"@,
        "rm"@ != "quit"@,
        "rm"@ != "q"@,
        "enable"@ != "disable"@,
        "enable"@ != "toggle"@,
        "enable"@ != "edit"@,
        "enable"@ != "help"@,
        "enable"@ != "h"@,
        "enable"@ != "?"@,
        "enable"@ != "quit"@,
        "enable"@ != "q"@,
        "disable"@ != "toggle"@,
        "disable"@ != "edit"@,
        "disable"@ != "help"@,
        "disable"@ != "h"@,
        "disable"@ != "?"@,
        "disable"@ != "quit"@,
        "disable"@ != "q"@,
        "toggle"@ != "edit"@,
        "toggle"@ != "help"@,
        "toggle"@ != "h"@,
        "toggle"@ != "?"@,
        "toggle"@ != "quit"@,
        "toggle"@ != "q"@,
        "edit"@ != "help"@,
        "edit"@ != "h"@,
        "edit"@ != "?"@,
        "edit"@ != "quit"@,
        "edit"@ != "q"@,
        "help"@ != "h"@,
        "help"@ != "?"@,
        "help"@ != "quit"@,
        "help"@ != "q"@,
        "h"@ != "?"@,
        "h"@ != "quit"@,
        "h"@ != "q"@,
        "?"@ != "quit"@,
        "?"@ != "q"@,
        "quit"@ != "q"@,
{
    reveal_strlit("run");
    reveal_strlit("interval");
    reveal_strlit("report");
    reveal_strlit("webhook");
    reveal_strlit("quiet");
    reveal_strlit("phone");
    reveal_strlit("films");
    reveal_strlit("doctor");
    reveal_strlit("log");
    reveal_strlit("add");
    reveal_strlit("rm");
    reveal_strlit("enable");
    reveal_strlit("disable");
    reveal_strlit("toggle");
    reveal_strlit("edit");
    reveal_strlit("help");
    reveal_strlit("h");
    reveal_strlit("?");
    reveal_strlit("quit");
    reveal_strlit("q");
    assert("run"@.len() != "interval"@.len());
    assert("run"@.len() != "report"@.len());
    assert("run"@.len() != "webhook"@.len());
    assert("run"@.len() != "quiet"@.len());
    assert("run"@.len() != "phone"@.len());
    assert("run"@.len() != "films"@.len());
    assert("run"@.len() != "doctor"@.len());
    assert("run"@[0] != "log"@[0]);
    assert("run"@[0] != "add"@[0]);
    assert("run"@.len() != "rm"@.len());
    assert("run"@.len() != "enable"@.len());
    assert("run"@.len() != "disable"@.len());
    assert("run"@.len() != "toggle"@.len());
    assert("run"@.len() != "edit"@.len());
    assert("run"@.len() != "help"@.len());
    assert("run"@.len() != "h"@.len());
    assert("run"@.len() != "?"@.len());
    assert("run"@.len() != "quit"@.len());
    assert("run"@.len() != "q"@.len());
    assert("interval"@.len() != "report"@.len());
    assert("interval"@.len() != "webhook"@.len());
    assert("interval"@.len() != "quiet"@.len());
    assert("interval"@.len() != "phone"@.len());
    assert("interval"@.len() != "films"@.len());
    assert("interval"@.len() != "doctor"@.len());
    assert("interval"@.len() != "log"@.len());
    assert("interval"@.len() != "add"@.len());
    assert("interval"@.len() != "rm"@.len());
    assert("interval"@.len() != "enable"@.len());
    assert("interval"@.len() != "disable"@.len());
    assert("interval"@.len() != "toggle"@.len());
    assert("interval"@.len() != "edit"@.len());
    assert("interval"@.len() != "help"@.len());
    assert("interval"@.len() != "h"@.len());
    assert("interval"@.len() != "?"@.len());
    assert("interval"@.len() != "quit"@.len());
    assert("interval"@.len() != "q"@.len());
    assert("report"@.len() != "webhook"@.len());
    assert("report"@.len() != "quiet"@.len());
    assert("report"@.len() != "phone"@.len());
    assert("report"@.len() != "films"@.len());
    assert("report"@[0] != "doctor"@[0]);
    assert("report"@.len() != "log"@.len());
    assert("report"@.len() != "add"@.len());
    assert("report"@.len() != "rm"@.len());
    assert("report"@[0] != "enable"@[0]);
    assert("report"@.len() != "disable"@.len());
    assert("report"@[0] != "toggle"@[0]);
    assert("report"@.len() != "edit"@.len());
    assert("report"@.len() != "help"@.len());
    assert("report"@.len() != "h"@.len());
    assert("report"@.len() != "?"@.len());
    assert("report"@.len() != "quit"@.len());
    assert("report"@.len() != "q"@.len());
    assert("webhook"@.len() != "quiet"@.len());
    assert("webhook"@.len() != "phone"@.len());
    assert("webhook"@.len() != "films"@.len());
    assert("webhook"@.len() != "doctor"@.len());
    assert("webhook"@.len() != "log"@.len());
    assert("webhook"@.len() != "add"@.len());
    assert("webhook"@.len() != "rm"@.len());
    assert("webhook"@.len() != "enable"@.len());
    assert("webhook"@[0] != "disable"@[0]);
    assert("webhook"@.len() != "toggle"@.len());
    assert("webhook"@.len() != "edit"@.len());
    assert("webhook"@.len() != "help"@.len());
    assert("webhook"@.len() != "h"@.len());
    assert("webhook"@.len() != "?"@.len());
    assert("webhook"@.len() != "quit"@.len());
    assert("webhook"@.len() != "q"@.len());
    assert("quiet"@[0] != "phone"@[0]);
    assert("quiet"@[0] != "films"@[0]);
    assert("quiet"@.len() != "doctor"@.len());
    assert("quiet"@.len() != "log"@.len());
    assert("quiet"@.len() != "add"@.len());
    assert("quiet"@.len() != "rm"@.len());
    assert("quiet"@.len() != "enable"@.len());
    assert("quiet"@.len() != "disable"@.len());
    assert("quiet"@.len() != "toggle"@.len());
    assert("quiet"@.len() != "edit"@.len());
    assert("quiet"@.len() != "help"@.len());
    assert("quiet"@.len() != "h"@.len());
    assert("quiet"@.len() != "?"@.len());
    assert("quiet"@.len() != "quit"@.len());
    assert("quiet"@.len() != "q"@.len());
    assert("phone"@[0] != "films"@[0]);
    assert("phone"@.len() != "doctor"@.len());
    assert("phone"@.len() != "log"@.len());
    assert("phone"@.len() != "add"@.len());
    assert("phone"@.len() != "rm"@.len());
    assert("phone"@.len() != "enable"@.len());
    assert("phone"@.len() != "disable"@.len());
    assert("phone"@.len() != "toggle"@.len());
    assert("phone"@.len() != "edit"@.len());
    assert("phone"@.len() != "help"@.len());
    assert("phone"@.len() != "h"@.len());
    assert("phone"@.len() != "?"@.len());
    assert("phone"@.len() != "quit"@.len());
    assert("phone"@.len() != "q"@.len());
    assert("films"@.len() != "doctor"@.len());
    assert("films"@.len() != "log"@.len());
    assert("films"@.len() != "add"@.len());
    assert("films"@.len() != "rm"@.len());
    assert("films"@.len() != "enable"@.len());
    assert("films"@.len() != "disable"@.len());
    assert("films"@.len() != "toggle"@.len());
    assert("films"@.len() != "edit"@.len());
    assert("films"@.len() != "help"@.len());
    assert("films"@.len() != "h"@.len());
    assert("films"@.len() != "?"@.len());
    assert("films"@.len() != "quit"@.len());
    assert("films"@.len() != "q"@.len());
    assert("doctor"@.len() != "log"@.len());
    assert("doctor"@.len() != "add"@.len());
    assert("doctor"@.len() != "rm"@.len());
    assert("doctor"@[0] != "enable"@[0]);
    assert("doctor"@.len() != "disable"@.len());
    assert("doctor"@[0] != "toggle"@[0]);
    assert("doctor"@.len() != "edit"@.len());
    assert("doctor"@.len() != "help"@.len());
    assert("doctor"@.len() != "h"@.len());
    assert("doctor"@.len() != "?"@.len());
    assert("doctor"@.len() != "quit"@.len());
    assert("doctor"@.len() != "q"@.len());
    assert("log"@[0] != "add"@[0]);
    assert("log"@.len() != "rm"@.len());
    assert("log"@.len() != "enable"@.len());
    assert("log"@.len() != "disable"@.len());
    assert("log"@.len() != "toggle"@.len());
    assert("log"@.len() != "edit"@.len());
    assert("log"@.len() != "help"@.len());
    assert("log"@.len() != "h"@.len());
    assert("log"@.len() != "?"@.len());
    assert("log"@.len() != "quit"@.len());
    assert("log"@.len() != "q"@.len());
    assert("add"@.len() != "rm"@.len());
    assert("add"@.len() != "enable"@.len());
    assert("add"@.len() != "disable"@.len());
    assert("add"@.len() != "toggle"@.len());
    assert("add"@.len() != "edit"@.len());
    assert("add"@.len() != "help"@.len());
    assert("add"@.len() != "h"@.len());
    assert("add"@.len() != "?"@.len());
    assert("add"@.len() != "quit"@.len());
    assert("add"@.len() != "q"@.len());
    assert("rm"@.len() != "enable"@.len());
    assert("rm"@.len() != "disable"@.len());
    assert("rm"@.len() != "toggle"@.len());
    assert("rm"@.len() != "edit"@.len());
    assert("rm"@.len() != "help"@.len());
    assert("rm"@.len() != "h"@.len());
    assert("rm"@.len() != "?"@.len());
    assert("rm"@.len() != "quit"@.len());
    assert("rm"@.len() != "q"@.len());
    assert("enable"@.len() != "disable"@.len());
    assert("enable"@[0] != "toggle"@[0]);
    assert("enable"@.len() != "edit"@.len());
    assert("enable"@.len() != "help"@.len());
    assert("enable"@.len() != "h"@.len());
    assert("enable"@.len() != "?"@.len());
    assert("enable"@.len() != "quit"@.len());
    assert("enable"@.len() != "q"@.len());
    assert("disable"@.len() != "toggle"@.len());
    assert("disable"@.len() != "edit"@.len());
    assert("disable"@.len() != "help"@.len());
    assert("disable"@.len() != "h"@.len());
    assert("disable"@.len() != "?"@.len());
    assert("disable"@.len() != "quit"@.len());
    assert("disable"@.len() != "q"@.len());
    assert("toggle"@.len() != "edit"@.len());
    assert("toggle"@.len() != "help"@.len());
    assert("toggle"@.len() != "h"@.len());
    assert("toggle"@.len() != "?"@.len());
    assert("toggle"@.len() != "quit"@.len());
    assert("toggle"@.len() != "q"@.len());
    assert("edit"@[0] != "help"@[0]);
    assert("edit"@.len() != "h"@.len());
    assert("edit"@.len() != "?"@.len());
    assert("edit"@[0] != "quit"@[0]);
    assert("edit"@.len() != "q"@.len());
    assert("help"@.len() != "h"@.len());
    assert("help"@.len() != "?"@.len());
    assert("help"@[0] != "quit"@[0]);
    assert("help"@.len() != "q"@.len());
    assert("h"@[0] != "?"@[0]);
    assert("h"@.len() != "quit"@.len());
    assert("h"@[0] != "q"@[0]);
    assert("?"@.len() != "quit"@.len());
    assert("?"@[0] != "q"@[0]);
    assert("quit"@.len() != "q"@.len());
}

fn cmd_rm(cfg: &mut Json, rest: &[String]) -> (r: (Result<String, String>, bool))
    requires
        rest@.len() > 0,
    ensures
        ({
            let res: Result<Seq<char>, Seq<char>> = match r.0 {
                Ok(m) => Ok(m@),
                Err(e) => Err(e@),
            };
            exists|found: bool|
                #![trigger items_removed(*old(cfg), *final(cfg), "watches"@, views_of(rest@)[0], found)]
                items_removed(*old(cfg), *final(cfg), "watches"@, views_of(rest@)[0], found) && if found {
                    r.1 && res == Ok::<Seq<char>, Seq<char>>("已删除 "@ + views_of(rest@)[0])
                } else {
                    !r.1 && res == Err::<Seq<char>, Seq<char>>("watch 不存在: "@ + views_of(rest@)[0])
                }
        }),
{
    assert(views_of(rest@)[0] == rest@[0]@);
    let id = rest[0].as_str();
    let found = crate::config::remove_watch(cfg, id);
    assert(items_removed(*old(cfg), *cfg, "watches"@, views_of(rest@)[0], found));
    if found {
        let mut m = owned("已删除 ");
        append_str(&mut m, id);
        (Ok(m), true)
    } else {
        let mut m = owned("watch 不存在: ");
        append_str(&mut m, id);
        (Err(m), false)
    }
}

/// Sets `enabled` of watch `i` to `b`.
fn set_watch_enabled(cfg: &mut Json, i: usize, b: bool)
    requires
        arr_field(*old(cfg), "watches"@) is Some,
        i < watches_of(*old(cfg)).len(),
        watches_of(*old(cfg))[i as int] is Obj,
    ensures
        enabled_at(*old(cfg), *final(cfg), i as int, b),
{
    let ghost c0 = *cfg;
    let mut w = crate::config::swap_item(cfg, "watches", i, Json::Null);
    let ghost cmid = *cfg;
    let ghost w0 = w;
    crate::json::set_field(&mut w, "enabled", Json::Bool(b));
    let ghost w2 = w;
    crate::config::swap_item(cfg, "watches", i, w);
    proof {
        crate::config::lemma_item_replaced_twice(c0, cmid, *cfg, "watches"@, i as int, Json::Null, w2);
        assert(enabled_set(w0, w2, b));
    }
}

fn watch_index(cfg: &Json, id: &str) -> (r: Option<usize>)
    ensures
        match r {
            Some(i) => index_by_id(watches_of(*cfg), id@) == Some(i as int) && i < watches_of(*cfg).len()
                && arr_field(*cfg, "watches"@) is Some && watches_of(*cfg)[i as int] is Obj,
            None => index_by_id(watches_of(*cfg), id@) is None,
        },
{
    let r = crate::config::index_of_id(crate::config::list_items(cfg, "watches"), id);
    proof {
        crate::config::lemma_index_by_id_bounds(watches_of(*cfg), id@);
    }
    r
}

fn cmd_enable(cfg: &mut Json, id: &str, b: bool) -> (r: (Result<String, String>, bool))
    ensures
        switched_in(
            *old(cfg),
            *final(cfg),
            id@,
            b,
            match r.0 {
                Ok(m) => Ok(m@),
                Err(e) => Err(e@),
            },
            r.1,
        ),
{
    match watch_index(cfg, id) {
        None => {
            let mut m = owned("watch 不存在: ");
            append_str(&mut m, id);
            (Err(m), false)
        },
        Some(i) => {
            set_watch_enabled(cfg, i, b);
            let mut m = owned(id);
            append_str(&mut m, " ");
            append_str(
                &mut m,
                if b {
                    "已启用"
                } else {
                    "已停用"
                },
            );
            (Ok(m), true)
        },
    }
}

fn cmd_toggle(cfg: &mut Json, w: &str) -> (r: (Result<String, String>, bool))
    ensures
        toggled(
            *old(cfg),
            *final(cfg),
            w@,
            match r.0 {
                Ok(m) => Ok(m@),
                Err(e) => Err(e@),
            },
            r.1,
        ),
{
    let idx = watch_index(cfg, w);
    let on = match idx {
        Some(i) => {
            let items = crate::config::list_items(cfg, "watches");
            match crate::json::get_bool(&items[i], "enabled") {
                Some(b) => b,
                None => false,
            }
        },
        None => false,
    };
    match idx {
        Some(i) => set_watch_enabled(cfg, i, !on),
        None => {},
    }
    let mut m = owned(w);
    append_str(&mut m, " ");
    append_str(
        &mut m,
        if !on {
            "已启用"
        } else {
            "已停用"
        },
    );
    (Ok(m), true)
}

fn cmd_webhook(cfg: &mut Json, rest: &[String]) -> (r: (Result<String, String>, bool))
    requires
        *old(cfg) is Obj,
    ensures
        ({
            let res: Result<Seq<char>, Seq<char>> = match r.0 {
                Ok(m) => Ok(m@),
                Err(e) => Err(e@),
            };
            let rs = views_of(rest@);
            if rs.len() > 0 && rs[0] == "clear"@ {
                set_to(*old(cfg), *final(cfg), "discord_webhook"@, Json::Null) && r.1 && res == Ok::<
                    Seq<char>,
                    Seq<char>,
                >("webhook = (cleared)"@)
            } else if rs.len() == 0 {
                answers(*old(cfg), *final(cfg), res, r.1, Err("用法: :webhook <url|clear>"@))
            } else {
                set_text(*old(cfg), *final(cfg), "discord_webhook"@, rs[0]) && r.1 && res == Ok::<
                    Seq<char>,
                    Seq<char>,
                >("webhook = "@ + rs[0])
            }
        }),
{
    if rest.len() == 0 {
        return (Err(owned("用法: :webhook <url|clear>")), false);
    }
    assert(views_of(rest@)[0] == rest@[0]@);
    if str_eq(rest[0].as_str(), "clear") {
        crate::json::set_field(cfg, "discord_webhook", Json::Null);
        return (Ok(owned("webhook = (cleared)")), true);
    }
    crate::json::set_field(cfg, "discord_webhook", crate::json::jstr(rest[0].as_str()));
    let mut m = owned("webhook = ");
    append_str(&mut m, rest[0].as_str());
    (Ok(m), true)
}

fn films_type(rest: &[String]) -> (r: u8)
    ensures
        r == (if views_of(rest@).len() > 0 && parse_unsigned_s(views_of(rest@)[0], u8::MAX as nat) is Some {
            parse_unsigned_s(views_of(rest@)[0], u8::MAX as nat)->0 as u8
        } else {
            2
        }),
{
    if rest.len() == 0 {
        return 2;
    }
    assert(views_of(rest@)[0] == rest@[0]@);
    match crate::text::parse_u8(rest[0].as_str()) {
        Some(n) => n,
        None => 2,
    }
}

/// Runs the words `parts` of a command line on the configuration `cfg`,
/// with `wid` the selected watch.
pub fn execute_parts(cfg: &mut Json, parts: &[String], wid: Option<&str>) -> (r: Executed)
    requires
        *old(cfg) is Obj,
    ensures
        executed_parts(*old(cfg), *final(cfg), views_of(parts@), crate::config::opt_view(wid), r),
{
    if parts.len() == 0 {
        return Executed { event: None, save: false, quit: false, external: None };
    }
    let mut rest: Vec<String> = Vec::new();
    let mut k: usize = 1;
    while k < parts.len()
        invariant
            1 <= k <= parts@.len(),
            views_of(rest@) == views_of(parts@).subrange(1, k as int),
        decreases parts.len() - k,
    {
        let ghost before = rest@;
        assert(views_of(before).len() == before.len());
        let item = parts[k].clone();
        assert(item@ == views_of(parts@)[k as int]);
        rest.push(item);
        proof {
            let a = views_of(rest@);
            let b = views_of(parts@).subrange(1, k + 1);
            assert(a.len() == b.len());
            assert forall|j: int| 0 <= j < a.len() implies a[j] == b[j] by {
                if j < before.len() {
                    assert(a[j] == views_of(before)[j]);
                }
            }
            assert(a =~= b);
        }
        k = k + 1;
    }
    assert(views_of(parts@).subrange(1, parts@.len() as int) =~= views_of(parts@).skip(1));
    let rest = rest.as_slice();
    let ghost rs = views_of(rest@);
    let cmd = parts[0].as_str();
    assert(views_of(parts@)[0] == cmd@);
    proof {
        reveal_commands();
    }
    let mut quit = false;
    let mut external: Option<External> = None;
    let (res, save): (Result<String, String>, bool) = if str_eq(cmd, "run") {
        (Err(owned("r 键已经触发；这里不重复")), false)
    } else if str_eq(cmd, "interval") {
        set_seconds(cfg, rest, "check_interval", "用法: :interval <sec>", "interval 必须是数字", "interval")
    } else if str_eq(cmd, "report") {
        set_seconds(
            cfg,
            rest,
            "heartbeat_interval_sec",
            "用法: :report <sec>",
            "report 必须是数字",
            "heartbeat",
        )
    } else if str_eq(cmd, "webhook") {
        cmd_webhook(cfg, rest)
    } else if str_eq(cmd, "quiet") {
        set_window(cfg, rest, "quiet_window", "用法: :quiet HH:MM-HH:MM")
    } else if str_eq(cmd, "phone") {
        set_window(cfg, rest, "phone_only_window", "用法: :phone HH:MM-HH:MM")
    } else if str_eq(cmd, "films") {
        external = Some(External::Films(films_type(rest)));
        (Ok(String::new()), false)
    } else if str_eq(cmd, "doctor") {
        external = Some(External::Doctor);
        (Ok(String::new()), false)
    } else if str_eq(cmd, "log") {
        (Err(owned("请用 tt log 命令行查看")), false)
    } else if str_eq(cmd, "add") {
        cmd_add(cfg, rest)
    } else if str_eq(cmd, "rm") {
        if rest.len() == 0 {
            (Err(owned("用法: :rm <watch_id>")), false)
        } else {
            cmd_rm(cfg, rest)
        }
    } else if str_eq(cmd, "enable") || str_eq(cmd, "disable") {
        if rest.len() == 0 {
            (Err(owned("用法: :enable|disable <watch_id>")), false)
        } else {
            assert(rs[0] == rest@[0]@);
            cmd_enable(cfg, rest[0].as_str(), str_eq(cmd, "enable"))
        }
    } else if str_eq(cmd, "toggle") {
        match wid {
            None => (Err(owned("当前没有选中的 watch")), false),
            Some(w) => cmd_toggle(cfg, w),
        }
    } else if str_eq(cmd, "edit") {
        (Err(owned("简化版：未实现，编辑请用 tt watch edit")), false)
    } else if str_eq(cmd, "help") || str_eq(cmd, "h") || str_eq(cmd, "?") {
        (Ok(owned("可用的命令见 ? 帮助覆盖层")), false)
    } else if str_eq(cmd, "quit") || str_eq(cmd, "q") {
        quit = true;
        (Ok(String::new()), false)
    } else {
        let mut m = owned("未知命令: ");
        append_str(&mut m, cmd);
        (Err(m), false)
    };
    let ghost gres: Result<Seq<char>, Seq<char>> = match &res {
        Ok(m) => Ok(m@),
        Err(e) => Err(e@),
    };
    assert(ran(
        *old(cfg),
        *cfg,
        views_of(parts@)[0],
        views_of(parts@).skip(1),
        crate::config::opt_view(wid),
        gres,
        save,
        quit,
        external,
    ));
    let event = match res {
        Ok(m) => if m.as_str().unicode_len() > 0 {
            let mut e = owned("✓ cmd: ");
            append_str(&mut e, m.as_str());
            Some(e)
        } else {
            None
        },
        Err(e) => {
            let mut t = owned("✗ cmd: ");
            append_str(&mut t, e.as_str());
            Some(t)
        },
    };
    let r = Executed { event, save, quit, external };
    assert(opt_string(r.event) == event_of(gres));
    assert(ran(
        *old(cfg),
        *cfg,
        views_of(parts@)[0],
        views_of(parts@).skip(1),
        crate::config::opt_view(wid),
        gres,
        r.save,
        r.quit,
        r.external,
    ));
    r
}

/// What running a command line did: its words (as a shell splits them)
/// run by [`execute_parts`], or the parse error as the event.
pub open spec fn executed_line(old: Json, new: Json, line: Seq<char>, wid: Option<Seq<char>>, r: Executed) -> bool {
    match shell_words_of(line) {
        None => new == old && (r.event matches Some(e) && e@ == "✗ cmd: 解析失败: missing closing quote"@)
            && !r.save && !r.quit && r.external is None,
        Some(parts) => executed_parts(old, new, parts, wid, r),
    }
}

/// Runs a command line typed into the terminal UI on the configuration
/// `cfg`, with `wid` the selected watch.
pub fn execute(cfg: &mut Json, line: &str, wid: Option<&str>) -> (r: Executed)
    requires
        *old(cfg) is Obj,
    ensures
        executed_line(*old(cfg), *final(cfg), line@, crate::config::opt_view(wid), r),
{
    match split_words(line) {
        Err(e) => {
            let mut t = owned("✗ cmd: 解析失败: ");
            append_str(&mut t, e.as_str());
            proof {
                reveal_strlit("✗ cmd: 解析失败: ");
                reveal_strlit("missing closing quote");
                reveal_strlit("✗ cmd: 解析失败: missing closing quote");
                assert(t@ =~= "✗ cmd: 解析失败: missing closing quote"@);
            }
            Executed { event: Some(t), save: false, quit: false, external: None }
        },
        Ok(parts) => execute_parts(cfg, parts.as_slice(), wid),
    }
}

/// One `toggle` of the selected watch, as seen from the watch at `i`.
proof fn lemma_toggle_step(c0: Json, c1: Json, w: Seq<char>, i: int, r: Result<Seq<char>, Seq<char>>, s: bool)
    requires
        toggled(c0, c1, w, r, s),
        index_by_id(watches_of(c0), w) == Some(i),
    ensures
        0 <= i < watches_of(c0).len(),
        index_by_id(watches_of(c1), w) == Some(i),
        watches_of(c1) == watches_of(c0).update(i, watches_of(c1)[i]),
        is_on(watches_of(c1)[i]) == !is_on(watches_of(c0)[i]),
        forall|k: Seq<char>| k != "enabled"@ ==> field(watches_of(c1)[i], k) == field(watches_of(c0)[i], k),
        forall|k: Seq<char>| k != "watches"@ ==> field(c1, k) == field(c0, k),
{
    crate::config::lemma_index_by_id_bounds(watches_of(c0), w);
    let on = is_on(watches_of(c0)[i]);
    assert(enabled_at(c0, c1, i, !on));
    let w1 = choose|w1: Json| item_replaced(c0, c1, "watches"@, i, w1) && enabled_set(watches_of(c0)[i], w1, !on);
    assert(item_replaced(c0, c1, "watches"@, i, w1));
    reveal_strlit("id");
    reveal_strlit("enabled");
    assert(enabled_set(watches_of(c0)[i], w1, !on));
    assert("id"@.len() == 2);
    assert("enabled"@.len() == 7);
    assert(field(w1, "id"@) == field(watches_of(c0)[i], "id"@));
    crate::config::lemma_index_by_id_update(watches_of(c0), w, i, w1);
    assert(watches_of(c1) == watches_of(c0).update(i, w1));
}

/// Toggling the selected watch twice brings back whether it is on; its
/// other fields, the other watches and the rest of the configuration stay
/// as they were. Without such a watch, nothing changes.
pub proof fn law_toggle_twice(
    c0: Json,
    c1: Json,
    c2: Json,
    w: Seq<char>,
    r1: Result<Seq<char>, Seq<char>>,
    s1: bool,
    r2: Result<Seq<char>, Seq<char>>,
    s2: bool,
)
    requires
        toggled(c0, c1, w, r1, s1),
        toggled(c1, c2, w, r2, s2),
    ensures
        match index_by_id(watches_of(c0), w) {
            None => c2 == c0,
            Some(i) => {
                &&& index_by_id(watches_of(c2), w) == Some(i)
                &&& watches_of(c2).len() == watches_of(c0).len()
                &&& forall|j: int| 0 <= j < watches_of(c0).len() && j != i ==> #[trigger] watches_of(c2)[j] == watches_of(c0)[j]
                &&& is_on(watches_of(c2)[i]) == is_on(watches_of(c0)[i])
                &&& forall|k: Seq<char>| k != "enabled"@ ==> field(watches_of(c2)[i], k) == field(watches_of(c0)[i], k)
                &&& forall|k: Seq<char>| k != "watches"@ ==> field(c2, k) == field(c0, k)
            },
        },
{
    match index_by_id(watches_of(c0), w) {
        None => {},
        Some(i) => {
            lemma_toggle_step(c0, c1, w, i, r1, s1);
            lemma_toggle_step(c1, c2, w, i, r2, s2);
        },
    }
}

} // verus!
