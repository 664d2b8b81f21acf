//! `tt start`, `tt status` and `tt log`: what they decide and print. The
//! pid file, the log file and the terminal UI belong to the program.

use vstd::prelude::*;

use crate::json::{field, Json};
use crate::text::{append_str, owned, split_newlines, split_nl, trim, trim_s, views_of};

verus! {

/// What `tt start` does.
pub enum StartPlan {
    /// Run the terminal UI in the foreground.
    Tui,
    /// Start the background run (after saving the configuration when `save`).
    Background { save: bool },
    /// Refuse, with the message (after saving the configuration when `save`).
    Refused { save: bool, message: String },
}

/// Decides `tt start`. Without `--detach` it runs the terminal UI. With it,
/// it is refused while a pid file (read as `pid_text`) exists, because a
/// run is on; otherwise it starts the background run, after storing
/// `--interval` as the check interval.
pub fn run(detach: bool, interval: Option<u64>, watch: Vec<String>, cfg: &mut Json, pid_text: Option<&str>) -> (r:
    StartPlan)
    requires
        *old(cfg) is Obj,
    ensures
        !detach ==> r is Tui && *final(cfg) == *old(cfg),
        detach && pid_text is Some ==> *final(cfg) == *old(cfg) && (r matches StartPlan::Refused {
            save,
            message,
        } && !save && message@ == "daemon 已在运行（pid="@ + trim_s(pid_text->0@) + "），先 tt stop"@),
        detach && pid_text is None ==> (r matches StartPlan::Background { save } && save == interval is Some),
        detach && pid_text is None && interval is None ==> *final(cfg) == *old(cfg),
        detach && pid_text is None && interval is Some ==> {
            &&& *final(cfg) is Obj
            &&& field(*final(cfg), "check_interval"@) == Some(Json::Int(interval->0 as i128))
            &&& forall|k: Seq<char>| k != "check_interval"@ ==> field(*final(cfg), k) == field(*old(cfg), k)
        },
{
    if !detach {
        return StartPlan::Tui;
    }
    match pid_text {
        Some(p) => {
            let mut m = owned("daemon 已在运行（pid=");
            let t = trim(p);
            append_str(&mut m, t.as_str());
            append_str(&mut m, "），先 tt stop");
            StartPlan::Refused { save: false, message: m }
        },
        None => {
            let save = match interval {
                Some(i) => {
                    crate::json::set_field(cfg, "check_interval", Json::Int(i as i128));
                    true
                },
                None => false,
            };
            StartPlan::Background { save }
        },
    }
}

/// The line of `tt status`: the pid of the background run and whether its
/// process is alive, or that there is none.
pub fn status_line(pid_text: Option<&str>, running: bool) -> (r: String)
    ensures
        r@ == match pid_text {
            Some(p) => "daemon pid "@ + trim_s(p@) + " ("@ + (if running {
                "running"@
            } else {
                "stale"@
            }) + ")"@,
            None => "无后台 daemon。前台模式：tt start"@,
        },
{
    match pid_text {
        Some(p) => {
            let mut m = owned("daemon pid ");
            let t = trim(p);
            append_str(&mut m, t.as_str());
            append_str(&mut m, " (");
            append_str(
                &mut m,
                if running {
                    "running"
                } else {
                    "stale"
                },
            );
            append_str(&mut m, ")");
            m
        },
        None => owned("无后台 daemon。前台模式：tt start"),
    }
}

/// The line without a final `\r`.
pub open spec fn without_cr(l: Seq<char>) -> Seq<char> {
    if l.len() > 0 && l.last() == '\r' {
        l.drop_last()
    } else {
        l
    }
}

/// The lines of a text (`str::lines`): the pieces between `\n`, without a
/// final `\r`, and no empty piece after a final `\n`.
pub open spec fn text_lines(s: Seq<char>) -> Seq<Seq<char>> {
    let p = split_nl(s);
    let q = if p.len() > 0 && p.last().len() == 0 {
        p.drop_last()
    } else {
        p
    };
    q.map_values(|l: Seq<char>| without_cr(l))
}

/// The last `n` lines of the log text `content` (all of them when there
/// are fewer).
pub fn log_tail(content: &str, n: usize) -> (r: Vec<String>)
    ensures
        views_of(r@) == if text_lines(content@).len() > n {
            text_lines(content@).skip(text_lines(content@).len() - n)
        } else {
            text_lines(content@)
        },
{
    let pieces = split_newlines(content);
    let ghost p = split_nl(content@);
    let mut m = pieces.len();
    if m > 0 && pieces[m - 1].as_str().unicode_len() == 0 {
        m = m - 1;
    }
    let ghost q = if p.len() > 0 && p.last().len() == 0 {
        p.drop_last()
    } else {
        p
    };
    assert(q =~= views_of(pieces@).take(m as int));
    let start = if m > n {
        m - n
    } else {
        0
    };
    let mut out: Vec<String> = Vec::new();
    let mut i = start;
    while i < m
        invariant
            start <= i <= m,
            m <= pieces@.len(),
            q == views_of(pieces@).take(m as int),
            views_of(out@) == q.subrange(start as int, i as int).map_values(|l: Seq<char>| without_cr(l)),
        decreases m - i,
    {
        let v = crate::text::chars_of(pieces[i].as_str());
        assert(q[i as int] == pieces@[i as int]@);
        let line = if v.len() > 0 && v[v.len() - 1] == '\r' {
            assert(v@.subrange(0, v@.len() - 1) =~= v@.drop_last());
            crate::text::string_of_range(&v, 0, v.len() - 1)
        } else {
            pieces[i].clone()
        };
        assert(line@ == without_cr(q[i as int]));
        let ghost before = out@;
        assert(views_of(before).len() == before.len());
        out.push(line);
        proof {
            let a = views_of(out@);
            let b = q.subrange(start as int, i + 1).map_values(|l: Seq<char>| without_cr(l));
            let c = q.subrange(start as int, i as int).map_values(|l: Seq<char>| without_cr(l));
            assert(a.len() == b.len());
            assert forall|j: int| 0 <= j < a.len() implies a[j] == b[j] by {
                if j < before.len() {
                    assert(a[j] == views_of(before)[j]);
                    assert(views_of(before)[j] == c[j]);
                }
            }
            assert(a =~= b);
        }
        i = i + 1;
    }
    assert(q.subrange(start as int, m as int) =~= (if q.len() > n { q.skip(q.len() - n) } else { q }));
    assert(text_lines(content@) =~= q.map_values(|l: Seq<char>| without_cr(l)));
    assert(views_of(out@) =~= (if text_lines(content@).len() > n {
        text_lines(content@).skip(text_lines(content@).len() - n)
    } else {
        text_lines(content@)
    }));
    out
}

/// The line printed once the background run started as process `pid`,
/// writing to the log at `log_path`.
pub fn started_line(pid: u32, log_path: &str) -> (r: String)
    ensures
        r@ == "✓ 后台已启动 pid="@ + crate::text::dec_text(pid as nat) + "（日志："@ + log_path@ + "）"@,
{
    let mut m = owned("✓ 后台已启动 pid=");
    let p = crate::text::u64_text(pid as u64);
    append_str(&mut m, p.as_str());
    append_str(&mut m, "（日志：");
    append_str(&mut m, log_path);
    append_str(&mut m, "）");
    m
}

} // verus!
