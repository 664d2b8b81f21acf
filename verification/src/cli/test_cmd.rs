//! `tt test [all|discord|macos|xhs|wechat]`: which test notices to send, to
//! whom, and with what text. Sending belongs to the program.

use vstd::prelude::*;

use crate::config::watches_of;
use crate::json::{bool_field, str_field, Json};
use crate::text::{append_str, owned, str_eq, trim, trim_s};

verus! {

/// One step of `tt test`.
pub enum TestStep {
    /// Send a test to the Discord webhook at this address.
    Discord(String),
    /// No Discord webhook is set.
    DiscordMissing,
    /// Show a desktop notice.
    Macos,
    /// Send a test to this XHS group.
    Xhs(String),
    /// No watch names an XHS group; the run stops here.
    XhsMissing,
    /// Send this WeChat message.
    Wechat(String),
    /// No watch has WeChat notices on; the run stops here.
    WechatMissing,
}

pub enum StepV {
    Discord(Seq<char>),
    DiscordMissing,
    Macos,
    Xhs(Seq<char>),
    XhsMissing,
    Wechat(Seq<char>),
    WechatMissing,
}

impl View for TestStep {
    type V = StepV;

    open spec fn view(&self) -> StepV {
        match self {
            TestStep::Discord(u) => StepV::Discord(u@),
            TestStep::DiscordMissing => StepV::DiscordMissing,
            TestStep::Macos => StepV::Macos,
            TestStep::Xhs(g) => StepV::Xhs(g@),
            TestStep::XhsMissing => StepV::XhsMissing,
            TestStep::Wechat(m) => StepV::Wechat(m@),
            TestStep::WechatMissing => StepV::WechatMissing,
        }
    }
}

pub open spec fn steps_view(v: Seq<TestStep>) -> Seq<StepV> {
    v.map_values(|s: TestStep| s@)
}

/// The XHS group of the first watch that names one (trimmed).
pub open spec fn first_xhs_group(ws: Seq<Json>) -> Option<Seq<char>>
    decreases ws.len(),
{
    if ws.len() == 0 {
        None
    } else {
        match str_field(ws[0], "xhs_group"@) {
            Some(g) => if trim_s(g).len() > 0 {
                Some(trim_s(g))
            } else {
                first_xhs_group(ws.drop_first())
            },
            None => first_xhs_group(ws.drop_first()),
        }
    }
}

/// The first watch with WeChat notices on.
pub open spec fn first_wechat(ws: Seq<Json>) -> Option<Json>
    decreases ws.len(),
{
    if ws.len() == 0 {
        None
    } else if bool_field(ws[0], "wechat_notify"@) == Some(true) {
        Some(ws[0])
    } else {
        first_wechat(ws.drop_first())
    }
}

/// The WeChat test message for a movie.
pub open spec fn wechat_text(movie: Seq<char>) -> Seq<char> {
    "🧪 测试通知\n\n🎬 预售开启\n\n🎞 "@ + movie
        + "\n🏛 测试影院\n📅 测试场次｜N 场｜HH:MM 至 HH:MM\n\n👉 https://www.maoyan.com/cinema/37534"@
}

pub open spec fn wants(k: Seq<char>, which: Seq<char>) -> bool {
    k == "all"@ || k == which
}

/// The steps of `tt test` of kind `k` (`all` when none is given) over
/// `cfg`: Discord, the desktop notice, XHS, WeChat, each when asked for;
/// a missing XHS group or WeChat watch is reported and the run goes on.
pub open spec fn test_steps(cfg: Json, k: Seq<char>) -> Seq<StepV> {
    let d: Seq<StepV> = if wants(k, "discord"@) {
        match str_field(cfg, "discord_webhook"@) {
            Some(u) => seq![StepV::Discord(u)],
            None => seq![StepV::DiscordMissing],
        }
    } else {
        Seq::empty()
    };
    let m: Seq<StepV> = if wants(k, "macos"@) {
        seq![StepV::Macos]
    } else {
        Seq::empty()
    };
    let x: Seq<StepV> = if wants(k, "xhs"@) {
        match first_xhs_group(watches_of(cfg)) {
            Some(g) => seq![StepV::Xhs(g)],
            None => seq![StepV::XhsMissing],
        }
    } else {
        Seq::empty()
    };
    let w: Seq<StepV> = if wants(k, "wechat"@) {
        match first_wechat(watches_of(cfg)) {
            Some(wt) => seq![
                StepV::Wechat(
                    wechat_text(
                        match str_field(wt, "movie_name"@) {
                            Some(n) => n,
                            None => "(未命名影片)"@,
                        },
                    ),
                ),
            ],
            None => seq![StepV::WechatMissing],
        }
    } else {
        Seq::empty()
    };
    d + m + x + w
}

fn xhs_group_of(ws: &[Json]) -> (r: Option<String>)
    ensures
        match r {
            Some(g) => first_xhs_group(ws@) == Some(g@),
            None => first_xhs_group(ws@) is None,
        },
{
    let mut i: usize = 0;
    assert(ws@.skip(0) =~= ws@);
    while i < ws.len()
        invariant
            i <= ws@.len(),
            first_xhs_group(ws@) == first_xhs_group(ws@.skip(i as int)),
        decreases ws.len() - i,
    {
        assert(ws@.skip(i as int)[0] == ws@[i as int]);
        assert(ws@.skip(i as int).drop_first() =~= ws@.skip(i + 1));
        match crate::json::get_str(&ws[i], "xhs_group") {
            Some(g) => {
                let t = trim(g.as_str());
                if t.as_str().unicode_len() > 0 {
                    return Some(t);
                }
            },
            None => {},
        }
        i = i + 1;
    }
    assert(ws@.skip(i as int) =~= Seq::<Json>::empty());
    None
}

fn wechat_watch<'a>(ws: &'a [Json]) -> (r: Option<&'a Json>)
    ensures
        match r {
            Some(w) => first_wechat(ws@) == Some(*w),
            None => first_wechat(ws@) is None,
        },
{
    let mut i: usize = 0;
    assert(ws@.skip(0) =~= ws@);
    while i < ws.len()
        invariant
            i <= ws@.len(),
            first_wechat(ws@) == first_wechat(ws@.skip(i as int)),
        decreases ws.len() - i,
    {
        assert(ws@.skip(i as int)[0] == ws@[i as int]);
        assert(ws@.skip(i as int).drop_first() =~= ws@.skip(i + 1));
        match crate::json::get_bool(&ws[i], "wechat_notify") {
            Some(true) => {
                return Some(&ws[i]);
            },
            _ => {},
        }
        i = i + 1;
    }
    assert(ws@.skip(i as int) =~= Seq::<Json>::empty());
    None
}

fn wants_exec(k: &str, which: &str) -> (r: bool)
    ensures
        r == wants(k@, which@),
{
    str_eq(k, "all") || str_eq(k, which)
}

/// The steps of `tt test` with `kind` over the configuration `cfg`.
pub fn test_plan(cfg: &Json, kind: Option<&str>) -> (r: Vec<TestStep>)
    ensures
        steps_view(r@) == test_steps(
            *cfg,
            match kind {
                Some(k) => k@,
                None => "all"@,
            },
        ),
{
    let k = match kind {
        Some(k) => k,
        None => "all",
    };
    let mut steps: Vec<TestStep> = Vec::new();
    if wants_exec(k, "discord") {
        match crate::json::get_str(cfg, "discord_webhook") {
            Some(u) => steps.push(TestStep::Discord(u)),
            None => steps.push(TestStep::DiscordMissing),
        }
    }
    let ghost d = steps_view(steps@);
    if wants_exec(k, "macos") {
        steps.push(TestStep::Macos);
    }
    let ghost dm = steps_view(steps@);
    let ws = crate::config::list_items(cfg, "watches");
    if wants_exec(k, "xhs") {
        match xhs_group_of(ws) {
            Some(g) => steps.push(TestStep::Xhs(g)),
            None => steps.push(TestStep::XhsMissing),
        }
    }
    if wants_exec(k, "wechat") {
        match wechat_watch(ws) {
            Some(w) => {
                let movie = match crate::json::get_str(w, "movie_name") {
                    Some(n) => n,
                    None => owned("(未命名影片)"),
                };
                let mut msg = owned("🧪 测试通知\n\n🎬 预售开启\n\n🎞 ");
                append_str(&mut msg, movie.as_str());
                append_str(
                    &mut msg,
                    "\n🏛 测试影院\n📅 测试场次｜N 场｜HH:MM 至 HH:MM\n\n👉 https://www.maoyan.com/cinema/37534",
                );
                steps.push(TestStep::Wechat(msg));
            },
            None => steps.push(TestStep::WechatMissing),
        }
    }
    proof {
        let kk = match kind {
            Some(k) => k@,
            None => "all"@,
        };
        assert(kk == k@);
        assert(steps_view(steps@) =~= test_steps(*cfg, kk));
    }
    steps
}

} // verus!
