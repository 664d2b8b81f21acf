//! `tt init` and `tt doctor`: what they report. Creating the file, the
//! platform and the network probe belong to the program.

use vstd::prelude::*;

use crate::config::watches_of;
use crate::json::{str_field, Json};
use crate::text::{append_str, dec_text, owned, views_of};

verus! {

/// What `tt init` prints for the configuration file at `path`, which
/// existed before or was just created.
pub open spec fn init_lines_s(existed: bool, path: Seq<char>) -> Seq<Seq<char>> {
    seq![
        (if existed {
            "✓ 配置已存在："@
        } else {
            "✓ 已创建配置："@
        }) + path,
        "  编辑：tt config show"@,
    ]
}

pub fn init_lines(existed: bool, path: &str) -> (r: Vec<String>)
    ensures
        views_of(r@) == init_lines_s(existed, path@),
{
    let mut first = owned(
        if existed {
            "✓ 配置已存在："
        } else {
            "✓ 已创建配置："
        },
    );
    append_str(&mut first, path);
    let mut r: Vec<String> = Vec::new();
    r.push(first);
    r.push(owned("  编辑：tt config show"));
    assert(views_of(r@) =~= init_lines_s(existed, path@));
    r
}

/// The self-check report on the configuration `cfg` at `path`: the
/// version and platform, the file, how many watches, whether a Discord
/// webhook is set, and whether the keep-awake helper can run (macOS only).
pub open spec fn doctor_lines_s(
    cfg: Json,
    version: Seq<char>,
    os: Seq<char>,
    path: Seq<char>,
    on_mac: bool,
) -> Seq<Seq<char>> {
    seq![
        "ticket-tracker 自检"@,
        "  版本: "@ + version + " ("@ + os + ")"@,
        "✓ 配置文件："@ + path,
        "✓ watches: "@ + dec_text(watches_of(cfg).len()) + " 条"@,
        if str_field(cfg, "discord_webhook"@) is Some {
            "✓ Discord webhook: 已配置"@
        } else {
            "✗ Discord webhook: 未配置"@
        },
        if on_mac {
            "✓ caffeinate（防休眠）: 可用"@
        } else {
            "○ caffeinate（防休眠）: 当前平台不可用"@
        },
    ]
}

pub fn doctor_lines(cfg: &Json, version: &str, os: &str, path: &str, on_mac: bool) -> (r: Vec<String>)
    ensures
        views_of(r@) == doctor_lines_s(*cfg, version@, os@, path@, on_mac),
{
    let mut r: Vec<String> = Vec::new();
    r.push(owned("ticket-tracker 自检"));
    let mut v = owned("  版本: ");
    append_str(&mut v, version);
    append_str(&mut v, " (");
    append_str(&mut v, os);
    append_str(&mut v, ")");
    r.push(v);
    let mut p = owned("✓ 配置文件：");
    append_str(&mut p, path);
    r.push(p);
    let n = crate::config::list_watches(cfg).len();
    let mut w = owned("✓ watches: ");
    let nt = crate::text::u64_text(n as u64);
    append_str(&mut w, nt.as_str());
    append_str(&mut w, " 条");
    r.push(w);
    let hook = match crate::json::get_str(cfg, "discord_webhook") {
        Some(_) => owned("✓ Discord webhook: 已配置"),
        None => owned("✗ Discord webhook: 未配置"),
    };
    r.push(hook);
    r.push(
        owned(
            if on_mac {
                "✓ caffeinate（防休眠）: 可用"
            } else {
                "○ caffeinate（防休眠）: 当前平台不可用"
            },
        ),
    );
    assert(views_of(r@) =~= doctor_lines_s(*cfg, version@, os@, path@, on_mac));
    r
}

/// The line of the network probe: whether `m.maoyan.com` answered, and in
/// how many milliseconds.
pub fn network_line(ok: bool, millis: u64) -> (r: String)
    ensures
        r@ == (if ok {
            "✓ 网络可达"@
        } else {
            "✗ 网络不通"@
        }) + " m.maoyan.com ("@ + dec_text(millis as nat) + " ms)"@,
{
    let mut t = owned(
        if ok {
            "✓ 网络可达"
        } else {
            "✗ 网络不通"
        },
    );
    append_str(&mut t, " m.maoyan.com (");
    let m = crate::text::u64_text(millis);
    append_str(&mut t, m.as_str());
    append_str(&mut t, " ms)");
    t
}

} // verus!
