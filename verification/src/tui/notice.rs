//! The test notice sent from a watch form: its texts, built from the form
//! and the configuration, and the line that sums up the sends. Sending
//! belongs to the program.

use vstd::prelude::*;

use crate::config::{cinemas_of, find_by_id, i64_or_zero, str_or_empty, watches_of};
use crate::json::{field, str_field, Json};
use crate::text::{
    append_str, is_ws, joined, owned, signed_text, starts_with_s, trim, trim_s, views_of,
};
use crate::tui::modal::{FieldV, FormKind, FormKindV, FormModal, FormV};

verus! {

// ----------------------------------------------------------------------
// Words and comma lists
// ----------------------------------------------------------------------

/// Scanning state over `s`: the finished words and the word being read.
pub open spec fn word_scan(s: Seq<char>) -> (Seq<Seq<char>>, Seq<char>)
    decreases s.len(),
{
    if s.len() == 0 {
        (Seq::empty(), Seq::empty())
    } else {
        let (done, cur) = word_scan(s.drop_last());
        let c = s.last();
        if is_ws(c) {
            if cur.len() > 0 {
                (done.push(cur), Seq::empty())
            } else {
                (done, Seq::empty())
            }
        } else {
            (done, cur.push(c))
        }
    }
}

/// The words of `s` (`split_whitespace`).
pub open spec fn words(s: Seq<char>) -> Seq<Seq<char>> {
    let (done, cur) = word_scan(s);
    if cur.len() > 0 {
        done.push(cur)
    } else {
        done
    }
}

/// The words of `s`, split at white space.
pub fn split_words(s: &str) -> (r: Vec<String>)
    ensures
        views_of(r@) == words(s@),
{
    let v = crate::text::chars_of(s);
    let mut out: Vec<String> = Vec::new();
    let mut start: usize = 0;
    let mut i: usize = 0;
    assert(v@.take(0) =~= Seq::<char>::empty());
    assert(views_of(out@) =~= Seq::<Seq<char>>::empty());
    while i < v.len()
        invariant
            i <= v@.len(),
            start <= i,
            v@ == s@,
            views_of(out@) == word_scan(v@.take(i as int)).0,
            v@.subrange(start as int, i as int) == word_scan(v@.take(i as int)).1,
        decreases v.len() - i,
    {
        let ghost t = v@.take(i + 1);
        assert(t.drop_last() =~= v@.take(i as int));
        assert(t.last() == v@[i as int]);
        if crate::text::is_ws_exec(v[i]) {
            if start < i {
                let piece = crate::text::string_of_range(&v, start, i);
                out.push(piece);
                assert(views_of(out@) =~= word_scan(v@.take(i as int)).0.push(piece@));
            }
            start = i + 1;
            assert(v@.subrange(start as int, i + 1) =~= Seq::<char>::empty());
        } else {
            assert(v@.subrange(start as int, i + 1) =~= v@.subrange(start as int, i as int).push(
                v@[i as int],
            ));
        }
        i = i + 1;
    }
    assert(v@.take(v@.len() as int) =~= v@);
    if start < v.len() {
        let piece = crate::text::string_of_range(&v, start, v.len());
        out.push(piece);
        assert(views_of(out@) =~= word_scan(v@).0.push(piece@));
    }
    out
}

/// Scanning state over `s`: the finished trimmed non-empty items between
/// commas, and the item being read.
pub open spec fn comma_scan(s: Seq<char>) -> (Seq<Seq<char>>, Seq<char>)
    decreases s.len(),
{
    if s.len() == 0 {
        (Seq::empty(), Seq::empty())
    } else {
        let (done, cur) = comma_scan(s.drop_last());
        let c = s.last();
        if c == ',' {
            if trim_s(cur).len() > 0 {
                (done.push(trim_s(cur)), Seq::empty())
            } else {
                (done, Seq::empty())
            }
        } else {
            (done, cur.push(c))
        }
    }
}

/// The items of a comma list, trimmed, empty ones dropped.
pub open spec fn comma_items(s: Seq<char>) -> Seq<Seq<char>> {
    let (done, cur) = comma_scan(s);
    if trim_s(cur).len() > 0 {
        done.push(trim_s(cur))
    } else {
        done
    }
}

/// The items of a comma list, trimmed, empty ones dropped.
pub fn split_commas(s: &str) -> (r: Vec<String>)
    ensures
        views_of(r@) == comma_items(s@),
{
    let v = crate::text::chars_of(s);
    let mut out: Vec<String> = Vec::new();
    let mut start: usize = 0;
    let mut i: usize = 0;
    assert(v@.take(0) =~= Seq::<char>::empty());
    assert(views_of(out@) =~= Seq::<Seq<char>>::empty());
    while i < v.len()
        invariant
            i <= v@.len(),
            start <= i,
            v@ == s@,
            views_of(out@) == comma_scan(v@.take(i as int)).0,
            v@.subrange(start as int, i as int) == comma_scan(v@.take(i as int)).1,
        decreases v.len() - i,
    {
        let ghost t = v@.take(i + 1);
        assert(t.drop_last() =~= v@.take(i as int));
        assert(t.last() == v@[i as int]);
        if v[i] == ',' {
            let raw = crate::text::string_of_range(&v, start, i);
            let piece = trim(raw.as_str());
            if piece.as_str().unicode_len() > 0 {
                out.push(piece);
                assert(views_of(out@) =~= comma_scan(v@.take(i as int)).0.push(piece@));
            }
            start = i + 1;
            assert(v@.subrange(start as int, i + 1) =~= Seq::<char>::empty());
        } else {
            assert(v@.subrange(start as int, i + 1) =~= v@.subrange(start as int, i as int).push(
                v@[i as int],
            ));
        }
        i = i + 1;
    }
    assert(v@.take(v@.len() as int) =~= v@);
    let raw = crate::text::string_of_range(&v, start, v.len());
    let piece = trim(raw.as_str());
    if piece.as_str().unicode_len() > 0 {
        out.push(piece);
        assert(views_of(out@) =~= comma_scan(v@).0.push(piece@));
    }
    out
}

// ----------------------------------------------------------------------
// Cinema names
// ----------------------------------------------------------------------

/// A saved cinema with a real name: its id and name (a name that is empty
/// or the default `影城 <id>` does not count).
pub open spec fn registry_entry(c: Json) -> Option<(Seq<char>, Seq<char>)> {
    match str_field(c, "id"@) {
        None => None,
        Some(id) => {
            let n = str_or_empty(c, "name"@);
            if n.len() == 0 || starts_with_s(n, "影城 "@) {
                None
            } else {
                Some((id, n))
            }
        },
    }
}

/// The real name of cinema `cid` among the saved cinemas `cs` (the last
/// entry for it counts).
pub open spec fn registry_name(cs: Seq<Json>, cid: Seq<char>) -> Option<Seq<char>>
    decreases cs.len(),
{
    if cs.len() == 0 {
        None
    } else {
        match registry_entry(cs.last()) {
            Some(e) => if e.0 == cid {
                Some(e.1)
            } else {
                registry_name(cs.drop_last(), cid)
            },
            None => registry_name(cs.drop_last(), cid),
        }
    }
}

/// The name of cinema `cid` in the watch's last listing, when it is text.
pub open spec fn payload_name(w: Json, cid: Seq<char>) -> Option<Seq<char>> {
    match field(w, "_last_payload"@) {
        Some(p) => match field(p, "cinema_names"@) {
            Some(o) => str_field(o, cid),
            None => None,
        },
        None => None,
    }
}

/// What a notice shows for cinema `cid`: `name (cid)` when a name is known
/// (saved cinemas first, then the watch's last listing), else the id.
pub open spec fn cinema_shown(cfg: Json, watch: Option<Json>, cid: Seq<char>) -> Seq<char> {
    let name = match watch {
        None => Seq::empty(),
        Some(w) => match registry_name(cinemas_of(cfg), cid) {
            Some(n) => n,
            None => match payload_name(w, cid) {
                Some(n) => n,
                None => Seq::empty(),
            },
        },
    };
    if name.len() == 0 {
        cid
    } else {
        name + " ("@ + cid + ")"@
    }
}

fn registry_name_exec(cs: &[Json], cid: &str) -> (r: Option<String>)
    ensures
        match r {
            Some(n) => registry_name(cs@, cid@) == Some(n@),
            None => registry_name(cs@, cid@) is None,
        },
{
    let mut found: Option<String> = None;
    let mut i: usize = 0;
    while i < cs.len()
        invariant
            i <= cs@.len(),
            match found {
                Some(n) => registry_name(cs@.take(i as int), cid@) == Some(n@),
                None => registry_name(cs@.take(i as int), cid@) is None,
            },
        decreases cs.len() - i,
    {
        let ghost t = cs@.take(i + 1);
        assert(t.drop_last() =~= cs@.take(i as int));
        assert(t.last() == cs@[i as int]);
        match crate::json::get_str(&cs[i], "id") {
            Some(id) => {
                let n = match crate::json::get_str(&cs[i], "name") {
                    Some(n) => n,
                    None => String::new(),
                };
                if n.as_str().unicode_len() > 0 && !crate::text::starts_with_str(n.as_str(), "影城 ")
                    && crate::text::str_eq(id.as_str(), cid) {
                    found = Some(n);
                }
            },
            None => {},
        }
        i = i + 1;
    }
    assert(cs@.take(cs@.len() as int) =~= cs@);
    found
}

fn payload_name_exec(w: &Json, cid: &str) -> (r: Option<String>)
    ensures
        match r {
            Some(n) => payload_name(*w, cid@) == Some(n@),
            None => payload_name(*w, cid@) is None,
        },
{
    match crate::json::get(w, "_last_payload") {
        Some(p) => match crate::json::get(p, "cinema_names") {
            Some(o) => crate::json::get_str(o, cid),
            None => None,
        },
        None => None,
    }
}

fn cinema_shown_exec(cfg: &Json, watch: Option<&Json>, cid: &str) -> (r: String)
    ensures
        r@ == cinema_shown(*cfg, match watch {
            Some(w) => Some(*w),
            None => None,
        }, cid@),
{
    let name = match watch {
        None => String::new(),
        Some(w) => match registry_name_exec(crate::config::list_items(cfg, "cinemas"), cid) {
            Some(n) => n,
            None => match payload_name_exec(w, cid) {
                Some(n) => n,
                None => String::new(),
            },
        },
    };
    if name.as_str().unicode_len() == 0 {
        owned(cid)
    } else {
        let mut t = name;
        append_str(&mut t, " (");
        append_str(&mut t, cid);
        append_str(&mut t, ")");
        t
    }
}

// ----------------------------------------------------------------------
// The notice
// ----------------------------------------------------------------------

/// The trimmed value of field `i`, or nothing when the form is shorter.
pub open spec fn field_text(f: FormV, i: int) -> Seq<char> {
    if 0 <= i < f.fields.len() {
        trim_s(f.fields[i].value)
    } else {
        Seq::empty()
    }
}

/// What the notice says of its watch.
pub struct InfoV {
    pub movie_name: Seq<char>,
    pub movie_id: i64,
    pub wid: Seq<char>,
    pub watch: Option<Json>,
}

/// The watch of an edit form, found in `cfg`; unknown otherwise.
pub open spec fn notice_info(cfg: Json, kind: FormKindV) -> InfoV {
    match kind {
        FormKindV::EditWatch(wid) => match find_by_id(watches_of(cfg), wid) {
            Some(w) => InfoV {
                movie_name: match str_field(w, "movie_name"@) {
                    Some(n) => n,
                    None => "(未命名)"@,
                },
                movie_id: i64_or_zero(w, "movie_id"@),
                wid,
                watch: Some(w),
            },
            None => InfoV { movie_name: wid, movie_id: 0, wid, watch: None },
        },
        _ => InfoV { movie_name: "(未知)"@, movie_id: 0, wid: "(未知)"@, watch: None },
    }
}

/// The cinemas line: each id of the form as [`cinema_shown`], or that none
/// is set.
pub open spec fn cinemas_line(cfg: Json, i: InfoV, s: Seq<char>) -> Seq<char> {
    if s.len() == 0 {
        "（未配）"@
    } else {
        joined(words(s).map_values(|cid: Seq<char>| cinema_shown(cfg, i.watch, cid)), "、"@)
    }
}

pub open spec fn or_default(s: Seq<char>, d: Seq<char>) -> Seq<char> {
    if s.len() == 0 {
        d
    } else {
        s
    }
}

/// A test notice by its text.
pub struct NoticeV {
    pub title: Seq<char>,
    pub body: Seq<char>,
    pub webhook: Seq<char>,
    pub email: Seq<char>,
    pub xhs_group: Seq<char>,
    pub xhs_body: Seq<char>,
    pub wechat_on: bool,
    pub wechat_msg: Seq<char>,
}

/// The test notice of form `f` over `cfg` at time `now`. The form's fields
/// are read by position: cinemas, dates, time window, mode, interval,
/// webhook, email, XHS group, WeChat switch.
pub open spec fn test_notice_s(cfg: Json, f: FormV, now: Seq<char>) -> NoticeV {
    let i = notice_info(cfg, f.kind);
    let cinemas = cinemas_line(cfg, i, field_text(f, 0));
    let dates = if field_text(f, 1).len() == 0 {
        "不限"@
    } else {
        joined(comma_items(field_text(f, 1)), ", "@)
    };
    let tw = or_default(field_text(f, 2), "不限"@);
    let mode = or_default(field_text(f, 3), "开票提醒"@);
    let interval = if field_text(f, 4).len() == 0 {
        "默认 (90s)"@
    } else {
        field_text(f, 4) + "s"@
    };
    let webhook = or_default(field_text(f, 5), "（未填）"@);
    let email = or_default(field_text(f, 6), "（未填）"@);
    let xhs = or_default(field_text(f, 7), "（未填）"@);
    NoticeV {
        title: "🎬 ticket-tracker · 测试通知"@,
        body: "你好，这是一条来自 ticket-tracker 的测试通知，用于确认通知通道已配置正确。\n\n── 监视任务 ──\n任务 ID    : "@
        + i.wid
        + "\n影片       : "@
        + i.movie_name
        + " (ID "@
        + signed_text(i.movie_id as int)
        + ")\n模式       : "@
        + mode
        + "\n影院       : "@
        + cinemas
        + "\n日期       : "@
        + dates
        + "\n时段窗口   : "@
        + tw
        + "\n独立间隔   : "@
        + interval
        + "\n\n── 通知通道 ──\nWebhook    : "@
        + webhook
        + "\n邮箱       : "@
        + email
        + "\nXHS 群     : "@
        + xhs
        + "\n\n── 触发信息 ──\n触发人     : ticket-tracker（手动测试）\n触发时间   : "@
        + now
        + "\n\n收到此邮件即说明通知通道已配置正确，正式告警将沿用同一模板。\n如非本人操作，请联系管理员。"@,
        webhook: field_text(f, 5),
        email: field_text(f, 6),
        xhs_group: field_text(f, 7),
        xhs_body: "【ticket-tracker 自动化测试通知】本条消息由 ticket-tracker 监控服务自动发出,用于验证小红书群通知通道配置。｜ 任务 ID: "@
            + i.wid + " ｜ 影片: "@ + i.movie_name + " ｜ 影院: "@ + cinemas
            + " ｜ 收到本消息无需任何操作,正式告警将沿用相同通道发送。｜ 如非本人操作或频繁收到此类消息,请联系管理员。"@,
        wechat_on: 8 < f.fields.len() && field_text(f, 8) == "开"@,
        wechat_msg: "🧪 测试通知\n\n🎬 预售开启\n\n🎞 "@ + i.movie_name + "\n🏛 "@ + cinemas
            + "\n📅 测试场次｜N 场｜HH:MM 至 HH:MM\n\n👉 https://www.maoyan.com/cinema/37534"@,
    }
}

/// A test notice: where it goes and what it says.
pub struct TestNotice {
    pub title: String,
    pub body: String,
    /// Empty when not filled in.
    pub webhook: String,
    pub email: String,
    pub xhs_group: String,
    pub xhs_body: String,
    pub wechat_on: bool,
    pub wechat_msg: String,
}

impl View for TestNotice {
    type V = NoticeV;

    open spec fn view(&self) -> NoticeV {
        NoticeV {
            title: self.title@,
            body: self.body@,
            webhook: self.webhook@,
            email: self.email@,
            xhs_group: self.xhs_group@,
            xhs_body: self.xhs_body@,
            wechat_on: self.wechat_on,
            wechat_msg: self.wechat_msg@,
        }
    }
}

fn field_text_exec(f: &FormModal, i: usize) -> (r: String)
    ensures
        r@ == field_text(f@, i as int),
{
    if i < f.fields.len() {
        trim(f.fields[i].value.as_str())
    } else {
        String::new()
    }
}

fn or_default_exec(s: String, d: &str) -> (r: String)
    ensures
        r@ == or_default(s@, d@),
{
    if s.as_str().unicode_len() == 0 {
        owned(d)
    } else {
        s
    }
}

fn cinemas_line_exec(cfg: &Json, watch: Option<&Json>, s: &str) -> (r: String)
    ensures
        r@ == cinemas_line(
            *cfg,
            InfoV { movie_name: Seq::empty(), movie_id: 0, wid: Seq::empty(), watch: match watch {
                Some(w) => Some(*w),
                None => None,
            } },
            s@,
        ),
{
    if s.unicode_len() == 0 {
        return owned("（未配）");
    }
    let ws = split_words(s);
    let ghost wv = match watch {
        Some(w) => Some(*w),
        None => None,
    };
    let mut shown: Vec<String> = Vec::new();
    let mut k: usize = 0;
    while k < ws.len()
        invariant
            k <= ws@.len(),
            views_of(ws@) == words(s@),
            wv == match watch {
                Some(w) => Some(*w),
                None => None::<Json>,
            },
            views_of(shown@) == words(s@).take(k as int).map_values(
                |cid: Seq<char>| cinema_shown(*cfg, wv, cid),
            ),
        decreases ws.len() - k,
    {
        let ghost before = shown@;
        assert(views_of(before).len() == before.len());
        let one = cinema_shown_exec(cfg, watch, ws[k].as_str());
        assert(views_of(ws@)[k as int] == ws@[k as int]@);
        shown.push(one);
        proof {
            let a = views_of(shown@);
            let b = words(s@).take(k + 1).map_values(|cid: Seq<char>| cinema_shown(*cfg, wv, cid));
            assert(a.len() == b.len());
            assert forall|j: int| 0 <= j < a.len() implies a[j] == b[j] by {
                if j < before.len() {
                    assert(a[j] == views_of(before)[j]);
                }
            }
            assert(a =~= b);
        }
        k = k + 1;
    }
    assert(words(s@).take(ws@.len() as int) =~= words(s@));
    crate::text::join_strings(shown.as_slice(), "、")
}

/// The test notice of form `f` over the configuration `cfg`, sent at the
/// local time `now`.
pub fn test_notice(cfg: &Json, f: &FormModal, now: &str) -> (r: TestNotice)
    ensures
        r@ == test_notice_s(*cfg, f@, now@),
{
    let webhook = field_text_exec(f, 5);
    let email = field_text_exec(f, 6);
    let xhs_group = field_text_exec(f, 7);
    let wechat_text = field_text_exec(f, 8);
    let wechat_on = 8 < f.fields.len() && crate::text::str_eq(wechat_text.as_str(), "开");
    let c0 = field_text_exec(f, 0);
    let d0 = field_text_exec(f, 1);
    let t0 = field_text_exec(f, 2);
    let m0 = field_text_exec(f, 3);
    let i0 = field_text_exec(f, 4);
    let ghost iv = notice_info(*cfg, f@.kind);
    let (movie_name, movie_id, wid, watch): (String, i64, String, Option<&Json>) = match &f.kind {
        FormKind::EditWatch { wid } => match crate::config::find_watch(cfg, wid.as_str()) {
            Some(w) => {
                let n = match crate::json::get_str(w, "movie_name") {
                    Some(n) => n,
                    None => owned("(未命名)"),
                };
                let id = match crate::json::get_i64(w, "movie_id") {
                    Some(m) => m,
                    None => 0,
                };
                (n, id, wid.clone(), Some(w))
            },
            None => (wid.clone(), 0, wid.clone(), None),
        },
        _ => (owned("(未知)"), 0, owned("(未知)"), None),
    };
    assert(movie_name@ == iv.movie_name && movie_id == iv.movie_id && wid@ == iv.wid);
    assert(iv.watch == match watch {
        Some(w) => Some(*w),
        None => None::<Json>,
    });
    let cinemas = cinemas_line_exec(cfg, watch, c0.as_str());
    let dates = if d0.as_str().unicode_len() == 0 {
        owned("不限")
    } else {
        let items = split_commas(d0.as_str());
        crate::text::join_strings(items.as_slice(), ", ")
    };
    let tw = or_default_exec(t0, "不限");
    let mode = or_default_exec(m0, "开票提醒");
    let interval = if i0.as_str().unicode_len() == 0 {
        owned("默认 (90s)")
    } else {
        let mut t = i0;
        append_str(&mut t, "s");
        t
    };
    let webhook_p = or_default_exec(webhook.clone(), "（未填）");
    let email_p = or_default_exec(email.clone(), "（未填）");
    let xhs_p = or_default_exec(xhs_group.clone(), "（未填）");
    let mid = crate::text::i64_text(movie_id);
    let info = NoticeInfo { wid, movie_name };
    let mut body = String::new();
    append_str(&mut body, "你好，这是一条来自 ticket-tracker 的测试通知，用于确认通知通道已配置正确。\n\n── 监视任务 ──\n任务 ID    : ");
    append_str(&mut body, info.wid.as_str());
    append_str(&mut body, "\n影片       : ");
    append_str(&mut body, info.movie_name.as_str());
    append_str(&mut body, " (ID ");
    append_str(&mut body, mid.as_str());
    append_str(&mut body, ")\n模式       : ");
    append_str(&mut body, mode.as_str());
    append_str(&mut body, "\n影院       : ");
    append_str(&mut body, cinemas.as_str());
    append_str(&mut body, "\n日期       : ");
    append_str(&mut body, dates.as_str());
    append_str(&mut body, "\n时段窗口   : ");
    append_str(&mut body, tw.as_str());
    append_str(&mut body, "\n独立间隔   : ");
    append_str(&mut body, interval.as_str());
    append_str(&mut body, "\n\n── 通知通道 ──\nWebhook    : ");
    append_str(&mut body, webhook_p.as_str());
    append_str(&mut body, "\n邮箱       : ");
    append_str(&mut body, email_p.as_str());
    append_str(&mut body, "\nXHS 群     : ");
    append_str(&mut body, xhs_p.as_str());
    append_str(&mut body, "\n\n── 触发信息 ──\n触发人     : ticket-tracker（手动测试）\n触发时间   : ");
    append_str(&mut body, now);
    append_str(&mut body, "\n\n收到此邮件即说明通知通道已配置正确，正式告警将沿用同一模板。\n如非本人操作，请联系管理员。");
    let mut xhs_body = owned(
        "【ticket-tracker 自动化测试通知】本条消息由 ticket-tracker 监控服务自动发出,用于验证小红书群通知通道配置。｜ 任务 ID: ",
    );
    append_str(&mut xhs_body, info.wid.as_str());
    append_str(&mut xhs_body, " ｜ 影片: ");
    append_str(&mut xhs_body, info.movie_name.as_str());
    append_str(&mut xhs_body, " ｜ 影院: ");
    append_str(&mut xhs_body, cinemas.as_str());
    append_str(
        &mut xhs_body,
        " ｜ 收到本消息无需任何操作,正式告警将沿用相同通道发送。｜ 如非本人操作或频繁收到此类消息,请联系管理员。",
    );
    let mut wechat_msg = owned("🧪 测试通知\n\n🎬 预售开启\n\n🎞 ");
    append_str(&mut wechat_msg, info.movie_name.as_str());
    append_str(&mut wechat_msg, "\n🏛 ");
    append_str(&mut wechat_msg, cinemas.as_str());
    append_str(
        &mut wechat_msg,
        "\n📅 测试场次｜N 场｜HH:MM 至 HH:MM\n\n👉 https://www.maoyan.com/cinema/37534",
    );
    TestNotice {
        title: owned("🎬 ticket-tracker · 测试通知"),
        body,
        webhook,
        email,
        xhs_group,
        xhs_body,
        wechat_on,
        wechat_msg,
    }
}

struct NoticeInfo {
    wid: String,
    movie_name: String,
}

// ----------------------------------------------------------------------
// The outcome line
// ----------------------------------------------------------------------

/// What a test send gave on each channel: `None` when the channel is not
/// filled in (or, for WeChat, switched off); the webhook's send is `Ok`
/// with whether it was delivered, or the error.
pub open spec fn webhook_line(w: Option<Result<bool, Seq<char>>>) -> Seq<char> {
    match w {
        None => "webhook 未填（仅发邮箱）"@,
        Some(Ok(true)) => "webhook ✓ 已送达"@,
        Some(Ok(false)) => "webhook ✗ 发送失败（HTTP 错误）"@,
        Some(Err(e)) => "webhook ✗ 内部错误: "@ + e,
    }
}

pub open spec fn email_line(ok: Option<bool>) -> Seq<char> {
    match ok {
        None => "邮箱 未填（仅发 webhook）"@,
        Some(true) => "邮箱 ✓ 已交付 msmtp"@,
        Some(false) => "邮箱 ✗ msmtp 未安装或配置有误"@,
    }
}

pub open spec fn xhs_line(ok: Option<bool>) -> Seq<char> {
    match ok {
        None => "XHS 群 未填（不测试）"@,
        Some(true) => "XHS 群 ✓ 已发送"@,
        Some(false) => "XHS 群 ✗ 发送失败（看 stderr）"@,
    }
}

pub open spec fn wechat_line(ok: Option<bool>) -> Seq<char> {
    match ok {
        None => "微信大群 关（不测试）"@,
        Some(true) => "微信大群 ✓ 已发送"@,
        Some(false) => "微信大群 ✗ 发送失败（看 stderr）"@,
    }
}

/// Some channel failed.
pub open spec fn any_failed(
    webhook: Option<Result<bool, Seq<char>>>,
    email: Option<bool>,
    xhs: Option<bool>,
    wechat: Option<bool>,
) -> bool {
    ||| webhook matches Some(w) && w != Ok::<bool, Seq<char>>(true)
    ||| email == Some(false)
    ||| xhs == Some(false)
    ||| wechat == Some(false)
}

/// The status line after a test send: the four channel results, two spaces
/// apart, after `部分通道失败： ` when one failed.
pub open spec fn summary_line(
    webhook: Option<Result<bool, Seq<char>>>,
    email: Option<bool>,
    xhs: Option<bool>,
    wechat: Option<bool>,
) -> Seq<char> {
    (if any_failed(webhook, email, xhs, wechat) {
        "部分通道失败： "@
    } else {
        Seq::empty()
    }) + joined(seq![webhook_line(webhook), email_line(email), xhs_line(xhs), wechat_line(wechat)], "  "@)
}

/// The status line that sums up a test send.
pub fn test_notify_summary(
    webhook: Option<Result<bool, String>>,
    email: Option<bool>,
    xhs: Option<bool>,
    wechat: Option<bool>,
) -> (r: String)
    ensures
        r@ == summary_line(
            match webhook {
                None => None,
                Some(Ok(b)) => Some(Ok(b)),
                Some(Err(e)) => Some(Err(e@)),
            },
            email,
            xhs,
            wechat,
        ),
{
    let ghost wv: Option<Result<bool, Seq<char>>> = match &webhook {
        None => None,
        Some(Ok(b)) => Some(Ok(*b)),
        Some(Err(e)) => Some(Err(e@)),
    };
    let failed_hook = match &webhook {
        Some(Ok(true)) => false,
        Some(_) => true,
        None => false,
    };
    let w = match webhook {
        None => owned("webhook 未填（仅发邮箱）"),
        Some(Ok(true)) => owned("webhook ✓ 已送达"),
        Some(Ok(false)) => owned("webhook ✗ 发送失败（HTTP 错误）"),
        Some(Err(e)) => {
            let mut t = owned("webhook ✗ 内部错误: ");
            append_str(&mut t, e.as_str());
            t
        },
    };
    let e = match email {
        None => owned("邮箱 未填（仅发 webhook）"),
        Some(true) => owned("邮箱 ✓ 已交付 msmtp"),
        Some(false) => owned("邮箱 ✗ msmtp 未安装或配置有误"),
    };
    let x = match xhs {
        None => owned("XHS 群 未填（不测试）"),
        Some(true) => owned("XHS 群 ✓ 已发送"),
        Some(false) => owned("XHS 群 ✗ 发送失败（看 stderr）"),
    };
    let c = match wechat {
        None => owned("微信大群 关（不测试）"),
        Some(true) => owned("微信大群 ✓ 已发送"),
        Some(false) => owned("微信大群 ✗ 发送失败（看 stderr）"),
    };
    let failed = failed_hook || email == Some(false) || xhs == Some(false) || wechat == Some(false);
    let mut parts: Vec<String> = Vec::new();
    parts.push(w);
    parts.push(e);
    parts.push(x);
    parts.push(c);
    let joined_parts = crate::text::join_strings(parts.as_slice(), "  ");
    let mut out = if failed {
        owned("部分通道失败： ")
    } else {
        String::new()
    };
    append_str(&mut out, joined_parts.as_str());
    proof {
        assert(views_of(parts@) =~= seq![webhook_line(wv), email_line(email), xhs_line(xhs), wechat_line(wechat)]);
        assert(failed == any_failed(wv, email, xhs, wechat));
    }
    out
}

} // verus!
