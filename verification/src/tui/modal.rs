//! Forms and pickers shown over the panes: the watch forms, the global
//! settings form, the movie search and the cinema picker.
//!
//! Network lookups run on threads of the program; their replies arrive on
//! channels that the pickers hold.

use vstd::prelude::*;

use crate::config::{
    cinemas_of, flag_of, items_removed, str_or_empty, watch_mode_s, watches_of, find_by_id, find_watch,
    watch_mode,
    MODE_INCREMENTAL, MODE_PRESALE,
};
use crate::json::{
    bool_field, get_bool, get_str, get_str_list, get_u64, str_field, str_list_field, u64_field, Json,
};
use crate::maoyan::{skip_bytes, utf8_len};
use crate::text::{
    append_str, chars_of, dec_text, id_tokens, join_strings, joined, owned, split_ids, str_eq,
    trim, trim_s, u64_text, parse_unsigned_s, parse_u64, views_of,
};

verus! {

/// A receiving end of a channel from a worker thread.
#[verifier::external_type_specification]
#[verifier::external_body]
#[verifier::reject_recursive_types(T)]
pub struct ExReceiver<T>(std::sync::mpsc::Receiver<T>);

// ----------------------------------------------------------------------
// Types
// ----------------------------------------------------------------------

/// What a form field holds and what Enter does on it.
#[derive(Debug, Clone, Copy, PartialEq, Eq, Structural)]
pub enum FieldKind {
    Text,
    Integer,
    OptionalInteger,
    DateList,
    TimeWindow,
    Webhook,
    /// Enter opens the movie search.
    MovieId,
    /// Enter opens the cinema picker.
    CinemaList,
    /// Enter switches between the two watch modes.
    Mode,
    /// Enter switches the WeChat notice on and off.
    WechatNotify,
    /// Enter switches a setting on (`开`) and off (`关`).
    Switch,
    /// Enter sends a test notice on every channel of the form.
    TestNotify,
    Submit,
    Cancel,
}

/// One line of a form.
pub struct FormField {
    pub label: String,
    pub value: String,
    pub kind: FieldKind,
    pub required: bool,
}

/// A form field by its text.
pub struct FieldV {
    pub label: Seq<char>,
    pub value: Seq<char>,
    pub kind: FieldKind,
    pub required: bool,
}

impl View for FormField {
    type V = FieldV;

    open spec fn view(&self) -> FieldV {
        FieldV { label: self.label@, value: self.value@, kind: self.kind, required: self.required }
    }
}

pub open spec fn fields_view(v: Seq<FormField>) -> Seq<FieldV> {
    v.map_values(|f: FormField| f@)
}

/// Which form it is.
pub enum FormKind {
    AddWatch,
    EditWatch { wid: String },
    GlobalSettings,
}

/// Moving between fields, or typing into one (keeping its value from before).
pub enum FormMode {
    Navigation,
    Editing { original: String },
}

/// A form of fields with one focused.
pub struct FormModal {
    pub kind: FormKind,
    pub title: String,
    pub fields: Vec<FormField>,
    pub focus: usize,
    pub mode: FormMode,
    pub error: Option<String>,
}

/// The state of a films-list lookup.
pub enum SearchState {
    Loading(std::sync::mpsc::Receiver<Result<Vec<(String, String)>, String>>),
    Ready(Vec<(String, String)>),
    Error(String),
}

/// The movie search over the films pages, opened from a form.
pub struct MovieSearchModal {
    /// 1: now showing, 2: coming soon.
    pub show_type: u8,
    pub selected: usize,
    pub state: SearchState,
    pub parent: Box<FormModal>,
}

/// A cinema of the picker.
pub struct CinemaChoice {
    pub id: String,
    pub name: String,
    pub builtin: bool,
    pub selected: bool,
}

/// Choosing from the list, or typing an id to look up.
#[derive(Debug, Clone, Copy, PartialEq, Eq, Structural)]
pub enum CinemaMode {
    List,
    AddInput,
}

/// The state of a cinema lookup.
pub enum CinemaState {
    Ready,
    Loading(std::sync::mpsc::Receiver<Result<(String, String), String>>),
    Error(String),
}

/// The cinema picker over the saved cinemas, opened from a form.
pub struct CinemaPickerModal {
    pub selected: usize,
    pub cinemas: Vec<CinemaChoice>,
    pub add_input: String,
    pub mode: CinemaMode,
    pub state: CinemaState,
    pub parent: Box<FormModal>,
}

/// What is shown over the panes.
pub enum Modal {
    Form(FormModal),
    MovieSearch(MovieSearchModal),
    CinemaPicker(CinemaPickerModal),
}

// ----------------------------------------------------------------------
// Mode labels
// ----------------------------------------------------------------------

pub open spec fn mode_label_s(mode: Seq<char>) -> Seq<char> {
    if mode == "incremental"@ {
        "增场监控"@
    } else {
        "开票提醒"@
    }
}

pub open spec fn label_to_mode_s(label: Seq<char>) -> Seq<char> {
    if label == "增场监控"@ {
        "incremental"@
    } else {
        "presale"@
    }
}

/// The form label of a watch mode.
pub fn mode_label(mode: &str) -> (r: &'static str)
    ensures
        r@ == mode_label_s(mode@),
{
    if str_eq(mode, MODE_INCREMENTAL) {
        "增场监控"
    } else {
        "开票提醒"
    }
}

/// The watch mode of a form label.
pub fn label_to_mode(label: &str) -> (r: &'static str)
    ensures
        r@ == label_to_mode_s(label@),
{
    if str_eq(label, "增场监控") {
        MODE_INCREMENTAL
    } else {
        MODE_PRESALE
    }
}

proof fn reveal_mode_words()
    ensures
        "incremental"@ != "presale"@,
        "增场监控"@ != "开票提醒"@,
{
    reveal_strlit("incremental");
    reveal_strlit("presale");
    reveal_strlit("增场监控");
    reveal_strlit("开票提醒");
    assert("incremental"@.len() != "presale"@.len());
    assert("增场监控"@[0] != "开票提醒"@[0]);
}

/// A mode survives the trip through its label, and a label through its
/// mode; anything that is not the incremental mode reads as presale.
pub proof fn law_mode_label_roundtrip(mode: Seq<char>, label: Seq<char>)
    ensures
        label_to_mode_s(mode_label_s(mode)) == (if mode == "incremental"@ {
            "incremental"@
        } else {
            "presale"@
        }),
        mode_label_s(label_to_mode_s(label)) == (if label == "增场监控"@ {
            "增场监控"@
        } else {
            "开票提醒"@
        }),
{
    reveal_mode_words();
}

// ----------------------------------------------------------------------
// Building forms
// ----------------------------------------------------------------------

pub open spec fn field_v(label: Seq<char>, kind: FieldKind, required: bool, value: Seq<char>) -> FieldV {
    FieldV { label, value, kind, required }
}

impl FormField {
    /// A field with a value.
    pub fn with_value(label: &str, kind: FieldKind, required: bool, value: String) -> (r: Self)
        ensures
            r@ == field_v(label@, kind, required, value@),
    {
        FormField { label: owned(label), value, kind, required }
    }

    /// A button: no value, not required.
    pub fn button(label: &str, kind: FieldKind) -> (r: Self)
        ensures
            r@ == field_v(label@, kind, false, Seq::empty()),
    {
        FormField { label: owned(label), value: String::new(), kind, required: false }
    }
}

/// The fields of the add-watch form.
pub open spec fn add_watch_fields() -> Seq<FieldV> {
    seq![
        field_v("电影 ID"@, FieldKind::MovieId, true, Seq::empty()),
        field_v("影院"@, FieldKind::CinemaList, true, Seq::empty()),
        field_v("日期"@, FieldKind::DateList, false, Seq::empty()),
        field_v("时段"@, FieldKind::TimeWindow, false, Seq::empty()),
        field_v("模式"@, FieldKind::Mode, false, "开票提醒"@),
        field_v("电影名"@, FieldKind::Text, false, Seq::empty()),
        field_v("独立间隔"@, FieldKind::OptionalInteger, false, Seq::empty()),
        field_v("通知 webhook"@, FieldKind::Webhook, false, Seq::empty()),
        field_v("通知邮箱"@, FieldKind::Text, false, Seq::empty()),
        field_v("通知 xhs 群名"@, FieldKind::Text, false, Seq::empty()),
        field_v("通知微信大群"@, FieldKind::WechatNotify, false, "关"@),
        field_v("只看IMAX"@, FieldKind::Switch, false, "关"@),
        field_v("自动锁票"@, FieldKind::Switch, false, "关"@),
        field_v("确定"@, FieldKind::Submit, false, Seq::empty()),
        field_v("取消"@, FieldKind::Cancel, false, Seq::empty()),
    ]
}

/// The text of an optional unsigned setting: its decimal text, or nothing.
pub open spec fn count_text(n: Option<u64>) -> Seq<char> {
    match n {
        Some(v) => dec_text(v as nat),
        None => Seq::empty(),
    }
}

/// `开` for a switch that is on, `关` for one that is off.
pub open spec fn switch_text(on: bool) -> Seq<char> {
    if on {
        "开"@
    } else {
        "关"@
    }
}

fn switch_value(on: bool) -> (r: String)
    ensures
        r@ == switch_text(on),
{
    if on {
        owned("开")
    } else {
        owned("关")
    }
}

/// The fields of the edit form of watch `w`, filled from it.
pub open spec fn edit_watch_fields(w: Json) -> Seq<FieldV> {
    seq![
        field_v("影院"@, FieldKind::CinemaList, true, joined(str_list_field(w, "cinemas"@), " "@)),
        field_v("日期"@, FieldKind::DateList, false, joined(str_list_field(w, "dates"@), " "@)),
        field_v("时段"@, FieldKind::TimeWindow, false, str_or_empty(w, "time_window"@)),
        field_v("模式"@, FieldKind::Mode, false, mode_label_s(watch_mode_s(w))),
        field_v(
            "独立间隔"@,
            FieldKind::OptionalInteger,
            false,
            count_text(u64_field(w, "interval"@)),
        ),
        field_v("通知 webhook"@, FieldKind::Webhook, false, str_or_empty(w, "notify_webhook"@)),
        field_v("通知邮箱"@, FieldKind::Text, false, str_or_empty(w, "notify_email_to"@)),
        field_v("通知 xhs 群名"@, FieldKind::Text, false, str_or_empty(w, "xhs_group"@)),
        field_v(
            "通知微信大群"@,
            FieldKind::WechatNotify,
            false,
            if flag_of(w, "wechat_notify"@) {
                "开"@
            } else {
                "关"@
            },
        ),
        field_v("只看IMAX"@, FieldKind::Switch, false, switch_text(flag_of(w, "imax_only"@))),
        field_v("自动锁票"@, FieldKind::Switch, false, switch_text(flag_of(w, "auto_lock"@))),
        field_v("测试通知"@, FieldKind::TestNotify, false, Seq::empty()),
        field_v("确定"@, FieldKind::Submit, false, Seq::empty()),
        field_v("取消"@, FieldKind::Cancel, false, Seq::empty()),
    ]
}

/// The fields of the global settings form, filled from `cfg`.
pub open spec fn global_fields(cfg: Json) -> Seq<FieldV> {
    seq![
        field_v("Discord webhook"@, FieldKind::Webhook, false, str_or_empty(cfg, "discord_webhook"@)),
        field_v(
            "检查间隔(秒)"@,
            FieldKind::Integer,
            true,
            count_text(u64_field(cfg, "check_interval"@)),
        ),
        field_v("静默时段"@, FieldKind::TimeWindow, false, str_or_empty(cfg, "quiet_window"@)),
        field_v(
            "只推手机时段"@,
            FieldKind::TimeWindow,
            false,
            str_or_empty(cfg, "phone_only_window"@),
        ),
        field_v(
            "报告间隔(秒)"@,
            FieldKind::Integer,
            true,
            count_text(u64_field(cfg, "heartbeat_interval_sec"@)),
        ),
        field_v(
            "无头"@,
            FieldKind::Switch,
            false,
            switch_text(crate::config::global_lock_headless_s(cfg)),
        ),
        field_v("确定"@, FieldKind::Submit, false, Seq::empty()),
        field_v("取消"@, FieldKind::Cancel, false, Seq::empty()),
    ]
}

fn str_member(j: &Json, k: &str) -> (r: String)
    ensures
        r@ == str_or_empty(*j, k@),
{
    match get_str(j, k) {
        Some(s) => s,
        None => String::new(),
    }
}

fn count_member(j: &Json, k: &str) -> (r: String)
    ensures
        r@ == count_text(u64_field(*j, k@)),
{
    match get_u64(j, k) {
        Some(n) => u64_text(n),
        None => String::new(),
    }
}

fn joined_member(j: &Json, k: &str) -> (r: String)
    ensures
        r@ == joined(str_list_field(*j, k@), " "@),
{
    let l = get_str_list(j, k);
    assert(views_of(l@) =~= str_list_field(*j, k@));
    join_strings(l.as_slice(), " ")
}

impl FormModal {
    /// The empty form for a new watch.
    pub fn add_watch() -> (r: Self)
        ensures
            r.kind is AddWatch,
            r.title@ == " 添加 watch "@,
            fields_view(r.fields@) == add_watch_fields(),
            r.focus == 0,
            r.mode is Navigation,
            r.error is None,
    {
        let mut fields: Vec<FormField> = Vec::new();
        fields.push(FormField::with_value("电影 ID", FieldKind::MovieId, true, String::new()));
        fields.push(FormField::with_value("影院", FieldKind::CinemaList, true, String::new()));
        fields.push(FormField::with_value("日期", FieldKind::DateList, false, String::new()));
        fields.push(FormField::with_value("时段", FieldKind::TimeWindow, false, String::new()));
        fields.push(FormField::with_value("模式", FieldKind::Mode, false, owned("开票提醒")));
        fields.push(FormField::with_value("电影名", FieldKind::Text, false, String::new()));
        fields.push(
            FormField::with_value("独立间隔", FieldKind::OptionalInteger, false, String::new()),
        );
        fields.push(FormField::with_value("通知 webhook", FieldKind::Webhook, false, String::new()));
        fields.push(FormField::with_value("通知邮箱", FieldKind::Text, false, String::new()));
        fields.push(FormField::with_value("通知 xhs 群名", FieldKind::Text, false, String::new()));
        fields.push(
            FormField::with_value("通知微信大群", FieldKind::WechatNotify, false, owned("关")),
        );
        fields.push(FormField::with_value("只看IMAX", FieldKind::Switch, false, owned("关")));
        fields.push(FormField::with_value("自动锁票", FieldKind::Switch, false, owned("关")));
        fields.push(FormField::button("确定", FieldKind::Submit));
        fields.push(FormField::button("取消", FieldKind::Cancel));
        assert(fields_view(fields@) =~= add_watch_fields());
        FormModal {
            kind: FormKind::AddWatch,
            title: owned(" 添加 watch "),
            fields,
            focus: 0,
            mode: FormMode::Navigation,
            error: None,
        }
    }

    /// The edit form of the watch `wid` in `cfg`, focused on field
    /// `focus_field` (the last field when beyond); `None` when there is no
    /// such watch.
    pub fn edit_watch(cfg: &Json, wid: &str, focus_field: usize) -> (r: Option<Self>)
        ensures
            match find_by_id(watches_of(*cfg), wid@) {
                None => r is None,
                Some(w) => r matches Some(f) && f.kind matches FormKind::EditWatch { wid: id }
                    && id@ == wid@ && f.title@ == " 编辑 "@ + wid@ + " "@ && fields_view(f.fields@)
                    == edit_watch_fields(w) && f.focus == (if focus_field < 13 {
                    focus_field
                } else {
                    13
                }) && f.mode is Navigation && f.error is None,
            },
    {
        let w = match find_watch(cfg, wid) {
            Some(w) => w,
            None => return None,
        };
        let wechat = match get_bool(w, "wechat_notify") {
            Some(b) => b,
            None => false,
        };
        let mut fields: Vec<FormField> = Vec::new();
        fields.push(
            FormField::with_value("影院", FieldKind::CinemaList, true, joined_member(w, "cinemas")),
        );
        fields.push(
            FormField::with_value("日期", FieldKind::DateList, false, joined_member(w, "dates")),
        );
        fields.push(
            FormField::with_value(
                "时段",
                FieldKind::TimeWindow,
                false,
                str_member(w, "time_window"),
            ),
        );
        fields.push(
            FormField::with_value("模式", FieldKind::Mode, false, owned(mode_label(watch_mode(w)))),
        );
        fields.push(
            FormField::with_value(
                "独立间隔",
                FieldKind::OptionalInteger,
                false,
                count_member(w, "interval"),
            ),
        );
        fields.push(
            FormField::with_value(
                "通知 webhook",
                FieldKind::Webhook,
                false,
                str_member(w, "notify_webhook"),
            ),
        );
        fields.push(
            FormField::with_value(
                "通知邮箱",
                FieldKind::Text,
                false,
                str_member(w, "notify_email_to"),
            ),
        );
        fields.push(
            FormField::with_value("通知 xhs 群名", FieldKind::Text, false, str_member(w, "xhs_group")),
        );
        fields.push(
            FormField::with_value(
                "通知微信大群",
                FieldKind::WechatNotify,
                false,
                if wechat {
                    owned("开")
                } else {
                    owned("关")
                },
            ),
        );
        fields.push(
            FormField::with_value(
                "只看IMAX",
                FieldKind::Switch,
                false,
                switch_value(crate::config::watch_imax_only(w)),
            ),
        );
        fields.push(
            FormField::with_value(
                "自动锁票",
                FieldKind::Switch,
                false,
                switch_value(crate::config::watch_auto_lock(w)),
            ),
        );
        fields.push(FormField::button("测试通知", FieldKind::TestNotify));
        fields.push(FormField::button("确定", FieldKind::Submit));
        fields.push(FormField::button("取消", FieldKind::Cancel));
        assert(fields_view(fields@) =~= edit_watch_fields(*w));
        let focus = if focus_field < 13 {
            focus_field
        } else {
            13
        };
        let mut title = owned(" 编辑 ");
        append_str(&mut title, wid);
        append_str(&mut title, " ");
        Some(
            FormModal {
                kind: FormKind::EditWatch { wid: owned(wid) },
                title,
                fields,
                focus,
                mode: FormMode::Navigation,
                error: None,
            },
        )
    }

    /// The global settings form filled from `cfg`, focused on field
    /// `focus_field` (the last field when beyond).
    pub fn global_settings(cfg: &Json, focus_field: usize) -> (r: Self)
        ensures
            r.kind is GlobalSettings,
            r.title@ == " 全局设置 "@,
            fields_view(r.fields@) == global_fields(*cfg),
            r.focus == (if focus_field < 7 {
                focus_field
            } else {
                7
            }),
            r.mode is Navigation,
            r.error is None,
    {
        let mut fields: Vec<FormField> = Vec::new();
        fields.push(
            FormField::with_value(
                "Discord webhook",
                FieldKind::Webhook,
                false,
                str_member(cfg, "discord_webhook"),
            ),
        );
        fields.push(
            FormField::with_value(
                "检查间隔(秒)",
                FieldKind::Integer,
                true,
                count_member(cfg, "check_interval"),
            ),
        );
        fields.push(
            FormField::with_value(
                "静默时段",
                FieldKind::TimeWindow,
                false,
                str_member(cfg, "quiet_window"),
            ),
        );
        fields.push(
            FormField::with_value(
                "只推手机时段",
                FieldKind::TimeWindow,
                false,
                str_member(cfg, "phone_only_window"),
            ),
        );
        fields.push(
            FormField::with_value(
                "报告间隔(秒)",
                FieldKind::Integer,
                true,
                count_member(cfg, "heartbeat_interval_sec"),
            ),
        );
        fields.push(
            FormField::with_value(
                "无头",
                FieldKind::Switch,
                false,
                switch_value(crate::config::global_lock_headless(cfg)),
            ),
        );
        fields.push(FormField::button("确定", FieldKind::Submit));
        fields.push(FormField::button("取消", FieldKind::Cancel));
        assert(fields_view(fields@) =~= global_fields(*cfg));
        let focus = if focus_field < 7 {
            focus_field
        } else {
            7
        };
        FormModal {
            kind: FormKind::GlobalSettings,
            title: owned(" 全局设置 "),
            fields,
            focus,
            mode: FormMode::Navigation,
            error: None,
        }
    }
}

// ----------------------------------------------------------------------
// Hints
// ----------------------------------------------------------------------

/// The keys that work on a field in navigation.
pub open spec fn nav_keys_hint(kind: Option<FieldKind>) -> Seq<char> {
    match kind {
        Some(FieldKind::MovieId) => "↑↓ 选择  Enter 搜索电影  i 手动输入  Esc 关闭"@,
        Some(FieldKind::CinemaList) => "↑↓ 选择  Enter 影院收藏夹  Esc 关闭"@,
        Some(FieldKind::TestNotify) => "↑↓ 选择  Enter 给 webhook/邮箱/小红书/微信各发一条测试  Esc 关闭"@,
        Some(FieldKind::Submit) => "↑↓ 选择  Enter 触发  Esc 关闭"@,
        Some(FieldKind::Cancel) => "↑↓ 选择  Enter 触发  Esc 关闭"@,
        _ => "↑↓ 选择  Enter 编辑  Esc 关闭"@,
    }
}

/// The input example of a field.
pub open spec fn field_example_s(f: FieldV) -> Option<Seq<char>> {
    match f.kind {
        FieldKind::MovieId => Some("例如 1545360"@),
        FieldKind::CinemaList => Some("例如 37534 12345（多个用空格或逗号分隔）"@),
        FieldKind::DateList => Some("例如 2026-08-13 2026-08-14（留空=不限）"@),
        FieldKind::TimeWindow => Some("例如 19:00-22:00（留空=不限）"@),
        FieldKind::Mode => Some("Enter / ←→ 在「开票提醒」「增场监控」间切换"@),
        FieldKind::WechatNotify => Some("Enter 在「开」「关」间切换（开启则发到当前微信会话）"@),
        FieldKind::Switch => Some("Enter 在「开」「关」间切换"@),
        FieldKind::OptionalInteger => Some("例如 60（秒，留空=用全局默认）"@),
        FieldKind::Integer => Some("数字"@),
        FieldKind::Webhook => Some("例如 https://discord.com/api/webhooks/..."@),
        FieldKind::TestNotify => None,
        FieldKind::Submit => None,
        FieldKind::Cancel => None,
        FieldKind::Text => if f.label == "电影名"@ {
            Some("选填，留空自动从猫眼拉"@)
        } else if f.label == "通知邮箱"@ {
            Some("例如 your@email.com（需本机 msmtp，留空=关）"@)
        } else if f.label == "通知 xhs 群名"@ {
            Some("例如 test（留空=关闭该通道）"@)
        } else {
            None
        },
    }
}

pub open spec fn opt_static_view(v: Option<&'static str>) -> Option<Seq<char>> {
    match v {
        Some(s) => Some(s@),
        None => None,
    }
}

/// The input example shown below the hint for a field.
pub fn field_example(field: &FormField) -> (r: Option<&'static str>)
    ensures
        opt_static_view(r) == field_example_s(field@),
{
    match field.kind {
        FieldKind::MovieId => Some("例如 1545360"),
        FieldKind::CinemaList => Some("例如 37534 12345（多个用空格或逗号分隔）"),
        FieldKind::DateList => Some("例如 2026-08-13 2026-08-14（留空=不限）"),
        FieldKind::TimeWindow => Some("例如 19:00-22:00（留空=不限）"),
        FieldKind::Mode => Some("Enter / ←→ 在「开票提醒」「增场监控」间切换"),
        FieldKind::WechatNotify => Some("Enter 在「开」「关」间切换（开启则发到当前微信会话）"),
        FieldKind::Switch => Some("Enter 在「开」「关」间切换"),
        FieldKind::OptionalInteger => Some("例如 60（秒，留空=用全局默认）"),
        FieldKind::Integer => Some("数字"),
        FieldKind::Webhook => Some("例如 https://discord.com/api/webhooks/..."),
        FieldKind::TestNotify | FieldKind::Submit | FieldKind::Cancel => None,
        FieldKind::Text => {
            if str_eq(field.label.as_str(), "电影名") {
                Some("选填，留空自动从猫眼拉")
            } else if str_eq(field.label.as_str(), "通知邮箱") {
                Some("例如 your@email.com（需本机 msmtp，留空=关）")
            } else if str_eq(field.label.as_str(), "通知 xhs 群名") {
                Some("例如 test（留空=关闭该通道）")
            } else {
                None
            }
        },
    }
}

impl FormModal {
    /// The key help of the focused field, and its input example.
    pub fn hint(&self) -> (r: (&'static str, Option<&'static str>))
        ensures
            r.0@ == match self.mode {
                FormMode::Editing { .. } => "输入中：Enter 确认  Esc 取消本项"@,
                FormMode::Navigation => nav_keys_hint(
                    if self.focus < self.fields@.len() {
                        Some(self.fields@[self.focus as int].kind)
                    } else {
                        None
                    },
                ),
            },
            opt_static_view(r.1) == if self.focus < self.fields@.len() {
                field_example_s(self.fields@[self.focus as int]@)
            } else {
                None
            },
    {
        let kind = if self.focus < self.fields.len() {
            Some(self.fields[self.focus].kind)
        } else {
            None
        };
        let keys = match self.mode {
            FormMode::Editing { .. } => "输入中：Enter 确认  Esc 取消本项",
            FormMode::Navigation => match kind {
                Some(FieldKind::MovieId) => "↑↓ 选择  Enter 搜索电影  i 手动输入  Esc 关闭",
                Some(FieldKind::CinemaList) => "↑↓ 选择  Enter 影院收藏夹  Esc 关闭",
                Some(FieldKind::TestNotify) => "↑↓ 选择  Enter 给 webhook/邮箱/小红书/微信各发一条测试  Esc 关闭",
                Some(FieldKind::Submit) | Some(FieldKind::Cancel) => "↑↓ 选择  Enter 触发  Esc 关闭",
                _ => "↑↓ 选择  Enter 编辑  Esc 关闭",
            },
        };
        let example = if self.focus < self.fields.len() {
            field_example(&self.fields[self.focus])
        } else {
            None
        };
        (keys, example)
    }
}

// ----------------------------------------------------------------------
// Reading fields
// ----------------------------------------------------------------------

/// Bytes of `s` in UTF-8.
pub open spec fn utf8_bytes(s: Seq<char>) -> nat
    decreases s.len(),
{
    if s.len() == 0 {
        0
    } else {
        utf8_bytes(s.drop_last()) + utf8_len(s.last())
    }
}

/// The shape `parse_dates` asks of a date: ten bytes with `-` at byte 4.
/// (In UTF-8 the byte of `-` only ever stands for `-` itself, so "byte 4
/// is `-`" is "a `-` starts at byte 4".)
pub open spec fn date_shaped(d: Seq<char>) -> bool {
    utf8_bytes(d) == 10 && (skip_bytes(d, 4) matches Some(rest) && rest.len() > 0 && rest[0]
        == '-')
}

/// The first date of `l` that is not shaped as one.
pub open spec fn first_bad_date(l: Seq<Seq<char>>) -> Option<Seq<char>>
    decreases l.len(),
{
    if l.len() == 0 {
        None
    } else if !date_shaped(l[0]) {
        Some(l[0])
    } else {
        first_bad_date(l.drop_first())
    }
}

/// The dates typed into a date field: `None` when there are none, an error
/// naming the first one that is not `YYYY-MM-DD`-shaped.
pub open spec fn parse_dates_s(s: Seq<char>) -> Result<Option<Seq<Seq<char>>>, Seq<char>> {
    let l = id_tokens(s);
    if l.len() == 0 {
        Ok(None)
    } else {
        match first_bad_date(l) {
            Some(d) => Err("日期格式应为 YYYY-MM-DD: "@ + d),
            None => Ok(Some(l)),
        }
    }
}

proof fn lemma_utf8_bytes_prefix(s: Seq<char>, i: int, j: int)
    requires
        0 <= i <= j <= s.len(),
    ensures
        utf8_bytes(s.take(i)) <= utf8_bytes(s.take(j)),
    decreases j - i,
{
    if i < j {
        lemma_utf8_bytes_prefix(s, i, j - 1);
        assert(s.take(j).drop_last() =~= s.take(j - 1));
    }
}

/// `utf8_bytes(s)`, or a number above `cap` when it is above `cap`.
fn utf8_bytes_capped(s: &str, cap: u64) -> (r: u64)
    requires
        cap < 1000,
    ensures
        utf8_bytes(s@) <= cap ==> r == utf8_bytes(s@),
        utf8_bytes(s@) > cap ==> r > cap,
{
    let v = chars_of(s);
    let mut n: u64 = 0;
    let mut i: usize = 0;
    assert(v@.take(0) =~= Seq::<char>::empty());
    while i < v.len()
        invariant
            i <= v@.len(),
            v@ == s@,
            cap < 1000,
            n == utf8_bytes(v@.take(i as int)),
            n <= cap,
        decreases v.len() - i,
    {
        assert(v@.take(i + 1).drop_last() =~= v@.take(i as int));
        let b: u64 = if (v[i] as u32) < 0x80 {
            1
        } else if (v[i] as u32) < 0x800 {
            2
        } else if (v[i] as u32) < 0x10000 {
            3
        } else {
            4
        };
        n = n + b;
        i = i + 1;
        if n > cap {
            proof {
                lemma_utf8_bytes_prefix(v@, i as int, v@.len() as int);
                assert(v@.take(v@.len() as int) =~= v@);
            }
            return n;
        }
    }
    assert(v@.take(v@.len() as int) =~= v@);
    n
}

fn date_shaped_exec(d: &str) -> (r: bool)
    ensures
        r == date_shaped(d@),
{
    if utf8_bytes_capped(d, 10) != 10 {
        return false;
    }
    match crate::maoyan::skip_bytes_exec(d, 4) {
        Some(rest) => {
            let v = chars_of(rest.as_str());
            v.len() > 0 && v[0] == '-'
        },
        None => false,
    }
}

/// The dates of a date field (see [`parse_dates_s`]).
pub fn parse_dates(s: &str) -> (r: Result<Option<Vec<String>>, String>)
    ensures
        match parse_dates_s(s@) {
            Ok(None) => r matches Ok(None),
            Ok(Some(l)) => r matches Ok(Some(v)) && views_of(v@) == l,
            Err(m) => r matches Err(e) && e@ == m,
        },
{
    let list = split_ids(s);
    if list.len() == 0 {
        return Ok(None);
    }
    let ghost l = views_of(list@);
    let mut i: usize = 0;
    assert(l.skip(0) =~= l);
    while i < list.len()
        invariant
            i <= list@.len(),
            l == views_of(list@),
            l == id_tokens(s@),
            first_bad_date(l) == first_bad_date(l.skip(i as int)),
        decreases list.len() - i,
    {
        assert(l.skip(i as int)[0] == list@[i as int]@);
        if !date_shaped_exec(list[i].as_str()) {
            let mut m = owned("日期格式应为 YYYY-MM-DD: ");
            append_str(&mut m, list[i].as_str());
            proof {
                assert(first_bad_date(l.skip(i as int)) == Some(list@[i as int]@));
                assert(l.len() > 0);
                assert(l == id_tokens(s@));
            }
            return Err(m);
        }
        assert(l.skip(i as int).drop_first() =~= l.skip(i + 1));
        i = i + 1;
    }
    assert(l.skip(i as int) =~= Seq::<Seq<char>>::empty());
    Ok(Some(list))
}

/// An optional count typed into a field: nothing for a blank field, the
/// number, or an error naming the field.
pub open spec fn parse_opt_u64_s(s: Seq<char>, label: Seq<char>) -> Result<Option<u64>, Seq<char>> {
    let t = trim_s(s);
    if t.len() == 0 {
        Ok(None)
    } else {
        match parse_unsigned_s(t, u64::MAX as nat) {
            Some(n) => Ok(Some(n as u64)),
            None => Err(label + " 必须是数字或留空"@),
        }
    }
}

/// The optional count of a field (see [`parse_opt_u64_s`]).
pub fn parse_opt_u64(s: &str, label: &str) -> (r: Result<Option<u64>, String>)
    ensures
        match parse_opt_u64_s(s@, label@) {
            Ok(v) => r == Ok::<Option<u64>, String>(v),
            Err(m) => r matches Err(e) && e@ == m,
        },
{
    let t = trim(s);
    if t.unicode_len() == 0 {
        return Ok(None);
    }
    match parse_u64(t.as_str()) {
        Some(n) => Ok(Some(n)),
        None => {
            let mut m = owned(label);
            append_str(&mut m, " 必须是数字或留空");
            Err(m)
        },
    }
}

// ----------------------------------------------------------------------
// Submitting forms
// ----------------------------------------------------------------------

/// The values of a form's fields, in order.
pub open spec fn form_values(f: FormModal) -> Seq<Seq<char>> {
    f.fields@.map_values(|x: FormField| x.value@)
}

/// `v` trimmed, when that leaves something.
pub open spec fn opt_trimmed(v: Seq<char>) -> Option<Seq<char>> {
    if trim_s(v).len() == 0 {
        None
    } else {
        Some(trim_s(v))
    }
}

/// The add-watch form, read.
pub struct AddFormV {
    pub movie_id: i64,
    pub cinemas: Seq<Seq<char>>,
    pub dates: Option<Seq<Seq<char>>>,
    pub time_window: Option<Seq<char>>,
    pub mode: Seq<char>,
    pub name: Option<Seq<char>>,
    pub interval: Option<u64>,
    pub notify_webhook: Option<Seq<char>>,
    pub notify_email_to: Option<Seq<char>>,
    pub xhs_group: Option<Seq<char>>,
    pub wechat_notify: bool,
    pub imax_only: bool,
    pub auto_lock: bool,
}

/// Reading the add-watch form: the movie id must be a number, at least one
/// cinema is needed, the dates and the interval must read; blank optional
/// fields are absent.
pub open spec fn add_form_s(v: Seq<Seq<char>>) -> Result<AddFormV, Seq<char>> {
    match crate::text::parse_i64_s(trim_s(v[0])) {
        None => Err("电影 ID 必须是数字"@),
        Some(mid) => if id_tokens(v[1]).len() == 0 {
            Err("至少填一个影院 ID"@)
        } else {
            match parse_dates_s(v[2]) {
                Err(m) => Err(m),
                Ok(dates) => match parse_opt_u64_s(v[6], "间隔"@) {
                    Err(m) => Err(m),
                    Ok(interval) => Ok(
                        AddFormV {
                            movie_id: mid as i64,
                            cinemas: id_tokens(v[1]),
                            dates,
                            time_window: opt_trimmed(v[3]),
                            mode: label_to_mode_s(trim_s(v[4])),
                            name: opt_trimmed(v[5]),
                            interval,
                            notify_webhook: opt_trimmed(v[7]),
                            notify_email_to: opt_trimmed(v[8]),
                            xhs_group: opt_trimmed(v[9]),
                            wechat_notify: trim_s(v[10]) == "开"@,
                            imax_only: trim_s(v[11]) == "开"@,
                            auto_lock: trim_s(v[12]) == "开"@,
                        },
                    ),
                },
            }
        },
    }
}

fn opt_trimmed_exec(v: &str) -> (r: Option<String>)
    ensures
        crate::config::opt_string_view(r) == opt_trimmed(v@),
{
    let t = trim(v);
    if t.unicode_len() == 0 {
        None
    } else {
        Some(t)
    }
}

fn str_refs(v: &Vec<String>) -> (r: Vec<&str>)
    ensures
        crate::config::strs_view(r@) == views_of(v@),
{
    let mut refs: Vec<&str> = Vec::new();
    let mut i: usize = 0;
    while i < v.len()
        invariant
            i <= v@.len(),
            refs@.len() == i,
            forall|m: int| 0 <= m < i ==> (#[trigger] refs@[m])@ == v@[m]@,
        decreases v.len() - i,
    {
        refs.push(v[i].as_str());
        i = i + 1;
    }
    assert(crate::config::strs_view(refs@) =~= views_of(v@));
    refs
}

fn opt_ref(v: &Option<String>) -> (r: Option<&str>)
    ensures
        crate::config::opt_view(r) == crate::config::opt_string_view(*v),
{
    match v {
        Some(s) => Some(s.as_str()),
        None => None,
    }
}

/// The effect of submitting the add-watch form on `old`.
pub open spec fn add_submitted(old: Json, new: Json, v: Seq<Seq<char>>, r: Result<String, String>) -> bool {
    match add_form_s(v) {
        Err(m) => r matches Err(e) && e@ == m && new == old,
        Ok(x) => exists|id: Seq<char>, ts: Seq<char>, r0: Result<String, crate::config::ConfigError>|
            #[trigger] crate::config::watch_added(
                old,
                new,
                r0,
                id,
                ts,
                x.movie_id,
                x.cinemas,
                x.dates,
                x.name,
                x.interval,
                x.mode,
                x.time_window,
                x.notify_webhook,
                x.notify_email_to,
                x.xhs_group,
                x.wechat_notify,
                x.auto_lock,
                x.imax_only,
                crate::config::DEFAULT_LOCK_NUM_SEATS,
                crate::config::DEFAULT_LOCK_MAX_RETRIES,
                Seq::empty(),
            ) && match r0 {
                Ok(s) => r matches Ok(m) && m@ == "已添加 watch "@ + s@,
                Err(e) => r matches Err(m) && m@ == crate::config::config_error_text(e),
            },
    }
}

/// Submits the add-watch form: reads it and adds the watch with its IMAX
/// and automatic-locking switches (default lock settings). Returns the status line or the error
/// shown in the form. The caller saves.
pub fn submit_add_watch(cfg: &mut Json, f: &FormModal) -> (r: Result<String, String>)
    requires
        f.fields@.len() >= 13,
    ensures
        add_submitted(*old(cfg), *final(cfg), form_values(*f), r),
{
    let ghost v = form_values(*f);
    proof {
        assert forall|i: int| 0 <= i < f.fields@.len() implies v[i] == f.fields@[i].value@ by {}
    }
    let mid_text = trim(f.fields[0].value.as_str());
    let movie_id = match crate::text::parse_i64(mid_text.as_str()) {
        Some(n) => n,
        None => return Err(owned("电影 ID 必须是数字")),
    };
    let cinemas = split_ids(f.fields[1].value.as_str());
    if cinemas.len() == 0 {
        return Err(owned("至少填一个影院 ID"));
    }
    let dates = match parse_dates(f.fields[2].value.as_str()) {
        Ok(d) => d,
        Err(e) => return Err(e),
    };
    let interval = match parse_opt_u64(f.fields[6].value.as_str(), "间隔") {
        Ok(n) => n,
        Err(e) => return Err(e),
    };
    let time_window = opt_trimmed_exec(f.fields[3].value.as_str());
    let mode_text = trim(f.fields[4].value.as_str());
    let mode = label_to_mode(mode_text.as_str());
    let name = opt_trimmed_exec(f.fields[5].value.as_str());
    let webhook = opt_trimmed_exec(f.fields[7].value.as_str());
    let email = opt_trimmed_exec(f.fields[8].value.as_str());
    let xhs = opt_trimmed_exec(f.fields[9].value.as_str());
    let wechat_text = trim(f.fields[10].value.as_str());
    let wechat = str_eq(wechat_text.as_str(), "开");
    let imax_text = trim(f.fields[11].value.as_str());
    let imax = str_eq(imax_text.as_str(), "开");
    let lock_text = trim(f.fields[12].value.as_str());
    let auto_lock = str_eq(lock_text.as_str(), "开");
    let refs = str_refs(&cinemas);
    let no_seats: Vec<String> = Vec::new();
    let ghost c0 = *cfg;
    let res = match &dates {
        Some(d) => crate::config::add_watch(
            cfg,
            movie_id,
            refs.as_slice(),
            Some(d.as_slice()),
            opt_ref(&name),
            interval,
            mode,
            opt_ref(&time_window),
            opt_ref(&webhook),
            opt_ref(&email),
            opt_ref(&xhs),
            wechat,
            auto_lock,
            imax,
            crate::config::DEFAULT_LOCK_NUM_SEATS,
            crate::config::DEFAULT_LOCK_MAX_RETRIES,
            no_seats.as_slice(),
        ),
        None => crate::config::add_watch(
            cfg,
            movie_id,
            refs.as_slice(),
            None,
            opt_ref(&name),
            interval,
            mode,
            opt_ref(&time_window),
            opt_ref(&webhook),
            opt_ref(&email),
            opt_ref(&xhs),
            wechat,
            auto_lock,
            imax,
            crate::config::DEFAULT_LOCK_NUM_SEATS,
            crate::config::DEFAULT_LOCK_MAX_RETRIES,
            no_seats.as_slice(),
        ),
    };
    let ghost x = add_form_s(v)->Ok_0;
    proof {
        assert(views_of(no_seats@) =~= Seq::<Seq<char>>::empty());
        let dv = match &dates {
            Some(d) => Some(views_of(d@)),
            None => None::<Seq<Seq<char>>>,
        };
        assert(dv == x.dates);
        let (id, ts) = choose|id: Seq<char>, ts: Seq<char>|
            crate::config::is_watch_id(id) && #[trigger] crate::config::watch_added(
                c0,
                *cfg,
                res,
                id,
                ts,
                movie_id,
                crate::config::strs_view(refs@),
                dv,
                crate::config::opt_string_view(name),
                interval,
                mode@,
                crate::config::opt_string_view(time_window),
                crate::config::opt_string_view(webhook),
                crate::config::opt_string_view(email),
                crate::config::opt_string_view(xhs),
                wechat,
                auto_lock,
                imax,
                crate::config::DEFAULT_LOCK_NUM_SEATS,
                crate::config::DEFAULT_LOCK_MAX_RETRIES,
                views_of(no_seats@),
            );
        assert(crate::config::watch_added(
            c0,
            *cfg,
            res,
            id,
            ts,
            x.movie_id,
            x.cinemas,
            x.dates,
            x.name,
            x.interval,
            x.mode,
            x.time_window,
            x.notify_webhook,
            x.notify_email_to,
            x.xhs_group,
            x.wechat_notify,
            x.auto_lock,
            x.imax_only,
            crate::config::DEFAULT_LOCK_NUM_SEATS,
            crate::config::DEFAULT_LOCK_MAX_RETRIES,
            Seq::empty(),
        ));
    }
    match res {
        Ok(id) => {
            let mut m = owned("已添加 watch ");
            append_str(&mut m, id.as_str());
            Ok(m)
        },
        Err(e) => Err(e.message()),
    }
}

/// The edit-watch form, read.
pub struct EditFormV {
    pub cinemas: Seq<Seq<char>>,
    pub dates: Option<Seq<Seq<char>>>,
    pub time_window: Option<Seq<char>>,
    pub mode: Seq<char>,
    pub interval: Option<u64>,
    pub notify_webhook: Option<Seq<char>>,
    pub notify_email_to: Option<Seq<char>>,
    pub xhs_group: Option<Seq<char>>,
    pub wechat_notify: bool,
    pub imax_only: bool,
    pub auto_lock: bool,
}

/// Reading the edit-watch form: the dates and the interval must read.
pub open spec fn edit_form_s(v: Seq<Seq<char>>) -> Result<EditFormV, Seq<char>> {
    match parse_dates_s(v[1]) {
        Err(m) => Err(m),
        Ok(dates) => match parse_opt_u64_s(v[4], "间隔"@) {
            Err(m) => Err(m),
            Ok(interval) => Ok(
                EditFormV {
                    cinemas: id_tokens(v[0]),
                    dates,
                    time_window: opt_trimmed(v[2]),
                    mode: label_to_mode_s(trim_s(v[3])),
                    interval,
                    notify_webhook: opt_trimmed(v[5]),
                    notify_email_to: opt_trimmed(v[6]),
                    xhs_group: opt_trimmed(v[7]),
                    wechat_notify: trim_s(v[8]) == "开"@,
                    imax_only: trim_s(v[9]) == "开"@,
                    auto_lock: trim_s(v[10]) == "开"@,
                },
            ),
        },
    }
}

/// `w1` is `w` with the form's cinemas and dates (`null` for none) written.
pub open spec fn edit_head(w: Json, w1: Json, x: EditFormV) -> bool {
    &&& w1 is Obj
    &&& crate::config::str_list_is(crate::json::field(w1, "cinemas"@), x.cinemas)
    &&& match x.dates {
        Some(d) => crate::config::str_list_is(crate::json::field(w1, "dates"@), d),
        None => crate::json::field(w1, "dates"@) == Some(Json::Null),
    }
    &&& forall|k: Seq<char>|
        k != "cinemas"@ && k != "dates"@ ==> crate::json::field(w1, k) == crate::json::field(w, k)
}

/// Member `k` of `w2` is the string `s`, or gone for `None`.
pub open spec fn set_or_removed(w2: Json, k: Seq<char>, s: Option<Seq<char>>) -> bool {
    match s {
        Some(v) => crate::json::str_field(w2, k) == Some(v),
        None => crate::json::field(w2, k) is None,
    }
}

pub open spec fn is_tail_key(k: Seq<char>) -> bool {
    ||| k == "time_window"@
    ||| k == "mode"@
    ||| k == "interval"@
    ||| k == "notify_webhook"@
    ||| k == "notify_email_to"@
    ||| k == "xhs_group"@
    ||| k == "wechat_notify"@
    ||| k == "imax_only"@
    ||| k == "auto_lock"@
}

/// `w2` is `w1` with the rest of the form written: time window, mode,
/// interval and the notice targets (each gone when blank), the WeChat,
/// IMAX and automatic-locking switches.
pub open spec fn edit_tail(w1: Json, w2: Json, x: EditFormV) -> bool {
    &&& w2 is Obj
    &&& set_or_removed(w2, "time_window"@, x.time_window)
    &&& crate::json::str_field(w2, "mode"@) == Some(x.mode)
    &&& crate::json::field(w2, "interval"@) == match x.interval {
        Some(n) => Some(Json::Int(n as i128)),
        None => None,
    }
    &&& set_or_removed(w2, "notify_webhook"@, x.notify_webhook)
    &&& set_or_removed(w2, "notify_email_to"@, x.notify_email_to)
    &&& set_or_removed(w2, "xhs_group"@, x.xhs_group)
    &&& crate::json::field(w2, "wechat_notify"@) == Some(Json::Bool(x.wechat_notify))
    &&& crate::json::field(w2, "imax_only"@) == Some(Json::Bool(x.imax_only))
    &&& crate::json::field(w2, "auto_lock"@) == Some(Json::Bool(x.auto_lock))
    &&& forall|k: Seq<char>| !is_tail_key(k) ==> crate::json::field(w2, k) == crate::json::field(w1, k)
}

/// `w3` is `w2` after the clean-up of an edit of `w0`: the baseline gone
/// when the match range or the mode changed, the lock state reset when the
/// match range changed.
pub open spec fn edit_cleanup(w0: Json, w2: Json, w3: Json, released: usize, reset: bool) -> bool {
    let range = crate::config::lock_keys_changed_s(w0, w2);
    let base = range || crate::config::watch_mode_s(w0) != crate::config::watch_mode_s(w2);
    &&& reset == base
    &&& released == (if range {
        str_list_field(w2, "lock_ok_cinemas"@).len()
    } else {
        0
    })
    &&& w3 is Obj
    &&& crate::json::field(w3, "seen_shows"@) == (if base {
        None
    } else {
        crate::json::field(w2, "seen_shows"@)
    })
    &&& if range {
        (crate::json::field(w3, "lock_ok_cinemas"@) matches Some(a) && crate::config::is_empty_list(a))
            && (crate::json::field(w3, "lock_tries"@) matches Some(t)
            && crate::config::is_empty_object(t))
    } else {
        crate::json::field(w3, "lock_ok_cinemas"@) == crate::json::field(w2, "lock_ok_cinemas"@)
            && crate::json::field(w3, "lock_tries"@) == crate::json::field(w2, "lock_tries"@)
    }
    &&& forall|k: Seq<char>|
        k != "seen_shows"@ && k != "lock_ok_cinemas"@ && k != "lock_tries"@ ==> crate::json::field(
            w3,
            k,
        ) == crate::json::field(w2, k)
}

/// The clean-up of an edit that turned the watch whose range keys are
/// `before` into `w` (see [`edit_cleanup`]): how many cinemas' lock state
/// was released, and whether the baseline was dropped.
pub fn clean_up_edit(before: &crate::config::RangeKeys, w: &mut Json) -> (r: (usize, bool))
    requires
        *old(w) is Obj,
    ensures
        forall|w0: Json|
            crate::config::keys_of(*before, w0) ==> #[trigger] edit_cleanup(w0, *old(w), *final(w), r.0, r.1),
{
    proof {
        reveal_edit_keys();
    }
    let ghost w2 = *w;
    let after = crate::config::range_keys(w);
    let range = crate::config::range_changed(before, &after);
    let base = range || crate::config::mode_changed(before, &after);
    if base {
        crate::json::remove_field(w, "seen_shows");
    }
    let released = if range {
        crate::config::clear_lock_state(w)
    } else {
        0
    };
    proof {
        assert forall|w0: Json| crate::config::keys_of(*before, w0) implies #[trigger] edit_cleanup(
            w0,
            w2,
            *w,
            released,
            base,
        ) by {
            assert(range == crate::config::lock_keys_changed_s(w0, w2));
            assert(base == (range || crate::config::watch_mode_s(w0) != crate::config::watch_mode_s(w2)));
        }
    }
    (released, base)
}

/// What a saved edit reports: the status line, the cinemas whose lock
/// state was released, and whether the baseline was dropped.
pub struct EditSaved {
    pub message: String,
    pub locks_released: usize,
    pub baseline_reset: bool,
}

/// The effect of submitting the edit form of watch `wid` on `old`.
pub open spec fn edit_submitted(
    old: Json,
    new: Json,
    wid: Seq<char>,
    v: Seq<Seq<char>>,
    r: Result<EditSaved, String>,
) -> bool {
    match edit_form_s(v) {
        Err(m) => r matches Err(e) && e@ == m && new == old,
        Ok(x) => if arr_field_none(old) && crate::config::unknown_ids(
            crate::config::cinemas_of(old),
            x.cinemas,
        ).len() > 0 {
            r matches Err(e) && e@ == "config 缺少 cinemas[]"@ && new == old
        } else {
            exists|mid: Json|
                #![trigger crate::config::cinemas_registered(old, mid, x.cinemas)]
                crate::config::cinemas_registered(old, mid, x.cinemas) && match crate::config::index_by_id(
                    watches_of(mid),
                    wid,
                ) {
                    None => r matches Err(e) && e@ == "watch 不存在: "@ + wid && new == mid,
                    Some(i) => {
                        let w0 = watches_of(mid)[i];
                        match x.time_window {
                            Some(tw) if crate::config::parse_window_s(tw) is Err => r matches Err(
                                e,
                            ) && e@ == "时段格式错误: "@ + crate::config::window_error_text(
                                crate::config::parse_window_s(tw)->Err_0,
                            ) && exists|w1: Json|
                                #![trigger edit_head(w0, w1, x)]
                                edit_head(w0, w1, x) && crate::config::item_replaced(
                                    mid,
                                    new,
                                    "watches"@,
                                    i,
                                    w1,
                                ),
                            _ => r matches Ok(saved) && saved.message@ == "已更新 "@ + wid && exists|
                                w1: Json,
                                w2: Json,
                                w3: Json,
                            |
                                #![trigger edit_head(w0, w1, x), edit_tail(w1, w2, x), edit_cleanup(w0, w2, w3, saved.locks_released, saved.baseline_reset)]
                                edit_head(w0, w1, x) && edit_tail(w1, w2, x) && edit_cleanup(
                                    w0,
                                    w2,
                                    w3,
                                    saved.locks_released,
                                    saved.baseline_reset,
                                ) && crate::config::item_replaced(mid, new, "watches"@, i, w3),
                        }
                    },
                }
        },
    }
}

pub open spec fn arr_field_none(cfg: Json) -> bool {
    crate::json::arr_field(cfg, "cinemas"@) is None
}

proof fn reveal_edit_keys()
    ensures
        "cinemas"@ != "dates"@,
        forall|k: Seq<char>|
            is_tail_key(k) ==> k != "cinemas"@ && k != "dates"@ && k != "seen_shows"@ && k
                != "lock_ok_cinemas"@ && k != "lock_tries"@ && k != "id"@,
        "seen_shows"@ != "lock_ok_cinemas"@,
        "seen_shows"@ != "lock_tries"@,
        "lock_ok_cinemas"@ != "lock_tries"@,
        "time_window"@ != "mode"@,
        "time_window"@ != "interval"@,
        "time_window"@ != "notify_webhook"@,
        "time_window"@ != "notify_email_to"@,
        "time_window"@ != "xhs_group"@,
        "time_window"@ != "wechat_notify"@,
        "mode"@ != "interval"@,
        "mode"@ != "notify_webhook"@,
        "mode"@ != "notify_email_to"@,
        "mode"@ != "xhs_group"@,
        "mode"@ != "wechat_notify"@,
        "interval"@ != "notify_webhook"@,
        "interval"@ != "notify_email_to"@,
        "interval"@ != "xhs_group"@,
        "interval"@ != "wechat_notify"@,
        "notify_webhook"@ != "notify_email_to"@,
        "notify_webhook"@ != "xhs_group"@,
        "notify_webhook"@ != "wechat_notify"@,
        "notify_email_to"@ != "xhs_group"@,
        "notify_email_to"@ != "wechat_notify"@,
        "xhs_group"@ != "wechat_notify"@,
        "id"@ != "cinemas"@,
        "id"@ != "dates"@,
        "id"@ != "seen_shows"@,
        "id"@ != "lock_ok_cinemas"@,
        "id"@ != "lock_tries"@,
        "imax_only"@ != "time_window"@,
        "imax_only"@ != "mode"@,
        "imax_only"@ != "interval"@,
        "imax_only"@ != "notify_webhook"@,
        "imax_only"@ != "notify_email_to"@,
        "imax_only"@ != "xhs_group"@,
        "imax_only"@ != "wechat_notify"@,
        "imax_only"@ != "auto_lock"@,
        "auto_lock"@ != "time_window"@,
        "auto_lock"@ != "mode"@,
        "auto_lock"@ != "interval"@,
        "auto_lock"@ != "notify_webhook"@,
        "auto_lock"@ != "notify_email_to"@,
        "auto_lock"@ != "xhs_group"@,
        "auto_lock"@ != "wechat_notify"@,
{
    reveal_strlit("cinemas");
    reveal_strlit("dates");
    reveal_strlit("seen_shows");
    reveal_strlit("lock_ok_cinemas");
    reveal_strlit("lock_tries");
    reveal_strlit("id");
    reveal_strlit("time_window");
    reveal_strlit("mode");
    reveal_strlit("interval");
    reveal_strlit("notify_webhook");
    reveal_strlit("notify_email_to");
    reveal_strlit("xhs_group");
    reveal_strlit("wechat_notify");
    reveal_strlit("imax_only");
    reveal_strlit("auto_lock");
    // Keys of different lengths differ, and so do keys of one length with
    // different first characters.
    assert("cinemas"@.len() == 7 && "dates"@.len() == 5 && "seen_shows"@.len() == 10
        && "lock_ok_cinemas"@.len() == 15 && "lock_tries"@.len() == 10 && "id"@.len() == 2
        && "time_window"@.len() == 11 && "mode"@.len() == 4 && "interval"@.len() == 8
        && "notify_webhook"@.len() == 14 && "notify_email_to"@.len() == 15
        && "xhs_group"@.len() == 9 && "wechat_notify"@.len() == 13 && "imax_only"@.len() == 9
        && "auto_lock"@.len() == 9);
    assert("seen_shows"@[0] == 's' && "lock_tries"@[0] == 'l' && "lock_ok_cinemas"@[0] == 'l'
        && "notify_email_to"@[0] == 'n' && "xhs_group"@[0] == 'x' && "imax_only"@[0] == 'i'
        && "auto_lock"@[0] == 'a');
}

fn set_or_remove(w: &mut Json, k: &str, v: &Option<String>)
    requires
        (*old(w)) is Obj,
    ensures
        (*final(w)) is Obj,
        set_or_removed(*final(w), k@, crate::config::opt_string_view(*v)),
        forall|k2: Seq<char>|
            k2 != k@ ==> crate::json::field(*final(w), k2) == crate::json::field(*old(w), k2),
{
    match v {
        Some(s) => crate::json::set_field(w, k, crate::json::jstr(s.as_str())),
        None => crate::json::remove_field(w, k),
    }
}

/// Submits the edit form of watch `watch_id`: registers unknown cinemas,
/// writes the form into the watch, and then drops the baseline when the
/// match range or the mode changed and resets the lock state when the
/// match range changed. The caller saves when it succeeds and posts the
/// release notice when locks were released.
pub fn submit_edit_watch(cfg: &mut Json, watch_id: &str, f: &FormModal) -> (r: Result<EditSaved, String>)
    requires
        f.fields@.len() >= 11,
    ensures
        edit_submitted(*old(cfg), *final(cfg), watch_id@, form_values(*f), r),
{
    proof {
        reveal_edit_keys();
    }
    let ghost v = form_values(*f);
    let ghost c0 = *cfg;
    let dates = match parse_dates(f.fields[1].value.as_str()) {
        Ok(d) => d,
        Err(e) => return Err(e),
    };
    let interval = match parse_opt_u64(f.fields[4].value.as_str(), "间隔") {
        Ok(n) => n,
        Err(e) => return Err(e),
    };
    let ghost x = edit_form_s(v)->Ok_0;
    let cinemas = split_ids(f.fields[0].value.as_str());
    let time_window = opt_trimmed_exec(f.fields[2].value.as_str());
    let mode_text = trim(f.fields[3].value.as_str());
    let mode = label_to_mode(mode_text.as_str());
    let webhook = opt_trimmed_exec(f.fields[5].value.as_str());
    let email = opt_trimmed_exec(f.fields[6].value.as_str());
    let xhs = opt_trimmed_exec(f.fields[7].value.as_str());
    let wechat_text = trim(f.fields[8].value.as_str());
    let wechat = str_eq(wechat_text.as_str(), "开");
    let imax_text = trim(f.fields[9].value.as_str());
    let imax = str_eq(imax_text.as_str(), "开");
    let lock_text = trim(f.fields[10].value.as_str());
    let auto_lock = str_eq(lock_text.as_str(), "开");
    match crate::config::register_cinema_ids(cfg, &cinemas) {
        Ok(()) => {},
        Err(e) => {
            proof {
                reveal_strlit("config 缺少 cinemas[]");
            }
            return Err(e.message());
        },
    }
    let ghost mid = *cfg;
    assert(views_of(cinemas@) == x.cinemas);
    assert(crate::config::cinemas_registered(c0, mid, x.cinemas));
    let i = match crate::config::index_of_id(crate::config::list_items(cfg, "watches"), watch_id) {
        Some(i) => i,
        None => {
            let mut m = owned("watch 不存在: ");
            append_str(&mut m, watch_id);
            let res: Result<EditSaved, String> = Err(m);
            assert(edit_submitted(c0, *cfg, watch_id@, v, res));
            return res;
        },
    };
    proof {
        crate::config::lemma_index_by_id_bounds(watches_of(mid), watch_id@);
    }
    let mut w = crate::config::swap_item(cfg, "watches", i, Json::Null);
    let ghost cmid = *cfg;
    let ghost w0 = w;
    let before = crate::config::range_keys(&w);
    crate::json::set_field(&mut w, "cinemas", crate::config::strings_json(cinemas.as_slice()));
    let dates_json = match &dates {
        Some(d) => crate::config::strings_json(d.as_slice()),
        None => Json::Null,
    };
    crate::json::set_field(&mut w, "dates", dates_json);
    let ghost w1 = w;
    assert(edit_head(w0, w1, x));
    match &time_window {
        Some(tw) => match crate::config::parse_window(tw.as_str()) {
            Err(e) => {
                let mut m = owned("时段格式错误: ");
                let em = e.message();
                append_str(&mut m, em.as_str());
                crate::config::swap_item(cfg, "watches", i, w);
                proof {
                    crate::config::lemma_item_replaced_twice(
                        mid,
                        cmid,
                        *cfg,
                        "watches"@,
                        i as int,
                        Json::Null,
                        w1,
                    );
                }
                let res: Result<EditSaved, String> = Err(m);
                assert(edit_submitted(c0, *cfg, watch_id@, v, res));
                return res;
            },
            Ok(_) => {
                crate::json::set_field(&mut w, "time_window", crate::json::jstr(tw.as_str()));
            },
        },
        None => {
            crate::json::remove_field(&mut w, "time_window");
        },
    }
    crate::json::set_field(&mut w, "mode", crate::json::jstr(mode));
    match interval {
        Some(n) => crate::json::set_field(&mut w, "interval", Json::Int(n as i128)),
        None => crate::json::remove_field(&mut w, "interval"),
    }
    set_or_remove(&mut w, "notify_webhook", &webhook);
    set_or_remove(&mut w, "notify_email_to", &email);
    set_or_remove(&mut w, "xhs_group", &xhs);
    crate::json::set_field(&mut w, "wechat_notify", Json::Bool(wechat));
    crate::json::set_field(&mut w, "imax_only", Json::Bool(imax));
    crate::json::set_field(&mut w, "auto_lock", Json::Bool(auto_lock));
    let ghost w2 = w;
    assert(edit_tail(w1, w2, x));
    let (released, base) = clean_up_edit(&before, &mut w);
    let ghost w3 = w;
    assert(edit_cleanup(w0, w2, w3, released, base));
    crate::config::swap_item(cfg, "watches", i, w);
    proof {
        crate::config::lemma_item_replaced_twice(mid, cmid, *cfg, "watches"@, i as int, Json::Null, w3);
    }
    let mut m = owned("已更新 ");
    append_str(&mut m, watch_id);
    let res: Result<EditSaved, String> = Ok(
        EditSaved { message: m, locks_released: released, baseline_reset: base },
    );
    proof {
        assert(crate::config::index_by_id(watches_of(mid), watch_id@) == Some(i as int));
        assert(w0 == watches_of(mid)[i as int]);
        assert(crate::config::item_replaced(mid, *cfg, "watches"@, i as int, w3));
        assert(!(x.time_window matches Some(tw) && crate::config::parse_window_s(tw) is Err));
        assert(res->Ok_0.message@ == "已更新 "@ + watch_id@);
        assert(edit_cleanup(w0, w2, w3, res->Ok_0.locks_released, res->Ok_0.baseline_reset));
    }
    assert(edit_submitted(c0, *cfg, watch_id@, v, res));
    res
}

/// The global settings form, read.
pub struct GlobalFormV {
    pub webhook: Seq<char>,
    pub interval: u64,
    pub quiet: Seq<char>,
    pub phone: Seq<char>,
    pub heartbeat: u64,
    pub lock_headless: bool,
}

/// Reading the global settings form: both intervals must be numbers and a
/// window that is not blank must read.
pub open spec fn global_form_s(v: Seq<Seq<char>>) -> Result<GlobalFormV, Seq<char>> {
    match parse_unsigned_s(trim_s(v[1]), u64::MAX as nat) {
        None => Err("检查间隔必须是数字"@),
        Some(interval) => match parse_unsigned_s(trim_s(v[4]), u64::MAX as nat) {
            None => Err("报告间隔必须是数字"@),
            Some(hb) => {
                let quiet = trim_s(v[2]);
                let phone = trim_s(v[3]);
                if quiet.len() > 0 && crate::config::parse_window_s(quiet) is Err {
                    Err(
                        crate::config::window_error_text(
                            crate::config::parse_window_s(quiet)->Err_0,
                        ),
                    )
                } else if phone.len() > 0 && crate::config::parse_window_s(phone) is Err {
                    Err(
                        crate::config::window_error_text(
                            crate::config::parse_window_s(phone)->Err_0,
                        ),
                    )
                } else {
                    Ok(
                        GlobalFormV {
                            webhook: trim_s(v[0]),
                            interval: interval as u64,
                            quiet,
                            phone,
                            heartbeat: hb as u64,
                            lock_headless: trim_s(v[5]) == "开"@,
                        },
                    )
                }
            },
        },
    }
}

pub open spec fn is_global_key(k: Seq<char>) -> bool {
    ||| k == "discord_webhook"@
    ||| k == "check_interval"@
    ||| k == "quiet_window"@
    ||| k == "phone_only_window"@
    ||| k == "heartbeat_interval_sec"@
    ||| k == "lock_headless"@
}

/// `new` is `old` with the settings of the form written; a blank window
/// keeps the one there, a blank webhook becomes `null`.
pub open spec fn global_written(old: Json, new: Json, x: GlobalFormV) -> bool {
    &&& new is Obj
    &&& crate::json::field(new, "discord_webhook"@) == (if x.webhook.len() == 0 {
        Some(Json::Null)
    } else {
        crate::json::field(new, "discord_webhook"@)
    })
    &&& (x.webhook.len() > 0 ==> crate::json::str_field(new, "discord_webhook"@) == Some(x.webhook))
    &&& crate::json::field(new, "check_interval"@) == Some(Json::Int(x.interval as i128))
    &&& (if x.quiet.len() > 0 {
        crate::json::str_field(new, "quiet_window"@) == Some(x.quiet)
    } else {
        crate::json::field(new, "quiet_window"@) == crate::json::field(old, "quiet_window"@)
    })
    &&& (if x.phone.len() > 0 {
        crate::json::str_field(new, "phone_only_window"@) == Some(x.phone)
    } else {
        crate::json::field(new, "phone_only_window"@) == crate::json::field(
            old,
            "phone_only_window"@,
        )
    })
    &&& crate::json::field(new, "heartbeat_interval_sec"@) == Some(Json::Int(x.heartbeat as i128))
    &&& crate::json::field(new, "lock_headless"@) == Some(Json::Bool(x.lock_headless))
    &&& forall|k: Seq<char>| !is_global_key(k) ==> crate::json::field(new, k) == crate::json::field(old, k)
}

proof fn reveal_global_keys()
    ensures
        "discord_webhook"@ != "check_interval"@,
        "discord_webhook"@ != "quiet_window"@,
        "discord_webhook"@ != "phone_only_window"@,
        "discord_webhook"@ != "heartbeat_interval_sec"@,
        "check_interval"@ != "quiet_window"@,
        "check_interval"@ != "phone_only_window"@,
        "check_interval"@ != "heartbeat_interval_sec"@,
        "quiet_window"@ != "phone_only_window"@,
        "quiet_window"@ != "heartbeat_interval_sec"@,
        "phone_only_window"@ != "heartbeat_interval_sec"@,
        "lock_headless"@ != "discord_webhook"@,
        "lock_headless"@ != "check_interval"@,
        "lock_headless"@ != "quiet_window"@,
        "lock_headless"@ != "phone_only_window"@,
        "lock_headless"@ != "heartbeat_interval_sec"@,
{
    reveal_strlit("discord_webhook");
    reveal_strlit("check_interval");
    reveal_strlit("quiet_window");
    reveal_strlit("phone_only_window");
    reveal_strlit("heartbeat_interval_sec");
    reveal_strlit("lock_headless");
    assert("lock_headless"@.len() != "discord_webhook"@.len());
    assert("lock_headless"@.len() != "check_interval"@.len());
    assert("lock_headless"@.len() != "quiet_window"@.len());
    assert("lock_headless"@.len() != "phone_only_window"@.len());
    assert("lock_headless"@.len() != "heartbeat_interval_sec"@.len());
    assert("discord_webhook"@.len() != "check_interval"@.len());
    assert("discord_webhook"@.len() != "quiet_window"@.len());
    assert("discord_webhook"@.len() != "phone_only_window"@.len());
    assert("discord_webhook"@.len() != "heartbeat_interval_sec"@.len());
    assert("check_interval"@.len() != "quiet_window"@.len());
    assert("check_interval"@.len() != "phone_only_window"@.len());
    assert("check_interval"@.len() != "heartbeat_interval_sec"@.len());
    assert("quiet_window"@.len() != "phone_only_window"@.len());
    assert("quiet_window"@.len() != "heartbeat_interval_sec"@.len());
    assert("phone_only_window"@.len() != "heartbeat_interval_sec"@.len());
}

/// Submits the global settings form into `cfg`. The caller saves.
pub fn submit_global(cfg: &mut Json, f: &FormModal) -> (r: Result<String, String>)
    requires
        f.fields@.len() >= 6,
        (*old(cfg)) is Obj || (*old(cfg)) is Null,
    ensures
        match global_form_s(form_values(*f)) {
            Err(m) => r matches Err(e) && e@ == m && *final(cfg) == *old(cfg),
            Ok(x) => r matches Ok(s) && s@ == "全局设置已保存"@ && global_written(
                *old(cfg),
                *final(cfg),
                x,
            ),
        },
{
    proof {
        reveal_global_keys();
    }
    let ghost v = form_values(*f);
    let webhook = trim(f.fields[0].value.as_str());
    let interval_text = trim(f.fields[1].value.as_str());
    let interval = match parse_u64(interval_text.as_str()) {
        Some(n) => n,
        None => return Err(owned("检查间隔必须是数字")),
    };
    let quiet = trim(f.fields[2].value.as_str());
    let phone = trim(f.fields[3].value.as_str());
    let hb_text = trim(f.fields[4].value.as_str());
    let hb = match parse_u64(hb_text.as_str()) {
        Some(n) => n,
        None => return Err(owned("报告间隔必须是数字")),
    };
    let headless_text = trim(f.fields[5].value.as_str());
    let headless = str_eq(headless_text.as_str(), "开");
    if quiet.unicode_len() > 0 {
        match crate::config::parse_window(quiet.as_str()) {
            Err(e) => return Err(e.message()),
            Ok(_) => {},
        }
    }
    if phone.unicode_len() > 0 {
        match crate::config::parse_window(phone.as_str()) {
            Err(e) => return Err(e.message()),
            Ok(_) => {},
        }
    }
    let ghost c0 = *cfg;
    if webhook.unicode_len() == 0 {
        crate::json::set_field(cfg, "discord_webhook", Json::Null);
    } else {
        crate::json::set_field(cfg, "discord_webhook", Json::Str(webhook));
    }
    crate::json::set_field(cfg, "check_interval", Json::Int(interval as i128));
    if quiet.unicode_len() > 0 {
        crate::json::set_field(cfg, "quiet_window", Json::Str(quiet));
    }
    if phone.unicode_len() > 0 {
        crate::json::set_field(cfg, "phone_only_window", Json::Str(phone));
    }
    crate::json::set_field(cfg, "heartbeat_interval_sec", Json::Int(hb as i128));
    crate::json::set_field(cfg, "lock_headless", Json::Bool(headless));
    Ok(owned("全局设置已保存"))
}

// ----------------------------------------------------------------------
// Opening the cinema picker
// ----------------------------------------------------------------------

/// A picker line by its text.
pub struct ChoiceV {
    pub id: Seq<char>,
    pub name: Seq<char>,
    pub builtin: bool,
    pub selected: bool,
}

impl View for CinemaChoice {
    type V = ChoiceV;

    open spec fn view(&self) -> ChoiceV {
        ChoiceV { id: self.id@, name: self.name@, builtin: self.builtin, selected: self.selected }
    }
}

pub open spec fn choices_view(v: Seq<CinemaChoice>) -> Seq<ChoiceV> {
    v.map_values(|c: CinemaChoice| c@)
}

pub open spec fn choice_ids(v: Seq<ChoiceV>) -> Seq<Seq<char>> {
    v.map_values(|c: ChoiceV| c.id)
}

/// Index of the first field of kind `k`.
pub open spec fn first_of_kind(fields: Seq<FieldV>, k: FieldKind) -> Option<int>
    decreases fields.len(),
{
    if fields.len() == 0 {
        None
    } else {
        match first_of_kind(fields.drop_last(), k) {
            Some(i) => Some(i),
            None => if fields.last().kind == k {
                Some(fields.len() - 1)
            } else {
                None
            },
        }
    }
}

/// The ids typed into the form's cinema field (its first one).
pub open spec fn preselected_ids(f: FormV) -> Seq<Seq<char>> {
    match first_of_kind(f.fields, FieldKind::CinemaList) {
        Some(i) => id_tokens(f.fields[i].value),
        None => Seq::empty(),
    }
}

pub open spec fn str_or_blank(c: Json, k: Seq<char>) -> Seq<char> {
    match str_field(c, k) {
        Some(s) => s,
        None => Seq::empty(),
    }
}

/// The picker line of a saved cinema.
pub open spec fn saved_choice(c: Json, pre: Seq<Seq<char>>) -> ChoiceV {
    ChoiceV {
        id: str_or_blank(c, "id"@),
        name: str_or_blank(c, "name"@),
        builtin: match bool_field(c, "builtin"@) {
            Some(b) => b,
            None => false,
        },
        selected: pre.contains(str_or_blank(c, "id"@)),
    }
}

/// Lines for the typed ids that are not listed yet, ticked, each once.
pub open spec fn extra_choices(pre: Seq<Seq<char>>, known: Seq<Seq<char>>) -> Seq<ChoiceV>
    decreases pre.len(),
{
    if pre.len() == 0 {
        Seq::empty()
    } else if known.contains(pre[0]) {
        extra_choices(pre.drop_first(), known)
    } else {
        seq![ChoiceV { id: pre[0], name: Seq::empty(), builtin: false, selected: true }]
            + extra_choices(pre.drop_first(), known.push(pre[0]))
    }
}

/// The lines of the picker: the saved cinemas, ticked when typed into the
/// form, then the typed ids that are not saved.
pub open spec fn picker_choices(cfg: Json, pre: Seq<Seq<char>>) -> Seq<ChoiceV> {
    let saved = cinemas_of(cfg).map_values(|c: Json| saved_choice(c, pre));
    saved + extra_choices(pre, choice_ids(saved))
}

fn first_field_of_kind(fields: &Vec<FormField>, k: FieldKind) -> (r: Option<usize>)
    ensures
        match r {
            Some(i) => i < fields@.len() && first_of_kind(fields_view(fields@), k) == Some(i as int),
            None => first_of_kind(fields_view(fields@), k) is None,
        },
{
    let mut i: usize = 0;
    while i < fields.len()
        invariant
            i <= fields@.len(),
            first_of_kind(fields_view(fields@).take(i as int), k) is None,
        decreases fields.len() - i,
    {
        proof {
            let t = fields_view(fields@).take(i + 1);
            assert(t.drop_last() =~= fields_view(fields@).take(i as int));
        }
        if fields[i].kind == k {
            proof {
                lemma_first_of_kind_prefix(fields_view(fields@), k, i as int + 1);
            }
            return Some(i);
        }
        i = i + 1;
    }
    assert(fields_view(fields@).take(fields@.len() as int) =~= fields_view(fields@));
    None
}

/// A first match in a prefix is the first match of the whole.
proof fn lemma_first_of_kind_prefix(s: Seq<FieldV>, k: FieldKind, n: int)
    requires
        0 <= n <= s.len(),
        first_of_kind(s.take(n), k) is Some,
    ensures
        first_of_kind(s, k) == first_of_kind(s.take(n), k),
    decreases s.len() - n,
{
    if n < s.len() {
        let t = s.take(n + 1);
        assert(t.drop_last() =~= s.take(n));
        lemma_first_of_kind_prefix(s, k, n + 1);
    } else {
        assert(s.take(n) =~= s);
    }
}

fn has_choice(v: &Vec<CinemaChoice>, id: &str) -> (r: bool)
    ensures
        r == choice_ids(choices_view(v@)).contains(id@),
{
    let mut i: usize = 0;
    while i < v.len()
        invariant
            i <= v@.len(),
            forall|k: int| 0 <= k < i ==> v@[k].id@ != id@,
        decreases v.len() - i,
    {
        if str_eq(v[i].id.as_str(), id) {
            assert(choice_ids(choices_view(v@))[i as int] == id@);
            return true;
        }
        i = i + 1;
    }
    assert forall|k: int| 0 <= k < choice_ids(choices_view(v@)).len() implies choice_ids(
        choices_view(v@),
    )[k] != id@ by {
        assert(choice_ids(choices_view(v@))[k] == v@[k].id@);
    }
    false
}

fn str_or_blank_exec(c: &Json, k: &str) -> (r: String)
    ensures
        r@ == str_or_blank(*c, k@),
{
    match get_str(c, k) {
        Some(s) => s,
        None => String::new(),
    }
}

/// The cinema picker over the form `parent`: the saved cinemas of `cfg`,
/// ticked when the form's cinema field names them, then the ids typed
/// there that are not saved, ticked. The first line is selected.
pub fn open_cinema_picker(cfg: &Json, parent: FormModal) -> (r: CinemaPickerModal)
    ensures
        r.parent@ == parent@,
        choices_view(r.cinemas@) == picker_choices(*cfg, preselected_ids(parent@)),
        r.selected == 0,
        r.add_input@ == Seq::<char>::empty(),
        r.mode == CinemaMode::List,
        r.state is Ready,
{
    let pre: Vec<String> = match first_field_of_kind(&parent.fields, FieldKind::CinemaList) {
        Some(i) => {
            assert(fields_view(parent.fields@)[i as int].value == parent.fields@[i as int].value@);
            let v = split_ids(parent.fields[i].value.as_str());
            assert(parent@.fields == fields_view(parent.fields@));
            assert(first_of_kind(parent@.fields, FieldKind::CinemaList) == Some(i as int));
            assert(views_of(v@) == id_tokens(parent.fields@[i as int].value@));
            assert(views_of(v@) =~= preselected_ids(parent@));
            v
        },
        None => {
            let v: Vec<String> = Vec::new();
            assert(views_of(v@) =~= preselected_ids(parent@));
            v
        },
    };
    let ghost prev = views_of(pre@);
    let items = crate::config::list_items(cfg, "cinemas");
    let ghost saved = cinemas_of(*cfg).map_values(|c: Json| saved_choice(c, prev));
    let mut cinemas: Vec<CinemaChoice> = Vec::new();
    let mut i: usize = 0;
    while i < items.len()
        invariant
            i <= items@.len(),
            items@ == cinemas_of(*cfg),
            saved == cinemas_of(*cfg).map_values(|c: Json| saved_choice(c, prev)),
            prev == views_of(pre@),
            choices_view(cinemas@) == saved.take(i as int),
            cinemas@.len() == i,
        decreases items.len() - i,
    {
        let id = str_or_blank_exec(&items[i], "id");
        let name = str_or_blank_exec(&items[i], "name");
        let builtin = match get_bool(&items[i], "builtin") {
            Some(b) => b,
            None => false,
        };
        let selected = crate::text::strings_contain(&pre, id.as_str());
        let ghost c = items@[i as int];
        assert(saved[i as int] == saved_choice(c, prev));
        let ghost before = cinemas@;
        cinemas.push(CinemaChoice { id, name, builtin, selected });
        assert(cinemas@.last()@ == saved[i as int]);
        assert forall|k: int| 0 <= k < i implies choices_view(cinemas@)[k] == saved[k] by {
            assert(cinemas@[k] == before[k]);
            assert(choices_view(before)[k] == saved.take(i as int)[k]);
        }
        assert(choices_view(cinemas@) =~= saved.take(i + 1));
        i = i + 1;
    }
    assert(saved.take(items@.len() as int) =~= saved);
    assert(prev.skip(0) =~= prev);
    let mut j: usize = 0;
    while j < pre.len()
        invariant
            j <= pre@.len(),
            prev == views_of(pre@),
            choices_view(cinemas@) + extra_choices(prev.skip(j as int), choice_ids(choices_view(cinemas@)))
                == saved + extra_choices(prev, choice_ids(saved)),
        decreases pre.len() - j,
    {
        let ghost before = choices_view(cinemas@);
        let ghost rest = prev.skip(j as int);
        assert(rest[0] == pre@[j as int]@);
        assert(rest.drop_first() =~= prev.skip(j + 1));
        if !has_choice(&cinemas, pre[j].as_str()) {
            cinemas.push(
                CinemaChoice { id: pre[j].clone(), name: String::new(), builtin: false, selected: true },
            );
            assert(choices_view(cinemas@) =~= before.push(
                ChoiceV { id: rest[0], name: Seq::empty(), builtin: false, selected: true },
            ));
            assert(choice_ids(choices_view(cinemas@)) =~= choice_ids(before).push(rest[0]));
            assert(before + extra_choices(rest, choice_ids(before)) =~= choices_view(cinemas@)
                + extra_choices(prev.skip(j + 1), choice_ids(choices_view(cinemas@))));
        }
        j = j + 1;
    }
    assert(prev.skip(pre@.len() as int) =~= Seq::<Seq<char>>::empty());
    assert(choices_view(cinemas@) =~= saved + extra_choices(prev, choice_ids(saved)));
    CinemaPickerModal {
        selected: 0,
        cinemas,
        add_input: String::new(),
        mode: CinemaMode::List,
        state: CinemaState::Ready,
        parent: Box::new(parent),
    }
}

// ----------------------------------------------------------------------
// Keys on a form
// ----------------------------------------------------------------------

pub enum FormKindV {
    AddWatch,
    EditWatch(Seq<char>),
    GlobalSettings,
}

pub enum FormModeV {
    Navigation,
    Editing(Seq<char>),
}

/// A form by its text.
pub struct FormV {
    pub kind: FormKindV,
    pub title: Seq<char>,
    pub fields: Seq<FieldV>,
    pub focus: usize,
    pub mode: FormModeV,
    pub error: Option<Seq<char>>,
}

impl View for FormModal {
    type V = FormV;

    open spec fn view(&self) -> FormV {
        FormV {
            kind: match self.kind {
                FormKind::AddWatch => FormKindV::AddWatch,
                FormKind::EditWatch { wid } => FormKindV::EditWatch(wid@),
                FormKind::GlobalSettings => FormKindV::GlobalSettings,
            },
            title: self.title@,
            fields: fields_view(self.fields@),
            focus: self.focus,
            mode: match self.mode {
                FormMode::Navigation => FormModeV::Navigation,
                FormMode::Editing { original } => FormModeV::Editing(original@),
            },
            error: match self.error {
                Some(e) => Some(e@),
                None => None,
            },
        }
    }
}

/// A form whose focus is on a field and whose submit has the fields it reads.
pub open spec fn form_ok(f: FormV) -> bool {
    &&& f.focus < f.fields.len()
    &&& match f.kind {
        FormKindV::AddWatch => f.fields.len() >= 13,
        FormKindV::EditWatch(_) => f.fields.len() >= 11,
        FormKindV::GlobalSettings => f.fields.len() >= 6,
    }
}

/// `f` with the value of the focused field replaced.
pub open spec fn with_value(f: FormV, v: Seq<char>) -> FormV {
    FormV {
        kind: f.kind,
        title: f.title,
        fields: f.fields.update(f.focus as int, FieldV { value: v, ..f.fields[f.focus as int] }),
        focus: f.focus,
        mode: f.mode,
        error: f.error,
    }
}

pub open spec fn with_mode(f: FormV, m: FormModeV) -> FormV {
    FormV { kind: f.kind, title: f.title, fields: f.fields, focus: f.focus, mode: m, error: f.error }
}

pub open spec fn with_focus(f: FormV, i: usize) -> FormV {
    FormV { kind: f.kind, title: f.title, fields: f.fields, focus: i, mode: f.mode, error: f.error }
}

pub open spec fn with_error(f: FormV, e: Seq<char>) -> FormV {
    FormV { kind: f.kind, title: f.title, fields: f.fields, focus: f.focus, mode: f.mode, error: Some(e) }
}

pub open spec fn toggled_mode(v: Seq<char>) -> Seq<char> {
    if v == "增场监控"@ {
        "开票提醒"@
    } else {
        "增场监控"@
    }
}

pub open spec fn toggled_switch(v: Seq<char>) -> Seq<char> {
    if v == "开"@ {
        "关"@
    } else {
        "开"@
    }
}

/// What a key on a form leads to.
pub enum FormOutcome {
    /// The form stays open.
    Stay(FormModal),
    /// The form was closed without saving.
    Close,
    /// The form was submitted and closed: save the configuration, show the
    /// status line, and post the event when there is one.
    Saved { status: String, event: Option<String> },
    /// Open the movie search over this form.
    SearchMovies(FormModal),
    /// The cinema picker opened over the form.
    PickCinemas(CinemaPickerModal),
    /// Send a test notice on the channels of this form, which stays open.
    TestNotify(FormModal),
}

pub open spec fn is_char(k: crate::tui::Key, c: char) -> bool {
    k.code == crate::tui::KeyCode::Char(c)
}

/// What a key does to a form being typed into.
pub open spec fn editing_key_s(f: FormV, original: Seq<char>, k: crate::tui::Key) -> FormV {
    let v = f.fields[f.focus as int].value;
    match k.code {
        crate::tui::KeyCode::Enter => with_mode(f, FormModeV::Navigation),
        crate::tui::KeyCode::Esc => with_mode(with_value(f, original), FormModeV::Navigation),
        crate::tui::KeyCode::Backspace => with_value(
            f,
            if v.len() > 0 {
                v.drop_last()
            } else {
                v
            },
        ),
        crate::tui::KeyCode::Char(c) => if !k.ctrl {
            with_value(f, v.push(c))
        } else {
            f
        },
        _ => f,
    }
}

/// The outcome of a key on a form in navigation, apart from submitting and
/// opening the cinema picker (which need the configuration).
pub open spec fn nav_key_s(f: FormV, k: crate::tui::Key) -> Option<FormV> {
    let n = f.fields.len();
    let fld = f.fields[f.focus as int];
    if k.code == crate::tui::KeyCode::Esc {
        None
    } else if k.code == crate::tui::KeyCode::Up || is_char(k, 'k') {
        Some(with_focus(f, if f.focus == 0 { (n - 1) as usize } else { (f.focus - 1) as usize }))
    } else if k.code == crate::tui::KeyCode::Down || is_char(k, 'j') {
        Some(with_focus(f, if f.focus + 1 == n { 0 } else { (f.focus + 1) as usize }))
    } else if is_char(k, 'i') && fld.kind == FieldKind::MovieId {
        Some(with_mode(f, FormModeV::Editing(fld.value)))
    } else if k.code == crate::tui::KeyCode::Enter {
        match fld.kind {
            FieldKind::Cancel => None,
            FieldKind::Mode => Some(with_value(f, toggled_mode(fld.value))),
            FieldKind::WechatNotify => Some(with_value(f, toggled_switch(fld.value))),
            FieldKind::Switch => Some(with_value(f, toggled_switch(fld.value))),
            _ => Some(with_mode(f, FormModeV::Editing(fld.value))),
        }
    } else {
        Some(f)
    }
}

fn set_focused_value(f: &mut FormModal, v: String)
    requires
        old(f).focus < old(f).fields@.len(),
    ensures
        final(f)@ == with_value(old(f)@, v@),
{
    let i = f.focus;
    let old_field = f.fields.remove(i);
    let nf = FormField { label: old_field.label, value: v, kind: old_field.kind, required: old_field.required };
    f.fields.insert(i, nf);
    proof {
        assert(fields_view(f.fields@) =~= fields_view(old(f).fields@).update(
            i as int,
            FieldV { value: v@, ..fields_view(old(f).fields@)[i as int] },
        ));
    }
}

fn focused_value(f: &FormModal) -> (r: String)
    requires
        f.focus < f.fields@.len(),
    ensures
        r@ == f@.fields[f.focus as int].value,
{
    f.fields[f.focus].value.clone()
}

/// Handles a key on a form. Typing edits the focused field (Esc restores
/// it); in navigation the arrows (or `k`/`j`) move the focus round, Enter
/// acts on the focused field, `i` types into a movie id, Esc closes.
pub fn form_key(cfg: &mut Json, f: FormModal, key: crate::tui::Key) -> (r: FormOutcome)
    requires
        form_ok(f@),
        (*old(cfg)) is Obj || (*old(cfg)) is Null,
    ensures
        match f@.mode {
            FormModeV::Editing(orig) => r matches FormOutcome::Stay(f2) && f2@ == editing_key_s(
                f@,
                orig,
                key,
            ) && *final(cfg) == *old(cfg),
            FormModeV::Navigation => {
                let fld = f@.fields[f@.focus as int];
                let plain = !(k_up_down_i(f@, key)) && key.code == crate::tui::KeyCode::Enter;
                if plain && fld.kind == FieldKind::Submit {
                    submitted(*old(cfg), *final(cfg), f@, r)
                } else if plain && fld.kind == FieldKind::MovieId {
                    r matches FormOutcome::SearchMovies(f2) && f2@ == f@ && *final(cfg) == *old(cfg)
                } else if plain && fld.kind == FieldKind::CinemaList {
                    r matches FormOutcome::PickCinemas(c) && c.parent@ == f@ && *final(cfg) == *old(
                        cfg,
                    )
                } else if plain && fld.kind == FieldKind::TestNotify {
                    r matches FormOutcome::TestNotify(f2) && f2@ == f@ && *final(cfg) == *old(cfg)
                } else {
                    *final(cfg) == *old(cfg) && match nav_key_s(f@, key) {
                        None => r is Close,
                        Some(f2v) => r matches FormOutcome::Stay(f2) && f2@ == f2v,
                    }
                }
            },
        },
{
    let mut f = f;
    let orig = match &f.mode {
        FormMode::Editing { original } => Some(original.clone()),
        FormMode::Navigation => None,
    };
    match orig {
        Some(original) => {
            match key.code {
                crate::tui::KeyCode::Enter => {
                    f.mode = FormMode::Navigation;
                },
                crate::tui::KeyCode::Esc => {
                    set_focused_value(&mut f, original);
                    f.mode = FormMode::Navigation;
                },
                crate::tui::KeyCode::Backspace => {
                    let mut v = focused_value(&f);
                    crate::text::pop_last(&mut v);
                    set_focused_value(&mut f, v);
                },
                crate::tui::KeyCode::Char(c) => {
                    if !key.ctrl {
                        let mut v = focused_value(&f);
                        crate::text::push_char(&mut v, c);
                        set_focused_value(&mut f, v);
                    }
                },
                _ => {},
            }
            return FormOutcome::Stay(f);
        },
        None => {},
    }
    let n = f.fields.len();
    let kind = f.fields[f.focus].kind;
    match key.code {
        crate::tui::KeyCode::Esc => FormOutcome::Close,
        crate::tui::KeyCode::Up | crate::tui::KeyCode::Char('k') => {
            f.focus = if f.focus == 0 {
                n - 1
            } else {
                f.focus - 1
            };
            FormOutcome::Stay(f)
        },
        crate::tui::KeyCode::Down | crate::tui::KeyCode::Char('j') => {
            f.focus = if f.focus + 1 == n {
                0
            } else {
                f.focus + 1
            };
            FormOutcome::Stay(f)
        },
        crate::tui::KeyCode::Char('i') if kind == FieldKind::MovieId => {
            let v = focused_value(&f);
            f.mode = FormMode::Editing { original: v };
            FormOutcome::Stay(f)
        },
        crate::tui::KeyCode::Enter => match kind {
            FieldKind::Submit => submit_form(cfg, f),
            FieldKind::Cancel => FormOutcome::Close,
            FieldKind::MovieId => FormOutcome::SearchMovies(f),
            FieldKind::CinemaList => FormOutcome::PickCinemas(open_cinema_picker(cfg, f)),
            FieldKind::Mode => {
                let cur = focused_value(&f);
                let nv = if str_eq(cur.as_str(), "增场监控") {
                    owned("开票提醒")
                } else {
                    owned("增场监控")
                };
                set_focused_value(&mut f, nv);
                FormOutcome::Stay(f)
            },
            FieldKind::WechatNotify | FieldKind::Switch => {
                let cur = focused_value(&f);
                let nv = if str_eq(cur.as_str(), "开") {
                    owned("关")
                } else {
                    owned("开")
                };
                set_focused_value(&mut f, nv);
                FormOutcome::Stay(f)
            },
            FieldKind::TestNotify => FormOutcome::TestNotify(f),
            _ => {
                let v = focused_value(&f);
                f.mode = FormMode::Editing { original: v };
                FormOutcome::Stay(f)
            },
        },
        _ => FormOutcome::Stay(f),
    }
}

/// The key is one that moves the focus or types into a movie id.
pub open spec fn k_up_down_i(f: FormV, k: crate::tui::Key) -> bool {
    k.code == crate::tui::KeyCode::Up || is_char(k, 'k') || k.code == crate::tui::KeyCode::Down
        || is_char(k, 'j') || (is_char(k, 'i') && f.fields[f.focus as int].kind == FieldKind::MovieId)
}

/// The values of the fields, in order.
pub open spec fn field_values(fields: Seq<FieldV>) -> Seq<Seq<char>> {
    fields.map_values(|x: FieldV| x.value)
}

/// The outcome of submitting the form `f` on `old`.
pub open spec fn submitted(old: Json, new: Json, f: FormV, r: FormOutcome) -> bool {
    let v = field_values(f.fields);
    match f.kind {
        FormKindV::AddWatch => exists|res: Result<String, String>|
            #![trigger add_submitted(old, new, v, res)]
            add_submitted(old, new, v, res) && match res {
                Ok(m) => r matches FormOutcome::Saved { status, event } && status@ == m@ && event is None,
                Err(e) => r matches FormOutcome::Stay(f2) && f2@ == with_error(f, e@),
            },
        FormKindV::EditWatch(wid) => exists|res: Result<EditSaved, String>|
            #![trigger edit_submitted(old, new, wid, v, res)]
            edit_submitted(old, new, wid, v, res) && match res {
                Ok(saved) => r matches FormOutcome::Saved { status, event } && status@
                    == saved.message@ && (if saved.locks_released > 0 {
                    event matches Some(ev) && ev@ == "🔓 "@ + wid + " 匹配范围变化，释放 "@ + dec_text(
                        saved.locks_released as nat,
                    ) + " 个影院锁票状态"@
                } else {
                    event is None
                }),
                Err(e) => r matches FormOutcome::Stay(f2) && f2@ == with_error(f, e@),
            },
        FormKindV::GlobalSettings => match global_form_s(v) {
            Err(m) => r matches FormOutcome::Stay(f2) && f2@ == with_error(f, m) && new == old,
            Ok(x) => r matches FormOutcome::Saved { status, event } && status@ == "全局设置已保存"@
                && event is None && global_written(old, new, x),
        },
    }
}

fn submit_form(cfg: &mut Json, form: FormModal) -> (r: FormOutcome)
    requires
        form_ok(form@),
        (*old(cfg)) is Obj || (*old(cfg)) is Null,
    ensures
        submitted(*old(cfg), *final(cfg), form@, r),
{
    let ghost fv = form@;
    let mut f = form;
    assert(f@ == fv);
    proof {
        assert(form_values(f) =~= field_values(fv.fields));
    }
    let wid: Option<String> = match &f.kind {
        FormKind::EditWatch { wid } => Some(wid.clone()),
        _ => None,
    };
    match f.kind {
        FormKind::AddWatch => {
            let res = submit_add_watch(cfg, &f);
            let ghost gres = res;
            assert(add_submitted(*old(cfg), *cfg, field_values(fv.fields), gres));
            let out = match res {
                Ok(m) => FormOutcome::Saved { status: m, event: None },
                Err(e) => {
                    f.error = Some(e);
                    FormOutcome::Stay(f)
                },
            };
            assert(submitted(*old(cfg), *cfg, fv, out));
            out
        },
        FormKind::EditWatch { .. } => {
            let id = match wid {
                Some(w) => w,
                None => String::new(),
            };
            assert(fv.kind == FormKindV::EditWatch(id@));
            let res = submit_edit_watch(cfg, id.as_str(), &f);
            let ghost gres = res;
            assert(edit_submitted(*old(cfg), *cfg, id@, field_values(fv.fields), gres));
            let out = match res {
                Ok(saved) => {
                    let event = if saved.locks_released > 0 {
                        Some(crate::config::lock_release_event(id.as_str(), saved.locks_released))
                    } else {
                        None
                    };
                    FormOutcome::Saved { status: saved.message, event }
                },
                Err(e) => {
                    f.error = Some(e);
                    FormOutcome::Stay(f)
                },
            };
            assert(edit_submitted(*old(cfg), *cfg, fv.kind->0, field_values(fv.fields), gres));
            assert(submitted(*old(cfg), *cfg, fv, out));
            out
        },
        FormKind::GlobalSettings => {
            let res = submit_global(cfg, &f);
            let out = match res {
                Ok(m) => FormOutcome::Saved { status: m, event: None },
                Err(e) => {
                    f.error = Some(e);
                    FormOutcome::Stay(f)
                },
            };
            assert(submitted(*old(cfg), *cfg, fv, out));
            out
        },
    }
}

// ----------------------------------------------------------------------
// The movie search
// ----------------------------------------------------------------------

pub enum SearchV {
    Loading,
    Ready(Seq<(Seq<char>, Seq<char>)>),
    Error(Seq<char>),
}

pub open spec fn pairs_view(v: Seq<(String, String)>) -> Seq<(Seq<char>, Seq<char>)> {
    v.map_values(|p: (String, String)| (p.0@, p.1@))
}

pub open spec fn search_view(s: SearchState) -> SearchV {
    match s {
        SearchState::Loading(_) => SearchV::Loading,
        SearchState::Ready(l) => SearchV::Ready(pairs_view(l@)),
        SearchState::Error(e) => SearchV::Error(e@),
    }
}

/// The movie search by its text.
pub struct MovieV {
    pub show_type: u8,
    pub selected: usize,
    pub state: SearchV,
    pub parent: FormV,
}

impl View for MovieSearchModal {
    type V = MovieV;

    open spec fn view(&self) -> MovieV {
        MovieV {
            show_type: self.show_type,
            selected: self.selected,
            state: search_view(self.state),
            parent: self.parent@,
        }
    }
}

/// What a key on the movie search leads to.
pub enum MovieOutcome {
    Stay(MovieSearchModal),
    /// Fetch the films list of `show_type` for this search; it shows it once
    /// it arrives (its state is then loading).
    Search(MovieSearchModal),
    /// Back to the form.
    Back(FormModal),
}

pub enum MovieStep {
    Stay(MovieV),
    Search(MovieV),
    Back(FormV),
}

/// `f` with its first field of kind `k` set to `v`, when it has one.
pub open spec fn set_kind_value(f: FormV, k: FieldKind, v: Seq<char>) -> FormV {
    match first_of_kind(f.fields, k) {
        Some(i) => FormV { fields: f.fields.update(i, FieldV { value: v, ..f.fields[i] }), ..f },
        None => f,
    }
}

pub open spec fn with_selected(m: MovieV, i: usize) -> MovieV {
    MovieV { selected: i, ..m }
}

/// What a key does on the movie search. Left/right (or `h`/`l`) switch
/// between now showing (1) and coming soon (2) and fetch again; up/down
/// (or `k`/`j`) move in the list; `r` fetches again after an error; Enter
/// puts the chosen film's id and name into the form; Esc goes back.
pub open spec fn movie_key_s(m: MovieV, k: crate::tui::Key) -> MovieStep {
    if k.code == crate::tui::KeyCode::Esc {
        MovieStep::Back(m.parent)
    } else if k.code == crate::tui::KeyCode::Left || is_char(k, 'h') {
        if m.show_type != 1 {
            MovieStep::Search(MovieV { show_type: 1, selected: 0, ..m })
        } else {
            MovieStep::Stay(m)
        }
    } else if k.code == crate::tui::KeyCode::Right || is_char(k, 'l') {
        if m.show_type != 2 {
            MovieStep::Search(MovieV { show_type: 2, selected: 0, ..m })
        } else {
            MovieStep::Stay(m)
        }
    } else if k.code == crate::tui::KeyCode::Up || is_char(k, 'k') {
        MovieStep::Stay(with_selected(m, if m.selected > 0 { (m.selected - 1) as usize } else { 0 }))
    } else if k.code == crate::tui::KeyCode::Down || is_char(k, 'j') {
        match m.state {
            SearchV::Ready(l) => if l.len() > 0 {
                MovieStep::Stay(
                    with_selected(
                        m,
                        if m.selected + 1 < l.len() { (m.selected + 1) as usize } else { (l.len() - 1) as usize },
                    ),
                )
            } else {
                MovieStep::Stay(m)
            },
            _ => MovieStep::Stay(m),
        }
    } else if is_char(k, 'r') {
        if m.state is Error {
            MovieStep::Search(m)
        } else {
            MovieStep::Stay(m)
        }
    } else if k.code == crate::tui::KeyCode::Enter {
        match m.state {
            SearchV::Ready(l) => if m.selected < l.len() {
                MovieStep::Back(
                    set_kind_value(
                        set_kind_value(m.parent, FieldKind::MovieId, l[m.selected as int].0),
                        FieldKind::Text,
                        l[m.selected as int].1,
                    ),
                )
            } else {
                MovieStep::Stay(m)
            },
            _ => MovieStep::Stay(m),
        }
    } else {
        MovieStep::Stay(m)
    }
}

pub open spec fn movie_outcome_is(r: MovieOutcome, s: MovieStep) -> bool {
    match s {
        MovieStep::Stay(v) => r matches MovieOutcome::Stay(m) && m@ == v,
        MovieStep::Search(v) => r matches MovieOutcome::Search(m) && m@ == v,
        MovieStep::Back(v) => r matches MovieOutcome::Back(f) && f@ == v,
    }
}

/// The movie search over `parent`, showing the films now showing; the
/// program fetches that list for it.
pub fn open_movie_search(parent: FormModal, loading: std::sync::mpsc::Receiver<Result<Vec<(String, String)>, String>>) -> (r: MovieSearchModal)
    ensures
        r@ == (MovieV { show_type: 1, selected: 0, state: SearchV::Loading, parent: parent@ }),
{
    MovieSearchModal {
        show_type: 1,
        selected: 0,
        state: SearchState::Loading(loading),
        parent: Box::new(parent),
    }
}

fn set_field_of_kind(f: &mut FormModal, k: FieldKind, v: String)
    ensures
        final(f)@ == set_kind_value(old(f)@, k, v@),
{
    match first_field_of_kind(&f.fields, k) {
        Some(i) => {
            let old_field = f.fields.remove(i);
            let nf = FormField { label: old_field.label, value: v, kind: old_field.kind, required: old_field.required };
            f.fields.insert(i, nf);
            proof {
                assert(fields_view(f.fields@) =~= fields_view(old(f).fields@).update(
                    i as int,
                    FieldV { value: v@, ..fields_view(old(f).fields@)[i as int] },
                ));
            }
        },
        None => {},
    }
}

fn ready_len(s: &SearchState) -> (r: Option<usize>)
    ensures
        match search_view(*s) {
            SearchV::Ready(l) => r matches Some(n) && n == l.len(),
            _ => r is None,
        },
{
    match s {
        SearchState::Ready(l) => Some(l.len()),
        _ => None,
    }
}

/// Handles a key on the movie search.
pub fn movie_key(m: MovieSearchModal, key: crate::tui::Key) -> (r: MovieOutcome)
    ensures
        movie_outcome_is(r, movie_key_s(m@, key)),
{
    let mut m = m;
    match key.code {
        crate::tui::KeyCode::Esc => {
            return MovieOutcome::Back(*m.parent);
        },
        crate::tui::KeyCode::Left | crate::tui::KeyCode::Char('h') => {
            if m.show_type != 1 {
                m.show_type = 1;
                m.selected = 0;
                return MovieOutcome::Search(m);
            }
        },
        crate::tui::KeyCode::Right | crate::tui::KeyCode::Char('l') => {
            if m.show_type != 2 {
                m.show_type = 2;
                m.selected = 0;
                return MovieOutcome::Search(m);
            }
        },
        crate::tui::KeyCode::Up | crate::tui::KeyCode::Char('k') => {
            m.selected = if m.selected > 0 {
                m.selected - 1
            } else {
                0
            };
        },
        crate::tui::KeyCode::Down | crate::tui::KeyCode::Char('j') => {
            match ready_len(&m.state) {
                Some(n) => {
                    if n > 0 {
                        m.selected = if m.selected < n - 1 {
                            m.selected + 1
                        } else {
                            n - 1
                        };
                    }
                },
                None => {},
            }
        },
        crate::tui::KeyCode::Char('r') => {
            let is_err = match &m.state {
                SearchState::Error(_) => true,
                _ => false,
            };
            if is_err {
                return MovieOutcome::Search(m);
            }
        },
        crate::tui::KeyCode::Enter => {
            let picked: Option<(String, String)> = match &m.state {
                SearchState::Ready(l) => if m.selected < l.len() {
                    let p = &l[m.selected];
                    Some((p.0.clone(), p.1.clone()))
                } else {
                    None
                },
                _ => None,
            };
            match picked {
                Some((id, name)) => {
                    let mut parent = *m.parent;
                    set_field_of_kind(&mut parent, FieldKind::MovieId, id);
                    set_field_of_kind(&mut parent, FieldKind::Text, name);
                    return MovieOutcome::Back(parent);
                },
                None => {},
            }
        },
        _ => {},
    }
    MovieOutcome::Stay(m)
}

/// What a non-blocking receive gave.
pub enum Polled<T> {
    Got(T),
    /// Nothing yet.
    Empty,
    /// The sender is gone.
    Gone,
}

/// `Receiver::try_recv`: a value that has arrived, nothing yet, or the
/// sender gone. Which one depends on the worker thread's timing, so nothing
/// is claimed of the result.
#[verifier::external_body]
fn poll_receiver<T>(rx: &std::sync::mpsc::Receiver<T>) -> (r: Polled<T>) {
    match rx.try_recv() {
        Ok(v) => Polled::Got(v),
        Err(std::sync::mpsc::TryRecvError::Empty) => Polled::Empty,
        Err(std::sync::mpsc::TryRecvError::Disconnected) => Polled::Gone,
    }
}

/// The search state after a receive on its channel gave `p`.
pub fn search_after_poll(
    rx: std::sync::mpsc::Receiver<Result<Vec<(String, String)>, String>>,
    p: Polled<Result<Vec<(String, String)>, String>>,
) -> (r: SearchState)
    ensures
        match p {
            Polled::Got(Ok(l)) => search_view(r) == SearchV::Ready(pairs_view(l@)),
            Polled::Got(Err(e)) => search_view(r) == SearchV::Error(e@),
            Polled::Empty => r is Loading,
            Polled::Gone => search_view(r) == SearchV::Error("请求线程中断"@),
        },
{
    match p {
        Polled::Got(Ok(l)) => SearchState::Ready(l),
        Polled::Got(Err(e)) => SearchState::Error(e),
        Polled::Empty => SearchState::Loading(rx),
        Polled::Gone => SearchState::Error(owned("请求线程中断")),
    }
}

/// Moves a loading search on when its reply has come (or its worker is
/// gone); any other state stays.
pub fn pump_search(state: SearchState) -> (r: SearchState)
    ensures
        !(state is Loading) ==> search_view(r) == search_view(state),
{
    match state {
        SearchState::Loading(rx) => {
            let p = poll_receiver(&rx);
            search_after_poll(rx, p)
        },
        other => other,
    }
}

// ----------------------------------------------------------------------
// The cinema picker
// ----------------------------------------------------------------------

pub enum CinemaStateV {
    Ready,
    Loading,
    Error(Seq<char>),
}

pub open spec fn cinema_state_view(s: CinemaState) -> CinemaStateV {
    match s {
        CinemaState::Ready => CinemaStateV::Ready,
        CinemaState::Loading(_) => CinemaStateV::Loading,
        CinemaState::Error(e) => CinemaStateV::Error(e@),
    }
}

/// The cinema picker by its text.
pub struct PickerV {
    pub selected: usize,
    pub cinemas: Seq<ChoiceV>,
    pub add_input: Seq<char>,
    pub mode: CinemaMode,
    pub state: CinemaStateV,
    pub parent: FormV,
}

impl View for CinemaPickerModal {
    type V = PickerV;

    open spec fn view(&self) -> PickerV {
        PickerV {
            selected: self.selected,
            cinemas: choices_view(self.cinemas@),
            add_input: self.add_input@,
            mode: self.mode,
            state: cinema_state_view(self.state),
            parent: self.parent@,
        }
    }
}

/// What a key on the cinema picker, or a lookup's reply, leads to.
pub enum CinemaOutcome {
    Stay(CinemaPickerModal),
    /// Look the id up for this picker; the reply comes to it (its state is
    /// then loading).
    Lookup(CinemaPickerModal, String),
    /// The saved cinemas changed: save the configuration. When that fails,
    /// the picker shows the error.
    Changed(CinemaPickerModal),
    /// Back to the form.
    Back(FormModal),
}

pub enum PickerStep {
    Stay(PickerV),
    Lookup(PickerV, Seq<char>),
    Back(FormV),
}

/// The ids of the ticked lines, in order.
pub open spec fn ticked_ids(cs: Seq<ChoiceV>) -> Seq<Seq<char>>
    decreases cs.len(),
{
    if cs.len() == 0 {
        Seq::empty()
    } else if cs.last().selected {
        ticked_ids(cs.drop_last()).push(cs.last().id)
    } else {
        ticked_ids(cs.drop_last())
    }
}

pub open spec fn picker_with(c: PickerV, sel: usize) -> PickerV {
    PickerV { selected: sel, ..c }
}

pub open spec fn toggled(c: PickerV) -> PickerV {
    PickerV {
        cinemas: c.cinemas.update(
            c.selected as int,
            ChoiceV { selected: !c.cinemas[c.selected as int].selected, ..c.cinemas[c.selected as int] },
        ),
        ..c
    }
}

/// The key asks to delete the selected line.
pub open spec fn is_delete(k: crate::tui::Key) -> bool {
    is_char(k, 'd') || k.code == crate::tui::KeyCode::Delete
}

/// What a key does on the picker, apart from deleting a saved cinema (which
/// changes the configuration). Typing an id: Esc goes back to the list,
/// Enter looks the trimmed id up, Backspace and characters edit it. On the
/// list: Esc goes back, Tab starts typing an id, up/down (or `k`/`j`) move,
/// space ticks, Enter writes the ticked ids into the form's cinema field.
pub open spec fn cinema_key_s(c: PickerV, k: crate::tui::Key) -> PickerStep {
    if c.mode == CinemaMode::AddInput {
        if k.code == crate::tui::KeyCode::Esc {
            PickerStep::Stay(PickerV { mode: CinemaMode::List, state: CinemaStateV::Ready, ..c })
        } else if k.code == crate::tui::KeyCode::Enter {
            if trim_s(c.add_input).len() > 0 {
                PickerStep::Lookup(c, trim_s(c.add_input))
            } else {
                PickerStep::Stay(c)
            }
        } else if k.code == crate::tui::KeyCode::Backspace {
            PickerStep::Stay(
                PickerV {
                    add_input: if c.add_input.len() > 0 {
                        c.add_input.drop_last()
                    } else {
                        c.add_input
                    },
                    ..c
                },
            )
        } else {
            match k.code {
                crate::tui::KeyCode::Char(ch) => if !k.ctrl {
                    PickerStep::Stay(PickerV { add_input: c.add_input.push(ch), ..c })
                } else {
                    PickerStep::Stay(c)
                },
                _ => PickerStep::Stay(c),
            }
        }
    } else if k.code == crate::tui::KeyCode::Esc {
        PickerStep::Back(c.parent)
    } else if k.code == crate::tui::KeyCode::Tab {
        PickerStep::Stay(PickerV { mode: CinemaMode::AddInput, ..c })
    } else if k.code == crate::tui::KeyCode::Up || is_char(k, 'k') {
        PickerStep::Stay(picker_with(c, if c.selected > 0 { (c.selected - 1) as usize } else { 0 }))
    } else if k.code == crate::tui::KeyCode::Down || is_char(k, 'j') {
        if c.cinemas.len() > 0 {
            PickerStep::Stay(
                picker_with(
                    c,
                    if c.selected + 1 < c.cinemas.len() {
                        (c.selected + 1) as usize
                    } else {
                        (c.cinemas.len() - 1) as usize
                    },
                ),
            )
        } else {
            PickerStep::Stay(c)
        }
    } else if is_char(k, ' ') {
        if c.selected < c.cinemas.len() {
            PickerStep::Stay(toggled(c))
        } else {
            PickerStep::Stay(c)
        }
    } else if is_delete(k) {
        if c.selected < c.cinemas.len() && c.cinemas[c.selected as int].builtin {
            PickerStep::Stay(PickerV { state: CinemaStateV::Error("内置影院不能删除"@), ..c })
        } else {
            PickerStep::Stay(c)
        }
    } else if k.code == crate::tui::KeyCode::Enter {
        PickerStep::Back(set_kind_value(c.parent, FieldKind::CinemaList, joined(ticked_ids(c.cinemas), " "@)))
    } else {
        PickerStep::Stay(c)
    }
}

/// The picker after deleting its selected line from the saved cinemas, which
/// found (`r`) or did not find it.
pub open spec fn picker_after_delete(c: PickerV, r: bool) -> PickerV {
    if r {
        let rest = c.cinemas.remove(c.selected as int);
        PickerV {
            cinemas: rest,
            selected: if c.selected < rest.len() {
                c.selected
            } else if rest.len() > 0 {
                (rest.len() - 1) as usize
            } else {
                0
            },
            state: CinemaStateV::Ready,
            ..c
        }
    } else {
        PickerV { state: CinemaStateV::Error("影院收藏不存在"@), ..c }
    }
}

pub open spec fn picker_outcome_is(r: CinemaOutcome, s: PickerStep) -> bool {
    match s {
        PickerStep::Stay(v) => r matches CinemaOutcome::Stay(c) && c@ == v,
        PickerStep::Lookup(v, id) => r matches CinemaOutcome::Lookup(c, i) && c@ == v && i@ == id,
        PickerStep::Back(v) => r matches CinemaOutcome::Back(f) && f@ == v,
    }
}

/// The key deletes a saved (not built-in) cinema on the list.
pub open spec fn deletes_saved(c: PickerV, k: crate::tui::Key) -> bool {
    c.mode == CinemaMode::List && is_delete(k) && c.selected < c.cinemas.len()
        && !c.cinemas[c.selected as int].builtin
}

fn ticked_ids_exec(cs: &Vec<CinemaChoice>) -> (r: Vec<String>)
    ensures
        views_of(r@) == ticked_ids(choices_view(cs@)),
{
    let mut out: Vec<String> = Vec::new();
    let mut i: usize = 0;
    while i < cs.len()
        invariant
            i <= cs@.len(),
            views_of(out@) == ticked_ids(choices_view(cs@).take(i as int)),
        decreases cs.len() - i,
    {
        let ghost t = choices_view(cs@).take(i + 1);
        assert(t.drop_last() =~= choices_view(cs@).take(i as int));
        assert(t.last() == cs@[i as int]@);
        if cs[i].selected {
            out.push(cs[i].id.clone());
            assert(views_of(out@) =~= ticked_ids(choices_view(cs@).take(i as int)).push(cs@[i as int].id@));
        }
        i = i + 1;
    }
    assert(choices_view(cs@).take(cs@.len() as int) =~= choices_view(cs@));
    out
}

/// Handles a key on the cinema picker. Deleting a saved cinema removes it
/// from `cfg` (the program saves); every other key leaves `cfg` as it was.
pub fn cinema_key(cfg: &mut Json, c: CinemaPickerModal, key: crate::tui::Key) -> (r: CinemaOutcome)
    ensures
        if deletes_saved(c@, key) {
            exists|found: bool|
                #![trigger items_removed(*old(cfg), *final(cfg), "cinemas"@, c@.cinemas[c@.selected as int].id, found)]
                items_removed(*old(cfg), *final(cfg), "cinemas"@, c@.cinemas[c@.selected as int].id, found)
                && if found {
                    r matches CinemaOutcome::Changed(c2) && c2@ == picker_after_delete(c@, true)
                } else {
                    r matches CinemaOutcome::Stay(c2) && c2@ == picker_after_delete(c@, false)
                }
        } else {
            *final(cfg) == *old(cfg) && picker_outcome_is(r, cinema_key_s(c@, key))
        },
{
    let mut c = c;
    if c.mode == CinemaMode::AddInput {
        match key.code {
            crate::tui::KeyCode::Esc => {
                c.mode = CinemaMode::List;
                c.state = CinemaState::Ready;
            },
            crate::tui::KeyCode::Enter => {
                let id = trim(c.add_input.as_str());
                if id.as_str().unicode_len() > 0 {
                    return CinemaOutcome::Lookup(c, id);
                }
            },
            crate::tui::KeyCode::Backspace => {
                crate::text::pop_last(&mut c.add_input);
            },
            crate::tui::KeyCode::Char(ch) => {
                if !key.ctrl {
                    crate::text::push_char(&mut c.add_input, ch);
                }
            },
            _ => {},
        }
        return CinemaOutcome::Stay(c);
    }
    let n = c.cinemas.len();
    match key.code {
        crate::tui::KeyCode::Esc => {
            return CinemaOutcome::Back(*c.parent);
        },
        crate::tui::KeyCode::Tab => {
            c.mode = CinemaMode::AddInput;
        },
        crate::tui::KeyCode::Up | crate::tui::KeyCode::Char('k') => {
            c.selected = if c.selected > 0 {
                c.selected - 1
            } else {
                0
            };
        },
        crate::tui::KeyCode::Down | crate::tui::KeyCode::Char('j') => {
            if n > 0 {
                c.selected = if c.selected < n - 1 {
                    c.selected + 1
                } else {
                    n - 1
                };
            }
        },
        crate::tui::KeyCode::Char(' ') => {
            if c.selected < n {
                let ghost before = c@;
                let i = c.selected;
                let old_choice = c.cinemas.remove(i);
                let nc = CinemaChoice {
                    id: old_choice.id,
                    name: old_choice.name,
                    builtin: old_choice.builtin,
                    selected: !old_choice.selected,
                };
                c.cinemas.insert(i, nc);
                proof {
                    assert(choices_view(c.cinemas@) =~= toggled(before).cinemas);
                }
            }
        },
        crate::tui::KeyCode::Char('d') | crate::tui::KeyCode::Delete => {
            if c.selected < n {
                if c.cinemas[c.selected].builtin {
                    c.state = CinemaState::Error(owned("内置影院不能删除"));
                } else {
                    let id = c.cinemas[c.selected].id.clone();
                    let found = crate::config::remove_cinema(cfg, id.as_str());
                    if found {
                        let ghost before = c@;
                        c.cinemas.remove(c.selected);
                        let m = c.cinemas.len();
                        c.selected = if c.selected < m {
                            c.selected
                        } else if m > 0 {
                            m - 1
                        } else {
                            0
                        };
                        c.state = CinemaState::Ready;
                        assert(choices_view(c.cinemas@) =~= before.cinemas.remove(before.selected as int));
                        return CinemaOutcome::Changed(c);
                    } else {
                        c.state = CinemaState::Error(owned("影院收藏不存在"));
                    }
                }
            }
        },
        crate::tui::KeyCode::Enter => {
            let ids = ticked_ids_exec(&c.cinemas);
            let value = join_strings(ids.as_slice(), " ");
            let mut parent = *c.parent;
            set_field_of_kind(&mut parent, FieldKind::CinemaList, value);
            return CinemaOutcome::Back(parent);
        },
        _ => {},
    }
    CinemaOutcome::Stay(c)
}

/// Index of the first line whose id is `id`.
pub open spec fn choice_index(cs: Seq<ChoiceV>, id: Seq<char>) -> Option<int>
    decreases cs.len(),
{
    if cs.len() == 0 {
        None
    } else {
        match choice_index(cs.drop_last(), id) {
            Some(i) => Some(i),
            None => if cs.last().id == id {
                Some(cs.len() - 1)
            } else {
                None
            },
        }
    }
}

/// The picker once a lookup found the cinema `id` named `name`: its line
/// ticked (and renamed when a name came), or a new ticked line at the end;
/// the typed id cleared and the list shown again.
pub open spec fn picker_after_found(c: PickerV, id: Seq<char>, name: Seq<char>) -> PickerV {
    let cs = match choice_index(c.cinemas, id) {
        Some(i) => c.cinemas.update(
            i,
            ChoiceV {
                selected: true,
                name: if name.len() > 0 {
                    name
                } else {
                    c.cinemas[i].name
                },
                ..c.cinemas[i]
            },
        ),
        None => c.cinemas.push(ChoiceV { id, name, builtin: false, selected: true }),
    };
    PickerV {
        cinemas: cs,
        add_input: Seq::empty(),
        mode: CinemaMode::List,
        state: CinemaStateV::Ready,
        ..c
    }
}

pub open spec fn picker_error(c: PickerV, e: Seq<char>) -> PickerV {
    PickerV { state: CinemaStateV::Error(e), ..c }
}

fn choice_position(cs: &Vec<CinemaChoice>, id: &str) -> (r: Option<usize>)
    ensures
        match r {
            Some(i) => i < cs@.len() && choice_index(choices_view(cs@), id@) == Some(i as int),
            None => choice_index(choices_view(cs@), id@) is None,
        },
{
    let mut i: usize = 0;
    while i < cs.len()
        invariant
            i <= cs@.len(),
            choice_index(choices_view(cs@).take(i as int), id@) is None,
        decreases cs.len() - i,
    {
        proof {
            let t = choices_view(cs@).take(i + 1);
            assert(t.drop_last() =~= choices_view(cs@).take(i as int));
        }
        if str_eq(cs[i].id.as_str(), id) {
            proof {
                lemma_choice_index_prefix(choices_view(cs@), id@, i as int + 1);
            }
            return Some(i);
        }
        i = i + 1;
    }
    assert(choices_view(cs@).take(cs@.len() as int) =~= choices_view(cs@));
    None
}

proof fn lemma_choice_index_prefix(s: Seq<ChoiceV>, id: Seq<char>, n: int)
    requires
        0 <= n <= s.len(),
        choice_index(s.take(n), id) is Some,
    ensures
        choice_index(s, id) == choice_index(s.take(n), id),
    decreases s.len() - n,
{
    if n < s.len() {
        let t = s.take(n + 1);
        assert(t.drop_last() =~= s.take(n));
        lemma_choice_index_prefix(s, id, n + 1);
    } else {
        assert(s.take(n) =~= s);
    }
}

/// What a lookup's reply `res` (the id and name found, or the error) does
/// to picker `c` and the configuration `old` (giving `new`): an error is
/// shown; a found cinema is saved among the cinemas (see
/// [`crate::config::cinema_added`]) and ticked in the picker, and the
/// configuration must be written when it was new.
pub open spec fn lookup_done(
    old: Json,
    new: Json,
    c: PickerV,
    res: Result<(Seq<char>, Seq<char>), Seq<char>>,
    r: CinemaOutcome,
) -> bool {
    match res {
        Err(e) => new == old && (r matches CinemaOutcome::Stay(c2) && c2@ == picker_error(c, e)),
        Ok((id, name)) => exists|added: Result<bool, crate::config::ConfigError>|
            #![trigger crate::config::cinema_added(old, new, id, Some(name), added)]
            crate::config::cinema_added(old, new, id, Some(name), added) && match added {
                Err(ce) => r matches CinemaOutcome::Stay(c2) && c2@ == picker_error(
                    c,
                    crate::config::config_error_text(ce),
                ),
                Ok(true) => r matches CinemaOutcome::Changed(c2) && c2@ == picker_after_found(c, id, name),
                Ok(false) => r matches CinemaOutcome::Stay(c2) && c2@ == picker_after_found(c, id, name),
            },
    }
}

/// The picker after the lookup it waited for answered `res`. A found cinema
/// is saved (added to `cfg` unless known) and ticked; an error is shown.
pub fn cinema_lookup_done(cfg: &mut Json, c: CinemaPickerModal, res: Result<(String, String), String>) -> (r:
    CinemaOutcome)
    requires
        *old(cfg) is Obj || *old(cfg) is Null,
    ensures
        lookup_done(
            *old(cfg),
            *final(cfg),
            c@,
            match res {
                Ok((id, name)) => Ok((id@, name@)),
                Err(e) => Err(e@),
            },
            r,
        ),
{
    let mut c = c;
    match res {
        Err(e) => {
            c.state = CinemaState::Error(e);
            CinemaOutcome::Stay(c)
        },
        Ok((id, name)) => {
            let added = crate::config::add_cinema(cfg, id.as_str(), Some(name.as_str()));
            let ghost gadded = added;
            assert(crate::config::cinema_added(*old(cfg), *cfg, id@, Some(name@), gadded));
            match added {
                Err(ce) => {
                    c.state = CinemaState::Error(ce.message());
                    CinemaOutcome::Stay(c)
                },
                Ok(was_added) => {
                    let ghost before = c@;
                    match choice_position(&c.cinemas, id.as_str()) {
                        Some(i) => {
                            let old_choice = c.cinemas.remove(i);
                            let nm = if name.as_str().unicode_len() > 0 {
                                name
                            } else {
                                old_choice.name
                            };
                            let nc = CinemaChoice { id: old_choice.id, name: nm, builtin: old_choice.builtin, selected: true };
                            c.cinemas.insert(i, nc);
                        },
                        None => {
                            c.cinemas.push(CinemaChoice { id, name, builtin: false, selected: true });
                        },
                    }
                    c.add_input = String::new();
                    c.mode = CinemaMode::List;
                    c.state = CinemaState::Ready;
                    assert(c@.cinemas =~= picker_after_found(before, id@, name@).cinemas);
                    if was_added {
                        CinemaOutcome::Changed(c)
                    } else {
                        CinemaOutcome::Stay(c)
                    }
                },
            }
        },
    }
}

/// Moves a picker that waits for a lookup on when the reply has come (or
/// the worker is gone); a picker that waits for nothing stays as it is.
pub fn pump_cinema(cfg: &mut Json, c: CinemaPickerModal) -> (r: CinemaOutcome)
    requires
        *old(cfg) is Obj || *old(cfg) is Null,
    ensures
        !(c.state is Loading) ==> *final(cfg) == *old(cfg) && (r matches CinemaOutcome::Stay(c2) && c2@ == c@),
        c.state is Loading ==> {
            let waiting = PickerV { state: CinemaStateV::Ready, ..c@ };
            ||| *final(cfg) == *old(cfg) && (r matches CinemaOutcome::Stay(c2) && c2@ == c@)
            ||| *final(cfg) == *old(cfg) && (r matches CinemaOutcome::Stay(c2) && c2@ == picker_error(
                waiting,
                "请求线程中断"@,
            ))
            ||| exists|res: Result<(Seq<char>, Seq<char>), Seq<char>>| #[trigger]
                lookup_done(*old(cfg), *final(cfg), waiting, res, r)
        },
{
    let mut c = c;
    let mut state = CinemaState::Ready;
    std::mem::swap(&mut state, &mut c.state);
    match state {
        CinemaState::Loading(rx) => match poll_receiver(&rx) {
            Polled::Got(res) => cinema_lookup_done(cfg, c, res),
            Polled::Empty => {
                c.state = CinemaState::Loading(rx);
                CinemaOutcome::Stay(c)
            },
            Polled::Gone => {
                c.state = CinemaState::Error(owned("请求线程中断"));
                CinemaOutcome::Stay(c)
            },
        },
        other => {
            c.state = other;
            CinemaOutcome::Stay(c)
        },
    }
}

} // verus!
