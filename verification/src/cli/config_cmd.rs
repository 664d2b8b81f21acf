//! `tt config show | get | set | unset | path`, with short names for the
//! common keys.

use vstd::prelude::*;

use crate::cli::{line_reply, outs_view, text_reply, Out, OutV, Reply};
use crate::json::{field, same_json, Json};
use crate::text::{
    append_str, ascii_lower, dec_text, eq_ignore_ascii_case, owned, parse_i64, parse_i64_s,
    signed_text, str_eq,
};

verus! {

/// The `config` subcommands.
pub enum ConfigAction {
    Show,
    Get { key: String },
    /// `config set`.
    SetValue { key: String, value: String },
    Unset { key: String },
    Path,
}

pub open spec fn resolve_key_s(k: Seq<char>) -> Seq<char> {
    if k == "discord-webhook"@ || k == "webhook"@ {
        "discord_webhook"@
    } else if k == "quiet"@ {
        "quiet_window"@
    } else if k == "phone-only"@ {
        "phone_only_window"@
    } else if k == "interval"@ {
        "check_interval"@
    } else {
        k
    }
}

/// The configuration key a command-line name stands for.
pub fn resolve_key(k: &str) -> (r: String)
    ensures
        r@ == resolve_key_s(k@),
{
    if str_eq(k, "discord-webhook") || str_eq(k, "webhook") {
        owned("discord_webhook")
    } else if str_eq(k, "quiet") {
        owned("quiet_window")
    } else if str_eq(k, "phone-only") {
        owned("phone_only_window")
    } else if str_eq(k, "interval") {
        owned("check_interval")
    } else {
        owned(k)
    }
}

/// How `config get` prints a value: text as it is, numbers and booleans in
/// their usual form, `null`; lists and objects as one line of JSON.
pub open spec fn renders(v: Json, o: OutV) -> bool {
    match v {
        Json::Str(s) => o == OutV::Text(s@),
        Json::Int(n) => o == OutV::Text(signed_text(n as int)),
        Json::Frac(t) => o == OutV::Text(t@),
        Json::Bool(b) => o == OutV::Text(
            if b {
                "true"@
            } else {
                "false"@
            },
        ),
        Json::Null => o == OutV::Text("null"@),
        _ => o matches OutV::Compact(j) && same_json(v, j),
    }
}

fn render(v: &Json) -> (r: Out)
    ensures
        renders(*v, r@),
{
    match v {
        Json::Str(s) => Out::Text(s.clone()),
        Json::Int(n) => Out::Text(crate::text::i128_text(*n)),
        Json::Frac(t) => Out::Text(t.clone()),
        Json::Bool(b) => Out::Text(
            if *b {
                owned("true")
            } else {
                owned("false")
            },
        ),
        Json::Null => Out::Text(owned("null")),
        _ => Out::Compact(crate::json::clone_json(v)),
    }
}

/// The value `config set` stores for `v`: `null` for `null`, `none` or
/// nothing, a boolean for `true`/`false` (in any case), an integer when `v`
/// reads as an `i64`, else the text.
pub open spec fn is_scalar_of(j: Json, v: Seq<char>) -> bool {
    let l = ascii_lower(v);
    if l == "null"@ || l == "none"@ || l.len() == 0 {
        j == Json::Null
    } else if l == "true"@ {
        j == Json::Bool(true)
    } else if l == "false"@ {
        j == Json::Bool(false)
    } else {
        match parse_i64_s(v) {
            Some(n) => j == Json::Int(n as i128),
            None => j matches Json::Str(s) && s@ == v,
        }
    }
}

/// `config set` of a value that reads `false` in any case stores the
/// boolean `false`, and of one that reads `true` the boolean `true`; of
/// nothing, `null` or `none` it stores `null`; of any other value a number
/// when it reads as an `i64`, else the text. It stores under the key the
/// name stands for, and the other keys stay.
pub proof fn law_set_stores_scalar(old: Json, new: Json, a: ConfigAction, path: Seq<char>, res: Result<Reply, String>)
    requires
        a matches ConfigAction::SetValue { key, value },
        dispatched(old, new, a, path, res),
    ensures
        ascii_lower(a->SetValue_value@) == "false"@ ==> field(new, resolve_key_s(a->SetValue_key@)) == Some(
            Json::Bool(false),
        ),
        ascii_lower(a->SetValue_value@) == "true"@ ==> field(new, resolve_key_s(a->SetValue_key@)) == Some(
            Json::Bool(true),
        ),
        forall|k: Seq<char>| k != resolve_key_s(a->SetValue_key@) ==> field(new, k) == field(old, k),
        a->SetValue_value@.len() == 0 || ascii_lower(a->SetValue_value@) == "null"@ || ascii_lower(
            a->SetValue_value@,
        ) == "none"@ ==> field(new, resolve_key_s(a->SetValue_key@)) == Some(Json::Null),
        ({
            let v = a->SetValue_value@;
            let l = ascii_lower(v);
            v.len() > 0 && l != "null"@ && l != "none"@ && l != "true"@ && l != "false"@ ==> (
            field(new, resolve_key_s(a->SetValue_key@)) matches Some(j) && match parse_i64_s(v) {
                Some(n) => j == Json::Int(n as i128),
                None => j matches Json::Str(t) && t@ == v,
            })
        }),
{
    assert(ascii_lower(a->SetValue_value@).len() == a->SetValue_value@.len());
    reveal_strlit("null");
    reveal_strlit("none");
    reveal_strlit("true");
    reveal_strlit("false");
    assert("null"@.len() == 4 && "none"@.len() == 4 && "true"@.len() == 4 && "false"@.len() == 5);
    assert("null"@[0] == 'n' && "none"@[0] == 'n' && "true"@[0] == 't');
}

fn parse_scalar(v: &str) -> (r: Json)
    ensures
        is_scalar_of(r, v@),
{
    if eq_ignore_ascii_case(v, "null") || eq_ignore_ascii_case(v, "none") || v.unicode_len() == 0 {
        proof {
            reveal_strlit("null");
            reveal_strlit("none");
            assert(ascii_lower("null"@) =~= "null"@);
            assert(ascii_lower("none"@) =~= "none"@);
            assert(v@.len() == 0 ==> ascii_lower(v@).len() == 0);
        }
        Json::Null
    } else if eq_ignore_ascii_case(v, "true") {
        proof {
            reveal_strlit("true");
            assert(ascii_lower("true"@) =~= "true"@);
        }
        Json::Bool(true)
    } else if eq_ignore_ascii_case(v, "false") {
        proof {
            reveal_strlit("false");
            assert(ascii_lower("false"@) =~= "false"@);
        }
        Json::Bool(false)
    } else {
        proof {
            reveal_strlit("null");
            reveal_strlit("none");
            reveal_strlit("true");
            reveal_strlit("false");
            assert(ascii_lower("null"@) =~= "null"@);
            assert(ascii_lower("none"@) =~= "none"@);
            assert(ascii_lower("true"@) =~= "true"@);
            assert(ascii_lower("false"@) =~= "false"@);
            assert(ascii_lower(v@).len() == v@.len());
        }
        match parse_i64(v) {
            Some(n) => Json::Int(n as i128),
            None => Json::Str(owned(v)),
        }
    }
}

/// What `config` with `a` does to the configuration `old` (giving `new`)
/// and replies; `path` is where the configuration file is.
pub open spec fn dispatched(
    old: Json,
    new: Json,
    a: ConfigAction,
    path: Seq<char>,
    res: Result<Reply, String>,
) -> bool {
    match a {
        ConfigAction::Show => new == old && (res matches Ok(r) && !r.save && r.out@.len() == 1 && (
        r.out@[0]@ matches OutV::Pretty(j) && same_json(old, j))),
        ConfigAction::Path => new == old && (res matches Ok(r) && text_reply(r, seq![path], false)),
        ConfigAction::Get { key } => new == old && match field(old, resolve_key_s(key@)) {
            Some(v) => res matches Ok(r) && !r.save && r.out@.len() == 1 && renders(v, r.out@[0]@),
            None => res matches Err(m) && m@ == "未配置: "@ + resolve_key_s(key@),
        },
        ConfigAction::SetValue { key, value } => {
            let k = resolve_key_s(key@);
            &&& new is Obj
            &&& field(new, k) matches Some(j) && is_scalar_of(j, value@)
            &&& forall|k2: Seq<char>| k2 != k ==> field(new, k2) == field(old, k2)
            &&& res matches Ok(r) && text_reply(r, seq!["✓ "@ + k + " = "@ + value@], true)
        },
        ConfigAction::Unset { key } => {
            let k = resolve_key_s(key@);
            &&& field(new, k) is None
            &&& forall|k2: Seq<char>| k2 != k ==> field(new, k2) == field(old, k2)
            &&& res matches Ok(r) && text_reply(r, seq!["✓ 已删除: "@ + k], true)
        },
    }
}

/// Runs `config` with `a` on the configuration `cfg`; `config_path` is
/// where the configuration file is.
pub fn dispatch(cfg: &mut Json, a: ConfigAction, config_path: &str) -> (r: Result<Reply, String>)
    requires
        *old(cfg) is Obj,
    ensures
        dispatched(*old(cfg), *final(cfg), a, config_path@, r),
{
    match a {
        ConfigAction::Show => {
            let mut out: Vec<Out> = Vec::new();
            out.push(Out::Pretty(crate::json::clone_json(cfg)));
            Ok(Reply { out, save: false })
        },
        ConfigAction::Path => Ok(line_reply(owned(config_path), false)),
        ConfigAction::Get { key } => {
            let k = resolve_key(key.as_str());
            match crate::json::get(cfg, k.as_str()) {
                Some(v) => {
                    let o = render(v);
                    let mut out: Vec<Out> = Vec::new();
                    out.push(o);
                    Ok(Reply { out, save: false })
                },
                None => {
                    let mut m = owned("未配置: ");
                    append_str(&mut m, k.as_str());
                    Err(m)
                },
            }
        },
        ConfigAction::SetValue { key, value } => {
            let k = resolve_key(key.as_str());
            let v = parse_scalar(value.as_str());
            crate::json::set_field(cfg, k.as_str(), v);
            let mut m = owned("✓ ");
            append_str(&mut m, k.as_str());
            append_str(&mut m, " = ");
            append_str(&mut m, value.as_str());
            Ok(line_reply(m, true))
        },
        ConfigAction::Unset { key } => {
            let k = resolve_key(key.as_str());
            crate::json::remove_field(cfg, k.as_str());
            let mut m = owned("✓ 已删除: ");
            append_str(&mut m, k.as_str());
            Ok(line_reply(m, true))
        },
    }
}

/// `config get` after `config set` of the same key prints the value that
/// was stored for the text given; text that reads as no null, boolean or
/// integer is printed back as it was given.
pub proof fn law_set_then_get(
    c0: Json,
    c1: Json,
    c2: Json,
    set: ConfigAction,
    get: ConfigAction,
    path: Seq<char>,
    r1: Result<Reply, String>,
    r2: Result<Reply, String>,
)
    requires
        set matches ConfigAction::SetValue { key, value },
        get matches ConfigAction::Get { key: k2 } && k2@ == set->SetValue_key@,
        dispatched(c0, c1, set, path, r1),
        dispatched(c1, c2, get, path, r2),
    ensures
        c2 == c1,
        r2 matches Ok(r) && r.out@.len() == 1 && !r.save,
        exists|j: Json| #[trigger] is_scalar_of(j, set->SetValue_value@) && renders(j, r2->Ok_0.out@[0]@),
        is_scalar_of(Json::Str(set->SetValue_value), set->SetValue_value@) ==> r2->Ok_0.out@[0]@ == OutV::Text(set->SetValue_value@),
{
    let k = resolve_key_s(set->SetValue_key@);
    let j = field(c1, k)->0;
    assert(is_scalar_of(j, set->SetValue_value@));
    assert(renders(j, r2->Ok_0.out@[0]@));
    if is_scalar_of(Json::Str(set->SetValue_value), set->SetValue_value@) {
        assert(j matches Json::Str(s) && s@ == set->SetValue_value@);
    }
}

/// `config get` after `config unset` of the same key reports it unset.
pub proof fn law_unset_then_get(
    c0: Json,
    c1: Json,
    c2: Json,
    unset: ConfigAction,
    get: ConfigAction,
    path: Seq<char>,
    r1: Result<Reply, String>,
    r2: Result<Reply, String>,
)
    requires
        unset matches ConfigAction::Unset { key },
        get matches ConfigAction::Get { key: k2 } && k2@ == unset->Unset_key@,
        dispatched(c0, c1, unset, path, r1),
        dispatched(c1, c2, get, path, r2),
    ensures
        c2 == c1,
        r2 matches Err(m) && m@ == "未配置: "@ + resolve_key_s(unset->Unset_key@),
{
}

} // verus!
