//! Notices: what goes to a Discord webhook and to the desktop, when a send
//! is tried again, and the keep-awake helper's state. The program does the
//! sending, the processes and the waiting.

use vstd::prelude::*;

use crate::json::{field, Json};
use crate::text::{append_str, owned, starts_with_s};

verus! {

pub open spec fn discord_host() -> Seq<char> {
    "https://discord.com/api/webhooks/"@
}

/// Only Discord webhook addresses are sent to.
pub open spec fn is_discord_webhook_s(webhook: Option<Seq<char>>) -> bool {
    webhook matches Some(w) && starts_with_s(w, discord_host())
}

/// Whether `webhook` is a Discord webhook address (a send to anything else
/// is skipped and reports failure).
pub fn is_discord_webhook(webhook: Option<&str>) -> (r: bool)
    ensures
        r == is_discord_webhook_s(match webhook {
            Some(w) => Some(w@),
            None => None,
        }),
{
    match webhook {
        Some(w) => crate::text::starts_with_str(w, "https://discord.com/api/webhooks/"),
        None => false,
    }
}

/// The message of a Discord notice: the title in bold, the message, and
/// the link after 👉 when there is one.
pub open spec fn discord_content_s(title: Seq<char>, message: Seq<char>, url: Option<Seq<char>>) -> Seq<char> {
    "**"@ + title + "**\n"@ + message + match url {
        Some(u) => "\n👉 "@ + u,
        None => Seq::empty(),
    }
}

/// The body posted to the webhook: `{"content": <message>}`.
pub fn discord_payload(title: &str, message: &str, url: Option<&str>) -> (r: Json)
    ensures
        r is Obj,
        field(r, "content"@) matches Some(Json::Str(c)) && c@ == discord_content_s(title@, message@, match url {
            Some(u) => Some(u@),
            None => None,
        }),
        forall|k: Seq<char>| k != "content"@ ==> field(r, k) is None,
{
    let mut c = owned("**");
    append_str(&mut c, title);
    append_str(&mut c, "**\n");
    append_str(&mut c, message);
    match url {
        Some(u) => {
            append_str(&mut c, "\n👉 ");
            append_str(&mut c, u);
        },
        None => {},
    }
    let mut p = crate::json::empty_obj();
    crate::json::set_field(&mut p, "content", Json::Str(c));
    p
}

/// The number of tries of a request to Maoyan or of a webhook send.
pub const DISCORD_TRIES: u32 = 3;

/// What to do after try number `done` (from 1) of a request or a webhook send.
#[derive(Debug, Clone, Copy, PartialEq, Eq, Structural)]
pub enum SendStep {
    /// Delivered.
    Delivered,
    /// Wait three seconds and try again.
    Retry,
    /// Give up: not delivered.
    GiveUp,
}

/// After try `done` of a request or a webhook send, answered or not: done
/// when it was answered, another try after a pause while fewer than three
/// were made, else give up.
pub fn after_send(done: u32, delivered: bool) -> (r: SendStep)
    ensures
        r == (if delivered {
            SendStep::Delivered
        } else if done < DISCORD_TRIES {
            SendStep::Retry
        } else {
            SendStep::GiveUp
        }),
{
    if delivered {
        SendStep::Delivered
    } else if done < DISCORD_TRIES {
        SendStep::Retry
    } else {
        SendStep::GiveUp
    }
}

/// `s` with every `"` made `'`.
pub open spec fn unquoted(s: Seq<char>) -> Seq<char> {
    s.map_values(|c: char| if c == '"' {
        '\''
    } else {
        c
    })
}

fn unquote(s: &str) -> (r: String)
    ensures
        r@ == unquoted(s@),
{
    let v = crate::text::chars_of(s);
    let mut out = String::new();
    let mut i: usize = 0;
    while i < v.len()
        invariant
            i <= v@.len(),
            v@ == s@,
            out@ == unquoted(v@.take(i as int)),
        decreases v.len() - i,
    {
        let c = if v[i] == '"' {
            '\''
        } else {
            v[i]
        };
        crate::text::push_char(&mut out, c);
        assert(out@ =~= unquoted(v@.take(i + 1)));
        i = i + 1;
    }
    assert(v@.take(v@.len() as int) =~= v@);
    out
}

/// The AppleScript of a desktop notice with the Glass sound; double quotes
/// in the texts become single quotes.
pub open spec fn macos_script_s(title: Seq<char>, message: Seq<char>) -> Seq<char> {
    "display notification \""@ + unquoted(message) + "\" with title \""@ + unquoted(title)
        + "\" sound name \"Glass\""@
}

/// The AppleScript that shows a desktop notice.
pub fn macos_script(title: &str, message: &str) -> (r: String)
    ensures
        r@ == macos_script_s(title@, message@),
{
    let mut s = owned("display notification \"");
    let m = unquote(message);
    append_str(&mut s, m.as_str());
    append_str(&mut s, "\" with title \"");
    let t = unquote(title);
    append_str(&mut s, t.as_str());
    append_str(&mut s, "\" sound name \"Glass\"");
    s
}

/// How long the bell rings for a notice: the asked seconds, at least one.
pub fn ring_seconds(duration_secs: u64) -> (r: u64)
    ensures
        r == if duration_secs < 1 {
            1
        } else {
            duration_secs
        },
{
    if duration_secs < 1 {
        1
    } else {
        duration_secs
    }
}

/// The arguments of `caffeinate` that keep the machine awake while process
/// `pid` runs.
pub fn caffeinate_args(pid: u32) -> (r: Vec<String>)
    ensures
        crate::text::views_of(r@) == seq!["-i"@, "-s"@, "-w"@, crate::text::dec_text(pid as nat)],
{
    let mut v: Vec<String> = Vec::new();
    v.push(owned("-i"));
    v.push(owned("-s"));
    v.push(owned("-w"));
    v.push(crate::text::u64_text(pid as u64));
    assert(crate::text::views_of(v@) =~= seq!["-i"@, "-s"@, "-w"@, crate::text::dec_text(pid as nat)]);
    v
}

/// Whether the keep-awake helper runs: unknown (`None`) off macOS;
/// otherwise whether a helper was started (`child`) and is still running.
pub fn is_caffeinated(on_mac: bool, child: Option<bool>) -> (r: Option<bool>)
    ensures
        r == if !on_mac {
            None
        } else {
            Some(child == Some(true))
        },
{
    if !on_mac {
        return None;
    }
    match child {
        Some(running) => Some(running),
        None => Some(false),
    }
}

} // verus!
