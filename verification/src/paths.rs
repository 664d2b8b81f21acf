//! Where the files live: the XDG configuration and state directories
//! (`~/.config` and `~/.local/state` when the variables are unset or empty,
//! also on macOS), each with a `ticket-tracker` directory. On Windows the
//! configuration lives under `%APPDATA%` unless `XDG_CONFIG_HOME` is set.
//! The program reads the environment and creates the directories.

use vstd::prelude::*;

use crate::text::{append_str, owned, starts_with_s};

verus! {

pub open spec fn app_name() -> Seq<char> {
    "ticket-tracker"@
}

/// `base` joined with `name` as a path (`PathBuf::join` on Unix): an
/// absolute `name` replaces `base`; otherwise one `/` between them.
pub open spec fn joined_path(base: Seq<char>, name: Seq<char>) -> Seq<char> {
    if name.len() > 0 && name[0] == '/' {
        name
    } else if base.len() == 0 {
        name
    } else if base.last() == '/' {
        base + name
    } else {
        base + "/"@ + name
    }
}

/// `base` joined with `name` as a path.
pub fn join_path(base: &str, name: &str) -> (r: String)
    ensures
        r@ == joined_path(base@, name@),
{
    let nv = crate::text::chars_of(name);
    if nv.len() > 0 && nv[0] == '/' {
        return owned(name);
    }
    let bv = crate::text::chars_of(base);
    if bv.len() == 0 {
        return owned(name);
    }
    let mut r = owned(base);
    if bv[bv.len() - 1] != '/' {
        append_str(&mut r, "/");
    }
    append_str(&mut r, name);
    r
}

/// `s` with every leading `~/` removed (`trim_start_matches("~/")`).
pub open spec fn without_tildes(s: Seq<char>) -> Seq<char>
    decreases s.len(),
{
    if s.len() >= 2 && s[0] == '~' && s[1] == '/' {
        without_tildes(s.skip(2))
    } else {
        s
    }
}

/// A path starting `~/` under the home directory, when it is known.
pub open spec fn expanded(p: Seq<char>, home: Option<Seq<char>>) -> Seq<char> {
    if starts_with_s(p, "~/"@) && home is Some {
        joined_path(home->0, without_tildes(p))
    } else {
        p
    }
}

fn expand(p: &str, home: Option<&str>) -> (r: String)
    ensures
        r@ == expanded(p@, match home {
            Some(h) => Some(h@),
            None => None,
        }),
{
    let v = crate::text::chars_of(p);
    proof {
        reveal_strlit("~/");
    }
    let tilde = v.len() >= 2 && v[0] == '~' && v[1] == '/';
    assert(tilde == starts_with_s(p@, "~/"@)) by {
        reveal_strlit("~/");
        assert("~/"@ =~= seq!['~', '/']);
        if v@.len() >= 2 {
            assert(v@.take(2) =~= seq![v@[0], v@[1]]);
        }
    }
    match home {
        Some(h) => {
            if !tilde {
                return owned(p);
            }
            let mut i: usize = 0;
            assert(v@.skip(0) =~= v@);
            while i + 1 < v.len() && v[i] == '~' && v[i + 1] == '/'
                invariant
                    i <= v@.len(),
                    i % 2 == 0,
                    without_tildes(v@) == without_tildes(v@.skip(i as int)),
                decreases v.len() - i,
            {
                assert(v@.skip(i as int).skip(2) =~= v@.skip(i + 2));
                i = i + 2;
            }
            proof {
                assert(without_tildes(v@.skip(i as int)) == v@.skip(i as int));
            }
            let rest = crate::text::string_of_range(&v, i, v.len());
            assert(rest@ =~= v@.skip(i as int));
            join_path(h, rest.as_str())
        },
        None => owned(p),
    }
}

/// The base directory from an XDG variable's value, or the default.
pub open spec fn xdg_base(var: Option<Seq<char>>, default: Seq<char>) -> Seq<char> {
    match var {
        Some(v) => if v.len() > 0 {
            v
        } else {
            default
        },
        None => default,
    }
}

pub open spec fn opt_text(v: Option<&str>) -> Option<Seq<char>> {
    match v {
        Some(s) => Some(s@),
        None => None,
    }
}

fn app_dir(var: Option<&str>, default: &str, home: Option<&str>) -> (r: String)
    ensures
        r@ == joined_path(expanded(xdg_base(opt_text(var), default@), opt_text(home)), app_name()),
{
    let base = match var {
        Some(v) => if v.unicode_len() > 0 {
            v
        } else {
            default
        },
        None => default,
    };
    let e = expand(base, home);
    join_path(e.as_str(), "ticket-tracker")
}

/// `base` joined with `name` by a Windows separator: one `\` between them
/// unless `base` ends in a separator.
pub open spec fn win_joined(base: Seq<char>, name: Seq<char>) -> Seq<char> {
    if base.len() == 0 {
        name
    } else if base.last() == '\\' || base.last() == '/' {
        base + name
    } else {
        base + "\\"@ + name
    }
}

fn win_join(base: &str, name: &str) -> (r: String)
    ensures
        r@ == win_joined(base@, name@),
{
    let bv = crate::text::chars_of(base);
    if bv.len() == 0 {
        return owned(name);
    }
    let mut r = owned(base);
    let last = bv[bv.len() - 1];
    if last != '\\' && last != '/' {
        append_str(&mut r, "\\");
    }
    append_str(&mut r, name);
    r
}

/// A variable that is set and not empty.
pub open spec fn nonempty(v: Option<Seq<char>>) -> bool {
    v matches Some(x) && x.len() > 0
}

/// Whether the configuration goes under `%APPDATA%`: on Windows, with
/// `XDG_CONFIG_HOME` unset or empty and `APPDATA` set.
pub open spec fn uses_appdata(xdg: Option<Seq<char>>, appdata: Option<Seq<char>>, windows: bool) -> bool {
    windows && !nonempty(xdg) && nonempty(appdata)
}

/// The configuration directory, from `XDG_CONFIG_HOME`, `HOME` and, on
/// Windows (`windows`), `APPDATA`: `%APPDATA%\ticket-tracker` there when
/// `XDG_CONFIG_HOME` is unset or empty, else the XDG directory.
pub fn config_dir(xdg_config_home: Option<&str>, home: Option<&str>, appdata: Option<&str>, windows: bool) -> (r: String)
    ensures
        r@ == if uses_appdata(opt_text(xdg_config_home), opt_text(appdata), windows) {
            win_joined(appdata->0@, app_name())
        } else {
            joined_path(expanded(xdg_base(opt_text(xdg_config_home), "~/.config"@), opt_text(home)), app_name())
        },
{
    let xdg_set = match xdg_config_home {
        Some(x) => x.unicode_len() > 0,
        None => false,
    };
    if windows && !xdg_set {
        match appdata {
            Some(a) => {
                if a.unicode_len() > 0 {
                    return win_join(a, "ticket-tracker");
                }
            },
            None => {},
        }
    }
    app_dir(xdg_config_home, "~/.config", home)
}

/// The state directory (log, pid), from `XDG_STATE_HOME` and `HOME`.
pub fn state_dir(xdg_state_home: Option<&str>, home: Option<&str>) -> (r: String)
    ensures
        r@ == joined_path(
            expanded(xdg_base(opt_text(xdg_state_home), "~/.local/state"@), opt_text(home)),
            app_name(),
        ),
{
    app_dir(xdg_state_home, "~/.local/state", home)
}

/// The configuration file in the configuration directory (joined by a
/// Windows separator on Windows).
pub fn config_file(config_dir: &str, windows: bool) -> (r: String)
    ensures
        r@ == if windows {
            win_joined(config_dir@, "config.json"@)
        } else {
            joined_path(config_dir@, "config.json"@)
        },
{
    if windows {
        win_join(config_dir, "config.json")
    } else {
        join_path(config_dir, "config.json")
    }
}

/// The log file in the state directory.
pub fn log_file(state_dir: &str) -> (r: String)
    ensures
        r@ == joined_path(state_dir@, "ticket-tracker.log"@),
{
    join_path(state_dir, "ticket-tracker.log")
}

/// The pid file of a background run, in the state directory.
pub fn pid_file(state_dir: &str) -> (r: String)
    ensures
        r@ == joined_path(state_dir@, "ticket-tracker.pid"@),
{
    join_path(state_dir, "ticket-tracker.pid")
}

} // verus!
