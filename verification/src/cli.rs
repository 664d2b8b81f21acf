//! The `tt` command line: its commands, and what each command that works
//! on the configuration does to it and prints. Reading and writing the
//! configuration file, the network and the terminal belong to the program.

pub mod cinema;
pub mod config_cmd;
pub mod doctor;
pub mod films;
pub mod start;
pub mod test_cmd;
pub mod watch;

use vstd::prelude::*;

use crate::json::Json;

pub use cinema::CinemaAction;
pub use config_cmd::ConfigAction;
pub use watch::WatchAction;

verus! {

/// The command line: a command, or none for the terminal UI.
pub struct Cli {
    pub cmd: Option<Cmd>,
}

/// The commands of `tt`.
pub enum Cmd {
    /// First-time setup.
    Init,
    /// Start watching (terminal UI, or in the background).
    Start { detach: bool, interval: Option<u64>, watch: Vec<String> },
    /// Stop the background run.
    Stop,
    Restart,
    /// One line of status.
    Status,
    /// The tail of the log.
    Log { n: usize, follow: bool },
    Watch { action: WatchAction },
    Cinema { action: CinemaAction },
    /// A films list: 1 now showing, 2 coming soon, 3 classics.
    Films { show_type: u8 },
    Config { action: ConfigAction },
    /// Send test notices.
    Test { kind: Option<String> },
    /// Self-check.
    Doctor,
}

/// One piece of output.
pub enum Out {
    Text(String),
    /// A JSON value printed over several indented lines.
    Pretty(Json),
    /// A JSON value printed on one line.
    Compact(Json),
}

pub enum OutV {
    Text(Seq<char>),
    Pretty(Json),
    Compact(Json),
}

impl View for Out {
    type V = OutV;

    open spec fn view(&self) -> OutV {
        match self {
            Out::Text(s) => OutV::Text(s@),
            Out::Pretty(j) => OutV::Pretty(*j),
            Out::Compact(j) => OutV::Compact(*j),
        }
    }
}

pub open spec fn outs_view(v: Seq<Out>) -> Seq<OutV> {
    v.map_values(|o: Out| o@)
}

/// What a command printed, and whether the configuration must be saved.
pub struct Reply {
    pub out: Vec<Out>,
    pub save: bool,
}

/// Lines of text as output.
pub open spec fn texts(lines: Seq<Seq<char>>) -> Seq<OutV> {
    lines.map_values(|l: Seq<char>| OutV::Text(l))
}

/// A reply of text lines.
pub open spec fn text_reply(r: Reply, lines: Seq<Seq<char>>, save: bool) -> bool {
    &&& r.save == save
    &&& outs_view(r.out@) == texts(lines)
}

/// Pushing the next line keeps the output the lines so far.
pub proof fn lemma_push_line(out: Seq<Out>, lines: Seq<Seq<char>>, i: int, o: Out)
    requires
        outs_view(out) == texts(lines.take(i)),
        0 <= i < lines.len(),
        o@ == OutV::Text(lines[i]),
    ensures
        outs_view(out.push(o)) == texts(lines.take(i + 1)),
{
    let a = outs_view(out.push(o));
    let b = texts(lines.take(i + 1));
    assert(outs_view(out).len() == out.len());
    assert(out.len() == i);
    assert(a.len() == i + 1);
    assert forall|j: int| 0 <= j < a.len() implies a[j] == b[j] by {
        if j < i {
            assert(a[j] == out[j]@);
            assert(outs_view(out)[j] == out[j]@);
            assert(texts(lines.take(i))[j] == OutV::Text(lines[j]));
        } else {
            assert(a[j] == o@);
        }
    }
    assert(a =~= b);
}

/// A reply of one line.
pub fn line_reply(line: String, save: bool) -> (r: Reply)
    ensures
        text_reply(r, seq![line@], save),
{
    let mut out: Vec<Out> = Vec::new();
    out.push(Out::Text(line));
    let r = Reply { out, save };
    assert(outs_view(r.out@) =~= texts(seq![line@]));
    r
}

/// What the program does for a command.
pub enum Dispatched {
    /// The command worked on the configuration: print the reply (and save
    /// when it says so), or report the error.
    Done(Result<Reply, String>),
    Init,
    Start { detach: bool, interval: Option<u64>, watch: Vec<String> },
    Stop,
    /// Stop (ignoring a failure), then start the terminal UI.
    Restart,
    Status,
    Log { n: usize, follow: bool },
    Films { show_type: u8 },
    Test { kind: Option<String> },
    Doctor,
}

/// Runs the commands that work on the configuration `cfg` (`watch`,
/// `cinema`, `config`) and hands every other command on to the program.
/// `config_path` is where the configuration file is.
pub fn dispatch(cfg: &mut Json, cmd: Cmd, config_path: &str) -> (r: Dispatched)
    requires
        *old(cfg) is Obj,
    ensures
        match cmd {
            Cmd::Watch { action } => r matches Dispatched::Done(res) && watch::dispatched(
                *old(cfg),
                *final(cfg),
                action,
                res,
            ),
            Cmd::Cinema { action } => r matches Dispatched::Done(res) && cinema::dispatched(
                *old(cfg),
                *final(cfg),
                action,
                res,
            ),
            Cmd::Config { action } => r matches Dispatched::Done(res) && config_cmd::dispatched(
                *old(cfg),
                *final(cfg),
                action,
                config_path@,
                res,
            ),
            Cmd::Init => r is Init && *final(cfg) == *old(cfg),
            Cmd::Start { detach, interval, watch } => *final(cfg) == *old(cfg) && (r matches Dispatched::Start {
                detach: d,
                interval: i,
                watch: w,
            } && d == detach && i == interval && w@ == watch@),
            Cmd::Stop => r is Stop && *final(cfg) == *old(cfg),
            Cmd::Restart => r is Restart && *final(cfg) == *old(cfg),
            Cmd::Status => r is Status && *final(cfg) == *old(cfg),
            Cmd::Log { n, follow } => *final(cfg) == *old(cfg) && (r matches Dispatched::Log {
                n: n2,
                follow: f2,
            } && n2 == n && f2 == follow),
            Cmd::Films { show_type } => *final(cfg) == *old(cfg) && (r matches Dispatched::Films {
                show_type: s,
            } && s == show_type),
            Cmd::Test { kind } => *final(cfg) == *old(cfg) && (r matches Dispatched::Test { kind: k }
                && k == kind),
            Cmd::Doctor => r is Doctor && *final(cfg) == *old(cfg),
        },
{
    match cmd {
        Cmd::Watch { action } => Dispatched::Done(watch::dispatch(cfg, action)),
        Cmd::Cinema { action } => Dispatched::Done(cinema::dispatch(cfg, action)),
        Cmd::Config { action } => Dispatched::Done(config_cmd::dispatch(cfg, action, config_path)),
        Cmd::Init => Dispatched::Init,
        Cmd::Start { detach, interval, watch } => Dispatched::Start { detach, interval, watch },
        Cmd::Stop => Dispatched::Stop,
        Cmd::Restart => Dispatched::Restart,
        Cmd::Status => Dispatched::Status,
        Cmd::Log { n, follow } => Dispatched::Log { n, follow },
        Cmd::Films { show_type } => Dispatched::Films { show_type },
        Cmd::Test { kind } => Dispatched::Test { kind },
        Cmd::Doctor => Dispatched::Doctor,
    }
}


/// Whether a command reads the configuration file (creating it when it is
/// missing) before its work: every command but `stop`, `status`, `log`,
/// `films`, `config path`, `cinema presets`, `cinema add-preset` of an
/// unknown preset, `watch add` or `watch edit` with a mode that is neither
/// `presale` nor `incremental`, and `test` of a kind other than `all` (the
/// default), `discord`, `xhs` or `wechat`.
pub open spec fn reads_config_s(cmd: Cmd) -> bool {
    match cmd {
        Cmd::Stop => false,
        Cmd::Status => false,
        Cmd::Log { .. } => false,
        Cmd::Films { .. } => false,
        Cmd::Config { action } => !(action is Path),
        Cmd::Cinema { action } => match action {
            CinemaAction::Presets => false,
            CinemaAction::AddPreset { name } => crate::presets::find_preset(
                crate::presets::preset_table(),
                name@,
            ) is Some,
            _ => true,
        },
        Cmd::Watch { action } => match action {
            WatchAction::Add { mode, .. } => watch::is_mode(mode@),
            WatchAction::Edit { mode, .. } => match mode {
                Some(m) => watch::is_mode(m@),
                None => true,
            },
            _ => true,
        },
        Cmd::Test { kind } => match kind {
            Some(k) => k@ == "all"@ || k@ == "discord"@ || k@ == "xhs"@ || k@ == "wechat"@,
            None => true,
        },
        _ => true,
    }
}

/// Whether `cmd` reads the configuration file (see [`reads_config_s`]).
pub fn reads_config(cmd: &Cmd) -> (r: bool)
    ensures
        r == reads_config_s(*cmd),
{
    match cmd {
        Cmd::Stop => false,
        Cmd::Status => false,
        Cmd::Log { .. } => false,
        Cmd::Films { .. } => false,
        Cmd::Config { action } => match action {
            ConfigAction::Path => false,
            _ => true,
        },
        Cmd::Cinema { action } => match action {
            CinemaAction::Presets => false,
            CinemaAction::AddPreset { name } => crate::presets::get_preset(name.as_str()).is_some(),
            _ => true,
        },
        Cmd::Watch { action } => match action {
            WatchAction::Add { mode, .. } => watch::check_mode(mode.as_str()),
            WatchAction::Edit { mode, .. } => match mode {
                Some(m) => watch::check_mode(m.as_str()),
                None => true,
            },
            _ => true,
        },
        Cmd::Test { kind } => match kind {
            Some(k) => {
                let k = k.as_str();
                crate::text::str_eq(k, "all") || crate::text::str_eq(k, "discord") || crate::text::str_eq(k, "xhs")
                    || crate::text::str_eq(k, "wechat")
            },
            None => true,
        },
        _ => true,
    }
}

} // verus!
