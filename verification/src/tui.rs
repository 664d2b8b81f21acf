//! The terminal UI state: panes, navigation modes, the configuration
//! prompt cycle, forms and pickers, and the key handling that moves between
//! them. Drawing and the event loop belong to the program.

pub mod actions;
pub mod cmd;
pub mod focus;
pub mod input;
pub mod modal;
pub mod notice;
pub mod panes;
pub mod report;
pub mod texts;

pub use focus::Focus;

use vstd::prelude::*;

verus! {

/// The time source of the program, held in prompts that expire.
#[verifier::external_type_specification]
#[verifier::external_body]
pub struct ExInstant(std::time::Instant);

/// Level of navigation: choosing a pane, or working inside one.
#[derive(Debug, Clone, Copy, PartialEq, Eq, Structural)]
pub enum FocusMode {
    Top,
    In,
}

/// Whether keys go to navigation or to the command line.
#[derive(Debug, Clone, Copy, PartialEq, Eq, Structural)]
pub enum InputMode {
    Normal,
    Cmd,
}

/// The settings the configuration prompt walks through, in a cycle.
#[derive(Debug, Clone, Copy, PartialEq, Eq, Structural)]
pub enum PromptTarget {
    Webhook,
    Quiet,
    Phone,
    Interval,
    Films,
    Doctor,
}

pub open spec fn prompt_label(t: PromptTarget) -> Seq<char> {
    match t {
        PromptTarget::Webhook => "webhook"@,
        PromptTarget::Quiet => "quiet"@,
        PromptTarget::Phone => "phone"@,
        PromptTarget::Interval => "interval"@,
        PromptTarget::Films => "films"@,
        PromptTarget::Doctor => "doctor"@,
    }
}

pub open spec fn prompt_next(t: PromptTarget) -> PromptTarget {
    match t {
        PromptTarget::Webhook => PromptTarget::Quiet,
        PromptTarget::Quiet => PromptTarget::Phone,
        PromptTarget::Phone => PromptTarget::Interval,
        PromptTarget::Interval => PromptTarget::Films,
        PromptTarget::Films => PromptTarget::Doctor,
        PromptTarget::Doctor => PromptTarget::Webhook,
    }
}

impl PromptTarget {
    /// The name shown before the prompt.
    pub fn label(&self) -> (r: &'static str)
        ensures
            r@ == prompt_label(*self),
    {
        match self {
            PromptTarget::Webhook => "webhook",
            PromptTarget::Quiet => "quiet",
            PromptTarget::Phone => "phone",
            PromptTarget::Interval => "interval",
            PromptTarget::Films => "films",
            PromptTarget::Doctor => "doctor",
        }
    }

    /// The setting after this one, cycling.
    pub fn next(&self) -> (r: PromptTarget)
        ensures
            r == prompt_next(*self),
    {
        match self {
            PromptTarget::Webhook => PromptTarget::Quiet,
            PromptTarget::Quiet => PromptTarget::Phone,
            PromptTarget::Phone => PromptTarget::Interval,
            PromptTarget::Interval => PromptTarget::Films,
            PromptTarget::Films => PromptTarget::Doctor,
            PromptTarget::Doctor => PromptTarget::Webhook,
        }
    }
}

/// Six steps of the prompt cycle come back to the start, and no fewer do.
pub proof fn law_prompt_cycle(t: PromptTarget)
    ensures
        prompt_next(prompt_next(prompt_next(prompt_next(prompt_next(prompt_next(t))))))
            == t,
        prompt_next(t) != t,
        prompt_next(prompt_next(t)) != t,
        prompt_next(prompt_next(prompt_next(t))) != t,
{
}

/// A deletion waiting for `y` or `n`; it lapses after a while.
pub struct ConfirmPrompt {
    pub text: String,
    pub created_at: std::time::Instant,
}

/// The key help of the status bar.
pub open spec fn tips_s() -> Seq<char> {
    "方向键 选区块/选项目   Enter 进入/触发   Esc 退回上一级   ? 帮助   q 退出"@
}

/// The key help shown in the status bar when nothing else is.
pub fn default_tips() -> (r: String)
    ensures
        r@ == tips_s(),
{
    crate::text::owned("方向键 选区块/选项目   Enter 进入/触发   Esc 退回上一级   ? 帮助   q 退出")
}

/// A key as the UI reads it.
#[derive(Debug, Clone, Copy, PartialEq, Eq, Structural)]
pub enum KeyCode {
    Char(char),
    Enter,
    Esc,
    Up,
    Down,
    Left,
    Right,
    Backspace,
    Tab,
    BackTab,
    Delete,
    Home,
    End,
    /// Any other key.
    Other,
}

/// A key press, with whether Control was held.
#[derive(Debug, Clone, Copy, PartialEq, Eq, Structural)]
pub struct Key {
    pub code: KeyCode,
    pub ctrl: bool,
}

} // verus!
