//! Which block of the terminal UI has the focus: the three panes, then the
//! menu bar below them.

use vstd::prelude::*;

verus! {

/// A block of the terminal UI.
#[derive(Debug, Clone, Copy, PartialEq, Eq, Structural)]
pub enum Focus {
    Watches,
    Detail,
    Events,
    /// The menu bar of global actions.
    Actions,
}

impl Focus {
    pub open spec fn next_s(self) -> Focus {
        match self {
            Focus::Watches => Focus::Detail,
            Focus::Detail => Focus::Events,
            Focus::Events => Focus::Actions,
            Focus::Actions => Focus::Watches,
        }
    }

    pub open spec fn prev_s(self) -> Focus {
        match self {
            Focus::Watches => Focus::Actions,
            Focus::Detail => Focus::Watches,
            Focus::Events => Focus::Detail,
            Focus::Actions => Focus::Events,
        }
    }

    pub open spec fn left_s(self) -> Focus {
        match self {
            Focus::Events => Focus::Detail,
            Focus::Detail => Focus::Watches,
            other => other,
        }
    }

    pub open spec fn right_s(self) -> Focus {
        match self {
            Focus::Watches => Focus::Detail,
            Focus::Detail => Focus::Events,
            other => other,
        }
    }

    /// The next block, cycling.
    pub fn next(self) -> (r: Focus)
        ensures
            r == self.next_s(),
    {
        match self {
            Focus::Watches => Focus::Detail,
            Focus::Detail => Focus::Events,
            Focus::Events => Focus::Actions,
            Focus::Actions => Focus::Watches,
        }
    }

    /// The previous block, cycling.
    pub fn prev(self) -> (r: Focus)
        ensures
            r == self.prev_s(),
    {
        match self {
            Focus::Watches => Focus::Actions,
            Focus::Detail => Focus::Watches,
            Focus::Events => Focus::Detail,
            Focus::Actions => Focus::Events,
        }
    }

    /// The pane to the left; the leftmost pane and the menu stay.
    pub fn left(self) -> (r: Focus)
        ensures
            r == self.left_s(),
    {
        match self {
            Focus::Events => Focus::Detail,
            Focus::Detail => Focus::Watches,
            other => other,
        }
    }

    /// The pane to the right; the rightmost pane and the menu stay.
    pub fn right(self) -> (r: Focus)
        ensures
            r == self.right_s(),
    {
        match self {
            Focus::Watches => Focus::Detail,
            Focus::Detail => Focus::Events,
            other => other,
        }
    }
}

/// `prev` undoes `next` and `next` undoes `prev`; four steps go round, and
/// no fewer.
pub proof fn law_focus_cycle(f: Focus)
    ensures
        f.next_s().prev_s() == f,
        f.prev_s().next_s() == f,
        f.next_s().next_s().next_s().next_s() == f,
        f.next_s() != f,
        f.next_s().next_s() != f,
        f.next_s().next_s().next_s() != f,
{
}

/// Among the panes, `left` undoes `right` except at the right edge, and the
/// other way round; the edges and the menu stay.
pub proof fn law_focus_left_right(f: Focus)
    ensures
        f != Focus::Events && f != Focus::Actions ==> f.right_s().left_s() == f,
        f != Focus::Watches && f != Focus::Actions ==> f.left_s().right_s() == f,
        Focus::Watches.left_s() == Focus::Watches,
        Focus::Events.right_s() == Focus::Events,
        Focus::Actions.left_s() == Focus::Actions,
        Focus::Actions.right_s() == Focus::Actions,
{
}

} // verus!
