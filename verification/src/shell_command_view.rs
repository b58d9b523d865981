//! Disclosure state of a shell-command tool call: collapsed or expanded, and
//! whether the user chose that by hand.
use vstd::prelude::*;

verus! {

/// The disclosure state of one shell-command view.
pub struct ShellCommandViewState {
    /// Whether the command's terminal output is hidden.
    pub collapsed: bool,
    /// Whether the user has toggled the disclosure by hand; a manual choice
    /// wins over automatic expansion.
    pub manual_override: bool,
    /// Whether the view is currently expanded automatically.
    pub auto_expanded: bool,
}

impl ShellCommandViewState {
    /// The state after a manual toggle.
    pub open spec fn toggled(self) -> ShellCommandViewState {
        ShellCommandViewState {
            collapsed: !self.collapsed,
            manual_override: true,
            auto_expanded: false,
        }
    }

    /// A collapsed disclosure that nobody has toggled yet.
    pub fn new_collapsed() -> (state: Self)
        ensures
            state.collapsed,
            !state.manual_override,
            !state.auto_expanded,
    {
        ShellCommandViewState { collapsed: true, manual_override: false, auto_expanded: false }
    }

    /// Whether the output is hidden.
    pub fn is_collapsed(&self) -> (collapsed: bool)
        ensures
            collapsed == self.collapsed,
    {
        self.collapsed
    }

    /// Flips the disclosure by hand: the manual choice now overrides any
    /// automatic expansion.
    pub fn toggle(&mut self)
        ensures
            *final(self) == old(self).toggled(),
    {
        self.collapsed = !self.collapsed;
        self.manual_override = true;
        self.auto_expanded = false;
    }
}

/// Toggling twice restores whether the output is shown, and leaves the
/// state marked as a manual choice.
pub proof fn law_toggle_twice_restores(start: ShellCommandViewState)
    ensures
        start.toggled().toggled().collapsed == start.collapsed,
        start.toggled().toggled().manual_override,
        !start.toggled().toggled().auto_expanded,
{
}

} // verus!
