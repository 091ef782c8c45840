//! The one setting of the shell: whether a close request hides the window.

use vstd::prelude::*;

verus! {

/// The shell's setting. It is created enabled and changes only through
/// [`set_minimize_to_tray`]. The host keeps one value for the life of the
/// process and hands it to every handler that needs it.
#[derive(Debug)]
pub struct TrayState {
    minimize_to_tray: bool,
}

impl View for TrayState {
    type V = bool;

    /// Whether closing the window hides it in place of ending it.
    closed spec fn view(&self) -> bool {
        self.minimize_to_tray
    }
}

impl TrayState {
    /// The setting once `enabled` has been written over it, as a value.
    pub closed spec fn written(self, enabled: bool) -> TrayState {
        TrayState { minimize_to_tray: enabled }
    }

    /// The state of a process that has just started: the setting is on.
    pub fn new() -> (state: TrayState)
        ensures
            state@ == true,
    {
        TrayState { minimize_to_tray: true }
    }
}

impl Default for TrayState {
    fn default() -> (state: TrayState)
        ensures
            state@ == true,
    {
        TrayState::new()
    }
}

/// Overwrites the setting. Every value is accepted; there is no failure.
pub fn set_minimize_to_tray(state: &mut TrayState, enabled: bool)
    ensures
        *final(state) == old(state).written(enabled),
        final(state)@ == enabled,
{
    state.minimize_to_tray = enabled;
}

/// Reads the setting and leaves it as it is.
pub fn get_minimize_to_tray(state: &TrayState) -> (enabled: bool)
    ensures
        enabled == state@,
{
    state.minimize_to_tray
}

/// A read that follows a write sees the written value, whatever the setting
/// was before; and the write does not depend on what was there, so reads in
/// between, which change nothing, cannot alter what a later read sees.
pub proof fn lemma_read_after_write(before: TrayState, enabled: bool)
    ensures
        before.written(enabled)@ == enabled,
        forall|other: TrayState| other.written(enabled) == before.written(enabled),
{
}

/// Writing twice leaves what the second write gave.
pub proof fn lemma_last_write_wins(before: TrayState, first: bool, second: bool)
    ensures
        before.written(first).written(second)@ == second,
        before.written(first).written(second) == before.written(second),
{
}

} // verus!
