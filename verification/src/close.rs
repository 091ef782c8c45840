//! What happens when the user asks to close a window.

use vstd::prelude::*;
use crate::dispatch::WindowStep;
use crate::state::TrayState;

verus! {

/// An event of a window, reduced to what the shell reads.
#[derive(Clone, Copy, Debug, PartialEq, Eq, Structural)]
pub enum WindowEvent {
    /// The user asked to close the window; the close can still be stopped.
    CloseRequested,
    /// Any other event.
    Other,
}

/// The calls to make on the window that an event came for. With the setting
/// on, a close request hides the window and stops the close; with it off,
/// and for every other event, nothing is done and the host goes on as usual.
pub open spec fn close_steps(minimize_to_tray: bool, event: WindowEvent) -> Seq<WindowStep> {
    if event == WindowEvent::CloseRequested && minimize_to_tray {
        seq![WindowStep::Hide, WindowStep::PreventClose]
    } else {
        Seq::empty()
    }
}

/// Decides on one event of a window. The setting is read at each event, so a
/// change takes effect at the next close request.
pub fn on_window_event(state: &TrayState, event: WindowEvent) -> (steps: Vec<WindowStep>)
    ensures
        steps@ == close_steps(state@, event),
{
    let mut steps: Vec<WindowStep> = Vec::new();
    match event {
        WindowEvent::CloseRequested => {
            if crate::state::get_minimize_to_tray(state) {
                steps.push(WindowStep::Hide);
                steps.push(WindowStep::PreventClose);
            }
        },
        WindowEvent::Other => {},
    }
    proof {
        assert(steps@ =~= close_steps(state@, event));
    }
    steps
}

/// A close request follows the setting as last written, whatever it was
/// before: on, the window is hidden and stays alive; off, it is left to
/// close. A fresh state counts as written on.
pub proof fn lemma_close_follows_setting(before: TrayState, enabled: bool)
    ensures
        close_steps(before.written(enabled)@, WindowEvent::CloseRequested) == if enabled {
            seq![WindowStep::Hide, WindowStep::PreventClose]
        } else {
            Seq::<WindowStep>::empty()
        },
        close_steps(before.written(enabled)@, WindowEvent::Other) == Seq::<WindowStep>::empty(),
{
    crate::state::lemma_read_after_write(before, enabled);
}

/// A close is stopped only where the window is hidden just before.
pub proof fn lemma_prevent_only_after_hide(minimize_to_tray: bool, event: WindowEvent)
    ensures
        close_steps(minimize_to_tray, event).contains(WindowStep::PreventClose) <==> (event
            == WindowEvent::CloseRequested && minimize_to_tray),
        close_steps(minimize_to_tray, event).contains(WindowStep::PreventClose) ==> close_steps(
            minimize_to_tray,
            event,
        )[0] == WindowStep::Hide,
{
    let steps = close_steps(minimize_to_tray, event);
    if event == WindowEvent::CloseRequested && minimize_to_tray {
        assert(steps[1] == WindowStep::PreventClose);
    }
}

} // verus!
