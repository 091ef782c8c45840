//! The command that changes the tooltip of the tray icon.

use vstd::prelude::*;

verus! {

/// The text to hand to the tray icon, given whether the icon was found.
/// With the icon there, it is the requested text, unchanged; without it,
/// nothing is to be set.
pub fn update_tray_tooltip(tray_present: bool, tooltip: String) -> (text: Option<String>)
    ensures
        tray_present ==> text == Some(tooltip),
        !tray_present ==> text is None,
{
    if tray_present {
        Some(tooltip)
    } else {
        None
    }
}

/// The command's reply. `outcome` is `None` where the icon was absent and
/// nothing was set, which counts as success; otherwise it is what setting
/// the text gave, and a failure goes to the caller with its message as it
/// came.
pub fn tooltip_reply(outcome: Option<Result<(), String>>) -> (reply: Result<(), String>)
    ensures
        outcome is None ==> reply is Ok,
        outcome matches Some(set) ==> reply == set,
{
    match outcome {
        Some(set) => set,
        None => Ok(()),
    }
}

} // verus!
