//! Routing of tray input: menu selections and mouse events on the icon.
//!
//! A handler answers with a [`Reaction`]. Two reactions concern the main
//! window; for those the host looks the window up and asks
//! [`window_steps`] what to do with what it found. An absent window is
//! normal: nothing is done and nothing fails.

use vstd::prelude::*;
use crate::menu::{action_of, MenuAction};

verus! {

/// A button of the mouse.
#[derive(Clone, Copy, Debug, PartialEq, Eq, Structural)]
pub enum MouseButton {
    Left,
    Right,
    Middle,
}

/// Whether a button went down or came up.
#[derive(Clone, Copy, Debug, PartialEq, Eq, Structural)]
pub enum MouseButtonState {
    Up,
    Down,
}

/// A mouse event on the tray icon, reduced to what routing reads.
#[derive(Clone, Copy, Debug, PartialEq, Eq, Structural)]
pub enum TrayIconEvent {
    /// One transition of a button over the icon.
    Click { button: MouseButton, button_state: MouseButtonState },
    /// A double click with the given button.
    DoubleClick { button: MouseButton },
    /// The pointer came over the icon.
    Enter,
    /// The pointer moved over the icon.
    Move,
    /// The pointer left the icon.
    Leave,
}

/// What the host is asked to do in answer to an input.
#[derive(Clone, Copy, Debug, PartialEq, Eq, Structural)]
pub enum Reaction {
    /// Look the main window up; if it is there, show it and focus it.
    RevealMainWindow,
    /// Look the main window up; if it is there, hide it.
    HideMainWindow,
    /// Emit the pause event to the whole application, without payload.
    EmitTogglePause,
    /// Do nothing.
    Nothing,
}

/// One call on a window. The host makes the calls of a list in order and
/// goes on to the next whether or not one succeeded.
#[derive(Clone, Copy, Debug, PartialEq, Eq, Structural)]
pub enum WindowStep {
    Show,
    SetFocus,
    Hide,
    PreventClose,
}

/// The reaction to each menu action. Three entries are routed; every other
/// selection, the entry `quit` among them, is left without a reaction.
pub open spec fn reaction_to(action: MenuAction) -> Reaction {
    match action {
        MenuAction::Show => Reaction::RevealMainWindow,
        MenuAction::Hide => Reaction::HideMainWindow,
        MenuAction::Pause => Reaction::EmitTogglePause,
        MenuAction::Quit => Reaction::Nothing,
        MenuAction::Unknown => Reaction::Nothing,
    }
}

/// Whether a tray event is the release of the left button.
pub open spec fn is_left_release(event: TrayIconEvent) -> bool {
    event == (TrayIconEvent::Click {
        button: MouseButton::Left,
        button_state: MouseButtonState::Up,
    })
}

/// The reaction to a mouse event on the tray icon.
pub open spec fn reaction_to_tray_event(event: TrayIconEvent) -> Reaction {
    if is_left_release(event) {
        Reaction::RevealMainWindow
    } else {
        Reaction::Nothing
    }
}

/// The calls that a reaction makes on the main window, given whether the
/// window was found.
pub open spec fn steps_of(reaction: Reaction, window_present: bool) -> Seq<WindowStep> {
    if !window_present {
        Seq::empty()
    } else {
        match reaction {
            Reaction::RevealMainWindow => seq![WindowStep::Show, WindowStep::SetFocus],
            Reaction::HideMainWindow => seq![WindowStep::Hide],
            _ => Seq::empty(),
        }
    }
}

impl Reaction {
    /// Whether the host has to look the main window up for this reaction.
    pub open spec fn spec_needs_window(self) -> bool {
        self == Reaction::RevealMainWindow || self == Reaction::HideMainWindow
    }

    /// Whether the host has to look the main window up for this reaction.
    /// For the others no lookup is made.
    #[verifier::when_used_as_spec(spec_needs_window)]
    pub fn needs_window(self) -> (needed: bool)
        ensures
            needed == self.spec_needs_window(),
    {
        match self {
            Reaction::RevealMainWindow => true,
            Reaction::HideMainWindow => true,
            _ => false,
        }
    }
}

/// The reaction to a menu action.
pub fn menu_reaction(action: MenuAction) -> (reaction: Reaction)
    ensures
        reaction == reaction_to(action),
{
    match action {
        MenuAction::Show => Reaction::RevealMainWindow,
        MenuAction::Hide => Reaction::HideMainWindow,
        MenuAction::Pause => Reaction::EmitTogglePause,
        MenuAction::Quit => Reaction::Nothing,
        MenuAction::Unknown => Reaction::Nothing,
    }
}

/// Routes one selection in the tray menu, given the identifier of the
/// selected entry as the host reports it.
pub fn on_menu_event(id: &str) -> (reaction: Reaction)
    ensures
        reaction == reaction_to(action_of(id@)),
{
    menu_reaction(MenuAction::from_id(id))
}

/// Routes one mouse event on the tray icon. Only the release of the left
/// button does anything: it brings the main window back.
pub fn on_tray_icon_event(event: TrayIconEvent) -> (reaction: Reaction)
    ensures
        reaction == reaction_to_tray_event(event),
{
    match event {
        TrayIconEvent::Click { button: MouseButton::Left, button_state: MouseButtonState::Up } => {
            Reaction::RevealMainWindow
        },
        _ => Reaction::Nothing,
    }
}

/// The calls to make on the main window for a reaction, in order, once the
/// host knows whether the window exists.
pub fn window_steps(reaction: Reaction, window_present: bool) -> (steps: Vec<WindowStep>)
    ensures
        steps@ == steps_of(reaction, window_present),
{
    let mut steps: Vec<WindowStep> = Vec::new();
    if window_present {
        match reaction {
            Reaction::RevealMainWindow => {
                steps.push(WindowStep::Show);
                steps.push(WindowStep::SetFocus);
            },
            Reaction::HideMainWindow => {
                steps.push(WindowStep::Hide);
            },
            _ => {},
        }
    }
    proof {
        assert(steps@ =~= steps_of(reaction, window_present));
    }
    steps
}

/// A release of the left button on the icon does what the entry `show` of
/// the menu does, with or without a window; every other mouse event leaves
/// the window alone and asks for nothing else.
pub proof fn lemma_left_release_is_show(event: TrayIconEvent, window_present: bool)
    ensures
        is_left_release(event) ==> reaction_to_tray_event(event) == reaction_to(action_of("show"@)),
        is_left_release(event) ==> steps_of(reaction_to_tray_event(event), window_present)
            == steps_of(reaction_to(action_of("show"@)), window_present),
        !is_left_release(event) ==> reaction_to_tray_event(event) == Reaction::Nothing,
        !is_left_release(event) ==> steps_of(reaction_to_tray_event(event), window_present)
            == Seq::<WindowStep>::empty(),
{
}

/// Without a window no reaction calls on it, and a reaction that needs no
/// window calls on none even where one exists. Routing never asks to
/// prevent a close.
pub proof fn lemma_steps_only_on_present_window(reaction: Reaction, window_present: bool)
    ensures
        !window_present ==> steps_of(reaction, window_present) == Seq::<WindowStep>::empty(),
        !reaction.spec_needs_window() ==> steps_of(reaction, window_present)
            == Seq::<WindowStep>::empty(),
        !steps_of(reaction, window_present).contains(WindowStep::PreventClose),
{
    let steps = steps_of(reaction, window_present);
    assert forall|i: int| 0 <= i < steps.len() implies steps[i] != WindowStep::PreventClose by {}
}

/// Every identifier but `show`, `hide` and `pause` is ignored: no reaction
/// and no call on the window, whether or not the menu holds an entry of
/// that name.
pub proof fn lemma_other_ids_are_ignored(id: Seq<char>, window_present: bool)
    requires
        id != "show"@,
        id != "hide"@,
        id != "pause"@,
    ensures
        reaction_to(action_of(id)) == Reaction::Nothing,
        steps_of(reaction_to(action_of(id)), window_present) == Seq::<WindowStep>::empty(),
{
}

/// A selection is answered with something other than nothing exactly for
/// the three routed identifiers.
pub proof fn lemma_routed_ids(id: Seq<char>)
    ensures
        reaction_to(action_of(id)) != Reaction::Nothing <==> (id == "show"@ || id == "hide"@ || id
            == "pause"@),
{
}

} // verus!
