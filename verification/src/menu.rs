//! The tray menu: its entries, and what the selection of an entry means.

use vstd::prelude::*;
use crate::text::str_eq;

verus! {

/// What a selection in the tray menu asks for.
#[derive(Clone, Copy, Debug, PartialEq, Eq, Structural)]
pub enum MenuAction {
    /// Bring the main window back and give it the input focus.
    Show,
    /// Hide the main window.
    Hide,
    /// Tell the frontend to pause or resume.
    Pause,
    /// The entry `quit`. The menu holds it, and a selection of it is told
    /// apart from an unknown identifier, but no reaction is routed to it.
    Quit,
    /// An identifier that the menu does not hold: nothing is done.
    Unknown,
}

/// The action that an identifier stands for. Identifiers are compared as
/// they are, character by character: case and surrounding blanks count.
pub open spec fn action_of(id: Seq<char>) -> MenuAction {
    if id == "show"@ {
        MenuAction::Show
    } else if id == "hide"@ {
        MenuAction::Hide
    } else if id == "pause"@ {
        MenuAction::Pause
    } else if id == "quit"@ {
        MenuAction::Quit
    } else {
        MenuAction::Unknown
    }
}

/// The identifiers of the menu's entries, from top to bottom.
pub open spec fn menu_ids() -> Seq<Seq<char>> {
    seq!["show"@, "hide"@, "pause"@, "quit"@]
}

/// The labels of the menu's entries, from top to bottom.
pub open spec fn menu_labels() -> Seq<Seq<char>> {
    seq!["显示窗口"@, "隐藏窗口"@, "暂停/恢复"@, "退出程序"@]
}

/// The actions of the menu's entries, from top to bottom.
pub open spec fn menu_actions() -> Seq<MenuAction> {
    seq![MenuAction::Show, MenuAction::Hide, MenuAction::Pause, MenuAction::Quit]
}

/// One entry of the tray menu, as the host is to build it. No entry has a
/// keyboard accelerator.
#[derive(Clone, Copy, Debug)]
pub struct MenuEntry {
    /// The stable identifier that a selection reports.
    pub id: &'static str,
    /// The text shown to the user.
    pub label: &'static str,
    /// Whether the entry can be selected.
    pub enabled: bool,
}

impl MenuAction {
    /// Reads an identifier reported by the host. One that the menu does not
    /// hold gives `Unknown`; it is no error.
    pub fn from_id(id: &str) -> (action: MenuAction)
        ensures
            action == action_of(id@),
    {
        if str_eq(id, "show") {
            MenuAction::Show
        } else if str_eq(id, "hide") {
            MenuAction::Hide
        } else if str_eq(id, "pause") {
            MenuAction::Pause
        } else if str_eq(id, "quit") {
            MenuAction::Quit
        } else {
            MenuAction::Unknown
        }
    }
}

/// The four entries of the tray menu, from top to bottom, all enabled.
pub fn tray_menu() -> (entries: Vec<MenuEntry>)
    ensures
        entries@.len() == 4,
        forall|i: int|
            0 <= i < 4 ==> {
                &&& (#[trigger] entries@[i]).id@ == menu_ids()[i]
                &&& entries@[i].label@ == menu_labels()[i]
                &&& entries@[i].enabled
            },
{
    let mut entries: Vec<MenuEntry> = Vec::new();
    entries.push(MenuEntry { id: "show", label: "显示窗口", enabled: true });
    entries.push(MenuEntry { id: "hide", label: "隐藏窗口", enabled: true });
    entries.push(MenuEntry { id: "pause", label: "暂停/恢复", enabled: true });
    entries.push(MenuEntry { id: "quit", label: "退出程序", enabled: true });
    entries
}

/// The four identifiers differ from one another.
pub proof fn lemma_ids_distinct()
    ensures
        forall|i: int, j: int|
            0 <= i < 4 && 0 <= j < 4 && i != j ==> #[trigger] menu_ids()[i] != #[trigger] menu_ids()[j],
{
    reveal_strlit("show");
    reveal_strlit("hide");
    reveal_strlit("pause");
    reveal_strlit("quit");
    assert("show"@[0] != "hide"@[0]);
    assert("show"@[0] != "pause"@[0]);
    assert("show"@[0] != "quit"@[0]);
    assert("hide"@[0] != "pause"@[0]);
    assert("hide"@[0] != "quit"@[0]);
    assert("pause"@[0] != "quit"@[0]);
}

/// Every entry of the menu is understood: its identifier stands for the
/// action at the same place, and for none of the others.
pub proof fn lemma_menu_ids_understood()
    ensures
        menu_ids().len() == 4,
        menu_actions().len() == 4,
        forall|i: int| 0 <= i < 4 ==> action_of(#[trigger] menu_ids()[i]) == menu_actions()[i],
        forall|i: int| 0 <= i < 4 ==> action_of(#[trigger] menu_ids()[i]) != MenuAction::Unknown,
{
    lemma_ids_distinct();
    assert(menu_ids()[0] != menu_ids()[1]);
    assert(menu_ids()[0] != menu_ids()[2]);
    assert(menu_ids()[0] != menu_ids()[3]);
    assert(menu_ids()[1] != menu_ids()[2]);
    assert(menu_ids()[1] != menu_ids()[3]);
    assert(menu_ids()[2] != menu_ids()[3]);
}

/// Only the four identifiers of the menu are understood.
pub proof fn lemma_unknown_iff_not_in_menu(id: Seq<char>)
    ensures
        action_of(id) == MenuAction::Unknown <==> !menu_ids().contains(id),
{
    if action_of(id) != MenuAction::Unknown {
        let i: int = if id == "show"@ {
            0
        } else if id == "hide"@ {
            1
        } else if id == "pause"@ {
            2
        } else {
            3
        };
        assert(menu_ids()[i] == id);
    }
}

} // verus!
