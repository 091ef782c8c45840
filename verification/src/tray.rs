//! The tray icon as it is built once at startup, and the names by which
//! the host finds the shell's parts.

use vstd::prelude::*;
use crate::menu::{menu_ids, menu_labels, tray_menu, MenuEntry};

verus! {

/// The identifier under which the tray icon is registered and looked up.
pub const TRAY_ID: &'static str = "main-tray";

/// The identifier of the main window.
pub const MAIN_WINDOW_ID: &'static str = "main";

/// The name of the event that asks the frontend to pause or resume. It is
/// emitted to the whole application and carries no payload.
pub const TOGGLE_PAUSE_EVENT: &'static str = "toggle-pause";

/// The tooltip that the tray icon starts with.
pub const TRAY_TOOLTIP: &'static str = "健康提醒助手";

/// What the host needs to build the tray icon, but for the image.
#[derive(Debug)]
pub struct TrayConfig {
    /// The identifier to register the icon under.
    pub id: &'static str,
    /// The tooltip at startup.
    pub tooltip: &'static str,
    /// Whether a left click opens the menu. It does not: the left button
    /// belongs to the icon's own click handling.
    pub show_menu_on_left_click: bool,
    /// The entries of the menu, from top to bottom.
    pub menu: Vec<MenuEntry>,
}

/// The configuration of the tray icon. It is the same at every start.
pub fn tray_config() -> (config: TrayConfig)
    ensures
        config.id@ == "main-tray"@,
        config.tooltip@ == "健康提醒助手"@,
        !config.show_menu_on_left_click,
        config.menu@.len() == 4,
        forall|i: int|
            0 <= i < 4 ==> {
                &&& (#[trigger] config.menu@[i]).id@ == menu_ids()[i]
                &&& config.menu@[i].label@ == menu_labels()[i]
                &&& config.menu@[i].enabled
            },
{
    TrayConfig {
        id: TRAY_ID,
        tooltip: TRAY_TOOLTIP,
        show_menu_on_left_click: false,
        menu: tray_menu(),
    }
}

} // verus!
