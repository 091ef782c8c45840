use tray_shell::menu::tray_menu;
use tray_shell::tooltip::{tooltip_reply, update_tray_tooltip};
use tray_shell::tray::{tray_config, MAIN_WINDOW_ID, TOGGLE_PAUSE_EVENT, TRAY_ID, TRAY_TOOLTIP};

#[test]
fn tooltip_is_handed_on_unchanged_when_tray_exists() {
    assert_eq!(update_tray_tooltip(true, String::from("X")), Some(String::from("X")));
    assert_eq!(update_tray_tooltip(true, String::new()), Some(String::new()));
    assert_eq!(
        update_tray_tooltip(true, String::from("下次休息 12:30 ")),
        Some(String::from("下次休息 12:30 "))
    );
}

#[test]
fn tooltip_without_tray_sets_nothing_and_succeeds() {
    let text = update_tray_tooltip(false, String::from("X"));
    assert_eq!(text, None);
    assert_eq!(tooltip_reply(None), Ok(()));
}

#[test]
fn tooltip_reply_passes_the_outcome_on() {
    assert_eq!(tooltip_reply(Some(Ok(()))), Ok(()));
    assert_eq!(
        tooltip_reply(Some(Err(String::from("tray icon is gone")))),
        Err(String::from("tray icon is gone"))
    );
    assert_eq!(tooltip_reply(Some(Err(String::new()))), Err(String::new()));
}

#[test]
fn menu_has_four_entries_in_order() {
    let entries = tray_menu();
    let ids: Vec<&str> = entries.iter().map(|e| e.id).collect();
    let labels: Vec<&str> = entries.iter().map(|e| e.label).collect();
    assert_eq!(ids, vec!["show", "hide", "pause", "quit"]);
    assert_eq!(labels, vec!["显示窗口", "隐藏窗口", "暂停/恢复", "退出程序"]);
    assert!(entries.iter().all(|e| e.enabled));
}

#[test]
fn stable_names() {
    assert_eq!(TRAY_ID, "main-tray");
    assert_eq!(MAIN_WINDOW_ID, "main");
    assert_eq!(TOGGLE_PAUSE_EVENT, "toggle-pause");
    assert_eq!(TRAY_TOOLTIP, "健康提醒助手");
}

#[test]
fn tray_config_values() {
    let config = tray_config();
    assert_eq!(config.id, "main-tray");
    assert_eq!(config.tooltip, "健康提醒助手");
    assert!(!config.show_menu_on_left_click);
    let ids: Vec<&str> = config.menu.iter().map(|e| e.id).collect();
    assert_eq!(ids, vec!["show", "hide", "pause", "quit"]);
}
