use nanowhisper::window::{hides_on_close, menu_action, MenuAction};

#[test]
fn tray_menu_items() {
    assert_eq!(menu_action("show"), MenuAction::ShowMain);
    assert_eq!(menu_action("quit"), MenuAction::Quit);
    assert_eq!(menu_action("Show"), MenuAction::Ignore);
    assert_eq!(menu_action(""), MenuAction::Ignore);
}

#[test]
fn only_main_window_hides() {
    assert!(hides_on_close("main"));
    assert!(!hides_on_close("overlay"));
}
