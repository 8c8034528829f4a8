use keypeek::overlay::{MenuAction, MenuItem, UiState};

#[test]
fn starts_with_settings_shown() {
    let mut ui = UiState::new();
    assert!(ui.settings_visible);
    assert_eq!(ui.last_settings_visible, None);
    assert_eq!(ui.sync_mouse_passthrough(), Some(false));
    assert_eq!(ui.sync_mouse_passthrough(), None);
}

#[test]
fn tray_click_toggles_and_passthrough_follows() {
    let mut ui = UiState::new();
    ui.sync_mouse_passthrough();
    ui.on_tray_click();
    assert!(!ui.settings_visible);
    assert_eq!(ui.sync_mouse_passthrough(), Some(true));
    ui.on_tray_click();
    ui.on_tray_click();
    assert_eq!(ui.sync_mouse_passthrough(), None);
}

#[test]
fn menu_items() {
    let mut ui = UiState::new();
    assert_eq!(ui.on_menu_item(MenuItem::Settings), MenuAction::Continue);
    assert!(!ui.settings_visible);
    assert_eq!(ui.on_menu_item(MenuItem::Other), MenuAction::Continue);
    assert!(!ui.settings_visible);
    assert_eq!(ui.on_menu_item(MenuItem::Quit), MenuAction::Quit);
    assert!(!ui.settings_visible);
}

#[test]
fn messages_are_dismissed() {
    let mut ui = UiState::new();
    ui.settings_error = Some("bad".to_string());
    ui.settings_warning = Some("note".to_string());
    ui.dismiss_error();
    assert_eq!(ui.settings_error, None);
    assert_eq!(ui.settings_warning, Some("note".to_string()));
    ui.dismiss_warning();
    assert_eq!(ui.settings_warning, None);
}
