use kt_ui::desktop_menu::is_settings_menu_id;

#[test]
fn settings_menu_id_is_stable() {
    assert!(is_settings_menu_id("kitonyterms-settings"));
    assert!(!is_settings_menu_id("other"));
}
