use linnote::config::DEFAULT_URL;
use linnote::settings::{
    bool_setting, close_request_action, start_hidden, start_url_setting, startup_location,
    CloseAction, SettingValue,
};

#[test]
fn start_url_uses_nonempty_stored_string() {
    let v = SettingValue::Text("https://contoso.sharepoint.com/n".to_string());
    assert_eq!(start_url_setting(Some(&v)), "https://contoso.sharepoint.com/n");
}

#[test]
fn start_url_falls_back_to_default() {
    assert_eq!(start_url_setting(None), DEFAULT_URL);
    assert_eq!(start_url_setting(Some(&SettingValue::Text(String::new()))), DEFAULT_URL);
    assert_eq!(start_url_setting(Some(&SettingValue::Bool(true))), DEFAULT_URL);
    assert_eq!(start_url_setting(Some(&SettingValue::Other)), DEFAULT_URL);
    assert_eq!(DEFAULT_URL, "https://www.onenote.com/notebooks");
}

#[test]
fn bool_settings_with_default() {
    assert!(bool_setting(Some(&SettingValue::Bool(true)), false));
    assert!(!bool_setting(Some(&SettingValue::Bool(false)), true));
    assert!(bool_setting(None, true));
    assert!(!bool_setting(Some(&SettingValue::Text("true".to_string())), false));
    assert!(bool_setting(Some(&SettingValue::Other), true));
}

#[test]
fn close_hides_to_tray_by_default() {
    assert_eq!(close_request_action(None), CloseAction::HideToTray);
    assert_eq!(close_request_action(Some(&SettingValue::Other)), CloseAction::HideToTray);
    assert_eq!(close_request_action(Some(&SettingValue::Bool(true))), CloseAction::HideToTray);
    assert_eq!(close_request_action(Some(&SettingValue::Bool(false))), CloseAction::Close);
}

#[test]
fn shown_at_start_by_default() {
    assert!(!start_hidden(None));
    assert!(start_hidden(Some(&SettingValue::Bool(true))));
    assert!(!start_hidden(Some(&SettingValue::Text("yes".to_string()))));
}

#[test]
fn startup_location_keeps_parsable_url() {
    assert_eq!(startup_location("https://contoso.sharepoint.com/n"), "https://contoso.sharepoint.com/n");
    assert_eq!(startup_location("not a url"), DEFAULT_URL);
    assert_eq!(startup_location(""), DEFAULT_URL);
}
