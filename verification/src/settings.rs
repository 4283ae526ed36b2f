//! Interpretation of the persisted settings that drive start-up and window
//! behaviour.

use vstd::prelude::*;

use crate::config::DEFAULT_URL;
use crate::weburl::{parse_url, url_crate_parse};

verus! {

/// The settings file of the key-value store.
pub const SETTINGS_FILE: &'static str = "settings.json";

/// Key of the custom start page.
pub const START_URL_KEY: &'static str = "start_url";

/// Key of the persisted page zoom.
pub const ZOOM_LEVEL_KEY: &'static str = "zoom_level";

/// Key of the "launch hidden in the tray" flag.
pub const START_MINIMIZED_KEY: &'static str = "start_minimized";

/// Key of the "hide to tray instead of quitting on close" flag.
pub const CLOSE_TO_TRAY_KEY: &'static str = "close_to_tray";

/// A value read from the settings store, as far as the settings logic reads
/// it: a boolean, a string, or anything else (numbers, arrays, objects,
/// null).
#[derive(Debug, Clone)]
pub enum SettingValue {
    Bool(bool),
    Text(String),
    Other,
}

/// The start page chosen from the stored `start_url` value: a non-empty
/// stored string, otherwise the default page.
pub open spec fn start_url_choice(stored: Option<SettingValue>) -> Seq<char> {
    match stored {
        Some(SettingValue::Text(s)) => if s@.len() > 0 {
            s@
        } else {
            DEFAULT_URL@
        },
        _ => DEFAULT_URL@,
    }
}

/// A boolean setting: the stored boolean, otherwise `default`.
pub open spec fn bool_setting_value(stored: Option<SettingValue>, default: bool) -> bool {
    match stored {
        Some(SettingValue::Bool(b)) => b,
        _ => default,
    }
}

/// The start page: the stored `start_url` when it is a non-empty string,
/// otherwise `DEFAULT_URL`. `stored` is `None` when the store or the key is
/// missing.
pub fn start_url_setting(stored: Option<&SettingValue>) -> (res: String)
    ensures
        res@ == start_url_choice(
            match stored {
                Some(v) => Some(*v),
                None => None,
            },
        ),
{
    match stored {
        Some(SettingValue::Text(s)) => {
            if s.as_str().is_empty() {
                String::from_str(DEFAULT_URL)
            } else {
                s.clone()
            }
        },
        _ => String::from_str(DEFAULT_URL),
    }
}

/// A boolean setting: the stored value when it is a boolean, otherwise
/// `default` (also when the store or the key is missing).
pub fn bool_setting(stored: Option<&SettingValue>, default: bool) -> (res: bool)
    ensures
        res == bool_setting_value(
            match stored {
                Some(v) => Some(*v),
                None => None,
            },
            default,
        ),
{
    match stored {
        Some(SettingValue::Bool(b)) => *b,
        _ => default,
    }
}

/// What a request to close the main window does.
#[derive(Debug, Clone, Copy, PartialEq, Eq)]
pub enum CloseAction {
    /// Keep the application running and hide the window to the tray.
    HideToTray,
    /// Let the window close.
    Close,
}

/// The reaction to a close request given the stored `close_to_tray` value:
/// hide to the tray unless the setting is the boolean `false` (the default
/// is to hide).
pub fn close_request_action(stored: Option<&SettingValue>) -> (res: CloseAction)
    ensures
        (res == CloseAction::HideToTray) == bool_setting_value(
            match stored {
                Some(v) => Some(*v),
                None => None,
            },
            true,
        ),
{
    if bool_setting(stored, true) {
        CloseAction::HideToTray
    } else {
        CloseAction::Close
    }
}

/// Whether the main window starts hidden, given the stored
/// `start_minimized` value (the default is to show it).
pub fn start_hidden(stored: Option<&SettingValue>) -> (res: bool)
    ensures
        res == bool_setting_value(
            match stored {
                Some(v) => Some(*v),
                None => None,
            },
            false,
        ),
{
    bool_setting(stored, false)
}

/// The location the main window opens: `start_url` when the `url` crate
/// parses it, otherwise `DEFAULT_URL`.
pub fn startup_location(start_url: &str) -> (res: String)
    ensures
        url_crate_parse(start_url@) is Ok ==> res@ == start_url@,
        url_crate_parse(start_url@) is Err ==> res@ == DEFAULT_URL@,
{
    match parse_url(start_url) {
        Ok(_) => String::from_str(start_url),
        Err(_) => String::from_str(DEFAULT_URL),
    }
}

/// A stored boolean setting is used as it is, whatever the default; any
/// other stored value, or none, gives the default.
pub proof fn stored_booleans_win(b: bool, default: bool, other: Option<SettingValue>)
    requires
        !(other matches Some(SettingValue::Bool(_))),
    ensures
        bool_setting_value(Some(SettingValue::Bool(b)), default) == b,
        bool_setting_value(other, default) == default,
{
}

/// The window starts hidden exactly when the stored `start_minimized` is the
/// boolean `true`, and a close request hides to the tray unless the stored
/// `close_to_tray` is the boolean `false`.
pub proof fn start_and_close_defaults(stored: Option<SettingValue>)
    ensures
        bool_setting_value(stored, false) <==> stored == Some(SettingValue::Bool(true)),
        !bool_setting_value(stored, true) <==> stored == Some(SettingValue::Bool(false)),
{
}

/// Every non-empty stored start page is used as it is; an empty or
/// non-string stored value, or none, gives the default page.
pub proof fn stored_start_page_used(s: String, other: Option<SettingValue>)
    requires
        !(other matches Some(SettingValue::Text(_))),
    ensures
        s@.len() > 0 ==> start_url_choice(Some(SettingValue::Text(s))) == s@,
        s@.len() == 0 ==> start_url_choice(Some(SettingValue::Text(s))) == DEFAULT_URL@,
        start_url_choice(other) == DEFAULT_URL@,
{
}

} // verus!
