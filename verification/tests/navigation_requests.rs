use linnote::navigation::{
    navigation_script, navigation_script_for, NavigationError, GO_BACK_SCRIPT, GO_FORWARD_SCRIPT,
};
use linnote::weburl::ParsedUrl;

#[test]
fn allowed_url_yields_location_script() {
    let s = navigation_script("https://www.onenote.com/notebooks").unwrap();
    assert_eq!(s, "window.location.href = 'https://www.onenote.com/notebooks'");
}

#[test]
fn script_keeps_the_requested_text() {
    let s = navigation_script("https://WWW.OneNote.com/a b").unwrap();
    assert_eq!(s, "window.location.href = 'https://WWW.OneNote.com/a b'");
}

#[test]
fn outside_url_is_refused_with_message() {
    match navigation_script("https://example.com") {
        Err(NavigationError::NotAllowed(msg)) => {
            assert_eq!(msg, "URL not in allowed domains: https://example.com")
        }
        other => panic!("unexpected {:?}", other),
    }
}

#[test]
fn unparsable_url_is_refused_with_parse_error() {
    match navigation_script("onenote") {
        Err(NavigationError::InvalidUrl(e)) => {
            assert_eq!(e, url::ParseError::RelativeUrlWithoutBase);
            assert_eq!(e.to_string(), "relative URL without a base");
        }
        other => panic!("unexpected {:?}", other),
    }
}

#[test]
fn decision_on_given_parse() {
    let text = "https://sso.university.edu/saml2/idp/SSOService";
    let parsed = ParsedUrl::new(
        "https".to_string(),
        Some("sso.university.edu".to_string()),
        "/saml2/idp/SSOService".to_string(),
    );
    let s = navigation_script_for(text, Ok(parsed)).unwrap();
    assert_eq!(s, format!("window.location.href = '{}'", text));
    let err = navigation_script_for("x", Err(url::ParseError::EmptyHost));
    assert!(matches!(err, Err(NavigationError::InvalidUrl(url::ParseError::EmptyHost))));
    let err = navigation_script_for("x", Err(url::ParseError::InvalidPort));
    assert!(matches!(err, Err(NavigationError::InvalidUrl(url::ParseError::InvalidPort))));
}

#[test]
fn decision_uses_given_parts_not_text() {
    let parsed = ParsedUrl::new("https".to_string(), Some("example.com".to_string()), "/".to_string());
    match navigation_script_for("https://www.onenote.com/", Ok(parsed)) {
        Err(NavigationError::NotAllowed(msg)) => {
            assert_eq!(msg, "URL not in allowed domains: https://www.onenote.com/")
        }
        other => panic!("unexpected {:?}", other),
    }
}

#[test]
fn parse_error_is_carried_unchanged() {
    match navigation_script("https://www.onenote.com:99999/") {
        Err(NavigationError::InvalidUrl(e)) => {
            assert_eq!(e, url::ParseError::InvalidPort);
            assert_eq!(e.to_string(), "invalid port number");
        }
        other => panic!("unexpected {:?}", other),
    }
    assert!(matches!(
        navigation_script("https://"),
        Err(NavigationError::InvalidUrl(url::ParseError::EmptyHost))
    ));
}

#[test]
fn history_scripts() {
    assert_eq!(GO_BACK_SCRIPT, "window.history.back()");
    assert_eq!(GO_FORWARD_SCRIPT, "window.history.forward()");
}
