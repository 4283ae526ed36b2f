use linnote::config::DEFAULT_URL;
use linnote::navigation::{navigation_script, NavigationError};
use linnote::settings::startup_location;

#[test]
fn parsed_host_is_normalised_before_the_check() {
    // The parser lower-cases scheme and host; the raw text would not match.
    let s = navigation_script("HTTPS://WWW.ONENOTE.COM/notebooks").unwrap();
    assert_eq!(s, "window.location.href = 'HTTPS://WWW.ONENOTE.COM/notebooks'");
}

#[test]
fn parsed_path_excludes_query_and_fragment() {
    // "/login" only in the query: the path is "/", so no SSO exception.
    assert!(matches!(
        navigation_script("https://login.example.org/?next=/login"),
        Err(NavigationError::NotAllowed(_))
    ));
    assert!(navigation_script("https://login.example.org/login?x=1").is_ok());
}

#[test]
fn hostless_urls_are_internal() {
    assert!(navigation_script("data:text/html,hello").is_ok());
    assert!(navigation_script("about:blank").is_ok());
}

#[test]
fn unparsable_text_falls_back() {
    assert_eq!(startup_location("not a url"), DEFAULT_URL);
    assert!(matches!(
        navigation_script("not a url"),
        Err(NavigationError::InvalidUrl(url::ParseError::RelativeUrlWithoutBase))
    ));
}
