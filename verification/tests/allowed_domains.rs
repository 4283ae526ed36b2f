use linnote::config::{is_allowed_domain, is_federated_sso_endpoint, is_listed_host_exec, DEFAULT_URL};
use linnote::weburl::ParsedUrl;
use url::Url;

fn parts(url: &Url) -> ParsedUrl {
    ParsedUrl::new(url.scheme().to_string(), url.host_str().map(String::from), url.path().to_string())
}

fn allowed(url: &str) -> bool {
    is_allowed_domain(&parts(&Url::parse(url).unwrap()))
}

#[test]
fn test_allowed_domains() {
    // Core OneNote
    assert!(allowed("https://www.onenote.com/notebooks"));
    assert!(allowed("https://onenote.officeapps.live.com/o/onenoteframe.aspx"));

    // Microsoft auth
    assert!(allowed("https://login.microsoftonline.com/oauth"));
    assert!(allowed("https://login.live.com/auth"));

    // SharePoint (school/org notebooks)
    assert!(allowed(
        "https://eduvic.sharepoint.com/sites/BBB12AFoodStudies2026/_layouts/15/Doc.aspx"
    ));

    // Federated SSO endpoints (school identity providers)
    assert!(allowed("https://adfs.school.edu.au/adfs/ls/"));
    assert!(allowed("https://login.edustar.vic.edu.au/adfs/oauth2/authorize"));
    assert!(allowed("https://sso.university.edu/saml2/idp/SSOService"));
    assert!(allowed("https://sts.myschool.edu/auth/realms/master"));

    // Internal browser schemes
    assert!(allowed("about:blank"));
    assert!(allowed("data:text/html,hello"));
    assert!(allowed("blob:https://onenote.com/abc"));

    // External sites should still be blocked
    assert!(!allowed("https://www.google.com"));
    assert!(!allowed("https://example.com"));
    assert!(!allowed("https://random-site.com/login"));
}

#[test]
fn default_start_page_is_allowed() {
    assert!(allowed(DEFAULT_URL));
}

#[test]
fn auth_path_letter_case_is_ignored() {
    let u = ParsedUrl::new("https".to_string(), Some("sso.uni.edu".to_string()), "/SAML2/x".to_string());
    assert!(is_allowed_domain(&u));
    assert!(allowed("https://adfs.school.edu.au/ADFS/ls/"));
    assert!(allowed("https://idp.example.org/SAML2/SSO"));
}

#[test]
fn sso_host_without_auth_path_is_refused() {
    assert!(!allowed("https://adfs.school.edu.au/home"));
    assert!(!allowed("https://login.example.org/"));
}

#[test]
fn auth_path_on_unknown_host_is_refused() {
    assert!(!allowed("https://portal.example.org/adfs/ls"));
}

#[test]
fn subdomains_of_listed_hosts_are_allowed() {
    assert!(is_listed_host_exec("onenote.com"));
    assert!(is_listed_host_exec("x.onenote.com"));
    assert!(is_listed_host_exec("y.x.onenote.com"));
    assert!(allowed("https://deep.tenant.sharepoint.com/"));
}

#[test]
fn suffix_without_dot_is_not_a_subdomain() {
    assert!(!is_listed_host_exec("evilonenote.com"));
    assert!(!allowed("https://evilsharepoint.com/"));
    assert!(!allowed("https://onenote.com.evil.net/"));
}

#[test]
fn web_url_without_host_is_refused() {
    let u = ParsedUrl::new("https".to_string(), None, "/".to_string());
    assert!(!is_allowed_domain(&u));
}

#[test]
fn internal_scheme_always_allowed() {
    let u = ParsedUrl::new("file".to_string(), Some("example.com".to_string()), "/x".to_string());
    assert!(is_allowed_domain(&u));
}

#[test]
fn plain_http_follows_same_rules() {
    assert!(allowed("http://www.onenote.com/"));
    assert!(!allowed("http://example.com/"));
}

#[test]
fn federated_sso_endpoint_on_lowered_path() {
    assert!(is_federated_sso_endpoint("sts.example.edu", "/auth/x"));
    assert!(!is_federated_sso_endpoint("sts.example.edu", "/AUTH/x"));
    assert!(!is_federated_sso_endpoint("www.example.edu", "/auth/x"));
    assert!(is_federated_sso_endpoint("federation.corp.com", "/federationmetadata/2007-06"));
}

#[test]
fn ascii_path_lowercasing_maps_only_letters() {
    // "/ADFS" lower-cases to "/adfs"; digits and punctuation are kept.
    assert!(allowed("https://sts.example.edu/ADFS/LS-2/"));
    // Non-ASCII upper case is lowered by the Unicode mapping too.
    let u = ParsedUrl::new("https".to_string(), Some("idp.x.org".to_string()), "/ÀUTH/SAML".to_string());
    assert!(is_allowed_domain(&u));
}
