//! Which locations the webview may navigate to: internal browser schemes,
//! the Microsoft / OneNote domains and their subdomains, and federated
//! single-sign-on endpoints of schools and organisations.

use vstd::prelude::*;

use crate::text::{
    chars_equal, chars_of, contains, has_prefix, has_substring, has_suffix, occurs_at,
    occurs_at_exec, starts_with, str_equal, to_lowercase, unicode_lowercase, all_ascii,
    ascii_lowercase,
};
use crate::weburl::{ParsedUrl, UrlParts};

verus! {

/// The page the webview opens when no other start page is configured.
pub const DEFAULT_URL: &'static str = "https://www.onenote.com/notebooks";

/// The user agent the webview presents on Linux (a desktop Chrome), so that
/// OneNote serves its full web client.
pub const LINUX_USER_AGENT: &'static str = "Mozilla/5.0 (X11; Linux x86_64) AppleWebKit/537.36 (KHTML, like Gecko) Chrome/124.0.0.0 Safari/537.36";

/// The user agent the webview presents on Windows.
pub const WINDOWS_USER_AGENT: &'static str = "Mozilla/5.0 (Windows NT 10.0; Win64; x64) AppleWebKit/537.36 (KHTML, like Gecko) Chrome/124.0.0.0 Safari/537.36";

/// The user agent the webview presents on macOS.
pub const MACOS_USER_AGENT: &'static str = "Mozilla/5.0 (Macintosh; Intel Mac OS X 10_15_7) AppleWebKit/537.36 (KHTML, like Gecko) Chrome/124.0.0.0 Safari/537.36";

/// The desktop platform the application runs on.
#[derive(Debug, Clone, Copy, PartialEq, Eq)]
pub enum Platform {
    Linux,
    Windows,
    MacOs,
}

/// The user agent for a platform.
pub open spec fn user_agent_for(platform: Platform) -> Seq<char> {
    match platform {
        Platform::Linux => LINUX_USER_AGENT@,
        Platform::Windows => WINDOWS_USER_AGENT@,
        Platform::MacOs => MACOS_USER_AGENT@,
    }
}

/// The user agent the webview presents on `platform`.
pub fn app_user_agent(platform: Platform) -> (res: &'static str)
    ensures
        res@ == user_agent_for(platform),
{
    match platform {
        Platform::Linux => LINUX_USER_AGENT,
        Platform::Windows => WINDOWS_USER_AGENT,
        Platform::MacOs => MACOS_USER_AGENT,
    }
}

/// Domains the webview may navigate within (Microsoft auth and the OneNote
/// ecosystem): personal accounts, work accounts (Entra ID) and school
/// accounts (federated ADFS and Entra ID SSO). A host matches a domain when
/// it equals it or is a subdomain of it.
pub open spec fn allowed_domain_list() -> Seq<Seq<char>> {
    seq![
        "onenote.com"@,
        "onenote.officeapps.live.com"@,
        "onenote.cloud.microsoft"@,
        "microsoft.com"@,
        "microsoftonline.com"@,
        "microsoftonline-p.com"@,
        "microsoftazuread-sso.com"@,
        "live.com"@,
        "login.windows.net"@,
        "windows.net"@,
        "msauth.net"@,
        "msftauth.net"@,
        "msftcloudes.com"@,
        "msidentity.com"@,
        "aadcdn.msftauth.net"@,
        "aadcdn.msauthimages.net"@,
        "secure.aadcdn.microsoftonline-p.com"@,
        "office.com"@,
        "office.net"@,
        "office365.com"@,
        "officeapps.live.com"@,
        "sharepoint.com"@,
        "onedrive.com"@,
        "outlook.com"@,
        "svc.ms"@,
        "azure.com"@,
        "azure.net"@,
        "azureedge.net"@,
        "microsoft365.com"@,
        "ms365.eu"@,
        "msocdn.com"@,
        "msa.akamaized.net"@,
        "activedirectory.windowsazure.com"@,
        "chinacloudapi.cn"@,
        "partner.microsoftonline.cn"@,
        "microsoftonline.us"@,
        "msftconnecttest.com"@,
        "browser.pipe.aria.microsoft.com"@,
        "browser.events.data.microsoft.com"@,
        "nleditor.osi.office.net"@,
    ]
}

/// Host prefixes commonly used by federated identity providers (school and
/// organisation single sign-on).
pub open spec fn federated_auth_pattern_list() -> Seq<Seq<char>> {
    seq![
        "adfs."@,
        "sts."@,
        "sso."@,
        "login."@,
        "auth."@,
        "idp."@,
        "federation."@,
    ]
}

/// Path fragments that mark an authentication endpoint; they are looked for
/// in the lower-cased path.
pub open spec fn auth_path_marker_list() -> Seq<Seq<char>> {
    seq![
        "/adfs"@,
        "/saml"@,
        "/oauth"@,
        "/auth"@,
        "/sso"@,
        "/wsfed"@,
        "/federationmetadata"@,
        "/login"@,
    ]
}

/// The domains of `allowed_domain_list`, in order.
pub fn allowed_domains() -> (v: Vec<&'static str>)
    ensures
        v.len() == allowed_domain_list().len(),
        forall|i: int| 0 <= i < v.len() ==> #[trigger] v@[i]@ == allowed_domain_list()[i],
{
    let mut v: Vec<&'static str> = Vec::new();
    v.push("onenote.com");
    v.push("onenote.officeapps.live.com");
    v.push("onenote.cloud.microsoft");
    v.push("microsoft.com");
    v.push("microsoftonline.com");
    v.push("microsoftonline-p.com");
    v.push("microsoftazuread-sso.com");
    v.push("live.com");
    v.push("login.windows.net");
    v.push("windows.net");
    v.push("msauth.net");
    v.push("msftauth.net");
    v.push("msftcloudes.com");
    v.push("msidentity.com");
    v.push("aadcdn.msftauth.net");
    v.push("aadcdn.msauthimages.net");
    v.push("secure.aadcdn.microsoftonline-p.com");
    v.push("office.com");
    v.push("office.net");
    v.push("office365.com");
    v.push("officeapps.live.com");
    v.push("sharepoint.com");
    v.push("onedrive.com");
    v.push("outlook.com");
    v.push("svc.ms");
    v.push("azure.com");
    v.push("azure.net");
    v.push("azureedge.net");
    v.push("microsoft365.com");
    v.push("ms365.eu");
    v.push("msocdn.com");
    v.push("msa.akamaized.net");
    v.push("activedirectory.windowsazure.com");
    v.push("chinacloudapi.cn");
    v.push("partner.microsoftonline.cn");
    v.push("microsoftonline.us");
    v.push("msftconnecttest.com");
    v.push("browser.pipe.aria.microsoft.com");
    v.push("browser.events.data.microsoft.com");
    v.push("nleditor.osi.office.net");
    v
}

/// The host prefixes of `federated_auth_pattern_list`, in order.
pub fn federated_auth_patterns() -> (v: Vec<&'static str>)
    ensures
        v.len() == federated_auth_pattern_list().len(),
        forall|i: int| 0 <= i < v.len() ==> #[trigger] v@[i]@ == federated_auth_pattern_list()[i],
{
    let mut v: Vec<&'static str> = Vec::new();
    v.push("adfs.");
    v.push("sts.");
    v.push("sso.");
    v.push("login.");
    v.push("auth.");
    v.push("idp.");
    v.push("federation.");
    v
}

/// The path fragments of `auth_path_marker_list`, in order.
pub fn auth_path_markers() -> (v: Vec<&'static str>)
    ensures
        v.len() == auth_path_marker_list().len(),
        forall|i: int| 0 <= i < v.len() ==> #[trigger] v@[i]@ == auth_path_marker_list()[i],
{
    let mut v: Vec<&'static str> = Vec::new();
    v.push("/adfs");
    v.push("/saml");
    v.push("/oauth");
    v.push("/auth");
    v.push("/sso");
    v.push("/wsfed");
    v.push("/federationmetadata");
    v.push("/login");
    v
}

/// `host` is `domain` itself or one of its subdomains: it ends with `"."`
/// followed by `domain`.
pub open spec fn matches_domain(host: Seq<char>, domain: Seq<char>) -> bool {
    host == domain || has_suffix(host, seq!['.'] + domain)
}

/// `host` matches one of the allowed domains.
pub open spec fn is_listed_host(host: Seq<char>) -> bool {
    exists|i: int|
        0 <= i < allowed_domain_list().len() && #[trigger] matches_domain(
            host,
            allowed_domain_list()[i],
        )
}

/// `host` starts with one of the federated identity-provider prefixes.
pub open spec fn is_sso_host(host: Seq<char>) -> bool {
    exists|i: int|
        0 <= i < federated_auth_pattern_list().len() && #[trigger] has_prefix(
            host,
            federated_auth_pattern_list()[i],
        )
}

/// The (lower-cased) path contains one of the authentication markers.
pub open spec fn is_auth_path(lowered_path: Seq<char>) -> bool {
    exists|i: int|
        0 <= i < auth_path_marker_list().len() && #[trigger] has_substring(
            lowered_path,
            auth_path_marker_list()[i],
        )
}

/// A federated single-sign-on endpoint: an identity-provider host serving an
/// authentication path.
pub open spec fn is_federated_sso(host: Seq<char>, lowered_path: Seq<char>) -> bool {
    is_auth_path(lowered_path) && is_sso_host(host)
}

/// The scheme is one of the web schemes `http` and `https`.
pub open spec fn is_web_scheme(scheme: Seq<char>) -> bool {
    scheme == "http"@ || scheme == "https"@
}

/// Whether the webview may navigate to a URL with the given parts, when
/// `lowered_path` is its path in lower case. Internal browser schemes
/// (`about:`, `data:`, `blob:`, ...) are always allowed; a web URL needs a
/// host that is listed, or a federated SSO host with an authentication path.
pub open spec fn navigation_allowed_lowered(u: UrlParts, lowered_path: Seq<char>) -> bool {
    if !is_web_scheme(u.0) {
        true
    } else {
        match u.1 {
            None => false,
            Some(host) => is_listed_host(host) || is_federated_sso(host, lowered_path),
        }
    }
}

/// Whether the webview may navigate to a URL with the given parts, the path
/// being compared in lower case.
pub open spec fn navigation_allowed(u: UrlParts) -> bool {
    navigation_allowed_lowered(u, unicode_lowercase(u.2))
}

/// Whether `host` is `domain` or a subdomain of it.
pub fn host_matches_domain(host: &Vec<char>, domain: &Vec<char>) -> (res: bool)
    ensures
        res == matches_domain(host@, domain@),
{
    let ghost dotted = seq!['.'] + domain@;
    if chars_equal(host, domain) {
        return true;
    }
    if host.len() <= domain.len() {
        return false;
    }
    let start = host.len() - domain.len();
    let dot_ok = host[start - 1] == '.';
    let tail_ok = occurs_at_exec(host, domain, start);
    proof {
        let h = host@;
        let d = domain@;
        let sub = h.subrange(h.len() - dotted.len(), h.len() as int);
        if dot_ok && tail_ok {
            assert(sub =~= dotted) by {
                assert forall|k: int| 0 <= k < dotted.len() implies sub[k] == dotted[k] by {
                    if k > 0 {
                        assert(h.subrange(start as int, start + d.len())[k - 1] == d[k - 1]);
                    }
                }
            }
        }
        if has_suffix(h, dotted) {
            assert(sub[0] == dotted[0]);
            assert(h.subrange(start as int, start + d.len()) =~= d) by {
                assert forall|k: int| 0 <= k < d.len() implies h.subrange(
                    start as int,
                    start + d.len(),
                )[k] == d[k] by {
                    assert(sub[k + 1] == dotted[k + 1]);
                }
            }
        }
    }
    dot_ok && tail_ok
}

/// Whether `host` equals one of the allowed domains or is a subdomain of one.
pub fn is_listed_host_exec(host: &str) -> (res: bool)
    ensures
        res == is_listed_host(host@),
{
    let hv = chars_of(host);
    let domains = allowed_domains();
    let mut i: usize = 0;
    while i < domains.len()
        invariant
            hv@ == host@,
            domains.len() == allowed_domain_list().len(),
            forall|k: int| 0 <= k < domains.len() ==> #[trigger] domains@[k]@ == allowed_domain_list()[k],
            i <= domains.len(),
            forall|k: int| 0 <= k < i ==> !matches_domain(host@, #[trigger] allowed_domain_list()[k]),
        decreases domains.len() - i,
    {
        let dv = chars_of(domains[i]);
        assert(dv@ == allowed_domain_list()[i as int]);
        if host_matches_domain(&hv, &dv) {
            return true;
        }
        i = i + 1;
    }
    false
}

/// Whether `host` starts with one of the federated identity-provider prefixes.
pub fn is_sso_host_exec(host: &str) -> (res: bool)
    ensures
        res == is_sso_host(host@),
{
    let patterns = federated_auth_patterns();
    let mut i: usize = 0;
    while i < patterns.len()
        invariant
            patterns.len() == federated_auth_pattern_list().len(),
            forall|k: int| 0 <= k < patterns.len() ==> #[trigger] patterns@[k]@ == federated_auth_pattern_list()[k],
            i <= patterns.len(),
            forall|k: int| 0 <= k < i ==> !has_prefix(host@, #[trigger] federated_auth_pattern_list()[k]),
        decreases patterns.len() - i,
    {
        if starts_with(host, patterns[i]) {
            assert(has_prefix(host@, federated_auth_pattern_list()[i as int]));
            return true;
        }
        i = i + 1;
    }
    false
}

/// Whether the already lower-cased path contains an authentication marker.
pub fn is_auth_path_exec(lowered_path: &str) -> (res: bool)
    ensures
        res == is_auth_path(lowered_path@),
{
    let markers = auth_path_markers();
    let mut i: usize = 0;
    while i < markers.len()
        invariant
            markers.len() == auth_path_marker_list().len(),
            forall|k: int| 0 <= k < markers.len() ==> #[trigger] markers@[k]@ == auth_path_marker_list()[k],
            i <= markers.len(),
            forall|k: int| 0 <= k < i ==> !has_substring(lowered_path@, #[trigger] auth_path_marker_list()[k]),
        decreases markers.len() - i,
    {
        if contains(lowered_path, markers[i]) {
            assert(has_substring(lowered_path@, auth_path_marker_list()[i as int]));
            return true;
        }
        i = i + 1;
    }
    false
}

/// Whether `host` with the already lower-cased path `lowered_path` is a
/// federated single-sign-on endpoint.
pub fn is_federated_sso_endpoint(host: &str, lowered_path: &str) -> (res: bool)
    ensures
        res == is_federated_sso(host@, lowered_path@),
{
    let auth_path = is_auth_path_exec(lowered_path);
    let sso_host = is_sso_host_exec(host);
    auth_path && sso_host
}

/// Whether the webview may navigate to `url`: internal browser schemes
/// always, web URLs when their host is one of the allowed Microsoft domains
/// (or a subdomain), or a federated SSO host serving an authentication path.
pub fn is_allowed_domain(url: &ParsedUrl) -> (res: bool)
    ensures
        res == navigation_allowed(url@),
        all_ascii(url@.2) ==> res == navigation_allowed_lowered(url@, ascii_lowercase(url@.2)),
{
    let scheme = url.scheme();
    if !str_equal(scheme, "http") && !str_equal(scheme, "https") {
        return true;
    }
    let host = match url.host() {
        Some(h) => h,
        None => return false,
    };
    if is_listed_host_exec(host) {
        return true;
    }
    let lowered = to_lowercase(url.path());
    is_federated_sso_endpoint(host, lowered.as_str())
}

/// Internal browser schemes (anything but `http` and `https`, such as
/// `about:blank`, `data:` or `blob:` URLs) are always allowed.
pub proof fn internal_schemes_always_allowed(u: UrlParts)
    requires
        !is_web_scheme(u.0),
    ensures
        navigation_allowed(u),
{
}

/// A web URL without a host is never allowed.
pub proof fn hostless_web_urls_refused(u: UrlParts)
    requires
        is_web_scheme(u.0),
        u.1 is None,
    ensures
        !navigation_allowed(u),
{
}

/// A web URL whose host is an allowed domain, or a subdomain of one, is
/// allowed whatever its path.
pub proof fn listed_domains_allowed(scheme: Seq<char>, host: Seq<char>, path: Seq<char>, i: int)
    requires
        0 <= i < allowed_domain_list().len(),
        matches_domain(host, allowed_domain_list()[i]),
    ensures
        navigation_allowed((scheme, Some(host), path)),
{
}

/// Every subdomain of an allowed host is allowed too: prefixing a label and
/// a dot to a listed host gives a listed host.
pub proof fn subdomains_of_listed_hosts_listed(host: Seq<char>, label: Seq<char>)
    requires
        is_listed_host(host),
    ensures
        is_listed_host(label + seq!['.'] + host),
{
    let i = choose|i: int|
        0 <= i < allowed_domain_list().len() && #[trigger] matches_domain(
            host,
            allowed_domain_list()[i],
        );
    let d = allowed_domain_list()[i];
    let dotted = seq!['.'] + d;
    let longer = label + seq!['.'] + host;
    if host == d {
        assert(longer.subrange(longer.len() - dotted.len(), longer.len() as int) =~= dotted);
    } else {
        assert(host.subrange(host.len() - dotted.len(), host.len() as int) == dotted);
        assert(longer.subrange(longer.len() - dotted.len(), longer.len() as int) =~= dotted) by {
            assert forall|k: int| 0 <= k < dotted.len() implies longer.subrange(
                longer.len() - dotted.len(),
                longer.len() as int,
            )[k] == dotted[k] by {
                assert(host.subrange(host.len() - dotted.len(), host.len() as int)[k] == dotted[k]);
            }
        }
    }
    assert(matches_domain(longer, allowed_domain_list()[i]));
}

/// A federated identity-provider host serving an authentication path (in
/// any letter case that lower-cases to a marker) is allowed.
pub proof fn federated_sso_endpoints_allowed(scheme: Seq<char>, host: Seq<char>, path: Seq<char>)
    requires
        is_web_scheme(scheme),
        is_sso_host(host),
        is_auth_path(unicode_lowercase(path)),
    ensures
        navigation_allowed((scheme, Some(host), path)),
{
}

/// A web URL whose host is neither an allowed domain nor an identity-provider
/// host is refused, whatever its path.
pub proof fn unknown_hosts_refused(scheme: Seq<char>, host: Seq<char>, path: Seq<char>)
    requires
        is_web_scheme(scheme),
        !is_listed_host(host),
        !is_sso_host(host),
    ensures
        !navigation_allowed((scheme, Some(host), path)),
{
}

/// An identity-provider host that is not an allowed domain is allowed only
/// on an authentication path.
pub proof fn sso_hosts_need_auth_path(scheme: Seq<char>, host: Seq<char>, path: Seq<char>)
    requires
        is_web_scheme(scheme),
        !is_listed_host(host),
        !is_auth_path(unicode_lowercase(path)),
    ensures
        !navigation_allowed((scheme, Some(host), path)),
{
}

/// The decision ignores letter case in the path: two URLs with the same
/// scheme and host whose paths lower-case alike get the same answer.
pub proof fn path_case_ignored(scheme: Seq<char>, host: Option<Seq<char>>, p1: Seq<char>, p2: Seq<char>)
    requires
        unicode_lowercase(p1) == unicode_lowercase(p2),
    ensures
        navigation_allowed((scheme, host, p1)) == navigation_allowed((scheme, host, p2)),
{
}

/// Every Microsoft / OneNote domain of the navigation allow-list, and every
/// subdomain of one, may be opened over `http` or `https`, whatever the path.
pub proof fn microsoft_domains_and_subdomains_allowed(
    scheme: Seq<char>,
    domain: Seq<char>,
    label: Seq<char>,
    path: Seq<char>,
)
    requires
        scheme == "https"@ || scheme == "http"@,
        seq![
            "onenote.com"@,
            "onenote.officeapps.live.com"@,
            "onenote.cloud.microsoft"@,
            "microsoft.com"@,
            "microsoftonline.com"@,
            "microsoftonline-p.com"@,
            "microsoftazuread-sso.com"@,
            "live.com"@,
            "login.windows.net"@,
            "windows.net"@,
            "msauth.net"@,
            "msftauth.net"@,
            "msftcloudes.com"@,
            "msidentity.com"@,
            "aadcdn.msftauth.net"@,
            "aadcdn.msauthimages.net"@,
            "secure.aadcdn.microsoftonline-p.com"@,
            "office.com"@,
            "office.net"@,
            "office365.com"@,
            "officeapps.live.com"@,
            "sharepoint.com"@,
            "onedrive.com"@,
            "outlook.com"@,
            "svc.ms"@,
            "azure.com"@,
            "azure.net"@,
            "azureedge.net"@,
            "microsoft365.com"@,
            "ms365.eu"@,
            "msocdn.com"@,
            "msa.akamaized.net"@,
            "activedirectory.windowsazure.com"@,
            "chinacloudapi.cn"@,
            "partner.microsoftonline.cn"@,
            "microsoftonline.us"@,
            "msftconnecttest.com"@,
            "browser.pipe.aria.microsoft.com"@,
            "browser.events.data.microsoft.com"@,
            "nleditor.osi.office.net"@,
        ].contains(domain),
    ensures
        navigation_allowed((scheme, Some(domain), path)),
        navigation_allowed((scheme, Some(label + seq!['.'] + domain), path)),
{
    let listed = seq![
        "onenote.com"@,
        "onenote.officeapps.live.com"@,
        "onenote.cloud.microsoft"@,
        "microsoft.com"@,
        "microsoftonline.com"@,
        "microsoftonline-p.com"@,
        "microsoftazuread-sso.com"@,
        "live.com"@,
        "login.windows.net"@,
        "windows.net"@,
        "msauth.net"@,
        "msftauth.net"@,
        "msftcloudes.com"@,
        "msidentity.com"@,
        "aadcdn.msftauth.net"@,
        "aadcdn.msauthimages.net"@,
        "secure.aadcdn.microsoftonline-p.com"@,
        "office.com"@,
        "office.net"@,
        "office365.com"@,
        "officeapps.live.com"@,
        "sharepoint.com"@,
        "onedrive.com"@,
        "outlook.com"@,
        "svc.ms"@,
        "azure.com"@,
        "azure.net"@,
        "azureedge.net"@,
        "microsoft365.com"@,
        "ms365.eu"@,
        "msocdn.com"@,
        "msa.akamaized.net"@,
        "activedirectory.windowsazure.com"@,
        "chinacloudapi.cn"@,
        "partner.microsoftonline.cn"@,
        "microsoftonline.us"@,
        "msftconnecttest.com"@,
        "browser.pipe.aria.microsoft.com"@,
        "browser.events.data.microsoft.com"@,
        "nleditor.osi.office.net"@,
    ];
    assert(listed =~= allowed_domain_list());
    let i = choose|i: int| 0 <= i < listed.len() && listed[i] == domain;
    let dotted = seq!['.'] + domain;
    let longer = label + seq!['.'] + domain;
    assert(longer.subrange(longer.len() - dotted.len(), longer.len() as int) =~= dotted);
    assert(matches_domain(domain, allowed_domain_list()[i]));
    assert(matches_domain(longer, allowed_domain_list()[i]));
}

/// A host that begins with one of the identity-provider prefixes `adfs.`,
/// `sts.`, `sso.`, `login.`, `auth.`, `idp.` or `federation.` is an SSO host.
pub proof fn identity_provider_prefixes_recognised(prefix: Seq<char>, rest: Seq<char>)
    requires
        seq![
            "adfs."@,
            "sts."@,
            "sso."@,
            "login."@,
            "auth."@,
            "idp."@,
            "federation."@,
        ].contains(prefix),
    ensures
        is_sso_host(prefix + rest),
{
    let listed = seq![
        "adfs."@,
        "sts."@,
        "sso."@,
        "login."@,
        "auth."@,
        "idp."@,
        "federation."@,
    ];
    assert(listed =~= federated_auth_pattern_list());
    let i = choose|i: int| 0 <= i < listed.len() && listed[i] == prefix;
    let host = prefix + rest;
    assert(host.subrange(0, prefix.len() as int) =~= prefix);
    assert(has_prefix(host, federated_auth_pattern_list()[i]));
}

/// A lower-cased path that contains one of `/adfs`, `/saml`, `/oauth`,
/// `/auth`, `/sso`, `/wsfed`, `/federationmetadata` or `/login` anywhere is an
/// authentication path.
pub proof fn auth_path_markers_recognised(before: Seq<char>, marker: Seq<char>, after: Seq<char>)
    requires
        seq![
            "/adfs"@,
            "/saml"@,
            "/oauth"@,
            "/auth"@,
            "/sso"@,
            "/wsfed"@,
            "/federationmetadata"@,
            "/login"@,
        ].contains(marker),
    ensures
        is_auth_path(before + marker + after),
{
    let listed = seq![
        "/adfs"@,
        "/saml"@,
        "/oauth"@,
        "/auth"@,
        "/sso"@,
        "/wsfed"@,
        "/federationmetadata"@,
        "/login"@,
    ];
    assert(listed =~= auth_path_marker_list());
    let i = choose|i: int| 0 <= i < listed.len() && listed[i] == marker;
    let path = before + marker + after;
    assert(path.subrange(before.len() as int, (before.len() + marker.len()) as int) =~= marker);
    assert(occurs_at(path, marker, before.len() as int));
    assert(has_substring(path, auth_path_marker_list()[i]));
}

/// A web URL whose host begins with an identity-provider prefix and whose
/// lower-cased path contains an authentication marker may be opened.
pub proof fn identity_provider_sign_in_allowed(
    scheme: Seq<char>,
    prefix: Seq<char>,
    rest: Seq<char>,
    path: Seq<char>,
    before: Seq<char>,
    marker: Seq<char>,
    after: Seq<char>,
)
    requires
        scheme == "https"@ || scheme == "http"@,
        seq![
            "adfs."@,
            "sts."@,
            "sso."@,
            "login."@,
            "auth."@,
            "idp."@,
            "federation."@,
        ].contains(prefix),
        seq![
            "/adfs"@,
            "/saml"@,
            "/oauth"@,
            "/auth"@,
            "/sso"@,
            "/wsfed"@,
            "/federationmetadata"@,
            "/login"@,
        ].contains(marker),
        unicode_lowercase(path) == before + marker + after,
    ensures
        navigation_allowed((scheme, Some(prefix + rest), path)),
{
    identity_provider_prefixes_recognised(prefix, rest);
    auth_path_markers_recognised(before, marker, after);
}

} // verus!
