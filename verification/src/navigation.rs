//! Scripts that drive the webview's history and location, and the decision
//! whether a requested location may be opened.

use vstd::prelude::*;
use vstd::string::StringExecFns;

use crate::config::{is_allowed_domain, navigation_allowed};
use crate::weburl::{parse_url, url_crate_parse, ParsedUrl, UrlParts};

verus! {

/// Script that steps the webview back in its history.
pub const GO_BACK_SCRIPT: &'static str = "window.history.back()";

/// Script that steps the webview forward in its history.
pub const GO_FORWARD_SCRIPT: &'static str = "window.history.forward()";

/// Why a navigation request was refused.
#[derive(Debug)]
pub enum NavigationError {
    /// The requested text is not an absolute URL.
    InvalidUrl(url::ParseError),
    /// The URL is outside the allowed domains; carries the message shown to
    /// the caller.
    NotAllowed(String),
}

/// The script that points the webview at `url`.
pub open spec fn location_script(url: Seq<char>) -> Seq<char> {
    "window.location.href = '"@ + url + "'"@
}

/// The message for a URL outside the allowed domains.
pub open spec fn not_allowed_message(url: Seq<char>) -> Seq<char> {
    "URL not in allowed domains: "@ + url
}

/// The outcome of a navigation request for the text `url` whose parse gave
/// `parsed`: a parse error is carried unchanged, an allowed URL yields the
/// script that opens it, any other URL the refusal message.
pub open spec fn navigation_outcome(
    url: Seq<char>,
    parsed: Result<UrlParts, url::ParseError>,
    res: Result<String, NavigationError>,
) -> bool {
    match parsed {
        Err(e) => res == Err::<String, NavigationError>(NavigationError::InvalidUrl(e)),
        Ok(parts) => if navigation_allowed(parts) {
            res matches Ok(script) && script@ == location_script(url)
        } else {
            res matches Err(NavigationError::NotAllowed(msg)) && msg@ == not_allowed_message(url)
        },
    }
}

/// Decides a navigation request for `url` given the result of parsing it:
/// an unparsable URL is refused with the parse error, a URL outside the
/// allowed domains is refused with a message naming it, and an allowed URL
/// yields the script that opens it.
pub fn navigation_script_for(url: &str, parsed: Result<ParsedUrl, url::ParseError>) -> (res:
    Result<String, NavigationError>)
    ensures
        navigation_outcome(
            url@,
            match parsed {
                Ok(u) => Ok(u@),
                Err(e) => Err(e),
            },
            res,
        ),
{
    match parsed {
        Err(e) => Err(NavigationError::InvalidUrl(e)),
        Ok(u) => {
            if !is_allowed_domain(&u) {
                let mut msg = String::from_str("URL not in allowed domains: ");
                msg.append(url);
                Err(NavigationError::NotAllowed(msg))
            } else {
                let mut script = String::from_str("window.location.href = '");
                script.append(url);
                script.append("'");
                Ok(script)
            }
        },
    }
}

/// Decides a navigation request for the text `url`: parses it with the
/// `url` crate, then applies `navigation_script_for`.
pub fn navigation_script(url: &str) -> (res: Result<String, NavigationError>)
    ensures
        navigation_outcome(url@, url_crate_parse(url@), res),
{
    let parsed = parse_url(url);
    navigation_script_for(url, parsed)
}

/// A navigation request succeeds exactly when its text parses to a URL that
/// the navigation policy allows, the script it yields opens exactly that
/// text, and an unparsable text is refused with the parser's own error.
pub proof fn navigation_succeeds_iff_allowed(
    url: Seq<char>,
    parsed: Result<UrlParts, url::ParseError>,
    res: Result<String, NavigationError>,
)
    requires
        navigation_outcome(url, parsed, res),
    ensures
        res is Ok <==> (parsed matches Ok(parts) && navigation_allowed(parts)),
        res matches Ok(script) ==> script@ == location_script(url),
        parsed matches Err(e) ==> res == Err::<String, NavigationError>(NavigationError::InvalidUrl(e)),
{
}

/// An allowed request yields the script that assigns exactly the requested
/// text to `window.location.href`, and a refused one names exactly that text.
pub proof fn request_text_kept_verbatim(
    url: Seq<char>,
    parsed: Result<UrlParts, url::ParseError>,
    res: Result<String, NavigationError>,
)
    requires
        navigation_outcome(url, parsed, res),
    ensures
        res matches Ok(script) ==> script@ == "window.location.href = '"@ + url + "'"@,
        res matches Err(NavigationError::NotAllowed(msg)) ==> msg@ == "URL not in allowed domains: "@ + url,
{
}

} // verus!
