//! The parts of an absolute URL that the navigation policy reads, obtained
//! from the `url` crate's WHATWG parser.

use vstd::prelude::*;

verus! {

/// The `url` crate's parse error, carried through opaquely.
#[verifier::external_type_specification]
#[verifier::external_body]
pub struct ExUrlParseError(url::ParseError);

/// The components of a parsed absolute URL that navigation decisions read:
/// the scheme (lower-cased ASCII, as the `url` crate produces it), the host
/// (absent for URLs such as `data:` or `about:blank`), and the path without
/// query or fragment.
#[derive(Debug)]
pub struct ParsedUrl {
    pub(crate) scheme: String,
    pub(crate) host: Option<String>,
    pub(crate) path: String,
}

/// The plain-value model of a `ParsedUrl`.
pub type UrlParts = (Seq<char>, Option<Seq<char>>, Seq<char>);

/// The model of an optional host.
pub open spec fn host_view(host: Option<String>) -> Option<Seq<char>> {
    match host {
        Some(h) => Some(h@),
        None => None,
    }
}

/// Every character is ASCII and none is an upper-case letter.
pub open spec fn is_lowercase_ascii(s: Seq<char>) -> bool {
    forall|i: int| 0 <= i < s.len() ==> (s[i] as u32) < 128 && !(65 <= (s[i] as u32) <= 90)
}

impl View for ParsedUrl {
    type V = UrlParts;

    closed spec fn view(&self) -> UrlParts {
        (self.scheme@, host_view(self.host), self.path@)
    }
}

impl ParsedUrl {
    /// The scheme of every value is lower-cased ASCII.
    #[verifier::type_invariant]
    spec fn scheme_is_normalised(self) -> bool {
        is_lowercase_ascii(self.scheme@)
    }

    /// Builds the value from its three components; the scheme must be
    /// lower-cased ASCII, as every scheme the `url` crate yields is.
    pub fn new(scheme: String, host: Option<String>, path: String) -> (res: ParsedUrl)
        requires
            is_lowercase_ascii(scheme@),
        ensures
            res@ == (scheme@, host_view(host), path@),
    {
        ParsedUrl { scheme, host, path }
    }

    /// The scheme.
    pub fn scheme(&self) -> (res: &str)
        ensures
            res@ == self@.0,
            is_lowercase_ascii(res@),
    {
        proof {
            use_type_invariant(self);
        }
        self.scheme.as_str()
    }

    /// The host, if the URL has one.
    pub fn host(&self) -> (res: Option<&str>)
        ensures
            match res {
                Some(h) => self@.1 == Some(h@),
                None => self@.1 is None,
            },
    {
        match &self.host {
            Some(h) => Some(h.as_str()),
            None => None,
        }
    }

    /// The path.
    pub fn path(&self) -> (res: &str)
        ensures
            res@ == self@.2,
    {
        self.path.as_str()
    }
}

/// Whether every character of `s` is ASCII and none is an upper-case letter.
pub fn is_lowercase_ascii_str(s: &str) -> (res: bool)
    ensures
        res == is_lowercase_ascii(s@),
{
    let chars = crate::text::chars_of(s);
    let mut i: usize = 0;
    while i < chars.len()
        invariant
            chars@ == s@,
            i <= chars.len(),
            forall|j: int| 0 <= j < i ==> (s@[j] as u32) < 128 && !(65 <= (s@[j] as u32) <= 90),
        decreases chars.len() - i,
    {
        let c = chars[i] as u32;
        if c >= 128 || (65 <= c && c <= 90) {
            return false;
        }
        i = i + 1;
    }
    true
}

/// What `url::Url::parse` yields for an input string: the parser's error
/// when the input is not an absolute URL it accepts, otherwise the scheme,
/// host and path of the parsed URL.
pub uninterp spec fn url_crate_parse(input: Seq<char>) -> Result<UrlParts, url::ParseError>;

/// Calls `url::Url::parse` and projects the result onto `scheme()`,
/// `host_str()` and `path()`. The contract claims that the outcome is a
/// function of the input's characters (named `url_crate_parse`) and, as
/// `Url::scheme` documents, that the scheme is lower-cased ASCII; the WHATWG
/// parsing rules themselves are not restated.
#[verifier::external_body]
pub(crate) fn parse_url(input: &str) -> (res: Result<ParsedUrl, url::ParseError>)
    ensures
        match res {
            Ok(u) => url_crate_parse(input@) == Ok::<UrlParts, url::ParseError>(u@),
            Err(e) => url_crate_parse(input@) == Err::<UrlParts, url::ParseError>(e),
        },
        res matches Ok(u) ==> is_lowercase_ascii(u.scheme@),
{
    match url::Url::parse(input) {
        Ok(u) => Ok(ParsedUrl {
            scheme: u.scheme().to_string(),
            host: u.host_str().map(String::from),
            path: u.path().to_string(),
        }),
        Err(e) => Err(e),
    }
}

} // verus!
