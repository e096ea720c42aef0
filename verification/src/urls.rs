//! URL canonicalization and href resolution.
//!
//! A canonical URL is an absolute URL whose query and fragment have been
//! dropped and whose host is a registrable (named) domain. Parsing and
//! serialization are done by the `url` crate behind trusted wrappers; the
//! decisions around them (scheme restriction, absolute-versus-relative
//! resolution) are verified.
use vstd::prelude::*;
use vstd::string::StrSliceExecFns;
use vstd::string::StringExecFns;

verus! {

/// An error while parsing or resolving a URL.
#[derive(Clone, Copy, PartialEq, Eq, Structural, Debug)]
pub enum UrlError {
    /// The string could not be parsed as (or resolved to) a URL.
    Parse,
}

/// What `url::Url::parse` + dropping query and fragment + requiring a named
/// host yields for a string: `Some((canonical_url, domain))` or `None`.
pub uninterp spec fn url_canon(s: Seq<char>) -> Option<(Seq<char>, Seq<char>)>;

/// The scheme that `url::Url::parse` reports for a string, `None` when the
/// string does not parse as an absolute URL.
pub uninterp spec fn url_scheme(s: Seq<char>) -> Option<Seq<char>>;

/// What parsing a string as an absolute URL and serializing it without query
/// and fragment yields (no requirement on the host).
pub uninterp spec fn abs_canon(s: Seq<char>) -> Option<Seq<char>>;

/// What resolving `link` against the absolute URL `base` and serializing the
/// result without query and fragment yields.
pub uninterp spec fn join_canon(base: Seq<char>, link: Seq<char>) -> Option<Seq<char>>;

/// Canonicalize a URL: parse as absolute, drop query and fragment, and accept
/// only URLs with a registrable (named) host. Returns the canonical URL
/// string and the domain.
///
/// Relies on `url::Url::parse`, `set_query`, `set_fragment`, `domain` and
/// `as_str`. The second clause under `Some` relies on the WHATWG URL round
/// trip that the `url` crate maintains: parsing the serialization of a `Url`
/// yields that same URL, so a canonical URL canonicalizes to itself.
#[verifier::external_body]
pub fn normalize_url(url: &str) -> (r: Option<(String, String)>)
    ensures
        match r {
            Some(p) => url_canon(url@) == Some((p.0@, p.1@)) && url_canon(p.0@) == Some(
                (p.0@, p.1@),
            ),
            None => url_canon(url@) is None,
        },
{
    match url::Url::parse(url) {
        Ok(mut u) => {
            u.set_query(None);
            u.set_fragment(None);
            match u.domain() {
                Some(d) => {
                    let domain = d.to_string();
                    Some((u.as_str().to_string(), domain))
                },
                None => None,
            }
        },
        Err(_) => None,
    }
}

/// The scheme of a string that parses as an absolute URL.
///
/// Relies on `url::Url::parse` and `url::Url::scheme`.
#[verifier::external_body]
fn scheme_of(url: &str) -> (r: Option<String>)
    ensures
        match r {
            Some(s) => url_scheme(url@) == Some(s@),
            None => url_scheme(url@) is None,
        },
{
    match url::Url::parse(url) {
        Ok(u) => Some(u.scheme().to_string()),
        Err(_) => None,
    }
}

/// Parse `link` as an absolute URL and serialize it without query and
/// fragment.
///
/// Relies on `url::Url::parse`, `set_query`, `set_fragment` and `as_str`.
#[verifier::external_body]
fn parse_abs_canon(link: &str) -> (r: Result<String, UrlError>)
    ensures
        match r {
            Ok(u) => abs_canon(link@) == Some(u@),
            Err(_) => abs_canon(link@) is None,
        },
{
    match url::Url::parse(link) {
        Ok(mut u) => {
            u.set_query(None);
            u.set_fragment(None);
            Ok(u.as_str().to_string())
        },
        Err(_) => Err(UrlError::Parse),
    }
}

/// Resolve `link` against `base` and serialize the result without query and
/// fragment.
///
/// Relies on `url::Url::parse`, `url::Url::join`, `set_query`, `set_fragment`
/// and `as_str`.
#[verifier::external_body]
fn parse_join_canon(base: &str, link: &str) -> (r: Result<String, UrlError>)
    ensures
        match r {
            Ok(u) => join_canon(base@, link@) == Some(u@),
            Err(_) => join_canon(base@, link@) is None,
        },
{
    let base_url = match url::Url::parse(base) {
        Ok(u) => u,
        Err(_) => {
            return Err(UrlError::Parse);
        },
    };
    match base_url.join(link) {
        Ok(mut u) => {
            u.set_query(None);
            u.set_fragment(None);
            Ok(u.as_str().to_string())
        },
        Err(_) => Err(UrlError::Parse),
    }
}

/// True when the string begins with the four characters `http`.
pub open spec fn spec_starts_with_http(s: Seq<char>) -> bool {
    s.len() >= 4 && s[0] == 'h' && s[1] == 't' && s[2] == 't' && s[3] == 'p'
}

/// What `normalize_href` returns: an href beginning with `http` is taken as
/// absolute, anything else is resolved against the page URL.
pub open spec fn href_canon(base: Seq<char>, link: Seq<char>) -> Option<Seq<char>> {
    if spec_starts_with_http(link) {
        abs_canon(link)
    } else {
        join_canon(base, link)
    }
}

/// True when `s` begins with `http`.
pub(crate) fn starts_with_http(s: &str) -> (r: bool)
    ensures
        r == spec_starts_with_http(s@),
{
    if s.unicode_len() < 4 {
        return false;
    }
    s.get_char(0) == 'h' && s.get_char(1) == 't' && s.get_char(2) == 't' && s.get_char(3) == 'p'
}

/// Resolve an href found on a page.
///
/// `base` is the page URL and `link` the content of the `href` attribute.
/// An href beginning with `http` is parsed as an absolute URL; any other
/// href is resolved against `base`. Query and fragment are dropped.
pub fn normalize_href(base: &str, link: &str) -> (r: Result<String, UrlError>)
    ensures
        match r {
            Ok(u) => href_canon(base@, link@) == Some(u@),
            Err(_) => href_canon(base@, link@) is None,
        },
{
    if starts_with_http(link) {
        parse_abs_canon(link)
    } else {
        parse_join_canon(base, link)
    }
}

/// True when the URL's scheme is `http` or `https`.
pub open spec fn spec_is_crawlable_url(link: Seq<char>) -> bool {
    match url_scheme(link) {
        Some(s) => s == "http"@ || s == "https"@,
        None => false,
    }
}

/// Validate that a link is a parseable absolute URL whose scheme is `http`
/// or `https`.
pub fn is_crawlable_url(link: &str) -> (r: bool)
    ensures
        r == spec_is_crawlable_url(link@),
{
    match scheme_of(link) {
        Some(s) => {
            let http = String::from_str("http");
            let https = String::from_str("https");
            s == http || s == https
        },
        None => false,
    }
}

} // verus!
