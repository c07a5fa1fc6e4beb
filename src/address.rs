use vstd::prelude::*;

use crate::error::BotifactoryError;

verus! {

/// An absolute URL, held as the text that the `url` crate serializes it to.
#[derive(Clone, Debug)]
pub struct Url {
    text: String,
}

impl View for Url {
    type V = Seq<char>;

    closed spec fn view(&self) -> Seq<char> {
        self.text@
    }
}

/// The serialization of the URL that `url::Url::parse` makes of `input`,
/// or `None` where it reports an error.
pub uninterp spec fn parsed_url(input: Seq<char>) -> Option<Seq<char>>;

/// The serialization of the URL `base` with `segments` pushed onto its path
/// by `url`'s `PathSegmentsMut`, or `None` where `url` does not parse `base`
/// or `base` cannot have path segments.
pub uninterp spec fn url_with_segments(base: Seq<char>, segments: Seq<Seq<char>>) -> Option<
    Seq<char>,
>;

/// Relies on `url::Url::parse` and on the URL's serialization (`String::from`).
#[verifier::external_body]
fn parse_text(input: &str) -> (r: Result<String, url::ParseError>)
    ensures
        match r {
            Ok(t) => parsed_url(input@) == Some(t@),
            Err(_) => parsed_url(input@) is None,
        },
{
    url::Url::parse(input).map(String::from)
}

/// Relies on `url::Url::parse` of a serialized URL (which gives the same URL
/// back), on `url::Url::path_segments_mut` (an error exactly where the URL
/// cannot be a base), and on `PathSegmentsMut::extend`, which percent-encodes
/// each segment and appends it after a `/`.
#[verifier::external_body]
fn append_segments(base: &Url, segments: &Vec<String>) -> (r: Option<Url>)
    ensures
        match url_with_segments(base@, segments.deep_view()) {
            Some(t) => r matches Some(u) && u@ == t,
            None => r is None,
        },
{
    let mut url = url::Url::parse(base.text.as_str()).ok()?;
    url.path_segments_mut().ok()?.extend(segments);
    Some(Url { text: String::from(url) })
}

/// `r` is what pushing `route` onto `base` gives: the URL, or
/// `URLPathError` where `base` cannot have path segments.
pub open spec fn route_outcome(
    r: Result<Url, BotifactoryError>,
    base: Seq<char>,
    route: Seq<Seq<char>>,
) -> bool {
    match url_with_segments(base, route) {
        Some(t) => r matches Ok(u) && u@ == t,
        None => r matches Err(e) && e is URLPathError,
    }
}

/// The URL `base` with the path segments `route` appended.
pub fn join_route(base: &Url, route: &Vec<String>) -> (r: Result<Url, BotifactoryError>)
    ensures
        route_outcome(r, base@, route.deep_view()),
{
    match append_segments(base, route) {
        Some(u) => Ok(u),
        None => Err(BotifactoryError::URLPathError),
    }
}

/// A URL is a function of its base and route: two results that both meet
/// the outcome of one base and route are the same URL, or both the
/// `URLPathError`. Every URL builder of this library promises such an
/// outcome over its scope alone, so calling a builder twice on an unchanged
/// scope gives byte-identical URLs.
pub proof fn lemma_route_outcome_unique(
    r1: Result<Url, BotifactoryError>,
    r2: Result<Url, BotifactoryError>,
    base: Seq<char>,
    route: Seq<Seq<char>>,
)
    requires
        route_outcome(r1, base, route),
        route_outcome(r2, base, route),
    ensures
        match (r1, r2) {
            (Ok(u1), Ok(u2)) => u1@ == u2@,
            (Err(e1), Err(e2)) => e1 is URLPathError && e2 is URLPathError,
            _ => false,
        },
{
}

impl Url {
    /// Parses an absolute URL; fails with `UrlParseError` exactly where
    /// `url::Url::parse` rejects the text.
    pub fn parse(input: &str) -> (r: Result<Url, BotifactoryError>)
        ensures
            match r {
                Ok(u) => parsed_url(input@) == Some(u@),
                Err(e) => parsed_url(input@) is None && e is UrlParseError,
            },
    {
        match parse_text(input) {
            Ok(text) => Ok(Url { text }),
            Err(e) => Err(BotifactoryError::UrlParseError(e)),
        }
    }

    /// The URL's text.
    pub fn as_str(&self) -> (r: &str)
        ensures
            r@ == self@,
    {
        self.text.as_str()
    }

    /// The URL's text, as an owned string.
    pub fn to_string(&self) -> (r: String)
        ensures
            r@ == self@,
    {
        self.text.clone()
    }
}

} // verus!
