use vstd::prelude::*;

verus! {

/// The parts of an endpoint URL that the connectors read, as plain
/// values. Immutable once parsed.
pub struct EndpointUrl {
    pub scheme: String,
    pub host: Option<String>,
    pub port: Option<u16>,
    pub path: String,
    pub query: Option<String>,
    /// The whole URL as the parser serialises it.
    pub text: String,
}

/// The ghost image of an `EndpointUrl`.
pub ghost struct UrlParts {
    pub scheme: Seq<char>,
    pub host: Option<Seq<char>>,
    pub port: Option<u16>,
    pub path: Seq<char>,
    pub query: Option<Seq<char>>,
    pub text: Seq<char>,
}

impl View for EndpointUrl {
    type V = UrlParts;

    open spec fn view(&self) -> UrlParts {
        UrlParts {
            scheme: self.scheme@,
            host: match self.host {
                Some(h) => Some(h@),
                None => None,
            },
            port: self.port,
            path: self.path@,
            query: match self.query {
                Some(q) => Some(q@),
                None => None,
            },
            text: self.text@,
        }
    }
}

/// The split of a URL text into its parts, or nothing when the text is
/// not a URL.
pub uninterp spec fn parsed_url(s: Seq<char>) -> Option<UrlParts>;

/// Relies on url::Url::parse: whether a text parses, and its split into
/// scheme, host, port, path and query, depend on the text alone. The
/// host is present exactly when the URL has one.
#[verifier::external_body]
pub(crate) fn parse_url_text(s: &str) -> (r: Option<EndpointUrl>)
    ensures
        match r {
            Some(u) => parsed_url(s@) == Some(u@),
            None => parsed_url(s@) is None,
        },
{
    match url::Url::parse(s) {
        Ok(u) => Some(EndpointUrl {
            scheme: u.scheme().to_string(),
            host: u.host_str().map(|h| h.to_string()),
            port: u.port(),
            path: u.path().to_string(),
            query: u.query().map(|q| q.to_string()),
            text: u.as_str().to_string(),
        }),
        Err(_) => None,
    }
}

/// Compares a URL's scheme with a literal.
pub fn scheme_is(u: &EndpointUrl, s: &str) -> (r: bool)
    ensures
        r == (u@.scheme == s@),
{
    u.scheme == s.to_owned()
}

} // verus!
