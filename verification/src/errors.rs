use vstd::prelude::*;

verus! {

/// A configuration error: the endpoint text cannot be turned into a
/// connector. Raised before any connection attempt.
#[derive(Debug)]
pub enum ConfigError {
    /// The text is not a URL at all.
    UnparsableUrl(String),
    /// No connector exists for the URL's scheme; carries the scheme.
    UnsupportedScheme(String),
    /// A required URL component is missing or wrong for the transport;
    /// carries the URL text.
    InvalidUrl(String),
    /// The query string does not decode into key/value settings; carries
    /// the query text.
    BadQuery(String),
    /// A settings value does not parse as the field's type; carries the
    /// offending value text.
    BadValue(String),
    /// A virtual-interface URL's host is not a dotted-quad IPv4 address;
    /// carries the host text.
    BadAddress(String),
    /// A virtual-interface URL's path is not a decimal prefix length;
    /// carries the path text.
    BadPrefix(String),
    /// A prefix length greater than 32; carries the length.
    PrefixOutOfRange(u8),
}

impl ConfigError {
    /// A human-readable description of the error.
    pub fn message(&self) -> (r: String)
        ensures
            match self {
                ConfigError::UnparsableUrl(t) => r@ == "unparsable URL: "@ + t@,
                ConfigError::UnsupportedScheme(s) => r@ == "unsupported scheme: "@ + s@,
                ConfigError::InvalidUrl(t) => r@ == "Invalid URL: "@ + t@,
                ConfigError::BadQuery(q) => r@ == "invalid query settings: "@ + q@,
                ConfigError::BadValue(v) => r@ == "invalid settings value: "@ + v@,
                ConfigError::BadAddress(h) => r@ == "invalid IPv4 address: "@ + h@,
                ConfigError::BadPrefix(p) => r@ == "invalid prefix length: "@ + p@,
                ConfigError::PrefixOutOfRange(_) => r@ == "prefix must not be > 32"@,
            },
    {
        match self {
            ConfigError::UnparsableUrl(t) => "unparsable URL: ".to_owned().concat(t.as_str()),
            ConfigError::UnsupportedScheme(s) => "unsupported scheme: ".to_owned().concat(
                s.as_str(),
            ),
            ConfigError::InvalidUrl(t) => "Invalid URL: ".to_owned().concat(t.as_str()),
            ConfigError::BadQuery(q) => "invalid query settings: ".to_owned().concat(q.as_str()),
            ConfigError::BadValue(v) => "invalid settings value: ".to_owned().concat(v.as_str()),
            ConfigError::BadAddress(h) => "invalid IPv4 address: ".to_owned().concat(h.as_str()),
            ConfigError::BadPrefix(p) => "invalid prefix length: ".to_owned().concat(p.as_str()),
            ConfigError::PrefixOutOfRange(_) => "prefix must not be > 32".to_owned(),
        }
    }
}

} // verus!
