use vstd::prelude::*;
use crate::endpoint::{EndpointUrl, UrlParts, scheme_is};
use crate::errors::ConfigError;
use crate::lexical::{spec_parse_bool, spec_parse_u32, parse_bool_str, parse_u32_dec};
use crate::query::{parsed_query, parse_query_str, pairs_view, spec_lookup, lookup};

verus! {

/// A duration as plain values: whole seconds and the nanoseconds below
/// one second.
#[derive(Clone, Copy, PartialEq, Eq, Structural, Debug)]
pub struct DurationVal {
    pub secs: u64,
    pub nanos: u32,
}

/// The duration that the human-friendly duration grammar ("1s",
/// "250ms", ...) gives for a text, as (seconds, subsecond nanoseconds),
/// or nothing when the text does not parse.
pub uninterp spec fn parsed_duration(s: Seq<char>) -> Option<(u64, u32)>;

/// A duration text on which the duration parser is known to return
/// rather than panic. The parser's one panic is the final carry of a
/// nanosecond total of exactly one second into a seconds total of
/// exactly u64::MAX. Either arm rules that state out:
/// - at most 12 characters: every number then has at most 11 digits
///   ahead of its unit, and even 10^11 of the largest unit (a year of
///   31557600 seconds) stays below 2^64 seconds;
/// - no '.' and no 's' anywhere: every subsecond unit's spelling
///   ("ns", "us", "ms", "nanos", "millis", ...) holds an 's', and a
///   fraction needs a '.', so the nanosecond total stays zero.
pub open spec fn spec_duration_text_bounded(s: Seq<char>) -> bool {
    s.len() <= 12 || (forall|i: int| 0 <= i < s.len() ==> s[i] != '.' && s[i] != 's')
}

/// Decides whether a duration text is safe to hand to the parser.
pub fn duration_text_bounded(s: &str) -> (r: bool)
    ensures
        r == spec_duration_text_bounded(s@),
{
    let n = s.unicode_len();
    if n <= 12 {
        return true;
    }
    let mut i: usize = 0;
    while i < n
        invariant
            0 <= i <= n,
            n == s@.len(),
            n > 12,
            forall|j: int| 0 <= j < i ==> s@[j] != '.' && s@[j] != 's',
        decreases n - i,
    {
        let c = s.get_char(i);
        if c == '.' || c == 's' {
            proof {
                assert(s@[i as int] == '.' || s@[i as int] == 's');
            }
            return false;
        }
        i = i + 1;
    }
    true
}

/// Relies on humantime::parse_duration: the accepted grammar and the
/// resulting duration depend on the text alone. The precondition keeps
/// out the inputs on which the parser's final carry into the seconds
/// total can overflow and panic; see `spec_duration_text_bounded`.
#[verifier::external_body]
fn parse_duration_str(s: &str) -> (r: Option<(u64, u32)>)
    requires
        spec_duration_text_bounded(s@),
    ensures
        r == parsed_duration(s@),
{
    match humantime::parse_duration(s) {
        Ok(d) => Some((d.as_secs(), d.subsec_nanos())),
        Err(_) => None,
    }
}

/// Optional socket settings of the TCP transports, with their defaults.
#[derive(Clone, Copy, Debug)]
pub struct TcpSettings {
    /// Disable Nagle's algorithm. Default false.
    pub nodelay: bool,
    /// Linger timeout. Default unset, leaving the OS default.
    pub linger: Option<DurationVal>,
    /// Time-to-live. Default unset, leaving the OS default.
    pub ttl: Option<u32>,
}

/// The settings read from decoded query pairs: `nodelay` a boolean,
/// `linger` a duration, `ttl` a number, each optional; a value that
/// does not parse as its field's type yields nothing. A linger text
/// outside the bounded shape is rejected before the duration parser
/// sees it.
pub open spec fn spec_tcp_settings(pairs: Seq<(Seq<char>, Seq<char>)>) -> Option<TcpSettings> {
    let nd = match spec_lookup(pairs, "nodelay"@) {
        Some(v) => spec_parse_bool(v),
        None => Some(false),
    };
    let lg = match spec_lookup(pairs, "linger"@) {
        Some(v) => if !spec_duration_text_bounded(v) {
            None
        } else {
            match parsed_duration(v) {
                Some(d) => Some(Some(DurationVal { secs: d.0, nanos: d.1 })),
                None => None,
            }
        },
        None => Some(None),
    };
    let tt = match spec_lookup(pairs, "ttl"@) {
        Some(v) => match spec_parse_u32(v) {
            Some(t) => Some(Some(t)),
            None => None,
        },
        None => Some(None),
    };
    match (nd, lg, tt) {
        (Some(nodelay), Some(linger), Some(ttl)) => Some(TcpSettings { nodelay, linger, ttl }),
        _ => None,
    }
}

/// Reads the TCP socket settings out of decoded query pairs, applying
/// the per-field defaults.
pub fn tcp_settings_from_pairs(pairs: &Vec<(String, String)>) -> (r: Result<
    TcpSettings,
    ConfigError,
>)
    ensures
        match r {
            Ok(s) => spec_tcp_settings(pairs_view(pairs@)) == Some(s),
            Err(e) => spec_tcp_settings(pairs_view(pairs@)) is None && e matches
                ConfigError::BadValue(_),
        },
{
    let nodelay: bool = match lookup(pairs, "nodelay") {
        Some(v) => match parse_bool_str(v.as_str()) {
            Some(b) => b,
            None => { return Err(ConfigError::BadValue(v)) },
        },
        None => false,
    };
    let linger: Option<DurationVal> = match lookup(pairs, "linger") {
        Some(v) => {
            if !duration_text_bounded(v.as_str()) {
                return Err(ConfigError::BadValue(v));
            }
            match parse_duration_str(v.as_str()) {
                Some(d) => Some(DurationVal { secs: d.0, nanos: d.1 }),
                None => { return Err(ConfigError::BadValue(v)) },
            }
        },
        None => None,
    };
    let ttl: Option<u32> = match lookup(pairs, "ttl") {
        Some(v) => match parse_u32_dec(v.as_str()) {
            Some(t) => Some(t),
            None => { return Err(ConfigError::BadValue(v)) },
        },
        None => None,
    };
    Ok(TcpSettings { nodelay, linger, ttl })
}

/// The outcome that a transport's optional query settings force: no
/// query leaves the settings unset; a query must decode into pairs and
/// the pairs into settings.
pub open spec fn spec_tcp_settings_outcome(q: Option<Seq<char>>) -> Option<Option<TcpSettings>> {
    match q {
        None => Some(None),
        Some(qs) => match parsed_query(qs) {
            None => None,
            Some(ps) => match spec_tcp_settings(ps) {
                None => None,
                Some(s) => Some(Some(s)),
            },
        },
    }
}

/// Reads the optional settings of a URL's query.
pub fn tcp_settings_from_query(q: &Option<String>) -> (r: Result<Option<TcpSettings>, ConfigError>)
    ensures
        match r {
            Ok(s) => spec_tcp_settings_outcome(match q {
                Some(qs) => Some(qs@),
                None => None,
            }) == Some(s),
            Err(e) => spec_tcp_settings_outcome(match q {
                Some(qs) => Some(qs@),
                None => None,
            }) is None && (e matches ConfigError::BadQuery(_) || e matches ConfigError::BadValue(
                _,
            )),
        },
{
    match q {
        None => Ok(None),
        Some(qs) => match parse_query_str(qs.as_str()) {
            None => Err(ConfigError::BadQuery(qs.clone())),
            Some(pairs) => match tcp_settings_from_pairs(&pairs) {
                Ok(s) => Ok(Some(s)),
                Err(e) => Err(e),
            },
        },
    }
}

/// Whether a URL has the shape a TCP client accepts: the `tcp` scheme
/// with a host and a port.
pub open spec fn tcp_client_url_ok(u: UrlParts) -> bool {
    u.scheme == "tcp"@ && u.host is Some && u.port is Some
}

/// Whether a `tcp` URL yields a client connector: right shape and a
/// decodable query.
pub open spec fn spec_tcp_client_accepts(u: UrlParts) -> bool {
    tcp_client_url_ok(u) && spec_tcp_settings_outcome(u.query) is Some
}

/// The TCP client connector: dials `target` once per connect.
#[derive(Debug)]
pub struct TcpClient {
    pub target: (String, u16),
    pub settings: Option<TcpSettings>,
}

/// How the built client relates to its URL: target host and port taken
/// over, settings read from the query.
pub open spec fn spec_tcp_client_built(u: UrlParts, c: TcpClient) -> bool {
    &&& (u.host matches Some(h) && c.target.0@ == h)
    &&& (u.port matches Some(p) && c.target.1 == p)
    &&& spec_tcp_settings_outcome(u.query) == Some(c.settings)
}

impl TcpClient {
    /// Builds the connector from a `tcp` URL, validating eagerly:
    /// scheme, host and port must be present and the query, if any,
    /// must decode into TCP settings.
    pub fn try_from_url(u: &EndpointUrl) -> (r: Result<TcpClient, ConfigError>)
        ensures
            r is Ok <==> spec_tcp_client_accepts(u@),
            match r {
                Ok(c) => spec_tcp_client_built(u@, c),
                Err(e) => {
                    &&& !tcp_client_url_ok(u@) ==> (e matches ConfigError::InvalidUrl(t) && t@
                        == u@.text)
                    &&& tcp_client_url_ok(u@) ==> (e matches ConfigError::BadQuery(_)
                        || e matches ConfigError::BadValue(_))
                },
            },
    {
        if !scheme_is(u, "tcp") {
            return Err(ConfigError::InvalidUrl(u.text.clone()));
        }
        let (host, port) = match (&u.host, &u.port) {
            (Some(h), Some(p)) => (h.clone(), *p),
            _ => { return Err(ConfigError::InvalidUrl(u.text.clone())) },
        };
        let settings = match tcp_settings_from_query(&u.query) {
            Ok(s) => s,
            Err(e) => { return Err(e) },
        };
        Ok(TcpClient { target: (host, port), settings })
    }
}

/// Whether a URL has the shape the TCP server accepts: the
/// `tcp-server` scheme with a host and a port.
pub open spec fn tcp_server_url_ok(u: UrlParts) -> bool {
    u.scheme == "tcp-server"@ && u.host is Some && u.port is Some
}

/// Whether a `tcp-server` URL yields a server connector.
pub open spec fn spec_tcp_server_accepts(u: UrlParts) -> bool {
    tcp_server_url_ok(u) && spec_tcp_settings_outcome(u.query) is Some
}

/// The TCP server connector: binds a listener on the first connect and
/// accepts one inbound connection per connect.
#[derive(Debug)]
pub struct TcpServer {
    pub target: (String, u16),
    pub settings: Option<TcpSettings>,
    /// Whether the listening socket exists yet. The first connect whose
    /// bind succeeds creates it, and it is kept for all later connects;
    /// a failed bind leaves it missing.
    pub bound: bool,
}

/// How the built server relates to its URL: target host and port taken
/// over, settings read from the query, and no listener bound yet.
pub open spec fn spec_tcp_server_built(u: UrlParts, c: TcpServer) -> bool {
    &&& (u.host matches Some(h) && c.target.0@ == h)
    &&& (u.port matches Some(p) && c.target.1 == p)
    &&& spec_tcp_settings_outcome(u.query) == Some(c.settings)
    &&& !c.bound
}

/// Whether a connect on this server must bind the listener first: only
/// while none exists.
pub open spec fn spec_needs_bind(s: TcpServer) -> bool {
    !s.bound
}

/// The server after a bind attempt's outcome is recorded: a successful
/// bind leaves the listener in place, a failed one leaves the connector
/// unbound.
pub open spec fn spec_record_bound(s: TcpServer, ok: bool) -> TcpServer {
    TcpServer { bound: ok, ..s }
}

impl TcpServer {
    /// Builds the connector from a `tcp-server` URL, validating eagerly.
    /// No listener exists until the first connect.
    pub fn try_from_url(u: &EndpointUrl) -> (r: Result<TcpServer, ConfigError>)
        ensures
            r is Ok <==> spec_tcp_server_accepts(u@),
            match r {
                Ok(c) => spec_tcp_server_built(u@, c),
                Err(e) => {
                    &&& !tcp_server_url_ok(u@) ==> (e matches ConfigError::InvalidUrl(t) && t@
                        == u@.text)
                    &&& tcp_server_url_ok(u@) ==> (e matches ConfigError::BadQuery(_)
                        || e matches ConfigError::BadValue(_))
                },
            },
    {
        if !scheme_is(u, "tcp-server") {
            return Err(ConfigError::InvalidUrl(u.text.clone()));
        }
        let (host, port) = match (&u.host, &u.port) {
            (Some(h), Some(p)) => (h.clone(), *p),
            _ => { return Err(ConfigError::InvalidUrl(u.text.clone())) },
        };
        let settings = match tcp_settings_from_query(&u.query) {
            Ok(s) => s,
            Err(e) => { return Err(e) },
        };
        Ok(TcpServer { target: (host, port), settings, bound: false })
    }

    /// Decides one connect call's listener work: the listener must be
    /// bound first exactly while none exists. The accept that follows
    /// uses the retained listener.
    pub fn needs_bind(&self) -> (b: bool)
        ensures
            b == spec_needs_bind(*self),
    {
        !self.bound
    }

    /// Records a bind attempt's outcome: after a successful bind the
    /// listener exists for this and every later connect; after a failed
    /// one the connector stays unbound, so the next connect binds anew.
    pub fn record_bound(&mut self, ok: bool)
        requires
            spec_needs_bind(*old(self)),
        ensures
            *final (self) == spec_record_bound(*old(self), ok),
    {
        self.bound = ok;
    }
}

/// Law: a `tcp` URL whose query (if any) decodes into settings yields
/// a client connector exactly when both host and port are present;
/// otherwise its construction fails with a configuration error.
pub proof fn lemma_tcp_construction_iff(u: UrlParts)
    requires
        u.scheme == "tcp"@,
        spec_tcp_settings_outcome(u.query) is Some,
    ensures
        spec_tcp_client_accepts(u) <==> (u.host is Some && u.port is Some),
{
}

/// Law: a listener bound by one connect is reused — every later
/// connect finds it bound and does not bind again — while a failed
/// bind is not cached: the next connect must bind anew.
pub proof fn lemma_listener_reused(s: TcpServer)
    requires
        spec_needs_bind(s),
    ensures
        !spec_needs_bind(spec_record_bound(s, true)),
        spec_record_bound(s, true).bound,
        spec_needs_bind(spec_record_bound(s, false)),
{
}

} // verus!
