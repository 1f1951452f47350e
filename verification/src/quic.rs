use vstd::prelude::*;
use crate::endpoint::{EndpointUrl, UrlParts, scheme_is};
use crate::errors::ConfigError;

verus! {

/// Whether a URL has the shape the QUIC client accepts: the `quic`
/// scheme with a host and a port.
pub open spec fn spec_quic_accepts(u: UrlParts) -> bool {
    u.scheme == "quic"@ && u.host is Some && u.port is Some
}

/// How the built client relates to its URL.
pub open spec fn spec_quic_built(u: UrlParts, c: QuicClient) -> bool {
    &&& (u.host matches Some(h) && c.target.0@ == h)
    &&& (u.port matches Some(p) && c.target.1 == p)
}

/// The QUIC client connector: resolves `target` and dials the
/// candidates in order at connect time.
#[derive(Debug)]
pub struct QuicClient {
    pub target: (String, u16),
}

impl QuicClient {
    /// Builds the connector from a `quic` URL, validating eagerly:
    /// scheme, host and port must be present.
    pub fn try_from_url(u: &EndpointUrl) -> (r: Result<QuicClient, ConfigError>)
        ensures
            r is Ok <==> spec_quic_accepts(u@),
            r matches Ok(c) ==> spec_quic_built(u@, c),
            r matches Err(e) ==> e matches ConfigError::InvalidUrl(t) && t@ == u@.text,
    {
        if !scheme_is(u, "quic") {
            return Err(ConfigError::InvalidUrl(u.text.clone()));
        }
        match (&u.host, &u.port) {
            (Some(h), Some(p)) => Ok(QuicClient { target: (h.clone(), *p) }),
            _ => Err(ConfigError::InvalidUrl(u.text.clone())),
        }
    }
}

/// The dial sequence over the resolved candidate addresses: they are
/// tried in resolution order, the first success is kept, failures are
/// skipped; with no success left the dial has failed.
pub struct QuicDialer {
    /// How many candidate addresses the resolution gave.
    pub total: usize,
    /// How many candidates have been attempted.
    pub tried: usize,
    /// Whether an attempt has succeeded; the dial stops here.
    pub connected: bool,
}

impl QuicDialer {
    /// Starts a dial over `total` resolved candidates.
    pub fn new(total: usize) -> (d: QuicDialer)
        ensures
            d.total == total,
            d.tried == 0,
            !d.connected,
    {
        QuicDialer { total, tried: 0, connected: false }
    }

    /// The index of the next candidate to attempt: the first untried
    /// one, and none once an attempt succeeded or all candidates are
    /// spent.
    pub fn next_candidate(&self) -> (r: Option<usize>)
        ensures
            r == if !self.connected && self.tried < self.total {
                Some(self.tried)
            } else {
                None::<usize>
            },
    {
        if !self.connected && self.tried < self.total {
            Some(self.tried)
        } else {
            None
        }
    }

    /// Records one attempt's outcome: a success ends the dial with a
    /// connection, a failure moves on to the next candidate.
    pub fn on_attempt(&mut self, ok: bool)
        requires
            !old(self).connected,
            old(self).tried < old(self).total,
        ensures
            final (self).total == old(self).total,
            final (self).tried == old(self).tried + 1,
            final (self).connected == ok,
    {
        self.tried = self.tried + 1;
        self.connected = ok;
    }

    /// Whether the dial ended with a connection; with none, the connect
    /// fails with an aggregate error naming the original target.
    pub fn succeeded(&self) -> (r: bool)
        ensures
            r == self.connected,
    {
        self.connected
    }
}

} // verus!
