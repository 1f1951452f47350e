use vstd::prelude::*;
use crate::endpoint::{EndpointUrl, UrlParts, scheme_is};
use crate::errors::ConfigError;

verus! {

/// Whether a URL has the shape the WebSocket client accepts: the `ws`
/// or `wss` scheme with a host.
pub open spec fn spec_ws_accepts(u: UrlParts) -> bool {
    (u.scheme == "ws"@ || u.scheme == "wss"@) && u.host is Some
}

/// How the built client relates to its URL: the handshake target is
/// the whole URL text.
pub open spec fn spec_ws_built(u: UrlParts, c: WsClient) -> bool {
    c.target@ == u.text
}

/// The WebSocket client connector: performs the handshake against
/// `target` at connect time and wraps the message channel as a byte
/// stream.
#[derive(Debug)]
pub struct WsClient {
    pub target: String,
}

impl WsClient {
    /// Builds the connector from a `ws` or `wss` URL, validating
    /// eagerly: the host must be present.
    pub fn try_from_url(u: &EndpointUrl) -> (r: Result<WsClient, ConfigError>)
        ensures
            r is Ok <==> spec_ws_accepts(u@),
            r matches Ok(c) ==> spec_ws_built(u@, c),
            r matches Err(e) ==> e matches ConfigError::InvalidUrl(t) && t@ == u@.text,
    {
        if (scheme_is(u, "ws") || scheme_is(u, "wss")) && u.host.is_some() {
            Ok(WsClient { target: u.text.clone() })
        } else {
            Err(ConfigError::InvalidUrl(u.text.clone()))
        }
    }
}

/// One incoming item of the message channel, as plain values.
pub enum MsgEvent {
    /// A binary message's payload.
    Binary(Vec<u8>),
    /// A message of any other kind, named for the error text.
    Other(String),
    /// The channel is closed.
    Closed,
}

/// The outcome of one read through the message-to-stream adapter.
pub enum ReadOutcome {
    /// The message's payload, surfaced whole as one read.
    Data(Vec<u8>),
    /// End of stream: a read of length zero with no error.
    Eof,
    /// A non-binary message is a fatal read error naming the kind.
    UnsupportedKind(String),
    /// A message longer than the caller's buffer is a fatal read error
    /// carrying the message's length: an explicit choice over silent
    /// truncation.
    Oversized(usize),
}

/// The adapter's read side: one read consumes at most one message. A
/// binary payload is surfaced whole when it fits the caller's buffer
/// of `capacity` bytes and is otherwise an explicit error — never a
/// silent truncation. Channel closure is end-of-stream, and any other
/// message kind is an error, never silently dropped.
pub fn adapter_read(e: MsgEvent, capacity: usize) -> (r: ReadOutcome)
    ensures
        match e {
            MsgEvent::Binary(d) => if d@.len() <= capacity {
                r matches ReadOutcome::Data(p) && p@ == d@
            } else {
                r matches ReadOutcome::Oversized(n) && n == d@.len()
            },
            MsgEvent::Other(k) => r matches ReadOutcome::UnsupportedKind(n) && n@ == k@,
            MsgEvent::Closed => r matches ReadOutcome::Eof,
        },
{
    match e {
        MsgEvent::Binary(d) => if d.len() <= capacity {
            ReadOutcome::Data(d)
        } else {
            ReadOutcome::Oversized(d.len())
        },
        MsgEvent::Other(k) => ReadOutcome::UnsupportedKind(k),
        MsgEvent::Closed => ReadOutcome::Eof,
    }
}

/// The adapter's write side: the outgoing binary messages, oldest
/// first, that the writes so far have enqueued.
pub struct MsgWriter {
    pub sent: Vec<Vec<u8>>,
}

impl MsgWriter {
    /// The enqueued messages' payloads, oldest first.
    pub open spec fn messages(&self) -> Seq<Seq<u8>> {
        self.sent.deep_view()
    }

    /// A fresh adapter with nothing enqueued.
    pub fn new() -> (w: MsgWriter)
        ensures
            w.messages() == Seq::<Seq<u8>>::empty(),
    {
        let w = MsgWriter { sent: Vec::new() };
        proof {
            assert(w.messages() =~~= Seq::<Seq<u8>>::empty());
        }
        w
    }

    /// One write: while the channel is not ready the write is pending
    /// and nothing is enqueued; once ready, the bytes are wrapped whole
    /// into exactly one binary message, appended after all earlier
    /// ones, and the whole write is accepted. No splitting, coalescing
    /// or reordering.
    pub fn write(&mut self, buf: &Vec<u8>, ready: bool) -> (r: Option<usize>)
        ensures
            !ready ==> final (self).messages() == old(self).messages() && r is None,
            ready ==> final (self).messages() == old(self).messages().push(buf@) && r == Some(
                buf.len(),
            ),
    {
        if !ready {
            return None;
        }
        let n = buf.len();
        self.sent.push(copy_bytes(buf));
        proof {
            assert(self.messages() =~~= old(self).messages().push(buf@));
        }
        Some(n)
    }
}

/// A byte-for-byte copy of a buffer.
fn copy_bytes(src: &Vec<u8>) -> (r: Vec<u8>)
    ensures
        r@ == src@,
{
    let mut out: Vec<u8> = Vec::new();
    let mut i: usize = 0;
    proof {
        assert(out@ =~= src@.take(0));
    }
    while i < src.len()
        invariant
            0 <= i <= src@.len(),
            out@ == src@.take(i as int),
        decreases src@.len() - i,
    {
        out.push(src[i]);
        proof {
            assert(src@.take(i + 1) =~= src@.take(i as int).push(src@[i as int]));
        }
        i = i + 1;
    }
    proof {
        assert(src@.take(src@.len() as int) =~= src@);
    }
    out
}

} // verus!
