use vstd::prelude::*;
use crate::endpoint::{EndpointUrl, UrlParts, parsed_url, parse_url_text, scheme_is};
use crate::errors::ConfigError;
use crate::quic::{QuicClient, spec_quic_accepts, spec_quic_built};
use crate::stdio::{Stdio, spec_stdio_accepts};
use crate::tcp::{
    TcpClient, TcpServer, spec_tcp_client_accepts, spec_tcp_client_built,
    spec_tcp_server_accepts, spec_tcp_server_built,
};
use crate::tundev::{TunDevice, spec_tun_accepts, spec_tun_built};
use crate::websocket::{WsClient, spec_ws_accepts, spec_ws_built};

verus! {

/// One endpoint connector, tagged by transport kind and carrying its
/// validated configuration.
#[derive(Debug)]
pub enum Connector {
    Stdio(Stdio),
    Tcp(TcpClient),
    TcpServer(TcpServer),
    Tun(TunDevice),
    Quic(QuicClient),
    Ws(WsClient),
}

/// The registered schemes.
pub open spec fn spec_scheme_known(s: Seq<char>) -> bool {
    ||| s == "stdio"@
    ||| s == "tcp"@
    ||| s == "tcp-server"@
    ||| s == "tun"@
    ||| s == "quic"@
    ||| s == "ws"@
    ||| s == "wss"@
}

/// Whether a parsed URL yields a connector: its scheme must be
/// registered and the scheme's connector must accept the URL.
pub open spec fn spec_connector_accepts(u: UrlParts) -> bool {
    if u.scheme == "stdio"@ {
        spec_stdio_accepts(u)
    } else if u.scheme == "tcp"@ {
        spec_tcp_client_accepts(u)
    } else if u.scheme == "tcp-server"@ {
        spec_tcp_server_accepts(u)
    } else if u.scheme == "tun"@ {
        spec_tun_accepts(u)
    } else if u.scheme == "quic"@ {
        spec_quic_accepts(u)
    } else if u.scheme == "ws"@ || u.scheme == "wss"@ {
        spec_ws_accepts(u)
    } else {
        false
    }
}

/// How a built connector relates to its URL: the variant matches the
/// scheme and carries what the scheme's parser read from the URL.
pub open spec fn spec_connector_built(u: UrlParts, c: Connector) -> bool {
    match c {
        Connector::Stdio(_) => u.scheme == "stdio"@,
        Connector::Tcp(t) => u.scheme == "tcp"@ && spec_tcp_client_built(u, t),
        Connector::TcpServer(t) => u.scheme == "tcp-server"@ && spec_tcp_server_built(u, t),
        Connector::Tun(t) => u.scheme == "tun"@ && spec_tun_built(u, t),
        Connector::Quic(t) => u.scheme == "quic"@ && spec_quic_built(u, t),
        Connector::Ws(t) => (u.scheme == "ws"@ || u.scheme == "wss"@) && spec_ws_built(u, t),
    }
}

/// The scheme registry's dispatch: builds and validates the connector
/// that the URL's scheme selects. An unknown scheme is an immediate
/// error naming it; any other failure is the scheme's own validation
/// error.
pub fn connector_for_url(u: &EndpointUrl) -> (r: Result<Connector, ConfigError>)
    ensures
        r is Ok <==> spec_connector_accepts(u@),
        match r {
            Ok(c) => spec_connector_built(u@, c),
            Err(e) => !spec_scheme_known(u@.scheme) ==> (e matches ConfigError::UnsupportedScheme(
                s,
            ) && s@ == u@.scheme),
        },
{
    if scheme_is(u, "stdio") {
        match Stdio::try_from_url(u) {
            Ok(c) => Ok(Connector::Stdio(c)),
            Err(e) => Err(e),
        }
    } else if scheme_is(u, "tcp") {
        match TcpClient::try_from_url(u) {
            Ok(c) => Ok(Connector::Tcp(c)),
            Err(e) => Err(e),
        }
    } else if scheme_is(u, "tcp-server") {
        match TcpServer::try_from_url(u) {
            Ok(c) => Ok(Connector::TcpServer(c)),
            Err(e) => Err(e),
        }
    } else if scheme_is(u, "tun") {
        match TunDevice::try_from_url(u) {
            Ok(c) => Ok(Connector::Tun(c)),
            Err(e) => Err(e),
        }
    } else if scheme_is(u, "quic") {
        match QuicClient::try_from_url(u) {
            Ok(c) => Ok(Connector::Quic(c)),
            Err(e) => Err(e),
        }
    } else if scheme_is(u, "ws") || scheme_is(u, "wss") {
        match WsClient::try_from_url(u) {
            Ok(c) => Ok(Connector::Ws(c)),
            Err(e) => Err(e),
        }
    } else {
        Err(ConfigError::UnsupportedScheme(u.scheme.clone()))
    }
}

/// Turns endpoint text into its connector: the text must parse as a
/// URL, and the URL's scheme must accept it.
pub fn connector_for_text(s: &str) -> (r: Result<Connector, ConfigError>)
    ensures
        match parsed_url(s@) {
            None => r matches Err(e) && e matches ConfigError::UnparsableUrl(t) && t@ == s@,
            Some(u) => {
                &&& r is Ok <==> spec_connector_accepts(u)
                &&& (r matches Ok(c) ==> spec_connector_built(u, c))
            },
        },
{
    match parse_url_text(s) {
        None => Err(ConfigError::UnparsableUrl(s.to_owned())),
        Some(u) => connector_for_url(&u),
    }
}

} // verus!
