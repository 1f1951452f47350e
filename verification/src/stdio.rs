use vstd::prelude::*;
use crate::endpoint::{EndpointUrl, UrlParts, scheme_is};
use crate::errors::ConfigError;

verus! {

/// Whether a URL selects the standard-stream transport.
pub open spec fn spec_stdio_accepts(u: UrlParts) -> bool {
    u.scheme == "stdio"@
}

/// The standard-stream connector: its connect always succeeds and
/// combines the process's standard input (read half) and standard
/// output (write half) into one stream.
#[derive(Debug)]
pub struct Stdio {}

impl Stdio {
    /// Builds the connector from a `stdio` URL; only the scheme counts.
    pub fn try_from_url(u: &EndpointUrl) -> (r: Result<Stdio, ConfigError>)
        ensures
            r is Ok <==> spec_stdio_accepts(u@),
            r matches Err(e) ==> e matches ConfigError::InvalidUrl(t) && t@ == u@.text,
    {
        if scheme_is(u, "stdio") {
            Ok(Stdio {  })
        } else {
            Err(ConfigError::InvalidUrl(u.text.clone()))
        }
    }
}

} // verus!
