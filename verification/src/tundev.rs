use vstd::prelude::*;
use crate::endpoint::{EndpointUrl, UrlParts, scheme_is};
use crate::errors::ConfigError;
use crate::lexical::{
    spec_parse_i32, spec_parse_u8, spec_parse_ipv4, parse_i32_dec, parse_u8_dec, parse_ipv4,
};
use crate::netmask::{spec_prefix_mask, prefix_to_mask};
use crate::query::{parsed_query, parse_query_str, pairs_view, spec_lookup, lookup};
use vstd::string::StrSliceExecFns;

verus! {

/// The virtual-interface settings, with their defaults.
#[derive(Debug)]
pub struct TunSettings {
    /// Device name; "tun%d" lets the OS pick a number.
    pub dev: String,
    /// Maximum transmission unit. Default 1500.
    pub mtu: i32,
}

/// The ghost image of `TunSettings`.
pub ghost struct TunSettingsV {
    pub dev: Seq<char>,
    pub mtu: i32,
}

impl View for TunSettings {
    type V = TunSettingsV;

    open spec fn view(&self) -> TunSettingsV {
        TunSettingsV { dev: self.dev@, mtu: self.mtu }
    }
}

/// The device name used when the URL names none.
pub fn get_default_dev() -> (r: String)
    ensures
        r@ == "tun%d"@,
{
    "tun%d".to_owned()
}

/// The MTU used when the URL names none.
pub fn get_default_mtu() -> (r: i32)
    ensures
        r == 1500,
{
    1500
}

impl Default for TunSettings {
    /// The settings of a URL without a query: an OS-assigned device
    /// name and an MTU of 1500.
    fn default() -> (r: TunSettings)
        ensures
            r@.dev == "tun%d"@,
            r@.mtu == 1500,
    {
        TunSettings { dev: get_default_dev(), mtu: get_default_mtu() }
    }
}

/// The settings read from decoded query pairs: `dev` any text, `mtu` a
/// signed number, each optional with its default.
pub open spec fn spec_tun_settings(pairs: Seq<(Seq<char>, Seq<char>)>) -> Option<TunSettingsV> {
    let dv = match spec_lookup(pairs, "dev"@) {
        Some(v) => v,
        None => "tun%d"@,
    };
    match (match spec_lookup(pairs, "mtu"@) {
        Some(v) => spec_parse_i32(v),
        None => Some(1500i32),
    }) {
        Some(m) => Some(TunSettingsV { dev: dv, mtu: m }),
        None => None,
    }
}

/// Reads the virtual-interface settings out of decoded query pairs.
pub fn tun_settings_from_pairs(pairs: &Vec<(String, String)>) -> (r: Result<
    TunSettings,
    ConfigError,
>)
    ensures
        match r {
            Ok(s) => spec_tun_settings(pairs_view(pairs@)) == Some(s@),
            Err(e) => spec_tun_settings(pairs_view(pairs@)) is None && e matches
                ConfigError::BadValue(_),
        },
{
    let dev: String = match lookup(pairs, "dev") {
        Some(v) => v,
        None => get_default_dev(),
    };
    let mtu: i32 = match lookup(pairs, "mtu") {
        Some(v) => match parse_i32_dec(v.as_str()) {
            Some(m) => m,
            None => { return Err(ConfigError::BadValue(v)) },
        },
        None => get_default_mtu(),
    };
    Ok(TunSettings { dev, mtu })
}

/// What a `tun` URL's optional query forces: no query gives the
/// defaults; a query must decode into pairs and the pairs into
/// settings.
pub open spec fn spec_tun_settings_outcome(q: Option<Seq<char>>) -> Option<TunSettingsV> {
    match q {
        None => Some(TunSettingsV { dev: "tun%d"@, mtu: 1500 }),
        Some(qs) => match parsed_query(qs) {
            None => None,
            Some(ps) => spec_tun_settings(ps),
        },
    }
}

/// Whether a URL has the shape the virtual interface accepts: the
/// `tun` scheme with a host and a nonempty path.
pub open spec fn tun_url_ok(u: UrlParts) -> bool {
    u.scheme == "tun"@ && u.host is Some && u.path.len() > 0
}

/// The URL path with one leading '/' removed.
pub open spec fn spec_strip_slash(p: Seq<char>) -> Seq<char> {
    if p.len() > 0 && p[0] == '/' {
        p.skip(1)
    } else {
        p
    }
}

/// Whether a `tun` URL yields a device connector: right shape, the
/// host a dotted-quad IPv4 address, the path a prefix length 0..=32,
/// and a decodable query.
pub open spec fn spec_tun_accepts(u: UrlParts) -> bool {
    &&& tun_url_ok(u)
    &&& (u.host matches Some(h) && spec_parse_ipv4(h) is Some)
    &&& (spec_parse_u8(spec_strip_slash(u.path)) matches Some(p) && p <= 32)
    &&& spec_tun_settings_outcome(u.query) is Some
}

/// How the built device configuration relates to its URL: the address
/// read from the host, the mask derived from the path's prefix length,
/// name and MTU from the query settings.
pub open spec fn spec_tun_built(u: UrlParts, c: TunDevice) -> bool {
    &&& (u.host matches Some(h) && spec_parse_ipv4(h) == Some(c.addr))
    &&& (spec_parse_u8(spec_strip_slash(u.path)) matches Some(p) && p <= 32 && c.netmask
        == spec_prefix_mask(p as int))
    &&& (spec_tun_settings_outcome(u.query) matches Some(s) && c.dev@ == s.dev && c.mtu == s.mtu)
}

/// The virtual-interface connector's configuration: the IPv4 address,
/// the subnet mask derived from the prefix length, the MTU and the
/// device name. The device itself is created at connect time.
#[derive(Debug)]
pub struct TunDevice {
    pub addr: (u8, u8, u8, u8),
    pub netmask: (u8, u8, u8, u8),
    pub mtu: i32,
    pub dev: String,
}

impl TunDevice {
    /// Builds the connector from a `tun` URL, validating eagerly: the
    /// host must be an IPv4 address, the path a CIDR prefix length
    /// 0..=32, and the query, if any, must decode into settings.
    pub fn try_from_url(u: &EndpointUrl) -> (r: Result<TunDevice, ConfigError>)
        ensures
            r is Ok <==> spec_tun_accepts(u@),
            match r {
                Ok(c) => spec_tun_built(u@, c),
                Err(e) => {
                    &&& !tun_url_ok(u@) ==> (e matches ConfigError::InvalidUrl(t) && t@ == u@.text)
                    &&& (tun_url_ok(u@) && (u@.host matches Some(h) && spec_parse_ipv4(h) is None))
                        ==> (e matches ConfigError::BadAddress(a) && u@.host == Some(a@))
                    &&& (tun_url_ok(u@) && (u@.host matches Some(h) && spec_parse_ipv4(h) is Some)
                        && spec_parse_u8(spec_strip_slash(u@.path)) is None) ==> (e matches
                        ConfigError::BadPrefix(t) && t@ == spec_strip_slash(u@.path))
                    &&& (tun_url_ok(u@) && (u@.host matches Some(h) && spec_parse_ipv4(h) is Some)
                        && (spec_parse_u8(spec_strip_slash(u@.path)) matches Some(p) && p > 32))
                        ==> (e matches ConfigError::PrefixOutOfRange(p2) && spec_parse_u8(
                        spec_strip_slash(u@.path),
                    ) == Some(p2))
                    &&& (tun_url_ok(u@) && (u@.host matches Some(h) && spec_parse_ipv4(h) is Some)
                        && (spec_parse_u8(spec_strip_slash(u@.path)) matches Some(p) && p <= 32)
                        && spec_tun_settings_outcome(u@.query) is None) ==> (e matches
                        ConfigError::BadQuery(_) || e matches ConfigError::BadValue(_))
                },
            },
    {
        if !scheme_is(u, "tun") {
            return Err(ConfigError::InvalidUrl(u.text.clone()));
        }
        let host = match &u.host {
            Some(h) => h.clone(),
            None => { return Err(ConfigError::InvalidUrl(u.text.clone())) },
        };
        if u.path.as_str().unicode_len() == 0 {
            return Err(ConfigError::InvalidUrl(u.text.clone()));
        }
        let addr = match parse_ipv4(host.as_str()) {
            Some(a) => a,
            None => { return Err(ConfigError::BadAddress(host)) },
        };
        let p = u.path.as_str();
        let n = p.unicode_len();
        let stripped: String = if p.get_char(0) == '/' {
            proof {
                assert(p@.subrange(1, n as int) =~= p@.skip(1));
            }
            p.substring_char(1, n).to_owned()
        } else {
            p.to_owned()
        };
        let prefix = match parse_u8_dec(stripped.as_str()) {
            Some(v) => v,
            None => { return Err(ConfigError::BadPrefix(stripped)) },
        };
        let netmask = match prefix_to_mask(prefix) {
            Ok(m) => m,
            Err(e) => { return Err(e) },
        };
        let settings = match &u.query {
            None => TunSettings::default(),
            Some(qs) => match parse_query_str(qs.as_str()) {
                None => { return Err(ConfigError::BadQuery(qs.clone())) },
                Some(pairs) => match tun_settings_from_pairs(&pairs) {
                    Ok(s) => s,
                    Err(e) => { return Err(e) },
                },
            },
        };
        Ok(TunDevice { addr, netmask, mtu: settings.mtu, dev: settings.dev })
    }
}

} // verus!
