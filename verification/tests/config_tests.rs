use rscat::dispatch::{connector_for_text, Connector};
use rscat::errors::ConfigError;
use rscat::lexical::{parse_bool_str, parse_i32_dec, parse_ipv4, parse_u32_dec, parse_u8_dec};
use rscat::netmask::prefix_to_mask;
use rscat::tcp::DurationVal;

fn connect(text: &str) -> Result<Connector, ConfigError> {
    connector_for_text(text)
}

#[test]
fn tcp_url_with_host_and_port_succeeds() {
    match connect("tcp://example.com:8080") {
        Ok(Connector::Tcp(c)) => {
            assert_eq!(c.target.0, "example.com");
            assert_eq!(c.target.1, 8080);
            assert!(c.settings.is_none());
        }
        other => panic!("expected a TCP client, got {:?}", other.is_ok()),
    }
}

#[test]
fn tcp_url_without_port_fails() {
    assert!(matches!(
        connect("tcp://example.com"),
        Err(ConfigError::InvalidUrl(_))
    ));
}

#[test]
fn tcp_url_without_host_fails() {
    assert!(matches!(connect("tcp:8080"), Err(ConfigError::InvalidUrl(_))));
}

#[test]
fn tcp_query_settings_are_decoded() {
    match connect("tcp://example.com:1234?nodelay=true&ttl=5&linger=2s") {
        Ok(Connector::Tcp(c)) => {
            let s = c.settings.expect("settings should be present");
            assert!(s.nodelay);
            assert_eq!(s.ttl, Some(5));
            assert_eq!(s.linger, Some(DurationVal { secs: 2, nanos: 0 }));
        }
        _ => panic!("expected a TCP client"),
    }
}

#[test]
fn tcp_subsecond_linger_is_decoded() {
    match connect("tcp://example.com:1234?linger=250ms") {
        Ok(Connector::Tcp(c)) => {
            let s = c.settings.expect("settings should be present");
            assert_eq!(
                s.linger,
                Some(DurationVal {
                    secs: 0,
                    nanos: 250_000_000
                })
            );
            assert!(!s.nodelay);
            assert_eq!(s.ttl, None);
        }
        _ => panic!("expected a TCP client"),
    }
}

#[test]
fn linger_outside_the_bounded_shape_is_rejected() {
    // long enough to drive the duration parser's seconds total to its
    // maximum; rejected as a bad value before the parser runs
    assert!(matches!(
        connect("tcp://example.com:1234?linger=18446744073709551615s1000000000ns"),
        Err(ConfigError::BadValue(_))
    ));
    // a long spelled-out duration without 's' or '.' is still accepted
    match connect("tcp://example.com:1234?linger=1hour 30min 1day") {
        Ok(Connector::Tcp(c)) => {
            let s = c.settings.expect("settings should be present");
            assert_eq!(
                s.linger,
                Some(DurationVal {
                    secs: 91800,
                    nanos: 0
                })
            );
        }
        _ => panic!("expected a TCP client"),
    }
}

#[test]
fn tcp_bad_settings_value_fails() {
    assert!(matches!(
        connect("tcp://example.com:1234?ttl=soon"),
        Err(ConfigError::BadValue(_))
    ));
    assert!(matches!(
        connect("tcp://example.com:1234?nodelay=yes"),
        Err(ConfigError::BadValue(_))
    ));
}

#[test]
fn tcp_undecodable_query_fails() {
    assert!(matches!(
        connect("tcp://example.com:1234?a[b]=1"),
        Err(ConfigError::BadQuery(_))
    ));
}

#[test]
fn tcp_server_url_is_dispatched() {
    match connect("tcp-server://127.0.0.1:9000") {
        Ok(Connector::TcpServer(c)) => {
            assert_eq!(c.target.0, "127.0.0.1");
            assert_eq!(c.target.1, 9000);
            assert!(!c.bound);
        }
        _ => panic!("expected a TCP server"),
    }
}

#[test]
fn stdio_url_is_dispatched() {
    assert!(matches!(connect("stdio:"), Ok(Connector::Stdio(_))));
}

#[test]
fn quic_url_needs_host_and_port() {
    match connect("quic://example.com:4433") {
        Ok(Connector::Quic(c)) => {
            assert_eq!(c.target.0, "example.com");
            assert_eq!(c.target.1, 4433);
        }
        _ => panic!("expected a QUIC client"),
    }
    assert!(matches!(
        connect("quic://example.com"),
        Err(ConfigError::InvalidUrl(_))
    ));
}

#[test]
fn websocket_url_keeps_whole_text() {
    match connect("ws://example.com/chat") {
        Ok(Connector::Ws(c)) => assert_eq!(c.target, "ws://example.com/chat"),
        _ => panic!("expected a WebSocket client"),
    }
    assert!(matches!(connect("wss://example.com"), Ok(Connector::Ws(_))));
}

#[test]
fn unknown_scheme_is_named() {
    match connect("gopher://example.com") {
        Err(ConfigError::UnsupportedScheme(s)) => assert_eq!(s, "gopher"),
        _ => panic!("expected an unsupported-scheme error"),
    }
}

#[test]
fn unparsable_text_is_rejected() {
    assert!(matches!(
        connect("not a url"),
        Err(ConfigError::UnparsableUrl(_))
    ));
}

#[test]
fn tun_url_builds_device_config() {
    match connect("tun://10.0.0.1/24?mtu=1400&dev=tun7") {
        Ok(Connector::Tun(c)) => {
            assert_eq!(c.addr, (10, 0, 0, 1));
            assert_eq!(c.netmask, (255, 255, 255, 0));
            assert_eq!(c.mtu, 1400);
            assert_eq!(c.dev, "tun7");
        }
        _ => panic!("expected a tun device"),
    }
}

#[test]
fn tun_defaults_apply_without_query() {
    match connect("tun://192.168.1.5/20") {
        Ok(Connector::Tun(c)) => {
            assert_eq!(c.addr, (192, 168, 1, 5));
            assert_eq!(c.netmask, (255, 255, 240, 0));
            assert_eq!(c.mtu, 1500);
            assert_eq!(c.dev, "tun%d");
        }
        _ => panic!("expected a tun device"),
    }
}

#[test]
fn tun_errors_are_distinguished() {
    assert!(matches!(
        connect("tun://10.0.0.1"),
        Err(ConfigError::InvalidUrl(_))
    ));
    assert!(matches!(
        connect("tun://example.com/24"),
        Err(ConfigError::BadAddress(_))
    ));
    assert!(matches!(
        connect("tun://10.0.0.1/abc"),
        Err(ConfigError::BadPrefix(_))
    ));
    match connect("tun://10.0.0.1/40") {
        Err(ConfigError::PrefixOutOfRange(p)) => assert_eq!(p, 40),
        _ => panic!("expected a prefix-out-of-range error"),
    }
    assert!(matches!(
        connect("tun://10.0.0.1/24?mtu=large"),
        Err(ConfigError::BadValue(_))
    ));
}

#[test]
fn prefix_masks_match_known_values() {
    assert_eq!(prefix_to_mask(0).unwrap(), (0, 0, 0, 0));
    assert_eq!(prefix_to_mask(32).unwrap(), (255, 255, 255, 255));
    assert_eq!(prefix_to_mask(24).unwrap(), (255, 255, 255, 0));
    assert_eq!(prefix_to_mask(20).unwrap(), (255, 255, 240, 0));
    assert_eq!(prefix_to_mask(1).unwrap(), (128, 0, 0, 0));
}

#[test]
fn prefix_above_32_fails() {
    assert!(matches!(
        prefix_to_mask(33),
        Err(ConfigError::PrefixOutOfRange(33))
    ));
    assert!(matches!(
        prefix_to_mask(255),
        Err(ConfigError::PrefixOutOfRange(255))
    ));
}

#[test]
fn error_messages_name_the_cause() {
    assert_eq!(
        ConfigError::UnsupportedScheme("gopher".to_string()).message(),
        "unsupported scheme: gopher"
    );
    assert_eq!(
        ConfigError::InvalidUrl("tcp://x".to_string()).message(),
        "Invalid URL: tcp://x"
    );
    assert_eq!(
        ConfigError::PrefixOutOfRange(40).message(),
        "prefix must not be > 32"
    );
}

#[test]
fn decimal_parsers_handle_bounds() {
    assert_eq!(parse_u32_dec("0"), Some(0));
    assert_eq!(parse_u32_dec("4294967295"), Some(u32::MAX));
    assert_eq!(parse_u32_dec("4294967296"), None);
    assert_eq!(parse_u32_dec(""), None);
    assert_eq!(parse_u32_dec("12a"), None);
    assert_eq!(parse_u32_dec("-1"), None);
    assert_eq!(parse_u8_dec("255"), Some(255));
    assert_eq!(parse_u8_dec("256"), None);
    assert_eq!(parse_i32_dec("1500"), Some(1500));
    assert_eq!(parse_i32_dec("-1500"), Some(-1500));
    assert_eq!(parse_i32_dec("2147483647"), Some(i32::MAX));
    assert_eq!(parse_i32_dec("2147483648"), None);
    assert_eq!(parse_i32_dec("-2147483648"), Some(i32::MIN));
    assert_eq!(parse_i32_dec("-2147483649"), None);
    assert_eq!(parse_i32_dec("-"), None);
    assert_eq!(parse_bool_str("true"), Some(true));
    assert_eq!(parse_bool_str("false"), Some(false));
    assert_eq!(parse_bool_str("True"), None);
}

#[test]
fn ipv4_parser_accepts_dotted_quads_only() {
    assert_eq!(parse_ipv4("10.0.0.1"), Some((10, 0, 0, 1)));
    assert_eq!(parse_ipv4("255.255.255.255"), Some((255, 255, 255, 255)));
    assert_eq!(parse_ipv4("0.0.0.0"), Some((0, 0, 0, 0)));
    assert_eq!(parse_ipv4("10.0.0"), None);
    assert_eq!(parse_ipv4("10.0.0.0.1"), None);
    assert_eq!(parse_ipv4("10.0.0.256"), None);
    assert_eq!(parse_ipv4("01.2.3.4"), None);
    assert_eq!(parse_ipv4("a.b.c.d"), None);
    assert_eq!(parse_ipv4(""), None);
}
