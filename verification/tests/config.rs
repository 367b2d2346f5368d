use udp_echo::config::resolve;
use udp_echo::config::parse_ipv4;
use udp_echo::config::parse_port;
use udp_echo::config::ConfigError;
use udp_echo::BindAddress;
use udp_echo::Ipv4;

fn bytes(s: &str) -> Vec<u8> {
    s.as_bytes().to_vec()
}

fn addr(a: u8, b: u8, c: u8, d: u8, port: u16) -> BindAddress {
    BindAddress { ip: Ipv4 { a, b, c, d }, port }
}

#[test]
fn resolver_defaults() {
    assert_eq!(resolve(None, None), Ok(addr(0, 0, 0, 0, 6881)));
}

#[test]
fn resolver_defaults_agree_with_default_strings() {
    let ip = bytes("0.0.0.0");
    let port = bytes("6881");
    assert_eq!(resolve(Some(&ip), Some(&port)), resolve(None, None));
}

#[test]
fn resolver_override() {
    let ip = bytes("127.0.0.1");
    let port = bytes("9999");
    assert_eq!(resolve(Some(&ip), Some(&port)), Ok(addr(127, 0, 0, 1, 9999)));
}

#[test]
fn resolver_ip_only() {
    let ip = bytes("10.0.0.2");
    assert_eq!(resolve(Some(&ip), None), Ok(addr(10, 0, 0, 2, 6881)));
}

#[test]
fn resolver_port_only() {
    let port = bytes("80");
    assert_eq!(resolve(None, Some(&port)), Ok(addr(0, 0, 0, 0, 80)));
}

#[test]
fn resolver_rejects_hostname() {
    let ip = bytes("not-a-real-host.invalid");
    assert_eq!(resolve(Some(&ip), None), Err(ConfigError::InvalidHost));
}

#[test]
fn resolver_rejects_empty_host() {
    let ip = bytes("");
    assert_eq!(resolve(Some(&ip), None), Err(ConfigError::InvalidHost));
}

#[test]
fn resolver_rejects_bad_port() {
    let port = bytes("70000");
    assert_eq!(resolve(None, Some(&port)), Err(ConfigError::InvalidPort));
    let port = bytes("12ab");
    assert_eq!(resolve(None, Some(&port)), Err(ConfigError::InvalidPort));
    let port = bytes("");
    assert_eq!(resolve(None, Some(&port)), Err(ConfigError::InvalidPort));
}

#[test]
fn resolver_reports_host_before_port() {
    let ip = bytes("nowhere");
    let port = bytes("badport");
    assert_eq!(resolve(Some(&ip), Some(&port)), Err(ConfigError::InvalidHost));
}

#[test]
fn ipv4_full_range() {
    assert_eq!(parse_ipv4(&bytes("255.255.255.255")), Some(Ipv4 { a: 255, b: 255, c: 255, d: 255 }));
    assert_eq!(parse_ipv4(&bytes("0.0.0.0")), Some(Ipv4 { a: 0, b: 0, c: 0, d: 0 }));
}

#[test]
fn ipv4_octet_too_large() {
    assert_eq!(parse_ipv4(&bytes("256.1.1.1")), None);
    assert_eq!(parse_ipv4(&bytes("1.1.1.999")), None);
}

#[test]
fn ipv4_wrong_shape() {
    assert_eq!(parse_ipv4(&bytes("1.2.3")), None);
    assert_eq!(parse_ipv4(&bytes("1.2.3.4.5")), None);
    assert_eq!(parse_ipv4(&bytes("1..2.3")), None);
    assert_eq!(parse_ipv4(&bytes("1.2.3.")), None);
    assert_eq!(parse_ipv4(&bytes(".1.2.3")), None);
    assert_eq!(parse_ipv4(&bytes("1.2.3.4 ")), None);
    assert_eq!(parse_ipv4(&bytes("a.b.c.d")), None);
}

#[test]
fn ipv4_leading_zeros_read_by_value() {
    assert_eq!(parse_ipv4(&bytes("001.002.003.004")), Some(Ipv4 { a: 1, b: 2, c: 3, d: 4 }));
}

#[test]
fn port_bounds() {
    assert_eq!(parse_port(&bytes("0")), Some(0));
    assert_eq!(parse_port(&bytes("6881")), Some(6881));
    assert_eq!(parse_port(&bytes("65535")), Some(65535));
    assert_eq!(parse_port(&bytes("65536")), None);
    assert_eq!(parse_port(&bytes("007")), Some(7));
    assert_eq!(parse_port(&bytes("")), None);
    assert_eq!(parse_port(&bytes("1 2")), None);
}
