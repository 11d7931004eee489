use flyc_network::dotted::push_decimal;
use flyc_network::{
    format_ipv4, network_base_of, network_info_for, network_info_from_ip, resolve, HostAddress,
    NetworkInfo, ResolveError,
};

fn info(ip: &str, base: &str) -> NetworkInfo {
    NetworkInfo {
        interface_name: "primary".to_string(),
        ip_address: ip.to_string(),
        network_base: base.to_string(),
    }
}

#[test]
fn routable_ipv4_address_gives_primary_info() {
    let r = resolve(Ok(HostAddress::V4([192, 168, 1, 42])));
    assert_eq!(r, Ok(info("192.168.1.42", "192.168.1")));
}

#[test]
fn ipv6_address_is_refused() {
    let r = resolve(Ok(HostAddress::V6([0xfe80, 0, 0, 0, 0, 0, 0, 1])));
    assert_eq!(r, Err(ResolveError::UnsupportedAddressFamily));
    assert_eq!(r.unwrap_err().message(), "IPv6 not supported");
}

#[test]
fn lookup_failure_carries_its_reason() {
    let r = resolve(Err("no network interfaces".to_string()));
    assert_eq!(
        r,
        Err(ResolveError::LookupFailed("no network interfaces".to_string()))
    );
    let m = r.unwrap_err().message();
    assert!(m.contains("Failed to get local IP: no network interfaces"));
    assert_eq!(m, "Failed to get local IP: no network interfaces");
}

#[test]
fn network_base_is_first_three_octets() {
    let cases: Vec<([u8; 4], &str, &str)> = vec![
        ([0, 0, 0, 0], "0.0.0.0", "0.0.0"),
        ([255, 255, 255, 255], "255.255.255.255", "255.255.255"),
        ([10, 0, 5, 7], "10.0.5.7", "10.0.5"),
        ([172, 16, 99, 100], "172.16.99.100", "172.16.99"),
        ([1, 20, 200, 9], "1.20.200.9", "1.20.200"),
    ];
    for (octets, ip, base) in cases {
        assert_eq!(network_info_for(&HostAddress::V4(octets)), Ok(info(ip, base)));
    }
}

#[test]
fn network_base_is_strict_prefix_of_address() {
    let got = network_info_for(&HostAddress::V4([192, 168, 100, 254])).unwrap();
    assert!(got.ip_address.starts_with(&got.network_base));
    assert!(got.network_base.len() < got.ip_address.len());
    let rest = &got.ip_address[got.network_base.len()..];
    assert_eq!(rest, ".254");
    assert!(!rest[1..].contains('.'));
}

#[test]
fn repeated_resolution_is_identical() {
    let a = resolve(Ok(HostAddress::V4([192, 168, 1, 42])));
    let b = resolve(Ok(HostAddress::V4([192, 168, 1, 42])));
    assert_eq!(a, b);
    let e1 = resolve(Err("down".to_string()));
    let e2 = resolve(Err("down".to_string()));
    assert_eq!(e1, e2);
}

#[test]
fn format_ipv4_renders_dotted_decimal() {
    assert_eq!(format_ipv4([192, 168, 1, 42]), "192.168.1.42");
    assert_eq!(format_ipv4([0, 9, 10, 99]), "0.9.10.99");
    assert_eq!(format_ipv4([100, 255, 1, 0]), "100.255.1.0");
}

#[test]
fn push_decimal_appends_digits() {
    let mut s = "x=".to_string();
    push_decimal(&mut s, 7);
    assert_eq!(s, "x=7");
    push_decimal(&mut s, 45);
    assert_eq!(s, "x=745");
    push_decimal(&mut s, 203);
    assert_eq!(s, "x=745203");
}

#[test]
fn network_base_of_needs_four_parts() {
    assert_eq!(network_base_of("1.2.3.4"), Some("1.2.3".to_string()));
    assert_eq!(network_base_of("1.2.3"), None);
    assert_eq!(network_base_of("1.2.3.4.5"), None);
    assert_eq!(network_base_of(""), None);
    assert_eq!(network_base_of("..."), Some("..".to_string()));
    assert_eq!(network_base_of("é.ü.x.y"), Some("é.ü.x".to_string()));
}

#[test]
fn malformed_address_text_is_rejected() {
    let r = network_info_from_ip("10.0.0".to_string());
    assert_eq!(r, Err(ResolveError::MalformedAddress));
    assert_eq!(r.unwrap_err().message(), "Invalid IP address format");
    assert_eq!(
        network_info_from_ip("10.0.0.1".to_string()),
        Ok(info("10.0.0.1", "10.0.0"))
    );
}
