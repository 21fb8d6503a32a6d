use g3_egress::net::{parse_ip, parse_ip_network, parse_ipv4, parse_ipv6, IpAddr};

#[test]
fn ipv4_text_parses() {
    assert_eq!(parse_ipv4("10.0.0.1"), Some(0x0a000001));
    assert_eq!(parse_ipv4("0.0.0.0"), Some(0));
    assert_eq!(parse_ipv4("255.255.255.255"), Some(0xffffffff));
    assert_eq!(parse_ipv4("127.0.0.1"), Some(0x7f000001));
}

#[test]
fn ipv4_text_rejects() {
    assert_eq!(parse_ipv4("256.1.1.1"), None);
    assert_eq!(parse_ipv4("1.2.3"), None);
    assert_eq!(parse_ipv4("1.2.3.4.5"), None);
    assert_eq!(parse_ipv4(""), None);
    assert_eq!(parse_ipv4("a.b.c.d"), None);
    assert_eq!(parse_ipv4("1..2.3"), None);
    // Leading zeros are refused, as octet text is canonical.
    assert_eq!(parse_ipv4("010.0.0.1"), None);
    assert_eq!(parse_ipv4("1.2.3.04"), None);
    assert_eq!(parse_ipv4("1.2.3.1234"), None);
}

#[test]
fn ipv6_text_parses() {
    assert_eq!(
        parse_ipv6("2001:db8:0:0:0:0:0:1"),
        Some(0x2001_0db8_0000_0000_0000_0000_0000_0001)
    );
    assert_eq!(parse_ipv6("0:0:0:0:0:0:0:0"), Some(0));
    assert_eq!(
        parse_ipv6("ffff:ffff:ffff:ffff:ffff:ffff:ffff:ffff"),
        Some(u128::MAX)
    );
    assert_eq!(
        parse_ipv6("FE80:0:0:0:0:0:0:1"),
        Some(0xfe80_0000_0000_0000_0000_0000_0000_0001)
    );
}

#[test]
fn ipv6_text_rejects() {
    assert_eq!(parse_ipv6("1:2:3"), None);
    assert_eq!(parse_ipv6("1:2:3:4:5:6:7:8:9"), None);
    assert_eq!(parse_ipv6("12345:0:0:0:0:0:0:0"), None);
    assert_eq!(parse_ipv6("g:0:0:0:0:0:0:0"), None);
}

#[test]
fn ip_prefers_v4_then_v6() {
    assert_eq!(parse_ip("10.0.0.1"), Some(IpAddr::V4(0x0a000001)));
    assert_eq!(
        parse_ip("0:0:0:0:0:0:0:1"),
        Some(IpAddr::V6(1))
    );
    assert_eq!(parse_ip("neither"), None);
}

#[test]
fn network_text_parses() {
    let n = parse_ip_network("10.0.0.0/8").unwrap();
    assert_eq!(n.addr, IpAddr::V4(0x0a000000));
    assert_eq!(n.prefix, 8);

    let single = parse_ip_network("10.0.0.1").unwrap();
    assert_eq!(single.addr, IpAddr::V4(0x0a000001));
    assert_eq!(single.prefix, 32);

    let v6 = parse_ip_network("2001:db8:0:0:0:0:0:0/48").unwrap();
    assert_eq!(v6.prefix, 48);

    let v6single = parse_ip_network("0:0:0:0:0:0:0:1").unwrap();
    assert_eq!(v6single.prefix, 128);
}

#[test]
fn network_text_rejects() {
    assert_eq!(parse_ip_network("1.2.3.4/33"), None);
    assert_eq!(parse_ip_network("0:0:0:0:0:0:0:1/129"), None);
    assert_eq!(parse_ip_network("1.2.3.4/8/9"), None);
    assert_eq!(parse_ip_network("hello/8"), None);
    assert_eq!(parse_ip_network("10.0.0.0/08"), None);
    assert_eq!(parse_ip_network("1.2.3.4/"), None);
}
