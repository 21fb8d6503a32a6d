use g3_egress::http_connect::HttpConnectRequest;
use g3_egress::net::{Host, IpAddr, UpstreamAddr};

fn domain(name: &str) -> Host {
    Host::Domain(name.to_string())
}

#[test]
fn connect_request_minimal() {
    let upstream = UpstreamAddr::new(domain("example.com"), 443);
    let req = HttpConnectRequest::new(&upstream, &Vec::new());
    let bytes = req.build();
    assert_eq!(
        String::from_utf8(bytes).unwrap(),
        "CONNECT example.com:443 HTTP/1.1\r\nHost: example.com:443\r\n\r\n"
    );
}

#[test]
fn connect_request_with_headers() {
    let upstream = UpstreamAddr::new(domain("secret"), 443);
    let headers = vec!["X-Trace: abc".to_string()];
    let mut req = HttpConnectRequest::new(&upstream, &headers);
    req.append_dyn_header("X-More: 1".to_string());
    let bytes = req.build();
    assert_eq!(
        String::from_utf8(bytes).unwrap(),
        "CONNECT secret:443 HTTP/1.1\r\nHost: secret:443\r\nX-Trace: abc\r\nX-More: 1\r\n\r\n"
    );
}

#[test]
fn connect_request_with_auth() {
    let upstream = UpstreamAddr::new(domain("origin"), 80);
    let mut req = HttpConnectRequest::new(&upstream, &Vec::new());
    req.set_proxy_authorization(&"user".to_string());
    let bytes = req.build();
    // base64 of "user:" is dXNlcjo=
    assert_eq!(
        String::from_utf8(bytes).unwrap(),
        "CONNECT origin:80 HTTP/1.1\r\nHost: origin:80\r\nProxy-Authorization: Basic dXNlcjo=\r\n\r\n"
    );
}

#[test]
fn connect_request_ip_hosts() {
    let v4 = UpstreamAddr::new(Host::Ip(IpAddr::V4(0x0a000001)), 8080);
    let req = HttpConnectRequest::new(&v4, &Vec::new());
    let text = String::from_utf8(req.build()).unwrap();
    assert!(text.starts_with("CONNECT 10.0.0.1:8080 HTTP/1.1\r\n"));

    let v6 = UpstreamAddr::new(Host::Ip(IpAddr::V6(0x2001_0db8_0000_0000_0000_0000_0000_0001)), 443);
    let req6 = HttpConnectRequest::new(&v6, &Vec::new());
    let text6 = String::from_utf8(req6.build()).unwrap();
    assert!(text6.starts_with("CONNECT [2001:db8:0:0:0:0:0:1]:443 HTTP/1.1\r\n"));
}

#[test]
fn base64_test_vectors() {
    let mut out: Vec<u8> = Vec::new();
    g3_egress::codec::push_b64(&mut out, &b"".to_vec());
    assert_eq!(out, b"");
    let mut out: Vec<u8> = Vec::new();
    g3_egress::codec::push_b64(&mut out, &b"f".to_vec());
    assert_eq!(out, b"Zg==");
    let mut out: Vec<u8> = Vec::new();
    g3_egress::codec::push_b64(&mut out, &b"fo".to_vec());
    assert_eq!(out, b"Zm8=");
    let mut out: Vec<u8> = Vec::new();
    g3_egress::codec::push_b64(&mut out, &b"foo".to_vec());
    assert_eq!(out, b"Zm9v");
    let mut out: Vec<u8> = Vec::new();
    g3_egress::codec::push_b64(&mut out, &b"foobar".to_vec());
    assert_eq!(out, b"Zm9vYmFy");
}

#[test]
fn decimal_and_hex_rendering() {
    let mut out: Vec<u8> = Vec::new();
    g3_egress::http_connect::push_dec(&mut out, 0);
    assert_eq!(out, b"0");
    let mut out: Vec<u8> = Vec::new();
    g3_egress::http_connect::push_dec(&mut out, 65535);
    assert_eq!(out, b"65535");
    let mut out: Vec<u8> = Vec::new();
    g3_egress::http_connect::push_hex(&mut out, 0xdead);
    assert_eq!(out, b"dead");
}
