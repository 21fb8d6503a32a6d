use g3_egress::h3_bench::{
    build_pre_request_header, exit_code, parse_h3_args, ArgError, BenchH3Input, BenchOutcome,
    HttpAuth, HttpMethod, UrlModel,
};
use g3_egress::net::Host;
use g3_egress::types::DurationMillis;

fn url(scheme: &str) -> UrlModel {
    UrlModel {
        scheme: scheme.to_string(),
        host: Host::Domain("example.com".to_string()),
        port: 443,
        path: "/index.html".to_string(),
        query: None,
    }
}

fn input() -> BenchH3Input {
    BenchH3Input {
        url: url("https"),
        connection_pool: None,
        method: None,
        local_address: None,
        no_multiplex: false,
        ok_status: None,
        timeout: None,
        connect_timeout: None,
    }
}

#[test]
fn pool_conflicts_with_no_multiplex() {
    let mut i = input();
    i.connection_pool = Some(8);
    i.no_multiplex = true;
    // The argument parser rejects the conflict before any dial.
    assert_eq!(parse_h3_args(i).unwrap_err(), ArgError::ConflictingOptions);
}

#[test]
fn defaults_applied() {
    let args = parse_h3_args(input()).unwrap();
    assert_eq!(args.method, HttpMethod::Get);
    assert_eq!(args.timeout, DurationMillis { millis: 30000 });
    assert_eq!(args.connect_timeout, DurationMillis { millis: 15000 });
    assert!(args.pool_size.is_none());
    assert!(!args.no_multiplex);
}

#[test]
fn method_parsing() {
    let mut i = input();
    i.method = Some("HEAD".to_string());
    assert_eq!(parse_h3_args(i).unwrap().method, HttpMethod::Head);
    let mut i = input();
    i.method = Some("POST".to_string());
    assert_eq!(parse_h3_args(i).unwrap_err(), ArgError::InvalidMethod);
}

#[test]
fn scheme_must_be_http_or_https() {
    let mut i = input();
    i.url = url("ftp");
    assert_eq!(parse_h3_args(i).unwrap_err(), ArgError::UnsupportedScheme);
    let mut i = input();
    i.url = url("http");
    assert!(parse_h3_args(i).is_ok());
}

#[test]
fn zero_pool_means_no_pool() {
    let mut i = input();
    i.connection_pool = Some(0);
    assert!(parse_h3_args(i).unwrap().pool_size.is_none());
    let mut i = input();
    i.connection_pool = Some(8);
    assert_eq!(parse_h3_args(i).unwrap().pool_size, Some(8));
}

#[test]
fn exit_codes() {
    assert_eq!(exit_code(BenchOutcome::Success), 0);
    assert_eq!(exit_code(BenchOutcome::ArgumentError), 1);
    assert_eq!(exit_code(BenchOutcome::NetworkFailure), 2);
}

#[test]
fn pre_request_header_values() {
    let mut i = input();
    i.url.query = Some("q=1".to_string());
    let args = parse_h3_args(i).unwrap();
    let pre = build_pre_request_header(&args, &HttpAuth::Anonymous);
    assert_eq!(
        String::from_utf8(pre.uri).unwrap(),
        "https://example.com:443/index.html?q=1"
    );
    assert_eq!(String::from_utf8(pre.host).unwrap(), "example.com:443");
    assert!(pre.auth.is_none());

    let args2 = parse_h3_args(input()).unwrap();
    let pre2 = build_pre_request_header(
        &args2,
        &HttpAuth::Basic { userpass: "user:pass".to_string() },
    );
    // base64 of "user:pass" is dXNlcjpwYXNz
    assert_eq!(String::from_utf8(pre2.auth.unwrap()).unwrap(), "Basic dXNlcjpwYXNz");
}
