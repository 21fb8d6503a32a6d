use g3_egress::http_connect::{connect_status_accepted, parse_connect_response, ConnectRspParse};

#[test]
fn rejected_status_parses() {
    let buf = b"HTTP/1.1 407 Proxy Authentication Required\r\n\r\n".to_vec();
    match parse_connect_response(&buf, 4096) {
        ConnectRspParse::Done { status, head_len } => {
            assert_eq!(status, 407);
            assert_eq!(head_len, buf.len());
        }
        other => panic!("unexpected parse: {other:?}"),
    }
}

#[test]
fn residual_bytes_follow_head() {
    let buf = b"HTTP/1.1 200 OK\r\n\r\nHELLO".to_vec();
    match parse_connect_response(&buf, 4096) {
        ConnectRspParse::Done { status, head_len } => {
            assert_eq!(status, 200);
            assert_eq!(&buf[head_len..], b"HELLO");
            assert_eq!(buf.len() - head_len, 5);
        }
        other => panic!("unexpected parse: {other:?}"),
    }
}

#[test]
fn incomplete_head_needs_more() {
    let buf = b"HTTP/1.1 200 OK\r\n".to_vec();
    assert!(matches!(parse_connect_response(&buf, 4096), ConnectRspParse::NeedMore));
}

#[test]
fn oversized_head_is_refused() {
    let buf = b"HTTP/1.1 200 OK\r\nX: 123456789\r\n\r\n".to_vec();
    assert!(matches!(parse_connect_response(&buf, 16), ConnectRspParse::TooLarge));
    // No blank line yet and already past the cap.
    let partial = b"HTTP/1.1 200 OK\r\nX: 1234".to_vec();
    assert!(matches!(parse_connect_response(&partial, 16), ConnectRspParse::TooLarge));
}

#[test]
fn malformed_status_line() {
    let buf = b"FTP/9.9 ok\r\n\r\n".to_vec();
    assert!(matches!(parse_connect_response(&buf, 4096), ConnectRspParse::Malformed));
    let buf = b"HTTP/1.1 20\r\n\r\n".to_vec();
    assert!(matches!(parse_connect_response(&buf, 4096), ConnectRspParse::Malformed));
}

#[test]
fn status_without_reason_is_fine() {
    let buf = b"HTTP/1.1 200\r\n\r\n".to_vec();
    match parse_connect_response(&buf, 4096) {
        ConnectRspParse::Done { status, .. } => assert_eq!(status, 200),
        other => panic!("unexpected parse: {other:?}"),
    }
}

#[test]
fn ok_status_override() {
    assert!(connect_status_accepted(204, None));
    assert!(!connect_status_accepted(301, None));
    assert!(connect_status_accepted(301, Some(301)));
    assert!(!connect_status_accepted(200, Some(301)));
}
