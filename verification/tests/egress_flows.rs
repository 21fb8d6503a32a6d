use g3_egress::egress::{
    new_http_connect_tcp, new_http_connect_tls, new_plain_tcp, new_plain_tls, EgressAction,
    EgressEvent, EscaperConfig, Flow, Phase, TlsClientConfig,
};
use g3_egress::net::{Host, IpAddr, SocketAddr, UpstreamAddr};
use g3_egress::selection::{ResolvedPeerSet, WeightedEndpoint};
use g3_egress::tcp_connect::{ServerTaskNotes, TcpConnectError, TcpConnectTaskNotes, TlsApplication};
use g3_egress::types::DurationMillis;

fn config() -> EscaperConfig {
    EscaperConfig {
        connect_timeout: DurationMillis::from_secs(15),
        peer_negotiation_timeout: DurationMillis::from_secs(10),
        http_connect_rsp_hdr_max_size: 4096,
        append_http_headers: Vec::new(),
        pass_proxy_userid: false,
    }
}

fn tls_config() -> TlsClientConfig {
    TlsClientConfig { handshake_timeout: DurationMillis { millis: 100 } }
}

fn notes(host: &str, port: u16) -> TcpConnectTaskNotes {
    TcpConnectTaskNotes::new(UpstreamAddr::new(Host::Domain(host.to_string()), port), None)
}

fn task_notes() -> ServerTaskNotes {
    ServerTaskNotes {
        id: 7,
        raw_user_name: None,
        client_addr: SocketAddr { ip: IpAddr::V4(0x7f000001), port: 40000 },
        accepted_at_millis: 0,
    }
}

fn one_peer() -> ResolvedPeerSet {
    ResolvedPeerSet {
        peers: vec![WeightedEndpoint {
            addr: SocketAddr { ip: IpAddr::V4(0x0a000001), port: 80 },
            weight: 1,
        }],
    }
}

#[test]
fn plain_tcp_success() {
    let (mut task, act) = new_plain_tcp(config(), notes("example.com", 80), &task_notes(), &one_peer(), 0);
    assert_eq!(task.flow, Flow::PlainTcp);
    assert_eq!(task.phase, Phase::Dial);
    assert_eq!(task.tcp_notes.connect_tries, 1);
    match act {
        EgressAction::Dial { peer, timeout, .. } => {
            assert_eq!(peer, SocketAddr { ip: IpAddr::V4(0x0a000001), port: 80 });
            assert_eq!(timeout.millis, 15000);
        }
        other => panic!("unexpected action: {other:?}"),
    }
    let local = SocketAddr { ip: IpAddr::V4(0x0a000002), port: 45000 };
    let act = task.step(EgressEvent::DialOk { local });
    assert_eq!(task.tcp_notes.local_addr, Some(local));
    assert_eq!(task.phase, Phase::Done);
    assert_eq!(task.outcome, Some(Ok(())));
    assert!(matches!(act, EgressAction::DeliverWithResidual { residual: 0 }));
    assert_eq!(task.open_sockets, 0);
}

#[test]
fn no_peer_available() {
    let empty = ResolvedPeerSet { peers: Vec::new() };
    let (task, act) = new_plain_tcp(config(), notes("example.com", 80), &task_notes(), &empty, 3);
    assert_eq!(task.outcome, Some(Err(TcpConnectError::NoPeerAvailable)));
    assert!(matches!(
        act,
        EgressAction::Fail { error: TcpConnectError::NoPeerAvailable, .. }
    ));
}

#[test]
fn connect_proxy_rejection_closes_socket() {
    let (mut task, _act) = new_http_connect_tcp(
        config(),
        false,
        tls_config(),
        Host::Domain("proxy".to_string()),
        notes("secret", 443),
        &task_notes(),
        &one_peer(),
        0,
    );
    let local = SocketAddr { ip: IpAddr::V4(0x0a000002), port: 45001 };
    let act = task.step(EgressEvent::DialOk { local });
    match act {
        EgressAction::SendConnect { bytes, timeout } => {
            let text = String::from_utf8(bytes).unwrap();
            assert!(text.starts_with("CONNECT secret:443 HTTP/1.1\r\n"));
            assert_eq!(timeout.millis, 10000);
        }
        other => panic!("unexpected action: {other:?}"),
    }
    assert_eq!(task.open_sockets, 1);
    let act = task.step(EgressEvent::SendOk);
    assert!(matches!(act, EgressAction::RecvConnectRsp { .. }));
    let rsp = b"HTTP/1.1 407 Proxy Authentication Required\r\n\r\n".to_vec();
    let act = task.step(EgressEvent::RecvChunk(rsp));
    match act {
        EgressAction::Fail { error, log } => {
            assert_eq!(error, TcpConnectError::NegotiationRejected(407));
            assert!(log.is_none());
        }
        other => panic!("unexpected action: {other:?}"),
    }
    // No socket leak on the error path.
    assert_eq!(task.open_sockets, 0);
    assert_eq!(task.phase, Phase::Done);
}

#[test]
fn connect_proxy_residual_delivered() {
    let (mut task, _act) = new_http_connect_tcp(
        config(),
        false,
        tls_config(),
        Host::Domain("proxy".to_string()),
        notes("origin", 80),
        &task_notes(),
        &one_peer(),
        0,
    );
    let local = SocketAddr { ip: IpAddr::V4(0x0a000002), port: 45002 };
    task.step(EgressEvent::DialOk { local });
    task.step(EgressEvent::SendOk);
    let act = task.step(EgressEvent::RecvChunk(b"HTTP/1.1 200 OK\r\n\r\nHELLO".to_vec()));
    match act {
        EgressAction::DeliverWithResidual { residual } => assert_eq!(residual, 5),
        other => panic!("unexpected action: {other:?}"),
    }
    assert_eq!(task.outcome, Some(Ok(())));
}

#[test]
fn origin_tls_timeout_logged() {
    let (mut task, _act) = new_plain_tls(
        config(),
        tls_config(),
        Host::Domain("example.com".to_string()),
        notes("example.com", 443),
        &task_notes(),
        &one_peer(),
        0,
    );
    let local = SocketAddr { ip: IpAddr::V4(0x0a000002), port: 45003 };
    let act = task.step(EgressEvent::DialOk { local });
    match act {
        EgressAction::TlsHandshake { application, timeout, .. } => {
            assert_eq!(application, TlsApplication::TcpStream);
            assert_eq!(timeout.millis, 100);
        }
        other => panic!("unexpected action: {other:?}"),
    }
    let act = task.step(EgressEvent::TlsTimedOut);
    match act {
        EgressAction::Fail { error, log } => {
            assert_eq!(error, TcpConnectError::UpstreamTlsHandshakeTimeout);
            let rec = log.expect("handshake failures are logged");
            assert_eq!(rec.task_id, 7);
            assert_eq!(rec.tls_application, TlsApplication::TcpStream);
            assert_eq!(rec.reason, TcpConnectError::UpstreamTlsHandshakeTimeout);
        }
        other => panic!("unexpected action: {other:?}"),
    }
    assert_eq!(task.open_sockets, 0);
}

#[test]
fn https_proxy_two_tls_layers_inner_fails() {
    let (mut task, _act) = new_http_connect_tls(
        config(),
        true,
        tls_config(),
        Host::Domain("proxy".to_string()),
        Host::Domain("origin".to_string()),
        notes("origin", 443),
        &task_notes(),
        &one_peer(),
        0,
    );
    let local = SocketAddr { ip: IpAddr::V4(0x0a000002), port: 45004 };
    let act = task.step(EgressEvent::DialOk { local });
    match act {
        EgressAction::TlsHandshake { application, .. } => {
            assert_eq!(application, TlsApplication::ProxyLeg)
        }
        other => panic!("unexpected action: {other:?}"),
    }
    let act = task.step(EgressEvent::TlsOk);
    assert!(matches!(act, EgressAction::SendConnect { .. }));
    task.step(EgressEvent::SendOk);
    let act = task.step(EgressEvent::RecvChunk(b"HTTP/1.1 200 OK\r\n\r\nXY".to_vec()));
    match act {
        EgressAction::CreditResidualThenTls { residual, application, .. } => {
            // The two residual bytes are credited before the origin
            // handshake begins.
            assert_eq!(residual, 2);
            assert_eq!(application, TlsApplication::OriginLeg);
        }
        other => panic!("unexpected action: {other:?}"),
    }
    assert!(task.residual_credited);
    let act = task.step(EgressEvent::TlsFailed);
    match act {
        EgressAction::Fail { error, log } => {
            assert_eq!(error, TcpConnectError::UpstreamTlsHandshakeFailed);
            assert_eq!(log.unwrap().tls_application, TlsApplication::OriginLeg);
        }
        other => panic!("unexpected action: {other:?}"),
    }
    assert_eq!(task.open_sockets, 0);
}

#[test]
fn cancellation_releases_everything() {
    let (mut task, _act) = new_http_connect_tcp(
        config(),
        false,
        tls_config(),
        Host::Domain("proxy".to_string()),
        notes("origin", 80),
        &task_notes(),
        &one_peer(),
        0,
    );
    let local = SocketAddr { ip: IpAddr::V4(0x0a000002), port: 45005 };
    task.step(EgressEvent::DialOk { local });
    assert_eq!(task.open_sockets, 1);
    let act = task.step(EgressEvent::Cancelled);
    assert!(matches!(act, EgressAction::Abort));
    assert_eq!(task.open_sockets, 0);
    assert!(task.cancelled);
    assert_eq!(task.phase, Phase::Done);
}

#[test]
fn dial_failures_map_to_their_errors() {
    for (ev, expected) in [
        (EgressEvent::DialTimedOut, TcpConnectError::ConnectTimeout),
        (EgressEvent::DialRefused, TcpConnectError::ConnectRefused),
        (EgressEvent::DialUnreachable, TcpConnectError::ConnectUnreachable),
    ] {
        let (mut task, _act) =
            new_plain_tcp(config(), notes("example.com", 80), &task_notes(), &one_peer(), 0);
        let act = task.step(ev);
        match act {
            EgressAction::Fail { error, .. } => assert_eq!(error, expected),
            other => panic!("unexpected action: {other:?}"),
        }
        assert_eq!(task.open_sockets, 0);
    }
}

#[test]
fn negotiation_failures_map_to_their_errors() {
    for (send_first, ev, expected) in [
        (false, EgressEvent::SendFailed, TcpConnectError::NegotiationWriteFailed),
        (true, EgressEvent::RecvFailed, TcpConnectError::NegotiationReadFailed),
        (true, EgressEvent::NegotiationTimedOut, TcpConnectError::NegotiationPeerTimeout),
        (false, EgressEvent::NegotiationTimedOut, TcpConnectError::NegotiationPeerTimeout),
    ] {
        let (mut task, _act) = new_http_connect_tcp(
            config(),
            false,
            tls_config(),
            Host::Domain("proxy".to_string()),
            notes("origin", 80),
            &task_notes(),
            &one_peer(),
            0,
        );
        let local = SocketAddr { ip: IpAddr::V4(0x0a000002), port: 45006 };
        task.step(EgressEvent::DialOk { local });
        if send_first {
            task.step(EgressEvent::SendOk);
        }
        let act = task.step(ev);
        match act {
            EgressAction::Fail { error, .. } => assert_eq!(error, expected),
            other => panic!("unexpected action: {other:?}"),
        }
        assert_eq!(task.open_sockets, 0);
    }
}

#[test]
fn proxy_auth_header_included_when_configured() {
    let mut cfg = config();
    cfg.pass_proxy_userid = true;
    let mut tn = task_notes();
    tn.raw_user_name = Some("alice".to_string());
    let (mut task, _act) = new_http_connect_tcp(
        cfg,
        false,
        tls_config(),
        Host::Domain("proxy".to_string()),
        notes("origin", 80),
        &tn,
        &one_peer(),
        0,
    );
    let local = SocketAddr { ip: IpAddr::V4(0x0a000002), port: 45007 };
    let act = task.step(EgressEvent::DialOk { local });
    match act {
        EgressAction::SendConnect { bytes, .. } => {
            let text = String::from_utf8(bytes).unwrap();
            // base64 of "alice:" is YWxpY2U6
            assert!(text.contains("Proxy-Authorization: Basic YWxpY2U6\r\n"));
        }
        other => panic!("unexpected action: {other:?}"),
    }
}

#[test]
fn tls_setup_failure_is_internal_error() {
    let (mut task, _act) = new_plain_tls(
        config(),
        tls_config(),
        Host::Domain("example.com".to_string()),
        notes("example.com", 443),
        &task_notes(),
        &one_peer(),
        0,
    );
    let local = SocketAddr { ip: IpAddr::V4(0x0a000002), port: 45009 };
    task.step(EgressEvent::DialOk { local });
    let act = task.step(EgressEvent::TlsSetupFailed);
    match act {
        EgressAction::Fail { error, log } => {
            assert_eq!(error, TcpConnectError::InternalTlsClientError);
            // A pre-handshake build failure is not a handshake-log record.
            assert!(log.is_none());
        }
        other => panic!("unexpected action: {other:?}"),
    }
    assert_eq!(task.open_sockets, 0);
}

#[test]
fn proxy_auth_header_carries_utf8_names() {
    let mut cfg = config();
    cfg.pass_proxy_userid = true;
    let mut tn = task_notes();
    tn.raw_user_name = Some("\u{fc}".to_string());
    let (mut task, _act) = new_http_connect_tcp(
        cfg,
        false,
        tls_config(),
        Host::Domain("proxy".to_string()),
        notes("origin", 80),
        &tn,
        &one_peer(),
        0,
    );
    let local = SocketAddr { ip: IpAddr::V4(0x0a000002), port: 45010 };
    let act = task.step(EgressEvent::DialOk { local });
    match act {
        EgressAction::SendConnect { bytes, .. } => {
            let text = String::from_utf8(bytes).unwrap();
            // base64 of the UTF-8 bytes of the name and a colon.
            assert!(text.contains("Proxy-Authorization: Basic w7w6\r\n"));
        }
        other => panic!("unexpected action: {other:?}"),
    }
}

#[test]
fn malformed_response_is_protocol_error() {
    let (mut task, _act) = new_http_connect_tcp(
        config(),
        false,
        tls_config(),
        Host::Domain("proxy".to_string()),
        notes("origin", 80),
        &task_notes(),
        &one_peer(),
        0,
    );
    let local = SocketAddr { ip: IpAddr::V4(0x0a000002), port: 45008 };
    task.step(EgressEvent::DialOk { local });
    task.step(EgressEvent::SendOk);
    let act = task.step(EgressEvent::RecvChunk(b"SMTP ready\r\n\r\n".to_vec()));
    match act {
        EgressAction::Fail { error, .. } => {
            assert_eq!(error, TcpConnectError::NegotiationProtocolError)
        }
        other => panic!("unexpected action: {other:?}"),
    }
}
