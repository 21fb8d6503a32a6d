use std::sync::Arc;

use g3_egress::config_store::{config_store_load, config_store_new, config_store_swap};
use g3_egress::egress::EscaperConfig;
use g3_egress::tcp_connect::TcpConnectError;
use g3_egress::escape_stats::ProxyHttpsEscaperStats;
use g3_egress::text::{key_matches, str_eq};
use g3_egress::types::{DurationMillis, MetricsName, MetricsTags, StatId};

#[test]
fn escaper_stats_counters() {
    let name = MetricsName::new("proxy1".to_string());
    let mut stats = ProxyHttpsEscaperStats::new(&name, StatId::from_raw(11));
    assert_eq!(stats.stat_id(), StatId::from_raw(11));
    assert_eq!(stats.name().name, "proxy1");
    assert_eq!(stats.get_task_total(), 0);
    assert_eq!(stats.get_conn_attempted(), 0);
    assert_eq!(stats.get_conn_established(), 0);

    stats.add_http_forward_request_attempted();
    stats.add_https_forward_request_attempted();
    stats.add_https_forward_request_attempted();
    assert_eq!(stats.interface.http_forward_request_attempted, 1);
    assert_eq!(stats.interface.https_forward_request_attempted, 2);

    stats.add_read_bytes(100);
    stats.add_write_bytes(40);
    let io = stats.tcp_io_snapshot().unwrap();
    assert_eq!(io.in_bytes, 100);
    assert_eq!(io.out_bytes, 40);
}

#[test]
fn extra_tags_swap_and_load() {
    let name = MetricsName::new("proxy2".to_string());
    let stats = ProxyHttpsEscaperStats::new(&name, StatId::from_raw(12));
    assert!(stats.load_extra_tags().is_none());
    let tags = MetricsTags { tags: vec![("zone".to_string(), "a".to_string())] };
    stats.set_extra_tags(Some(Arc::new(tags)));
    let loaded = stats.load_extra_tags().expect("tags were published");
    assert_eq!(loaded.tags[0].0, "zone");
    stats.set_extra_tags(None);
    assert!(stats.load_extra_tags().is_none());
}

fn config(millis: u64) -> EscaperConfig {
    EscaperConfig {
        connect_timeout: DurationMillis { millis },
        peer_negotiation_timeout: DurationMillis { millis: 10000 },
        http_connect_rsp_hdr_max_size: 4096,
        append_http_headers: Vec::new(),
        pass_proxy_userid: false,
    }
}

#[test]
fn config_swap_isolation() {
    let store = config_store_new(config(1000));
    // A task captures the configuration current at its start.
    let captured = config_store_load(&store);
    assert_eq!(captured.connect_timeout.millis, 1000);

    // A reload publishes a new configuration.
    config_store_swap(&store, config(2000));

    // The running task still holds its captured configuration unchanged,
    // while a task started now observes the new one.
    assert_eq!(captured.connect_timeout.millis, 1000);
    let fresh = config_store_load(&store);
    assert_eq!(fresh.connect_timeout.millis, 2000);
}

#[test]
fn connection_counters() {
    let name = MetricsName::new("proxy3".to_string());
    let mut stats = ProxyHttpsEscaperStats::new(&name, StatId::from_raw(13));
    stats.add_conn_attempted();
    stats.add_conn_attempted();
    stats.add_conn_established();
    assert_eq!(stats.get_conn_attempted(), 2);
    assert_eq!(stats.get_conn_established(), 1);
}

#[test]
fn error_taxonomy_helpers() {
    assert!(TcpConnectError::ConnectTimeout.retriable());
    assert!(TcpConnectError::ConnectRefused.retriable());
    assert!(TcpConnectError::ConnectUnreachable.retriable());
    assert!(!TcpConnectError::NegotiationRejected(407).retriable());
    assert!(!TcpConnectError::UpstreamTlsHandshakeFailed.retriable());
    assert!(TcpConnectError::UpstreamTlsHandshakeFailed.logged_via_handshake_log());
    assert!(TcpConnectError::UpstreamTlsHandshakeTimeout.logged_via_handshake_log());
    assert!(!TcpConnectError::NegotiationPeerTimeout.logged_via_handshake_log());
    assert!(!TcpConnectError::NoPeerAvailable.logged_via_handshake_log());
}

#[test]
fn key_normalization_and_equality() {
    assert!(key_matches("listen-in-worker", "listen_in_worker"));
    assert!(key_matches("listen_in_worker", "listen_in_worker"));
    assert!(!key_matches("listen in worker", "listen_in_worker"));
    assert!(!key_matches("listen", "listen_in_worker"));
    assert!(str_eq("abc", "abc"));
    assert!(!str_eq("abc", "abd"));
    assert!(!str_eq("abc", "ab"));
}
