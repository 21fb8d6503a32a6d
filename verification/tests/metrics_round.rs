use g3_egress::accounting::TcpIoSnapshot;
use g3_egress::server_metrics::{
    emit_server_stats, emit_stats, stats_map_new, sync_stats, MetricKind, ServerForbiddenSnapshot,
    ServerSnapshot, ServerStatsReading, METRIC_NAME_SERVER_CONN_TOTAL,
    METRIC_NAME_SERVER_IO_IN_BYTES, METRIC_NAME_SERVER_TASK_ALIVE, METRIC_NAME_SERVER_TASK_TOTAL,
};

fn reading(id: u64) -> ServerStatsReading {
    ServerStatsReading {
        stat_id: id,
        online: true,
        conn_total: 0,
        task_total: 0,
        alive_count: 0,
        forbidden: ServerForbiddenSnapshot::default(),
        tcp: None,
        udp: None,
        untrusted: None,
        last_reference: false,
    }
}

#[test]
fn wrapping_diff_on_counters() {
    let mut snap = ServerSnapshot::default();
    snap.conn_total = u64::MAX;
    let mut r = reading(1);
    r.conn_total = 2;
    let emits = emit_server_stats(&r, &mut snap);
    // The counter wrapped: the delta since the snapshot is 3.
    assert_eq!(emits[0].name, METRIC_NAME_SERVER_CONN_TOTAL);
    assert_eq!(emits[0].value, 3);
    assert_eq!(snap.conn_total, 2);
}

#[test]
fn base_emissions_and_snapshot_advance() {
    let mut snap = ServerSnapshot::default();
    let mut r = reading(9);
    r.conn_total = 10;
    r.task_total = 4;
    r.alive_count = 2;
    r.tcp = Some(TcpIoSnapshot { in_bytes: 100, out_bytes: 50 });
    let emits = emit_server_stats(&r, &mut snap);
    assert_eq!(emits.len(), 5);
    assert_eq!(emits[0].value, 10);
    assert_eq!(emits[1].name, METRIC_NAME_SERVER_TASK_TOTAL);
    assert_eq!(emits[1].value, 4);
    assert_eq!(emits[2].name, METRIC_NAME_SERVER_TASK_ALIVE);
    assert!(matches!(emits[2].kind, MetricKind::Gauge));
    assert_eq!(emits[3].name, METRIC_NAME_SERVER_IO_IN_BYTES);
    assert_eq!(emits[3].value, 100);
    assert_eq!(emits[4].value, 50);

    // A second round with unchanged counters emits zero deltas.
    let emits2 = emit_server_stats(&r, &mut snap);
    assert_eq!(emits2[0].value, 0);
    assert_eq!(emits2[3].value, 0);
}

#[test]
fn untouched_tcp_section_is_suppressed() {
    let mut snap = ServerSnapshot::default();
    let mut r = reading(3);
    r.tcp = Some(TcpIoSnapshot { in_bytes: 0, out_bytes: 0 });
    let emits = emit_server_stats(&r, &mut snap);
    // Only the three base emissions; the idle TCP section stays silent.
    assert_eq!(emits.len(), 3);
}

#[test]
fn registry_sync_and_rounds() {
    let mut map = stats_map_new();
    let servers = vec![reading(1), reading(2)];
    sync_stats(&mut map, &servers);

    let mut first = reading(1);
    first.conn_total = 5;
    let mut second = reading(2);
    second.conn_total = 7;
    second.last_reference = true;

    let emits = emit_stats(&mut map, &vec![first, second]);
    // Both servers emitted their three base metrics.
    assert_eq!(emits.len(), 6);
    assert_eq!(emits[0].stat_id, 1);
    assert_eq!(emits[0].value, 5);
    assert_eq!(emits[3].stat_id, 2);
    assert_eq!(emits[3].value, 7);

    // The second server was on its last reference and left the registry:
    // a later round emits nothing for it.
    let emits2 = emit_stats(&mut map, &vec![second]);
    assert!(emits2.is_empty());

    // The first server kept its snapshot: its next delta is measured from
    // the previous round.
    let mut first_again = reading(1);
    first_again.conn_total = 9;
    let emits3 = emit_stats(&mut map, &vec![first_again]);
    assert_eq!(emits3[0].value, 4);
}

#[test]
fn forbidden_counters_emit_only_once_touched() {
    let mut snap = ServerSnapshot::default();
    let mut r = reading(4);
    r.forbidden.auth_failed = 2;
    let emits = emit_server_stats(&r, &mut snap);
    // Three base emissions plus the touched forbidden counter.
    assert_eq!(emits.len(), 4);
    assert_eq!(emits[3].value, 2);
    // Once touched, the counter keeps reporting even at delta zero.
    let emits2 = emit_server_stats(&r, &mut snap);
    assert_eq!(emits2.len(), 4);
    assert_eq!(emits2[3].value, 0);
}
