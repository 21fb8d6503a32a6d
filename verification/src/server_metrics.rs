//! Server metric emission: snapshots of every server's counters are kept in
//! a registry keyed by stat id; each emission round sends the wrapping
//! difference since the last round and advances the snapshot.
//!
//! The registry map comes from the ahash crate and is used through trusted
//! wrappers; everything computed over it is verified against the map's
//! named contents.

use vstd::prelude::*;

use crate::accounting::{TcpIoSnapshot, UdpIoSnapshot};

verus! {

pub const METRIC_NAME_SERVER_CONN_TOTAL: &'static str = "server.connection.total";

pub const METRIC_NAME_SERVER_TASK_TOTAL: &'static str = "server.task.total";

pub const METRIC_NAME_SERVER_TASK_ALIVE: &'static str = "server.task.alive";

pub const METRIC_NAME_SERVER_FORBIDDEN_AUTH_FAILED: &'static str = "server.forbidden.auth_failed";

pub const METRIC_NAME_SERVER_FORBIDDEN_DEST_DENIED: &'static str = "server.forbidden.dest_denied";

pub const METRIC_NAME_SERVER_FORBIDDEN_USER_BLOCKED: &'static str =
    "server.forbidden.user_blocked";

pub const METRIC_NAME_SERVER_IO_IN_BYTES: &'static str = "server.traffic.in.bytes";

pub const METRIC_NAME_SERVER_IO_IN_PACKETS: &'static str = "server.traffic.in.packets";

pub const METRIC_NAME_SERVER_IO_OUT_BYTES: &'static str = "server.traffic.out.bytes";

pub const METRIC_NAME_SERVER_IO_OUT_PACKETS: &'static str = "server.traffic.out.packets";

pub const METRIC_NAME_SERVER_UNTRUSTED_TASK_TOTAL: &'static str = "server.task.untrusted_total";

pub const METRIC_NAME_SERVER_UNTRUSTED_TASK_ALIVE: &'static str = "server.task.untrusted_alive";

pub const METRIC_NAME_SERVER_IO_UNTRUSTED_IN_BYTES: &'static str =
    "server.traffic.untrusted_in.bytes";

pub const TAG_VALUE_TRANSPORT_TCP: &'static str = "tcp";

pub const TAG_VALUE_TRANSPORT_UDP: &'static str = "udp";

/// Counters of requests a server refused.
#[derive(Clone, Copy, PartialEq, Eq, Structural, Debug, Default)]
pub struct ServerForbiddenSnapshot {
    pub auth_failed: u64,
    pub dest_denied: u64,
    pub user_blocked: u64,
}

/// Counters of untrusted (unauthenticated) tasks.
#[derive(Clone, Copy, PartialEq, Eq, Structural, Debug, Default)]
pub struct UntrustedTaskStatsSnapshot {
    pub task_total: u64,
    pub task_alive: u64,
    pub in_bytes: u64,
}

/// The per-server snapshot kept between emission rounds.
#[derive(Clone, Copy, PartialEq, Eq, Structural, Debug, Default)]
pub struct ServerSnapshot {
    pub conn_total: u64,
    pub task_total: u64,
    pub forbidden: ServerForbiddenSnapshot,
    pub tcp: TcpIoSnapshot,
    pub udp: UdpIoSnapshot,
    pub untrusted: UntrustedTaskStatsSnapshot,
}

/// One reading of a live server's counters, taken just before emission.
/// `last_reference` marks a server whose stats block is about to be
/// dropped: its final metrics are still emitted, then its snapshot leaves
/// the registry.
#[derive(Clone, Copy, PartialEq, Eq, Structural, Debug)]
pub struct ServerStatsReading {
    pub stat_id: u64,
    pub online: bool,
    pub conn_total: u64,
    pub task_total: u64,
    pub alive_count: u64,
    pub forbidden: ServerForbiddenSnapshot,
    pub tcp: Option<TcpIoSnapshot>,
    pub udp: Option<UdpIoSnapshot>,
    pub untrusted: Option<UntrustedTaskStatsSnapshot>,
    pub last_reference: bool,
}

#[derive(Clone, Copy, PartialEq, Eq, Structural, Debug)]
pub enum MetricKind {
    Count,
    Gauge,
}

/// One metric datum to hand to the transport: which server it belongs to,
/// the metric name, count-or-gauge, the value, and the transport tag.
#[derive(Clone, Copy, Debug)]
pub struct MetricEmit {
    pub stat_id: u64,
    pub name: &'static str,
    pub kind: MetricKind,
    pub value: u64,
    pub transport: Option<&'static str>,
}

/// The wrapping difference `a - b`, as a fetch-add counter's delta since
/// the last snapshot.
pub open spec fn wrap_sub(a: u64, b: u64) -> u64 {
    if a >= b {
        (a - b) as u64
    } else {
        ((a + 0x1_0000_0000_0000_0000) - b) as u64
    }
}

fn wrapping_diff(a: u64, b: u64) -> (r: u64)
    ensures
        r == wrap_sub(a, b),
{
    a.wrapping_sub(b)
}

// ---------------------------------------------------------------------------
// Per-section emission specs
// ---------------------------------------------------------------------------

/// The forbidden-counter emissions: each counter reports its delta when it
/// or its snapshot is nonzero, and only then advances the snapshot.
pub open spec fn spec_forbidden_emits(
    id: u64,
    stats: ServerForbiddenSnapshot,
    snap: ServerForbiddenSnapshot,
) -> Seq<MetricEmit> {
    (if stats.auth_failed != 0 || snap.auth_failed != 0 {
        seq![
            MetricEmit {
                stat_id: id,
                name: METRIC_NAME_SERVER_FORBIDDEN_AUTH_FAILED,
                kind: MetricKind::Count,
                value: wrap_sub(stats.auth_failed, snap.auth_failed),
                transport: None,
            },
        ]
    } else {
        Seq::empty()
    }) + (if stats.dest_denied != 0 || snap.dest_denied != 0 {
        seq![
            MetricEmit {
                stat_id: id,
                name: METRIC_NAME_SERVER_FORBIDDEN_DEST_DENIED,
                kind: MetricKind::Count,
                value: wrap_sub(stats.dest_denied, snap.dest_denied),
                transport: None,
            },
        ]
    } else {
        Seq::empty()
    }) + (if stats.user_blocked != 0 || snap.user_blocked != 0 {
        seq![
            MetricEmit {
                stat_id: id,
                name: METRIC_NAME_SERVER_FORBIDDEN_USER_BLOCKED,
                kind: MetricKind::Count,
                value: wrap_sub(stats.user_blocked, snap.user_blocked),
                transport: None,
            },
        ]
    } else {
        Seq::empty()
    })
}

pub open spec fn spec_forbidden_updated(
    stats: ServerForbiddenSnapshot,
    snap: ServerForbiddenSnapshot,
) -> ServerForbiddenSnapshot {
    ServerForbiddenSnapshot {
        auth_failed: if stats.auth_failed != 0 || snap.auth_failed != 0 {
            stats.auth_failed
        } else {
            snap.auth_failed
        },
        dest_denied: if stats.dest_denied != 0 || snap.dest_denied != 0 {
            stats.dest_denied
        } else {
            snap.dest_denied
        },
        user_blocked: if stats.user_blocked != 0 || snap.user_blocked != 0 {
            stats.user_blocked
        } else {
            snap.user_blocked
        },
    }
}

/// The TCP traffic emissions: nothing while both byte counters were never
/// touched, otherwise the two byte deltas.
pub open spec fn spec_tcp_emits(id: u64, stats: TcpIoSnapshot, snap: TcpIoSnapshot) -> Seq<
    MetricEmit,
> {
    if stats.in_bytes == 0 && snap.in_bytes == 0 {
        Seq::empty()
    } else {
        seq![
            MetricEmit {
                stat_id: id,
                name: METRIC_NAME_SERVER_IO_IN_BYTES,
                kind: MetricKind::Count,
                value: wrap_sub(stats.in_bytes, snap.in_bytes),
                transport: Some(TAG_VALUE_TRANSPORT_TCP),
            },
            MetricEmit {
                stat_id: id,
                name: METRIC_NAME_SERVER_IO_OUT_BYTES,
                kind: MetricKind::Count,
                value: wrap_sub(stats.out_bytes, snap.out_bytes),
                transport: Some(TAG_VALUE_TRANSPORT_TCP),
            },
        ]
    }
}

pub open spec fn spec_tcp_updated(stats: TcpIoSnapshot, snap: TcpIoSnapshot) -> TcpIoSnapshot {
    if stats.in_bytes == 0 && snap.in_bytes == 0 {
        snap
    } else {
        stats
    }
}

/// The UDP traffic emissions: nothing while both in-packet counters were
/// never touched, otherwise the four packet and byte deltas.
pub open spec fn spec_udp_emits(id: u64, stats: UdpIoSnapshot, snap: UdpIoSnapshot) -> Seq<
    MetricEmit,
> {
    if stats.in_packets == 0 && snap.in_packets == 0 {
        Seq::empty()
    } else {
        seq![
            MetricEmit {
                stat_id: id,
                name: METRIC_NAME_SERVER_IO_IN_PACKETS,
                kind: MetricKind::Count,
                value: wrap_sub(stats.in_packets, snap.in_packets),
                transport: Some(TAG_VALUE_TRANSPORT_UDP),
            },
            MetricEmit {
                stat_id: id,
                name: METRIC_NAME_SERVER_IO_IN_BYTES,
                kind: MetricKind::Count,
                value: wrap_sub(stats.in_bytes, snap.in_bytes),
                transport: Some(TAG_VALUE_TRANSPORT_UDP),
            },
            MetricEmit {
                stat_id: id,
                name: METRIC_NAME_SERVER_IO_OUT_PACKETS,
                kind: MetricKind::Count,
                value: wrap_sub(stats.out_packets, snap.out_packets),
                transport: Some(TAG_VALUE_TRANSPORT_UDP),
            },
            MetricEmit {
                stat_id: id,
                name: METRIC_NAME_SERVER_IO_OUT_BYTES,
                kind: MetricKind::Count,
                value: wrap_sub(stats.out_bytes, snap.out_bytes),
                transport: Some(TAG_VALUE_TRANSPORT_UDP),
            },
        ]
    }
}

pub open spec fn spec_udp_updated(stats: UdpIoSnapshot, snap: UdpIoSnapshot) -> UdpIoSnapshot {
    if stats.in_packets == 0 && snap.in_packets == 0 {
        snap
    } else {
        stats
    }
}

/// The untrusted-task emissions: nothing while both task counters were
/// never touched, otherwise the task delta, the alive gauge, and the
/// in-byte delta.
pub open spec fn spec_untrusted_emits(
    id: u64,
    stats: UntrustedTaskStatsSnapshot,
    snap: UntrustedTaskStatsSnapshot,
) -> Seq<MetricEmit> {
    if stats.task_total == 0 && snap.task_total == 0 {
        Seq::empty()
    } else {
        seq![
            MetricEmit {
                stat_id: id,
                name: METRIC_NAME_SERVER_UNTRUSTED_TASK_TOTAL,
                kind: MetricKind::Count,
                value: wrap_sub(stats.task_total, snap.task_total),
                transport: None,
            },
            MetricEmit {
                stat_id: id,
                name: METRIC_NAME_SERVER_UNTRUSTED_TASK_ALIVE,
                kind: MetricKind::Gauge,
                value: stats.task_alive,
                transport: None,
            },
            MetricEmit {
                stat_id: id,
                name: METRIC_NAME_SERVER_IO_UNTRUSTED_IN_BYTES,
                kind: MetricKind::Count,
                value: wrap_sub(stats.in_bytes, snap.in_bytes),
                transport: Some(TAG_VALUE_TRANSPORT_TCP),
            },
        ]
    }
}

pub open spec fn spec_untrusted_updated(
    stats: UntrustedTaskStatsSnapshot,
    snap: UntrustedTaskStatsSnapshot,
) -> UntrustedTaskStatsSnapshot {
    if stats.task_total == 0 && snap.task_total == 0 {
        snap
    } else {
        UntrustedTaskStatsSnapshot {
            task_total: stats.task_total,
            task_alive: snap.task_alive,
            in_bytes: stats.in_bytes,
        }
    }
}

/// Everything one server emits in one round.
pub open spec fn spec_server_emits(r: ServerStatsReading, snap: ServerSnapshot) -> Seq<MetricEmit> {
    seq![
        MetricEmit {
            stat_id: r.stat_id,
            name: METRIC_NAME_SERVER_CONN_TOTAL,
            kind: MetricKind::Count,
            value: wrap_sub(r.conn_total, snap.conn_total),
            transport: None,
        },
        MetricEmit {
            stat_id: r.stat_id,
            name: METRIC_NAME_SERVER_TASK_TOTAL,
            kind: MetricKind::Count,
            value: wrap_sub(r.task_total, snap.task_total),
            transport: None,
        },
        MetricEmit {
            stat_id: r.stat_id,
            name: METRIC_NAME_SERVER_TASK_ALIVE,
            kind: MetricKind::Gauge,
            value: r.alive_count,
            transport: None,
        },
    ] + spec_forbidden_emits(r.stat_id, r.forbidden, snap.forbidden) + (match r.tcp {
        Option::Some(t) => spec_tcp_emits(r.stat_id, t, snap.tcp),
        Option::None => Seq::empty(),
    }) + (match r.udp {
        Option::Some(u) => spec_udp_emits(r.stat_id, u, snap.udp),
        Option::None => Seq::empty(),
    }) + (match r.untrusted {
        Option::Some(u) => spec_untrusted_emits(r.stat_id, u, snap.untrusted),
        Option::None => Seq::empty(),
    })
}

/// The server's snapshot after one round.
pub open spec fn spec_updated_snap(r: ServerStatsReading, snap: ServerSnapshot) -> ServerSnapshot {
    ServerSnapshot {
        conn_total: r.conn_total,
        task_total: r.task_total,
        forbidden: spec_forbidden_updated(r.forbidden, snap.forbidden),
        tcp: match r.tcp {
            Option::Some(t) => spec_tcp_updated(t, snap.tcp),
            Option::None => snap.tcp,
        },
        udp: match r.udp {
            Option::Some(u) => spec_udp_updated(u, snap.udp),
            Option::None => snap.udp,
        },
        untrusted: match r.untrusted {
            Option::Some(u) => spec_untrusted_updated(u, snap.untrusted),
            Option::None => snap.untrusted,
        },
    }
}

// ---------------------------------------------------------------------------
// Per-section emission code
// ---------------------------------------------------------------------------

fn append_emits(dst: &mut Vec<MetricEmit>, src: Vec<MetricEmit>)
    ensures
        final(dst)@ == old(dst)@ + src@,
{
    let mut i: usize = 0;
    while i < src.len()
        invariant
            i <= src@.len(),
            dst@ == old(dst)@ + src@.subrange(0, i as int),
        decreases src@.len() - i,
    {
        dst.push(src[i]);
        proof {
            assert(dst@ =~= old(dst)@ + src@.subrange(0, i + 1));
        }
        i = i + 1;
    }
    proof {
        assert(src@.subrange(0, src@.len() as int) =~= src@);
    }
}

pub fn emit_forbidden_stats(
    id: u64,
    stats: ServerForbiddenSnapshot,
    snap: &mut ServerForbiddenSnapshot,
) -> (r: Vec<MetricEmit>)
    ensures
        r@ == spec_forbidden_emits(id, stats, *old(snap)),
        *final(snap) == spec_forbidden_updated(stats, *old(snap)),
{
    let mut out: Vec<MetricEmit> = Vec::new();
    if stats.auth_failed != 0 || snap.auth_failed != 0 {
        out.push(
            MetricEmit {
                stat_id: id,
                name: METRIC_NAME_SERVER_FORBIDDEN_AUTH_FAILED,
                kind: MetricKind::Count,
                value: wrapping_diff(stats.auth_failed, snap.auth_failed),
                transport: None,
            },
        );
        snap.auth_failed = stats.auth_failed;
    }
    if stats.dest_denied != 0 || snap.dest_denied != 0 {
        out.push(
            MetricEmit {
                stat_id: id,
                name: METRIC_NAME_SERVER_FORBIDDEN_DEST_DENIED,
                kind: MetricKind::Count,
                value: wrapping_diff(stats.dest_denied, snap.dest_denied),
                transport: None,
            },
        );
        snap.dest_denied = stats.dest_denied;
    }
    if stats.user_blocked != 0 || snap.user_blocked != 0 {
        out.push(
            MetricEmit {
                stat_id: id,
                name: METRIC_NAME_SERVER_FORBIDDEN_USER_BLOCKED,
                kind: MetricKind::Count,
                value: wrapping_diff(stats.user_blocked, snap.user_blocked),
                transport: None,
            },
        );
        snap.user_blocked = stats.user_blocked;
    }
    proof {
        assert(out@ =~= spec_forbidden_emits(id, stats, *old(snap)));
    }
    out
}

pub fn emit_tcp_io_to_statsd(id: u64, stats: TcpIoSnapshot, snap: &mut TcpIoSnapshot) -> (r: Vec<
    MetricEmit,
>)
    ensures
        r@ == spec_tcp_emits(id, stats, *old(snap)),
        *final(snap) == spec_tcp_updated(stats, *old(snap)),
{
    let mut out: Vec<MetricEmit> = Vec::new();
    if stats.in_bytes == 0 && snap.in_bytes == 0 {
        proof {
            assert(out@ =~= spec_tcp_emits(id, stats, *old(snap)));
        }
        return out;
    }
    out.push(
        MetricEmit {
            stat_id: id,
            name: METRIC_NAME_SERVER_IO_IN_BYTES,
            kind: MetricKind::Count,
            value: wrapping_diff(stats.in_bytes, snap.in_bytes),
            transport: Some(TAG_VALUE_TRANSPORT_TCP),
        },
    );
    snap.in_bytes = stats.in_bytes;
    out.push(
        MetricEmit {
            stat_id: id,
            name: METRIC_NAME_SERVER_IO_OUT_BYTES,
            kind: MetricKind::Count,
            value: wrapping_diff(stats.out_bytes, snap.out_bytes),
            transport: Some(TAG_VALUE_TRANSPORT_TCP),
        },
    );
    snap.out_bytes = stats.out_bytes;
    proof {
        assert(out@ =~= spec_tcp_emits(id, stats, *old(snap)));
    }
    out
}

pub fn emit_udp_io_to_statsd(id: u64, stats: UdpIoSnapshot, snap: &mut UdpIoSnapshot) -> (r: Vec<
    MetricEmit,
>)
    ensures
        r@ == spec_udp_emits(id, stats, *old(snap)),
        *final(snap) == spec_udp_updated(stats, *old(snap)),
{
    let mut out: Vec<MetricEmit> = Vec::new();
    if stats.in_packets == 0 && snap.in_packets == 0 {
        proof {
            assert(out@ =~= spec_udp_emits(id, stats, *old(snap)));
        }
        return out;
    }
    out.push(
        MetricEmit {
            stat_id: id,
            name: METRIC_NAME_SERVER_IO_IN_PACKETS,
            kind: MetricKind::Count,
            value: wrapping_diff(stats.in_packets, snap.in_packets),
            transport: Some(TAG_VALUE_TRANSPORT_UDP),
        },
    );
    snap.in_packets = stats.in_packets;
    out.push(
        MetricEmit {
            stat_id: id,
            name: METRIC_NAME_SERVER_IO_IN_BYTES,
            kind: MetricKind::Count,
            value: wrapping_diff(stats.in_bytes, snap.in_bytes),
            transport: Some(TAG_VALUE_TRANSPORT_UDP),
        },
    );
    snap.in_bytes = stats.in_bytes;
    out.push(
        MetricEmit {
            stat_id: id,
            name: METRIC_NAME_SERVER_IO_OUT_PACKETS,
            kind: MetricKind::Count,
            value: wrapping_diff(stats.out_packets, snap.out_packets),
            transport: Some(TAG_VALUE_TRANSPORT_UDP),
        },
    );
    snap.out_packets = stats.out_packets;
    out.push(
        MetricEmit {
            stat_id: id,
            name: METRIC_NAME_SERVER_IO_OUT_BYTES,
            kind: MetricKind::Count,
            value: wrapping_diff(stats.out_bytes, snap.out_bytes),
            transport: Some(TAG_VALUE_TRANSPORT_UDP),
        },
    );
    snap.out_bytes = stats.out_bytes;
    proof {
        assert(out@ =~= spec_udp_emits(id, stats, *old(snap)));
    }
    out
}

pub fn emit_untrusted_stats(
    id: u64,
    stats: UntrustedTaskStatsSnapshot,
    snap: &mut UntrustedTaskStatsSnapshot,
) -> (r: Vec<MetricEmit>)
    ensures
        r@ == spec_untrusted_emits(id, stats, *old(snap)),
        *final(snap) == spec_untrusted_updated(stats, *old(snap)),
{
    let mut out: Vec<MetricEmit> = Vec::new();
    if stats.task_total == 0 && snap.task_total == 0 {
        proof {
            assert(out@ =~= spec_untrusted_emits(id, stats, *old(snap)));
        }
        return out;
    }
    out.push(
        MetricEmit {
            stat_id: id,
            name: METRIC_NAME_SERVER_UNTRUSTED_TASK_TOTAL,
            kind: MetricKind::Count,
            value: wrapping_diff(stats.task_total, snap.task_total),
            transport: None,
        },
    );
    snap.task_total = stats.task_total;
    out.push(
        MetricEmit {
            stat_id: id,
            name: METRIC_NAME_SERVER_UNTRUSTED_TASK_ALIVE,
            kind: MetricKind::Gauge,
            value: stats.task_alive,
            transport: None,
        },
    );
    out.push(
        MetricEmit {
            stat_id: id,
            name: METRIC_NAME_SERVER_IO_UNTRUSTED_IN_BYTES,
            kind: MetricKind::Count,
            value: wrapping_diff(stats.in_bytes, snap.in_bytes),
            transport: Some(TAG_VALUE_TRANSPORT_TCP),
        },
    );
    snap.in_bytes = stats.in_bytes;
    proof {
        assert(out@ =~= spec_untrusted_emits(id, stats, *old(snap)));
    }
    out
}

/// Emits everything one server reports in this round and advances its
/// snapshot.
pub fn emit_server_stats(r: &ServerStatsReading, snap: &mut ServerSnapshot) -> (out: Vec<
    MetricEmit,
>)
    ensures
        out@ == spec_server_emits(*r, *old(snap)),
        *final(snap) == spec_updated_snap(*r, *old(snap)),
{
    let mut out: Vec<MetricEmit> = Vec::new();
    out.push(
        MetricEmit {
            stat_id: r.stat_id,
            name: METRIC_NAME_SERVER_CONN_TOTAL,
            kind: MetricKind::Count,
            value: wrapping_diff(r.conn_total, snap.conn_total),
            transport: None,
        },
    );
    snap.conn_total = r.conn_total;
    out.push(
        MetricEmit {
            stat_id: r.stat_id,
            name: METRIC_NAME_SERVER_TASK_TOTAL,
            kind: MetricKind::Count,
            value: wrapping_diff(r.task_total, snap.task_total),
            transport: None,
        },
    );
    snap.task_total = r.task_total;
    out.push(
        MetricEmit {
            stat_id: r.stat_id,
            name: METRIC_NAME_SERVER_TASK_ALIVE,
            kind: MetricKind::Gauge,
            value: r.alive_count,
            transport: None,
        },
    );
    let forbidden = emit_forbidden_stats(r.stat_id, r.forbidden, &mut snap.forbidden);
    append_emits(&mut out, forbidden);
    match r.tcp {
        Some(t) => {
            let v = emit_tcp_io_to_statsd(r.stat_id, t, &mut snap.tcp);
            append_emits(&mut out, v);
        },
        None => {},
    }
    match r.udp {
        Some(u) => {
            let v = emit_udp_io_to_statsd(r.stat_id, u, &mut snap.udp);
            append_emits(&mut out, v);
        },
        None => {},
    }
    match r.untrusted {
        Some(u) => {
            let v = emit_untrusted_stats(r.stat_id, u, &mut snap.untrusted);
            append_emits(&mut out, v);
        },
        None => {},
    }
    proof {
        assert(out@ =~= spec_server_emits(*r, *old(snap)));
    }
    out
}

// ---------------------------------------------------------------------------
// The snapshot registry
// ---------------------------------------------------------------------------

#[verifier::external_type_specification]
#[verifier::external_body]
#[verifier::reject_recursive_types(K)]
#[verifier::reject_recursive_types(V)]
#[verifier::reject_recursive_types(S)]
pub struct ExAHashMap<K, V, S>(ahash::AHashMap<K, V, S>);

#[verifier::external_type_specification]
#[verifier::external_body]
pub struct ExAHashRandomState(ahash::RandomState);

/// What the registry holds: each registered stat id's snapshot.
pub uninterp spec fn stats_map_view(m: ahash::AHashMap<u64, ServerSnapshot>) -> Map<
    u64,
    ServerSnapshot,
>;

/// Relies on ahash::AHashMap::new: a fresh map is empty.
#[verifier::external_body]
pub fn stats_map_new() -> (r: ahash::AHashMap<u64, ServerSnapshot>)
    ensures
        stats_map_view(r) =~= Map::empty(),
{
    ahash::AHashMap::new()
}

/// Relies on ahash::AHashMap::insert (std's HashMap::insert underneath):
/// maps the key to the value, returning what the key mapped to before.
#[verifier::external_body]
fn stats_map_insert(m: &mut ahash::AHashMap<u64, ServerSnapshot>, k: u64, v: ServerSnapshot) -> (r:
    Option<ServerSnapshot>)
    ensures
        stats_map_view(*final(m)) == stats_map_view(*old(m)).insert(k, v),
        r == if stats_map_view(*old(m)).dom().contains(k) {
            Some(stats_map_view(*old(m))[k])
        } else {
            None::<ServerSnapshot>
        },
{
    m.insert(k, v)
}

/// Relies on ahash::AHashMap::get (std's HashMap::get underneath): hands
/// back the value the key maps to.
#[verifier::external_body]
fn stats_map_get(m: &ahash::AHashMap<u64, ServerSnapshot>, k: u64) -> (r: Option<ServerSnapshot>)
    ensures
        r == if stats_map_view(*m).dom().contains(k) {
            Some(stats_map_view(*m)[k])
        } else {
            None::<ServerSnapshot>
        },
{
    m.get(&k).copied()
}

/// Relies on ahash::AHashMap::remove (std's HashMap::remove underneath):
/// unmaps the key, returning what it mapped to.
#[verifier::external_body]
fn stats_map_remove(m: &mut ahash::AHashMap<u64, ServerSnapshot>, k: u64) -> (r: Option<
    ServerSnapshot,
>)
    ensures
        stats_map_view(*final(m)) == stats_map_view(*old(m)).remove(k),
        r == if stats_map_view(*old(m)).dom().contains(k) {
            Some(stats_map_view(*old(m))[k])
        } else {
            None::<ServerSnapshot>
        },
{
    m.remove(&k)
}

/// The registry after registering the first `j` readings: an id already
/// present keeps its snapshot, a new one starts zeroed.
pub open spec fn spec_sync_map(
    v: Map<u64, ServerSnapshot>,
    rs: Seq<ServerStatsReading>,
    j: int,
) -> Map<u64, ServerSnapshot>
    decreases j when 0 <= j
{
    if j <= 0 {
        v
    } else {
        let m1 = spec_sync_map(v, rs, j - 1);
        if m1.dom().contains(rs[j - 1].stat_id) {
            m1
        } else {
            m1.insert(rs[j - 1].stat_id, ServerSnapshot::spec_zero())
        }
    }
}

proof fn lemma_sync_map_props(v: Map<u64, ServerSnapshot>, rs: Seq<ServerStatsReading>, j: int)
    requires
        0 <= j <= rs.len(),
    ensures
        forall|k: u64|
            #[trigger] v.dom().contains(k) ==> spec_sync_map(v, rs, j).dom().contains(k)
                && spec_sync_map(v, rs, j)[k] == v[k],
        forall|i: int|
            0 <= i < j ==> spec_sync_map(v, rs, j).dom().contains(#[trigger] rs[i].stat_id),
        forall|k: u64|
            #[trigger] spec_sync_map(v, rs, j).dom().contains(k) ==> v.dom().contains(k) || exists|
                i: int,
            | 0 <= i < j && (#[trigger] rs[i].stat_id) == k,
        forall|k: u64|
            #[trigger] spec_sync_map(v, rs, j).dom().contains(k) && !v.dom().contains(k)
                ==> spec_sync_map(v, rs, j)[k] == ServerSnapshot::spec_zero(),
    decreases j,
{
    if j > 0 {
        lemma_sync_map_props(v, rs, j - 1);
        assert forall|k: u64| v.dom().contains(k) implies spec_sync_map(v, rs, j).dom().contains(
            k,
        ) && spec_sync_map(v, rs, j)[k] == v[k] by {
            assert(spec_sync_map(v, rs, j - 1).dom().contains(k) && spec_sync_map(v, rs, j - 1)[k]
                == v[k]);
        }
        assert forall|i: int| 0 <= i < j implies spec_sync_map(v, rs, j).dom().contains(
            #[trigger] rs[i].stat_id,
        ) by {
            if i < j - 1 {
                assert(spec_sync_map(v, rs, j - 1).dom().contains(rs[i].stat_id));
            }
        }
        assert forall|k: u64| spec_sync_map(v, rs, j).dom().contains(k) implies v.dom().contains(
            k,
        ) || exists|i: int| 0 <= i < j && (#[trigger] rs[i].stat_id) == k by {
            if spec_sync_map(v, rs, j - 1).dom().contains(k) {
                if !v.dom().contains(k) {
                    let i = choose|i: int| 0 <= i < j - 1 && (#[trigger] rs[i].stat_id) == k;
                    assert(0 <= i < j && rs[i].stat_id == k);
                }
            } else {
                assert(rs[j - 1].stat_id == k);
            }
        }
        assert forall|k: u64|
            spec_sync_map(v, rs, j).dom().contains(k) && !v.dom().contains(k) implies spec_sync_map(
            v,
            rs,
            j,
        )[k] == ServerSnapshot::spec_zero() by {
            if spec_sync_map(v, rs, j - 1).dom().contains(k) {
                assert(spec_sync_map(v, rs, j - 1)[k] == ServerSnapshot::spec_zero());
            } else {
                assert(rs[j - 1].stat_id == k);
            }
        }
    }
}

/// Registers every listed server in the registry: a server already present
/// keeps its snapshot, a new one starts from a zeroed snapshot.
pub fn sync_stats(m: &mut ahash::AHashMap<u64, ServerSnapshot>, servers: &Vec<ServerStatsReading>)
    ensures
        forall|k: u64|
            stats_map_view(*old(m)).dom().contains(k) ==> stats_map_view(
                *final(m),
            ).dom().contains(k) && stats_map_view(*final(m))[k] == stats_map_view(*old(m))[k],
        forall|j: int|
            0 <= j < servers@.len() ==> stats_map_view(*final(m)).dom().contains(
                #[trigger] servers@[j].stat_id,
            ),
        forall|k: u64|
            stats_map_view(*final(m)).dom().contains(k) ==> stats_map_view(
                *old(m),
            ).dom().contains(k) || exists|j: int|
                0 <= j < servers@.len() && (#[trigger] servers@[j].stat_id) == k,
        forall|k: u64|
            stats_map_view(*final(m)).dom().contains(k) && !stats_map_view(
                *old(m),
            ).dom().contains(k) ==> stats_map_view(*final(m))[k] == ServerSnapshot::spec_zero(),
{
    let ghost v0 = stats_map_view(*m);
    let mut j: usize = 0;
    while j < servers.len()
        invariant
            j <= servers@.len(),
            v0 == stats_map_view(*old(m)),
            stats_map_view(*m) == spec_sync_map(v0, servers@, j as int),
        decreases servers@.len() - j,
    {
        let id = servers[j].stat_id;
        match stats_map_get(m, id) {
            Some(_) => {},
            None => {
                stats_map_insert(m, id, ServerSnapshot::zero());
            },
        }
        j = j + 1;
    }
    proof {
        lemma_sync_map_props(v0, servers@, servers@.len() as int);
    }
}

impl ServerSnapshot {
    pub open spec fn spec_zero() -> ServerSnapshot {
        ServerSnapshot {
            conn_total: 0,
            task_total: 0,
            forbidden: ServerForbiddenSnapshot { auth_failed: 0, dest_denied: 0, user_blocked: 0 },
            tcp: TcpIoSnapshot { in_bytes: 0, out_bytes: 0 },
            udp: UdpIoSnapshot { in_packets: 0, in_bytes: 0, out_packets: 0, out_bytes: 0 },
            untrusted: UntrustedTaskStatsSnapshot { task_total: 0, task_alive: 0, in_bytes: 0 },
        }
    }

    pub fn zero() -> (r: ServerSnapshot)
        ensures
            r == ServerSnapshot::spec_zero(),
    {
        ServerSnapshot {
            conn_total: 0,
            task_total: 0,
            forbidden: ServerForbiddenSnapshot { auth_failed: 0, dest_denied: 0, user_blocked: 0 },
            tcp: TcpIoSnapshot { in_bytes: 0, out_bytes: 0 },
            udp: UdpIoSnapshot { in_packets: 0, in_bytes: 0, out_packets: 0, out_bytes: 0 },
            untrusted: UntrustedTaskStatsSnapshot { task_total: 0, task_alive: 0, in_bytes: 0 },
        }
    }
}

// ---------------------------------------------------------------------------
// One emission round
// ---------------------------------------------------------------------------

/// What one reading does to the registry: a registered server's snapshot
/// advances, and a last-reference server leaves after its final emission.
pub open spec fn spec_round_step_map(
    v: Map<u64, ServerSnapshot>,
    r: ServerStatsReading,
) -> Map<u64, ServerSnapshot> {
    if v.dom().contains(r.stat_id) {
        if r.last_reference {
            v.remove(r.stat_id)
        } else {
            v.insert(r.stat_id, spec_updated_snap(r, v[r.stat_id]))
        }
    } else {
        v
    }
}

/// What one reading emits against the registry.
pub open spec fn spec_round_step_emits(
    v: Map<u64, ServerSnapshot>,
    r: ServerStatsReading,
) -> Seq<MetricEmit> {
    if v.dom().contains(r.stat_id) {
        spec_server_emits(r, v[r.stat_id])
    } else {
        Seq::empty()
    }
}

/// The registry after a whole round of readings.
pub open spec fn spec_round_map(v: Map<u64, ServerSnapshot>, rs: Seq<ServerStatsReading>) -> Map<
    u64,
    ServerSnapshot,
>
    decreases rs.len(),
{
    if rs.len() == 0 {
        v
    } else {
        spec_round_step_map(spec_round_map(v, rs.drop_last()), rs.last())
    }
}

/// Everything a whole round of readings emits.
pub open spec fn spec_round_emits(v: Map<u64, ServerSnapshot>, rs: Seq<ServerStatsReading>) -> Seq<
    MetricEmit,
>
    decreases rs.len(),
{
    if rs.len() == 0 {
        Seq::empty()
    } else {
        spec_round_emits(v, rs.drop_last()) + spec_round_step_emits(
            spec_round_map(v, rs.drop_last()),
            rs.last(),
        )
    }
}

/// Runs one emission round over the given readings: every registered
/// server's deltas are computed against its snapshot, snapshots advance,
/// and servers on their last reference leave the registry after their
/// final metrics.
pub fn emit_stats(m: &mut ahash::AHashMap<u64, ServerSnapshot>, readings: &Vec<ServerStatsReading>)
    -> (out: Vec<MetricEmit>)
    ensures
        out@ == spec_round_emits(stats_map_view(*old(m)), readings@),
        stats_map_view(*final(m)) == spec_round_map(stats_map_view(*old(m)), readings@),
{
    let ghost v0 = stats_map_view(*m);
    let mut out: Vec<MetricEmit> = Vec::new();
    let mut j: usize = 0;
    while j < readings.len()
        invariant
            j <= readings@.len(),
            v0 == stats_map_view(*old(m)),
            out@ == spec_round_emits(v0, readings@.subrange(0, j as int)),
            stats_map_view(*m) == spec_round_map(v0, readings@.subrange(0, j as int)),
        decreases readings@.len() - j,
    {
        let ghost pre = readings@.subrange(0, j as int);
        let ghost pre1 = readings@.subrange(0, j + 1);
        proof {
            assert(pre1.drop_last() =~= pre);
            assert(pre1.last() == readings@[j as int]);
        }
        let r = readings[j];
        match stats_map_get(m, r.stat_id) {
            Some(snap0) => {
                let mut snap = snap0;
                let emits = emit_server_stats(&r, &mut snap);
                append_emits(&mut out, emits);
                if r.last_reference {
                    stats_map_remove(m, r.stat_id);
                } else {
                    stats_map_insert(m, r.stat_id, snap);
                }
            },
            None => {},
        }
        j = j + 1;
    }
    proof {
        assert(readings@.subrange(0, readings@.len() as int) =~= readings@);
    }
    out
}

} // verus!
