//! Statistics block of an HTTPS-proxy escaper: interface counters, TCP
//! connection and byte counters, and hot-swappable extra metric tags.
//!
//! The extra tags live behind an atomically swappable pointer so that a
//! configuration reload can replace them while readers keep whatever
//! snapshot they loaded.

use vstd::prelude::*;

use crate::accounting::TcpIoSnapshot;
use crate::types::{MetricsName, MetricsTags, StatId};

verus! {

/// An atomically swappable pointer to a set of metric tags. The slot wraps
/// arc_swap's swappable pointer type, whose strategy parameter Verus cannot
/// name, so the whole holder is opaque and its operations are trusted.
#[verifier::external_body]
pub struct TagsSlot {
    slot: arc_swap::ArcSwapOption<MetricsTags>,
}

/// Relies on arc_swap::ArcSwapAny::new: builds the swappable slot holding
/// the given initial pointer. Nothing is promised of the slot's later
/// contents: it is shared, and any thread may store into it.
#[verifier::external_body]
fn tags_slot_new(init: Option<std::sync::Arc<MetricsTags>>) -> (r: TagsSlot) {
    TagsSlot { slot: arc_swap::ArcSwapOption::new(init) }
}

/// Relies on arc_swap::ArcSwapAny::store: atomically replaces the pointer.
/// The slot is shared, so nothing is promised of what a later load sees.
#[verifier::external_body]
fn tags_slot_store(slot: &TagsSlot, tags: Option<std::sync::Arc<MetricsTags>>) {
    slot.slot.store(tags);
}

/// Relies on arc_swap::ArcSwapAny::load_full: atomically loads the current
/// pointer. The result is whatever was stored last by any thread, so no
/// particular value can be promised.
#[verifier::external_body]
fn tags_slot_load(slot: &TagsSlot) -> (r: Option<std::sync::Arc<MetricsTags>>) {
    slot.slot.load_full()
}

/// Request counters of the escaper's client-facing interface.
#[derive(Clone, Copy, PartialEq, Eq, Structural, Debug, Default)]
pub struct EscaperInterfaceStats {
    pub task_total: u64,
    pub http_forward_request_attempted: u64,
    pub https_forward_request_attempted: u64,
}

/// TCP connection and byte counters of the escaper.
#[derive(Clone, Copy, PartialEq, Eq, Structural, Debug, Default)]
pub struct EscaperTcpStats {
    pub connection_attempted: u64,
    pub connection_established: u64,
    pub io: TcpIoSnapshot,
}

/// The statistics block of one HTTPS-proxy escaper instance.
pub struct ProxyHttpsEscaperStats {
    pub name: MetricsName,
    pub id: StatId,
    pub extra_metrics_tags: std::sync::Arc<TagsSlot>,
    pub interface: EscaperInterfaceStats,
    pub tcp: EscaperTcpStats,
}

pub open spec fn u64_wrap_add(a: u64, n: u64) -> u64 {
    ((a + n) % 0x1_0000_0000_0000_0000) as u64
}

impl ProxyHttpsEscaperStats {
    /// A fresh block with zeroed counters and no extra tags. The stat id is
    /// drawn by the caller, uniquely per live block.
    pub fn new(name: &MetricsName, id: StatId) -> (r: ProxyHttpsEscaperStats)
        ensures
            r.name.name@ == name.name@,
            r.id == id,
            r.interface == EscaperInterfaceStats::spec_zero(),
            r.tcp == EscaperTcpStats::spec_zero(),
    {
        ProxyHttpsEscaperStats {
            name: name.clone(),
            id,
            extra_metrics_tags: std::sync::Arc::new(tags_slot_new(None)),
            interface: EscaperInterfaceStats {
                task_total: 0,
                http_forward_request_attempted: 0,
                https_forward_request_attempted: 0,
            },
            tcp: EscaperTcpStats {
                connection_attempted: 0,
                connection_established: 0,
                io: TcpIoSnapshot { in_bytes: 0, out_bytes: 0 },
            },
        }
    }

    /// Publishes a new set of extra tags for later metric emissions.
    pub fn set_extra_tags(&self, tags: Option<std::sync::Arc<MetricsTags>>) {
        tags_slot_store(&self.extra_metrics_tags, tags);
    }

    /// The tags as last published, from this or any other holder of the
    /// shared slot.
    pub fn load_extra_tags(&self) -> (r: Option<std::sync::Arc<MetricsTags>>) {
        tags_slot_load(&self.extra_metrics_tags)
    }

    pub fn extra_tags(&self) -> (r: &std::sync::Arc<TagsSlot>)
        ensures
            r == &self.extra_metrics_tags,
    {
        &self.extra_metrics_tags
    }

    pub fn add_http_forward_request_attempted(&mut self)
        ensures
            final(self).interface.http_forward_request_attempted == u64_wrap_add(
                old(self).interface.http_forward_request_attempted,
                1,
            ),
            final(self).interface.task_total == old(self).interface.task_total,
            final(self).interface.https_forward_request_attempted == old(
                self,
            ).interface.https_forward_request_attempted,
            final(self).tcp == old(self).tcp,
            final(self).name == old(self).name,
            final(self).id == old(self).id,
    {
        self.interface.http_forward_request_attempted =
            self.interface.http_forward_request_attempted.wrapping_add(1);
    }

    pub fn add_https_forward_request_attempted(&mut self)
        ensures
            final(self).interface.https_forward_request_attempted == u64_wrap_add(
                old(self).interface.https_forward_request_attempted,
                1,
            ),
            final(self).interface.task_total == old(self).interface.task_total,
            final(self).interface.http_forward_request_attempted == old(
                self,
            ).interface.http_forward_request_attempted,
            final(self).tcp == old(self).tcp,
            final(self).name == old(self).name,
            final(self).id == old(self).id,
    {
        self.interface.https_forward_request_attempted =
            self.interface.https_forward_request_attempted.wrapping_add(1);
    }

    pub fn name(&self) -> (r: &MetricsName)
        ensures
            r == &self.name,
    {
        &self.name
    }

    pub fn stat_id(&self) -> (r: StatId)
        ensures
            r == self.id,
    {
        self.id
    }

    /// Counts one upstream connection attempt.
    pub fn add_conn_attempted(&mut self)
        ensures
            final(self).tcp.connection_attempted == u64_wrap_add(
                old(self).tcp.connection_attempted,
                1,
            ),
            final(self).tcp.connection_established == old(self).tcp.connection_established,
            final(self).tcp.io == old(self).tcp.io,
            final(self).interface == old(self).interface,
            final(self).name == old(self).name,
            final(self).id == old(self).id,
    {
        self.tcp.connection_attempted = self.tcp.connection_attempted.wrapping_add(1);
    }

    /// Counts one established upstream connection.
    pub fn add_conn_established(&mut self)
        ensures
            final(self).tcp.connection_established == u64_wrap_add(
                old(self).tcp.connection_established,
                1,
            ),
            final(self).tcp.connection_attempted == old(self).tcp.connection_attempted,
            final(self).tcp.io == old(self).tcp.io,
            final(self).interface == old(self).interface,
            final(self).name == old(self).name,
            final(self).id == old(self).id,
    {
        self.tcp.connection_established = self.tcp.connection_established.wrapping_add(1);
    }

    pub fn get_task_total(&self) -> (r: u64)
        ensures
            r == self.interface.task_total,
    {
        self.interface.task_total
    }

    pub fn get_conn_attempted(&self) -> (r: u64)
        ensures
            r == self.tcp.connection_attempted,
    {
        self.tcp.connection_attempted
    }

    pub fn get_conn_established(&self) -> (r: u64)
        ensures
            r == self.tcp.connection_established,
    {
        self.tcp.connection_established
    }

    pub fn tcp_io_snapshot(&self) -> (r: Option<TcpIoSnapshot>)
        ensures
            r == Some(self.tcp.io),
    {
        Some(self.tcp.io)
    }

    /// Credits bytes read from the upstream to this escaper's counters.
    pub fn add_read_bytes(&mut self, size: usize)
        ensures
            final(self).tcp.io.in_bytes == u64_wrap_add(old(self).tcp.io.in_bytes, size as u64),
            final(self).tcp.io.out_bytes == old(self).tcp.io.out_bytes,
            final(self).tcp.connection_attempted == old(self).tcp.connection_attempted,
            final(self).tcp.connection_established == old(self).tcp.connection_established,
            final(self).interface == old(self).interface,
            final(self).name == old(self).name,
            final(self).id == old(self).id,
    {
        self.tcp.io.in_bytes = self.tcp.io.in_bytes.wrapping_add(size as u64);
    }

    /// Credits bytes written to the upstream to this escaper's counters.
    pub fn add_write_bytes(&mut self, size: usize)
        ensures
            final(self).tcp.io.out_bytes == u64_wrap_add(old(self).tcp.io.out_bytes, size as u64),
            final(self).tcp.io.in_bytes == old(self).tcp.io.in_bytes,
            final(self).tcp.connection_attempted == old(self).tcp.connection_attempted,
            final(self).tcp.connection_established == old(self).tcp.connection_established,
            final(self).interface == old(self).interface,
            final(self).name == old(self).name,
            final(self).id == old(self).id,
    {
        self.tcp.io.out_bytes = self.tcp.io.out_bytes.wrapping_add(size as u64);
    }
}

impl EscaperInterfaceStats {
    pub open spec fn spec_zero() -> EscaperInterfaceStats {
        EscaperInterfaceStats {
            task_total: 0,
            http_forward_request_attempted: 0,
            https_forward_request_attempted: 0,
        }
    }
}

impl EscaperTcpStats {
    pub open spec fn spec_zero() -> EscaperTcpStats {
        EscaperTcpStats {
            connection_attempted: 0,
            connection_established: 0,
            io: TcpIoSnapshot { in_bytes: 0, out_bytes: 0 },
        }
    }
}

} // verus!
