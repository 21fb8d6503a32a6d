//! Byte accounting: wrapping the two halves of an established connection so
//! that every transferred byte is credited to a fixed fan-out of counter
//! sinks, with residual CONNECT-response bytes credited exactly once.
//!
//! Counters wrap around on overflow, matching atomic fetch-add semantics.

use vstd::prelude::*;

verus! {

/// One sink's TCP byte counters.
#[derive(Clone, Copy, PartialEq, Eq, Structural, Debug, Default)]
pub struct TcpIoSnapshot {
    pub in_bytes: u64,
    pub out_bytes: u64,
}

/// One sink's UDP packet and byte counters.
#[derive(Clone, Copy, PartialEq, Eq, Structural, Debug, Default)]
pub struct UdpIoSnapshot {
    pub in_packets: u64,
    pub in_bytes: u64,
    pub out_packets: u64,
    pub out_bytes: u64,
}

/// The table of counter sinks live for one connection: escaper-global,
/// task-local and per-user tiers are rows of this table, and wrappers hold
/// row indices as capabilities.
pub struct StatsSinkTable {
    pub sinks: Vec<TcpIoSnapshot>,
}

pub open spec fn wrap_add(a: u64, n: u64) -> u64 {
    ((a + n) % 0x1_0000_0000_0000_0000) as u64
}

/// The table after crediting `n` read bytes to the rows listed in `ids`.
pub open spec fn credit_read(t: Seq<TcpIoSnapshot>, ids: Seq<int>, n: u64) -> Seq<TcpIoSnapshot> {
    Seq::new(
        t.len(),
        |i: int|
            if ids.contains(i) {
                TcpIoSnapshot { in_bytes: wrap_add(t[i].in_bytes, n), out_bytes: t[i].out_bytes }
            } else {
                t[i]
            },
    )
}

/// The table after crediting `n` written bytes to the rows listed in `ids`.
pub open spec fn credit_write(t: Seq<TcpIoSnapshot>, ids: Seq<int>, n: u64) -> Seq<TcpIoSnapshot> {
    Seq::new(
        t.len(),
        |i: int|
            if ids.contains(i) {
                TcpIoSnapshot { in_bytes: t[i].in_bytes, out_bytes: wrap_add(t[i].out_bytes, n) }
            } else {
                t[i]
            },
    )
}

/// A sink list is valid for a table when every index is in range and no
/// index repeats (each sink is credited once per event).
pub open spec fn sink_list_wf(ids: Seq<int>, table_len: int) -> bool {
    &&& forall|k: int| 0 <= k < ids.len() ==> 0 <= #[trigger] ids[k] < table_len
    &&& forall|k: int, l: int| 0 <= k < l < ids.len() ==> ids[k] != ids[l]
}

pub open spec fn ids_view(ids: Seq<usize>) -> Seq<int> {
    ids.map_values(|x: usize| x as int)
}

impl StatsSinkTable {
    pub fn new() -> (r: StatsSinkTable)
        ensures
            r.sinks@.len() == 0,
    {
        StatsSinkTable { sinks: Vec::new() }
    }

    /// Adds a fresh zeroed sink row and hands back its index.
    pub fn add_sink(&mut self) -> (r: usize)
        ensures
            final(self).sinks@ == old(self).sinks@.push(
                TcpIoSnapshot { in_bytes: 0, out_bytes: 0 },
            ),
            r == old(self).sinks@.len(),
    {
        let r = self.sinks.len();
        self.sinks.push(TcpIoSnapshot { in_bytes: 0, out_bytes: 0 });
        r
    }

    /// Credits `n` read bytes to every listed sink, each exactly once.
    pub fn add_read_bytes(&mut self, ids: &Vec<usize>, n: u64)
        requires
            sink_list_wf(ids_view(ids@), old(self).sinks@.len() as int),
        ensures
            final(self).sinks@ == credit_read(old(self).sinks@, ids_view(ids@), n),
    {
        let ghost t0 = self.sinks@;
        let ghost iv = ids_view(ids@);
        let mut k: usize = 0;
        while k < ids.len()
            invariant
                iv == ids_view(ids@),
                sink_list_wf(iv, t0.len() as int),
                k <= ids@.len(),
                self.sinks@ == credit_read(t0, iv.subrange(0, k as int), n),
            decreases ids@.len() - k,
        {
            let ghost p = iv.subrange(0, k as int);
            let ghost p1 = iv.subrange(0, k + 1);
            let idx = ids[k];
            proof {
                assert(iv[k as int] == idx as int);
                assert(!p.contains(idx as int)) by {
                    if p.contains(idx as int) {
                        let j = choose|j: int| 0 <= j < p.len() && p[j] == idx as int;
                        assert(iv[j] == iv[k as int]);
                    }
                }
            }
            let cur = self.sinks[idx];
            let updated = TcpIoSnapshot { in_bytes: cur.in_bytes.wrapping_add(n), out_bytes: cur.out_bytes };
            self.sinks.set(idx, updated);
            proof {
                assert forall|i: int|
                    0 <= i < t0.len() implies self.sinks@[i] == credit_read(t0, p1, n)[i] by {
                    if i == idx as int {
                        assert(p1[k as int] == i);
                        assert(p1.contains(i));
                    } else {
                        assert(p1.contains(i) <==> p.contains(i)) by {
                            if p1.contains(i) {
                                let j = choose|j: int| 0 <= j < p1.len() && p1[j] == i;
                                if j < k {
                                    assert(p[j] == i);
                                }
                            }
                            if p.contains(i) {
                                let j = choose|j: int| 0 <= j < p.len() && p[j] == i;
                                assert(p1[j] == i);
                            }
                        }
                    }
                }
                assert(self.sinks@ =~= credit_read(t0, p1, n));
            }
            k = k + 1;
        }
        proof {
            assert(iv.subrange(0, iv.len() as int) =~= iv);
        }
    }

    /// Credits `n` written bytes to every listed sink, each exactly once.
    pub fn add_write_bytes(&mut self, ids: &Vec<usize>, n: u64)
        requires
            sink_list_wf(ids_view(ids@), old(self).sinks@.len() as int),
        ensures
            final(self).sinks@ == credit_write(old(self).sinks@, ids_view(ids@), n),
    {
        let ghost t0 = self.sinks@;
        let ghost iv = ids_view(ids@);
        let mut k: usize = 0;
        while k < ids.len()
            invariant
                iv == ids_view(ids@),
                sink_list_wf(iv, t0.len() as int),
                k <= ids@.len(),
                self.sinks@ == credit_write(t0, iv.subrange(0, k as int), n),
            decreases ids@.len() - k,
        {
            let ghost p = iv.subrange(0, k as int);
            let ghost p1 = iv.subrange(0, k + 1);
            let idx = ids[k];
            proof {
                assert(iv[k as int] == idx as int);
                assert(!p.contains(idx as int)) by {
                    if p.contains(idx as int) {
                        let j = choose|j: int| 0 <= j < p.len() && p[j] == idx as int;
                        assert(iv[j] == iv[k as int]);
                    }
                }
            }
            let cur = self.sinks[idx];
            let updated = TcpIoSnapshot { in_bytes: cur.in_bytes, out_bytes: cur.out_bytes.wrapping_add(n) };
            self.sinks.set(idx, updated);
            proof {
                assert forall|i: int|
                    0 <= i < t0.len() implies self.sinks@[i] == credit_write(t0, p1, n)[i] by {
                    if i == idx as int {
                        assert(p1[k as int] == i);
                        assert(p1.contains(i));
                    } else {
                        assert(p1.contains(i) <==> p.contains(i)) by {
                            if p1.contains(i) {
                                let j = choose|j: int| 0 <= j < p1.len() && p1[j] == i;
                                if j < k {
                                    assert(p[j] == i);
                                }
                            }
                            if p.contains(i) {
                                let j = choose|j: int| 0 <= j < p.len() && p[j] == i;
                                assert(p1[j] == i);
                            }
                        }
                    }
                }
                assert(self.sinks@ =~= credit_write(t0, p1, n));
            }
            k = k + 1;
        }
        proof {
            assert(iv.subrange(0, iv.len() as int) =~= iv);
        }
    }
}

/// The read half's accounting state: its sink list and a running total of
/// the bytes credited (residual included).
pub struct ReaderAccounting {
    pub ids: Vec<usize>,
    pub credited: u64,
}

/// The write half's accounting state.
pub struct WriterAccounting {
    pub ids: Vec<usize>,
    pub credited: u64,
}

/// Wraps the read half of a fresh connection. The `residual` bytes that were
/// pre-read past the CONNECT response are credited here, once, before any
/// read is performed.
pub fn wrap_reader(table: &mut StatsSinkTable, ids: Vec<usize>, residual: u64) -> (r:
    ReaderAccounting)
    requires
        sink_list_wf(ids_view(ids@), old(table).sinks@.len() as int),
    ensures
        final(table).sinks@ == credit_read(old(table).sinks@, ids_view(ids@), residual),
        r.ids@ == ids@,
        r.credited == residual,
{
    table.add_read_bytes(&ids, residual);
    ReaderAccounting { ids, credited: residual }
}

/// Wraps the write half of a fresh connection.
pub fn wrap_writer(table: &mut StatsSinkTable, ids: Vec<usize>) -> (r: WriterAccounting)
    requires
        sink_list_wf(ids_view(ids@), old(table).sinks@.len() as int),
    ensures
        final(table).sinks@ == old(table).sinks@,
        r.ids@ == ids@,
        r.credited == 0,
{
    proof {
        assert(table.sinks@ =~= table.sinks@);
    }
    WriterAccounting { ids, credited: 0 }
}

impl ReaderAccounting {
    /// Credits one successful read of `n` bytes to every read-side sink.
    pub fn on_read(&mut self, table: &mut StatsSinkTable, n: u64)
        requires
            sink_list_wf(ids_view(old(self).ids@), old(table).sinks@.len() as int),
        ensures
            final(table).sinks@ == credit_read(old(table).sinks@, ids_view(old(self).ids@), n),
            final(self).ids@ == old(self).ids@,
            final(self).credited == wrap_add(old(self).credited, n),
    {
        table.add_read_bytes(&self.ids, n);
        self.credited = self.credited.wrapping_add(n);
    }
}

impl WriterAccounting {
    /// Credits one successful write of `n` bytes to every write-side sink.
    pub fn on_write(&mut self, table: &mut StatsSinkTable, n: u64)
        requires
            sink_list_wf(ids_view(old(self).ids@), old(table).sinks@.len() as int),
        ensures
            final(table).sinks@ == credit_write(old(table).sinks@, ids_view(old(self).ids@), n),
            final(self).ids@ == old(self).ids@,
            final(self).credited == wrap_add(old(self).credited, n),
    {
        table.add_write_bytes(&self.ids, n);
        self.credited = self.credited.wrapping_add(n);
    }
}

// ---------------------------------------------------------------------------
// Conservation laws
// ---------------------------------------------------------------------------

/// The wrapping sum of a sequence of byte counts.
pub open spec fn sum_mod(rs: Seq<u64>) -> u64
    decreases rs.len(),
{
    if rs.len() == 0 {
        0
    } else {
        wrap_add(sum_mod(rs.drop_last()), rs.last())
    }
}

/// The table after a sequence of reads, each credited through `credit_read`.
pub open spec fn apply_reads(t: Seq<TcpIoSnapshot>, ids: Seq<int>, rs: Seq<u64>) -> Seq<
    TcpIoSnapshot,
>
    decreases rs.len(),
{
    if rs.len() == 0 {
        t
    } else {
        credit_read(apply_reads(t, ids, rs.drop_last()), ids, rs.last())
    }
}

proof fn lemma_wrap_add_assoc(a: u64, b: u64, c: u64)
    ensures
        wrap_add(wrap_add(a, b), c) == wrap_add(a, wrap_add(b, c)),
{
    let m = 0x1_0000_0000_0000_0000;
    vstd::arithmetic::div_mod::lemma_add_mod_noop(a + b, c as int, m);
    vstd::arithmetic::div_mod::lemma_add_mod_noop_right(a as int, b + c, m);
    vstd::arithmetic::div_mod::lemma_small_mod(c as nat, m as nat);
    vstd::arithmetic::div_mod::lemma_small_mod(a as nat, m as nat);
}

/// Byte conservation: after any sequence of reads, each listed sink's read
/// counter has grown by exactly the wrapping sum of the read lengths; no
/// other counter moved. (Writes are symmetric through `credit_write`.)
pub proof fn lemma_byte_conservation(t: Seq<TcpIoSnapshot>, ids: Seq<int>, rs: Seq<u64>)
    ensures
        apply_reads(t, ids, rs).len() == t.len(),
        forall|i: int|
            0 <= i < t.len() && ids.contains(i) ==> #[trigger] apply_reads(t, ids, rs)[i]
                == (TcpIoSnapshot {
                in_bytes: wrap_add(t[i].in_bytes, sum_mod(rs)),
                out_bytes: t[i].out_bytes,
            }),
        forall|i: int|
            0 <= i < t.len() && !ids.contains(i) ==> #[trigger] apply_reads(t, ids, rs)[i] == t[i],
    decreases rs.len(),
{
    if rs.len() == 0 {
        assert forall|i: int| 0 <= i < t.len() && ids.contains(i) implies #[trigger] apply_reads(
            t,
            ids,
            rs,
        )[i] == (TcpIoSnapshot {
            in_bytes: wrap_add(t[i].in_bytes, sum_mod(rs)),
            out_bytes: t[i].out_bytes,
        }) by {
            assert(wrap_add(t[i].in_bytes, 0) == t[i].in_bytes);
        }
    } else {
        lemma_byte_conservation(t, ids, rs.drop_last());
        let prev = apply_reads(t, ids, rs.drop_last());
        assert forall|i: int| 0 <= i < t.len() && ids.contains(i) implies #[trigger] apply_reads(
            t,
            ids,
            rs,
        )[i] == (TcpIoSnapshot {
            in_bytes: wrap_add(t[i].in_bytes, sum_mod(rs)),
            out_bytes: t[i].out_bytes,
        }) by {
            assert(prev[i].in_bytes == wrap_add(t[i].in_bytes, sum_mod(rs.drop_last())));
            lemma_wrap_add_assoc(t[i].in_bytes, sum_mod(rs.drop_last()), rs.last());
        }
    }
}

/// Residual crediting is exactly once: wrapping a reader with residual `k`
/// and then performing any reads leaves each listed counter at exactly its
/// starting value plus `k` plus the reads' sum — `k` never enters twice.
pub proof fn lemma_residual_credited_once(
    t: Seq<TcpIoSnapshot>,
    ids: Seq<int>,
    k: u64,
    rs: Seq<u64>,
)
    ensures
        forall|i: int|
            0 <= i < t.len() && ids.contains(i) ==> #[trigger] apply_reads(
                credit_read(t, ids, k),
                ids,
                rs,
            )[i].in_bytes == wrap_add(t[i].in_bytes, wrap_add(k, sum_mod(rs))),
        forall|i: int|
            0 <= i < t.len() && !ids.contains(i) ==> #[trigger] apply_reads(
                credit_read(t, ids, k),
                ids,
                rs,
            )[i] == t[i],
{
    let t1 = credit_read(t, ids, k);
    lemma_byte_conservation(t1, ids, rs);
    assert forall|i: int| 0 <= i < t.len() && ids.contains(i) implies #[trigger] apply_reads(
        t1,
        ids,
        rs,
    )[i].in_bytes == wrap_add(t[i].in_bytes, wrap_add(k, sum_mod(rs))) by {
        assert(t1[i].in_bytes == wrap_add(t[i].in_bytes, k));
        lemma_wrap_add_assoc(t[i].in_bytes, k, sum_mod(rs));
    }
}

} // verus!
