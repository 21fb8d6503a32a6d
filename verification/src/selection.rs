//! Peer selection: a weighted pick over a resolved address set, driven by an
//! injected random value so that selection is deterministic for a given
//! draw.

use vstd::prelude::*;

use crate::net::SocketAddr;
use crate::tcp_connect::TcpConnectError;

verus! {

/// One candidate endpoint and its selection weight.
#[derive(Clone, Copy, PartialEq, Eq, Structural, Debug)]
pub struct WeightedEndpoint {
    pub addr: SocketAddr,
    pub weight: u32,
}

/// An ordered, weighted set of resolved peers.
pub struct ResolvedPeerSet {
    pub peers: Vec<WeightedEndpoint>,
}

/// The sum of the weights of `ps[k..]`.
pub open spec fn total_weight_from(ps: Seq<WeightedEndpoint>, k: int) -> int
    decreases ps.len() - k when 0 <= k <= ps.len()
{
    if k >= ps.len() {
        0
    } else {
        ps[k].weight + total_weight_from(ps, k + 1)
    }
}

pub open spec fn total_weight(ps: Seq<WeightedEndpoint>) -> int {
    total_weight_from(ps, 0)
}

/// The index picked by a draw `r`: weights are laid out end to end and `r`
/// falls into one peer's span.
pub open spec fn pick_index_from(ps: Seq<WeightedEndpoint>, k: int, r: int) -> int
    decreases ps.len() - k when 0 <= k <= ps.len()
{
    if k >= ps.len() {
        k
    } else if r < ps[k].weight {
        k
    } else {
        pick_index_from(ps, k + 1, r - ps[k].weight)
    }
}

/// All weights are positive.
pub open spec fn peer_set_wf(ps: Seq<WeightedEndpoint>) -> bool {
    forall|i: int| 0 <= i < ps.len() ==> (#[trigger] ps[i].weight) >= 1
}

proof fn lemma_pick_in_range(ps: Seq<WeightedEndpoint>, k: int, r: int)
    requires
        0 <= k <= ps.len(),
        0 <= r < total_weight_from(ps, k),
    ensures
        k <= pick_index_from(ps, k, r) < ps.len(),
    decreases ps.len() - k,
{
    if k < ps.len() {
        if r < ps[k].weight {
        } else {
            lemma_pick_in_range(ps, k + 1, r - ps[k].weight);
        }
    }
}

impl ResolvedPeerSet {
    pub fn is_empty(&self) -> (r: bool)
        ensures
            r == (self.peers@.len() == 0),
    {
        self.peers.len() == 0
    }
}

/// Computes the total weight of the set.
fn compute_total(peers: &Vec<WeightedEndpoint>) -> (r: u64)
    requires
        peers@.len() <= 0xffff_ffff,
    ensures
        r == total_weight(peers@),
{
    let n = peers.len();
    let mut acc: u64 = 0;
    let mut k: usize = n;
    while k > 0
        invariant
            k <= n,
            n == peers@.len(),
            n <= 0xffff_ffff,
            acc == total_weight_from(peers@, k as int),
            acc <= (n - k) * 0x1_0000_0000,
        decreases k,
    {
        k = k - 1;
        acc = acc + (peers[k].weight as u64);
        proof {
            assert((n - k) * 0x1_0000_0000 == (n - (k + 1)) * 0x1_0000_0000 + 0x1_0000_0000);
        }
    }
    acc
}

/// Picks one endpoint from the set using the random draw `rand`.
///
/// Fails exactly when the set is empty; otherwise the pick is the element
/// whose weight span contains `rand` modulo the total weight, so equal
/// inputs always select the same peer.
pub fn select_peer(set: &ResolvedPeerSet, rand: u64) -> (r: Result<SocketAddr, TcpConnectError>)
    requires
        peer_set_wf(set.peers@),
        set.peers@.len() <= 0xffff_ffff,
    ensures
        r is Err <==> set.peers@.len() == 0,
        r matches Err(e) ==> e == TcpConnectError::NoPeerAvailable,
        r matches Ok(a) ==> a == set.peers@[pick_index_from(
            set.peers@,
            0,
            (rand as int) % total_weight(set.peers@),
        )].addr,
{
    let n = set.peers.len();
    if n == 0 {
        return Err(TcpConnectError::NoPeerAvailable);
    }
    let total = compute_total(&set.peers);
    proof {
        assert(total_weight_from(set.peers@, 0) >= set.peers@[0].weight + total_weight_from(
            set.peers@,
            1,
        ) >= 1) by {
            lemma_total_nonneg(set.peers@, 1);
        }
    }
    let mut rem = rand % total;
    let ghost r0 = (rand as int) % total_weight(set.peers@);
    let mut k: usize = 0;
    while k < n
        invariant_except_break
            n == set.peers@.len(),
            peer_set_wf(set.peers@),
            0 <= k < n,
            rem == r0 - (total_weight(set.peers@) - total_weight_from(set.peers@, k as int)),
            0 <= rem < total_weight_from(set.peers@, k as int),
            pick_index_from(set.peers@, 0, r0) == pick_index_from(set.peers@, k as int, rem as int),
        ensures
            0 <= k < n,
            pick_index_from(set.peers@, 0, r0) == k,
        decreases n - k,
    {
        let w = set.peers[k].weight as u64;
        if rem < w {
            break;
        }
        proof {
            if k + 1 >= n {
                assert(total_weight_from(set.peers@, k as int) == set.peers@[k as int].weight
                    + total_weight_from(set.peers@, k + 1));
                assert(false);
            }
        }
        rem = rem - w;
        k = k + 1;
    }
    Ok(set.peers[k].addr)
}

proof fn lemma_total_nonneg(ps: Seq<WeightedEndpoint>, k: int)
    requires
        0 <= k <= ps.len(),
        peer_set_wf(ps),
    ensures
        total_weight_from(ps, k) >= 0,
    decreases ps.len() - k,
{
    if k < ps.len() {
        lemma_total_nonneg(ps, k + 1);
    }
}

} // verus!
