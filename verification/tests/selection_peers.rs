use g3_egress::net::{IpAddr, SocketAddr};
use g3_egress::selection::{select_peer, ResolvedPeerSet, WeightedEndpoint};
use g3_egress::tcp_connect::TcpConnectError;

fn peer(last_octet: u32, weight: u32) -> WeightedEndpoint {
    WeightedEndpoint {
        addr: SocketAddr { ip: IpAddr::V4(0x0a000000 + last_octet), port: 80 },
        weight,
    }
}

#[test]
fn empty_set_has_no_peer() {
    let set = ResolvedPeerSet { peers: Vec::new() };
    assert_eq!(select_peer(&set, 42), Err(TcpConnectError::NoPeerAvailable));
}

#[test]
fn weighted_pick_follows_spans() {
    let set = ResolvedPeerSet { peers: vec![peer(1, 2), peer(2, 1)] };
    // Draws 0 and 1 land in the first peer's span, draw 2 in the second's.
    assert_eq!(select_peer(&set, 0).unwrap(), set.peers[0].addr);
    assert_eq!(select_peer(&set, 1).unwrap(), set.peers[0].addr);
    assert_eq!(select_peer(&set, 2).unwrap(), set.peers[1].addr);
    // The draw is taken modulo the total weight.
    assert_eq!(select_peer(&set, 3).unwrap(), set.peers[0].addr);
    assert_eq!(select_peer(&set, 5).unwrap(), set.peers[1].addr);
}

#[test]
fn selection_is_deterministic() {
    let set = ResolvedPeerSet { peers: vec![peer(1, 3), peer(2, 5), peer(3, 1)] };
    for draw in 0..30u64 {
        let first = select_peer(&set, draw).unwrap();
        let second = select_peer(&set, draw).unwrap();
        assert_eq!(first, second);
    }
}
