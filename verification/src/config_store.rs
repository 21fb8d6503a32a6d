//! Hot reload of the escaper configuration: the current configuration lives
//! behind an atomically swappable pointer. A task clones the configuration
//! once, at its start, and never looks at the store again, so a swap is
//! invisible to tasks already running and visible to every task started
//! after it.

use vstd::prelude::*;

use crate::egress::EscaperConfig;

verus! {

/// The shared slot holding the current escaper configuration. It wraps
/// arc_swap's swappable pointer type, whose strategy parameter Verus cannot
/// name, so the holder is opaque and its operations are trusted.
#[verifier::external_body]
pub struct EscaperConfigStore {
    slot: arc_swap::ArcSwap<EscaperConfig>,
}

/// Relies on arc_swap::ArcSwapAny::new: builds the store with an initial
/// configuration. The slot is shared; nothing is promised of later loads.
#[verifier::external_body]
pub fn config_store_new(initial: EscaperConfig) -> (r: EscaperConfigStore) {
    EscaperConfigStore { slot: arc_swap::ArcSwap::from_pointee(initial) }
}

/// Relies on arc_swap::ArcSwapAny::store: atomically publishes a new
/// configuration for tasks that start later.
#[verifier::external_body]
pub fn config_store_swap(store: &EscaperConfigStore, next: EscaperConfig) {
    store.slot.store(std::sync::Arc::new(next));
}

/// Relies on arc_swap::ArcSwapAny::load_full and the escaper
/// configuration's field reads: hands back a private copy of whatever
/// configuration is current at this instant.
#[verifier::external_body]
pub fn config_store_load(store: &EscaperConfigStore) -> (r: EscaperConfig) {
    let current = store.slot.load_full();
    EscaperConfig {
        connect_timeout: current.connect_timeout,
        peer_negotiation_timeout: current.peer_negotiation_timeout,
        http_connect_rsp_hdr_max_size: current.http_connect_rsp_hdr_max_size,
        append_http_headers: current.append_http_headers.clone(),
        pass_proxy_userid: current.pass_proxy_userid,
    }
}

} // verus!
