//! Upstream egress library for a forwarding proxy: peer selection, transport
//! task bookkeeping, HTTP-CONNECT tunnel negotiation, TLS handshake outcome
//! handling, byte accounting, and the configuration types that drive them.

pub mod accounting;
pub mod codec;
pub mod config_store;
pub mod egress;
pub mod escape_stats;
pub mod geoip;
pub mod h3_bench;
pub mod http_connect;
pub mod ip_locate;
pub mod log_config;
pub mod msgpack;
pub mod net;
pub mod quic_port;
pub mod rustls_ext;
pub mod runtime_conf;
pub mod selection;
pub mod server_metrics;
pub mod tcp_connect;
pub mod text;
pub mod types;
pub mod yaml;
