//! Configuration of the IP location lookup service: batching, timeouts,
//! the query peer, and result lifetimes.

use vstd::prelude::*;

use crate::net::{IpAddr, SocketAddr};
use crate::types::DurationMillis;

verus! {

/// A socket buffer sizing request.
#[derive(Clone, Copy, PartialEq, Eq, Structural, Debug)]
pub struct SocketBufferConfig {
    pub recv: Option<usize>,
    pub send: Option<usize>,
}

impl Default for SocketBufferConfig {
    fn default() -> (r: SocketBufferConfig)
        ensures
            r.recv is None,
            r.send is None,
    {
        SocketBufferConfig { recv: None, send: None }
    }
}

/// The lookup service's configuration.
#[derive(Clone, Copy, PartialEq, Eq, Structural, Debug)]
pub struct IpLocationServiceConfig {
    pub cache_request_batch_count: usize,
    pub cache_request_timeout: DurationMillis,
    pub query_peer_addr: SocketAddr,
    pub query_socket_buffer: SocketBufferConfig,
    pub query_wait_timeout: DurationMillis,
    pub default_expire_ttl: u32,
    pub maximum_expire_ttl: u32,
}

impl Default for IpLocationServiceConfig {
    /// The defaults: small batches, sub-second timeouts, the local lookup
    /// agent on port 2888, and short result lifetimes.
    fn default() -> (r: IpLocationServiceConfig)
        ensures
            r.cache_request_batch_count == 10,
            r.cache_request_timeout.millis == 800,
            r.query_peer_addr == (SocketAddr { ip: IpAddr::V4(0x7f000001), port: 2888 }),
            r.query_socket_buffer.recv is None && r.query_socket_buffer.send is None,
            r.query_wait_timeout.millis == 400,
            r.default_expire_ttl == 10,
            r.maximum_expire_ttl == 300,
    {
        IpLocationServiceConfig {
            cache_request_batch_count: 10,
            cache_request_timeout: DurationMillis { millis: 800 },
            query_peer_addr: SocketAddr { ip: IpAddr::V4(0x7f000001), port: 2888 },
            query_socket_buffer: SocketBufferConfig { recv: None, send: None },
            query_wait_timeout: DurationMillis { millis: 400 },
            default_expire_ttl: 10,
            maximum_expire_ttl: 300,
        }
    }
}

impl IpLocationServiceConfig {
    pub fn set_cache_request_batch_count(&mut self, count: usize)
        ensures
            *final(self) == (IpLocationServiceConfig {
                cache_request_batch_count: count,
                ..*old(self)
            }),
    {
        self.cache_request_batch_count = count;
    }

    pub fn set_cache_request_timeout(&mut self, time: DurationMillis)
        ensures
            *final(self) == (IpLocationServiceConfig { cache_request_timeout: time, ..*old(self) }),
    {
        self.cache_request_timeout = time;
    }

    pub fn set_query_peer_addr(&mut self, addr: SocketAddr)
        ensures
            *final(self) == (IpLocationServiceConfig { query_peer_addr: addr, ..*old(self) }),
    {
        self.query_peer_addr = addr;
    }

    pub fn set_query_socket_buffer(&mut self, config: SocketBufferConfig)
        ensures
            *final(self) == (IpLocationServiceConfig { query_socket_buffer: config, ..*old(self) }),
    {
        self.query_socket_buffer = config;
    }

    pub fn set_query_wait_timeout(&mut self, time: DurationMillis)
        ensures
            *final(self) == (IpLocationServiceConfig { query_wait_timeout: time, ..*old(self) }),
    {
        self.query_wait_timeout = time;
    }

    pub fn set_default_expire_ttl(&mut self, ttl: u32)
        ensures
            *final(self) == (IpLocationServiceConfig { default_expire_ttl: ttl, ..*old(self) }),
    {
        self.default_expire_ttl = ttl;
    }

    pub fn set_maximum_expire_ttl(&mut self, ttl: u32)
        ensures
            *final(self) == (IpLocationServiceConfig { maximum_expire_ttl: ttl, ..*old(self) }),
    {
        self.maximum_expire_ttl = ttl;
    }
}

} // verus!
