//! The transport-connect data model: the closed error taxonomy, the per-task
//! scratchpad, the read-only task context, and the structured record handed
//! to the failure logger.

use vstd::prelude::*;

use crate::net::{Host, IpAddr, SocketAddr, UpstreamAddr};
use crate::types::DurationMillis;

verus! {

/// Everything the egress core can fail with, tagged by phase.
#[derive(Clone, Copy, PartialEq, Eq, Structural, Debug)]
pub enum TcpConnectError {
    /// Peer selection found an empty set.
    NoPeerAvailable,
    /// The connect deadline fired.
    ConnectTimeout,
    /// The peer refused the connection.
    ConnectRefused,
    /// The network to the peer is unreachable.
    ConnectUnreachable,
    /// Writing the CONNECT request failed.
    NegotiationWriteFailed,
    /// Reading the CONNECT response failed or hit EOF mid-headers.
    NegotiationReadFailed,
    /// The CONNECT response was malformed or oversized.
    NegotiationProtocolError,
    /// The proxy answered CONNECT with a non-success status.
    NegotiationRejected(u16),
    /// The peer-negotiation timer fired during CONNECT.
    NegotiationPeerTimeout,
    /// The upstream TLS handshake failed.
    UpstreamTlsHandshakeFailed,
    /// The TLS handshake timer fired.
    UpstreamTlsHandshakeTimeout,
    /// Building the client-side TLS state failed before any I/O.
    InternalTlsClientError,
}

impl TcpConnectError {
    /// Errors that the failure logger (the TLS-handshake log stream) records.
    pub open spec fn spec_logged_via_handshake_log(&self) -> bool {
        match self {
            TcpConnectError::UpstreamTlsHandshakeFailed => true,
            TcpConnectError::UpstreamTlsHandshakeTimeout => true,
            _ => false,
        }
    }

    pub fn logged_via_handshake_log(&self) -> (r: bool)
        ensures
            r == self.spec_logged_via_handshake_log(),
    {
        matches!(
            self,
            TcpConnectError::UpstreamTlsHandshakeFailed
                | TcpConnectError::UpstreamTlsHandshakeTimeout
        )
    }

    /// Connect-phase failures may be retried by the caller against another
    /// escaper; later failures may not.
    pub open spec fn spec_retriable(&self) -> bool {
        match self {
            TcpConnectError::ConnectTimeout => true,
            TcpConnectError::ConnectRefused => true,
            TcpConnectError::ConnectUnreachable => true,
            _ => false,
        }
    }

    pub fn retriable(&self) -> (r: bool)
        ensures
            r == self.spec_retriable(),
    {
        matches!(
            self,
            TcpConnectError::ConnectTimeout
                | TcpConnectError::ConnectRefused
                | TcpConnectError::ConnectUnreachable
        )
    }
}

/// Which TLS layer a handshake belongs to.
#[derive(Clone, Copy, PartialEq, Eq, Structural, Debug)]
pub enum TlsApplication {
    /// TLS straight over the transport stream (origin TLS without a proxy
    /// TLS layer underneath).
    TcpStream,
    /// The outer TLS layer toward the proxy.
    ProxyLeg,
    /// The inner TLS layer toward the origin, tunneled through the proxy.
    OriginLeg,
}

/// The mutable scratchpad accompanying one dial attempt.
#[derive(Debug)]
pub struct TcpConnectTaskNotes {
    pub upstream: UpstreamAddr,
    pub bind: Option<IpAddr>,
    pub next_peer: Option<SocketAddr>,
    pub local_addr: Option<SocketAddr>,
    pub outgoing_addr: Option<SocketAddr>,
    pub connect_tries: u64,
    pub duration_connect: DurationMillis,
}

impl TcpConnectTaskNotes {
    pub fn new(upstream: UpstreamAddr, bind: Option<IpAddr>) -> (r: TcpConnectTaskNotes)
        ensures
            r.upstream == upstream,
            r.bind == bind,
            r.next_peer is None,
            r.local_addr is None,
            r.outgoing_addr is None,
            r.connect_tries == 0,
            r.duration_connect.millis == 0,
    {
        TcpConnectTaskNotes {
            upstream,
            bind,
            next_peer: None,
            local_addr: None,
            outgoing_addr: None,
            connect_tries: 0,
            duration_connect: DurationMillis { millis: 0 },
        }
    }
}

/// Read-only context of the server task that asked for this connection.
#[derive(Debug)]
pub struct ServerTaskNotes {
    pub id: u64,
    pub raw_user_name: Option<String>,
    pub client_addr: SocketAddr,
    pub accepted_at_millis: u64,
}

impl ServerTaskNotes {
    pub fn raw_user_name(&self) -> (r: Option<&String>)
        ensures
            r matches Some(u) ==> self.raw_user_name matches Some(v) && u@ == v@,
            r is Some <==> self.raw_user_name is Some,
    {
        self.raw_user_name.as_ref()
    }
}

/// One structured record for the failure logger, correlated with the task.
#[derive(Debug)]
pub struct EscapeLogForTlsHandshake {
    pub task_id: u64,
    pub tls_peer: UpstreamAddr,
    pub tls_name: Host,
    pub tls_application: TlsApplication,
    pub reason: TcpConnectError,
}

} // verus!
