//! Extension traits over rustls connections: whether a finished handshake
//! resumed an earlier session.

use vstd::prelude::*;

verus! {

#[verifier::external_type_specification]
#[verifier::external_body]
pub struct ExRustlsClientConnection(rustls::ClientConnection);

#[verifier::external_type_specification]
#[verifier::external_body]
pub struct ExRustlsServerConnection(rustls::ServerConnection);

/// Relies on rustls's CommonState::handshake_kind (reached through the
/// connection's deref): tells a resumed handshake apart from a full one.
/// The answer depends on the connection's negotiated state, so nothing
/// further is promised.
#[verifier::external_body]
fn client_handshake_resumed(c: &rustls::ClientConnection) -> (r: bool) {
    matches!(c.handshake_kind(), Some(rustls::HandshakeKind::Resumed))
}

/// Relies on rustls's CommonState::handshake_kind, as for the client side.
#[verifier::external_body]
fn server_handshake_resumed(c: &rustls::ServerConnection) -> (r: bool) {
    matches!(c.handshake_kind(), Some(rustls::HandshakeKind::Resumed))
}

/// Marker for rustls connection extensions.
pub trait RustlsConnectionExt {

}

/// Server-side connection extensions.
pub trait RustlsServerConnectionExt {
    fn session_reused(&self) -> bool;
}

/// Client-side connection extensions.
pub trait RustlsClientConnectionExt {
    fn session_reused(&self) -> bool;
}

impl RustlsConnectionExt for rustls::ClientConnection {

}

impl RustlsConnectionExt for rustls::ServerConnection {

}

impl RustlsServerConnectionExt for rustls::ServerConnection {
    fn session_reused(&self) -> bool {
        server_handshake_resumed(self)
    }
}

impl RustlsClientConnectionExt for rustls::ClientConnection {
    fn session_reused(&self) -> bool {
        client_handshake_resumed(self)
    }
}

} // verus!
