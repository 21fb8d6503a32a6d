use std::sync::Arc;

use g3_egress::rustls_ext::RustlsClientConnectionExt;

#[test]
fn fresh_client_connection_is_not_resumed() {
    let provider = Arc::new(rustls::crypto::ring::default_provider());
    let config = rustls::ClientConfig::builder_with_provider(provider)
        .with_safe_default_protocol_versions()
        .unwrap()
        .with_root_certificates(rustls::RootCertStore::empty())
        .with_no_client_auth();
    let conn =
        rustls::ClientConnection::new(Arc::new(config), "example.com".try_into().unwrap()).unwrap();
    // No handshake has run, so no session can have been resumed.
    assert!(!conn.session_reused());
}
