use g3_egress::net::{IpAddr, SocketAddr};
use g3_egress::quic_port::{
    AnyServerConfig, PlainQuicPortConfig, ServerConfigDiffAction, PLAIN_QUIC_PORT_UPDATE_LISTEN,
    PLAIN_QUIC_PORT_UPDATE_QUINN,
};
use g3_egress::yaml::{ConfigError, YamlValue};

fn key(k: &str) -> YamlValue {
    YamlValue::Str(k.to_string())
}

fn tls_node() -> YamlValue {
    YamlValue::Hash(vec![
        (key("cert"), YamlValue::Str("CERTDATA".to_string())),
        (key("key"), YamlValue::Str("KEYDATA".to_string())),
    ])
}

fn full_entries() -> Vec<(YamlValue, YamlValue)> {
    vec![
        (key("name"), YamlValue::Str("quic1".to_string())),
        (key("listen"), YamlValue::Int(8443)),
        (key("quic_server"), tls_node()),
        (key("server"), YamlValue::Str("next".to_string())),
    ]
}

#[test]
fn parse_complete_block() {
    let cfg = PlainQuicPortConfig::parse(&full_entries(), None).unwrap();
    assert_eq!(cfg.name.name, "quic1");
    assert_eq!(cfg.server.name, "next");
    assert_eq!(cfg.listen.address, SocketAddr { ip: IpAddr::V4(0), port: 8443 });
    assert_eq!(cfg.tls_server.cert_pairs.len(), 1);
    assert_eq!(cfg.tls_server.cert_pairs[0].certificate, b"CERTDATA");
}

#[test]
fn parse_missing_name_fails() {
    let entries = vec![
        (key("listen"), YamlValue::Int(8443)),
        (key("quic_server"), tls_node()),
        (key("server"), YamlValue::Str("next".to_string())),
    ];
    assert_eq!(
        PlainQuicPortConfig::parse(&entries, None).map(|_| ()).unwrap_err(),
        ConfigError::MissingField
    );
}

#[test]
fn parse_unknown_key_fails() {
    let mut entries = full_entries();
    entries.push((key("bogus"), YamlValue::Bool(true)));
    assert_eq!(
        PlainQuicPortConfig::parse(&entries, None).map(|_| ()).unwrap_err(),
        ConfigError::InvalidKey
    );
}

#[test]
fn dashes_normalize_in_keys() {
    let entries = vec![
        (key("name"), YamlValue::Str("quic1".to_string())),
        (key("listen-in-worker"), YamlValue::Bool(true)),
        (key("listen"), YamlValue::Int(8443)),
        (key("quic_server"), tls_node()),
        (key("server"), YamlValue::Str("next".to_string())),
    ];
    let cfg = PlainQuicPortConfig::parse(&entries, None).unwrap();
    assert!(cfg.listen_in_worker);
}

#[test]
fn ingress_filter_parses_networks() {
    let entries = vec![
        (key("name"), YamlValue::Str("quic1".to_string())),
        (key("listen"), YamlValue::Int(8443)),
        (key("quic_server"), tls_node()),
        (key("server"), YamlValue::Str("next".to_string())),
        (
            key("ingress_net_filter"),
            YamlValue::Array(vec![
                YamlValue::Str("10.0.0.0/8".to_string()),
                YamlValue::Str("192.168.0.1".to_string()),
            ]),
        ),
    ];
    let cfg = PlainQuicPortConfig::parse(&entries, None).unwrap();
    let filter = cfg.ingress_net_filter.unwrap();
    assert_eq!(filter.permit.len(), 2);
    assert_eq!(filter.permit[0].prefix, 8);
    assert_eq!(filter.permit[1].prefix, 32);
}

#[test]
fn diff_action_cases() {
    let base = PlainQuicPortConfig::parse(&full_entries(), None).unwrap();
    let same = PlainQuicPortConfig::parse(&full_entries(), None).unwrap();
    assert_eq!(base.diff_action(&AnyServerConfig::PlainQuicPort(same)), ServerConfigDiffAction::NoAction);

    let mut listen_changed_entries = full_entries();
    listen_changed_entries[1] = (key("listen"), YamlValue::Int(9443));
    let listen_changed = PlainQuicPortConfig::parse(&listen_changed_entries, None).unwrap();
    assert_eq!(
        base.diff_action(&AnyServerConfig::PlainQuicPort(listen_changed)),
        ServerConfigDiffAction::UpdateInPlace(PLAIN_QUIC_PORT_UPDATE_LISTEN)
    );

    let mut tls_changed_entries = full_entries();
    tls_changed_entries[2] = (
        key("quic_server"),
        YamlValue::Hash(vec![
            (key("cert"), YamlValue::Str("OTHERCERT".to_string())),
            (key("key"), YamlValue::Str("KEYDATA".to_string())),
        ]),
    );
    let tls_changed = PlainQuicPortConfig::parse(&tls_changed_entries, None).unwrap();
    assert_eq!(
        base.diff_action(&AnyServerConfig::PlainQuicPort(tls_changed)),
        ServerConfigDiffAction::UpdateInPlace(PLAIN_QUIC_PORT_UPDATE_QUINN)
    );

    assert_eq!(base.diff_action(&AnyServerConfig::Other), ServerConfigDiffAction::SpawnNew);
}

#[test]
fn dependent_server_lists_the_server() {
    let cfg = PlainQuicPortConfig::parse(&full_entries(), None).unwrap();
    let deps = cfg.dependent_server().unwrap();
    assert_eq!(deps.len(), 1);
    assert_eq!(deps[0].name, "next");
}

#[test]
fn listen_from_hash_with_address() {
    let entries = vec![
        (key("name"), YamlValue::Str("quic1".to_string())),
        (
            key("listen"),
            YamlValue::Hash(vec![
                (key("address"), YamlValue::Str("127.0.0.1".to_string())),
                (key("port"), YamlValue::Int(4433)),
            ]),
        ),
        (key("quic_server"), tls_node()),
        (key("server"), YamlValue::Str("next".to_string())),
    ];
    let cfg = PlainQuicPortConfig::parse(&entries, None).unwrap();
    assert_eq!(cfg.listen.address, SocketAddr { ip: IpAddr::V4(0x7f000001), port: 4433 });
}
