use g3_egress::geoip::{as_continent_code, as_ip_location, as_iso_country_code, ContinentCode};
use g3_egress::ip_locate::IpLocationServiceConfig;
use g3_egress::msgpack::{as_ip_network, as_ipaddr, MsgValue};
use g3_egress::net::{IpAddr, SocketAddr};
use g3_egress::runtime_conf::UnaidedRuntimeConfig;
use g3_egress::types::DurationMillis;
use g3_egress::yaml::{ConfigError, YamlValue};

fn key(k: &str) -> YamlValue {
    YamlValue::Str(k.to_string())
}

#[test]
fn msgpack_ipaddr() {
    assert_eq!(
        as_ipaddr(&MsgValue::Str("10.0.0.1".to_string())).unwrap(),
        IpAddr::V4(0x0a000001)
    );
    assert_eq!(
        as_ipaddr(&MsgValue::Str("nope".to_string())).unwrap_err(),
        ConfigError::InvalidValue
    );
    assert_eq!(as_ipaddr(&MsgValue::Other).unwrap_err(), ConfigError::InvalidValueType);
    assert_eq!(as_ipaddr(&MsgValue::BadStr).unwrap_err(), ConfigError::InvalidValueType);
}

#[test]
fn msgpack_ip_network() {
    let n = as_ip_network(&MsgValue::Str("10.0.0.0/24".to_string())).unwrap();
    assert_eq!(n.prefix, 24);
    // A bare address stands for its full-length network.
    let single = as_ip_network(&MsgValue::Str("10.0.0.9".to_string())).unwrap();
    assert_eq!(single.prefix, 32);
    assert_eq!(
        as_ip_network(&MsgValue::Str("10.0.0.0/99".to_string())).unwrap_err(),
        ConfigError::InvalidValue
    );
}

#[test]
fn geoip_codes() {
    let us = as_iso_country_code(&key("US")).unwrap();
    assert_eq!((us.alpha2_0, us.alpha2_1), (b'U', b'S'));
    assert_eq!(as_iso_country_code(&key("usa")).unwrap_err(), ConfigError::InvalidValue);
    assert_eq!(as_iso_country_code(&YamlValue::Int(1)).unwrap_err(), ConfigError::InvalidValueType);

    assert_eq!(as_continent_code(&key("EU")).unwrap(), ContinentCode::Europe);
    assert_eq!(as_continent_code(&key("NA")).unwrap(), ContinentCode::NorthAmerica);
    assert_eq!(as_continent_code(&key("XX")).unwrap_err(), ConfigError::InvalidValue);
}

#[test]
fn geoip_location_record() {
    let node = YamlValue::Hash(vec![
        (key("network"), YamlValue::Str("10.0.0.0/8".to_string())),
        (key("country"), YamlValue::Str("US".to_string())),
        (key("continent"), YamlValue::Str("NA".to_string())),
        (key("asn"), YamlValue::Int(64500)),
        (key("isp_name"), YamlValue::Str("ExampleNet".to_string())),
    ]);
    let loc = as_ip_location(&node).unwrap();
    assert_eq!(loc.network.prefix, 8);
    assert_eq!(loc.as_number, Some(64500));
    assert_eq!(loc.isp_name.as_deref(), Some("ExampleNet"));
    assert!(loc.isp_domain.is_none());
}

#[test]
fn geoip_location_needs_network() {
    let node = YamlValue::Hash(vec![(key("country"), YamlValue::Str("US".to_string()))]);
    assert_eq!(as_ip_location(&node).unwrap_err(), ConfigError::MissingField);
}

#[test]
fn ip_locate_defaults_and_setters() {
    let mut cfg = IpLocationServiceConfig::default();
    assert_eq!(cfg.cache_request_batch_count, 10);
    assert_eq!(cfg.cache_request_timeout, DurationMillis { millis: 800 });
    assert_eq!(cfg.query_peer_addr, SocketAddr { ip: IpAddr::V4(0x7f000001), port: 2888 });
    assert_eq!(cfg.query_wait_timeout, DurationMillis { millis: 400 });
    assert_eq!(cfg.default_expire_ttl, 10);
    assert_eq!(cfg.maximum_expire_ttl, 300);

    cfg.set_cache_request_batch_count(20);
    cfg.set_cache_request_timeout(DurationMillis { millis: 1000 });
    cfg.set_query_peer_addr(SocketAddr { ip: IpAddr::V4(0x0a000001), port: 3000 });
    cfg.set_query_wait_timeout(DurationMillis { millis: 500 });
    cfg.set_default_expire_ttl(60);
    cfg.set_maximum_expire_ttl(600);
    assert_eq!(cfg.cache_request_batch_count, 20);
    assert_eq!(cfg.cache_request_timeout, DurationMillis { millis: 1000 });
    assert_eq!(cfg.query_peer_addr.port, 3000);
    assert_eq!(cfg.query_wait_timeout, DurationMillis { millis: 500 });
    assert_eq!(cfg.default_expire_ttl, 60);
    assert_eq!(cfg.maximum_expire_ttl, 600);
}

#[test]
fn runtime_config_parses() {
    let node = YamlValue::Hash(vec![
        (key("thread_number"), YamlValue::Int(4)),
        (key("thread_stack_size"), YamlValue::Int(1048576)),
        (
            key("sched_affinity"),
            YamlValue::Hash(vec![
                (YamlValue::Int(0), YamlValue::Array(vec![YamlValue::Int(0), YamlValue::Int(1)])),
                (YamlValue::Int(1), YamlValue::Array(vec![YamlValue::Int(2)])),
            ]),
        ),
        (key("max_io_events_per_tick"), YamlValue::Int(512)),
    ]);
    let cfg = UnaidedRuntimeConfig::parse_yaml(&node).unwrap();
    assert_eq!(cfg.thread_number, Some(4));
    assert_eq!(cfg.thread_stack_size, Some(1048576));
    assert_eq!(cfg.sched_affinity.len(), 2);
    assert_eq!(cfg.sched_affinity[0], (0, vec![0, 1]));
    assert_eq!(cfg.max_io_events_per_tick, Some(512));
    assert!(!cfg.mapped_sched_affinity);
}

#[test]
fn runtime_config_humanized_stack_size() {
    let node = YamlValue::Hash(vec![(key("thread_stack_size"), YamlValue::Str("2M".to_string()))]);
    let cfg = UnaidedRuntimeConfig::parse_yaml(&node).unwrap();
    assert_eq!(cfg.thread_stack_size, Some(2 * 1048576));
    let node = YamlValue::Hash(vec![(key("thread_stack_size"), YamlValue::Str("64K".to_string()))]);
    let cfg = UnaidedRuntimeConfig::parse_yaml(&node).unwrap();
    assert_eq!(cfg.thread_stack_size, Some(64 * 1024));
    let node = YamlValue::Hash(vec![(key("thread_stack_size"), YamlValue::Str("1G".to_string()))]);
    let cfg = UnaidedRuntimeConfig::parse_yaml(&node).unwrap();
    assert_eq!(cfg.thread_stack_size, Some(1073741824));
    let node = YamlValue::Hash(vec![(key("thread_stack_size"), YamlValue::Str("x1M".to_string()))]);
    assert_eq!(UnaidedRuntimeConfig::parse_yaml(&node).unwrap_err(), ConfigError::InvalidValue);
}

#[test]
fn runtime_config_mapped_affinity() {
    let node = YamlValue::Hash(vec![(key("sched_affinity"), YamlValue::Bool(true))]);
    let cfg = UnaidedRuntimeConfig::parse_yaml(&node).unwrap();
    assert!(cfg.mapped_sched_affinity);
}

#[test]
fn runtime_config_rejects() {
    assert_eq!(
        UnaidedRuntimeConfig::parse_yaml(&YamlValue::Int(1)).unwrap_err(),
        ConfigError::InvalidValueType
    );
    let node = YamlValue::Hash(vec![(key("bogus"), YamlValue::Int(1))]);
    assert_eq!(UnaidedRuntimeConfig::parse_yaml(&node).unwrap_err(), ConfigError::InvalidKey);
    let node = YamlValue::Hash(vec![(key("thread_number"), YamlValue::Int(-1))]);
    assert_eq!(UnaidedRuntimeConfig::parse_yaml(&node).unwrap_err(), ConfigError::OutOfRange);
}
