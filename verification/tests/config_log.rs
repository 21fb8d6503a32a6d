use g3_egress::log_config::{LogConfig, LogConfigDriver, DEFAULT_CHANNEL_SIZE};
use g3_egress::net::{IpAddr, SocketAddr};
use g3_egress::yaml::{ConfigError, YamlValue};

fn key(k: &str) -> YamlValue {
    YamlValue::Str(k.to_string())
}

#[test]
fn driver_names() {
    assert!(matches!(
        LogConfig::with_driver_name("discard", "daemon").unwrap().driver,
        LogConfigDriver::Discard
    ));
    assert!(matches!(
        LogConfig::with_driver_name("journal", "daemon").unwrap().driver,
        LogConfigDriver::Journal(_)
    ));
    assert!(matches!(
        LogConfig::with_driver_name("syslog", "daemon").unwrap().driver,
        LogConfigDriver::Syslog(_)
    ));
    assert!(matches!(
        LogConfig::with_driver_name("fluentd", "daemon").unwrap().driver,
        LogConfigDriver::Fluentd(_)
    ));
    assert!(matches!(
        LogConfig::with_driver_name("stdout", "daemon").unwrap().driver,
        LogConfigDriver::Stdout
    ));
    assert_eq!(
        LogConfig::with_driver_name("nowhere", "daemon").unwrap_err(),
        ConfigError::InvalidValue
    );
}

#[test]
fn defaults_are_set() {
    let cfg = LogConfig::new_discard("daemon");
    assert_eq!(cfg.async_channel_size, DEFAULT_CHANNEL_SIZE);
    assert_eq!(cfg.async_thread_number, 1);
    // The default sampling offset of ten gives a ten-bit mask.
    assert_eq!(cfg.io_err_sampling_mask, (1 << 10) - 1);
    assert_eq!(cfg.program_name, "daemon");
}

#[test]
fn parse_bare_driver_name() {
    let cfg = LogConfig::parse_yaml(&YamlValue::Str("syslog".to_string()), "daemon").unwrap();
    assert!(matches!(cfg.driver, LogConfigDriver::Syslog(_)));
}

#[test]
fn parse_hash_settings() {
    let node = YamlValue::Hash(vec![
        (key("syslog"), YamlValue::Null),
        (key("channel_size"), YamlValue::Int(128)),
        (key("thread_number"), YamlValue::Int(2)),
        (key("io_error_sampling_offset"), YamlValue::Int(3)),
    ]);
    let cfg = LogConfig::parse_yaml(&node, "daemon").unwrap();
    assert!(matches!(cfg.driver, LogConfigDriver::Syslog(_)));
    assert_eq!(cfg.async_channel_size, 128);
    assert_eq!(cfg.async_thread_number, 2);
    assert_eq!(cfg.io_err_sampling_mask, 7);
}

#[test]
fn sampling_offset_is_capped() {
    let node = YamlValue::Hash(vec![(key("io_error_sampling_offset"), YamlValue::Int(17))]);
    assert_eq!(LogConfig::parse_yaml(&node, "daemon").unwrap_err(), ConfigError::OutOfRange);
}

#[test]
fn fluentd_endpoint_from_hash() {
    let node = YamlValue::Hash(vec![(
        key("fluentd"),
        YamlValue::Hash(vec![
            (key("address"), YamlValue::Str("10.1.2.3".to_string())),
            (key("port"), YamlValue::Int(9999)),
        ]),
    )]);
    let cfg = LogConfig::parse_yaml(&node, "daemon").unwrap();
    match cfg.driver {
        LogConfigDriver::Fluentd(f) => {
            assert_eq!(f.server, SocketAddr { ip: IpAddr::V4(0x0a010203), port: 9999 })
        }
        other => panic!("unexpected driver: {other:?}"),
    }
}

#[test]
fn parse_rejects_other_nodes() {
    assert_eq!(
        LogConfig::parse_yaml(&YamlValue::Int(1), "daemon").unwrap_err(),
        ConfigError::InvalidValueType
    );
}
