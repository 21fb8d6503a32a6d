//! Reading network values out of msgpack data: the daemon's outer shell
//! turns a msgpack node into this plain model, and the verified readers
//! parse addresses and networks from it.

use vstd::prelude::*;

use crate::net::{
    is_ipv4_chars, is_ipv6_chars, ipv4_chars_value, ipv6_chars_groups, ipv6_pack, parse_ip,
    parse_ip_network, spec_parse_ip_network, IpAddr, IpNetwork,
};
use crate::yaml::ConfigError;

verus! {

/// One msgpack value node, as far as the network readers look at it.
#[derive(Debug)]
pub enum MsgValue {
    /// A UTF-8 string node.
    Str(String),
    /// A string node whose bytes are not UTF-8.
    BadStr,
    /// Any other node kind.
    Other,
}

/// Reads an IP address: the node must be a UTF-8 string holding address
/// text.
pub fn as_ipaddr(value: &MsgValue) -> (r: Result<IpAddr, ConfigError>)
    ensures
        r matches Ok(ip) ==> ((*value) matches MsgValue::Str(s) && (is_ipv4_chars(s@)
            || is_ipv6_chars(s@)) && ip == if is_ipv4_chars(s@) {
            IpAddr::V4(ipv4_chars_value(s@) as u32)
        } else {
            IpAddr::V6(ipv6_pack(ipv6_chars_groups(s@)) as u128)
        }),
        (*value) matches MsgValue::Str(s) ==> ((is_ipv4_chars(s@) || is_ipv6_chars(s@)) <==> r
            is Ok),
        (*value) matches MsgValue::Str(s) && !(is_ipv4_chars(s@) || is_ipv6_chars(s@)) ==> r
            == Err::<IpAddr, ConfigError>(ConfigError::InvalidValue),
        !((*value) is Str) ==> r == Err::<IpAddr, ConfigError>(ConfigError::InvalidValueType),
{
    match value {
        MsgValue::Str(s) => {
            match parse_ip(s.as_str()) {
                Some(ip) => Ok(ip),
                None => Err(ConfigError::InvalidValue),
            }
        },
        _ => Err(ConfigError::InvalidValueType),
    }
}

/// Reads an IP network: the node must be a UTF-8 string holding network
/// text; plain address text counts as the full-length network.
pub fn as_ip_network(value: &MsgValue) -> (r: Result<IpNetwork, ConfigError>)
    ensures
        r matches Ok(n) ==> ((*value) matches MsgValue::Str(s) && spec_parse_ip_network(s@)
            == Some(n)),
        (*value) matches MsgValue::Str(s) ==> (spec_parse_ip_network(s@) is Some <==> r is Ok),
        (*value) matches MsgValue::Str(s) && spec_parse_ip_network(s@) is None ==> r == Err::<
            IpNetwork,
            ConfigError,
        >(ConfigError::InvalidValue),
        !((*value) is Str) ==> r == Err::<IpNetwork, ConfigError>(ConfigError::InvalidValueType),
{
    match value {
        MsgValue::Str(s) => {
            match parse_ip_network(s.as_str()) {
                Some(n) => Ok(n),
                None => Err(ConfigError::InvalidValue),
            }
        },
        _ => Err(ConfigError::InvalidValueType),
    }
}

} // verus!
