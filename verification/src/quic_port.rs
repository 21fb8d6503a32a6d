//! Configuration of a plain QUIC port server: the listen endpoint, the TLS
//! server material for QUIC, an optional ingress network filter, and the
//! name of the server the port forwards to.

use vstd::prelude::*;
use vstd::string::StrSliceExecFns;

use crate::net::{spec_parse_ip_network, parse_ip_network, parse_ip, IpAddr, IpNetwork, SocketAddr};
use crate::text::{key_matches, norm_key};
use crate::types::MetricsName;
use crate::yaml::{as_bool, as_metrics_name, as_string, as_u16, ConfigError, YamlValue};

verus! {

broadcast use vstd::string::group_string_axioms;

/// Where in its document a configuration block stood.
#[derive(Clone, Copy, PartialEq, Eq, Structural, Debug)]
pub struct YamlDocPosition {
    pub index: usize,
}

/// A UDP listen endpoint.
#[derive(Clone, Copy, PartialEq, Eq, Structural, Debug)]
pub struct UdpListenConfig {
    pub address: SocketAddr,
}

impl Default for UdpListenConfig {
    fn default() -> (r: UdpListenConfig)
        ensures
            r.address.ip == IpAddr::V4(0),
            r.address.port == 0,
    {
        UdpListenConfig { address: SocketAddr { ip: IpAddr::V4(0), port: 0 } }
    }
}

impl UdpListenConfig {
    /// A listen endpoint is usable once a port is set.
    pub fn check(&self) -> (r: Result<(), ConfigError>)
        ensures
            r is Ok <==> self.address.port != 0,
            r matches Err(e) ==> e == ConfigError::MissingField,
    {
        if self.address.port != 0 {
            Ok(())
        } else {
            Err(ConfigError::MissingField)
        }
    }
}

/// Reads a listen endpoint: a bare port number listens on the wildcard
/// address; a hash gives `address` (IP text) and `port`.
pub fn as_udp_listen_config(v: &YamlValue) -> (r: Result<UdpListenConfig, ConfigError>)
    ensures
        (*v) matches YamlValue::Int(p) ==> ((1 <= p <= u16::MAX) ==> (r matches Ok(c) && c.address
            == (SocketAddr { ip: IpAddr::V4(0), port: p as u16 }))),
        (*v) matches YamlValue::Int(p) ==> (r is Ok <==> 1 <= p <= u16::MAX),
        !((*v) is Int || (*v) is Hash) ==> r == Err::<UdpListenConfig, ConfigError>(
            ConfigError::InvalidValueType,
        ),
        r matches Ok(c) ==> c.address.port != 0,
{
    match v {
        YamlValue::Int(_) => {
            let port = as_u16(v)?;
            if port == 0 {
                return Err(ConfigError::InvalidValue);
            }
            Ok(UdpListenConfig { address: SocketAddr { ip: IpAddr::V4(0), port } })
        },
        YamlValue::Hash(entries) => {
            let mut ip: Option<IpAddr> = None;
            let mut port: u16 = 0;
            let mut i: usize = 0;
            while i < entries.len()
                invariant
                    i <= entries@.len(),
                    (*v) is Hash,
                decreases entries@.len() - i,
            {
                let (k, val) = &entries[i];
                match k {
                    YamlValue::Str(ks) => {
                        if key_matches(ks.as_str(), "address") {
                            let text = as_string(val)?;
                            match parse_ip(text.as_str()) {
                                Some(a) => {
                                    ip = Some(a);
                                },
                                None => {
                                    return Err(ConfigError::InvalidValue);
                                },
                            }
                        } else if key_matches(ks.as_str(), "port") {
                            port = as_u16(val)?;
                        } else {
                            return Err(ConfigError::InvalidKey);
                        }
                    },
                    _ => {
                        return Err(ConfigError::InvalidValueType);
                    },
                }
                i = i + 1;
            }
            if port == 0 {
                return Err(ConfigError::InvalidValue);
            }
            let address = match ip {
                Some(a) => SocketAddr { ip: a, port },
                None => SocketAddr { ip: IpAddr::V4(0), port },
            };
            Ok(UdpListenConfig { address })
        },
        _ => Err(ConfigError::InvalidValueType),
    }
}

/// One certificate chain and its private key, as opaque bytes.
#[derive(Debug)]
pub struct CertKeyPair {
    pub certificate: Vec<u8>,
    pub private_key: Vec<u8>,
}

/// TLS server material for the QUIC listener.
#[derive(Debug)]
pub struct RustlsServerConfigBuilder {
    pub cert_pairs: Vec<CertKeyPair>,
}

impl RustlsServerConfigBuilder {
    pub fn empty() -> (r: RustlsServerConfigBuilder)
        ensures
            r.cert_pairs@.len() == 0,
    {
        RustlsServerConfigBuilder { cert_pairs: Vec::new() }
    }

    /// Usable once at least one non-empty certificate and key pair is set.
    pub fn check(&self) -> (r: Result<(), ConfigError>)
        ensures
            r is Ok <==> self.cert_pairs@.len() > 0 && forall|i: int|
                0 <= i < self.cert_pairs@.len() ==> (#[trigger] self.cert_pairs@[i]).certificate@.len()
                    > 0 && self.cert_pairs@[i].private_key@.len() > 0,
    {
        if self.cert_pairs.len() == 0 {
            return Err(ConfigError::MissingField);
        }
        let mut i: usize = 0;
        while i < self.cert_pairs.len()
            invariant
                i <= self.cert_pairs@.len(),
                forall|j: int|
                    0 <= j < i ==> (#[trigger] self.cert_pairs@[j]).certificate@.len() > 0
                        && self.cert_pairs@[j].private_key@.len() > 0,
            decreases self.cert_pairs@.len() - i,
        {
            if self.cert_pairs[i].certificate.len() == 0 || self.cert_pairs[i].private_key.len()
                == 0 {
                return Err(ConfigError::InvalidValue);
            }
            i = i + 1;
        }
        Ok(())
    }
}

/// Reads TLS server material: a hash with `cert` and `key` text, carried as
/// bytes.
pub fn as_rustls_server_config_builder(v: &YamlValue) -> (r: Result<
    RustlsServerConfigBuilder,
    ConfigError,
>)
    ensures
        r matches Ok(b) ==> b.cert_pairs@.len() == 1,
        !(*v is Hash) ==> r == Err::<RustlsServerConfigBuilder, ConfigError>(
            ConfigError::InvalidValueType,
        ),
{
    match v {
        YamlValue::Hash(entries) => {
            let mut cert: Option<String> = None;
            let mut key: Option<String> = None;
            let mut i: usize = 0;
            while i < entries.len()
                invariant
                    i <= entries@.len(),
                    *v is Hash,
                decreases entries@.len() - i,
            {
                let (k, val) = &entries[i];
                match k {
                    YamlValue::Str(ks) => {
                        if key_matches(ks.as_str(), "cert") {
                            cert = Some(as_string(val)?);
                        } else if key_matches(ks.as_str(), "key") {
                            key = Some(as_string(val)?);
                        } else {
                            return Err(ConfigError::InvalidKey);
                        }
                    },
                    _ => {
                        return Err(ConfigError::InvalidValueType);
                    },
                }
                i = i + 1;
            }
            match (cert, key) {
                (Some(c), Some(k)) => {
                    let certificate = c.as_str().as_bytes_vec();
                    let private_key = k.as_str().as_bytes_vec();
                    let mut cert_pairs: Vec<CertKeyPair> = Vec::new();
                    cert_pairs.push(CertKeyPair { certificate, private_key });
                    Ok(RustlsServerConfigBuilder { cert_pairs })
                },
                _ => Err(ConfigError::MissingField),
            }
        },
        _ => Err(ConfigError::InvalidValueType),
    }
}

/// An ingress network filter: networks to permit.
#[derive(Debug)]
pub struct AclNetworkRuleBuilder {
    pub permit: Vec<IpNetwork>,
}

/// The array entry `item` is network text denoting `net`.
pub open spec fn acl_entry_ok(item: YamlValue, net: IpNetwork) -> bool {
    item matches YamlValue::Str(s) && spec_parse_ip_network(s@) == Some(net)
}

/// Reads an ingress filter: an array of network text entries, each permitted.
pub fn as_ingress_network_rule_builder(v: &YamlValue) -> (r: Result<
    AclNetworkRuleBuilder,
    ConfigError,
>)
    ensures
        r matches Ok(b) ==> ((*v) matches YamlValue::Array(items) && b.permit@.len()
            == items@.len() && (forall|i: int|
            0 <= i < items@.len() ==> acl_entry_ok(items@[i], #[trigger] b.permit@[i]))),
        !(*v is Array) ==> r == Err::<AclNetworkRuleBuilder, ConfigError>(
            ConfigError::InvalidValueType,
        ),
{
    match v {
        YamlValue::Array(items) => {
            let mut permit: Vec<IpNetwork> = Vec::new();
            let mut i: usize = 0;
            while i < items.len()
                invariant
                    i <= items@.len(),
                    (*v) matches YamlValue::Array(its) && its@ == items@,
                    permit@.len() == i,
                    forall|j: int| 0 <= j < i ==> acl_entry_ok(items@[j], #[trigger] permit@[j]),
                decreases items@.len() - i,
            {
                match &items[i] {
                    YamlValue::Str(s) => {
                        match parse_ip_network(s.as_str()) {
                            Some(n) => {
                                let ghost p0 = permit@;
                                proof {
                                    assert(items@[i as int] == YamlValue::Str(*s));
                                }
                                permit.push(n);
                                proof {
                                    assert forall|j: int|
                                        0 <= j < i + 1 implies acl_entry_ok(
                                        items@[j],
                                        #[trigger] permit@[j],
                                    ) by {
                                        if j < i {
                                            assert(permit@[j] == p0[j]);
                                            assert(acl_entry_ok(items@[j], p0[j]));
                                        } else {
                                            assert(permit@[j] == n);
                                        }
                                    }
                                }
                            },
                            None => {
                                return Err(ConfigError::InvalidValue);
                            },
                        }
                    },
                    _ => {
                        return Err(ConfigError::InvalidValueType);
                    },
                }
                i = i + 1;
            }
            Ok(AclNetworkRuleBuilder { permit })
        },
        _ => Err(ConfigError::InvalidValueType),
    }
}

/// What a configuration reload must do with a changed server block.
#[derive(Clone, Copy, PartialEq, Eq, Structural, Debug)]
pub enum ServerConfigDiffAction {
    NoAction,
    SpawnNew,
    UpdateInPlace(u64),
}

/// Reload flag: the listen endpoint changed.
pub const PLAIN_QUIC_PORT_UPDATE_LISTEN: u64 = 0b0001;

/// Reload flag: the QUIC TLS server material changed.
pub const PLAIN_QUIC_PORT_UPDATE_QUINN: u64 = 0b0010;

/// The configuration keys a plain QUIC port block accepts.
pub open spec fn quic_key_known(k: Seq<char>) -> bool {
    ||| k == "type"@
    ||| k == "name"@
    ||| k == "listen"@
    ||| k == "listen_in_worker"@
    ||| k == "quic_server"@
    ||| k == "ingress_network_filter"@
    ||| k == "ingress_net_filter"@
    ||| k == "server"@
}

/// Any server block a reload may compare against.
#[derive(Debug)]
pub enum AnyServerConfig {
    PlainQuicPort(PlainQuicPortConfig),
    Other,
}

/// The configuration of one plain QUIC port.
#[derive(Debug)]
pub struct PlainQuicPortConfig {
    pub name: MetricsName,
    pub position: Option<YamlDocPosition>,
    pub listen: UdpListenConfig,
    pub listen_in_worker: bool,
    pub tls_server: RustlsServerConfigBuilder,
    pub ingress_net_filter: Option<AclNetworkRuleBuilder>,
    pub server: MetricsName,
}

impl PlainQuicPortConfig {
    /// A fresh block: everything empty or default, ready for `set` calls.
    pub fn new(position: Option<YamlDocPosition>) -> (r: PlainQuicPortConfig)
        ensures
            r.name.name@.len() == 0,
            r.position == position,
            r.listen.address == (SocketAddr { ip: IpAddr::V4(0), port: 0 }),
            !r.listen_in_worker,
            r.tls_server.cert_pairs@.len() == 0,
            r.ingress_net_filter is None,
            r.server.name@.len() == 0,
    {
        PlainQuicPortConfig {
            name: MetricsName::empty(),
            position,
            listen: UdpListenConfig::default(),
            listen_in_worker: false,
            tls_server: RustlsServerConfigBuilder::empty(),
            ingress_net_filter: None,
            server: MetricsName::empty(),
        }
    }

    /// Applies one configuration key.
    pub fn set(&mut self, k: &str, v: &YamlValue) -> (r: Result<(), ConfigError>)
        ensures
            final(self).position == old(self).position,
            // A rejected entry leaves the block untouched; an accepted one
            // assigns exactly the matched field.
            r is Err ==> *final(self) == *old(self),
            r is Ok ==> quic_key_known(norm_key(k@)),
            norm_key(k@) == "type"@ ==> r is Ok && *final(self) == *old(self),
            norm_key(k@) == "name"@ && r is Ok ==> ((*v) matches YamlValue::Str(t) && final(self).name.name@ == t@ && t@.len() > 0) && *final(self) == (PlainQuicPortConfig {
                name: final(self).name,
                ..*old(self)
            }),
            norm_key(k@) == "listen"@ && r is Ok ==> final(self).listen.address.port != 0 && *final(self) == (PlainQuicPortConfig { listen: final(self).listen, ..*old(self) }),
            norm_key(k@) == "listen_in_worker"@ ==> (r is Ok <==> *v is Bool) && (r is Ok
                ==> ((*v) matches YamlValue::Bool(b) && final(self).listen_in_worker == b)
                && *final(self) == (PlainQuicPortConfig {
                listen_in_worker: final(self).listen_in_worker,
                ..*old(self)
            })),
            norm_key(k@) == "quic_server"@ && r is Ok ==> final(self).tls_server.cert_pairs@.len()
                == 1 && *final(self) == (PlainQuicPortConfig {
                tls_server: final(self).tls_server,
                ..*old(self)
            }),
            (norm_key(k@) == "ingress_network_filter"@ || norm_key(k@) == "ingress_net_filter"@)
                && r is Ok ==> final(self).ingress_net_filter is Some && *final(self)
                == (PlainQuicPortConfig {
                ingress_net_filter: final(self).ingress_net_filter,
                ..*old(self)
            }),
            norm_key(k@) == "server"@ && r is Ok ==> ((*v) matches YamlValue::Str(t) && final(self).server.name@ == t@ && t@.len() > 0) && *final(self) == (PlainQuicPortConfig {
                server: final(self).server,
                ..*old(self)
            }),
            !(norm_key(k@) == "type"@ || norm_key(k@) == "name"@ || norm_key(k@) == "listen"@
                || norm_key(k@) == "listen_in_worker"@ || norm_key(k@) == "quic_server"@
                || norm_key(k@) == "ingress_network_filter"@ || norm_key(k@)
                == "ingress_net_filter"@ || norm_key(k@) == "server"@) ==> r == Err::<
                (),
                ConfigError,
            >(ConfigError::InvalidKey),
    {
        proof {
            reveal_strlit("type");
            reveal_strlit("name");
            reveal_strlit("listen");
            reveal_strlit("listen_in_worker");
            reveal_strlit("quic_server");
            reveal_strlit("ingress_network_filter");
            reveal_strlit("ingress_net_filter");
            reveal_strlit("server");
            assert("type"@.len() == 4);
            assert("name"@.len() == 4);
            assert("listen"@.len() == 6);
            assert("listen_in_worker"@.len() == 16);
            assert("quic_server"@.len() == 11);
            assert("ingress_network_filter"@.len() == 22);
            assert("ingress_net_filter"@.len() == 18);
            assert("server"@.len() == 6);
            assert("type"@[0] == 't' && "name"@[0] == 'n');
            assert("listen"@[0] == 'l' && "server"@[0] == 's');
        }
        if key_matches(k, "type") {
            Ok(())
        } else if key_matches(k, "name") {
            self.name = as_metrics_name(v)?;
            Ok(())
        } else if key_matches(k, "listen") {
            self.listen = as_udp_listen_config(v)?;
            Ok(())
        } else if key_matches(k, "listen_in_worker") {
            self.listen_in_worker = as_bool(v)?;
            Ok(())
        } else if key_matches(k, "quic_server") {
            self.tls_server = as_rustls_server_config_builder(v)?;
            Ok(())
        } else if key_matches(k, "ingress_network_filter") || key_matches(k, "ingress_net_filter") {
            let filter = as_ingress_network_rule_builder(v)?;
            self.ingress_net_filter = Some(filter);
            Ok(())
        } else if key_matches(k, "server") {
            self.server = as_metrics_name(v)?;
            Ok(())
        } else {
            Err(ConfigError::InvalidKey)
        }
    }

    /// A block is complete when it is named, names its server, and its
    /// listen endpoint and TLS material pass their own checks.
    pub fn check(&self) -> (r: Result<(), ConfigError>)
        ensures
            r is Ok <==> self.name.name@.len() > 0 && self.server.name@.len() > 0
                && self.listen.address.port != 0 && self.tls_server.cert_pairs@.len() > 0 && (
            forall|i: int|
                0 <= i < self.tls_server.cert_pairs@.len() ==> (
                #[trigger] self.tls_server.cert_pairs@[i]).certificate@.len() > 0
                    && self.tls_server.cert_pairs@[i].private_key@.len() > 0),
    {
        if self.name.is_empty() {
            return Err(ConfigError::MissingField);
        }
        if self.server.is_empty() {
            return Err(ConfigError::MissingField);
        }
        self.listen.check()?;
        self.tls_server.check()?;
        Ok(())
    }

    /// Builds a block from a configuration hash: applies every entry, then
    /// checks completeness.
    pub fn parse(entries: &Vec<(YamlValue, YamlValue)>, position: Option<YamlDocPosition>) -> (r:
        Result<PlainQuicPortConfig, ConfigError>)
        ensures
            r matches Ok(c) ==> c.position == position && c.name.name@.len() > 0
                && c.server.name@.len() > 0 && c.listen.address.port != 0
                && c.tls_server.cert_pairs@.len() > 0,
            // Success owes that every entry used a string key the block
            // recognizes; contrapositively, any unknown key or non-string
            // key ends in an error.
            r is Ok ==> forall|i: int|
                0 <= i < entries@.len() ==> ((#[trigger] entries@[i]).0 matches YamlValue::Str(ks)
                    && quic_key_known(norm_key(ks@))),
    {
        let mut server = PlainQuicPortConfig::new(position);
        let mut i: usize = 0;
        while i < entries.len()
            invariant
                i <= entries@.len(),
                server.position == position,
                forall|j: int|
                    0 <= j < i ==> ((#[trigger] entries@[j]).0 matches YamlValue::Str(ks)
                        && quic_key_known(norm_key(ks@))),
            decreases entries@.len() - i,
        {
            let (k, v) = &entries[i];
            match k {
                YamlValue::Str(ks) => {
                    let ghost before = server;
                    server.set(ks.as_str(), v)?;
                },
                _ => {
                    return Err(ConfigError::InvalidValueType);
                },
            }
            i = i + 1;
        }
        server.check()?;
        Ok(server)
    }

    pub fn name(&self) -> (r: &MetricsName)
        ensures
            r == &self.name,
    {
        &self.name
    }

    pub fn position(&self) -> (r: Option<YamlDocPosition>)
        ensures
            r == self.position,
    {
        self.position
    }

    pub fn server_type(&self) -> (r: &'static str)
        ensures
            r@ == "PlainQuicPort"@,
    {
        "PlainQuicPort"
    }

    pub fn escaper(&self) -> (r: MetricsName)
        ensures
            r.name@.len() == 0,
    {
        MetricsName::empty()
    }

    pub fn user_group(&self) -> (r: MetricsName)
        ensures
            r.name@.len() == 0,
    {
        MetricsName::empty()
    }

    pub fn auditor(&self) -> (r: MetricsName)
        ensures
            r.name@.len() == 0,
    {
        MetricsName::empty()
    }

    /// Structural equality of two blocks.
    pub open spec fn spec_same(&self, o: &PlainQuicPortConfig) -> bool {
        &&& self.name.name@ == o.name.name@
        &&& self.position == o.position
        &&& self.listen == o.listen
        &&& self.listen_in_worker == o.listen_in_worker
        &&& self.spec_same_tls(o)
        &&& self.spec_same_filter(o)
        &&& self.server.name@ == o.server.name@
    }

    pub open spec fn spec_same_tls(&self, o: &PlainQuicPortConfig) -> bool {
        self.tls_server.cert_pairs@.len() == o.tls_server.cert_pairs@.len() && forall|i: int|
            0 <= i < self.tls_server.cert_pairs@.len() ==> (
            #[trigger] self.tls_server.cert_pairs@[i]).certificate@
                == o.tls_server.cert_pairs@[i].certificate@
                && self.tls_server.cert_pairs@[i].private_key@
                == o.tls_server.cert_pairs@[i].private_key@
    }

    pub open spec fn spec_same_filter(&self, o: &PlainQuicPortConfig) -> bool {
        match (&self.ingress_net_filter, &o.ingress_net_filter) {
            (Option::None, Option::None) => true,
            (Option::Some(a), Option::Some(b)) => a.permit@ == b.permit@,
            _ => false,
        }
    }

    fn same_tls(&self, o: &PlainQuicPortConfig) -> (r: bool)
        ensures
            r == self.spec_same_tls(o),
    {
        if self.tls_server.cert_pairs.len() != o.tls_server.cert_pairs.len() {
            return false;
        }
        let n = self.tls_server.cert_pairs.len();
        let mut i: usize = 0;
        while i < n
            invariant
                i <= n,
                n == self.tls_server.cert_pairs@.len(),
                n == o.tls_server.cert_pairs@.len(),
                forall|j: int|
                    0 <= j < i ==> (#[trigger] self.tls_server.cert_pairs@[j]).certificate@
                        == o.tls_server.cert_pairs@[j].certificate@
                        && self.tls_server.cert_pairs@[j].private_key@
                        == o.tls_server.cert_pairs@[j].private_key@,
            decreases n - i,
        {
            if !bytes_eq(&self.tls_server.cert_pairs[i].certificate, &o.tls_server.cert_pairs[i].certificate) {
                return false;
            }
            if !bytes_eq(&self.tls_server.cert_pairs[i].private_key, &o.tls_server.cert_pairs[i].private_key) {
                return false;
            }
            i = i + 1;
        }
        true
    }

    fn same_filter(&self, o: &PlainQuicPortConfig) -> (r: bool)
        ensures
            r == self.spec_same_filter(o),
    {
        match (&self.ingress_net_filter, &o.ingress_net_filter) {
            (None, None) => true,
            (Some(a), Some(b)) => {
                if a.permit.len() != b.permit.len() {
                    return false;
                }
                let n = a.permit.len();
                let mut i: usize = 0;
                while i < n
                    invariant
                        i <= n,
                        n == a.permit@.len(),
                        n == b.permit@.len(),
                        self.spec_same_filter(o) == (a.permit@ == b.permit@),
                        forall|j: int| 0 <= j < i ==> a.permit@[j] == b.permit@[j],
                    decreases n - i,
                {
                    if !(a.permit[i] == b.permit[i]) {
                        return false;
                    }
                    i = i + 1;
                }
                proof {
                    assert(a.permit@ =~= b.permit@);
                }
                true
            },
            _ => false,
        }
    }

    /// Structural equality, executable.
    pub fn same(&self, o: &PlainQuicPortConfig) -> (r: bool)
        ensures
            r == self.spec_same(o),
    {
        let pos_same = match (&self.position, &o.position) {
            (None, None) => true,
            (Some(a), Some(b)) => a.index == b.index,
            _ => false,
        };
        self.name.same(&o.name) && pos_same && self.listen == o.listen && self.listen_in_worker
            == o.listen_in_worker && self.same_tls(o) && self.same_filter(o) && self.server.same(
            &o.server,
        )
    }

    /// What a reload must do: an equal block needs nothing, a changed block
    /// updates in place with flags for what changed, and any other block
    /// kind spawns anew.
    pub fn diff_action(&self, new: &AnyServerConfig) -> (r: ServerConfigDiffAction)
        ensures
            !(*new is PlainQuicPort) ==> r == ServerConfigDiffAction::SpawnNew,
            (*new) matches AnyServerConfig::PlainQuicPort(c) ==> if self.spec_same(&c) {
                r == ServerConfigDiffAction::NoAction
            } else {
                r == ServerConfigDiffAction::UpdateInPlace(
                    (((if self.listen != c.listen {
                        PLAIN_QUIC_PORT_UPDATE_LISTEN
                    } else {
                        0
                    }) + (if !self.spec_same_tls(&c) {
                        PLAIN_QUIC_PORT_UPDATE_QUINN
                    } else {
                        0
                    })) as u64),
                )
            },
    {
        let new = match new {
            AnyServerConfig::PlainQuicPort(config) => config,
            _ => {
                return ServerConfigDiffAction::SpawnNew;
            },
        };

        if self.same(new) {
            return ServerConfigDiffAction::NoAction;
        }

        let mut flags: u64 = 0;
        if !(self.listen == new.listen) {
            flags = flags + PLAIN_QUIC_PORT_UPDATE_LISTEN;
        }
        if !self.same_tls(new) {
            flags = flags + PLAIN_QUIC_PORT_UPDATE_QUINN;
        }
        ServerConfigDiffAction::UpdateInPlace(flags)
    }

    /// The server this port depends on.
    pub fn dependent_server(&self) -> (r: Option<Vec<MetricsName>>)
        ensures
            r matches Some(v) && v@.len() == 1 && v@[0].name@ == self.server.name@,
    {
        let mut set: Vec<MetricsName> = Vec::new();
        set.push(self.server.clone());
        Some(set)
    }
}

/// Byte-wise equality of two byte strings.
pub fn bytes_eq(a: &Vec<u8>, b: &Vec<u8>) -> (r: bool)
    ensures
        r == (a@ == b@),
{
    if a.len() != b.len() {
        return false;
    }
    let n = a.len();
    let mut i: usize = 0;
    while i < n
        invariant
            i <= n,
            n == a@.len(),
            n == b@.len(),
            forall|j: int| 0 <= j < i ==> a@[j] == b@[j],
        decreases n - i,
    {
        if a[i] != b[i] {
            return false;
        }
        i = i + 1;
    }
    proof {
        assert(a@ =~= b@);
    }
    true
}

} // verus!
