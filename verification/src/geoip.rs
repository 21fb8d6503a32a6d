//! Geo IP values from configuration: ISO country codes, continent codes,
//! and whole IP location records.

use vstd::prelude::*;
use vstd::string::StrSliceExecFns;

use crate::net::{parse_ip_network, spec_parse_ip_network, IpNetwork};
use crate::text::key_matches;
use crate::yaml::{as_string, as_u32, ConfigError, YamlValue};

verus! {

broadcast use vstd::string::group_string_axioms;

pub open spec fn is_upper_alpha(c: char) -> bool {
    65 <= c as u32 <= 90
}

/// An ISO 3166 alpha-2 country code: two uppercase ASCII letters.
#[derive(Clone, Copy, PartialEq, Eq, Structural, Debug)]
pub struct IsoCountryCode {
    pub alpha2_0: u8,
    pub alpha2_1: u8,
}

impl IsoCountryCode {
    pub open spec fn wf(&self) -> bool {
        65 <= self.alpha2_0 <= 90 && 65 <= self.alpha2_1 <= 90
    }

    /// Parses a country code: exactly two uppercase ASCII letters.
    pub fn from_str(s: &str) -> (r: Option<IsoCountryCode>)
        ensures
            r is Some <==> s@.len() == 2 && is_upper_alpha(s@[0]) && is_upper_alpha(s@[1]),
            r matches Some(c) ==> c.wf() && c.alpha2_0 == s@[0] as u32 && c.alpha2_1 == s@[1]
                as u32,
    {
        if s.unicode_len() != 2 {
            return None;
        }
        let c0 = s.get_char(0) as u32;
        let c1 = s.get_char(1) as u32;
        if 65 <= c0 && c0 <= 90 && 65 <= c1 && c1 <= 90 {
            Some(IsoCountryCode { alpha2_0: c0 as u8, alpha2_1: c1 as u8 })
        } else {
            None
        }
    }
}

/// A continent code.
#[derive(Clone, Copy, PartialEq, Eq, Structural, Debug)]
pub enum ContinentCode {
    Africa,
    Antarctica,
    Asia,
    Europe,
    NorthAmerica,
    Oceania,
    SouthAmerica,
}

/// The continent a two-letter code denotes.
pub open spec fn spec_continent_of(s: Seq<char>) -> Option<ContinentCode> {
    if s.len() != 2 {
        Option::None
    } else if s[0] == 'A' && s[1] == 'F' {
        Option::Some(ContinentCode::Africa)
    } else if s[0] == 'A' && s[1] == 'N' {
        Option::Some(ContinentCode::Antarctica)
    } else if s[0] == 'A' && s[1] == 'S' {
        Option::Some(ContinentCode::Asia)
    } else if s[0] == 'E' && s[1] == 'U' {
        Option::Some(ContinentCode::Europe)
    } else if s[0] == 'N' && s[1] == 'A' {
        Option::Some(ContinentCode::NorthAmerica)
    } else if s[0] == 'O' && s[1] == 'C' {
        Option::Some(ContinentCode::Oceania)
    } else if s[0] == 'S' && s[1] == 'A' {
        Option::Some(ContinentCode::SouthAmerica)
    } else {
        Option::None
    }
}

impl ContinentCode {
    pub fn from_str(s: &str) -> (r: Option<ContinentCode>)
        ensures
            r == spec_continent_of(s@),
    {
        if s.unicode_len() != 2 {
            return None;
        }
        let c0 = s.get_char(0);
        let c1 = s.get_char(1);
        if c0 == 'A' && c1 == 'F' {
            Some(ContinentCode::Africa)
        } else if c0 == 'A' && c1 == 'N' {
            Some(ContinentCode::Antarctica)
        } else if c0 == 'A' && c1 == 'S' {
            Some(ContinentCode::Asia)
        } else if c0 == 'E' && c1 == 'U' {
            Some(ContinentCode::Europe)
        } else if c0 == 'N' && c1 == 'A' {
            Some(ContinentCode::NorthAmerica)
        } else if c0 == 'O' && c1 == 'C' {
            Some(ContinentCode::Oceania)
        } else if c0 == 'S' && c1 == 'A' {
            Some(ContinentCode::SouthAmerica)
        } else {
            None
        }
    }
}

/// Reads an ISO country code node.
pub fn as_iso_country_code(value: &YamlValue) -> (r: Result<IsoCountryCode, ConfigError>)
    ensures
        r matches Ok(c) ==> ((*value) matches YamlValue::Str(s) && s@.len() == 2 && is_upper_alpha(
            s@[0],
        ) && is_upper_alpha(s@[1]) && c.alpha2_0 == s@[0] as u32 && c.alpha2_1 == s@[1] as u32),
        (*value) matches YamlValue::Str(s) ==> (r is Ok <==> s@.len() == 2 && is_upper_alpha(s@[0])
            && is_upper_alpha(s@[1])),
        !((*value) is Str) ==> r == Err::<IsoCountryCode, ConfigError>(
            ConfigError::InvalidValueType,
        ),
{
    match value {
        YamlValue::Str(s) => {
            match IsoCountryCode::from_str(s.as_str()) {
                Some(c) => Ok(c),
                None => Err(ConfigError::InvalidValue),
            }
        },
        _ => Err(ConfigError::InvalidValueType),
    }
}

/// Reads a continent code node.
pub fn as_continent_code(value: &YamlValue) -> (r: Result<ContinentCode, ConfigError>)
    ensures
        r matches Ok(c) ==> ((*value) matches YamlValue::Str(s) && spec_continent_of(s@) == Some(
            c,
        )),
        (*value) matches YamlValue::Str(s) ==> (r is Ok <==> spec_continent_of(s@) is Some),
        !((*value) is Str) ==> r == Err::<ContinentCode, ConfigError>(
            ConfigError::InvalidValueType,
        ),
{
    match value {
        YamlValue::Str(s) => {
            match ContinentCode::from_str(s.as_str()) {
                Some(c) => Ok(c),
                None => Err(ConfigError::InvalidValue),
            }
        },
        _ => Err(ConfigError::InvalidValueType),
    }
}

/// The configuration keys a location record accepts.
pub open spec fn location_key_known(k: Seq<char>) -> bool {
    ||| k == "network"@
    ||| k == "net"@
    ||| k == "country"@
    ||| k == "continent"@
    ||| k == "as_number"@
    ||| k == "asn"@
    ||| k == "isp_name"@
    ||| k == "isp_domain"@
}

/// One IP location record: the network it covers, and whatever attributes
/// are known of it.
#[derive(Debug)]
pub struct IpLocation {
    pub network: IpNetwork,
    pub country: Option<IsoCountryCode>,
    pub continent: Option<ContinentCode>,
    pub as_number: Option<u32>,
    pub isp_name: Option<String>,
    pub isp_domain: Option<String>,
}

/// Collects location attributes until the record can be built.
#[derive(Debug)]
pub struct IpLocationBuilder {
    pub network: Option<IpNetwork>,
    pub country: Option<IsoCountryCode>,
    pub continent: Option<ContinentCode>,
    pub as_number: Option<u32>,
    pub isp_name: Option<String>,
    pub isp_domain: Option<String>,
}

impl Default for IpLocationBuilder {
    fn default() -> (r: IpLocationBuilder)
        ensures
            r.network is None,
            r.country is None,
            r.continent is None,
            r.as_number is None,
            r.isp_name is None,
            r.isp_domain is None,
    {
        IpLocationBuilder {
            network: None,
            country: None,
            continent: None,
            as_number: None,
            isp_name: None,
            isp_domain: None,
        }
    }
}

impl IpLocationBuilder {
    pub fn set_network(&mut self, net: IpNetwork)
        ensures
            final(self).network == Some(net),
            final(self).country == old(self).country,
            final(self).continent == old(self).continent,
            final(self).as_number == old(self).as_number,
            final(self).isp_name == old(self).isp_name,
            final(self).isp_domain == old(self).isp_domain,
    {
        self.network = Some(net);
    }

    pub fn set_country(&mut self, country: IsoCountryCode)
        ensures
            final(self).country == Some(country),
            final(self).network == old(self).network,
            final(self).continent == old(self).continent,
            final(self).as_number == old(self).as_number,
            final(self).isp_name == old(self).isp_name,
            final(self).isp_domain == old(self).isp_domain,
    {
        self.country = Some(country);
    }

    pub fn set_continent(&mut self, continent: ContinentCode)
        ensures
            final(self).continent == Some(continent),
            final(self).network == old(self).network,
            final(self).country == old(self).country,
            final(self).as_number == old(self).as_number,
            final(self).isp_name == old(self).isp_name,
            final(self).isp_domain == old(self).isp_domain,
    {
        self.continent = Some(continent);
    }

    pub fn set_as_number(&mut self, asn: u32)
        ensures
            final(self).as_number == Some(asn),
            final(self).network == old(self).network,
            final(self).country == old(self).country,
            final(self).continent == old(self).continent,
            final(self).isp_name == old(self).isp_name,
            final(self).isp_domain == old(self).isp_domain,
    {
        self.as_number = Some(asn);
    }

    pub fn set_isp_name(&mut self, name: String)
        ensures
            final(self).isp_name matches Some(n) && n@ == name@,
            final(self).network == old(self).network,
            final(self).country == old(self).country,
            final(self).continent == old(self).continent,
            final(self).as_number == old(self).as_number,
            final(self).isp_domain == old(self).isp_domain,
    {
        self.isp_name = Some(name);
    }

    pub fn set_isp_domain(&mut self, domain: String)
        ensures
            final(self).isp_domain matches Some(d) && d@ == domain@,
            final(self).network == old(self).network,
            final(self).country == old(self).country,
            final(self).continent == old(self).continent,
            final(self).as_number == old(self).as_number,
            final(self).isp_name == old(self).isp_name,
    {
        self.isp_domain = Some(domain);
    }

    /// Builds the record; fails exactly when no network was set.
    pub fn build(self) -> (r: Result<IpLocation, ConfigError>)
        ensures
            r is Ok <==> self.network is Some,
            r matches Ok(loc) ==> self.network == Some(loc.network) && loc.country == self.country
                && loc.continent == self.continent && loc.as_number == self.as_number
                && loc.isp_name == self.isp_name && loc.isp_domain == self.isp_domain,
            r matches Err(e) ==> e == ConfigError::MissingField,
    {
        match self.network {
            Some(network) => Ok(
                IpLocation {
                    network,
                    country: self.country,
                    continent: self.continent,
                    as_number: self.as_number,
                    isp_name: self.isp_name,
                    isp_domain: self.isp_domain,
                },
            ),
            None => Err(ConfigError::MissingField),
        }
    }
}

/// Reads one IP location record from a configuration hash.
pub fn as_ip_location(value: &YamlValue) -> (r: Result<IpLocation, ConfigError>)
    ensures
        !((*value) is Hash) ==> r == Err::<IpLocation, ConfigError>(ConfigError::InvalidValueType),
        r matches Ok(loc) ==> (*value) is Hash && loc.network.wf(),
        // Success owes that every entry used a recognized string key;
        // contrapositively an unknown or non-string key ends in an error.
        (*value) is Hash && r is Ok ==> ((*value) matches YamlValue::Hash(entries) && (forall|
            i: int,
        |
            0 <= i < entries@.len() ==> ((#[trigger] entries@[i]).0 matches YamlValue::Str(ks)
                && location_key_known(crate::text::norm_key(ks@))))),
{
    match value {
        YamlValue::Hash(entries) => {
            let mut builder = IpLocationBuilder::default();
            let mut i: usize = 0;
            while i < entries.len()
                invariant
                    i <= entries@.len(),
                    (*value) matches YamlValue::Hash(es) && es@ == entries@,
                    builder.network matches Some(n) ==> n.wf(),
                    forall|j: int|
                        0 <= j < i ==> ((#[trigger] entries@[j]).0 matches YamlValue::Str(ks)
                            && location_key_known(crate::text::norm_key(ks@))),
                decreases entries@.len() - i,
            {
                let (k, v) = &entries[i];
                match k {
                    YamlValue::Str(ks) => {
                        if key_matches(ks.as_str(), "network") || key_matches(ks.as_str(), "net") {
                            let text = as_string(v)?;
                            match parse_ip_network(text.as_str()) {
                                Some(net) => {
                                    proof {
                                        crate::net::lemma_spec_parse_ip_network_wf(text@);
                                    }
                                    builder.set_network(net);
                                },
                                None => {
                                    return Err(ConfigError::InvalidValue);
                                },
                            }
                        } else if key_matches(ks.as_str(), "country") {
                            let country = as_iso_country_code(v)?;
                            builder.set_country(country);
                        } else if key_matches(ks.as_str(), "continent") {
                            let continent = as_continent_code(v)?;
                            builder.set_continent(continent);
                        } else if key_matches(ks.as_str(), "as_number") || key_matches(
                            ks.as_str(),
                            "asn",
                        ) {
                            let asn = as_u32(v)?;
                            builder.set_as_number(asn);
                        } else if key_matches(ks.as_str(), "isp_name") {
                            let name = as_string(v)?;
                            builder.set_isp_name(name);
                        } else if key_matches(ks.as_str(), "isp_domain") {
                            let domain = as_string(v)?;
                            builder.set_isp_domain(domain);
                        } else {
                            return Err(ConfigError::InvalidKey);
                        }
                    },
                    _ => {
                        return Err(ConfigError::InvalidValueType);
                    },
                }
                i = i + 1;
            }
            builder.build()
        },
        _ => Err(ConfigError::InvalidValueType),
    }
}

} // verus!
