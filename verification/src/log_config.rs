//! Logging configuration: which log driver a daemon uses and how its async
//! channel is sized. Building the actual log drain happens in the
//! unverified shell; everything decided from configuration text is here.

use vstd::prelude::*;
use vstd::string::StrSliceExecFns;

use crate::net::{IpAddr, SocketAddr};
use crate::text::{key_matches, norm_key, str_eq};
use crate::yaml::{as_usize, ConfigError, YamlValue};

verus! {

broadcast use vstd::string::group_string_axioms;

pub const DEFAULT_CHANNEL_SIZE: usize = 4096;

pub const IO_ERROR_SAMPLING_OFFSET_MAX: usize = 16;

pub const IO_ERROR_SAMPLING_OFFSET_DEFAULT: usize = 10;

/// The sampling mask for a sampling offset: the low `offset` bits set.
pub open spec fn spec_sampling_mask(offset: nat) -> nat
    decreases offset,
{
    if offset == 0 {
        0
    } else {
        spec_sampling_mask((offset - 1) as nat) * 2 + 1
    }
}

fn sampling_mask(offset: usize) -> (r: usize)
    requires
        offset <= 16,
    ensures
        r == spec_sampling_mask(offset as nat),
    decreases offset,
{
    if offset == 0 {
        0
    } else {
        let prev = sampling_mask(offset - 1);
        proof {
            lemma_sampling_mask_bound(offset as nat);
            lemma_sampling_mask_bound((offset - 1) as nat);
        }
        prev * 2 + 1
    }
}

proof fn lemma_sampling_mask_bound(offset: nat)
    requires
        offset <= 16,
    ensures
        spec_sampling_mask(offset) <= 0xffff,
    decreases 16 - offset,
{
    lemma_sampling_mask_exact();
    if offset < 16 {
        lemma_sampling_mask_bound(offset + 1);
        assert(spec_sampling_mask(offset + 1) == spec_sampling_mask(offset) * 2 + 1);
    }
}

proof fn lemma_sampling_mask_default()
    ensures
        spec_sampling_mask(IO_ERROR_SAMPLING_OFFSET_DEFAULT as nat) == 0x3ff,
        spec_sampling_mask(IO_ERROR_SAMPLING_OFFSET_DEFAULT as nat) <= 0xffff,
{
    assert(spec_sampling_mask(0) == 0);
    assert(spec_sampling_mask(1) == 1);
    assert(spec_sampling_mask(2) == 3);
    assert(spec_sampling_mask(3) == 7);
    assert(spec_sampling_mask(4) == 0xf);
    assert(spec_sampling_mask(5) == 0x1f);
    assert(spec_sampling_mask(6) == 0x3f);
    assert(spec_sampling_mask(7) == 0x7f);
    assert(spec_sampling_mask(8) == 0xff);
    assert(spec_sampling_mask(9) == 0x1ff);
    assert(spec_sampling_mask(10) == 0x3ff);
}

proof fn lemma_sampling_mask_exact()
    ensures
        spec_sampling_mask(16) == 0xffff,
{
    assert(spec_sampling_mask(0) == 0);
    assert(spec_sampling_mask(1) == 1);
    assert(spec_sampling_mask(2) == 3);
    assert(spec_sampling_mask(3) == 7);
    assert(spec_sampling_mask(4) == 0xf);
    assert(spec_sampling_mask(5) == 0x1f);
    assert(spec_sampling_mask(6) == 0x3f);
    assert(spec_sampling_mask(7) == 0x7f);
    assert(spec_sampling_mask(8) == 0xff);
    assert(spec_sampling_mask(9) == 0x1ff);
    assert(spec_sampling_mask(10) == 0x3ff);
    assert(spec_sampling_mask(11) == 0x7ff);
    assert(spec_sampling_mask(12) == 0xfff);
    assert(spec_sampling_mask(13) == 0x1fff);
    assert(spec_sampling_mask(14) == 0x3fff);
    assert(spec_sampling_mask(15) == 0x7fff);
    assert(spec_sampling_mask(16) == 0xffff);
}

/// The configuration keys the logging hash accepts.
pub open spec fn log_key_known(k: Seq<char>) -> bool {
    ||| k == "journal"@
    ||| k == "syslog"@
    ||| k == "fluentd"@
    ||| k == "async_channel_size"@
    ||| k == "channel_size"@
    ||| k == "async_thread_number"@
    ||| k == "thread_number"@
    ||| k == "io_error_sampling_offset"@
}

/// The journal driver's settings.
#[derive(Debug)]
pub struct JournalConfig {
    pub ident: String,
}

impl JournalConfig {
    pub fn with_ident(ident: &str) -> (r: JournalConfig)
        ensures
            r.ident@ == ident@,
    {
        JournalConfig { ident: String::from_str(ident) }
    }
}

/// The syslog driver's settings.
#[derive(Debug)]
pub struct SyslogBuilder {
    pub ident: String,
}

impl SyslogBuilder {
    pub fn with_ident(ident: &str) -> (r: SyslogBuilder)
        ensures
            r.ident@ == ident@,
    {
        SyslogBuilder { ident: String::from_str(ident) }
    }
}

/// The fluentd driver's settings.
#[derive(Clone, Copy, PartialEq, Eq, Structural, Debug)]
pub struct FluentdClientConfig {
    pub server: SocketAddr,
}

impl Default for FluentdClientConfig {
    /// The default fluentd endpoint: the local forwarder port.
    fn default() -> (r: FluentdClientConfig)
        ensures
            r.server == (SocketAddr { ip: IpAddr::V4(0x7f000001), port: 24224 }),
    {
        FluentdClientConfig { server: SocketAddr { ip: IpAddr::V4(0x7f000001), port: 24224 } }
    }
}

/// Which log driver to run.
#[derive(Debug)]
pub enum LogConfigDriver {
    Discard,
    Journal(JournalConfig),
    Syslog(SyslogBuilder),
    Fluentd(FluentdClientConfig),
    Stdout,
}

/// A daemon's logging configuration.
#[derive(Debug)]
pub struct LogConfig {
    pub driver: LogConfigDriver,
    pub async_channel_size: usize,
    pub async_thread_number: usize,
    pub io_err_sampling_mask: usize,
    pub program_name: String,
}

impl LogConfig {
    /// The named driver with default channel sizing and sampling.
    fn with_driver(driver: LogConfigDriver, program_name: &str) -> (r: LogConfig)
        ensures
            r.driver == driver,
            r.async_channel_size == DEFAULT_CHANNEL_SIZE,
            r.async_thread_number == 1,
            r.io_err_sampling_mask == spec_sampling_mask(IO_ERROR_SAMPLING_OFFSET_DEFAULT as nat),
            r.program_name@ == program_name@,
    {
        LogConfig {
            driver,
            async_channel_size: DEFAULT_CHANNEL_SIZE,
            async_thread_number: 1,
            io_err_sampling_mask: sampling_mask(IO_ERROR_SAMPLING_OFFSET_DEFAULT),
            program_name: String::from_str(program_name),
        }
    }

    pub fn new_discard(program_name: &str) -> (r: LogConfig)
        ensures
            r.driver is Discard,
            r.async_channel_size == DEFAULT_CHANNEL_SIZE,
            r.async_thread_number == 1,
            r.io_err_sampling_mask == spec_sampling_mask(IO_ERROR_SAMPLING_OFFSET_DEFAULT as nat),
            r.program_name@ == program_name@,
    {
        Self::with_driver(LogConfigDriver::Discard, program_name)
    }

    pub fn new_journal(program_name: &str) -> (r: LogConfig)
        ensures
            r.driver matches LogConfigDriver::Journal(j) && j.ident@ == program_name@,
            r.async_channel_size == DEFAULT_CHANNEL_SIZE,
            r.async_thread_number == 1,
            r.io_err_sampling_mask == spec_sampling_mask(IO_ERROR_SAMPLING_OFFSET_DEFAULT as nat),
            r.program_name@ == program_name@,
    {
        Self::with_driver(
            LogConfigDriver::Journal(JournalConfig::with_ident(program_name)),
            program_name,
        )
    }

    pub fn new_syslog(program_name: &str) -> (r: LogConfig)
        ensures
            r.driver matches LogConfigDriver::Syslog(b) && b.ident@ == program_name@,
            r.async_channel_size == DEFAULT_CHANNEL_SIZE,
            r.async_thread_number == 1,
            r.io_err_sampling_mask == spec_sampling_mask(IO_ERROR_SAMPLING_OFFSET_DEFAULT as nat),
            r.program_name@ == program_name@,
    {
        Self::with_driver(
            LogConfigDriver::Syslog(SyslogBuilder::with_ident(program_name)),
            program_name,
        )
    }

    pub fn new_fluentd(program_name: &str) -> (r: LogConfig)
        ensures
            r.driver matches LogConfigDriver::Fluentd(c) && c
                == FluentdClientConfig::spec_default(),
            r.async_channel_size == DEFAULT_CHANNEL_SIZE,
            r.async_thread_number == 1,
            r.io_err_sampling_mask == spec_sampling_mask(IO_ERROR_SAMPLING_OFFSET_DEFAULT as nat),
            r.program_name@ == program_name@,
    {
        Self::with_driver(LogConfigDriver::Fluentd(FluentdClientConfig::default()), program_name)
    }

    pub fn new_stdout(program_name: &str) -> (r: LogConfig)
        ensures
            r.driver is Stdout,
            r.async_channel_size == DEFAULT_CHANNEL_SIZE,
            r.async_thread_number == 1,
            r.io_err_sampling_mask == spec_sampling_mask(IO_ERROR_SAMPLING_OFFSET_DEFAULT as nat),
            r.program_name@ == program_name@,
    {
        Self::with_driver(LogConfigDriver::Stdout, program_name)
    }

    /// The driver a bare driver name denotes; any other name is refused.
    pub fn with_driver_name(driver: &str, program_name: &str) -> (r: Result<LogConfig, ConfigError>)
        ensures
            driver@ == "discard"@ ==> (r matches Ok(c) && c.driver is Discard),
            driver@ == "journal"@ ==> (r matches Ok(c) && c.driver is Journal),
            driver@ == "syslog"@ ==> (r matches Ok(c) && c.driver is Syslog),
            driver@ == "fluentd"@ ==> (r matches Ok(c) && c.driver is Fluentd),
            driver@ == "stdout"@ ==> (r matches Ok(c) && c.driver is Stdout),
            !(driver@ == "discard"@ || driver@ == "journal"@ || driver@ == "syslog"@ || driver@
                == "fluentd"@ || driver@ == "stdout"@) ==> r == Err::<LogConfig, ConfigError>(
                ConfigError::InvalidValue,
            ),
            r matches Ok(c) ==> c.program_name@ == program_name@ && c.async_channel_size
                == DEFAULT_CHANNEL_SIZE && c.async_thread_number == 1 && c.io_err_sampling_mask
                == 0x3ff,
    {
        proof {
            lemma_sampling_mask_default();
            reveal_strlit("discard");
            reveal_strlit("journal");
            reveal_strlit("syslog");
            reveal_strlit("fluentd");
            reveal_strlit("stdout");
            assert("discard"@.len() == 7);
            assert("journal"@.len() == 7);
            assert("syslog"@.len() == 6);
            assert("fluentd"@.len() == 7);
            assert("stdout"@.len() == 6);
            assert("discard"@[0] == 'd' && "journal"@[0] == 'j' && "fluentd"@[0] == 'f');
            assert("syslog"@[1] == 'y' && "stdout"@[1] == 't');
        }
        if str_eq(driver, "discard") {
            Ok(LogConfig::new_discard(program_name))
        } else if str_eq(driver, "journal") {
            Ok(LogConfig::new_journal(program_name))
        } else if str_eq(driver, "syslog") {
            Ok(LogConfig::new_syslog(program_name))
        } else if str_eq(driver, "fluentd") {
            Ok(LogConfig::new_fluentd(program_name))
        } else if str_eq(driver, "stdout") {
            Ok(LogConfig::new_stdout(program_name))
        } else {
            Err(ConfigError::InvalidValue)
        }
    }

    /// Reads a logging configuration node: a bare driver name, or a hash
    /// with a driver key and channel settings.
    pub fn parse_yaml(v: &YamlValue, program_name: &str) -> (r: Result<LogConfig, ConfigError>)
        ensures
            (*v) matches YamlValue::Str(s) && s@ == "discard"@ ==> (r matches Ok(c) && c.driver
                is Discard),
            (*v) matches YamlValue::Str(s) && s@ == "journal"@ ==> (r matches Ok(c) && c.driver
                is Journal),
            (*v) matches YamlValue::Str(s) && s@ == "syslog"@ ==> (r matches Ok(c) && c.driver
                is Syslog),
            (*v) matches YamlValue::Str(s) && s@ == "fluentd"@ ==> (r matches Ok(c) && c.driver
                is Fluentd),
            (*v) matches YamlValue::Str(s) && s@ == "stdout"@ ==> (r matches Ok(c) && c.driver
                is Stdout),
            (*v) matches YamlValue::Str(s) && !(s@ == "discard"@ || s@ == "journal"@ || s@
                == "syslog"@ || s@ == "fluentd"@ || s@ == "stdout"@) ==> r == Err::<
                LogConfig,
                ConfigError,
            >(ConfigError::InvalidValue),
            (*v) is Str ==> (r matches Ok(c) ==> c.async_channel_size == DEFAULT_CHANNEL_SIZE
                && c.async_thread_number == 1 && c.io_err_sampling_mask == 0x3ff),
            (*v) is Hash && r is Ok ==> ((*v) matches YamlValue::Hash(entries) && (forall|i: int|
                0 <= i < entries@.len() ==> ((#[trigger] entries@[i]).0 matches YamlValue::Str(ks)
                    && log_key_known(crate::text::norm_key(ks@))))),
            !((*v) is Str || (*v) is Hash) ==> r == Err::<LogConfig, ConfigError>(
                ConfigError::InvalidValueType,
            ),
            r matches Ok(c) ==> c.program_name@ == program_name@ && c.io_err_sampling_mask
                <= 0xffff,
    {
        match v {
            YamlValue::Str(s) => LogConfig::with_driver_name(s.as_str(), program_name),
            YamlValue::Hash(entries) => {
                let mut config = LogConfig::new_discard(program_name);
                proof {
                    lemma_sampling_mask_bound(IO_ERROR_SAMPLING_OFFSET_DEFAULT as nat);
                }
                let mut i: usize = 0;
                while i < entries.len()
                    invariant
                        i <= entries@.len(),
                        (*v) matches YamlValue::Hash(es) && es@ == entries@,
                        config.program_name@ == program_name@,
                        config.io_err_sampling_mask <= 0xffff,
                        forall|j: int|
                            0 <= j < i ==> ((#[trigger] entries@[j]).0 matches YamlValue::Str(ks)
                                && log_key_known(crate::text::norm_key(ks@))),
                    decreases entries@.len() - i,
                {
                    let (k, val) = &entries[i];
                    match k {
                        YamlValue::Str(ks) => {
                            if key_matches(ks.as_str(), "journal") {
                                config.driver = LogConfigDriver::Journal(
                                    JournalConfig::with_ident(program_name),
                                );
                            } else if key_matches(ks.as_str(), "syslog") {
                                config.driver = LogConfigDriver::Syslog(
                                    SyslogBuilder::with_ident(program_name),
                                );
                            } else if key_matches(ks.as_str(), "fluentd") {
                                let client = as_fluentd_client_config(val)?;
                                config.driver = LogConfigDriver::Fluentd(client);
                            } else if key_matches(ks.as_str(), "async_channel_size")
                                || key_matches(ks.as_str(), "channel_size") {
                                let channel_size = as_usize(val)?;
                                config.async_channel_size = channel_size;
                            } else if key_matches(ks.as_str(), "async_thread_number")
                                || key_matches(ks.as_str(), "thread_number") {
                                let thread_number = as_usize(val)?;
                                config.async_thread_number = thread_number;
                            } else if key_matches(ks.as_str(), "io_error_sampling_offset") {
                                let offset = as_usize(val)?;
                                if offset > IO_ERROR_SAMPLING_OFFSET_MAX {
                                    return Err(ConfigError::OutOfRange);
                                }
                                proof {
                                    lemma_sampling_mask_bound(offset as nat);
                                }
                                config.io_err_sampling_mask = sampling_mask(offset);
                            } else {
                                return Err(ConfigError::InvalidKey);
                            }
                        },
                        _ => {
                            return Err(ConfigError::InvalidValueType);
                        },
                    }
                    i = i + 1;
                }
                Ok(config)
            },
            _ => Err(ConfigError::InvalidValueType),
        }
    }
}

impl FluentdClientConfig {
    pub open spec fn spec_default() -> FluentdClientConfig {
        FluentdClientConfig { server: SocketAddr { ip: IpAddr::V4(0x7f000001), port: 24224 } }
    }
}

/// Reads a fluentd client configuration: an empty node keeps the default
/// endpoint; a hash may set `address` (IP text) and `port`.
pub fn as_fluentd_client_config(v: &YamlValue) -> (r: Result<FluentdClientConfig, ConfigError>)
    ensures
        (*v) is Null ==> r == Ok::<FluentdClientConfig, ConfigError>(
            FluentdClientConfig::spec_default(),
        ),
        !((*v) is Null || (*v) is Hash) ==> r == Err::<FluentdClientConfig, ConfigError>(
            ConfigError::InvalidValueType,
        ),
{
    match v {
        YamlValue::Null => Ok(FluentdClientConfig::default()),
        YamlValue::Hash(entries) => {
            let mut server = FluentdClientConfig::default().server;
            let mut i: usize = 0;
            while i < entries.len()
                invariant
                    i <= entries@.len(),
                    (*v) is Hash,
                decreases entries@.len() - i,
            {
                let (k, val) = &entries[i];
                match k {
                    YamlValue::Str(ks) => {
                        if key_matches(ks.as_str(), "address") {
                            let text = crate::yaml::as_string(val)?;
                            match crate::net::parse_ip(text.as_str()) {
                                Some(a) => {
                                    server.ip = a;
                                },
                                None => {
                                    return Err(ConfigError::InvalidValue);
                                },
                            }
                        } else if key_matches(ks.as_str(), "port") {
                            server.port = crate::yaml::as_u16(val)?;
                        } else {
                            return Err(ConfigError::InvalidKey);
                        }
                    },
                    _ => {
                        return Err(ConfigError::InvalidValueType);
                    },
                }
                i = i + 1;
            }
            Ok(FluentdClientConfig { server })
        },
        _ => Err(ConfigError::InvalidValueType),
    }
}

} // verus!
