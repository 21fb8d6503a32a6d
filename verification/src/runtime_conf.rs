//! Configuration of the unaided worker runtime: thread count and stack
//! size, per-thread CPU affinity, and the I/O event batch cap.

use vstd::prelude::*;
use vstd::string::StrSliceExecFns;

use crate::text::key_matches;
use crate::yaml::{as_bool, as_humanize_usize, as_usize, ConfigError, YamlValue};

verus! {

/// The configuration keys the runtime hash accepts.
pub open spec fn runtime_key_known(k: Seq<char>) -> bool {
    ||| k == "thread_number"@
    ||| k == "thread_stack_size"@
    ||| k == "sched_affinity"@
    ||| k == "max_io_events_per_tick"@
}

/// The runtime's configuration.
#[derive(Debug)]
pub struct UnaidedRuntimeConfig {
    pub thread_number: Option<usize>,
    pub thread_stack_size: Option<usize>,
    pub sched_affinity: Vec<(usize, Vec<usize>)>,
    pub mapped_sched_affinity: bool,
    pub max_io_events_per_tick: Option<usize>,
}

impl Default for UnaidedRuntimeConfig {
    fn default() -> (r: UnaidedRuntimeConfig)
        ensures
            r.thread_number is None,
            r.thread_stack_size is None,
            r.sched_affinity@.len() == 0,
            !r.mapped_sched_affinity,
            r.max_io_events_per_tick is None,
    {
        UnaidedRuntimeConfig {
            thread_number: None,
            thread_stack_size: None,
            sched_affinity: Vec::new(),
            mapped_sched_affinity: false,
            max_io_events_per_tick: None,
        }
    }
}

impl UnaidedRuntimeConfig {
    pub fn set_thread_number(&mut self, value: usize)
        ensures
            final(self).thread_number == Some(value),
            final(self).thread_stack_size == old(self).thread_stack_size,
            final(self).sched_affinity == old(self).sched_affinity,
            final(self).mapped_sched_affinity == old(self).mapped_sched_affinity,
            final(self).max_io_events_per_tick == old(self).max_io_events_per_tick,
    {
        self.thread_number = Some(value);
    }

    pub fn set_thread_stack_size(&mut self, value: usize)
        ensures
            final(self).thread_stack_size == Some(value),
            final(self).thread_number == old(self).thread_number,
            final(self).sched_affinity == old(self).sched_affinity,
            final(self).mapped_sched_affinity == old(self).mapped_sched_affinity,
            final(self).max_io_events_per_tick == old(self).max_io_events_per_tick,
    {
        self.thread_stack_size = Some(value);
    }

    pub fn set_sched_affinity(&mut self, id: usize, cpus: Vec<usize>)
        ensures
            final(self).sched_affinity@ == old(self).sched_affinity@.push((id, cpus)),
            final(self).thread_number == old(self).thread_number,
            final(self).thread_stack_size == old(self).thread_stack_size,
            final(self).mapped_sched_affinity == old(self).mapped_sched_affinity,
            final(self).max_io_events_per_tick == old(self).max_io_events_per_tick,
    {
        self.sched_affinity.push((id, cpus));
    }

    pub fn set_mapped_sched_affinity(&mut self, value: bool)
        ensures
            final(self).mapped_sched_affinity == value,
            final(self).thread_number == old(self).thread_number,
            final(self).thread_stack_size == old(self).thread_stack_size,
            final(self).sched_affinity == old(self).sched_affinity,
            final(self).max_io_events_per_tick == old(self).max_io_events_per_tick,
    {
        self.mapped_sched_affinity = value;
    }

    pub fn set_max_io_events_per_tick(&mut self, capacity: usize)
        ensures
            final(self).max_io_events_per_tick == Some(capacity),
            final(self).thread_number == old(self).thread_number,
            final(self).thread_stack_size == old(self).thread_stack_size,
            final(self).sched_affinity == old(self).sched_affinity,
            final(self).mapped_sched_affinity == old(self).mapped_sched_affinity,
    {
        self.max_io_events_per_tick = Some(capacity);
    }

    /// Reads the runtime configuration: a hash of settings. An affinity
    /// hash maps worker ids to CPU lists; an affinity boolean asks for the
    /// identity mapping instead.
    pub fn parse_yaml(v: &YamlValue) -> (r: Result<UnaidedRuntimeConfig, ConfigError>)
        ensures
            !((*v) is Hash) ==> r == Err::<UnaidedRuntimeConfig, ConfigError>(
                ConfigError::InvalidValueType,
            ),
            // Success owes that every entry used a recognized string key;
            // contrapositively an unknown or non-string key ends in an
            // error.
            (*v) is Hash && r is Ok ==> ((*v) matches YamlValue::Hash(entries) && (forall|i: int|
                0 <= i < entries@.len() ==> ((#[trigger] entries@[i]).0 matches YamlValue::Str(ks)
                    && runtime_key_known(crate::text::norm_key(ks@))))),
    {
        match v {
            YamlValue::Hash(entries) => {
                let mut config = UnaidedRuntimeConfig::default();
                let mut i: usize = 0;
                while i < entries.len()
                    invariant
                        i <= entries@.len(),
                        (*v) matches YamlValue::Hash(es) && es@ == entries@,
                        forall|j: int|
                            0 <= j < i ==> ((#[trigger] entries@[j]).0 matches YamlValue::Str(ks)
                                && runtime_key_known(crate::text::norm_key(ks@))),
                    decreases entries@.len() - i,
                {
                    let (k, val) = &entries[i];
                    match k {
                        YamlValue::Str(ks) => {
                            if key_matches(ks.as_str(), "thread_number") {
                                let value = as_usize(val)?;
                                config.set_thread_number(value);
                            } else if key_matches(ks.as_str(), "thread_stack_size") {
                                let value = as_humanize_usize(val)?;
                                config.set_thread_stack_size(value);
                            } else if key_matches(ks.as_str(), "sched_affinity") {
                                parse_sched_affinity(&mut config, val)?;
                            } else if key_matches(ks.as_str(), "max_io_events_per_tick") {
                                let capacity = as_usize(val)?;
                                config.set_max_io_events_per_tick(capacity);
                            } else {
                                return Err(ConfigError::InvalidKey);
                            }
                        },
                        _ => {
                            return Err(ConfigError::InvalidValueType);
                        },
                    }
                    i = i + 1;
                }
                Ok(config)
            },
            _ => Err(ConfigError::InvalidValueType),
        }
    }
}

/// Reads a CPU list: an array of CPU ids.
fn parse_cpu_set(v: &YamlValue) -> (r: Result<Vec<usize>, ConfigError>)
    ensures
        r matches Ok(cpus) ==> ((*v) matches YamlValue::Array(items) && cpus@.len()
            == items@.len()),
        !((*v) is Array) ==> r == Err::<Vec<usize>, ConfigError>(ConfigError::InvalidValueType),
{
    match v {
        YamlValue::Array(items) => {
            let mut cpus: Vec<usize> = Vec::new();
            let mut i: usize = 0;
            while i < items.len()
                invariant
                    i <= items@.len(),
                    (*v) is Array,
                    cpus@.len() == i,
                decreases items@.len() - i,
            {
                let cpu = as_usize(&items[i])?;
                cpus.push(cpu);
                i = i + 1;
            }
            Ok(cpus)
        },
        _ => Err(ConfigError::InvalidValueType),
    }
}

/// Reads the affinity setting: a hash of worker id to CPU list, or a
/// boolean asking for the identity mapping.
fn parse_sched_affinity(config: &mut UnaidedRuntimeConfig, v: &YamlValue) -> (r: Result<
    (),
    ConfigError,
>)
    ensures
        (*v) matches YamlValue::Bool(b) ==> (r is Ok && final(config).mapped_sched_affinity == b),
        !((*v) is Hash || (*v) is Bool) ==> r == Err::<(), ConfigError>(
            ConfigError::InvalidValueType,
        ),
{
    match v {
        YamlValue::Hash(entries) => {
            let mut i: usize = 0;
            while i < entries.len()
                invariant
                    i <= entries@.len(),
                    (*v) is Hash,
                decreases entries@.len() - i,
            {
                let (k, val) = &entries[i];
                let id = as_usize(k)?;
                let cpus = parse_cpu_set(val)?;
                config.set_sched_affinity(id, cpus);
                i = i + 1;
            }
            Ok(())
        },
        YamlValue::Bool(b) => {
            config.set_mapped_sched_affinity(*b);
            Ok(())
        },
        _ => Err(ConfigError::InvalidValueType),
    }
}

} // verus!
