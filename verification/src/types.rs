//! Plain model types shared across the library: durations, metrics names,
//! stat identifiers and metric tags.

use vstd::prelude::*;
use vstd::string::StrSliceExecFns;

verus! {

/// A span of time, counted in milliseconds.
#[derive(Clone, Copy, PartialEq, Eq, Structural, Debug)]
pub struct DurationMillis {
    pub millis: u64,
}

impl DurationMillis {
    pub fn from_millis(millis: u64) -> (r: DurationMillis)
        ensures
            r.millis == millis,
    {
        DurationMillis { millis }
    }

    pub fn from_secs(secs: u32) -> (r: DurationMillis)
        ensures
            r.millis == secs * 1000,
    {
        DurationMillis { millis: (secs as u64) * 1000 }
    }
}

/// The name a server or escaper carries in emitted metrics.
#[derive(Debug)]
pub struct MetricsName {
    pub name: String,
}

impl Clone for MetricsName {
    fn clone(&self) -> (r: Self)
        ensures
            r == *self,
    {
        MetricsName { name: self.name.clone() }
    }
}

impl MetricsName {
    pub fn new(name: String) -> (r: MetricsName)
        ensures
            r.name@ == name@,
    {
        MetricsName { name }
    }

    pub fn empty() -> (r: MetricsName)
        ensures
            r.name@ == Seq::<char>::empty(),
    {
        MetricsName { name: String::new() }
    }

    pub fn is_empty(&self) -> (r: bool)
        ensures
            r == (self.name@.len() == 0),
    {
        self.name.as_str().unicode_len() == 0
    }

    /// Character-wise equality of the two names.
    pub fn same(&self, other: &MetricsName) -> (r: bool)
        ensures
            r == (self.name@ == other.name@),
    {
        self.name == other.name
    }
}

impl Default for MetricsName {
    fn default() -> (r: MetricsName)
        ensures
            r.name@ == Seq::<char>::empty(),
    {
        MetricsName { name: String::new() }
    }
}

/// Identifier of one statistics block, unique among live stat holders.
#[derive(Clone, Copy, PartialEq, Eq, Structural, Debug, Hash)]
pub struct StatId {
    pub id: u64,
}

impl StatId {
    pub fn from_raw(id: u64) -> (r: StatId)
        ensures
            r.id == id,
    {
        StatId { id }
    }
}

/// Extra key/value tags attached to every metric record of one holder.
#[derive(Clone, Debug)]
pub struct MetricsTags {
    pub tags: Vec<(String, String)>,
}

} // verus!
