use vstd::prelude::*;
use vstd::string::StringExecFns;
use std::time::Duration;

verus! {

/// Where the optional remote store is.
#[derive(Clone, Debug, PartialEq, Eq)]
pub struct RemoteDatabaseSettings {
    pub postgres_url: Option<String>,
}

/// Periods of the aggregator and of the persistence scheduler, in milliseconds.
#[derive(Clone, Copy, Debug, PartialEq, Eq, Structural)]
pub struct IntervalSettings {
    pub processing: u64,
    pub saving: u64,
}

#[derive(Clone, Debug, PartialEq, Eq)]
pub struct Settings {
    pub database: RemoteDatabaseSettings,
    pub intervals_ms: IntervalSettings,
    pub log_level: String,
}

pub const DEFAULT_PROCESSING_INTERVAL_MS: u64 = 250;

pub const DEFAULT_SAVING_INTERVAL_MS: u64 = 60000;

pub fn default_processing_interval() -> (r: u64)
    ensures
        r == 250,
{
    DEFAULT_PROCESSING_INTERVAL_MS
}

pub fn default_saving_interval() -> (r: u64)
    ensures
        r == 60000,
{
    DEFAULT_SAVING_INTERVAL_MS
}

pub fn default_log_level() -> (r: String)
    ensures
        r@ == "info"@,
{
    String::from_str("info")
}

impl Default for RemoteDatabaseSettings {
    fn default() -> (r: RemoteDatabaseSettings)
        ensures
            r.postgres_url.is_none(),
    {
        RemoteDatabaseSettings { postgres_url: None }
    }
}

impl Default for IntervalSettings {
    fn default() -> (r: IntervalSettings)
        ensures
            r.processing == 250,
            r.saving == 60000,
    {
        IntervalSettings { processing: default_processing_interval(), saving: default_saving_interval() }
    }
}

impl Default for Settings {
    fn default() -> (r: Settings)
        ensures
            r.database.postgres_url.is_none(),
            r.intervals_ms.processing == 250,
            r.intervals_ms.saving == 60000,
            r.log_level@ == "info"@,
    {
        Settings {
            database: RemoteDatabaseSettings { postgres_url: None },
            intervals_ms: IntervalSettings {
                processing: default_processing_interval(),
                saving: default_saving_interval(),
            },
            log_level: default_log_level(),
        }
    }
}

impl RemoteDatabaseSettings {
    /// The remote store's address, when one is configured and not empty.
    pub fn remote_url(&self) -> (r: Option<&String>)
        ensures
            match self.postgres_url {
                Some(u) => if u@.len() > 0 { r == Some(&u) } else { r.is_none() },
                None => r.is_none(),
            },
    {
        match &self.postgres_url {
            Some(u) => if u.as_str().is_empty() { None } else { Some(u) },
            None => None,
        }
    }
}

/// The span of `ms` milliseconds.
pub uninterp spec fn duration_of_millis(ms: u64) -> Duration;

/// Relies on std::time::Duration::from_millis: the span depends on the count alone.
#[verifier::external_body]
fn millis_to_duration(ms: u64) -> (r: Duration)
    ensures
        r == duration_of_millis(ms),
{
    Duration::from_millis(ms)
}

impl Settings {
    pub fn processing_interval(&self) -> (r: Duration)
        ensures
            r == duration_of_millis(self.intervals_ms.processing),
    {
        millis_to_duration(self.intervals_ms.processing)
    }

    pub fn saving_interval(&self) -> (r: Duration)
        ensures
            r == duration_of_millis(self.intervals_ms.saving),
    {
        millis_to_duration(self.intervals_ms.saving)
    }
}

} // verus!
