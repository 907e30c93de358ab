use vstd::prelude::*;

verus! {

/// Failures of monitor discovery and lookup.
#[derive(Clone, Debug, PartialEq, Eq)]
pub enum PlatformError {
    /// The windowing library could not start; the text describes why.
    GlfwInit(String),
    CacheLock,
    /// The monitor registry was used before discovery filled it.
    CacheInit,
    /// Discovery found no monitor.
    MonitorNotFound,
}

/// Errors of the application; outside failures are carried as their message.
#[derive(Clone, Debug, PartialEq, Eq)]
pub enum AppError {
    Config(String),
    Io(String),
    Database(String),
    Migration(String),
    Platform(PlatformError),
    Initialization(String),
    Anyhow(String),
}

} // verus!
