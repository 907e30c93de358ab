//! Activity metrics core: interval and total counters, monitor-aware travel
//! distance, the aggregation and persistence decisions, and shutdown sequencing.
pub mod config;
pub mod distance;
pub mod error;
pub mod input;
pub mod lifecycle;
pub mod persistence;
pub mod platform;
pub mod processing;
pub mod state;
