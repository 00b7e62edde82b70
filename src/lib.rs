//! Application configuration: duration literals such as `30s` or `200ms`,
//! the configuration record they fill, and the small runtime types around it.
pub mod coiner;
pub mod config;
pub mod duration;
pub mod log;
