//! Verified core of a smart-lighting monitor.
//!
//! The library models the poll-join-emit cycle of a monitor that polls a
//! lighting bridge's resource API, joins sensor readings with the devices
//! that own them, converts raw numeric payloads into typed metric records,
//! and hands each record to a metric sink. Transport (HTTP, sockets),
//! configuration file parsing and process bootstrap live outside the
//! library; the join engine, the metric conversion rules and the cycle
//! scheduler's decisions are verified here.

pub mod bridge_config;
pub mod config;
pub mod convert;
pub mod cycle;
pub mod devices;
pub mod error;
pub mod join;
pub mod light_level;
pub mod metrics;
pub mod number;
pub mod response;
pub mod scheduler;
pub mod temperature;
pub mod url;
