//! Core logic for a threshold-with-hysteresis presence monitor driven by a
//! distance-reporting serial sensor.
//!
//! The library holds the decision logic only: decoding the sensor's
//! two-byte response, the per-poll timeout decision of the sample
//! protocol, the hysteresis state machine that turns samples into
//! activate/deactivate events, the loop pacer's delay computation, and
//! the rule that picks the matching serial device. All I/O (serial
//! transport, configuration loading, running the configured actions)
//! lives outside the library and hands it plain values.

pub mod config;
pub mod locator;
pub mod monitor;
pub mod pacer;
pub mod protocol;
