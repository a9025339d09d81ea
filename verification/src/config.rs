//! The immutable configuration the core decision logic runs on.

use vstd::prelude::*;

verus! {

/// Configuration values, supplied externally and never changed while
/// the polling loop runs. `threshold` is compared with the sample using
/// less-or-equal semantics: a sample at or below it looks occupied.
pub struct Config {
    /// Whether diagnostics are printed.
    pub debug: bool,
    /// Serial number that picks the sensor among attached USB devices.
    pub serial_number: String,
    /// Target wall-clock period of one polling iteration, in milliseconds.
    pub millis_per_loop: u32,
    /// How long the zone must show no qualifying sample before the
    /// monitor deactivates, in milliseconds.
    pub millis_hold: u32,
    /// A sample at or below this value counts as "occupied".
    pub threshold: u16,
    /// Shell command run on activation.
    pub on_action: String,
    /// Shell command run on deactivation.
    pub off_action: String,
}

} // verus!
