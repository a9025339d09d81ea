//! The sample protocol's pure parts: the request byte, decoding of the
//! two-byte little-endian response, and the per-iteration decision of
//! the bounded busy-poll that waits for the response.

use vstd::prelude::*;

verus! {

/// The single request byte written to the sensor to ask for one sample.
pub const REQUEST_BYTE: u8 = 1;

/// Number of bytes in a complete response.
pub const RESPONSE_LEN: u32 = 2;

/// Total budget, in milliseconds, for one response to arrive.
pub const TIMEOUT_MS: u64 = 100;

/// Granularity, in milliseconds, of the wait between availability checks.
pub const POLL_STEP_MS: u64 = 1;

/// The sample encoded by a little-endian byte pair.
pub open spec fn decoded_sample(lo: u8, hi: u8) -> int {
    lo + 256 * hi
}

/// Decodes a two-byte little-endian response into a sample value.
pub fn decode_sample(lo: u8, hi: u8) -> (s: u16)
    ensures
        s == decoded_sample(lo, hi),
{
    (lo as u16) + 256 * (hi as u16)
}

/// What the busy-poll does next, given how long it has been waiting and
/// how many response bytes are available.
#[derive(Clone, Copy, Debug, PartialEq, Eq, Structural)]
pub enum PollStep {
    /// The time budget is exhausted: report failure, no sample.
    Timeout,
    /// A complete response is available: read it.
    Read,
    /// Keep waiting for the rest of the response.
    Wait,
}

/// One decision of the bounded busy-poll: time out once `TIMEOUT_MS`
/// have elapsed, read as soon as a complete response is available, and
/// otherwise wait another `POLL_STEP_MS`.
pub fn poll_decision(elapsed_ms: u64, bytes_available: u32) -> (d: PollStep)
    ensures
        d is Timeout <==> elapsed_ms >= TIMEOUT_MS,
        d is Read <==> elapsed_ms < TIMEOUT_MS && bytes_available >= RESPONSE_LEN,
        d is Wait <==> elapsed_ms < TIMEOUT_MS && bytes_available < RESPONSE_LEN,
{
    if elapsed_ms >= TIMEOUT_MS {
        PollStep::Timeout
    } else if bytes_available >= RESPONSE_LEN {
        PollStep::Read
    } else {
        PollStep::Wait
    }
}

} // verus!
