use zone_monitor::protocol::{decode_sample, poll_decision, PollStep, REQUEST_BYTE, RESPONSE_LEN, TIMEOUT_MS, POLL_STEP_MS};

#[test]
fn decode_little_endian_pair() {
    // The documented round trip: the byte pair [0x34, 0x12] is the
    // little-endian encoding of 0x1234.
    assert_eq!(decode_sample(0x34, 0x12), 0x1234);
    assert_eq!(decode_sample(0x34, 0x12), 4660);
}

#[test]
fn decode_extremes() {
    assert_eq!(decode_sample(0, 0), 0);
    assert_eq!(decode_sample(0xFF, 0xFF), u16::MAX);
    assert_eq!(decode_sample(0x01, 0x00), 1);
    assert_eq!(decode_sample(0x00, 0x01), 256);
}

#[test]
fn decode_round_trip_from_le_bytes() {
    for v in [0u16, 1, 255, 256, 4660, 40000, u16::MAX] {
        let b = v.to_le_bytes();
        assert_eq!(decode_sample(b[0], b[1]), v);
    }
}

#[test]
fn protocol_constants() {
    assert_eq!(REQUEST_BYTE, 1);
    assert_eq!(RESPONSE_LEN, 2);
    assert_eq!(TIMEOUT_MS, 100);
    assert_eq!(POLL_STEP_MS, 1);
}

#[test]
fn poll_times_out_at_budget() {
    // The device never produced 2 bytes: once 100ms have elapsed the
    // poll reports a timeout whatever is available.
    assert_eq!(poll_decision(100, 0), PollStep::Timeout);
    assert_eq!(poll_decision(100, 1), PollStep::Timeout);
    assert_eq!(poll_decision(100, 2), PollStep::Timeout);
    assert_eq!(poll_decision(5000, 0), PollStep::Timeout);
}

#[test]
fn poll_reads_when_response_complete() {
    assert_eq!(poll_decision(0, 2), PollStep::Read);
    assert_eq!(poll_decision(99, 2), PollStep::Read);
    assert_eq!(poll_decision(3, 200), PollStep::Read);
}

#[test]
fn poll_waits_while_response_incomplete() {
    assert_eq!(poll_decision(0, 0), PollStep::Wait);
    assert_eq!(poll_decision(99, 1), PollStep::Wait);
}
