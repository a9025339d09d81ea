//! The device locator's decision: among the enumerated serial devices,
//! pick the USB device whose reported serial number equals the target.
//! When several match, the last one enumerated wins.

use vstd::prelude::*;

verus! {

/// Baud rate the matched device is opened with.
pub const BAUD_RATE: u32 = 115200;

/// The kind of an attached serial device, as enumeration reports it.
pub enum PortKind {
    /// A USB serial device and the serial number it reports, if any.
    Usb { serial_number: Option<String> },
    Bluetooth,
    Pci,
    Unknown,
}

/// One enumerated serial device: its system name and its kind.
pub struct PortDescriptor {
    /// The name the device is opened by.
    pub port_name: String,
    /// What kind of device it is.
    pub kind: PortKind,
}

/// Whether a device is a candidate: it is a USB device and its reported
/// serial number equals the target, a missing serial number counting as
/// the empty string. Non-USB kinds are never candidates.
pub open spec fn spec_port_matches(k: PortKind, target: Seq<char>) -> bool {
    match k {
        PortKind::Usb { serial_number } => match serial_number {
            Some(s) => s@ == target,
            None => target.len() == 0,
        },
        _ => false,
    }
}

/// Whether one enumerated device is a candidate for the target serial
/// number.
pub fn port_matches(p: &PortDescriptor, target: &String) -> (b: bool)
    ensures
        b == spec_port_matches(p.kind, target@),
{
    match &p.kind {
        PortKind::Usb { serial_number } => match serial_number {
            Some(s) => s.eq(target),
            None => target.as_str().unicode_len() == 0,
        },
        _ => false,
    }
}

/// Picks the sensor among the enumerated devices: returns the index of
/// the last candidate, or nothing when no device matches. No ordering
/// guarantee is imposed on enumeration itself; "last wins" only breaks
/// ties among equal serial numbers.
pub fn find_matching_port(ports: &Vec<PortDescriptor>, target: &String) -> (r: Option<usize>)
    ensures
        match r {
            Some(i) => {
                &&& i < ports@.len()
                &&& spec_port_matches(ports@[i as int].kind, target@)
                &&& forall|j: int|
                    i < j < ports@.len() ==> !spec_port_matches(ports@[j].kind, target@)
            },
            None => forall|j: int|
                0 <= j < ports@.len() ==> !spec_port_matches(ports@[j].kind, target@),
        },
{
    let mut found: Option<usize> = None;
    let mut idx: usize = 0;
    while idx < ports.len()
        invariant
            idx <= ports@.len(),
            match found {
                Some(i) => {
                    &&& i < idx
                    &&& spec_port_matches(ports@[i as int].kind, target@)
                    &&& forall|j: int| i < j < idx ==> !spec_port_matches(ports@[j].kind, target@)
                },
                None => forall|j: int| 0 <= j < idx ==> !spec_port_matches(ports@[j].kind, target@),
            },
        decreases ports@.len() - idx,
    {
        if port_matches(&ports[idx], target) {
            found = Some(idx);
        }
        idx += 1;
    }
    found
}

} // verus!
