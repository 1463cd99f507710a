//! Port allocation: scan a bounded range for a free TCP port.
//!
//! The supervisor probes ports `[start, start + PORT_SCAN_RANGE)` and takes
//! the first one that is free; if every port of the range is occupied it
//! falls back to the starting port itself. The probing (binding a loopback
//! listener and releasing it at once) is operating-system work done by the
//! caller, which hands the observations in as a vector of booleans:
//! `occupied[i]` says whether port `start + i` was observed occupied.

use vstd::prelude::*;

verus! {

/// The well-known default port the embedded server is first tried on.
pub const DEFAULT_PORT: u16 = 18123;

/// How many consecutive ports are scanned when allocating.
pub const PORT_SCAN_RANGE: usize = 100;

/// First free port at or after `start_port`, or `start_port` itself when the
/// whole range is occupied (a best-effort fallback, not an error).
pub fn find_available_port(start_port: u16, occupied: &Vec<bool>) -> (port: u16)
    requires
        occupied.len() == PORT_SCAN_RANGE,
        start_port + PORT_SCAN_RANGE - 1 <= u16::MAX,
    ensures
        start_port <= port < start_port + PORT_SCAN_RANGE,
        (exists|i: int| 0 <= i < occupied.len() && !occupied[i]) ==> {
            &&& !occupied[port - start_port]
            &&& forall|j: int| 0 <= j < port - start_port ==> occupied[j]
        },
        (forall|i: int| 0 <= i < occupied.len() ==> occupied[i]) ==> port == start_port,
{
    let mut i: usize = 0;
    while i < PORT_SCAN_RANGE
        invariant
            occupied.len() == PORT_SCAN_RANGE,
            start_port + PORT_SCAN_RANGE - 1 <= u16::MAX,
            0 <= i <= PORT_SCAN_RANGE,
            forall|j: int| 0 <= j < i ==> occupied[j],
        decreases PORT_SCAN_RANGE - i,
    {
        if !occupied[i] {
            return start_port + (i as u16);
        }
        i = i + 1;
    }
    start_port
}

} // verus!
