//! Disposition of errors at the HID boundary: which submit outcomes the scan
//! loop may shrug off and retry on the next tick, and which must halt the
//! firmware. The transport itself lives with the caller; only the decision is
//! here.

use vstd::prelude::*;

verus! {

/// Outcome of handing a report to the HID transport, as seen by the caller.
#[derive(Debug, Clone, Copy, PartialEq, Eq, Structural)]
pub enum HidWriteError {
    /// The endpoint was busy; the next tick simply retries.
    WouldBlock,
    /// The report equals the one already queued; there is nothing to do.
    Duplicate,
    /// Any other transport failure.
    Transport,
}

/// Whether a failed submit must halt the firmware: a busy endpoint and a
/// duplicate report are transient and absorbed, anything else is fatal.
pub fn hid_write_error_is_fatal(e: &HidWriteError) -> (fatal: bool)
    ensures
        fatal == (*e is Transport),
{
    match e {
        HidWriteError::WouldBlock => false,
        HidWriteError::Duplicate => false,
        HidWriteError::Transport => true,
    }
}

} // verus!
