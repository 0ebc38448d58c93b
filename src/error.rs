//! Errors of the controller layer.

use vstd::prelude::*;

use crate::dualsense::ConnectionType;

verus! {

/// Why a controller operation did not complete. Failures of the HID
/// transport itself are reported by the layer that owns the device.
#[derive(Debug, Clone, Copy, PartialEq, Eq, Structural)]
pub enum DualSenseError {
    /// No matching vendor/product id was enumerated
    NotFound,
    /// A report of a recognised id is shorter than its transport's minimum
    InvalidReport { transport: ConnectionType, len: usize },
    /// The device stopped answering
    ConnectionLost,
    /// No data arrived within the read timeout
    Timeout,
}

} // verus!
