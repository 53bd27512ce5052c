//! Power policy value types.

use vstd::prelude::*;

verus! {

/// One negotiable or advertised electrical operating point, normalized so that
/// downstream policy logic never branches on the capability's origin.
#[derive(Copy, Clone, Debug, PartialEq, Eq, Structural)]
pub struct PowerCapability {
    /// Voltage in millivolts.
    pub voltage_mv: u16,
    /// Current in milliamps.
    pub current_ma: u16,
}

} // verus!
