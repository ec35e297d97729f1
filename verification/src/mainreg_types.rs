//! Typed values used by the MAIN event block: the VBUS input event masks,
//! one flag per event bit.

use vstd::prelude::*;

verus! {

/// First VBUS input event group: detection, removal, and overvoltage or
/// undervoltage transitions.
#[derive(Clone, Copy, Debug, PartialEq, Eq, Structural, Default)]
pub struct Vbusin0EventMask {
    pub vbus_detected: bool,
    pub vbus_removed: bool,
    pub overvoltage_detected: bool,
    pub overvoltage_removed: bool,
    pub undervoltage_detected: bool,
    pub undervoltage_removed: bool,
}

impl Vbusin0EventMask {
    /// The register byte selecting exactly the flagged events.
    pub open spec fn spec_bits(self) -> u8 {
        (if self.vbus_detected { 0x01u8 } else { 0x00u8 })
            | (if self.vbus_removed { 0x02u8 } else { 0x00u8 })
            | (if self.overvoltage_detected { 0x04u8 } else { 0x00u8 })
            | (if self.overvoltage_removed { 0x08u8 } else { 0x00u8 })
            | (if self.undervoltage_detected { 0x10u8 } else { 0x00u8 })
            | (if self.undervoltage_removed { 0x20u8 } else { 0x00u8 })
    }

    pub fn bits(self) -> (r: u8)
        ensures
            r == self.spec_bits(),
    {
        (if self.vbus_detected { 0x01u8 } else { 0x00u8 })
            | (if self.vbus_removed { 0x02u8 } else { 0x00u8 })
            | (if self.overvoltage_detected { 0x04u8 } else { 0x00u8 })
            | (if self.overvoltage_removed { 0x08u8 } else { 0x00u8 })
            | (if self.undervoltage_detected { 0x10u8 } else { 0x00u8 })
            | (if self.undervoltage_removed { 0x20u8 } else { 0x00u8 })
    }
}

/// Second VBUS input event group: thermal warnings and shutdowns, and CC
/// line state changes.
#[derive(Clone, Copy, Debug, PartialEq, Eq, Structural, Default)]
pub struct Vbusin1EventMask {
    pub thermal_warning_detected: bool,
    pub thermal_warning_removed: bool,
    pub thermal_shutdown_detected: bool,
    pub thermal_shutdown_removed: bool,
    pub cc1_state_change: bool,
    pub cc2_state_change: bool,
}

impl Vbusin1EventMask {
    /// The register byte selecting exactly the flagged events.
    pub open spec fn spec_bits(self) -> u8 {
        (if self.thermal_warning_detected { 0x01u8 } else { 0x00u8 })
            | (if self.thermal_warning_removed { 0x02u8 } else { 0x00u8 })
            | (if self.thermal_shutdown_detected { 0x04u8 } else { 0x00u8 })
            | (if self.thermal_shutdown_removed { 0x08u8 } else { 0x00u8 })
            | (if self.cc1_state_change { 0x10u8 } else { 0x00u8 })
            | (if self.cc2_state_change { 0x20u8 } else { 0x00u8 })
    }

    pub fn bits(self) -> (r: u8)
        ensures
            r == self.spec_bits(),
    {
        (if self.thermal_warning_detected { 0x01u8 } else { 0x00u8 })
            | (if self.thermal_warning_removed { 0x02u8 } else { 0x00u8 })
            | (if self.thermal_shutdown_detected { 0x04u8 } else { 0x00u8 })
            | (if self.thermal_shutdown_removed { 0x08u8 } else { 0x00u8 })
            | (if self.cc1_state_change { 0x10u8 } else { 0x00u8 })
            | (if self.cc2_state_change { 0x20u8 } else { 0x00u8 })
    }
}

} // verus!
