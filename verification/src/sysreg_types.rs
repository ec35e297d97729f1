//! Typed values used by the VBUS input block: the input current limit
//! with its codec, the CC comparator readings and the input status record.

use vstd::prelude::*;

verus! {

/// VBUS input current limit, from 100 mA to 1300 mA in 100 mA steps.
#[derive(Clone, Copy, Debug, PartialEq, Eq, Structural)]
pub enum VbusInCurrentLimit {
    Ma100,
    Ma200,
    Ma300,
    Ma400,
    Ma500,
    Ma600,
    Ma700,
    Ma800,
    Ma900,
    Ma1000,
    Ma1100,
    Ma1200,
    Ma1300,
}

impl VbusInCurrentLimit {
    /// The register code of this current limit: the limit in units of
    /// 100 mA.
    pub open spec fn spec_code(self) -> u8 {
        match self {
            VbusInCurrentLimit::Ma100 => 1,
            VbusInCurrentLimit::Ma200 => 2,
            VbusInCurrentLimit::Ma300 => 3,
            VbusInCurrentLimit::Ma400 => 4,
            VbusInCurrentLimit::Ma500 => 5,
            VbusInCurrentLimit::Ma600 => 6,
            VbusInCurrentLimit::Ma700 => 7,
            VbusInCurrentLimit::Ma800 => 8,
            VbusInCurrentLimit::Ma900 => 9,
            VbusInCurrentLimit::Ma1000 => 10,
            VbusInCurrentLimit::Ma1100 => 11,
            VbusInCurrentLimit::Ma1200 => 12,
            VbusInCurrentLimit::Ma1300 => 13,
        }
    }

    pub fn code(self) -> (r: u8)
        ensures
            r == self.spec_code(),
    {
        match self {
            VbusInCurrentLimit::Ma100 => 1,
            VbusInCurrentLimit::Ma200 => 2,
            VbusInCurrentLimit::Ma300 => 3,
            VbusInCurrentLimit::Ma400 => 4,
            VbusInCurrentLimit::Ma500 => 5,
            VbusInCurrentLimit::Ma600 => 6,
            VbusInCurrentLimit::Ma700 => 7,
            VbusInCurrentLimit::Ma800 => 8,
            VbusInCurrentLimit::Ma900 => 9,
            VbusInCurrentLimit::Ma1000 => 10,
            VbusInCurrentLimit::Ma1100 => 11,
            VbusInCurrentLimit::Ma1200 => 12,
            VbusInCurrentLimit::Ma1300 => 13,
        }
    }

    /// The current limit a register code stands for, or `None` for a code
    /// outside the documented set.
    pub open spec fn spec_from_code(code: u8) -> Option<VbusInCurrentLimit> {
        if code == 1 {
            Some(VbusInCurrentLimit::Ma100)
        } else if code == 2 {
            Some(VbusInCurrentLimit::Ma200)
        } else if code == 3 {
            Some(VbusInCurrentLimit::Ma300)
        } else if code == 4 {
            Some(VbusInCurrentLimit::Ma400)
        } else if code == 5 {
            Some(VbusInCurrentLimit::Ma500)
        } else if code == 6 {
            Some(VbusInCurrentLimit::Ma600)
        } else if code == 7 {
            Some(VbusInCurrentLimit::Ma700)
        } else if code == 8 {
            Some(VbusInCurrentLimit::Ma800)
        } else if code == 9 {
            Some(VbusInCurrentLimit::Ma900)
        } else if code == 10 {
            Some(VbusInCurrentLimit::Ma1000)
        } else if code == 11 {
            Some(VbusInCurrentLimit::Ma1100)
        } else if code == 12 {
            Some(VbusInCurrentLimit::Ma1200)
        } else if code == 13 {
            Some(VbusInCurrentLimit::Ma1300)
        } else {
            None
        }
    }

    pub fn from_code(code: u8) -> (r: Option<VbusInCurrentLimit>)
        ensures
            r == Self::spec_from_code(code),
    {
        match code {
            1 => Some(VbusInCurrentLimit::Ma100),
            2 => Some(VbusInCurrentLimit::Ma200),
            3 => Some(VbusInCurrentLimit::Ma300),
            4 => Some(VbusInCurrentLimit::Ma400),
            5 => Some(VbusInCurrentLimit::Ma500),
            6 => Some(VbusInCurrentLimit::Ma600),
            7 => Some(VbusInCurrentLimit::Ma700),
            8 => Some(VbusInCurrentLimit::Ma800),
            9 => Some(VbusInCurrentLimit::Ma900),
            10 => Some(VbusInCurrentLimit::Ma1000),
            11 => Some(VbusInCurrentLimit::Ma1100),
            12 => Some(VbusInCurrentLimit::Ma1200),
            13 => Some(VbusInCurrentLimit::Ma1300),
            _ => None,
        }
    }
}

/// Every current limit code decodes back to its limit.
pub proof fn lemma_vbus_in_current_limit_round_trip(v: VbusInCurrentLimit)
    ensures
        VbusInCurrentLimit::spec_from_code(v.spec_code()) == Some(v),
{
}

/// What one CC comparator detected on its line.
#[derive(Clone, Copy, Debug, PartialEq, Eq, Structural)]
pub enum VbusCcComparator {
    /// No connection detected.
    NoConnection,
    /// Default USB supply: 100 or 500 mA.
    DefaultUsb,
    /// A 1.5 A supply.
    Ma1500,
    /// A 3.0 A supply.
    Ma3000,
}

impl VbusCcComparator {
    /// The comparator reading a two-bit register code stands for.
    pub open spec fn spec_from_code(code: u8) -> VbusCcComparator
        recommends
            code < 4,
    {
        if code == 0 {
            VbusCcComparator::NoConnection
        } else if code == 1 {
            VbusCcComparator::DefaultUsb
        } else if code == 2 {
            VbusCcComparator::Ma1500
        } else {
            VbusCcComparator::Ma3000
        }
    }

    pub fn from_code(code: u8) -> (r: VbusCcComparator)
        requires
            code < 4,
        ensures
            r == Self::spec_from_code(code),
    {
        if code == 0 {
            VbusCcComparator::NoConnection
        } else if code == 1 {
            VbusCcComparator::DefaultUsb
        } else if code == 2 {
            VbusCcComparator::Ma1500
        } else {
            VbusCcComparator::Ma3000
        }
    }
}

/// Decoded contents of the USB-C detection status register: what each CC
/// comparator saw.
#[derive(Clone, Copy, Debug, PartialEq, Eq, Structural)]
pub struct VbusCcStatus {
    pub vbusin_cc1_status: VbusCcComparator,
    pub vbusin_cc2_status: VbusCcComparator,
}

impl VbusCcStatus {
    /// The comparator readings the register byte stands for: CC1 in its
    /// low two bits, CC2 in the next two.
    pub open spec fn spec_from_byte(b: u8) -> VbusCcStatus {
        VbusCcStatus {
            vbusin_cc1_status: VbusCcComparator::spec_from_code(b & 0x03),
            vbusin_cc2_status: VbusCcComparator::spec_from_code((b >> 2) & 0x03),
        }
    }

    pub fn from_byte(b: u8) -> (r: VbusCcStatus)
        ensures
            r == Self::spec_from_byte(b),
    {
        proof {
            assert(b & 0x03 < 4) by (bit_vector);
            assert((b >> 2) & 0x03 < 4) by (bit_vector);
        }
        VbusCcStatus {
            vbusin_cc1_status: VbusCcComparator::from_code(b & 0x03),
            vbusin_cc2_status: VbusCcComparator::from_code((b >> 2) & 0x03),
        }
    }
}

/// Decoded contents of the VBUS input status register.
#[derive(Clone, Copy, Debug, PartialEq, Eq, Structural)]
pub struct VbusInStatus {
    pub is_vbus_in_present: bool,
    pub is_vbus_in_current_limit_active: bool,
    pub is_vbus_in_overvoltage_protection_active: bool,
    pub is_vbus_undervoltage_detected: bool,
    pub is_vbus_in_suspended: bool,
    pub is_vbus_out_active: bool,
}

impl VbusInStatus {
    /// The status the register byte stands for, bit by bit.
    pub open spec fn spec_from_byte(b: u8) -> VbusInStatus {
        VbusInStatus {
            is_vbus_in_present: b & 0x01 != 0,
            is_vbus_in_current_limit_active: b & 0x02 != 0,
            is_vbus_in_overvoltage_protection_active: b & 0x04 != 0,
            is_vbus_undervoltage_detected: b & 0x08 != 0,
            is_vbus_in_suspended: b & 0x10 != 0,
            is_vbus_out_active: b & 0x20 != 0,
        }
    }

    pub fn from_byte(b: u8) -> (r: VbusInStatus)
        ensures
            r == Self::spec_from_byte(b),
    {
        VbusInStatus {
            is_vbus_in_present: b & 0x01 != 0,
            is_vbus_in_current_limit_active: b & 0x02 != 0,
            is_vbus_in_overvoltage_protection_active: b & 0x04 != 0,
            is_vbus_undervoltage_detected: b & 0x08 != 0,
            is_vbus_in_suspended: b & 0x10 != 0,
            is_vbus_out_active: b & 0x20 != 0,
        }
    }
}

} // verus!
