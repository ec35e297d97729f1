//! Typed values used by the load switch block: the LDO output voltage
//! selection with its codec, and the decoded switch status.

use vstd::prelude::*;

verus! {

/// LDO regulator output voltages available on the device, from 1.0 V to
/// 3.3 V in 100 mV steps.
#[derive(Clone, Copy, Debug, PartialEq, Eq, Structural)]
pub enum LdswVoltage {
    V1_0,
    V1_1,
    V1_2,
    V1_3,
    V1_4,
    V1_5,
    V1_6,
    V1_7,
    V1_8,
    V1_9,
    V2_0,
    V2_1,
    V2_2,
    V2_3,
    V2_4,
    V2_5,
    V2_6,
    V2_7,
    V2_8,
    V2_9,
    V3_0,
    V3_1,
    V3_2,
    V3_3,
}

impl LdswVoltage {
    /// The register code of this output voltage.
    pub open spec fn spec_code(self) -> u8 {
        match self {
            LdswVoltage::V1_0 => 0,
            LdswVoltage::V1_1 => 1,
            LdswVoltage::V1_2 => 2,
            LdswVoltage::V1_3 => 3,
            LdswVoltage::V1_4 => 4,
            LdswVoltage::V1_5 => 5,
            LdswVoltage::V1_6 => 6,
            LdswVoltage::V1_7 => 7,
            LdswVoltage::V1_8 => 8,
            LdswVoltage::V1_9 => 9,
            LdswVoltage::V2_0 => 10,
            LdswVoltage::V2_1 => 11,
            LdswVoltage::V2_2 => 12,
            LdswVoltage::V2_3 => 13,
            LdswVoltage::V2_4 => 14,
            LdswVoltage::V2_5 => 15,
            LdswVoltage::V2_6 => 16,
            LdswVoltage::V2_7 => 17,
            LdswVoltage::V2_8 => 18,
            LdswVoltage::V2_9 => 19,
            LdswVoltage::V3_0 => 20,
            LdswVoltage::V3_1 => 21,
            LdswVoltage::V3_2 => 22,
            LdswVoltage::V3_3 => 23,
        }
    }

    pub fn code(self) -> (r: u8)
        ensures
            r == self.spec_code(),
    {
        match self {
            LdswVoltage::V1_0 => 0,
            LdswVoltage::V1_1 => 1,
            LdswVoltage::V1_2 => 2,
            LdswVoltage::V1_3 => 3,
            LdswVoltage::V1_4 => 4,
            LdswVoltage::V1_5 => 5,
            LdswVoltage::V1_6 => 6,
            LdswVoltage::V1_7 => 7,
            LdswVoltage::V1_8 => 8,
            LdswVoltage::V1_9 => 9,
            LdswVoltage::V2_0 => 10,
            LdswVoltage::V2_1 => 11,
            LdswVoltage::V2_2 => 12,
            LdswVoltage::V2_3 => 13,
            LdswVoltage::V2_4 => 14,
            LdswVoltage::V2_5 => 15,
            LdswVoltage::V2_6 => 16,
            LdswVoltage::V2_7 => 17,
            LdswVoltage::V2_8 => 18,
            LdswVoltage::V2_9 => 19,
            LdswVoltage::V3_0 => 20,
            LdswVoltage::V3_1 => 21,
            LdswVoltage::V3_2 => 22,
            LdswVoltage::V3_3 => 23,
        }
    }

    /// The output voltage a register code stands for, or `None` for a
    /// code outside the documented set.
    pub open spec fn spec_from_code(code: u8) -> Option<LdswVoltage> {
        if code == 0 {
            Some(LdswVoltage::V1_0)
        } else if code == 1 {
            Some(LdswVoltage::V1_1)
        } else if code == 2 {
            Some(LdswVoltage::V1_2)
        } else if code == 3 {
            Some(LdswVoltage::V1_3)
        } else if code == 4 {
            Some(LdswVoltage::V1_4)
        } else if code == 5 {
            Some(LdswVoltage::V1_5)
        } else if code == 6 {
            Some(LdswVoltage::V1_6)
        } else if code == 7 {
            Some(LdswVoltage::V1_7)
        } else if code == 8 {
            Some(LdswVoltage::V1_8)
        } else if code == 9 {
            Some(LdswVoltage::V1_9)
        } else if code == 10 {
            Some(LdswVoltage::V2_0)
        } else if code == 11 {
            Some(LdswVoltage::V2_1)
        } else if code == 12 {
            Some(LdswVoltage::V2_2)
        } else if code == 13 {
            Some(LdswVoltage::V2_3)
        } else if code == 14 {
            Some(LdswVoltage::V2_4)
        } else if code == 15 {
            Some(LdswVoltage::V2_5)
        } else if code == 16 {
            Some(LdswVoltage::V2_6)
        } else if code == 17 {
            Some(LdswVoltage::V2_7)
        } else if code == 18 {
            Some(LdswVoltage::V2_8)
        } else if code == 19 {
            Some(LdswVoltage::V2_9)
        } else if code == 20 {
            Some(LdswVoltage::V3_0)
        } else if code == 21 {
            Some(LdswVoltage::V3_1)
        } else if code == 22 {
            Some(LdswVoltage::V3_2)
        } else if code == 23 {
            Some(LdswVoltage::V3_3)
        } else {
            None
        }
    }

    pub fn from_code(code: u8) -> (r: Option<LdswVoltage>)
        ensures
            r == Self::spec_from_code(code),
    {
        match code {
            0 => Some(LdswVoltage::V1_0),
            1 => Some(LdswVoltage::V1_1),
            2 => Some(LdswVoltage::V1_2),
            3 => Some(LdswVoltage::V1_3),
            4 => Some(LdswVoltage::V1_4),
            5 => Some(LdswVoltage::V1_5),
            6 => Some(LdswVoltage::V1_6),
            7 => Some(LdswVoltage::V1_7),
            8 => Some(LdswVoltage::V1_8),
            9 => Some(LdswVoltage::V1_9),
            10 => Some(LdswVoltage::V2_0),
            11 => Some(LdswVoltage::V2_1),
            12 => Some(LdswVoltage::V2_2),
            13 => Some(LdswVoltage::V2_3),
            14 => Some(LdswVoltage::V2_4),
            15 => Some(LdswVoltage::V2_5),
            16 => Some(LdswVoltage::V2_6),
            17 => Some(LdswVoltage::V2_7),
            18 => Some(LdswVoltage::V2_8),
            19 => Some(LdswVoltage::V2_9),
            20 => Some(LdswVoltage::V3_0),
            21 => Some(LdswVoltage::V3_1),
            22 => Some(LdswVoltage::V3_2),
            23 => Some(LdswVoltage::V3_3),
            _ => None,
        }
    }
}

/// Every output voltage code decodes back to its voltage.
pub proof fn lemma_ldsw_voltage_round_trip(v: LdswVoltage)
    ensures
        LdswVoltage::spec_from_code(v.spec_code()) == Some(v),
{
}

/// Decoded contents of the load switch status register.
#[derive(Clone, Copy, Debug, PartialEq, Eq, Structural)]
pub struct LdswStatus {
    pub ldsw1_powered_as_switch: bool,
    pub ldsw1_powered_as_ldo: bool,
    pub ldsw2_powered_as_switch: bool,
    pub ldsw2_powered_as_ldo: bool,
}

impl LdswStatus {
    /// The status the register byte stands for, bit by bit.
    pub open spec fn spec_from_byte(b: u8) -> LdswStatus {
        LdswStatus {
            ldsw1_powered_as_switch: b & 0x01 != 0,
            ldsw1_powered_as_ldo: b & 0x02 != 0,
            ldsw2_powered_as_switch: b & 0x04 != 0,
            ldsw2_powered_as_ldo: b & 0x08 != 0,
        }
    }

    pub fn from_byte(b: u8) -> (r: LdswStatus)
        ensures
            r == Self::spec_from_byte(b),
    {
        LdswStatus {
            ldsw1_powered_as_switch: b & 0x01 != 0,
            ldsw1_powered_as_ldo: b & 0x02 != 0,
            ldsw2_powered_as_switch: b & 0x04 != 0,
            ldsw2_powered_as_ldo: b & 0x08 != 0,
        }
    }
}

} // verus!
