//! Typed values used by the battery charger block: enumerated register
//! fields with their codecs, and decoded status records.

use vstd::prelude::*;

verus! {

/// Maximum battery discharge current limit.
#[derive(Clone, Copy, Debug, PartialEq, Eq, Structural)]
pub enum DischargeCurrentLimit {
    /// 200 mA maximum discharge current.
    Low,
    /// 1000 mA maximum discharge current.
    High,
}

impl DischargeCurrentLimit {
    /// The MSB register byte configuring this limit.
    pub open spec fn spec_msb(self) -> u8 {
        match self {
            DischargeCurrentLimit::Low => 42,
            DischargeCurrentLimit::High => 207,
        }
    }

    /// The LSB register byte configuring this limit.
    pub open spec fn spec_lsb(self) -> u8 {
        match self {
            DischargeCurrentLimit::Low => 0,
            DischargeCurrentLimit::High => 1,
        }
    }

    /// The full-scale discharge current this limit stands for, in mA.
    pub open spec fn spec_limit_ma(self) -> u16 {
        match self {
            DischargeCurrentLimit::Low => 200,
            DischargeCurrentLimit::High => 1000,
        }
    }

    pub fn msb(self) -> (r: u8)
        ensures
            r == self.spec_msb(),
    {
        match self {
            DischargeCurrentLimit::Low => 42,
            DischargeCurrentLimit::High => 207,
        }
    }

    pub fn lsb(self) -> (r: u8)
        ensures
            r == self.spec_lsb(),
    {
        match self {
            DischargeCurrentLimit::Low => 0,
            DischargeCurrentLimit::High => 1,
        }
    }

    pub fn limit_ma(self) -> (r: u16)
        ensures
            r == self.spec_limit_ma(),
    {
        match self {
            DischargeCurrentLimit::Low => 200,
            DischargeCurrentLimit::High => 1000,
        }
    }

    /// The limit a pair of register bytes stands for, if it matches one of
    /// the two documented settings.
    pub open spec fn spec_from_registers(msb: u8, lsb: u8) -> Option<DischargeCurrentLimit> {
        if msb == 42 && lsb == 0 {
            Some(DischargeCurrentLimit::Low)
        } else if msb == 207 && lsb == 1 {
            Some(DischargeCurrentLimit::High)
        } else {
            None
        }
    }

    pub fn from_registers(msb: u8, lsb: u8) -> (r: Option<DischargeCurrentLimit>)
        ensures
            r == Self::spec_from_registers(msb, lsb),
    {
        if msb == 42 && lsb == 0 {
            Some(DischargeCurrentLimit::Low)
        } else if msb == 207 && lsb == 1 {
            Some(DischargeCurrentLimit::High)
        } else {
            None
        }
    }
}

/// The register byte pair of either limit decodes back to that limit.
pub proof fn lemma_discharge_current_limit_round_trip(v: DischargeCurrentLimit)
    ensures
        DischargeCurrentLimit::spec_from_registers(v.spec_msb(), v.spec_lsb()) == Some(v),
{
}

/// NTC temperature region whose threshold is being configured or reported.
#[derive(Clone, Copy, Debug, PartialEq, Eq, Structural)]
pub enum NtcThresholdRegion {
    Cold,
    Cool,
    Warm,
    Hot,
}

impl NtcThresholdRegion {
    /// The register holding the eight MSBs of this region's threshold.
    pub open spec fn spec_msb_register(self) -> u16 {
        match self {
            NtcThresholdRegion::Cold => crate::regs::NTC_COLD,
            NtcThresholdRegion::Cool => crate::regs::NTC_COOL,
            NtcThresholdRegion::Warm => crate::regs::NTC_WARM,
            NtcThresholdRegion::Hot => crate::regs::NTC_HOT,
        }
    }

    /// The register holding the two LSBs of this region's threshold.
    pub open spec fn spec_lsb_register(self) -> u16 {
        match self {
            NtcThresholdRegion::Cold => crate::regs::NTC_COLD_LSB,
            NtcThresholdRegion::Cool => crate::regs::NTC_COOL_LSB,
            NtcThresholdRegion::Warm => crate::regs::NTC_WARM_LSB,
            NtcThresholdRegion::Hot => crate::regs::NTC_HOT_LSB,
        }
    }

    pub fn msb_register(self) -> (r: u16)
        ensures
            r == self.spec_msb_register(),
    {
        match self {
            NtcThresholdRegion::Cold => crate::regs::NTC_COLD,
            NtcThresholdRegion::Cool => crate::regs::NTC_COOL,
            NtcThresholdRegion::Warm => crate::regs::NTC_WARM,
            NtcThresholdRegion::Hot => crate::regs::NTC_HOT,
        }
    }

    pub fn lsb_register(self) -> (r: u16)
        ensures
            r == self.spec_lsb_register(),
    {
        match self {
            NtcThresholdRegion::Cold => crate::regs::NTC_COLD_LSB,
            NtcThresholdRegion::Cool => crate::regs::NTC_COOL_LSB,
            NtcThresholdRegion::Warm => crate::regs::NTC_WARM_LSB,
            NtcThresholdRegion::Hot => crate::regs::NTC_HOT_LSB,
        }
    }
}

/// Die temperature threshold being configured: the temperature at which
/// charging stops, or the one at which it resumes.
#[derive(Clone, Copy, Debug, PartialEq, Eq, Structural)]
pub enum DieTemperatureThresholdType {
    Stop,
    Resume,
}

impl DieTemperatureThresholdType {
    /// The register holding the eight MSBs of this threshold.
    pub open spec fn spec_msb_register(self) -> u16 {
        match self {
            DieTemperatureThresholdType::Stop => crate::regs::DIE_TEMP_STOP,
            DieTemperatureThresholdType::Resume => crate::regs::DIE_TEMP_RESUME,
        }
    }

    /// The register holding the two LSBs of this threshold.
    pub open spec fn spec_lsb_register(self) -> u16 {
        match self {
            DieTemperatureThresholdType::Stop => crate::regs::DIE_TEMP_STOP_LSB,
            DieTemperatureThresholdType::Resume => crate::regs::DIE_TEMP_RESUME_LSB,
        }
    }

    pub fn msb_register(self) -> (r: u16)
        ensures
            r == self.spec_msb_register(),
    {
        match self {
            DieTemperatureThresholdType::Stop => crate::regs::DIE_TEMP_STOP,
            DieTemperatureThresholdType::Resume => crate::regs::DIE_TEMP_RESUME,
        }
    }

    pub fn lsb_register(self) -> (r: u16)
        ensures
            r == self.spec_lsb_register(),
    {
        match self {
            DieTemperatureThresholdType::Stop => crate::regs::DIE_TEMP_STOP_LSB,
            DieTemperatureThresholdType::Resume => crate::regs::DIE_TEMP_RESUME_LSB,
        }
    }
}

/// Battery charging termination voltage, shared by the normal and warm
/// temperature settings.
#[derive(Clone, Copy, Debug, PartialEq, Eq, Structural)]
pub enum ChargerTerminationVoltage {
    V3_50,
    V3_55,
    V3_60,
    V3_65,
    V4_00,
    V4_05,
    V4_10,
    V4_15,
    V4_20,
    V4_25,
    V4_30,
    V4_35,
    V4_40,
    V4_45,
}

impl ChargerTerminationVoltage {
    /// The register code of this termination voltage.
    pub open spec fn spec_code(self) -> u8 {
        match self {
            ChargerTerminationVoltage::V3_50 => 0,
            ChargerTerminationVoltage::V3_55 => 1,
            ChargerTerminationVoltage::V3_60 => 2,
            ChargerTerminationVoltage::V3_65 => 3,
            ChargerTerminationVoltage::V4_00 => 4,
            ChargerTerminationVoltage::V4_05 => 5,
            ChargerTerminationVoltage::V4_10 => 6,
            ChargerTerminationVoltage::V4_15 => 7,
            ChargerTerminationVoltage::V4_20 => 8,
            ChargerTerminationVoltage::V4_25 => 9,
            ChargerTerminationVoltage::V4_30 => 10,
            ChargerTerminationVoltage::V4_35 => 11,
            ChargerTerminationVoltage::V4_40 => 12,
            ChargerTerminationVoltage::V4_45 => 13,
        }
    }

    pub fn code(self) -> (r: u8)
        ensures
            r == self.spec_code(),
    {
        match self {
            ChargerTerminationVoltage::V3_50 => 0,
            ChargerTerminationVoltage::V3_55 => 1,
            ChargerTerminationVoltage::V3_60 => 2,
            ChargerTerminationVoltage::V3_65 => 3,
            ChargerTerminationVoltage::V4_00 => 4,
            ChargerTerminationVoltage::V4_05 => 5,
            ChargerTerminationVoltage::V4_10 => 6,
            ChargerTerminationVoltage::V4_15 => 7,
            ChargerTerminationVoltage::V4_20 => 8,
            ChargerTerminationVoltage::V4_25 => 9,
            ChargerTerminationVoltage::V4_30 => 10,
            ChargerTerminationVoltage::V4_35 => 11,
            ChargerTerminationVoltage::V4_40 => 12,
            ChargerTerminationVoltage::V4_45 => 13,
        }
    }

    /// The termination voltage a register code stands for, if defined.
    pub open spec fn spec_from_code(code: u8) -> Option<ChargerTerminationVoltage> {
        if code == 0 {
            Some(ChargerTerminationVoltage::V3_50)
        } else if code == 1 {
            Some(ChargerTerminationVoltage::V3_55)
        } else if code == 2 {
            Some(ChargerTerminationVoltage::V3_60)
        } else if code == 3 {
            Some(ChargerTerminationVoltage::V3_65)
        } else if code == 4 {
            Some(ChargerTerminationVoltage::V4_00)
        } else if code == 5 {
            Some(ChargerTerminationVoltage::V4_05)
        } else if code == 6 {
            Some(ChargerTerminationVoltage::V4_10)
        } else if code == 7 {
            Some(ChargerTerminationVoltage::V4_15)
        } else if code == 8 {
            Some(ChargerTerminationVoltage::V4_20)
        } else if code == 9 {
            Some(ChargerTerminationVoltage::V4_25)
        } else if code == 10 {
            Some(ChargerTerminationVoltage::V4_30)
        } else if code == 11 {
            Some(ChargerTerminationVoltage::V4_35)
        } else if code == 12 {
            Some(ChargerTerminationVoltage::V4_40)
        } else if code == 13 {
            Some(ChargerTerminationVoltage::V4_45)
        } else {
            None
        }
    }

    pub fn from_code(code: u8) -> (r: Option<ChargerTerminationVoltage>)
        ensures
            r == Self::spec_from_code(code),
    {
        match code {
            0 => Some(ChargerTerminationVoltage::V3_50),
            1 => Some(ChargerTerminationVoltage::V3_55),
            2 => Some(ChargerTerminationVoltage::V3_60),
            3 => Some(ChargerTerminationVoltage::V3_65),
            4 => Some(ChargerTerminationVoltage::V4_00),
            5 => Some(ChargerTerminationVoltage::V4_05),
            6 => Some(ChargerTerminationVoltage::V4_10),
            7 => Some(ChargerTerminationVoltage::V4_15),
            8 => Some(ChargerTerminationVoltage::V4_20),
            9 => Some(ChargerTerminationVoltage::V4_25),
            10 => Some(ChargerTerminationVoltage::V4_30),
            11 => Some(ChargerTerminationVoltage::V4_35),
            12 => Some(ChargerTerminationVoltage::V4_40),
            13 => Some(ChargerTerminationVoltage::V4_45),
            _ => None,
        }
    }
}

/// Every defined termination voltage code decodes back to its voltage.
pub proof fn lemma_termination_voltage_round_trip(v: ChargerTerminationVoltage)
    ensures
        ChargerTerminationVoltage::spec_from_code(v.spec_code()) == Some(v),
{
}

/// Trickle charging voltage threshold.
#[derive(Clone, Copy, Debug, PartialEq, Eq, Structural)]
pub enum ChargerTrickleLevelSelect {
    /// Trickle charging below 2.9 V.
    V2_9,
    /// Trickle charging below 2.5 V.
    V2_5,
}

impl ChargerTrickleLevelSelect {
    /// The register code of this trickle level.
    pub open spec fn spec_code(self) -> u8 {
        match self {
            ChargerTrickleLevelSelect::V2_9 => 0,
            ChargerTrickleLevelSelect::V2_5 => 1,
        }
    }

    pub fn code(self) -> (r: u8)
        ensures
            r == self.spec_code(),
    {
        match self {
            ChargerTrickleLevelSelect::V2_9 => 0,
            ChargerTrickleLevelSelect::V2_5 => 1,
        }
    }

    /// The trickle level a register code stands for, if defined.
    pub open spec fn spec_from_code(code: u8) -> Option<ChargerTrickleLevelSelect> {
        if code == 0 {
            Some(ChargerTrickleLevelSelect::V2_9)
        } else if code == 1 {
            Some(ChargerTrickleLevelSelect::V2_5)
        } else {
            None
        }
    }

    pub fn from_code(code: u8) -> (r: Option<ChargerTrickleLevelSelect>)
        ensures
            r == Self::spec_from_code(code),
    {
        match code {
            0 => Some(ChargerTrickleLevelSelect::V2_9),
            1 => Some(ChargerTrickleLevelSelect::V2_5),
            _ => None,
        }
    }
}

/// Every defined trickle level code decodes back to its level.
pub proof fn lemma_trickle_level_round_trip(v: ChargerTrickleLevelSelect)
    ensures
        ChargerTrickleLevelSelect::spec_from_code(v.spec_code()) == Some(v),
{
}

/// Charging termination current level, as a share of the charging current.
#[derive(Clone, Copy, Debug, PartialEq, Eq, Structural)]
pub enum ChargerTerminationCurrentLevelSelect {
    /// Charging stops at 10 percent of the charging current.
    Sel10,
    /// Charging stops at 20 percent of the charging current.
    Sel20,
}

impl ChargerTerminationCurrentLevelSelect {
    /// The register code of this termination current level.
    pub open spec fn spec_code(self) -> u8 {
        match self {
            ChargerTerminationCurrentLevelSelect::Sel10 => 0,
            ChargerTerminationCurrentLevelSelect::Sel20 => 1,
        }
    }

    pub fn code(self) -> (r: u8)
        ensures
            r == self.spec_code(),
    {
        match self {
            ChargerTerminationCurrentLevelSelect::Sel10 => 0,
            ChargerTerminationCurrentLevelSelect::Sel20 => 1,
        }
    }

    /// The termination current level a register code stands for, if defined.
    pub open spec fn spec_from_code(code: u8) -> Option<ChargerTerminationCurrentLevelSelect> {
        if code == 0 {
            Some(ChargerTerminationCurrentLevelSelect::Sel10)
        } else if code == 1 {
            Some(ChargerTerminationCurrentLevelSelect::Sel20)
        } else {
            None
        }
    }

    pub fn from_code(code: u8) -> (r: Option<ChargerTerminationCurrentLevelSelect>)
        ensures
            r == Self::spec_from_code(code),
    {
        match code {
            0 => Some(ChargerTerminationCurrentLevelSelect::Sel10),
            1 => Some(ChargerTerminationCurrentLevelSelect::Sel20),
            _ => None,
        }
    }
}

/// Every defined termination current code decodes back to its level.
pub proof fn lemma_termination_current_round_trip(v: ChargerTerminationCurrentLevelSelect)
    ensures
        ChargerTerminationCurrentLevelSelect::spec_from_code(v.spec_code()) == Some(v),
{
}

/// Decoded contents of the charge status register.
#[derive(Clone, Copy, Debug, PartialEq, Eq, Structural)]
pub struct ChargerStatus {
    pub is_battery_present: bool,
    pub is_charging_complete: bool,
    pub is_trickle_charging: bool,
    pub is_constant_current_charging: bool,
    pub is_constant_voltage_charging: bool,
    pub needs_recharge: bool,
    pub is_charging_paused_by_die_temperature: bool,
    pub is_supplement_mode_active: bool,
}

impl ChargerStatus {
    /// The status the charge status register byte stands for, bit by bit.
    pub open spec fn spec_from_byte(b: u8) -> ChargerStatus {
        ChargerStatus {
            is_battery_present: b & 0x01 != 0,
            is_charging_complete: b & 0x02 != 0,
            is_trickle_charging: b & 0x04 != 0,
            is_constant_current_charging: b & 0x08 != 0,
            is_constant_voltage_charging: b & 0x10 != 0,
            needs_recharge: b & 0x20 != 0,
            is_charging_paused_by_die_temperature: b & 0x40 != 0,
            is_supplement_mode_active: b & 0x80 != 0,
        }
    }

    pub fn from_byte(b: u8) -> (r: ChargerStatus)
        ensures
            r == Self::spec_from_byte(b),
    {
        ChargerStatus {
            is_battery_present: b & 0x01 != 0,
            is_charging_complete: b & 0x02 != 0,
            is_trickle_charging: b & 0x04 != 0,
            is_constant_current_charging: b & 0x08 != 0,
            is_constant_voltage_charging: b & 0x10 != 0,
            needs_recharge: b & 0x20 != 0,
            is_charging_paused_by_die_temperature: b & 0x40 != 0,
            is_supplement_mode_active: b & 0x80 != 0,
        }
    }
}

/// Decoded contents of the charger error reason register.
#[derive(Clone, Copy, Debug, PartialEq, Eq, Structural)]
pub struct ChargerErrorReason {
    pub ntc_sensor_error: bool,
    pub vbat_sensor_error: bool,
    pub vbat_low_error: bool,
    pub vtrickle_error: bool,
    pub measurement_timeout_error: bool,
    pub charge_timeout_error: bool,
    pub trickle_timeout_error: bool,
}

impl ChargerErrorReason {
    /// The error reasons the register byte stands for, bit by bit.
    pub open spec fn spec_from_byte(b: u8) -> ChargerErrorReason {
        ChargerErrorReason {
            ntc_sensor_error: b & 0x01 != 0,
            vbat_sensor_error: b & 0x02 != 0,
            vbat_low_error: b & 0x04 != 0,
            vtrickle_error: b & 0x08 != 0,
            measurement_timeout_error: b & 0x10 != 0,
            charge_timeout_error: b & 0x20 != 0,
            trickle_timeout_error: b & 0x40 != 0,
        }
    }

    pub fn from_byte(b: u8) -> (r: ChargerErrorReason)
        ensures
            r == Self::spec_from_byte(b),
    {
        ChargerErrorReason {
            ntc_sensor_error: b & 0x01 != 0,
            vbat_sensor_error: b & 0x02 != 0,
            vbat_low_error: b & 0x04 != 0,
            vtrickle_error: b & 0x08 != 0,
            measurement_timeout_error: b & 0x10 != 0,
            charge_timeout_error: b & 0x20 != 0,
            trickle_timeout_error: b & 0x40 != 0,
        }
    }
}

/// Decoded contents of the charger error sensor register: which sensor
/// condition held when the error occurred.
#[derive(Clone, Copy, Debug, PartialEq, Eq, Structural)]
pub struct ChargerSensorValueDuringError {
    pub sensor_ntc_cold: bool,
    pub sensor_ntc_cool: bool,
    pub sensor_ntc_warm: bool,
    pub sensor_ntc_hot: bool,
    pub sensor_vterm: bool,
    pub sensor_recharge: bool,
    pub sensor_vtrickle: bool,
    pub sensor_vbat_low: bool,
}

impl ChargerSensorValueDuringError {
    /// The sensor values the register byte stands for, bit by bit.
    pub open spec fn spec_from_byte(b: u8) -> ChargerSensorValueDuringError {
        ChargerSensorValueDuringError {
            sensor_ntc_cold: b & 0x01 != 0,
            sensor_ntc_cool: b & 0x02 != 0,
            sensor_ntc_warm: b & 0x04 != 0,
            sensor_ntc_hot: b & 0x08 != 0,
            sensor_vterm: b & 0x10 != 0,
            sensor_recharge: b & 0x20 != 0,
            sensor_vtrickle: b & 0x40 != 0,
            sensor_vbat_low: b & 0x80 != 0,
        }
    }

    pub fn from_byte(b: u8) -> (r: ChargerSensorValueDuringError)
        ensures
            r == Self::spec_from_byte(b),
    {
        ChargerSensorValueDuringError {
            sensor_ntc_cold: b & 0x01 != 0,
            sensor_ntc_cool: b & 0x02 != 0,
            sensor_ntc_warm: b & 0x04 != 0,
            sensor_ntc_hot: b & 0x08 != 0,
            sensor_vterm: b & 0x10 != 0,
            sensor_recharge: b & 0x20 != 0,
            sensor_vtrickle: b & 0x40 != 0,
            sensor_vbat_low: b & 0x80 != 0,
        }
    }
}

} // verus!
