//! Typed values used by the ADC block: enumerated register fields with
//! their codecs.

use vstd::prelude::*;

verus! {

/// Battery charger mode codes reported by the IBAT measurement status
/// register. Each documented mode maps bijectively to a 4-bit code.
#[derive(Clone, Copy, Debug, PartialEq, Eq, Structural)]
pub enum IbatStatuscodes {
    /// The battery is discharging.
    IbatStatDischarge,
    /// Charge error; also reported when no battery is present.
    IbatStatChargeError,
    /// Trickle charging.
    IbatStatChargeTrickle,
    /// Charging in cool temperature conditions.
    IbatStatChargeCool,
    /// Normal charging.
    IbatStatChargeNormal,
}

impl IbatStatuscodes {
    /// The 4-bit charger mode code of this status.
    pub open spec fn spec_code(self) -> u8 {
        match self {
            IbatStatuscodes::IbatStatDischarge => 4,
            IbatStatuscodes::IbatStatChargeError => 8,
            IbatStatuscodes::IbatStatChargeTrickle => 12,
            IbatStatuscodes::IbatStatChargeCool => 13,
            IbatStatuscodes::IbatStatChargeNormal => 15,
        }
    }

    pub fn code(self) -> (r: u8)
        ensures
            r == self.spec_code(),
    {
        match self {
            IbatStatuscodes::IbatStatDischarge => 4,
            IbatStatuscodes::IbatStatChargeError => 8,
            IbatStatuscodes::IbatStatChargeTrickle => 12,
            IbatStatuscodes::IbatStatChargeCool => 13,
            IbatStatuscodes::IbatStatChargeNormal => 15,
        }
    }

    /// The status a 4-bit charger mode code stands for, or `None` for a
    /// code outside the documented set: an undocumented code is reported,
    /// never coerced to an arbitrary status.
    pub open spec fn spec_from_code(code: u8) -> Option<IbatStatuscodes> {
        if code == 4 {
            Some(IbatStatuscodes::IbatStatDischarge)
        } else if code == 8 {
            Some(IbatStatuscodes::IbatStatChargeError)
        } else if code == 12 {
            Some(IbatStatuscodes::IbatStatChargeTrickle)
        } else if code == 13 {
            Some(IbatStatuscodes::IbatStatChargeCool)
        } else if code == 15 {
            Some(IbatStatuscodes::IbatStatChargeNormal)
        } else {
            None
        }
    }

    pub fn from_code(code: u8) -> (r: Option<IbatStatuscodes>)
        ensures
            r == Self::spec_from_code(code),
    {
        match code {
            4 => Some(IbatStatuscodes::IbatStatDischarge),
            8 => Some(IbatStatuscodes::IbatStatChargeError),
            12 => Some(IbatStatuscodes::IbatStatChargeTrickle),
            13 => Some(IbatStatuscodes::IbatStatChargeCool),
            15 => Some(IbatStatuscodes::IbatStatChargeNormal),
            _ => None,
        }
    }
}

/// Every documented charger mode code decodes back to its status.
pub proof fn lemma_ibat_statuscode_round_trip(v: IbatStatuscodes)
    ensures
        IbatStatuscodes::spec_from_code(v.spec_code()) == Some(v),
{
}

/// Automatic VBAT measurement configuration.
#[derive(Clone, Copy, Debug, PartialEq, Eq, Structural)]
pub enum Vbatautoenable {
    /// Single measurement when triggered.
    Noauto,
    /// Automatic measurement every second.
    Autoenable,
}

impl Vbatautoenable {
    /// The register bit of this configuration.
    pub open spec fn spec_code(self) -> u8 {
        match self {
            Vbatautoenable::Noauto => 0,
            Vbatautoenable::Autoenable => 1,
        }
    }

    pub fn code(self) -> (r: u8)
        ensures
            r == self.spec_code(),
    {
        match self {
            Vbatautoenable::Noauto => 0,
            Vbatautoenable::Autoenable => 1,
        }
    }

    /// The configuration a register bit stands for.
    pub open spec fn spec_from_code(code: u8) -> Option<Vbatautoenable> {
        if code == 0 {
            Some(Vbatautoenable::Noauto)
        } else if code == 1 {
            Some(Vbatautoenable::Autoenable)
        } else {
            None
        }
    }

    pub fn from_code(code: u8) -> (r: Option<Vbatautoenable>)
        ensures
            r == Self::spec_from_code(code),
    {
        match code {
            0 => Some(Vbatautoenable::Noauto),
            1 => Some(Vbatautoenable::Autoenable),
            _ => None,
        }
    }
}

/// Every automatic VBAT configuration bit decodes back to itself.
pub proof fn lemma_vbatautoenable_round_trip(v: Vbatautoenable)
    ensures
        Vbatautoenable::spec_from_code(v.spec_code()) == Some(v),
{
}

/// VBAT burst measurement configuration.
#[derive(Clone, Copy, Debug, PartialEq, Eq, Structural)]
pub enum Vbatburstenable {
    /// One measurement per trigger.
    Singlemode,
    /// Four consecutive measurements per trigger.
    Burstmode,
}

impl Vbatburstenable {
    /// The register bit of this configuration.
    pub open spec fn spec_code(self) -> u8 {
        match self {
            Vbatburstenable::Singlemode => 0,
            Vbatburstenable::Burstmode => 1,
        }
    }

    pub fn code(self) -> (r: u8)
        ensures
            r == self.spec_code(),
    {
        match self {
            Vbatburstenable::Singlemode => 0,
            Vbatburstenable::Burstmode => 1,
        }
    }

    /// The configuration a register bit stands for.
    pub open spec fn spec_from_code(code: u8) -> Option<Vbatburstenable> {
        if code == 0 {
            Some(Vbatburstenable::Singlemode)
        } else if code == 1 {
            Some(Vbatburstenable::Burstmode)
        } else {
            None
        }
    }

    pub fn from_code(code: u8) -> (r: Option<Vbatburstenable>)
        ensures
            r == Self::spec_from_code(code),
    {
        match code {
            0 => Some(Vbatburstenable::Singlemode),
            1 => Some(Vbatburstenable::Burstmode),
            _ => None,
        }
    }
}

/// Every burst configuration bit decodes back to itself.
pub proof fn lemma_vbatburstenable_round_trip(v: Vbatburstenable)
    ensures
        Vbatburstenable::spec_from_code(v.spec_code()) == Some(v),
{
}

/// Automatic NTC measurement interval.
#[derive(Clone, Copy, Debug, PartialEq, Eq, Structural)]
pub enum Ntcautotim {
    Ms4,
    Ms64,
    Ms128,
    Ms1024,
}

impl Ntcautotim {
    /// The two-bit register code of this interval.
    pub open spec fn spec_code(self) -> u8 {
        match self {
            Ntcautotim::Ms4 => 0,
            Ntcautotim::Ms64 => 1,
            Ntcautotim::Ms128 => 2,
            Ntcautotim::Ms1024 => 3,
        }
    }

    pub fn code(self) -> (r: u8)
        ensures
            r == self.spec_code(),
    {
        match self {
            Ntcautotim::Ms4 => 0,
            Ntcautotim::Ms64 => 1,
            Ntcautotim::Ms128 => 2,
            Ntcautotim::Ms1024 => 3,
        }
    }

    /// The interval a two-bit register code stands for.
    pub open spec fn spec_from_code(code: u8) -> Option<Ntcautotim> {
        if code == 0 {
            Some(Ntcautotim::Ms4)
        } else if code == 1 {
            Some(Ntcautotim::Ms64)
        } else if code == 2 {
            Some(Ntcautotim::Ms128)
        } else if code == 3 {
            Some(Ntcautotim::Ms1024)
        } else {
            None
        }
    }

    pub fn from_code(code: u8) -> (r: Option<Ntcautotim>)
        ensures
            r == Self::spec_from_code(code),
    {
        match code {
            0 => Some(Ntcautotim::Ms4),
            1 => Some(Ntcautotim::Ms64),
            2 => Some(Ntcautotim::Ms128),
            3 => Some(Ntcautotim::Ms1024),
            _ => None,
        }
    }
}

/// Every NTC interval code decodes back to its interval.
pub proof fn lemma_ntcautotim_round_trip(v: Ntcautotim)
    ensures
        Ntcautotim::spec_from_code(v.spec_code()) == Some(v),
{
}

/// Automatic die temperature measurement interval.
#[derive(Clone, Copy, Debug, PartialEq, Eq, Structural)]
pub enum Tempautotim {
    Ms4,
    Ms8,
    Ms16,
    Ms32,
}

impl Tempautotim {
    /// The two-bit register code of this interval.
    pub open spec fn spec_code(self) -> u8 {
        match self {
            Tempautotim::Ms4 => 0,
            Tempautotim::Ms8 => 1,
            Tempautotim::Ms16 => 2,
            Tempautotim::Ms32 => 3,
        }
    }

    pub fn code(self) -> (r: u8)
        ensures
            r == self.spec_code(),
    {
        match self {
            Tempautotim::Ms4 => 0,
            Tempautotim::Ms8 => 1,
            Tempautotim::Ms16 => 2,
            Tempautotim::Ms32 => 3,
        }
    }

    /// The interval a two-bit register code stands for.
    pub open spec fn spec_from_code(code: u8) -> Option<Tempautotim> {
        if code == 0 {
            Some(Tempautotim::Ms4)
        } else if code == 1 {
            Some(Tempautotim::Ms8)
        } else if code == 2 {
            Some(Tempautotim::Ms16)
        } else if code == 3 {
            Some(Tempautotim::Ms32)
        } else {
            None
        }
    }

    pub fn from_code(code: u8) -> (r: Option<Tempautotim>)
        ensures
            r == Self::spec_from_code(code),
    {
        match code {
            0 => Some(Tempautotim::Ms4),
            1 => Some(Tempautotim::Ms8),
            2 => Some(Tempautotim::Ms16),
            3 => Some(Tempautotim::Ms32),
            _ => None,
        }
    }
}

/// Every die temperature interval code decodes back to its interval.
pub proof fn lemma_tempautotim_round_trip(v: Tempautotim)
    ensures
        Tempautotim::spec_from_code(v.spec_code()) == Some(v),
{
}

/// NTC thermistor type connected to the battery, selected by its nominal
/// resistance.
#[derive(Clone, Copy, Debug, PartialEq, Eq, Structural)]
pub enum NtcThermistorType {
    /// No thermistor connected.
    NoThermistor,
    /// 10 kOhm thermistor.
    Ntc10K,
    /// 47 kOhm thermistor.
    Ntc47K,
    /// 100 kOhm thermistor.
    Ntc100K,
}

impl NtcThermistorType {
    /// The register code of this thermistor selection.
    pub open spec fn spec_code(self) -> u8 {
        match self {
            NtcThermistorType::NoThermistor => 0,
            NtcThermistorType::Ntc10K => 1,
            NtcThermistorType::Ntc47K => 2,
            NtcThermistorType::Ntc100K => 3,
        }
    }

    pub fn code(self) -> (r: u8)
        ensures
            r == self.spec_code(),
    {
        match self {
            NtcThermistorType::NoThermistor => 0,
            NtcThermistorType::Ntc10K => 1,
            NtcThermistorType::Ntc47K => 2,
            NtcThermistorType::Ntc100K => 3,
        }
    }

    /// The thermistor selection a register code stands for, or `None` for
    /// a code outside the documented set.
    pub open spec fn spec_from_code(code: u8) -> Option<NtcThermistorType> {
        if code == 0 {
            Some(NtcThermistorType::NoThermistor)
        } else if code == 1 {
            Some(NtcThermistorType::Ntc10K)
        } else if code == 2 {
            Some(NtcThermistorType::Ntc47K)
        } else if code == 3 {
            Some(NtcThermistorType::Ntc100K)
        } else {
            None
        }
    }

    pub fn from_code(code: u8) -> (r: Option<NtcThermistorType>)
        ensures
            r == Self::spec_from_code(code),
    {
        match code {
            0 => Some(NtcThermistorType::NoThermistor),
            1 => Some(NtcThermistorType::Ntc10K),
            2 => Some(NtcThermistorType::Ntc47K),
            3 => Some(NtcThermistorType::Ntc100K),
            _ => None,
        }
    }
}

/// Every thermistor selection code decodes back to its selection.
pub proof fn lemma_ntc_thermistor_type_round_trip(v: NtcThermistorType)
    ensures
        NtcThermistorType::spec_from_code(v.spec_code()) == Some(v),
{
}

} // verus!
