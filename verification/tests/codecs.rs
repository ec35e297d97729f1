//! Tests for the pure codecs: the 10-bit composite split, the enumerated
//! field codecs and the threshold computations.

use npm1300::adc_types::{
    IbatStatuscodes, Ntcautotim, NtcThermistorType, Tempautotim, Vbatautoenable, Vbatburstenable,
};
use npm1300::charger::{compute_die_temperature_code, compute_ntc_threshold};
use npm1300::charger_types::{
    ChargerTerminationCurrentLevelSelect, ChargerTerminationVoltage, ChargerTrickleLevelSelect,
    DischargeCurrentLimit,
};
use npm1300::codec::{compose10, split10};
use npm1300::ldsw_types::LdswVoltage;
use npm1300::sysreg_types::VbusInCurrentLimit;

#[test]
fn composite_round_trip_all_values() {
    for x in 0u16..=1023 {
        let (msb, lsb) = split10(x);
        assert_eq!(compose10(msb, lsb), x);
    }
}

#[test]
fn composite_split_values() {
    assert_eq!(split10(512), (128, 0));
    assert_eq!(split10(1023), (255, 3));
    assert_eq!(split10(0), (0, 0));
    assert_eq!(split10(435), (108, 3));
}

#[test]
fn composite_decode_masks_low_bits() {
    // Only the two low bits of the LSB register byte belong to the value.
    assert_eq!(compose10(1, 0xFF), (1 << 2) | 3);
}

#[test]
fn ibat_statuscodes_round_trip() {
    let all = vec![
        IbatStatuscodes::IbatStatDischarge,
        IbatStatuscodes::IbatStatChargeError,
        IbatStatuscodes::IbatStatChargeTrickle,
        IbatStatuscodes::IbatStatChargeCool,
        IbatStatuscodes::IbatStatChargeNormal,
    ];
    for v in all {
        assert_eq!(IbatStatuscodes::from_code(v.code()), Some(v));
    }
    assert_eq!(IbatStatuscodes::from_code(0), None);
    assert_eq!(IbatStatuscodes::from_code(3), None);
    assert_eq!(IbatStatuscodes::code(IbatStatuscodes::IbatStatDischarge), 4);
}

#[test]
fn vbat_auto_and_burst_round_trip() {
    for v in vec![Vbatautoenable::Noauto, Vbatautoenable::Autoenable] {
        assert_eq!(Vbatautoenable::from_code(v.code()), Some(v));
    }
    for v in vec![Vbatburstenable::Singlemode, Vbatburstenable::Burstmode] {
        assert_eq!(Vbatburstenable::from_code(v.code()), Some(v));
    }
    assert_eq!(Vbatautoenable::from_code(2), None);
}

#[test]
fn auto_measurement_interval_round_trip() {
    for v in vec![Ntcautotim::Ms4, Ntcautotim::Ms64, Ntcautotim::Ms128, Ntcautotim::Ms1024] {
        assert_eq!(Ntcautotim::from_code(v.code()), Some(v));
    }
    for v in vec![Tempautotim::Ms4, Tempautotim::Ms8, Tempautotim::Ms16, Tempautotim::Ms32] {
        assert_eq!(Tempautotim::from_code(v.code()), Some(v));
    }
    assert_eq!(Ntcautotim::from_code(4), None);
    assert_eq!(Tempautotim::from_code(4), None);
}

#[test]
fn ntc_thermistor_type_round_trip() {
    let all = vec![
        NtcThermistorType::NoThermistor,
        NtcThermistorType::Ntc10K,
        NtcThermistorType::Ntc47K,
        NtcThermistorType::Ntc100K,
    ];
    for v in all {
        assert_eq!(NtcThermistorType::from_code(v.code()), Some(v));
    }
    assert_eq!(NtcThermistorType::from_code(4), None);
}

#[test]
fn termination_voltage_round_trip() {
    let all = vec![
        ChargerTerminationVoltage::V3_50,
        ChargerTerminationVoltage::V3_55,
        ChargerTerminationVoltage::V3_60,
        ChargerTerminationVoltage::V3_65,
        ChargerTerminationVoltage::V4_00,
        ChargerTerminationVoltage::V4_05,
        ChargerTerminationVoltage::V4_10,
        ChargerTerminationVoltage::V4_15,
        ChargerTerminationVoltage::V4_20,
        ChargerTerminationVoltage::V4_25,
        ChargerTerminationVoltage::V4_30,
        ChargerTerminationVoltage::V4_35,
        ChargerTerminationVoltage::V4_40,
        ChargerTerminationVoltage::V4_45,
    ];
    for v in all {
        assert_eq!(ChargerTerminationVoltage::from_code(v.code()), Some(v));
    }
    assert_eq!(ChargerTerminationVoltage::from_code(14), None);
    assert_eq!(ChargerTerminationVoltage::from_code(255), None);
}

#[test]
fn trickle_and_termination_current_round_trip() {
    for v in vec![ChargerTrickleLevelSelect::V2_9, ChargerTrickleLevelSelect::V2_5] {
        assert_eq!(ChargerTrickleLevelSelect::from_code(v.code()), Some(v));
    }
    for v in vec![
        ChargerTerminationCurrentLevelSelect::Sel10,
        ChargerTerminationCurrentLevelSelect::Sel20,
    ] {
        assert_eq!(ChargerTerminationCurrentLevelSelect::from_code(v.code()), Some(v));
    }
}

#[test]
fn discharge_current_limit_round_trip() {
    for v in vec![DischargeCurrentLimit::Low, DischargeCurrentLimit::High] {
        assert_eq!(DischargeCurrentLimit::from_registers(v.msb(), v.lsb()), Some(v));
    }
    assert_eq!(DischargeCurrentLimit::from_registers(42, 0), Some(DischargeCurrentLimit::Low));
    assert_eq!(DischargeCurrentLimit::from_registers(207, 1), Some(DischargeCurrentLimit::High));
    assert_eq!(DischargeCurrentLimit::from_registers(42, 1), None);
    assert_eq!(DischargeCurrentLimit::from_registers(0, 0), None);
}

#[test]
fn ldsw_voltage_round_trip() {
    for code in 0u8..24 {
        let v = LdswVoltage::from_code(code).unwrap();
        assert_eq!(v.code(), code);
    }
    assert_eq!(LdswVoltage::from_code(24), None);
    assert_eq!(LdswVoltage::code(LdswVoltage::V1_0), 0);
    assert_eq!(LdswVoltage::code(LdswVoltage::V3_3), 23);
}

#[test]
fn vbus_in_current_limit_round_trip() {
    for code in 1u8..=13 {
        let v = VbusInCurrentLimit::from_code(code).unwrap();
        assert_eq!(v.code(), code);
    }
    assert_eq!(VbusInCurrentLimit::from_code(0), None);
    assert_eq!(VbusInCurrentLimit::from_code(14), None);
    assert_eq!(VbusInCurrentLimit::code(VbusInCurrentLimit::Ma500), 5);
}

#[test]
fn ntc_threshold_half_ratio() {
    // Equal desired and reference resistances give exactly half the scale.
    assert_eq!(compute_ntc_threshold(10000, 10000), Some(512));
}

#[test]
fn ntc_threshold_quarter_ratio() {
    assert_eq!(compute_ntc_threshold(10000, 30000), Some(256));
}

#[test]
fn ntc_threshold_out_of_range() {
    // A ratio rounding to 1024 has no 10-bit code.
    assert_eq!(compute_ntc_threshold(2047000, 1000), None);
    // Reference zero puts the ratio at the full scale exactly.
    assert_eq!(compute_ntc_threshold(1, 0), None);
    // Both resistances zero leave the ratio undefined.
    assert_eq!(compute_ntc_threshold(0, 0), None);
    // Desired zero is the bottom of the scale and valid.
    assert_eq!(compute_ntc_threshold(0, 10000), Some(0));
    // Just inside the range.
    assert_eq!(compute_ntc_threshold(2046999, 1001), Some(1023));
}

#[test]
fn die_temperature_code_bounds() {
    assert_eq!(compute_die_temperature_code(49), None);
    assert_eq!(compute_die_temperature_code(111), None);
    assert_eq!(compute_die_temperature_code(0), None);
    // round((394.67 - 50) / 0.7926) == round(434.86) == 435
    assert_eq!(compute_die_temperature_code(50), Some(435));
    // round((394.67 - 110) / 0.7926) == round(359.16) == 359
    assert_eq!(compute_die_temperature_code(110), Some(359));
    // round((394.67 - 100) / 0.7926) == round(371.78) == 372
    assert_eq!(compute_die_temperature_code(100), Some(372));
}
