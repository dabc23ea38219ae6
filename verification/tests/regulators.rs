use tps6572x::registers::{
    DCDCSetting, LDOControl, OutputVoltage, Register, RegisterAddress,
};

#[test]
fn dcdc_setting_address() {
    assert_eq!(DCDCSetting::address(), RegisterAddress::DCDCSettingControl);
    assert_eq!(DCDCSetting::address().byte(), 0x07);
    assert_eq!(DCDCSetting::address().writable(), true);
}

#[test]
fn dcdc_setting_new_is_zero() {
    assert_eq!(DCDCSetting::new().encode(), 0);
    assert_eq!(DCDCSetting::decode(0), Ok(DCDCSetting::new()));
}

#[test]
fn dcdc_setting_round_trip() {
    for byte in 0..=255u8 {
        let value = DCDCSetting::decode(byte).unwrap();
        assert_eq!(value.encode(), byte);
        assert_eq!(DCDCSetting::decode(value.encode()), Ok(value));
        assert_eq!(value.output_voltage().code(), (byte >> 0) & 0x3f);
        assert_eq!(value.discharged_when_disabled(), byte & 0b0100_0000 != 0);
        assert_eq!(value.hold(), byte & 0b1000_0000 != 0);
    }
}

#[test]
fn dcdc_setting_reads_each_field() {
    let value = DCDCSetting::decode(0b0010_1010).unwrap();
    assert_eq!(value.output_voltage(), OutputVoltage::V2_100);
    assert_eq!(value.discharged_when_disabled(), false);
    assert_eq!(value.hold(), false);

    let value = DCDCSetting::decode(0b0100_0000).unwrap();
    assert_eq!(value.output_voltage(), OutputVoltage::V0_800);
    assert_eq!(value.discharged_when_disabled(), true);
    assert_eq!(value.hold(), false);

    let value = DCDCSetting::decode(0b1000_0000).unwrap();
    assert_eq!(value.output_voltage(), OutputVoltage::V0_800);
    assert_eq!(value.discharged_when_disabled(), false);
    assert_eq!(value.hold(), true);

    let value = DCDCSetting::decode(0b1111_1111).unwrap();
    assert_eq!(value.output_voltage(), OutputVoltage::V3_300);
    assert_eq!(value.discharged_when_disabled(), true);
    assert_eq!(value.hold(), true);
}

#[test]
fn dcdc_setting_sets_each_field() {
    assert_eq!(DCDCSetting::new().with_output_voltage(OutputVoltage::V2_100).encode(), 0b0010_1010);
    let mut value = DCDCSetting::decode(0b1111_1111).unwrap();
    value.set_output_voltage(OutputVoltage::V0_800);
    assert_eq!(value.encode(), 0b1100_0000);
    assert_eq!(value.output_voltage(), OutputVoltage::V0_800);
    value.set_output_voltage(OutputVoltage::V2_100);
    assert_eq!(value.encode(), 0b1110_1010);
    assert_eq!(value.output_voltage(), OutputVoltage::V2_100);

    assert_eq!(DCDCSetting::new().with_discharged_when_disabled(true).encode(), 0b0100_0000);
    let mut value = DCDCSetting::decode(0b1111_1111).unwrap();
    value.set_discharged_when_disabled(false);
    assert_eq!(value.encode(), 0b1011_1111);
    assert_eq!(value.discharged_when_disabled(), false);
    value.set_discharged_when_disabled(true);
    assert_eq!(value.encode(), 0b1111_1111);
    assert_eq!(value.discharged_when_disabled(), true);

    assert_eq!(DCDCSetting::new().with_hold(true).encode(), 0b1000_0000);
    let mut value = DCDCSetting::decode(0b1111_1111).unwrap();
    value.set_hold(false);
    assert_eq!(value.encode(), 0b0111_1111);
    assert_eq!(value.hold(), false);
    value.set_hold(true);
    assert_eq!(value.encode(), 0b1111_1111);
    assert_eq!(value.hold(), true);
}

#[test]
fn ldo_control_address() {
    assert_eq!(LDOControl::address(), RegisterAddress::LDOSettingControl);
    assert_eq!(LDOControl::address().byte(), 0x08);
    assert_eq!(LDOControl::address().writable(), true);
}

#[test]
fn ldo_control_new_is_zero() {
    assert_eq!(LDOControl::new().encode(), 0);
    assert_eq!(LDOControl::decode(0), Ok(LDOControl::new()));
}

#[test]
fn ldo_control_round_trip() {
    for byte in 0..=255u8 {
        let value = LDOControl::decode(byte).unwrap();
        assert_eq!(value.encode(), byte);
        assert_eq!(LDOControl::decode(value.encode()), Ok(value));
        assert_eq!(value.output_voltage().code(), (byte >> 0) & 0x3f);
        assert_eq!(value.discharged_when_disabled(), byte & 0b0100_0000 != 0);
        assert_eq!(value.hold(), byte & 0b1000_0000 != 0);
    }
}

#[test]
fn ldo_control_reads_each_field() {
    let value = LDOControl::decode(0b0010_1010).unwrap();
    assert_eq!(value.output_voltage(), OutputVoltage::V2_100);
    assert_eq!(value.discharged_when_disabled(), false);
    assert_eq!(value.hold(), false);

    let value = LDOControl::decode(0b0100_0000).unwrap();
    assert_eq!(value.output_voltage(), OutputVoltage::V0_800);
    assert_eq!(value.discharged_when_disabled(), true);
    assert_eq!(value.hold(), false);

    let value = LDOControl::decode(0b1000_0000).unwrap();
    assert_eq!(value.output_voltage(), OutputVoltage::V0_800);
    assert_eq!(value.discharged_when_disabled(), false);
    assert_eq!(value.hold(), true);

    let value = LDOControl::decode(0b1111_1111).unwrap();
    assert_eq!(value.output_voltage(), OutputVoltage::V3_300);
    assert_eq!(value.discharged_when_disabled(), true);
    assert_eq!(value.hold(), true);
}

#[test]
fn ldo_control_sets_each_field() {
    assert_eq!(LDOControl::new().with_output_voltage(OutputVoltage::V2_100).encode(), 0b0010_1010);
    let mut value = LDOControl::decode(0b1111_1111).unwrap();
    value.set_output_voltage(OutputVoltage::V0_800);
    assert_eq!(value.encode(), 0b1100_0000);
    assert_eq!(value.output_voltage(), OutputVoltage::V0_800);
    value.set_output_voltage(OutputVoltage::V2_100);
    assert_eq!(value.encode(), 0b1110_1010);
    assert_eq!(value.output_voltage(), OutputVoltage::V2_100);

    assert_eq!(LDOControl::new().with_discharged_when_disabled(true).encode(), 0b0100_0000);
    let mut value = LDOControl::decode(0b1111_1111).unwrap();
    value.set_discharged_when_disabled(false);
    assert_eq!(value.encode(), 0b1011_1111);
    assert_eq!(value.discharged_when_disabled(), false);
    value.set_discharged_when_disabled(true);
    assert_eq!(value.encode(), 0b1111_1111);
    assert_eq!(value.discharged_when_disabled(), true);

    assert_eq!(LDOControl::new().with_hold(true).encode(), 0b1000_0000);
    let mut value = LDOControl::decode(0b1111_1111).unwrap();
    value.set_hold(false);
    assert_eq!(value.encode(), 0b0111_1111);
    assert_eq!(value.hold(), false);
    value.set_hold(true);
    assert_eq!(value.encode(), 0b1111_1111);
    assert_eq!(value.hold(), true);
}
