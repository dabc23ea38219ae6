use tps6572x::registers::tps657201::Control1;
use tps6572x::registers::{
    OpampMuxMeasurement, Register, RegisterAddress, ResetDelay,
};

#[test]
fn tps657201_control1_address() {
    assert_eq!(Control1::address(), RegisterAddress::Control1);
    assert_eq!(Control1::address().byte(), 0x0A);
    assert_eq!(Control1::address().writable(), true);
}

#[test]
fn tps657201_control1_new_is_zero() {
    assert_eq!(Control1::new().encode(), 0);
    assert_eq!(Control1::decode(0), Ok(Control1::new()));
}

#[test]
fn tps657201_control1_round_trip() {
    for byte in 0..=255u8 {
        let value = Control1::decode(byte).unwrap();
        assert_eq!(value.encode(), byte);
        assert_eq!(Control1::decode(value.encode()), Ok(value));
        assert_eq!(value.reset_delay().code(), (byte >> 0) & 0b1);
        assert_eq!(value.opamp_mux_enabled(), byte & 0b0000_0010 != 0);
        assert_eq!(value.opamp_mux_measurement().code(), (byte >> 2) & 0b1);
        assert_eq!(value.push_button_pressed(), byte & 0b0001_0000 != 0);
        assert_eq!(value.dcdc_ldo_enabled(), byte & 0b0010_0000 != 0);
    }
}

#[test]
fn tps657201_control1_reads_each_field() {
    let value = Control1::decode(0b0000_0001).unwrap();
    assert_eq!(value.reset_delay(), ResetDelay::Ms90);
    assert_eq!(value.opamp_mux_enabled(), false);
    assert_eq!(value.opamp_mux_measurement(), OpampMuxMeasurement::BatteryVoltage);
    assert_eq!(value.push_button_pressed(), false);
    assert_eq!(value.dcdc_ldo_enabled(), false);

    let value = Control1::decode(0b0000_0010).unwrap();
    assert_eq!(value.reset_delay(), ResetDelay::Ms11);
    assert_eq!(value.opamp_mux_enabled(), true);
    assert_eq!(value.opamp_mux_measurement(), OpampMuxMeasurement::BatteryVoltage);
    assert_eq!(value.push_button_pressed(), false);
    assert_eq!(value.dcdc_ldo_enabled(), false);

    let value = Control1::decode(0b0000_0100).unwrap();
    assert_eq!(value.reset_delay(), ResetDelay::Ms11);
    assert_eq!(value.opamp_mux_enabled(), false);
    assert_eq!(value.opamp_mux_measurement(), OpampMuxMeasurement::Temperature);
    assert_eq!(value.push_button_pressed(), false);
    assert_eq!(value.dcdc_ldo_enabled(), false);

    let value = Control1::decode(0b0001_0000).unwrap();
    assert_eq!(value.reset_delay(), ResetDelay::Ms11);
    assert_eq!(value.opamp_mux_enabled(), false);
    assert_eq!(value.opamp_mux_measurement(), OpampMuxMeasurement::BatteryVoltage);
    assert_eq!(value.push_button_pressed(), true);
    assert_eq!(value.dcdc_ldo_enabled(), false);

    let value = Control1::decode(0b0010_0000).unwrap();
    assert_eq!(value.reset_delay(), ResetDelay::Ms11);
    assert_eq!(value.opamp_mux_enabled(), false);
    assert_eq!(value.opamp_mux_measurement(), OpampMuxMeasurement::BatteryVoltage);
    assert_eq!(value.push_button_pressed(), false);
    assert_eq!(value.dcdc_ldo_enabled(), true);

    let value = Control1::decode(0b1111_1111).unwrap();
    assert_eq!(value.reset_delay(), ResetDelay::Ms90);
    assert_eq!(value.opamp_mux_enabled(), true);
    assert_eq!(value.opamp_mux_measurement(), OpampMuxMeasurement::Temperature);
    assert_eq!(value.push_button_pressed(), true);
    assert_eq!(value.dcdc_ldo_enabled(), true);
}

#[test]
fn tps657201_control1_sets_each_field() {
    assert_eq!(Control1::new().with_reset_delay(ResetDelay::Ms90).encode(), 0b0000_0001);
    let mut value = Control1::decode(0b1111_1111).unwrap();
    value.set_reset_delay(ResetDelay::Ms11);
    assert_eq!(value.encode(), 0b1111_1110);
    assert_eq!(value.reset_delay(), ResetDelay::Ms11);
    value.set_reset_delay(ResetDelay::Ms90);
    assert_eq!(value.encode(), 0b1111_1111);
    assert_eq!(value.reset_delay(), ResetDelay::Ms90);

    assert_eq!(Control1::new().with_opamp_mux_enabled(true).encode(), 0b0000_0010);
    let mut value = Control1::decode(0b1111_1111).unwrap();
    value.set_opamp_mux_enabled(false);
    assert_eq!(value.encode(), 0b1111_1101);
    assert_eq!(value.opamp_mux_enabled(), false);
    value.set_opamp_mux_enabled(true);
    assert_eq!(value.encode(), 0b1111_1111);
    assert_eq!(value.opamp_mux_enabled(), true);

    assert_eq!(
        Control1::new().with_opamp_mux_measurement(OpampMuxMeasurement::Temperature).encode(),
        0b0000_0100
    );
    let mut value = Control1::decode(0b1111_1111).unwrap();
    value.set_opamp_mux_measurement(OpampMuxMeasurement::BatteryVoltage);
    assert_eq!(value.encode(), 0b1111_1011);
    assert_eq!(value.opamp_mux_measurement(), OpampMuxMeasurement::BatteryVoltage);
    value.set_opamp_mux_measurement(OpampMuxMeasurement::Temperature);
    assert_eq!(value.encode(), 0b1111_1111);
    assert_eq!(value.opamp_mux_measurement(), OpampMuxMeasurement::Temperature);

    assert_eq!(Control1::new().with_push_button_pressed(true).encode(), 0b0001_0000);
    let mut value = Control1::decode(0b1111_1111).unwrap();
    value.set_push_button_pressed(false);
    assert_eq!(value.encode(), 0b1110_1111);
    assert_eq!(value.push_button_pressed(), false);
    value.set_push_button_pressed(true);
    assert_eq!(value.encode(), 0b1111_1111);
    assert_eq!(value.push_button_pressed(), true);
}

#[test]
fn tps657201_control1_setters_keep_the_other_bits() {
    let value = Control1::decode(0b1110_1000)
        .unwrap()
        .with_reset_delay(ResetDelay::Ms90)
        .with_opamp_mux_enabled(true)
        .with_opamp_mux_measurement(OpampMuxMeasurement::Temperature)
        .with_push_button_pressed(true);
    assert_eq!(value.encode(), 0b1111_1111);

    let value = Control1::decode(0b0000_0000)
        .unwrap()
        .with_reset_delay(ResetDelay::Ms90)
        .with_opamp_mux_enabled(true)
        .with_opamp_mux_measurement(OpampMuxMeasurement::Temperature)
        .with_push_button_pressed(true);
    assert_eq!(value.encode(), 0b0001_0111);
}
