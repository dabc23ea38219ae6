use tps6572x::registers::tps657201;
use tps6572x::registers::{
    ChargerConfig0, ChargerConfig1, ChargerConfig2, ChargerConfig3, ChargerState, ChargerStatus,
    Control0, Control1, DCDCSetting, GPIOConfigControl, Interrupt1, Interrupt2, InterruptMask1,
    InterruptMask2, IterruptMask0, Iterrupt0, LDOControl, Register, RegisterAddress, GPIOSSC,
};

const ALL: [(RegisterAddress, u8, bool); 18] = [
    (RegisterAddress::BatteryChargerStatus, 0x01, false),
    (RegisterAddress::ChargerConfigControl0, 0x02, true),
    (RegisterAddress::BatteryChargerConfigControl1, 0x03, true),
    (RegisterAddress::BatteryChargerConfigControl2, 0x04, true),
    (RegisterAddress::BatteryChargerConfigControl3, 0x05, true),
    (RegisterAddress::BatteryChargeState, 0x06, false),
    (RegisterAddress::DCDCSettingControl, 0x07, true),
    (RegisterAddress::LDOSettingControl, 0x08, true),
    (RegisterAddress::Control0, 0x09, true),
    (RegisterAddress::Control1, 0x0A, true),
    (RegisterAddress::GPIOSCC, 0x0B, true),
    (RegisterAddress::GPIOConfigControl, 0x0C, true),
    (RegisterAddress::InterruptReporting0, 0x10, false),
    (RegisterAddress::InterruptReporting1, 0x11, false),
    (RegisterAddress::InterruptReporting2, 0x12, false),
    (RegisterAddress::InterruptMask0, 0xD0, true),
    (RegisterAddress::InterruptMask1, 0xE0, true),
    (RegisterAddress::InterruptMask2, 0xF0, true),
];

#[test]
fn every_address_has_its_byte() {
    for (address, byte, _) in ALL {
        assert_eq!(address.byte(), byte);
    }
}

#[test]
fn no_two_addresses_share_a_byte() {
    for (index, (first, _, _)) in ALL.iter().enumerate() {
        for (second, _, _) in &ALL[index + 1..] {
            assert_ne!(first.byte(), second.byte());
            assert_ne!(first, second);
        }
    }
}

#[test]
fn status_state_and_report_registers_are_read_only() {
    for (address, _, writable) in ALL {
        assert_eq!(address.writable(), writable);
    }
}

#[test]
fn every_register_type_is_bound_to_its_address() {
    assert_eq!(ChargerStatus::address().byte(), 0x01);
    assert_eq!(ChargerConfig0::address().byte(), 0x02);
    assert_eq!(ChargerConfig1::address().byte(), 0x03);
    assert_eq!(ChargerConfig2::address().byte(), 0x04);
    assert_eq!(ChargerConfig3::address().byte(), 0x05);
    assert_eq!(ChargerState::address().byte(), 0x06);
    assert_eq!(DCDCSetting::address().byte(), 0x07);
    assert_eq!(LDOControl::address().byte(), 0x08);
    assert_eq!(Control0::address().byte(), 0x09);
    assert_eq!(Control1::address().byte(), 0x0A);
    assert_eq!(tps657201::Control1::address().byte(), 0x0A);
    assert_eq!(GPIOSSC::address().byte(), 0x0B);
    assert_eq!(GPIOConfigControl::address().byte(), 0x0C);
    assert_eq!(Iterrupt0::address().byte(), 0x10);
    assert_eq!(Interrupt1::address().byte(), 0x11);
    assert_eq!(Interrupt2::address().byte(), 0x12);
    assert_eq!(IterruptMask0::address().byte(), 0xD0);
    assert_eq!(InterruptMask1::address().byte(), 0xE0);
    assert_eq!(InterruptMask2::address().byte(), 0xF0);
}

#[test]
fn the_address_does_not_depend_on_the_value() {
    let first = ChargerConfig0::address();
    let _ = ChargerConfig0::decode(0b1111_1111);
    let _ = ChargerConfig0::new().with_charger_enabled(true);
    assert_eq!(ChargerConfig0::address(), first);
    assert_eq!(ChargerConfig0::address(), RegisterAddress::ChargerConfigControl0);
}
