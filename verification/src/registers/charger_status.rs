//! The charger's status and state registers, which the hardware drives.

use vstd::prelude::*;
use crate::bits::{bit, get_bit};
use crate::error::InvalidField;
use crate::registers::{Register, RegisterAddress};

verus! {

/// `CHGSTATUS`, status of the charger. The hardware drives it: it has no
/// setters and cannot be written.
///
/// | bits | field |
/// |------|-------|
/// | 0 | reserved |
/// | 1 | `thermal_loop_active` |
/// | 2 | `power_source_ok` |
/// | 3 | `charger_active` |
/// | 4 | reserved |
/// | 5 | `over_voltage_protection` |
/// | 6 | `temp_low` |
/// | 7 | `temp_high` |
///
/// Reserved bits pass through: `decode` keeps them as they were read, no setter
/// touches them, and `encode` hands them back unchanged. `new` clears them.
#[derive(Clone, Copy, Debug, PartialEq, Eq, Structural)]
pub struct ChargerStatus {
    bits: u8,
}

impl View for ChargerStatus {
    type V = u8;

    /// The byte of the register.
    closed spec fn view(&self) -> u8 {
        self.bits
    }
}

impl ChargerStatus {
    /// The value with every bit clear.
    pub fn new() -> (value: Self)
        ensures
            value@ == 0,
    {
        ChargerStatus { bits: 0 }
    }

    /// `CH_THLOOP`: whether the thermal loop is active.
    pub fn thermal_loop_active(&self) -> (value: bool)
        ensures
            value == bit(self@, 1),
    {
        get_bit(self.bits, 1)
    }

    /// `CH_PGOOD`: whether the power source is good.
    pub fn power_source_ok(&self) -> (value: bool)
        ensures
            value == bit(self@, 2),
    {
        get_bit(self.bits, 2)
    }

    /// `CH_ACTIVE`: whether the charger is active.
    pub fn charger_active(&self) -> (value: bool)
        ensures
            value == bit(self@, 3),
    {
        get_bit(self.bits, 3)
    }

    /// `OVP`: whether the over-voltage protection is active.
    pub fn over_voltage_protection(&self) -> (value: bool)
        ensures
            value == bit(self@, 5),
    {
        get_bit(self.bits, 5)
    }

    /// `TS_COLD`: whether the battery is too cold.
    pub fn temp_low(&self) -> (value: bool)
        ensures
            value == bit(self@, 6),
    {
        get_bit(self.bits, 6)
    }

    /// `TS_HOT`: whether the battery is too hot.
    pub fn temp_high(&self) -> (value: bool)
        ensures
            value == bit(self@, 7),
    {
        get_bit(self.bits, 7)
    }

    /// No field is an enumeration, so every byte decodes, to the value that
    /// holds it.
    pub proof fn lemma_decode(byte: u8)
        ensures
            Self::decode_spec(byte) matches Ok(value) && value@ == byte,
    {
    }

    /// The fields and the reserved bits are all of the byte: two values that
    /// agree on each of them are equal.
    pub proof fn lemma_fields_determine_value(a: Self, b: Self)
        requires
            bit(a@, 0) == bit(b@, 0),
            bit(a@, 1) == bit(b@, 1),
            bit(a@, 2) == bit(b@, 2),
            bit(a@, 3) == bit(b@, 3),
            bit(a@, 4) == bit(b@, 4),
            bit(a@, 5) == bit(b@, 5),
            bit(a@, 6) == bit(b@, 6),
            bit(a@, 7) == bit(b@, 7),
        ensures
            a == b,
    {
        let x = a@;
        let y = b@;
        assert(x == y) by (bit_vector)
            requires
                bit(x, 0) == bit(y, 0),
                bit(x, 1) == bit(y, 1),
                bit(x, 2) == bit(y, 2),
                bit(x, 3) == bit(y, 3),
                bit(x, 4) == bit(y, 4),
                bit(x, 5) == bit(y, 5),
                bit(x, 6) == bit(y, 6),
                bit(x, 7) == bit(y, 7),
        ;
    }
}

impl Register for ChargerStatus {
    open spec fn address_spec() -> RegisterAddress {
        RegisterAddress::BatteryChargerStatus
    }

    closed spec fn decode_spec(byte: u8) -> Result<Self, InvalidField> {
        Ok(ChargerStatus { bits: byte })
    }

    open spec fn encode_spec(self) -> u8 {
        self@
    }

    fn address() -> (address: RegisterAddress)
        ensures
            address == RegisterAddress::BatteryChargerStatus,
    {
        RegisterAddress::BatteryChargerStatus
    }

    /// No field is an enumeration, so every byte decodes.
    fn decode(byte: u8) -> (value: Result<Self, InvalidField>)
        ensures
            value matches Ok(register) && register@ == byte,
    {
        Ok(ChargerStatus { bits: byte })
    }

    fn encode(self) -> (byte: u8)
        ensures
            byte == self@,
    {
        self.bits
    }

    proof fn lemma_decode_encode(value: Self) {
    }
}

/// `CHGSTATE`, state of the charger. The hardware drives it: it has no setters
/// and cannot be written.
///
/// | bits | field |
/// |------|-------|
/// | 0 | `suspended` |
/// | 1 | `fault` |
/// | 2 | `ldo` |
/// | 3 | `constant_current` |
/// | 4 | `precharge` |
/// | 5 | `idle` |
/// | 6 | `reset` |
/// | 7 | `sleep` |
#[derive(Clone, Copy, Debug, PartialEq, Eq, Structural)]
pub struct ChargerState {
    bits: u8,
}

impl View for ChargerState {
    type V = u8;

    /// The byte of the register.
    closed spec fn view(&self) -> u8 {
        self.bits
    }
}

impl ChargerState {
    /// The value with every bit clear.
    pub fn new() -> (value: Self)
        ensures
            value@ == 0,
    {
        ChargerState { bits: 0 }
    }

    /// `CH_SUSP`: whether charging is suspended.
    pub fn suspended(&self) -> (value: bool)
        ensures
            value == bit(self@, 0),
    {
        get_bit(self.bits, 0)
    }

    /// `CH_FAULT`: whether the charger is in its fault state.
    pub fn fault(&self) -> (value: bool)
        ensures
            value == bit(self@, 1),
    {
        get_bit(self.bits, 1)
    }

    /// `CH_LDO`: whether the charger is in its LDO state.
    pub fn ldo(&self) -> (value: bool)
        ensures
            value == bit(self@, 2),
    {
        get_bit(self.bits, 2)
    }

    /// `CH_CC_CV`: whether the charger charges at constant current or constant
    /// voltage.
    pub fn constant_current(&self) -> (value: bool)
        ensures
            value == bit(self@, 3),
    {
        get_bit(self.bits, 3)
    }

    /// `CH_PRECH`: whether the charger pre-charges.
    pub fn precharge(&self) -> (value: bool)
        ensures
            value == bit(self@, 4),
    {
        get_bit(self.bits, 4)
    }

    /// `CH_IDLE`: whether the charger is idle.
    pub fn idle(&self) -> (value: bool)
        ensures
            value == bit(self@, 5),
    {
        get_bit(self.bits, 5)
    }

    /// `CH_RESET`: whether the charger is in reset.
    pub fn reset(&self) -> (value: bool)
        ensures
            value == bit(self@, 6),
    {
        get_bit(self.bits, 6)
    }

    /// `CH_SLEEP`: whether the charger sleeps.
    pub fn sleep(&self) -> (value: bool)
        ensures
            value == bit(self@, 7),
    {
        get_bit(self.bits, 7)
    }

    /// No field is an enumeration, so every byte decodes, to the value that
    /// holds it.
    pub proof fn lemma_decode(byte: u8)
        ensures
            Self::decode_spec(byte) matches Ok(value) && value@ == byte,
    {
    }

    /// The fields are all of the byte: two values that agree on each of them
    /// are equal.
    pub proof fn lemma_fields_determine_value(a: Self, b: Self)
        requires
            bit(a@, 0) == bit(b@, 0),
            bit(a@, 1) == bit(b@, 1),
            bit(a@, 2) == bit(b@, 2),
            bit(a@, 3) == bit(b@, 3),
            bit(a@, 4) == bit(b@, 4),
            bit(a@, 5) == bit(b@, 5),
            bit(a@, 6) == bit(b@, 6),
            bit(a@, 7) == bit(b@, 7),
        ensures
            a == b,
    {
        let x = a@;
        let y = b@;
        assert(x == y) by (bit_vector)
            requires
                bit(x, 0) == bit(y, 0),
                bit(x, 1) == bit(y, 1),
                bit(x, 2) == bit(y, 2),
                bit(x, 3) == bit(y, 3),
                bit(x, 4) == bit(y, 4),
                bit(x, 5) == bit(y, 5),
                bit(x, 6) == bit(y, 6),
                bit(x, 7) == bit(y, 7),
        ;
    }
}

impl Register for ChargerState {
    open spec fn address_spec() -> RegisterAddress {
        RegisterAddress::BatteryChargeState
    }

    closed spec fn decode_spec(byte: u8) -> Result<Self, InvalidField> {
        Ok(ChargerState { bits: byte })
    }

    open spec fn encode_spec(self) -> u8 {
        self@
    }

    fn address() -> (address: RegisterAddress)
        ensures
            address == RegisterAddress::BatteryChargeState,
    {
        RegisterAddress::BatteryChargeState
    }

    /// No field is an enumeration, so every byte decodes.
    fn decode(byte: u8) -> (value: Result<Self, InvalidField>)
        ensures
            value matches Ok(register) && register@ == byte,
    {
        Ok(ChargerState { bits: byte })
    }

    fn encode(self) -> (byte: u8)
        ensures
            byte == self@,
    {
        self.bits
    }

    proof fn lemma_decode_encode(value: Self) {
    }
}

} // verus!
