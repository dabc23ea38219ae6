//! Registers whose layout is particular to the TPS657201.

use vstd::prelude::*;
use crate::bits::{
    bit, field, get_bit, get_field, lemma_field_bound, set_bit, set_field, unchanged_outside,
    with_bit, with_field,
};
use crate::error::InvalidField;
use crate::registers::control::OpampMuxMeasurement;
use crate::registers::control::ResetDelay;
use crate::registers::{Register, RegisterAddress, WritableRegister};

verus! {

/// `CONTROL1`, control register 1 of the TPS657201. The host can write it.
///
/// | bits | field |
/// |------|-------|
/// | 0 | `reset_delay` |
/// | 1 | `opamp_mux_enabled` |
/// | 2 | `opamp_mux_measurement` |
/// | 3 | reserved |
/// | 4 | `push_button_pressed` |
/// | 5 | `dcdc_ldo_enabled`, read only |
/// | 6 to 7 | reserved |
///
/// Reserved bits pass through: `decode` keeps them as they were read, no setter
/// touches them, and `encode` hands them back unchanged. `new` clears them.
#[derive(Clone, Copy, Debug, PartialEq, Eq, Structural)]
pub struct Control1 {
    bits: u8,
}

impl View for Control1 {
    type V = u8;

    /// The byte of the register.
    closed spec fn view(&self) -> u8 {
        self.bits
    }
}

impl Control1 {
    /// The value with every bit clear.
    pub fn new() -> (value: Self)
        ensures
            value@ == 0,
    {
        Control1 { bits: 0 }
    }

    /// `RESET_DELAY`: the delay of the reset output.
    pub fn reset_delay(&self) -> (value: ResetDelay)
        ensures
            value.code() == field(self@, 0, 1),
    {
        let code = get_field(self.bits, 0, 1);
        ResetDelay::from_code(code).unwrap()
    }

    /// Sets `RESET_DELAY` and leaves every other bit as it is.
    pub fn set_reset_delay(&mut self, value: ResetDelay)
        ensures
            final(self)@ == with_field(old(self)@, 0, 1, value.code()),
            field(final(self)@, 0, 1) == value.code(),
            unchanged_outside(old(self)@, final(self)@, 0, 1),
    {
        self.bits = set_field(self.bits, 0, 1, value.code());
    }

    /// This value with `RESET_DELAY` set to `value`.
    pub fn with_reset_delay(self, value: ResetDelay) -> (updated: Self)
        ensures
            updated@ == with_field(self@, 0, 1, value.code()),
            field(updated@, 0, 1) == value.code(),
            unchanged_outside(self@, updated@, 0, 1),
    {
        Control1 { bits: set_field(self.bits, 0, 1, value.code()) }
    }

    /// `OPAMP_EN`: whether the operational amplifier is enabled.
    pub fn opamp_mux_enabled(&self) -> (value: bool)
        ensures
            value == bit(self@, 1),
    {
        get_bit(self.bits, 1)
    }

    /// Sets `OPAMP_EN` and leaves every other bit as it is.
    pub fn set_opamp_mux_enabled(&mut self, value: bool)
        ensures
            final(self)@ == with_bit(old(self)@, 1, value),
            bit(final(self)@, 1) == value,
            unchanged_outside(old(self)@, final(self)@, 1, 1),
    {
        self.bits = set_bit(self.bits, 1, value);
    }

    /// This value with `OPAMP_EN` set to `value`.
    pub fn with_opamp_mux_enabled(self, value: bool) -> (updated: Self)
        ensures
            updated@ == with_bit(self@, 1, value),
            bit(updated@, 1) == value,
            unchanged_outside(self@, updated@, 1, 1),
    {
        Control1 { bits: set_bit(self.bits, 1, value) }
    }

    /// `OPAMP_MUX`: what the operational amplifier measures.
    pub fn opamp_mux_measurement(&self) -> (value: OpampMuxMeasurement)
        ensures
            value.code() == field(self@, 2, 1),
    {
        let code = get_field(self.bits, 2, 1);
        OpampMuxMeasurement::from_code(code).unwrap()
    }

    /// Sets `OPAMP_MUX` and leaves every other bit as it is.
    pub fn set_opamp_mux_measurement(&mut self, value: OpampMuxMeasurement)
        ensures
            final(self)@ == with_field(old(self)@, 2, 1, value.code()),
            field(final(self)@, 2, 1) == value.code(),
            unchanged_outside(old(self)@, final(self)@, 2, 1),
    {
        self.bits = set_field(self.bits, 2, 1, value.code());
    }

    /// This value with `OPAMP_MUX` set to `value`.
    pub fn with_opamp_mux_measurement(self, value: OpampMuxMeasurement) -> (updated: Self)
        ensures
            updated@ == with_field(self@, 2, 1, value.code()),
            field(updated@, 2, 1) == value.code(),
            unchanged_outside(self@, updated@, 2, 1),
    {
        Control1 { bits: set_field(self.bits, 2, 1, value.code()) }
    }

    /// `PB_STAT`: the state of the push button.
    pub fn push_button_pressed(&self) -> (value: bool)
        ensures
            value == bit(self@, 4),
    {
        get_bit(self.bits, 4)
    }

    /// Sets `PB_STAT` and leaves every other bit as it is.
    pub fn set_push_button_pressed(&mut self, value: bool)
        ensures
            final(self)@ == with_bit(old(self)@, 4, value),
            bit(final(self)@, 4) == value,
            unchanged_outside(old(self)@, final(self)@, 4, 1),
    {
        self.bits = set_bit(self.bits, 4, value);
    }

    /// This value with `PB_STAT` set to `value`.
    pub fn with_push_button_pressed(self, value: bool) -> (updated: Self)
        ensures
            updated@ == with_bit(self@, 4, value),
            bit(updated@, 4) == value,
            unchanged_outside(self@, updated@, 4, 1),
    {
        Control1 { bits: set_bit(self.bits, 4, value) }
    }

    /// `HOLD`: whether the DCDC converter and the LDO regulator are enabled.
    pub fn dcdc_ldo_enabled(&self) -> (value: bool)
        ensures
            value == bit(self@, 5),
    {
        get_bit(self.bits, 5)
    }

    /// Whether every field of `byte` holds a code that the field's enumeration
    /// lists.
    pub open spec fn legal(byte: u8) -> bool {
        &&& ResetDelay::from_code_spec(field(byte, 0, 1)) is Ok
        &&& OpampMuxMeasurement::from_code_spec(field(byte, 2, 1)) is Ok
    }

    /// Each enumeration lists every code of its width, so every byte is legal.
    pub proof fn lemma_legal(byte: u8)
        ensures
            Self::legal(byte),
    {
        lemma_field_bound(byte, 0, 1);
        ResetDelay::lemma_from_code(field(byte, 0, 1));
        lemma_field_bound(byte, 2, 1);
        OpampMuxMeasurement::lemma_from_code(field(byte, 2, 1));
    }

    /// A byte decodes if and only if it is legal, and then to the value that
    /// holds it; a byte that is not legal is refused. Every byte is legal, so
    /// every byte decodes.
    pub proof fn lemma_decode(byte: u8)
        ensures
            Self::decode_spec(byte) is Ok <==> Self::legal(byte),
            Self::decode_spec(byte) matches Ok(value) && value@ == byte,
    {
        Self::lemma_legal(byte);
    }

    /// The fields and the reserved bits are all of the byte: two values that
    /// agree on each of them are equal.
    pub proof fn lemma_fields_determine_value(a: Self, b: Self)
        requires
            field(a@, 0, 1) == field(b@, 0, 1),
            bit(a@, 1) == bit(b@, 1),
            field(a@, 2, 1) == field(b@, 2, 1),
            bit(a@, 3) == bit(b@, 3),
            bit(a@, 4) == bit(b@, 4),
            bit(a@, 5) == bit(b@, 5),
            field(a@, 6, 2) == field(b@, 6, 2),
        ensures
            a == b,
    {
        let x = a@;
        let y = b@;
        assert(x == y) by (bit_vector)
            requires
                field(x, 0, 1) == field(y, 0, 1),
                bit(x, 1) == bit(y, 1),
                field(x, 2, 1) == field(y, 2, 1),
                bit(x, 3) == bit(y, 3),
                bit(x, 4) == bit(y, 4),
                bit(x, 5) == bit(y, 5),
                field(x, 6, 2) == field(y, 6, 2),
        ;
    }
}

impl Register for Control1 {
    open spec fn address_spec() -> RegisterAddress {
        RegisterAddress::Control1
    }

    closed spec fn decode_spec(byte: u8) -> Result<Self, InvalidField> {
        if Self::legal(byte) {
            Ok(Control1 { bits: byte })
        } else {
            Err(InvalidField)
        }
    }

    open spec fn encode_spec(self) -> u8 {
        self@
    }

    fn address() -> (address: RegisterAddress)
        ensures
            address == RegisterAddress::Control1,
    {
        RegisterAddress::Control1
    }

    /// Every byte is legal, so every byte decodes.
    fn decode(byte: u8) -> (value: Result<Self, InvalidField>)
        ensures
            value matches Ok(register) && register@ == byte,
    {
        proof {
            Self::lemma_legal(byte);
        }
        Ok(Control1 { bits: byte })
    }

    fn encode(self) -> (byte: u8)
        ensures
            byte == self@,
    {
        self.bits
    }

    proof fn lemma_decode_encode(value: Self) {
        Self::lemma_legal(value@);
    }
}

impl WritableRegister for Control1 {
    proof fn lemma_writable() {
    }

    proof fn lemma_encode_decode(byte: u8) {
    }
}

} // verus!
