//! The interrupt mask registers and the interrupt report registers.

use vstd::prelude::*;
use crate::bits::{bit, get_bit, set_bit, unchanged_outside, with_bit};
use crate::error::InvalidField;
use crate::registers::{Register, RegisterAddress, WritableRegister};

verus! {

/// `IRMASK0`, interrupt mask 0. The host can write it.
///
/// | bits | field |
/// |------|-------|
/// | 0 | `thermal_loop_interrupt` |
/// | 1 | `batt_voltage_comparator_interrupt` |
/// | 2 | `power_source_ok_interrupt` |
/// | 3 | `charger_active` |
/// | 4 | reserved |
/// | 5 | `over_voltage_protection_interrupt` |
/// | 6 | `temp_low_interrupt` |
/// | 7 | `temp_high_interrupt` |
///
/// Reserved bits pass through: `decode` keeps them as they were read, no setter
/// touches them, and `encode` hands them back unchanged. `new` clears them.
#[derive(Clone, Copy, Debug, PartialEq, Eq, Structural)]
pub struct IterruptMask0 {
    bits: u8,
}

impl View for IterruptMask0 {
    type V = u8;

    /// The byte of the register.
    closed spec fn view(&self) -> u8 {
        self.bits
    }
}

impl IterruptMask0 {
    /// The value with every bit clear.
    pub fn new() -> (value: Self)
        ensures
            value@ == 0,
    {
        IterruptMask0 { bits: 0 }
    }

    /// `M_THLOOP`: the mask of the thermal loop interrupt.
    pub fn thermal_loop_interrupt(&self) -> (value: bool)
        ensures
            value == bit(self@, 0),
    {
        get_bit(self.bits, 0)
    }

    /// Sets `M_THLOOP` and leaves every other bit as it is.
    pub fn set_thermal_loop_interrupt(&mut self, value: bool)
        ensures
            final(self)@ == with_bit(old(self)@, 0, value),
            bit(final(self)@, 0) == value,
            unchanged_outside(old(self)@, final(self)@, 0, 1),
    {
        self.bits = set_bit(self.bits, 0, value);
    }

    /// This value with `M_THLOOP` set to `value`.
    pub fn with_thermal_loop_interrupt(self, value: bool) -> (updated: Self)
        ensures
            updated@ == with_bit(self@, 0, value),
            bit(updated@, 0) == value,
            unchanged_outside(self@, updated@, 0, 1),
    {
        IterruptMask0 { bits: set_bit(self.bits, 0, value) }
    }

    /// `M_VBAT_COMP`: the mask of the battery voltage comparator interrupt.
    pub fn batt_voltage_comparator_interrupt(&self) -> (value: bool)
        ensures
            value == bit(self@, 1),
    {
        get_bit(self.bits, 1)
    }

    /// Sets `M_VBAT_COMP` and leaves every other bit as it is.
    pub fn set_batt_voltage_comparator_interrupt(&mut self, value: bool)
        ensures
            final(self)@ == with_bit(old(self)@, 1, value),
            bit(final(self)@, 1) == value,
            unchanged_outside(old(self)@, final(self)@, 1, 1),
    {
        self.bits = set_bit(self.bits, 1, value);
    }

    /// This value with `M_VBAT_COMP` set to `value`.
    pub fn with_batt_voltage_comparator_interrupt(self, value: bool) -> (updated: Self)
        ensures
            updated@ == with_bit(self@, 1, value),
            bit(updated@, 1) == value,
            unchanged_outside(self@, updated@, 1, 1),
    {
        IterruptMask0 { bits: set_bit(self.bits, 1, value) }
    }

    /// `M_CH_PGOOD`: the mask of the power-good interrupt.
    pub fn power_source_ok_interrupt(&self) -> (value: bool)
        ensures
            value == bit(self@, 2),
    {
        get_bit(self.bits, 2)
    }

    /// Sets `M_CH_PGOOD` and leaves every other bit as it is.
    pub fn set_power_source_ok_interrupt(&mut self, value: bool)
        ensures
            final(self)@ == with_bit(old(self)@, 2, value),
            bit(final(self)@, 2) == value,
            unchanged_outside(old(self)@, final(self)@, 2, 1),
    {
        self.bits = set_bit(self.bits, 2, value);
    }

    /// This value with `M_CH_PGOOD` set to `value`.
    pub fn with_power_source_ok_interrupt(self, value: bool) -> (updated: Self)
        ensures
            updated@ == with_bit(self@, 2, value),
            bit(updated@, 2) == value,
            unchanged_outside(self@, updated@, 2, 1),
    {
        IterruptMask0 { bits: set_bit(self.bits, 2, value) }
    }

    /// `M_CH_ACTIVE`: the mask of the charger-active interrupt.
    pub fn charger_active(&self) -> (value: bool)
        ensures
            value == bit(self@, 3),
    {
        get_bit(self.bits, 3)
    }

    /// Sets `M_CH_ACTIVE` and leaves every other bit as it is.
    pub fn set_charger_active(&mut self, value: bool)
        ensures
            final(self)@ == with_bit(old(self)@, 3, value),
            bit(final(self)@, 3) == value,
            unchanged_outside(old(self)@, final(self)@, 3, 1),
    {
        self.bits = set_bit(self.bits, 3, value);
    }

    /// This value with `M_CH_ACTIVE` set to `value`.
    pub fn with_charger_active(self, value: bool) -> (updated: Self)
        ensures
            updated@ == with_bit(self@, 3, value),
            bit(updated@, 3) == value,
            unchanged_outside(self@, updated@, 3, 1),
    {
        IterruptMask0 { bits: set_bit(self.bits, 3, value) }
    }

    /// `M_OVP`: the mask of the over-voltage interrupt.
    pub fn over_voltage_protection_interrupt(&self) -> (value: bool)
        ensures
            value == bit(self@, 5),
    {
        get_bit(self.bits, 5)
    }

    /// Sets `M_OVP` and leaves every other bit as it is.
    pub fn set_over_voltage_protection_interrupt(&mut self, value: bool)
        ensures
            final(self)@ == with_bit(old(self)@, 5, value),
            bit(final(self)@, 5) == value,
            unchanged_outside(old(self)@, final(self)@, 5, 1),
    {
        self.bits = set_bit(self.bits, 5, value);
    }

    /// This value with `M_OVP` set to `value`.
    pub fn with_over_voltage_protection_interrupt(self, value: bool) -> (updated: Self)
        ensures
            updated@ == with_bit(self@, 5, value),
            bit(updated@, 5) == value,
            unchanged_outside(self@, updated@, 5, 1),
    {
        IterruptMask0 { bits: set_bit(self.bits, 5, value) }
    }

    /// `M_TS_COLD`: the mask of the battery-cold interrupt.
    pub fn temp_low_interrupt(&self) -> (value: bool)
        ensures
            value == bit(self@, 6),
    {
        get_bit(self.bits, 6)
    }

    /// Sets `M_TS_COLD` and leaves every other bit as it is.
    pub fn set_temp_low_interrupt(&mut self, value: bool)
        ensures
            final(self)@ == with_bit(old(self)@, 6, value),
            bit(final(self)@, 6) == value,
            unchanged_outside(old(self)@, final(self)@, 6, 1),
    {
        self.bits = set_bit(self.bits, 6, value);
    }

    /// This value with `M_TS_COLD` set to `value`.
    pub fn with_temp_low_interrupt(self, value: bool) -> (updated: Self)
        ensures
            updated@ == with_bit(self@, 6, value),
            bit(updated@, 6) == value,
            unchanged_outside(self@, updated@, 6, 1),
    {
        IterruptMask0 { bits: set_bit(self.bits, 6, value) }
    }

    /// `M_TS_HOT`: the mask of the battery-hot interrupt.
    pub fn temp_high_interrupt(&self) -> (value: bool)
        ensures
            value == bit(self@, 7),
    {
        get_bit(self.bits, 7)
    }

    /// Sets `M_TS_HOT` and leaves every other bit as it is.
    pub fn set_temp_high_interrupt(&mut self, value: bool)
        ensures
            final(self)@ == with_bit(old(self)@, 7, value),
            bit(final(self)@, 7) == value,
            unchanged_outside(old(self)@, final(self)@, 7, 1),
    {
        self.bits = set_bit(self.bits, 7, value);
    }

    /// This value with `M_TS_HOT` set to `value`.
    pub fn with_temp_high_interrupt(self, value: bool) -> (updated: Self)
        ensures
            updated@ == with_bit(self@, 7, value),
            bit(updated@, 7) == value,
            unchanged_outside(self@, updated@, 7, 1),
    {
        IterruptMask0 { bits: set_bit(self.bits, 7, value) }
    }

    /// No field is an enumeration, so every byte decodes, to the value that
    /// holds it.
    pub proof fn lemma_decode(byte: u8)
        ensures
            Self::decode_spec(byte) matches Ok(value) && value@ == byte,
    {
    }

    /// The fields and the reserved bits are all of the byte: two values that
    /// agree on each of them are equal.
    pub proof fn lemma_fields_determine_value(a: Self, b: Self)
        requires
            bit(a@, 0) == bit(b@, 0),
            bit(a@, 1) == bit(b@, 1),
            bit(a@, 2) == bit(b@, 2),
            bit(a@, 3) == bit(b@, 3),
            bit(a@, 4) == bit(b@, 4),
            bit(a@, 5) == bit(b@, 5),
            bit(a@, 6) == bit(b@, 6),
            bit(a@, 7) == bit(b@, 7),
        ensures
            a == b,
    {
        let x = a@;
        let y = b@;
        assert(x == y) by (bit_vector)
            requires
                bit(x, 0) == bit(y, 0),
                bit(x, 1) == bit(y, 1),
                bit(x, 2) == bit(y, 2),
                bit(x, 3) == bit(y, 3),
                bit(x, 4) == bit(y, 4),
                bit(x, 5) == bit(y, 5),
                bit(x, 6) == bit(y, 6),
                bit(x, 7) == bit(y, 7),
        ;
    }
}

impl Register for IterruptMask0 {
    open spec fn address_spec() -> RegisterAddress {
        RegisterAddress::InterruptMask0
    }

    closed spec fn decode_spec(byte: u8) -> Result<Self, InvalidField> {
        Ok(IterruptMask0 { bits: byte })
    }

    open spec fn encode_spec(self) -> u8 {
        self@
    }

    fn address() -> (address: RegisterAddress)
        ensures
            address == RegisterAddress::InterruptMask0,
    {
        RegisterAddress::InterruptMask0
    }

    /// No field is an enumeration, so every byte decodes.
    fn decode(byte: u8) -> (value: Result<Self, InvalidField>)
        ensures
            value matches Ok(register) && register@ == byte,
    {
        Ok(IterruptMask0 { bits: byte })
    }

    fn encode(self) -> (byte: u8)
        ensures
            byte == self@,
    {
        self.bits
    }

    proof fn lemma_decode_encode(value: Self) {
    }
}

impl WritableRegister for IterruptMask0 {
    proof fn lemma_writable() {
    }

    proof fn lemma_encode_decode(byte: u8) {
    }
}

/// `IRMASK1`, interrupt mask 1. The host can write it.
///
/// | bits | field |
/// |------|-------|
/// | 0 | `suspended_interrupt` |
/// | 1 | `fault_interrupt` |
/// | 2 | `ldo_interrupt` |
/// | 3 | `constant_current_interrupt` |
/// | 4 | `precharge_interrupt` |
/// | 5 | `idle_interrupt` |
/// | 6 | `reset_interrupt` |
/// | 7 | `sleep_interrupt` |
#[derive(Clone, Copy, Debug, PartialEq, Eq, Structural)]
pub struct InterruptMask1 {
    bits: u8,
}

impl View for InterruptMask1 {
    type V = u8;

    /// The byte of the register.
    closed spec fn view(&self) -> u8 {
        self.bits
    }
}

impl InterruptMask1 {
    /// The value with every bit clear.
    pub fn new() -> (value: Self)
        ensures
            value@ == 0,
    {
        InterruptMask1 { bits: 0 }
    }

    /// `M_CH_SUSP`: the mask of the charge-suspended interrupt.
    pub fn suspended_interrupt(&self) -> (value: bool)
        ensures
            value == bit(self@, 0),
    {
        get_bit(self.bits, 0)
    }

    /// Sets `M_CH_SUSP` and leaves every other bit as it is.
    pub fn set_suspended_interrupt(&mut self, value: bool)
        ensures
            final(self)@ == with_bit(old(self)@, 0, value),
            bit(final(self)@, 0) == value,
            unchanged_outside(old(self)@, final(self)@, 0, 1),
    {
        self.bits = set_bit(self.bits, 0, value);
    }

    /// This value with `M_CH_SUSP` set to `value`.
    pub fn with_suspended_interrupt(self, value: bool) -> (updated: Self)
        ensures
            updated@ == with_bit(self@, 0, value),
            bit(updated@, 0) == value,
            unchanged_outside(self@, updated@, 0, 1),
    {
        InterruptMask1 { bits: set_bit(self.bits, 0, value) }
    }

    /// `M_CH_FAULT`: the mask of the charger-fault interrupt.
    pub fn fault_interrupt(&self) -> (value: bool)
        ensures
            value == bit(self@, 1),
    {
        get_bit(self.bits, 1)
    }

    /// Sets `M_CH_FAULT` and leaves every other bit as it is.
    pub fn set_fault_interrupt(&mut self, value: bool)
        ensures
            final(self)@ == with_bit(old(self)@, 1, value),
            bit(final(self)@, 1) == value,
            unchanged_outside(old(self)@, final(self)@, 1, 1),
    {
        self.bits = set_bit(self.bits, 1, value);
    }

    /// This value with `M_CH_FAULT` set to `value`.
    pub fn with_fault_interrupt(self, value: bool) -> (updated: Self)
        ensures
            updated@ == with_bit(self@, 1, value),
            bit(updated@, 1) == value,
            unchanged_outside(self@, updated@, 1, 1),
    {
        InterruptMask1 { bits: set_bit(self.bits, 1, value) }
    }

    /// `M_CH_LDO`: the mask of the charger-LDO interrupt.
    pub fn ldo_interrupt(&self) -> (value: bool)
        ensures
            value == bit(self@, 2),
    {
        get_bit(self.bits, 2)
    }

    /// Sets `M_CH_LDO` and leaves every other bit as it is.
    pub fn set_ldo_interrupt(&mut self, value: bool)
        ensures
            final(self)@ == with_bit(old(self)@, 2, value),
            bit(final(self)@, 2) == value,
            unchanged_outside(old(self)@, final(self)@, 2, 1),
    {
        self.bits = set_bit(self.bits, 2, value);
    }

    /// This value with `M_CH_LDO` set to `value`.
    pub fn with_ldo_interrupt(self, value: bool) -> (updated: Self)
        ensures
            updated@ == with_bit(self@, 2, value),
            bit(updated@, 2) == value,
            unchanged_outside(self@, updated@, 2, 1),
    {
        InterruptMask1 { bits: set_bit(self.bits, 2, value) }
    }

    /// `M_CH_CC_CV`: the mask of the constant-current interrupt.
    pub fn constant_current_interrupt(&self) -> (value: bool)
        ensures
            value == bit(self@, 3),
    {
        get_bit(self.bits, 3)
    }

    /// Sets `M_CH_CC_CV` and leaves every other bit as it is.
    pub fn set_constant_current_interrupt(&mut self, value: bool)
        ensures
            final(self)@ == with_bit(old(self)@, 3, value),
            bit(final(self)@, 3) == value,
            unchanged_outside(old(self)@, final(self)@, 3, 1),
    {
        self.bits = set_bit(self.bits, 3, value);
    }

    /// This value with `M_CH_CC_CV` set to `value`.
    pub fn with_constant_current_interrupt(self, value: bool) -> (updated: Self)
        ensures
            updated@ == with_bit(self@, 3, value),
            bit(updated@, 3) == value,
            unchanged_outside(self@, updated@, 3, 1),
    {
        InterruptMask1 { bits: set_bit(self.bits, 3, value) }
    }

    /// `M_CH_PRECH`: the mask of the pre-charge interrupt.
    pub fn precharge_interrupt(&self) -> (value: bool)
        ensures
            value == bit(self@, 4),
    {
        get_bit(self.bits, 4)
    }

    /// Sets `M_CH_PRECH` and leaves every other bit as it is.
    pub fn set_precharge_interrupt(&mut self, value: bool)
        ensures
            final(self)@ == with_bit(old(self)@, 4, value),
            bit(final(self)@, 4) == value,
            unchanged_outside(old(self)@, final(self)@, 4, 1),
    {
        self.bits = set_bit(self.bits, 4, value);
    }

    /// This value with `M_CH_PRECH` set to `value`.
    pub fn with_precharge_interrupt(self, value: bool) -> (updated: Self)
        ensures
            updated@ == with_bit(self@, 4, value),
            bit(updated@, 4) == value,
            unchanged_outside(self@, updated@, 4, 1),
    {
        InterruptMask1 { bits: set_bit(self.bits, 4, value) }
    }

    /// `M_CH_IDLE`: the mask of the charger-idle interrupt.
    pub fn idle_interrupt(&self) -> (value: bool)
        ensures
            value == bit(self@, 5),
    {
        get_bit(self.bits, 5)
    }

    /// Sets `M_CH_IDLE` and leaves every other bit as it is.
    pub fn set_idle_interrupt(&mut self, value: bool)
        ensures
            final(self)@ == with_bit(old(self)@, 5, value),
            bit(final(self)@, 5) == value,
            unchanged_outside(old(self)@, final(self)@, 5, 1),
    {
        self.bits = set_bit(self.bits, 5, value);
    }

    /// This value with `M_CH_IDLE` set to `value`.
    pub fn with_idle_interrupt(self, value: bool) -> (updated: Self)
        ensures
            updated@ == with_bit(self@, 5, value),
            bit(updated@, 5) == value,
            unchanged_outside(self@, updated@, 5, 1),
    {
        InterruptMask1 { bits: set_bit(self.bits, 5, value) }
    }

    /// `M_CH_RESET`: the mask of the charger-reset interrupt.
    pub fn reset_interrupt(&self) -> (value: bool)
        ensures
            value == bit(self@, 6),
    {
        get_bit(self.bits, 6)
    }

    /// Sets `M_CH_RESET` and leaves every other bit as it is.
    pub fn set_reset_interrupt(&mut self, value: bool)
        ensures
            final(self)@ == with_bit(old(self)@, 6, value),
            bit(final(self)@, 6) == value,
            unchanged_outside(old(self)@, final(self)@, 6, 1),
    {
        self.bits = set_bit(self.bits, 6, value);
    }

    /// This value with `M_CH_RESET` set to `value`.
    pub fn with_reset_interrupt(self, value: bool) -> (updated: Self)
        ensures
            updated@ == with_bit(self@, 6, value),
            bit(updated@, 6) == value,
            unchanged_outside(self@, updated@, 6, 1),
    {
        InterruptMask1 { bits: set_bit(self.bits, 6, value) }
    }

    /// `M_CH_SLEEP`: the mask of the charger-sleep interrupt.
    pub fn sleep_interrupt(&self) -> (value: bool)
        ensures
            value == bit(self@, 7),
    {
        get_bit(self.bits, 7)
    }

    /// Sets `M_CH_SLEEP` and leaves every other bit as it is.
    pub fn set_sleep_interrupt(&mut self, value: bool)
        ensures
            final(self)@ == with_bit(old(self)@, 7, value),
            bit(final(self)@, 7) == value,
            unchanged_outside(old(self)@, final(self)@, 7, 1),
    {
        self.bits = set_bit(self.bits, 7, value);
    }

    /// This value with `M_CH_SLEEP` set to `value`.
    pub fn with_sleep_interrupt(self, value: bool) -> (updated: Self)
        ensures
            updated@ == with_bit(self@, 7, value),
            bit(updated@, 7) == value,
            unchanged_outside(self@, updated@, 7, 1),
    {
        InterruptMask1 { bits: set_bit(self.bits, 7, value) }
    }

    /// No field is an enumeration, so every byte decodes, to the value that
    /// holds it.
    pub proof fn lemma_decode(byte: u8)
        ensures
            Self::decode_spec(byte) matches Ok(value) && value@ == byte,
    {
    }

    /// The fields are all of the byte: two values that agree on each of them
    /// are equal.
    pub proof fn lemma_fields_determine_value(a: Self, b: Self)
        requires
            bit(a@, 0) == bit(b@, 0),
            bit(a@, 1) == bit(b@, 1),
            bit(a@, 2) == bit(b@, 2),
            bit(a@, 3) == bit(b@, 3),
            bit(a@, 4) == bit(b@, 4),
            bit(a@, 5) == bit(b@, 5),
            bit(a@, 6) == bit(b@, 6),
            bit(a@, 7) == bit(b@, 7),
        ensures
            a == b,
    {
        let x = a@;
        let y = b@;
        assert(x == y) by (bit_vector)
            requires
                bit(x, 0) == bit(y, 0),
                bit(x, 1) == bit(y, 1),
                bit(x, 2) == bit(y, 2),
                bit(x, 3) == bit(y, 3),
                bit(x, 4) == bit(y, 4),
                bit(x, 5) == bit(y, 5),
                bit(x, 6) == bit(y, 6),
                bit(x, 7) == bit(y, 7),
        ;
    }
}

impl Register for InterruptMask1 {
    open spec fn address_spec() -> RegisterAddress {
        RegisterAddress::InterruptMask1
    }

    closed spec fn decode_spec(byte: u8) -> Result<Self, InvalidField> {
        Ok(InterruptMask1 { bits: byte })
    }

    open spec fn encode_spec(self) -> u8 {
        self@
    }

    fn address() -> (address: RegisterAddress)
        ensures
            address == RegisterAddress::InterruptMask1,
    {
        RegisterAddress::InterruptMask1
    }

    /// No field is an enumeration, so every byte decodes.
    fn decode(byte: u8) -> (value: Result<Self, InvalidField>)
        ensures
            value matches Ok(register) && register@ == byte,
    {
        Ok(InterruptMask1 { bits: byte })
    }

    fn encode(self) -> (byte: u8)
        ensures
            byte == self@,
    {
        self.bits
    }

    proof fn lemma_decode_encode(value: Self) {
    }
}

impl WritableRegister for InterruptMask1 {
    proof fn lemma_writable() {
    }

    proof fn lemma_encode_decode(byte: u8) {
    }
}

/// `IRMASK2`, interrupt mask 2. The host can write it.
///
/// | bits | field |
/// |------|-------|
/// | 0 | reserved |
/// | 1 | `push_button_pressed_interrupt` |
/// | 2 | `ldo_power_source_ok_interrupt` |
/// | 3 | `dcdc_power_source_ok_interrupt` |
/// | 4 | `gpio0_interrupt` |
/// | 5 | `gpio1_interrupt` |
/// | 6 | `gpio2_interrupt` |
/// | 7 | `gpio3_interrupt` |
///
/// Reserved bits pass through: `decode` keeps them as they were read, no setter
/// touches them, and `encode` hands them back unchanged. `new` clears them.
#[derive(Clone, Copy, Debug, PartialEq, Eq, Structural)]
pub struct InterruptMask2 {
    bits: u8,
}

impl View for InterruptMask2 {
    type V = u8;

    /// The byte of the register.
    closed spec fn view(&self) -> u8 {
        self.bits
    }
}

impl InterruptMask2 {
    /// The value with every bit clear.
    pub fn new() -> (value: Self)
        ensures
            value@ == 0,
    {
        InterruptMask2 { bits: 0 }
    }

    /// `M_PB_STAT`: the mask of the push-button interrupt.
    pub fn push_button_pressed_interrupt(&self) -> (value: bool)
        ensures
            value == bit(self@, 1),
    {
        get_bit(self.bits, 1)
    }

    /// Sets `M_PB_STAT` and leaves every other bit as it is.
    pub fn set_push_button_pressed_interrupt(&mut self, value: bool)
        ensures
            final(self)@ == with_bit(old(self)@, 1, value),
            bit(final(self)@, 1) == value,
            unchanged_outside(old(self)@, final(self)@, 1, 1),
    {
        self.bits = set_bit(self.bits, 1, value);
    }

    /// This value with `M_PB_STAT` set to `value`.
    pub fn with_push_button_pressed_interrupt(self, value: bool) -> (updated: Self)
        ensures
            updated@ == with_bit(self@, 1, value),
            bit(updated@, 1) == value,
            unchanged_outside(self@, updated@, 1, 1),
    {
        InterruptMask2 { bits: set_bit(self.bits, 1, value) }
    }

    /// `M_PGOODZ_LDO1`: the mask of the LDO power-good interrupt.
    pub fn ldo_power_source_ok_interrupt(&self) -> (value: bool)
        ensures
            value == bit(self@, 2),
    {
        get_bit(self.bits, 2)
    }

    /// Sets `M_PGOODZ_LDO1` and leaves every other bit as it is.
    pub fn set_ldo_power_source_ok_interrupt(&mut self, value: bool)
        ensures
            final(self)@ == with_bit(old(self)@, 2, value),
            bit(final(self)@, 2) == value,
            unchanged_outside(old(self)@, final(self)@, 2, 1),
    {
        self.bits = set_bit(self.bits, 2, value);
    }

    /// This value with `M_PGOODZ_LDO1` set to `value`.
    pub fn with_ldo_power_source_ok_interrupt(self, value: bool) -> (updated: Self)
        ensures
            updated@ == with_bit(self@, 2, value),
            bit(updated@, 2) == value,
            unchanged_outside(self@, updated@, 2, 1),
    {
        InterruptMask2 { bits: set_bit(self.bits, 2, value) }
    }

    /// `M_PGOODZ_DCDC`: the mask of the DCDC power-good interrupt.
    pub fn dcdc_power_source_ok_interrupt(&self) -> (value: bool)
        ensures
            value == bit(self@, 3),
    {
        get_bit(self.bits, 3)
    }

    /// Sets `M_PGOODZ_DCDC` and leaves every other bit as it is.
    pub fn set_dcdc_power_source_ok_interrupt(&mut self, value: bool)
        ensures
            final(self)@ == with_bit(old(self)@, 3, value),
            bit(final(self)@, 3) == value,
            unchanged_outside(old(self)@, final(self)@, 3, 1),
    {
        self.bits = set_bit(self.bits, 3, value);
    }

    /// This value with `M_PGOODZ_DCDC` set to `value`.
    pub fn with_dcdc_power_source_ok_interrupt(self, value: bool) -> (updated: Self)
        ensures
            updated@ == with_bit(self@, 3, value),
            bit(updated@, 3) == value,
            unchanged_outside(self@, updated@, 3, 1),
    {
        InterruptMask2 { bits: set_bit(self.bits, 3, value) }
    }

    /// `M_GPIO0`: the mask of the GPIO0 interrupt.
    pub fn gpio0_interrupt(&self) -> (value: bool)
        ensures
            value == bit(self@, 4),
    {
        get_bit(self.bits, 4)
    }

    /// Sets `M_GPIO0` and leaves every other bit as it is.
    pub fn set_gpio0_interrupt(&mut self, value: bool)
        ensures
            final(self)@ == with_bit(old(self)@, 4, value),
            bit(final(self)@, 4) == value,
            unchanged_outside(old(self)@, final(self)@, 4, 1),
    {
        self.bits = set_bit(self.bits, 4, value);
    }

    /// This value with `M_GPIO0` set to `value`.
    pub fn with_gpio0_interrupt(self, value: bool) -> (updated: Self)
        ensures
            updated@ == with_bit(self@, 4, value),
            bit(updated@, 4) == value,
            unchanged_outside(self@, updated@, 4, 1),
    {
        InterruptMask2 { bits: set_bit(self.bits, 4, value) }
    }

    /// `M_GPIO1`: the mask of the GPIO1 interrupt.
    pub fn gpio1_interrupt(&self) -> (value: bool)
        ensures
            value == bit(self@, 5),
    {
        get_bit(self.bits, 5)
    }

    /// Sets `M_GPIO1` and leaves every other bit as it is.
    pub fn set_gpio1_interrupt(&mut self, value: bool)
        ensures
            final(self)@ == with_bit(old(self)@, 5, value),
            bit(final(self)@, 5) == value,
            unchanged_outside(old(self)@, final(self)@, 5, 1),
    {
        self.bits = set_bit(self.bits, 5, value);
    }

    /// This value with `M_GPIO1` set to `value`.
    pub fn with_gpio1_interrupt(self, value: bool) -> (updated: Self)
        ensures
            updated@ == with_bit(self@, 5, value),
            bit(updated@, 5) == value,
            unchanged_outside(self@, updated@, 5, 1),
    {
        InterruptMask2 { bits: set_bit(self.bits, 5, value) }
    }

    /// `M_GPIO2`: the mask of the GPIO2 interrupt.
    pub fn gpio2_interrupt(&self) -> (value: bool)
        ensures
            value == bit(self@, 6),
    {
        get_bit(self.bits, 6)
    }

    /// Sets `M_GPIO2` and leaves every other bit as it is.
    pub fn set_gpio2_interrupt(&mut self, value: bool)
        ensures
            final(self)@ == with_bit(old(self)@, 6, value),
            bit(final(self)@, 6) == value,
            unchanged_outside(old(self)@, final(self)@, 6, 1),
    {
        self.bits = set_bit(self.bits, 6, value);
    }

    /// This value with `M_GPIO2` set to `value`.
    pub fn with_gpio2_interrupt(self, value: bool) -> (updated: Self)
        ensures
            updated@ == with_bit(self@, 6, value),
            bit(updated@, 6) == value,
            unchanged_outside(self@, updated@, 6, 1),
    {
        InterruptMask2 { bits: set_bit(self.bits, 6, value) }
    }

    /// `M_GPIO3`: the mask of the GPIO3 interrupt.
    pub fn gpio3_interrupt(&self) -> (value: bool)
        ensures
            value == bit(self@, 7),
    {
        get_bit(self.bits, 7)
    }

    /// Sets `M_GPIO3` and leaves every other bit as it is.
    pub fn set_gpio3_interrupt(&mut self, value: bool)
        ensures
            final(self)@ == with_bit(old(self)@, 7, value),
            bit(final(self)@, 7) == value,
            unchanged_outside(old(self)@, final(self)@, 7, 1),
    {
        self.bits = set_bit(self.bits, 7, value);
    }

    /// This value with `M_GPIO3` set to `value`.
    pub fn with_gpio3_interrupt(self, value: bool) -> (updated: Self)
        ensures
            updated@ == with_bit(self@, 7, value),
            bit(updated@, 7) == value,
            unchanged_outside(self@, updated@, 7, 1),
    {
        InterruptMask2 { bits: set_bit(self.bits, 7, value) }
    }

    /// No field is an enumeration, so every byte decodes, to the value that
    /// holds it.
    pub proof fn lemma_decode(byte: u8)
        ensures
            Self::decode_spec(byte) matches Ok(value) && value@ == byte,
    {
    }

    /// The fields and the reserved bits are all of the byte: two values that
    /// agree on each of them are equal.
    pub proof fn lemma_fields_determine_value(a: Self, b: Self)
        requires
            bit(a@, 0) == bit(b@, 0),
            bit(a@, 1) == bit(b@, 1),
            bit(a@, 2) == bit(b@, 2),
            bit(a@, 3) == bit(b@, 3),
            bit(a@, 4) == bit(b@, 4),
            bit(a@, 5) == bit(b@, 5),
            bit(a@, 6) == bit(b@, 6),
            bit(a@, 7) == bit(b@, 7),
        ensures
            a == b,
    {
        let x = a@;
        let y = b@;
        assert(x == y) by (bit_vector)
            requires
                bit(x, 0) == bit(y, 0),
                bit(x, 1) == bit(y, 1),
                bit(x, 2) == bit(y, 2),
                bit(x, 3) == bit(y, 3),
                bit(x, 4) == bit(y, 4),
                bit(x, 5) == bit(y, 5),
                bit(x, 6) == bit(y, 6),
                bit(x, 7) == bit(y, 7),
        ;
    }
}

impl Register for InterruptMask2 {
    open spec fn address_spec() -> RegisterAddress {
        RegisterAddress::InterruptMask2
    }

    closed spec fn decode_spec(byte: u8) -> Result<Self, InvalidField> {
        Ok(InterruptMask2 { bits: byte })
    }

    open spec fn encode_spec(self) -> u8 {
        self@
    }

    fn address() -> (address: RegisterAddress)
        ensures
            address == RegisterAddress::InterruptMask2,
    {
        RegisterAddress::InterruptMask2
    }

    /// No field is an enumeration, so every byte decodes.
    fn decode(byte: u8) -> (value: Result<Self, InvalidField>)
        ensures
            value matches Ok(register) && register@ == byte,
    {
        Ok(InterruptMask2 { bits: byte })
    }

    fn encode(self) -> (byte: u8)
        ensures
            byte == self@,
    {
        self.bits
    }

    proof fn lemma_decode_encode(value: Self) {
    }
}

impl WritableRegister for InterruptMask2 {
    proof fn lemma_writable() {
    }

    proof fn lemma_encode_decode(byte: u8) {
    }
}

/// `IR0`, interrupt report 0. The hardware drives it: it has no setters and
/// cannot be written.
///
/// | bits | field |
/// |------|-------|
/// | 0 | `thermal_loop` |
/// | 1 | `batt_voltage_comparator` |
/// | 2 | `power_source_ok` |
/// | 3 | `charger_active` |
/// | 4 | reserved |
/// | 5 | `over_voltage_protection` |
/// | 6 | `temp_low` |
/// | 7 | `temp_high` |
///
/// Reserved bits pass through: `decode` keeps them as they were read, no setter
/// touches them, and `encode` hands them back unchanged. `new` clears them.
#[derive(Clone, Copy, Debug, PartialEq, Eq, Structural)]
pub struct Iterrupt0 {
    bits: u8,
}

impl View for Iterrupt0 {
    type V = u8;

    /// The byte of the register.
    closed spec fn view(&self) -> u8 {
        self.bits
    }
}

impl Iterrupt0 {
    /// The value with every bit clear.
    pub fn new() -> (value: Self)
        ensures
            value@ == 0,
    {
        Iterrupt0 { bits: 0 }
    }

    /// `THLOOP`: whether the thermal loop raised an interrupt.
    pub fn thermal_loop(&self) -> (value: bool)
        ensures
            value == bit(self@, 0),
    {
        get_bit(self.bits, 0)
    }

    /// `VBAT_COMP`: whether the battery voltage comparator raised an interrupt.
    pub fn batt_voltage_comparator(&self) -> (value: bool)
        ensures
            value == bit(self@, 1),
    {
        get_bit(self.bits, 1)
    }

    /// `CH_PGOOD`: whether the power-good signal raised an interrupt.
    pub fn power_source_ok(&self) -> (value: bool)
        ensures
            value == bit(self@, 2),
    {
        get_bit(self.bits, 2)
    }

    /// `CH_ACTIVE`: whether the charger-active signal raised an interrupt.
    pub fn charger_active(&self) -> (value: bool)
        ensures
            value == bit(self@, 3),
    {
        get_bit(self.bits, 3)
    }

    /// `OVP`: whether the over-voltage protection raised an interrupt.
    pub fn over_voltage_protection(&self) -> (value: bool)
        ensures
            value == bit(self@, 5),
    {
        get_bit(self.bits, 5)
    }

    /// `TS_COLD`: whether the battery-cold signal raised an interrupt.
    pub fn temp_low(&self) -> (value: bool)
        ensures
            value == bit(self@, 6),
    {
        get_bit(self.bits, 6)
    }

    /// `TS_HOT`: whether the battery-hot signal raised an interrupt.
    pub fn temp_high(&self) -> (value: bool)
        ensures
            value == bit(self@, 7),
    {
        get_bit(self.bits, 7)
    }

    /// No field is an enumeration, so every byte decodes, to the value that
    /// holds it.
    pub proof fn lemma_decode(byte: u8)
        ensures
            Self::decode_spec(byte) matches Ok(value) && value@ == byte,
    {
    }

    /// The fields and the reserved bits are all of the byte: two values that
    /// agree on each of them are equal.
    pub proof fn lemma_fields_determine_value(a: Self, b: Self)
        requires
            bit(a@, 0) == bit(b@, 0),
            bit(a@, 1) == bit(b@, 1),
            bit(a@, 2) == bit(b@, 2),
            bit(a@, 3) == bit(b@, 3),
            bit(a@, 4) == bit(b@, 4),
            bit(a@, 5) == bit(b@, 5),
            bit(a@, 6) == bit(b@, 6),
            bit(a@, 7) == bit(b@, 7),
        ensures
            a == b,
    {
        let x = a@;
        let y = b@;
        assert(x == y) by (bit_vector)
            requires
                bit(x, 0) == bit(y, 0),
                bit(x, 1) == bit(y, 1),
                bit(x, 2) == bit(y, 2),
                bit(x, 3) == bit(y, 3),
                bit(x, 4) == bit(y, 4),
                bit(x, 5) == bit(y, 5),
                bit(x, 6) == bit(y, 6),
                bit(x, 7) == bit(y, 7),
        ;
    }
}

impl Register for Iterrupt0 {
    open spec fn address_spec() -> RegisterAddress {
        RegisterAddress::InterruptReporting0
    }

    closed spec fn decode_spec(byte: u8) -> Result<Self, InvalidField> {
        Ok(Iterrupt0 { bits: byte })
    }

    open spec fn encode_spec(self) -> u8 {
        self@
    }

    fn address() -> (address: RegisterAddress)
        ensures
            address == RegisterAddress::InterruptReporting0,
    {
        RegisterAddress::InterruptReporting0
    }

    /// No field is an enumeration, so every byte decodes.
    fn decode(byte: u8) -> (value: Result<Self, InvalidField>)
        ensures
            value matches Ok(register) && register@ == byte,
    {
        Ok(Iterrupt0 { bits: byte })
    }

    fn encode(self) -> (byte: u8)
        ensures
            byte == self@,
    {
        self.bits
    }

    proof fn lemma_decode_encode(value: Self) {
    }
}

/// `IR1`, interrupt report 1. The hardware drives it: it has no setters and
/// cannot be written.
///
/// | bits | field |
/// |------|-------|
/// | 0 | `suspended` |
/// | 1 | `fault` |
/// | 2 | `ldo` |
/// | 3 | `constant_current` |
/// | 4 | `precharge` |
/// | 5 | `idle` |
/// | 6 | `reset` |
/// | 7 | `sleep` |
#[derive(Clone, Copy, Debug, PartialEq, Eq, Structural)]
pub struct Interrupt1 {
    bits: u8,
}

impl View for Interrupt1 {
    type V = u8;

    /// The byte of the register.
    closed spec fn view(&self) -> u8 {
        self.bits
    }
}

impl Interrupt1 {
    /// The value with every bit clear.
    pub fn new() -> (value: Self)
        ensures
            value@ == 0,
    {
        Interrupt1 { bits: 0 }
    }

    /// `CH_SUSP`: whether the charge-suspended state raised an interrupt.
    pub fn suspended(&self) -> (value: bool)
        ensures
            value == bit(self@, 0),
    {
        get_bit(self.bits, 0)
    }

    /// `CH_FAULT`: whether the fault state raised an interrupt.
    pub fn fault(&self) -> (value: bool)
        ensures
            value == bit(self@, 1),
    {
        get_bit(self.bits, 1)
    }

    /// `CH_LDO`: whether the LDO state raised an interrupt.
    pub fn ldo(&self) -> (value: bool)
        ensures
            value == bit(self@, 2),
    {
        get_bit(self.bits, 2)
    }

    /// `CH_CC_CV`: whether the constant-current state raised an interrupt.
    pub fn constant_current(&self) -> (value: bool)
        ensures
            value == bit(self@, 3),
    {
        get_bit(self.bits, 3)
    }

    /// `CH_PRECH`: whether the pre-charge state raised an interrupt.
    pub fn precharge(&self) -> (value: bool)
        ensures
            value == bit(self@, 4),
    {
        get_bit(self.bits, 4)
    }

    /// `CH_IDLE`: whether the idle state raised an interrupt.
    pub fn idle(&self) -> (value: bool)
        ensures
            value == bit(self@, 5),
    {
        get_bit(self.bits, 5)
    }

    /// `CH_RESET`: whether the reset state raised an interrupt.
    pub fn reset(&self) -> (value: bool)
        ensures
            value == bit(self@, 6),
    {
        get_bit(self.bits, 6)
    }

    /// `CH_SLEEP`: whether the sleep state raised an interrupt.
    pub fn sleep(&self) -> (value: bool)
        ensures
            value == bit(self@, 7),
    {
        get_bit(self.bits, 7)
    }

    /// No field is an enumeration, so every byte decodes, to the value that
    /// holds it.
    pub proof fn lemma_decode(byte: u8)
        ensures
            Self::decode_spec(byte) matches Ok(value) && value@ == byte,
    {
    }

    /// The fields are all of the byte: two values that agree on each of them
    /// are equal.
    pub proof fn lemma_fields_determine_value(a: Self, b: Self)
        requires
            bit(a@, 0) == bit(b@, 0),
            bit(a@, 1) == bit(b@, 1),
            bit(a@, 2) == bit(b@, 2),
            bit(a@, 3) == bit(b@, 3),
            bit(a@, 4) == bit(b@, 4),
            bit(a@, 5) == bit(b@, 5),
            bit(a@, 6) == bit(b@, 6),
            bit(a@, 7) == bit(b@, 7),
        ensures
            a == b,
    {
        let x = a@;
        let y = b@;
        assert(x == y) by (bit_vector)
            requires
                bit(x, 0) == bit(y, 0),
                bit(x, 1) == bit(y, 1),
                bit(x, 2) == bit(y, 2),
                bit(x, 3) == bit(y, 3),
                bit(x, 4) == bit(y, 4),
                bit(x, 5) == bit(y, 5),
                bit(x, 6) == bit(y, 6),
                bit(x, 7) == bit(y, 7),
        ;
    }
}

impl Register for Interrupt1 {
    open spec fn address_spec() -> RegisterAddress {
        RegisterAddress::InterruptReporting1
    }

    closed spec fn decode_spec(byte: u8) -> Result<Self, InvalidField> {
        Ok(Interrupt1 { bits: byte })
    }

    open spec fn encode_spec(self) -> u8 {
        self@
    }

    fn address() -> (address: RegisterAddress)
        ensures
            address == RegisterAddress::InterruptReporting1,
    {
        RegisterAddress::InterruptReporting1
    }

    /// No field is an enumeration, so every byte decodes.
    fn decode(byte: u8) -> (value: Result<Self, InvalidField>)
        ensures
            value matches Ok(register) && register@ == byte,
    {
        Ok(Interrupt1 { bits: byte })
    }

    fn encode(self) -> (byte: u8)
        ensures
            byte == self@,
    {
        self.bits
    }

    proof fn lemma_decode_encode(value: Self) {
    }
}

/// `IR2`, interrupt report 2. The hardware drives it: it has no setters and
/// cannot be written.
///
/// | bits | field |
/// |------|-------|
/// | 0 | reserved |
/// | 1 | `push_button_pressed` |
/// | 2 | `ldo_power_source_ok` |
/// | 3 | `dcdc_power_source_ok` |
/// | 4 | `gpio0` |
/// | 5 | `gpio1` |
/// | 6 | `gpio2` |
/// | 7 | `gpio3` |
///
/// Reserved bits pass through: `decode` keeps them as they were read, no setter
/// touches them, and `encode` hands them back unchanged. `new` clears them.
#[derive(Clone, Copy, Debug, PartialEq, Eq, Structural)]
pub struct Interrupt2 {
    bits: u8,
}

impl View for Interrupt2 {
    type V = u8;

    /// The byte of the register.
    closed spec fn view(&self) -> u8 {
        self.bits
    }
}

impl Interrupt2 {
    /// The value with every bit clear.
    pub fn new() -> (value: Self)
        ensures
            value@ == 0,
    {
        Interrupt2 { bits: 0 }
    }

    /// `PB_STAT`: whether the push button raised an interrupt.
    pub fn push_button_pressed(&self) -> (value: bool)
        ensures
            value == bit(self@, 1),
    {
        get_bit(self.bits, 1)
    }

    /// `PGOODZ_LDO1`: whether the LDO power-good signal raised an interrupt.
    pub fn ldo_power_source_ok(&self) -> (value: bool)
        ensures
            value == bit(self@, 2),
    {
        get_bit(self.bits, 2)
    }

    /// `PGOODZ_DCDC`: whether the DCDC power-good signal raised an interrupt.
    pub fn dcdc_power_source_ok(&self) -> (value: bool)
        ensures
            value == bit(self@, 3),
    {
        get_bit(self.bits, 3)
    }

    /// `GPIO0`: whether GPIO0 raised an interrupt.
    pub fn gpio0(&self) -> (value: bool)
        ensures
            value == bit(self@, 4),
    {
        get_bit(self.bits, 4)
    }

    /// `GPIO1`: whether GPIO1 raised an interrupt.
    pub fn gpio1(&self) -> (value: bool)
        ensures
            value == bit(self@, 5),
    {
        get_bit(self.bits, 5)
    }

    /// `GPIO2`: whether GPIO2 raised an interrupt.
    pub fn gpio2(&self) -> (value: bool)
        ensures
            value == bit(self@, 6),
    {
        get_bit(self.bits, 6)
    }

    /// `GPIO3`: whether GPIO3 raised an interrupt.
    pub fn gpio3(&self) -> (value: bool)
        ensures
            value == bit(self@, 7),
    {
        get_bit(self.bits, 7)
    }

    /// No field is an enumeration, so every byte decodes, to the value that
    /// holds it.
    pub proof fn lemma_decode(byte: u8)
        ensures
            Self::decode_spec(byte) matches Ok(value) && value@ == byte,
    {
    }

    /// The fields and the reserved bits are all of the byte: two values that
    /// agree on each of them are equal.
    pub proof fn lemma_fields_determine_value(a: Self, b: Self)
        requires
            bit(a@, 0) == bit(b@, 0),
            bit(a@, 1) == bit(b@, 1),
            bit(a@, 2) == bit(b@, 2),
            bit(a@, 3) == bit(b@, 3),
            bit(a@, 4) == bit(b@, 4),
            bit(a@, 5) == bit(b@, 5),
            bit(a@, 6) == bit(b@, 6),
            bit(a@, 7) == bit(b@, 7),
        ensures
            a == b,
    {
        let x = a@;
        let y = b@;
        assert(x == y) by (bit_vector)
            requires
                bit(x, 0) == bit(y, 0),
                bit(x, 1) == bit(y, 1),
                bit(x, 2) == bit(y, 2),
                bit(x, 3) == bit(y, 3),
                bit(x, 4) == bit(y, 4),
                bit(x, 5) == bit(y, 5),
                bit(x, 6) == bit(y, 6),
                bit(x, 7) == bit(y, 7),
        ;
    }
}

impl Register for Interrupt2 {
    open spec fn address_spec() -> RegisterAddress {
        RegisterAddress::InterruptReporting2
    }

    closed spec fn decode_spec(byte: u8) -> Result<Self, InvalidField> {
        Ok(Interrupt2 { bits: byte })
    }

    open spec fn encode_spec(self) -> u8 {
        self@
    }

    fn address() -> (address: RegisterAddress)
        ensures
            address == RegisterAddress::InterruptReporting2,
    {
        RegisterAddress::InterruptReporting2
    }

    /// No field is an enumeration, so every byte decodes.
    fn decode(byte: u8) -> (value: Result<Self, InvalidField>)
        ensures
            value matches Ok(register) && register@ == byte,
    {
        Ok(Interrupt2 { bits: byte })
    }

    fn encode(self) -> (byte: u8)
        ensures
            byte == self@,
    {
        self.bits
    }

    proof fn lemma_decode_encode(value: Self) {
    }
}

} // verus!
