use std::marker::PhantomData;
use tps6572x::driver::{
    edit_register, read_raw, read_register, write_raw, write_register, ReadRegister, WriteRegister,
};
use tps6572x::error::{Error, InvalidField};
use tps6572x::registers::{
    AcInputCurrent, ChargerConfig0, ChargerConfig1, ChargerStatus, Control0, Register,
    RegisterAddress, SysOutputVoltage, WritableRegister,
};
use tps6572x::transaction::{BusRequest, Exchange, Operation, Phase, Progress, Transaction};

/// What the bus double reports when a call is made to fail.
#[derive(Debug, Clone, Copy, PartialEq)]
struct Nack;

/// A device of 256 one-byte registers behind a bus that records every call
/// and can be told to fail the n-th one.
struct Device {
    registers: [u8; 256],
    pointer: Option<u8>,
    calls: Vec<BusRequest>,
    fail_at: Option<usize>,
}

impl Device {
    fn new() -> Device {
        Device { registers: [0; 256], pointer: None, calls: Vec::new(), fail_at: None }
    }

    fn holding(address: u8, byte: u8) -> Device {
        let mut device = Device::new();
        device.registers[address as usize] = byte;
        device
    }

    fn perform(&mut self, request: BusRequest) -> Result<u8, Nack> {
        let index = self.calls.len();
        self.calls.push(request);
        if self.fail_at == Some(index) {
            self.pointer = None;
            return Err(Nack);
        }
        match request {
            BusRequest::Write { address, byte } => {
                assert_eq!(address, 0b100_1000);
                match self.pointer.take() {
                    None => self.pointer = Some(byte),
                    Some(pointer) => self.registers[pointer as usize] = byte,
                }
                Ok(byte)
            }
            BusRequest::Read { address } => {
                assert_eq!(address, 0b100_1000);
                let pointer = self.pointer.take().expect("a read comes after an address");
                Ok(self.registers[pointer as usize])
            }
        }
    }

    fn run<O: Operation>(&mut self, mut operation: O) -> Result<O::Output, Error<Nack>> {
        loop {
            let reply = self.perform(operation.request());
            match operation.advance(reply) {
                Progress::Next(next) => operation = next,
                Progress::Done(result) => return result,
            }
        }
    }

    fn read<R: Register>(&mut self) -> Result<R, Error<Nack>> {
        self.run(read_register::<R>())
    }

    fn write<R: WritableRegister>(&mut self, value: R) -> Result<(), Error<Nack>> {
        self.run(write_register(value))
    }

    fn edit<R: WritableRegister, F: FnOnce(R) -> R>(&mut self, f: F) -> Result<(), Error<Nack>> {
        let read = self.run(read_register::<R>());
        let write = edit_register(read, f)?;
        self.run(write)
    }
}

fn select(register: u8) -> BusRequest {
    BusRequest::Write { address: 0x48, byte: register }
}

fn send(byte: u8) -> BusRequest {
    BusRequest::Write { address: 0x48, byte }
}

fn receive() -> BusRequest {
    BusRequest::Read { address: 0x48 }
}

/// A register whose lowest bit is a one-bit field with the single legal code
/// 0.
#[derive(Debug, PartialEq)]
struct Strict(u8);

impl Register for Strict {
    fn address() -> RegisterAddress {
        RegisterAddress::ChargerConfigControl0
    }

    fn decode(byte: u8) -> Result<Self, InvalidField> {
        if byte & 1 == 0 {
            Ok(Strict(byte))
        } else {
            Err(InvalidField)
        }
    }

    fn encode(self) -> u8 {
        self.0
    }

    // The members below belong to the trait's contract. Compiled, they are
    // ordinary functions that nothing calls.

    fn address_spec() -> RegisterAddress {
        Self::address()
    }

    fn decode_spec(byte: u8) -> Result<Self, InvalidField> {
        Self::decode(byte)
    }

    fn encode_spec(self) -> u8 {
        self.encode()
    }

    fn lemma_decode_encode(_value: Self) {}
}

impl WritableRegister for Strict {
    fn lemma_writable() {}

    fn lemma_encode_decode(_byte: u8) {}
}

#[test]
fn it_works() {
    let result = 2 + 2;
    assert_eq!(result, 4);
}

#[test]
fn read_selects_the_address_then_receives() {
    let mut device = Device::holding(0x02, 0b1001_0110);
    let value: ChargerConfig0 = device.read().unwrap();
    assert_eq!(device.calls, vec![select(0x02), receive()]);
    assert_eq!(value.encode(), 0b1001_0110);
    assert_eq!(value.charger_enabled(), false);
    assert_eq!(value.termination_enabled(), true);
    assert_eq!(value.dynamic_timer(), true);
    assert_eq!(value.thermal_loop(), false);
    assert_eq!(value.ac_input_current(), AcInputCurrent::MA500ddpm);
    assert_eq!(value.output_voltage(), SysOutputVoltage::V5);
}

#[test]
fn read_of_a_status_register() {
    let mut device = Device::holding(0x01, 0b1000_0100);
    let value: ChargerStatus = device.read().unwrap();
    assert_eq!(device.calls, vec![select(0x01), receive()]);
    assert_eq!(value.power_source_ok(), true);
    assert_eq!(value.temp_high(), true);
    assert_eq!(value.charger_active(), false);
}

#[test]
fn write_selects_the_address_then_sends_the_encoded_byte() {
    let mut device = Device::new();
    let value = ChargerConfig0::new()
        .with_charger_enabled(true)
        .with_ac_input_current(AcInputCurrent::UsbSuspend);
    device.write(value).unwrap();
    assert_eq!(device.calls, vec![select(0x02), send(0b0011_0001)]);
    assert_eq!(device.registers[0x02], 0b0011_0001);
}

#[test]
fn write_plans_the_encoded_byte() {
    let write = write_register(ChargerConfig0::new().with_charger_enabled(true));
    assert_eq!(write.phase, Phase::AddressSelect);
    assert_eq!(write.byte, 0b0000_0001);
    assert_eq!(
        write.exchange(),
        Exchange {
            transaction: Transaction::Write {
                register: RegisterAddress::ChargerConfigControl0,
                value: 0b0000_0001
            },
            phase: Phase::AddressSelect
        }
    );
    assert_eq!(write.request(), select(0x02));
}

#[test]
fn read_plans_the_access_to_the_address_of_the_type() {
    let read = read_register::<ChargerConfig1>();
    assert_eq!(read.phase, Phase::AddressSelect);
    assert_eq!(
        read.exchange(),
        Exchange {
            transaction: Transaction::Read {
                register: RegisterAddress::BatteryChargerConfigControl1
            },
            phase: Phase::AddressSelect
        }
    );
    assert_eq!(read.request(), select(0x03));
}

#[test]
fn typed_operations_step_through_both_phases() {
    let read = read_register::<ChargerConfig0>();
    let read = match read.advance::<Nack>(Ok(0x02)) {
        Progress::Next(next) => next,
        Progress::Done(_) => panic!("the data phase is still to come"),
    };
    assert_eq!(read.phase, Phase::Data);
    assert_eq!(read.request(), receive());
    match read.advance::<Nack>(Ok(0b0100_0010)) {
        Progress::Done(Ok(value)) => {
            assert_eq!(value.termination_enabled(), true);
            assert_eq!(value.output_voltage(), SysOutputVoltage::V4_4);
        }
        _ => panic!("the read is over"),
    }

    let write = write_register(ChargerConfig0::new().with_dynamic_timer(true));
    let write = match write.advance::<Nack>(Ok(0x02)) {
        Progress::Next(next) => next,
        Progress::Done(_) => panic!("the data phase is still to come"),
    };
    assert_eq!(write.phase, Phase::Data);
    assert_eq!(write.byte, 0b0000_0100);
    assert_eq!(write.request(), send(0b0000_0100));
    assert!(matches!(write.advance::<Nack>(Ok(0b0000_0100)), Progress::Done(Ok(()))));
}

#[test]
fn a_typed_operation_can_be_taken_up_at_its_data_phase() {
    let read = ReadRegister::<Control0> { phase: Phase::Data, register: PhantomData };
    assert_eq!(read.request(), receive());
    let write =
        WriteRegister::<Control0> { phase: Phase::Data, byte: 0b1000_0000, register: PhantomData };
    assert_eq!(write.request(), send(0b1000_0000));
    assert!(matches!(write.advance(Err(Nack)), Progress::Done(Err(Error::I2c(Nack)))));
}

#[test]
fn raw_operations_access_the_byte_at_the_address() {
    assert_eq!(
        read_raw(RegisterAddress::InterruptReporting2),
        Exchange {
            transaction: Transaction::Read { register: RegisterAddress::InterruptReporting2 },
            phase: Phase::AddressSelect
        }
    );
    assert_eq!(
        write_raw(RegisterAddress::InterruptMask2, 0b1000_0010),
        Exchange {
            transaction: Transaction::Write {
                register: RegisterAddress::InterruptMask2,
                value: 0b1000_0010
            },
            phase: Phase::AddressSelect
        }
    );
    let mut device = Device::holding(0x12, 0b0001_0010);
    assert!(matches!(device.run(read_raw(RegisterAddress::InterruptReporting2)), Ok(0b0001_0010)));
    assert!(matches!(
        device.run(write_raw(RegisterAddress::InterruptMask2, 0b1000_0010)),
        Ok(0b1000_0010)
    ));
    assert_eq!(device.calls, vec![select(0x12), receive(), select(0xF0), send(0b1000_0010)]);
    assert_eq!(device.registers[0xF0], 0b1000_0010);
}

#[test]
fn read_after_write_gives_the_value_back() {
    let mut device = Device::new();
    let value = ChargerConfig0::new()
        .with_thermal_loop(true)
        .with_output_voltage(SysOutputVoltage::V5_5);
    device.write(value).unwrap();
    assert_eq!(device.read::<ChargerConfig0>().unwrap(), value);
}

#[test]
fn edit_flips_charger_enabled() {
    let mut device = Device::holding(0x02, 0b0000_0001);
    let mut seen = None;
    device
        .edit(|mut register: ChargerConfig0| {
            seen = Some(register);
            register.set_charger_enabled(!register.charger_enabled());
            register
        })
        .unwrap();
    let seen = seen.unwrap();
    assert_eq!(seen.encode(), 0b0000_0001);
    assert_eq!(seen.charger_enabled(), true);
    assert_eq!(seen.termination_enabled(), false);
    assert_eq!(seen.dynamic_timer(), false);
    assert_eq!(seen.thermal_loop(), false);
    assert_eq!(seen.ac_input_current(), AcInputCurrent::MA100ddpm);
    assert_eq!(seen.output_voltage(), SysOutputVoltage::Vsys);
    assert_eq!(
        device.calls,
        vec![select(0x02), receive(), select(0x02), send(0b0000_0000)]
    );
    assert_eq!(device.registers[0x02], 0b0000_0000);
}

#[test]
fn edit_with_the_identity_writes_the_byte_back() {
    for byte in [0b0000_0000, 0b0000_0001, 0b1010_0101, 0b1111_1111] {
        let mut device = Device::holding(0x02, byte);
        device.edit(|register: ChargerConfig0| register).unwrap();
        assert_eq!(device.calls, vec![select(0x02), receive(), select(0x02), send(byte)]);
        assert_eq!(device.registers[0x02], byte);
    }
}

#[test]
fn edit_keeps_reserved_bits() {
    let mut device = Device::holding(0x09, 0b0001_0101);
    device.edit(|register: Control0| register.with_forced_pwm(true)).unwrap();
    assert_eq!(
        device.calls,
        vec![select(0x09), receive(), select(0x09), send(0b1001_0101)]
    );
}

#[test]
fn illegal_code_is_unexpected_value() {
    let mut device = Device::holding(0x02, 0b0000_0001);
    let value: Result<Strict, Error<Nack>> = device.read();
    assert!(matches!(value, Err(Error::UnexpectedValue)));
    assert_eq!(device.calls, vec![select(0x02), receive()]);

    let mut device = Device::holding(0x02, 0b0000_0010);
    let value: Result<Strict, Error<Nack>> = device.read();
    assert_eq!(value.unwrap(), Strict(0b0000_0010));
}

#[test]
fn edit_of_an_illegal_byte_writes_nothing() {
    let mut device = Device::holding(0x02, 0b0000_0001);
    let mut called = false;
    let result = device.edit(|register: Strict| {
        called = true;
        register
    });
    assert!(matches!(result, Err(Error::UnexpectedValue)));
    assert!(!called);
    assert_eq!(device.calls, vec![select(0x02), receive()]);
    assert_eq!(device.registers[0x02], 0b0000_0001);
}

#[test]
fn read_fails_fast_when_the_address_phase_fails() {
    let mut device = Device::holding(0x02, 0b0000_0001);
    device.fail_at = Some(0);
    let value: Result<ChargerConfig0, Error<Nack>> = device.read();
    assert!(matches!(value, Err(Error::I2c(Nack))));
    assert_eq!(device.calls, vec![select(0x02)]);
}

#[test]
fn read_fails_when_the_data_phase_fails() {
    let mut device = Device::holding(0x02, 0b0000_0001);
    device.fail_at = Some(1);
    let value: Result<ChargerConfig0, Error<Nack>> = device.read();
    assert!(matches!(value, Err(Error::I2c(Nack))));
    assert_eq!(device.calls, vec![select(0x02), receive()]);
}

#[test]
fn write_fails_fast_when_the_address_phase_fails() {
    let mut device = Device::new();
    device.fail_at = Some(0);
    let result = device.write(ChargerConfig0::new().with_charger_enabled(true));
    assert!(matches!(result, Err(Error::I2c(Nack))));
    assert_eq!(device.calls, vec![select(0x02)]);
    assert_eq!(device.registers[0x02], 0);
}

#[test]
fn write_fails_when_the_data_phase_fails() {
    let mut device = Device::new();
    device.fail_at = Some(1);
    let result = device.write(ChargerConfig0::new().with_charger_enabled(true));
    assert!(matches!(result, Err(Error::I2c(Nack))));
    assert_eq!(device.calls, vec![select(0x02), send(0b0000_0001)]);
    assert_eq!(device.registers[0x02], 0);
}

#[test]
fn edit_stops_before_the_transform_when_the_read_fails() {
    for failing in [0, 1] {
        let mut device = Device::holding(0x03, 0b0000_0100);
        device.fail_at = Some(failing);
        let mut called = false;
        let result = device.edit(|register: ChargerConfig1| {
            called = true;
            register
        });
        assert!(matches!(result, Err(Error::I2c(Nack))));
        assert!(!called);
        assert_eq!(device.calls.len(), failing + 1);
        assert_eq!(device.registers[0x03], 0b0000_0100);
    }
}

#[test]
fn edit_reports_a_failed_write() {
    for failing in [2, 3] {
        let mut device = Device::holding(0x02, 0b0000_0001);
        device.fail_at = Some(failing);
        let result = device.edit(|register: ChargerConfig0| register.with_charger_enabled(false));
        assert!(matches!(result, Err(Error::I2c(Nack))));
        assert_eq!(device.calls.len(), failing + 1);
        assert_eq!(device.registers[0x02], 0b0000_0001);
    }
}

#[test]
fn the_next_operation_works_after_a_failure() {
    let mut device = Device::holding(0x02, 0b0100_0000);
    device.fail_at = Some(0);
    assert!(device.read::<ChargerConfig0>().is_err());
    let value: ChargerConfig0 = device.read().unwrap();
    assert_eq!(value.output_voltage(), SysOutputVoltage::V4_4);
    assert_eq!(device.calls, vec![select(0x02), select(0x02), receive()]);
}

#[test]
fn edit_register_plans_the_write_of_the_transformed_value() {
    let read: Result<ChargerConfig0, Error<Nack>> =
        Ok(ChargerConfig0::decode(0b0000_0001).unwrap());
    let write = edit_register(read, |register: ChargerConfig0| {
        register.with_output_voltage(SysOutputVoltage::V5_5)
    })
    .ok()
    .unwrap();
    assert_eq!(write.phase, Phase::AddressSelect);
    assert_eq!(write.byte, 0b1100_0001);
    assert_eq!(write.request(), select(0x02));
}

#[test]
fn edit_register_hands_the_error_of_the_read_on() {
    let mut called = false;
    let write = edit_register(Err(Error::I2c(Nack)), |register: ChargerConfig0| {
        called = true;
        register
    });
    assert!(matches!(write, Err(Error::I2c(Nack))));
    let read: Result<ChargerConfig0, Error<Nack>> = Err(Error::UnexpectedValue);
    let write = edit_register(read, |register| {
        called = true;
        register
    });
    assert!(matches!(write, Err(Error::UnexpectedValue)));
    assert!(!called);
}
