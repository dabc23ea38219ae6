//! The driver's operations, as plans for the bus.
//!
//! A raw operation reads or writes the byte at an address. A typed operation
//! reads a register, writes one, or edits one in place, and is a function of
//! the register's type: the type alone decides which address is accessed and
//! how the byte is decoded and encoded. The functions here plan the
//! operations and interpret what came back; the owner of the bus runs each
//! operation in between.

use std::marker::PhantomData;
use vstd::prelude::*;
use crate::error::{Error, InvalidField};
use crate::registers::{Register, RegisterAddress, WritableRegister};
use crate::transaction::{
    advance_spec, BusRequest, Exchange, Operation, Outcome, Phase, Progress, Transaction,
    TPS_ADDRESS,
};

verus! {

/// The read of register `R` under way. It yields a value of type `R`.
pub struct ReadRegister<R: Register> {
    pub phase: Phase,
    pub register: PhantomData<R>,
}

/// The write of a value of type `R` under way. Only a writable register has a
/// write.
pub struct WriteRegister<R: WritableRegister> {
    pub phase: Phase,
    /// The byte that the value encodes to.
    pub byte: u8,
    pub register: PhantomData<R>,
}

/// The read of register `R` at its start.
pub open spec fn read_register_spec<R: Register>() -> ReadRegister<R> {
    ReadRegister { phase: Phase::AddressSelect, register: PhantomData }
}

/// The write of `value` to its register at its start.
pub open spec fn write_register_spec<R: WritableRegister>(value: R) -> WriteRegister<R> {
    WriteRegister { phase: Phase::AddressSelect, byte: value.encode_spec(), register: PhantomData }
}

/// Plans the read of the byte at `address`.
pub fn read_raw(address: RegisterAddress) -> (exchange: Exchange)
    ensures
        exchange == Exchange::begin(Transaction::Read { register: address }),
{
    Exchange::begin(Transaction::Read { register: address })
}

/// Plans the write of `byte` to `address`.
pub fn write_raw(address: RegisterAddress, byte: u8) -> (exchange: Exchange)
    ensures
        exchange == Exchange::begin(Transaction::Write { register: address, value: byte }),
{
    Exchange::begin(Transaction::Write { register: address, value: byte })
}

/// Plans the read of register `R`.
pub fn read_register<R: Register>() -> (read: ReadRegister<R>)
    ensures
        read == read_register_spec::<R>(),
{
    ReadRegister { phase: Phase::AddressSelect, register: PhantomData }
}

/// Plans the write of `value` to its register.
pub fn write_register<R: WritableRegister>(value: R) -> (write: WriteRegister<R>)
    ensures
        write == write_register_spec(value),
{
    WriteRegister { phase: Phase::AddressSelect, byte: value.encode(), register: PhantomData }
}

/// Plans the second half of an edit of register `R`: given the end of the
/// read, the write of the transformed value.
///
/// Where the read failed, the edit ends with its error and nothing is
/// written. Where it succeeded, the write is planned whatever the transform
/// did, also where it changed nothing.
pub fn edit_register<R: WritableRegister, E, F: FnOnce(R) -> R>(
    read: Result<R, Error<E>>,
    transform: F,
) -> (write: Result<WriteRegister<R>, Error<E>>)
    requires
        read matches Ok(value) ==> call_requires(transform, (value,)),
    ensures
        match read {
            Err(error) => write == Err::<WriteRegister<R>, Error<E>>(error),
            Ok(value) => exists|edited: R|
                call_ensures(transform, (value,), edited) && write == Ok::<
                    WriteRegister<R>,
                    Error<E>,
                >(#[trigger] write_register_spec(edited)),
        },
{
    match read {
        Err(error) => Err(error),
        Ok(value) => {
            let edited = transform(value);
            Ok(write_register(edited))
        },
    }
}

impl<R: Register> ReadRegister<R> {
    /// The transaction that the read makes, at the phase it has reached.
    pub open spec fn exchange_spec(&self) -> Exchange {
        Exchange {
            transaction: Transaction::Read { register: R::address_spec() },
            phase: self.phase,
        }
    }

    /// The transaction that the read makes, at the phase it has reached.
    #[verifier::when_used_as_spec(exchange_spec)]
    pub fn exchange(&self) -> (exchange: Exchange)
        ensures
            exchange == self.exchange_spec(),
    {
        Exchange { transaction: Transaction::Read { register: R::address() }, phase: self.phase }
    }
}

impl<R: Register> Operation for ReadRegister<R> {
    type Output = R;

    open spec fn request_spec(&self) -> BusRequest {
        self.exchange().request_spec()
    }

    /// The read goes as its transaction goes, and ends with the value that the
    /// fetched byte decodes to, if it decodes.
    open spec fn proceed_spec(self, buffer: u8) -> Outcome<Self, R> {
        match self.exchange().proceed_spec(buffer) {
            Outcome::Next(next) => Outcome::Next(
                ReadRegister { phase: next.phase, register: self.register },
            ),
            Outcome::Finished(byte) => match R::decode_spec(byte) {
                Ok(value) => Outcome::Finished(value),
                Err(_) => Outcome::Unexpected,
            },
            Outcome::Unexpected => Outcome::Unexpected,
        }
    }

    fn request(&self) -> (request: BusRequest)
        ensures
            request == self.request_spec(),
    {
        self.exchange().request()
    }

    /// A failed call ends the operation with the transport's error; a call
    /// that succeeded leads where `proceed_spec` says.
    fn advance<E>(self, reply: Result<u8, E>) -> (progress: Progress<Self, R, E>) {
        match self.exchange().advance(reply) {
            Progress::Next(next) => Progress::Next(
                ReadRegister { phase: next.phase, register: self.register },
            ),
            Progress::Done(Ok(byte)) => match R::decode(byte) {
                Ok(value) => Progress::Done(Ok(value)),
                Err(_) => Progress::Done(Err(Error::UnexpectedValue)),
            },
            Progress::Done(Err(error)) => Progress::Done(Err(error)),
        }
    }
}

impl<R: WritableRegister> WriteRegister<R> {
    /// The transaction that the write makes, at the phase it has reached.
    pub open spec fn exchange_spec(&self) -> Exchange {
        Exchange {
            transaction: Transaction::Write { register: R::address_spec(), value: self.byte },
            phase: self.phase,
        }
    }

    /// The transaction that the write makes, at the phase it has reached. Its
    /// register is one that the host may write.
    #[verifier::when_used_as_spec(exchange_spec)]
    pub fn exchange(&self) -> (exchange: Exchange)
        ensures
            exchange == self.exchange_spec(),
            exchange.transaction.register().writable(),
    {
        proof {
            R::lemma_writable();
        }
        Exchange {
            transaction: Transaction::Write { register: R::address(), value: self.byte },
            phase: self.phase,
        }
    }
}

impl<R: WritableRegister> Operation for WriteRegister<R> {
    type Output = ();

    open spec fn request_spec(&self) -> BusRequest {
        self.exchange().request_spec()
    }

    /// The write goes as its transaction goes.
    open spec fn proceed_spec(self, buffer: u8) -> Outcome<Self, ()> {
        match self.exchange().proceed_spec(buffer) {
            Outcome::Next(next) => Outcome::Next(
                WriteRegister { phase: next.phase, byte: self.byte, register: self.register },
            ),
            Outcome::Finished(_) => Outcome::Finished(()),
            Outcome::Unexpected => Outcome::Unexpected,
        }
    }

    fn request(&self) -> (request: BusRequest)
        ensures
            request == self.request_spec(),
    {
        self.exchange().request()
    }

    /// A failed call ends the operation with the transport's error; a call
    /// that succeeded leads where `proceed_spec` says.
    fn advance<E>(self, reply: Result<u8, E>) -> (progress: Progress<Self, (), E>) {
        match self.exchange().advance(reply) {
            Progress::Next(next) => Progress::Next(
                WriteRegister { phase: next.phase, byte: self.byte, register: self.register },
            ),
            Progress::Done(Ok(_)) => Progress::Done(Ok(())),
            Progress::Done(Err(error)) => Progress::Done(Err(error)),
        }
    }
}

/// A read sends the address of its register, then receives one byte, and
/// ends with the value that the byte decodes to, or with `UnexpectedValue`
/// where the byte does not decode.
pub proof fn lemma_read_takes_two_calls<R: Register, E>(sent: u8, received: u8)
    ensures
        ({
            let select = read_register_spec::<R>();
            let data = ReadRegister::<R> { phase: Phase::Data, register: PhantomData };
            &&& select.request_spec() == (BusRequest::Write {
                address: TPS_ADDRESS,
                byte: R::address_spec().byte(),
            })
            &&& advance_spec(select, Ok::<u8, E>(sent)) == Progress::<ReadRegister<R>, R, E>::Next(
                data,
            )
            &&& data.request_spec() == (BusRequest::Read { address: TPS_ADDRESS })
            &&& R::decode_spec(received) matches Ok(value) ==> advance_spec(
                data,
                Ok::<u8, E>(received),
            ) == Progress::<ReadRegister<R>, R, E>::Done(Ok(value))
            &&& R::decode_spec(received) is Err ==> advance_spec(data, Ok::<u8, E>(received))
                == Progress::<ReadRegister<R>, R, E>::Done(Err(Error::UnexpectedValue))
        }),
{
}

/// A write sends the address of its register, then the byte that the value
/// encodes to, and ends there. The register is one that the host may write.
pub proof fn lemma_write_takes_two_calls<R: WritableRegister, E>(value: R, first: u8, second: u8)
    ensures
        ({
            let select = write_register_spec(value);
            let data = WriteRegister::<R> {
                phase: Phase::Data,
                byte: value.encode_spec(),
                register: PhantomData,
            };
            &&& R::address_spec().writable()
            &&& select.request_spec() == (BusRequest::Write {
                address: TPS_ADDRESS,
                byte: R::address_spec().byte(),
            })
            &&& advance_spec(select, Ok::<u8, E>(first)) == Progress::<
                WriteRegister<R>,
                (),
                E,
            >::Next(data)
            &&& data.request_spec() == (BusRequest::Write {
                address: TPS_ADDRESS,
                byte: value.encode_spec(),
            })
            &&& advance_spec(data, Ok::<u8, E>(second)) == Progress::<
                WriteRegister<R>,
                (),
                E,
            >::Done(Ok(()))
        }),
{
    R::lemma_writable();
}

/// Reading back the byte that a write sends gives the value written.
pub proof fn lemma_read_after_write<R: WritableRegister>(value: R)
    ensures
        R::decode_spec(write_register_spec(value).byte) == Ok::<R, InvalidField>(value),
{
    R::lemma_decode_encode(value);
}

/// An edit that changes nothing writes back the byte that was read.
pub proof fn lemma_unchanged_edit_rewrites_byte<R: WritableRegister>(byte: u8)
    ensures
        R::decode_spec(byte) matches Ok(value) ==> write_register_spec(value).byte == byte,
{
    R::lemma_encode_decode(byte);
}

} // verus!
