//! Failures that the driver reports.

use vstd::prelude::*;

verus! {

/// A byte that does not decode: one of its bit groups holds a code that the
/// field's enumeration does not list.
#[derive(Clone, Copy, Debug, PartialEq, Eq, Structural)]
pub struct InvalidField;

/// Why a register operation failed.
#[derive(Clone, Copy, Debug)]
pub enum Error<I2CError> {
    /// The bus transport failed; its own error is handed on unchanged.
    I2c(I2CError),
    /// The byte read from the device holds a code that the register's layout
    /// does not list.
    UnexpectedValue,
}

} // verus!
