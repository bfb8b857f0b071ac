//! The errors a command exchange can end in, and the construction-time
//! conditions of the parameter model.

use vstd::prelude::*;
use crate::status::ErrStatus;

verus! {

/// A construction-time or decode-time condition of the parameter model.
#[derive(Debug, PartialEq, Eq, Structural, Clone, Copy)]
pub enum ParameterError {
    /// A value lies outside the range the protocol mandates for the
    /// parameter.
    OutOfRange,
    /// A decoded numeric value names no variant of an enumerated parameter.
    UnrecognizedVariant,
}

/// All possible errors when communicating with a module.
#[derive(Debug, PartialEq, Clone, Copy)]
pub enum Error<T> {
    /// Exclusive access to the shared interface could not be acquired:
    /// another exchange is in flight on it.  The caller may retry; nothing
    /// was transmitted.
    InterfaceUnavailable,
    /// The interface had an error while transmitting or receiving.
    InterfaceError(T),
    /// The module reported an error status.
    ProtocolError(ErrStatus),
    /// The reply carried a success status, but its operand does not decode
    /// into the instruction's declared return type.
    DecodeError(ParameterError),
}

impl<T> From<ErrStatus> for Error<T> {
    fn from(es: ErrStatus) -> (r: Error<T>) {
        Error::ProtocolError(es)
    }
}

impl<T> vstd::std_specs::convert::FromSpecImpl<ErrStatus> for Error<T> {
    open spec fn obeys_from_spec() -> bool {
        true
    }

    open spec fn from_spec(es: ErrStatus) -> Error<T> {
        Error::ProtocolError(es)
    }
}

} // verus!
