//! The parameter model: typed axis registers.  Each register type declares a
//! parameter number and which capabilities it supports, as marker traits, so
//! that an instruction can only be built from a register/parameter pairing
//! the controller actually supports for that operation.
//!
//! Readable means the type can be constructed from a decoded 4-byte operand;
//! Writeable means it can render itself to a 4-byte operand; Storable (the
//! store-parameter instruction over a writeable type) means its value may be
//! persisted to non-volatile storage.

use vstd::prelude::*;
use crate::instructions::Return;

verus! {

/// Axis parameter - useable with SAP, GAP, STAP and/or RSAP instructions.
pub trait AxisParameter {
    /// The protocol-assigned parameter number, fixed per type.
    spec fn spec_number() -> u8;

    fn number() -> (r: u8)
        ensures
            r == Self::spec_number(),
    ;
}

/// An axis parameter useable with the GAP instruction.
pub trait ReadableAxisParameter: AxisParameter + Return {

}

/// An axis parameter useable with the SAP instruction.
pub trait WriteableAxisParameter: AxisParameter {
    /// The 4-byte operand this parameter renders itself to.  Narrower
    /// semantic types occupy the low-order bytes; the remaining high-order
    /// bytes are zero.
    spec fn spec_operand(&self) -> Seq<u8>;

    fn operand(&self) -> (r: [u8; 4])
        ensures
            r@ == self.spec_operand(),
    ;
}

} // verus!
