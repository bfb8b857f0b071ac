//! The transport collaborator contract and the shared handle through which
//! modules access one transport.
//!
//! An `Interface` is supplied by surrounding code (a serial port, a CAN
//! socket, an I2C bus): a blocking send-frame and receive-frame pair with an
//! opaque transport error.  Nothing is assumed of an implementation; the
//! dispatcher states what holds of every outcome.
//!
//! A `SharedInterface` lets several modules (for instance one per motor on
//! one physical bus) share a single transport under a try-lock discipline: at
//! most one exchange is in flight at a time, and a caller that cannot obtain
//! exclusive access fails fast rather than queue.

use vstd::prelude::*;
use core::cell::Cell;
use std::rc::Rc;
use crate::command::Command;
use crate::command::Reply;
use crate::instructions::Instruction;

verus! {

/// An interface for a TMCM module.
///
/// Can be RS232, RS485, CAN or I2C.  Implementations live outside this
/// library; the dispatcher promises nothing about what their methods return.
pub trait Interface {
    type Error;

    /// Render and send one command, blocking until it is handed to the
    /// transport.
    fn transmit_command<T: Instruction>(&mut self, command: &Command<T>) -> Result<
        (),
        Self::Error,
    >;

    /// Block until one reply frame arrives and parse it.
    fn receive_reply(&mut self) -> Result<Reply, Self::Error>;
}

/// Relies on core::cell::Cell being a value container; nothing is assumed of
/// a cell's contents, which this library reads only through the trusted
/// operations below.
#[verifier::external_type_specification]
#[verifier::external_body]
#[verifier::reject_recursive_types(T)]
pub struct ExCell<T: ?Sized>(Cell<T>);

/// Relies on core::cell::Cell::new: creates a cell containing the value.
pub assume_specification<T>[ Cell::<T>::new ](value: T) -> Cell<T>;

/// Relies on core::cell::Cell::replace: stores the given value into the cell
/// and returns the value the cell held before.
pub assume_specification<T>[ Cell::<T>::replace ](cell: &Cell<T>, val: T) -> T;

/// Relies on core::cell::Cell::set: stores the given value into the cell,
/// dropping the value the cell held before.
pub assume_specification<T>[ Cell::<T>::set ](cell: &Cell<T>, val: T);

/// A shared handle to one transport interface.
///
/// Handles obtained by `clone` refer to the same underlying interface.  The
/// interface sits in a cell and is taken out, whole, for the duration of one
/// exchange, then put back: while one holder runs an exchange every other
/// holder sees the cell empty and fails fast, so two exchanges can never
/// interleave their frames.
#[verifier::reject_recursive_types(IF)]
pub struct SharedInterface<IF> {
    cell: Rc<Cell<Option<IF>>>,
}

impl<IF> Clone for SharedInterface<IF> {
    /// Relies on std::rc::Rc::clone: the new handle refers to the same
    /// underlying cell, and so to the same interface.
    #[verifier::external_body]
    fn clone(&self) -> (r: SharedInterface<IF>) {
        SharedInterface { cell: self.cell.clone() }
    }
}

impl<IF> SharedInterface<IF> {
    /// Wrap an interface for shared use.
    pub fn new(interface: IF) -> SharedInterface<IF> {
        SharedInterface { cell: Rc::new(Cell::new(Some(interface))) }
    }

    /// Take exclusive possession of the interface, leaving the handle busy,
    /// or nothing if another exchange is in flight.
    pub(crate) fn take(&self) -> Option<IF> {
        self.cell.replace(None)
    }

    /// Put the interface back, ending the exchange.
    pub(crate) fn restore(&self, interface: IF) {
        self.cell.set(Some(interface));
    }
}

} // verus!
