//! Generic TMCM module - uses TMCL instructions without making assumptions
//! about parameters.
//!
//! The types in this module provide only a minimum of compile-time
//! guarantees: the parameterized instructions here carry a raw parameter
//! number and a raw operand, so an attempt to write a read-only register is
//! only rejected by the controller at run time.  Prefer a less generic
//! module, such as the TMCM one, where one exists.

pub use crate::instructions::ROR;
pub use crate::instructions::ROL;
pub use crate::instructions::MST;
pub use crate::instructions::MVP;
pub use crate::instructions::RFS;
pub use crate::instructions::SIO;
pub use crate::instructions::GIO;
pub use crate::instructions::MoveOperation;
pub use crate::instructions::ReferenceSearchAction;

use vstd::prelude::*;
use crate::command::Command;
use crate::command::Reply;
use crate::errors::Error;
use crate::errors::ParameterError;
use crate::instructions::DirectInstruction;
use crate::instructions::Instruction;
use crate::instructions::Return;
use crate::interface::Interface;
use crate::interface::SharedInterface;
use crate::status::Status;

verus! {

/// This type represents a generic TMCM module.
#[verifier::reject_recursive_types(IF)]
pub struct GenericModule<IF: Interface> {
    /// The module address.
    address: u8,
    interface: SharedInterface<IF>,
}

impl<IF: Interface> GenericModule<IF> {
    /// The address of the module this dispatcher talks to.
    pub closed spec fn spec_address(&self) -> u8 {
        self.address
    }

    /// Create a new module over a shared interface handle.
    pub fn new(interface: SharedInterface<IF>, address: u8) -> (r: GenericModule<IF>)
        ensures
            r.spec_address() == address,
    {
        GenericModule { address, interface }
    }

    /// Synchronously write a command and wait for the reply.
    ///
    /// Takes exclusive possession of the shared interface for the whole
    /// exchange, failing fast with `InterfaceUnavailable` while another
    /// exchange is in flight, and gives it back on every path.  A transport
    /// failure aborts the exchange with `InterfaceError`; no retry.  The
    /// reply is classified exactly as [`Reply::decode`] states: a success
    /// status has its operand decoded into the instruction's declared return
    /// type, an error status becomes the typed protocol error.
    pub fn write_command<Inst: Instruction + DirectInstruction>(&self, instruction: Inst) -> (r:
        Result<Inst::Return, Error<IF::Error>>)
        ensures
            match r {
                Ok(v) => exists|rep: Reply|
                    {
                        &&& #[trigger] <Inst::Return as Return>::spec_from_operand(
                            rep.spec_operand(),
                        ) == Some(v)
                        &&& rep.spec_status() is Success
                    },
                Err(Error::ProtocolError(s)) => exists|rep: Reply|
                    #[trigger] rep.spec_status() == Status::Error(s),
                Err(Error::DecodeError(p)) => p == ParameterError::UnrecognizedVariant,
                Err(Error::InterfaceUnavailable) => true,
                Err(Error::InterfaceError(_)) => true,
            },
    {
        let mut interface = match self.interface.take() {
            Some(interface) => interface,
            None => {
                return Err(Error::InterfaceUnavailable);
            },
        };
        match interface.transmit_command(&Command::new(self.address, instruction)) {
            Ok(()) => (),
            Err(e) => {
                self.interface.restore(interface);
                return Err(Error::InterfaceError(e));
            },
        }
        let reply = match interface.receive_reply() {
            Ok(reply) => reply,
            Err(e) => {
                self.interface.restore(interface);
                return Err(Error::InterfaceError(e));
            },
        };
        self.interface.restore(interface);
        reply.decode::<Inst::Return, IF::Error>()
    }
}

/// SAP - Set Axis Parameter, with a raw parameter number and operand.
///
/// No capability or range rule is enforced here: the controller itself
/// rejects a write to a register that does not support it.
#[derive(Debug, PartialEq)]
pub struct SAP {
    motor_number: u8,
    parameter_number: u8,
    operand: [u8; 4],
}

impl SAP {
    /// The operand uses the codec's convention: index 0 holds the least
    /// significant byte.
    pub fn new(motor_number: u8, parameter_number: u8, operand: [u8; 4]) -> (r: SAP)
        ensures
            r.spec_type_number() == parameter_number,
            r.spec_motor_bank_number() == motor_number,
            r.spec_operand() == operand@,
    {
        SAP { motor_number, parameter_number, operand }
    }
}

impl Instruction for SAP {
    open spec fn spec_instruction_number() -> u8 {
        5
    }

    fn instruction_number() -> (r: u8) {
        5
    }

    closed spec fn spec_type_number(&self) -> u8 {
        self.parameter_number
    }

    closed spec fn spec_motor_bank_number(&self) -> u8 {
        self.motor_number
    }

    closed spec fn spec_operand(&self) -> Seq<u8> {
        self.operand@
    }

    fn type_number(&self) -> (r: u8) {
        self.parameter_number
    }

    fn motor_bank_number(&self) -> (r: u8) {
        self.motor_number
    }

    fn operand(&self) -> (r: [u8; 4]) {
        self.operand
    }
}

impl DirectInstruction for SAP {
    type Return = ();
}

/// GAP - Get Axis Parameter, with a raw parameter number.
///
/// The reply operand is returned raw, index 0 holding the least significant
/// byte; nothing is known here about the register's semantic type.
#[derive(Debug, PartialEq)]
pub struct GAP {
    motor_number: u8,
    parameter_number: u8,
}

impl GAP {
    pub fn new(motor_number: u8, parameter_number: u8) -> (r: GAP)
        ensures
            r.spec_type_number() == parameter_number,
            r.spec_motor_bank_number() == motor_number,
            r.spec_operand() == seq![0u8, 0u8, 0u8, 0u8],
    {
        GAP { motor_number, parameter_number }
    }
}

impl Instruction for GAP {
    open spec fn spec_instruction_number() -> u8 {
        6
    }

    fn instruction_number() -> (r: u8) {
        6
    }

    closed spec fn spec_type_number(&self) -> u8 {
        self.parameter_number
    }

    closed spec fn spec_motor_bank_number(&self) -> u8 {
        self.motor_number
    }

    closed spec fn spec_operand(&self) -> Seq<u8> {
        seq![0u8, 0u8, 0u8, 0u8]
    }

    fn type_number(&self) -> (r: u8) {
        self.parameter_number
    }

    fn motor_bank_number(&self) -> (r: u8) {
        self.motor_number
    }

    fn operand(&self) -> (r: [u8; 4]) {
        let r: [u8; 4] = [0u8, 0u8, 0u8, 0u8];
        assert(r@ =~= self.spec_operand());
        r
    }
}

impl DirectInstruction for GAP {
    type Return = [u8; 4];
}

/// STAP - Store Axis Parameter, with a raw parameter number.
///
/// Stores the register's current value permanently; the transmitted operand
/// is zero.
#[derive(Debug, PartialEq)]
pub struct STAP {
    motor_number: u8,
    parameter_number: u8,
}

impl STAP {
    pub fn new(motor_number: u8, parameter_number: u8) -> (r: STAP)
        ensures
            r.spec_type_number() == parameter_number,
            r.spec_motor_bank_number() == motor_number,
            r.spec_operand() == seq![0u8, 0u8, 0u8, 0u8],
    {
        STAP { motor_number, parameter_number }
    }
}

impl Instruction for STAP {
    open spec fn spec_instruction_number() -> u8 {
        7
    }

    fn instruction_number() -> (r: u8) {
        7
    }

    closed spec fn spec_type_number(&self) -> u8 {
        self.parameter_number
    }

    closed spec fn spec_motor_bank_number(&self) -> u8 {
        self.motor_number
    }

    closed spec fn spec_operand(&self) -> Seq<u8> {
        seq![0u8, 0u8, 0u8, 0u8]
    }

    fn type_number(&self) -> (r: u8) {
        self.parameter_number
    }

    fn motor_bank_number(&self) -> (r: u8) {
        self.motor_number
    }

    fn operand(&self) -> (r: [u8; 4]) {
        let r: [u8; 4] = [0u8, 0u8, 0u8, 0u8];
        assert(r@ =~= self.spec_operand());
        r
    }
}

impl DirectInstruction for STAP {
    type Return = ();
}

} // verus!
