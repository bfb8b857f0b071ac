//! Command and reply framing: a `Command` is an instruction plus a module
//! address and renders itself to the wire byte sequence of a transport
//! variant; a `Reply` is parsed from a received frame into a status and a raw
//! operand.
//!
//! On the wire the operand travels most significant byte first, the reverse
//! of the operand codec's convention; the reversal is applied exactly once at
//! render time, and mirrored once when a received frame is parsed.

use vstd::prelude::*;
use crate::errors::Error;
use crate::errors::ParameterError;
use crate::instructions::Instruction;
use crate::instructions::Return;
use crate::status::NonValidErrorCode;
use crate::status::Status;

verus! {

/// A `Command` is an `Instruction` with a module address.
///
/// It contains everything required to render itself into binary command
/// format.  Immutable once constructed.
#[derive(Debug, PartialEq)]
pub struct Command<T: Instruction> {
    module_address: u8,
    instruction: T,
}

impl<T: Instruction> Command<T> {
    /// The module address the command targets.
    pub closed spec fn spec_module_address(&self) -> u8 {
        self.module_address
    }

    /// The instruction the command carries.
    pub closed spec fn spec_instruction(&self) -> T {
        self.instruction
    }

    /// The CAN wire encoding: the module address travels separately as the
    /// arbitration identifier and the checksum is omitted, so the frame body
    /// is the instruction number, the type number, the motor/bank number and
    /// the four operand bytes, most significant first.
    pub open spec fn spec_serialize_can(&self) -> Seq<u8> {
        seq![
            T::spec_instruction_number(),
            self.spec_instruction().spec_type_number(),
            self.spec_instruction().spec_motor_bank_number(),
            self.spec_instruction().spec_operand()[3],
            self.spec_instruction().spec_operand()[2],
            self.spec_instruction().spec_operand()[1],
            self.spec_instruction().spec_operand()[0],
        ]
    }

    pub fn new(module_address: u8, instruction: T) -> (r: Command<T>)
        ensures
            r.spec_module_address() == module_address,
            r.spec_instruction() == instruction,
    {
        Command { module_address, instruction }
    }

    /// Returns the module address.
    pub fn module_address(&self) -> (r: u8)
        ensures
            r == self.spec_module_address(),
    {
        self.module_address
    }

    /// The serial wire encoding, less the trailing checksum byte:
    /// `[MODULE_ADR, CMD_N, TYPE_N, MOTOR_N, VALUE3, VALUE2, VALUE1,
    /// VALUE0]`, the operand most significant byte first.
    pub open spec fn spec_serialize_body(&self) -> Seq<u8> {
        seq![
            self.spec_module_address(),
            T::spec_instruction_number(),
            self.spec_instruction().spec_type_number(),
            self.spec_instruction().spec_motor_bank_number(),
            self.spec_instruction().spec_operand()[3],
            self.spec_instruction().spec_operand()[2],
            self.spec_instruction().spec_operand()[1],
            self.spec_instruction().spec_operand()[0],
        ]
    }

    /// Serialize into binary command format suited for RS232, RS485 etc.
    ///
    /// The checksum algorithm is transport-specific and not part of this
    /// model, so the caller computes the checksum byte over the other eight
    /// bytes (see [`Command::serialize_body`]) with the strategy its
    /// transport mandates and hands it in.  The array looks like the
    /// following:
    /// `[MODULE_ADR, CMD_N, TYPE_N, MOTOR_N, VALUE3, VALUE2, VALUE1, VALUE0,
    /// CHECKSUM]`
    pub fn serialize(&self, checksum: u8) -> (r: [u8; 9])
        ensures
            r@ == self.spec_serialize_body().push(checksum),
    {
        let op = self.instruction.operand();
        let r: [u8; 9] = [
            self.module_address,
            T::instruction_number(),
            self.instruction.type_number(),
            self.instruction.motor_bank_number(),
            op[3],
            op[2],
            op[1],
            op[0],
            checksum,
        ];
        assert(r@ =~= self.spec_serialize_body().push(checksum));
        r
    }

    /// Serialize into binary command format suited for I2C.
    ///
    /// The module address travels as the bus address, so the frame starts at
    /// the instruction number; as with [`Command::serialize`] the caller
    /// supplies the transport's checksum byte.  The array looks like the
    /// following:
    /// `[CMD_N, TYPE_N, MOTOR_N, VALUE3, VALUE2, VALUE1, VALUE0, CHECKSUM]`
    pub fn serialize_i2c(&self, checksum: u8) -> (r: [u8; 8])
        ensures
            r@ == self.spec_serialize_can().push(checksum),
    {
        let op = self.instruction.operand();
        let r: [u8; 8] = [
            T::instruction_number(),
            self.instruction.type_number(),
            self.instruction.motor_bank_number(),
            op[3],
            op[2],
            op[1],
            op[0],
            checksum,
        ];
        assert(r@ =~= self.spec_serialize_can().push(checksum));
        r
    }

    /// The eight bytes a serial checksum is computed over: the frame of
    /// [`Command::serialize`] without its trailing checksum byte.
    pub fn serialize_body(&self) -> (r: [u8; 8])
        ensures
            r@ == self.spec_serialize_body(),
    {
        let op = self.instruction.operand();
        let r: [u8; 8] = [
            self.module_address,
            T::instruction_number(),
            self.instruction.type_number(),
            self.instruction.motor_bank_number(),
            op[3],
            op[2],
            op[1],
            op[0],
        ];
        assert(r@ =~= self.spec_serialize_body());
        r
    }

    /// Serialize into binary command format suited for CAN (controller area
    /// network).
    ///
    /// When using CAN the module address and checksum are excluded; the
    /// module address is instead used as the arbitration identifier.  The
    /// array looks like the following:
    /// `[CMD_N, TYPE_N, MOTOR_N, VALUE3, VALUE2, VALUE1, VALUE0]`
    pub fn serialize_can(&self) -> (r: [u8; 7])
        ensures
            r@ == self.spec_serialize_can(),
    {
        let op = self.instruction.operand();
        let r: [u8; 7] = [
            T::instruction_number(),
            self.instruction.type_number(),
            self.instruction.motor_bank_number(),
            op[3],
            op[2],
            op[1],
            op[0],
        ];
        assert(r@ =~= self.spec_serialize_can());
        r
    }
}

/// A module responds with a `Reply` after receiving a `Command`.
///
/// A reply is produced by decoding a transport frame; application code never
/// constructs one directly, aside from test fixtures.
#[derive(Debug, PartialEq, Clone)]
pub struct Reply {
    reply_address: u8,
    module_address: u8,
    status: Status,
    command_number: u8,
    operand: [u8; 4],
}

impl Reply {
    pub closed spec fn spec_reply_address(&self) -> u8 {
        self.reply_address
    }

    pub closed spec fn spec_module_address(&self) -> u8 {
        self.module_address
    }

    pub closed spec fn spec_status(&self) -> Status {
        self.status
    }

    pub closed spec fn spec_command_number(&self) -> u8 {
        self.command_number
    }

    /// The operand with index 0 holding the least significant byte, the
    /// operand codec's convention.
    pub closed spec fn spec_operand(&self) -> [u8; 4] {
        self.operand
    }

    pub fn new(
        reply_address: u8,
        module_address: u8,
        status: Status,
        command_number: u8,
        operand: [u8; 4],
    ) -> (r: Reply)
        ensures
            r.spec_reply_address() == reply_address,
            r.spec_module_address() == module_address,
            r.spec_status() == status,
            r.spec_command_number() == command_number,
            r.spec_operand() == operand,
    {
        Reply { reply_address, module_address, status, command_number, operand }
    }

    pub fn status(&self) -> (r: Status)
        ensures
            r == self.spec_status(),
    {
        self.status
    }

    pub fn operand(&self) -> (r: [u8; 4])
        ensures
            r == self.spec_operand(),
    {
        self.operand
    }

    /// Parse a received CAN frame body into a reply.
    ///
    /// The module address travels as the arbitration identifier, handed in
    /// separately as `reply_address`; the body is
    /// `[MODULE_ADR, STATUS, CMD_N, VALUE3, VALUE2, VALUE1, VALUE0]`.  The
    /// operand bytes are reversed into the codec's convention, mirroring the
    /// reversal applied at render time.  Fails exactly when the status byte
    /// does not decode to a known status code.
    pub fn parse_can(reply_address: u8, data: &[u8; 7]) -> (r: Result<Reply, NonValidErrorCode>)
        ensures
            match r {
                Ok(rep) => {
                    &&& Status::spec_from_code(data@[1]) == Some(rep.spec_status())
                    &&& rep.spec_reply_address() == reply_address
                    &&& rep.spec_module_address() == data@[0]
                    &&& rep.spec_command_number() == data@[2]
                    &&& rep.spec_operand()@ == seq![data@[6], data@[5], data@[4], data@[3]]
                },
                Err(_) => Status::spec_from_code(data@[1]) is None,
            },
    {
        let status = match Status::try_from_u8(data[1]) {
            Ok(s) => s,
            Err(e) => {
                return Err(e);
            },
        };
        let operand: [u8; 4] = [data[6], data[5], data[4], data[3]];
        assert(operand@ =~= seq![data@[6], data@[5], data@[4], data@[3]]);
        Ok(Reply {
            reply_address,
            module_address: data[0],
            status,
            command_number: data[2],
            operand,
        })
    }

    /// Parse a received serial frame payload into a reply.
    ///
    /// The payload is
    /// `[REPLY_ADR, MODULE_ADR, STATUS, CMD_N, VALUE3, VALUE2, VALUE1,
    /// VALUE0]`; any transport checksum is verified and stripped by the
    /// transport before this point.  The operand bytes are reversed into the
    /// codec's convention.  Fails exactly when the status byte does not
    /// decode to a known status code.
    pub fn parse_serial(data: &[u8; 8]) -> (r: Result<Reply, NonValidErrorCode>)
        ensures
            match r {
                Ok(rep) => {
                    &&& Status::spec_from_code(data@[2]) == Some(rep.spec_status())
                    &&& rep.spec_reply_address() == data@[0]
                    &&& rep.spec_module_address() == data@[1]
                    &&& rep.spec_command_number() == data@[3]
                    &&& rep.spec_operand()@ == seq![data@[7], data@[6], data@[5], data@[4]]
                },
                Err(_) => Status::spec_from_code(data@[2]) is None,
            },
    {
        let status = match Status::try_from_u8(data[2]) {
            Ok(s) => s,
            Err(e) => {
                return Err(e);
            },
        };
        let operand: [u8; 4] = [data[7], data[6], data[5], data[4]];
        assert(operand@ =~= seq![data@[7], data@[6], data@[5], data@[4]]);
        Ok(Reply {
            reply_address: data[0],
            module_address: data[1],
            status,
            command_number: data[3],
            operand,
        })
    }

    /// Classify this reply for a direct-mode exchange: an error status
    /// becomes the typed protocol error; a success status has the operand
    /// decoded into the instruction's declared return type, and an operand
    /// that decodes to no value of that type is a recoverable decode error.
    pub fn decode<R: Return, E>(&self) -> (r: Result<R, Error<E>>)
        ensures
            match self.spec_status() {
                Status::Error(s) => r == Err::<R, Error<E>>(Error::ProtocolError(s)),
                Status::Success(_) => match R::spec_from_operand(self.spec_operand()) {
                    Some(v) => r == Ok::<R, Error<E>>(v),
                    None => r == Err::<R, Error<E>>(
                        Error::DecodeError(ParameterError::UnrecognizedVariant),
                    ),
                },
            },
    {
        match self.status {
            Status::Success(_) => match R::from_operand(self.operand) {
                Ok(v) => Ok(v),
                Err(_) => Err(Error::DecodeError(ParameterError::UnrecognizedVariant)),
            },
            Status::Error(s) => Err(Error::ProtocolError(s)),
        }
    }
}

} // verus!
