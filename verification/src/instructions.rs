//! TMCL instructions: each instruction variant is a pure-data value carrying
//! a protocol-assigned instruction number (fixed per variant), a sub-type
//! number, a target motor/bank number and a 4-byte operand produced by the
//! operand codec from the instruction's fields.

use vstd::prelude::*;
use core::marker::PhantomData;
use crate::codec::spec_encode_u32;
use crate::codec::spec_encode_i32;
use crate::codec::spec_decode_u32;
use crate::codec::spec_decode_i32;
use crate::codec::spec_decode_u16;
use crate::codec::spec_decode_i16;
use crate::codec::spec_decode_u8;
use crate::codec::spec_decode_i8;
use crate::codec::spec_encode_bool;
use crate::codec::spec_decode_bool;
use crate::codec::encode_u32;
use crate::codec::encode_i32;
use crate::codec::decode_u32;
use crate::codec::decode_i32;
use crate::codec::decode_u16;
use crate::codec::decode_i16;
use crate::codec::decode_u8;
use crate::codec::decode_i8;
use crate::codec::encode_bool;
use crate::codec::decode_bool;
use crate::errors::ParameterError;
use crate::parameters::ReadableAxisParameter;
use crate::parameters::WriteableAxisParameter;

verus! {

/// A TMCL instruction.
pub trait Instruction: Sized {
    /// The command number (sometimes referred to as the instruction number),
    /// fixed per variant.
    spec fn spec_instruction_number() -> u8;

    fn instruction_number() -> (r: u8)
        ensures
            r == Self::spec_instruction_number(),
    ;

    /// The sub-type number: the parameter number for the parameterized
    /// instructions, the port number for the I/O instructions, the operation
    /// selector for the arithmetic instruction.
    spec fn spec_type_number(&self) -> u8;

    /// The target motor or bank number.
    spec fn spec_motor_bank_number(&self) -> u8;

    /// The operand with index 0 holding the least significant byte, as the
    /// operand codec produces it.  The wire instead carries the operand most
    /// significant byte first; that reversal happens at render time.
    spec fn spec_operand(&self) -> Seq<u8>;

    fn type_number(&self) -> (r: u8)
        ensures
            r == self.spec_type_number(),
    ;

    fn motor_bank_number(&self) -> (r: u8)
        ensures
            r == self.spec_motor_bank_number(),
    ;

    fn operand(&self) -> (r: [u8; 4])
        ensures
            r@ == self.spec_operand(),
    ;
}

/// An instruction useable in direct mode.
pub trait DirectInstruction: Instruction {
    /// The return value when the instruction is executed in direct mode.
    type Return: Return;
}

/// A type that can be used as a return value for an instruction.
///
/// The operand handed to `from_operand` uses the codec's convention: index 0
/// holds the least significant byte.
pub trait Return: Sized {
    /// What the operand decodes to, or `None` where the decoded numeric
    /// value names no variant of an enumerated type.
    spec fn spec_from_operand(operand: [u8; 4]) -> Option<Self>;

    /// The deserialization function.  Decoding an unrecognized enumerated
    /// value is a recoverable error, never a crash.
    fn from_operand(operand: [u8; 4]) -> (r: Result<Self, ParameterError>)
        ensures
            match r {
                Ok(v) => Self::spec_from_operand(operand) == Some(v),
                Err(e) => Self::spec_from_operand(operand) is None && e
                    == ParameterError::UnrecognizedVariant,
            },
    ;
}

impl Return for () {
    open spec fn spec_from_operand(operand: [u8; 4]) -> Option<()> {
        Some(())
    }

    fn from_operand(operand: [u8; 4]) -> (r: Result<(), ParameterError>) {
        Ok(())
    }
}

impl Return for [u8; 4] {
    open spec fn spec_from_operand(operand: [u8; 4]) -> Option<[u8; 4]> {
        Some(operand)
    }

    fn from_operand(operand: [u8; 4]) -> (r: Result<[u8; 4], ParameterError>) {
        Ok(operand)
    }
}

impl Return for bool {
    open spec fn spec_from_operand(operand: [u8; 4]) -> Option<bool> {
        Some(spec_decode_bool(operand@))
    }

    fn from_operand(operand: [u8; 4]) -> (r: Result<bool, ParameterError>) {
        Ok(decode_bool(operand))
    }
}

impl Return for i32 {
    open spec fn spec_from_operand(operand: [u8; 4]) -> Option<i32> {
        Some(spec_decode_i32(operand@))
    }

    fn from_operand(operand: [u8; 4]) -> (r: Result<i32, ParameterError>) {
        Ok(decode_i32(operand))
    }
}

impl Return for i16 {
    open spec fn spec_from_operand(operand: [u8; 4]) -> Option<i16> {
        Some(spec_decode_i16(operand@))
    }

    fn from_operand(operand: [u8; 4]) -> (r: Result<i16, ParameterError>) {
        Ok(decode_i16(operand))
    }
}

impl Return for i8 {
    open spec fn spec_from_operand(operand: [u8; 4]) -> Option<i8> {
        Some(spec_decode_i8(operand@))
    }

    fn from_operand(operand: [u8; 4]) -> (r: Result<i8, ParameterError>) {
        Ok(decode_i8(operand))
    }
}

impl Return for u32 {
    open spec fn spec_from_operand(operand: [u8; 4]) -> Option<u32> {
        Some(spec_decode_u32(operand@))
    }

    fn from_operand(operand: [u8; 4]) -> (r: Result<u32, ParameterError>) {
        Ok(decode_u32(operand))
    }
}

impl Return for u16 {
    open spec fn spec_from_operand(operand: [u8; 4]) -> Option<u16> {
        Some(spec_decode_u16(operand@))
    }

    fn from_operand(operand: [u8; 4]) -> (r: Result<u16, ParameterError>) {
        Ok(decode_u16(operand))
    }
}

impl Return for u8 {
    open spec fn spec_from_operand(operand: [u8; 4]) -> Option<u8> {
        Some(spec_decode_u8(operand@))
    }

    fn from_operand(operand: [u8; 4]) -> (r: Result<u8, ParameterError>) {
        Ok(decode_u8(operand))
    }
}

/// ROR - Rotate Right.
///
/// Starts rotation in "right" direction, i.e. increasing the position
/// counter.
#[derive(Debug, PartialEq)]
pub struct ROR {
    motor_number: u8,
    velocity: u32,
}

impl ROR {
    pub fn new(motor_number: u8, velocity: u32) -> (r: ROR)
        ensures
            r.spec_type_number() == 0,
            r.spec_motor_bank_number() == motor_number,
            r.spec_operand() == spec_encode_u32(velocity),
    {
        ROR { motor_number, velocity }
    }
}

impl Instruction for ROR {
    open spec fn spec_instruction_number() -> u8 {
        1
    }

    fn instruction_number() -> (r: u8) {
        1
    }

    closed spec fn spec_type_number(&self) -> u8 {
        0
    }

    closed spec fn spec_motor_bank_number(&self) -> u8 {
        self.motor_number
    }

    closed spec fn spec_operand(&self) -> Seq<u8> {
        spec_encode_u32(self.velocity)
    }

    fn type_number(&self) -> (r: u8) {
        0
    }

    fn motor_bank_number(&self) -> (r: u8) {
        self.motor_number
    }

    fn operand(&self) -> (r: [u8; 4]) {
        encode_u32(self.velocity)
    }
}

impl DirectInstruction for ROR {
    type Return = ();
}

/// ROL - Rotate Left.
///
/// Starts rotation in "left" direction, i.e. decreasing the position
/// counter.
#[derive(Debug, PartialEq)]
pub struct ROL {
    motor_number: u8,
    velocity: u32,
}

impl ROL {
    pub fn new(motor_number: u8, velocity: u32) -> (r: ROL)
        ensures
            r.spec_type_number() == 0,
            r.spec_motor_bank_number() == motor_number,
            r.spec_operand() == spec_encode_u32(velocity),
    {
        ROL { motor_number, velocity }
    }
}

impl Instruction for ROL {
    open spec fn spec_instruction_number() -> u8 {
        2
    }

    fn instruction_number() -> (r: u8) {
        2
    }

    closed spec fn spec_type_number(&self) -> u8 {
        0
    }

    closed spec fn spec_motor_bank_number(&self) -> u8 {
        self.motor_number
    }

    closed spec fn spec_operand(&self) -> Seq<u8> {
        spec_encode_u32(self.velocity)
    }

    fn type_number(&self) -> (r: u8) {
        0
    }

    fn motor_bank_number(&self) -> (r: u8) {
        self.motor_number
    }

    fn operand(&self) -> (r: [u8; 4]) {
        encode_u32(self.velocity)
    }
}

impl DirectInstruction for ROL {
    type Return = ();
}

/// MST - Motor Stop.
///
/// Stops the motor.
#[derive(Debug, PartialEq)]
pub struct MST {
    motor_number: u8,
}

impl MST {
    pub fn new(motor_number: u8) -> (r: MST)
        ensures
            r.spec_type_number() == 0,
            r.spec_motor_bank_number() == motor_number,
            r.spec_operand() == seq![0u8, 0u8, 0u8, 0u8],
    {
        MST { motor_number }
    }
}

impl Instruction for MST {
    open spec fn spec_instruction_number() -> u8 {
        3
    }

    fn instruction_number() -> (r: u8) {
        3
    }

    closed spec fn spec_type_number(&self) -> u8 {
        0
    }

    closed spec fn spec_motor_bank_number(&self) -> u8 {
        self.motor_number
    }

    closed spec fn spec_operand(&self) -> Seq<u8> {
        seq![0u8, 0u8, 0u8, 0u8]
    }

    fn type_number(&self) -> (r: u8) {
        0
    }

    fn motor_bank_number(&self) -> (r: u8) {
        self.motor_number
    }

    fn operand(&self) -> (r: [u8; 4]) {
        let r: [u8; 4] = [0u8, 0u8, 0u8, 0u8];
        assert(r@ =~= self.spec_operand());
        r
    }
}

impl DirectInstruction for MST {
    type Return = ();
}

/// The type and value of an `MVP` instruction.
#[derive(Debug, PartialEq, Clone, Copy)]
pub enum MoveOperation {
    /// Moving to an absolute position.
    Absolute(i32),
    /// Starting a relative movement by means of an offset to the actual
    /// position.
    Relative(i32),
    /// Moving one or more motors to a previously stored coordinate,
    /// represented by one of the 21 coordinate numbers 0 through 20.
    Coordinate(u32),
}

/// MVP - Move to Position.
///
/// A movement towards the specified position is started, with automatic
/// generation of acceleration and deceleration ramps.
#[derive(Debug, PartialEq)]
pub struct MVP {
    motor_number: u8,
    value: MoveOperation,
}

impl MVP {
    /// A stored coordinate is one of the 21 coordinate numbers 0 through 20.
    pub fn new(motor_number: u8, value: MoveOperation) -> (r: MVP)
        requires
            value matches MoveOperation::Coordinate(c) ==> c <= 20,
        ensures
            r.spec_type_number() == 0,
            r.spec_motor_bank_number() == motor_number,
            r.spec_operand() == match value {
                MoveOperation::Absolute(x) => spec_encode_i32(x),
                MoveOperation::Relative(x) => spec_encode_i32(x),
                MoveOperation::Coordinate(x) => spec_encode_u32(x),
            },
    {
        MVP { motor_number, value }
    }
}

impl Instruction for MVP {
    open spec fn spec_instruction_number() -> u8 {
        4
    }

    fn instruction_number() -> (r: u8) {
        4
    }

    closed spec fn spec_type_number(&self) -> u8 {
        0
    }

    closed spec fn spec_motor_bank_number(&self) -> u8 {
        self.motor_number
    }

    closed spec fn spec_operand(&self) -> Seq<u8> {
        match self.value {
            MoveOperation::Absolute(x) => spec_encode_i32(x),
            MoveOperation::Relative(x) => spec_encode_i32(x),
            MoveOperation::Coordinate(x) => spec_encode_u32(x),
        }
    }

    fn type_number(&self) -> (r: u8) {
        0
    }

    fn motor_bank_number(&self) -> (r: u8) {
        self.motor_number
    }

    fn operand(&self) -> (r: [u8; 4]) {
        match self.value {
            MoveOperation::Absolute(x) => encode_i32(x),
            MoveOperation::Relative(x) => encode_i32(x),
            MoveOperation::Coordinate(x) => encode_u32(x),
        }
    }
}

impl DirectInstruction for MVP {
    type Return = ();
}

/// SAP - Set Axis Parameter.
///
/// Sets a writeable axis parameter; the parameter renders itself to the
/// operand.
#[derive(Debug, PartialEq)]
pub struct SAP<T: WriteableAxisParameter> {
    motor_number: u8,
    axis_parameter: T,
}

impl<T: WriteableAxisParameter> SAP<T> {
    pub fn new(motor_number: u8, axis_parameter: T) -> (r: SAP<T>)
        ensures
            r.spec_type_number() == T::spec_number(),
            r.spec_motor_bank_number() == motor_number,
            r.spec_operand() == axis_parameter.spec_operand(),
    {
        SAP { motor_number, axis_parameter }
    }
}

impl<T: WriteableAxisParameter> Instruction for SAP<T> {
    open spec fn spec_instruction_number() -> u8 {
        5
    }

    fn instruction_number() -> (r: u8) {
        5
    }

    closed spec fn spec_type_number(&self) -> u8 {
        T::spec_number()
    }

    closed spec fn spec_motor_bank_number(&self) -> u8 {
        self.motor_number
    }

    closed spec fn spec_operand(&self) -> Seq<u8> {
        self.axis_parameter.spec_operand()
    }

    fn type_number(&self) -> (r: u8) {
        T::number()
    }

    fn motor_bank_number(&self) -> (r: u8) {
        self.motor_number
    }

    fn operand(&self) -> (r: [u8; 4]) {
        self.axis_parameter.operand()
    }
}

impl<T: WriteableAxisParameter> DirectInstruction for SAP<T> {
    type Return = ();
}

/// GAP - Get Axis Parameter.
///
/// Reads a readable axis parameter; the value travels only in the reply, so
/// the transmitted operand is zero and the reply operand decodes into the
/// parameter type itself.
#[derive(Debug, PartialEq)]
pub struct GAP<T: ReadableAxisParameter> {
    motor_number: u8,
    phantom: PhantomData<T>,
}

impl<T: ReadableAxisParameter> GAP<T> {
    pub fn new(motor_number: u8) -> (r: GAP<T>)
        ensures
            r.spec_type_number() == T::spec_number(),
            r.spec_motor_bank_number() == motor_number,
            r.spec_operand() == seq![0u8, 0u8, 0u8, 0u8],
    {
        GAP { motor_number, phantom: PhantomData }
    }
}

impl<T: ReadableAxisParameter> Instruction for GAP<T> {
    open spec fn spec_instruction_number() -> u8 {
        6
    }

    fn instruction_number() -> (r: u8) {
        6
    }

    closed spec fn spec_type_number(&self) -> u8 {
        T::spec_number()
    }

    closed spec fn spec_motor_bank_number(&self) -> u8 {
        self.motor_number
    }

    closed spec fn spec_operand(&self) -> Seq<u8> {
        seq![0u8, 0u8, 0u8, 0u8]
    }

    fn type_number(&self) -> (r: u8) {
        T::number()
    }

    fn motor_bank_number(&self) -> (r: u8) {
        self.motor_number
    }

    fn operand(&self) -> (r: [u8; 4]) {
        let r: [u8; 4] = [0u8, 0u8, 0u8, 0u8];
        assert(r@ =~= self.spec_operand());
        r
    }
}

impl<T: ReadableAxisParameter> DirectInstruction for GAP<T> {
    type Return = T;
}

/// STAP - Store Axis Parameter.
///
/// Axis parameters are located in RAM memory, so modifications are lost at
/// power down.  This instruction enables permanent storing; the value to
/// store is the parameter's current value, so the transmitted operand is
/// zero.
#[derive(Debug, PartialEq)]
pub struct STAP<T: WriteableAxisParameter> {
    motor_number: u8,
    phantom: PhantomData<T>,
}

impl<T: WriteableAxisParameter> STAP<T> {
    pub fn new(motor_number: u8) -> (r: STAP<T>)
        ensures
            r.spec_type_number() == T::spec_number(),
            r.spec_motor_bank_number() == motor_number,
            r.spec_operand() == seq![0u8, 0u8, 0u8, 0u8],
    {
        STAP { motor_number, phantom: PhantomData }
    }
}

impl<T: WriteableAxisParameter> Instruction for STAP<T> {
    open spec fn spec_instruction_number() -> u8 {
        7
    }

    fn instruction_number() -> (r: u8) {
        7
    }

    closed spec fn spec_type_number(&self) -> u8 {
        T::spec_number()
    }

    closed spec fn spec_motor_bank_number(&self) -> u8 {
        self.motor_number
    }

    closed spec fn spec_operand(&self) -> Seq<u8> {
        seq![0u8, 0u8, 0u8, 0u8]
    }

    fn type_number(&self) -> (r: u8) {
        T::number()
    }

    fn motor_bank_number(&self) -> (r: u8) {
        self.motor_number
    }

    fn operand(&self) -> (r: [u8; 4]) {
        let r: [u8; 4] = [0u8, 0u8, 0u8, 0u8];
        assert(r@ =~= self.spec_operand());
        r
    }
}

impl<T: WriteableAxisParameter> DirectInstruction for STAP<T> {
    type Return = ();
}

/// RSAP - Restore Axis Parameter.
///
/// Restores a single configuration-related axis parameter from its
/// non-volatile memory location.
#[derive(Debug, PartialEq)]
pub struct RSAP<T: WriteableAxisParameter> {
    motor_number: u8,
    phantom: PhantomData<T>,
}

impl<T: WriteableAxisParameter> RSAP<T> {
    pub fn new(motor_number: u8) -> (r: RSAP<T>)
        ensures
            r.spec_type_number() == T::spec_number(),
            r.spec_motor_bank_number() == motor_number,
            r.spec_operand() == seq![0u8, 0u8, 0u8, 0u8],
    {
        RSAP { motor_number, phantom: PhantomData }
    }
}

impl<T: WriteableAxisParameter> Instruction for RSAP<T> {
    open spec fn spec_instruction_number() -> u8 {
        8
    }

    fn instruction_number() -> (r: u8) {
        8
    }

    closed spec fn spec_type_number(&self) -> u8 {
        T::spec_number()
    }

    closed spec fn spec_motor_bank_number(&self) -> u8 {
        self.motor_number
    }

    closed spec fn spec_operand(&self) -> Seq<u8> {
        seq![0u8, 0u8, 0u8, 0u8]
    }

    fn type_number(&self) -> (r: u8) {
        T::number()
    }

    fn motor_bank_number(&self) -> (r: u8) {
        self.motor_number
    }

    fn operand(&self) -> (r: [u8; 4]) {
        let r: [u8; 4] = [0u8, 0u8, 0u8, 0u8];
        assert(r@ =~= self.spec_operand());
        r
    }
}

impl<T: WriteableAxisParameter> DirectInstruction for RSAP<T> {
    type Return = ();
}

/// Chooses what action to execute with the `RFS` instruction.
#[derive(Debug, PartialEq, Eq, Structural, Clone, Copy)]
pub enum ReferenceSearchAction {
    /// Start reference search (type number 0).
    Start,
    /// Stop reference search (type number 1).
    Stop,
    /// Get status (type number 2): the reply operand is a boolean "search
    /// complete" flag for this action only.
    Status,
}

impl ReferenceSearchAction {
    /// The type number this action is carried as.
    pub open spec fn spec_type_number(self) -> u8 {
        match self {
            ReferenceSearchAction::Start => 0,
            ReferenceSearchAction::Stop => 1,
            ReferenceSearchAction::Status => 2,
        }
    }
}

/// RFS - Reference Search.
///
/// Starts or stops the built-in reference point search algorithm, or queries
/// whether it has finished.
#[derive(Debug, PartialEq)]
pub struct RFS {
    motor_number: u8,
    action: ReferenceSearchAction,
}

impl RFS {
    pub fn new(motor_number: u8, action: ReferenceSearchAction) -> (r: RFS)
        ensures
            r.spec_type_number() == action.spec_type_number(),
            r.spec_motor_bank_number() == motor_number,
            r.spec_operand() == seq![0u8, 0u8, 0u8, 0u8],
    {
        RFS { motor_number, action }
    }
}

impl Instruction for RFS {
    open spec fn spec_instruction_number() -> u8 {
        13
    }

    fn instruction_number() -> (r: u8) {
        13
    }

    closed spec fn spec_type_number(&self) -> u8 {
        self.action.spec_type_number()
    }

    closed spec fn spec_motor_bank_number(&self) -> u8 {
        self.motor_number
    }

    closed spec fn spec_operand(&self) -> Seq<u8> {
        seq![0u8, 0u8, 0u8, 0u8]
    }

    fn type_number(&self) -> (r: u8) {
        match self.action {
            ReferenceSearchAction::Start => 0,
            ReferenceSearchAction::Stop => 1,
            ReferenceSearchAction::Status => 2,
        }
    }

    fn motor_bank_number(&self) -> (r: u8) {
        self.motor_number
    }

    fn operand(&self) -> (r: [u8; 4]) {
        let r: [u8; 4] = [0u8, 0u8, 0u8, 0u8];
        assert(r@ =~= self.spec_operand());
        r
    }
}

impl DirectInstruction for RFS {
    /// The reply operand is meaningful as a "search complete" flag only for
    /// the get-status action; the protocol cannot statically distinguish the
    /// three reply shapes.
    type Return = bool;
}

/// SIO - Set Output.
///
/// Sets the status of a digital output either to low (false) or to high
/// (true).
#[derive(Debug, PartialEq)]
pub struct SIO {
    bank_number: u8,
    port_number: u8,
    state: bool,
}

impl SIO {
    pub fn new(bank_number: u8, port_number: u8, state: bool) -> (r: SIO)
        ensures
            r.spec_type_number() == port_number,
            r.spec_motor_bank_number() == bank_number,
            r.spec_operand() == spec_encode_bool(state),
    {
        SIO { bank_number, port_number, state }
    }
}

impl Instruction for SIO {
    open spec fn spec_instruction_number() -> u8 {
        14
    }

    fn instruction_number() -> (r: u8) {
        14
    }

    closed spec fn spec_type_number(&self) -> u8 {
        self.port_number
    }

    closed spec fn spec_motor_bank_number(&self) -> u8 {
        self.bank_number
    }

    closed spec fn spec_operand(&self) -> Seq<u8> {
        spec_encode_bool(self.state)
    }

    fn type_number(&self) -> (r: u8) {
        self.port_number
    }

    fn motor_bank_number(&self) -> (r: u8) {
        self.bank_number
    }

    fn operand(&self) -> (r: [u8; 4]) {
        encode_bool(self.state)
    }
}

impl DirectInstruction for SIO {
    type Return = ();
}

/// GIO - Get Input / Output.
///
/// Reads a digital or analogue input port: digital lines read 0 and 1, the
/// ADC channels deliver their 10-bit result in the range 0 through 1023.
#[derive(Debug, PartialEq)]
pub struct GIO {
    bank_number: u8,
    port_number: u8,
}

impl GIO {
    pub fn new(bank_number: u8, port_number: u8) -> (r: GIO)
        ensures
            r.spec_type_number() == port_number,
            r.spec_motor_bank_number() == bank_number,
            r.spec_operand() == seq![0u8, 0u8, 0u8, 0u8],
    {
        GIO { bank_number, port_number }
    }
}

impl Instruction for GIO {
    open spec fn spec_instruction_number() -> u8 {
        15
    }

    fn instruction_number() -> (r: u8) {
        15
    }

    closed spec fn spec_type_number(&self) -> u8 {
        self.port_number
    }

    closed spec fn spec_motor_bank_number(&self) -> u8 {
        self.bank_number
    }

    closed spec fn spec_operand(&self) -> Seq<u8> {
        seq![0u8, 0u8, 0u8, 0u8]
    }

    fn type_number(&self) -> (r: u8) {
        self.port_number
    }

    fn motor_bank_number(&self) -> (r: u8) {
        self.bank_number
    }

    fn operand(&self) -> (r: [u8; 4]) {
        let r: [u8; 4] = [0u8, 0u8, 0u8, 0u8];
        assert(r@ =~= self.spec_operand());
        r
    }
}

impl DirectInstruction for GIO {
    type Return = u32;
}

/// CALC - Calculate.
///
/// A 10-way tagged operation against the accumulator of the module, which is
/// external to this library; the operand carries the right-hand operand of
/// the operation, zero for `Not`.
#[derive(Debug, PartialEq)]
pub enum CALC {
    /// Add the operand to the accumulator (type number 0).
    Add(i32),
    /// Subtract the operand from the accumulator (type number 1).
    Sub(i32),
    /// Multiply the accumulator by the operand (type number 2).
    Mul(i32),
    /// Divide the accumulator by the operand (type number 3).
    Div(i32),
    /// Modulo divide the accumulator by the operand (type number 4).
    Mod(i32),
    /// Logical and accumulator with operand (type number 5).
    And(i32),
    /// Logical or accumulator with operand (type number 6).
    Or(i32),
    /// Logical xor accumulator with operand (type number 7).
    Xor(i32),
    /// Logical invert accumulator (type number 8).
    Not,
    /// Load operand to accumulator (type number 9).
    Load(i32),
}

impl Instruction for CALC {
    open spec fn spec_instruction_number() -> u8 {
        19
    }

    fn instruction_number() -> (r: u8) {
        19
    }

    open spec fn spec_type_number(&self) -> u8 {
        match self {
            CALC::Add(_) => 0,
            CALC::Sub(_) => 1,
            CALC::Mul(_) => 2,
            CALC::Div(_) => 3,
            CALC::Mod(_) => 4,
            CALC::And(_) => 5,
            CALC::Or(_) => 6,
            CALC::Xor(_) => 7,
            CALC::Not => 8,
            CALC::Load(_) => 9,
        }
    }

    open spec fn spec_motor_bank_number(&self) -> u8 {
        0
    }

    open spec fn spec_operand(&self) -> Seq<u8> {
        match self {
            CALC::Add(x) => spec_encode_i32(*x),
            CALC::Sub(x) => spec_encode_i32(*x),
            CALC::Mul(x) => spec_encode_i32(*x),
            CALC::Div(x) => spec_encode_i32(*x),
            CALC::Mod(x) => spec_encode_i32(*x),
            CALC::And(x) => spec_encode_i32(*x),
            CALC::Or(x) => spec_encode_i32(*x),
            CALC::Xor(x) => spec_encode_i32(*x),
            CALC::Not => seq![0u8, 0u8, 0u8, 0u8],
            CALC::Load(x) => spec_encode_i32(*x),
        }
    }

    fn type_number(&self) -> (r: u8) {
        match self {
            CALC::Add(_) => 0,
            CALC::Sub(_) => 1,
            CALC::Mul(_) => 2,
            CALC::Div(_) => 3,
            CALC::Mod(_) => 4,
            CALC::And(_) => 5,
            CALC::Or(_) => 6,
            CALC::Xor(_) => 7,
            CALC::Not => 8,
            CALC::Load(_) => 9,
        }
    }

    fn motor_bank_number(&self) -> (r: u8) {
        0
    }

    fn operand(&self) -> (r: [u8; 4]) {
        match self {
            CALC::Add(x) => encode_i32(*x),
            CALC::Sub(x) => encode_i32(*x),
            CALC::Mul(x) => encode_i32(*x),
            CALC::Div(x) => encode_i32(*x),
            CALC::Mod(x) => encode_i32(*x),
            CALC::And(x) => encode_i32(*x),
            CALC::Or(x) => encode_i32(*x),
            CALC::Xor(x) => encode_i32(*x),
            CALC::Not => {
                let r: [u8; 4] = [0u8, 0u8, 0u8, 0u8];
                assert(r@ =~= self.spec_operand());
                r
            },
            CALC::Load(x) => encode_i32(*x),
        }
    }
}

impl DirectInstruction for CALC {
    type Return = ();
}

} // verus!
