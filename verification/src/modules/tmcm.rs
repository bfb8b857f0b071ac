//! A TMCM module type useable with TMCM modules other than TMCM-100 and
//! Monopack 2, together with the axis parameters those modules share.
//!
//! The typed axis parameters here carry their capability set in the type: an
//! attempt to build a get-parameter instruction over a non-readable register
//! type, or a set-parameter instruction over a non-writeable one, does not
//! compile.

pub use crate::instructions::ROR;
pub use crate::instructions::ROL;
pub use crate::instructions::MST;
pub use crate::instructions::MVP;
pub use crate::instructions::SAP;
pub use crate::instructions::GAP;
pub use crate::instructions::STAP;
pub use crate::instructions::RSAP;
pub use crate::instructions::RFS;
pub use crate::instructions::SIO;
pub use crate::instructions::GIO;
pub use crate::instructions::MoveOperation;
pub use crate::instructions::ReferenceSearchAction;

use vstd::prelude::*;
use crate::codec::decode_bool;
use crate::codec::decode_i16;
use crate::codec::decode_i32;
use crate::codec::decode_u16;
use crate::codec::encode_bool;
use crate::codec::encode_i32;
use crate::codec::encode_u16;
use crate::codec::lemma_round_trip_bool;
use crate::codec::lemma_round_trip_i32;
use crate::codec::lemma_round_trip_u16;
use crate::codec::spec_decode_bool;
use crate::codec::spec_decode_i16;
use crate::codec::spec_decode_i32;
use crate::codec::spec_decode_u16;
use crate::codec::spec_encode_bool;
use crate::codec::spec_encode_i32;
use crate::codec::spec_encode_u16;
use crate::command::Command;
use crate::command::Reply;
use crate::errors::Error;
use crate::errors::ParameterError;
use crate::instructions::DirectInstruction;
use crate::instructions::Instruction;
use crate::instructions::Return;
use crate::interface::Interface;
use crate::interface::SharedInterface;
use crate::parameters::AxisParameter;
use crate::parameters::ReadableAxisParameter;
use crate::parameters::WriteableAxisParameter;
use crate::status::Status;

verus! {

/// This type represents TMCM modules other than TMCM-100 and Monopack 2.
#[verifier::reject_recursive_types(IF)]
pub struct TmcmModule<IF: Interface> {
    /// The module address.
    address: u8,
    interface: SharedInterface<IF>,
}

impl<IF: Interface> TmcmModule<IF> {
    /// The address of the module this dispatcher talks to.
    pub closed spec fn spec_address(&self) -> u8 {
        self.address
    }

    /// Create a new module over a shared interface handle.
    pub fn new(interface: SharedInterface<IF>, address: u8) -> (r: TmcmModule<IF>)
        ensures
            r.spec_address() == address,
    {
        TmcmModule { address, interface }
    }

    /// Synchronously write a command and wait for the reply.
    ///
    /// Takes exclusive possession of the shared interface for the whole
    /// exchange, failing fast with `InterfaceUnavailable` while another
    /// exchange is in flight, and gives it back on every path.  A transport
    /// failure aborts the exchange with `InterfaceError`; no retry.  The
    /// reply is classified exactly as [`Reply::decode`] states: a success
    /// status has its operand decoded into the instruction's declared return
    /// type, an error status becomes the typed protocol error.
    pub fn write_command<Inst: TmcmInstruction + DirectInstruction>(&self, instruction: Inst) -> (r:
        Result<Inst::Return, Error<IF::Error>>)
        ensures
            match r {
                Ok(v) => exists|rep: Reply|
                    {
                        &&& #[trigger] <Inst::Return as Return>::spec_from_operand(
                            rep.spec_operand(),
                        ) == Some(v)
                        &&& rep.spec_status() is Success
                    },
                Err(Error::ProtocolError(s)) => exists|rep: Reply|
                    #[trigger] rep.spec_status() == Status::Error(s),
                Err(Error::DecodeError(p)) => p == ParameterError::UnrecognizedVariant,
                Err(Error::InterfaceUnavailable) => true,
                Err(Error::InterfaceError(_)) => true,
            },
    {
        let mut interface = match self.interface.take() {
            Some(interface) => interface,
            None => {
                return Err(Error::InterfaceUnavailable);
            },
        };
        match interface.transmit_command(&Command::new(self.address, instruction)) {
            Ok(()) => (),
            Err(e) => {
                self.interface.restore(interface);
                return Err(Error::InterfaceError(e));
            },
        }
        let reply = match interface.receive_reply() {
            Ok(reply) => reply,
            Err(e) => {
                self.interface.restore(interface);
                return Err(Error::InterfaceError(e));
            },
        };
        self.interface.restore(interface);
        reply.decode::<Inst::Return, IF::Error>()
    }
}

/// An `Instruction` useable with all TMCM modules other than TMCM-100 and
/// Monopack 2.
pub trait TmcmInstruction: Instruction {

}

/// An `AxisParameter` useable with all TMCM modules other than TMCM-100 and
/// Monopack 2.
pub trait TmcmAxisParameter: AxisParameter {

}

/// A `ReadableAxisParameter` useable with all TMCM modules other than
/// TMCM-100 and Monopack 2.
pub trait ReadableTmcmAxisParameter: ReadableAxisParameter {

}

/// A `WriteableAxisParameter` useable with all TMCM modules other than
/// TMCM-100 and Monopack 2.
pub trait WriteableTmcmAxisParameter: WriteableAxisParameter {

}

impl TmcmInstruction for ROR {

}

impl TmcmInstruction for ROL {

}

impl TmcmInstruction for MST {

}

impl TmcmInstruction for MVP {

}

impl<T: WriteableTmcmAxisParameter> TmcmInstruction for SAP<T> {

}

impl<T: ReadableTmcmAxisParameter> TmcmInstruction for GAP<T> {

}

impl<T: WriteableTmcmAxisParameter> TmcmInstruction for STAP<T> {

}

impl<T: WriteableTmcmAxisParameter> TmcmInstruction for RSAP<T> {

}

impl TmcmInstruction for RFS {

}

impl TmcmInstruction for SIO {

}

impl TmcmInstruction for GIO {

}

/// The current position of the motor.
///
/// Should only be overwritten for reference point setting.
#[derive(Debug, PartialEq)]
pub struct ActualPosition(i32);

impl ActualPosition {
    /// The position value this parameter carries.
    pub closed spec fn spec_value(&self) -> i32 {
        self.0
    }
}

impl From<ActualPosition> for i32 {
    fn from(v: ActualPosition) -> (r: i32) {
        v.0
    }
}

impl vstd::std_specs::convert::FromSpecImpl<ActualPosition> for i32 {
    open spec fn obeys_from_spec() -> bool {
        true
    }

    open spec fn from_spec(v: ActualPosition) -> i32 {
        v.spec_value()
    }
}

impl AxisParameter for ActualPosition {
    open spec fn spec_number() -> u8 {
        1
    }

    fn number() -> (r: u8) {
        1
    }
}

impl Return for ActualPosition {
    closed spec fn spec_from_operand(operand: [u8; 4]) -> Option<ActualPosition> {
        Some(ActualPosition(spec_decode_i32(operand@)))
    }

    fn from_operand(operand: [u8; 4]) -> (r: Result<ActualPosition, ParameterError>) {
        Ok(ActualPosition(decode_i32(operand)))
    }
}

impl ReadableAxisParameter for ActualPosition {

}

impl ReadableTmcmAxisParameter for ActualPosition {

}

impl WriteableAxisParameter for ActualPosition {
    closed spec fn spec_operand(&self) -> Seq<u8> {
        spec_encode_i32(self.0)
    }

    fn operand(&self) -> (r: [u8; 4]) {
        encode_i32(self.0)
    }
}

impl WriteableTmcmAxisParameter for ActualPosition {

}

/// What a 4-byte operand decodes to as an `ActualPosition`: always a value, and
/// its carried value is the operand codec's decoding of the bytes.
pub proof fn lemma_actual_position_from_operand(op: [u8; 4])
    ensures
        <ActualPosition as Return>::spec_from_operand(op) matches Some(p) && p.spec_value() == spec_decode_i32(
            op@,
        ),
{
}

/// Round trip: an `ActualPosition` reconstructed from the operand it renders
/// itself to is the same parameter value again.
pub proof fn lemma_parameter_round_trip_actual_position(p: ActualPosition, op: [u8; 4])
    requires
        op@ == p.spec_operand(),
    ensures
        <ActualPosition as Return>::spec_from_operand(op) == Some(p),
{
    lemma_round_trip_i32(p.0);
}

/// The current rotation speed.
///
/// Read only; reading it is the only way to construct the type.
#[derive(Debug, PartialEq)]
pub struct ActualSpeed(i16);

impl ActualSpeed {
    /// The speed value this parameter carries.
    pub closed spec fn spec_value(&self) -> i16 {
        self.0
    }
}

impl From<ActualSpeed> for i16 {
    fn from(v: ActualSpeed) -> (r: i16) {
        v.0
    }
}

impl vstd::std_specs::convert::FromSpecImpl<ActualSpeed> for i16 {
    open spec fn obeys_from_spec() -> bool {
        true
    }

    open spec fn from_spec(v: ActualSpeed) -> i16 {
        v.spec_value()
    }
}

impl AxisParameter for ActualSpeed {
    open spec fn spec_number() -> u8 {
        3
    }

    fn number() -> (r: u8) {
        3
    }
}

impl Return for ActualSpeed {
    closed spec fn spec_from_operand(operand: [u8; 4]) -> Option<ActualSpeed> {
        Some(ActualSpeed(spec_decode_i16(operand@)))
    }

    fn from_operand(operand: [u8; 4]) -> (r: Result<ActualSpeed, ParameterError>) {
        Ok(ActualSpeed(decode_i16(operand)))
    }
}

impl ReadableAxisParameter for ActualSpeed {

}

impl ReadableTmcmAxisParameter for ActualSpeed {

}

/// What a 4-byte operand decodes to as an `ActualSpeed`: always a value, and
/// its carried value is the operand codec's decoding of the bytes.
pub proof fn lemma_actual_speed_from_operand(op: [u8; 4])
    ensures
        <ActualSpeed as Return>::spec_from_operand(op) matches Some(p) && p.spec_value() == spec_decode_i16(
            op@,
        ),
{
}

/// The maximum positioning speed.
///
/// Should not exceed the physically highest possible value; the protocol
/// mandates the 11-bit range 0 through 2047.
#[derive(Debug, PartialEq)]
pub struct MaximumPositioningSpeed(u16);

impl MaximumPositioningSpeed {
    /// The speed value this parameter carries.
    pub closed spec fn spec_value(&self) -> u16 {
        self.0
    }

    /// Construct from a speed value, rejecting values above the 11-bit limit
    /// at construction, not at encode time.
    pub fn new(speed: u16) -> (r: Result<MaximumPositioningSpeed, ParameterError>)
        ensures
            match r {
                Ok(p) => speed <= 2047 && p.spec_value() == speed,
                Err(e) => speed > 2047 && e == ParameterError::OutOfRange,
            },
    {
        if speed <= 2047 {
            Ok(MaximumPositioningSpeed(speed))
        } else {
            Err(ParameterError::OutOfRange)
        }
    }
}

impl From<MaximumPositioningSpeed> for u16 {
    fn from(v: MaximumPositioningSpeed) -> (r: u16) {
        v.0
    }
}

impl vstd::std_specs::convert::FromSpecImpl<MaximumPositioningSpeed> for u16 {
    open spec fn obeys_from_spec() -> bool {
        true
    }

    open spec fn from_spec(v: MaximumPositioningSpeed) -> u16 {
        v.spec_value()
    }
}

impl AxisParameter for MaximumPositioningSpeed {
    open spec fn spec_number() -> u8 {
        4
    }

    fn number() -> (r: u8) {
        4
    }
}

impl Return for MaximumPositioningSpeed {
    closed spec fn spec_from_operand(operand: [u8; 4]) -> Option<MaximumPositioningSpeed> {
        Some(MaximumPositioningSpeed(spec_decode_u16(operand@)))
    }

    fn from_operand(operand: [u8; 4]) -> (r: Result<MaximumPositioningSpeed, ParameterError>) {
        Ok(MaximumPositioningSpeed(decode_u16(operand)))
    }
}

impl TmcmAxisParameter for MaximumPositioningSpeed {

}

impl ReadableAxisParameter for MaximumPositioningSpeed {

}

impl ReadableTmcmAxisParameter for MaximumPositioningSpeed {

}

impl WriteableAxisParameter for MaximumPositioningSpeed {
    closed spec fn spec_operand(&self) -> Seq<u8> {
        spec_encode_u16(self.0)
    }

    fn operand(&self) -> (r: [u8; 4]) {
        encode_u16(self.0)
    }
}

impl WriteableTmcmAxisParameter for MaximumPositioningSpeed {

}

/// What a 4-byte operand decodes to as an `MaximumPositioningSpeed`: always a value, and
/// its carried value is the operand codec's decoding of the bytes.
pub proof fn lemma_maximum_positioning_speed_from_operand(op: [u8; 4])
    ensures
        <MaximumPositioningSpeed as Return>::spec_from_operand(op) matches Some(p) && p.spec_value() == spec_decode_u16(
            op@,
        ),
{
}

/// Round trip: a `MaximumPositioningSpeed` reconstructed from the operand it
/// renders itself to is the same parameter value again.
pub proof fn lemma_parameter_round_trip_maximum_positioning_speed(
    p: MaximumPositioningSpeed,
    op: [u8; 4],
)
    requires
        op@ == p.spec_operand(),
    ensures
        <MaximumPositioningSpeed as Return>::spec_from_operand(op) == Some(p),
{
    lemma_round_trip_u16(p.0);
}

/// The absolute maximum current.
///
/// The most important motor setting, since too high values might cause motor
/// damage.  The unit and admissible range depend on the module; no range is
/// mandated here.
#[derive(Debug, PartialEq)]
pub struct AbsoluteMaxCurrent(u16);

impl AbsoluteMaxCurrent {
    /// The current value this parameter carries.
    pub closed spec fn spec_value(&self) -> u16 {
        self.0
    }

    pub fn new(current: u16) -> (r: AbsoluteMaxCurrent)
        ensures
            r.spec_value() == current,
    {
        AbsoluteMaxCurrent(current)
    }
}

impl From<AbsoluteMaxCurrent> for u16 {
    fn from(v: AbsoluteMaxCurrent) -> (r: u16) {
        v.0
    }
}

impl vstd::std_specs::convert::FromSpecImpl<AbsoluteMaxCurrent> for u16 {
    open spec fn obeys_from_spec() -> bool {
        true
    }

    open spec fn from_spec(v: AbsoluteMaxCurrent) -> u16 {
        v.spec_value()
    }
}

impl AxisParameter for AbsoluteMaxCurrent {
    open spec fn spec_number() -> u8 {
        6
    }

    fn number() -> (r: u8) {
        6
    }
}

impl Return for AbsoluteMaxCurrent {
    closed spec fn spec_from_operand(operand: [u8; 4]) -> Option<AbsoluteMaxCurrent> {
        Some(AbsoluteMaxCurrent(spec_decode_u16(operand@)))
    }

    fn from_operand(operand: [u8; 4]) -> (r: Result<AbsoluteMaxCurrent, ParameterError>) {
        Ok(AbsoluteMaxCurrent(decode_u16(operand)))
    }
}

impl TmcmAxisParameter for AbsoluteMaxCurrent {

}

impl ReadableAxisParameter for AbsoluteMaxCurrent {

}

impl ReadableTmcmAxisParameter for AbsoluteMaxCurrent {

}

impl WriteableAxisParameter for AbsoluteMaxCurrent {
    closed spec fn spec_operand(&self) -> Seq<u8> {
        spec_encode_u16(self.0)
    }

    fn operand(&self) -> (r: [u8; 4]) {
        encode_u16(self.0)
    }
}

impl WriteableTmcmAxisParameter for AbsoluteMaxCurrent {

}

/// What a 4-byte operand decodes to as an `AbsoluteMaxCurrent`: always a value, and
/// its carried value is the operand codec's decoding of the bytes.
pub proof fn lemma_absolute_max_current_from_operand(op: [u8; 4])
    ensures
        <AbsoluteMaxCurrent as Return>::spec_from_operand(op) matches Some(p) && p.spec_value() == spec_decode_u16(
            op@,
        ),
{
}

/// Round trip: an `AbsoluteMaxCurrent` reconstructed from the operand it
/// renders itself to is the same parameter value again.
pub proof fn lemma_parameter_round_trip_absolute_max_current(p: AbsoluteMaxCurrent, op: [u8; 4])
    requires
        op@ == p.spec_operand(),
    ensures
        <AbsoluteMaxCurrent as Return>::spec_from_operand(op) == Some(p),
{
    lemma_round_trip_u16(p.0);
}

/// The standby current.
///
/// The current the module falls back to while the motor stands still.
#[derive(Debug, PartialEq)]
pub struct StandbyCurrent(u16);

impl StandbyCurrent {
    /// The current value this parameter carries.
    pub closed spec fn spec_value(&self) -> u16 {
        self.0
    }

    pub fn new(current: u16) -> (r: StandbyCurrent)
        ensures
            r.spec_value() == current,
    {
        StandbyCurrent(current)
    }
}

impl From<StandbyCurrent> for u16 {
    fn from(v: StandbyCurrent) -> (r: u16) {
        v.0
    }
}

impl vstd::std_specs::convert::FromSpecImpl<StandbyCurrent> for u16 {
    open spec fn obeys_from_spec() -> bool {
        true
    }

    open spec fn from_spec(v: StandbyCurrent) -> u16 {
        v.spec_value()
    }
}

impl AxisParameter for StandbyCurrent {
    open spec fn spec_number() -> u8 {
        7
    }

    fn number() -> (r: u8) {
        7
    }
}

impl Return for StandbyCurrent {
    closed spec fn spec_from_operand(operand: [u8; 4]) -> Option<StandbyCurrent> {
        Some(StandbyCurrent(spec_decode_u16(operand@)))
    }

    fn from_operand(operand: [u8; 4]) -> (r: Result<StandbyCurrent, ParameterError>) {
        Ok(StandbyCurrent(decode_u16(operand)))
    }
}

impl TmcmAxisParameter for StandbyCurrent {

}

impl ReadableAxisParameter for StandbyCurrent {

}

impl ReadableTmcmAxisParameter for StandbyCurrent {

}

impl WriteableAxisParameter for StandbyCurrent {
    closed spec fn spec_operand(&self) -> Seq<u8> {
        spec_encode_u16(self.0)
    }

    fn operand(&self) -> (r: [u8; 4]) {
        encode_u16(self.0)
    }
}

impl WriteableTmcmAxisParameter for StandbyCurrent {

}

/// What a 4-byte operand decodes to as an `StandbyCurrent`: always a value, and
/// its carried value is the operand codec's decoding of the bytes.
pub proof fn lemma_standby_current_from_operand(op: [u8; 4])
    ensures
        <StandbyCurrent as Return>::spec_from_operand(op) matches Some(p) && p.spec_value() == spec_decode_u16(
            op@,
        ),
{
}

/// Round trip: a `StandbyCurrent` reconstructed from the operand it renders
/// itself to is the same parameter value again.
pub proof fn lemma_parameter_round_trip_standby_current(p: StandbyCurrent, op: [u8; 4])
    requires
        op@ == p.spec_operand(),
    ensures
        <StandbyCurrent as Return>::spec_from_operand(op) == Some(p),
{
    lemma_round_trip_u16(p.0);
}

/// If set, deactivates the stop function of the right switch.
#[derive(Debug, PartialEq)]
pub struct RightLimitSwitchDisable(bool);

impl RightLimitSwitchDisable {
    /// Whether the stop function is deactivated.
    pub closed spec fn spec_value(&self) -> bool {
        self.0
    }

    /// The stop function is deactivated.
    pub fn disabled() -> (r: RightLimitSwitchDisable)
        ensures
            r.spec_value() == true,
    {
        RightLimitSwitchDisable(true)
    }

    /// The stop function is active.
    pub fn enabled() -> (r: RightLimitSwitchDisable)
        ensures
            r.spec_value() == false,
    {
        RightLimitSwitchDisable(false)
    }
}

impl From<RightLimitSwitchDisable> for bool {
    fn from(v: RightLimitSwitchDisable) -> (r: bool) {
        v.0
    }
}

impl vstd::std_specs::convert::FromSpecImpl<RightLimitSwitchDisable> for bool {
    open spec fn obeys_from_spec() -> bool {
        true
    }

    open spec fn from_spec(v: RightLimitSwitchDisable) -> bool {
        v.spec_value()
    }
}

impl AxisParameter for RightLimitSwitchDisable {
    open spec fn spec_number() -> u8 {
        12
    }

    fn number() -> (r: u8) {
        12
    }
}

impl Return for RightLimitSwitchDisable {
    closed spec fn spec_from_operand(operand: [u8; 4]) -> Option<RightLimitSwitchDisable> {
        Some(RightLimitSwitchDisable(spec_decode_bool(operand@)))
    }

    fn from_operand(operand: [u8; 4]) -> (r: Result<RightLimitSwitchDisable, ParameterError>) {
        Ok(RightLimitSwitchDisable(decode_bool(operand)))
    }
}

impl TmcmAxisParameter for RightLimitSwitchDisable {

}

impl ReadableAxisParameter for RightLimitSwitchDisable {

}

impl ReadableTmcmAxisParameter for RightLimitSwitchDisable {

}

impl WriteableAxisParameter for RightLimitSwitchDisable {
    closed spec fn spec_operand(&self) -> Seq<u8> {
        spec_encode_bool(self.0)
    }

    fn operand(&self) -> (r: [u8; 4]) {
        encode_bool(self.0)
    }
}

impl WriteableTmcmAxisParameter for RightLimitSwitchDisable {

}

/// What a 4-byte operand decodes to as an `RightLimitSwitchDisable`: always a value, and
/// its carried value is the operand codec's decoding of the bytes.
pub proof fn lemma_right_limit_switch_disable_from_operand(op: [u8; 4])
    ensures
        <RightLimitSwitchDisable as Return>::spec_from_operand(op) matches Some(p) && p.spec_value() == spec_decode_bool(
            op@,
        ),
{
}

/// Round trip: a `RightLimitSwitchDisable` reconstructed from the operand it
/// renders itself to is the same parameter value again.
pub proof fn lemma_parameter_round_trip_right_limit_switch_disable(
    p: RightLimitSwitchDisable,
    op: [u8; 4],
)
    requires
        op@ == p.spec_operand(),
    ensures
        <RightLimitSwitchDisable as Return>::spec_from_operand(op) == Some(p),
{
    lemma_round_trip_bool(p.0);
}

/// Deactivates the stop function of the left switch resp. reference switch
/// if set.
#[derive(Debug, PartialEq)]
pub struct LeftLimitSwitchDisable(bool);

impl LeftLimitSwitchDisable {
    /// Whether the stop function is deactivated.
    pub closed spec fn spec_value(&self) -> bool {
        self.0
    }

    /// The stop function is deactivated.
    pub fn disabled() -> (r: LeftLimitSwitchDisable)
        ensures
            r.spec_value() == true,
    {
        LeftLimitSwitchDisable(true)
    }

    /// The stop function is active.
    pub fn enabled() -> (r: LeftLimitSwitchDisable)
        ensures
            r.spec_value() == false,
    {
        LeftLimitSwitchDisable(false)
    }
}

impl From<LeftLimitSwitchDisable> for bool {
    fn from(v: LeftLimitSwitchDisable) -> (r: bool) {
        v.0
    }
}

impl vstd::std_specs::convert::FromSpecImpl<LeftLimitSwitchDisable> for bool {
    open spec fn obeys_from_spec() -> bool {
        true
    }

    open spec fn from_spec(v: LeftLimitSwitchDisable) -> bool {
        v.spec_value()
    }
}

impl AxisParameter for LeftLimitSwitchDisable {
    open spec fn spec_number() -> u8 {
        13
    }

    fn number() -> (r: u8) {
        13
    }
}

impl Return for LeftLimitSwitchDisable {
    closed spec fn spec_from_operand(operand: [u8; 4]) -> Option<LeftLimitSwitchDisable> {
        Some(LeftLimitSwitchDisable(spec_decode_bool(operand@)))
    }

    fn from_operand(operand: [u8; 4]) -> (r: Result<LeftLimitSwitchDisable, ParameterError>) {
        Ok(LeftLimitSwitchDisable(decode_bool(operand)))
    }
}

impl TmcmAxisParameter for LeftLimitSwitchDisable {

}

impl ReadableAxisParameter for LeftLimitSwitchDisable {

}

impl ReadableTmcmAxisParameter for LeftLimitSwitchDisable {

}

impl WriteableAxisParameter for LeftLimitSwitchDisable {
    closed spec fn spec_operand(&self) -> Seq<u8> {
        spec_encode_bool(self.0)
    }

    fn operand(&self) -> (r: [u8; 4]) {
        encode_bool(self.0)
    }
}

impl WriteableTmcmAxisParameter for LeftLimitSwitchDisable {

}

/// What a 4-byte operand decodes to as an `LeftLimitSwitchDisable`: always a value, and
/// its carried value is the operand codec's decoding of the bytes.
pub proof fn lemma_left_limit_switch_disable_from_operand(op: [u8; 4])
    ensures
        <LeftLimitSwitchDisable as Return>::spec_from_operand(op) matches Some(p) && p.spec_value() == spec_decode_bool(
            op@,
        ),
{
}

/// Round trip: a `LeftLimitSwitchDisable` reconstructed from the operand it
/// renders itself to is the same parameter value again.
pub proof fn lemma_parameter_round_trip_left_limit_switch_disable(
    p: LeftLimitSwitchDisable,
    op: [u8; 4],
)
    requires
        op@ == p.spec_operand(),
    ensures
        <LeftLimitSwitchDisable as Return>::spec_from_operand(op) == Some(p),
{
    lemma_round_trip_bool(p.0);
}

/// Microstep Resolution.
///
/// The seven named levels 0 through 6 select full step, half step or 4, 8,
/// 16, 32 or 64 microsteps.  Modifying this parameter affects the rotation
/// speed in the same relation.
#[derive(Debug, PartialEq, Eq, Structural, Clone, Copy)]
pub enum MicrostepResolution {
    /// Fullstep (level 0).
    Full,
    /// Halfstep (level 1).
    Half,
    /// 4 microsteps (level 2).
    Micro4,
    /// 8 microsteps (level 3).
    Micro8,
    /// 16 microsteps (level 4).
    Micro16,
    /// 32 microsteps (level 5).
    Micro32,
    /// 64 microsteps (level 6).
    Micro64,
}

impl MicrostepResolution {
    /// The numeric level of this resolution on the wire.
    pub open spec fn spec_level(self) -> u8 {
        match self {
            MicrostepResolution::Full => 0,
            MicrostepResolution::Half => 1,
            MicrostepResolution::Micro4 => 2,
            MicrostepResolution::Micro8 => 3,
            MicrostepResolution::Micro16 => 4,
            MicrostepResolution::Micro32 => 5,
            MicrostepResolution::Micro64 => 6,
        }
    }

    /// The resolution a numeric level stands for, or `None` where the level
    /// names no variant.
    pub open spec fn spec_from_level(v: u8) -> Option<MicrostepResolution> {
        if v == 0 {
            Some(MicrostepResolution::Full)
        } else if v == 1 {
            Some(MicrostepResolution::Half)
        } else if v == 2 {
            Some(MicrostepResolution::Micro4)
        } else if v == 3 {
            Some(MicrostepResolution::Micro8)
        } else if v == 4 {
            Some(MicrostepResolution::Micro16)
        } else if v == 5 {
            Some(MicrostepResolution::Micro32)
        } else if v == 6 {
            Some(MicrostepResolution::Micro64)
        } else {
            None
        }
    }

    /// Fallible conversion from `u8`: succeeds exactly on the levels 0
    /// through 6.  An out-of-range level is a recoverable decode error,
    /// never a crash.
    pub fn try_from_u8(v: u8) -> (r: Result<MicrostepResolution, ParameterError>)
        ensures
            match r {
                Ok(m) => MicrostepResolution::spec_from_level(v) == Some(m),
                Err(e) => MicrostepResolution::spec_from_level(v) is None && e
                    == ParameterError::UnrecognizedVariant,
            },
    {
        match v {
            0 => Ok(MicrostepResolution::Full),
            1 => Ok(MicrostepResolution::Half),
            2 => Ok(MicrostepResolution::Micro4),
            3 => Ok(MicrostepResolution::Micro8),
            4 => Ok(MicrostepResolution::Micro16),
            5 => Ok(MicrostepResolution::Micro32),
            6 => Ok(MicrostepResolution::Micro64),
            _ => Err(ParameterError::UnrecognizedVariant),
        }
    }

    fn level(&self) -> (r: u8)
        ensures
            r == self.spec_level(),
    {
        match self {
            MicrostepResolution::Full => 0,
            MicrostepResolution::Half => 1,
            MicrostepResolution::Micro4 => 2,
            MicrostepResolution::Micro8 => 3,
            MicrostepResolution::Micro16 => 4,
            MicrostepResolution::Micro32 => 5,
            MicrostepResolution::Micro64 => 6,
        }
    }
}

impl AxisParameter for MicrostepResolution {
    open spec fn spec_number() -> u8 {
        140
    }

    fn number() -> (r: u8) {
        140
    }
}

impl Return for MicrostepResolution {
    /// Only the low byte selects the level; the high bytes are ignored.
    open spec fn spec_from_operand(operand: [u8; 4]) -> Option<MicrostepResolution> {
        MicrostepResolution::spec_from_level(operand@[0])
    }

    fn from_operand(operand: [u8; 4]) -> (r: Result<MicrostepResolution, ParameterError>) {
        MicrostepResolution::try_from_u8(operand[0])
    }
}

impl TmcmAxisParameter for MicrostepResolution {

}

impl ReadableAxisParameter for MicrostepResolution {

}

impl ReadableTmcmAxisParameter for MicrostepResolution {

}

impl WriteableAxisParameter for MicrostepResolution {
    open spec fn spec_operand(&self) -> Seq<u8> {
        seq![self.spec_level(), 0u8, 0u8, 0u8]
    }

    fn operand(&self) -> (r: [u8; 4]) {
        let r: [u8; 4] = [self.level(), 0u8, 0u8, 0u8];
        assert(r@ =~= self.spec_operand());
        r
    }
}

impl WriteableTmcmAxisParameter for MicrostepResolution {

}

/// Round trip: a `MicrostepResolution` reconstructed from the operand it
/// renders itself to is the same resolution again; in particular every
/// rendered level decodes to a variant.
pub proof fn lemma_parameter_round_trip_microstep_resolution(p: MicrostepResolution, op: [u8; 4])
    requires
        op@ == p.spec_operand(),
    ensures
        <MicrostepResolution as Return>::spec_from_operand(op) == Some(p),
{
}

} // verus!
