//! Instruction field encodings: instruction numbers, type numbers, motor and
//! bank numbers and operands of every instruction variant, and the
//! capability and range rules of the typed axis parameters.

use tmcl::AxisParameter;
use tmcl::WriteableAxisParameter;
use tmcl::Instruction;
use tmcl::ParameterError;
use tmcl::Return;
use tmcl::instructions::MoveOperation;
use tmcl::instructions::ReferenceSearchAction;
use tmcl::instructions::CALC;
use tmcl::instructions::GAP;
use tmcl::instructions::GIO;
use tmcl::instructions::MST;
use tmcl::instructions::MVP;
use tmcl::instructions::RFS;
use tmcl::instructions::ROL;
use tmcl::instructions::ROR;
use tmcl::instructions::RSAP;
use tmcl::instructions::SAP;
use tmcl::instructions::SIO;
use tmcl::instructions::STAP;
use tmcl::modules::generic;
use tmcl::modules::tmcm::ActualPosition;
use tmcl::modules::tmcm::ActualSpeed;
use tmcl::modules::tmcm::AbsoluteMaxCurrent;
use tmcl::modules::tmcm::LeftLimitSwitchDisable;
use tmcl::modules::tmcm::MaximumPositioningSpeed;
use tmcl::modules::tmcm::MicrostepResolution;
use tmcl::modules::tmcm::RightLimitSwitchDisable;
use tmcl::modules::tmcm::StandbyCurrent;

#[test]
fn rotation_instructions() {
    let ror = ROR::new(2, 250);
    assert_eq!(ROR::instruction_number(), 1);
    assert_eq!(ror.type_number(), 0);
    assert_eq!(ror.motor_bank_number(), 2);
    assert_eq!(ror.operand(), [250, 0, 0, 0]);

    let rol = ROL::new(1, 0x0102);
    assert_eq!(ROL::instruction_number(), 2);
    assert_eq!(rol.type_number(), 0);
    assert_eq!(rol.motor_bank_number(), 1);
    assert_eq!(rol.operand(), [2, 1, 0, 0]);
}

#[test]
fn motor_stop() {
    let mst = MST::new(5);
    assert_eq!(MST::instruction_number(), 3);
    assert_eq!(mst.type_number(), 0);
    assert_eq!(mst.motor_bank_number(), 5);
    assert_eq!(mst.operand(), [0, 0, 0, 0]);
}

#[test]
fn move_to_position_variants() {
    assert_eq!(MVP::instruction_number(), 4);
    let abs = MVP::new(0, MoveOperation::Absolute(-8388608));
    assert_eq!(abs.type_number(), 0);
    assert_eq!(abs.operand(), [0x00, 0x00, 0x80, 0xff]);
    let rel = MVP::new(0, MoveOperation::Relative(1));
    assert_eq!(rel.operand(), [1, 0, 0, 0]);
    let coord = MVP::new(0, MoveOperation::Coordinate(20));
    assert_eq!(coord.operand(), [20, 0, 0, 0]);
}

#[test]
fn parameterized_instructions_take_the_parameter_number() {
    let sap = SAP::new(0, ActualPosition::from_operand([5, 0, 0, 0]).unwrap());
    assert_eq!(<SAP<ActualPosition> as Instruction>::instruction_number(), 5);
    assert_eq!(sap.type_number(), 1);
    assert_eq!(sap.operand(), [5, 0, 0, 0]);

    let gap = GAP::<ActualSpeed>::new(3);
    assert_eq!(<GAP<ActualSpeed> as Instruction>::instruction_number(), 6);
    assert_eq!(gap.type_number(), 3);
    assert_eq!(gap.motor_bank_number(), 3);
    assert_eq!(gap.operand(), [0, 0, 0, 0]);

    let stap = STAP::<ActualPosition>::new(0);
    assert_eq!(<STAP<ActualPosition> as Instruction>::instruction_number(), 7);
    assert_eq!(stap.type_number(), 1);
    assert_eq!(stap.operand(), [0, 0, 0, 0]);

    let rsap = RSAP::<ActualPosition>::new(0);
    assert_eq!(<RSAP<ActualPosition> as Instruction>::instruction_number(), 8);
    assert_eq!(rsap.type_number(), 1);
    assert_eq!(rsap.operand(), [0, 0, 0, 0]);
}

#[test]
fn reference_search_actions() {
    assert_eq!(RFS::instruction_number(), 13);
    assert_eq!(RFS::new(0, ReferenceSearchAction::Start).type_number(), 0);
    assert_eq!(RFS::new(0, ReferenceSearchAction::Stop).type_number(), 1);
    assert_eq!(RFS::new(0, ReferenceSearchAction::Status).type_number(), 2);
    assert_eq!(RFS::new(4, ReferenceSearchAction::Start).motor_bank_number(), 4);
    assert_eq!(RFS::new(0, ReferenceSearchAction::Start).operand(), [0, 0, 0, 0]);
}

#[test]
fn io_instructions() {
    let sio = SIO::new(1, 2, true);
    assert_eq!(SIO::instruction_number(), 14);
    assert_eq!(sio.type_number(), 2);
    assert_eq!(sio.motor_bank_number(), 1);
    assert_eq!(sio.operand(), [1, 0, 0, 0]);
    assert_eq!(SIO::new(1, 2, false).operand(), [0, 0, 0, 0]);

    let gio = GIO::new(0, 7);
    assert_eq!(GIO::instruction_number(), 15);
    assert_eq!(gio.type_number(), 7);
    assert_eq!(gio.motor_bank_number(), 0);
    assert_eq!(gio.operand(), [0, 0, 0, 0]);
}

#[test]
fn calculate_operations() {
    assert_eq!(CALC::instruction_number(), 19);
    assert_eq!(CALC::Add(1).type_number(), 0);
    assert_eq!(CALC::Sub(1).type_number(), 1);
    assert_eq!(CALC::Mul(1).type_number(), 2);
    assert_eq!(CALC::Div(1).type_number(), 3);
    assert_eq!(CALC::Mod(1).type_number(), 4);
    assert_eq!(CALC::And(1).type_number(), 5);
    assert_eq!(CALC::Or(1).type_number(), 6);
    assert_eq!(CALC::Xor(1).type_number(), 7);
    assert_eq!(CALC::Not.type_number(), 8);
    assert_eq!(CALC::Load(1).type_number(), 9);
    assert_eq!(CALC::Add(-1).operand(), [0xff, 0xff, 0xff, 0xff]);
    assert_eq!(CALC::Not.operand(), [0, 0, 0, 0]);
    assert_eq!(CALC::Load(2).operand(), [2, 0, 0, 0]);
    assert_eq!(CALC::Add(1).motor_bank_number(), 0);
}

#[test]
fn generic_parameterized_instructions() {
    let sap = generic::SAP::new(0, 4, [250, 0, 0, 0]);
    assert_eq!(<generic::SAP as Instruction>::instruction_number(), 5);
    assert_eq!(sap.type_number(), 4);
    assert_eq!(sap.operand(), [250, 0, 0, 0]);

    let gap = generic::GAP::new(1, 3);
    assert_eq!(<generic::GAP as Instruction>::instruction_number(), 6);
    assert_eq!(gap.type_number(), 3);
    assert_eq!(gap.operand(), [0, 0, 0, 0]);

    let stap = generic::STAP::new(1, 4);
    assert_eq!(<generic::STAP as Instruction>::instruction_number(), 7);
    assert_eq!(stap.type_number(), 4);
    assert_eq!(stap.operand(), [0, 0, 0, 0]);
}

#[test]
fn parameter_numbers() {
    assert_eq!(ActualPosition::number(), 1);
    assert_eq!(ActualSpeed::number(), 3);
    assert_eq!(MaximumPositioningSpeed::number(), 4);
    assert_eq!(AbsoluteMaxCurrent::number(), 6);
    assert_eq!(StandbyCurrent::number(), 7);
    assert_eq!(RightLimitSwitchDisable::number(), 12);
    assert_eq!(LeftLimitSwitchDisable::number(), 13);
    assert_eq!(MicrostepResolution::number(), 140);
}

#[test]
fn maximum_positioning_speed_range() {
    let ok = MaximumPositioningSpeed::new(2047).unwrap();
    assert_eq!(u16::from(ok), 2047);
    assert_eq!(MaximumPositioningSpeed::new(2048), Err(ParameterError::OutOfRange));
    assert_eq!(MaximumPositioningSpeed::new(u16::MAX), Err(ParameterError::OutOfRange));
}

#[test]
fn parameter_values_round_trip() {
    let p = ActualPosition::from_operand([0xff, 0xff, 0xff, 0xff]).unwrap();
    assert_eq!(i32::from(ActualPosition::from_operand(p.operand()).unwrap()), -1);
    let s = MaximumPositioningSpeed::new(250).unwrap();
    assert_eq!(u16::from(MaximumPositioningSpeed::from_operand(s.operand()).unwrap()), 250);
    let d = RightLimitSwitchDisable::disabled();
    assert!(bool::from(RightLimitSwitchDisable::from_operand(d.operand()).unwrap()));
    let e = LeftLimitSwitchDisable::enabled();
    assert!(!bool::from(LeftLimitSwitchDisable::from_operand(e.operand()).unwrap()));
}

#[test]
fn limit_switch_constructors() {
    assert!(bool::from(RightLimitSwitchDisable::disabled()));
    assert!(!bool::from(RightLimitSwitchDisable::enabled()));
    assert!(bool::from(LeftLimitSwitchDisable::disabled()));
    assert!(!bool::from(LeftLimitSwitchDisable::enabled()));
}

#[test]
fn current_parameters_keep_their_value() {
    assert_eq!(u16::from(AbsoluteMaxCurrent::new(1500)), 1500);
    assert_eq!(u16::from(StandbyCurrent::new(8)), 8);
}

#[test]
fn actual_speed_decodes_from_operand() {
    let speed = ActualSpeed::from_operand([1, 0, 0, 0]).unwrap();
    assert_eq!(i16::from(speed), 1);
    let negative = ActualSpeed::from_operand([0xff, 0xff, 0, 0]).unwrap();
    assert_eq!(i16::from(negative), -1);
}

#[test]
fn microstep_resolution_levels() {
    assert_eq!(MicrostepResolution::try_from_u8(0), Ok(MicrostepResolution::Full));
    assert_eq!(MicrostepResolution::try_from_u8(1), Ok(MicrostepResolution::Half));
    assert_eq!(MicrostepResolution::try_from_u8(2), Ok(MicrostepResolution::Micro4));
    assert_eq!(MicrostepResolution::try_from_u8(3), Ok(MicrostepResolution::Micro8));
    assert_eq!(MicrostepResolution::try_from_u8(4), Ok(MicrostepResolution::Micro16));
    assert_eq!(MicrostepResolution::try_from_u8(5), Ok(MicrostepResolution::Micro32));
    assert_eq!(MicrostepResolution::try_from_u8(6), Ok(MicrostepResolution::Micro64));
    assert_eq!(
        MicrostepResolution::try_from_u8(7),
        Err(ParameterError::UnrecognizedVariant)
    );
    assert_eq!(MicrostepResolution::Micro64.operand(), [6, 0, 0, 0]);
}

#[test]
fn microstep_resolution_decode_is_recoverable() {
    assert_eq!(
        MicrostepResolution::from_operand([5, 0, 0, 0]),
        Ok(MicrostepResolution::Micro32)
    );
    assert_eq!(
        MicrostepResolution::from_operand([9, 0, 0, 0]),
        Err(ParameterError::UnrecognizedVariant)
    );
}

#[test]
fn readable_parameters_can_back_a_get_instruction() {
    // The capability rules are trait bounds: these instructions exist only
    // because the parameter types carry the matching capability.
    let _gap_speed = GAP::<ActualSpeed>::new(0);
    let _gap_position = GAP::<ActualPosition>::new(0);
    let _gap_resolution = GAP::<MicrostepResolution>::new(0);
    let _stap = STAP::<MaximumPositioningSpeed>::new(0);
    let _sap = SAP::new(0, MicrostepResolution::Full);
}
