//! Status decoding: exactly one numeric code maps to exactly one variant;
//! any other code is an invalid-status decoding error.

use tmcl::Error;
use tmcl::ErrStatus;
use tmcl::OkStatus;
use tmcl::Status;

#[test]
fn status_100_is_plain_success() {
    assert_eq!(Status::try_from_u8(100), Ok(Status::Success(OkStatus::Success)));
}

#[test]
fn status_4_is_invalid_value() {
    assert_eq!(Status::try_from_u8(4), Ok(Status::Error(ErrStatus::InvalidValue)));
}

#[test]
fn status_7_is_a_decode_failure() {
    assert!(Status::try_from_u8(7).is_err());
}

#[test]
fn status_all_valid_codes() {
    assert_eq!(Status::try_from_u8(101), Ok(Status::Success(OkStatus::LoadedIntoEEPROM)));
    assert_eq!(Status::try_from_u8(1), Ok(Status::Error(ErrStatus::WrongChecksum)));
    assert_eq!(Status::try_from_u8(2), Ok(Status::Error(ErrStatus::InvalidCommand)));
    assert_eq!(Status::try_from_u8(3), Ok(Status::Error(ErrStatus::WrongType)));
    assert_eq!(Status::try_from_u8(5), Ok(Status::Error(ErrStatus::EEPROMLocked)));
    assert_eq!(Status::try_from_u8(6), Ok(Status::Error(ErrStatus::CommandNotAvailable)));
}

#[test]
fn status_invalid_codes_fail() {
    for code in [0u8, 7, 8, 99, 102, 103, 200, 255] {
        assert!(Status::try_from_u8(code).is_err(), "code {} must not decode", code);
    }
}

#[test]
fn protocol_error_from_err_status() {
    let e: Error<String> = Error::from(ErrStatus::WrongType);
    assert_eq!(e, Error::ProtocolError(ErrStatus::WrongType));
}
