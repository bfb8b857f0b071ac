//! Round trips and exact encodings of the operand codec, over boundary
//! values of every supported semantic type.

use tmcl::codec::decode_bool;
use tmcl::codec::decode_i16;
use tmcl::codec::decode_i32;
use tmcl::codec::decode_i8;
use tmcl::codec::decode_u16;
use tmcl::codec::decode_u32;
use tmcl::codec::decode_u8;
use tmcl::codec::encode_bool;
use tmcl::codec::encode_i16;
use tmcl::codec::encode_i32;
use tmcl::codec::encode_i8;
use tmcl::codec::encode_u16;
use tmcl::codec::encode_u32;
use tmcl::codec::encode_u8;

#[test]
fn round_trip_u32_boundaries() {
    for v in [0u32, 1, 0xff, 0x100, 0xffff, 0x10000, 250, u32::MAX, u32::MAX - 1] {
        assert_eq!(decode_u32(encode_u32(v)), v);
    }
}

#[test]
fn round_trip_i32_boundaries() {
    for v in [0i32, -1, 1, i32::MIN, i32::MAX, -8388608, 8388608] {
        assert_eq!(decode_i32(encode_i32(v)), v);
    }
}

#[test]
fn round_trip_u16_boundaries() {
    for v in [0u16, 1, 0xff, 0x100, 2047, u16::MAX] {
        assert_eq!(decode_u16(encode_u16(v)), v);
    }
}

#[test]
fn round_trip_i16_boundaries() {
    for v in [0i16, -1, 1, i16::MIN, i16::MAX] {
        assert_eq!(decode_i16(encode_i16(v)), v);
    }
}

#[test]
fn round_trip_u8_boundaries() {
    for v in [0u8, 1, 0x7f, 0x80, u8::MAX] {
        assert_eq!(decode_u8(encode_u8(v)), v);
    }
}

#[test]
fn round_trip_i8_boundaries() {
    for v in [0i8, -1, 1, i8::MIN, i8::MAX] {
        assert_eq!(decode_i8(encode_i8(v)), v);
    }
}

#[test]
fn round_trip_bool() {
    assert_eq!(decode_bool(encode_bool(true)), true);
    assert_eq!(decode_bool(encode_bool(false)), false);
}

#[test]
fn encode_is_little_endian() {
    assert_eq!(encode_u32(0x0403_0201), [1, 2, 3, 4]);
    assert_eq!(encode_u32(250), [250, 0, 0, 0]);
    assert_eq!(encode_i32(-1), [0xff, 0xff, 0xff, 0xff]);
    assert_eq!(encode_u16(0x0201), [1, 2, 0, 0]);
    assert_eq!(encode_i16(-2), [0xfe, 0xff, 0, 0]);
    assert_eq!(encode_u8(7), [7, 0, 0, 0]);
    assert_eq!(encode_i8(-1), [0xff, 0, 0, 0]);
    assert_eq!(encode_bool(true), [1, 0, 0, 0]);
    assert_eq!(encode_bool(false), [0, 0, 0, 0]);
}

#[test]
fn decode_narrow_types_ignore_high_bytes() {
    assert_eq!(decode_u16([1, 2, 0xaa, 0xbb]), 0x0201);
    assert_eq!(decode_u8([7, 0xaa, 0xbb, 0xcc]), 7);
    assert_eq!(decode_i8([0xff, 0xaa, 0xbb, 0xcc]), -1);
    assert_eq!(decode_i16([0xfe, 0xff, 0xaa, 0xbb]), -2);
}

#[test]
fn decode_bool_any_nonzero_byte_is_true() {
    assert_eq!(decode_bool([0, 0, 0, 0]), false);
    assert_eq!(decode_bool([1, 0, 0, 0]), true);
    assert_eq!(decode_bool([0, 1, 0, 0]), true);
    assert_eq!(decode_bool([0, 0, 1, 0]), true);
    assert_eq!(decode_bool([0, 0, 0, 1]), true);
    assert_eq!(decode_bool([2, 0, 0, 9]), true);
}

#[test]
fn decode_i32_sign_extension() {
    assert_eq!(decode_i32([0xff, 0xff, 0xff, 0xff]), -1);
    assert_eq!(decode_i32([0, 0, 0, 0x80]), i32::MIN);
    assert_eq!(decode_i32([0xff, 0xff, 0xff, 0x7f]), i32::MAX);
}
