//! The operand codec: fixed 4-byte little-endian packing rules for the
//! signed and unsigned integers of width 8, 16 and 32 and for booleans.
//!
//! Index 0 of an operand array holds the least significant byte; the bytes a
//! narrower type does not use are zero.  The wire sends the operand most
//! significant byte first; that reversal is applied once, at render time, by
//! the command framing, never here.

use vstd::prelude::*;

verus! {

/// The little-endian value of a 4-byte operand, as an unsigned 32-bit word.
pub open spec fn spec_decode_u32(b: Seq<u8>) -> u32
    recommends
        b.len() == 4,
{
    (b[0] as u32) | ((b[1] as u32) << 8) | ((b[2] as u32) << 16) | ((b[3] as u32) << 24)
}

/// The 4-byte little-endian encoding of an unsigned 32-bit word.
pub open spec fn spec_encode_u32(v: u32) -> Seq<u8> {
    seq![
        (v & 0xff) as u8,
        ((v >> 8) & 0xff) as u8,
        ((v >> 16) & 0xff) as u8,
        ((v >> 24) & 0xff) as u8,
    ]
}

/// A signed 32-bit value is carried as its unsigned bit pattern.
pub open spec fn spec_encode_i32(v: i32) -> Seq<u8> {
    spec_encode_u32(v as u32)
}

pub open spec fn spec_decode_i32(b: Seq<u8>) -> i32
    recommends
        b.len() == 4,
{
    spec_decode_u32(b) as i32
}

/// The little-endian value of the two low bytes; the high bytes are ignored.
pub open spec fn spec_decode_u16(b: Seq<u8>) -> u16
    recommends
        b.len() == 4,
{
    (b[0] as u16) | ((b[1] as u16) << 8)
}

/// A 16-bit value occupies the two low bytes; the high bytes are zero.
pub open spec fn spec_encode_u16(v: u16) -> Seq<u8> {
    seq![(v & 0xff) as u8, ((v >> 8) & 0xff) as u8, 0u8, 0u8]
}

pub open spec fn spec_encode_i16(v: i16) -> Seq<u8> {
    spec_encode_u16(v as u16)
}

pub open spec fn spec_decode_i16(b: Seq<u8>) -> i16
    recommends
        b.len() == 4,
{
    spec_decode_u16(b) as i16
}

/// An 8-bit value occupies the low byte; the high bytes are zero.
pub open spec fn spec_encode_u8(v: u8) -> Seq<u8> {
    seq![v, 0u8, 0u8, 0u8]
}

/// The low byte; the high bytes are ignored.
pub open spec fn spec_decode_u8(b: Seq<u8>) -> u8
    recommends
        b.len() == 4,
{
    b[0]
}

pub open spec fn spec_encode_i8(v: i8) -> Seq<u8> {
    seq![v as u8, 0u8, 0u8, 0u8]
}

pub open spec fn spec_decode_i8(b: Seq<u8>) -> i8
    recommends
        b.len() == 4,
{
    b[0] as i8
}

/// True is carried as 1 in the low byte.
pub open spec fn spec_encode_bool(v: bool) -> Seq<u8> {
    seq![if v { 1u8 } else { 0u8 }, 0u8, 0u8, 0u8]
}

/// A boolean decodes as true if any of the four bytes is non-zero: the
/// broadest accepted encoding, deliberately not restricted to the low byte.
pub open spec fn spec_decode_bool(b: Seq<u8>) -> bool
    recommends
        b.len() == 4,
{
    b[0] != 0 || b[1] != 0 || b[2] != 0 || b[3] != 0
}

pub fn encode_u32(v: u32) -> (r: [u8; 4])
    ensures
        r@ == spec_encode_u32(v),
{
    let r: [u8; 4] = [
        (v & 0xff) as u8,
        ((v >> 8) & 0xff) as u8,
        ((v >> 16) & 0xff) as u8,
        ((v >> 24) & 0xff) as u8,
    ];
    assert(r@ =~= spec_encode_u32(v));
    r
}

pub fn decode_u32(b: [u8; 4]) -> (r: u32)
    ensures
        r == spec_decode_u32(b@),
{
    (b[0] as u32) | ((b[1] as u32) << 8) | ((b[2] as u32) << 16) | ((b[3] as u32) << 24)
}

pub fn encode_i32(v: i32) -> (r: [u8; 4])
    ensures
        r@ == spec_encode_i32(v),
{
    encode_u32(v as u32)
}

pub fn decode_i32(b: [u8; 4]) -> (r: i32)
    ensures
        r == spec_decode_i32(b@),
{
    decode_u32(b) as i32
}

pub fn encode_u16(v: u16) -> (r: [u8; 4])
    ensures
        r@ == spec_encode_u16(v),
{
    let r: [u8; 4] = [(v & 0xff) as u8, ((v >> 8) & 0xff) as u8, 0u8, 0u8];
    assert(r@ =~= spec_encode_u16(v));
    r
}

pub fn decode_u16(b: [u8; 4]) -> (r: u16)
    ensures
        r == spec_decode_u16(b@),
{
    (b[0] as u16) | ((b[1] as u16) << 8)
}

pub fn encode_i16(v: i16) -> (r: [u8; 4])
    ensures
        r@ == spec_encode_i16(v),
{
    encode_u16(v as u16)
}

pub fn decode_i16(b: [u8; 4]) -> (r: i16)
    ensures
        r == spec_decode_i16(b@),
{
    decode_u16(b) as i16
}

pub fn encode_u8(v: u8) -> (r: [u8; 4])
    ensures
        r@ == spec_encode_u8(v),
{
    let r: [u8; 4] = [v, 0u8, 0u8, 0u8];
    assert(r@ =~= spec_encode_u8(v));
    r
}

pub fn decode_u8(b: [u8; 4]) -> (r: u8)
    ensures
        r == spec_decode_u8(b@),
{
    b[0]
}

pub fn encode_i8(v: i8) -> (r: [u8; 4])
    ensures
        r@ == spec_encode_i8(v),
{
    let r: [u8; 4] = [v as u8, 0u8, 0u8, 0u8];
    assert(r@ =~= spec_encode_i8(v));
    r
}

pub fn decode_i8(b: [u8; 4]) -> (r: i8)
    ensures
        r == spec_decode_i8(b@),
{
    b[0] as i8
}

pub fn encode_bool(v: bool) -> (r: [u8; 4])
    ensures
        r@ == spec_encode_bool(v),
{
    let r: [u8; 4] = [if v { 1u8 } else { 0u8 }, 0u8, 0u8, 0u8];
    assert(r@ =~= spec_encode_bool(v));
    r
}

pub fn decode_bool(b: [u8; 4]) -> (r: bool)
    ensures
        r == spec_decode_bool(b@),
{
    b[0] != 0 || b[1] != 0 || b[2] != 0 || b[3] != 0
}

/// Round trip: decoding the encoding of any unsigned 32-bit word gives the
/// word back.
pub proof fn lemma_round_trip_u32(v: u32)
    ensures
        spec_decode_u32(spec_encode_u32(v)) == v,
{
    assert(((v & 0xff) as u8 as u32) | ((((v >> 8) & 0xff) as u8 as u32) << 8)
        | ((((v >> 16) & 0xff) as u8 as u32) << 16) | ((((v >> 24) & 0xff) as u8 as u32) << 24)
        == v) by (bit_vector);
}

/// Round trip: decoding the encoding of any signed 32-bit value gives the
/// value back.
pub proof fn lemma_round_trip_i32(v: i32)
    ensures
        spec_decode_i32(spec_encode_i32(v)) == v,
{
    lemma_round_trip_u32(v as u32);
    assert((v as u32) as i32 == v) by (bit_vector);
}

/// Round trip: decoding the encoding of any unsigned 16-bit value gives the
/// value back.
pub proof fn lemma_round_trip_u16(v: u16)
    ensures
        spec_decode_u16(spec_encode_u16(v)) == v,
{
    assert(((v & 0xff) as u8 as u16) | ((((v >> 8) & 0xff) as u8 as u16) << 8) == v)
        by (bit_vector);
}

/// Round trip: decoding the encoding of any signed 16-bit value gives the
/// value back.
pub proof fn lemma_round_trip_i16(v: i16)
    ensures
        spec_decode_i16(spec_encode_i16(v)) == v,
{
    lemma_round_trip_u16(v as u16);
    assert((v as u16) as i16 == v) by (bit_vector);
}

/// Round trip: decoding the encoding of any unsigned 8-bit value gives the
/// value back.
pub proof fn lemma_round_trip_u8(v: u8)
    ensures
        spec_decode_u8(spec_encode_u8(v)) == v,
{
}

/// Round trip: decoding the encoding of any signed 8-bit value gives the
/// value back.
pub proof fn lemma_round_trip_i8(v: i8)
    ensures
        spec_decode_i8(spec_encode_i8(v)) == v,
{
    assert((v as u8) as i8 == v) by (bit_vector);
}

/// Round trip: decoding the encoding of a boolean gives the boolean back.
pub proof fn lemma_round_trip_bool(v: bool)
    ensures
        spec_decode_bool(spec_encode_bool(v)) == v,
{
}

} // verus!
