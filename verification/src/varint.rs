//! Variable-length integers as they stand on the wire.
//!
//! A value up to 250 is one byte. A larger value is a marker byte (251, 252
//! or 253) followed by the value in two, four or eight bytes, least
//! significant byte first.

use vstd::prelude::*;
use crate::error::DecodeFault;
use crate::error::EncodeFault;

verus! {

/// The `width` low bytes of `value`, least significant first.
pub open spec fn le_bytes(value: nat, width: nat) -> Seq<u8>
    decreases width,
{
    if width == 0 {
        Seq::empty()
    } else {
        seq![(value % 256) as u8] + le_bytes(value / 256, (width - 1) as nat)
    }
}

/// The number that `bytes` spell, least significant byte first.
pub open spec fn le_value(bytes: Seq<u8>) -> nat
    decreases bytes.len(),
{
    if bytes.len() == 0 {
        0
    } else {
        bytes[0] as nat + 256 * le_value(bytes.skip(1))
    }
}

/// The wire form of `value`, for any value below 2^64.
pub open spec fn varint(value: nat) -> Seq<u8> {
    if value <= 250 {
        seq![value as u8]
    } else if value < 0x1_0000 {
        seq![251u8] + le_bytes(value, 2)
    } else if value < 0x1_0000_0000 {
        seq![252u8] + le_bytes(value, 4)
    } else {
        seq![253u8] + le_bytes(value, 8)
    }
}

/// How many bytes follow the marker `marker` (251, 252 or 253).
pub open spec fn marker_width(marker: u8) -> nat {
    if marker == 251 {
        2
    } else if marker == 252 {
        4
    } else {
        8
    }
}

/// What reading one integer from the front of `bytes` gives: the value and
/// the number of bytes it took, or the fault. `widest` is the largest marker
/// that the integer's type admits: 252 for 32 bits, 253 for 64 bits.
pub open spec fn parse_varint(bytes: Seq<u8>, widest: u8) -> Result<(nat, nat), DecodeFault> {
    if bytes.len() == 0 {
        Err(DecodeFault::UnexpectedEnd)
    } else if bytes[0] <= 250 {
        Ok((bytes[0] as nat, 1))
    } else if bytes[0] > widest {
        Err(DecodeFault::InvalidIntegerType)
    } else if bytes.len() < 1 + marker_width(bytes[0]) {
        Err(DecodeFault::UnexpectedEnd)
    } else {
        Ok((le_value(bytes.subrange(1, 1 + marker_width(bytes[0]) as int)), 1 + marker_width(bytes[0])))
    }
}

/// `parse_varint` for a 32-bit integer.
pub open spec fn parse_u32(bytes: Seq<u8>) -> Result<(nat, nat), DecodeFault> {
    parse_varint(bytes, 252)
}

/// `parse_varint` for a 64-bit integer.
pub open spec fn parse_u64(bytes: Seq<u8>) -> Result<(nat, nat), DecodeFault> {
    parse_varint(bytes, 253)
}

/// Two to the power `8 * width`.
pub open spec fn radix(width: nat) -> nat
    decreases width,
{
    if width == 0 {
        1
    } else {
        256 * radix((width - 1) as nat)
    }
}

/// `le_bytes` has `width` bytes, and `le_value` reads back every value that
/// fits in them.
pub proof fn lemma_le_roundtrip(value: nat, width: nat)
    requires
        value < radix(width),
    ensures
        le_bytes(value, width).len() == width,
        le_value(le_bytes(value, width)) == value,
    decreases width,
{
    if width > 0 {
        let rest = le_bytes(value / 256, (width - 1) as nat);
        lemma_le_roundtrip(value / 256, (width - 1) as nat);
        assert(le_bytes(value, width).skip(1) =~= rest);
    }
}

/// The number that `bytes` spell is below `radix` of their count.
pub proof fn lemma_le_value_bound(bytes: Seq<u8>)
    ensures
        le_value(bytes) < radix(bytes.len()),
    decreases bytes.len(),
{
    if bytes.len() > 0 {
        lemma_le_value_bound(bytes.skip(1));
    }
}

/// The powers of 256 that the three markers stand for.
pub proof fn lemma_radix_values()
    ensures
        radix(2) == 0x1_0000,
        radix(4) == 0x1_0000_0000,
        radix(8) == 0x1_0000_0000_0000_0000,
{
    reveal_with_fuel(radix, 9);
}

/// Reading a 64-bit integer from its wire form, whatever follows it, gives
/// the value back and takes exactly the bytes of the wire form.
pub proof fn lemma_parse_u64_of_varint(value: u64, rest: Seq<u8>)
    ensures
        parse_u64(varint(value as nat) + rest) == Ok::<(nat, nat), DecodeFault>(
            (value as nat, varint(value as nat).len()),
        ),
{
    let v = value as nat;
    let bytes = varint(v) + rest;
    lemma_radix_values();
    if v > 250 {
        let width: nat = if v < 0x1_0000 {
            2
        } else if v < 0x1_0000_0000 {
            4
        } else {
            8
        };
        lemma_le_roundtrip(v, width);
        assert(bytes.subrange(1, 1 + width as int) =~= le_bytes(v, width));
    }
}

/// Reading a 32-bit integer from its wire form, whatever follows it, gives
/// the value back and takes exactly the bytes of the wire form.
pub proof fn lemma_parse_u32_of_varint(value: u32, rest: Seq<u8>)
    ensures
        parse_u32(varint(value as nat) + rest) == Ok::<(nat, nat), DecodeFault>(
            (value as nat, varint(value as nat).len()),
        ),
{
    let v = value as nat;
    let bytes = varint(v) + rest;
    lemma_radix_values();
    if v > 250 {
        let width: nat = if v < 0x1_0000 {
            2
        } else {
            4
        };
        lemma_le_roundtrip(v, width);
        assert(bytes.subrange(1, 1 + width as int) =~= le_bytes(v, width));
    }
}

/// A successful read takes at least one byte and no more than there are, and
/// the value fits the integer's type.
pub proof fn lemma_parse_varint_bounds(bytes: Seq<u8>, widest: u8)
    requires
        widest == 252 || widest == 253,
    ensures
        match parse_varint(bytes, widest) {
            Ok((value, used)) => 1 <= used <= bytes.len() && used <= 9 && value < radix(
                if widest == 252 {
                    4
                } else {
                    8
                },
            ),
            Err(_) => true,
        },
{
    lemma_radix_values();
    if bytes.len() > 0 && bytes[0] > 250 && bytes[0] <= widest && bytes.len() >= 1 + marker_width(
        bytes[0],
    ) {
        lemma_le_value_bound(bytes.subrange(1, 1 + marker_width(bytes[0]) as int));
        reveal_with_fuel(radix, 9);
    }
}

/// Calls `bincode::encode_to_vec` on a `u32` with `bincode::config::standard()`.
/// Trusted: the call succeeds, since the writer is a growable vector, and the
/// bytes are the variable-length form of the value.
#[verifier::external_body]
pub(crate) fn encode_u32(value: u32) -> (r: Result<Vec<u8>, EncodeFault>)
    ensures
        match r {
            Ok(bytes) => bytes@ == varint(value as nat),
            Err(_) => false,
        },
{
    match bincode::encode_to_vec(value, bincode::config::standard()) {
        Ok(bytes) => Ok(bytes),
        Err(_) => Err(EncodeFault::Codec),
    }
}

/// Calls `bincode::encode_to_vec` on a `u64` with `bincode::config::standard()`.
/// Trusted: the call succeeds, since the writer is a growable vector, and the
/// bytes are the variable-length form of the value.
#[verifier::external_body]
pub(crate) fn encode_u64(value: u64) -> (r: Result<Vec<u8>, EncodeFault>)
    ensures
        match r {
            Ok(bytes) => bytes@ == varint(value as nat),
            Err(_) => false,
        },
{
    match bincode::encode_to_vec(value, bincode::config::standard()) {
        Ok(bytes) => Ok(bytes),
        Err(_) => Err(EncodeFault::Codec),
    }
}

/// Calls `bincode::decode_from_slice` for a `u32` with
/// `bincode::config::standard()`. Trusted: the value and the number of bytes
/// read are those of `parse_u32`, and so is the fault.
#[verifier::external_body]
pub(crate) fn decode_u32(bytes: &[u8]) -> (r: Result<(u32, usize), DecodeFault>)
    ensures
        match r {
            Ok((value, used)) => parse_u32(bytes@) == Ok::<(nat, nat), DecodeFault>((value as nat, used as nat)),
            Err(fault) => parse_u32(bytes@) == Err::<(nat, nat), DecodeFault>(fault),
        },
{
    match bincode::decode_from_slice::<u32, _>(bytes, bincode::config::standard()) {
        Ok((value, used)) => Ok((value, used)),
        Err(bincode::error::DecodeError::UnexpectedEnd { .. }) => Err(DecodeFault::UnexpectedEnd),
        Err(bincode::error::DecodeError::InvalidIntegerType { .. }) => Err(DecodeFault::InvalidIntegerType),
        Err(_) => Err(DecodeFault::Other),
    }
}

/// Calls `bincode::decode_from_slice` for a `u64` with
/// `bincode::config::standard()`. Trusted: the value and the number of bytes
/// read are those of `parse_u64`, and so is the fault.
#[verifier::external_body]
pub(crate) fn decode_u64(bytes: &[u8]) -> (r: Result<(u64, usize), DecodeFault>)
    ensures
        match r {
            Ok((value, used)) => parse_u64(bytes@) == Ok::<(nat, nat), DecodeFault>((value as nat, used as nat)),
            Err(fault) => parse_u64(bytes@) == Err::<(nat, nat), DecodeFault>(fault),
        },
{
    match bincode::decode_from_slice::<u64, _>(bytes, bincode::config::standard()) {
        Ok((value, used)) => Ok((value, used)),
        Err(bincode::error::DecodeError::UnexpectedEnd { .. }) => Err(DecodeFault::UnexpectedEnd),
        Err(bincode::error::DecodeError::InvalidIntegerType { .. }) => Err(DecodeFault::InvalidIntegerType),
        Err(_) => Err(DecodeFault::Other),
    }
}

} // verus!
