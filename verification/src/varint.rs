//! The variable-length integers of the payload encoding.
//!
//! An integer is one tag byte, followed for the tags above 250 by the value
//! in two, four or eight bytes, least significant first.

use vstd::prelude::*;
use crate::error::DecodeFault;

verus! {

/// The number that `bytes` spell, least significant byte first.
pub open spec fn le_value(bytes: Seq<u8>) -> nat
    decreases bytes.len(),
{
    if bytes.len() == 0 {
        0
    } else {
        bytes[0] as nat + 256 * le_value(bytes.skip(1))
    }
}

/// How many bytes follow a tag byte.
pub open spec fn tail_width(tag: u8) -> nat {
    if tag <= 250 {
        0
    } else if tag == 251 {
        2
    } else if tag == 252 {
        4
    } else if tag == 253 {
        8
    } else {
        16
    }
}

/// The integer at the front of `src` and the number of bytes it takes, for an
/// integer type of `max_width` bytes.
pub open spec fn varint(src: Seq<u8>, max_width: nat) -> Result<(nat, nat), DecodeFault> {
    if src.len() == 0 {
        Err(DecodeFault::UnexpectedEnd)
    } else if src[0] <= 250 {
        Ok((src[0] as nat, 1))
    } else if src[0] == 255 || tail_width(src[0]) > max_width {
        Err(DecodeFault::InvalidIntegerType)
    } else if src.len() < 1 + tail_width(src[0]) {
        Err(DecodeFault::UnexpectedEnd)
    } else {
        Ok((le_value(src.subrange(1, 1 + tail_width(src[0]) as int)), 1 + tail_width(src[0])))
    }
}

/// 256 to the power `n`.
pub open spec fn pow256(n: nat) -> nat
    decreases n,
{
    if n == 0 {
        1
    } else {
        256 * pow256((n - 1) as nat)
    }
}

/// A number spelled in `n` bytes is below 256 to the `n`.
pub proof fn lemma_le_value_bound(bytes: Seq<u8>)
    ensures
        le_value(bytes) < pow256(bytes.len()),
    decreases bytes.len(),
{
    if bytes.len() > 0 {
        lemma_le_value_bound(bytes.skip(1));
    }
}

/// A decoded integer fits its type, and takes at least one byte and no more
/// than are there.
pub proof fn lemma_varint_bounds(src: Seq<u8>, max_width: nat)
    requires
        max_width == 4 || max_width == 8,
    ensures
        varint(src, max_width) matches Ok((value, used)) ==> {
            &&& 1 <= used <= src.len()
            &&& used <= 1 + max_width
            &&& max_width == 4 ==> value <= u32::MAX
            &&& max_width == 8 ==> value <= u64::MAX
        },
{
    if let Ok((value, used)) = varint(src, max_width) {
        if src[0] > 250 {
            let tail = src.subrange(1, 1 + tail_width(src[0]) as int);
            lemma_le_value_bound(tail);
            reveal_with_fuel(pow256, 9);
        }
    }
}

/// Decodes a `u32` from the front of `src` with `bincode::decode_from_slice`
/// under the standard configuration. Trusted: the decoder reads one tag byte,
/// takes a tag up to 250 as the value, reads two or four little-endian bytes
/// after the tags 251 and 252, refuses the wider tags, and reports how many
/// bytes it consumed.
#[verifier::external_body]
pub(crate) fn bincode_u32(src: &[u8]) -> (r: Result<(u32, usize), DecodeFault>)
    ensures
        match varint(src@, 4) {
            Ok((value, used)) => r == Ok::<(u32, usize), DecodeFault>(
                (value as u32, used as usize),
            ),
            Err(fault) => r == Err::<(u32, usize), DecodeFault>(fault),
        },
{
    match bincode::decode_from_slice::<u32, _>(src, bincode::config::standard()) {
        Ok(pair) => Ok(pair),
        Err(bincode::error::DecodeError::UnexpectedEnd { .. }) => Err(DecodeFault::UnexpectedEnd),
        Err(bincode::error::DecodeError::InvalidIntegerType { .. }) => Err(
            DecodeFault::InvalidIntegerType,
        ),
        Err(_) => Err(DecodeFault::Other),
    }
}

/// Decodes a `u64` from the front of `src` with `bincode::decode_from_slice`
/// under the standard configuration. Trusted: as for `u32`, with the tag 253
/// announcing eight little-endian bytes.
#[verifier::external_body]
pub(crate) fn bincode_u64(src: &[u8]) -> (r: Result<(u64, usize), DecodeFault>)
    ensures
        match varint(src@, 8) {
            Ok((value, used)) => r == Ok::<(u64, usize), DecodeFault>(
                (value as u64, used as usize),
            ),
            Err(fault) => r == Err::<(u64, usize), DecodeFault>(fault),
        },
{
    match bincode::decode_from_slice::<u64, _>(src, bincode::config::standard()) {
        Ok(pair) => Ok(pair),
        Err(bincode::error::DecodeError::UnexpectedEnd { .. }) => Err(DecodeFault::UnexpectedEnd),
        Err(bincode::error::DecodeError::InvalidIntegerType { .. }) => Err(
            DecodeFault::InvalidIntegerType,
        ),
        Err(_) => Err(DecodeFault::Other),
    }
}

} // verus!
