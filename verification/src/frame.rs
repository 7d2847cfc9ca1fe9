//! The framing of a request on the wire.
//!
//! A frame is a header of four bytes, which give the payload's length as an
//! unsigned 32-bit number with the least significant byte first, followed by
//! the payload. No bound is put on the announced length: whoever reads the
//! payload decides whether to allocate that much.

use vstd::prelude::*;
use vstd::slice::slice_subrange;
use crate::error::DecodeFault;
use crate::message::{decode_message, parse_message, Message, MessageView};
use crate::varint::le_value;

verus! {

/// The number of bytes in a frame's header.
pub const HEADER_LEN: usize = 4;

/// The payload among the bytes that followed a header announcing `declared`
/// bytes, if that many arrived.
pub open spec fn payload_of(declared: nat, received: Seq<u8>) -> Result<Seq<u8>, DecodeFault> {
    if received.len() < declared {
        Err(DecodeFault::UnexpectedEnd)
    } else {
        Ok(received.take(declared as int))
    }
}

/// The message framed at the front of `stream`, where `stream` is all that
/// arrived before the sender stopped.
pub open spec fn parse_frame(stream: Seq<u8>) -> Result<MessageView, DecodeFault> {
    if stream.len() < 4 {
        Err(DecodeFault::UnexpectedEnd)
    } else {
        match payload_of(le_value(stream.take(4)), stream.skip(4)) {
            Err(fault) => Err(fault),
            Ok(payload) => parse_message(payload),
        }
    }
}

/// The payload length that a header announces.
pub fn declared_length(header: &[u8; 4]) -> (n: u32)
    ensures
        n == le_value(header@),
{
    let b0: u32 = header[0] as u32;
    let b1: u32 = header[1] as u32;
    let b2: u32 = header[2] as u32;
    let b3: u32 = header[3] as u32;
    proof {
        reveal_with_fuel(le_value, 5);
        let h = header@;
        assert(h.skip(1)[0] == h[1]);
        assert(h.skip(1).skip(1)[0] == h[2]);
        assert(h.skip(1).skip(1).skip(1)[0] == h[3]);
        assert(h.skip(1).skip(1).skip(1).skip(1).len() == 0);
    }
    b0 + 256 * (b1 + 256 * (b2 + 256 * b3))
}

/// Takes the payload out of the bytes that followed the header. Fewer bytes
/// than the header announced are a truncated frame.
pub fn frame_payload<'a>(declared: u32, received: &'a [u8]) -> (r: Result<&'a [u8], DecodeFault>)
    ensures
        match payload_of(declared as nat, received@) {
            Ok(payload) => r matches Ok(slice) && slice@ == payload,
            Err(fault) => r matches Err(e) && e == fault,
        },
{
    if received.len() < declared as usize {
        Err(DecodeFault::UnexpectedEnd)
    } else {
        Ok(slice_subrange(received, 0, declared as usize))
    }
}

/// Decodes the one request framed at the front of `stream`. Whatever follows
/// the announced payload is not looked at.
pub fn decode_frame(stream: &[u8]) -> (r: Result<Message, DecodeFault>)
    ensures
        match parse_frame(stream@) {
            Ok(view) => r matches Ok(message) && message@ == view,
            Err(fault) => r matches Err(e) && e == fault,
        },
        stream@.len() < 4 ==> r is Err,
        stream@.len() >= 4 && le_value(stream@.take(4)) > stream@.len() - 4 ==> r is Err,
{
    if stream.len() < HEADER_LEN {
        return Err(DecodeFault::UnexpectedEnd);
    }
    let header: [u8; 4] = [stream[0], stream[1], stream[2], stream[3]];
    assert(header@ == stream@.take(4));
    let declared = declared_length(&header);
    let rest = slice_subrange(stream, HEADER_LEN, stream.len());
    assert(rest@ == stream@.skip(4));
    match frame_payload(declared, rest) {
        Err(fault) => Err(fault),
        Ok(payload) => decode_message(payload),
    }
}

} // verus!
