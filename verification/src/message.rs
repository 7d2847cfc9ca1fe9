//! The request message and its decoding from a payload.
//!
//! A payload holds, in this order, the message kind as a variable-length
//! integer, the language tag and the source code, each of the two as a
//! variable-length byte count followed by that many bytes of UTF-8.

use vstd::prelude::*;
use vstd::slice::slice_subrange;
use vstd::utf8::{decode_utf8, valid_utf8};
use crate::error::DecodeFault;
use crate::varint::{bincode_u32, bincode_u64, lemma_varint_bounds, varint};

verus! {

/// What a message asks for. Only `Execution` is acted upon; `Stdin` is
/// reserved for input to a running process and nothing handles it.
#[derive(Clone, Copy, Debug, PartialEq, Eq, Structural)]
pub enum MessageType {
    Execution,
    Stdin,
}

/// One request, as decoded from the payload of a frame.
#[derive(Clone, Debug, PartialEq, Eq)]
pub struct Message {
    pub message_type: MessageType,
    /// Names the interpreter asked for. It is carried, and selects nothing.
    pub language: String,
    /// The source text to execute.
    pub code: String,
}

/// A message as a mathematical value.
pub struct MessageView {
    pub message_type: MessageType,
    pub language: Seq<char>,
    pub code: Seq<char>,
}

impl View for Message {
    type V = MessageView;

    open spec fn view(&self) -> MessageView {
        MessageView {
            message_type: self.message_type,
            language: self.language@,
            code: self.code@,
        }
    }
}

/// The message kind at the front of `src`, and the bytes it takes.
pub open spec fn kind_field(src: Seq<u8>) -> Result<(MessageType, nat), DecodeFault> {
    match varint(src, 4) {
        Err(fault) => Err(fault),
        Ok((tag, used)) => if tag == 0 {
            Ok((MessageType::Execution, used))
        } else if tag == 1 {
            Ok((MessageType::Stdin, used))
        } else {
            Err(DecodeFault::UnexpectedVariant)
        },
    }
}

/// The text at the front of `src`, and the bytes it takes with its count.
pub open spec fn text_field(src: Seq<u8>) -> Result<(Seq<char>, nat), DecodeFault> {
    match varint(src, 8) {
        Err(fault) => Err(fault),
        Ok((len, used)) => if len > usize::MAX {
            Err(DecodeFault::OutsideUsizeRange)
        } else if used + len > src.len() {
            Err(DecodeFault::UnexpectedEnd)
        } else if !valid_utf8(src.subrange(used as int, (used + len) as int)) {
            Err(DecodeFault::Utf8)
        } else {
            Ok((decode_utf8(src.subrange(used as int, (used + len) as int)), used + len))
        },
    }
}

/// The message that a payload holds. Bytes after the message are ignored.
pub open spec fn parse_message(payload: Seq<u8>) -> Result<MessageView, DecodeFault> {
    match kind_field(payload) {
        Err(fault) => Err(fault),
        Ok((message_type, n1)) => match text_field(payload.skip(n1 as int)) {
            Err(fault) => Err(fault),
            Ok((language, n2)) => match text_field(payload.skip((n1 + n2) as int)) {
                Err(fault) => Err(fault),
                Ok((code, _)) => Ok(MessageView { message_type, language, code }),
            },
        },
    }
}

/// Decodes a `String` from the front of `src` with
/// `bincode::decode_from_slice` under the standard configuration. Trusted: the
/// decoder reads the byte count as a `u64`, copies that many bytes and hands
/// them to `String::from_utf8`, so it yields the text that the bytes encode
/// with the number of bytes consumed, or the UTF-8 fault. It allocates the
/// announced count before it reads, which is why the count must already be
/// known to lie within `src`.
#[verifier::external_body]
pub(crate) fn bincode_string(src: &[u8]) -> (r: Result<(String, usize), DecodeFault>)
    requires
        varint(src@, 8) matches Ok((len, used)) && used + len <= src@.len(),
    ensures
        ({
            let (len, used) = varint(src@, 8)->Ok_0;
            let body = src@.subrange(used as int, (used + len) as int);
            if valid_utf8(body) {
                r matches Ok((text, n)) && text@ == decode_utf8(body) && n == used + len
            } else {
                r matches Err(fault) && fault == DecodeFault::Utf8
            }
        }),
{
    match bincode::decode_from_slice::<String, _>(src, bincode::config::standard()) {
        Ok(pair) => Ok(pair),
        Err(bincode::error::DecodeError::Utf8 { .. }) => Err(DecodeFault::Utf8),
        Err(_) => Err(DecodeFault::Other),
    }
}

/// Reads the message kind at the front of `src`.
pub fn decode_kind(src: &[u8]) -> (r: Result<(MessageType, usize), DecodeFault>)
    ensures
        match kind_field(src@) {
            Ok((kind, used)) => r == Ok::<(MessageType, usize), DecodeFault>(
                (kind, used as usize),
            ) && used <= src@.len(),
            Err(fault) => r == Err::<(MessageType, usize), DecodeFault>(fault),
        },
{
    proof {
        lemma_varint_bounds(src@, 4);
    }
    match bincode_u32(src) {
        Err(fault) => Err(fault),
        Ok((tag, used)) => if tag == 0 {
            Ok((MessageType::Execution, used))
        } else if tag == 1 {
            Ok((MessageType::Stdin, used))
        } else {
            Err(DecodeFault::UnexpectedVariant)
        },
    }
}

/// Reads the text at the front of `src`. A count that reaches past the end
/// of `src` is refused before anything is allocated for it.
pub fn decode_text(src: &[u8]) -> (r: Result<(String, usize), DecodeFault>)
    ensures
        match text_field(src@) {
            Ok((text, used)) => r matches Ok((s, n)) && s@ == text && n == used && used
                <= src@.len(),
            Err(fault) => r matches Err(e) && e == fault,
        },
{
    proof {
        lemma_varint_bounds(src@, 8);
    }
    match bincode_u64(src) {
        Err(fault) => Err(fault),
        Ok((len, used)) => {
            if len > usize::MAX as u64 {
                Err(DecodeFault::OutsideUsizeRange)
            } else if len as usize > src.len() - used {
                Err(DecodeFault::UnexpectedEnd)
            } else {
                bincode_string(src)
            }
        },
    }
}

/// Decodes the message that `payload` holds.
pub fn decode_message(payload: &[u8]) -> (r: Result<Message, DecodeFault>)
    ensures
        match parse_message(payload@) {
            Ok(view) => r matches Ok(message) && message@ == view,
            Err(fault) => r matches Err(e) && e == fault,
        },
{
    let (message_type, n1) = match decode_kind(payload) {
        Ok(pair) => pair,
        Err(fault) => { return Err(fault); },
    };
    let after_kind = slice_subrange(payload, n1, payload.len());
    assert(after_kind@ == payload@.skip(n1 as int));
    let (language, n2) = match decode_text(after_kind) {
        Ok(pair) => pair,
        Err(fault) => { return Err(fault); },
    };
    let after_language = slice_subrange(payload, n1 + n2, payload.len());
    assert(after_language@ == payload@.skip(n1 + n2));
    let (code, _) = match decode_text(after_language) {
        Ok(pair) => pair,
        Err(fault) => { return Err(fault); },
    };
    Ok(Message { message_type, language, code })
}

} // verus!
