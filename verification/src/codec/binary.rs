//! Writing and reading of the basic values, and the envelope of every message.

use crate::bytes::{
    copy_bytes, from_le, le, le_len, pow256_values, push_le, signed64, take_le, to_signed,
    to_unsigned,
};
use crate::codec::grammar::{counted, skip, ProtocolCodecError};
use crate::model::item::{OpaqueF32, OpaqueF64};
use crate::plugin::abi::{
    current_abi, current_plugin_abi, kind_of_tag, PluginAbiVersion, PluginKind,
};
use crate::text::{append_decimal, decimal};
use vstd::prelude::*;
use vstd::slice::slice_subrange;
use vstd::string::*;
use vstd::utf8::{decode_utf8, encode_utf8, valid_utf8};

verus! {

/// The flag of a message that answers another.
pub const PROTOCOL_FLAG_RESPONSE: u16 = 0x0001;

/// How many bytes come before the payload of a message.
pub const PLUGIN_ENVELOPE_HEADER_LEN: usize = 12;

impl ProtocolCodecError {
    /// The text of the error.
    pub open spec fn spec_message(self) -> Seq<char> {
        match self {
            ProtocolCodecError::UnexpectedEof => "unexpected end of plugin payload"@,
            ProtocolCodecError::InvalidUtf8 => "invalid utf-8 in plugin payload"@,
            ProtocolCodecError::LengthOverflow => "plugin envelope length overflow"@,
            ProtocolCodecError::InvalidEnvelope(text) => "invalid plugin envelope: "@ + text@,
            ProtocolCodecError::InvalidPluginKind(tag) => "invalid plugin kind "@ + decimal(
                tag as nat,
            ),
            ProtocolCodecError::InvalidProtocolOpCode(tag) => "invalid protocol op code "@
                + decimal(tag as nat),
            ProtocolCodecError::InvalidValue(text) => "invalid plugin payload value: "@ + text@,
            ProtocolCodecError::TrailingBytes => "plugin payload had trailing bytes"@,
        }
    }

    /// The text of the error.
    pub fn message(&self) -> (text: String)
        ensures
            text@ == self.spec_message(),
    {
        match self {
            ProtocolCodecError::UnexpectedEof => "unexpected end of plugin payload".to_string(),
            ProtocolCodecError::InvalidUtf8 => "invalid utf-8 in plugin payload".to_string(),
            ProtocolCodecError::LengthOverflow => "plugin envelope length overflow".to_string(),
            ProtocolCodecError::InvalidEnvelope(detail) => {
                let mut text = "invalid plugin envelope: ".to_string();
                text.append(*detail);
                text
            },
            ProtocolCodecError::InvalidPluginKind(tag) => {
                let mut text = "invalid plugin kind ".to_string();
                append_decimal(&mut text, *tag as u64);
                text
            },
            ProtocolCodecError::InvalidProtocolOpCode(tag) => {
                let mut text = "invalid protocol op code ".to_string();
                append_decimal(&mut text, *tag as u64);
                text
            },
            ProtocolCodecError::InvalidValue(detail) => {
                let mut text = "invalid plugin payload value: ".to_string();
                text.append(*detail);
                text
            },
            ProtocolCodecError::TrailingBytes => "plugin payload had trailing bytes".to_string(),
        }
    }
}

/// The text that bytes spell, if they are valid. Calls [`String::from_utf8`], of which the
/// contract claims that it accepts exactly valid UTF-8 and decodes it.
#[verifier::external_body]
fn string_from_utf8(bytes: Vec<u8>) -> (result: Option<String>)
    ensures
        match result {
            Some(text) => valid_utf8(bytes@) && text@ == decode_utf8(bytes@),
            None => !valid_utf8(bytes@),
        },
{
    String::from_utf8(bytes).ok()
}

/// What comes before the payload of a message.
#[derive(Clone, Copy, Debug, PartialEq, Eq, Structural)]
pub struct EnvelopeHeader {
    pub abi: PluginAbiVersion,
    pub plugin_kind: PluginKind,
    pub op_code: u8,
    pub flags: u16,
    pub payload_len: u32,
}

impl EnvelopeHeader {
    /// The bytes of the header.
    pub open spec fn wire(self) -> Seq<u8> {
        le(self.abi.major as nat, 2) + le(self.abi.minor as nat, 2) + seq![
            self.plugin_kind.spec_tag(),
            self.op_code,
        ] + le(self.flags as nat, 2) + le(self.payload_len as nat, 4)
    }
}

/// Bytes in the making.
pub struct Encoder {
    bytes: Vec<u8>,
}

impl View for Encoder {
    type V = Seq<u8>;

    closed spec fn view(&self) -> Seq<u8> {
        self.bytes@
    }
}

impl Default for Encoder {
    fn default() -> (result: Self)
        ensures
            result@ == Seq::<u8>::empty(),
    {
        Encoder { bytes: Vec::new() }
    }
}

impl Encoder {
    /// An encoder that holds the header of a message.
    pub fn with_header(header: EnvelopeHeader) -> (result: Self)
        ensures
            result@ == header.wire(),
    {
        let mut encoder = Encoder { bytes: Vec::new() };
        encoder.write_u16(header.abi.major);
        encoder.write_u16(header.abi.minor);
        encoder.write_u8(header.plugin_kind.tag());
        encoder.write_u8(header.op_code);
        encoder.write_u16(header.flags);
        encoder.write_u32(header.payload_len);
        assert(encoder@ =~= header.wire());
        encoder
    }

    /// The bytes that were written.
    pub fn into_inner(self) -> (result: Vec<u8>)
        ensures
            result@ == self@,
    {
        self.bytes
    }

    pub fn write_u8(&mut self, value: u8)
        ensures
            final(self)@ == old(self)@.push(value),
    {
        self.bytes.push(value);
    }

    pub fn write_i8(&mut self, value: i8)
        ensures
            final(self)@ == old(self)@ + le(to_unsigned(value as int, 1), 1),
    {
        broadcast use pow256_values;

        let raw: u64 = if value < 0 {
            (value as i64 + 0x100) as u64
        } else {
            value as u64
        };
        push_le(&mut self.bytes, raw, 1);
    }

    pub fn write_bool(&mut self, value: bool)
        ensures
            final(self)@ == old(self)@.push(
                if value {
                    1u8
                } else {
                    0u8
                },
            ),
    {
        self.bytes.push(
            if value {
                1
            } else {
                0
            },
        );
    }

    pub fn write_u16(&mut self, value: u16)
        ensures
            final(self)@ == old(self)@ + le(value as nat, 2),
    {
        push_le(&mut self.bytes, value as u64, 2);
    }

    pub fn write_i16(&mut self, value: i16)
        ensures
            final(self)@ == old(self)@ + le(to_unsigned(value as int, 2), 2),
    {
        broadcast use pow256_values;

        let raw: u64 = if value < 0 {
            (value as i64 + 0x1_0000) as u64
        } else {
            value as u64
        };
        push_le(&mut self.bytes, raw, 2);
    }

    pub fn write_u32(&mut self, value: u32)
        ensures
            final(self)@ == old(self)@ + le(value as nat, 4),
    {
        push_le(&mut self.bytes, value as u64, 4);
    }

    pub fn write_i32(&mut self, value: i32)
        ensures
            final(self)@ == old(self)@ + le(to_unsigned(value as int, 4), 4),
    {
        broadcast use pow256_values;

        let raw: u64 = if value < 0 {
            (value as i64 + 0x1_0000_0000) as u64
        } else {
            value as u64
        };
        push_le(&mut self.bytes, raw, 4);
    }

    pub fn write_u64(&mut self, value: u64)
        ensures
            final(self)@ == old(self)@ + le(value as nat, 8),
    {
        push_le(&mut self.bytes, value, 8);
    }

    pub fn write_i64(&mut self, value: i64)
        ensures
            final(self)@ == old(self)@ + le(to_unsigned(value as int, 8), 8),
    {
        let raw: u64 = crate::bytes::unsigned64(value);
        push_le(&mut self.bytes, raw, 8);
    }

    /// Writes the bit pattern of a single-precision number.
    pub fn write_f32(&mut self, value: OpaqueF32)
        ensures
            final(self)@ == old(self)@ + le(value.0 as nat, 4),
    {
        self.write_u32(value.0);
    }

    /// Writes the bit pattern of a double-precision number.
    pub fn write_f64(&mut self, value: OpaqueF64)
        ensures
            final(self)@ == old(self)@ + le(value.0 as nat, 8),
    {
        self.write_u64(value.0);
    }

    /// Writes a length, if four bytes hold it.
    pub fn write_len(&mut self, value: usize) -> (result: Result<(), ProtocolCodecError>)
        ensures
            if value <= u32::MAX {
                result is Ok && final(self)@ == old(self)@ + le(value as nat, 4)
            } else {
                result == Err::<(), ProtocolCodecError>(ProtocolCodecError::LengthOverflow)
                    && final(self)@ == old(self)@
            },
    {
        if value > u32::MAX as usize {
            return Err(ProtocolCodecError::LengthOverflow);
        }
        self.write_u32(value as u32);
        Ok(())
    }

    /// Writes the length of a text and the text.
    pub fn write_string(&mut self, value: &str) -> (result: Result<(), ProtocolCodecError>)
        ensures
            ({
                let bytes = encode_utf8(value@);
                if bytes.len() <= u32::MAX {
                    result is Ok && final(self)@ == old(self)@ + le(bytes.len(), 4) + bytes
                } else {
                    result == Err::<(), ProtocolCodecError>(ProtocolCodecError::LengthOverflow)
                        && final(self)@ == old(self)@
                }
            }),
    {
        self.write_bytes(value.as_bytes())
    }

    /// Writes the length of some bytes and the bytes.
    pub fn write_bytes(&mut self, value: &[u8]) -> (result: Result<(), ProtocolCodecError>)
        ensures
            if value@.len() <= u32::MAX {
                result is Ok && final(self)@ == old(self)@ + le(value@.len(), 4) + value@
            } else {
                result == Err::<(), ProtocolCodecError>(ProtocolCodecError::LengthOverflow)
                    && final(self)@ == old(self)@
            },
    {
        self.write_len(value.len())?;
        self.write_raw(value);
        Ok(())
    }

    /// Writes bytes as they are.
    pub fn write_raw(&mut self, value: &[u8])
        ensures
            final(self)@ == old(self)@ + value@,
    {
        self.bytes.extend_from_slice(value);
        assert(self.bytes@ =~= old(self).bytes@ + value@);
    }
}

/// Bytes in the course of being read.
pub struct Decoder<'a> {
    bytes: &'a [u8],
    cursor: usize,
}

impl<'a> View for Decoder<'a> {
    type V = Seq<u8>;

    /// The bytes that are left.
    closed spec fn view(&self) -> Seq<u8> {
        self.bytes@.subrange(self.cursor as int, self.bytes@.len() as int)
    }
}

/// Whether reading `width` bytes moved past them, or failed because they are not there.
pub open spec fn took(before: Seq<u8>, after: Seq<u8>, width: int, success: bool) -> bool {
    &&& success == (before.len() >= width)
    &&& after == if success {
        skip(before, width)
    } else {
        before
    }
}

/// What is left after a length, where there is one.
pub open spec fn past_length(s: Seq<u8>) -> Seq<u8> {
    if s.len() < 4 {
        s
    } else {
        skip(s, 4)
    }
}

impl<'a> Decoder<'a> {
    /// Whether the cursor lies within the bytes.
    pub closed spec fn wf(&self) -> bool {
        self.cursor <= self.bytes@.len()
    }

    /// A decoder at the start of `bytes`.
    pub fn new(bytes: &'a [u8]) -> (result: Self)
        ensures
            result.wf(),
            result@ == bytes@,
    {
        let result = Decoder { bytes, cursor: 0 };
        assert(result@ =~= bytes@);
        result
    }

    /// Checks that nothing is left.
    pub fn finish(&self) -> (result: Result<(), ProtocolCodecError>)
        requires
            self.wf(),
        ensures
            result == if self@.len() == 0 {
                Ok::<(), ProtocolCodecError>(())
            } else {
                Err(ProtocolCodecError::TrailingBytes)
            },
    {
        if self.cursor == self.bytes.len() {
            Ok(())
        } else {
            Err(ProtocolCodecError::TrailingBytes)
        }
    }

    /// How many bytes are left.
    pub fn remaining(&self) -> (result: usize)
        requires
            self.wf(),
        ensures
            result == self@.len(),
    {
        self.bytes.len() - self.cursor
    }

    fn advance(&mut self, len: usize) -> (result: Result<usize, ProtocolCodecError>)
        requires
            old(self).wf(),
        ensures
            final(self).wf(),
            final(self).bytes == old(self).bytes,
            took(old(self)@, final(self)@, len as int, result is Ok),
            match result {
                Ok(start) => start == old(self).cursor && start + len <= old(self).bytes@.len()
                    && final(self).cursor == start + len,
                Err(e) => e == ProtocolCodecError::UnexpectedEof,
            },
    {
        if len > self.bytes.len() - self.cursor {
            return Err(ProtocolCodecError::UnexpectedEof);
        }
        let start: usize = self.cursor;
        self.cursor = start + len;
        assert(self@ =~= skip(old(self)@, len as int));
        Ok(start)
    }

    fn read_le(&mut self, width: usize) -> (result: Result<u64, ProtocolCodecError>)
        requires
            old(self).wf(),
            width <= 8,
        ensures
            final(self).wf(),
            took(old(self)@, final(self)@, width as int, result is Ok),
            match result {
                Ok(value) => value as nat == from_le(old(self)@.subrange(0, width as int)) && (
                value as nat) < crate::bytes::pow256(width as nat),
                Err(e) => e == ProtocolCodecError::UnexpectedEof,
            },
    {
        let start: usize = self.advance(width)?;
        proof {
            assert(old(self)@.subrange(0, width as int) =~= self.bytes@.subrange(
                start as int,
                start + width,
            ));
        }
        Ok(take_le(self.bytes, start, width))
    }

    pub fn read_u8(&mut self) -> (result: Result<u8, ProtocolCodecError>)
        requires
            old(self).wf(),
        ensures
            final(self).wf(),
            took(old(self)@, final(self)@, 1, result is Ok),
            match result {
                Ok(value) => value == old(self)@[0],
                Err(e) => e == ProtocolCodecError::UnexpectedEof,
            },
    {
        let start: usize = self.advance(1)?;
        Ok(self.bytes[start])
    }

    pub fn read_i8(&mut self) -> (result: Result<i8, ProtocolCodecError>)
        requires
            old(self).wf(),
        ensures
            final(self).wf(),
            took(old(self)@, final(self)@, 1, result is Ok),
            match result {
                Ok(value) => value as int == to_signed(from_le(old(self)@.subrange(0, 1)), 1),
                Err(e) => e == ProtocolCodecError::UnexpectedEof,
            },
    {
        broadcast use pow256_values;

        let raw: u64 = self.read_le(1)?;
        if raw >= 0x80 {
            Ok((raw as i64 - 0x100) as i8)
        } else {
            Ok(raw as i8)
        }
    }

    pub fn read_bool(&mut self) -> (result: Result<bool, ProtocolCodecError>)
        requires
            old(self).wf(),
        ensures
            final(self).wf(),
            match result {
                Ok(value) => old(self)@.len() >= 1 && old(self)@[0] == (if value {
                    1u8
                } else {
                    0u8
                }),
                Err(e) => if old(self)@.len() < 1 {
                    e == ProtocolCodecError::UnexpectedEof
                } else {
                    old(self)@[0] > 1 && e == ProtocolCodecError::InvalidValue("invalid bool tag")
                },
            },
            final(self)@ == if old(self)@.len() < 1 {
                old(self)@
            } else {
                skip(old(self)@, 1)
            },
    {
        match self.read_u8()? {
            0 => Ok(false),
            1 => Ok(true),
            _ => Err(ProtocolCodecError::InvalidValue("invalid bool tag")),
        }
    }

    pub fn read_u16(&mut self) -> (result: Result<u16, ProtocolCodecError>)
        requires
            old(self).wf(),
        ensures
            final(self).wf(),
            took(old(self)@, final(self)@, 2, result is Ok),
            match result {
                Ok(value) => value as nat == from_le(old(self)@.subrange(0, 2)),
                Err(e) => e == ProtocolCodecError::UnexpectedEof,
            },
    {
        broadcast use pow256_values;

        Ok(self.read_le(2)? as u16)
    }

    pub fn read_i16(&mut self) -> (result: Result<i16, ProtocolCodecError>)
        requires
            old(self).wf(),
        ensures
            final(self).wf(),
            took(old(self)@, final(self)@, 2, result is Ok),
            match result {
                Ok(value) => value as int == to_signed(from_le(old(self)@.subrange(0, 2)), 2),
                Err(e) => e == ProtocolCodecError::UnexpectedEof,
            },
    {
        broadcast use pow256_values;

        let raw: u64 = self.read_le(2)?;
        if raw >= 0x8000 {
            Ok((raw as i64 - 0x1_0000) as i16)
        } else {
            Ok(raw as i16)
        }
    }

    pub fn read_u32(&mut self) -> (result: Result<u32, ProtocolCodecError>)
        requires
            old(self).wf(),
        ensures
            final(self).wf(),
            took(old(self)@, final(self)@, 4, result is Ok),
            match result {
                Ok(value) => value as nat == from_le(old(self)@.subrange(0, 4)),
                Err(e) => e == ProtocolCodecError::UnexpectedEof,
            },
    {
        broadcast use pow256_values;

        Ok(self.read_le(4)? as u32)
    }

    pub fn read_i32(&mut self) -> (result: Result<i32, ProtocolCodecError>)
        requires
            old(self).wf(),
        ensures
            final(self).wf(),
            took(old(self)@, final(self)@, 4, result is Ok),
            match result {
                Ok(value) => value as int == to_signed(from_le(old(self)@.subrange(0, 4)), 4),
                Err(e) => e == ProtocolCodecError::UnexpectedEof,
            },
    {
        broadcast use pow256_values;

        let raw: u64 = self.read_le(4)?;
        if raw >= 0x8000_0000 {
            Ok((raw as i64 - 0x1_0000_0000) as i32)
        } else {
            Ok(raw as i32)
        }
    }

    pub fn read_u64(&mut self) -> (result: Result<u64, ProtocolCodecError>)
        requires
            old(self).wf(),
        ensures
            final(self).wf(),
            took(old(self)@, final(self)@, 8, result is Ok),
            match result {
                Ok(value) => value as nat == from_le(old(self)@.subrange(0, 8)),
                Err(e) => e == ProtocolCodecError::UnexpectedEof,
            },
    {
        self.read_le(8)
    }

    pub fn read_i64(&mut self) -> (result: Result<i64, ProtocolCodecError>)
        requires
            old(self).wf(),
        ensures
            final(self).wf(),
            took(old(self)@, final(self)@, 8, result is Ok),
            match result {
                Ok(value) => value as int == to_signed(from_le(old(self)@.subrange(0, 8)), 8),
                Err(e) => e == ProtocolCodecError::UnexpectedEof,
            },
    {
        Ok(signed64(self.read_le(8)?))
    }

    /// Reads the bit pattern of a single-precision number.
    pub fn read_f32(&mut self) -> (result: Result<OpaqueF32, ProtocolCodecError>)
        requires
            old(self).wf(),
        ensures
            final(self).wf(),
            took(old(self)@, final(self)@, 4, result is Ok),
            match result {
                Ok(value) => value.0 as nat == from_le(old(self)@.subrange(0, 4)),
                Err(e) => e == ProtocolCodecError::UnexpectedEof,
            },
    {
        Ok(OpaqueF32(self.read_u32()?))
    }

    /// Reads the bit pattern of a double-precision number.
    pub fn read_f64(&mut self) -> (result: Result<OpaqueF64, ProtocolCodecError>)
        requires
            old(self).wf(),
        ensures
            final(self).wf(),
            took(old(self)@, final(self)@, 8, result is Ok),
            match result {
                Ok(value) => value.0 as nat == from_le(old(self)@.subrange(0, 8)),
                Err(e) => e == ProtocolCodecError::UnexpectedEof,
            },
    {
        Ok(OpaqueF64(self.read_u64()?))
    }

    /// Reads a length.
    pub fn read_len(&mut self) -> (result: Result<usize, ProtocolCodecError>)
        requires
            old(self).wf(),
        ensures
            final(self).wf(),
            took(old(self)@, final(self)@, 4, result is Ok),
            match result {
                Ok(value) => value as nat == from_le(old(self)@.subrange(0, 4)) && value
                    <= u32::MAX,
                Err(e) => e == ProtocolCodecError::UnexpectedEof,
            },
    {
        Ok(self.read_u32()? as usize)
    }

    /// Reads the length of some bytes and the bytes.
    pub fn read_bytes(&mut self) -> (result: Result<Vec<u8>, ProtocolCodecError>)
        requires
            old(self).wf(),
        ensures
            final(self).wf(),
            match counted(old(self)@) {
                Ok((bytes, rest)) => result matches Ok(value) && value@ == bytes && final(self)@
                    == rest,
                Err(e) => result == Err::<Vec<u8>, ProtocolCodecError>(e) && final(self)@
                    == past_length(old(self)@),
            },
    {
        let len: usize = self.read_len()?;
        let ghost middle = self@;
        let bytes = self.read_raw(len)?;
        proof {
            assert(middle.subrange(0, len as int) =~= old(self)@.subrange(4, 4 + len as int));
            assert(self@ =~= skip(old(self)@, 4 + len as int));
        }
        Ok(copy_bytes(bytes))
    }

    /// Reads the length of a text and the text.
    pub fn read_string(&mut self) -> (result: Result<String, ProtocolCodecError>)
        requires
            old(self).wf(),
        ensures
            final(self).wf(),
            match counted(old(self)@) {
                Ok((bytes, rest)) => final(self)@ == rest && if valid_utf8(bytes) {
                    result matches Ok(text) && text@ == decode_utf8(bytes)
                } else {
                    result == Err::<String, ProtocolCodecError>(ProtocolCodecError::InvalidUtf8)
                },
                Err(e) => result == Err::<String, ProtocolCodecError>(e) && final(self)@
                    == past_length(old(self)@),
            },
    {
        let bytes = self.read_bytes()?;
        match string_from_utf8(bytes) {
            Some(text) => Ok(text),
            None => Err(ProtocolCodecError::InvalidUtf8),
        }
    }

    /// Reads bytes as they are.
    pub fn read_raw(&mut self, len: usize) -> (result: Result<&'a [u8], ProtocolCodecError>)
        requires
            old(self).wf(),
        ensures
            final(self).wf(),
            took(old(self)@, final(self)@, len as int, result is Ok),
            match result {
                Ok(bytes) => bytes@ == old(self)@.subrange(0, len as int),
                Err(e) => e == ProtocolCodecError::UnexpectedEof,
            },
    {
        let start: usize = self.advance(len)?;
        proof {
            assert(old(self)@.subrange(0, len as int) =~= self.bytes@.subrange(
                start as int,
                start + len,
            ));
        }
        Ok(slice_subrange(self.bytes, start, self.cursor))
    }

    /// Reads a fixed number of bytes.
    pub fn read_exact<const N: usize>(&mut self) -> (result: Result<[u8; N], ProtocolCodecError>)
        requires
            old(self).wf(),
        ensures
            final(self).wf(),
            took(old(self)@, final(self)@, N as int, result is Ok),
            match result {
                Ok(bytes) => bytes@ == old(self)@.subrange(0, N as int),
                Err(e) => e == ProtocolCodecError::UnexpectedEof,
            },
    {
        let bytes = self.read_raw(N)?;
        let mut array: [u8; N] = [0; N];
        let mut i: usize = 0;
        while i < N
            invariant
                i <= N,
                bytes@.len() == N,
                array@.len() == N,
                forall|j: int| 0 <= j < i ==> #[trigger] array@[j] == bytes@[j],
            decreases N - i,
        {
            array[i] = bytes[i];
            i += 1;
        }
        assert(array@ =~= bytes@);
        Ok(array)
    }
}

/// Puts a payload behind a header that names its length.
pub fn encode_envelope(header: EnvelopeHeader, payload: &[u8]) -> (result: Result<
    Vec<u8>,
    ProtocolCodecError,
>)
    ensures
        if payload@.len() == header.payload_len {
            result matches Ok(message) && message@ == header.wire() + payload@
        } else {
            result == Err::<Vec<u8>, ProtocolCodecError>(
                ProtocolCodecError::InvalidEnvelope("payload length did not match header"),
            )
        },
{
    if header.payload_len as usize != payload.len() {
        return Err(ProtocolCodecError::InvalidEnvelope("payload length did not match header"));
    }
    let mut encoder = Encoder::with_header(header);
    encoder.write_raw(payload);
    Ok(encoder.into_inner())
}

/// The header and the payload of a message, or why it is none.
pub open spec fn envelope(s: Seq<u8>) -> Result<(EnvelopeHeader, Seq<u8>), ProtocolCodecError> {
    if s.len() < 12 {
        Err(ProtocolCodecError::InvalidEnvelope("message shorter than header"))
    } else {
        match kind_of_tag(s[4]) {
            None => Err(ProtocolCodecError::InvalidPluginKind(s[4])),
            Some(plugin_kind) => {
                let abi = PluginAbiVersion {
                    major: from_le(s.subrange(0, 2)) as u16,
                    minor: from_le(s.subrange(2, 4)) as u16,
                };
                let payload_len = from_le(s.subrange(8, 12)) as u32;
                if abi != current_abi() {
                    Err(ProtocolCodecError::InvalidEnvelope("plugin ABI version mismatch"))
                } else if s.len() != 12 + payload_len {
                    Err(
                        ProtocolCodecError::InvalidEnvelope(
                            "payload length did not match message size",
                        ),
                    )
                } else {
                    Ok(
                        (
                            EnvelopeHeader {
                                abi,
                                plugin_kind,
                                op_code: s[5],
                                flags: from_le(s.subrange(6, 8)) as u16,
                                payload_len,
                            },
                            skip(s, 12),
                        ),
                    )
                }
            },
        }
    }
}

/// Takes a message apart into its header and its payload.
pub fn decode_envelope<'a>(bytes: &'a [u8]) -> (result: Result<
    (EnvelopeHeader, &'a [u8]),
    ProtocolCodecError,
>)
    ensures
        match envelope(bytes@) {
            Ok((header, payload)) => result matches Ok((h, p)) && h == header && p@ == payload,
            Err(e) => result == Err::<(EnvelopeHeader, &'a [u8]), ProtocolCodecError>(e),
        },
{
    if bytes.len() < PLUGIN_ENVELOPE_HEADER_LEN {
        return Err(ProtocolCodecError::InvalidEnvelope("message shorter than header"));
    }
    let mut decoder = Decoder::new(bytes);
    let major: u16 = decoder.read_u16()?;
    let minor: u16 = decoder.read_u16()?;
    proof {
        assert(skip(bytes@, 2).subrange(0, 2) =~= bytes@.subrange(2, 4));
    }
    let tag: u8 = decoder.read_u8()?;
    let plugin_kind = PluginKind::try_from(tag)?;
    let op_code: u8 = decoder.read_u8()?;
    let flags: u16 = decoder.read_u16()?;
    let payload_len: u32 = decoder.read_u32()?;
    proof {
        let s = bytes@;
        assert(skip(skip(s, 2), 2) =~= skip(s, 4));
        assert(skip(skip(s, 4), 1) =~= skip(s, 5));
        assert(skip(skip(s, 5), 1) =~= skip(s, 6));
        assert(skip(skip(s, 6), 2) =~= skip(s, 8));
        assert(skip(s, 6).subrange(0, 2) =~= s.subrange(6, 8));
        assert(skip(s, 8).subrange(0, 4) =~= s.subrange(8, 12));
    }
    let abi = PluginAbiVersion { major, minor };
    if abi != current_plugin_abi() {
        return Err(ProtocolCodecError::InvalidEnvelope("plugin ABI version mismatch"));
    }
    if bytes.len() - PLUGIN_ENVELOPE_HEADER_LEN != payload_len as usize {
        return Err(
            ProtocolCodecError::InvalidEnvelope("payload length did not match message size"),
        );
    }
    Ok(
        (
            EnvelopeHeader { abi, plugin_kind, op_code, flags, payload_len },
            slice_subrange(bytes, PLUGIN_ENVELOPE_HEADER_LEN, bytes.len()),
        ),
    )
}

/// Taking a message apart gives back the header and the payload it was put together from.
pub proof fn envelope_round_trip(header: EnvelopeHeader, payload: Seq<u8>)
    requires
        header.abi == current_abi(),
        header.payload_len == payload.len(),
    ensures
        envelope(header.wire() + payload) == Ok::<(EnvelopeHeader, Seq<u8>), ProtocolCodecError>(
            (header, payload),
        ),
{
    broadcast use le_len, pow256_values;

    let s = header.wire() + payload;
    crate::bytes::from_le_of_le(header.abi.major as nat, 2);
    crate::bytes::from_le_of_le(header.abi.minor as nat, 2);
    crate::bytes::from_le_of_le(header.flags as nat, 2);
    crate::bytes::from_le_of_le(header.payload_len as nat, 4);
    assert(s.subrange(0, 2) =~= le(header.abi.major as nat, 2));
    assert(s.subrange(2, 4) =~= le(header.abi.minor as nat, 2));
    assert(s.subrange(6, 8) =~= le(header.flags as nat, 2));
    assert(s.subrange(8, 12) =~= le(header.payload_len as nat, 4));
    assert(skip(s, 12) =~= payload);
}

} // verus!
