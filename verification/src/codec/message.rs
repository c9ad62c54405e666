//! Messages: payloads of a format in an envelope.

use crate::codec::binary::{
    decode_envelope, encode_envelope, envelope, envelope_round_trip, EnvelopeHeader,
    PROTOCOL_FLAG_RESPONSE,
};
use crate::codec::grammar::{
    fits, orderly, parse, parse_inverts_serialize, serialize, Format, ProtocolCodecError, Value,
};
use crate::codec::wire::append;
use crate::plugin::abi::{current_abi, current_plugin_abi, PluginKind};
use vstd::prelude::*;

verus! {

/// The flags of a message.
pub open spec fn flags_of(response: bool) -> u16 {
    if response {
        PROTOCOL_FLAG_RESPONSE
    } else {
        0
    }
}

/// A payload in its envelope.
pub open spec fn message(kind: PluginKind, op: u8, response: bool, payload: Seq<u8>) -> Seq<u8> {
    EnvelopeHeader {
        abi: current_abi(),
        plugin_kind: kind,
        op_code: op,
        flags: flags_of(response),
        payload_len: payload.len() as u32,
    }.wire() + payload
}

/// The message that carries a value, or the error of one that is too large.
pub open spec fn sealed(kind: PluginKind, op: u8, response: bool, f: Format, v: Value) -> Result<
    Seq<u8>,
    ProtocolCodecError,
> {
    let payload = append(Seq::empty(), f, v);
    if fits(f, v) && payload.len() <= u32::MAX {
        Ok(message(kind, op, response, payload))
    } else {
        Err(ProtocolCodecError::LengthOverflow)
    }
}

/// What a list of bytes or an error says.
pub open spec fn bytes_view(result: Result<Vec<u8>, ProtocolCodecError>) -> Result<
    Seq<u8>,
    ProtocolCodecError,
> {
    match result {
        Ok(bytes) => Ok(bytes@),
        Err(e) => Err(e),
    }
}

/// Puts a payload into its envelope.
pub fn seal(kind: PluginKind, op: u8, response: bool, payload: &Vec<u8>) -> (result: Result<
    Vec<u8>,
    ProtocolCodecError,
>)
    ensures
        bytes_view(result) == if payload@.len() <= u32::MAX {
            Ok::<Seq<u8>, ProtocolCodecError>(message(kind, op, response, payload@))
        } else {
            Err(ProtocolCodecError::LengthOverflow)
        },
{
    if payload.len() > u32::MAX as usize {
        return Err(ProtocolCodecError::LengthOverflow);
    }
    let header = EnvelopeHeader {
        abi: current_plugin_abi(),
        plugin_kind: kind,
        op_code: op,
        flags: if response {
            PROTOCOL_FLAG_RESPONSE
        } else {
            0
        },
        payload_len: payload.len() as u32,
    };
    encode_envelope(header, payload.as_slice())
}

/// The operation and the payload of a message of a kind, or why it is none.
pub open spec fn opened(
    s: Seq<u8>,
    kind: PluginKind,
    response: bool,
    wrong_kind: &'static str,
    wrong_flag: &'static str,
) -> Result<(u8, Seq<u8>), ProtocolCodecError> {
    match envelope(s) {
        Err(e) => Err(e),
        Ok((header, payload)) => if header.plugin_kind != kind {
            Err(ProtocolCodecError::InvalidEnvelope(wrong_kind))
        } else if (header.flags % 2 == 1) != response {
            Err(ProtocolCodecError::InvalidEnvelope(wrong_flag))
        } else {
            Ok((header.op_code, payload))
        },
    }
}

/// Takes a message of a kind out of its envelope.
pub fn open_message<'a>(
    bytes: &'a [u8],
    kind: PluginKind,
    response: bool,
    wrong_kind: &'static str,
    wrong_flag: &'static str,
) -> (result: Result<(u8, &'a [u8]), ProtocolCodecError>)
    ensures
        match opened(bytes@, kind, response, wrong_kind, wrong_flag) {
            Ok((op, payload)) => result matches Ok((o, p)) && o == op && p@ == payload,
            Err(e) => result == Err::<(u8, &'a [u8]), ProtocolCodecError>(e),
        },
{
    let (header, payload) = decode_envelope(bytes)?;
    if header.plugin_kind != kind {
        return Err(ProtocolCodecError::InvalidEnvelope(wrong_kind));
    }
    let flags: u16 = header.flags;
    assert((flags & 0x0001 != 0) == (flags % 2 == 1)) by (bit_vector);
    if (flags & PROTOCOL_FLAG_RESPONSE != 0) != response {
        return Err(ProtocolCodecError::InvalidEnvelope(wrong_flag));
    }
    Ok((header.op_code, payload))
}

/// What a payload means in a format that takes all of it.
pub open spec fn whole(f: Format, payload: Seq<u8>) -> Result<Value, ProtocolCodecError> {
    match parse(f, payload) {
        Err(e) => Err(e),
        Ok((v, rest)) => if rest.len() == 0 {
            Ok(v)
        } else {
            Err(ProtocolCodecError::TrailingBytes)
        },
    }
}

/// A message that was put together is taken apart again: its operation and, in its format, its
/// value, if it is orderly, come back.
pub proof fn message_round_trip(
    kind: PluginKind,
    op: u8,
    response: bool,
    f: Format,
    v: Value,
    wrong_kind: &'static str,
    wrong_flag: &'static str,
)
    requires
        sealed(kind, op, response, f, v) is Ok,
        orderly(f, v),
    ensures
        ({
            let m = sealed(kind, op, response, f, v)->Ok_0;
            let payload = append(Seq::empty(), f, v);
            &&& opened(m, kind, response, wrong_kind, wrong_flag) == Ok::<
                (u8, Seq<u8>),
                ProtocolCodecError,
            >((op, payload))
            &&& whole(f, payload) == Ok::<Value, ProtocolCodecError>(v)
        }),
{
    let payload = append(Seq::empty(), f, v);
    let header = EnvelopeHeader {
        abi: current_abi(),
        plugin_kind: kind,
        op_code: op,
        flags: flags_of(response),
        payload_len: payload.len() as u32,
    };
    envelope_round_trip(header, payload);
    reveal(append);
    parse_inverts_serialize(f, v, Seq::empty());
    assert(payload =~= serialize(f, v));
    assert(serialize(f, v) + Seq::<u8>::empty() =~= serialize(f, v));
}

} // verus!
