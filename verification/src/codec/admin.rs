//! Messages for administrators: payloads that others write and read, in envelopes.

use crate::codec::binary::{envelope_round_trip, EnvelopeHeader};
use crate::codec::grammar::ProtocolCodecError;
use crate::codec::message::{bytes_view, flags_of, message, opened, seal};
use crate::plugin::abi::{current_abi, PluginKind};
use vstd::prelude::*;

verus! {

/// How much of a running server is loaded again.
#[derive(Clone, Copy, Debug, PartialEq, Eq, Structural)]
pub enum RuntimeReloadMode {
    Artifacts,
    Topology,
    Core,
    Full,
}

/// A payload in its envelope, or the error of one that could not be written or is too large.
pub open spec fn framed(
    kind: PluginKind,
    op: u8,
    response: bool,
    payload: Option<Seq<u8>>,
    unwritten: &'static str,
) -> Result<Seq<u8>, ProtocolCodecError> {
    match payload {
        None => Err(ProtocolCodecError::InvalidValue(unwritten)),
        Some(payload) => if payload.len() <= u32::MAX {
            Ok(message(kind, op, response, payload))
        } else {
            Err(ProtocolCodecError::LengthOverflow)
        },
    }
}

/// The bytes of a payload, if it could be written.
pub open spec fn payload_view(payload: Option<Vec<u8>>) -> Option<Seq<u8>> {
    match payload {
        Some(bytes) => Some(bytes@),
        None => None,
    }
}

/// Puts a payload, if it could be written, into its envelope.
pub fn frame(
    kind: PluginKind,
    op: u8,
    response: bool,
    payload: Option<Vec<u8>>,
    unwritten: &'static str,
) -> (result: Result<Vec<u8>, ProtocolCodecError>)
    ensures
        bytes_view(result) == framed(kind, op, response, payload_view(payload), unwritten),
{
    match payload {
        None => Err(ProtocolCodecError::InvalidValue(unwritten)),
        Some(bytes) => seal(kind, op, response, &bytes),
    }
}

/// What was put into an envelope comes out of it.
pub proof fn frame_round_trip(
    kind: PluginKind,
    op: u8,
    response: bool,
    payload: Seq<u8>,
    wrong_kind: &'static str,
    wrong_flag: &'static str,
)
    requires
        payload.len() <= u32::MAX,
    ensures
        opened(
            message(kind, op, response, payload),
            kind,
            response,
            wrong_kind,
            wrong_flag,
        ) == Ok::<
            (u8, Seq<u8>),
            ProtocolCodecError,
        >((op, payload)),
{
    let header = EnvelopeHeader {
        abi: current_abi(),
        plugin_kind: kind,
        op_code: op,
        flags: flags_of(response),
        payload_len: payload.len() as u32,
    };
    envelope_round_trip(header, payload);
}

} // verus!
