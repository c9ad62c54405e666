//! Messages to and from protocol plugins.

use crate::codec::basic::{decode_frames, encode_frames, frame_values};
use crate::codec::binary::{Decoder, Encoder};
use crate::codec::grammar::{both, list, pair, plain_is_orderly, Format, ProtocolCodecError, Value};
use crate::codec::placement::{event_is_orderly, event_placed, orderly_pair, plain_rules};
use crate::codec::capability::{
    announcement_is_orderly, decode_capability_announcement, encode_capability_announcement,
};
use crate::model::capability::{CapabilityAnnouncement, CapabilityVocabulary};
use crate::model::event::{CoreEvent, RuntimeCommand};
use crate::model::player::PlayerSnapshot;
use crate::model::session::{
    BedrockListenerDescriptor, ConnectionPhase, HandshakeIntent, LoginRequest, PlayEncodingContext,
    ProtocolDescriptor, ProtocolSessionSnapshot, ServerListStatus, StatusRequest,
    WireFrameDecodeResult,
};
use crate::codec::message::{
    bytes_view, message_round_trip, open_message, opened, seal, sealed, whole,
};
use crate::codec::wire::{compound_rules, decode_bytes, encode_bytes, read, written, Wire};
use crate::plugin::abi::PluginKind;
use vstd::prelude::*;

verus! {

broadcast use compound_rules;

/// The operations of protocol plugins.
#[derive(Clone, Copy, Debug, PartialEq, Eq, Structural)]
pub enum ProtocolOpCode {
    Describe,
    DescribeBedrockListener,
    CapabilitySet,
    TryRoute,
    DecodeStatus,
    DecodeLogin,
    EncodeStatusResponse,
    EncodeStatusPong,
    EncodeDisconnect,
    EncodeEncryptionRequest,
    EncodeNetworkSettings,
    EncodeLoginSuccess,
    DecodePlay,
    EncodePlayEvent,
    ExportSessionState,
    ImportSessionState,
    EncodeWireFrame,
    TryDecodeWireFrame,
    SessionClosed,
}

/// The operation with a given number, if there is one.
pub open spec fn protocol_op_of(code: u8) -> Option<ProtocolOpCode> {
    if code == 1 {
        Some(ProtocolOpCode::Describe)
    } else if code == 2 {
        Some(ProtocolOpCode::DescribeBedrockListener)
    } else if code == 3 {
        Some(ProtocolOpCode::CapabilitySet)
    } else if code == 4 {
        Some(ProtocolOpCode::TryRoute)
    } else if code == 5 {
        Some(ProtocolOpCode::DecodeStatus)
    } else if code == 6 {
        Some(ProtocolOpCode::DecodeLogin)
    } else if code == 7 {
        Some(ProtocolOpCode::EncodeStatusResponse)
    } else if code == 8 {
        Some(ProtocolOpCode::EncodeStatusPong)
    } else if code == 9 {
        Some(ProtocolOpCode::EncodeDisconnect)
    } else if code == 10 {
        Some(ProtocolOpCode::EncodeEncryptionRequest)
    } else if code == 11 {
        Some(ProtocolOpCode::EncodeNetworkSettings)
    } else if code == 12 {
        Some(ProtocolOpCode::EncodeLoginSuccess)
    } else if code == 13 {
        Some(ProtocolOpCode::DecodePlay)
    } else if code == 14 {
        Some(ProtocolOpCode::EncodePlayEvent)
    } else if code == 15 {
        Some(ProtocolOpCode::ExportSessionState)
    } else if code == 16 {
        Some(ProtocolOpCode::ImportSessionState)
    } else if code == 17 {
        Some(ProtocolOpCode::EncodeWireFrame)
    } else if code == 18 {
        Some(ProtocolOpCode::TryDecodeWireFrame)
    } else if code == 19 {
        Some(ProtocolOpCode::SessionClosed)
    } else {
        None
    }
}

impl ProtocolOpCode {
    /// The number of the operation.
    pub open spec fn spec_code(self) -> u8 {
        match self {
            ProtocolOpCode::Describe => 1,
            ProtocolOpCode::DescribeBedrockListener => 2,
            ProtocolOpCode::CapabilitySet => 3,
            ProtocolOpCode::TryRoute => 4,
            ProtocolOpCode::DecodeStatus => 5,
            ProtocolOpCode::DecodeLogin => 6,
            ProtocolOpCode::EncodeStatusResponse => 7,
            ProtocolOpCode::EncodeStatusPong => 8,
            ProtocolOpCode::EncodeDisconnect => 9,
            ProtocolOpCode::EncodeEncryptionRequest => 10,
            ProtocolOpCode::EncodeNetworkSettings => 11,
            ProtocolOpCode::EncodeLoginSuccess => 12,
            ProtocolOpCode::DecodePlay => 13,
            ProtocolOpCode::EncodePlayEvent => 14,
            ProtocolOpCode::ExportSessionState => 15,
            ProtocolOpCode::ImportSessionState => 16,
            ProtocolOpCode::EncodeWireFrame => 17,
            ProtocolOpCode::TryDecodeWireFrame => 18,
            ProtocolOpCode::SessionClosed => 19,
        }
    }

    /// The number of the operation.
    pub fn code(self) -> (result: u8)
        ensures
            result == self.spec_code(),
    {
        match self {
            ProtocolOpCode::Describe => 1,
            ProtocolOpCode::DescribeBedrockListener => 2,
            ProtocolOpCode::CapabilitySet => 3,
            ProtocolOpCode::TryRoute => 4,
            ProtocolOpCode::DecodeStatus => 5,
            ProtocolOpCode::DecodeLogin => 6,
            ProtocolOpCode::EncodeStatusResponse => 7,
            ProtocolOpCode::EncodeStatusPong => 8,
            ProtocolOpCode::EncodeDisconnect => 9,
            ProtocolOpCode::EncodeEncryptionRequest => 10,
            ProtocolOpCode::EncodeNetworkSettings => 11,
            ProtocolOpCode::EncodeLoginSuccess => 12,
            ProtocolOpCode::DecodePlay => 13,
            ProtocolOpCode::EncodePlayEvent => 14,
            ProtocolOpCode::ExportSessionState => 15,
            ProtocolOpCode::ImportSessionState => 16,
            ProtocolOpCode::EncodeWireFrame => 17,
            ProtocolOpCode::TryDecodeWireFrame => 18,
            ProtocolOpCode::SessionClosed => 19,
        }
    }

    /// The operation with a given number.
    pub fn try_from(value: u8) -> (result: Result<Self, ProtocolCodecError>)
        ensures
            match protocol_op_of(value) {
                Some(op) => result == Ok::<Self, ProtocolCodecError>(op),
                None => result == Err::<Self, ProtocolCodecError>(
                    ProtocolCodecError::InvalidProtocolOpCode(value),
                ),
            },
    {
        match value {
            1 => Ok(ProtocolOpCode::Describe),
            2 => Ok(ProtocolOpCode::DescribeBedrockListener),
            3 => Ok(ProtocolOpCode::CapabilitySet),
            4 => Ok(ProtocolOpCode::TryRoute),
            5 => Ok(ProtocolOpCode::DecodeStatus),
            6 => Ok(ProtocolOpCode::DecodeLogin),
            7 => Ok(ProtocolOpCode::EncodeStatusResponse),
            8 => Ok(ProtocolOpCode::EncodeStatusPong),
            9 => Ok(ProtocolOpCode::EncodeDisconnect),
            10 => Ok(ProtocolOpCode::EncodeEncryptionRequest),
            11 => Ok(ProtocolOpCode::EncodeNetworkSettings),
            12 => Ok(ProtocolOpCode::EncodeLoginSuccess),
            13 => Ok(ProtocolOpCode::DecodePlay),
            14 => Ok(ProtocolOpCode::EncodePlayEvent),
            15 => Ok(ProtocolOpCode::ExportSessionState),
            16 => Ok(ProtocolOpCode::ImportSessionState),
            17 => Ok(ProtocolOpCode::EncodeWireFrame),
            18 => Ok(ProtocolOpCode::TryDecodeWireFrame),
            19 => Ok(ProtocolOpCode::SessionClosed),
            _ => Err(ProtocolCodecError::InvalidProtocolOpCode(value)),
        }
    }
}

/// Every operation is the one with its number.
pub proof fn protocol_op_codes_agree(op: ProtocolOpCode)
    ensures
        protocol_op_of(op.spec_code()) == Some(op),
{
}

/// A request to a protocol plugin.
#[allow(inconsistent_fields)]
#[derive(Debug, PartialEq, Eq)]
pub enum ProtocolRequest {
    Describe,
    DescribeBedrockListener,
    CapabilitySet,
    TryRoute { frame: Vec<u8> },
    DecodeStatus { frame: Vec<u8> },
    DecodeLogin { frame: Vec<u8> },
    EncodeStatusResponse { status: ServerListStatus },
    EncodeStatusPong { payload: i64 },
    EncodeDisconnect { phase: ConnectionPhase, reason: String },
    EncodeEncryptionRequest { server_id: String, public_key_der: Vec<u8>, verify_token: Vec<u8> },
    EncodeNetworkSettings { compression_threshold: u16 },
    EncodeLoginSuccess { player: PlayerSnapshot },
    DecodePlay { session: ProtocolSessionSnapshot, frame: Vec<u8> },
    EncodePlayEvent {
        session: ProtocolSessionSnapshot,
        event: CoreEvent,
        context: PlayEncodingContext,
    },
    SessionClosed { session: ProtocolSessionSnapshot },
    ExportSessionState { session: ProtocolSessionSnapshot },
    ImportSessionState { session: ProtocolSessionSnapshot, blob: Vec<u8> },
    EncodeWireFrame { payload: Vec<u8> },
    TryDecodeWireFrame { buffer: Vec<u8> },
}

/// The format of the payload of a request.
pub open spec fn protocol_request_format(op: ProtocolOpCode) -> Format {
    match op {
        ProtocolOpCode::Describe => Format::Unit,
        ProtocolOpCode::DescribeBedrockListener => Format::Unit,
        ProtocolOpCode::CapabilitySet => Format::Unit,
        ProtocolOpCode::TryRoute => Format::Bytes,
        ProtocolOpCode::DecodeStatus => Format::Bytes,
        ProtocolOpCode::DecodeLogin => Format::Bytes,
        ProtocolOpCode::EncodeStatusResponse => ServerListStatus::format(),
        ProtocolOpCode::EncodeStatusPong => i64::format(),
        ProtocolOpCode::EncodeDisconnect => pair(ConnectionPhase::format(), String::format()),
        ProtocolOpCode::EncodeEncryptionRequest => pair(
            String::format(),
            pair(Format::Bytes, Format::Bytes),
        ),
        ProtocolOpCode::EncodeNetworkSettings => u16::format(),
        ProtocolOpCode::EncodeLoginSuccess => PlayerSnapshot::format(),
        ProtocolOpCode::DecodePlay => pair(ProtocolSessionSnapshot::format(), Format::Bytes),
        ProtocolOpCode::EncodePlayEvent => pair(
            ProtocolSessionSnapshot::format(),
            pair(CoreEvent::format(), PlayEncodingContext::format()),
        ),
        ProtocolOpCode::SessionClosed => ProtocolSessionSnapshot::format(),
        ProtocolOpCode::ExportSessionState => ProtocolSessionSnapshot::format(),
        ProtocolOpCode::ImportSessionState => pair(
            ProtocolSessionSnapshot::format(),
            Format::Bytes,
        ),
        ProtocolOpCode::EncodeWireFrame => Format::Bytes,
        ProtocolOpCode::TryDecodeWireFrame => Format::Bytes,
    }
}

impl ProtocolRequest {
    /// Whether every section of every chunk that the request brings is under its own height.
    pub open spec fn placed(&self) -> bool {
        self matches ProtocolRequest::EncodePlayEvent { event, .. } ==> event_placed(*event)
    }

    /// The operation that is asked for.
    pub open spec fn spec_op(&self) -> ProtocolOpCode {
        match self {
            ProtocolRequest::Describe => ProtocolOpCode::Describe,
            ProtocolRequest::DescribeBedrockListener => ProtocolOpCode::DescribeBedrockListener,
            ProtocolRequest::CapabilitySet => ProtocolOpCode::CapabilitySet,
            ProtocolRequest::TryRoute { .. } => ProtocolOpCode::TryRoute,
            ProtocolRequest::DecodeStatus { .. } => ProtocolOpCode::DecodeStatus,
            ProtocolRequest::DecodeLogin { .. } => ProtocolOpCode::DecodeLogin,
            ProtocolRequest::EncodeStatusResponse { .. } => ProtocolOpCode::EncodeStatusResponse,
            ProtocolRequest::EncodeStatusPong { .. } => ProtocolOpCode::EncodeStatusPong,
            ProtocolRequest::EncodeDisconnect { .. } => ProtocolOpCode::EncodeDisconnect,
            ProtocolRequest::EncodeEncryptionRequest { .. } => {
                ProtocolOpCode::EncodeEncryptionRequest
            },
            ProtocolRequest::EncodeNetworkSettings { .. } => ProtocolOpCode::EncodeNetworkSettings,
            ProtocolRequest::EncodeLoginSuccess { .. } => ProtocolOpCode::EncodeLoginSuccess,
            ProtocolRequest::DecodePlay { .. } => ProtocolOpCode::DecodePlay,
            ProtocolRequest::EncodePlayEvent { .. } => ProtocolOpCode::EncodePlayEvent,
            ProtocolRequest::SessionClosed { .. } => ProtocolOpCode::SessionClosed,
            ProtocolRequest::ExportSessionState { .. } => ProtocolOpCode::ExportSessionState,
            ProtocolRequest::ImportSessionState { .. } => ProtocolOpCode::ImportSessionState,
            ProtocolRequest::EncodeWireFrame { .. } => ProtocolOpCode::EncodeWireFrame,
            ProtocolRequest::TryDecodeWireFrame { .. } => ProtocolOpCode::TryDecodeWireFrame,
        }
    }

    /// The operation that is asked for.
    pub fn op_code(&self) -> (result: ProtocolOpCode)
        ensures
            result == self.spec_op(),
    {
        match self {
            ProtocolRequest::Describe => ProtocolOpCode::Describe,
            ProtocolRequest::DescribeBedrockListener => ProtocolOpCode::DescribeBedrockListener,
            ProtocolRequest::CapabilitySet => ProtocolOpCode::CapabilitySet,
            ProtocolRequest::TryRoute { .. } => ProtocolOpCode::TryRoute,
            ProtocolRequest::DecodeStatus { .. } => ProtocolOpCode::DecodeStatus,
            ProtocolRequest::DecodeLogin { .. } => ProtocolOpCode::DecodeLogin,
            ProtocolRequest::EncodeStatusResponse { .. } => ProtocolOpCode::EncodeStatusResponse,
            ProtocolRequest::EncodeStatusPong { .. } => ProtocolOpCode::EncodeStatusPong,
            ProtocolRequest::EncodeDisconnect { .. } => ProtocolOpCode::EncodeDisconnect,
            ProtocolRequest::EncodeEncryptionRequest { .. } => {
                ProtocolOpCode::EncodeEncryptionRequest
            },
            ProtocolRequest::EncodeNetworkSettings { .. } => ProtocolOpCode::EncodeNetworkSettings,
            ProtocolRequest::EncodeLoginSuccess { .. } => ProtocolOpCode::EncodeLoginSuccess,
            ProtocolRequest::DecodePlay { .. } => ProtocolOpCode::DecodePlay,
            ProtocolRequest::EncodePlayEvent { .. } => ProtocolOpCode::EncodePlayEvent,
            ProtocolRequest::SessionClosed { .. } => ProtocolOpCode::SessionClosed,
            ProtocolRequest::ExportSessionState { .. } => ProtocolOpCode::ExportSessionState,
            ProtocolRequest::ImportSessionState { .. } => ProtocolOpCode::ImportSessionState,
            ProtocolRequest::EncodeWireFrame { .. } => ProtocolOpCode::EncodeWireFrame,
            ProtocolRequest::TryDecodeWireFrame { .. } => ProtocolOpCode::TryDecodeWireFrame,
        }
    }

    /// The payload without its type.
    pub open spec fn payload(&self) -> Value {
        match self {
            ProtocolRequest::Describe => Value::Unit,
            ProtocolRequest::DescribeBedrockListener => Value::Unit,
            ProtocolRequest::CapabilitySet => Value::Unit,
            ProtocolRequest::TryRoute { frame } => Value::Bytes(frame@),
            ProtocolRequest::DecodeStatus { frame } => Value::Bytes(frame@),
            ProtocolRequest::DecodeLogin { frame } => Value::Bytes(frame@),
            ProtocolRequest::EncodeStatusResponse { status } => status.value(),
            ProtocolRequest::EncodeStatusPong { payload } => payload.value(),
            ProtocolRequest::EncodeDisconnect { phase, reason } => both(
                phase.value(),
                reason.value(),
            ),
            ProtocolRequest::EncodeEncryptionRequest {
                server_id,
                public_key_der,
                verify_token,
            } => both(
                server_id.value(),
                both(Value::Bytes(public_key_der@), Value::Bytes(verify_token@)),
            ),
            ProtocolRequest::EncodeNetworkSettings {
                compression_threshold,
            } => compression_threshold.value(),
            ProtocolRequest::EncodeLoginSuccess { player } => player.value(),
            ProtocolRequest::DecodePlay { session, frame } => both(
                session.value(),
                Value::Bytes(frame@),
            ),
            ProtocolRequest::EncodePlayEvent { session, event, context } => both(
                session.value(),
                both(event.value(), context.value()),
            ),
            ProtocolRequest::SessionClosed { session } => session.value(),
            ProtocolRequest::ExportSessionState { session } => session.value(),
            ProtocolRequest::ImportSessionState { session, blob } => both(
                session.value(),
                Value::Bytes(blob@),
            ),
            ProtocolRequest::EncodeWireFrame { payload } => Value::Bytes(payload@),
            ProtocolRequest::TryDecodeWireFrame { buffer } => Value::Bytes(buffer@),
        }
    }

    /// Whether the request is one that can stand on the wire.
    pub open spec fn encodable(&self) -> bool {
        match self {
            ProtocolRequest::EncodeStatusResponse { status } => status.encodable(),
            ProtocolRequest::EncodeDisconnect { phase, reason } => phase.encodable(),
            ProtocolRequest::EncodeLoginSuccess { player } => player.encodable(),
            ProtocolRequest::DecodePlay { session, frame } => session.encodable(),
            ProtocolRequest::EncodePlayEvent {
                session,
                event,
                context,
            } => session.encodable() && event.encodable() && context.encodable(),
            ProtocolRequest::SessionClosed { session } => session.encodable(),
            ProtocolRequest::ExportSessionState { session } => session.encodable(),
            ProtocolRequest::ImportSessionState { session, blob } => session.encodable(),
            _ => true,
        }
    }
}

fn encode_protocol_request_payload(
    encoder: &mut Encoder, request: &ProtocolRequest,
) -> (result: Result<(), ProtocolCodecError>)
    requires
        request.encodable(),
    ensures
        written(
            protocol_request_format(request.spec_op()),
            request.payload(),
            old(encoder)@,
            final(encoder)@,
            result,
        ),
{
    match request {
        ProtocolRequest::Describe => Ok(()),
        ProtocolRequest::DescribeBedrockListener => Ok(()),
        ProtocolRequest::CapabilitySet => Ok(()),
        ProtocolRequest::TryRoute { frame } => {
            encode_bytes(frame, encoder)
        },
        ProtocolRequest::DecodeStatus { frame } => {
            encode_bytes(frame, encoder)
        },
        ProtocolRequest::DecodeLogin { frame } => {
            encode_bytes(frame, encoder)
        },
        ProtocolRequest::EncodeStatusResponse { status } => {
            status.encode(encoder)
        },
        ProtocolRequest::EncodeStatusPong { payload } => {
            payload.encode(encoder)
        },
        ProtocolRequest::EncodeDisconnect { phase, reason } => {
            phase.encode(encoder)?;
            reason.encode(encoder)
        },
        ProtocolRequest::EncodeEncryptionRequest { server_id, public_key_der, verify_token } => {
            server_id.encode(encoder)?;
            encode_bytes(public_key_der, encoder)?;
            encode_bytes(verify_token, encoder)
        },
        ProtocolRequest::EncodeNetworkSettings { compression_threshold } => {
            compression_threshold.encode(encoder)
        },
        ProtocolRequest::EncodeLoginSuccess { player } => {
            player.encode(encoder)
        },
        ProtocolRequest::DecodePlay { session, frame } => {
            session.encode(encoder)?;
            encode_bytes(frame, encoder)
        },
        ProtocolRequest::EncodePlayEvent { session, event, context } => {
            session.encode(encoder)?;
            event.encode(encoder)?;
            context.encode(encoder)
        },
        ProtocolRequest::SessionClosed { session } => {
            session.encode(encoder)
        },
        ProtocolRequest::ExportSessionState { session } => {
            session.encode(encoder)
        },
        ProtocolRequest::ImportSessionState { session, blob } => {
            session.encode(encoder)?;
            encode_bytes(blob, encoder)
        },
        ProtocolRequest::EncodeWireFrame { payload } => {
            encode_bytes(payload, encoder)
        },
        ProtocolRequest::TryDecodeWireFrame { buffer } => {
            encode_bytes(buffer, encoder)
        },
    }
}

fn decode_protocol_request_payload(
    decoder: &mut Decoder<'_>, op: ProtocolOpCode,
) -> (result: Result<ProtocolRequest, ProtocolCodecError>)
    requires
        old(decoder).wf(),
    ensures
        final(decoder).wf(),
        read(
            protocol_request_format(op),
            old(decoder)@,
            final(decoder)@,
            match result {
                Ok(request) => Ok(request.payload()),
                Err(e) => Err(e),
            },
        ),
        result matches Ok(request) ==> request.spec_op() == op && request.encodable(),
{
    match op {
        ProtocolOpCode::Describe => Ok(ProtocolRequest::Describe),
        ProtocolOpCode::DescribeBedrockListener => Ok(ProtocolRequest::DescribeBedrockListener),
        ProtocolOpCode::CapabilitySet => Ok(ProtocolRequest::CapabilitySet),
        ProtocolOpCode::TryRoute => {
            let frame = decode_bytes(decoder)?;
            Ok(ProtocolRequest::TryRoute { frame })
        },
        ProtocolOpCode::DecodeStatus => {
            let frame = decode_bytes(decoder)?;
            Ok(ProtocolRequest::DecodeStatus { frame })
        },
        ProtocolOpCode::DecodeLogin => {
            let frame = decode_bytes(decoder)?;
            Ok(ProtocolRequest::DecodeLogin { frame })
        },
        ProtocolOpCode::EncodeStatusResponse => {
            let status = ServerListStatus::decode(decoder)?;
            Ok(ProtocolRequest::EncodeStatusResponse { status })
        },
        ProtocolOpCode::EncodeStatusPong => {
            let payload: i64 = i64::decode(decoder)?;
            Ok(ProtocolRequest::EncodeStatusPong { payload })
        },
        ProtocolOpCode::EncodeDisconnect => {
            let phase = ConnectionPhase::decode(decoder)?;
            let reason = String::decode(decoder)?;
            Ok(ProtocolRequest::EncodeDisconnect { phase, reason })
        },
        ProtocolOpCode::EncodeEncryptionRequest => {
            let server_id = String::decode(decoder)?;
            let public_key_der = decode_bytes(decoder)?;
            let verify_token = decode_bytes(decoder)?;
            Ok(ProtocolRequest::EncodeEncryptionRequest { server_id, public_key_der, verify_token })
        },
        ProtocolOpCode::EncodeNetworkSettings => {
            let compression_threshold: u16 = u16::decode(decoder)?;
            Ok(ProtocolRequest::EncodeNetworkSettings { compression_threshold })
        },
        ProtocolOpCode::EncodeLoginSuccess => {
            let player = PlayerSnapshot::decode(decoder)?;
            Ok(ProtocolRequest::EncodeLoginSuccess { player })
        },
        ProtocolOpCode::DecodePlay => {
            let session = ProtocolSessionSnapshot::decode(decoder)?;
            let frame = decode_bytes(decoder)?;
            Ok(ProtocolRequest::DecodePlay { session, frame })
        },
        ProtocolOpCode::EncodePlayEvent => {
            let session = ProtocolSessionSnapshot::decode(decoder)?;
            let event = CoreEvent::decode(decoder)?;
            let context = PlayEncodingContext::decode(decoder)?;
            Ok(ProtocolRequest::EncodePlayEvent { session, event, context })
        },
        ProtocolOpCode::SessionClosed => {
            let session = ProtocolSessionSnapshot::decode(decoder)?;
            Ok(ProtocolRequest::SessionClosed { session })
        },
        ProtocolOpCode::ExportSessionState => {
            let session = ProtocolSessionSnapshot::decode(decoder)?;
            Ok(ProtocolRequest::ExportSessionState { session })
        },
        ProtocolOpCode::ImportSessionState => {
            let session = ProtocolSessionSnapshot::decode(decoder)?;
            let blob = decode_bytes(decoder)?;
            Ok(ProtocolRequest::ImportSessionState { session, blob })
        },
        ProtocolOpCode::EncodeWireFrame => {
            let payload = decode_bytes(decoder)?;
            Ok(ProtocolRequest::EncodeWireFrame { payload })
        },
        ProtocolOpCode::TryDecodeWireFrame => {
            let buffer = decode_bytes(decoder)?;
            Ok(ProtocolRequest::TryDecodeWireFrame { buffer })
        },
    }
}

/// Writes a request.
pub fn encode_protocol_request(request: &ProtocolRequest) -> (result: Result<
    Vec<u8>,
    ProtocolCodecError,
>)
    requires
        request.encodable(),
    ensures
        bytes_view(result) == sealed(
            PluginKind::Protocol,
            request.spec_op().spec_code(),
            false,
            protocol_request_format(request.spec_op()),
            request.payload(),
        ),
{
    let mut payload = Encoder::default();
    encode_protocol_request_payload(&mut payload, request)?;
    let bytes = payload.into_inner();
    seal(PluginKind::Protocol, request.op_code().code(), false, &bytes)
}

/// The request in a message, or why there is none.
pub open spec fn protocol_request_of(
    s: Seq<u8>,
) -> Result<(ProtocolOpCode, Value), ProtocolCodecError> {
    match opened(
        s,
        PluginKind::Protocol,
        false,
        "protocol request had wrong plugin kind",
        "protocol request unexpectedly set response flag",
    ) {
        Err(e) => Err(e),
        Ok((code, payload)) => match protocol_op_of(code) {
            None => Err(ProtocolCodecError::InvalidProtocolOpCode(code)),
            Some(op) => match whole(protocol_request_format(op), payload) {
                Err(e) => Err(e),
                Ok(v) => Ok((op, v)),
            },
        },
    }
}

/// Reads a request.
pub fn decode_protocol_request(
    bytes: &[u8],
) -> (result: Result<ProtocolRequest, ProtocolCodecError>)
    ensures
        match result {
            Ok(request) => protocol_request_of(bytes@) == Ok::<(
                ProtocolOpCode,
                Value,
            ), ProtocolCodecError>(
                (request.spec_op(), request.payload()),
            ) && request.encodable(),
            Err(e) => protocol_request_of(bytes@) == Err::<(
                ProtocolOpCode,
                Value,
            ), ProtocolCodecError>(e),
        },
{
    let (code, payload) = open_message(
        bytes,
        PluginKind::Protocol,
        false,
        "protocol request had wrong plugin kind",
        "protocol request unexpectedly set response flag",
    )?;
    let op = ProtocolOpCode::try_from(code)?;
    let mut decoder = Decoder::new(payload);
    let request = decode_protocol_request_payload(&mut decoder, op)?;
    decoder.finish()?;
    Ok(request)
}

/// Reading a request that was written gives it back, where every section of a chunk in it is under
/// its own height.
pub proof fn protocol_request_round_trip(request: ProtocolRequest)
    requires
        request.encodable(),
        request.placed(),
        sealed(
            PluginKind::Protocol,
            request.spec_op().spec_code(),
            false,
            protocol_request_format(request.spec_op()),
            request.payload(),
        ) is Ok,
    ensures
        protocol_request_of(
            sealed(
                PluginKind::Protocol,
                request.spec_op().spec_code(),
                false,
                protocol_request_format(request.spec_op()),
                request.payload(),
            )->Ok_0,
        ) == Ok::<(ProtocolOpCode, Value), ProtocolCodecError>(
            (request.spec_op(), request.payload()),
        ),
{
    broadcast use plain_rules;

    if let ProtocolRequest::EncodePlayEvent { session, event, context } = request {
        event_is_orderly(event);
        plain_is_orderly(ProtocolSessionSnapshot::format(), session.value());
        plain_is_orderly(PlayEncodingContext::format(), context.value());
        orderly_pair(
            CoreEvent::format(),
            PlayEncodingContext::format(),
            event.value(),
            context.value(),
        );
        orderly_pair(
            ProtocolSessionSnapshot::format(),
            pair(CoreEvent::format(), PlayEncodingContext::format()),
            session.value(),
            both(event.value(), context.value()),
        );
    } else {
        plain_is_orderly(protocol_request_format(request.spec_op()), request.payload());
    }
    message_round_trip(
        PluginKind::Protocol,
        request.spec_op().spec_code(),
        false,
        protocol_request_format(request.spec_op()),
        request.payload(),
        "protocol request had wrong plugin kind",
        "protocol request unexpectedly set response flag",
    );
    protocol_op_codes_agree(request.spec_op());
}

/// A response of a protocol plugin.
#[derive(Debug, PartialEq, Eq)]
pub enum ProtocolResponse {
    Descriptor(ProtocolDescriptor),
    BedrockListenerDescriptor(Option<BedrockListenerDescriptor>),
    CapabilitySet(CapabilityAnnouncement),
    HandshakeIntent(Option<HandshakeIntent>),
    StatusRequest(StatusRequest),
    LoginRequest(LoginRequest),
    Frame(Vec<u8>),
    RuntimeCommand(Option<RuntimeCommand>),
    Frames(Vec<Vec<u8>>),
    SessionTransferBlob(Vec<u8>),
    WireFrameDecodeResult(Option<WireFrameDecodeResult>),
    Empty,
}

/// The format of the payload of a response.
pub open spec fn protocol_response_format(
    op: ProtocolOpCode,
    vocabulary: Seq<Seq<char>>,
) -> Format {
    match op {
        ProtocolOpCode::Describe => ProtocolDescriptor::format(),
        ProtocolOpCode::DescribeBedrockListener => <Option<BedrockListenerDescriptor>>::format(),
        ProtocolOpCode::CapabilitySet => Format::Announcement(vocabulary),
        ProtocolOpCode::TryRoute => <Option<HandshakeIntent>>::format(),
        ProtocolOpCode::DecodeStatus => StatusRequest::format(),
        ProtocolOpCode::DecodeLogin => LoginRequest::format(),
        ProtocolOpCode::EncodeStatusResponse
        | ProtocolOpCode::EncodeStatusPong
        | ProtocolOpCode::EncodeDisconnect
        | ProtocolOpCode::EncodeEncryptionRequest
        | ProtocolOpCode::EncodeNetworkSettings
        | ProtocolOpCode::EncodeLoginSuccess
        | ProtocolOpCode::EncodeWireFrame => Format::Bytes,
        ProtocolOpCode::DecodePlay => <Option<RuntimeCommand>>::format(),
        ProtocolOpCode::EncodePlayEvent => list(Format::Bytes),
        ProtocolOpCode::ExportSessionState => Format::Bytes,
        ProtocolOpCode::TryDecodeWireFrame => <Option<WireFrameDecodeResult>>::format(),
        ProtocolOpCode::ImportSessionState | ProtocolOpCode::SessionClosed => Format::Unit,
    }
}

impl ProtocolResponse {
    /// Whether a build that the response names has a name.
    pub open spec fn named(&self) -> bool {
        self matches ProtocolResponse::CapabilitySet(announcement) ==> announcement.named()
    }

    /// Whether the response is one to an operation.
    pub open spec fn answers(&self, op: ProtocolOpCode) -> bool {
        match (op, self) {
            (ProtocolOpCode::Describe, ProtocolResponse::Descriptor(_)) => true,
            (
                ProtocolOpCode::DescribeBedrockListener,
                ProtocolResponse::BedrockListenerDescriptor(_),
            ) => true,
            (ProtocolOpCode::CapabilitySet, ProtocolResponse::CapabilitySet(_)) => true,
            (ProtocolOpCode::TryRoute, ProtocolResponse::HandshakeIntent(_)) => true,
            (ProtocolOpCode::DecodeStatus, ProtocolResponse::StatusRequest(_)) => true,
            (ProtocolOpCode::DecodeLogin, ProtocolResponse::LoginRequest(_)) => true,
            (
                ProtocolOpCode::EncodeStatusResponse
                | ProtocolOpCode::EncodeStatusPong
                | ProtocolOpCode::EncodeDisconnect
                | ProtocolOpCode::EncodeEncryptionRequest
                | ProtocolOpCode::EncodeNetworkSettings
                | ProtocolOpCode::EncodeLoginSuccess
                | ProtocolOpCode::EncodeWireFrame,
                ProtocolResponse::Frame(_),
            ) => true,
            (ProtocolOpCode::DecodePlay, ProtocolResponse::RuntimeCommand(_)) => true,
            (ProtocolOpCode::EncodePlayEvent, ProtocolResponse::Frames(_)) => true,
            (ProtocolOpCode::ExportSessionState, ProtocolResponse::SessionTransferBlob(_)) => true,
            (
                ProtocolOpCode::TryDecodeWireFrame,
                ProtocolResponse::WireFrameDecodeResult(_),
            ) => true,
            (
                ProtocolOpCode::ImportSessionState | ProtocolOpCode::SessionClosed,
                ProtocolResponse::Empty,
            ) => true,
            _ => false,
        }
    }

    /// The payload without its type.
    pub open spec fn payload(&self) -> Value {
        match self {
            ProtocolResponse::Descriptor(x) => x.value(),
            ProtocolResponse::BedrockListenerDescriptor(x) => x.value(),
            ProtocolResponse::CapabilitySet(x) => x.spec_value(),
            ProtocolResponse::HandshakeIntent(x) => x.value(),
            ProtocolResponse::StatusRequest(x) => x.value(),
            ProtocolResponse::LoginRequest(x) => x.value(),
            ProtocolResponse::Frame(x) => Value::Bytes(x@),
            ProtocolResponse::RuntimeCommand(x) => x.value(),
            ProtocolResponse::Frames(x) => Value::List(frame_values(x@)),
            ProtocolResponse::SessionTransferBlob(x) => Value::Bytes(x@),
            ProtocolResponse::WireFrameDecodeResult(x) => x.value(),
            ProtocolResponse::Empty => Value::Unit,
        }
    }

    /// Whether the response is one that can stand on the wire.
    pub open spec fn encodable(&self, vocabulary: Seq<Seq<char>>) -> bool {
        match self {
            ProtocolResponse::Descriptor(x) => x.encodable(),
            ProtocolResponse::BedrockListenerDescriptor(x) => x.encodable(),
            ProtocolResponse::CapabilitySet(x) => x.within(vocabulary),
            ProtocolResponse::HandshakeIntent(x) => x.encodable(),
            ProtocolResponse::StatusRequest(x) => x.encodable(),
            ProtocolResponse::LoginRequest(x) => x.encodable(),
            ProtocolResponse::RuntimeCommand(x) => x.encodable(),
            ProtocolResponse::WireFrameDecodeResult(x) => x.encodable(),
            _ => true,
        }
    }
}

fn encode_protocol_response_payload(
    encoder: &mut Encoder,
    op: ProtocolOpCode,
    response: &ProtocolResponse,
    vocabulary: &CapabilityVocabulary,
) -> (result: Result<(), ProtocolCodecError>)
    requires
        response.encodable(vocabulary@),
    ensures
        if response.answers(op) {
            written(
                protocol_response_format(op, vocabulary@),
                response.payload(),
                old(encoder)@,
                final(encoder)@,
                result,
            )
        } else {
            result == Err::<(), ProtocolCodecError>(
                ProtocolCodecError::InvalidValue("protocol response did not match opcode"),
            )
        },
{
    match (op, response) {
        (ProtocolOpCode::Describe, ProtocolResponse::Descriptor(x)) => {
            x.encode(encoder)
        },
        (
            ProtocolOpCode::DescribeBedrockListener,
            ProtocolResponse::BedrockListenerDescriptor(x),
        ) => {
            x.encode(encoder)
        },
        (ProtocolOpCode::CapabilitySet, ProtocolResponse::CapabilitySet(x)) => {
            encode_capability_announcement(x, vocabulary, encoder)
        },
        (ProtocolOpCode::TryRoute, ProtocolResponse::HandshakeIntent(x)) => {
            x.encode(encoder)
        },
        (ProtocolOpCode::DecodeStatus, ProtocolResponse::StatusRequest(x)) => {
            x.encode(encoder)
        },
        (ProtocolOpCode::DecodeLogin, ProtocolResponse::LoginRequest(x)) => {
            x.encode(encoder)
        },
        (
            ProtocolOpCode::EncodeStatusResponse
            | ProtocolOpCode::EncodeStatusPong
            | ProtocolOpCode::EncodeDisconnect
            | ProtocolOpCode::EncodeEncryptionRequest
            | ProtocolOpCode::EncodeNetworkSettings
            | ProtocolOpCode::EncodeLoginSuccess
            | ProtocolOpCode::EncodeWireFrame,
            ProtocolResponse::Frame(x),
        ) => {
            encode_bytes(x, encoder)
        },
        (ProtocolOpCode::DecodePlay, ProtocolResponse::RuntimeCommand(x)) => {
            x.encode(encoder)
        },
        (ProtocolOpCode::EncodePlayEvent, ProtocolResponse::Frames(x)) => {
            encode_frames(x, encoder)
        },
        (ProtocolOpCode::ExportSessionState, ProtocolResponse::SessionTransferBlob(x)) => {
            encode_bytes(x, encoder)
        },
        (ProtocolOpCode::TryDecodeWireFrame, ProtocolResponse::WireFrameDecodeResult(x)) => {
            x.encode(encoder)
        },
        (
            ProtocolOpCode::ImportSessionState | ProtocolOpCode::SessionClosed,
            ProtocolResponse::Empty,
        ) => Ok(()),
        _ => Err(ProtocolCodecError::InvalidValue("protocol response did not match opcode")),
    }
}

fn decode_protocol_response_payload(
    decoder: &mut Decoder<'_>, op: ProtocolOpCode, vocabulary: &CapabilityVocabulary,
) -> (result: Result<ProtocolResponse, ProtocolCodecError>)
    requires
        old(decoder).wf(),
    ensures
        final(decoder).wf(),
        read(
            protocol_response_format(op, vocabulary@),
            old(decoder)@,
            final(decoder)@,
            match result {
                Ok(response) => Ok(response.payload()),
                Err(e) => Err(e),
            },
        ),
        result matches Ok(response) ==> response.answers(op) && response.encodable(vocabulary@),
{
    match op {
        ProtocolOpCode::Describe => {
            let x = ProtocolDescriptor::decode(decoder)?;
            Ok(ProtocolResponse::Descriptor(x))
        },
        ProtocolOpCode::DescribeBedrockListener => {
            let x = Option::<BedrockListenerDescriptor>::decode(decoder)?;
            Ok(ProtocolResponse::BedrockListenerDescriptor(x))
        },
        ProtocolOpCode::CapabilitySet => {
            let x = decode_capability_announcement(decoder, vocabulary)?;
            Ok(ProtocolResponse::CapabilitySet(x))
        },
        ProtocolOpCode::TryRoute => {
            let x = Option::<HandshakeIntent>::decode(decoder)?;
            Ok(ProtocolResponse::HandshakeIntent(x))
        },
        ProtocolOpCode::DecodeStatus => {
            let x = StatusRequest::decode(decoder)?;
            Ok(ProtocolResponse::StatusRequest(x))
        },
        ProtocolOpCode::DecodeLogin => {
            let x = LoginRequest::decode(decoder)?;
            Ok(ProtocolResponse::LoginRequest(x))
        },
        ProtocolOpCode::EncodeStatusResponse
        | ProtocolOpCode::EncodeStatusPong
        | ProtocolOpCode::EncodeDisconnect
        | ProtocolOpCode::EncodeEncryptionRequest
        | ProtocolOpCode::EncodeNetworkSettings
        | ProtocolOpCode::EncodeLoginSuccess
        | ProtocolOpCode::EncodeWireFrame => {
            let x = decode_bytes(decoder)?;
            Ok(ProtocolResponse::Frame(x))
        },
        ProtocolOpCode::DecodePlay => {
            let x = Option::<RuntimeCommand>::decode(decoder)?;
            Ok(ProtocolResponse::RuntimeCommand(x))
        },
        ProtocolOpCode::EncodePlayEvent => {
            let x = decode_frames(decoder)?;
            Ok(ProtocolResponse::Frames(x))
        },
        ProtocolOpCode::ExportSessionState => {
            let x = decode_bytes(decoder)?;
            Ok(ProtocolResponse::SessionTransferBlob(x))
        },
        ProtocolOpCode::TryDecodeWireFrame => {
            let x = Option::<WireFrameDecodeResult>::decode(decoder)?;
            Ok(ProtocolResponse::WireFrameDecodeResult(x))
        },
        ProtocolOpCode::ImportSessionState | ProtocolOpCode::SessionClosed => Ok(
            ProtocolResponse::Empty,
        ),
    }
}

/// Writes the response to a request.
pub fn encode_protocol_response(
    request: &ProtocolRequest, response: &ProtocolResponse, vocabulary: &CapabilityVocabulary,
) -> (result: Result<Vec<u8>, ProtocolCodecError>)
    requires
        response.encodable(vocabulary@),
    ensures
        bytes_view(result) == if response.answers(request.spec_op()) {
            sealed(
                PluginKind::Protocol,
                request.spec_op().spec_code(),
                true,
                protocol_response_format(request.spec_op(), vocabulary@),
                response.payload(),
            )
        } else {
            Err(ProtocolCodecError::InvalidValue("protocol response did not match opcode"))
        },
{
    let mut payload = Encoder::default();
    encode_protocol_response_payload(&mut payload, request.op_code(), response, vocabulary)?;
    let bytes = payload.into_inner();
    seal(PluginKind::Protocol, request.op_code().code(), true, &bytes)
}

/// The response to an operation in a message, or why there is none.
pub open spec fn protocol_response_of(
    op: ProtocolOpCode,
    s: Seq<u8>,
    vocabulary: Seq<Seq<char>>,
) -> Result<Value, ProtocolCodecError> {
    match opened(
        s,
        PluginKind::Protocol,
        true,
        "protocol response had wrong plugin kind",
        "protocol response was missing response flag",
    ) {
        Err(e) => Err(e),
        Ok((code, payload)) => if code != op.spec_code() {
            Err(
                ProtocolCodecError::InvalidEnvelope(
                    "protocol response opcode did not match request",
                ),
            )
        } else {
            whole(protocol_response_format(op, vocabulary), payload)
        },
    }
}

/// Reads the response to a request.
pub fn decode_protocol_response(
    request: &ProtocolRequest, bytes: &[u8], vocabulary: &CapabilityVocabulary,
) -> (result: Result<ProtocolResponse, ProtocolCodecError>)
    ensures
        match result {
            Ok(response) => protocol_response_of(request.spec_op(), bytes@, vocabulary@) == Ok::<
                Value,
                ProtocolCodecError,
            >(response.payload()) && response.answers(request.spec_op())
                && response.encodable(vocabulary@),
            Err(e) => protocol_response_of(request.spec_op(), bytes@, vocabulary@) == Err::<
                Value,
                ProtocolCodecError,
            >(e),
        },
{
    let (code, payload) = open_message(
        bytes,
        PluginKind::Protocol,
        true,
        "protocol response had wrong plugin kind",
        "protocol response was missing response flag",
    )?;
    if code != request.op_code().code() {
        return Err(
            ProtocolCodecError::InvalidEnvelope("protocol response opcode did not match request"),
        );
    }
    let mut decoder = Decoder::new(payload);
    let response = decode_protocol_response_payload(&mut decoder, request.op_code(), vocabulary)?;
    decoder.finish()?;
    Ok(response)
}

/// Reading a response that was written for an operation gives it back, where a build that it
/// names has a name.
pub proof fn protocol_response_round_trip(
    op: ProtocolOpCode,
    response: ProtocolResponse,
    vocabulary: Seq<Seq<char>>,
)
    requires
        response.encodable(vocabulary),
        response.answers(op),
        response.named(),
        sealed(
            PluginKind::Protocol,
            op.spec_code(),
            true,
            protocol_response_format(op, vocabulary),
            response.payload(),
        ) is Ok,
    ensures
        protocol_response_of(
            op,
            sealed(
                PluginKind::Protocol,
                op.spec_code(),
                true,
                protocol_response_format(op, vocabulary),
                response.payload(),
            )->Ok_0,
            vocabulary,
        ) == Ok::<Value, ProtocolCodecError>(
            response.payload(),
        ),
{
    broadcast use plain_rules;

    if let ProtocolResponse::CapabilitySet(announcement) = response {
        announcement_is_orderly(announcement, vocabulary);
    } else {
        plain_is_orderly(protocol_response_format(op, vocabulary), response.payload());
    }
    message_round_trip(
        PluginKind::Protocol,
        op.spec_code(),
        true,
        protocol_response_format(op, vocabulary),
        response.payload(),
        "protocol response had wrong plugin kind",
        "protocol response was missing response flag",
    );
    protocol_op_codes_agree(op);
}

} // verus!
