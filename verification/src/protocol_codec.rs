//! Compact messages to and from protocol plugins.

pub mod layout_laws;
pub mod types;

use crate::codec::basic::{decode_frames, encode_frames, frame_values};
use crate::codec::binary::{Decoder, Encoder};
use crate::codec::grammar::{both, list, pair, plain_is_orderly, Format, ProtocolCodecError, Value};
use crate::codec::placement::{orderly_pair, plain_rules};
use crate::model::capability::CapabilitySet;
use crate::model::ids::PlayerId;
use crate::model::session::{
    ConnectionPhase, HandshakeIntent, LoginRequest, PlayEncodingContext, StatusRequest,
};
use crate::protocol_codec::types::{
    event_is_orderly, event_placed, CoreCommand, CoreEvent, PlayerSnapshot, ProtocolDescriptor,
    ProtocolSessionSnapshot, ServerListStatus,
};
use crate::codec::message::{
    bytes_view, message_round_trip, open_message, opened, seal, sealed, whole,
};
use crate::codec::wire::{compound_rules, decode_bytes, encode_bytes, read, written, Wire};
use crate::plugin::abi::PluginKind;
use vstd::prelude::*;

verus! {

broadcast use compound_rules;

/// The operations of protocol plugins.
#[derive(Clone, Copy, Debug, PartialEq, Eq, Structural)]
pub enum ProtocolOpCode {
    Describe,
    CapabilitySet,
    TryRoute,
    DecodeStatus,
    DecodeLogin,
    EncodeStatusResponse,
    EncodeStatusPong,
    EncodeDisconnect,
    EncodeEncryptionRequest,
    EncodeNetworkSettings,
    EncodeLoginSuccess,
    DecodePlay,
    EncodePlayEvent,
    ExportSessionState,
    ImportSessionState,
}

/// The operation with a given number, if there is one.
pub open spec fn protocol_op_of(code: u8) -> Option<ProtocolOpCode> {
    if code == 1 {
        Some(ProtocolOpCode::Describe)
    } else if code == 2 {
        Some(ProtocolOpCode::CapabilitySet)
    } else if code == 3 {
        Some(ProtocolOpCode::TryRoute)
    } else if code == 4 {
        Some(ProtocolOpCode::DecodeStatus)
    } else if code == 5 {
        Some(ProtocolOpCode::DecodeLogin)
    } else if code == 6 {
        Some(ProtocolOpCode::EncodeStatusResponse)
    } else if code == 7 {
        Some(ProtocolOpCode::EncodeStatusPong)
    } else if code == 8 {
        Some(ProtocolOpCode::EncodeDisconnect)
    } else if code == 9 {
        Some(ProtocolOpCode::EncodeEncryptionRequest)
    } else if code == 10 {
        Some(ProtocolOpCode::EncodeNetworkSettings)
    } else if code == 11 {
        Some(ProtocolOpCode::EncodeLoginSuccess)
    } else if code == 12 {
        Some(ProtocolOpCode::DecodePlay)
    } else if code == 13 {
        Some(ProtocolOpCode::EncodePlayEvent)
    } else if code == 14 {
        Some(ProtocolOpCode::ExportSessionState)
    } else if code == 15 {
        Some(ProtocolOpCode::ImportSessionState)
    } else {
        None
    }
}

impl ProtocolOpCode {
    /// The number of the operation.
    pub open spec fn spec_code(self) -> u8 {
        match self {
            ProtocolOpCode::Describe => 1,
            ProtocolOpCode::CapabilitySet => 2,
            ProtocolOpCode::TryRoute => 3,
            ProtocolOpCode::DecodeStatus => 4,
            ProtocolOpCode::DecodeLogin => 5,
            ProtocolOpCode::EncodeStatusResponse => 6,
            ProtocolOpCode::EncodeStatusPong => 7,
            ProtocolOpCode::EncodeDisconnect => 8,
            ProtocolOpCode::EncodeEncryptionRequest => 9,
            ProtocolOpCode::EncodeNetworkSettings => 10,
            ProtocolOpCode::EncodeLoginSuccess => 11,
            ProtocolOpCode::DecodePlay => 12,
            ProtocolOpCode::EncodePlayEvent => 13,
            ProtocolOpCode::ExportSessionState => 14,
            ProtocolOpCode::ImportSessionState => 15,
        }
    }

    /// The number of the operation.
    pub fn code(self) -> (result: u8)
        ensures
            result == self.spec_code(),
    {
        match self {
            ProtocolOpCode::Describe => 1,
            ProtocolOpCode::CapabilitySet => 2,
            ProtocolOpCode::TryRoute => 3,
            ProtocolOpCode::DecodeStatus => 4,
            ProtocolOpCode::DecodeLogin => 5,
            ProtocolOpCode::EncodeStatusResponse => 6,
            ProtocolOpCode::EncodeStatusPong => 7,
            ProtocolOpCode::EncodeDisconnect => 8,
            ProtocolOpCode::EncodeEncryptionRequest => 9,
            ProtocolOpCode::EncodeNetworkSettings => 10,
            ProtocolOpCode::EncodeLoginSuccess => 11,
            ProtocolOpCode::DecodePlay => 12,
            ProtocolOpCode::EncodePlayEvent => 13,
            ProtocolOpCode::ExportSessionState => 14,
            ProtocolOpCode::ImportSessionState => 15,
        }
    }

    /// The operation with a given number.
    pub fn try_from(value: u8) -> (result: Result<Self, ProtocolCodecError>)
        ensures
            match protocol_op_of(value) {
                Some(op) => result == Ok::<Self, ProtocolCodecError>(op),
                None => result == Err::<Self, ProtocolCodecError>(
                    ProtocolCodecError::InvalidProtocolOpCode(value),
                ),
            },
    {
        match value {
            1 => Ok(ProtocolOpCode::Describe),
            2 => Ok(ProtocolOpCode::CapabilitySet),
            3 => Ok(ProtocolOpCode::TryRoute),
            4 => Ok(ProtocolOpCode::DecodeStatus),
            5 => Ok(ProtocolOpCode::DecodeLogin),
            6 => Ok(ProtocolOpCode::EncodeStatusResponse),
            7 => Ok(ProtocolOpCode::EncodeStatusPong),
            8 => Ok(ProtocolOpCode::EncodeDisconnect),
            9 => Ok(ProtocolOpCode::EncodeEncryptionRequest),
            10 => Ok(ProtocolOpCode::EncodeNetworkSettings),
            11 => Ok(ProtocolOpCode::EncodeLoginSuccess),
            12 => Ok(ProtocolOpCode::DecodePlay),
            13 => Ok(ProtocolOpCode::EncodePlayEvent),
            14 => Ok(ProtocolOpCode::ExportSessionState),
            15 => Ok(ProtocolOpCode::ImportSessionState),
            _ => Err(ProtocolCodecError::InvalidProtocolOpCode(value)),
        }
    }
}

/// Every operation is the one with its number.
pub proof fn protocol_op_codes_agree(op: ProtocolOpCode)
    ensures
        protocol_op_of(op.spec_code()) == Some(op),
{
}

/// A request to a protocol plugin.
#[allow(inconsistent_fields)]
#[derive(Debug, PartialEq, Eq)]
pub enum ProtocolRequest {
    Describe,
    CapabilitySet,
    TryRoute { frame: Vec<u8> },
    DecodeStatus { frame: Vec<u8> },
    DecodeLogin { frame: Vec<u8> },
    EncodeStatusResponse { status: ServerListStatus },
    EncodeStatusPong { payload: i64 },
    EncodeDisconnect { phase: ConnectionPhase, reason: String },
    EncodeEncryptionRequest { server_id: String, public_key_der: Vec<u8>, verify_token: Vec<u8> },
    EncodeNetworkSettings { compression_threshold: u16 },
    EncodeLoginSuccess { player: PlayerSnapshot },
    DecodePlay { player_id: PlayerId, frame: Vec<u8> },
    EncodePlayEvent { event: CoreEvent, context: PlayEncodingContext },
    ExportSessionState { session: ProtocolSessionSnapshot },
    ImportSessionState { session: ProtocolSessionSnapshot, blob: Vec<u8> },
}

/// The format of the payload of a request.
pub open spec fn protocol_request_format(op: ProtocolOpCode) -> Format {
    match op {
        ProtocolOpCode::Describe => Format::Unit,
        ProtocolOpCode::CapabilitySet => Format::Unit,
        ProtocolOpCode::TryRoute => Format::Bytes,
        ProtocolOpCode::DecodeStatus => Format::Bytes,
        ProtocolOpCode::DecodeLogin => Format::Bytes,
        ProtocolOpCode::EncodeStatusResponse => ServerListStatus::format(),
        ProtocolOpCode::EncodeStatusPong => i64::format(),
        ProtocolOpCode::EncodeDisconnect => pair(ConnectionPhase::format(), String::format()),
        ProtocolOpCode::EncodeEncryptionRequest => pair(
            String::format(),
            pair(Format::Bytes, Format::Bytes),
        ),
        ProtocolOpCode::EncodeNetworkSettings => u16::format(),
        ProtocolOpCode::EncodeLoginSuccess => PlayerSnapshot::format(),
        ProtocolOpCode::DecodePlay => pair(PlayerId::format(), Format::Bytes),
        ProtocolOpCode::EncodePlayEvent => pair(CoreEvent::format(), PlayEncodingContext::format()),
        ProtocolOpCode::ExportSessionState => ProtocolSessionSnapshot::format(),
        ProtocolOpCode::ImportSessionState => pair(
            ProtocolSessionSnapshot::format(),
            Format::Bytes,
        ),
    }
}

impl ProtocolRequest {
    /// Whether every section of every chunk that the request brings is under its own height.
    pub open spec fn placed(&self) -> bool {
        self matches ProtocolRequest::EncodePlayEvent { event, .. } ==> event_placed(*event)
    }

    /// The operation that is asked for.
    pub open spec fn spec_op(&self) -> ProtocolOpCode {
        match self {
            ProtocolRequest::Describe => ProtocolOpCode::Describe,
            ProtocolRequest::CapabilitySet => ProtocolOpCode::CapabilitySet,
            ProtocolRequest::TryRoute { .. } => ProtocolOpCode::TryRoute,
            ProtocolRequest::DecodeStatus { .. } => ProtocolOpCode::DecodeStatus,
            ProtocolRequest::DecodeLogin { .. } => ProtocolOpCode::DecodeLogin,
            ProtocolRequest::EncodeStatusResponse { .. } => ProtocolOpCode::EncodeStatusResponse,
            ProtocolRequest::EncodeStatusPong { .. } => ProtocolOpCode::EncodeStatusPong,
            ProtocolRequest::EncodeDisconnect { .. } => ProtocolOpCode::EncodeDisconnect,
            ProtocolRequest::EncodeEncryptionRequest { .. } => {
                ProtocolOpCode::EncodeEncryptionRequest
            },
            ProtocolRequest::EncodeNetworkSettings { .. } => ProtocolOpCode::EncodeNetworkSettings,
            ProtocolRequest::EncodeLoginSuccess { .. } => ProtocolOpCode::EncodeLoginSuccess,
            ProtocolRequest::DecodePlay { .. } => ProtocolOpCode::DecodePlay,
            ProtocolRequest::EncodePlayEvent { .. } => ProtocolOpCode::EncodePlayEvent,
            ProtocolRequest::ExportSessionState { .. } => ProtocolOpCode::ExportSessionState,
            ProtocolRequest::ImportSessionState { .. } => ProtocolOpCode::ImportSessionState,
        }
    }

    /// The operation that is asked for.
    pub fn op_code(&self) -> (result: ProtocolOpCode)
        ensures
            result == self.spec_op(),
    {
        match self {
            ProtocolRequest::Describe => ProtocolOpCode::Describe,
            ProtocolRequest::CapabilitySet => ProtocolOpCode::CapabilitySet,
            ProtocolRequest::TryRoute { .. } => ProtocolOpCode::TryRoute,
            ProtocolRequest::DecodeStatus { .. } => ProtocolOpCode::DecodeStatus,
            ProtocolRequest::DecodeLogin { .. } => ProtocolOpCode::DecodeLogin,
            ProtocolRequest::EncodeStatusResponse { .. } => ProtocolOpCode::EncodeStatusResponse,
            ProtocolRequest::EncodeStatusPong { .. } => ProtocolOpCode::EncodeStatusPong,
            ProtocolRequest::EncodeDisconnect { .. } => ProtocolOpCode::EncodeDisconnect,
            ProtocolRequest::EncodeEncryptionRequest { .. } => {
                ProtocolOpCode::EncodeEncryptionRequest
            },
            ProtocolRequest::EncodeNetworkSettings { .. } => ProtocolOpCode::EncodeNetworkSettings,
            ProtocolRequest::EncodeLoginSuccess { .. } => ProtocolOpCode::EncodeLoginSuccess,
            ProtocolRequest::DecodePlay { .. } => ProtocolOpCode::DecodePlay,
            ProtocolRequest::EncodePlayEvent { .. } => ProtocolOpCode::EncodePlayEvent,
            ProtocolRequest::ExportSessionState { .. } => ProtocolOpCode::ExportSessionState,
            ProtocolRequest::ImportSessionState { .. } => ProtocolOpCode::ImportSessionState,
        }
    }

    /// The payload without its type.
    pub open spec fn payload(&self) -> Value {
        match self {
            ProtocolRequest::Describe => Value::Unit,
            ProtocolRequest::CapabilitySet => Value::Unit,
            ProtocolRequest::TryRoute { frame } => Value::Bytes(frame@),
            ProtocolRequest::DecodeStatus { frame } => Value::Bytes(frame@),
            ProtocolRequest::DecodeLogin { frame } => Value::Bytes(frame@),
            ProtocolRequest::EncodeStatusResponse { status } => status.value(),
            ProtocolRequest::EncodeStatusPong { payload } => payload.value(),
            ProtocolRequest::EncodeDisconnect { phase, reason } => both(
                phase.value(),
                reason.value(),
            ),
            ProtocolRequest::EncodeEncryptionRequest {
                server_id,
                public_key_der,
                verify_token,
            } => both(
                server_id.value(),
                both(Value::Bytes(public_key_der@), Value::Bytes(verify_token@)),
            ),
            ProtocolRequest::EncodeNetworkSettings {
                compression_threshold,
            } => compression_threshold.value(),
            ProtocolRequest::EncodeLoginSuccess { player } => player.value(),
            ProtocolRequest::DecodePlay { player_id, frame } => both(
                player_id.value(),
                Value::Bytes(frame@),
            ),
            ProtocolRequest::EncodePlayEvent { event, context } => both(
                event.value(),
                context.value(),
            ),
            ProtocolRequest::ExportSessionState { session } => session.value(),
            ProtocolRequest::ImportSessionState { session, blob } => both(
                session.value(),
                Value::Bytes(blob@),
            ),
        }
    }

    /// Whether the request is one that can stand on the wire.
    pub open spec fn encodable(&self) -> bool {
        match self {
            ProtocolRequest::EncodeStatusResponse { status } => status.encodable(),
            ProtocolRequest::EncodeDisconnect { phase, reason } => phase.encodable(),
            ProtocolRequest::EncodeLoginSuccess { player } => player.encodable(),
            ProtocolRequest::DecodePlay { player_id, frame } => player_id.encodable(),
            ProtocolRequest::EncodePlayEvent {
                event,
                context,
            } => event.encodable() && context.encodable(),
            ProtocolRequest::ExportSessionState { session } => session.encodable(),
            ProtocolRequest::ImportSessionState { session, blob } => session.encodable(),
            _ => true,
        }
    }
}

fn encode_protocol_request_payload(
    encoder: &mut Encoder, request: &ProtocolRequest,
) -> (result: Result<(), ProtocolCodecError>)
    requires
        request.encodable(),
    ensures
        written(
            protocol_request_format(request.spec_op()),
            request.payload(),
            old(encoder)@,
            final(encoder)@,
            result,
        ),
{
    match request {
        ProtocolRequest::Describe => Ok(()),
        ProtocolRequest::CapabilitySet => Ok(()),
        ProtocolRequest::TryRoute { frame } => {
            encode_bytes(frame, encoder)
        },
        ProtocolRequest::DecodeStatus { frame } => {
            encode_bytes(frame, encoder)
        },
        ProtocolRequest::DecodeLogin { frame } => {
            encode_bytes(frame, encoder)
        },
        ProtocolRequest::EncodeStatusResponse { status } => {
            status.encode(encoder)
        },
        ProtocolRequest::EncodeStatusPong { payload } => {
            payload.encode(encoder)
        },
        ProtocolRequest::EncodeDisconnect { phase, reason } => {
            phase.encode(encoder)?;
            reason.encode(encoder)
        },
        ProtocolRequest::EncodeEncryptionRequest { server_id, public_key_der, verify_token } => {
            server_id.encode(encoder)?;
            encode_bytes(public_key_der, encoder)?;
            encode_bytes(verify_token, encoder)
        },
        ProtocolRequest::EncodeNetworkSettings { compression_threshold } => {
            compression_threshold.encode(encoder)
        },
        ProtocolRequest::EncodeLoginSuccess { player } => {
            player.encode(encoder)
        },
        ProtocolRequest::DecodePlay { player_id, frame } => {
            player_id.encode(encoder)?;
            encode_bytes(frame, encoder)
        },
        ProtocolRequest::EncodePlayEvent { event, context } => {
            event.encode(encoder)?;
            context.encode(encoder)
        },
        ProtocolRequest::ExportSessionState { session } => {
            session.encode(encoder)
        },
        ProtocolRequest::ImportSessionState { session, blob } => {
            session.encode(encoder)?;
            encode_bytes(blob, encoder)
        },
    }
}

fn decode_protocol_request_payload(
    decoder: &mut Decoder<'_>, op: ProtocolOpCode,
) -> (result: Result<ProtocolRequest, ProtocolCodecError>)
    requires
        old(decoder).wf(),
    ensures
        final(decoder).wf(),
        read(
            protocol_request_format(op),
            old(decoder)@,
            final(decoder)@,
            match result {
                Ok(request) => Ok(request.payload()),
                Err(e) => Err(e),
            },
        ),
        result matches Ok(request) ==> request.spec_op() == op && request.encodable(),
{
    match op {
        ProtocolOpCode::Describe => Ok(ProtocolRequest::Describe),
        ProtocolOpCode::CapabilitySet => Ok(ProtocolRequest::CapabilitySet),
        ProtocolOpCode::TryRoute => {
            let frame = decode_bytes(decoder)?;
            Ok(ProtocolRequest::TryRoute { frame })
        },
        ProtocolOpCode::DecodeStatus => {
            let frame = decode_bytes(decoder)?;
            Ok(ProtocolRequest::DecodeStatus { frame })
        },
        ProtocolOpCode::DecodeLogin => {
            let frame = decode_bytes(decoder)?;
            Ok(ProtocolRequest::DecodeLogin { frame })
        },
        ProtocolOpCode::EncodeStatusResponse => {
            let status = ServerListStatus::decode(decoder)?;
            Ok(ProtocolRequest::EncodeStatusResponse { status })
        },
        ProtocolOpCode::EncodeStatusPong => {
            let payload: i64 = i64::decode(decoder)?;
            Ok(ProtocolRequest::EncodeStatusPong { payload })
        },
        ProtocolOpCode::EncodeDisconnect => {
            let phase = ConnectionPhase::decode(decoder)?;
            let reason = String::decode(decoder)?;
            Ok(ProtocolRequest::EncodeDisconnect { phase, reason })
        },
        ProtocolOpCode::EncodeEncryptionRequest => {
            let server_id = String::decode(decoder)?;
            let public_key_der = decode_bytes(decoder)?;
            let verify_token = decode_bytes(decoder)?;
            Ok(ProtocolRequest::EncodeEncryptionRequest { server_id, public_key_der, verify_token })
        },
        ProtocolOpCode::EncodeNetworkSettings => {
            let compression_threshold: u16 = u16::decode(decoder)?;
            Ok(ProtocolRequest::EncodeNetworkSettings { compression_threshold })
        },
        ProtocolOpCode::EncodeLoginSuccess => {
            let player = PlayerSnapshot::decode(decoder)?;
            Ok(ProtocolRequest::EncodeLoginSuccess { player })
        },
        ProtocolOpCode::DecodePlay => {
            let player_id = PlayerId::decode(decoder)?;
            let frame = decode_bytes(decoder)?;
            Ok(ProtocolRequest::DecodePlay { player_id, frame })
        },
        ProtocolOpCode::EncodePlayEvent => {
            let event = CoreEvent::decode(decoder)?;
            let context = PlayEncodingContext::decode(decoder)?;
            Ok(ProtocolRequest::EncodePlayEvent { event, context })
        },
        ProtocolOpCode::ExportSessionState => {
            let session = ProtocolSessionSnapshot::decode(decoder)?;
            Ok(ProtocolRequest::ExportSessionState { session })
        },
        ProtocolOpCode::ImportSessionState => {
            let session = ProtocolSessionSnapshot::decode(decoder)?;
            let blob = decode_bytes(decoder)?;
            Ok(ProtocolRequest::ImportSessionState { session, blob })
        },
    }
}

/// Writes a request.
pub fn encode_protocol_request(request: &ProtocolRequest) -> (result: Result<
    Vec<u8>,
    ProtocolCodecError,
>)
    requires
        request.encodable(),
    ensures
        bytes_view(result) == sealed(
            PluginKind::Protocol,
            request.spec_op().spec_code(),
            false,
            protocol_request_format(request.spec_op()),
            request.payload(),
        ),
{
    let mut payload = Encoder::default();
    encode_protocol_request_payload(&mut payload, request)?;
    let bytes = payload.into_inner();
    seal(PluginKind::Protocol, request.op_code().code(), false, &bytes)
}

/// The request in a message, or why there is none.
pub open spec fn protocol_request_of(
    s: Seq<u8>,
) -> Result<(ProtocolOpCode, Value), ProtocolCodecError> {
    match opened(
        s,
        PluginKind::Protocol,
        false,
        "protocol request had wrong plugin kind",
        "protocol request unexpectedly set response flag",
    ) {
        Err(e) => Err(e),
        Ok((code, payload)) => match protocol_op_of(code) {
            None => Err(ProtocolCodecError::InvalidProtocolOpCode(code)),
            Some(op) => match whole(protocol_request_format(op), payload) {
                Err(e) => Err(e),
                Ok(v) => Ok((op, v)),
            },
        },
    }
}

/// Reads a request.
pub fn decode_protocol_request(
    bytes: &[u8],
) -> (result: Result<ProtocolRequest, ProtocolCodecError>)
    ensures
        match result {
            Ok(request) => protocol_request_of(bytes@) == Ok::<(
                ProtocolOpCode,
                Value,
            ), ProtocolCodecError>(
                (request.spec_op(), request.payload()),
            ) && request.encodable(),
            Err(e) => protocol_request_of(bytes@) == Err::<(
                ProtocolOpCode,
                Value,
            ), ProtocolCodecError>(e),
        },
{
    let (code, payload) = open_message(
        bytes,
        PluginKind::Protocol,
        false,
        "protocol request had wrong plugin kind",
        "protocol request unexpectedly set response flag",
    )?;
    let op = ProtocolOpCode::try_from(code)?;
    let mut decoder = Decoder::new(payload);
    let request = decode_protocol_request_payload(&mut decoder, op)?;
    decoder.finish()?;
    Ok(request)
}

/// Reading a request that was written gives it back, where every section of a chunk in it is under
/// its own height.
pub proof fn protocol_request_round_trip(request: ProtocolRequest)
    requires
        request.encodable(),
        request.placed(),
        sealed(
            PluginKind::Protocol,
            request.spec_op().spec_code(),
            false,
            protocol_request_format(request.spec_op()),
            request.payload(),
        ) is Ok,
    ensures
        protocol_request_of(
            sealed(
                PluginKind::Protocol,
                request.spec_op().spec_code(),
                false,
                protocol_request_format(request.spec_op()),
                request.payload(),
            )->Ok_0,
        ) == Ok::<(ProtocolOpCode, Value), ProtocolCodecError>(
            (request.spec_op(), request.payload()),
        ),
{
    broadcast use plain_rules;

    if let ProtocolRequest::EncodePlayEvent { event, context } = request {
        event_is_orderly(event);
        plain_is_orderly(PlayEncodingContext::format(), context.value());
        orderly_pair(
            CoreEvent::format(),
            PlayEncodingContext::format(),
            event.value(),
            context.value(),
        );
    } else {
        plain_is_orderly(protocol_request_format(request.spec_op()), request.payload());
    }
    message_round_trip(
        PluginKind::Protocol,
        request.spec_op().spec_code(),
        false,
        protocol_request_format(request.spec_op()),
        request.payload(),
        "protocol request had wrong plugin kind",
        "protocol request unexpectedly set response flag",
    );
    protocol_op_codes_agree(request.spec_op());
}

/// A response of a protocol plugin.
#[derive(Debug, PartialEq, Eq)]
pub enum ProtocolResponse {
    Descriptor(ProtocolDescriptor),
    CapabilitySet(CapabilitySet),
    HandshakeIntent(Option<HandshakeIntent>),
    StatusRequest(StatusRequest),
    LoginRequest(LoginRequest),
    Frame(Vec<u8>),
    CoreCommand(Option<CoreCommand>),
    Frames(Vec<Vec<u8>>),
    SessionTransferBlob(Vec<u8>),
    Empty,
}

/// The format of the payload of a response.
pub open spec fn protocol_response_format(op: ProtocolOpCode) -> Format {
    match op {
        ProtocolOpCode::Describe => ProtocolDescriptor::format(),
        ProtocolOpCode::CapabilitySet => CapabilitySet::format(),
        ProtocolOpCode::TryRoute => <Option<HandshakeIntent>>::format(),
        ProtocolOpCode::DecodeStatus => StatusRequest::format(),
        ProtocolOpCode::DecodeLogin => LoginRequest::format(),
        ProtocolOpCode::EncodeStatusResponse
        | ProtocolOpCode::EncodeStatusPong
        | ProtocolOpCode::EncodeDisconnect
        | ProtocolOpCode::EncodeEncryptionRequest
        | ProtocolOpCode::EncodeNetworkSettings
        | ProtocolOpCode::EncodeLoginSuccess => Format::Bytes,
        ProtocolOpCode::DecodePlay => <Option<CoreCommand>>::format(),
        ProtocolOpCode::EncodePlayEvent => list(Format::Bytes),
        ProtocolOpCode::ExportSessionState => Format::Bytes,
        ProtocolOpCode::ImportSessionState => Format::Unit,
    }
}

impl ProtocolResponse {
    /// Whether the response is one to an operation.
    pub open spec fn answers(&self, op: ProtocolOpCode) -> bool {
        match (op, self) {
            (ProtocolOpCode::Describe, ProtocolResponse::Descriptor(_)) => true,
            (ProtocolOpCode::CapabilitySet, ProtocolResponse::CapabilitySet(_)) => true,
            (ProtocolOpCode::TryRoute, ProtocolResponse::HandshakeIntent(_)) => true,
            (ProtocolOpCode::DecodeStatus, ProtocolResponse::StatusRequest(_)) => true,
            (ProtocolOpCode::DecodeLogin, ProtocolResponse::LoginRequest(_)) => true,
            (
                ProtocolOpCode::EncodeStatusResponse
                | ProtocolOpCode::EncodeStatusPong
                | ProtocolOpCode::EncodeDisconnect
                | ProtocolOpCode::EncodeEncryptionRequest
                | ProtocolOpCode::EncodeNetworkSettings
                | ProtocolOpCode::EncodeLoginSuccess,
                ProtocolResponse::Frame(_),
            ) => true,
            (ProtocolOpCode::DecodePlay, ProtocolResponse::CoreCommand(_)) => true,
            (ProtocolOpCode::EncodePlayEvent, ProtocolResponse::Frames(_)) => true,
            (ProtocolOpCode::ExportSessionState, ProtocolResponse::SessionTransferBlob(_)) => true,
            (ProtocolOpCode::ImportSessionState, ProtocolResponse::Empty) => true,
            _ => false,
        }
    }

    /// The payload without its type.
    pub open spec fn payload(&self) -> Value {
        match self {
            ProtocolResponse::Descriptor(x) => x.value(),
            ProtocolResponse::CapabilitySet(x) => x.value(),
            ProtocolResponse::HandshakeIntent(x) => x.value(),
            ProtocolResponse::StatusRequest(x) => x.value(),
            ProtocolResponse::LoginRequest(x) => x.value(),
            ProtocolResponse::Frame(x) => Value::Bytes(x@),
            ProtocolResponse::CoreCommand(x) => x.value(),
            ProtocolResponse::Frames(x) => Value::List(frame_values(x@)),
            ProtocolResponse::SessionTransferBlob(x) => Value::Bytes(x@),
            ProtocolResponse::Empty => Value::Unit,
        }
    }

    /// Whether the response is one that can stand on the wire.
    pub open spec fn encodable(&self) -> bool {
        match self {
            ProtocolResponse::Descriptor(x) => x.encodable(),
            ProtocolResponse::CapabilitySet(x) => x.encodable(),
            ProtocolResponse::HandshakeIntent(x) => x.encodable(),
            ProtocolResponse::StatusRequest(x) => x.encodable(),
            ProtocolResponse::LoginRequest(x) => x.encodable(),
            ProtocolResponse::CoreCommand(x) => x.encodable(),
            _ => true,
        }
    }
}

fn encode_protocol_response_payload(
    encoder: &mut Encoder, op: ProtocolOpCode, response: &ProtocolResponse,
) -> (result: Result<(), ProtocolCodecError>)
    requires
        response.encodable(),
    ensures
        if response.answers(op) {
            written(
                protocol_response_format(op),
                response.payload(),
                old(encoder)@,
                final(encoder)@,
                result,
            )
        } else {
            result == Err::<(), ProtocolCodecError>(
                ProtocolCodecError::InvalidValue("protocol response did not match opcode"),
            )
        },
{
    match (op, response) {
        (ProtocolOpCode::Describe, ProtocolResponse::Descriptor(x)) => {
            x.encode(encoder)
        },
        (ProtocolOpCode::CapabilitySet, ProtocolResponse::CapabilitySet(x)) => {
            x.encode(encoder)
        },
        (ProtocolOpCode::TryRoute, ProtocolResponse::HandshakeIntent(x)) => {
            x.encode(encoder)
        },
        (ProtocolOpCode::DecodeStatus, ProtocolResponse::StatusRequest(x)) => {
            x.encode(encoder)
        },
        (ProtocolOpCode::DecodeLogin, ProtocolResponse::LoginRequest(x)) => {
            x.encode(encoder)
        },
        (
            ProtocolOpCode::EncodeStatusResponse
            | ProtocolOpCode::EncodeStatusPong
            | ProtocolOpCode::EncodeDisconnect
            | ProtocolOpCode::EncodeEncryptionRequest
            | ProtocolOpCode::EncodeNetworkSettings
            | ProtocolOpCode::EncodeLoginSuccess,
            ProtocolResponse::Frame(x),
        ) => {
            encode_bytes(x, encoder)
        },
        (ProtocolOpCode::DecodePlay, ProtocolResponse::CoreCommand(x)) => {
            x.encode(encoder)
        },
        (ProtocolOpCode::EncodePlayEvent, ProtocolResponse::Frames(x)) => {
            encode_frames(x, encoder)
        },
        (ProtocolOpCode::ExportSessionState, ProtocolResponse::SessionTransferBlob(x)) => {
            encode_bytes(x, encoder)
        },
        (ProtocolOpCode::ImportSessionState, ProtocolResponse::Empty) => Ok(()),
        _ => Err(ProtocolCodecError::InvalidValue("protocol response did not match opcode")),
    }
}

fn decode_protocol_response_payload(
    decoder: &mut Decoder<'_>, op: ProtocolOpCode,
) -> (result: Result<ProtocolResponse, ProtocolCodecError>)
    requires
        old(decoder).wf(),
    ensures
        final(decoder).wf(),
        read(
            protocol_response_format(op),
            old(decoder)@,
            final(decoder)@,
            match result {
                Ok(response) => Ok(response.payload()),
                Err(e) => Err(e),
            },
        ),
        result matches Ok(response) ==> response.answers(op) && response.encodable(),
{
    match op {
        ProtocolOpCode::Describe => {
            let x = ProtocolDescriptor::decode(decoder)?;
            Ok(ProtocolResponse::Descriptor(x))
        },
        ProtocolOpCode::CapabilitySet => {
            let x = CapabilitySet::decode(decoder)?;
            Ok(ProtocolResponse::CapabilitySet(x))
        },
        ProtocolOpCode::TryRoute => {
            let x = Option::<HandshakeIntent>::decode(decoder)?;
            Ok(ProtocolResponse::HandshakeIntent(x))
        },
        ProtocolOpCode::DecodeStatus => {
            let x = StatusRequest::decode(decoder)?;
            Ok(ProtocolResponse::StatusRequest(x))
        },
        ProtocolOpCode::DecodeLogin => {
            let x = LoginRequest::decode(decoder)?;
            Ok(ProtocolResponse::LoginRequest(x))
        },
        ProtocolOpCode::EncodeStatusResponse
        | ProtocolOpCode::EncodeStatusPong
        | ProtocolOpCode::EncodeDisconnect
        | ProtocolOpCode::EncodeEncryptionRequest
        | ProtocolOpCode::EncodeNetworkSettings
        | ProtocolOpCode::EncodeLoginSuccess => {
            let x = decode_bytes(decoder)?;
            Ok(ProtocolResponse::Frame(x))
        },
        ProtocolOpCode::DecodePlay => {
            let x = Option::<CoreCommand>::decode(decoder)?;
            Ok(ProtocolResponse::CoreCommand(x))
        },
        ProtocolOpCode::EncodePlayEvent => {
            let x = decode_frames(decoder)?;
            Ok(ProtocolResponse::Frames(x))
        },
        ProtocolOpCode::ExportSessionState => {
            let x = decode_bytes(decoder)?;
            Ok(ProtocolResponse::SessionTransferBlob(x))
        },
        ProtocolOpCode::ImportSessionState => Ok(ProtocolResponse::Empty),
    }
}

/// Writes the response to a request.
pub fn encode_protocol_response(
    request: &ProtocolRequest, response: &ProtocolResponse,
) -> (result: Result<Vec<u8>, ProtocolCodecError>)
    requires
        response.encodable(),
    ensures
        bytes_view(result) == if response.answers(request.spec_op()) {
            sealed(
                PluginKind::Protocol,
                request.spec_op().spec_code(),
                true,
                protocol_response_format(request.spec_op()),
                response.payload(),
            )
        } else {
            Err(ProtocolCodecError::InvalidValue("protocol response did not match opcode"))
        },
{
    let mut payload = Encoder::default();
    encode_protocol_response_payload(&mut payload, request.op_code(), response)?;
    let bytes = payload.into_inner();
    seal(PluginKind::Protocol, request.op_code().code(), true, &bytes)
}

/// The response to an operation in a message, or why there is none.
pub open spec fn protocol_response_of(
    op: ProtocolOpCode,
    s: Seq<u8>,
) -> Result<Value, ProtocolCodecError> {
    match opened(
        s,
        PluginKind::Protocol,
        true,
        "protocol response had wrong plugin kind",
        "protocol response was missing response flag",
    ) {
        Err(e) => Err(e),
        Ok((code, payload)) => if code != op.spec_code() {
            Err(
                ProtocolCodecError::InvalidEnvelope(
                    "protocol response opcode did not match request",
                ),
            )
        } else {
            whole(protocol_response_format(op), payload)
        },
    }
}

/// Reads the response to a request.
pub fn decode_protocol_response(
    request: &ProtocolRequest, bytes: &[u8],
) -> (result: Result<ProtocolResponse, ProtocolCodecError>)
    ensures
        match result {
            Ok(response) => protocol_response_of(request.spec_op(), bytes@) == Ok::<
                Value,
                ProtocolCodecError,
            >(response.payload()) && response.answers(request.spec_op())
                && response.encodable(),
            Err(e) => protocol_response_of(request.spec_op(), bytes@) == Err::<
                Value,
                ProtocolCodecError,
            >(e),
        },
{
    let (code, payload) = open_message(
        bytes,
        PluginKind::Protocol,
        true,
        "protocol response had wrong plugin kind",
        "protocol response was missing response flag",
    )?;
    if code != request.op_code().code() {
        return Err(
            ProtocolCodecError::InvalidEnvelope("protocol response opcode did not match request"),
        );
    }
    let mut decoder = Decoder::new(payload);
    let response = decode_protocol_response_payload(&mut decoder, request.op_code())?;
    decoder.finish()?;
    Ok(response)
}

/// Reading a response that was written for an operation gives it back.
pub proof fn protocol_response_round_trip(op: ProtocolOpCode, response: ProtocolResponse)
    requires
        response.encodable(),
        response.answers(op),
        sealed(
            PluginKind::Protocol,
            op.spec_code(),
            true,
            protocol_response_format(op),
            response.payload(),
        ) is Ok,
    ensures
        protocol_response_of(
            op,
            sealed(
                PluginKind::Protocol,
                op.spec_code(),
                true,
                protocol_response_format(op),
                response.payload(),
            )->Ok_0,
        ) == Ok::<Value, ProtocolCodecError>(
            response.payload(),
        ),
{
    broadcast use plain_rules;

    plain_is_orderly(protocol_response_format(op), response.payload());
    message_round_trip(
        PluginKind::Protocol,
        op.spec_code(),
        true,
        protocol_response_format(op),
        response.payload(),
        "protocol response had wrong plugin kind",
        "protocol response was missing response flag",
    );
    protocol_op_codes_agree(op);
}

} // verus!
