//! Messages to and from gameplay plugins.

use crate::codec::binary::{Decoder, Encoder};
use crate::codec::grammar::{both, pair, plain_is_orderly, Format, ProtocolCodecError, Value};
use crate::codec::placement::plain_rules;
use crate::codec::capability::{
    announcement_is_orderly, decode_capabilities, decode_capability_announcement,
    encode_capabilities, encode_capability_announcement, set_within,
};
use crate::model::capability::{CapabilityAnnouncement, CapabilitySet, CapabilityVocabulary};
use crate::model::event::GameplayCommand;
use crate::model::ids::{EntityId, PlayerId, PluginGenerationId};
use crate::model::names::GameplayProfileId;
use crate::model::session::ConnectionPhase;
use crate::codec::message::{
    bytes_view, message_round_trip, open_message, opened, seal, sealed, whole,
};
use crate::codec::wire::{compound_rules, decode_bytes, encode_bytes, read, written, Wire};
use crate::plugin::abi::PluginKind;
use vstd::prelude::*;

verus! {

broadcast use compound_rules;

/// What a gameplay plugin is.
#[derive(Debug, PartialEq, Eq)]
pub struct GameplayDescriptor {
    pub profile: GameplayProfileId,
}

impl Wire for GameplayDescriptor {
    open spec fn format() -> Format {
        GameplayProfileId::format()
    }

    open spec fn value(&self) -> Value {
        self.profile.value()
    }

    open spec fn encodable(&self) -> bool {
        self.profile.encodable()
    }

    fn encode(&self, encoder: &mut Encoder) -> (result: Result<(), ProtocolCodecError>) {
        self.profile.encode(encoder)
    }

    fn decode(decoder: &mut Decoder<'_>) -> (result: Result<Self, ProtocolCodecError>) {
        let profile = GameplayProfileId::decode(decoder)?;
        Ok(GameplayDescriptor { profile })
    }
}

/// What a gameplay plugin is told of a session.
#[derive(Debug, PartialEq, Eq)]
pub struct GameplaySessionSnapshot {
    pub phase: ConnectionPhase,
    pub player_id: Option<PlayerId>,
    pub entity_id: Option<EntityId>,
    pub protocol: CapabilitySet,
    pub gameplay_profile: GameplayProfileId,
    pub protocol_generation: Option<PluginGenerationId>,
    pub gameplay_generation: Option<PluginGenerationId>,
}

/// The format of what a gameplay plugin is told of a session.
pub open spec fn session_format(vocabulary: Seq<Seq<char>>) -> Format {
    pair(
        ConnectionPhase::format(),
        pair(
            <Option<PlayerId>>::format(),
            pair(
                <Option<EntityId>>::format(),
                pair(
                    Format::Capabilities(vocabulary),
                    pair(
                        GameplayProfileId::format(),
                        pair(
                            <Option<PluginGenerationId>>::format(),
                            <Option<PluginGenerationId>>::format(),
                        ),
                    ),
                ),
            ),
        ),
    )
}

impl GameplaySessionSnapshot {
    /// The session without its type.
    pub open spec fn spec_value(&self) -> Value {
        both(
            self.phase.value(),
            both(
                self.player_id.value(),
                both(
                    self.entity_id.value(),
                    both(
                        Value::List(self.protocol@),
                        both(
                            self.gameplay_profile.value(),
                            both(
                                self.protocol_generation.value(),
                                self.gameplay_generation.value(),
                            ),
                        ),
                    ),
                ),
            ),
        )
    }

    /// Whether the capabilities are of a vocabulary.
    pub open spec fn within(&self, vocabulary: Seq<Seq<char>>) -> bool {
        set_within(&self.protocol, vocabulary)
    }
}

fn encode_session(
    session: &GameplaySessionSnapshot,
    vocabulary: &CapabilityVocabulary,
    encoder: &mut Encoder,
) -> (result: Result<(), ProtocolCodecError>)
    requires
        session.within(vocabulary@),
    ensures
        written(
            session_format(vocabulary@),
            session.spec_value(),
            old(encoder)@,
            final(encoder)@,
            result,
        ),
{
    session.phase.encode(encoder)?;
    session.player_id.encode(encoder)?;
    session.entity_id.encode(encoder)?;
    encode_capabilities(&session.protocol, vocabulary, encoder)?;
    session.gameplay_profile.encode(encoder)?;
    session.protocol_generation.encode(encoder)?;
    session.gameplay_generation.encode(encoder)
}

fn decode_session(decoder: &mut Decoder<'_>, vocabulary: &CapabilityVocabulary) -> (result: Result<
    GameplaySessionSnapshot,
    ProtocolCodecError,
>)
    requires
        old(decoder).wf(),
    ensures
        final(decoder).wf(),
        read(
            session_format(vocabulary@),
            old(decoder)@,
            final(decoder)@,
            match result {
                Ok(session) => Ok(session.spec_value()),
                Err(e) => Err(e),
            },
        ),
        result matches Ok(session) ==> session.within(vocabulary@),
{
    let phase = ConnectionPhase::decode(decoder)?;
    let player_id = Option::<PlayerId>::decode(decoder)?;
    let entity_id = Option::<EntityId>::decode(decoder)?;
    let protocol = decode_capabilities(decoder, vocabulary)?;
    let gameplay_profile = GameplayProfileId::decode(decoder)?;
    let protocol_generation = Option::<PluginGenerationId>::decode(decoder)?;
    let gameplay_generation = Option::<PluginGenerationId>::decode(decoder)?;
    Ok(
        GameplaySessionSnapshot {
            phase,
            player_id,
            entity_id,
            protocol,
            gameplay_profile,
            protocol_generation,
            gameplay_generation,
        },
    )
}

/// The operations of gameplay plugins.
#[derive(Clone, Copy, Debug, PartialEq, Eq, Structural)]
pub enum GameplayOpCode {
    Describe,
    CapabilitySet,
    HandlePlayerJoin,
    HandleCommand,
    HandleTick,
    SessionClosed,
    ExportSessionState,
    ImportSessionState,
}

/// The operation with a given number, if there is one.
pub open spec fn gameplay_op_of(code: u8) -> Option<GameplayOpCode> {
    if code == 1 {
        Some(GameplayOpCode::Describe)
    } else if code == 2 {
        Some(GameplayOpCode::CapabilitySet)
    } else if code == 3 {
        Some(GameplayOpCode::HandlePlayerJoin)
    } else if code == 4 {
        Some(GameplayOpCode::HandleCommand)
    } else if code == 5 {
        Some(GameplayOpCode::HandleTick)
    } else if code == 6 {
        Some(GameplayOpCode::SessionClosed)
    } else if code == 7 {
        Some(GameplayOpCode::ExportSessionState)
    } else if code == 8 {
        Some(GameplayOpCode::ImportSessionState)
    } else {
        None
    }
}

impl GameplayOpCode {
    /// The number of the operation.
    pub open spec fn spec_code(self) -> u8 {
        match self {
            GameplayOpCode::Describe => 1,
            GameplayOpCode::CapabilitySet => 2,
            GameplayOpCode::HandlePlayerJoin => 3,
            GameplayOpCode::HandleCommand => 4,
            GameplayOpCode::HandleTick => 5,
            GameplayOpCode::SessionClosed => 6,
            GameplayOpCode::ExportSessionState => 7,
            GameplayOpCode::ImportSessionState => 8,
        }
    }

    /// The number of the operation.
    pub fn code(self) -> (result: u8)
        ensures
            result == self.spec_code(),
    {
        match self {
            GameplayOpCode::Describe => 1,
            GameplayOpCode::CapabilitySet => 2,
            GameplayOpCode::HandlePlayerJoin => 3,
            GameplayOpCode::HandleCommand => 4,
            GameplayOpCode::HandleTick => 5,
            GameplayOpCode::SessionClosed => 6,
            GameplayOpCode::ExportSessionState => 7,
            GameplayOpCode::ImportSessionState => 8,
        }
    }

    /// The operation with a given number.
    pub fn try_from(value: u8) -> (result: Result<Self, ProtocolCodecError>)
        ensures
            match gameplay_op_of(value) {
                Some(op) => result == Ok::<Self, ProtocolCodecError>(op),
                None => result == Err::<Self, ProtocolCodecError>(
                    ProtocolCodecError::InvalidValue("invalid gameplay op code"),
                ),
            },
    {
        match value {
            1 => Ok(GameplayOpCode::Describe),
            2 => Ok(GameplayOpCode::CapabilitySet),
            3 => Ok(GameplayOpCode::HandlePlayerJoin),
            4 => Ok(GameplayOpCode::HandleCommand),
            5 => Ok(GameplayOpCode::HandleTick),
            6 => Ok(GameplayOpCode::SessionClosed),
            7 => Ok(GameplayOpCode::ExportSessionState),
            8 => Ok(GameplayOpCode::ImportSessionState),
            _ => Err(ProtocolCodecError::InvalidValue("invalid gameplay op code")),
        }
    }
}

/// Every operation is the one with its number.
pub proof fn gameplay_op_codes_agree(op: GameplayOpCode)
    ensures
        gameplay_op_of(op.spec_code()) == Some(op),
{
}

/// A request to a gameplay plugin.
#[derive(Debug, PartialEq, Eq)]
pub enum GameplayRequest {
    Describe,
    CapabilitySet,
    HandlePlayerJoin { session: GameplaySessionSnapshot, player_id: PlayerId },
    HandleCommand { session: GameplaySessionSnapshot, command: GameplayCommand },
    HandleTick { session: GameplaySessionSnapshot, now_ms: u64 },
    SessionClosed { session: GameplaySessionSnapshot },
    ExportSessionState { session: GameplaySessionSnapshot },
    ImportSessionState { session: GameplaySessionSnapshot, blob: Vec<u8> },
}

/// The format of the payload of a request.
pub open spec fn gameplay_request_format(op: GameplayOpCode, vocabulary: Seq<Seq<char>>) -> Format {
    match op {
        GameplayOpCode::Describe => Format::Unit,
        GameplayOpCode::CapabilitySet => Format::Unit,
        GameplayOpCode::HandlePlayerJoin => pair(session_format(vocabulary), PlayerId::format()),
        GameplayOpCode::HandleCommand => pair(
            session_format(vocabulary),
            GameplayCommand::format(),
        ),
        GameplayOpCode::HandleTick => pair(session_format(vocabulary), u64::format()),
        GameplayOpCode::SessionClosed => session_format(vocabulary),
        GameplayOpCode::ExportSessionState => session_format(vocabulary),
        GameplayOpCode::ImportSessionState => pair(session_format(vocabulary), Format::Bytes),
    }
}

impl GameplayRequest {
    /// The operation that is asked for.
    pub open spec fn spec_op(&self) -> GameplayOpCode {
        match self {
            GameplayRequest::Describe => GameplayOpCode::Describe,
            GameplayRequest::CapabilitySet => GameplayOpCode::CapabilitySet,
            GameplayRequest::HandlePlayerJoin { .. } => GameplayOpCode::HandlePlayerJoin,
            GameplayRequest::HandleCommand { .. } => GameplayOpCode::HandleCommand,
            GameplayRequest::HandleTick { .. } => GameplayOpCode::HandleTick,
            GameplayRequest::SessionClosed { .. } => GameplayOpCode::SessionClosed,
            GameplayRequest::ExportSessionState { .. } => GameplayOpCode::ExportSessionState,
            GameplayRequest::ImportSessionState { .. } => GameplayOpCode::ImportSessionState,
        }
    }

    /// The operation that is asked for.
    pub fn op_code(&self) -> (result: GameplayOpCode)
        ensures
            result == self.spec_op(),
    {
        match self {
            GameplayRequest::Describe => GameplayOpCode::Describe,
            GameplayRequest::CapabilitySet => GameplayOpCode::CapabilitySet,
            GameplayRequest::HandlePlayerJoin { .. } => GameplayOpCode::HandlePlayerJoin,
            GameplayRequest::HandleCommand { .. } => GameplayOpCode::HandleCommand,
            GameplayRequest::HandleTick { .. } => GameplayOpCode::HandleTick,
            GameplayRequest::SessionClosed { .. } => GameplayOpCode::SessionClosed,
            GameplayRequest::ExportSessionState { .. } => GameplayOpCode::ExportSessionState,
            GameplayRequest::ImportSessionState { .. } => GameplayOpCode::ImportSessionState,
        }
    }

    /// The payload without its type.
    pub open spec fn payload(&self) -> Value {
        match self {
            GameplayRequest::Describe => Value::Unit,
            GameplayRequest::CapabilitySet => Value::Unit,
            GameplayRequest::HandlePlayerJoin { session, player_id } => both(
                session.spec_value(),
                player_id.value(),
            ),
            GameplayRequest::HandleCommand { session, command } => both(
                session.spec_value(),
                command.value(),
            ),
            GameplayRequest::HandleTick { session, now_ms } => both(
                session.spec_value(),
                now_ms.value(),
            ),
            GameplayRequest::SessionClosed { session } => session.spec_value(),
            GameplayRequest::ExportSessionState { session } => session.spec_value(),
            GameplayRequest::ImportSessionState { session, blob } => both(
                session.spec_value(),
                Value::Bytes(blob@),
            ),
        }
    }

    /// Whether the request is one that can stand on the wire.
    pub open spec fn encodable(&self, vocabulary: Seq<Seq<char>>) -> bool {
        match self {
            GameplayRequest::HandlePlayerJoin { session, player_id } => session.within(
                vocabulary,
            ) && player_id.encodable(),
            GameplayRequest::HandleCommand { session, command } => session.within(
                vocabulary,
            ) && command.encodable(),
            GameplayRequest::HandleTick { session, now_ms } => session.within(vocabulary),
            GameplayRequest::SessionClosed { session } => session.within(vocabulary),
            GameplayRequest::ExportSessionState { session } => session.within(vocabulary),
            GameplayRequest::ImportSessionState { session, blob } => session.within(vocabulary),
            _ => true,
        }
    }
}

fn encode_gameplay_request_payload(
    encoder: &mut Encoder, request: &GameplayRequest, vocabulary: &CapabilityVocabulary,
) -> (result: Result<(), ProtocolCodecError>)
    requires
        request.encodable(vocabulary@),
    ensures
        written(
            gameplay_request_format(request.spec_op(), vocabulary@),
            request.payload(),
            old(encoder)@,
            final(encoder)@,
            result,
        ),
{
    match request {
        GameplayRequest::Describe => Ok(()),
        GameplayRequest::CapabilitySet => Ok(()),
        GameplayRequest::HandlePlayerJoin { session, player_id } => {
            encode_session(session, vocabulary, encoder)?;
            player_id.encode(encoder)
        },
        GameplayRequest::HandleCommand { session, command } => {
            encode_session(session, vocabulary, encoder)?;
            command.encode(encoder)
        },
        GameplayRequest::HandleTick { session, now_ms } => {
            encode_session(session, vocabulary, encoder)?;
            now_ms.encode(encoder)
        },
        GameplayRequest::SessionClosed { session } => {
            encode_session(session, vocabulary, encoder)
        },
        GameplayRequest::ExportSessionState { session } => {
            encode_session(session, vocabulary, encoder)
        },
        GameplayRequest::ImportSessionState { session, blob } => {
            encode_session(session, vocabulary, encoder)?;
            encode_bytes(blob, encoder)
        },
    }
}

fn decode_gameplay_request_payload(
    decoder: &mut Decoder<'_>, op: GameplayOpCode, vocabulary: &CapabilityVocabulary,
) -> (result: Result<GameplayRequest, ProtocolCodecError>)
    requires
        old(decoder).wf(),
    ensures
        final(decoder).wf(),
        read(
            gameplay_request_format(op, vocabulary@),
            old(decoder)@,
            final(decoder)@,
            match result {
                Ok(request) => Ok(request.payload()),
                Err(e) => Err(e),
            },
        ),
        result matches Ok(request) ==> request.spec_op() == op && request.encodable(vocabulary@),
{
    match op {
        GameplayOpCode::Describe => Ok(GameplayRequest::Describe),
        GameplayOpCode::CapabilitySet => Ok(GameplayRequest::CapabilitySet),
        GameplayOpCode::HandlePlayerJoin => {
            let session = decode_session(decoder, vocabulary)?;
            let player_id = PlayerId::decode(decoder)?;
            Ok(GameplayRequest::HandlePlayerJoin { session, player_id })
        },
        GameplayOpCode::HandleCommand => {
            let session = decode_session(decoder, vocabulary)?;
            let command = GameplayCommand::decode(decoder)?;
            Ok(GameplayRequest::HandleCommand { session, command })
        },
        GameplayOpCode::HandleTick => {
            let session = decode_session(decoder, vocabulary)?;
            let now_ms: u64 = u64::decode(decoder)?;
            Ok(GameplayRequest::HandleTick { session, now_ms })
        },
        GameplayOpCode::SessionClosed => {
            let session = decode_session(decoder, vocabulary)?;
            Ok(GameplayRequest::SessionClosed { session })
        },
        GameplayOpCode::ExportSessionState => {
            let session = decode_session(decoder, vocabulary)?;
            Ok(GameplayRequest::ExportSessionState { session })
        },
        GameplayOpCode::ImportSessionState => {
            let session = decode_session(decoder, vocabulary)?;
            let blob = decode_bytes(decoder)?;
            Ok(GameplayRequest::ImportSessionState { session, blob })
        },
    }
}

/// Writes a request.
pub fn encode_gameplay_request(
    request: &GameplayRequest,
    vocabulary: &CapabilityVocabulary,
) -> (result: Result<
    Vec<u8>,
    ProtocolCodecError,
>)
    requires
        request.encodable(vocabulary@),
    ensures
        bytes_view(result) == sealed(
            PluginKind::Gameplay,
            request.spec_op().spec_code(),
            false,
            gameplay_request_format(request.spec_op(), vocabulary@),
            request.payload(),
        ),
{
    let mut payload = Encoder::default();
    encode_gameplay_request_payload(&mut payload, request, vocabulary)?;
    let bytes = payload.into_inner();
    seal(PluginKind::Gameplay, request.op_code().code(), false, &bytes)
}

/// The request in a message, or why there is none.
pub open spec fn gameplay_request_of(
    s: Seq<u8>,
    vocabulary: Seq<Seq<char>>,
) -> Result<(GameplayOpCode, Value), ProtocolCodecError> {
    match opened(
        s,
        PluginKind::Gameplay,
        false,
        "gameplay request had wrong plugin kind",
        "gameplay request unexpectedly set response flag",
    ) {
        Err(e) => Err(e),
        Ok((code, payload)) => match gameplay_op_of(code) {
            None => Err(ProtocolCodecError::InvalidValue("invalid gameplay op code")),
            Some(op) => match whole(gameplay_request_format(op, vocabulary), payload) {
                Err(e) => Err(e),
                Ok(v) => Ok((op, v)),
            },
        },
    }
}

/// Reads a request.
pub fn decode_gameplay_request(
    bytes: &[u8],
    vocabulary: &CapabilityVocabulary,
) -> (result: Result<GameplayRequest, ProtocolCodecError>)
    ensures
        match result {
            Ok(request) => gameplay_request_of(bytes@, vocabulary@) == Ok::<(
                GameplayOpCode,
                Value,
            ), ProtocolCodecError>(
                (request.spec_op(), request.payload()),
            ) && request.encodable(vocabulary@),
            Err(e) => gameplay_request_of(bytes@, vocabulary@) == Err::<(
                GameplayOpCode,
                Value,
            ), ProtocolCodecError>(e),
        },
{
    let (code, payload) = open_message(
        bytes,
        PluginKind::Gameplay,
        false,
        "gameplay request had wrong plugin kind",
        "gameplay request unexpectedly set response flag",
    )?;
    let op = GameplayOpCode::try_from(code)?;
    let mut decoder = Decoder::new(payload);
    let request = decode_gameplay_request_payload(&mut decoder, op, vocabulary)?;
    decoder.finish()?;
    Ok(request)
}

/// Reading a request that was written gives it back.
pub proof fn gameplay_request_round_trip(request: GameplayRequest, vocabulary: Seq<Seq<char>>)
    requires
        request.encodable(vocabulary),
        sealed(
            PluginKind::Gameplay,
            request.spec_op().spec_code(),
            false,
            gameplay_request_format(request.spec_op(), vocabulary),
            request.payload(),
        ) is Ok,
    ensures
        gameplay_request_of(
            sealed(
                PluginKind::Gameplay,
                request.spec_op().spec_code(),
                false,
                gameplay_request_format(request.spec_op(), vocabulary),
                request.payload(),
            )->Ok_0,
            vocabulary,
        ) == Ok::<(GameplayOpCode, Value), ProtocolCodecError>(
            (request.spec_op(), request.payload()),
        ),
{
    broadcast use plain_rules;

    plain_is_orderly(gameplay_request_format(request.spec_op(), vocabulary), request.payload());
    message_round_trip(
        PluginKind::Gameplay,
        request.spec_op().spec_code(),
        false,
        gameplay_request_format(request.spec_op(), vocabulary),
        request.payload(),
        "gameplay request had wrong plugin kind",
        "gameplay request unexpectedly set response flag",
    );
    gameplay_op_codes_agree(request.spec_op());
}

/// A response of a gameplay plugin.
#[derive(Debug, PartialEq, Eq)]
pub enum GameplayResponse {
    Descriptor(GameplayDescriptor),
    CapabilitySet(CapabilityAnnouncement),
    Empty,
    SessionTransferBlob(Vec<u8>),
}

/// The format of the payload of a response.
pub open spec fn gameplay_response_format(
    op: GameplayOpCode,
    vocabulary: Seq<Seq<char>>,
) -> Format {
    match op {
        GameplayOpCode::Describe => GameplayDescriptor::format(),
        GameplayOpCode::CapabilitySet => Format::Announcement(vocabulary),
        GameplayOpCode::HandlePlayerJoin
        | GameplayOpCode::HandleCommand
        | GameplayOpCode::HandleTick
        | GameplayOpCode::SessionClosed
        | GameplayOpCode::ImportSessionState => Format::Unit,
        GameplayOpCode::ExportSessionState => Format::Bytes,
    }
}

impl GameplayResponse {
    /// Whether a build that the response names has a name.
    pub open spec fn named(&self) -> bool {
        self matches GameplayResponse::CapabilitySet(announcement) ==> announcement.named()
    }

    /// Whether the response is one to an operation.
    pub open spec fn answers(&self, op: GameplayOpCode) -> bool {
        match (op, self) {
            (GameplayOpCode::Describe, GameplayResponse::Descriptor(_)) => true,
            (GameplayOpCode::CapabilitySet, GameplayResponse::CapabilitySet(_)) => true,
            (
                GameplayOpCode::HandlePlayerJoin
                | GameplayOpCode::HandleCommand
                | GameplayOpCode::HandleTick
                | GameplayOpCode::SessionClosed
                | GameplayOpCode::ImportSessionState,
                GameplayResponse::Empty,
            ) => true,
            (GameplayOpCode::ExportSessionState, GameplayResponse::SessionTransferBlob(_)) => true,
            _ => false,
        }
    }

    /// The payload without its type.
    pub open spec fn payload(&self) -> Value {
        match self {
            GameplayResponse::Descriptor(x) => x.value(),
            GameplayResponse::CapabilitySet(x) => x.spec_value(),
            GameplayResponse::Empty => Value::Unit,
            GameplayResponse::SessionTransferBlob(x) => Value::Bytes(x@),
        }
    }

    /// Whether the response is one that can stand on the wire.
    pub open spec fn encodable(&self, vocabulary: Seq<Seq<char>>) -> bool {
        match self {
            GameplayResponse::Descriptor(x) => x.encodable(),
            GameplayResponse::CapabilitySet(x) => x.within(vocabulary),
            _ => true,
        }
    }
}

fn encode_gameplay_response_payload(
    encoder: &mut Encoder,
    op: GameplayOpCode,
    response: &GameplayResponse,
    vocabulary: &CapabilityVocabulary,
) -> (result: Result<(), ProtocolCodecError>)
    requires
        response.encodable(vocabulary@),
    ensures
        if response.answers(op) {
            written(
                gameplay_response_format(op, vocabulary@),
                response.payload(),
                old(encoder)@,
                final(encoder)@,
                result,
            )
        } else {
            result == Err::<(), ProtocolCodecError>(
                ProtocolCodecError::InvalidValue("unexpected gameplay response payload"),
            )
        },
{
    match (op, response) {
        (GameplayOpCode::Describe, GameplayResponse::Descriptor(x)) => {
            x.encode(encoder)
        },
        (GameplayOpCode::CapabilitySet, GameplayResponse::CapabilitySet(x)) => {
            encode_capability_announcement(x, vocabulary, encoder)
        },
        (
            GameplayOpCode::HandlePlayerJoin
            | GameplayOpCode::HandleCommand
            | GameplayOpCode::HandleTick
            | GameplayOpCode::SessionClosed
            | GameplayOpCode::ImportSessionState,
            GameplayResponse::Empty,
        ) => Ok(()),
        (GameplayOpCode::ExportSessionState, GameplayResponse::SessionTransferBlob(x)) => {
            encode_bytes(x, encoder)
        },
        _ => Err(ProtocolCodecError::InvalidValue("unexpected gameplay response payload")),
    }
}

fn decode_gameplay_response_payload(
    decoder: &mut Decoder<'_>, op: GameplayOpCode, vocabulary: &CapabilityVocabulary,
) -> (result: Result<GameplayResponse, ProtocolCodecError>)
    requires
        old(decoder).wf(),
    ensures
        final(decoder).wf(),
        read(
            gameplay_response_format(op, vocabulary@),
            old(decoder)@,
            final(decoder)@,
            match result {
                Ok(response) => Ok(response.payload()),
                Err(e) => Err(e),
            },
        ),
        result matches Ok(response) ==> response.answers(op) && response.encodable(vocabulary@),
{
    match op {
        GameplayOpCode::Describe => {
            let x = GameplayDescriptor::decode(decoder)?;
            Ok(GameplayResponse::Descriptor(x))
        },
        GameplayOpCode::CapabilitySet => {
            let x = decode_capability_announcement(decoder, vocabulary)?;
            Ok(GameplayResponse::CapabilitySet(x))
        },
        GameplayOpCode::HandlePlayerJoin
        | GameplayOpCode::HandleCommand
        | GameplayOpCode::HandleTick
        | GameplayOpCode::SessionClosed
        | GameplayOpCode::ImportSessionState => Ok(GameplayResponse::Empty),
        GameplayOpCode::ExportSessionState => {
            let x = decode_bytes(decoder)?;
            Ok(GameplayResponse::SessionTransferBlob(x))
        },
    }
}

/// Writes the response to a request.
pub fn encode_gameplay_response(
    request: &GameplayRequest, response: &GameplayResponse, vocabulary: &CapabilityVocabulary,
) -> (result: Result<Vec<u8>, ProtocolCodecError>)
    requires
        response.encodable(vocabulary@),
    ensures
        bytes_view(result) == if response.answers(request.spec_op()) {
            sealed(
                PluginKind::Gameplay,
                request.spec_op().spec_code(),
                true,
                gameplay_response_format(request.spec_op(), vocabulary@),
                response.payload(),
            )
        } else {
            Err(ProtocolCodecError::InvalidValue("unexpected gameplay response payload"))
        },
{
    let mut payload = Encoder::default();
    encode_gameplay_response_payload(&mut payload, request.op_code(), response, vocabulary)?;
    let bytes = payload.into_inner();
    seal(PluginKind::Gameplay, request.op_code().code(), true, &bytes)
}

/// The response to an operation in a message, or why there is none.
pub open spec fn gameplay_response_of(
    op: GameplayOpCode,
    s: Seq<u8>,
    vocabulary: Seq<Seq<char>>,
) -> Result<Value, ProtocolCodecError> {
    match opened(
        s,
        PluginKind::Gameplay,
        true,
        "gameplay response had wrong plugin kind",
        "gameplay response was missing response flag",
    ) {
        Err(e) => Err(e),
        Ok((code, payload)) => match gameplay_op_of(code) {
            None => Err(ProtocolCodecError::InvalidValue("invalid gameplay op code")),
            Some(found) => if found != op {
                Err(
                    ProtocolCodecError::InvalidEnvelope(
                        "gameplay response opcode did not match request",
                    ),
                )
            } else {
                whole(gameplay_response_format(op, vocabulary), payload)
            },
        },
    }
}

/// Reads the response to a request.
pub fn decode_gameplay_response(
    request: &GameplayRequest, bytes: &[u8], vocabulary: &CapabilityVocabulary,
) -> (result: Result<GameplayResponse, ProtocolCodecError>)
    ensures
        match result {
            Ok(response) => gameplay_response_of(request.spec_op(), bytes@, vocabulary@) == Ok::<
                Value,
                ProtocolCodecError,
            >(response.payload()) && response.answers(request.spec_op())
                && response.encodable(vocabulary@),
            Err(e) => gameplay_response_of(request.spec_op(), bytes@, vocabulary@) == Err::<
                Value,
                ProtocolCodecError,
            >(e),
        },
{
    let (code, payload) = open_message(
        bytes,
        PluginKind::Gameplay,
        true,
        "gameplay response had wrong plugin kind",
        "gameplay response was missing response flag",
    )?;
    if GameplayOpCode::try_from(code)? != request.op_code() {
        return Err(
            ProtocolCodecError::InvalidEnvelope("gameplay response opcode did not match request"),
        );
    }
    let mut decoder = Decoder::new(payload);
    let response = decode_gameplay_response_payload(&mut decoder, request.op_code(), vocabulary)?;
    decoder.finish()?;
    Ok(response)
}

/// Reading a response that was written for an operation gives it back, where a build that it
/// names has a name.
pub proof fn gameplay_response_round_trip(
    op: GameplayOpCode,
    response: GameplayResponse,
    vocabulary: Seq<Seq<char>>,
)
    requires
        response.encodable(vocabulary),
        response.answers(op),
        response.named(),
        sealed(
            PluginKind::Gameplay,
            op.spec_code(),
            true,
            gameplay_response_format(op, vocabulary),
            response.payload(),
        ) is Ok,
    ensures
        gameplay_response_of(
            op,
            sealed(
                PluginKind::Gameplay,
                op.spec_code(),
                true,
                gameplay_response_format(op, vocabulary),
                response.payload(),
            )->Ok_0,
            vocabulary,
        ) == Ok::<Value, ProtocolCodecError>(
            response.payload(),
        ),
{
    broadcast use plain_rules;

    if let GameplayResponse::CapabilitySet(announcement) = response {
        announcement_is_orderly(announcement, vocabulary);
    } else {
        plain_is_orderly(gameplay_response_format(op, vocabulary), response.payload());
    }
    message_round_trip(
        PluginKind::Gameplay,
        op.spec_code(),
        true,
        gameplay_response_format(op, vocabulary),
        response.payload(),
        "gameplay response had wrong plugin kind",
        "gameplay response was missing response flag",
    );
    gameplay_op_codes_agree(op);
}

} // verus!
