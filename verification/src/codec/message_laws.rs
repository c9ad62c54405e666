//! How messages to and from plugins stand on the wire, byte for byte.

use crate::bytes::{from_le, from_le_bound, le, le_len, pow256_values};
use crate::codec::auth::{
    auth_op_of, auth_request_format, auth_response_format, AuthOpCode, AuthRequest, AuthResponse,
};
use crate::codec::basic::frame_values;
use crate::codec::binary::envelope;
use crate::codec::gameplay::{
    gameplay_op_of, gameplay_request_format, gameplay_response_format, session_format,
    GameplayOpCode, GameplayRequest, GameplayResponse, GameplaySessionSnapshot,
};
use crate::codec::grammar::{fits, list, serialize, Format, Value};
use crate::codec::layout_laws::{after_length, layout_rules, nothing_is_no_bytes, wire_bytes};
use crate::codec::message::{message, sealed};
use crate::codec::protocol::{
    protocol_op_of, protocol_request_format, protocol_response_format, ProtocolOpCode,
    ProtocolRequest, ProtocolResponse,
};
use crate::codec::storage::{
    storage_op_of, storage_request_format, storage_response_format, StorageOpCode, StorageRequest,
    StorageResponse,
};
use crate::codec::wire::append;
use crate::plugin::abi::{kind_of_tag, PluginKind};
use vstd::prelude::*;

verus! {

/// Each kind of plugin has its number, and no other number has one.
pub proof fn kinds_are_numbered(kind: PluginKind, tag: u8)
    ensures
        kind.spec_tag() == (match kind {
            PluginKind::Protocol => 1u8,
            PluginKind::Storage => 2u8,
            PluginKind::Auth => 3u8,
            PluginKind::Gameplay => 4u8,
            PluginKind::AdminUi => 5u8,
            PluginKind::AdminTransport => 6u8,
            PluginKind::AdminSurface => 7u8,
        }),
        kind_of_tag(tag) == Some(kind) <==> tag == kind.spec_tag(),
{
}

/// A message starts with the version four point zero, the number of the kind of plugin, the number
/// of
/// the operation, one or zero for a response or a request, and the length of the payload in four
/// bytes, least significant first; then comes the payload.
pub proof fn message_is_laid_out(kind: PluginKind, op: u8, response: bool, payload: Seq<u8>)
    requires
        payload.len() <= u32::MAX,
    ensures
        ({
            let s = message(kind, op, response, payload);
            &&& s.len() == 12 + payload.len()
            &&& s[0] == 4 && s[1] == 0 && s[2] == 0 && s[3] == 0
            &&& s[4] == kind.spec_tag()
            &&& s[5] == op
            &&& s[6] == if response {
                1u8
            } else {
                0u8
            }
            &&& s[7] == 0
            &&& s[8] + 0x100 * s[9] + 0x1_0000 * s[10] + 0x100_0000 * s[11] == payload.len()
            &&& s.subrange(12, s.len() as int) == payload
        }),
{
    broadcast use le_len;

    let s = message(kind, op, response, payload);
    reveal_with_fuel(le, 5);
    assert(s.subrange(12, s.len() as int) =~= payload);
}

/// Bytes are a message if and only if they are long enough, name a kind of plugin and the version
/// four
/// point zero, and are exactly as long as they say. Its operation, its flags and its payload are
/// those
/// that stand in it.
pub proof fn messages_are_recognized(s: Seq<u8>)
    ensures
        envelope(s) is Ok <==> {
            &&& s.len() >= 12
            &&& 1 <= s[4] <= 7
            &&& from_le(s.subrange(0, 2)) == 4
            &&& from_le(s.subrange(2, 4)) == 0
            &&& s.len() == 12 + from_le(s.subrange(8, 12))
        },
        envelope(s) matches Ok((header, payload)) ==> {
            &&& header.plugin_kind.spec_tag() == s[4]
            &&& header.op_code == s[5]
            &&& header.flags == from_le(s.subrange(6, 8))
            &&& payload == s.subrange(12, s.len() as int)
        },
{
    broadcast use pow256_values;

    if s.len() >= 12 {
        from_le_bound(s.subrange(0, 2));
        from_le_bound(s.subrange(2, 4));
        from_le_bound(s.subrange(6, 8));
        from_le_bound(s.subrange(8, 12));
    }
}

/// A value is sealed into the message with its bytes, where they fit and are not too many.
pub proof fn values_are_sealed(kind: PluginKind, op: u8, response: bool, f: Format, v: Value)
    ensures
        sealed(kind, op, response, f, v) is Ok <==> fits(f, v) && serialize(f, v).len() <= u32::MAX,
        sealed(kind, op, response, f, v) matches Ok(s) ==> s == message(
            kind,
            op,
            response,
            serialize(f, v),
        ),
{
    reveal(append);
    assert(Seq::<u8>::empty() + serialize(f, v) =~= serialize(f, v));
}

/// The bytes of what a gameplay plugin is told of a session: the phase, the player and the entity
/// if
/// they are known, the capabilities, the profile, and the generations of the plugins if they are
/// known.
pub open spec fn session_bytes(
    session: GameplaySessionSnapshot,
    vocabulary: Seq<Seq<char>>,
) -> Seq<u8> {
    wire_bytes(session.phase) + (wire_bytes(session.player_id) + (wire_bytes(session.entity_id) + (
    serialize(Format::Capabilities(vocabulary), Value::List(session.protocol@)) + (wire_bytes(
        session.gameplay_profile,
    ) + (wire_bytes(session.protocol_generation) + wire_bytes(session.gameplay_generation))))))
}

/// A gameplay session is written as its bytes.
pub proof fn gameplay_session_is_laid_out(
    session: GameplaySessionSnapshot,
    vocabulary: Seq<Seq<char>>,
)
    ensures
        serialize(session_format(vocabulary), session.spec_value()) == session_bytes(
            session,
            vocabulary,
        ),
{
    broadcast use layout_rules;

}

/// Each operation of authentication plugins has its number, and no other number has one.
pub proof fn auth_operations_are_numbered(op: AuthOpCode, code: u8)
    ensures
        op.spec_code() == (match op {
            AuthOpCode::Describe => 1u8,
            AuthOpCode::CapabilitySet => 2u8,
            AuthOpCode::AuthenticateOffline => 3u8,
            AuthOpCode::AuthenticateOnline => 4u8,
            AuthOpCode::AuthenticateBedrockOffline => 5u8,
            AuthOpCode::AuthenticateBedrockXbl => 6u8,
        }),
        auth_op_of(code) == Some(op) <==> code == op.spec_code(),
{
}

/// A request to an authentication plugin names its operation, and its payload is what belongs to
/// it, one after the other.
pub proof fn auth_requests_are_laid_out(request: AuthRequest)
    ensures
        request.spec_op().spec_code() == (match request {
            AuthRequest::Describe => 1u8,
            AuthRequest::CapabilitySet => 2u8,
            AuthRequest::AuthenticateOffline { .. } => 3u8,
            AuthRequest::AuthenticateOnline { .. } => 4u8,
            AuthRequest::AuthenticateBedrockOffline { .. } => 5u8,
            AuthRequest::AuthenticateBedrockXbl { .. } => 6u8,
        }),
        serialize(auth_request_format(request.spec_op()), request.payload()) == (match request {
            AuthRequest::Describe => Seq::empty(),
            AuthRequest::CapabilitySet => Seq::empty(),
            AuthRequest::AuthenticateOffline { username } => wire_bytes(username),
            AuthRequest::AuthenticateOnline { username, server_hash } => wire_bytes(username)
                + wire_bytes(server_hash),
            AuthRequest::AuthenticateBedrockOffline { display_name } => wire_bytes(display_name),
            AuthRequest::AuthenticateBedrockXbl { chain_jwts, client_data_jwt } =>
                wire_bytes(chain_jwts)
                + wire_bytes(client_data_jwt),
        }),
{
    broadcast use layout_rules;

    nothing_is_no_bytes();
}

/// A response of an authentication plugin answers the operations that ask for it and no others, and
/// its payload is what belongs to it.
pub proof fn auth_responses_are_laid_out(op: AuthOpCode, response: AuthResponse)
    ensures
        response.answers(op) <==> (match op {
            AuthOpCode::Describe => response is Descriptor,
            AuthOpCode::CapabilitySet => response is CapabilitySet,
            AuthOpCode::AuthenticateOffline => response is AuthenticatedPlayer,
            AuthOpCode::AuthenticateOnline => response is AuthenticatedPlayer,
            AuthOpCode::AuthenticateBedrockOffline => response is AuthenticatedBedrockPlayer,
            AuthOpCode::AuthenticateBedrockXbl => response is AuthenticatedBedrockPlayer,
        }),
        response.answers(op) ==> serialize(auth_response_format(op), response.payload())
            == (match response {
            AuthResponse::Descriptor(inner) => wire_bytes(inner),
            AuthResponse::CapabilitySet(inner) => wire_bytes(inner),
            AuthResponse::AuthenticatedPlayer(inner) => wire_bytes(inner),
            AuthResponse::AuthenticatedBedrockPlayer(inner) => wire_bytes(inner),
        }),
{
    broadcast use layout_rules;

}

/// Each operation of storage plugins has its number, and no other number has one.
pub proof fn storage_operations_are_numbered(op: StorageOpCode, code: u8)
    ensures
        op.spec_code() == (match op {
            StorageOpCode::Describe => 1u8,
            StorageOpCode::CapabilitySet => 2u8,
            StorageOpCode::LoadSnapshot => 3u8,
            StorageOpCode::SaveSnapshot => 4u8,
            StorageOpCode::ExportRuntimeState => 5u8,
            StorageOpCode::ImportRuntimeState => 6u8,
        }),
        storage_op_of(code) == Some(op) <==> code == op.spec_code(),
{
}

/// A request to a storage plugin names its operation, and its payload is what belongs to it, one
/// after the other.
pub proof fn storage_requests_are_laid_out(request: StorageRequest)
    ensures
        request.spec_op().spec_code() == (match request {
            StorageRequest::Describe => 1u8,
            StorageRequest::CapabilitySet => 2u8,
            StorageRequest::LoadSnapshot { .. } => 3u8,
            StorageRequest::SaveSnapshot { .. } => 4u8,
            StorageRequest::ExportRuntimeState { .. } => 5u8,
            StorageRequest::ImportRuntimeState { .. } => 6u8,
        }),
        serialize(storage_request_format(request.spec_op()), request.payload()) == (match request {
            StorageRequest::Describe => Seq::empty(),
            StorageRequest::CapabilitySet => Seq::empty(),
            StorageRequest::LoadSnapshot { world_dir } => wire_bytes(world_dir),
            StorageRequest::SaveSnapshot { world_dir, snapshot } => wire_bytes(world_dir)
                + wire_bytes(snapshot),
            StorageRequest::ExportRuntimeState { world_dir } => wire_bytes(world_dir),
            StorageRequest::ImportRuntimeState { world_dir, snapshot } => wire_bytes(world_dir)
                + wire_bytes(snapshot),
        }),
{
    broadcast use layout_rules;

    nothing_is_no_bytes();
}

/// A response of a storage plugin answers the operations that ask for it and no others, and its
/// payload is what belongs to it.
pub proof fn storage_responses_are_laid_out(
    op: StorageOpCode,
    response: StorageResponse,
    vocabulary: Seq<Seq<char>>,
)
    ensures
        response.answers(op) <==> (match op {
            StorageOpCode::Describe => response is Descriptor,
            StorageOpCode::CapabilitySet => response is CapabilitySet,
            StorageOpCode::LoadSnapshot => response is Snapshot,
            StorageOpCode::SaveSnapshot => response is Empty,
            StorageOpCode::ExportRuntimeState => response is Snapshot,
            StorageOpCode::ImportRuntimeState => response is Empty,
        }),
        response.answers(op) ==> serialize(
            storage_response_format(op, vocabulary),
            response.payload(),
        )
            == (match response {
            StorageResponse::Descriptor(inner) => wire_bytes(inner),
            StorageResponse::CapabilitySet(inner) =>
                serialize(Format::Announcement(vocabulary), inner.spec_value()),
            StorageResponse::Snapshot(inner) => wire_bytes(inner),
            StorageResponse::Empty => Seq::empty(),
        }),
{
    broadcast use layout_rules;

    nothing_is_no_bytes();
}

/// Each operation of protocol plugins has its number, and no other number has one.
pub proof fn protocol_operations_are_numbered(op: ProtocolOpCode, code: u8)
    ensures
        op.spec_code() == (match op {
            ProtocolOpCode::Describe => 1u8,
            ProtocolOpCode::DescribeBedrockListener => 2u8,
            ProtocolOpCode::CapabilitySet => 3u8,
            ProtocolOpCode::TryRoute => 4u8,
            ProtocolOpCode::DecodeStatus => 5u8,
            ProtocolOpCode::DecodeLogin => 6u8,
            ProtocolOpCode::EncodeStatusResponse => 7u8,
            ProtocolOpCode::EncodeStatusPong => 8u8,
            ProtocolOpCode::EncodeDisconnect => 9u8,
            ProtocolOpCode::EncodeEncryptionRequest => 10u8,
            ProtocolOpCode::EncodeNetworkSettings => 11u8,
            ProtocolOpCode::EncodeLoginSuccess => 12u8,
            ProtocolOpCode::DecodePlay => 13u8,
            ProtocolOpCode::EncodePlayEvent => 14u8,
            ProtocolOpCode::ExportSessionState => 15u8,
            ProtocolOpCode::ImportSessionState => 16u8,
            ProtocolOpCode::EncodeWireFrame => 17u8,
            ProtocolOpCode::TryDecodeWireFrame => 18u8,
            ProtocolOpCode::SessionClosed => 19u8,
        }),
        protocol_op_of(code) == Some(op) <==> code == op.spec_code(),
{
}

/// A request to a protocol plugin names its operation, and its payload is what belongs to it, one
/// after the other.
pub proof fn protocol_requests_are_laid_out(request: ProtocolRequest)
    ensures
        request.spec_op().spec_code() == (match request {
            ProtocolRequest::Describe => 1u8,
            ProtocolRequest::DescribeBedrockListener => 2u8,
            ProtocolRequest::CapabilitySet => 3u8,
            ProtocolRequest::TryRoute { .. } => 4u8,
            ProtocolRequest::DecodeStatus { .. } => 5u8,
            ProtocolRequest::DecodeLogin { .. } => 6u8,
            ProtocolRequest::EncodeStatusResponse { .. } => 7u8,
            ProtocolRequest::EncodeStatusPong { .. } => 8u8,
            ProtocolRequest::EncodeDisconnect { .. } => 9u8,
            ProtocolRequest::EncodeEncryptionRequest { .. } => 10u8,
            ProtocolRequest::EncodeNetworkSettings { .. } => 11u8,
            ProtocolRequest::EncodeLoginSuccess { .. } => 12u8,
            ProtocolRequest::DecodePlay { .. } => 13u8,
            ProtocolRequest::EncodePlayEvent { .. } => 14u8,
            ProtocolRequest::SessionClosed { .. } => 19u8,
            ProtocolRequest::ExportSessionState { .. } => 15u8,
            ProtocolRequest::ImportSessionState { .. } => 16u8,
            ProtocolRequest::EncodeWireFrame { .. } => 17u8,
            ProtocolRequest::TryDecodeWireFrame { .. } => 18u8,
        }),
        serialize(protocol_request_format(request.spec_op()), request.payload()) == (match request {
            ProtocolRequest::Describe => Seq::empty(),
            ProtocolRequest::DescribeBedrockListener => Seq::empty(),
            ProtocolRequest::CapabilitySet => Seq::empty(),
            ProtocolRequest::TryRoute { frame } => after_length(frame@),
            ProtocolRequest::DecodeStatus { frame } => after_length(frame@),
            ProtocolRequest::DecodeLogin { frame } => after_length(frame@),
            ProtocolRequest::EncodeStatusResponse { status } => wire_bytes(status),
            ProtocolRequest::EncodeStatusPong { payload } => wire_bytes(payload),
            ProtocolRequest::EncodeDisconnect { phase, reason } => wire_bytes(phase)
                + wire_bytes(reason),
            ProtocolRequest::EncodeEncryptionRequest { server_id, public_key_der, verify_token } =>
                wire_bytes(server_id)
                + (after_length(public_key_der@) + after_length(verify_token@)),
            ProtocolRequest::EncodeNetworkSettings { compression_threshold } =>
                wire_bytes(compression_threshold),
            ProtocolRequest::EncodeLoginSuccess { player } => wire_bytes(player),
            ProtocolRequest::DecodePlay { session, frame } => wire_bytes(session)
                + after_length(frame@),
            ProtocolRequest::EncodePlayEvent { session, event, context } => wire_bytes(session)
                + (wire_bytes(event) + wire_bytes(context)),
            ProtocolRequest::SessionClosed { session } => wire_bytes(session),
            ProtocolRequest::ExportSessionState { session } => wire_bytes(session),
            ProtocolRequest::ImportSessionState { session, blob } => wire_bytes(session)
                + after_length(blob@),
            ProtocolRequest::EncodeWireFrame { payload } => after_length(payload@),
            ProtocolRequest::TryDecodeWireFrame { buffer } => after_length(buffer@),
        }),
{
    broadcast use layout_rules;

    nothing_is_no_bytes();
}

/// A response of a protocol plugin answers the operations that ask for it and no others, and its
/// payload is what belongs to it.
pub proof fn protocol_responses_are_laid_out(
    op: ProtocolOpCode,
    response: ProtocolResponse,
    vocabulary: Seq<Seq<char>>,
)
    ensures
        response.answers(op) <==> (match op {
            ProtocolOpCode::Describe => response is Descriptor,
            ProtocolOpCode::DescribeBedrockListener => response is BedrockListenerDescriptor,
            ProtocolOpCode::CapabilitySet => response is CapabilitySet,
            ProtocolOpCode::TryRoute => response is HandshakeIntent,
            ProtocolOpCode::DecodeStatus => response is StatusRequest,
            ProtocolOpCode::DecodeLogin => response is LoginRequest,
            ProtocolOpCode::EncodeStatusResponse => response is Frame,
            ProtocolOpCode::EncodeStatusPong => response is Frame,
            ProtocolOpCode::EncodeDisconnect => response is Frame,
            ProtocolOpCode::EncodeEncryptionRequest => response is Frame,
            ProtocolOpCode::EncodeNetworkSettings => response is Frame,
            ProtocolOpCode::EncodeLoginSuccess => response is Frame,
            ProtocolOpCode::DecodePlay => response is RuntimeCommand,
            ProtocolOpCode::EncodePlayEvent => response is Frames,
            ProtocolOpCode::ExportSessionState => response is SessionTransferBlob,
            ProtocolOpCode::ImportSessionState => response is Empty,
            ProtocolOpCode::EncodeWireFrame => response is Frame,
            ProtocolOpCode::TryDecodeWireFrame => response is WireFrameDecodeResult,
            ProtocolOpCode::SessionClosed => response is Empty,
        }),
        response.answers(op) ==> serialize(
            protocol_response_format(op, vocabulary),
            response.payload(),
        )
            == (match response {
            ProtocolResponse::Descriptor(inner) => wire_bytes(inner),
            ProtocolResponse::BedrockListenerDescriptor(inner) => wire_bytes(inner),
            ProtocolResponse::CapabilitySet(inner) =>
                serialize(Format::Announcement(vocabulary), inner.spec_value()),
            ProtocolResponse::HandshakeIntent(inner) => wire_bytes(inner),
            ProtocolResponse::StatusRequest(inner) => wire_bytes(inner),
            ProtocolResponse::LoginRequest(inner) => wire_bytes(inner),
            ProtocolResponse::Frame(inner) => after_length(inner@),
            ProtocolResponse::RuntimeCommand(inner) => wire_bytes(inner),
            ProtocolResponse::Frames(inner) =>
                serialize(list(Format::Bytes), Value::List(frame_values(inner@))),
            ProtocolResponse::SessionTransferBlob(inner) => after_length(inner@),
            ProtocolResponse::WireFrameDecodeResult(inner) => wire_bytes(inner),
            ProtocolResponse::Empty => Seq::empty(),
        }),
{
    broadcast use layout_rules;

    nothing_is_no_bytes();
}

/// Each operation of gameplay plugins has its number, and no other number has one.
pub proof fn gameplay_operations_are_numbered(op: GameplayOpCode, code: u8)
    ensures
        op.spec_code() == (match op {
            GameplayOpCode::Describe => 1u8,
            GameplayOpCode::CapabilitySet => 2u8,
            GameplayOpCode::HandlePlayerJoin => 3u8,
            GameplayOpCode::HandleCommand => 4u8,
            GameplayOpCode::HandleTick => 5u8,
            GameplayOpCode::SessionClosed => 6u8,
            GameplayOpCode::ExportSessionState => 7u8,
            GameplayOpCode::ImportSessionState => 8u8,
        }),
        gameplay_op_of(code) == Some(op) <==> code == op.spec_code(),
{
}

/// A request to a gameplay plugin names its operation, and its payload is what belongs to it, one
/// after the other.
pub proof fn gameplay_requests_are_laid_out(request: GameplayRequest, vocabulary: Seq<Seq<char>>)
    ensures
        request.spec_op().spec_code() == (match request {
            GameplayRequest::Describe => 1u8,
            GameplayRequest::CapabilitySet => 2u8,
            GameplayRequest::HandlePlayerJoin { .. } => 3u8,
            GameplayRequest::HandleCommand { .. } => 4u8,
            GameplayRequest::HandleTick { .. } => 5u8,
            GameplayRequest::SessionClosed { .. } => 6u8,
            GameplayRequest::ExportSessionState { .. } => 7u8,
            GameplayRequest::ImportSessionState { .. } => 8u8,
        }),
        serialize(gameplay_request_format(request.spec_op(), vocabulary), request.payload())
            == (match request {
            GameplayRequest::Describe => Seq::empty(),
            GameplayRequest::CapabilitySet => Seq::empty(),
            GameplayRequest::HandlePlayerJoin { session, player_id } =>
                session_bytes(session, vocabulary)
                + wire_bytes(player_id),
            GameplayRequest::HandleCommand { session, command } =>
                session_bytes(session, vocabulary)
                + wire_bytes(command),
            GameplayRequest::HandleTick { session, now_ms } => session_bytes(session, vocabulary)
                + wire_bytes(now_ms),
            GameplayRequest::SessionClosed { session } => session_bytes(session, vocabulary),
            GameplayRequest::ExportSessionState { session } => session_bytes(session, vocabulary),
            GameplayRequest::ImportSessionState { session, blob } =>
                session_bytes(session, vocabulary)
                + after_length(blob@),
        }),
{
    broadcast use layout_rules;

    nothing_is_no_bytes();
}

/// A response of a gameplay plugin answers the operations that ask for it and no others, and its
/// payload is what belongs to it.
pub proof fn gameplay_responses_are_laid_out(
    op: GameplayOpCode,
    response: GameplayResponse,
    vocabulary: Seq<Seq<char>>,
)
    ensures
        response.answers(op) <==> (match op {
            GameplayOpCode::Describe => response is Descriptor,
            GameplayOpCode::CapabilitySet => response is CapabilitySet,
            GameplayOpCode::HandlePlayerJoin => response is Empty,
            GameplayOpCode::HandleCommand => response is Empty,
            GameplayOpCode::HandleTick => response is Empty,
            GameplayOpCode::SessionClosed => response is Empty,
            GameplayOpCode::ExportSessionState => response is SessionTransferBlob,
            GameplayOpCode::ImportSessionState => response is Empty,
        }),
        response.answers(op) ==> serialize(
            gameplay_response_format(op, vocabulary),
            response.payload(),
        )
            == (match response {
            GameplayResponse::Descriptor(inner) => wire_bytes(inner),
            GameplayResponse::CapabilitySet(inner) =>
                serialize(Format::Announcement(vocabulary), inner.spec_value()),
            GameplayResponse::Empty => Seq::empty(),
            GameplayResponse::SessionTransferBlob(inner) => after_length(inner@),
        }),
{
    broadcast use layout_rules;

    nothing_is_no_bytes();
}

} // verus!
