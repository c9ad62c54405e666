//! Messages to and from authentication plugins.

use crate::bytes::from_le;
use crate::codec::binary::{envelope, Decoder, Encoder};
use crate::codec::exact::{exact, message_is_exact};
use crate::codec::grammar::{
    both, case, chosen, pair, plain_is_orderly, tagged, Cases, Format, ProtocolCodecError, Value,
};
use crate::codec::message::{
    bytes_view, message_round_trip, open_message, opened, seal, sealed, whole,
};
use crate::codec::placement::plain_rules;
use crate::codec::wire::{compound_rules, decode_bytes, encode_bytes, read, written, Wire};
use crate::model::capability::CapabilitySet;
use crate::model::ids::PlayerId;
use crate::model::names::AuthProfileId;
use crate::plugin::abi::{current_abi, PluginKind};
use vstd::prelude::*;

verus! {

broadcast use compound_rules;

/// How players are authenticated.
#[derive(Clone, Copy, Debug, PartialEq, Eq, Structural)]
pub enum AuthMode {
    Offline,
    Online,
    BedrockOffline,
    BedrockXbl,
}

impl Wire for AuthMode {
    open spec fn format() -> Format {
        tagged(
            case(
                1,
                Format::Unit,
                case(
                    2,
                    Format::Unit,
                    case(
                        3,
                        Format::Unit,
                        case(4, Format::Unit, Cases::Otherwise("invalid auth mode")),
                    ),
                ),
            ),
        )
    }

    open spec fn value(&self) -> Value {
        match self {
            AuthMode::Offline => chosen(1, Value::Unit),
            AuthMode::Online => chosen(2, Value::Unit),
            AuthMode::BedrockOffline => chosen(3, Value::Unit),
            AuthMode::BedrockXbl => chosen(4, Value::Unit),
        }
    }

    open spec fn encodable(&self) -> bool {
        true
    }

    fn encode(&self, encoder: &mut Encoder) -> (result: Result<(), ProtocolCodecError>) {
        match self {
            AuthMode::Offline => {
                encoder.write_u8(1);
                Ok(())
            },
            AuthMode::Online => {
                encoder.write_u8(2);
                Ok(())
            },
            AuthMode::BedrockOffline => {
                encoder.write_u8(3);
                Ok(())
            },
            AuthMode::BedrockXbl => {
                encoder.write_u8(4);
                Ok(())
            },
        }
    }

    fn decode(decoder: &mut Decoder<'_>) -> (result: Result<Self, ProtocolCodecError>) {
        let tag: u8 = decoder.read_u8()?;
        match tag {
            1 => Ok(AuthMode::Offline),
            2 => Ok(AuthMode::Online),
            3 => Ok(AuthMode::BedrockOffline),
            4 => Ok(AuthMode::BedrockXbl),
            _ => Err(ProtocolCodecError::InvalidValue("invalid auth mode")),
        }
    }
}

/// What an authentication plugin is.
#[derive(Debug, PartialEq, Eq)]
pub struct AuthDescriptor {
    pub auth_profile: AuthProfileId,
    pub mode: AuthMode,
}

impl Wire for AuthDescriptor {
    open spec fn format() -> Format {
        pair(AuthProfileId::format(), AuthMode::format())
    }

    open spec fn value(&self) -> Value {
        both(self.auth_profile.value(), self.mode.value())
    }

    open spec fn encodable(&self) -> bool {
        self.auth_profile.encodable() && self.mode.encodable()
    }

    fn encode(&self, encoder: &mut Encoder) -> (result: Result<(), ProtocolCodecError>) {
        self.auth_profile.encode(encoder)?;
        self.mode.encode(encoder)
    }

    fn decode(decoder: &mut Decoder<'_>) -> (result: Result<Self, ProtocolCodecError>) {
        let auth_profile = AuthProfileId::decode(decoder)?;
        let mode = AuthMode::decode(decoder)?;
        Ok(AuthDescriptor { auth_profile, mode })
    }
}

/// An authenticated player.
#[derive(Debug, PartialEq, Eq)]
pub struct BedrockAuthResult {
    pub player_id: PlayerId,
    pub display_name: String,
    pub xuid: Option<String>,
    pub identity_uuid: Option<String>,
    pub skin_claims_blob: Vec<u8>,
}

impl Wire for BedrockAuthResult {
    open spec fn format() -> Format {
        pair(
            PlayerId::format(),
            pair(
                String::format(),
                pair(<Option<String>>::format(), pair(<Option<String>>::format(), Format::Bytes)),
            ),
        )
    }

    open spec fn value(&self) -> Value {
        both(
            self.player_id.value(),
            both(
                self.display_name.value(),
                both(
                    self.xuid.value(),
                    both(self.identity_uuid.value(), Value::Bytes(self.skin_claims_blob@)),
                ),
            ),
        )
    }

    open spec fn encodable(&self) -> bool {
        self.player_id.encodable() && self.xuid.encodable() && self.identity_uuid.encodable()
    }

    fn encode(&self, encoder: &mut Encoder) -> (result: Result<(), ProtocolCodecError>) {
        self.player_id.encode(encoder)?;
        self.display_name.encode(encoder)?;
        self.xuid.encode(encoder)?;
        self.identity_uuid.encode(encoder)?;
        encode_bytes(&self.skin_claims_blob, encoder)
    }

    fn decode(decoder: &mut Decoder<'_>) -> (result: Result<Self, ProtocolCodecError>) {
        let player_id = PlayerId::decode(decoder)?;
        let display_name = String::decode(decoder)?;
        let xuid = Option::<String>::decode(decoder)?;
        let identity_uuid = Option::<String>::decode(decoder)?;
        let skin_claims_blob = decode_bytes(decoder)?;
        Ok(BedrockAuthResult { player_id, display_name, xuid, identity_uuid, skin_claims_blob })
    }
}

/// The operations of auth plugins.
#[derive(Clone, Copy, Debug, PartialEq, Eq, Structural)]
pub enum AuthOpCode {
    Describe,
    CapabilitySet,
    AuthenticateOffline,
    AuthenticateOnline,
    AuthenticateBedrockOffline,
    AuthenticateBedrockXbl,
}

/// The operation with a given number, if there is one.
pub open spec fn auth_op_of(code: u8) -> Option<AuthOpCode> {
    if code == 1 {
        Some(AuthOpCode::Describe)
    } else if code == 2 {
        Some(AuthOpCode::CapabilitySet)
    } else if code == 3 {
        Some(AuthOpCode::AuthenticateOffline)
    } else if code == 4 {
        Some(AuthOpCode::AuthenticateOnline)
    } else if code == 5 {
        Some(AuthOpCode::AuthenticateBedrockOffline)
    } else if code == 6 {
        Some(AuthOpCode::AuthenticateBedrockXbl)
    } else {
        None
    }
}

impl AuthOpCode {
    /// The number of the operation.
    pub open spec fn spec_code(self) -> u8 {
        match self {
            AuthOpCode::Describe => 1,
            AuthOpCode::CapabilitySet => 2,
            AuthOpCode::AuthenticateOffline => 3,
            AuthOpCode::AuthenticateOnline => 4,
            AuthOpCode::AuthenticateBedrockOffline => 5,
            AuthOpCode::AuthenticateBedrockXbl => 6,
        }
    }

    /// The number of the operation.
    pub fn code(self) -> (result: u8)
        ensures
            result == self.spec_code(),
    {
        match self {
            AuthOpCode::Describe => 1,
            AuthOpCode::CapabilitySet => 2,
            AuthOpCode::AuthenticateOffline => 3,
            AuthOpCode::AuthenticateOnline => 4,
            AuthOpCode::AuthenticateBedrockOffline => 5,
            AuthOpCode::AuthenticateBedrockXbl => 6,
        }
    }

    /// The operation with a given number.
    pub fn try_from(value: u8) -> (result: Result<Self, ProtocolCodecError>)
        ensures
            match auth_op_of(value) {
                Some(op) => result == Ok::<Self, ProtocolCodecError>(op),
                None => result == Err::<Self, ProtocolCodecError>(
                    ProtocolCodecError::InvalidValue("invalid auth op code"),
                ),
            },
    {
        match value {
            1 => Ok(AuthOpCode::Describe),
            2 => Ok(AuthOpCode::CapabilitySet),
            3 => Ok(AuthOpCode::AuthenticateOffline),
            4 => Ok(AuthOpCode::AuthenticateOnline),
            5 => Ok(AuthOpCode::AuthenticateBedrockOffline),
            6 => Ok(AuthOpCode::AuthenticateBedrockXbl),
            _ => Err(ProtocolCodecError::InvalidValue("invalid auth op code")),
        }
    }
}

/// Every operation is the one with its number.
pub proof fn auth_op_codes_agree(op: AuthOpCode)
    ensures
        auth_op_of(op.spec_code()) == Some(op),
{
}

/// A request to an auth plugin.
#[derive(Debug, PartialEq, Eq)]
pub enum AuthRequest {
    Describe,
    CapabilitySet,
    AuthenticateOffline { username: String },
    AuthenticateOnline { username: String, server_hash: String },
    AuthenticateBedrockOffline { display_name: String },
    AuthenticateBedrockXbl { chain_jwts: Vec<String>, client_data_jwt: String },
}

/// The format of the payload of a request.
pub open spec fn auth_request_format(op: AuthOpCode) -> Format {
    match op {
        AuthOpCode::Describe => Format::Unit,
        AuthOpCode::CapabilitySet => Format::Unit,
        AuthOpCode::AuthenticateOffline => String::format(),
        AuthOpCode::AuthenticateOnline => pair(String::format(), String::format()),
        AuthOpCode::AuthenticateBedrockOffline => String::format(),
        AuthOpCode::AuthenticateBedrockXbl => pair(<Vec<String>>::format(), String::format()),
    }
}

impl AuthRequest {
    /// The operation that is asked for.
    pub open spec fn spec_op(&self) -> AuthOpCode {
        match self {
            AuthRequest::Describe => AuthOpCode::Describe,
            AuthRequest::CapabilitySet => AuthOpCode::CapabilitySet,
            AuthRequest::AuthenticateOffline { .. } => AuthOpCode::AuthenticateOffline,
            AuthRequest::AuthenticateOnline { .. } => AuthOpCode::AuthenticateOnline,
            AuthRequest::AuthenticateBedrockOffline { .. } => {
                AuthOpCode::AuthenticateBedrockOffline
            },
            AuthRequest::AuthenticateBedrockXbl { .. } => AuthOpCode::AuthenticateBedrockXbl,
        }
    }

    /// The operation that is asked for.
    pub fn op_code(&self) -> (result: AuthOpCode)
        ensures
            result == self.spec_op(),
    {
        match self {
            AuthRequest::Describe => AuthOpCode::Describe,
            AuthRequest::CapabilitySet => AuthOpCode::CapabilitySet,
            AuthRequest::AuthenticateOffline { .. } => AuthOpCode::AuthenticateOffline,
            AuthRequest::AuthenticateOnline { .. } => AuthOpCode::AuthenticateOnline,
            AuthRequest::AuthenticateBedrockOffline { .. } => {
                AuthOpCode::AuthenticateBedrockOffline
            },
            AuthRequest::AuthenticateBedrockXbl { .. } => AuthOpCode::AuthenticateBedrockXbl,
        }
    }

    /// The payload without its type.
    pub open spec fn payload(&self) -> Value {
        match self {
            AuthRequest::Describe => Value::Unit,
            AuthRequest::CapabilitySet => Value::Unit,
            AuthRequest::AuthenticateOffline { username } => username.value(),
            AuthRequest::AuthenticateOnline { username, server_hash } => both(
                username.value(),
                server_hash.value(),
            ),
            AuthRequest::AuthenticateBedrockOffline { display_name } => display_name.value(),
            AuthRequest::AuthenticateBedrockXbl { chain_jwts, client_data_jwt } => both(
                chain_jwts.value(),
                client_data_jwt.value(),
            ),
        }
    }

    /// Whether the request is one that can stand on the wire.
    pub open spec fn encodable(&self) -> bool {
        match self {
            AuthRequest::AuthenticateBedrockXbl {
                chain_jwts,
                client_data_jwt,
            } => chain_jwts.encodable(),
            _ => true,
        }
    }
}

fn encode_auth_request_payload(
    encoder: &mut Encoder, request: &AuthRequest,
) -> (result: Result<(), ProtocolCodecError>)
    requires
        request.encodable(),
    ensures
        written(
            auth_request_format(request.spec_op()),
            request.payload(),
            old(encoder)@,
            final(encoder)@,
            result,
        ),
{
    match request {
        AuthRequest::Describe => Ok(()),
        AuthRequest::CapabilitySet => Ok(()),
        AuthRequest::AuthenticateOffline { username } => {
            username.encode(encoder)
        },
        AuthRequest::AuthenticateOnline { username, server_hash } => {
            username.encode(encoder)?;
            server_hash.encode(encoder)
        },
        AuthRequest::AuthenticateBedrockOffline { display_name } => {
            display_name.encode(encoder)
        },
        AuthRequest::AuthenticateBedrockXbl { chain_jwts, client_data_jwt } => {
            chain_jwts.encode(encoder)?;
            client_data_jwt.encode(encoder)
        },
    }
}

fn decode_auth_request_payload(
    decoder: &mut Decoder<'_>, op: AuthOpCode,
) -> (result: Result<AuthRequest, ProtocolCodecError>)
    requires
        old(decoder).wf(),
    ensures
        final(decoder).wf(),
        read(
            auth_request_format(op),
            old(decoder)@,
            final(decoder)@,
            match result {
                Ok(request) => Ok(request.payload()),
                Err(e) => Err(e),
            },
        ),
        result matches Ok(request) ==> request.spec_op() == op && request.encodable(),
{
    match op {
        AuthOpCode::Describe => Ok(AuthRequest::Describe),
        AuthOpCode::CapabilitySet => Ok(AuthRequest::CapabilitySet),
        AuthOpCode::AuthenticateOffline => {
            let username = String::decode(decoder)?;
            Ok(AuthRequest::AuthenticateOffline { username })
        },
        AuthOpCode::AuthenticateOnline => {
            let username = String::decode(decoder)?;
            let server_hash = String::decode(decoder)?;
            Ok(AuthRequest::AuthenticateOnline { username, server_hash })
        },
        AuthOpCode::AuthenticateBedrockOffline => {
            let display_name = String::decode(decoder)?;
            Ok(AuthRequest::AuthenticateBedrockOffline { display_name })
        },
        AuthOpCode::AuthenticateBedrockXbl => {
            let chain_jwts = Vec::<String>::decode(decoder)?;
            let client_data_jwt = String::decode(decoder)?;
            Ok(AuthRequest::AuthenticateBedrockXbl { chain_jwts, client_data_jwt })
        },
    }
}

/// Writes a request.
pub fn encode_auth_request(request: &AuthRequest) -> (result: Result<
    Vec<u8>,
    ProtocolCodecError,
>)
    requires
        request.encodable(),
    ensures
        bytes_view(result) == sealed(
            PluginKind::Auth,
            request.spec_op().spec_code(),
            false,
            auth_request_format(request.spec_op()),
            request.payload(),
        ),
{
    let mut payload = Encoder::default();
    encode_auth_request_payload(&mut payload, request)?;
    let bytes = payload.into_inner();
    seal(PluginKind::Auth, request.op_code().code(), false, &bytes)
}

/// The request in a message, or why there is none.
pub open spec fn auth_request_of(s: Seq<u8>) -> Result<(AuthOpCode, Value), ProtocolCodecError> {
    match opened(
        s,
        PluginKind::Auth,
        false,
        "auth request had wrong plugin kind",
        "auth request unexpectedly set response flag",
    ) {
        Err(e) => Err(e),
        Ok((code, payload)) => match auth_op_of(code) {
            None => Err(ProtocolCodecError::InvalidValue("invalid auth op code")),
            Some(op) => match whole(auth_request_format(op), payload) {
                Err(e) => Err(e),
                Ok(v) => Ok((op, v)),
            },
        },
    }
}

/// Reads a request.
pub fn decode_auth_request(bytes: &[u8]) -> (result: Result<AuthRequest, ProtocolCodecError>)
    ensures
        match result {
            Ok(request) => auth_request_of(bytes@) == Ok::<(AuthOpCode, Value), ProtocolCodecError>(
                (request.spec_op(), request.payload()),
            ) && request.encodable(),
            Err(e) => auth_request_of(bytes@) == Err::<(AuthOpCode, Value), ProtocolCodecError>(e),
        },
{
    let (code, payload) = open_message(
        bytes,
        PluginKind::Auth,
        false,
        "auth request had wrong plugin kind",
        "auth request unexpectedly set response flag",
    )?;
    let op = AuthOpCode::try_from(code)?;
    let mut decoder = Decoder::new(payload);
    let request = decode_auth_request_payload(&mut decoder, op)?;
    decoder.finish()?;
    Ok(request)
}

/// Reading a request that was written gives it back.
pub proof fn auth_request_round_trip(request: AuthRequest)
    requires
        request.encodable(),
        sealed(
            PluginKind::Auth,
            request.spec_op().spec_code(),
            false,
            auth_request_format(request.spec_op()),
            request.payload(),
        ) is Ok,
    ensures
        auth_request_of(
            sealed(
                PluginKind::Auth,
                request.spec_op().spec_code(),
                false,
                auth_request_format(request.spec_op()),
                request.payload(),
            )->Ok_0,
        ) == Ok::<(AuthOpCode, Value), ProtocolCodecError>(
            (request.spec_op(), request.payload()),
        ),
{
    broadcast use plain_rules;

    plain_is_orderly(auth_request_format(request.spec_op()), request.payload());
    message_round_trip(
        PluginKind::Auth,
        request.spec_op().spec_code(),
        false,
        auth_request_format(request.spec_op()),
        request.payload(),
        "auth request had wrong plugin kind",
        "auth request unexpectedly set response flag",
    );
    auth_op_codes_agree(request.spec_op());
}

/// No byte of a request that was read is ignored: the message carries the current version of the
/// interface, the kind of the plugin, the operation and no response flag, and where it carries no
/// other flag either, the request, written again, gives the same bytes.
pub proof fn auth_request_is_exact(bytes: Seq<u8>)
    ensures
        auth_request_of(bytes) matches Ok((op, payload)) ==> {
            &&& envelope(bytes) matches Ok((header, _))
            &&& header.abi == current_abi()
            &&& header.plugin_kind == PluginKind::Auth
            &&& header.op_code == op.spec_code()
            &&& header.flags % 2 == 0
            &&& bytes.subrange(6, 8) == seq![0u8, 0u8] ==> sealed(
                PluginKind::Auth,
                op.spec_code(),
                false,
                auth_request_format(op),
                payload,
            ) == Ok::<Seq<u8>, ProtocolCodecError>(bytes)
        },
{
    if let Ok((op, payload)) = auth_request_of(bytes) {
        auth_op_codes_agree(op);
        if bytes.subrange(6, 8) == seq![0u8, 0u8] {
            reveal_with_fuel(exact, 4);
            reveal_with_fuel(from_le, 3);
            message_is_exact(
                bytes,
                PluginKind::Auth,
                false,
                auth_request_format(op),
                "auth request had wrong plugin kind",
                "auth request unexpectedly set response flag",
            );
        }
    }
}

/// A response of an auth plugin.
#[derive(Debug, PartialEq, Eq)]
pub enum AuthResponse {
    Descriptor(AuthDescriptor),
    CapabilitySet(CapabilitySet),
    AuthenticatedPlayer(PlayerId),
    AuthenticatedBedrockPlayer(BedrockAuthResult),
}

/// The format of the payload of a response.
pub open spec fn auth_response_format(op: AuthOpCode) -> Format {
    match op {
        AuthOpCode::Describe => AuthDescriptor::format(),
        AuthOpCode::CapabilitySet => CapabilitySet::format(),
        AuthOpCode::AuthenticateOffline | AuthOpCode::AuthenticateOnline => PlayerId::format(),
        AuthOpCode::AuthenticateBedrockOffline
        | AuthOpCode::AuthenticateBedrockXbl => BedrockAuthResult::format(),
    }
}

impl AuthResponse {
    /// Whether the response is one to an operation.
    pub open spec fn answers(&self, op: AuthOpCode) -> bool {
        match (op, self) {
            (AuthOpCode::Describe, AuthResponse::Descriptor(_)) => true,
            (AuthOpCode::CapabilitySet, AuthResponse::CapabilitySet(_)) => true,
            (
                AuthOpCode::AuthenticateOffline | AuthOpCode::AuthenticateOnline,
                AuthResponse::AuthenticatedPlayer(_),
            ) => true,
            (
                AuthOpCode::AuthenticateBedrockOffline | AuthOpCode::AuthenticateBedrockXbl,
                AuthResponse::AuthenticatedBedrockPlayer(_),
            ) => true,
            _ => false,
        }
    }

    /// The payload without its type.
    pub open spec fn payload(&self) -> Value {
        match self {
            AuthResponse::Descriptor(x) => x.value(),
            AuthResponse::CapabilitySet(x) => x.value(),
            AuthResponse::AuthenticatedPlayer(x) => x.value(),
            AuthResponse::AuthenticatedBedrockPlayer(x) => x.value(),
        }
    }

    /// Whether the response is one that can stand on the wire.
    pub open spec fn encodable(&self) -> bool {
        match self {
            AuthResponse::Descriptor(x) => x.encodable(),
            AuthResponse::CapabilitySet(x) => x.encodable(),
            AuthResponse::AuthenticatedPlayer(x) => x.encodable(),
            AuthResponse::AuthenticatedBedrockPlayer(x) => x.encodable(),
        }
    }
}

fn encode_auth_response_payload(
    encoder: &mut Encoder, op: AuthOpCode, response: &AuthResponse,
) -> (result: Result<(), ProtocolCodecError>)
    requires
        response.encodable(),
    ensures
        if response.answers(op) {
            written(
                auth_response_format(op),
                response.payload(),
                old(encoder)@,
                final(encoder)@,
                result,
            )
        } else {
            result == Err::<(), ProtocolCodecError>(
                ProtocolCodecError::InvalidValue("auth response did not match opcode"),
            )
        },
{
    match (op, response) {
        (AuthOpCode::Describe, AuthResponse::Descriptor(x)) => {
            x.encode(encoder)
        },
        (AuthOpCode::CapabilitySet, AuthResponse::CapabilitySet(x)) => {
            x.encode(encoder)
        },
        (
            AuthOpCode::AuthenticateOffline | AuthOpCode::AuthenticateOnline,
            AuthResponse::AuthenticatedPlayer(x),
        ) => {
            x.encode(encoder)
        },
        (
            AuthOpCode::AuthenticateBedrockOffline | AuthOpCode::AuthenticateBedrockXbl,
            AuthResponse::AuthenticatedBedrockPlayer(x),
        ) => {
            x.encode(encoder)
        },
        _ => Err(ProtocolCodecError::InvalidValue("auth response did not match opcode")),
    }
}

fn decode_auth_response_payload(
    decoder: &mut Decoder<'_>, op: AuthOpCode,
) -> (result: Result<AuthResponse, ProtocolCodecError>)
    requires
        old(decoder).wf(),
    ensures
        final(decoder).wf(),
        read(
            auth_response_format(op),
            old(decoder)@,
            final(decoder)@,
            match result {
                Ok(response) => Ok(response.payload()),
                Err(e) => Err(e),
            },
        ),
        result matches Ok(response) ==> response.answers(op) && response.encodable(),
{
    match op {
        AuthOpCode::Describe => {
            let x = AuthDescriptor::decode(decoder)?;
            Ok(AuthResponse::Descriptor(x))
        },
        AuthOpCode::CapabilitySet => {
            let x = CapabilitySet::decode(decoder)?;
            Ok(AuthResponse::CapabilitySet(x))
        },
        AuthOpCode::AuthenticateOffline | AuthOpCode::AuthenticateOnline => {
            let x = PlayerId::decode(decoder)?;
            Ok(AuthResponse::AuthenticatedPlayer(x))
        },
        AuthOpCode::AuthenticateBedrockOffline | AuthOpCode::AuthenticateBedrockXbl => {
            let x = BedrockAuthResult::decode(decoder)?;
            Ok(AuthResponse::AuthenticatedBedrockPlayer(x))
        },
    }
}

/// Writes the response to a request.
pub fn encode_auth_response(
    request: &AuthRequest, response: &AuthResponse,
) -> (result: Result<Vec<u8>, ProtocolCodecError>)
    requires
        response.encodable(),
    ensures
        bytes_view(result) == if response.answers(request.spec_op()) {
            sealed(
                PluginKind::Auth,
                request.spec_op().spec_code(),
                true,
                auth_response_format(request.spec_op()),
                response.payload(),
            )
        } else {
            Err(ProtocolCodecError::InvalidValue("auth response did not match opcode"))
        },
{
    let mut payload = Encoder::default();
    encode_auth_response_payload(&mut payload, request.op_code(), response)?;
    let bytes = payload.into_inner();
    seal(PluginKind::Auth, request.op_code().code(), true, &bytes)
}

/// The response to an operation in a message, or why there is none.
pub open spec fn auth_response_of(op: AuthOpCode, s: Seq<u8>) -> Result<Value, ProtocolCodecError> {
    match opened(
        s,
        PluginKind::Auth,
        true,
        "auth response had wrong plugin kind",
        "auth response was missing response flag",
    ) {
        Err(e) => Err(e),
        Ok((code, payload)) => match auth_op_of(code) {
            None => Err(ProtocolCodecError::InvalidValue("invalid auth op code")),
            Some(found) => if found != op {
                Err(
                    ProtocolCodecError::InvalidEnvelope(
                        "auth response opcode did not match request",
                    ),
                )
            } else {
                whole(auth_response_format(op), payload)
            },
        },
    }
}

/// Reads the response to a request.
pub fn decode_auth_response(
    request: &AuthRequest, bytes: &[u8],
) -> (result: Result<AuthResponse, ProtocolCodecError>)
    ensures
        match result {
            Ok(response) => auth_response_of(request.spec_op(), bytes@) == Ok::<
                Value,
                ProtocolCodecError,
            >(response.payload()) && response.answers(request.spec_op())
                && response.encodable(),
            Err(e) => auth_response_of(request.spec_op(), bytes@) == Err::<
                Value,
                ProtocolCodecError,
            >(e),
        },
{
    let (code, payload) = open_message(
        bytes,
        PluginKind::Auth,
        true,
        "auth response had wrong plugin kind",
        "auth response was missing response flag",
    )?;
    if AuthOpCode::try_from(code)? != request.op_code() {
        return Err(
            ProtocolCodecError::InvalidEnvelope("auth response opcode did not match request"),
        );
    }
    let mut decoder = Decoder::new(payload);
    let response = decode_auth_response_payload(&mut decoder, request.op_code())?;
    decoder.finish()?;
    Ok(response)
}

/// Reading a response that was written for an operation gives it back.
pub proof fn auth_response_round_trip(op: AuthOpCode, response: AuthResponse)
    requires
        response.encodable(),
        response.answers(op),
        sealed(
            PluginKind::Auth,
            op.spec_code(),
            true,
            auth_response_format(op),
            response.payload(),
        ) is Ok,
    ensures
        auth_response_of(
            op,
            sealed(
                PluginKind::Auth,
                op.spec_code(),
                true,
                auth_response_format(op),
                response.payload(),
            )->Ok_0,
        ) == Ok::<Value, ProtocolCodecError>(
            response.payload(),
        ),
{
    broadcast use plain_rules;

    plain_is_orderly(auth_response_format(op), response.payload());
    message_round_trip(
        PluginKind::Auth,
        op.spec_code(),
        true,
        auth_response_format(op),
        response.payload(),
        "auth response had wrong plugin kind",
        "auth response was missing response flag",
    );
    auth_op_codes_agree(op);
}

} // verus!
