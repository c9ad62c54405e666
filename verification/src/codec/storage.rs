//! Messages to and from storage plugins.

use crate::codec::binary::{Decoder, Encoder};
use crate::codec::grammar::{
    both, chosen, pair, plain_is_orderly, Format, ProtocolCodecError, Value,
};
use crate::codec::placement::{
    orderly_option, orderly_pair, plain_rules, world_is_orderly, world_placed,
};
use crate::codec::capability::{
    announcement_is_orderly, decode_capability_announcement, encode_capability_announcement,
};
use crate::model::capability::{CapabilityAnnouncement, CapabilityVocabulary};
use crate::model::names::StorageProfileId;
use crate::model::player::WorldSnapshot;
use crate::codec::message::{
    bytes_view, message_round_trip, open_message, opened, seal, sealed, whole,
};
use crate::codec::wire::{compound_rules, read, written, Wire};
use crate::plugin::abi::PluginKind;
use vstd::prelude::*;

verus! {

broadcast use compound_rules;

/// What a storage plugin is.
#[derive(Debug, PartialEq, Eq)]
pub struct StorageDescriptor {
    pub storage_profile: StorageProfileId,
}

impl Wire for StorageDescriptor {
    open spec fn format() -> Format {
        StorageProfileId::format()
    }

    open spec fn value(&self) -> Value {
        self.storage_profile.value()
    }

    open spec fn encodable(&self) -> bool {
        self.storage_profile.encodable()
    }

    fn encode(&self, encoder: &mut Encoder) -> (result: Result<(), ProtocolCodecError>) {
        self.storage_profile.encode(encoder)
    }

    fn decode(decoder: &mut Decoder<'_>) -> (result: Result<Self, ProtocolCodecError>) {
        let storage_profile = StorageProfileId::decode(decoder)?;
        Ok(StorageDescriptor { storage_profile })
    }
}

/// The operations of storage plugins.
#[derive(Clone, Copy, Debug, PartialEq, Eq, Structural)]
pub enum StorageOpCode {
    Describe,
    CapabilitySet,
    LoadSnapshot,
    SaveSnapshot,
    ExportRuntimeState,
    ImportRuntimeState,
}

/// The operation with a given number, if there is one.
pub open spec fn storage_op_of(code: u8) -> Option<StorageOpCode> {
    if code == 1 {
        Some(StorageOpCode::Describe)
    } else if code == 2 {
        Some(StorageOpCode::CapabilitySet)
    } else if code == 3 {
        Some(StorageOpCode::LoadSnapshot)
    } else if code == 4 {
        Some(StorageOpCode::SaveSnapshot)
    } else if code == 5 {
        Some(StorageOpCode::ExportRuntimeState)
    } else if code == 6 {
        Some(StorageOpCode::ImportRuntimeState)
    } else {
        None
    }
}

impl StorageOpCode {
    /// The number of the operation.
    pub open spec fn spec_code(self) -> u8 {
        match self {
            StorageOpCode::Describe => 1,
            StorageOpCode::CapabilitySet => 2,
            StorageOpCode::LoadSnapshot => 3,
            StorageOpCode::SaveSnapshot => 4,
            StorageOpCode::ExportRuntimeState => 5,
            StorageOpCode::ImportRuntimeState => 6,
        }
    }

    /// The number of the operation.
    pub fn code(self) -> (result: u8)
        ensures
            result == self.spec_code(),
    {
        match self {
            StorageOpCode::Describe => 1,
            StorageOpCode::CapabilitySet => 2,
            StorageOpCode::LoadSnapshot => 3,
            StorageOpCode::SaveSnapshot => 4,
            StorageOpCode::ExportRuntimeState => 5,
            StorageOpCode::ImportRuntimeState => 6,
        }
    }

    /// The operation with a given number.
    pub fn try_from(value: u8) -> (result: Result<Self, ProtocolCodecError>)
        ensures
            match storage_op_of(value) {
                Some(op) => result == Ok::<Self, ProtocolCodecError>(op),
                None => result == Err::<Self, ProtocolCodecError>(
                    ProtocolCodecError::InvalidValue("invalid storage op code"),
                ),
            },
    {
        match value {
            1 => Ok(StorageOpCode::Describe),
            2 => Ok(StorageOpCode::CapabilitySet),
            3 => Ok(StorageOpCode::LoadSnapshot),
            4 => Ok(StorageOpCode::SaveSnapshot),
            5 => Ok(StorageOpCode::ExportRuntimeState),
            6 => Ok(StorageOpCode::ImportRuntimeState),
            _ => Err(ProtocolCodecError::InvalidValue("invalid storage op code")),
        }
    }
}

/// Every operation is the one with its number.
pub proof fn storage_op_codes_agree(op: StorageOpCode)
    ensures
        storage_op_of(op.spec_code()) == Some(op),
{
}

/// A request to a storage plugin.
#[derive(Debug, PartialEq, Eq)]
pub enum StorageRequest {
    Describe,
    CapabilitySet,
    LoadSnapshot { world_dir: String },
    SaveSnapshot { world_dir: String, snapshot: WorldSnapshot },
    ExportRuntimeState { world_dir: String },
    ImportRuntimeState { world_dir: String, snapshot: WorldSnapshot },
}

/// The format of the payload of a request.
pub open spec fn storage_request_format(op: StorageOpCode) -> Format {
    match op {
        StorageOpCode::Describe => Format::Unit,
        StorageOpCode::CapabilitySet => Format::Unit,
        StorageOpCode::LoadSnapshot => String::format(),
        StorageOpCode::SaveSnapshot => pair(String::format(), WorldSnapshot::format()),
        StorageOpCode::ExportRuntimeState => String::format(),
        StorageOpCode::ImportRuntimeState => pair(String::format(), WorldSnapshot::format()),
    }
}

impl StorageRequest {
    /// Whether everything in the world that the request brings is under its own key.
    pub open spec fn placed(&self) -> bool {
        match self {
            StorageRequest::SaveSnapshot { snapshot, .. } => world_placed(*snapshot),
            StorageRequest::ImportRuntimeState { snapshot, .. } => world_placed(*snapshot),
            _ => true,
        }
    }

    /// The operation that is asked for.
    pub open spec fn spec_op(&self) -> StorageOpCode {
        match self {
            StorageRequest::Describe => StorageOpCode::Describe,
            StorageRequest::CapabilitySet => StorageOpCode::CapabilitySet,
            StorageRequest::LoadSnapshot { .. } => StorageOpCode::LoadSnapshot,
            StorageRequest::SaveSnapshot { .. } => StorageOpCode::SaveSnapshot,
            StorageRequest::ExportRuntimeState { .. } => StorageOpCode::ExportRuntimeState,
            StorageRequest::ImportRuntimeState { .. } => StorageOpCode::ImportRuntimeState,
        }
    }

    /// The operation that is asked for.
    pub fn op_code(&self) -> (result: StorageOpCode)
        ensures
            result == self.spec_op(),
    {
        match self {
            StorageRequest::Describe => StorageOpCode::Describe,
            StorageRequest::CapabilitySet => StorageOpCode::CapabilitySet,
            StorageRequest::LoadSnapshot { .. } => StorageOpCode::LoadSnapshot,
            StorageRequest::SaveSnapshot { .. } => StorageOpCode::SaveSnapshot,
            StorageRequest::ExportRuntimeState { .. } => StorageOpCode::ExportRuntimeState,
            StorageRequest::ImportRuntimeState { .. } => StorageOpCode::ImportRuntimeState,
        }
    }

    /// The payload without its type.
    pub open spec fn payload(&self) -> Value {
        match self {
            StorageRequest::Describe => Value::Unit,
            StorageRequest::CapabilitySet => Value::Unit,
            StorageRequest::LoadSnapshot { world_dir } => world_dir.value(),
            StorageRequest::SaveSnapshot { world_dir, snapshot } => both(
                world_dir.value(),
                snapshot.value(),
            ),
            StorageRequest::ExportRuntimeState { world_dir } => world_dir.value(),
            StorageRequest::ImportRuntimeState { world_dir, snapshot } => both(
                world_dir.value(),
                snapshot.value(),
            ),
        }
    }

    /// Whether the request is one that can stand on the wire.
    pub open spec fn encodable(&self) -> bool {
        match self {
            StorageRequest::SaveSnapshot { world_dir, snapshot } => snapshot.encodable(),
            StorageRequest::ImportRuntimeState { world_dir, snapshot } => snapshot.encodable(),
            _ => true,
        }
    }
}

fn encode_storage_request_payload(
    encoder: &mut Encoder, request: &StorageRequest,
) -> (result: Result<(), ProtocolCodecError>)
    requires
        request.encodable(),
    ensures
        written(
            storage_request_format(request.spec_op()),
            request.payload(),
            old(encoder)@,
            final(encoder)@,
            result,
        ),
{
    match request {
        StorageRequest::Describe => Ok(()),
        StorageRequest::CapabilitySet => Ok(()),
        StorageRequest::LoadSnapshot { world_dir } => {
            world_dir.encode(encoder)
        },
        StorageRequest::SaveSnapshot { world_dir, snapshot } => {
            world_dir.encode(encoder)?;
            snapshot.encode(encoder)
        },
        StorageRequest::ExportRuntimeState { world_dir } => {
            world_dir.encode(encoder)
        },
        StorageRequest::ImportRuntimeState { world_dir, snapshot } => {
            world_dir.encode(encoder)?;
            snapshot.encode(encoder)
        },
    }
}

fn decode_storage_request_payload(
    decoder: &mut Decoder<'_>, op: StorageOpCode,
) -> (result: Result<StorageRequest, ProtocolCodecError>)
    requires
        old(decoder).wf(),
    ensures
        final(decoder).wf(),
        read(
            storage_request_format(op),
            old(decoder)@,
            final(decoder)@,
            match result {
                Ok(request) => Ok(request.payload()),
                Err(e) => Err(e),
            },
        ),
        result matches Ok(request) ==> request.spec_op() == op && request.encodable(),
{
    match op {
        StorageOpCode::Describe => Ok(StorageRequest::Describe),
        StorageOpCode::CapabilitySet => Ok(StorageRequest::CapabilitySet),
        StorageOpCode::LoadSnapshot => {
            let world_dir = String::decode(decoder)?;
            Ok(StorageRequest::LoadSnapshot { world_dir })
        },
        StorageOpCode::SaveSnapshot => {
            let world_dir = String::decode(decoder)?;
            let snapshot = WorldSnapshot::decode(decoder)?;
            Ok(StorageRequest::SaveSnapshot { world_dir, snapshot })
        },
        StorageOpCode::ExportRuntimeState => {
            let world_dir = String::decode(decoder)?;
            Ok(StorageRequest::ExportRuntimeState { world_dir })
        },
        StorageOpCode::ImportRuntimeState => {
            let world_dir = String::decode(decoder)?;
            let snapshot = WorldSnapshot::decode(decoder)?;
            Ok(StorageRequest::ImportRuntimeState { world_dir, snapshot })
        },
    }
}

/// Writes a request.
pub fn encode_storage_request(request: &StorageRequest) -> (result: Result<
    Vec<u8>,
    ProtocolCodecError,
>)
    requires
        request.encodable(),
    ensures
        bytes_view(result) == sealed(
            PluginKind::Storage,
            request.spec_op().spec_code(),
            false,
            storage_request_format(request.spec_op()),
            request.payload(),
        ),
{
    let mut payload = Encoder::default();
    encode_storage_request_payload(&mut payload, request)?;
    let bytes = payload.into_inner();
    seal(PluginKind::Storage, request.op_code().code(), false, &bytes)
}

/// The request in a message, or why there is none.
pub open spec fn storage_request_of(
    s: Seq<u8>,
) -> Result<(StorageOpCode, Value), ProtocolCodecError> {
    match opened(
        s,
        PluginKind::Storage,
        false,
        "storage request had wrong plugin kind",
        "storage request unexpectedly set response flag",
    ) {
        Err(e) => Err(e),
        Ok((code, payload)) => match storage_op_of(code) {
            None => Err(ProtocolCodecError::InvalidValue("invalid storage op code")),
            Some(op) => match whole(storage_request_format(op), payload) {
                Err(e) => Err(e),
                Ok(v) => Ok((op, v)),
            },
        },
    }
}

/// Reads a request.
pub fn decode_storage_request(bytes: &[u8]) -> (result: Result<StorageRequest, ProtocolCodecError>)
    ensures
        match result {
            Ok(request) => storage_request_of(bytes@) == Ok::<(
                StorageOpCode,
                Value,
            ), ProtocolCodecError>(
                (request.spec_op(), request.payload()),
            ) && request.encodable(),
            Err(e) => storage_request_of(bytes@) == Err::<(
                StorageOpCode,
                Value,
            ), ProtocolCodecError>(e),
        },
{
    let (code, payload) = open_message(
        bytes,
        PluginKind::Storage,
        false,
        "storage request had wrong plugin kind",
        "storage request unexpectedly set response flag",
    )?;
    let op = StorageOpCode::try_from(code)?;
    let mut decoder = Decoder::new(payload);
    let request = decode_storage_request_payload(&mut decoder, op)?;
    decoder.finish()?;
    Ok(request)
}

/// Reading a request that was written gives it back, where everything in its world is under its
/// own key.
pub proof fn storage_request_round_trip(request: StorageRequest)
    requires
        request.encodable(),
        request.placed(),
        sealed(
            PluginKind::Storage,
            request.spec_op().spec_code(),
            false,
            storage_request_format(request.spec_op()),
            request.payload(),
        ) is Ok,
    ensures
        storage_request_of(
            sealed(
                PluginKind::Storage,
                request.spec_op().spec_code(),
                false,
                storage_request_format(request.spec_op()),
                request.payload(),
            )->Ok_0,
        ) == Ok::<(StorageOpCode, Value), ProtocolCodecError>(
            (request.spec_op(), request.payload()),
        ),
{
    broadcast use plain_rules;

    let f = storage_request_format(request.spec_op());
    match request {
        StorageRequest::SaveSnapshot { world_dir, snapshot }
        | StorageRequest::ImportRuntimeState { world_dir, snapshot } => {
            world_is_orderly(snapshot);
            plain_is_orderly(String::format(), world_dir.value());
            orderly_pair(
                String::format(),
                WorldSnapshot::format(),
                world_dir.value(),
                snapshot.value(),
            );
        },
        _ => {
            plain_is_orderly(f, request.payload());
        },
    }
    message_round_trip(
        PluginKind::Storage,
        request.spec_op().spec_code(),
        false,
        storage_request_format(request.spec_op()),
        request.payload(),
        "storage request had wrong plugin kind",
        "storage request unexpectedly set response flag",
    );
    storage_op_codes_agree(request.spec_op());
}

/// A response of a storage plugin.
#[derive(Debug, PartialEq, Eq)]
pub enum StorageResponse {
    Descriptor(StorageDescriptor),
    CapabilitySet(CapabilityAnnouncement),
    Snapshot(Option<WorldSnapshot>),
    Empty,
}

/// The format of the payload of a response.
pub open spec fn storage_response_format(op: StorageOpCode, vocabulary: Seq<Seq<char>>) -> Format {
    match op {
        StorageOpCode::Describe => StorageDescriptor::format(),
        StorageOpCode::CapabilitySet => Format::Announcement(vocabulary),
        StorageOpCode::LoadSnapshot
        | StorageOpCode::ExportRuntimeState => <Option<WorldSnapshot>>::format(),
        StorageOpCode::SaveSnapshot | StorageOpCode::ImportRuntimeState => Format::Unit,
    }
}

impl StorageResponse {
    /// Whether everything in the world that the response brings is under its own key, and a build
    /// that it names has a name.
    pub open spec fn placed(&self) -> bool {
        match self {
            StorageResponse::Snapshot(Some(snapshot)) => world_placed(*snapshot),
            StorageResponse::CapabilitySet(announcement) => announcement.named(),
            _ => true,
        }
    }

    /// Whether the response is one to an operation.
    pub open spec fn answers(&self, op: StorageOpCode) -> bool {
        match (op, self) {
            (StorageOpCode::Describe, StorageResponse::Descriptor(_)) => true,
            (StorageOpCode::CapabilitySet, StorageResponse::CapabilitySet(_)) => true,
            (
                StorageOpCode::LoadSnapshot | StorageOpCode::ExportRuntimeState,
                StorageResponse::Snapshot(_),
            ) => true,
            (
                StorageOpCode::SaveSnapshot | StorageOpCode::ImportRuntimeState,
                StorageResponse::Empty,
            ) => true,
            _ => false,
        }
    }

    /// The payload without its type.
    pub open spec fn payload(&self) -> Value {
        match self {
            StorageResponse::Descriptor(x) => x.value(),
            StorageResponse::CapabilitySet(x) => x.spec_value(),
            StorageResponse::Snapshot(x) => x.value(),
            StorageResponse::Empty => Value::Unit,
        }
    }

    /// Whether the response is one that can stand on the wire.
    pub open spec fn encodable(&self, vocabulary: Seq<Seq<char>>) -> bool {
        match self {
            StorageResponse::Descriptor(x) => x.encodable(),
            StorageResponse::CapabilitySet(x) => x.within(vocabulary),
            StorageResponse::Snapshot(x) => x.encodable(),
            _ => true,
        }
    }
}

fn encode_storage_response_payload(
    encoder: &mut Encoder,
    op: StorageOpCode,
    response: &StorageResponse,
    vocabulary: &CapabilityVocabulary,
) -> (result: Result<(), ProtocolCodecError>)
    requires
        response.encodable(vocabulary@),
    ensures
        if response.answers(op) {
            written(
                storage_response_format(op, vocabulary@),
                response.payload(),
                old(encoder)@,
                final(encoder)@,
                result,
            )
        } else {
            result == Err::<(), ProtocolCodecError>(
                ProtocolCodecError::InvalidValue("storage response did not match opcode"),
            )
        },
{
    match (op, response) {
        (StorageOpCode::Describe, StorageResponse::Descriptor(x)) => {
            x.encode(encoder)
        },
        (StorageOpCode::CapabilitySet, StorageResponse::CapabilitySet(x)) => {
            encode_capability_announcement(x, vocabulary, encoder)
        },
        (
            StorageOpCode::LoadSnapshot | StorageOpCode::ExportRuntimeState,
            StorageResponse::Snapshot(x),
        ) => {
            x.encode(encoder)
        },
        (
            StorageOpCode::SaveSnapshot | StorageOpCode::ImportRuntimeState,
            StorageResponse::Empty,
        ) => Ok(()),
        _ => Err(ProtocolCodecError::InvalidValue("storage response did not match opcode")),
    }
}

fn decode_storage_response_payload(
    decoder: &mut Decoder<'_>, op: StorageOpCode, vocabulary: &CapabilityVocabulary,
) -> (result: Result<StorageResponse, ProtocolCodecError>)
    requires
        old(decoder).wf(),
    ensures
        final(decoder).wf(),
        read(
            storage_response_format(op, vocabulary@),
            old(decoder)@,
            final(decoder)@,
            match result {
                Ok(response) => Ok(response.payload()),
                Err(e) => Err(e),
            },
        ),
        result matches Ok(response) ==> response.answers(op) && response.encodable(vocabulary@),
{
    match op {
        StorageOpCode::Describe => {
            let x = StorageDescriptor::decode(decoder)?;
            Ok(StorageResponse::Descriptor(x))
        },
        StorageOpCode::CapabilitySet => {
            let x = decode_capability_announcement(decoder, vocabulary)?;
            Ok(StorageResponse::CapabilitySet(x))
        },
        StorageOpCode::LoadSnapshot | StorageOpCode::ExportRuntimeState => {
            let x = Option::<WorldSnapshot>::decode(decoder)?;
            Ok(StorageResponse::Snapshot(x))
        },
        StorageOpCode::SaveSnapshot | StorageOpCode::ImportRuntimeState => Ok(
            StorageResponse::Empty,
        ),
    }
}

/// Writes the response to a request.
pub fn encode_storage_response(
    request: &StorageRequest, response: &StorageResponse, vocabulary: &CapabilityVocabulary,
) -> (result: Result<Vec<u8>, ProtocolCodecError>)
    requires
        response.encodable(vocabulary@),
    ensures
        bytes_view(result) == if response.answers(request.spec_op()) {
            sealed(
                PluginKind::Storage,
                request.spec_op().spec_code(),
                true,
                storage_response_format(request.spec_op(), vocabulary@),
                response.payload(),
            )
        } else {
            Err(ProtocolCodecError::InvalidValue("storage response did not match opcode"))
        },
{
    let mut payload = Encoder::default();
    encode_storage_response_payload(&mut payload, request.op_code(), response, vocabulary)?;
    let bytes = payload.into_inner();
    seal(PluginKind::Storage, request.op_code().code(), true, &bytes)
}

/// The response to an operation in a message, or why there is none.
pub open spec fn storage_response_of(
    op: StorageOpCode,
    s: Seq<u8>,
    vocabulary: Seq<Seq<char>>,
) -> Result<Value, ProtocolCodecError> {
    match opened(
        s,
        PluginKind::Storage,
        true,
        "storage response had wrong plugin kind",
        "storage response was missing response flag",
    ) {
        Err(e) => Err(e),
        Ok((code, payload)) => match storage_op_of(code) {
            None => Err(ProtocolCodecError::InvalidValue("invalid storage op code")),
            Some(found) => if found != op {
                Err(
                    ProtocolCodecError::InvalidEnvelope(
                        "storage response opcode did not match request",
                    ),
                )
            } else {
                whole(storage_response_format(op, vocabulary), payload)
            },
        },
    }
}

/// Reads the response to a request.
pub fn decode_storage_response(
    request: &StorageRequest, bytes: &[u8], vocabulary: &CapabilityVocabulary,
) -> (result: Result<StorageResponse, ProtocolCodecError>)
    ensures
        match result {
            Ok(response) => storage_response_of(request.spec_op(), bytes@, vocabulary@) == Ok::<
                Value,
                ProtocolCodecError,
            >(response.payload()) && response.answers(request.spec_op())
                && response.encodable(vocabulary@),
            Err(e) => storage_response_of(request.spec_op(), bytes@, vocabulary@) == Err::<
                Value,
                ProtocolCodecError,
            >(e),
        },
{
    let (code, payload) = open_message(
        bytes,
        PluginKind::Storage,
        true,
        "storage response had wrong plugin kind",
        "storage response was missing response flag",
    )?;
    if StorageOpCode::try_from(code)? != request.op_code() {
        return Err(
            ProtocolCodecError::InvalidEnvelope("storage response opcode did not match request"),
        );
    }
    let mut decoder = Decoder::new(payload);
    let response = decode_storage_response_payload(&mut decoder, request.op_code(), vocabulary)?;
    decoder.finish()?;
    Ok(response)
}

/// Reading a response that was written for an operation gives it back, where everything in its
/// world is under its own key and a build that it names has a name.
pub proof fn storage_response_round_trip(
    op: StorageOpCode,
    response: StorageResponse,
    vocabulary: Seq<Seq<char>>,
)
    requires
        response.encodable(vocabulary),
        response.answers(op),
        response.placed(),
        sealed(
            PluginKind::Storage,
            op.spec_code(),
            true,
            storage_response_format(op, vocabulary),
            response.payload(),
        ) is Ok,
    ensures
        storage_response_of(
            op,
            sealed(
                PluginKind::Storage,
                op.spec_code(),
                true,
                storage_response_format(op, vocabulary),
                response.payload(),
            )->Ok_0,
            vocabulary,
        ) == Ok::<Value, ProtocolCodecError>(
            response.payload(),
        ),
{
    broadcast use plain_rules;

    if let StorageResponse::Snapshot(Some(snapshot)) = response {
        world_is_orderly(snapshot);
        orderly_option(WorldSnapshot::format(), chosen(1, snapshot.value()));
    } else if let StorageResponse::Snapshot(None) = response {
        orderly_option(WorldSnapshot::format(), chosen(0, Value::Unit));
    } else if let StorageResponse::CapabilitySet(announcement) = response {
        announcement_is_orderly(announcement, vocabulary);
    } else {
        plain_is_orderly(storage_response_format(op, vocabulary), response.payload());
    }
    message_round_trip(
        PluginKind::Storage,
        op.spec_code(),
        true,
        storage_response_format(op, vocabulary),
        response.payload(),
        "storage response had wrong plugin kind",
        "storage response was missing response flag",
    );
    storage_op_codes_agree(op);
}

} // verus!
