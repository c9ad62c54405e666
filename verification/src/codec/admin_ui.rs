//! Messages to and from the text interface for administrators.

use crate::codec::admin::{frame, frame_round_trip, framed, payload_view};
use crate::codec::grammar::ProtocolCodecError;
use crate::codec::message::{bytes_view, message, open_message, opened};
use crate::model::capability::CapabilitySet;
use crate::model::ids::{ConnectionId, EntityId, PlayerId, PluginGenerationId};
use crate::model::names::AdminUiProfileId;
use crate::model::session::{ConnectionPhase, TransportKind};
use crate::plugin::abi::PluginKind;
use vstd::prelude::*;

verus! {

/// Who administers a server.
#[derive(Clone, Copy, Debug, PartialEq, Eq, Structural)]
pub enum AdminPrincipal {
    LocalConsole,
}

impl AdminPrincipal {
    /// The name of the principal.
    pub fn as_str(self) -> (result: &'static str)
        ensures
            result@ == "local-console"@,
    {
        match self {
            AdminPrincipal::LocalConsole => "local-console",
        }
    }
}

/// What a principal may do.
#[derive(Clone, Copy, Debug, PartialEq, Eq, Structural)]
pub enum AdminPermission {
    Status,
    Sessions,
    ReloadConfig,
    ReloadPlugins,
    ReloadGeneration,
    Shutdown,
}

impl AdminPermission {
    /// The name of the permission.
    pub open spec fn name(self) -> Seq<char> {
        match self {
            AdminPermission::Status => "status"@,
            AdminPermission::Sessions => "sessions"@,
            AdminPermission::ReloadConfig => "reload-config"@,
            AdminPermission::ReloadPlugins => "reload-plugins"@,
            AdminPermission::ReloadGeneration => "reload-generation"@,
            AdminPermission::Shutdown => "shutdown"@,
        }
    }

    /// The name of the permission.
    pub fn as_str(self) -> (result: &'static str)
        ensures
            result@ == self.name(),
    {
        match self {
            AdminPermission::Status => "status",
            AdminPermission::Sessions => "sessions",
            AdminPermission::ReloadConfig => "reload-config",
            AdminPermission::ReloadPlugins => "reload-plugins",
            AdminPermission::ReloadGeneration => "reload-generation",
            AdminPermission::Shutdown => "shutdown",
        }
    }
}

/// What a text interface is.
#[derive(Debug, PartialEq, Eq)]
pub struct AdminUiDescriptor {
    pub ui_profile: AdminUiProfileId,
}

/// What an administrator asks for.
#[derive(Clone, Copy, Debug, PartialEq, Eq, Structural)]
pub enum AdminRequest {
    Help,
    Status,
    Sessions,
    ReloadConfig,
    ReloadPlugins,
    ReloadGeneration,
    Shutdown,
}

impl AdminRequest {
    /// The permission that a request takes, if it takes one: all but asking for help do, each
    /// its own.
    pub open spec fn spec_required_permission(&self) -> Option<AdminPermission> {
        match self {
            AdminRequest::Help => None,
            AdminRequest::Status => Some(AdminPermission::Status),
            AdminRequest::Sessions => Some(AdminPermission::Sessions),
            AdminRequest::ReloadConfig => Some(AdminPermission::ReloadConfig),
            AdminRequest::ReloadPlugins => Some(AdminPermission::ReloadPlugins),
            AdminRequest::ReloadGeneration => Some(AdminPermission::ReloadGeneration),
            AdminRequest::Shutdown => Some(AdminPermission::Shutdown),
        }
    }

    /// The permission that a request takes, if it takes one.
    pub fn required_permission(&self) -> (result: Option<AdminPermission>)
        ensures
            result == self.spec_required_permission(),
    {
        match self {
            AdminRequest::Help => None,
            AdminRequest::Status => Some(AdminPermission::Status),
            AdminRequest::Sessions => Some(AdminPermission::Sessions),
            AdminRequest::ReloadConfig => Some(AdminPermission::ReloadConfig),
            AdminRequest::ReloadPlugins => Some(AdminPermission::ReloadPlugins),
            AdminRequest::ReloadGeneration => Some(AdminPermission::ReloadGeneration),
            AdminRequest::Shutdown => Some(AdminPermission::Shutdown),
        }
    }
}

/// A listener of a server.
#[derive(Debug, PartialEq, Eq)]
pub struct AdminListenerBindingView {
    pub transport: TransportKind,
    pub local_addr: String,
    pub adapter_ids: Vec<String>,
}

/// How many sessions use a transport.
#[derive(Debug, PartialEq, Eq)]
pub struct AdminTransportCountView {
    pub transport: TransportKind,
    pub count: usize,
}

/// How many sessions are in a phase.
#[derive(Debug, PartialEq, Eq)]
pub struct AdminPhaseCountView {
    pub phase: ConnectionPhase,
    pub count: usize,
}

/// How many sessions belong to a generation.
#[derive(Debug, PartialEq, Eq)]
pub struct AdminGenerationCountView {
    pub generation_id: u64,
    pub count: usize,
}

/// How many sessions have a name in common.
#[derive(Debug, PartialEq, Eq)]
pub struct AdminNamedCountView {
    pub value: Option<String>,
    pub count: usize,
}

/// How many sessions there are, and of which kinds.
#[derive(Debug, PartialEq, Eq)]
pub struct AdminSessionSummaryView {
    pub total: usize,
    pub by_transport: Vec<AdminTransportCountView>,
    pub by_phase: Vec<AdminPhaseCountView>,
    pub by_generation: Vec<AdminGenerationCountView>,
    pub by_adapter_id: Vec<AdminNamedCountView>,
    pub by_gameplay_profile: Vec<AdminNamedCountView>,
}

/// How many plugins a server hosts.
#[derive(Debug, PartialEq, Eq)]
pub struct AdminPluginHostView {
    pub protocol_count: usize,
    pub gameplay_count: usize,
    pub storage_count: usize,
    pub auth_count: usize,
    pub admin_ui_count: usize,
    pub active_quarantine_count: usize,
    pub artifact_quarantine_count: usize,
    pub pending_fatal_error: Option<String>,
}

/// How a server does.
#[derive(Debug, PartialEq, Eq)]
pub struct AdminStatusView {
    pub active_generation_id: u64,
    pub draining_generation_ids: Vec<u64>,
    pub listener_bindings: Vec<AdminListenerBindingView>,
    pub default_adapter_id: String,
    pub default_bedrock_adapter_id: Option<String>,
    pub enabled_adapter_ids: Vec<String>,
    pub enabled_bedrock_adapter_ids: Vec<String>,
    pub motd: String,
    pub max_players: u8,
    pub session_summary: AdminSessionSummaryView,
    pub dirty: bool,
    pub plugin_host: Option<AdminPluginHostView>,
}

/// One session.
#[derive(Debug, PartialEq, Eq)]
pub struct AdminSessionView {
    pub connection_id: ConnectionId,
    pub generation_id: u64,
    pub transport: TransportKind,
    pub phase: ConnectionPhase,
    pub adapter_id: Option<String>,
    pub gameplay_profile: Option<String>,
    pub player_id: Option<PlayerId>,
    pub entity_id: Option<EntityId>,
    pub protocol_generation: Option<PluginGenerationId>,
    pub gameplay_generation: Option<PluginGenerationId>,
}

/// All sessions.
#[derive(Debug, PartialEq, Eq)]
pub struct AdminSessionsView {
    pub summary: AdminSessionSummaryView,
    pub sessions: Vec<AdminSessionView>,
}

/// Which plugins were loaded again.
#[derive(Debug, PartialEq, Eq)]
pub struct AdminPluginsReloadView {
    pub reloaded_plugin_ids: Vec<String>,
}

/// What loading a generation again did.
#[derive(Debug, PartialEq, Eq)]
pub struct AdminGenerationReloadView {
    pub activated_generation_id: u64,
    pub retired_generation_ids: Vec<u64>,
    pub applied_config_change: bool,
    pub reconfigured_adapter_ids: Vec<String>,
}

/// What loading the configuration again did.
#[derive(Debug, PartialEq, Eq)]
pub struct AdminConfigReloadView {
    pub reloaded_plugin_ids: Vec<String>,
    pub generation: AdminGenerationReloadView,
}

/// What an administrator is answered.
#[derive(Debug, PartialEq, Eq)]
pub enum AdminResponse {
    Help,
    Status(AdminStatusView),
    Sessions(AdminSessionsView),
    ReloadConfig(AdminConfigReloadView),
    ReloadPlugins(AdminPluginsReloadView),
    ReloadGeneration(AdminGenerationReloadView),
    ShutdownScheduled,
    PermissionDenied { principal: AdminPrincipal, permission: AdminPermission },
    Error { message: String },
}

/// The operations of plugins of this kind.
#[derive(Clone, Copy, Debug, PartialEq, Eq, Structural)]
pub enum AdminUiOpCode {
    Describe,
    CapabilitySet,
    ParseLine,
    RenderResponse,
}

/// The operation with a given number, if there is one.
pub open spec fn admin_ui_op_of(code: u8) -> Option<AdminUiOpCode> {
    if code == 1 {
        Some(AdminUiOpCode::Describe)
    } else if code == 2 {
        Some(AdminUiOpCode::CapabilitySet)
    } else if code == 3 {
        Some(AdminUiOpCode::ParseLine)
    } else if code == 4 {
        Some(AdminUiOpCode::RenderResponse)
    } else {
        None
    }
}

impl AdminUiOpCode {
    /// The number of the operation.
    pub open spec fn spec_code(self) -> u8 {
        match self {
            AdminUiOpCode::Describe => 1,
            AdminUiOpCode::CapabilitySet => 2,
            AdminUiOpCode::ParseLine => 3,
            AdminUiOpCode::RenderResponse => 4,
        }
    }

    /// The number of the operation.
    pub fn code(self) -> (result: u8)
        ensures
            result == self.spec_code(),
    {
        match self {
            AdminUiOpCode::Describe => 1,
            AdminUiOpCode::CapabilitySet => 2,
            AdminUiOpCode::ParseLine => 3,
            AdminUiOpCode::RenderResponse => 4,
        }
    }

    /// The operation with a given number.
    pub fn try_from(value: u8) -> (result: Result<Self, ProtocolCodecError>)
        ensures
            match admin_ui_op_of(value) {
                Some(op) => result == Ok::<Self, ProtocolCodecError>(op),
                None => result == Err::<Self, ProtocolCodecError>(
                    ProtocolCodecError::InvalidValue("invalid admin-ui op code"),
                ),
            },
    {
        match value {
            1 => Ok(AdminUiOpCode::Describe),
            2 => Ok(AdminUiOpCode::CapabilitySet),
            3 => Ok(AdminUiOpCode::ParseLine),
            4 => Ok(AdminUiOpCode::RenderResponse),
            _ => Err(ProtocolCodecError::InvalidValue("invalid admin-ui op code")),
        }
    }
}

/// What a text interface is asked to do.
#[derive(Debug, PartialEq, Eq)]
pub enum AdminUiInput {
    Describe,
    CapabilitySet,
    ParseLine { line: String },
    RenderResponse { response: AdminResponse },
}

impl AdminUiInput {
    /// The operation that is asked for.
    pub open spec fn spec_op(&self) -> AdminUiOpCode {
        match self {
            AdminUiInput::Describe => AdminUiOpCode::Describe,
            AdminUiInput::CapabilitySet => AdminUiOpCode::CapabilitySet,
            AdminUiInput::ParseLine { .. } => AdminUiOpCode::ParseLine,
            AdminUiInput::RenderResponse { .. } => AdminUiOpCode::RenderResponse,
        }
    }

    /// The operation that is asked for.
    pub fn op_code(&self) -> (result: AdminUiOpCode)
        ensures
            result == self.spec_op(),
    {
        match self {
            AdminUiInput::Describe => AdminUiOpCode::Describe,
            AdminUiInput::CapabilitySet => AdminUiOpCode::CapabilitySet,
            AdminUiInput::ParseLine { .. } => AdminUiOpCode::ParseLine,
            AdminUiInput::RenderResponse { .. } => AdminUiOpCode::RenderResponse,
        }
    }
}

/// What a text interface answers.
#[derive(Debug, PartialEq, Eq)]
pub enum AdminUiOutput {
    Descriptor(AdminUiDescriptor),
    CapabilitySet(CapabilitySet),
    ParsedRequest(AdminRequest),
    RenderedText(String),
}

/// Puts a written input into its envelope; `payload` is `None` where it could not be written.
pub fn encode_admin_ui_input(input: &AdminUiInput, payload: Option<Vec<u8>>) -> (result: Result<
    Vec<u8>,
    ProtocolCodecError,
>)
    ensures
        bytes_view(result) == framed(
            PluginKind::AdminUi,
            input.spec_op().spec_code(),
            false,
            payload_view(payload),
            "failed to encode admin-ui payload",
        ),
{
    frame(
        PluginKind::AdminUi,
        input.op_code().code(),
        false,
        payload,
        "failed to encode admin-ui payload",
    )
}

/// The operation and the payload in the envelope of an input, or why there is none.
pub open spec fn admin_ui_input_opened(s: Seq<u8>) -> Result<(u8, Seq<u8>), ProtocolCodecError> {
    opened(
        s,
        PluginKind::AdminUi,
        false,
        "admin-ui input had wrong plugin kind",
        "admin-ui input unexpectedly set response flag",
    )
}

/// The payload in the envelope of an input.
pub fn admin_ui_input_payload(bytes: &[u8]) -> (result: Result<&[u8], ProtocolCodecError>)
    ensures
        match admin_ui_input_opened(bytes@) {
            Ok((_, payload)) => result matches Ok(p) && p@ == payload,
            Err(e) => result == Err::<&[u8], ProtocolCodecError>(e),
        },
{
    let (_, payload) = open_message(
        bytes,
        PluginKind::AdminUi,
        false,
        "admin-ui input had wrong plugin kind",
        "admin-ui input unexpectedly set response flag",
    )?;
    Ok(payload)
}

/// Whether bytes are an input whose payload was read as one for `op`, or why not.
pub open spec fn admin_ui_input_accepted(s: Seq<u8>, op: Option<AdminUiOpCode>) -> Result<
    (),
    ProtocolCodecError,
> {
    match admin_ui_input_opened(s) {
        Err(e) => Err(e),
        Ok((code, _)) => match op {
            None => Err(ProtocolCodecError::InvalidValue("failed to decode admin-ui payload")),
            Some(op) => match admin_ui_op_of(code) {
                None => Err(ProtocolCodecError::InvalidValue("invalid admin-ui op code")),
                Some(found) => if found == op {
                    Ok(())
                } else {
                    Err(
                        ProtocolCodecError::InvalidEnvelope(
                            "admin-ui input opcode did not match payload",
                        ),
                    )
                },
            },
        },
    }
}

/// Checks the envelope of an input against what its payload was read as; `parsed` is `None` where
/// the payload could not be read.
pub fn decode_admin_ui_input(bytes: &[u8], parsed: Option<AdminUiInput>) -> (result: Result<
    AdminUiInput,
    ProtocolCodecError,
>)
    ensures
        ({
            let op = match parsed {
                Some(input) => Some(input.spec_op()),
                None => None,
            };
            match result {
                Ok(input) => admin_ui_input_accepted(bytes@, op) is Ok && parsed == Some(input),
                Err(e) => admin_ui_input_accepted(bytes@, op) == Err::<(), ProtocolCodecError>(e),
            }
        }),
{
    let (code, _) = open_message(
        bytes,
        PluginKind::AdminUi,
        false,
        "admin-ui input had wrong plugin kind",
        "admin-ui input unexpectedly set response flag",
    )?;
    match parsed {
        None => Err(ProtocolCodecError::InvalidValue("failed to decode admin-ui payload")),
        Some(input) => {
            if input.op_code() != AdminUiOpCode::try_from(code)? {
                return Err(
                    ProtocolCodecError::InvalidEnvelope(
                        "admin-ui input opcode did not match payload",
                    ),
                );
            }
            Ok(input)
        },
    }
}

/// An input whose payload was put into its envelope is accepted, and its payload comes out again.
pub proof fn admin_ui_input_round_trip(input: AdminUiInput, payload: Seq<u8>)
    requires
        payload.len() <= u32::MAX,
    ensures
        ({
            let s = message(PluginKind::AdminUi, input.spec_op().spec_code(), false, payload);
            &&& admin_ui_input_opened(s) == Ok::<(u8, Seq<u8>), ProtocolCodecError>(
                (input.spec_op().spec_code(), payload),
            )
            &&& admin_ui_input_accepted(s, Some(input.spec_op())) is Ok
        }),
{
    frame_round_trip(
        PluginKind::AdminUi,
        input.spec_op().spec_code(),
        false,
        payload,
        "admin-ui input had wrong plugin kind",
        "admin-ui input unexpectedly set response flag",
    );
}

/// Puts a written output into its envelope; `payload` is `None` where it could not be written.
pub fn encode_admin_ui_output(input: &AdminUiInput, payload: Option<Vec<u8>>) -> (result: Result<
    Vec<u8>,
    ProtocolCodecError,
>)
    ensures
        bytes_view(result) == framed(
            PluginKind::AdminUi,
            input.spec_op().spec_code(),
            true,
            payload_view(payload),
            "failed to encode admin-ui payload",
        ),
{
    frame(
        PluginKind::AdminUi,
        input.op_code().code(),
        true,
        payload,
        "failed to encode admin-ui payload",
    )
}

/// The payload in the envelope of the output to an operation, or why there is none.
pub open spec fn admin_ui_output_opened(op: AdminUiOpCode, s: Seq<u8>) -> Result<
    Seq<u8>,
    ProtocolCodecError,
> {
    match opened(
        s,
        PluginKind::AdminUi,
        true,
        "admin-ui output had wrong plugin kind",
        "admin-ui output was missing response flag",
    ) {
        Err(e) => Err(e),
        Ok((code, payload)) => match admin_ui_op_of(code) {
            None => Err(ProtocolCodecError::InvalidValue("invalid admin-ui op code")),
            Some(found) => if found == op {
                Ok(payload)
            } else {
                Err(
                    ProtocolCodecError::InvalidEnvelope(
                        "admin-ui output opcode did not match input",
                    ),
                )
            },
        },
    }
}

/// The payload in the envelope of the output to an input.
pub fn admin_ui_output_payload<'a>(input: &AdminUiInput, bytes: &'a [u8]) -> (result: Result<
    &'a [u8],
    ProtocolCodecError,
>)
    ensures
        match admin_ui_output_opened(input.spec_op(), bytes@) {
            Ok(payload) => result matches Ok(p) && p@ == payload,
            Err(e) => result == Err::<&'a [u8], ProtocolCodecError>(e),
        },
{
    let (code, payload) = open_message(
        bytes,
        PluginKind::AdminUi,
        true,
        "admin-ui output had wrong plugin kind",
        "admin-ui output was missing response flag",
    )?;
    if input.op_code() != AdminUiOpCode::try_from(code)? {
        return Err(
            ProtocolCodecError::InvalidEnvelope("admin-ui output opcode did not match input"),
        );
    }
    Ok(payload)
}

/// Checks the envelope of the output to an input; `parsed` is what its payload was read as, or
/// `None` where it could not be read.
pub fn decode_admin_ui_output(
    input: &AdminUiInput,
    bytes: &[u8],
    parsed: Option<AdminUiOutput>,
) -> (result: Result<AdminUiOutput, ProtocolCodecError>)
    ensures
        match admin_ui_output_opened(input.spec_op(), bytes@) {
            Err(e) => result == Err::<AdminUiOutput, ProtocolCodecError>(e),
            Ok(_) => match parsed {
                Some(output) => result == Ok::<AdminUiOutput, ProtocolCodecError>(output),
                None => result == Err::<AdminUiOutput, ProtocolCodecError>(
                    ProtocolCodecError::InvalidValue("failed to decode admin-ui payload"),
                ),
            },
        },
{
    let _ = admin_ui_output_payload(input, bytes)?;
    match parsed {
        Some(output) => Ok(output),
        None => Err(ProtocolCodecError::InvalidValue("failed to decode admin-ui payload")),
    }
}

/// The payload of an output that was put into the envelope for an operation comes out again.
pub proof fn admin_ui_output_round_trip(op: AdminUiOpCode, payload: Seq<u8>)
    requires
        payload.len() <= u32::MAX,
    ensures
        admin_ui_output_opened(
            op,
            message(PluginKind::AdminUi, op.spec_code(), true, payload),
        ) == Ok::<
            Seq<u8>,
            ProtocolCodecError,
        >(payload),
{
    frame_round_trip(
        PluginKind::AdminUi,
        op.spec_code(),
        true,
        payload,
        "admin-ui output had wrong plugin kind",
        "admin-ui output was missing response flag",
    );
}

} // verus!
