//! Messages to and from plugins that serve administrators.

use crate::codec::admin::{frame, frame_round_trip, framed, payload_view, RuntimeReloadMode};
use crate::codec::grammar::ProtocolCodecError;
use crate::codec::message::{bytes_view, message, open_message, opened};
use crate::codec::admin_ui::AdminPermission;
use crate::model::capability::CapabilityAnnouncement;
use crate::model::names::AdminSurfaceProfileId;
use crate::plugin::abi::PluginKind;
use vstd::prelude::*;

verus! {

/// What a plugin that serves administrators is.
#[derive(Debug, PartialEq, Eq)]
pub struct AdminSurfaceDescriptor {
    pub surface_profile: AdminSurfaceProfileId,
}

/// Where administrators are served.
#[derive(Debug, PartialEq, Eq)]
pub struct AdminSurfaceEndpointView {
    pub surface: String,
    pub local_addr: String,
}

/// All places where administrators are served.
#[derive(Debug, PartialEq, Eq)]
pub struct AdminSurfaceStatusView {
    pub endpoints: Vec<AdminSurfaceEndpointView>,
}

/// What is needed to resume.
#[derive(Debug, PartialEq, Eq)]
pub struct AdminSurfacePauseView {
    pub resume_payload: Vec<u8>,
}

/// Something that is handed from one process to the next.
#[derive(Debug, PartialEq, Eq)]
pub enum AdminSurfaceResource {
    Bytes(Vec<u8>),
    NativeHandle { handle_kind: String, raw_handle: u64 },
}

/// A principal and what it may do.
#[derive(Debug, PartialEq, Eq)]
pub struct AdminSurfacePrincipalDeclaration {
    pub principal_id: String,
    pub permissions: Vec<AdminPermission>,
}

/// What an instance needs and whom it serves.
#[derive(Debug, PartialEq, Eq)]
pub struct AdminSurfaceInstanceDeclaration {
    pub principals: Vec<AdminSurfacePrincipalDeclaration>,
    pub required_process_resources: Vec<String>,
    pub supports_upgrade_handoff: bool,
}

/// The operations of plugins of this kind.
#[derive(Clone, Copy, Debug, PartialEq, Eq, Structural)]
pub enum AdminSurfaceOpCode {
    Describe,
    CapabilitySet,
    DeclareInstance,
    Start,
    PauseForUpgrade,
    ResumeFromUpgrade,
    ActivateAfterUpgradeCommit,
    ResumeAfterUpgradeRollback,
    Shutdown,
}

/// The operation with a given number, if there is one.
pub open spec fn admin_surface_op_of(code: u8) -> Option<AdminSurfaceOpCode> {
    if code == 1 {
        Some(AdminSurfaceOpCode::Describe)
    } else if code == 2 {
        Some(AdminSurfaceOpCode::CapabilitySet)
    } else if code == 3 {
        Some(AdminSurfaceOpCode::DeclareInstance)
    } else if code == 4 {
        Some(AdminSurfaceOpCode::Start)
    } else if code == 5 {
        Some(AdminSurfaceOpCode::PauseForUpgrade)
    } else if code == 6 {
        Some(AdminSurfaceOpCode::ResumeFromUpgrade)
    } else if code == 7 {
        Some(AdminSurfaceOpCode::ActivateAfterUpgradeCommit)
    } else if code == 8 {
        Some(AdminSurfaceOpCode::ResumeAfterUpgradeRollback)
    } else if code == 9 {
        Some(AdminSurfaceOpCode::Shutdown)
    } else {
        None
    }
}

impl AdminSurfaceOpCode {
    /// The number of the operation.
    pub open spec fn spec_code(self) -> u8 {
        match self {
            AdminSurfaceOpCode::Describe => 1,
            AdminSurfaceOpCode::CapabilitySet => 2,
            AdminSurfaceOpCode::DeclareInstance => 3,
            AdminSurfaceOpCode::Start => 4,
            AdminSurfaceOpCode::PauseForUpgrade => 5,
            AdminSurfaceOpCode::ResumeFromUpgrade => 6,
            AdminSurfaceOpCode::ActivateAfterUpgradeCommit => 7,
            AdminSurfaceOpCode::ResumeAfterUpgradeRollback => 8,
            AdminSurfaceOpCode::Shutdown => 9,
        }
    }

    /// The number of the operation.
    pub fn code(self) -> (result: u8)
        ensures
            result == self.spec_code(),
    {
        match self {
            AdminSurfaceOpCode::Describe => 1,
            AdminSurfaceOpCode::CapabilitySet => 2,
            AdminSurfaceOpCode::DeclareInstance => 3,
            AdminSurfaceOpCode::Start => 4,
            AdminSurfaceOpCode::PauseForUpgrade => 5,
            AdminSurfaceOpCode::ResumeFromUpgrade => 6,
            AdminSurfaceOpCode::ActivateAfterUpgradeCommit => 7,
            AdminSurfaceOpCode::ResumeAfterUpgradeRollback => 8,
            AdminSurfaceOpCode::Shutdown => 9,
        }
    }

    /// The operation with a given number.
    pub fn try_from(value: u8) -> (result: Result<Self, ProtocolCodecError>)
        ensures
            match admin_surface_op_of(value) {
                Some(op) => result == Ok::<Self, ProtocolCodecError>(op),
                None => result == Err::<Self, ProtocolCodecError>(
                    ProtocolCodecError::InvalidValue("invalid admin-surface op code"),
                ),
            },
    {
        match value {
            1 => Ok(AdminSurfaceOpCode::Describe),
            2 => Ok(AdminSurfaceOpCode::CapabilitySet),
            3 => Ok(AdminSurfaceOpCode::DeclareInstance),
            4 => Ok(AdminSurfaceOpCode::Start),
            5 => Ok(AdminSurfaceOpCode::PauseForUpgrade),
            6 => Ok(AdminSurfaceOpCode::ResumeFromUpgrade),
            7 => Ok(AdminSurfaceOpCode::ActivateAfterUpgradeCommit),
            8 => Ok(AdminSurfaceOpCode::ResumeAfterUpgradeRollback),
            9 => Ok(AdminSurfaceOpCode::Shutdown),
            _ => Err(ProtocolCodecError::InvalidValue("invalid admin-surface op code")),
        }
    }
}

/// A request to a plugin that serves administrators.
#[derive(Debug, PartialEq, Eq)]
pub enum AdminSurfaceRequest {
    Describe,
    CapabilitySet,
    DeclareInstance { instance_id: String, surface_config_path: Option<String> },
    Start { instance_id: String, surface_config_path: Option<String> },
    PauseForUpgrade { instance_id: String },
    ResumeFromUpgrade {
        instance_id: String,
        surface_config_path: Option<String>,
        resume_payload: Vec<u8>,
    },
    ActivateAfterUpgradeCommit { instance_id: String },
    ResumeAfterUpgradeRollback { instance_id: String },
    Shutdown { instance_id: String },
}

impl AdminSurfaceRequest {
    /// The operation that is asked for.
    pub open spec fn spec_op(&self) -> AdminSurfaceOpCode {
        match self {
            AdminSurfaceRequest::Describe => AdminSurfaceOpCode::Describe,
            AdminSurfaceRequest::CapabilitySet => AdminSurfaceOpCode::CapabilitySet,
            AdminSurfaceRequest::DeclareInstance { .. } => AdminSurfaceOpCode::DeclareInstance,
            AdminSurfaceRequest::Start { .. } => AdminSurfaceOpCode::Start,
            AdminSurfaceRequest::PauseForUpgrade { .. } => AdminSurfaceOpCode::PauseForUpgrade,
            AdminSurfaceRequest::ResumeFromUpgrade { .. } => AdminSurfaceOpCode::ResumeFromUpgrade,
            AdminSurfaceRequest::ActivateAfterUpgradeCommit { .. } => {
                AdminSurfaceOpCode::ActivateAfterUpgradeCommit
            },
            AdminSurfaceRequest::ResumeAfterUpgradeRollback { .. } => {
                AdminSurfaceOpCode::ResumeAfterUpgradeRollback
            },
            AdminSurfaceRequest::Shutdown { .. } => AdminSurfaceOpCode::Shutdown,
        }
    }

    /// The operation that is asked for.
    pub fn op_code(&self) -> (result: AdminSurfaceOpCode)
        ensures
            result == self.spec_op(),
    {
        match self {
            AdminSurfaceRequest::Describe => AdminSurfaceOpCode::Describe,
            AdminSurfaceRequest::CapabilitySet => AdminSurfaceOpCode::CapabilitySet,
            AdminSurfaceRequest::DeclareInstance { .. } => AdminSurfaceOpCode::DeclareInstance,
            AdminSurfaceRequest::Start { .. } => AdminSurfaceOpCode::Start,
            AdminSurfaceRequest::PauseForUpgrade { .. } => AdminSurfaceOpCode::PauseForUpgrade,
            AdminSurfaceRequest::ResumeFromUpgrade { .. } => AdminSurfaceOpCode::ResumeFromUpgrade,
            AdminSurfaceRequest::ActivateAfterUpgradeCommit { .. } => {
                AdminSurfaceOpCode::ActivateAfterUpgradeCommit
            },
            AdminSurfaceRequest::ResumeAfterUpgradeRollback { .. } => {
                AdminSurfaceOpCode::ResumeAfterUpgradeRollback
            },
            AdminSurfaceRequest::Shutdown { .. } => AdminSurfaceOpCode::Shutdown,
        }
    }
}

/// A response of a plugin that serves administrators.
#[derive(Debug, PartialEq, Eq)]
pub enum AdminSurfaceResponse {
    Descriptor(AdminSurfaceDescriptor),
    CapabilitySet(CapabilityAnnouncement),
    Declared(AdminSurfaceInstanceDeclaration),
    Started(AdminSurfaceStatusView),
    Paused(AdminSurfacePauseView),
    Resumed(AdminSurfaceStatusView),
    Activated,
    ResumedAfterRollback(AdminSurfaceStatusView),
    ShutdownComplete,
}

/// Puts a written request into its envelope; `payload` is `None` where it could not be written.
pub fn encode_admin_surface_request(
    request: &AdminSurfaceRequest,
    payload: Option<Vec<u8>>,
) -> (result: Result<
    Vec<u8>,
    ProtocolCodecError,
>)
    ensures
        bytes_view(result) == framed(
            PluginKind::AdminSurface,
            request.spec_op().spec_code(),
            false,
            payload_view(payload),
            "failed to encode admin-surface payload",
        ),
{
    frame(
        PluginKind::AdminSurface,
        request.op_code().code(),
        false,
        payload,
        "failed to encode admin-surface payload",
    )
}

/// The operation and the payload in the envelope of a request, or why there is none.
pub open spec fn admin_surface_request_opened(
    s: Seq<u8>,
) -> Result<(u8, Seq<u8>), ProtocolCodecError> {
    opened(
        s,
        PluginKind::AdminSurface,
        false,
        "admin-surface request had wrong plugin kind",
        "admin-surface request unexpectedly set response flag",
    )
}

/// The payload in the envelope of a request.
pub fn admin_surface_request_payload(bytes: &[u8]) -> (result: Result<&[u8], ProtocolCodecError>)
    ensures
        match admin_surface_request_opened(bytes@) {
            Ok((_, payload)) => result matches Ok(p) && p@ == payload,
            Err(e) => result == Err::<&[u8], ProtocolCodecError>(e),
        },
{
    let (_, payload) = open_message(
        bytes,
        PluginKind::AdminSurface,
        false,
        "admin-surface request had wrong plugin kind",
        "admin-surface request unexpectedly set response flag",
    )?;
    Ok(payload)
}

/// Whether bytes are a request whose payload was read as one for `op`, or why not.
pub open spec fn admin_surface_request_accepted(
    s: Seq<u8>,
    op: Option<AdminSurfaceOpCode>,
) -> Result<
    (),
    ProtocolCodecError,
> {
    match admin_surface_request_opened(s) {
        Err(e) => Err(e),
        Ok((code, _)) => match op {
            None => Err(ProtocolCodecError::InvalidValue("failed to decode admin-surface payload")),
            Some(op) => match admin_surface_op_of(code) {
                None => Err(ProtocolCodecError::InvalidValue("invalid admin-surface op code")),
                Some(found) => if found == op {
                    Ok(())
                } else {
                    Err(
                        ProtocolCodecError::InvalidEnvelope(
                            "admin-surface request opcode did not match payload",
                        ),
                    )
                },
            },
        },
    }
}

/// Checks the envelope of a request against what its payload was read as; `parsed` is `None` where
/// the payload could not be read.
pub fn decode_admin_surface_request(
    bytes: &[u8],
    parsed: Option<AdminSurfaceRequest>,
) -> (result: Result<
    AdminSurfaceRequest,
    ProtocolCodecError,
>)
    ensures
        ({
            let op = match parsed {
                Some(request) => Some(request.spec_op()),
                None => None,
            };
            match result {
                Ok(request) => admin_surface_request_accepted(bytes@, op) is Ok && parsed == Some(
                    request,
                ),
                Err(e) => admin_surface_request_accepted(
                    bytes@,
                    op,
                ) == Err::<(), ProtocolCodecError>(e),
            }
        }),
{
    let (code, _) = open_message(
        bytes,
        PluginKind::AdminSurface,
        false,
        "admin-surface request had wrong plugin kind",
        "admin-surface request unexpectedly set response flag",
    )?;
    match parsed {
        None => Err(ProtocolCodecError::InvalidValue("failed to decode admin-surface payload")),
        Some(request) => {
            if request.op_code() != AdminSurfaceOpCode::try_from(code)? {
                return Err(
                    ProtocolCodecError::InvalidEnvelope(
                        "admin-surface request opcode did not match payload",
                    ),
                );
            }
            Ok(request)
        },
    }
}

/// A request whose payload was put into its envelope is accepted, and its payload comes out again.
pub proof fn admin_surface_request_round_trip(request: AdminSurfaceRequest, payload: Seq<u8>)
    requires
        payload.len() <= u32::MAX,
    ensures
        ({
            let s = message(
                PluginKind::AdminSurface,
                request.spec_op().spec_code(),
                false,
                payload,
            );
            &&& admin_surface_request_opened(s) == Ok::<(u8, Seq<u8>), ProtocolCodecError>(
                (request.spec_op().spec_code(), payload),
            )
            &&& admin_surface_request_accepted(s, Some(request.spec_op())) is Ok
        }),
{
    frame_round_trip(
        PluginKind::AdminSurface,
        request.spec_op().spec_code(),
        false,
        payload,
        "admin-surface request had wrong plugin kind",
        "admin-surface request unexpectedly set response flag",
    );
}

/// Puts a written response into its envelope; `payload` is `None` where it could not be written.
pub fn encode_admin_surface_response(
    request: &AdminSurfaceRequest,
    payload: Option<Vec<u8>>,
) -> (result: Result<
    Vec<u8>,
    ProtocolCodecError,
>)
    ensures
        bytes_view(result) == framed(
            PluginKind::AdminSurface,
            request.spec_op().spec_code(),
            true,
            payload_view(payload),
            "failed to encode admin-surface payload",
        ),
{
    frame(
        PluginKind::AdminSurface,
        request.op_code().code(),
        true,
        payload,
        "failed to encode admin-surface payload",
    )
}

/// The payload in the envelope of the response to an operation, or why there is none.
pub open spec fn admin_surface_response_opened(op: AdminSurfaceOpCode, s: Seq<u8>) -> Result<
    Seq<u8>,
    ProtocolCodecError,
> {
    match opened(
        s,
        PluginKind::AdminSurface,
        true,
        "admin-surface response had wrong plugin kind",
        "admin-surface response was missing response flag",
    ) {
        Err(e) => Err(e),
        Ok((code, payload)) => match admin_surface_op_of(code) {
            None => Err(ProtocolCodecError::InvalidValue("invalid admin-surface op code")),
            Some(found) => if found == op {
                Ok(payload)
            } else {
                Err(
                    ProtocolCodecError::InvalidEnvelope(
                        "admin-surface response opcode did not match request",
                    ),
                )
            },
        },
    }
}

/// The payload in the envelope of the response to a request.
pub fn admin_surface_response_payload<'a>(
    request: &AdminSurfaceRequest,
    bytes: &'a [u8],
) -> (result: Result<
    &'a [u8],
    ProtocolCodecError,
>)
    ensures
        match admin_surface_response_opened(request.spec_op(), bytes@) {
            Ok(payload) => result matches Ok(p) && p@ == payload,
            Err(e) => result == Err::<&'a [u8], ProtocolCodecError>(e),
        },
{
    let (code, payload) = open_message(
        bytes,
        PluginKind::AdminSurface,
        true,
        "admin-surface response had wrong plugin kind",
        "admin-surface response was missing response flag",
    )?;
    if request.op_code() != AdminSurfaceOpCode::try_from(code)? {
        return Err(
            ProtocolCodecError::InvalidEnvelope(
                "admin-surface response opcode did not match request",
            ),
        );
    }
    Ok(payload)
}

/// Checks the envelope of the response to a request; `parsed` is what its payload was read as, or
/// `None` where it could not be read.
pub fn decode_admin_surface_response(
    request: &AdminSurfaceRequest,
    bytes: &[u8],
    parsed: Option<AdminSurfaceResponse>,
) -> (result: Result<AdminSurfaceResponse, ProtocolCodecError>)
    ensures
        match admin_surface_response_opened(request.spec_op(), bytes@) {
            Err(e) => result == Err::<AdminSurfaceResponse, ProtocolCodecError>(e),
            Ok(_) => match parsed {
                Some(response) => result == Ok::<AdminSurfaceResponse, ProtocolCodecError>(
                    response,
                ),
                None => result == Err::<AdminSurfaceResponse, ProtocolCodecError>(
                    ProtocolCodecError::InvalidValue("failed to decode admin-surface payload"),
                ),
            },
        },
{
    let _ = admin_surface_response_payload(request, bytes)?;
    match parsed {
        Some(response) => Ok(response),
        None => Err(ProtocolCodecError::InvalidValue("failed to decode admin-surface payload")),
    }
}

/// The payload of a response that was put into the envelope for an operation comes out again.
pub proof fn admin_surface_response_round_trip(op: AdminSurfaceOpCode, payload: Seq<u8>)
    requires
        payload.len() <= u32::MAX,
    ensures
        admin_surface_response_opened(
            op,
            message(PluginKind::AdminSurface, op.spec_code(), true, payload),
        ) == Ok::<
            Seq<u8>,
            ProtocolCodecError,
        >(payload),
{
    frame_round_trip(
        PluginKind::AdminSurface,
        op.spec_code(),
        true,
        payload,
        "admin-surface response had wrong plugin kind",
        "admin-surface response was missing response flag",
    );
}

/// The mode with a given number, if there is one.
pub open spec fn reload_mode_of(number: u8) -> Option<RuntimeReloadMode> {
    if number == 1 {
        Some(RuntimeReloadMode::Artifacts)
    } else if number == 2 {
        Some(RuntimeReloadMode::Topology)
    } else if number == 3 {
        Some(RuntimeReloadMode::Core)
    } else if number == 4 {
        Some(RuntimeReloadMode::Full)
    } else {
        None
    }
}

/// The number of a mode.
pub fn encode_reload_mode(mode: RuntimeReloadMode) -> (result: u8)
    ensures
        reload_mode_of(result) == Some(mode),
{
    match mode {
        RuntimeReloadMode::Artifacts => 1,
        RuntimeReloadMode::Topology => 2,
        RuntimeReloadMode::Core => 3,
        RuntimeReloadMode::Full => 4,
    }
}

/// The mode with a given number.
pub fn decode_reload_mode(mode: u8) -> (result: Result<RuntimeReloadMode, ProtocolCodecError>)
    ensures
        match reload_mode_of(mode) {
            Some(found) => result == Ok::<RuntimeReloadMode, ProtocolCodecError>(found),
            None => result == Err::<RuntimeReloadMode, ProtocolCodecError>(
                ProtocolCodecError::InvalidValue("invalid admin-surface reload mode"),
            ),
        },
{
    match mode {
        1 => Ok(RuntimeReloadMode::Artifacts),
        2 => Ok(RuntimeReloadMode::Topology),
        3 => Ok(RuntimeReloadMode::Core),
        4 => Ok(RuntimeReloadMode::Full),
        _ => Err(ProtocolCodecError::InvalidValue("invalid admin-surface reload mode")),
    }
}

} // verus!
