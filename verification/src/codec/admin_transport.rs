//! Messages to and from plugins that carry the traffic of administrators.

use crate::codec::admin::{frame, frame_round_trip, framed, payload_view, RuntimeReloadMode};
use crate::codec::grammar::ProtocolCodecError;
use crate::codec::message::{bytes_view, message, open_message, opened};
use crate::codec::admin_ui::{AdminSessionsView, AdminStatusView};
use crate::model::capability::CapabilityAnnouncement;
use crate::model::names::AdminTransportProfileId;
use crate::plugin::abi::PluginKind;
use vstd::prelude::*;

verus! {

/// What a plugin that carries traffic is.
#[derive(Debug, PartialEq, Eq)]
pub struct AdminTransportDescriptor {
    pub transport_profile: AdminTransportProfileId,
}

/// Where administrators reach a server.
#[derive(Debug, PartialEq, Eq)]
pub struct AdminTransportEndpointView {
    pub transport: String,
    pub local_addr: String,
}

/// All places where administrators reach a server.
#[derive(Debug, PartialEq, Eq)]
pub struct AdminTransportStatusView {
    pub endpoints: Vec<AdminTransportEndpointView>,
}

/// What is needed to resume.
#[derive(Debug, PartialEq, Eq)]
pub struct AdminTransportPauseView {
    pub resume_payload: Vec<u8>,
}

/// The operations of plugins of this kind.
#[derive(Clone, Copy, Debug, PartialEq, Eq, Structural)]
pub enum AdminTransportOpCode {
    Describe,
    CapabilitySet,
    Start,
    PauseForUpgrade,
    ResumeFromUpgrade,
    ResumeAfterUpgradeRollback,
    Shutdown,
}

/// The operation with a given number, if there is one.
pub open spec fn admin_transport_op_of(code: u8) -> Option<AdminTransportOpCode> {
    if code == 1 {
        Some(AdminTransportOpCode::Describe)
    } else if code == 2 {
        Some(AdminTransportOpCode::CapabilitySet)
    } else if code == 3 {
        Some(AdminTransportOpCode::Start)
    } else if code == 4 {
        Some(AdminTransportOpCode::PauseForUpgrade)
    } else if code == 5 {
        Some(AdminTransportOpCode::ResumeFromUpgrade)
    } else if code == 6 {
        Some(AdminTransportOpCode::ResumeAfterUpgradeRollback)
    } else if code == 7 {
        Some(AdminTransportOpCode::Shutdown)
    } else {
        None
    }
}

impl AdminTransportOpCode {
    /// The number of the operation.
    pub open spec fn spec_code(self) -> u8 {
        match self {
            AdminTransportOpCode::Describe => 1,
            AdminTransportOpCode::CapabilitySet => 2,
            AdminTransportOpCode::Start => 3,
            AdminTransportOpCode::PauseForUpgrade => 4,
            AdminTransportOpCode::ResumeFromUpgrade => 5,
            AdminTransportOpCode::ResumeAfterUpgradeRollback => 6,
            AdminTransportOpCode::Shutdown => 7,
        }
    }

    /// The number of the operation.
    pub fn code(self) -> (result: u8)
        ensures
            result == self.spec_code(),
    {
        match self {
            AdminTransportOpCode::Describe => 1,
            AdminTransportOpCode::CapabilitySet => 2,
            AdminTransportOpCode::Start => 3,
            AdminTransportOpCode::PauseForUpgrade => 4,
            AdminTransportOpCode::ResumeFromUpgrade => 5,
            AdminTransportOpCode::ResumeAfterUpgradeRollback => 6,
            AdminTransportOpCode::Shutdown => 7,
        }
    }

    /// The operation with a given number.
    pub fn try_from(value: u8) -> (result: Result<Self, ProtocolCodecError>)
        ensures
            match admin_transport_op_of(value) {
                Some(op) => result == Ok::<Self, ProtocolCodecError>(op),
                None => result == Err::<Self, ProtocolCodecError>(
                    ProtocolCodecError::InvalidValue("invalid admin-transport op code"),
                ),
            },
    {
        match value {
            1 => Ok(AdminTransportOpCode::Describe),
            2 => Ok(AdminTransportOpCode::CapabilitySet),
            3 => Ok(AdminTransportOpCode::Start),
            4 => Ok(AdminTransportOpCode::PauseForUpgrade),
            5 => Ok(AdminTransportOpCode::ResumeFromUpgrade),
            6 => Ok(AdminTransportOpCode::ResumeAfterUpgradeRollback),
            7 => Ok(AdminTransportOpCode::Shutdown),
            _ => Err(ProtocolCodecError::InvalidValue("invalid admin-transport op code")),
        }
    }
}

/// A request to a plugin that carries traffic.
#[derive(Debug, PartialEq, Eq)]
pub enum AdminTransportRequest {
    Describe,
    CapabilitySet,
    Start { transport_config_path: String },
    PauseForUpgrade,
    ResumeFromUpgrade { transport_config_path: String, resume_payload: Vec<u8> },
    ResumeAfterUpgradeRollback,
    Shutdown,
}

impl AdminTransportRequest {
    /// The operation that is asked for.
    pub open spec fn spec_op(&self) -> AdminTransportOpCode {
        match self {
            AdminTransportRequest::Describe => AdminTransportOpCode::Describe,
            AdminTransportRequest::CapabilitySet => AdminTransportOpCode::CapabilitySet,
            AdminTransportRequest::Start { .. } => AdminTransportOpCode::Start,
            AdminTransportRequest::PauseForUpgrade => AdminTransportOpCode::PauseForUpgrade,
            AdminTransportRequest::ResumeFromUpgrade { .. } => {
                AdminTransportOpCode::ResumeFromUpgrade
            },
            AdminTransportRequest::ResumeAfterUpgradeRollback => {
                AdminTransportOpCode::ResumeAfterUpgradeRollback
            },
            AdminTransportRequest::Shutdown => AdminTransportOpCode::Shutdown,
        }
    }

    /// The operation that is asked for.
    pub fn op_code(&self) -> (result: AdminTransportOpCode)
        ensures
            result == self.spec_op(),
    {
        match self {
            AdminTransportRequest::Describe => AdminTransportOpCode::Describe,
            AdminTransportRequest::CapabilitySet => AdminTransportOpCode::CapabilitySet,
            AdminTransportRequest::Start { .. } => AdminTransportOpCode::Start,
            AdminTransportRequest::PauseForUpgrade => AdminTransportOpCode::PauseForUpgrade,
            AdminTransportRequest::ResumeFromUpgrade { .. } => {
                AdminTransportOpCode::ResumeFromUpgrade
            },
            AdminTransportRequest::ResumeAfterUpgradeRollback => {
                AdminTransportOpCode::ResumeAfterUpgradeRollback
            },
            AdminTransportRequest::Shutdown => AdminTransportOpCode::Shutdown,
        }
    }
}

/// A response of a plugin that carries traffic.
#[derive(Debug, PartialEq, Eq)]
pub enum AdminTransportResponse {
    Descriptor(AdminTransportDescriptor),
    CapabilitySet(CapabilityAnnouncement),
    Started(AdminTransportStatusView),
    Paused(AdminTransportPauseView),
    Resumed(AdminTransportStatusView),
    ResumedAfterRollback(AdminTransportStatusView),
    ShutdownComplete,
    Status(AdminStatusView),
    Sessions(AdminSessionsView),
    /// What reloading came to, as the server writes it down.
    ReloadRuntime(Vec<u8>),
    /// What upgrading came to, as the server writes it down.
    UpgradeRuntime(Vec<u8>),
}

/// Puts a written request into its envelope; `payload` is `None` where it could not be written.
pub fn encode_admin_transport_request(
    request: &AdminTransportRequest,
    payload: Option<Vec<u8>>,
) -> (result: Result<
    Vec<u8>,
    ProtocolCodecError,
>)
    ensures
        bytes_view(result) == framed(
            PluginKind::AdminTransport,
            request.spec_op().spec_code(),
            false,
            payload_view(payload),
            "failed to encode admin-transport payload",
        ),
{
    frame(
        PluginKind::AdminTransport,
        request.op_code().code(),
        false,
        payload,
        "failed to encode admin-transport payload",
    )
}

/// The operation and the payload in the envelope of a request, or why there is none.
pub open spec fn admin_transport_request_opened(
    s: Seq<u8>,
) -> Result<(u8, Seq<u8>), ProtocolCodecError> {
    opened(
        s,
        PluginKind::AdminTransport,
        false,
        "admin-transport request had wrong plugin kind",
        "admin-transport request unexpectedly set response flag",
    )
}

/// The payload in the envelope of a request.
pub fn admin_transport_request_payload(bytes: &[u8]) -> (result: Result<&[u8], ProtocolCodecError>)
    ensures
        match admin_transport_request_opened(bytes@) {
            Ok((_, payload)) => result matches Ok(p) && p@ == payload,
            Err(e) => result == Err::<&[u8], ProtocolCodecError>(e),
        },
{
    let (_, payload) = open_message(
        bytes,
        PluginKind::AdminTransport,
        false,
        "admin-transport request had wrong plugin kind",
        "admin-transport request unexpectedly set response flag",
    )?;
    Ok(payload)
}

/// Whether bytes are a request whose payload was read as one for `op`, or why not.
pub open spec fn admin_transport_request_accepted(
    s: Seq<u8>,
    op: Option<AdminTransportOpCode>,
) -> Result<
    (),
    ProtocolCodecError,
> {
    match admin_transport_request_opened(s) {
        Err(e) => Err(e),
        Ok((code, _)) => match op {
            None => Err(
                ProtocolCodecError::InvalidValue("failed to decode admin-transport payload"),
            ),
            Some(op) => match admin_transport_op_of(code) {
                None => Err(ProtocolCodecError::InvalidValue("invalid admin-transport op code")),
                Some(found) => if found == op {
                    Ok(())
                } else {
                    Err(
                        ProtocolCodecError::InvalidEnvelope(
                            "admin-transport request opcode did not match payload",
                        ),
                    )
                },
            },
        },
    }
}

/// Checks the envelope of a request against what its payload was read as; `parsed` is `None` where
/// the payload could not be read.
pub fn decode_admin_transport_request(
    bytes: &[u8],
    parsed: Option<AdminTransportRequest>,
) -> (result: Result<
    AdminTransportRequest,
    ProtocolCodecError,
>)
    ensures
        ({
            let op = match parsed {
                Some(request) => Some(request.spec_op()),
                None => None,
            };
            match result {
                Ok(request) => admin_transport_request_accepted(bytes@, op) is Ok && parsed == Some(
                    request,
                ),
                Err(e) => admin_transport_request_accepted(
                    bytes@,
                    op,
                ) == Err::<(), ProtocolCodecError>(e),
            }
        }),
{
    let (code, _) = open_message(
        bytes,
        PluginKind::AdminTransport,
        false,
        "admin-transport request had wrong plugin kind",
        "admin-transport request unexpectedly set response flag",
    )?;
    match parsed {
        None => Err(ProtocolCodecError::InvalidValue("failed to decode admin-transport payload")),
        Some(request) => {
            if request.op_code() != AdminTransportOpCode::try_from(code)? {
                return Err(
                    ProtocolCodecError::InvalidEnvelope(
                        "admin-transport request opcode did not match payload",
                    ),
                );
            }
            Ok(request)
        },
    }
}

/// A request whose payload was put into its envelope is accepted, and its payload comes out again.
pub proof fn admin_transport_request_round_trip(request: AdminTransportRequest, payload: Seq<u8>)
    requires
        payload.len() <= u32::MAX,
    ensures
        ({
            let s = message(
                PluginKind::AdminTransport,
                request.spec_op().spec_code(),
                false,
                payload,
            );
            &&& admin_transport_request_opened(s) == Ok::<(u8, Seq<u8>), ProtocolCodecError>(
                (request.spec_op().spec_code(), payload),
            )
            &&& admin_transport_request_accepted(s, Some(request.spec_op())) is Ok
        }),
{
    frame_round_trip(
        PluginKind::AdminTransport,
        request.spec_op().spec_code(),
        false,
        payload,
        "admin-transport request had wrong plugin kind",
        "admin-transport request unexpectedly set response flag",
    );
}

/// Puts a written response into its envelope; `payload` is `None` where it could not be written.
pub fn encode_admin_transport_response(
    request: &AdminTransportRequest,
    payload: Option<Vec<u8>>,
) -> (result: Result<
    Vec<u8>,
    ProtocolCodecError,
>)
    ensures
        bytes_view(result) == framed(
            PluginKind::AdminTransport,
            request.spec_op().spec_code(),
            true,
            payload_view(payload),
            "failed to encode admin-transport payload",
        ),
{
    frame(
        PluginKind::AdminTransport,
        request.op_code().code(),
        true,
        payload,
        "failed to encode admin-transport payload",
    )
}

/// The payload in the envelope of the response to an operation, or why there is none.
pub open spec fn admin_transport_response_opened(op: AdminTransportOpCode, s: Seq<u8>) -> Result<
    Seq<u8>,
    ProtocolCodecError,
> {
    match opened(
        s,
        PluginKind::AdminTransport,
        true,
        "admin-transport response had wrong plugin kind",
        "admin-transport response was missing response flag",
    ) {
        Err(e) => Err(e),
        Ok((code, payload)) => match admin_transport_op_of(code) {
            None => Err(ProtocolCodecError::InvalidValue("invalid admin-transport op code")),
            Some(found) => if found == op {
                Ok(payload)
            } else {
                Err(
                    ProtocolCodecError::InvalidEnvelope(
                        "admin-transport response opcode did not match request",
                    ),
                )
            },
        },
    }
}

/// The payload in the envelope of the response to a request.
pub fn admin_transport_response_payload<'a>(
    request: &AdminTransportRequest,
    bytes: &'a [u8],
) -> (result: Result<
    &'a [u8],
    ProtocolCodecError,
>)
    ensures
        match admin_transport_response_opened(request.spec_op(), bytes@) {
            Ok(payload) => result matches Ok(p) && p@ == payload,
            Err(e) => result == Err::<&'a [u8], ProtocolCodecError>(e),
        },
{
    let (code, payload) = open_message(
        bytes,
        PluginKind::AdminTransport,
        true,
        "admin-transport response had wrong plugin kind",
        "admin-transport response was missing response flag",
    )?;
    if request.op_code() != AdminTransportOpCode::try_from(code)? {
        return Err(
            ProtocolCodecError::InvalidEnvelope(
                "admin-transport response opcode did not match request",
            ),
        );
    }
    Ok(payload)
}

/// Checks the envelope of the response to a request; `parsed` is what its payload was read as, or
/// `None` where it could not be read.
pub fn decode_admin_transport_response(
    request: &AdminTransportRequest,
    bytes: &[u8],
    parsed: Option<AdminTransportResponse>,
) -> (result: Result<AdminTransportResponse, ProtocolCodecError>)
    ensures
        match admin_transport_response_opened(request.spec_op(), bytes@) {
            Err(e) => result == Err::<AdminTransportResponse, ProtocolCodecError>(e),
            Ok(_) => match parsed {
                Some(response) => result == Ok::<AdminTransportResponse, ProtocolCodecError>(
                    response,
                ),
                None => result == Err::<AdminTransportResponse, ProtocolCodecError>(
                    ProtocolCodecError::InvalidValue("failed to decode admin-transport payload"),
                ),
            },
        },
{
    let _ = admin_transport_response_payload(request, bytes)?;
    match parsed {
        Some(response) => Ok(response),
        None => Err(ProtocolCodecError::InvalidValue("failed to decode admin-transport payload")),
    }
}

/// The payload of a response that was put into the envelope for an operation comes out again.
pub proof fn admin_transport_response_round_trip(op: AdminTransportOpCode, payload: Seq<u8>)
    requires
        payload.len() <= u32::MAX,
    ensures
        admin_transport_response_opened(
            op,
            message(PluginKind::AdminTransport, op.spec_code(), true, payload),
        ) == Ok::<
            Seq<u8>,
            ProtocolCodecError,
        >(payload),
{
    frame_round_trip(
        PluginKind::AdminTransport,
        op.spec_code(),
        true,
        payload,
        "admin-transport response had wrong plugin kind",
        "admin-transport response was missing response flag",
    );
}

/// The mode with a given number, if there is one.
pub open spec fn reload_mode_of(number: u8) -> Option<RuntimeReloadMode> {
    if number == 1 {
        Some(RuntimeReloadMode::Artifacts)
    } else if number == 2 {
        Some(RuntimeReloadMode::Topology)
    } else if number == 3 {
        Some(RuntimeReloadMode::Core)
    } else if number == 4 {
        Some(RuntimeReloadMode::Full)
    } else {
        None
    }
}

/// The number of a mode.
pub fn encode_reload_mode(mode: RuntimeReloadMode) -> (result: u8)
    ensures
        reload_mode_of(result) == Some(mode),
{
    match mode {
        RuntimeReloadMode::Artifacts => 1,
        RuntimeReloadMode::Topology => 2,
        RuntimeReloadMode::Core => 3,
        RuntimeReloadMode::Full => 4,
    }
}

/// The mode with a given number.
pub fn decode_reload_mode(mode: u8) -> (result: Result<RuntimeReloadMode, ProtocolCodecError>)
    ensures
        match reload_mode_of(mode) {
            Some(found) => result == Ok::<RuntimeReloadMode, ProtocolCodecError>(found),
            None => result == Err::<RuntimeReloadMode, ProtocolCodecError>(
                ProtocolCodecError::InvalidValue("invalid admin-transport reload mode"),
            ),
        },
{
    match mode {
        1 => Ok(RuntimeReloadMode::Artifacts),
        2 => Ok(RuntimeReloadMode::Topology),
        3 => Ok(RuntimeReloadMode::Core),
        4 => Ok(RuntimeReloadMode::Full),
        _ => Err(ProtocolCodecError::InvalidValue("invalid admin-transport reload mode")),
    }
}

} // verus!
