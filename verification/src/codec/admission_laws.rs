//! Which messages are taken, and what administrators are told apart by.

use crate::bytes::from_le;
use crate::codec::admin::RuntimeReloadMode;
use crate::codec::admin_surface::{
    admin_surface_op_of, admin_surface_request_accepted, admin_surface_request_opened,
    admin_surface_response_opened, AdminSurfaceOpCode, AdminSurfaceRequest,
};
use crate::codec::admin_transport::{
    admin_transport_op_of, admin_transport_request_accepted, admin_transport_request_opened,
    admin_transport_response_opened, AdminTransportOpCode, AdminTransportRequest,
};
use crate::codec::admin_ui::{
    admin_ui_input_accepted, admin_ui_input_opened, admin_ui_op_of, admin_ui_output_opened,
    AdminPermission, AdminRequest, AdminUiInput, AdminUiOpCode,
};
use crate::codec::auth::{
    auth_request_format, auth_request_of, auth_response_format, auth_response_of, AuthOpCode,
};
use crate::codec::binary::envelope;
use crate::codec::gameplay::{
    gameplay_request_format, gameplay_request_of, gameplay_response_format, gameplay_response_of,
    GameplayOpCode,
};
use crate::codec::grammar::{parse, Format, ProtocolCodecError, Value};
use crate::codec::message::{opened, whole};
use crate::codec::message_laws::{
    auth_operations_are_numbered, gameplay_operations_are_numbered, kinds_are_numbered,
    messages_are_recognized, protocol_operations_are_numbered, storage_operations_are_numbered,
};
use crate::codec::protocol::{
    protocol_request_format, protocol_request_of, protocol_response_format, protocol_response_of,
    ProtocolOpCode,
};
use crate::codec::storage::{
    storage_request_format, storage_request_of, storage_response_format, storage_response_of,
    StorageOpCode,
};
use crate::plugin::abi::PluginKind;
use vstd::prelude::*;

verus! {

/// Whether bytes are a message of a kind of plugin, and a request or a response, with an operation
/// and a payload.
pub open spec fn carries(
    s: Seq<u8>,
    kind: PluginKind,
    response: bool,
    op: u8,
    payload: Seq<u8>,
) -> bool {
    &&& envelope(s) is Ok
    &&& s[4] == kind.spec_tag()
    &&& s[5] == op
    &&& s[6] % 2 == if response {
        1u8
    } else {
        0u8
    }
    &&& payload == s.subrange(12, s.len() as int)
}

proof fn low_byte(s: Seq<u8>)
    requires
        s.len() == 2,
    ensures
        from_le(s) == s[0] + 256 * s[1],
        from_le(s) % 2 == (s[0] % 2) as nat,
{
    reveal_with_fuel(from_le, 3);
}

/// A message is opened if and only if it is one of the kind that is asked for, and a request or a
/// response as is asked for. Its operation and its payload come out of it.
pub proof fn messages_of_a_kind_are_opened(
    s: Seq<u8>,
    kind: PluginKind,
    response: bool,
    wrong_kind: &'static str,
    wrong_flag: &'static str,
    op: u8,
    payload: Seq<u8>,
)
    ensures
        opened(s, kind, response, wrong_kind, wrong_flag) == Ok::<
            (u8, Seq<u8>),
            ProtocolCodecError,
        >((op, payload)) <==> carries(s, kind, response, op, payload),
        envelope(s) matches Ok((header, _)) ==> (header.plugin_kind != kind ==> opened(
            s,
            kind,
            response,
            wrong_kind,
            wrong_flag,
        ) == Err::<(u8, Seq<u8>), ProtocolCodecError>(
            ProtocolCodecError::InvalidEnvelope(wrong_kind),
        )),
{
    messages_are_recognized(s);
    if let Ok((header, rest)) = envelope(s) {
        low_byte(s.subrange(6, 8));
        assert(s.subrange(6, 8)[0] == s[6]);
        kinds_are_numbered(kind, s[4]);
        kinds_are_numbered(header.plugin_kind, s[4]);
    }
}

/// A payload means a value if and only if all its bytes do; bytes that are left over are an error.
pub proof fn payloads_are_read_to_their_end(f: Format, payload: Seq<u8>, v: Value)
    ensures
        whole(f, payload) == Ok::<Value, ProtocolCodecError>(v) <==> parse(f, payload) == Ok::<
            (Value, Seq<u8>),
            ProtocolCodecError,
        >((v, Seq::empty())),
        parse(f, payload) matches Ok((_, rest)) ==> (rest.len() > 0 ==> whole(f, payload) == Err::<
            Value,
            ProtocolCodecError,
        >(ProtocolCodecError::TrailingBytes)),
{
    if let Ok((_, rest)) = parse(f, payload) {
        if rest.len() == 0 {
            assert(rest =~= Seq::empty());
        }
    }
}

/// Bytes are a request to authentication plugins if and only if they are a message of that kind,
/// name one of its operations, and carry a payload that means a value of the request and nothing
/// more.
pub proof fn auth_requests_are_admitted(
    s: Seq<u8>,
    op: AuthOpCode,
    v: Value,
)
    ensures
        auth_request_of(s) == Ok::<(AuthOpCode, Value), ProtocolCodecError>((op, v)) <==> exists|
            payload: Seq<u8>,
        |
            #[trigger]
            carries(s, PluginKind::Auth, false, op.spec_code(), payload) && whole(
                auth_request_format(op),
                payload,
            ) == Ok::<Value, ProtocolCodecError>(v),
{
    let payload = s.subrange(12, s.len() as int);
    messages_of_a_kind_are_opened(
        s,
        PluginKind::Auth,
        false,
        "auth request had wrong plugin kind",
        "auth request unexpectedly set response flag",
        s[5],
        payload,
    );
    auth_operations_are_numbered(op, s[5]);
    if carries(s, PluginKind::Auth, false, op.spec_code(), payload) {
        assert(s[5] == op.spec_code());
    }
    if auth_request_of(s) == Ok::<(AuthOpCode, Value), ProtocolCodecError>((op, v)) {
        let (code, found) = opened(
            s,
            PluginKind::Auth,
            false,
            "auth request had wrong plugin kind",
            "auth request unexpectedly set response flag",
        )->Ok_0;
        messages_of_a_kind_are_opened(
            s,
            PluginKind::Auth,
            false,
            "auth request had wrong plugin kind",
            "auth request unexpectedly set response flag",
            code,
            found,
        );
        auth_operations_are_numbered(op, code);
        assert(carries(s, PluginKind::Auth, false, op.spec_code(), found));
    }
}

/// Bytes are a response of authentication plugins to an operation if and only if they are a
/// response of that kind to that operation and carry a payload that means a value of the response
/// and nothing more.
pub proof fn auth_responses_are_admitted(
    op: AuthOpCode,
    s: Seq<u8>,
    v: Value,
)
    ensures
        auth_response_of(op, s) == Ok::<Value, ProtocolCodecError>(v) <==> exists|
            payload: Seq<u8>,
        |
            #[trigger]
            carries(s, PluginKind::Auth, true, op.spec_code(), payload) && whole(
                auth_response_format(op),
                payload,
            ) == Ok::<Value, ProtocolCodecError>(v),
{
    let payload = s.subrange(12, s.len() as int);
    messages_of_a_kind_are_opened(
        s,
        PluginKind::Auth,
        true,
        "auth response had wrong plugin kind",
        "auth response was missing response flag",
        s[5],
        payload,
    );
    auth_operations_are_numbered(op, s[5]);
    if carries(s, PluginKind::Auth, true, op.spec_code(), payload) {
        assert(s[5] == op.spec_code());
    }
    if auth_response_of(op, s) == Ok::<Value, ProtocolCodecError>(v) {
        let (code, found) = opened(
            s,
            PluginKind::Auth,
            true,
            "auth response had wrong plugin kind",
            "auth response was missing response flag",
        )->Ok_0;
        messages_of_a_kind_are_opened(
            s,
            PluginKind::Auth,
            true,
            "auth response had wrong plugin kind",
            "auth response was missing response flag",
            code,
            found,
        );
        auth_operations_are_numbered(op, code);
        assert(carries(s, PluginKind::Auth, true, op.spec_code(), found));
    }
}

/// Bytes are a request to storage plugins if and only if they are a message of that kind, name one
/// of its operations, and carry a payload that means a value of the request and nothing more.
pub proof fn storage_requests_are_admitted(
    s: Seq<u8>,
    op: StorageOpCode,
    v: Value,
)
    ensures
        storage_request_of(s) == Ok::<(StorageOpCode, Value), ProtocolCodecError>((op, v)) <==> exists|
            payload: Seq<u8>,
        |
            #[trigger]
            carries(s, PluginKind::Storage, false, op.spec_code(), payload) && whole(
                storage_request_format(op),
                payload,
            ) == Ok::<Value, ProtocolCodecError>(v),
{
    let payload = s.subrange(12, s.len() as int);
    messages_of_a_kind_are_opened(
        s,
        PluginKind::Storage,
        false,
        "storage request had wrong plugin kind",
        "storage request unexpectedly set response flag",
        s[5],
        payload,
    );
    storage_operations_are_numbered(op, s[5]);
    if carries(s, PluginKind::Storage, false, op.spec_code(), payload) {
        assert(s[5] == op.spec_code());
    }
    if storage_request_of(s) == Ok::<(StorageOpCode, Value), ProtocolCodecError>((op, v)) {
        let (code, found) = opened(
            s,
            PluginKind::Storage,
            false,
            "storage request had wrong plugin kind",
            "storage request unexpectedly set response flag",
        )->Ok_0;
        messages_of_a_kind_are_opened(
            s,
            PluginKind::Storage,
            false,
            "storage request had wrong plugin kind",
            "storage request unexpectedly set response flag",
            code,
            found,
        );
        storage_operations_are_numbered(op, code);
        assert(carries(s, PluginKind::Storage, false, op.spec_code(), found));
    }
}

/// Bytes are a response of storage plugins to an operation if and only if they are a response of
/// that kind to that operation and carry a payload that means a value of the response and nothing
/// more.
pub proof fn storage_responses_are_admitted(
    op: StorageOpCode,
    s: Seq<u8>,
    vocabulary: Seq<Seq<char>>,
    v: Value,
)
    ensures
        storage_response_of(op, s, vocabulary) == Ok::<Value, ProtocolCodecError>(v) <==> exists|
            payload: Seq<u8>,
        |
            #[trigger]
            carries(s, PluginKind::Storage, true, op.spec_code(), payload) && whole(
                storage_response_format(op, vocabulary),
                payload,
            ) == Ok::<Value, ProtocolCodecError>(v),
{
    let payload = s.subrange(12, s.len() as int);
    messages_of_a_kind_are_opened(
        s,
        PluginKind::Storage,
        true,
        "storage response had wrong plugin kind",
        "storage response was missing response flag",
        s[5],
        payload,
    );
    storage_operations_are_numbered(op, s[5]);
    if carries(s, PluginKind::Storage, true, op.spec_code(), payload) {
        assert(s[5] == op.spec_code());
    }
    if storage_response_of(op, s, vocabulary) == Ok::<Value, ProtocolCodecError>(v) {
        let (code, found) = opened(
            s,
            PluginKind::Storage,
            true,
            "storage response had wrong plugin kind",
            "storage response was missing response flag",
        )->Ok_0;
        messages_of_a_kind_are_opened(
            s,
            PluginKind::Storage,
            true,
            "storage response had wrong plugin kind",
            "storage response was missing response flag",
            code,
            found,
        );
        storage_operations_are_numbered(op, code);
        assert(carries(s, PluginKind::Storage, true, op.spec_code(), found));
    }
}

/// Bytes are a request to protocol plugins if and only if they are a message of that kind, name one
/// of its operations, and carry a payload that means a value of the request and nothing more.
pub proof fn protocol_requests_are_admitted(
    s: Seq<u8>,
    op: ProtocolOpCode,
    v: Value,
)
    ensures
        protocol_request_of(s) == Ok::<(ProtocolOpCode, Value), ProtocolCodecError>((op, v)) <==> exists|
            payload: Seq<u8>,
        |
            #[trigger]
            carries(s, PluginKind::Protocol, false, op.spec_code(), payload) && whole(
                protocol_request_format(op),
                payload,
            ) == Ok::<Value, ProtocolCodecError>(v),
{
    let payload = s.subrange(12, s.len() as int);
    messages_of_a_kind_are_opened(
        s,
        PluginKind::Protocol,
        false,
        "protocol request had wrong plugin kind",
        "protocol request unexpectedly set response flag",
        s[5],
        payload,
    );
    protocol_operations_are_numbered(op, s[5]);
    if carries(s, PluginKind::Protocol, false, op.spec_code(), payload) {
        assert(s[5] == op.spec_code());
    }
    if protocol_request_of(s) == Ok::<(ProtocolOpCode, Value), ProtocolCodecError>((op, v)) {
        let (code, found) = opened(
            s,
            PluginKind::Protocol,
            false,
            "protocol request had wrong plugin kind",
            "protocol request unexpectedly set response flag",
        )->Ok_0;
        messages_of_a_kind_are_opened(
            s,
            PluginKind::Protocol,
            false,
            "protocol request had wrong plugin kind",
            "protocol request unexpectedly set response flag",
            code,
            found,
        );
        protocol_operations_are_numbered(op, code);
        assert(carries(s, PluginKind::Protocol, false, op.spec_code(), found));
    }
}

/// Bytes are a response of protocol plugins to an operation if and only if they are a response of
/// that kind to that operation and carry a payload that means a value of the response and nothing
/// more.
pub proof fn protocol_responses_are_admitted(
    op: ProtocolOpCode,
    s: Seq<u8>,
    vocabulary: Seq<Seq<char>>,
    v: Value,
)
    ensures
        protocol_response_of(op, s, vocabulary) == Ok::<Value, ProtocolCodecError>(v) <==> exists|
            payload: Seq<u8>,
        |
            #[trigger]
            carries(s, PluginKind::Protocol, true, op.spec_code(), payload) && whole(
                protocol_response_format(op, vocabulary),
                payload,
            ) == Ok::<Value, ProtocolCodecError>(v),
{
    let payload = s.subrange(12, s.len() as int);
    messages_of_a_kind_are_opened(
        s,
        PluginKind::Protocol,
        true,
        "protocol response had wrong plugin kind",
        "protocol response was missing response flag",
        s[5],
        payload,
    );
    protocol_operations_are_numbered(op, s[5]);
    if carries(s, PluginKind::Protocol, true, op.spec_code(), payload) {
        assert(s[5] == op.spec_code());
    }
    if protocol_response_of(op, s, vocabulary) == Ok::<Value, ProtocolCodecError>(v) {
        let (code, found) = opened(
            s,
            PluginKind::Protocol,
            true,
            "protocol response had wrong plugin kind",
            "protocol response was missing response flag",
        )->Ok_0;
        messages_of_a_kind_are_opened(
            s,
            PluginKind::Protocol,
            true,
            "protocol response had wrong plugin kind",
            "protocol response was missing response flag",
            code,
            found,
        );
        protocol_operations_are_numbered(op, code);
        assert(carries(s, PluginKind::Protocol, true, op.spec_code(), found));
    }
}

/// Bytes are a request to gameplay plugins if and only if they are a message of that kind, name one
/// of its operations, and carry a payload that means a value of the request and nothing more.
pub proof fn gameplay_requests_are_admitted(
    s: Seq<u8>,
    vocabulary: Seq<Seq<char>>,
    op: GameplayOpCode,
    v: Value,
)
    ensures
        gameplay_request_of(s, vocabulary) == Ok::<(GameplayOpCode, Value), ProtocolCodecError>((op, v)) <==> exists|
            payload: Seq<u8>,
        |
            #[trigger]
            carries(s, PluginKind::Gameplay, false, op.spec_code(), payload) && whole(
                gameplay_request_format(op, vocabulary),
                payload,
            ) == Ok::<Value, ProtocolCodecError>(v),
{
    let payload = s.subrange(12, s.len() as int);
    messages_of_a_kind_are_opened(
        s,
        PluginKind::Gameplay,
        false,
        "gameplay request had wrong plugin kind",
        "gameplay request unexpectedly set response flag",
        s[5],
        payload,
    );
    gameplay_operations_are_numbered(op, s[5]);
    if carries(s, PluginKind::Gameplay, false, op.spec_code(), payload) {
        assert(s[5] == op.spec_code());
    }
    if gameplay_request_of(s, vocabulary) == Ok::<(GameplayOpCode, Value), ProtocolCodecError>((op, v)) {
        let (code, found) = opened(
            s,
            PluginKind::Gameplay,
            false,
            "gameplay request had wrong plugin kind",
            "gameplay request unexpectedly set response flag",
        )->Ok_0;
        messages_of_a_kind_are_opened(
            s,
            PluginKind::Gameplay,
            false,
            "gameplay request had wrong plugin kind",
            "gameplay request unexpectedly set response flag",
            code,
            found,
        );
        gameplay_operations_are_numbered(op, code);
        assert(carries(s, PluginKind::Gameplay, false, op.spec_code(), found));
    }
}

/// Bytes are a response of gameplay plugins to an operation if and only if they are a response of
/// that kind to that operation and carry a payload that means a value of the response and nothing
/// more.
pub proof fn gameplay_responses_are_admitted(
    op: GameplayOpCode,
    s: Seq<u8>,
    vocabulary: Seq<Seq<char>>,
    v: Value,
)
    ensures
        gameplay_response_of(op, s, vocabulary) == Ok::<Value, ProtocolCodecError>(v) <==> exists|
            payload: Seq<u8>,
        |
            #[trigger]
            carries(s, PluginKind::Gameplay, true, op.spec_code(), payload) && whole(
                gameplay_response_format(op, vocabulary),
                payload,
            ) == Ok::<Value, ProtocolCodecError>(v),
{
    let payload = s.subrange(12, s.len() as int);
    messages_of_a_kind_are_opened(
        s,
        PluginKind::Gameplay,
        true,
        "gameplay response had wrong plugin kind",
        "gameplay response was missing response flag",
        s[5],
        payload,
    );
    gameplay_operations_are_numbered(op, s[5]);
    if carries(s, PluginKind::Gameplay, true, op.spec_code(), payload) {
        assert(s[5] == op.spec_code());
    }
    if gameplay_response_of(op, s, vocabulary) == Ok::<Value, ProtocolCodecError>(v) {
        let (code, found) = opened(
            s,
            PluginKind::Gameplay,
            true,
            "gameplay response had wrong plugin kind",
            "gameplay response was missing response flag",
        )->Ok_0;
        messages_of_a_kind_are_opened(
            s,
            PluginKind::Gameplay,
            true,
            "gameplay response had wrong plugin kind",
            "gameplay response was missing response flag",
            code,
            found,
        );
        gameplay_operations_are_numbered(op, code);
        assert(carries(s, PluginKind::Gameplay, true, op.spec_code(), found));
    }
}

/// Each operation of text interfaces, transports and surfaces for administrators has its number,
/// and no other number has one.
pub proof fn admin_operations_are_numbered(
    ui: AdminUiOpCode,
    transport: AdminTransportOpCode,
    surface: AdminSurfaceOpCode,
    code: u8,
)
    ensures
        ui.spec_code() == (match ui {
            AdminUiOpCode::Describe => 1u8,
            AdminUiOpCode::CapabilitySet => 2u8,
            AdminUiOpCode::ParseLine => 3u8,
            AdminUiOpCode::RenderResponse => 4u8,
        }),
        transport.spec_code() == (match transport {
            AdminTransportOpCode::Describe => 1u8,
            AdminTransportOpCode::CapabilitySet => 2u8,
            AdminTransportOpCode::Start => 3u8,
            AdminTransportOpCode::PauseForUpgrade => 4u8,
            AdminTransportOpCode::ResumeFromUpgrade => 5u8,
            AdminTransportOpCode::ResumeAfterUpgradeRollback => 6u8,
            AdminTransportOpCode::Shutdown => 7u8,
        }),
        surface.spec_code() == (match surface {
            AdminSurfaceOpCode::Describe => 1u8,
            AdminSurfaceOpCode::CapabilitySet => 2u8,
            AdminSurfaceOpCode::DeclareInstance => 3u8,
            AdminSurfaceOpCode::Start => 4u8,
            AdminSurfaceOpCode::PauseForUpgrade => 5u8,
            AdminSurfaceOpCode::ResumeFromUpgrade => 6u8,
            AdminSurfaceOpCode::ActivateAfterUpgradeCommit => 7u8,
            AdminSurfaceOpCode::ResumeAfterUpgradeRollback => 8u8,
            AdminSurfaceOpCode::Shutdown => 9u8,
        }),
        admin_ui_op_of(code) == Some(ui) <==> code == ui.spec_code(),
        admin_transport_op_of(code) == Some(transport) <==> code == transport.spec_code(),
        admin_surface_op_of(code) == Some(surface) <==> code == surface.spec_code(),
{
}

/// What is asked of administration plugins is the operation of the same name.
pub proof fn admin_requests_name_their_operations(
    ui: AdminUiInput,
    transport: AdminTransportRequest,
    surface: AdminSurfaceRequest,
)
    ensures
        ui.spec_op() is Describe <==> ui is Describe,
        ui.spec_op() is CapabilitySet <==> ui is CapabilitySet,
        ui.spec_op() is ParseLine <==> ui is ParseLine,
        ui.spec_op() is RenderResponse <==> ui is RenderResponse,
        transport.spec_op() is Describe <==> transport is Describe,
        transport.spec_op() is CapabilitySet <==> transport is CapabilitySet,
        transport.spec_op() is Start <==> transport is Start,
        transport.spec_op() is PauseForUpgrade <==> transport is PauseForUpgrade,
        transport.spec_op() is ResumeFromUpgrade <==> transport is ResumeFromUpgrade,
        transport.spec_op() is ResumeAfterUpgradeRollback
            <==> transport is ResumeAfterUpgradeRollback,
        transport.spec_op() is Shutdown <==> transport is Shutdown,
        surface.spec_op() is Describe <==> surface is Describe,
        surface.spec_op() is CapabilitySet <==> surface is CapabilitySet,
        surface.spec_op() is DeclareInstance <==> surface is DeclareInstance,
        surface.spec_op() is Start <==> surface is Start,
        surface.spec_op() is PauseForUpgrade <==> surface is PauseForUpgrade,
        surface.spec_op() is ResumeFromUpgrade <==> surface is ResumeFromUpgrade,
        surface.spec_op() is ActivateAfterUpgradeCommit <==> surface is ActivateAfterUpgradeCommit,
        surface.spec_op() is ResumeAfterUpgradeRollback <==> surface is ResumeAfterUpgradeRollback,
        surface.spec_op() is Shutdown <==> surface is Shutdown,
{
}

/// Whatever an administrator asks for but help takes the permission of the same name, and two
/// requests that take the same permission are the same.
pub proof fn requests_take_their_own_permissions(a: AdminRequest, b: AdminRequest)
    ensures
        a.spec_required_permission() is None <==> a is Help,
        a.spec_required_permission() == b.spec_required_permission() <==> a == b,
        a is Shutdown ==> a.spec_required_permission() == Some(AdminPermission::Shutdown),
        a is Status ==> a.spec_required_permission() == Some(AdminPermission::Status),
        a is Sessions ==> a.spec_required_permission() == Some(AdminPermission::Sessions),
        a is ReloadConfig ==> a.spec_required_permission() == Some(AdminPermission::ReloadConfig),
        a is ReloadPlugins ==> a.spec_required_permission() == Some(AdminPermission::ReloadPlugins),
        a is ReloadGeneration ==> a.spec_required_permission() == Some(
            AdminPermission::ReloadGeneration,
        ),
{
}

/// Modes of loading a server again are numbered from one on, and both kinds of administration
/// plugins number them alike.
pub proof fn reload_modes_are_numbered(number: u8)
    ensures
        ({
            let mode = crate::codec::admin_surface::reload_mode_of(number);
            &&& mode == crate::codec::admin_transport::reload_mode_of(number)
            &&& mode is Some <==> 1 <= number <= 4
            &&& number == 1 ==> mode == Some(RuntimeReloadMode::Artifacts)
            &&& number == 2 ==> mode == Some(RuntimeReloadMode::Topology)
            &&& number == 3 ==> mode == Some(RuntimeReloadMode::Core)
            &&& number == 4 ==> mode == Some(RuntimeReloadMode::Full)
        }),
{
}

/// A message to text interfaces is taken if and only if it is a request of that kind and its
/// payload was read as one for the operation that it names.
pub proof fn admin_ui_requests_are_admitted(s: Seq<u8>, op: AdminUiOpCode)
    ensures
        admin_ui_input_accepted(s, Some(op)) is Ok <==> carries(
            s,
            PluginKind::AdminUi,
            false,
            op.spec_code(),
            s.subrange(12, s.len() as int),
        ),
        admin_ui_input_accepted(s, None) is Err,
        admin_ui_input_opened(s) matches Ok((code, payload)) ==> carries(
            s,
            PluginKind::AdminUi,
            false,
            code,
            payload,
        ),
{
    if admin_ui_input_opened(s) is Ok {
        let (code, payload) = admin_ui_input_opened(s)->Ok_0;
        messages_of_a_kind_are_opened(
            s,
            PluginKind::AdminUi,
            false,
            "admin-ui input had wrong plugin kind",
            "admin-ui input unexpectedly set response flag",
            code,
            payload,
        );
    }
    messages_of_a_kind_are_opened(
        s,
        PluginKind::AdminUi,
        false,
        "admin-ui input had wrong plugin kind",
        "admin-ui input unexpectedly set response flag",
        s[5],
        s.subrange(12, s.len() as int),
    );
}

/// The payload of a message from text interfaces is taken if and only if it is a response of that
/// kind to the operation in question.
pub proof fn admin_ui_responses_are_admitted(op: AdminUiOpCode, s: Seq<u8>, payload: Seq<u8>)
    ensures
        admin_ui_output_opened(op, s) == Ok::<Seq<u8>, ProtocolCodecError>(payload) <==> carries(
            s,
            PluginKind::AdminUi,
            true,
            op.spec_code(),
            payload,
        ),
{
    messages_of_a_kind_are_opened(
        s,
        PluginKind::AdminUi,
        true,
        "admin-ui output had wrong plugin kind",
        "admin-ui output was missing response flag",
        s[5],
        payload,
    );
    messages_of_a_kind_are_opened(
        s,
        PluginKind::AdminUi,
        true,
        "admin-ui output had wrong plugin kind",
        "admin-ui output was missing response flag",
        op.spec_code(),
        payload,
    );
}

/// A message to administration transports is taken if and only if it is a request of that kind and
/// its payload was read as one for the operation that it names.
pub proof fn admin_transport_requests_are_admitted(s: Seq<u8>, op: AdminTransportOpCode)
    ensures
        admin_transport_request_accepted(s, Some(op)) is Ok <==> carries(
            s,
            PluginKind::AdminTransport,
            false,
            op.spec_code(),
            s.subrange(12, s.len() as int),
        ),
        admin_transport_request_accepted(s, None) is Err,
        admin_transport_request_opened(s) matches Ok((code, payload)) ==> carries(
            s,
            PluginKind::AdminTransport,
            false,
            code,
            payload,
        ),
{
    if admin_transport_request_opened(s) is Ok {
        let (code, payload) = admin_transport_request_opened(s)->Ok_0;
        messages_of_a_kind_are_opened(
            s,
            PluginKind::AdminTransport,
            false,
            "admin-transport request had wrong plugin kind",
            "admin-transport request unexpectedly set response flag",
            code,
            payload,
        );
    }
    messages_of_a_kind_are_opened(
        s,
        PluginKind::AdminTransport,
        false,
        "admin-transport request had wrong plugin kind",
        "admin-transport request unexpectedly set response flag",
        s[5],
        s.subrange(12, s.len() as int),
    );
}

/// The payload of a message from administration transports is taken if and only if it is a response
/// of that kind to the operation in question.
pub proof fn admin_transport_responses_are_admitted(op: AdminTransportOpCode, s: Seq<u8>, payload: Seq<u8>)
    ensures
        admin_transport_response_opened(op, s) == Ok::<Seq<u8>, ProtocolCodecError>(payload) <==> carries(
            s,
            PluginKind::AdminTransport,
            true,
            op.spec_code(),
            payload,
        ),
{
    messages_of_a_kind_are_opened(
        s,
        PluginKind::AdminTransport,
        true,
        "admin-transport response had wrong plugin kind",
        "admin-transport response was missing response flag",
        s[5],
        payload,
    );
    messages_of_a_kind_are_opened(
        s,
        PluginKind::AdminTransport,
        true,
        "admin-transport response had wrong plugin kind",
        "admin-transport response was missing response flag",
        op.spec_code(),
        payload,
    );
}

/// A message to administration surfaces is taken if and only if it is a request of that kind and
/// its payload was read as one for the operation that it names.
pub proof fn admin_surface_requests_are_admitted(s: Seq<u8>, op: AdminSurfaceOpCode)
    ensures
        admin_surface_request_accepted(s, Some(op)) is Ok <==> carries(
            s,
            PluginKind::AdminSurface,
            false,
            op.spec_code(),
            s.subrange(12, s.len() as int),
        ),
        admin_surface_request_accepted(s, None) is Err,
        admin_surface_request_opened(s) matches Ok((code, payload)) ==> carries(
            s,
            PluginKind::AdminSurface,
            false,
            code,
            payload,
        ),
{
    if admin_surface_request_opened(s) is Ok {
        let (code, payload) = admin_surface_request_opened(s)->Ok_0;
        messages_of_a_kind_are_opened(
            s,
            PluginKind::AdminSurface,
            false,
            "admin-surface request had wrong plugin kind",
            "admin-surface request unexpectedly set response flag",
            code,
            payload,
        );
    }
    messages_of_a_kind_are_opened(
        s,
        PluginKind::AdminSurface,
        false,
        "admin-surface request had wrong plugin kind",
        "admin-surface request unexpectedly set response flag",
        s[5],
        s.subrange(12, s.len() as int),
    );
}

/// The payload of a message from administration surfaces is taken if and only if it is a response
/// of that kind to the operation in question.
pub proof fn admin_surface_responses_are_admitted(op: AdminSurfaceOpCode, s: Seq<u8>, payload: Seq<u8>)
    ensures
        admin_surface_response_opened(op, s) == Ok::<Seq<u8>, ProtocolCodecError>(payload) <==> carries(
            s,
            PluginKind::AdminSurface,
            true,
            op.spec_code(),
            payload,
        ),
{
    messages_of_a_kind_are_opened(
        s,
        PluginKind::AdminSurface,
        true,
        "admin-surface response had wrong plugin kind",
        "admin-surface response was missing response flag",
        s[5],
        payload,
    );
    messages_of_a_kind_are_opened(
        s,
        PluginKind::AdminSurface,
        true,
        "admin-surface response had wrong plugin kind",
        "admin-surface response was missing response flag",
        op.spec_code(),
        payload,
    );
}

} // verus!
