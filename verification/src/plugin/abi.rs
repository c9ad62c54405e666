//! The interface version and the kinds of plugins that messages are marked with.

use crate::codec::grammar::ProtocolCodecError;
use crate::text::{append_decimal, decimal};
use vstd::prelude::*;
use vstd::string::*;

verus! {

/// The version of the interface between a host and its plugins.
#[derive(Clone, Copy, Debug, PartialEq, Eq, Structural, PartialOrd, Ord, Hash)]
pub struct PluginAbiVersion {
    pub major: u16,
    pub minor: u16,
}

/// The version that messages are marked with.
pub open spec fn current_abi() -> PluginAbiVersion {
    PluginAbiVersion { major: 4, minor: 0 }
}

/// The version that messages are marked with.
pub fn current_plugin_abi() -> (result: PluginAbiVersion)
    ensures
        result == current_abi(),
{
    PluginAbiVersion { major: 4, minor: 0 }
}

impl PluginAbiVersion {
    /// The version as text: the major and the minor number with a dot between.
    pub fn to_text(&self) -> (text: String)
        ensures
            text@ == decimal(self.major as nat) + "."@ + decimal(self.minor as nat),
    {
        let mut text = String::new();
        append_decimal(&mut text, self.major as u64);
        assert(text@ =~= decimal(self.major as nat));
        text.append(".");
        append_decimal(&mut text, self.minor as u64);
        text
    }
}

/// What a plugin is for.
#[derive(Clone, Copy, Debug, PartialEq, Eq, Structural, Hash)]
pub enum PluginKind {
    Protocol,
    Storage,
    Auth,
    Gameplay,
    AdminUi,
    AdminTransport,
    AdminSurface,
}

/// The kind with a given number, if there is one.
pub open spec fn kind_of_tag(tag: u8) -> Option<PluginKind> {
    if tag == 1 {
        Some(PluginKind::Protocol)
    } else if tag == 2 {
        Some(PluginKind::Storage)
    } else if tag == 3 {
        Some(PluginKind::Auth)
    } else if tag == 4 {
        Some(PluginKind::Gameplay)
    } else if tag == 5 {
        Some(PluginKind::AdminUi)
    } else if tag == 6 {
        Some(PluginKind::AdminTransport)
    } else if tag == 7 {
        Some(PluginKind::AdminSurface)
    } else {
        None
    }
}

impl PluginKind {
    /// The number of the kind.
    pub open spec fn spec_tag(self) -> u8 {
        match self {
            PluginKind::Protocol => 1,
            PluginKind::Storage => 2,
            PluginKind::Auth => 3,
            PluginKind::Gameplay => 4,
            PluginKind::AdminUi => 5,
            PluginKind::AdminTransport => 6,
            PluginKind::AdminSurface => 7,
        }
    }

    /// The number of the kind.
    pub fn tag(self) -> (result: u8)
        ensures
            result == self.spec_tag(),
    {
        match self {
            PluginKind::Protocol => 1,
            PluginKind::Storage => 2,
            PluginKind::Auth => 3,
            PluginKind::Gameplay => 4,
            PluginKind::AdminUi => 5,
            PluginKind::AdminTransport => 6,
            PluginKind::AdminSurface => 7,
        }
    }

    /// The kind with a given number.
    pub fn try_from(value: u8) -> (result: Result<Self, ProtocolCodecError>)
        ensures
            match kind_of_tag(value) {
                Some(kind) => result == Ok::<Self, ProtocolCodecError>(kind),
                None => result == Err::<Self, ProtocolCodecError>(
                    ProtocolCodecError::InvalidPluginKind(value),
                ),
            },
    {
        match value {
            1 => Ok(PluginKind::Protocol),
            2 => Ok(PluginKind::Storage),
            3 => Ok(PluginKind::Auth),
            4 => Ok(PluginKind::Gameplay),
            5 => Ok(PluginKind::AdminUi),
            6 => Ok(PluginKind::AdminTransport),
            7 => Ok(PluginKind::AdminSurface),
            _ => Err(ProtocolCodecError::InvalidPluginKind(value)),
        }
    }
}

/// Every kind is the one with its number.
pub proof fn kind_tags_agree(kind: PluginKind)
    ensures
        kind_of_tag(kind.spec_tag()) == Some(kind),
{
}

/// How a call of a plugin ended.
#[derive(Clone, Copy, Debug, PartialEq, Eq, Structural)]
pub enum PluginErrorCode {
    Success,
    InvalidInput,
    Internal,
    Unsupported,
    AbiMismatch,
    Quarantined,
}

impl PluginErrorCode {
    /// The number of the code.
    pub fn code(self) -> (result: u32)
        ensures
            result == match self {
                PluginErrorCode::Success => 0u32,
                PluginErrorCode::InvalidInput => 1,
                PluginErrorCode::Internal => 2,
                PluginErrorCode::Unsupported => 3,
                PluginErrorCode::AbiMismatch => 4,
                PluginErrorCode::Quarantined => 5,
            },
    {
        match self {
            PluginErrorCode::Success => 0,
            PluginErrorCode::InvalidInput => 1,
            PluginErrorCode::Internal => 2,
            PluginErrorCode::Unsupported => 3,
            PluginErrorCode::AbiMismatch => 4,
            PluginErrorCode::Quarantined => 5,
        }
    }
}

} // verus!
