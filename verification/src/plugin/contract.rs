//! The raw numbers of plugin kinds and statuses, and their checked counterparts.

use crate::plugin::abi::PluginAbiVersion;
use crate::text::{append_decimal, decimal};
use vstd::prelude::*;
use vstd::string::*;

verus! {

/// What a plugin is for.
#[derive(Clone, Copy, Debug, PartialEq, Eq, Structural, Hash)]
pub enum PluginKind {
    Protocol,
    Storage,
    Auth,
    Gameplay,
    AdminSurface,
}

/// A number that names no kind.
#[derive(Clone, Copy, Debug, PartialEq, Eq, Structural)]
pub struct InvalidPluginKind(pub u8);

impl InvalidPluginKind {
    /// The text of the error.
    pub fn message(&self) -> (text: String)
        ensures
            text@ == "unknown plugin kind tag "@ + decimal(self.0 as nat),
    {
        let mut text = "unknown plugin kind tag ".to_string();
        append_decimal(&mut text, self.0 as u64);
        text
    }
}

/// The kind with a given number, if there is one.
pub open spec fn kind_of(tag: u32) -> Option<PluginKind> {
    if tag == 1 {
        Some(PluginKind::Protocol)
    } else if tag == 2 {
        Some(PluginKind::Storage)
    } else if tag == 3 {
        Some(PluginKind::Auth)
    } else if tag == 4 {
        Some(PluginKind::Gameplay)
    } else if tag == 7 {
        Some(PluginKind::AdminSurface)
    } else {
        None
    }
}

/// The number of a kind.
pub open spec fn tag_of(kind: PluginKind) -> u32 {
    match kind {
        PluginKind::Protocol => 1,
        PluginKind::Storage => 2,
        PluginKind::Auth => 3,
        PluginKind::Gameplay => 4,
        PluginKind::AdminSurface => 7,
    }
}

impl PluginKind {
    /// The kind with a given number.
    pub fn try_from(value: u8) -> (result: Result<Self, InvalidPluginKind>)
        ensures
            match kind_of(value as u32) {
                Some(kind) => result == Ok::<Self, InvalidPluginKind>(kind),
                None => result == Err::<Self, InvalidPluginKind>(InvalidPluginKind(value)),
            },
    {
        match value {
            1 => Ok(PluginKind::Protocol),
            2 => Ok(PluginKind::Storage),
            3 => Ok(PluginKind::Auth),
            4 => Ok(PluginKind::Gameplay),
            7 => Ok(PluginKind::AdminSurface),
            _ => Err(InvalidPluginKind(value)),
        }
    }

    /// The kind that a raw number stands for.
    pub fn try_from_tag(value: PluginKindTag) -> (result: Result<Self, InvalidPluginKindTag>)
        ensures
            match kind_of(value.0) {
                Some(kind) => result == Ok::<Self, InvalidPluginKindTag>(kind),
                None => result == Err::<Self, InvalidPluginKindTag>(
                    InvalidPluginKindTag(value.0),
                ),
            },
    {
        if value.0 > 255 {
            return Err(InvalidPluginKindTag(value.0));
        }
        match PluginKind::try_from(value.0 as u8) {
            Ok(kind) => Ok(kind),
            Err(_) => Err(InvalidPluginKindTag(value.0)),
        }
    }
}

/// The raw number of a kind.
#[derive(Clone, Copy, Debug, PartialEq, Eq, Structural, Hash)]
pub struct PluginKindTag(pub u32);

impl PluginKindTag {
    /// The raw number of a kind.
    pub fn of(kind: PluginKind) -> (result: Self)
        ensures
            result.0 == tag_of(kind),
    {
        match kind {
            PluginKind::Protocol => PluginKindTag(1),
            PluginKind::Storage => PluginKindTag(2),
            PluginKind::Auth => PluginKindTag(3),
            PluginKind::Gameplay => PluginKindTag(4),
            PluginKind::AdminSurface => PluginKindTag(7),
        }
    }
}

/// A raw number that names no kind.
#[derive(Clone, Copy, Debug, PartialEq, Eq, Structural)]
pub struct InvalidPluginKindTag(pub u32);

impl InvalidPluginKindTag {
    /// The text of the error.
    pub fn message(&self) -> (text: String)
        ensures
            text@ == "unknown plugin kind tag "@ + decimal(self.0 as nat),
    {
        let mut text = "unknown plugin kind tag ".to_string();
        append_decimal(&mut text, self.0 as u64);
        text
    }
}

/// Reading the raw number of a kind gives the kind, and no other number gives it.
pub proof fn kind_tags_round_trip(kind: PluginKind, tag: u32)
    ensures
        kind_of(tag_of(kind)) == Some(kind),
        kind_of(tag) == Some(kind) ==> tag == tag_of(kind),
{
}

/// Protocol plugins have the number one, storage plugins two, authentication plugins three and
/// gameplay plugins four; administration surfaces have seven, and no other number names a kind.
pub proof fn kinds_have_their_numbers(kind: PluginKind, tag: u32)
    ensures
        kind is Protocol <==> tag_of(kind) == 1,
        kind is Storage <==> tag_of(kind) == 2,
        kind is Auth <==> tag_of(kind) == 3,
        kind is Gameplay <==> tag_of(kind) == 4,
        kind is AdminSurface <==> tag_of(kind) == 7,
        kind_of(tag) is Some <==> 1 <= tag <= 4 || tag == 7,
{
}

/// The raw number of a status.
#[derive(Clone, Copy, Debug, PartialEq, Eq, Structural, Hash)]
pub struct PluginStatus(pub u32);

/// How a call of a plugin ended.
#[derive(Clone, Copy, Debug, PartialEq, Eq, Structural)]
pub enum ValidatedPluginStatus {
    Success,
    InvalidInput,
    Internal,
    Unsupported,
    AbiMismatch,
    Quarantined,
}

/// A raw number that names no status.
#[derive(Clone, Copy, Debug, PartialEq, Eq, Structural)]
pub struct InvalidPluginStatus(pub u32);

impl InvalidPluginStatus {
    /// The text of the error.
    pub fn message(&self) -> (text: String)
        ensures
            text@ == "unknown plugin status tag "@ + decimal(self.0 as nat),
    {
        let mut text = "unknown plugin status tag ".to_string();
        append_decimal(&mut text, self.0 as u64);
        text
    }
}

/// The status with a given number, if there is one.
pub open spec fn status_of(tag: u32) -> Option<ValidatedPluginStatus> {
    if tag == 0 {
        Some(ValidatedPluginStatus::Success)
    } else if tag == 1 {
        Some(ValidatedPluginStatus::InvalidInput)
    } else if tag == 2 {
        Some(ValidatedPluginStatus::Internal)
    } else if tag == 3 {
        Some(ValidatedPluginStatus::Unsupported)
    } else if tag == 4 {
        Some(ValidatedPluginStatus::AbiMismatch)
    } else if tag == 5 {
        Some(ValidatedPluginStatus::Quarantined)
    } else {
        None
    }
}

/// The interface version that plugin tables are laid out for.
pub open spec fn table_abi() -> PluginAbiVersion {
    PluginAbiVersion { major: 9, minor: 0 }
}

/// The interface version that plugin tables are laid out for.
pub fn current_table_abi() -> (result: PluginAbiVersion)
    ensures
        result == table_abi(),
{
    PluginAbiVersion { major: 9, minor: 0 }
}

/// Success has the number zero, and failures have the numbers from one to five. No other number
/// names a status, and no two numbers name the same one.
pub proof fn statuses_have_their_numbers(tag: u32, other: u32)
    ensures
        status_of(tag) == Some(ValidatedPluginStatus::Success) <==> tag == 0,
        status_of(tag) == Some(ValidatedPluginStatus::InvalidInput) <==> tag == 1,
        status_of(tag) == Some(ValidatedPluginStatus::Internal) <==> tag == 2,
        status_of(tag) == Some(ValidatedPluginStatus::Unsupported) <==> tag == 3,
        status_of(tag) == Some(ValidatedPluginStatus::AbiMismatch) <==> tag == 4,
        status_of(tag) == Some(ValidatedPluginStatus::Quarantined) <==> tag == 5,
        status_of(tag) is None <==> tag > 5,
        status_of(tag) is Some && status_of(tag) == status_of(other) ==> tag == other,
{
}

impl ValidatedPluginStatus {
    /// The status that a raw number stands for.
    pub fn try_from(value: PluginStatus) -> (result: Result<Self, InvalidPluginStatus>)
        ensures
            match status_of(value.0) {
                Some(status) => result == Ok::<Self, InvalidPluginStatus>(status),
                None => result == Err::<Self, InvalidPluginStatus>(InvalidPluginStatus(value.0)),
            },
    {
        match value.0 {
            0 => Ok(ValidatedPluginStatus::Success),
            1 => Ok(ValidatedPluginStatus::InvalidInput),
            2 => Ok(ValidatedPluginStatus::Internal),
            3 => Ok(ValidatedPluginStatus::Unsupported),
            4 => Ok(ValidatedPluginStatus::AbiMismatch),
            5 => Ok(ValidatedPluginStatus::Quarantined),
            tag => Err(InvalidPluginStatus(tag)),
        }
    }
}

/// What every table of functions of a plugin starts with: its version and its size in bytes.
#[derive(Clone, Copy, Debug, PartialEq, Eq, Structural)]
pub struct PluginApiHeaderV9 {
    pub abi: PluginAbiVersion,
    pub struct_size: usize,
}

/// What the description of a plugin starts with: its version and its size in bytes.
#[derive(Clone, Copy, Debug, PartialEq, Eq, Structural)]
pub struct PluginManifestHeaderV9 {
    pub plugin_abi: PluginAbiVersion,
    pub struct_size: usize,
}

} // verus!
