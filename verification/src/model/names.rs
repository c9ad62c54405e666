//! Names that identify things.

use crate::codec::grammar::text_id;
use crate::ordered::Key;
use vstd::prelude::*;
use vstd::string::*;

verus! {

/// A kind of container.
#[derive(Debug, PartialEq, Eq, PartialOrd, Ord, Hash)]
pub struct ContainerKindId {
    text: String,
}

impl View for ContainerKindId {
    type V = Seq<char>;

    closed spec fn view(&self) -> Seq<char> {
        self.text@
    }
}

impl ContainerKindId {
    /// The name as an identifier.
    pub fn new(value: &str) -> (result: Self)
        ensures
            result@ == value@,
    {
        ContainerKindId { text: value.to_string() }
    }

    /// The name.
    pub fn as_str(&self) -> (result: &str)
        ensures
            result@ == self@,
    {
        self.text.as_str()
    }

    /// A copy of the identifier.
    pub fn duplicate(&self) -> (result: Self)
        ensures
            result@ == self@,
    {
        ContainerKindId { text: self.text.clone() }
    }

    /// Whether two identifiers are the same.
    pub fn same(&self, other: &Self) -> (result: bool)
        ensures
            result == (self@ == other@),
    {
        self.text == other.text
    }
}

/// A kind of block with contents of its own.
#[derive(Debug, PartialEq, Eq, PartialOrd, Ord, Hash)]
pub struct BlockEntityKindId {
    text: String,
}

impl View for BlockEntityKindId {
    type V = Seq<char>;

    closed spec fn view(&self) -> Seq<char> {
        self.text@
    }
}

impl BlockEntityKindId {
    /// The name as an identifier.
    pub fn new(value: &str) -> (result: Self)
        ensures
            result@ == value@,
    {
        BlockEntityKindId { text: value.to_string() }
    }

    /// The name.
    pub fn as_str(&self) -> (result: &str)
        ensures
            result@ == self@,
    {
        self.text.as_str()
    }

    /// A copy of the identifier.
    pub fn duplicate(&self) -> (result: Self)
        ensures
            result@ == self@,
    {
        BlockEntityKindId { text: self.text.clone() }
    }

    /// Whether two identifiers are the same.
    pub fn same(&self, other: &Self) -> (result: bool)
        ensures
            result == (self@ == other@),
    {
        self.text == other.text
    }
}

/// A property of a container.
#[derive(Debug, PartialEq, Eq, PartialOrd, Ord, Hash)]
pub struct ContainerPropertyKey {
    text: String,
}

impl View for ContainerPropertyKey {
    type V = Seq<char>;

    closed spec fn view(&self) -> Seq<char> {
        self.text@
    }
}

impl ContainerPropertyKey {
    /// The name as an identifier.
    pub fn new(value: &str) -> (result: Self)
        ensures
            result@ == value@,
    {
        ContainerPropertyKey { text: value.to_string() }
    }

    /// The name.
    pub fn as_str(&self) -> (result: &str)
        ensures
            result@ == self@,
    {
        self.text.as_str()
    }

    /// A copy of the identifier.
    pub fn duplicate(&self) -> (result: Self)
        ensures
            result@ == self@,
    {
        ContainerPropertyKey { text: self.text.clone() }
    }

    /// Whether two identifiers are the same.
    pub fn same(&self, other: &Self) -> (result: bool)
        ensures
            result == (self@ == other@),
    {
        self.text == other.text
    }
}

/// A set of gameplay rules.
#[derive(Debug, PartialEq, Eq, PartialOrd, Ord, Hash)]
pub struct GameplayProfileId {
    text: String,
}

impl View for GameplayProfileId {
    type V = Seq<char>;

    closed spec fn view(&self) -> Seq<char> {
        self.text@
    }
}

impl GameplayProfileId {
    /// The name as an identifier.
    pub fn new(value: &str) -> (result: Self)
        ensures
            result@ == value@,
    {
        GameplayProfileId { text: value.to_string() }
    }

    /// The name.
    pub fn as_str(&self) -> (result: &str)
        ensures
            result@ == self@,
    {
        self.text.as_str()
    }

    /// A copy of the identifier.
    pub fn duplicate(&self) -> (result: Self)
        ensures
            result@ == self@,
    {
        GameplayProfileId { text: self.text.clone() }
    }

    /// Whether two identifiers are the same.
    pub fn same(&self, other: &Self) -> (result: bool)
        ensures
            result == (self@ == other@),
    {
        self.text == other.text
    }
}

/// A way of authenticating.
#[derive(Debug, PartialEq, Eq, PartialOrd, Ord, Hash)]
pub struct AuthProfileId {
    text: String,
}

impl View for AuthProfileId {
    type V = Seq<char>;

    closed spec fn view(&self) -> Seq<char> {
        self.text@
    }
}

impl AuthProfileId {
    /// The name as an identifier.
    pub fn new(value: &str) -> (result: Self)
        ensures
            result@ == value@,
    {
        AuthProfileId { text: value.to_string() }
    }

    /// The name.
    pub fn as_str(&self) -> (result: &str)
        ensures
            result@ == self@,
    {
        self.text.as_str()
    }

    /// A copy of the identifier.
    pub fn duplicate(&self) -> (result: Self)
        ensures
            result@ == self@,
    {
        AuthProfileId { text: self.text.clone() }
    }

    /// Whether two identifiers are the same.
    pub fn same(&self, other: &Self) -> (result: bool)
        ensures
            result == (self@ == other@),
    {
        self.text == other.text
    }
}

/// A way of storing worlds.
#[derive(Debug, PartialEq, Eq, PartialOrd, Ord, Hash)]
pub struct StorageProfileId {
    text: String,
}

impl View for StorageProfileId {
    type V = Seq<char>;

    closed spec fn view(&self) -> Seq<char> {
        self.text@
    }
}

impl StorageProfileId {
    /// The name as an identifier.
    pub fn new(value: &str) -> (result: Self)
        ensures
            result@ == value@,
    {
        StorageProfileId { text: value.to_string() }
    }

    /// The name.
    pub fn as_str(&self) -> (result: &str)
        ensures
            result@ == self@,
    {
        self.text.as_str()
    }

    /// A copy of the identifier.
    pub fn duplicate(&self) -> (result: Self)
        ensures
            result@ == self@,
    {
        StorageProfileId { text: self.text.clone() }
    }

    /// Whether two identifiers are the same.
    pub fn same(&self, other: &Self) -> (result: bool)
        ensures
            result == (self@ == other@),
    {
        self.text == other.text
    }
}

/// A way of administering.
#[derive(Debug, PartialEq, Eq, PartialOrd, Ord, Hash)]
pub struct AdminSurfaceProfileId {
    text: String,
}

impl View for AdminSurfaceProfileId {
    type V = Seq<char>;

    closed spec fn view(&self) -> Seq<char> {
        self.text@
    }
}

impl AdminSurfaceProfileId {
    /// The name as an identifier.
    pub fn new(value: &str) -> (result: Self)
        ensures
            result@ == value@,
    {
        AdminSurfaceProfileId { text: value.to_string() }
    }

    /// The name.
    pub fn as_str(&self) -> (result: &str)
        ensures
            result@ == self@,
    {
        self.text.as_str()
    }

    /// A copy of the identifier.
    pub fn duplicate(&self) -> (result: Self)
        ensures
            result@ == self@,
    {
        AdminSurfaceProfileId { text: self.text.clone() }
    }

    /// Whether two identifiers are the same.
    pub fn same(&self, other: &Self) -> (result: bool)
        ensures
            result == (self@ == other@),
    {
        self.text == other.text
    }
}

/// A build of a plugin.
#[derive(Debug, PartialEq, Eq, PartialOrd, Ord, Hash)]
pub struct PluginBuildTag {
    text: String,
}

impl View for PluginBuildTag {
    type V = Seq<char>;

    closed spec fn view(&self) -> Seq<char> {
        self.text@
    }
}

impl PluginBuildTag {
    /// The name as an identifier.
    pub fn new(value: &str) -> (result: Self)
        ensures
            result@ == value@,
    {
        PluginBuildTag { text: value.to_string() }
    }

    /// The name.
    pub fn as_str(&self) -> (result: &str)
        ensures
            result@ == self@,
    {
        self.text.as_str()
    }

    /// A copy of the identifier.
    pub fn duplicate(&self) -> (result: Self)
        ensures
            result@ == self@,
    {
        PluginBuildTag { text: self.text.clone() }
    }

    /// Whether two identifiers are the same.
    pub fn same(&self, other: &Self) -> (result: bool)
        ensures
            result == (self@ == other@),
    {
        self.text == other.text
    }
}

impl Key for ContainerPropertyKey {
    open spec fn id(&self) -> Seq<int> {
        text_id(self@)
    }

    fn precedes(&self, other: &Self) -> (result: bool) {
        self.text.precedes(&other.text)
    }
}

/// A profile of the text interface for administrators.
#[derive(Debug, PartialEq, Eq, PartialOrd, Ord, Hash)]
pub struct AdminUiProfileId {
    text: String,
}

impl View for AdminUiProfileId {
    type V = Seq<char>;

    closed spec fn view(&self) -> Seq<char> {
        self.text@
    }
}

impl AdminUiProfileId {
    /// The name as an identifier.
    pub fn new(value: &str) -> (result: Self)
        ensures
            result@ == value@,
    {
        AdminUiProfileId { text: value.to_string() }
    }

    /// The name.
    pub fn as_str(&self) -> (result: &str)
        ensures
            result@ == self@,
    {
        self.text.as_str()
    }

    /// A copy of the identifier.
    pub fn duplicate(&self) -> (result: Self)
        ensures
            result@ == self@,
    {
        AdminUiProfileId { text: self.text.clone() }
    }

    /// Whether two identifiers are the same.
    pub fn same(&self, other: &Self) -> (result: bool)
        ensures
            result == (self@ == other@),
    {
        self.text == other.text
    }
}

/// A profile of how administrators reach a server.
#[derive(Debug, PartialEq, Eq, PartialOrd, Ord, Hash)]
pub struct AdminTransportProfileId {
    text: String,
}

impl View for AdminTransportProfileId {
    type V = Seq<char>;

    closed spec fn view(&self) -> Seq<char> {
        self.text@
    }
}

impl AdminTransportProfileId {
    /// The name as an identifier.
    pub fn new(value: &str) -> (result: Self)
        ensures
            result@ == value@,
    {
        AdminTransportProfileId { text: value.to_string() }
    }

    /// The name.
    pub fn as_str(&self) -> (result: &str)
        ensures
            result@ == self@,
    {
        self.text.as_str()
    }

    /// A copy of the identifier.
    pub fn duplicate(&self) -> (result: Self)
        ensures
            result@ == self@,
    {
        AdminTransportProfileId { text: self.text.clone() }
    }

    /// Whether two identifiers are the same.
    pub fn same(&self, other: &Self) -> (result: bool)
        ensures
            result == (self@ == other@),
    {
        self.text == other.text
    }
}

} // verus!
