//! What plugins can do.

use crate::codec::grammar::{text_id, Value};
use crate::model::names::PluginBuildTag;
use crate::model::view::Mark;
use crate::ordered::{holds, insert_laws, inserted, lookup, sorted, Entries, Key, OrderedMap};
use vstd::prelude::*;
use vstd::string::*;

verus! {

/// A set of capabilities, in the order of their names.
#[derive(Debug, PartialEq, Eq)]
pub struct CapabilitySet {
    pub tokens: OrderedMap<String, Mark>,
}

/// The names of capabilities without their types.
pub open spec fn token_values(pairs: Seq<(String, Mark)>) -> Seq<Value> {
    pairs.map_values(|pair: (String, Mark)| Value::Text(pair.0@))
}

impl View for CapabilitySet {
    type V = Seq<Value>;

    open spec fn view(&self) -> Seq<Value> {
        token_values(self.tokens.pairs())
    }
}

impl CapabilitySet {
    /// Whether the names stand in order.
    pub open spec fn wf(&self) -> bool {
        self.tokens.wf()
    }

    /// Whether the set has a capability.
    pub open spec fn has_token(&self, name: Seq<char>) -> bool {
        holds(self.tokens@, text_id(name))
    }

    /// No capabilities.
    pub fn new() -> (result: Self)
        ensures
            result.wf(),
            result@ == Seq::<Value>::empty(),
    {
        let result = CapabilitySet { tokens: OrderedMap::new() };
        assert(result@ =~= Seq::<Value>::empty());
        result
    }

    /// Adds a capability. Returns whether it is new.
    pub fn insert(&mut self, name: &str) -> (result: bool)
        requires
            old(self).wf(),
        ensures
            final(self).wf(),
            result == !old(self).has_token(name@),
            final(self).tokens@ == inserted(old(self).tokens@, text_id(name@), ()),
    {
        let token = name.to_string();
        let known = self.tokens.contains(&token);
        self.tokens.insert(token, Mark);
        !known
    }

    /// Whether the set has a capability.
    pub fn contains(&self, name: &str) -> (result: bool)
        requires
            self.wf(),
        ensures
            result == self.has_token(name@),
    {
        let token = name.to_string();
        self.tokens.contains(&token)
    }

    /// How many capabilities there are.
    pub fn len(&self) -> (result: usize)
        ensures
            result == self@.len(),
    {
        proof {
            self.tokens.entries_are_pairs();
        }
        self.tokens.len()
    }

    /// A copy.
    pub fn duplicate(&self) -> (result: Self)
        requires
            self.wf(),
        ensures
            result.wf(),
            result@ == self@,
    {
        let mut tokens: OrderedMap<String, Mark> = OrderedMap::new();
        let mut i: usize = 0;
        proof {
            self.tokens.entries_are_pairs();
            assert(tokens@ =~= self.tokens@.subrange(0, 0));
            assert(token_values(tokens.pairs()) =~= self@.subrange(0, 0));
        }
        while i < self.tokens.len()
            invariant
                i <= self.tokens@.len(),
                self.wf(),
                self.tokens@.len() == self.tokens.pairs().len(),
                tokens.wf(),
                tokens@ == self.tokens@.subrange(0, i as int),
                token_values(tokens.pairs()) == self@.subrange(0, i as int),
            decreases self.tokens@.len() - i,
        {
            let token = self.tokens.key(i).clone();
            let ghost before = tokens.pairs();
            proof {
                self.tokens.entries_are_pairs();
                let all = self.tokens@;
                assert(all[i as int].1 == self.tokens.pairs()[i as int].1@);
                let done = all.subrange(0, i as int);
                if i > 0 {
                    assert(done.last() == all[i - 1]);
                    assert(crate::ordered::lex_before(all[i - 1].0, all[i as int].0));
                }
                assert(sorted(done));
                crate::ordered::insert_at_end(done, token.id(), ());
                assert(done.push((token.id(), ())) =~= all.subrange(0, i + 1));
                crate::ordered::rank_is(done, token.id(), i as int);
                tokens.entries_are_pairs();
            }
            tokens.insert(token, Mark);
            proof {
                assert(tokens.pairs() == before.insert(i as int, (token, Mark)));
                assert(token_values(tokens.pairs()) =~= self@.subrange(0, i + 1));
            }
            i += 1;
        }
        assert(self@.subrange(0, self@.len() as int) =~= self@);
        CapabilitySet { tokens }
    }
}

/// A capability that was added is there, and no other one comes or goes.
pub proof fn token_after_insert(before: Entries<()>, name: Seq<char>, other: Seq<char>)
    requires
        sorted(before),
    ensures
        holds(inserted(before, text_id(name), ()), text_id(name)),
        text_id(other) != text_id(name) ==> holds(
            inserted(before, text_id(name), ()),
            text_id(other),
        ) == holds(before, text_id(other)),
{
    insert_laws(before, text_id(name), (), text_id(other));
    let after = inserted(before, text_id(name), ());
    assert(holds(after, text_id(other)) == (lookup(after, text_id(other)) is Some));
    assert(holds(before, text_id(other)) == (lookup(before, text_id(other)) is Some));
}

/// The names of all capabilities of a kind of plugin.
#[derive(Debug, PartialEq, Eq)]
pub struct CapabilityVocabulary {
    pub tokens: Vec<String>,
}

impl View for CapabilityVocabulary {
    type V = Seq<Seq<char>>;

    open spec fn view(&self) -> Seq<Seq<char>> {
        self.tokens@.map_values(|token: String| token@)
    }
}

impl CapabilityVocabulary {
    /// Whether a name is one of a capability.
    pub fn contains(&self, name: &String) -> (result: bool)
        ensures
            result == self@.contains(name@),
    {
        let mut i: usize = 0;
        while i < self.tokens.len()
            invariant
                i <= self.tokens@.len(),
                forall|j: int| 0 <= j < i ==> #[trigger] self@[j] != name@,
            decreases self.tokens@.len() - i,
        {
            assert(self@[i as int] == self.tokens@[i as int]@);
            if self.tokens[i] == *name {
                return true;
            }
            i += 1;
        }
        false
    }
}

/// What a plugin says it can do, and the build it comes from.
#[derive(Debug, PartialEq, Eq)]
pub struct CapabilityAnnouncement {
    pub capabilities: CapabilitySet,
    pub build_tag: Option<PluginBuildTag>,
}

impl CapabilityAnnouncement {
    /// What a plugin of no particular build can do.
    pub fn new(capabilities: CapabilitySet) -> (result: Self)
        ensures
            result.capabilities == capabilities,
            result.build_tag is None,
    {
        CapabilityAnnouncement { capabilities, build_tag: None }
    }
}

/// What a session may use: the capabilities of its plugins and their generations.
#[derive(Debug, PartialEq, Eq)]
pub struct SessionCapabilitySet {
    pub protocol: CapabilitySet,
    pub gameplay: CapabilitySet,
    pub gameplay_profile: crate::model::names::GameplayProfileId,
    pub entity_id: Option<crate::model::ids::EntityId>,
    pub protocol_generation: Option<crate::model::ids::PluginGenerationId>,
    pub gameplay_generation: Option<crate::model::ids::PluginGenerationId>,
}

} // verus!
