//! Capabilities on the wire.

use crate::codec::basic::encode_text;
use crate::codec::binary::{Decoder, Encoder};
use crate::codec::grammar::{
    all_fit, all_orderly, both, build_bytes, build_count, build_fits, build_value, capability_fits,
    fits, in_order, keyed, names_build, orderly, parse, parse_list, parse_tokens, serialize,
    serialize_from, text_id, tokens_value, under_keys, Format, ProtocolCodecError, Value,
};
use crate::codec::wire::{
    append, append_from, append_item, append_list, append_no_item, compound_rules, parse_item,
    parse_whole_list, read, written, Wire,
};
use crate::model::capability::{
    token_values, CapabilityAnnouncement, CapabilitySet, CapabilityVocabulary,
};
use crate::model::names::PluginBuildTag;
use crate::model::view::Mark;
use crate::ordered::{
    gathered, holds, inserted, rank, rank_bounds, rank_by_keys, sorted_by_keys, Entries, Key,
    OrderedMap,
};
use vstd::prelude::*;
use vstd::string::*;
use vstd::utf8::encode_utf8;

verus! {

broadcast use compound_rules;

/// Names of capabilities under themselves.
pub open spec fn token_entries(pairs: Seq<(String, Mark)>) -> Entries<Value> {
    pairs.map_values(|pair: (String, Mark)| (text_id(pair.0@), Value::Text(pair.0@)))
}

proof fn token_entries_are_keyed(pairs: Seq<(String, Mark)>)
    ensures
        under_keys(token_values(pairs)) == token_entries(pairs),
{
    assert(under_keys(token_values(pairs)) =~= token_entries(pairs));
}

/// What inserting a name does to the names.
proof fn token_inserted(
    before: OrderedMap<String, Mark>,
    after: OrderedMap<String, Mark>,
    token: String,
)
    requires
        before.wf(),
        after.pairs() == (if holds(before@, token.id()) {
            before.pairs().update(rank(before@, token.id()), (token, Mark))
        } else {
            before.pairs().insert(rank(before@, token.id()), (token, Mark))
        }),
    ensures
        token_entries(after.pairs()) == inserted(
            token_entries(before.pairs()),
            text_id(token@),
            Value::Text(token@),
        ),
        holds(before@, token.id()) == holds(token_entries(before.pairs()), text_id(token@)),
{
    before.entries_are_pairs();
    rank_bounds(before@, token.id());
    rank_by_keys(before@, token_entries(before.pairs()), token.id());
    assert(token_entries(after.pairs()) =~= inserted(
        token_entries(before.pairs()),
        text_id(token@),
        Value::Text(token@),
    ));
}

impl Wire for CapabilitySet {
    open spec fn format() -> Format {
        keyed(Format::Text)
    }

    open spec fn value(&self) -> Value {
        Value::List(self@)
    }

    open spec fn encodable(&self) -> bool {
        self.wf()
    }

    fn encode(&self, encoder: &mut Encoder) -> (result: Result<(), ProtocolCodecError>) {
        let ghost f = Format::Text;
        let ghost values = self@;
        proof {
            self.tokens.entries_are_pairs();
            append_list(encoder@, Box::new(f), values);
            token_entries_are_keyed(self.tokens.pairs());
            sorted_by_keys(self.tokens@, token_entries(self.tokens.pairs()));
        }
        let count: usize = self.tokens.len();
        encoder.write_len(count)?;
        let ghost start = encoder@;
        let mut i: usize = 0;
        while i < count
            invariant
                i <= count,
                count == self.tokens@.len(),
                self.tokens@.len() == self.tokens.pairs().len(),
                f == Format::Text,
                values == self@,
                append_from(start, f, values, 0) == append_from(encoder@, f, values, i as nat),
                all_fit(f, values, 0) == all_fit(f, values, i as nat),
                fits(keyed(f), Value::List(values)) == all_fit(f, values, 0),
            decreases count - i,
        {
            proof {
                append_item(encoder@, f, values, i as nat);
            }
            self.tokens.key(i).encode(encoder)?;
            i += 1;
        }
        proof {
            append_no_item(encoder@, f, values);
        }
        Ok(())
    }

    fn decode(decoder: &mut Decoder<'_>) -> (result: Result<Self, ProtocolCodecError>) {
        let ghost f = Format::Text;
        proof {
            parse_whole_list(Box::new(f), decoder@);
        }
        let count: usize = decoder.read_len()?;
        let ghost whole = parse_list(f, count as nat, decoder@);
        let mut tokens: OrderedMap<String, Mark> = OrderedMap::new();
        let ghost mut items: Seq<Value> = Seq::empty();
        let mut left: usize = count;
        proof {
            assert(whole is Ok ==> Seq::empty() + whole->Ok_0.0 =~= whole->Ok_0.0);
            assert(token_entries(tokens.pairs()) =~= gathered(under_keys(items)));
        }
        while left > 0
            invariant
                decoder.wf(),
                f == Format::Text,
                tokens.wf(),
                token_entries(tokens.pairs()) == gathered(under_keys(items)),
                match parse_list(f, left as nat, decoder@) {
                    Ok((rest, t)) => whole == Ok::<(Seq<Value>, Seq<u8>), ProtocolCodecError>(
                        (items + rest, t),
                    ),
                    Err(e) => whole == Err::<(Seq<Value>, Seq<u8>), ProtocolCodecError>(e),
                },
                parse(keyed(f), old(decoder)@) == (match whole {
                    Ok((all, t)) => Ok::<(Value, Seq<u8>), ProtocolCodecError>(
                        (Value::List(in_order(all)), t),
                    ),
                    Err(e) => Err(e),
                }),
            decreases left,
        {
            proof {
                parse_item(f, left as nat, decoder@);
            }
            let token = String::decode(decoder)?;
            let ghost item = Value::Text(token@);
            let ghost later = parse_list(f, (left - 1) as nat, decoder@);
            let ghost before = tokens;
            proof {
                let next = items.push(item);
                assert(under_keys(next).drop_last() =~= under_keys(items));
                assert(under_keys(next).last() == (text_id(token@), item));
                if later is Ok {
                    assert(items + (seq![item] + later->Ok_0.0) =~= next + later->Ok_0.0);
                }
                items = next;
            }
            tokens.insert(token, Mark);
            proof {
                token_inserted(before, tokens, token);
            }
            left -= 1;
        }
        proof {
            parse_item(f, 0, decoder@);
            assert(items + Seq::<Value>::empty() =~= items);
            token_entries_are_keyed(tokens.pairs());
            assert(in_order(items) =~= token_values(tokens.pairs()));
        }
        Ok(CapabilitySet { tokens })
    }
}

/// The name of a build that may be absent.
pub open spec fn build_name(build: Option<PluginBuildTag>) -> Option<Seq<char>> {
    match build {
        Some(name) => Some(name@),
        None => None,
    }
}

impl CapabilityAnnouncement {
    /// What the plugin says, without its type.
    pub open spec fn spec_value(&self) -> Value {
        both(Value::List(self.capabilities@), build_value(build_name(self.build_tag)))
    }

    /// Whether a build that is named has a name.
    pub open spec fn named(&self) -> bool {
        self.build_tag matches Some(name) ==> name@.len() > 0
    }

    /// Whether every capability is one of a vocabulary and none reads like a build.
    pub open spec fn within(&self, vocabulary: Seq<Seq<char>>) -> bool {
        &&& self.capabilities.wf()
        &&& forall|i: int|
            0 <= i < self.capabilities.tokens.pairs().len() ==> vocabulary.contains(
                (#[trigger] self.capabilities.tokens.pairs()[i]).0@,
            ) && !names_build(self.capabilities.tokens.pairs()[i].0@)
    }
}

/// What a plugin says is orderly where a build that is named has a name.
pub proof fn announcement_is_orderly(
    announcement: CapabilityAnnouncement,
    vocabulary: Seq<Seq<char>>,
)
    requires
        announcement.named(),
    ensures
        orderly(Format::Announcement(vocabulary), announcement.spec_value()),
{
    reveal(orderly);
    reveal(all_orderly);
}

/// Whether texts can be written.
proof fn texts_fit(items: Seq<Value>, i: nat)
    requires
        forall|j: int| 0 <= j < items.len() ==> #[trigger] items[j] is Text,
    ensures
        all_fit(Format::Text, items, i) == forall|j: int|
            i <= j < items.len() ==> encode_utf8((#[trigger] items[j])->Text_0).len() <= u32::MAX,
    decreases items.len() - i,
{
    reveal(all_fit);
    reveal(fits);
    if i < items.len() {
        texts_fit(items, i + 1);
        assert(fits(Format::Text, items[i as int]) == (encode_utf8(
            items[i as int]->Text_0,
        ).len() <= u32::MAX));
        assert forall|j: int| i <= j < items.len() && all_fit(Format::Text, items, i) implies
            encode_utf8((#[trigger] items[j])->Text_0).len() <= u32::MAX by {
            if j > i {
                assert(i + 1 <= j);
            }
        }
    }
}

/// Writes what a plugin says it can do.
pub fn encode_capability_announcement(
    announcement: &CapabilityAnnouncement,
    vocabulary: &CapabilityVocabulary,
    encoder: &mut Encoder,
) -> (result: Result<(), ProtocolCodecError>)
    requires
        announcement.within(vocabulary@),
    ensures
        written(
            Format::Announcement(vocabulary@),
            announcement.spec_value(),
            old(encoder)@,
            final(encoder)@,
            result,
        ),
{
    let tokens = &announcement.capabilities.tokens;
    let ghost values = announcement.capabilities@;
    let ghost build = build_value(build_name(announcement.build_tag));
    let ghost f = Format::Announcement(vocabulary@);
    proof {
        tokens.entries_are_pairs();
        token_entries_are_keyed(tokens.pairs());
        sorted_by_keys(tokens@, token_entries(tokens.pairs()));
        texts_fit(values, 0);
        reveal(fits);
        reveal(all_fit);
        assert forall|i: int| 0 <= i < values.len() implies capability_fits(
            vocabulary@,
            #[trigger] values[i],
        ) == (encode_utf8(values[i]->Text_0).len() <= u32::MAX) by {
            let token = tokens.pairs()[i].0@;
            assert(vocabulary@.contains(token) && !names_build(token));
        }
        assert(fits(f, announcement.spec_value()) == (values.len() + build_count(build) <= u32::MAX
            && all_fit(Format::Text, values, 0) && build_fits(build)));
    }
    let count: usize = tokens.len();
    let named = announcement.build_tag.is_some();
    if count > u32::MAX as usize || (named && count >= u32::MAX as usize) {
        return Err(ProtocolCodecError::LengthOverflow);
    }
    let total: usize = if named {
        count + 1
    } else {
        count
    };
    encoder.write_len(total)?;
    let ghost start = encoder@;
    let mut i: usize = 0;
    while i < count
        invariant
            i <= count,
            count == tokens@.len(),
            tokens@.len() == tokens.pairs().len(),
            *tokens == announcement.capabilities.tokens,
            values == announcement.capabilities@,
            append_from(start, Format::Text, values, 0) == append_from(
                encoder@,
                Format::Text,
                values,
                i as nat,
            ),
            all_fit(Format::Text, values, 0) == all_fit(Format::Text, values, i as nat),
            !all_fit(Format::Text, values, 0) ==> !fits(f, announcement.spec_value()),
            f == Format::Announcement(vocabulary@),
        decreases count - i,
    {
        proof {
            append_item(encoder@, Format::Text, values, i as nat);
        }
        tokens.key(i).encode(encoder)?;
        i += 1;
    }
    proof {
        append_no_item(encoder@, Format::Text, values);
    }
    let ghost middle = encoder@;
    if let Some(name) = &announcement.build_tag {
        let mut token = "build-tag:".to_string();
        token.append(name.as_str());
        proof {
            reveal(serialize);
            reveal(serialize_from);
            reveal(append);
        }
        encode_text(token.as_str(), encoder)?;
        assert(encoder@ =~= middle + build_bytes(build));
    } else {
        assert(encoder@ =~= middle + build_bytes(build));
    }
    proof {
        reveal(append);
        reveal(append_from);
        reveal(serialize);
        reveal(serialize_from);
        let head = crate::bytes::le(values.len() + build_count(build), 4);
        let body = serialize_from(Format::Text, values, 0);
        assert(encoder@ =~= old(encoder)@ + (head + body + build_bytes(build)));
    }
    Ok(())
}

/// Reads what a plugin says it can do.
pub fn decode_capability_announcement(
    decoder: &mut Decoder<'_>,
    vocabulary: &CapabilityVocabulary,
) -> (result: Result<CapabilityAnnouncement, ProtocolCodecError>)
    requires
        old(decoder).wf(),
    ensures
        final(decoder).wf(),
        read(
            Format::Announcement(vocabulary@),
            old(decoder)@,
            final(decoder)@,
            match result {
                Ok(announcement) => Ok(announcement.spec_value()),
                Err(e) => Err(e),
            },
        ),
        result matches Ok(announcement) ==> announcement.within(vocabulary@)
            && announcement.named(),
{
    proof {
        reveal(parse);
        reveal(parse_list);
    }
    let count: usize = decoder.read_len()?;
    let ghost whole = parse_tokens(vocabulary@, count as nat, decoder@, Seq::empty(), None);
    let mut capabilities = CapabilitySet::new();
    let mut build_tag: Option<PluginBuildTag> = None;
    let mut left: usize = count;
    proof {
        assert(capabilities.tokens.pairs().len() == capabilities@.len());
        assert(token_entries(capabilities.tokens.pairs()) =~= Seq::empty());
        reveal_strlit("build-tag:");
    }
    while left > 0
        invariant
            decoder.wf(),
            old(decoder)@.len() >= 4,
            capabilities.wf(),
            parse(Format::Announcement(vocabulary@), old(decoder)@) == (match whole {
                Ok((c, b, r)) => Ok::<(Value, Seq<u8>), ProtocolCodecError>(
                    (tokens_value(c, b), r),
                ),
                Err(e) => Err(e),
            }),
            whole == parse_tokens(
                vocabulary@,
                left as nat,
                decoder@,
                token_entries(capabilities.tokens.pairs()),
                build_name(build_tag),
            ),
            forall|i: int|
                0 <= i < capabilities.tokens.pairs().len() ==> vocabulary@.contains(
                    (#[trigger] capabilities.tokens.pairs()[i]).0@,
                ) && !names_build(capabilities.tokens.pairs()[i].0@),
            build_tag matches Some(name) ==> name@.len() > 0,
            "build-tag:"@.len() == 10,
        decreases left,
    {
        let token = decoder.read_string()?;
        let size: usize = token.as_str().unicode_len();
        if size >= 10 {
            let start = token.as_str().substring_char(0, 10).to_string();
            if start == "build-tag:".to_string() {
                assert(names_build(token@));
                let raw = token.as_str().substring_char(10, size);
                if size == 10 {
                    return Err(
                        ProtocolCodecError::InvalidValue("build tag capability must not be empty"),
                    );
                }
                if build_tag.is_some() {
                    return Err(ProtocolCodecError::InvalidValue("duplicate build tag capability"));
                }
                build_tag = Some(PluginBuildTag::new(raw));
                left -= 1;
                continue;
            }
        }
        assert(!names_build(token@));
        if !vocabulary.contains(&token) {
            return Err(ProtocolCodecError::InvalidValue("invalid plugin capability"));
        }
        let ghost before = capabilities.tokens;
        let known = capabilities.tokens.contains(&token);
        proof {
            before.entries_are_pairs();
            rank_by_keys(before@, token_entries(before.pairs()), token.id());
            rank_bounds(before@, token.id());
        }
        if known {
            return Err(ProtocolCodecError::InvalidValue("duplicate plugin capability"));
        }
        capabilities.tokens.insert(token, Mark);
        proof {
            token_inserted(before, capabilities.tokens, token);
            let place = rank(before@, token.id());
            let pairs = capabilities.tokens.pairs();
            assert forall|i: int| 0 <= i < pairs.len() implies vocabulary@.contains(
                (#[trigger] pairs[i]).0@,
            ) && !names_build(pairs[i].0@) by {
                if i < place {
                    assert(pairs[i] == before.pairs()[i]);
                } else if i > place {
                    assert(pairs[i] == before.pairs()[i - 1]);
                }
            }
        }
        left -= 1;
    }
    assert(token_entries(capabilities.tokens.pairs()).map_values(
        |entry: (Seq<int>, Value)| entry.1,
    ) =~= capabilities@);
    Ok(CapabilityAnnouncement { capabilities, build_tag })
}

/// Writes a set of capabilities as what a plugin of no particular build can do.
pub fn encode_capabilities(
    capabilities: &CapabilitySet,
    vocabulary: &CapabilityVocabulary,
    encoder: &mut Encoder,
) -> (result: Result<(), ProtocolCodecError>)
    requires
        set_within(capabilities, vocabulary@),
    ensures
        written(
            Format::Capabilities(vocabulary@),
            Value::List(capabilities@),
            old(encoder)@,
            final(encoder)@,
            result,
        ),
{
    let announcement = CapabilityAnnouncement::new(capabilities.duplicate());
    proof {
        same_tokens_within(capabilities, &announcement.capabilities, vocabulary@);
        reveal(fits);
        reveal(all_fit);
        reveal(append);
        reveal(serialize);
        reveal(serialize_from);
        let body = serialize_from(Format::Text, capabilities@, 0);
        let head = crate::bytes::le(capabilities@.len(), 4);
        assert(head + body + Seq::<u8>::empty() =~= head + body);
    }
    encode_capability_announcement(&announcement, vocabulary, encoder)
}

/// Whether every capability is one of a vocabulary and none reads like a build.
pub open spec fn set_within(capabilities: &CapabilitySet, vocabulary: Seq<Seq<char>>) -> bool {
    &&& capabilities.wf()
    &&& forall|i: int|
        0 <= i < capabilities.tokens.pairs().len() ==> vocabulary.contains(
            (#[trigger] capabilities.tokens.pairs()[i]).0@,
        ) && !names_build(capabilities.tokens.pairs()[i].0@)
}

proof fn same_tokens_within(a: &CapabilitySet, b: &CapabilitySet, vocabulary: Seq<Seq<char>>)
    requires
        set_within(a, vocabulary),
        b.wf(),
        a@ == b@,
    ensures
        set_within(b, vocabulary),
{
    assert(a.tokens.pairs().len() == a@.len());
    assert(b.tokens.pairs().len() == b@.len());
    assert forall|i: int| 0 <= i < b.tokens.pairs().len() implies vocabulary.contains(
        (#[trigger] b.tokens.pairs()[i]).0@,
    ) && !names_build(b.tokens.pairs()[i].0@) by {
        assert(a@[i] == b@[i]);
        assert(a@[i] == Value::Text(a.tokens.pairs()[i].0@));
        assert(b@[i] == Value::Text(b.tokens.pairs()[i].0@));
    }
}

/// Reads what a plugin says it can do, of which only the capabilities count.
pub fn decode_capabilities(decoder: &mut Decoder<'_>, vocabulary: &CapabilityVocabulary) -> (result:
    Result<CapabilitySet, ProtocolCodecError>)
    requires
        old(decoder).wf(),
    ensures
        final(decoder).wf(),
        read(
            Format::Capabilities(vocabulary@),
            old(decoder)@,
            final(decoder)@,
            match result {
                Ok(capabilities) => Ok(Value::List(capabilities@)),
                Err(e) => Err(e),
            },
        ),
        result matches Ok(capabilities) ==> set_within(&capabilities, vocabulary@),
{
    proof {
        reveal(parse);
        reveal(parse_list);
    }
    let announcement = decode_capability_announcement(decoder, vocabulary)?;
    Ok(announcement.capabilities)
}

} // verus!
