//! Maps and sets on the wire.

use crate::codec::binary::{Decoder, Encoder};
use crate::codec::grammar::{
    all_fit, both, fits, held, in_order, key_id, key_of, keyed, pair, parse, parse_list, text_id,
    under_keys, Format, ProtocolCodecError, Value,
};
use crate::codec::wire::{
    append_from, append_item, append_list, append_no_item, compound_rules, parse_item,
    parse_whole_list, read, written, Wire,
};
use crate::ordered::{
    gathered, holds, inserted, lex_before, rank_bounds, rank_by_keys, sorted, sorted_by_keys,
    Entries, Key, OrderedMap,
};
use vstd::prelude::*;
use vstd::string::*;
use vstd::utf8::encode_utf8;

verus! {

broadcast use compound_rules;

/// Bytes as numbers.
pub open spec fn byte_ids(bytes: Seq<u8>) -> Seq<int> {
    bytes.map_values(|byte: u8| byte as int)
}

proof fn common_start(a: Seq<u8>, b: Seq<u8>, i: int)
    requires
        0 <= i <= a.len(),
        i <= b.len(),
        forall|j: int| 0 <= j < i ==> a[j] == b[j],
    ensures
        lex_before(byte_ids(a), byte_ids(b)) == lex_before(
            byte_ids(a).subrange(i, a.len() as int),
            byte_ids(b).subrange(i, b.len() as int),
        ),
    decreases i,
{
    let x = byte_ids(a);
    let y = byte_ids(b);
    if i > 0 {
        common_start(a, b, i - 1);
        let s = x.subrange(i - 1, a.len() as int);
        let t = y.subrange(i - 1, b.len() as int);
        assert(s[0] == t[0]);
        assert(s.drop_first() =~= x.subrange(i, a.len() as int));
        assert(t.drop_first() =~= y.subrange(i, b.len() as int));
    } else {
        assert(x.subrange(0, a.len() as int) =~= x);
        assert(y.subrange(0, b.len() as int) =~= y);
    }
}

/// Whether bytes come before others: at the first place where they differ the smaller byte
/// decides, and where they do not differ the shorter comes first.
pub fn bytes_before(a: &[u8], b: &[u8]) -> (result: bool)
    ensures
        result == lex_before(byte_ids(a@), byte_ids(b@)),
{
    let mut i: usize = 0;
    while i < a.len() && i < b.len()
        invariant
            i <= a@.len(),
            i <= b@.len(),
            forall|j: int| 0 <= j < i ==> a@[j] == b@[j],
        decreases a@.len() - i,
    {
        if a[i] != b[i] {
            proof {
                common_start(a@, b@, i as int);
                let s = byte_ids(a@).subrange(i as int, a@.len() as int);
                let t = byte_ids(b@).subrange(i as int, b@.len() as int);
                assert(s[0] == a@[i as int] as int && t[0] == b@[i as int] as int);
            }
            return a[i] < b[i];
        }
        i += 1;
    }
    proof {
        common_start(a@, b@, i as int);
    }
    i < b.len()
}

impl Key for String {
    open spec fn id(&self) -> Seq<int> {
        text_id(self@)
    }

    fn precedes(&self, other: &Self) -> (result: bool) {
        let ours = self.as_str().as_bytes();
        let theirs = other.as_str().as_bytes();
        proof {
            assert(ours@ == encode_utf8(self@));
            assert(theirs@ == encode_utf8(other@));
            assert(text_id(self@) =~= byte_ids(ours@));
            assert(text_id(other@) =~= byte_ids(theirs@));
            assert(self.id() == byte_ids(ours@));
            assert(other.id() == byte_ids(theirs@));
        }
        bytes_before(ours, theirs)
    }
}

/// A key that can stand on the wire.
pub trait WireKey: Key + Wire {
    /// What identifies the key is what identifies its value.
    proof fn id_is_key_id(&self)
        ensures
            self.id() == key_id(self.value()),
    ;
}

impl WireKey for String {
    proof fn id_is_key_id(&self) {
    }
}

/// The value of a key with what it leads to.
pub open spec fn pair_value<K: Wire, V: Wire>(p: (K, V)) -> Value {
    both(p.0.value(), p.1.value())
}

/// The values of keys with what they lead to.
pub open spec fn pair_values<K: Wire, V: Wire>(pairs: Seq<(K, V)>) -> Seq<Value> {
    pairs.map_values(|p: (K, V)| pair_value(p))
}

/// Keys with what they lead to, as entries.
pub open spec fn pair_entries<K: Key + Wire, V: Wire>(pairs: Seq<(K, V)>) -> Entries<Value> {
    pairs.map_values(|p: (K, V)| (p.0.id(), pair_value(p)))
}

proof fn pair_entries_are_keyed<K: WireKey, V: Wire>(pairs: Seq<(K, V)>)
    ensures
        under_keys(pair_values(pairs)) == pair_entries(pairs),
{
    let a = under_keys(pair_values(pairs));
    let b = pair_entries(pairs);
    assert forall|i: int| 0 <= i < pairs.len() implies #[trigger] a[i] == b[i] by {
        pairs[i].0.id_is_key_id();
    }
    assert(a =~= b);
}

/// Whether every key and value of a map can stand on the wire.
pub open spec fn pairs_encodable<K: Wire, V: Wire>(pairs: Seq<(K, V)>) -> bool {
    forall|i: int|
        0 <= i < pairs.len() ==> (#[trigger] pairs[i]).0.encodable() && pairs[i].1.encodable()
}

impl<K: WireKey, V: View + Wire> Wire for OrderedMap<K, V> {
    open spec fn format() -> Format {
        keyed(pair(K::format(), V::format()))
    }

    open spec fn value(&self) -> Value {
        Value::List(pair_values(self.pairs()))
    }

    open spec fn encodable(&self) -> bool {
        self.wf() && pairs_encodable(self.pairs())
    }

    fn encode(&self, encoder: &mut Encoder) -> (result: Result<(), ProtocolCodecError>) {
        let ghost f = pair(K::format(), V::format());
        let ghost values = pair_values(self.pairs());
        proof {
            self.entries_are_pairs();
            append_list(encoder@, Box::new(f), values);
            pair_entries_are_keyed(self.pairs());
            sorted_by_keys(self@, pair_entries(self.pairs()));
        }
        let count: usize = self.len();
        encoder.write_len(count)?;
        let ghost start = encoder@;
        let mut i: usize = 0;
        while i < count
            invariant
                i <= count,
                count == self@.len(),
                self@.len() == self.pairs().len(),
                pairs_encodable(self.pairs()),
                f == pair(K::format(), V::format()),
                values == pair_values(self.pairs()),
                append_from(start, f, values, 0) == append_from(encoder@, f, values, i as nat),
                all_fit(f, values, 0) == all_fit(f, values, i as nat),
                fits(Self::format(), self.value()) == all_fit(f, values, 0),
            decreases count - i,
        {
            proof {
                append_item(encoder@, f, values, i as nat);
                assert(values[i as int] == pair_value(self.pairs()[i as int]));
            }
            let key = self.key(i);
            let value = self.at(i);
            key.encode(encoder)?;
            value.encode(encoder)?;
            i += 1;
        }
        proof {
            append_no_item(encoder@, f, values);
        }
        Ok(())
    }

    fn decode(decoder: &mut Decoder<'_>) -> (result: Result<Self, ProtocolCodecError>) {
        let ghost f = pair(K::format(), V::format());
        proof {
            parse_whole_list(Box::new(f), decoder@);
        }
        let count: usize = decoder.read_len()?;
        let ghost whole = parse_list(f, count as nat, decoder@);
        let mut result: OrderedMap<K, V> = OrderedMap::new();
        let ghost mut items: Seq<Value> = Seq::empty();
        let mut left: usize = count;
        proof {
            assert(whole is Ok ==> Seq::empty() + whole->Ok_0.0 =~= whole->Ok_0.0);
            assert(pair_entries(result.pairs()) =~= gathered(under_keys(items)));
        }
        while left > 0
            invariant
                decoder.wf(),
                f == pair(K::format(), V::format()),
                result.wf(),
                pairs_encodable(result.pairs()),
                pair_entries(result.pairs()) == gathered(under_keys(items)),
                match parse_list(f, left as nat, decoder@) {
                    Ok((rest, t)) => whole == Ok::<(Seq<Value>, Seq<u8>), ProtocolCodecError>(
                        (items + rest, t),
                    ),
                    Err(e) => whole == Err::<(Seq<Value>, Seq<u8>), ProtocolCodecError>(e),
                },
                parse(Self::format(), old(decoder)@) == (match whole {
                    Ok((all, t)) => Ok::<(Value, Seq<u8>), ProtocolCodecError>(
                        (Value::List(in_order(all)), t),
                    ),
                    Err(e) => Err(e),
                }),
            decreases left,
        {
            proof {
                parse_item(f, left as nat, decoder@);
            }
            let key = K::decode(decoder)?;
            let value = V::decode(decoder)?;
            let ghost item = pair_value((key, value));
            let ghost later = parse_list(f, (left - 1) as nat, decoder@);
            let ghost before = result.pairs();
            proof {
                key.id_is_key_id();
                result.entries_are_pairs();
                rank_by_keys(result@, pair_entries(before), key.id());
                rank_bounds(result@, key.id());
                let next = items.push(item);
                assert(under_keys(next).drop_last() =~= under_keys(items));
                assert(under_keys(next).last() == (key.id(), item));
                if later is Ok {
                    assert(items + (seq![item] + later->Ok_0.0) =~= next + later->Ok_0.0);
                }
                items = next;
            }
            result.insert(key, value);
            proof {
                assert(pair_entries(result.pairs()) =~= inserted(
                    pair_entries(before),
                    key.id(),
                    item,
                ));
            }
            left -= 1;
        }
        proof {
            parse_item(f, 0, decoder@);
            assert(items + Seq::<Value>::empty() =~= items);
            pair_entries_are_keyed(result.pairs());
            assert(in_order(items) =~= pair_values(result.pairs()));
        }
        Ok(result)
    }
}

/// A value that holds the key it is found by, at its front.
pub trait SelfKeyed: Wire + View {
    /// The key.
    type K: Key;

    /// The key of the value.
    spec fn spec_key(&self) -> Self::K;

    /// The key of the value.
    fn own_key(&self) -> (result: Self::K)
        ensures
            result == self.spec_key(),
    ;

    /// What identifies the key is what stands at the front of the value.
    proof fn key_is_at_front(&self)
        ensures
            self.spec_key().id() == key_of(self.value()),
    ;
}

/// The values of a map whose values hold their keys.
pub open spec fn held_values<K, V: Wire>(pairs: Seq<(K, V)>) -> Seq<Value> {
    pairs.map_values(|p: (K, V)| p.1.value())
}

/// The values of a map whose values hold their keys, as entries.
pub open spec fn held_entries<K: Key, V: Wire>(pairs: Seq<(K, V)>) -> Entries<Value> {
    pairs.map_values(|p: (K, V)| (p.0.id(), p.1.value()))
}

/// Whether every value of a map is under the key that it holds.
pub open spec fn under_own_keys<V: SelfKeyed>(pairs: Seq<(V::K, V)>) -> bool {
    forall|i: int|
        0 <= i < pairs.len() ==> (#[trigger] pairs[i]).0.id() == pairs[i].1.spec_key().id()
}

/// Whether every value of a map can stand on the wire.
pub open spec fn held_encodable<K, V: Wire>(pairs: Seq<(K, V)>) -> bool {
    forall|i: int| 0 <= i < pairs.len() ==> (#[trigger] pairs[i]).1.encodable()
}

proof fn held_entries_are_keyed<V: SelfKeyed>(pairs: Seq<(V::K, V)>)
    requires
        under_own_keys(pairs),
    ensures
        under_keys(held_values(pairs)) == held_entries(pairs),
{
    let a = under_keys(held_values(pairs));
    let b = held_entries(pairs);
    assert forall|i: int| 0 <= i < pairs.len() implies #[trigger] a[i] == b[i] by {
        assert(pairs[i].0.id() == pairs[i].1.spec_key().id());
        pairs[i].1.key_is_at_front();
    }
    assert(a =~= b);
}

/// The values of a map stand in the order of the keys that they hold, where each is under its own.
pub proof fn held_values_are_sorted<V: SelfKeyed>(map: OrderedMap<V::K, V>)
    requires
        map.wf(),
        under_own_keys(map.pairs()),
    ensures
        sorted(under_keys(held_values(map.pairs()))),
{
    map.entries_are_pairs();
    held_entries_are_keyed(map.pairs());
    sorted_by_keys(map@, held_entries(map.pairs()));
}

/// Writes the values of a map whose values hold their keys.
pub fn encode_held<V: SelfKeyed>(map: &OrderedMap<V::K, V>, encoder: &mut Encoder) -> (result:
    Result<(), ProtocolCodecError>)
    requires
        map.wf(),
        held_encodable(map.pairs()),
    ensures
        written(
            held(V::format()),
            Value::List(held_values(map.pairs())),
            old(encoder)@,
            final(encoder)@,
            result,
        ),
{
    let ghost f = V::format();
    let ghost values = held_values(map.pairs());
    proof {
        map.entries_are_pairs();
        append_list(encoder@, Box::new(f), values);
    }
    let count: usize = map.len();
    encoder.write_len(count)?;
    let ghost start = encoder@;
    let mut i: usize = 0;
    while i < count
        invariant
            i <= count,
            count == map@.len(),
            map@.len() == map.pairs().len(),
            held_encodable(map.pairs()),
            f == V::format(),
            values == held_values(map.pairs()),
            append_from(start, f, values, 0) == append_from(encoder@, f, values, i as nat),
            all_fit(f, values, 0) == all_fit(f, values, i as nat),
            fits(held(f), Value::List(values)) == all_fit(f, values, 0),
        decreases count - i,
    {
        proof {
            append_item(encoder@, f, values, i as nat);
            assert(map.pairs()[i as int].1.encodable());
        }
        map.at(i).encode(encoder)?;
        i += 1;
    }
    proof {
        append_no_item(encoder@, f, values);
    }
    Ok(())
}

/// Reads the values of a map whose values hold their keys.
pub fn decode_held<V: SelfKeyed>(decoder: &mut Decoder<'_>) -> (result: Result<
    OrderedMap<V::K, V>,
    ProtocolCodecError,
>)
    requires
        old(decoder).wf(),
    ensures
        final(decoder).wf(),
        read(
            held(V::format()),
            old(decoder)@,
            final(decoder)@,
            match result {
                Ok(map) => Ok(Value::List(held_values(map.pairs()))),
                Err(e) => Err(e),
            },
        ),
        result matches Ok(map) ==> map.wf() && under_own_keys(map.pairs()) && held_encodable(
            map.pairs(),
        ),
{
    let ghost f = V::format();
    proof {
        parse_whole_list(Box::new(f), decoder@);
    }
    let count: usize = decoder.read_len()?;
    let ghost whole = parse_list(f, count as nat, decoder@);
    let mut result: OrderedMap<V::K, V> = OrderedMap::new();
    let ghost mut items: Seq<Value> = Seq::empty();
    let mut left: usize = count;
    proof {
        assert(whole is Ok ==> Seq::empty() + whole->Ok_0.0 =~= whole->Ok_0.0);
        assert(held_entries(result.pairs()) =~= gathered(under_keys(items)));
    }
    while left > 0
        invariant
            decoder.wf(),
            f == V::format(),
            result.wf(),
            under_own_keys(result.pairs()),
            held_encodable(result.pairs()),
            held_entries(result.pairs()) == gathered(under_keys(items)),
            match parse_list(f, left as nat, decoder@) {
                Ok((rest, t)) => whole == Ok::<(Seq<Value>, Seq<u8>), ProtocolCodecError>(
                    (items + rest, t),
                ),
                Err(e) => whole == Err::<(Seq<Value>, Seq<u8>), ProtocolCodecError>(e),
            },
            parse(held(f), old(decoder)@) == (match whole {
                Ok((all, t)) => Ok::<(Value, Seq<u8>), ProtocolCodecError>(
                    (Value::List(in_order(all)), t),
                ),
                Err(e) => Err(e),
            }),
        decreases left,
    {
        proof {
            parse_item(f, left as nat, decoder@);
        }
        let value = V::decode(decoder)?;
        let key = value.own_key();
        let ghost item = value.value();
        let ghost later = parse_list(f, (left - 1) as nat, decoder@);
        let ghost before = result.pairs();
        proof {
            value.key_is_at_front();
            result.entries_are_pairs();
            rank_by_keys(result@, held_entries(before), key.id());
            rank_bounds(result@, key.id());
            let next = items.push(item);
            assert(under_keys(next).drop_last() =~= under_keys(items));
            assert(under_keys(next).last() == (key.id(), item));
            if later is Ok {
                assert(items + (seq![item] + later->Ok_0.0) =~= next + later->Ok_0.0);
            }
            items = next;
        }
        result.insert(key, value);
        proof {
            assert(held_entries(result.pairs()) =~= inserted(
                held_entries(before),
                key.id(),
                item,
            ));
        }
        left -= 1;
    }
    proof {
        parse_item(f, 0, decoder@);
        assert(items + Seq::<Value>::empty() =~= items);
        held_entries_are_keyed(result.pairs());
        assert(in_order(items) =~= held_values(result.pairs()));
    }
    Ok(result)
}

} // verus!
