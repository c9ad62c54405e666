//! Items on the wire.

use crate::codec::binary::{Decoder, Encoder};
use crate::codec::grammar::{
    all_fit, both, fits, in_order, keyed, list, pair, parse, parse_list, parse_shrinks, text_id,
    under_keys, unsigned, Format, ProtocolCodecError, Value,
};
use crate::codec::wire::{
    append_from, append_item, append_list, append_no_item, compound_rules, decode_bytes,
    encode_bytes, parse_item, parse_whole_list, read, values_of, written, Wire,
};
use crate::model::item::{
    data_values, named_entries, named_entries_are_keyed, named_value, named_values, ItemDataMap,
    ItemDataValue, ItemKey, ItemStack, OpaqueF32, OpaqueF64, StackView,
};
use crate::ordered::gathered;
use vstd::prelude::*;
use vstd::string::*;

verus! {

broadcast use compound_rules;

/// The format of named pieces of data.
pub open spec fn data_map_format() -> Format {
    keyed(pair(Format::Text, Format::ItemData))
}

fn encode_data_list(items: &Vec<ItemDataValue>, encoder: &mut Encoder) -> (result: Result<
    (),
    ProtocolCodecError,
>)
    requires
        forall|i: int| #![trigger items@[i]] 0 <= i < items@.len() ==> items@[i].ok(),
    ensures
        written(
            list(Format::ItemData),
            Value::List(data_values(items@)),
            old(encoder)@,
            final(encoder)@,
            result,
        ),
    decreases items,
{
    let ghost f = Format::ItemData;
    let ghost values = data_values(items@);
    proof {
        append_list(encoder@, Box::new(f), values);
    }
    encoder.write_len(items.len())?;
    let ghost start = encoder@;
    let mut i: usize = 0;
    while i < items.len()
        invariant
            i <= items@.len(),
            f == Format::ItemData,
            values == data_values(items@),
            forall|j: int| #![trigger items@[j]] 0 <= j < items@.len() ==> items@[j].ok(),
            append_from(start, f, values, 0) == append_from(encoder@, f, values, i as nat),
            all_fit(f, values, 0) == all_fit(f, values, i as nat),
            fits(list(f), Value::List(values)) == all_fit(f, values, 0),
        decreases items@.len() - i,
    {
        proof {
            append_item(encoder@, f, values, i as nat);
            let all = *items;
            assert(decreases_to!(all => all[i as int]));
        }
        encode_data(&items[i], encoder)?;
        i += 1;
    }
    proof {
        append_no_item(encoder@, f, values);
    }
    Ok(())
}

fn encode_data_map(map: &ItemDataMap, encoder: &mut Encoder) -> (result: Result<
    (),
    ProtocolCodecError,
>)
    requires
        map.wf(),
    ensures
        written(
            data_map_format(),
            Value::List(map@),
            old(encoder)@,
            final(encoder)@,
            result,
        ),
    decreases map,
{
    let ghost f = pair(Format::Text, Format::ItemData);
    let ghost values = named_values(map.entries@);
    proof {
        append_list(encoder@, Box::new(f), values);
        named_entries_are_keyed(map.entries@);
    }
    encoder.write_len(map.entries.len())?;
    let ghost start = encoder@;
    let mut i: usize = 0;
    while i < map.entries.len()
        invariant
            i <= map.entries@.len(),
            f == pair(Format::Text, Format::ItemData),
            values == named_values(map.entries@),
            map.wf(),
            append_from(start, f, values, 0) == append_from(encoder@, f, values, i as nat),
            all_fit(f, values, 0) == all_fit(f, values, i as nat),
            fits(keyed(f), Value::List(values)) == all_fit(f, values, 0),
        decreases map.entries@.len() - i,
    {
        proof {
            append_item(encoder@, f, values, i as nat);
            let whole = *map;
            let all = map.entries;
            assert(whole.entries == all);
            assert(decreases_to!(whole => whole.entries));
            assert(decreases_to!(all => all[i as int]));
            assert(decreases_to!(all[i as int] => all[i as int].1));
            assert(decreases_to!(whole => all[i as int].1));
            assert(values[i as int] == named_value(map.entries@[i as int]));
            assert(map.entries@[i as int].1.ok());
        }
        map.entries[i].0.encode(encoder)?;
        encode_data(&map.entries[i].1, encoder)?;
        i += 1;
    }
    proof {
        append_no_item(encoder@, f, values);
    }
    Ok(())
}

fn encode_data(value: &ItemDataValue, encoder: &mut Encoder) -> (result: Result<
    (),
    ProtocolCodecError,
>)
    requires
        value.ok(),
    ensures
        written(
            Format::ItemData,
            value.spec_value(),
            old(encoder)@,
            final(encoder)@,
            result,
        ),
    decreases value,
{
    match value {
        ItemDataValue::Byte(n) => {
            encoder.write_u8(1);
            n.encode(encoder)
        },
        ItemDataValue::Short(n) => {
            encoder.write_u8(2);
            n.encode(encoder)
        },
        ItemDataValue::Int(n) => {
            encoder.write_u8(3);
            n.encode(encoder)
        },
        ItemDataValue::Long(n) => {
            encoder.write_u8(4);
            n.encode(encoder)
        },
        ItemDataValue::Float(n) => {
            encoder.write_u8(5);
            n.0.encode(encoder)
        },
        ItemDataValue::Double(n) => {
            encoder.write_u8(6);
            n.0.encode(encoder)
        },
        ItemDataValue::ByteArray(bytes) => {
            encoder.write_u8(7);
            encode_bytes(bytes, encoder)
        },
        ItemDataValue::String(text) => {
            encoder.write_u8(8);
            text.encode(encoder)
        },
        ItemDataValue::List(items) => {
            proof {
                ItemDataValue::list_value(*items);
            }
            encoder.write_u8(9);
            encode_data_list(items, encoder)
        },
        ItemDataValue::Compound(map) => {
            proof {
                ItemDataValue::compound_value(*map);
            }
            encoder.write_u8(10);
            encode_data_map(map, encoder)
        },
        ItemDataValue::IntArray(numbers) => {
            proof {
                assert(values_of(numbers@) =~= numbers@.map_values(|n: i32| Value::Int(n as int)));
            }
            encoder.write_u8(11);
            numbers.encode(encoder)
        },
        ItemDataValue::LongArray(numbers) => {
            proof {
                assert(values_of(numbers@) =~= numbers@.map_values(|n: i64| Value::Int(n as int)));
            }
            encoder.write_u8(12);
            numbers.encode(encoder)
        },
    }
}

fn decode_data_list(decoder: &mut Decoder<'_>) -> (result: Result<
    Vec<ItemDataValue>,
    ProtocolCodecError,
>)
    requires
        old(decoder).wf(),
    ensures
        final(decoder).wf(),
        read(
            list(Format::ItemData),
            old(decoder)@,
            final(decoder)@,
            match result {
                Ok(items) => Ok(Value::List(data_values(items@))),
                Err(e) => Err(e),
            },
        ),
        result matches Ok(items) ==> forall|i: int|
            #![trigger items@[i]]
            0 <= i < items@.len() ==> items@[i].ok(),
    decreases old(decoder)@.len(),
{
    let ghost f = Format::ItemData;
    proof {
        parse_whole_list(Box::new(f), decoder@);
    }
    let count: usize = decoder.read_len()?;
    let ghost whole = parse_list(f, count as nat, decoder@);
    let mut items: Vec<ItemDataValue> = Vec::new();
    let mut left: usize = count;
    proof {
        assert(data_values(items@) =~= Seq::empty());
        assert(whole is Ok ==> Seq::empty() + whole->Ok_0.0 =~= whole->Ok_0.0);
    }
    while left > 0
        invariant
            decoder.wf(),
            f == Format::ItemData,
            old(decoder)@.len() >= 4,
            decoder@.len() <= old(decoder)@.len() - 4,
            parse(list(f), old(decoder)@) == (match whole {
                Ok((all, t)) => Ok::<(Value, Seq<u8>), ProtocolCodecError>((Value::List(all), t)),
                Err(e) => Err(e),
            }),
            forall|i: int| #![trigger items@[i]] 0 <= i < items@.len() ==> items@[i].ok(),
            match parse_list(f, left as nat, decoder@) {
                Ok((rest, t)) => whole == Ok::<(Seq<Value>, Seq<u8>), ProtocolCodecError>(
                    (data_values(items@) + rest, t),
                ),
                Err(e) => whole == Err::<(Seq<Value>, Seq<u8>), ProtocolCodecError>(e),
            },
        decreases left,
    {
        let ghost before = items@;
        proof {
            parse_item(f, left as nat, decoder@);
            parse_shrinks(f, decoder@);
        }
        let item = decode_data(decoder)?;
        let ghost value = item.spec_value();
        let ghost later = parse_list(f, (left - 1) as nat, decoder@);
        items.push(item);
        left -= 1;
        proof {
            assert(data_values(items@) =~= data_values(before).push(value));
            if later is Ok {
                assert(data_values(before) + (seq![value] + later->Ok_0.0) =~= data_values(items@)
                    + later->Ok_0.0);
            }
        }
    }
    proof {
        parse_item(f, 0, decoder@);
        assert(data_values(items@) + Seq::<Value>::empty() =~= data_values(items@));
    }
    Ok(items)
}

fn decode_data_map(decoder: &mut Decoder<'_>) -> (result: Result<ItemDataMap, ProtocolCodecError>)
    requires
        old(decoder).wf(),
    ensures
        final(decoder).wf(),
        read(
            data_map_format(),
            old(decoder)@,
            final(decoder)@,
            match result {
                Ok(map) => Ok(Value::List(map@)),
                Err(e) => Err(e),
            },
        ),
        result matches Ok(map) ==> map.wf(),
    decreases old(decoder)@.len(),
{
    let ghost f = pair(Format::Text, Format::ItemData);
    proof {
        parse_whole_list(Box::new(f), decoder@);
    }
    let count: usize = decoder.read_len()?;
    let ghost whole = parse_list(f, count as nat, decoder@);
    let mut map = ItemDataMap::new();
    let ghost mut items: Seq<Value> = Seq::empty();
    let mut left: usize = count;
    proof {
        assert(whole is Ok ==> Seq::empty() + whole->Ok_0.0 =~= whole->Ok_0.0);
        assert(map.entries@.len() == 0) by {
            assert(map@.len() == map.entries@.len());
        }
        assert(named_entries(map.entries@) =~= gathered(under_keys(items)));
    }
    while left > 0
        invariant
            decoder.wf(),
            f == pair(Format::Text, Format::ItemData),
            old(decoder)@.len() >= 4,
            decoder@.len() <= old(decoder)@.len() - 4,
            map.wf(),
            named_entries(map.entries@) == gathered(under_keys(items)),
            parse(data_map_format(), old(decoder)@) == (match whole {
                Ok((all, t)) => Ok::<(Value, Seq<u8>), ProtocolCodecError>(
                    (Value::List(in_order(all)), t),
                ),
                Err(e) => Err(e),
            }),
            match parse_list(f, left as nat, decoder@) {
                Ok((rest, t)) => whole == Ok::<(Seq<Value>, Seq<u8>), ProtocolCodecError>(
                    (items + rest, t),
                ),
                Err(e) => whole == Err::<(Seq<Value>, Seq<u8>), ProtocolCodecError>(e),
            },
        decreases left,
    {
        proof {
            parse_item(f, left as nat, decoder@);
            parse_shrinks(Format::Text, decoder@);
        }
        let name = String::decode(decoder)?;
        proof {
            parse_shrinks(Format::ItemData, decoder@);
        }
        let value = decode_data(decoder)?;
        let ghost item = both(Value::Text(name@), value.spec_value());
        let ghost later = parse_list(f, (left - 1) as nat, decoder@);
        proof {
            let next = items.push(item);
            assert(under_keys(next).drop_last() =~= under_keys(items));
            assert(under_keys(next).last() == (text_id(name@), item));
            if later is Ok {
                assert(items + (seq![item] + later->Ok_0.0) =~= next + later->Ok_0.0);
            }
            items = next;
        }
        map.insert(name.as_str(), value);
        left -= 1;
    }
    proof {
        parse_item(f, 0, decoder@);
        assert(items + Seq::<Value>::empty() =~= items);
        assert(in_order(items) =~= named_values(map.entries@));
    }
    Ok(map)
}

fn decode_data(decoder: &mut Decoder<'_>) -> (result: Result<ItemDataValue, ProtocolCodecError>)
    requires
        old(decoder).wf(),
    ensures
        final(decoder).wf(),
        read(
            Format::ItemData,
            old(decoder)@,
            final(decoder)@,
            match result {
                Ok(value) => Ok(value.spec_value()),
                Err(e) => Err(e),
            },
        ),
        result matches Ok(value) ==> value.ok(),
    decreases old(decoder)@.len(),
{
    let tag: u8 = decoder.read_u8()?;
    match tag {
        1 => Ok(ItemDataValue::Byte(i8::decode(decoder)?)),
        2 => Ok(ItemDataValue::Short(i16::decode(decoder)?)),
        3 => Ok(ItemDataValue::Int(i32::decode(decoder)?)),
        4 => Ok(ItemDataValue::Long(i64::decode(decoder)?)),
        5 => Ok(ItemDataValue::Float(OpaqueF32(u32::decode(decoder)?))),
        6 => Ok(ItemDataValue::Double(OpaqueF64(u64::decode(decoder)?))),
        7 => Ok(ItemDataValue::ByteArray(decode_bytes(decoder)?)),
        8 => Ok(ItemDataValue::String(String::decode(decoder)?)),
        9 => {
            let items = decode_data_list(decoder)?;
            proof {
                ItemDataValue::list_value(items);
            }
            Ok(ItemDataValue::List(items))
        },
        10 => {
            let map = decode_data_map(decoder)?;
            proof {
                ItemDataValue::compound_value(map);
            }
            Ok(ItemDataValue::Compound(map))
        },
        11 => {
            let numbers = Vec::<i32>::decode(decoder)?;
            proof {
                assert(values_of(numbers@) =~= numbers@.map_values(|n: i32| Value::Int(n as int)));
            }
            Ok(ItemDataValue::IntArray(numbers))
        },
        12 => {
            let numbers = Vec::<i64>::decode(decoder)?;
            proof {
                assert(values_of(numbers@) =~= numbers@.map_values(|n: i64| Value::Int(n as int)));
            }
            Ok(ItemDataValue::LongArray(numbers))
        },
        _ => Err(ProtocolCodecError::InvalidValue("invalid item data tag")),
    }
}

impl Wire for ItemDataMap {
    open spec fn format() -> Format {
        data_map_format()
    }

    open spec fn value(&self) -> Value {
        Value::List(self@)
    }

    open spec fn encodable(&self) -> bool {
        self.wf()
    }

    fn encode(&self, encoder: &mut Encoder) -> (result: Result<(), ProtocolCodecError>) {
        encode_data_map(self, encoder)
    }

    fn decode(decoder: &mut Decoder<'_>) -> (result: Result<Self, ProtocolCodecError>) {
        decode_data_map(decoder)
    }
}

/// The format of a stack of items.
pub open spec fn stack_format() -> Format {
    pair(
        Format::Text,
        pair(unsigned(1), pair(unsigned(2), pair(data_map_format(), data_map_format()))),
    )
}

/// A stack of items without its type.
pub open spec fn stack_value(stack: StackView) -> Value {
    both(
        Value::Text(stack.key),
        both(
            Value::Int(stack.count as int),
            both(
                Value::Int(stack.damage as int),
                both(Value::List(stack.components), Value::List(stack.extra)),
            ),
        ),
    )
}

impl Wire for ItemStack {
    open spec fn format() -> Format {
        stack_format()
    }

    open spec fn value(&self) -> Value {
        stack_value(self@)
    }

    open spec fn encodable(&self) -> bool {
        self.wf()
    }

    fn encode(&self, encoder: &mut Encoder) -> (result: Result<(), ProtocolCodecError>) {
        let key = self.key.as_str().to_string();
        key.encode(encoder)?;
        self.count.encode(encoder)?;
        self.damage.encode(encoder)?;
        self.components.encode(encoder)?;
        self.extra.encode(encoder)
    }

    fn decode(decoder: &mut Decoder<'_>) -> (result: Result<Self, ProtocolCodecError>) {
        let key = String::decode(decoder)?;
        let count: u8 = u8::decode(decoder)?;
        let damage: u16 = u16::decode(decoder)?;
        let components = ItemDataMap::decode(decoder)?;
        let extra = ItemDataMap::decode(decoder)?;
        Ok(ItemStack { key: ItemKey::new(key.as_str()), count, damage, components, extra })
    }
}

} // verus!
