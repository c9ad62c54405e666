//! Items, and the structured data attached to them.

use crate::bytes::copy_bytes;
use crate::codec::grammar::{both, chosen, text_id, under_keys, Value};
use crate::codec::maps::WireKey;
use crate::ordered::{
    insert_laws, inserted, keys_alone, keys_in_order, lex_before, lex_is_total, rank, rank_is,
    rank_splits, sorted, sorted_by_keys, Entries, Key,
};
use vstd::prelude::*;

verus! {

/// A single-precision number, as its bit pattern.
#[derive(Clone, Copy, Debug, PartialEq, Eq, Structural)]
pub struct OpaqueF32(pub u32);

/// A double-precision number, as its bit pattern.
#[derive(Clone, Copy, Debug, PartialEq, Eq, Structural)]
pub struct OpaqueF64(pub u64);

/// A piece of structured data.
#[derive(Debug, PartialEq, Eq)]
pub enum ItemDataValue {
    Byte(i8),
    Short(i16),
    Int(i32),
    Long(i64),
    Float(OpaqueF32),
    Double(OpaqueF64),
    ByteArray(Vec<u8>),
    String(String),
    List(Vec<ItemDataValue>),
    Compound(ItemDataMap),
    IntArray(Vec<i32>),
    LongArray(Vec<i64>),
}

/// Named pieces of structured data, in the order of their names.
#[derive(Debug, PartialEq, Eq)]
pub struct ItemDataMap {
    pub entries: Vec<(String, ItemDataValue)>,
}

/// Pieces of data without their types.
pub open spec fn data_values(items: Seq<ItemDataValue>) -> Seq<Value> {
    items.map_values(|item: ItemDataValue| item.spec_value())
}

/// A named piece of data without its type.
pub open spec fn named_value(entry: (String, ItemDataValue)) -> Value {
    both(Value::Text(entry.0@), entry.1.spec_value())
}

/// Named pieces of data without their types.
pub open spec fn named_values(entries: Seq<(String, ItemDataValue)>) -> Seq<Value> {
    entries.map_values(|entry: (String, ItemDataValue)| named_value(entry))
}

/// Named pieces of data under their names.
pub open spec fn named_entries(entries: Seq<(String, ItemDataValue)>) -> Entries<Value> {
    entries.map_values(|entry: (String, ItemDataValue)| (text_id(entry.0@), named_value(entry)))
}

/// Named pieces of data are under their names.
pub proof fn named_entries_are_keyed(entries: Seq<(String, ItemDataValue)>)
    ensures
        under_keys(named_values(entries)) == named_entries(entries),
{
    assert(under_keys(named_values(entries)) =~= named_entries(entries));
}

/// Whether named pieces of data stand in the order of their names.
fn names_in_order(entries: &Vec<(String, ItemDataValue)>) -> (result: bool)
    ensures
        result == sorted(named_entries(entries@)),
{
    proof {
        let keys = keys_alone(entries@);
        let named = named_entries(entries@);
        if sorted(keys) {
            sorted_by_keys(keys, named);
        }
        if sorted(named) {
            sorted_by_keys(named, keys);
        }
    }
    keys_in_order(entries)
}

impl ItemDataValue {
    /// Whether the names in every map, at any depth, stand in order.
    pub open spec fn ok(self) -> bool
        decreases self,
    {
        match self {
            ItemDataValue::List(items) => forall|i: int|
                #![trigger items@[i]]
                0 <= i < items@.len() ==> items@[i].ok(),
            ItemDataValue::Compound(map) => sorted(named_entries(map.entries@)) && forall|i: int|
                #![trigger map.entries@[i]]
                0 <= i < map.entries@.len() ==> map.entries@[i].1.ok(),
            _ => true,
        }
    }

    /// The value of a list is that of its items.
    pub proof fn list_value(items: Vec<ItemDataValue>)
        ensures
            ItemDataValue::List(items).spec_value() == chosen(9, Value::List(data_values(items@))),
    {
        let a = ItemDataValue::List(items).spec_value();
        let b = data_values(items@);
        if let Value::Case(n, x) = a {
            if let Value::List(s) = *x {
                assert(s =~= b);
            }
        }
    }

    /// The value of a map is that of its named pieces.
    pub proof fn compound_value(map: ItemDataMap)
        ensures
            ItemDataValue::Compound(map).spec_value() == chosen(
                10,
                Value::List(named_values(map.entries@)),
            ),
    {
        let a = ItemDataValue::Compound(map).spec_value();
        let b = named_values(map.entries@);
        if let Value::Case(n, x) = a {
            if let Value::List(s) = *x {
                assert(s =~= b);
            }
        }
    }

    /// Whether the names in every map, at any depth, stand in order.
    pub fn is_ok(&self) -> (result: bool)
        ensures
            result == self.ok(),
        decreases self,
    {
        match self {
            ItemDataValue::List(items) => {
                let mut i: usize = 0;
                while i < items.len()
                    invariant
                        i <= items@.len(),
                        *self == ItemDataValue::List(*items),
                        forall|j: int| #![trigger items@[j]] 0 <= j < i ==> items@[j].ok(),
                    decreases items@.len() - i,
                {
                    proof {
                        let all = *items;
                        let whole = *self;
                        assert(whole->List_0 == all);
                        assert(decreases_to!(whole => whole->List_0));
                        assert(decreases_to!(all => all[i as int]));
                        assert(decreases_to!(whole => all[i as int]));
                    }
                    if !items[i].is_ok() {
                        return false;
                    }
                    i += 1;
                }
                true
            },
            ItemDataValue::Compound(map) => {
                if !names_in_order(&map.entries) {
                    return false;
                }
                let mut i: usize = 0;
                while i < map.entries.len()
                    invariant
                        i <= map.entries@.len(),
                        *self == ItemDataValue::Compound(*map),
                        sorted(named_entries(map.entries@)),
                        forall|j: int|
                            #![trigger map.entries@[j]]
                            0 <= j < i ==> map.entries@[j].1.ok(),
                    decreases map.entries@.len() - i,
                {
                    proof {
                        let all = map.entries;
                        let whole = *self;
                        assert(whole->Compound_0.entries == all);
                        assert(decreases_to!(whole => whole->Compound_0));
                        assert(decreases_to!(whole->Compound_0 => all));
                        assert(decreases_to!(all => all[i as int]));
                        assert(decreases_to!(all[i as int] => all[i as int].1));
                        assert(decreases_to!(whole => all[i as int].1));
                    }
                    if !map.entries[i].1.is_ok() {
                        return false;
                    }
                    i += 1;
                }
                true
            },
            _ => true,
        }
    }

    /// A copy of the piece of data.
    pub fn duplicate(&self) -> (result: Self)
        ensures
            result.spec_value() == self.spec_value(),
            self.ok() ==> result.ok(),
        decreases self,
    {
        match self {
            ItemDataValue::Byte(n) => ItemDataValue::Byte(*n),
            ItemDataValue::Short(n) => ItemDataValue::Short(*n),
            ItemDataValue::Int(n) => ItemDataValue::Int(*n),
            ItemDataValue::Long(n) => ItemDataValue::Long(*n),
            ItemDataValue::Float(n) => ItemDataValue::Float(*n),
            ItemDataValue::Double(n) => ItemDataValue::Double(*n),
            ItemDataValue::ByteArray(bytes) => ItemDataValue::ByteArray(
                copy_bytes(bytes.as_slice()),
            ),
            ItemDataValue::String(text) => ItemDataValue::String(text.clone()),
            ItemDataValue::List(items) => {
                let mut copies: Vec<ItemDataValue> = Vec::new();
                let mut i: usize = 0;
                while i < items.len()
                    invariant
                        i <= items@.len(),
                        copies@.len() == i,
                        *self == ItemDataValue::List(*items),
                        forall|j: int|
                            0 <= j < i ==> (#[trigger] copies@[j]).spec_value()
                                == items@[j].spec_value() && (items@[j].ok() ==> copies@[j].ok()),
                    decreases items@.len() - i,
                {
                    proof {
                        let all = *items;
                        let whole = *self;
                        assert(whole->List_0 == all);
                        assert(decreases_to!(whole => whole->List_0));
                        assert(decreases_to!(all => all[i as int]));
                        assert(decreases_to!(whole => all[i as int]));
                    }
                    copies.push(items[i].duplicate());
                    i += 1;
                }
                proof {
                    ItemDataValue::list_value(*items);
                    ItemDataValue::list_value(copies);
                    assert(data_values(items@) =~= data_values(copies@));
                }
                ItemDataValue::List(copies)
            },
            ItemDataValue::Compound(map) => {
                let mut copies: Vec<(String, ItemDataValue)> = Vec::new();
                let mut i: usize = 0;
                while i < map.entries.len()
                    invariant
                        i <= map.entries@.len(),
                        copies@.len() == i,
                        *self == ItemDataValue::Compound(*map),
                        forall|j: int|
                            0 <= j < i ==> (#[trigger] copies@[j]).0@ == map.entries@[j].0@
                                && copies@[j].1.spec_value() == map.entries@[j].1.spec_value() && (
                            map.entries@[j].1.ok() ==> copies@[j].1.ok()),
                    decreases map.entries@.len() - i,
                {
                    proof {
                        let all = map.entries;
                        let whole = *self;
                        assert(whole->Compound_0.entries == all);
                        assert(decreases_to!(whole => whole->Compound_0));
                        assert(decreases_to!(whole->Compound_0 => all));
                        assert(decreases_to!(all => all[i as int]));
                        assert(decreases_to!(all[i as int] => all[i as int].1));
                        assert(decreases_to!(whole => all[i as int].1));
                    }
                    copies.push((map.entries[i].0.clone(), map.entries[i].1.duplicate()));
                    i += 1;
                }
                let copy = ItemDataMap { entries: copies };
                proof {
                    ItemDataValue::compound_value(*map);
                    ItemDataValue::compound_value(copy);
                    assert(named_values(map.entries@) =~= named_values(copies@));
                    assert(named_entries(map.entries@) =~= named_entries(copies@));
                }
                ItemDataValue::Compound(copy)
            },
            ItemDataValue::IntArray(numbers) => {
                let mut copies: Vec<i32> = Vec::new();
                copies.extend_from_slice(numbers.as_slice());
                assert(copies@ =~= numbers@);
                ItemDataValue::IntArray(copies)
            },
            ItemDataValue::LongArray(numbers) => {
                let mut copies: Vec<i64> = Vec::new();
                copies.extend_from_slice(numbers.as_slice());
                assert(copies@ =~= numbers@);
                ItemDataValue::LongArray(copies)
            },
        }
    }

    /// The piece of data without its type.
    pub open spec fn spec_value(self) -> Value
        decreases self,
    {
        match self {
            ItemDataValue::Byte(n) => chosen(1, Value::Int(n as int)),
            ItemDataValue::Short(n) => chosen(2, Value::Int(n as int)),
            ItemDataValue::Int(n) => chosen(3, Value::Int(n as int)),
            ItemDataValue::Long(n) => chosen(4, Value::Int(n as int)),
            ItemDataValue::Float(n) => chosen(5, Value::Int(n.0 as int)),
            ItemDataValue::Double(n) => chosen(6, Value::Int(n.0 as int)),
            ItemDataValue::ByteArray(bytes) => chosen(7, Value::Bytes(bytes@)),
            ItemDataValue::String(text) => chosen(8, Value::Text(text@)),
            ItemDataValue::List(items) => chosen(
                9,
                Value::List(
                    Seq::new(
                        items@.len(),
                        |i: int|
                            if 0 <= i < items@.len() {
                                items@[i].spec_value()
                            } else {
                                Value::Unit
                            },
                    ),
                ),
            ),
            ItemDataValue::Compound(map) => chosen(
                10,
                Value::List(
                    Seq::new(
                        map.entries@.len(),
                        |i: int|
                            if 0 <= i < map.entries@.len() {
                                both(
                                    Value::Text(map.entries@[i].0@),
                                    map.entries@[i].1.spec_value(),
                                )
                            } else {
                                Value::Unit
                            },
                    ),
                ),
            ),
            ItemDataValue::IntArray(numbers) => chosen(
                11,
                Value::List(numbers@.map_values(|n: i32| Value::Int(n as int))),
            ),
            ItemDataValue::LongArray(numbers) => chosen(
                12,
                Value::List(numbers@.map_values(|n: i64| Value::Int(n as int))),
            ),
        }
    }
}

impl View for ItemDataMap {
    type V = Seq<Value>;

    open spec fn view(&self) -> Seq<Value> {
        named_values(self.entries@)
    }
}

impl ItemDataMap {
    /// Whether the names stand in order, at any depth.
    pub open spec fn wf(&self) -> bool {
        &&& sorted(named_entries(self.entries@))
        &&& forall|i: int|
            #![trigger self.entries@[i]]
            0 <= i < self.entries@.len() ==> self.entries@[i].1.ok()
    }

    /// Whether the names stand in order, at any depth.
    pub fn is_wf(&self) -> (result: bool)
        ensures
            result == self.wf(),
    {
        if !names_in_order(&self.entries) {
            return false;
        }
        let mut i: usize = 0;
        while i < self.entries.len()
            invariant
                i <= self.entries@.len(),
                sorted(named_entries(self.entries@)),
                forall|j: int|
                    #![trigger self.entries@[j]]
                    0 <= j < i ==> self.entries@[j].1.ok(),
            decreases self.entries@.len() - i,
        {
            if !self.entries[i].1.is_ok() {
                return false;
            }
            i += 1;
        }
        true
    }

    /// No data.
    pub fn new() -> (result: Self)
        ensures
            result.wf(),
            result@ == Seq::<Value>::empty(),
    {
        let result = ItemDataMap { entries: Vec::new() };
        assert(result@ =~= Seq::<Value>::empty());
        result
    }

    /// A copy of the data.
    pub fn duplicate(&self) -> (result: Self)
        ensures
            result@ == self@,
            self.wf() ==> result.wf(),
    {
        let mut copies: Vec<(String, ItemDataValue)> = Vec::new();
        let mut i: usize = 0;
        while i < self.entries.len()
            invariant
                i <= self.entries@.len(),
                copies@.len() == i,
                forall|j: int|
                    0 <= j < i ==> (#[trigger] copies@[j]).0@ == self.entries@[j].0@
                        && copies@[j].1.spec_value() == self.entries@[j].1.spec_value() && (
                    self.entries@[j].1.ok() ==> copies@[j].1.ok()),
            decreases self.entries@.len() - i,
        {
            copies.push((self.entries[i].0.clone(), self.entries[i].1.duplicate()));
            i += 1;
        }
        proof {
            assert(named_values(self.entries@) =~= named_values(copies@));
            assert(named_entries(self.entries@) =~= named_entries(copies@));
        }
        ItemDataMap { entries: copies }
    }

    fn place(&self, name: &String) -> (result: usize)
        requires
            sorted(named_entries(self.entries@)),
        ensures
            result == rank(named_entries(self.entries@), text_id(name@)),
            result <= self.entries@.len(),
    {
        let ghost all = named_entries(self.entries@);
        let mut low: usize = 0;
        let mut high: usize = self.entries.len();
        while low < high
            invariant
                all == named_entries(self.entries@),
                sorted(all),
                low <= high <= self.entries@.len(),
                low > 0 ==> lex_before(all[low - 1].0, text_id(name@)),
                high < all.len() ==> !lex_before(all[high as int].0, text_id(name@)),
            decreases high - low,
        {
            let middle: usize = low + (high - low) / 2;
            assert(all[middle as int].0 == text_id(self.entries@[middle as int].0@));
            if self.entries[middle].0.precedes(name) {
                low = middle + 1;
            } else {
                high = middle;
            }
        }
        proof {
            rank_is(all, text_id(name@), low as int);
        }
        low
    }

    /// Puts a piece of data under a name, in place of what was there.
    pub fn insert(&mut self, name: &str, value: ItemDataValue)
        requires
            old(self).wf(),
            value.ok(),
        ensures
            final(self).wf(),
            named_entries(final(self).entries@) == inserted(
                named_entries(old(self).entries@),
                text_id(name@),
                both(Value::Text(name@), value.spec_value()),
            ),
    {
        let key = name.to_string();
        let ghost all = named_entries(self.entries@);
        let ghost id = text_id(name@);
        let ghost item = both(Value::Text(name@), value.spec_value());
        let place: usize = self.place(&key);
        proof {
            insert_laws(all, id, item, id);
            rank_splits(all, id);
        }
        if place < self.entries.len() {
            assert(all[place as int].0 == text_id(self.entries@[place as int].0@));
            proof {
                lex_is_total(all[place as int].0, id, id);
            }
            if !key.precedes(&self.entries[place].0) {
                self.entries[place] = (key, value);
                assert(named_entries(self.entries@) =~= inserted(all, id, item));
                return;
            }
        }
        let ghost before = self.entries@;
        self.entries.insert(place, (key, value));
        assert(named_entries(self.entries@) =~= inserted(all, id, item));
        assert forall|i: int|
            #![trigger self.entries@[i]]
            0 <= i < self.entries@.len() implies self.entries@[i].1.ok() by {
            if i < place {
                assert(self.entries@[i] == before[i]);
            } else if i > place {
                assert(self.entries@[i] == before[i - 1]);
            }
        }
    }

    /// How many names there are.
    pub fn len(&self) -> (result: usize)
        ensures
            result == self@.len(),
    {
        self.entries.len()
    }
}

/// What kind of thing an item is.
#[derive(Debug, PartialEq, Eq, PartialOrd, Ord, Hash)]
pub struct ItemKey {
    text: String,
}

impl View for ItemKey {
    type V = Seq<char>;

    closed spec fn view(&self) -> Seq<char> {
        self.text@
    }
}

impl ItemKey {
    /// The key with a name.
    pub fn new(value: &str) -> (result: Self)
        ensures
            result@ == value@,
    {
        ItemKey { text: value.to_string() }
    }

    /// The name of the key.
    pub fn as_str(&self) -> (result: &str)
        ensures
            result@ == self@,
    {
        self.text.as_str()
    }

    /// Whether two keys are the same.
    pub fn same(&self, other: &Self) -> (result: bool)
        ensures
            result == (self@ == other@),
    {
        self.text == other.text
    }
}

/// Some items of one kind.
#[derive(Debug, PartialEq, Eq)]
pub struct ItemStack {
    pub key: ItemKey,
    pub count: u8,
    pub damage: u16,
    pub components: ItemDataMap,
    pub extra: ItemDataMap,
}

/// What a stack of items is.
pub struct StackView {
    pub key: Seq<char>,
    pub count: u8,
    pub damage: u16,
    pub components: Seq<Value>,
    pub extra: Seq<Value>,
}

impl View for ItemStack {
    type V = StackView;

    open spec fn view(&self) -> StackView {
        StackView {
            key: self.key@,
            count: self.count,
            damage: self.damage,
            components: self.components@,
            extra: self.extra@,
        }
    }
}

/// A stack without data.
pub open spec fn plain_stack(key: Seq<char>, count: u8, damage: u16) -> StackView {
    StackView { key, count, damage, components: Seq::empty(), extra: Seq::empty() }
}

impl ItemStack {
    /// Whether the data stands in order.
    pub open spec fn wf(&self) -> bool {
        self.components.wf() && self.extra.wf()
    }

    /// Whether the data stands in order.
    pub fn is_wf(&self) -> (result: bool)
        ensures
            result == self.wf(),
    {
        self.components.is_wf() && self.extra.is_wf()
    }

    /// A stack without data.
    pub fn new(key: &str, count: u8, damage: u16) -> (result: Self)
        ensures
            result.wf(),
            result@ == plain_stack(key@, count, damage),
    {
        ItemStack {
            key: ItemKey::new(key),
            count,
            damage,
            components: ItemDataMap::new(),
            extra: ItemDataMap::new(),
        }
    }

    /// A stack of something that has no counterpart.
    pub fn unsupported(count: u8, damage: u16) -> (result: Self)
        ensures
            result.wf(),
            result@ == plain_stack("minecraft:unsupported"@, count, damage),
    {
        ItemStack::new("minecraft:unsupported", count, damage)
    }

    /// A copy of the stack.
    pub fn duplicate(&self) -> (result: Self)
        ensures
            result@ == self@,
            self.wf() ==> result.wf(),
    {
        ItemStack {
            key: ItemKey { text: self.key.text.clone() },
            count: self.count,
            damage: self.damage,
            components: self.components.duplicate(),
            extra: self.extra.duplicate(),
        }
    }
}

/// What a stack that may be absent is.
pub open spec fn stack_view(stack: Option<ItemStack>) -> Option<StackView> {
    match stack {
        Some(stack) => Some(stack@),
        None => None,
    }
}

/// Whether the data of a stack that may be absent stands in order.
pub open spec fn stack_wf(stack: Option<ItemStack>) -> bool {
    stack matches Some(stack) ==> stack.wf()
}

/// Whether the data of a stack that may be absent stands in order.
pub fn is_stack_wf(stack: &Option<ItemStack>) -> (result: bool)
    ensures
        result == stack_wf(*stack),
{
    match stack {
        Some(stack) => stack.is_wf(),
        None => true,
    }
}

/// A copy of a stack that may be absent.
pub fn duplicate_stack(stack: &Option<ItemStack>) -> (result: Option<ItemStack>)
    ensures
        stack_view(result) == stack_view(*stack),
        stack_wf(*stack) ==> stack_wf(result),
{
    match stack {
        Some(stack) => Some(stack.duplicate()),
        None => None,
    }
}

} // verus!
