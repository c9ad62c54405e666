//! Whether items are the same.

use crate::codec::grammar::{chosen, Value};
use crate::model::item::{
    data_values, named_value, named_values, ItemDataMap, ItemDataValue, ItemStack, StackView,
};
use vstd::prelude::*;
use vstd::string::*;

verus! {

/// Whether two lists of bytes are the same.
pub fn same_bytes(a: &Vec<u8>, b: &Vec<u8>) -> (result: bool)
    ensures
        result == (a@ == b@),
{
    if a.len() != b.len() {
        return false;
    }
    let mut i: usize = 0;
    while i < a.len()
        invariant
            i <= a@.len() == b@.len(),
            forall|j: int| 0 <= j < i ==> a@[j] == b@[j],
        decreases a@.len() - i,
    {
        if a[i] != b[i] {
            return false;
        }
        i += 1;
    }
    assert(a@ =~= b@);
    true
}

/// Numbers without their types.
pub open spec fn int_values(numbers: Seq<i32>) -> Seq<Value> {
    numbers.map_values(|n: i32| Value::Int(n as int))
}

/// Numbers without their types.
pub open spec fn long_values(numbers: Seq<i64>) -> Seq<Value> {
    numbers.map_values(|n: i64| Value::Int(n as int))
}

fn same_ints(a: &Vec<i32>, b: &Vec<i32>) -> (result: bool)
    ensures
        result == (int_values(a@) == int_values(b@)),
{
    let ghost x = int_values(a@);
    let ghost y = int_values(b@);
    if a.len() != b.len() {
        assert(x.len() != y.len());
        return false;
    }
    let mut i: usize = 0;
    while i < a.len()
        invariant
            i <= a@.len() == b@.len(),
            x == int_values(a@),
            y == int_values(b@),
            forall|j: int| 0 <= j < i ==> x[j] == y[j],
        decreases a@.len() - i,
    {
        if a[i] != b[i] {
            assert(x[i as int] != y[i as int]);
            return false;
        }
        i += 1;
    }
    assert(x =~= y);
    true
}

fn same_longs(a: &Vec<i64>, b: &Vec<i64>) -> (result: bool)
    ensures
        result == (long_values(a@) == long_values(b@)),
{
    let ghost x = long_values(a@);
    let ghost y = long_values(b@);
    if a.len() != b.len() {
        assert(x.len() != y.len());
        return false;
    }
    let mut i: usize = 0;
    while i < a.len()
        invariant
            i <= a@.len() == b@.len(),
            x == long_values(a@),
            y == long_values(b@),
            forall|j: int| 0 <= j < i ==> x[j] == y[j],
        decreases a@.len() - i,
    {
        if a[i] != b[i] {
            assert(x[i as int] != y[i as int]);
            return false;
        }
        i += 1;
    }
    assert(x =~= y);
    true
}

impl ItemDataValue {
    /// Whether two pieces of data are the same.
    pub fn same(&self, other: &Self) -> (result: bool)
        ensures
            result == (self.spec_value() == other.spec_value()),
        decreases self,
    {
        match (self, other) {
            (ItemDataValue::Byte(a), ItemDataValue::Byte(b)) => *a == *b,
            (ItemDataValue::Short(a), ItemDataValue::Short(b)) => *a == *b,
            (ItemDataValue::Int(a), ItemDataValue::Int(b)) => *a == *b,
            (ItemDataValue::Long(a), ItemDataValue::Long(b)) => *a == *b,
            (ItemDataValue::Float(a), ItemDataValue::Float(b)) => a.0 == b.0,
            (ItemDataValue::Double(a), ItemDataValue::Double(b)) => a.0 == b.0,
            (ItemDataValue::ByteArray(a), ItemDataValue::ByteArray(b)) => same_bytes(a, b),
            (ItemDataValue::String(a), ItemDataValue::String(b)) => *a == *b,
            (ItemDataValue::List(a), ItemDataValue::List(b)) => {
                let ghost x = data_values(a@);
                let ghost y = data_values(b@);
                proof {
                    ItemDataValue::list_value(*a);
                    ItemDataValue::list_value(*b);
                }
                if a.len() != b.len() {
                    assert(x.len() != y.len());
                    return false;
                }
                let mut i: usize = 0;
                while i < a.len()
                    invariant
                        i <= a@.len() == b@.len(),
                        *self == ItemDataValue::List(*a),
                        x == data_values(a@),
                        y == data_values(b@),
                        self.spec_value() == chosen(9, Value::List(x)),
                        other.spec_value() == chosen(9, Value::List(y)),
                        forall|j: int| 0 <= j < i ==> x[j] == y[j],
                    decreases a@.len() - i,
                {
                    proof {
                        let all = *a;
                        let whole = *self;
                        assert(whole->List_0 == all);
                        assert(decreases_to!(whole => whole->List_0));
                        assert(decreases_to!(all => all[i as int]));
                        assert(decreases_to!(whole => all[i as int]));
                    }
                    if !a[i].same(&b[i]) {
                        assert(x[i as int] != y[i as int]);
                        return false;
                    }
                    i += 1;
                }
                assert(x =~= y);
                true
            },
            (ItemDataValue::Compound(a), ItemDataValue::Compound(b)) => {
                let ghost x = named_values(a.entries@);
                let ghost y = named_values(b.entries@);
                proof {
                    ItemDataValue::compound_value(*a);
                    ItemDataValue::compound_value(*b);
                }
                if a.entries.len() != b.entries.len() {
                    assert(x.len() != y.len());
                    return false;
                }
                let mut i: usize = 0;
                while i < a.entries.len()
                    invariant
                        i <= a.entries@.len() == b.entries@.len(),
                        *self == ItemDataValue::Compound(*a),
                        x == named_values(a.entries@),
                        y == named_values(b.entries@),
                        self.spec_value() == chosen(10, Value::List(x)),
                        other.spec_value() == chosen(10, Value::List(y)),
                        forall|j: int| 0 <= j < i ==> x[j] == y[j],
                    decreases a.entries@.len() - i,
                {
                    proof {
                        let all = a.entries;
                        let whole = *self;
                        assert(whole->Compound_0.entries == all);
                        assert(decreases_to!(whole => whole->Compound_0));
                        assert(decreases_to!(whole->Compound_0 => all));
                        assert(decreases_to!(all => all[i as int]));
                        assert(decreases_to!(all[i as int] => all[i as int].1));
                        assert(decreases_to!(whole => all[i as int].1));
                    }
                    assert(x[i as int] == named_value(a.entries@[i as int]));
                    assert(y[i as int] == named_value(b.entries@[i as int]));
                    if a.entries[i].0 != b.entries[i].0 || !a.entries[i].1.same(&b.entries[i].1) {
                        assert(x[i as int] != y[i as int]);
                        return false;
                    }
                    i += 1;
                }
                assert(x =~= y);
                true
            },
            (ItemDataValue::IntArray(a), ItemDataValue::IntArray(b)) => {
                assert(self.spec_value() == chosen(11, Value::List(int_values(a@))));
                assert(other.spec_value() == chosen(11, Value::List(int_values(b@))));
                same_ints(a, b)
            },
            (ItemDataValue::LongArray(a), ItemDataValue::LongArray(b)) => {
                assert(self.spec_value() == chosen(12, Value::List(long_values(a@))));
                assert(other.spec_value() == chosen(12, Value::List(long_values(b@))));
                same_longs(a, b)
            },
            _ => false,
        }
    }
}

impl ItemDataMap {
    /// Whether the same data stands under the same names.
    pub fn same(&self, other: &Self) -> (result: bool)
        ensures
            result == (self@ == other@),
    {
        let ghost x = self@;
        let ghost y = other@;
        if self.entries.len() != other.entries.len() {
            assert(x.len() != y.len());
            return false;
        }
        let mut i: usize = 0;
        while i < self.entries.len()
            invariant
                i <= self.entries@.len() == other.entries@.len(),
                x == self@,
                y == other@,
                forall|j: int| 0 <= j < i ==> x[j] == y[j],
            decreases self.entries@.len() - i,
        {
            assert(x[i as int] == named_value(self.entries@[i as int]));
            assert(y[i as int] == named_value(other.entries@[i as int]));
            if self.entries[i].0 != other.entries[i].0 || !self.entries[i].1.same(
                &other.entries[i].1,
            ) {
                assert(x[i as int] != y[i as int]);
                return false;
            }
            i += 1;
        }
        assert(x =~= y);
        true
    }
}

/// Whether two stacks differ at most in their size.
pub open spec fn of_one_kind(a: StackView, b: StackView) -> bool {
    &&& a.key == b.key
    &&& a.damage == b.damage
    &&& a.components == b.components
    &&& a.extra == b.extra
}

/// Stacks are of one kind if and only if one with as many items as the other is the other.
pub proof fn kind_is_all_but_size(a: StackView, b: StackView)
    ensures
        of_one_kind(a, b) <==> (StackView { count: b.count, ..a }) == b,
        of_one_kind(a, b) == of_one_kind(b, a),
{
}

impl ItemStack {
    /// Whether two stacks differ at most in their size.
    pub fn same_kind(&self, other: &Self) -> (result: bool)
        ensures
            result == of_one_kind(self@, other@),
    {
        self.key.same(&other.key) && self.damage == other.damage && self.components.same(
            &other.components,
        ) && self.extra.same(&other.extra)
    }

    /// Whether two stacks are the same.
    pub fn same(&self, other: &Self) -> (result: bool)
        ensures
            result == (self@ == other@),
    {
        self.count == other.count && self.same_kind(other)
    }
}

/// Whether two stacks, of which each may be absent, are the same.
pub fn same_stack(a: Option<&ItemStack>, b: Option<&ItemStack>) -> (result: bool)
    ensures
        result == ((match a {
            Some(stack) => Some(stack@),
            None => None,
        }) == (match b {
            Some(stack) => Some(stack@),
            None => None,
        })),
{
    match (a, b) {
        (None, None) => true,
        (Some(a), Some(b)) => a.same(b),
        _ => false,
    }
}

} // verus!
