//! A map whose entries stand in the order of their keys.

use vstd::prelude::*;

verus! {

/// Lexicographic order: the shorter of two sequences comes first where one starts the other.
pub open spec fn lex_before(a: Seq<int>, b: Seq<int>) -> bool
    decreases a.len(),
{
    if b.len() == 0 {
        false
    } else if a.len() == 0 {
        true
    } else if a[0] != b[0] {
        a[0] < b[0]
    } else {
        lex_before(a.drop_first(), b.drop_first())
    }
}

/// Lexicographic order is a strict total order.
pub proof fn lex_is_total(a: Seq<int>, b: Seq<int>, c: Seq<int>)
    ensures
        !lex_before(a, a),
        a != b ==> lex_before(a, b) || lex_before(b, a),
        lex_before(a, b) && lex_before(b, c) ==> lex_before(a, c),
        !(lex_before(a, b) && lex_before(b, a)),
    decreases a.len() + b.len() + c.len(),
{
    if a.len() > 0 {
        if b.len() > 0 && c.len() > 0 {
            lex_is_total(a.drop_first(), b.drop_first(), c.drop_first());
            if a[0] == b[0] && a.drop_first() == b.drop_first() {
                assert(a =~= b) by {
                    assert forall|i: int| 0 <= i < a.len() && a.len() == b.len() implies a[i]
                        == b[i] by {
                        if i > 0 {
                            assert(a.drop_first()[i - 1] == b.drop_first()[i - 1]);
                        }
                    }
                    assert(a.drop_first().len() == b.drop_first().len());
                }
            }
        } else {
            lex_is_total(a.drop_first(), Seq::empty(), Seq::empty());
            if b.len() > 0 {
                lex_is_total(a.drop_first(), b.drop_first(), Seq::empty());
                if a[0] == b[0] && a.drop_first() == b.drop_first() {
                    assert(a =~= b) by {
                        assert forall|i: int| 0 <= i < a.len() && a.len() == b.len() implies a[i]
                            == b[i] by {
                            if i > 0 {
                                assert(a.drop_first()[i - 1] == b.drop_first()[i - 1]);
                            }
                        }
                        assert(a.drop_first().len() == b.drop_first().len());
                    }
                }
            }
        }
    } else if b.len() == 0 {
        assert(a =~= b);
    }
}

/// Lexicographic order on sequences of one, two and three numbers.
pub proof fn lex_of_few(a: int, b: int, c: int, x: int, y: int, z: int)
    ensures
        lex_before(seq![a], seq![x]) == (a < x),
        lex_before(seq![a, b], seq![x, y]) == (a < x || (a == x && b < y)),
        lex_before(seq![a, b, c], seq![x, y, z]) == (a < x || (a == x && (b < y || (b == y && c
            < z)))),
{
    reveal_with_fuel(lex_before, 4);
    assert(seq![a].drop_first() =~= Seq::empty());
    assert(seq![x].drop_first() =~= Seq::empty());
    assert(seq![a, b].drop_first() =~= seq![b]);
    assert(seq![x, y].drop_first() =~= seq![y]);
    assert(seq![b].drop_first() =~= Seq::empty());
    assert(seq![y].drop_first() =~= Seq::empty());
    assert(seq![a, b, c].drop_first() =~= seq![b, c]);
    assert(seq![x, y, z].drop_first() =~= seq![y, z]);
    assert(seq![b, c].drop_first() =~= seq![c]);
    assert(seq![y, z].drop_first() =~= seq![z]);
    assert(seq![c].drop_first() =~= Seq::empty());
    assert(seq![z].drop_first() =~= Seq::empty());
}

/// Whether `a` is smaller than `b` at the first place from `i` on where they differ.
pub open spec fn smaller_from(a: Seq<int>, b: Seq<int>, i: int) -> bool
    decreases a.len() - i,
{
    0 <= i < a.len() && (a[i] < b[i] || (a[i] == b[i] && smaller_from(a, b, i + 1)))
}

/// Lexicographic order on sequences of one length is decided where they first differ.
pub proof fn lex_by_place(a: Seq<int>, b: Seq<int>, i: int)
    requires
        a.len() == b.len(),
        0 <= i <= a.len(),
    ensures
        lex_before(a.subrange(i, a.len() as int), b.subrange(i, b.len() as int)) == smaller_from(
            a,
            b,
            i,
        ),
        lex_before(a, b) == smaller_from(a, b, 0) || i > 0,
    decreases a.len() - i,
{
    let s = a.subrange(i, a.len() as int);
    let t = b.subrange(i, b.len() as int);
    if i < a.len() {
        lex_by_place(a, b, i + 1);
        assert(s.drop_first() =~= a.subrange(i + 1, a.len() as int));
        assert(t.drop_first() =~= b.subrange(i + 1, b.len() as int));
    }
    if i == 0 {
        assert(s =~= a);
        assert(t =~= b);
    }
}

/// A value that entries of a map are found by.
pub trait Key: Sized {
    /// The numbers that identify the key and place it in the order of keys.
    spec fn id(&self) -> Seq<int>;

    /// Whether this key comes before another.
    fn precedes(&self, other: &Self) -> (result: bool)
        ensures
            result == lex_before(self.id(), other.id()),
    ;
}

impl Key for u8 {
    open spec fn id(&self) -> Seq<int> {
        seq![*self as int]
    }

    fn precedes(&self, other: &Self) -> (result: bool) {
        proof {
            lex_of_few(*self as int, 0, 0, *other as int, 0, 0);
        }
        *self < *other
    }
}

impl Key for u16 {
    open spec fn id(&self) -> Seq<int> {
        seq![*self as int]
    }

    fn precedes(&self, other: &Self) -> (result: bool) {
        proof {
            lex_of_few(*self as int, 0, 0, *other as int, 0, 0);
        }
        *self < *other
    }
}

impl Key for u32 {
    open spec fn id(&self) -> Seq<int> {
        seq![*self as int]
    }

    fn precedes(&self, other: &Self) -> (result: bool) {
        proof {
            lex_of_few(*self as int, 0, 0, *other as int, 0, 0);
        }
        *self < *other
    }
}

impl Key for i32 {
    open spec fn id(&self) -> Seq<int> {
        seq![*self as int]
    }

    fn precedes(&self, other: &Self) -> (result: bool) {
        proof {
            lex_of_few(*self as int, 0, 0, *other as int, 0, 0);
        }
        *self < *other
    }
}

/// The entries of a map: identified keys with what they lead to.
pub type Entries<W> = Seq<(Seq<int>, W)>;

/// Whether the keys of the entries increase.
pub open spec fn sorted<W>(s: Entries<W>) -> bool {
    forall|i: int, j: int| 0 <= i < j < s.len() ==> lex_before(#[trigger] s[i].0, #[trigger] s[j].0)
}

/// How many leading entries have a key before `id`.
pub open spec fn rank<W>(s: Entries<W>, id: Seq<int>) -> int
    decreases s.len(),
{
    if s.len() > 0 && lex_before(s[0].0, id) {
        1 + rank(s.drop_first(), id)
    } else {
        0
    }
}

/// Whether some entry has the key `id`.
pub open spec fn holds<W>(s: Entries<W>, id: Seq<int>) -> bool {
    rank(s, id) < s.len() && s[rank(s, id)].0 == id
}

/// What the key `id` leads to.
pub open spec fn lookup<W>(s: Entries<W>, id: Seq<int>) -> Option<W> {
    if holds(s, id) {
        Some(s[rank(s, id)].1)
    } else {
        None
    }
}

/// The entries after `id` has been made to lead to `value`.
pub open spec fn inserted<W>(s: Entries<W>, id: Seq<int>, value: W) -> Entries<W> {
    if holds(s, id) {
        s.update(rank(s, id), (id, value))
    } else {
        s.insert(rank(s, id), (id, value))
    }
}

/// The entries after the one with the key `id`, if any, has been taken out.
pub open spec fn removed<W>(s: Entries<W>, id: Seq<int>) -> Entries<W> {
    if holds(s, id) {
        s.remove(rank(s, id))
    } else {
        s
    }
}

/// A rank lies within the entries.
pub broadcast proof fn rank_bounds<W>(s: Entries<W>, id: Seq<int>)
    ensures
        0 <= #[trigger] rank(s, id) <= s.len(),
    decreases s.len(),
{
    if s.len() > 0 && lex_before(s[0].0, id) {
        rank_bounds(s.drop_first(), id);
    }
}

/// The place that splits sorted entries into those before `id` and those not is its rank.
pub proof fn rank_is<W>(s: Entries<W>, id: Seq<int>, place: int)
    requires
        sorted(s),
        0 <= place <= s.len(),
        place > 0 ==> lex_before(s[place - 1].0, id),
        place < s.len() ==> !lex_before(s[place].0, id),
    ensures
        rank(s, id) == place,
        forall|i: int| 0 <= i < place ==> lex_before(#[trigger] s[i].0, id),
        forall|i: int| place <= i < s.len() ==> !lex_before(#[trigger] s[i].0, id),
    decreases s.len(),
{
    assert forall|i: int| 0 <= i < place implies lex_before(#[trigger] s[i].0, id) by {
        if i < place - 1 {
            lex_is_total(s[i].0, s[place - 1].0, id);
        }
    }
    assert forall|i: int| place <= i < s.len() implies !lex_before(#[trigger] s[i].0, id) by {
        if place < i {
            lex_is_total(s[place].0, s[i].0, id);
        }
    }
    if s.len() > 0 && lex_before(s[0].0, id) {
        let rest = s.drop_first();
        assert(place > 0);
        assert forall|i: int, j: int| 0 <= i < j < rest.len() implies lex_before(
            #[trigger] rest[i].0,
            #[trigger] rest[j].0,
        ) by {
            assert(rest[i] == s[i + 1] && rest[j] == s[j + 1]);
        }
        if place - 1 > 0 {
            assert(rest[place - 2] == s[place - 1]);
        }
        if place - 1 < rest.len() {
            assert(rest[place - 1] == s[place]);
        }
        rank_is(rest, id, place - 1);
    }
}

/// A rank splits sorted entries into those before the key and those not.
pub proof fn rank_splits<W>(s: Entries<W>, id: Seq<int>)
    requires
        sorted(s),
    ensures
        0 <= rank(s, id) <= s.len(),
        forall|i: int| 0 <= i < rank(s, id) ==> lex_before(#[trigger] s[i].0, id),
        forall|i: int| rank(s, id) <= i < s.len() ==> !lex_before(#[trigger] s[i].0, id),
    decreases s.len(),
{
    rank_bounds(s, id);
    let place = rank(s, id);
    rank_edges(s, id);
    rank_is(s, id, place);
}

proof fn rank_edges<W>(s: Entries<W>, id: Seq<int>)
    ensures
        0 <= rank(s, id) <= s.len(),
        rank(s, id) > 0 ==> lex_before(s[rank(s, id) - 1].0, id),
        rank(s, id) < s.len() ==> !lex_before(s[rank(s, id)].0, id),
    decreases s.len(),
{
    if s.len() > 0 && lex_before(s[0].0, id) {
        let rest = s.drop_first();
        rank_edges(rest, id);
        if rank(rest, id) > 0 {
            assert(rest[rank(rest, id) - 1] == s[rank(s, id) - 1]);
        }
        if rank(rest, id) < rest.len() {
            assert(rest[rank(rest, id)] == s[rank(s, id)]);
        }
    }
}

/// What is found under a key stands in the list under that key.
pub proof fn found_entry<W>(s: Entries<W>, id: Seq<int>)
    requires
        sorted(s),
    ensures
        lookup(s, id) matches Some(w) ==> exists|i: int|
            0 <= i < s.len() && #[trigger] s[i] == (id, w),
{
    rank_bounds(s, id);
    if holds(s, id) {
        assert(s[rank(s, id)] == (id, lookup(s, id)->Some_0));
    }
}

/// An entry of sorted entries is what its key leads to.
pub proof fn lookup_entry<W>(s: Entries<W>, i: int)
    requires
        sorted(s),
        0 <= i < s.len(),
    ensures
        rank(s, s[i].0) == i,
        holds(s, s[i].0),
        lookup(s, s[i].0) == Some(s[i].1),
{
    lex_is_total(s[i].0, s[i].0, s[i].0);
    rank_is(s, s[i].0, i);
}

/// Inserting keeps the order, makes the key lead to the value and leaves other keys alone.
pub proof fn insert_laws<W>(s: Entries<W>, id: Seq<int>, value: W, other: Seq<int>)
    requires
        sorted(s),
    ensures
        sorted(inserted(s, id, value)),
        lookup(inserted(s, id, value), id) == Some(value),
        other != id ==> lookup(inserted(s, id, value), other) == lookup(s, other),
        inserted(s, id, value).len() == s.len() + if holds(s, id) {
            0int
        } else {
            1
        },
{
    let place = rank(s, id);
    let t = inserted(s, id, value);
    rank_splits(s, id);
    rank_splits(s, other);
    lex_is_total(id, id, id);
    if !holds(s, id) {
        assert forall|i: int| place <= i < s.len() implies lex_before(id, #[trigger] s[i].0) by {
            lex_is_total(s[i].0, id, id);
            if s[i].0 == id {
                lex_is_total(s[place].0, s[i].0, id);
                lex_is_total(id, s[place].0, id);
            }
        }
        assert forall|i: int, j: int| 0 <= i < j < t.len() implies lex_before(
            #[trigger] t[i].0,
            #[trigger] t[j].0,
        ) by {
            let a = if i < place {
                i
            } else {
                i - 1
            };
            let b = if j < place {
                j
            } else {
                j - 1
            };
            if i != place {
                assert(t[i] == s[a]);
            }
            if j != place {
                assert(t[j] == s[b]);
            }
        }
    } else {
        assert forall|i: int, j: int| 0 <= i < j < t.len() implies lex_before(
            #[trigger] t[i].0,
            #[trigger] t[j].0,
        ) by {
            assert(t[i].0 == s[i].0 && t[j].0 == s[j].0);
        }
    }
    assert(t[place] == (id, value));
    lookup_entry(t, place);
    if other != id {
        let at = rank(s, other);
        lex_is_total(other, id, id);
        let new_at = if !holds(s, id) && lex_before(id, other) {
            at + 1
        } else {
            at
        };
        if !holds(s, id) {
            if lex_before(id, other) {
                if place > at {
                    lex_is_total(s[at].0, id, other);
                }
                if at > place {
                    assert(t[new_at - 1] == s[at - 1]);
                }
                if at < s.len() {
                    assert(t[new_at] == s[at]);
                }
            } else {
                if at > place {
                    lex_is_total(id, s[at - 1].0, other);
                    lex_is_total(s[at - 1].0, id, id);
                    if s[at - 1].0 != id {
                    }
                }
                if at > 0 {
                    assert(t[new_at - 1] == s[at - 1]);
                }
                if at < place {
                    assert(t[new_at] == s[at]);
                }
            }
        }
        rank_is(t, other, new_at);
    }
}

/// Removing keeps the order, takes the key out and leaves other keys alone.
pub proof fn remove_laws<W>(s: Entries<W>, id: Seq<int>, other: Seq<int>)
    requires
        sorted(s),
    ensures
        sorted(removed(s, id)),
        !holds(removed(s, id), id),
        other != id ==> lookup(removed(s, id), other) == lookup(s, other),
        removed(s, id).len() == s.len() - if holds(s, id) {
            1int
        } else {
            0
        },
{
    let place = rank(s, id);
    let t = removed(s, id);
    rank_splits(s, id);
    rank_splits(s, other);
    if holds(s, id) {
        assert forall|i: int, j: int| 0 <= i < j < t.len() implies lex_before(
            #[trigger] t[i].0,
            #[trigger] t[j].0,
        ) by {
            let a = if i < place {
                i
            } else {
                i + 1
            };
            let b = if j < place {
                j
            } else {
                j + 1
            };
            assert(t[i] == s[a] && t[j] == s[b]);
        }
        if place > 0 {
            assert(t[place - 1] == s[place - 1]);
        }
        if place < t.len() {
            assert(t[place] == s[place + 1]);
            lex_is_total(s[place].0, s[place + 1].0, id);
        }
        rank_is(t, id, place);
        if other != id {
            let at = rank(s, other);
            lex_is_total(other, id, id);
            let new_at = if lex_before(id, other) {
                at - 1
            } else {
                at
            };
            if lex_before(id, other) {
                assert(at > place);
                if at - 1 > place {
                    assert(t[new_at - 1] == s[at - 1]);
                } else if place > 0 {
                    assert(t[new_at - 1] == s[place - 1]);
                    lex_is_total(s[place - 1].0, id, other);
                }
                if at < s.len() {
                    assert(t[new_at] == s[at]);
                }
            } else {
                assert(at <= place);
                if at > 0 {
                    assert(t[new_at - 1] == s[at - 1]);
                }
                if at < place {
                    assert(t[new_at] == s[at]);
                } else if at < t.len() {
                    assert(t[at] == s[at + 1]);
                    assert(s[at].0 == id);
                    lex_is_total(other, id, s[at + 1].0);
                    lex_is_total(s[at + 1].0, other, other);
                }
            }
            rank_is(t, other, new_at);
        }
    }
}

/// An entry whose key comes after all others goes to the end.
pub proof fn insert_at_end<W>(s: Entries<W>, id: Seq<int>, value: W)
    requires
        sorted(s),
        s.len() > 0 ==> lex_before(s.last().0, id),
    ensures
        !holds(s, id),
        rank(s, id) == s.len(),
        inserted(s, id, value) == s.push((id, value)),
        sorted(s.push((id, value))),
{
    rank_is(s, id, s.len() as int);
    insert_laws(s, id, value, id);
    assert(s.insert(s.len() as int, (id, value)) =~= s.push((id, value)));
}

/// Making a key lead to what it leads to already changes nothing.
pub proof fn insert_same<W>(s: Entries<W>, id: Seq<int>, value: W)
    requires
        lookup(s, id) == Some(value),
    ensures
        inserted(s, id, value) == s,
{
    rank_bounds(s, id);
    assert(inserted(s, id, value) =~= s);
}

/// Where a key belongs depends on the keys alone.
pub proof fn rank_by_keys<V, W>(a: Entries<V>, b: Entries<W>, id: Seq<int>)
    requires
        a.len() == b.len(),
        forall|i: int| 0 <= i < a.len() ==> (#[trigger] a[i]).0 == b[i].0,
    ensures
        rank(a, id) == rank(b, id),
        holds(a, id) == holds(b, id),
    decreases a.len(),
{
    rank_bounds(a, id);
    if a.len() > 0 && lex_before(a[0].0, id) {
        assert forall|i: int| 0 <= i < a.len() - 1 implies (#[trigger] a.drop_first()[i]).0
            == b.drop_first()[i].0 by {
            assert(a[i + 1].0 == b[i + 1].0);
        }
        rank_by_keys(a.drop_first(), b.drop_first(), id);
    }
    if rank(a, id) < a.len() {
        assert(a[rank(a, id)].0 == b[rank(a, id)].0);
    }
}

/// Entries with the same keys in the same places stand in the same order.
pub proof fn sorted_by_keys<V, W>(a: Entries<V>, b: Entries<W>)
    requires
        sorted(a),
        a.len() == b.len(),
        forall|i: int| 0 <= i < a.len() ==> (#[trigger] b[i]).0 == a[i].0,
    ensures
        sorted(b),
{
    assert forall|i: int, j: int| 0 <= i < j < b.len() implies lex_before(
        #[trigger] b[i].0,
        #[trigger] b[j].0,
    ) by {
        assert(b[i].0 == a[i].0 && b[j].0 == a[j].0);
    }
}

/// The map that holds the entries of a list, later ones in place of earlier ones.
pub open spec fn gathered<W>(list: Entries<W>) -> Entries<W>
    decreases list.len(),
{
    if list.len() == 0 {
        Seq::empty()
    } else {
        inserted(gathered(list.drop_last()), list.last().0, list.last().1)
    }
}

/// Gathering one more entry is inserting it.
pub proof fn gathered_step<W>(list: Entries<W>, i: int)
    requires
        0 <= i < list.len(),
    ensures
        gathered(list.subrange(0, i + 1)) == inserted(
            gathered(list.subrange(0, i)),
            list[i].0,
            list[i].1,
        ),
{
    assert(list.subrange(0, i + 1).drop_last() =~= list.subrange(0, i));
}

/// Entries that stand in order are the map they make up.
pub proof fn gathered_sorted<W>(list: Entries<W>)
    requires
        sorted(list),
    ensures
        gathered(list) == list,
    decreases list.len(),
{
    if list.len() > 0 {
        let front = list.drop_last();
        assert forall|i: int, j: int| 0 <= i < j < front.len() implies lex_before(
            #[trigger] front[i].0,
            #[trigger] front[j].0,
        ) by {
            assert(front[i] == list[i] && front[j] == list[j]);
        }
        gathered_sorted(front);
        if front.len() > 0 {
            assert(lex_before(list[list.len() - 2].0, list[list.len() - 1].0));
        }
        insert_at_end(front, list.last().0, list.last().1);
        assert(front.push(list.last()) =~= list);
    } else {
        assert(list =~= Seq::empty());
    }
}

/// What is gathered stands in order.
pub proof fn gathered_is_sorted<W>(list: Entries<W>)
    ensures
        sorted(gathered(list)),
    decreases list.len(),
{
    if list.len() > 0 {
        gathered_is_sorted(list.drop_last());
        insert_laws(gathered(list.drop_last()), list.last().0, list.last().1, list.last().0);
    }
}

/// The keys of pairs, each leading to nothing.
pub open spec fn keys_alone<K: Key, V>(pairs: Seq<(K, V)>) -> Entries<()> {
    pairs.map_values(|pair: (K, V)| (pair.0.id(), ()))
}

/// Whether pairs stand in the order of their keys, each key once.
pub fn keys_in_order<K: Key, V>(pairs: &Vec<(K, V)>) -> (result: bool)
    ensures
        result == sorted(keys_alone(pairs@)),
{
    let ghost keys = keys_alone(pairs@);
    let mut i: usize = 1;
    while i < pairs.len()
        invariant
            1 <= i,
            keys == keys_alone(pairs@),
            forall|a: int, b: int|
                0 <= a < b < i && b < keys.len() ==> lex_before(
                    #[trigger] keys[a].0,
                    #[trigger] keys[b].0,
                ),
        decreases pairs@.len() - i,
    {
        assert(keys[i - 1].0 == pairs@[i - 1].0.id());
        assert(keys[i as int].0 == pairs@[i as int].0.id());
        if !pairs[i - 1].0.precedes(&pairs[i].0) {
            return false;
        }
        assert forall|a: int| 0 <= a < i implies lex_before(
            #[trigger] keys[a].0,
            keys[i as int].0,
        ) by {
            if a < i - 1 {
                lex_is_total(keys[a].0, keys[i - 1].0, keys[i as int].0);
            }
        }
        i += 1;
    }
    true
}

/// A map whose entries stand in the order of their keys.
#[derive(Debug, PartialEq, Eq)]
pub struct OrderedMap<K: Key, V: View> {
    entries: Vec<(K, V)>,
}

impl<K: Key, V: View> View for OrderedMap<K, V> {
    type V = Entries<V::V>;

    closed spec fn view(&self) -> Entries<V::V> {
        self.entries@.map_values(|entry: (K, V)| (entry.0.id(), entry.1@))
    }
}

impl<K: Key, V: View> OrderedMap<K, V> {
    /// Whether the entries stand in order.
    pub open spec fn wf(&self) -> bool {
        sorted(self@)
    }

    /// The keys with their values, in order.
    pub closed spec fn pairs(&self) -> Seq<(K, V)> {
        self.entries@
    }

    /// The key of an entry.
    pub open spec fn spec_key(&self, i: int) -> K {
        self.pairs()[i].0
    }

    /// The value of an entry.
    pub open spec fn spec_value(&self, i: int) -> V {
        self.pairs()[i].1
    }

    /// The entries are the identified pairs.
    pub broadcast proof fn entries_are_pairs(&self)
        ensures
            #![trigger self.pairs()]
            self@ == self.pairs().map_values(|pair: (K, V)| (pair.0.id(), pair.1@)),
            self@.len() == self.pairs().len(),
    {
    }

    /// Whether the entries stand in order.
    pub fn in_order(&self) -> (result: bool)
        ensures
            result == self.wf(),
    {
        proof {
            let keys = keys_alone(self.entries@);
            if sorted(keys) {
                sorted_by_keys(keys, self@);
            }
            if sorted(self@) {
                sorted_by_keys(self@, keys);
            }
        }
        keys_in_order(&self.entries)
    }

    /// The entries can be counted.
    pub proof fn len_fits(&self)
        ensures
            self@.len() <= usize::MAX,
    {
        assert(self.entries.len() == self.entries@.len());
    }

    /// An empty map.
    pub fn new() -> (result: Self)
        ensures
            result@ == Seq::<(Seq<int>, V::V)>::empty(),
            result.pairs() == Seq::<(K, V)>::empty(),
            result.wf(),
    {
        let result = OrderedMap { entries: Vec::new() };
        assert(result@ =~= Seq::<(Seq<int>, V::V)>::empty());
        result
    }

    /// The number of entries.
    pub fn len(&self) -> (result: usize)
        ensures
            result == self@.len(),
    {
        self.entries.len()
    }

    /// The key of the entry at a place.
    pub fn key(&self, i: usize) -> (result: &K)
        requires
            i < self@.len(),
        ensures
            result.id() == self@[i as int].0,
            *result == self.spec_key(i as int),
    {
        &self.entries[i].0
    }

    /// The value of the entry at a place.
    pub fn at(&self, i: usize) -> (result: &V)
        requires
            i < self@.len(),
        ensures
            result@ == self@[i as int].1,
            *result == self.spec_value(i as int),
    {
        &self.entries[i].1
    }

    /// The place of a key: the first entry that does not come before it.
    pub fn place(&self, key: &K) -> (result: usize)
        requires
            self.wf(),
        ensures
            result == rank(self@, key.id()),
            result <= self@.len(),
    {
        let mut low: usize = 0;
        let mut high: usize = self.entries.len();
        while low < high
            invariant
                self.wf(),
                low <= high <= self.entries@.len(),
                self@.len() == self.entries@.len(),
                low > 0 ==> lex_before(self@[low - 1].0, key.id()),
                high < self@.len() ==> !lex_before(self@[high as int].0, key.id()),
            decreases high - low,
        {
            let middle: usize = low + (high - low) / 2;
            if self.entries[middle].0.precedes(key) {
                assert(lex_before(self@[middle as int].0, key.id()));
                low = middle + 1;
            } else {
                assert(!lex_before(self@[middle as int].0, key.id()));
                high = middle;
            }
        }
        proof {
            rank_is(self@, key.id(), low as int);
        }
        low
    }

    /// The place of the entry with a key, if there is one.
    pub fn find(&self, key: &K) -> (result: Option<usize>)
        requires
            self.wf(),
        ensures
            match result {
                Some(i) => holds(self@, key.id()) && i == rank(self@, key.id()) && i < self@.len(),
                None => !holds(self@, key.id()),
            },
    {
        let place: usize = self.place(key);
        if place < self.entries.len() {
            let ghost there = self@[place as int].0;
            proof {
                rank_splits(self@, key.id());
                lex_is_total(there, key.id(), key.id());
            }
            if !key.precedes(&self.entries[place].0) {
                return Some(place);
            }
        }
        None
    }

    /// What a key leads to.
    pub fn get(&self, key: &K) -> (result: Option<&V>)
        requires
            self.wf(),
        ensures
            match result {
                Some(value) => lookup(self@, key.id()) == Some(value@) && *value == self.spec_value(
                    rank(self@, key.id()),
                ),
                None => lookup(self@, key.id()) is None,
            },
    {
        match self.find(key) {
            Some(i) => Some(self.at(i)),
            None => None,
        }
    }

    /// Whether some entry has the key.
    pub fn contains(&self, key: &K) -> (result: bool)
        requires
            self.wf(),
        ensures
            result == holds(self@, key.id()),
    {
        self.find(key).is_some()
    }

    /// Makes a key lead to a value.
    pub fn insert(&mut self, key: K, value: V)
        requires
            old(self).wf(),
        ensures
            final(self)@ == inserted(old(self)@, key.id(), value@),
            final(self).pairs() == (if holds(old(self)@, key.id()) {
                old(self).pairs().update(rank(old(self)@, key.id()), (key, value))
            } else {
                old(self).pairs().insert(rank(old(self)@, key.id()), (key, value))
            }),
            final(self).wf(),
    {
        let ghost before = self@;
        proof {
            insert_laws(before, key.id(), value@, key.id());
            rank_bounds(before, key.id());
        }
        let place: usize = self.place(&key);
        match self.find(&key) {
            Some(i) => {
                self.entries[i] = (key, value);
                assert(self@ =~= inserted(before, key.id(), value@));
            },
            None => {
                self.entries.insert(place, (key, value));
                assert(self@ =~= inserted(before, key.id(), value@));
            },
        }
    }

    /// Replaces the value of the entry at a place.
    pub fn set_value(&mut self, i: usize, value: V)
        requires
            old(self).wf(),
            i < old(self)@.len(),
        ensures
            final(self)@ == old(self)@.update(i as int, (old(self)@[i as int].0, value@)),
            final(self).wf(),
    {
        let ghost before = self@;
        self.entries[i].1 = value;
        assert(self@ =~= before.update(i as int, (before[i as int].0, value@)));
        assert forall|a: int, b: int| 0 <= a < b < self@.len() implies lex_before(
            #[trigger] self@[a].0,
            #[trigger] self@[b].0,
        ) by {
            assert(self@[a].0 == before[a].0 && self@[b].0 == before[b].0);
        }
    }

    /// The value of the entry at a place, to be changed.
    pub fn value_mut(&mut self, i: usize) -> (result: &mut V)
        requires
            old(self).wf(),
            i < old(self)@.len(),
        ensures
            *result == old(self).spec_value(i as int),
            result@ == old(self)@[i as int].1,
            final(self)@ =~= old(self)@.update(i as int, (old(self)@[i as int].0, final(result)@)),
            final(self).pairs() =~= old(self).pairs().update(
                i as int,
                (old(self).pairs()[i as int].0, *final(result)),
            ),
            final(self).wf(),
    {
        let ghost before = self@;
        proof {
            assert forall|value: V::V| sorted(
                #[trigger] before.update(i as int, (before[i as int].0, value)),
            ) by {
                let after = before.update(i as int, (before[i as int].0, value));
                assert forall|a: int, b: int| 0 <= a < b < after.len() implies lex_before(
                    #[trigger] after[a].0,
                    #[trigger] after[b].0,
                ) by {
                    assert(after[a].0 == before[a].0 && after[b].0 == before[b].0);
                }
            }
        }
        let entry = &mut self.entries[i];
        let result = &mut entry.1;
        result
    }

    /// Takes out the entry at a place.
    pub fn remove_at(&mut self, i: usize) -> (result: (K, V))
        requires
            old(self).wf(),
            i < old(self)@.len(),
        ensures
            final(self)@ == old(self)@.remove(i as int),
            final(self).pairs() == old(self).pairs().remove(i as int),
            final(self).wf(),
            result.0.id() == old(self)@[i as int].0,
            result.1@ == old(self)@[i as int].1,
            result.1 == old(self).spec_value(i as int),
    {
        let ghost before = self@;
        let result = self.entries.remove(i);
        assert(self@ =~= before.remove(i as int));
        proof {
            lookup_entry(before, i as int);
            remove_laws(before, before[i as int].0, before[i as int].0);
        }
        result
    }

    /// Takes out what a key leads to.
    pub fn remove(&mut self, key: &K) -> (result: Option<V>)
        requires
            old(self).wf(),
        ensures
            final(self)@ == removed(old(self)@, key.id()),
            final(self).pairs() == (if holds(old(self)@, key.id()) {
                old(self).pairs().remove(rank(old(self)@, key.id()))
            } else {
                old(self).pairs()
            }),
            final(self).wf(),
            match result {
                Some(value) => lookup(old(self)@, key.id()) == Some(value@),
                None => lookup(old(self)@, key.id()) is None,
            },
    {
        match self.find(key) {
            Some(i) => {
                let (_, value) = self.remove_at(i);
                Some(value)
            },
            None => None,
        }
    }

    /// The values in the order of their keys.
    pub fn into_values(self) -> (result: Vec<V>)
        ensures
            result@.len() == self@.len(),
            forall|i: int|
                0 <= i < result@.len() ==> (#[trigger] result@[i])@ == self@[i].1 && result@[i]
                    == self.spec_value(i),
    {
        let ghost all = self.entries@;
        let mut remaining = self.entries;
        let mut backwards: Vec<V> = Vec::new();
        while remaining.len() > 0
            invariant
                remaining@.len() + backwards@.len() == all.len(),
                remaining@ == all.subrange(0, remaining@.len() as int),
                forall|j: int|
                    0 <= j < backwards@.len() ==> #[trigger] backwards@[j] == all[all.len() - 1
                        - j].1,
            decreases remaining@.len(),
        {
            if let Some((_, value)) = remaining.pop() {
                backwards.push(value);
                assert(remaining@ =~= all.subrange(0, remaining@.len() as int));
            }
        }
        let mut result: Vec<V> = Vec::new();
        while backwards.len() > 0
            invariant
                result@.len() + backwards@.len() == all.len(),
                forall|j: int|
                    0 <= j < backwards@.len() ==> #[trigger] backwards@[j] == all[all.len() - 1
                        - j].1,
                forall|j: int| 0 <= j < result@.len() ==> #[trigger] result@[j] == all[j].1,
            decreases backwards@.len(),
        {
            if let Some(value) = backwards.pop() {
                result.push(value);
            }
        }
        result
    }

}

/// A value that maps keep and give copies of.
pub trait Stored: View + Sized {
    /// Whether the value is one that can occur.
    spec fn sound(&self) -> bool;

    /// Whether the value is one that can occur.
    fn is_sound(&self) -> (result: bool)
        ensures
            result == self.sound(),
    ;

    /// A copy.
    fn replica(&self) -> (result: Self)
        requires
            self.sound(),
        ensures
            result@ == self@,
            result.sound(),
    ;
}

impl<K: Key + Copy, V: Stored> OrderedMap<K, V> {
    /// Whether the entries stand in order and every value is one that can occur.
    pub open spec fn sound(&self) -> bool {
        &&& self.wf()
        &&& forall|i: int|
            0 <= i < self.pairs().len() ==> (#[trigger] self.pairs()[i]).1.sound()
    }

    /// Whether the entries stand in order and every value is one that can occur.
    pub fn is_sound(&self) -> (result: bool)
        ensures
            result == self.sound(),
    {
        if !self.in_order() {
            return false;
        }
        let mut i: usize = 0;
        while i < self.entries.len()
            invariant
                i <= self.entries@.len(),
                forall|j: int| 0 <= j < i ==> (#[trigger] self.pairs()[j]).1.sound(),
            decreases self.entries@.len() - i,
        {
            if !self.entries[i].1.is_sound() {
                assert(!self.pairs()[i as int].1.sound());
                return false;
            }
            i += 1;
        }
        true
    }

    /// A copy.
    pub fn replica(&self) -> (result: Self)
        requires
            self.sound(),
        ensures
            result.sound(),
            result@ == self@,
    {
        let mut result: OrderedMap<K, V> = OrderedMap { entries: Vec::new() };
        let mut i: usize = 0;
        while i < self.entries.len()
            invariant
                self.sound(),
                i <= self.entries@.len(),
                result.entries@.len() == i,
                forall|j: int|
                    0 <= j < i ==> (#[trigger] result.entries@[j]).0 == self.entries@[j].0
                        && result.entries@[j].1@ == self.entries@[j].1@
                        && result.entries@[j].1.sound(),
            decreases self.entries@.len() - i,
        {
            assert(self.pairs()[i as int].1.sound());
            let value = self.entries[i].1.replica();
            result.entries.push((self.entries[i].0, value));
            i += 1;
        }
        assert(result@ =~= self@);
        result
    }

    /// The value of the entry at a place.
    pub fn kept(&self, i: usize) -> (result: &V)
        requires
            self.sound(),
            i < self@.len(),
        ensures
            result@ == self@[i as int].1,
            result.sound(),
    {
        assert(self.pairs()[i as int].1.sound());
        self.at(i)
    }

    /// What a key leads to.
    pub fn look(&self, key: &K) -> (result: Option<&V>)
        requires
            self.sound(),
        ensures
            match result {
                Some(value) => lookup(self@, key.id()) == Some(value@) && value.sound(),
                None => lookup(self@, key.id()) is None,
            },
    {
        match self.find(key) {
            Some(i) => Some(self.kept(i)),
            None => None,
        }
    }

    /// What a key leads to, to be changed.
    pub fn look_mut(&mut self, key: &K) -> (result: Option<&mut V>)
        requires
            old(self).sound(),
        ensures
            match result {
                Some(value) => {
                    &&& lookup(old(self)@, key.id()) == Some(value@)
                    &&& value.sound()
                    &&& final(self)@ == inserted(old(self)@, key.id(), final(value)@)
                    &&& final(value).sound() ==> final(self).sound()
                },
                None => lookup(old(self)@, key.id()) is None && *final(self) == *old(self),
            },
    {
        match self.find(key) {
            Some(i) => {
                assert(self.pairs()[i as int].1.sound());
                Some(self.value_mut(i))
            },
            None => None,
        }
    }

    /// Makes a key lead to a value.
    pub fn put(&mut self, key: K, value: V)
        requires
            old(self).sound(),
            value.sound(),
        ensures
            final(self).sound(),
            final(self)@ == inserted(old(self)@, key.id(), value@),
    {
        let ghost before = self.pairs();
        let ghost place = rank(self@, key.id());
        proof {
            rank_bounds(self@, key.id());
        }
        self.insert(key, value);
        assert forall|i: int| 0 <= i < self.pairs().len() implies (
        #[trigger] self.pairs()[i]).1.sound() by {
            if i < place {
                assert(self.pairs()[i] == before[i]);
            } else if i > place {
                assert(self.pairs()[i] == before[i] || self.pairs()[i] == before[i - 1]);
            }
        }
    }

    /// Takes out what a key leads to.
    pub fn take(&mut self, key: &K) -> (result: Option<V>)
        requires
            old(self).sound(),
        ensures
            final(self).sound(),
            final(self)@ == removed(old(self)@, key.id()),
            match result {
                Some(value) => lookup(old(self)@, key.id()) == Some(value@) && value.sound(),
                None => lookup(old(self)@, key.id()) is None,
            },
    {
        let ghost before = self.pairs();
        match self.find(key) {
            Some(place) => {
                assert(before[place as int].1.sound());
                let (_, value) = self.remove_at(place);
                assert forall|i: int| 0 <= i < self.pairs().len() implies (
                #[trigger] self.pairs()[i]).1.sound() by {
                    assert(self.pairs()[i] == before[i] || self.pairs()[i] == before[i + 1]);
                }
                Some(value)
            },
            None => None,
        }
    }
}

} // verus!
