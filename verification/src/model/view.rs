//! Which chunks a client sees.

use crate::lists::{picked, picked_ends, picked_step};
use crate::model::block::{chunk_identity, chunk_of, ChunkPos};
use crate::model::chunk::ChunkDelta;
use crate::ordered::{
    holds, insert_at_end, lex_before, lex_is_total, lex_of_few, lookup_entry, rank, rank_bounds,
    sorted, Entries, Key, OrderedMap, Stored,
};
use vstd::prelude::*;

verus! {

/// That something is there.
#[derive(Clone, Copy, Debug, PartialEq, Eq, Structural)]
pub struct Mark;

impl View for Mark {
    type V = ();

    open spec fn view(&self) -> () {
        ()
    }
}

impl Stored for Mark {
    open spec fn sound(&self) -> bool {
        true
    }

    fn is_sound(&self) -> (result: bool) {
        true
    }

    fn replica(&self) -> (result: Self) {
        Mark
    }
}

/// A set of chunks, in order.
pub type ChunkSet = OrderedMap<ChunkPos, Mark>;

/// Whether a chunk lies in the square around another.
pub open spec fn in_square(center: ChunkPos, radius: int, pos: ChunkPos) -> bool {
    &&& center.x - radius <= pos.x <= center.x + radius
    &&& center.z - radius <= pos.z <= center.z + radius
}

/// Whether the square around a chunk lies in the world.
pub open spec fn square_exists(center: ChunkPos, radius: int) -> bool {
    &&& i32::MIN <= center.x - radius
    &&& center.x + radius <= i32::MAX
    &&& i32::MIN <= center.z - radius
    &&& center.z + radius <= i32::MAX
}

/// Whether a set holds exactly the chunks of a square.
pub open spec fn is_square(set: Entries<()>, center: ChunkPos, radius: int) -> bool {
    &&& sorted(set)
    &&& forall|pos: ChunkPos| #[trigger] holds(set, pos.id()) <==> in_square(center, radius, pos)
}

/// The chunks of a square, in order.
pub open spec fn square(center: ChunkPos, radius: int) -> Entries<()> {
    let width = 2 * radius + 1;
    Seq::new(
        (width * width) as nat,
        |k: int| (seq![center.x - radius + k / width, center.z - radius + k % width], ()),
    )
}

proof fn next_in_square(k: int, width: int)
    requires
        0 <= k < width * width,
        width > 0,
    ensures
        0 <= k / width < width,
        0 <= k % width < width,
        k % width == width - 1 ==> (k + 1) / width == k / width + 1 && (k + 1) % width == 0,
        k % width < width - 1 ==> (k + 1) / width == k / width && (k + 1) % width == k % width + 1,
{
    let q = k / width;
    let r = k % width;
    vstd::arithmetic::div_mod::lemma_fundamental_div_mod(k, width);
    vstd::arithmetic::div_mod::lemma_mod_bound(k, width);
    assert(0 <= q < width) by (nonlinear_arith)
        requires
            k == width * q + r,
            0 <= r < width,
            0 <= k < width * width,
    ;
    if r == width - 1 {
        assert(k + 1 == (q + 1) * width + 0) by (nonlinear_arith)
            requires
                k == width * q + r,
                r == width - 1,
        ;
        vstd::arithmetic::div_mod::lemma_fundamental_div_mod_converse(k + 1, width, q + 1, 0);
    } else {
        assert(k + 1 == q * width + (r + 1)) by (nonlinear_arith)
            requires
                k == width * q + r,
        ;
        vstd::arithmetic::div_mod::lemma_fundamental_div_mod_converse(k + 1, width, q, r + 1);
    }
}

/// The chunks of a square stand in order.
proof fn square_in_order(center: ChunkPos, radius: int, k: int)
    requires
        radius >= 0,
        1 <= k < (2 * radius + 1) * (2 * radius + 1),
    ensures
        lex_before(square(center, radius)[k - 1].0, square(center, radius)[k].0),
{
    let width = 2 * radius + 1;
    next_in_square(k - 1, width);
    lex_of_few(
        center.x - radius + (k - 1) / width,
        center.z - radius + (k - 1) % width,
        0,
        center.x - radius + k / width,
        center.z - radius + k % width,
        0,
    );
}

proof fn square_climbs(center: ChunkPos, radius: int, i: int, j: int)
    requires
        radius >= 0,
        0 <= i < j < (2 * radius + 1) * (2 * radius + 1),
    ensures
        lex_before(square(center, radius)[i].0, square(center, radius)[j].0),
    decreases j - i,
{
    let set = square(center, radius);
    square_in_order(center, radius, j);
    if i < j - 1 {
        square_climbs(center, radius, i, j - 1);
        lex_is_total(set[i].0, set[j - 1].0, set[j].0);
    }
}

/// The chunks of a square are exactly those that lie in it, each once and in order.
pub proof fn square_is_exact(center: ChunkPos, radius: int)
    requires
        radius >= 0,
        square_exists(center, radius),
    ensures
        is_square(square(center, radius), center, radius),
        of_chunks(square(center, radius)),
{
    let set = square(center, radius);
    let width = 2 * radius + 1;
    assert(width * width == (2 * radius + 1) * (2 * radius + 1));
    assert forall|i: int, j: int| 0 <= i < j < set.len() implies lex_before(
        #[trigger] set[i].0,
        #[trigger] set[j].0,
    ) by {
        square_climbs(center, radius, i, j);
    }
    square_is_square(center, radius);
    assert forall|i: int| 0 <= i < set.len() implies chunk_of((#[trigger] set[i]).0).id()
        == set[i].0 by {
        next_in_square(i, width);
        assert(chunk_of(set[i].0).id() =~= set[i].0);
    }
}

/// The chunks of a square are those that lie in it.
pub proof fn square_is_square(center: ChunkPos, radius: int)
    requires
        radius >= 0,
        square_exists(center, radius),
        sorted(square(center, radius)),
    ensures
        is_square(square(center, radius), center, radius),
{
    let set = square(center, radius);
    let width = 2 * radius + 1;
    assert forall|pos: ChunkPos| #[trigger] holds(set, pos.id()) <==> in_square(
        center,
        radius,
        pos,
    ) by {
        rank_bounds(set, pos.id());
        if holds(set, pos.id()) {
            let k = rank(set, pos.id());
            next_in_square(k, width);
            assert(set[k].0 == pos.id());
            assert(pos.id()[0] == pos.x && pos.id()[1] == pos.z);
        }
        if in_square(center, radius, pos) {
            let q = pos.x - (center.x - radius);
            let r = pos.z - (center.z - radius);
            let k = q * width + r;
            assert(0 <= k < width * width) by (nonlinear_arith)
                requires
                    k == q * width + r,
                    0 <= q < width,
                    0 <= r < width,
            ;
            vstd::arithmetic::div_mod::lemma_fundamental_div_mod_converse(k, width, q, r);
            assert(set[k].0 =~= pos.id());
            lookup_entry(set, k);
        }
    }
}

/// The chunks of the square around a chunk.
pub fn required_chunks(center: ChunkPos, view_distance: u8) -> (result: ChunkSet)
    requires
        square_exists(center, view_distance as int),
    ensures
        result.wf(),
        result@ == square(center, view_distance as int),
        is_square(result@, center, view_distance as int),
{
    let radius: i64 = view_distance as i64;
    let width: i64 = 2 * radius + 1;
    let ghost all = square(center, radius as int);
    let mut chunks: ChunkSet = OrderedMap::new();
    let mut x: i64 = center.x as i64 - radius;
    let mut z: i64 = center.z as i64 - radius;
    let mut k: i64 = 0;
    assert(width * width <= 511 * 511) by (nonlinear_arith)
        requires
            0 <= width <= 511,
    ;
    let count: i64 = width * width;
    proof {
        assert(chunks@ =~= all.subrange(0, 0));
        assert(0int / (width as int) == 0 && 0int % (width as int) == 0);
    }
    while k < count
        invariant
            square_exists(center, view_distance as int),
            radius == view_distance,
            width == 2 * radius + 1,
            count == width * width,
            all == square(center, radius as int),
            0 <= k <= count,
            x == center.x - radius + k as int / width as int,
            z == center.z - radius + k as int % width as int,
            chunks.wf(),
            chunks@ == all.subrange(0, k as int),
        decreases count - k,
    {
        proof {
            next_in_square(k as int, width as int);
        }
        let pos = ChunkPos::new(x as i32, z as i32);
        proof {
            let done = all.subrange(0, k as int);
            if k > 0 {
                square_in_order(center, radius as int, k as int);
                assert(done.last() == all[k - 1]);
            }
            assert(pos.id() =~= all[k as int].0);
            insert_at_end(done, pos.id(), ());
            assert(done.push((pos.id(), ())) =~= all.subrange(0, k + 1));
        }
        chunks.insert(pos, Mark);
        if z == center.z as i64 + radius {
            x += 1;
            z = center.z as i64 - radius;
        } else {
            z += 1;
        }
        k += 1;
    }
    proof {
        assert(all.subrange(0, count as int) =~= all);
        square_is_square(center, radius as int);
    }
    chunks
}

/// The chunks of one set that are not in another, in order.
pub open spec fn difference(a: Entries<()>, b: Entries<()>) -> Seq<ChunkPos> {
    picked(
        a,
        |entry: (Seq<int>, ())|
            if holds(b, entry.0) {
                None
            } else {
                Some(chunk_of(entry.0))
            },
    )
}

/// Whether a list names, in order, the chunks of one set that are not in another.
pub open spec fn is_difference(list: Seq<ChunkPos>, a: Entries<()>, b: Entries<()>) -> bool {
    &&& forall|i: int, j: int|
        0 <= i < j < list.len() ==> lex_before((#[trigger] list[i]).id(), (#[trigger] list[j]).id())
    &&& forall|pos: ChunkPos| #[trigger]
        list.contains(pos) <==> (holds(a, pos.id()) && !holds(b, pos.id()))
}

/// Whether every identity in a set is one of a chunk.
pub open spec fn of_chunks(set: Entries<()>) -> bool {
    forall|i: int| 0 <= i < set.len() ==> chunk_of((#[trigger] set[i]).0).id() == set[i].0
}

spec fn leave_out(b: Entries<()>) -> spec_fn((Seq<int>, ())) -> Option<ChunkPos> {
    |entry: (Seq<int>, ())|
        if holds(b, entry.0) {
            None
        } else {
            Some(chunk_of(entry.0))
        }
}

spec fn comes_from(list: Seq<ChunkPos>, p: int, a: Entries<()>, n: int) -> bool {
    exists|k: int| 0 <= k < n && list[p].id() == (#[trigger] a[k]).0
}

spec fn is_listed(list: Seq<ChunkPos>, id: Seq<int>) -> bool {
    exists|p: int| 0 <= p < list.len() && (#[trigger] list[p]).id() == id
}

proof fn difference_of_first(a: Entries<()>, b: Entries<()>, n: int)
    requires
        sorted(a),
        of_chunks(a),
        0 <= n <= a.len(),
    ensures
        ({
            let list = picked(a.subrange(0, n), leave_out(b));
            &&& forall|i: int, j: int|
                0 <= i < j < list.len() ==> lex_before(
                    (#[trigger] list[i]).id(),
                    (#[trigger] list[j]).id(),
                )
            &&& forall|p: int|
                0 <= p < list.len() ==> comes_from(list, p, a, n) && !holds(
                    b,
                    (#[trigger] list[p]).id(),
                )
            &&& forall|k: int|
                0 <= k < n && !holds(b, (#[trigger] a[k]).0) ==> is_listed(list, a[k].0)
        }),
    decreases n,
{
    let list = picked(a.subrange(0, n), leave_out(b));
    if n > 0 {
        difference_of_first(a, b, n - 1);
        let before = picked(a.subrange(0, n - 1), leave_out(b));
        picked_step(a, n - 1, leave_out(b));
        let id = a[n - 1].0;
        assert(chunk_of(id).id() == id);
        if holds(b, id) {
            assert(list =~= before);
        } else {
            assert(list =~= before.push(chunk_of(id)));
            assert(list[before.len() as int].id() == id);
        }
        assert forall|p: int| 0 <= p < list.len() implies comes_from(list, p, a, n) && !holds(
            b,
            (#[trigger] list[p]).id(),
        ) by {
            if p < before.len() {
                assert(list[p] == before[p]);
                assert(comes_from(before, p, a, n - 1));
                let k = choose|k: int| 0 <= k < n - 1 && before[p].id() == (#[trigger] a[k]).0;
                assert(list[p].id() == a[k].0);
            } else {
                assert(list[p].id() == a[n - 1].0);
            }
        }
        assert forall|i: int, j: int| 0 <= i < j < list.len() implies lex_before(
            (#[trigger] list[i]).id(),
            (#[trigger] list[j]).id(),
        ) by {
            assert(list[i] == before[i]);
            if j < before.len() {
                assert(list[j] == before[j]);
            } else {
                assert(comes_from(before, i, a, n - 1));
                let k = choose|k: int| 0 <= k < n - 1 && before[i].id() == (#[trigger] a[k]).0;
                assert(lex_before(a[k].0, a[n - 1].0));
            }
        }
        assert forall|k: int| 0 <= k < n && !holds(b, (#[trigger] a[k]).0) implies is_listed(
            list,
            a[k].0,
        ) by {
            if k < n - 1 {
                assert(is_listed(before, a[k].0));
                let p = choose|p: int|
                    0 <= p < before.len() && (#[trigger] before[p]).id() == a[k].0;
                assert(list[p].id() == a[k].0);
            } else {
                assert(list[before.len() as int].id() == a[k].0);
            }
        }
    } else {
        picked_ends(a, leave_out(b));
    }
}

pub proof fn difference_is_exact(a: Entries<()>, b: Entries<()>)
    requires
        sorted(a),
        of_chunks(a),
    ensures
        is_difference(difference(a, b), a, b),
{
    let list = picked(a.subrange(0, a.len() as int), leave_out(b));
    difference_of_first(a, b, a.len() as int);
    picked_ends(a, leave_out(b));
    assert(list == difference(a, b));
    assert forall|pos: ChunkPos| #[trigger]
        list.contains(pos) <==> (holds(a, pos.id()) && !holds(b, pos.id())) by {
        rank_bounds(a, pos.id());
        if list.contains(pos) {
            let p = choose|p: int| 0 <= p < list.len() && list[p] == pos;
            assert(list[p] == pos);
            assert(comes_from(list, p, a, a.len() as int));
            let k = choose|k: int| 0 <= k < a.len() && list[p].id() == (#[trigger] a[k]).0;
            lookup_entry(a, k);
        }
        if holds(a, pos.id()) && !holds(b, pos.id()) {
            let k = rank(a, pos.id());
            assert(a[k].0 == pos.id());
            assert(is_listed(list, a[k].0));
            let p = choose|p: int| 0 <= p < list.len() && (#[trigger] list[p]).id() == a[k].0;
            chunk_identity(list[p], pos);
        }
    }
}

/// The chunks of one set that are not in another, in order.
pub fn chunk_difference(a: &ChunkSet, b: &ChunkSet) -> (result: Vec<ChunkPos>)
    requires
        a.wf(),
        b.wf(),
    ensures
        result@ == difference(a@, b@),
        is_difference(result@, a@, b@),
{
    let mut result: Vec<ChunkPos> = Vec::new();
    let mut i: usize = 0;
    proof {
        picked_ends(a@, leave_out(b@));
    }
    while i < a.len()
        invariant
            i <= a@.len(),
            a.wf(),
            b.wf(),
            result@ == picked(a@.subrange(0, i as int), leave_out(b@)),
        decreases a@.len() - i,
    {
        let pos = *a.key(i);
        let ghost before = result@;
        proof {
            picked_step(a@, i as int, leave_out(b@));
            assert(chunk_of(pos.id()) == pos);
        }
        if !b.contains(&pos) {
            result.push(pos);
            assert(result@ =~= before + seq![pos]);
        } else {
            assert(before + Seq::<ChunkPos>::empty() =~= before);
        }
        i += 1;
    }
    proof {
        picked_ends(a@, leave_out(b@));
        assert(difference(a@, b@) == picked(a@, leave_out(b@)));
        a.entries_are_pairs();
        assert forall|k: int| 0 <= k < a@.len() implies chunk_of((#[trigger] a@[k]).0).id()
            == a@[k].0 by {
            let key = a.pairs()[k].0;
            assert(a@[k].0 == key.id());
            assert(chunk_of(key.id()) == key);
        }
        difference_is_exact(a@, b@);
    }
    result
}

/// What a client sees: the square of chunks around one.
#[derive(Debug, PartialEq, Eq)]
pub struct ClientView {
    pub center: ChunkPos,
    pub view_distance: u8,
    pub loaded_chunks: ChunkSet,
}

/// What a client sees.
pub struct Sight {
    pub center: ChunkPos,
    pub view_distance: u8,
    pub loaded: Entries<()>,
}

impl Sight {
    /// Whether the client sees a chunk.
    pub open spec fn sees(self, pos: ChunkPos) -> bool {
        holds(self.loaded, pos.id())
    }
}

/// What a client sees from the middle of its square.
pub open spec fn sight(center: ChunkPos, view_distance: u8) -> Sight {
    Sight { center, view_distance, loaded: square(center, view_distance as int) }
}

impl View for ClientView {
    type V = Sight;

    open spec fn view(&self) -> Sight {
        Sight {
            center: self.center,
            view_distance: self.view_distance,
            loaded: self.loaded_chunks@,
        }
    }
}

impl ClientView {
    /// Whether the loaded chunks stand in order.
    pub open spec fn wf(&self) -> bool {
        self.loaded_chunks.wf()
    }

    /// A client at a chunk.
    pub fn new(center: ChunkPos, view_distance: u8) -> (result: Self)
        requires
            square_exists(center, view_distance as int),
        ensures
            result.wf(),
            result@ == sight(center, view_distance),
            is_square(result@.loaded, center, view_distance as int),
    {
        let loaded_chunks = required_chunks(center, view_distance);
        ClientView { center, view_distance, loaded_chunks }
    }

    /// Whether the client sees a chunk.
    pub fn sees(&self, pos: ChunkPos) -> (result: bool)
        requires
            self.wf(),
        ensures
            result == self@.sees(pos),
    {
        self.loaded_chunks.contains(&pos)
    }

    /// Moves the client, and tells what came into view and what left it.
    pub fn retarget(&mut self, center: ChunkPos, view_distance: u8) -> (result: ChunkDelta)
        requires
            old(self).wf(),
            square_exists(center, view_distance as int),
        ensures
            final(self).wf(),
            final(self)@ == sight(center, view_distance),
            is_square(final(self)@.loaded, center, view_distance as int),
            result.added@ == difference(final(self)@.loaded, old(self)@.loaded),
            result.removed@ == difference(old(self)@.loaded, final(self)@.loaded),
            is_difference(result.added@, final(self)@.loaded, old(self)@.loaded),
            is_difference(result.removed@, old(self)@.loaded, final(self)@.loaded),
    {
        let next_loaded = required_chunks(center, view_distance);
        let added = chunk_difference(&next_loaded, &self.loaded_chunks);
        let removed = chunk_difference(&self.loaded_chunks, &next_loaded);
        self.center = center;
        self.view_distance = view_distance;
        self.loaded_chunks = next_loaded;
        ChunkDelta { added, removed }
    }

    /// A copy.
    pub fn duplicate(&self) -> (result: Self)
        requires
            self.wf(),
        ensures
            result.wf(),
            result@ == self@,
    {
        ClientView {
            center: self.center,
            view_distance: self.view_distance,
            loaded_chunks: self.loaded_chunks.replica(),
        }
    }
}

/// What a move brings into view and what it takes out of view never overlap, and after it the
/// client sees exactly what it saw, without what left and with what came.
pub proof fn retarget_is_exact(
    before: Entries<()>,
    after: Entries<()>,
    added: Seq<ChunkPos>,
    removed: Seq<ChunkPos>,
    pos: ChunkPos,
)
    requires
        is_difference(added, after, before),
        is_difference(removed, before, after),
    ensures
        !(added.contains(pos) && removed.contains(pos)),
        holds(after, pos.id()) == ((holds(before, pos.id()) && !removed.contains(pos))
            || added.contains(pos)),
{
}

} // verus!
