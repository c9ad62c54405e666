//! Chunks: columns of sections of blocks.

use crate::model::block::{
    block_view, block_wf, coarse, coarse_of, fine, fine_of, BlockState, BlockView, ChunkPos,
};
use crate::ordered::{
    holds, insert_laws, inserted, lex_of_few, lookup, rank, rank_bounds, remove_laws, removed,
    sorted, Entries, Key, OrderedMap,
};
use vstd::prelude::*;

verus! {

/// The place of a block within its section, as one number of twelve bits.
#[derive(Clone, Copy, Debug, PartialEq, Eq, Structural, Hash)]
pub struct SectionBlockIndex {
    raw: u16,
}

/// The number of a place within a section.
pub open spec fn flat_index(x: int, y: int, z: int) -> int {
    y * 256 + z * 16 + x
}

impl View for SectionBlockIndex {
    type V = nat;

    closed spec fn view(&self) -> nat {
        self.raw as nat
    }
}

impl Key for SectionBlockIndex {
    open spec fn id(&self) -> Seq<int> {
        seq![self@ as int]
    }

    fn precedes(&self, other: &Self) -> (result: bool) {
        proof {
            lex_of_few(self@ as int, 0, 0, other@ as int, 0, 0);
        }
        self.raw < other.raw
    }
}

impl SectionBlockIndex {
    /// Whether the number has no more than twelve bits.
    pub open spec fn wf(&self) -> bool {
        self@ < 4096
    }

    /// The number of a place within a section.
    pub fn new(x: u8, y: u8, z: u8) -> (result: Self)
        requires
            x < 16,
            y < 16,
            z < 16,
        ensures
            result@ == flat_index(x as int, y as int, z as int),
            result.wf(),
    {
        let (a, b, c): (u16, u16, u16) = (x as u16, y as u16, z as u16);
        assert(a < 16 && b < 16 && c < 16 ==> (b << 8 | c << 4 | a) == b * 256 + c * 16 + a)
            by (bit_vector);
        SectionBlockIndex { raw: b << 8 | c << 4 | a }
    }

    /// The place whose number the lowest twelve bits spell.
    pub fn from_raw(raw: u16) -> (result: Self)
        ensures
            result@ == raw as nat % 4096,
            result.wf(),
    {
        assert(raw & 0x0fff == raw % 4096) by (bit_vector);
        SectionBlockIndex { raw: raw & 0x0fff }
    }

    /// The number itself.
    pub fn into_raw(self) -> (result: u16)
        ensures
            result as nat == self@,
    {
        self.raw
    }

    /// The place within the section.
    pub fn expand(self) -> (result: (u8, u8, u8))
        ensures
            result.0 as int == self@ as int % 16,
            result.1 as int == (self@ as int / 256) % 16,
            result.2 as int == (self@ as int / 16) % 16,
            result.0 < 16,
            result.1 < 16,
            result.2 < 16,
            self.wf() ==> flat_index(result.0 as int, result.1 as int, result.2 as int) == self@,
    {
        let raw: u16 = self.raw;
        assert(raw & 0x0f == raw % 16) by (bit_vector);
        assert((raw >> 4) & 0x0f == (raw / 16) % 16) by (bit_vector);
        assert((raw >> 8) & 0x0f == (raw / 256) % 16) by (bit_vector);
        let x: u8 = (raw & 0x0f) as u8;
        let z: u8 = ((raw >> 4) & 0x0f) as u8;
        let y: u8 = ((raw >> 8) & 0x0f) as u8;
        (x, y, z)
    }
}

/// The number of a place within a section.
pub fn flatten_block_index(x: u8, y: u8, z: u8) -> (result: SectionBlockIndex)
    requires
        x < 16,
        y < 16,
        z < 16,
    ensures
        result@ == flat_index(x as int, y as int, z as int),
        result.wf(),
{
    SectionBlockIndex::new(x, y, z)
}

/// The place whose number the lowest twelve bits spell.
pub fn expand_block_index(index: u16) -> (result: (u8, u8, u8))
    ensures
        result.0 < 16,
        result.1 < 16,
        result.2 < 16,
        flat_index(result.0 as int, result.1 as int, result.2 as int) == index as int % 4096,
{
    SectionBlockIndex::from_raw(index).expand()
}

/// Every place within a section has a number of its own.
pub proof fn flat_index_is_injective(a: int, b: int, c: int, x: int, y: int, z: int)
    requires
        0 <= a < 16,
        0 <= b < 16,
        0 <= c < 16,
        0 <= x < 16,
        0 <= y < 16,
        0 <= z < 16,
        flat_index(a, b, c) == flat_index(x, y, z),
    ensures
        a == x,
        b == y,
        c == z,
{
}

/// The height within its section.
pub fn section_local_y(y: i32) -> (result: u8)
    ensures
        result as int == fine(y as int),
        result < 16,
{
    fine_of(y)
}

/// The blocks of a cube of the world.
#[derive(Debug, PartialEq, Eq)]
pub struct ChunkSection {
    pub y: i32,
    pub blocks: OrderedMap<SectionBlockIndex, BlockState>,
}

/// What a section is.
pub struct SectionView {
    pub y: i32,
    pub blocks: Entries<BlockView>,
}

impl View for ChunkSection {
    type V = SectionView;

    open spec fn view(&self) -> SectionView {
        SectionView { y: self.y, blocks: self.blocks@ }
    }
}

impl SectionView {
    /// The block at a place of the section.
    pub open spec fn block(self, x: int, y: int, z: int) -> Option<BlockView> {
        lookup(self.blocks, seq![flat_index(x, y, z)])
    }

    /// The section with a block, or with none, at a place.
    pub open spec fn with_block(
        self,
        x: int,
        y: int,
        z: int,
        block: Option<BlockView>,
    ) -> SectionView {
        SectionView {
            blocks: match block {
                Some(block) => inserted(self.blocks, seq![flat_index(x, y, z)], block),
                None => removed(self.blocks, seq![flat_index(x, y, z)]),
            },
            ..self
        }
    }
}

impl ChunkSection {
    /// Whether the blocks stand in order, each at a place of the section.
    pub open spec fn wf(&self) -> bool {
        &&& self.blocks.wf()
        &&& forall|i: int|
            0 <= i < self.blocks.pairs().len() ==> (#[trigger] self.blocks.pairs()[i]).0.wf()
                && self.blocks.pairs()[i].1.wf()
    }

    /// The places with their blocks.
    pub open spec fn pairs(&self) -> Seq<(SectionBlockIndex, BlockState)> {
        self.blocks.pairs()
    }

    /// A section without blocks.
    pub fn new(y: i32) -> (result: Self)
        ensures
            result.wf(),
            result@ == (SectionView { y, blocks: Seq::empty() }),
            result.pairs() == Seq::<(SectionBlockIndex, BlockState)>::empty(),
    {
        ChunkSection { y, blocks: OrderedMap::new() }
    }

    /// The block at a place.
    pub fn get_block(&self, x: u8, y: u8, z: u8) -> (result: Option<&BlockState>)
        requires
            self.wf(),
            x < 16,
            y < 16,
            z < 16,
        ensures
            match result {
                Some(block) => self@.block(x as int, y as int, z as int) == Some(block@)
                    && block.wf(),
                None => self@.block(x as int, y as int, z as int) is None,
            },
    {
        let index = flatten_block_index(x, y, z);
        proof {
            rank_bounds(self.blocks@, index.id());
            self.blocks.entries_are_pairs();
        }
        self.blocks.get(&index)
    }

    /// Puts a block, or none, at a place.
    pub fn set_block(&mut self, x: u8, y: u8, z: u8, state: Option<BlockState>)
        requires
            old(self).wf(),
            block_wf(state),
            x < 16,
            y < 16,
            z < 16,
        ensures
            final(self).wf(),
            final(self)@ == old(self)@.with_block(x as int, y as int, z as int, block_view(state)),
    {
        let index = flatten_block_index(x, y, z);
        self.put(index, state);
    }

    /// Puts a block, or none, at the place with a number.
    pub fn put(&mut self, index: SectionBlockIndex, state: Option<BlockState>)
        requires
            old(self).wf(),
            block_wf(state),
            index.wf(),
        ensures
            final(self).wf(),
            final(self)@ == (SectionView {
                blocks: match state {
                    Some(block) => inserted(old(self)@.blocks, index.id(), block@),
                    None => removed(old(self)@.blocks, index.id()),
                },
                ..old(self)@
            }),
            state matches Some(block) ==> final(self).pairs() == (if holds(
                old(self)@.blocks,
                index.id(),
            ) {
                old(self).pairs().update(rank(old(self)@.blocks, index.id()), (index, block))
            } else {
                old(self).pairs().insert(rank(old(self)@.blocks, index.id()), (index, block))
            }),
    {
        let ghost before = self.blocks;
        proof {
            rank_bounds(before@, index.id());
            before.entries_are_pairs();
        }
        match state {
            Some(block) => {
                self.blocks.insert(index, block);
                proof {
                    let place = rank(before@, index.id());
                    assert forall|i: int| 0 <= i < self.blocks.pairs().len() implies (
                    #[trigger] self.blocks.pairs()[i]).0.wf() && self.blocks.pairs()[i].1.wf() by {
                        if i == place {
                        } else if holds(before@, index.id()) || i < place {
                            assert(self.blocks.pairs()[i] == before.pairs()[i]);
                        } else {
                            assert(self.blocks.pairs()[i] == before.pairs()[i - 1]);
                        }
                    }
                }
            },
            None => {
                self.blocks.remove(&index);
            },
        }
    }

    /// Whether the section has no blocks.
    pub fn is_empty(&self) -> (result: bool)
        ensures
            result == (self@.blocks.len() == 0),
    {
        self.blocks.len() == 0
    }

    /// How many blocks the section has.
    pub fn block_count(&self) -> (result: usize)
        ensures
            result == self@.blocks.len(),
            result == self.pairs().len(),
    {
        proof {
            self.blocks.entries_are_pairs();
        }
        self.blocks.len()
    }

    /// The place and the block with a given number in the order of places.
    pub fn block_at(&self, i: usize) -> (result: (SectionBlockIndex, &BlockState))
        requires
            i < self@.blocks.len(),
        ensures
            result.0 == self.pairs()[i as int].0,
            *result.1 == self.pairs()[i as int].1,
    {
        (*self.blocks.key(i), self.blocks.at(i))
    }

    /// The places with their blocks, in order.
    pub fn iter_blocks(&self) -> (result: Vec<(SectionBlockIndex, &BlockState)>)
        ensures
            result@.len() == self.pairs().len(),
            forall|i: int|
                0 <= i < result@.len() ==> (#[trigger] result@[i]).0 == self.pairs()[i].0
                    && *result@[i].1 == self.pairs()[i].1,
    {
        let mut result: Vec<(SectionBlockIndex, &BlockState)> = Vec::new();
        let mut i: usize = 0;
        proof {
            self.blocks.entries_are_pairs();
        }
        while i < self.blocks.len()
            invariant
                i <= self.blocks@.len(),
                self.blocks@.len() == self.pairs().len(),
                result@.len() == i,
                forall|j: int|
                    0 <= j < i ==> (#[trigger] result@[j]).0 == self.pairs()[j].0 && *result@[j].1
                        == self.pairs()[j].1,
            decreases self.blocks@.len() - i,
        {
            result.push(self.block_at(i));
            i += 1;
        }
        result
    }

    /// A copy of the section.
    pub fn duplicate(&self) -> (result: Self)
        requires
            self.wf(),
        ensures
            result.wf(),
            result@ == self@,
    {
        let mut result = ChunkSection::new(self.y);
        let mut i: usize = 0;
        proof {
            self.blocks.entries_are_pairs();
            assert(result@.blocks =~= self@.blocks.subrange(0, 0));
        }
        while i < self.blocks.len()
            invariant
                i <= self.blocks@.len(),
                self.wf(),
                self.blocks@.len() == self.blocks.pairs().len(),
                self@.blocks == self.blocks@,
                result.wf(),
                result@.y == self@.y,
                result@.blocks == self@.blocks.subrange(0, i as int),
            decreases self.blocks@.len() - i,
        {
            let index = *self.blocks.key(i);
            assert(self.blocks.pairs()[i as int].0.wf() && self.blocks.pairs()[i as int].1.wf());
            let block = self.blocks.at(i).duplicate();
            proof {
                let all = self.blocks@;
                let done = all.subrange(0, i as int);
                if i > 0 {
                    assert(done.last() == all[i - 1]);
                    assert(crate::ordered::lex_before(all[i - 1].0, all[i as int].0));
                }
                assert(sorted(done));
                crate::ordered::insert_at_end(done, index.id(), block@);
                assert(done.push(all[i as int]) =~= all.subrange(0, i + 1));
            }
            result.put(index, Some(block));
            i += 1;
        }
        assert(self@.blocks.subrange(0, self@.blocks.len() as int) =~= self@.blocks);
        result
    }
}

/// The sections over one square of the world.
#[derive(Debug, PartialEq, Eq)]
pub struct ChunkColumn {
    pub pos: ChunkPos,
    pub sections: OrderedMap<i32, ChunkSection>,
    pub biomes: Vec<u8>,
}

/// What a column is.
pub struct ColumnView {
    pub pos: ChunkPos,
    pub sections: Entries<SectionView>,
    pub biomes: Seq<u8>,
}

impl View for ChunkColumn {
    type V = ColumnView;

    open spec fn view(&self) -> ColumnView {
        ColumnView { pos: self.pos, sections: self.sections@, biomes: self.biomes@ }
    }
}

impl ColumnView {
    /// The block at a place of the column.
    pub open spec fn block(self, x: int, y: int, z: int) -> Option<BlockView> {
        match lookup(self.sections, seq![coarse(y)]) {
            Some(section) => section.block(x, fine(y), z),
            None => None,
        }
    }

    /// The section that a height lies in, or an empty one.
    pub open spec fn section_at(self, y: int) -> SectionView {
        match lookup(self.sections, seq![coarse(y)]) {
            Some(section) => section,
            None => SectionView { y: coarse(y) as i32, blocks: Seq::empty() },
        }
    }

    /// The column with a block, or with none, at a place. A section without blocks is left out.
    pub open spec fn with_block(
        self,
        x: int,
        y: int,
        z: int,
        block: Option<BlockView>,
    ) -> ColumnView {
        let key = seq![coarse(y)];
        let section = self.section_at(y).with_block(x, fine(y), z, block);
        ColumnView {
            sections: if section.blocks.len() == 0 {
                removed(self.sections, key)
            } else {
                inserted(self.sections, key, section)
            },
            ..self
        }
    }
}

impl ChunkColumn {
    /// Whether the sections stand in order.
    pub open spec fn wf(&self) -> bool {
        &&& self.sections.wf()
        &&& forall|i: int|
            0 <= i < self.sections.pairs().len() ==> (#[trigger] self.sections.pairs()[i]).1.wf()
    }

    /// A column without blocks and with the default biome everywhere.
    pub fn new(pos: ChunkPos) -> (result: Self)
        ensures
            result.wf(),
            result@ == (ColumnView {
                pos,
                sections: Seq::empty(),
                biomes: Seq::new(256, |i: int| 1u8),
            }),
    {
        let mut biomes: Vec<u8> = Vec::new();
        let mut i: usize = 0;
        while i < 256
            invariant
                i <= 256,
                biomes@.len() == i,
                forall|j: int| 0 <= j < i ==> #[trigger] biomes@[j] == 1u8,
            decreases 256 - i,
        {
            biomes.push(1);
            i += 1;
        }
        assert(biomes@ =~= Seq::new(256, |i: int| 1u8));
        ChunkColumn { pos, sections: OrderedMap::new(), biomes }
    }

    /// The block at a place.
    pub fn get_block(&self, x: u8, y: i32, z: u8) -> (result: Option<BlockState>)
        requires
            self.wf(),
            x < 16,
            z < 16,
        ensures
            block_wf(result),
            block_view(result) == self@.block(x as int, y as int, z as int),
    {
        let section_y: i32 = coarse_of(y);
        let local_y: u8 = section_local_y(y);
        proof {
            self.sections.entries_are_pairs();
            rank_bounds(self.sections@, section_y.id());
        }
        match self.sections.get(&section_y) {
            None => None,
            Some(section) => match section.get_block(x, local_y, z) {
                Some(block) => Some(block.duplicate()),
                None => None,
            },
        }
    }

    /// Puts a block, or none, at a place.
    pub fn set_block(&mut self, x: u8, y: i32, z: u8, state: Option<BlockState>)
        requires
            old(self).wf(),
            block_wf(state),
            x < 16,
            z < 16,
        ensures
            final(self).wf(),
            final(self)@ == old(self)@.with_block(x as int, y as int, z as int, block_view(state)),
    {
        let section_y: i32 = coarse_of(y);
        let local_y: u8 = section_local_y(y);
        let ghost before = *self;
        let ghost key = seq![coarse(y as int)];
        proof {
            before.sections.entries_are_pairs();
            rank_bounds(before.sections@, key);
        }
        match self.sections.find(&section_y) {
            Some(place) => {
                let (_, mut section) = self.sections.remove_at(place);
                assert(before.sections.pairs()[place as int].1 == section);
                proof {
                    self.sections.entries_are_pairs();
                    remove_laws(before.sections@, key, key);
                    self.kept_after_removal(&before, place as int);
                }
                section.set_block(x, local_y, z, state);
                if !section.is_empty() {
                    let ghost changed = section@;
                    let ghost middle = *self;
                    proof {
                        reinserted(before.sections@, key, changed);
                        rank_bounds(middle.sections@, key);
                    }
                    self.sections.insert(section_y, section);
                    proof {
                        self.sections.entries_are_pairs();
                        self.kept_after_insertion(&middle, rank(middle.sections@, key));
                    }
                }
            },
            None => {
                let mut section = ChunkSection::new(section_y);
                section.set_block(x, local_y, z, state);
                proof {
                    let index = flat_index(x as int, fine(y as int), z as int);
                    rank_bounds(Seq::<(Seq<int>, BlockView)>::empty(), seq![index]);
                }
                if !section.is_empty() {
                    self.sections.insert(section_y, section);
                    proof {
                        self.sections.entries_are_pairs();
                        self.kept_after_insertion(&before, rank(before.sections@, key));
                    }
                }
            },
        }
    }

    proof fn kept_after_removal(&self, before: &ChunkColumn, place: int)
        requires
            before.wf(),
            0 <= place < before.sections@.len(),
            self.sections.wf(),
            self.sections.pairs() == before.sections.pairs().remove(place),
            before.sections.pairs().len() == before.sections@.len(),
        ensures
            self.wf(),
    {
        assert forall|i: int| 0 <= i < self.sections.pairs().len() implies (
        #[trigger] self.sections.pairs()[i]).1.wf() by {
            if i < place {
                assert(self.sections.pairs()[i] == before.sections.pairs()[i]);
            } else {
                assert(self.sections.pairs()[i] == before.sections.pairs()[i + 1]);
            }
        }
    }

    proof fn kept_after_insertion(&self, before: &ChunkColumn, place: int)
        requires
            before.wf(),
            0 <= place <= before.sections.pairs().len(),
            self.sections.wf(),
            self.sections.pairs().len() == before.sections.pairs().len() + 1,
            self.sections.pairs() == before.sections.pairs().insert(
                place,
                self.sections.pairs()[place],
            ),
            self.sections.pairs()[place].1.wf(),
        ensures
            self.wf(),
    {
        assert forall|i: int| 0 <= i < self.sections.pairs().len() implies (
        #[trigger] self.sections.pairs()[i]).1.wf() by {
            if i < place {
                assert(self.sections.pairs()[i] == before.sections.pairs()[i]);
            } else if i > place {
                assert(self.sections.pairs()[i] == before.sections.pairs()[i - 1]);
            }
        }
    }
}

/// Taking an entry out and putting another in under the same key replaces it.
proof fn reinserted<W>(s: Entries<W>, id: Seq<int>, value: W)
    requires
        sorted(s),
        holds(s, id),
    ensures
        inserted(removed(s, id), id, value) == inserted(s, id, value),
{
    let t = removed(s, id);
    let place = rank(s, id);
    rank_bounds(s, id);
    remove_laws(s, id, id);
    crate::ordered::rank_splits(s, id);
    if place > 0 {
        assert(t[place - 1] == s[place - 1]);
    }
    if place < t.len() {
        assert(t[place] == s[place + 1]);
        crate::ordered::lex_is_total(s[place].0, s[place + 1].0, id);
    }
    crate::ordered::rank_is(t, id, place);
    assert(inserted(t, id, value) =~= inserted(s, id, value));
}

/// Chunks that came into view and chunks that left it.
#[derive(Debug, PartialEq, Eq)]
pub struct ChunkDelta {
    pub added: Vec<ChunkPos>,
    pub removed: Vec<ChunkPos>,
}

/// A block that was put at a place is found there, and no other place is affected.
pub proof fn get_after_set(
    column: ColumnView,
    x: int,
    y: int,
    z: int,
    block: Option<BlockView>,
    a: int,
    b: int,
    c: int,
)
    requires
        sorted(column.sections),
        forall|i: int|
            0 <= i < column.sections.len() ==> sorted((#[trigger] column.sections[i]).1.blocks),
        0 <= x < 16,
        0 <= z < 16,
        0 <= a < 16,
        0 <= c < 16,
    ensures
        column.with_block(x, y, z, block).block(a, b, c) == if (a, b, c) == (x, y, z) {
            block
        } else {
            column.block(a, b, c)
        },
{
    let key = seq![coarse(y)];
    let other = seq![coarse(b)];
    let old_section = column.section_at(y);
    let section = old_section.with_block(x, fine(y), z, block);
    rank_bounds(column.sections, key);
    rank_bounds(column.sections, other);
    assert(sorted(old_section.blocks));
    insert_laws(column.sections, key, section, key);
    insert_laws(column.sections, key, section, other);
    remove_laws(column.sections, key, other);
    let at = seq![flat_index(x, fine(y), z)];
    let to = seq![flat_index(a, fine(b), c)];
    if let Some(new_block) = block {
        insert_laws(old_section.blocks, at, new_block, to);
        insert_laws(old_section.blocks, at, new_block, at);
    }
    remove_laws(old_section.blocks, at, to);
    rank_bounds(section.blocks, to);
    rank_bounds(old_section.blocks, to);
    if coarse(b) == coarse(y) {
        assert(other == key);
        if at == to {
            assert(at[0] == to[0]);
            flat_index_is_injective(x, fine(y), z, a, fine(b), c);
        } else if (a, b, c) == (x, y, z) {
            assert(at == to);
        }
    } else {
        assert(other[0] != key[0]);
    }
}

/// Whether every section of a column is under its own height.
pub open spec fn heights_agree(column: ColumnView) -> bool {
    forall|i: int|
        0 <= i < column.sections.len() ==> (#[trigger] column.sections[i]).0
            == seq![column.sections[i].1.y as int]
}

/// Putting a block at a place leaves every section under its own height.
pub proof fn heights_agree_after_set(
    column: ColumnView,
    x: int,
    y: i32,
    z: int,
    block: Option<BlockView>,
)
    requires
        heights_agree(column),
    ensures
        heights_agree(column.with_block(x, y as int, z, block)),
{
    let key = seq![coarse(y as int)];
    let after = column.with_block(x, y as int, z, block);
    rank_bounds(column.sections, key);
    let place = rank(column.sections, key);
    assert(column.section_at(y as int).y == coarse(y as int)) by {
        if holds(column.sections, key) {
            assert(column.sections[place].0[0] == key[0]);
        }
    }
    assert forall|i: int| 0 <= i < after.sections.len() implies (#[trigger] after.sections[i]).0
        == seq![after.sections[i].1.y as int] by {
        if i < place {
            assert(after.sections[i] == column.sections[i]);
        }
    }
}

} // verus!
