//! Chunks that clients come to see.

use crate::game::content::ContentBehavior;
use crate::game::state::{with_block_at, with_chunk_kept, CoreView, ServerCore};
use crate::model::block::{chunk_identity, coarse, fine, BlockPos, BlockView, ChunkPos};
use crate::model::chunk::{get_after_set, ChunkColumn, ColumnView};
use crate::model::event_view::column_views;
use crate::ordered::{insert_laws, sorted, Key, Stored};
use vstd::prelude::*;

verus! {

/// A game that keeps the chunks at some places.
pub open spec fn with_chunks_kept<B: ContentBehavior>(
    core: CoreView,
    behavior: B,
    places: Seq<ChunkPos>,
) -> CoreView
    decreases places.len(),
{
    if places.len() == 0 {
        core
    } else {
        with_chunk_kept(
            with_chunks_kept(core, behavior, places.drop_last()),
            behavior,
            places.last(),
        )
    }
}

/// The chunks at some places.
pub open spec fn chunks_at<B: ContentBehavior>(
    core: CoreView,
    behavior: B,
    places: Seq<ChunkPos>,
) -> Seq<ColumnView> {
    places.map_values(|pos: ChunkPos| core.chunk(behavior, pos))
}

/// Keeping a chunk does not change what any chunk is.
pub proof fn keeping_changes_no_chunk<B: ContentBehavior>(
    core: CoreView,
    behavior: B,
    kept: ChunkPos,
    pos: ChunkPos,
)
    requires
        sorted(core.world.chunks),
    ensures
        with_chunk_kept(core, behavior, kept).chunk(behavior, pos) == core.chunk(behavior, pos),
        sorted(with_chunk_kept(core, behavior, kept).world.chunks),
{
    insert_laws(core.world.chunks, kept.id(), core.chunk(behavior, kept), pos.id());
    if pos.id() == kept.id() {
        chunk_identity(pos, kept);
    }
}

/// Keeping chunks does not change what any chunk is.
pub proof fn keeping_many_changes_no_chunk<B: ContentBehavior>(
    core: CoreView,
    behavior: B,
    places: Seq<ChunkPos>,
    pos: ChunkPos,
)
    requires
        sorted(core.world.chunks),
    ensures
        with_chunks_kept(core, behavior, places).chunk(behavior, pos) == core.chunk(behavior, pos),
        sorted(with_chunks_kept(core, behavior, places).world.chunks),
    decreases places.len(),
{
    if places.len() > 0 {
        keeping_many_changes_no_chunk(core, behavior, places.drop_last(), pos);
        keeping_changes_no_chunk(
            with_chunks_kept(core, behavior, places.drop_last()),
            behavior,
            places.last(),
            pos,
        );
    }
}

impl ServerCore {
    /// Keeps the chunks at some places and gives copies of them.
    pub fn keep_chunks<B: ContentBehavior>(
        &mut self,
        content_behavior: &B,
        places: &Vec<ChunkPos>,
    ) -> (result: Vec<ChunkColumn>)
        requires
            old(self).sound(),
        ensures
            final(self).sound(),
            final(self)@ == with_chunks_kept(old(self)@, *content_behavior, places@),
            column_views(result@) == chunks_at(old(self)@, *content_behavior, places@),
    {
        let ghost core = self@;
        let mut chunks: Vec<ChunkColumn> = Vec::new();
        let mut i: usize = 0;
        proof {
            assert(places@.subrange(0, 0) =~= Seq::empty());
        }
        while i < places.len()
            invariant
                i <= places@.len(),
                self.sound(),
                sorted(core.world.chunks),
                self@ == with_chunks_kept(core, *content_behavior, places@.subrange(0, i as int)),
                chunks@.len() == i,
                forall|j: int|
                    0 <= j < i ==> (#[trigger] chunks@[j])@ == core.chunk(
                        *content_behavior,
                        places@[j],
                    ),
            decreases places@.len() - i,
        {
            let pos = places[i];
            proof {
                let before = places@.subrange(0, i as int);
                let after = places@.subrange(0, i as int + 1);
                assert(after.drop_last() =~= before);
                assert(after.last() == pos);
                keeping_many_changes_no_chunk(core, *content_behavior, before, pos);
            }
            self.ensure_chunk(content_behavior, pos);
            if let Some(chunk) = self.world.chunks.look(&pos) {
                chunks.push(chunk.replica());
            }
            i += 1;
        }
        proof {
            assert(places@.subrange(0, places@.len() as int) =~= places@);
            assert(column_views(chunks@) =~= chunks_at(core, *content_behavior, places@));
        }
        chunks
    }
}

/// The block at a place of a game.
pub open spec fn block_at<B: ContentBehavior>(core: CoreView, behavior: B, position: BlockPos) ->
    Option<BlockView> {
    core.chunk(behavior, position.spec_chunk_pos()).block(
        fine(position.x as int),
        position.y as int,
        fine(position.z as int),
    )
}

/// Whether the sections of a column and their blocks stand in order.
pub open spec fn column_in_order(column: ColumnView) -> bool {
    sorted(column.sections) && forall|i: int|
        0 <= i < column.sections.len() ==> sorted((#[trigger] column.sections[i]).1.blocks)
}

/// A block that was put at a place is found there, and the blocks at all other places are what
/// they were.
pub proof fn block_after_set<B: ContentBehavior>(
    core: CoreView,
    behavior: B,
    position: BlockPos,
    block: Option<BlockView>,
    other: BlockPos,
)
    requires
        sorted(core.world.chunks),
        column_in_order(core.chunk(behavior, position.spec_chunk_pos())),
    ensures
        block_at(with_block_at(core, behavior, position, block), behavior, other) == if other
            == position {
            block
        } else {
            block_at(core, behavior, other)
        },
{
    let here = position.spec_chunk_pos();
    let there = other.spec_chunk_pos();
    let changed = core.chunk(behavior, here).with_block(
        fine(position.x as int),
        position.y as int,
        fine(position.z as int),
        block,
    );
    insert_laws(core.world.chunks, here.id(), changed, there.id());
    if there.id() == here.id() {
        chunk_identity(there, here);
        get_after_set(
            core.chunk(behavior, here),
            fine(position.x as int),
            position.y as int,
            fine(position.z as int),
            block,
            fine(other.x as int),
            other.y as int,
            fine(other.z as int),
        );
        assert(here.x == coarse(position.x as int) && here.z == coarse(position.z as int));
        assert(there.x == coarse(other.x as int) && there.z == coarse(other.z as int));
    }
}

} // verus!
