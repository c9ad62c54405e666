//! Where slots, blocks and chunks are.

use crate::model::block::{coarse, fine, BlockFace, BlockPos, BlockView, ChunkPos};
use crate::model::chunk::{flat_index, ColumnView};
use crate::model::inventory::{InventorySlot, InventoryView};
use crate::model::item::StackView;
use crate::model::view::{in_square, sight, square_exists, square_is_exact};
use crate::ordered::{holds, insert_laws, lookup, remove_laws, sorted, Key};
use vstd::prelude::*;

verus! {

/// The slots of a player's inventory are numbered through: nine of the window itself, then 27 of
/// the inventory, then nine at hand. The other hand and slots beyond these have no number.
pub proof fn slots_are_numbered_through(slot: InventorySlot)
    ensures
        ({
            let number = slot.spec_window_index();
            &&& slot matches InventorySlot::WindowLocal(i) ==> (number is Some <==> i < 9) && (
            number matches Some(n) ==> n == i)
            &&& slot matches InventorySlot::MainInventory(i) ==> (number is Some <==> i < 27) && (
            number matches Some(n) ==> n == 9 + i)
            &&& slot matches InventorySlot::Hotbar(i) ==> (number is Some <==> i < 9) && (
            number matches Some(n) ==> n == 36 + i)
            &&& slot is Offhand ==> number is None
            &&& number matches Some(n) ==> n < 45
        }),
{
}

/// No two slots of a player's inventory have the same number.
pub proof fn slots_have_their_own_numbers(a: InventorySlot, b: InventorySlot)
    requires
        a.spec_window_index() is Some,
        a.spec_window_index() == b.spec_window_index(),
    ensures
        a == b,
{
}

/// What lies in a slot lies in the list of slots at its number, and what the other hand holds is
/// kept apart.
pub proof fn slots_are_found_by_number(inventory: InventoryView, slot: InventorySlot)
    requires
        inventory.slots.len() == 45,
    ensures
        slot.spec_window_index() matches Some(n) ==> inventory.slot(slot)
            == inventory.slots[n as int],
        slot is Offhand ==> inventory.slot(slot) == inventory.offhand,
        slot.spec_window_index() is None && !(slot is Offhand) ==> inventory.slot(slot) is None,
{
}

/// A stack that is put into a slot lies at its number, or in the other hand; all other places of
/// the inventory hold what they held. A slot that is none changes nothing.
pub proof fn stack_is_put_in_its_place(
    inventory: InventoryView,
    slot: InventorySlot,
    stack: Option<StackView>,
    k: int,
)
    requires
        inventory.slots.len() == 45,
        0 <= k < 45,
    ensures
        ({
            let after = inventory.with_slot(slot, stack);
            &&& after.slots.len() == 45
            &&& slot.spec_window_index() matches Some(n) ==> after.slots[n as int] == stack && (k != n
                ==> after.slots[k] == inventory.slots[k]) && after.offhand == inventory.offhand
            &&& slot is Offhand ==> after.offhand == stack && after.slots == inventory.slots
            &&& slot.spec_window_index() is None && !(slot is Offhand) ==> after == inventory
        }),
{
}

/// Chunks and sections are sixteen wide: a coordinate lies in the one whose number is sixteen times
/// smaller, rounded down, and within it at what is left over.
pub proof fn chunks_are_sixteen_wide(n: int)
    ensures
        16 * coarse(n) <= n < 16 * coarse(n) + 16,
        fine(n) == n - 16 * coarse(n),
        0 <= fine(n) < 16,
{
}

/// A block lies in the chunk that is sixteen wide round it.
pub proof fn block_lies_in_its_chunk(place: BlockPos)
    ensures
        16 * place.spec_chunk_pos().x <= place.x < 16 * place.spec_chunk_pos().x + 16,
        16 * place.spec_chunk_pos().z <= place.z < 16 * place.spec_chunk_pos().z + 16,
{
}

/// Beside a side of a block lies one block in one direction: below, above, to the north, which is
/// against the third axis, to the south, to the west, which is against the first axis, or to the
/// east.
pub proof fn sides_face_six_ways(face: BlockFace)
    ensures
        ({
            let (x, y, z) = face.spec_offset();
            &&& x * x + y * y + z * z == 1
            &&& y == -1 <==> face is Bottom
            &&& y == 1 <==> face is Top
            &&& z == -1 <==> face is North
            &&& z == 1 <==> face is South
            &&& x == -1 <==> face is West
            &&& x == 1 <==> face is East
        }),
{
}

/// The places of a section are numbered along the first axis, then along the third, then upwards.
pub proof fn places_are_numbered_row_by_row(x: int, y: int, z: int)
    ensures
        flat_index(0, 0, 0) == 0,
        flat_index(x + 1, y, z) == flat_index(x, y, z) + 1,
        flat_index(x, y, z + 1) == flat_index(x, y, z) + 16,
        flat_index(x, y + 1, z) == flat_index(x, y, z) + 256,
{
}

/// Putting a block into a column changes neither where the column is nor its biomes, and no section
/// but the one that the block lies in. A section that holds no block then is left out.
pub proof fn block_changes_its_section_alone(
    column: ColumnView,
    x: int,
    y: int,
    z: int,
    block: Option<BlockView>,
    other: int,
)
    requires
        sorted(column.sections),
    ensures
        ({
            let after = column.with_block(x, y, z, block);
            &&& after.pos == column.pos
            &&& after.biomes == column.biomes
            &&& other != coarse(y) ==> lookup(after.sections, seq![other]) == lookup(
                column.sections,
                seq![other],
            )
            &&& lookup(after.sections, seq![coarse(y)]) matches Some(section)
                ==> section.blocks.len() > 0
        }),
{
    let key = seq![coarse(y)];
    let section = column.section_at(y).with_block(x, fine(y), z, block);
    if seq![other] == key {
        assert(seq![other][0] == key[0]);
    }
    insert_laws(column.sections, key, section, key);
    insert_laws(column.sections, key, section, seq![other]);
    remove_laws(column.sections, key, key);
    remove_laws(column.sections, key, seq![other]);
}

/// A client that sees some distance round a chunk has exactly the chunks of which neither
/// coordinate is further away.
pub proof fn client_sees_a_square(center: ChunkPos, view_distance: u8, pos: ChunkPos)
    requires
        square_exists(center, view_distance as int),
    ensures
        ({
            let seen = sight(center, view_distance);
            &&& seen.center == center
            &&& seen.view_distance == view_distance
            &&& seen.sees(pos) <==> {
                &&& center.x - view_distance <= pos.x <= center.x + view_distance
                &&& center.z - view_distance <= pos.z <= center.z + view_distance
            }
        }),
{
    square_is_exact(center, view_distance as int);
    assert(holds(sight(center, view_distance).loaded, pos.id()) <==> in_square(
        center,
        view_distance as int,
        pos,
    ));
}

} // verus!
