//! Values whose maps hold everything under its own key, which read back as they were written.

use crate::codec::grammar::{
    all_orderly, both, chosen, held, optional, orderly, pair, plain, plain_are_orderly,
    plain_cases, plain_is_orderly, select, tagged, under_keys, Cases, Format, Value,
};
use crate::codec::maps::{held_values, held_values_are_sorted, under_own_keys};
use crate::codec::wire::{compound_rules, values_of, Wire};
use crate::model::block::{BlockPos, ChunkPos, WorldMeta};
use crate::model::chunk::{ChunkColumn, ChunkSection};
use crate::model::event::CoreEvent;
use crate::model::player::{BlockEntityState, PlayerSnapshot, WorldSnapshot};
use crate::ordered::{sorted, OrderedMap};
use vstd::prelude::*;

verus! {

/// One thing after another is plain where both are.
pub broadcast proof fn plain_pair(a: Box<Format>, b: Box<Format>)
    ensures
        #[trigger] plain(Format::Pair(a, b)) == (plain(*a) && plain(*b)),
{
}

/// Something that may be absent is plain where it is.
pub broadcast proof fn plain_option(body: Box<Format>)
    ensures
        #[trigger] plain(Format::Option(body)) == plain(*body),
{
}

/// Any number of things are plain where one is.
pub broadcast proof fn plain_list(item: Box<Format>)
    ensures
        #[trigger] plain(Format::List(item)) == plain(*item),
{
}

/// A map or a set is plain where an item is.
pub broadcast proof fn plain_keyed(item: Box<Format>)
    ensures
        #[trigger] plain(Format::Keyed(item)) == plain(*item),
{
}

/// One of several things is plain where all are.
pub broadcast proof fn plain_tagged(cases: Box<Cases>)
    ensures
        #[trigger] plain(Format::Tagged(cases)) == plain_cases(*cases),
{
}

/// All of several things are plain where the first and the others are.
pub broadcast proof fn plain_case(tag: u8, means: u8, body: Format, rest: Box<Cases>)
    ensures
        #[trigger] plain_cases(Cases::Case { tag, means, body, rest }) == (plain(body)
            && plain_cases(*rest)),
{
}

/// Which formats are plain.
pub broadcast group plain_rules {
    plain_pair,
    plain_option,
    plain_list,
    plain_keyed,
    plain_tagged,
    plain_case,
}

/// One thing and another are orderly where both are.
pub proof fn orderly_pair(a: Format, b: Format, x: Value, y: Value)
    ensures
        orderly(pair(a, b), both(x, y)) == (orderly(a, x) && orderly(b, y)),
{
    reveal(orderly);
    reveal(all_orderly);
}

/// Something that may be absent is orderly where it is there and is orderly, or is absent.
pub proof fn orderly_option(body: Format, v: Value)
    ensures
        v matches Value::Case(n, x) ==> orderly(optional(body), v) == (n == 0 || orderly(
            body,
            *x,
        )),
{
    reveal(orderly);
    reveal(all_orderly);
}

proof fn orderly_held(item: Format, items: Seq<Value>)
    ensures
        orderly(held(item), Value::List(items)) == (sorted(under_keys(items)) && all_orderly(
            item,
            items,
            0,
        )),
{
    reveal(orderly);
    reveal(all_orderly);
}

/// Whether every section of a column is under its own height.
pub open spec fn sections_placed(column: ChunkColumn) -> bool {
    column.sections.wf() && under_own_keys(column.sections.pairs())
}

/// Whether every chunk, section and player of a world is under its own key.
pub open spec fn world_placed(world: WorldSnapshot) -> bool {
    &&& world.chunks.wf()
    &&& under_own_keys(world.chunks.pairs())
    &&& forall|i: int|
        0 <= i < world.chunks.pairs().len() ==> sections_placed(
            (#[trigger] world.chunks.pairs()[i]).1,
        )
    &&& world.players.wf()
    &&& under_own_keys(world.players.pairs())
}

/// A column whose sections are under their own heights is orderly.
pub proof fn column_is_orderly(column: ChunkColumn)
    requires
        sections_placed(column),
    ensures
        orderly(ChunkColumn::format(), column.value()),
{
    broadcast use plain_rules;

    let items = held_values(column.sections.pairs());
    let sections = held(ChunkSection::format());
    let biomes = Value::Bytes(column.biomes@);
    held_values_are_sorted(column.sections);
    plain_are_orderly(ChunkSection::format(), items, 0);
    plain_is_orderly(ChunkPos::format(), column.pos.value());
    plain_is_orderly(Format::Bytes, biomes);
    orderly_held(ChunkSection::format(), items);
    orderly_pair(sections, Format::Bytes, Value::List(items), biomes);
    orderly_pair(
        ChunkPos::format(),
        pair(sections, Format::Bytes),
        column.pos.value(),
        both(Value::List(items), biomes),
    );
}

proof fn columns_are_orderly(items: Seq<(ChunkPos, ChunkColumn)>, i: nat)
    requires
        forall|j: int| 0 <= j < items.len() ==> sections_placed((#[trigger] items[j]).1),
    ensures
        all_orderly(ChunkColumn::format(), held_values(items), i),
    decreases items.len() - i,
{
    reveal(orderly);
    reveal(all_orderly);
    if i < items.len() {
        column_is_orderly(items[i as int].1);
        columns_are_orderly(items, i + 1);
    }
}

/// Columns whose sections are under their own heights are orderly.
pub proof fn column_list_is_orderly(columns: Vec<ChunkColumn>)
    requires
        forall|i: int| 0 <= i < columns@.len() ==> sections_placed(#[trigger] columns@[i]),
    ensures
        orderly(<Vec<ChunkColumn>>::format(), columns.value()),
{
    reveal(orderly);
    reveal(all_orderly);
    column_list_is_orderly_from(columns@, 0);
}

proof fn column_list_is_orderly_from(columns: Seq<ChunkColumn>, i: nat)
    requires
        forall|j: int| 0 <= j < columns.len() ==> sections_placed(#[trigger] columns[j]),
    ensures
        all_orderly(ChunkColumn::format(), values_of(columns), i),
    decreases columns.len() - i,
{
    reveal(orderly);
    reveal(all_orderly);
    if i < columns.len() {
        column_is_orderly(columns[i as int]);
        column_list_is_orderly_from(columns, i + 1);
    }
}

/// One of several things is orderly where what follows its tag is.
pub proof fn orderly_case(cases: Cases, tag: u8, x: Value)
    ensures
        orderly(tagged(cases), chosen(tag as int, x)) == match select(cases, tag) {
            Ok((means, body)) => orderly(body, x),
            Err(_) => true,
        },
{
    reveal(orderly);
    reveal(all_orderly);
}

/// Whether every section of every chunk that an event brings is under its own height.
pub open spec fn event_placed(event: CoreEvent) -> bool {
    event matches CoreEvent::ChunkBatch { chunks } ==> forall|i: int|
        0 <= i < chunks@.len() ==> sections_placed(#[trigger] chunks@[i])
}

/// An event whose sections are under their own heights is orderly.
pub proof fn event_is_orderly(event: CoreEvent)
    requires
        event_placed(event),
    ensures
        orderly(CoreEvent::format(), event.value()),
{
    broadcast use {compound_rules, plain_rules};

    if let Format::Tagged(cases) = CoreEvent::format() {
        if let Value::Case(n, x) = event.value() {
            orderly_case(*cases, n as u8, *x);
            if let CoreEvent::ChunkBatch { chunks } = event {
                column_list_is_orderly(chunks);
            } else if let Ok((means, body)) = select(*cases, n as u8) {
                assert(plain(body));
                plain_is_orderly(body, *x);
            }
        }
    }
}

/// A world in which everything is under its own key is orderly.
pub proof fn world_is_orderly(world: WorldSnapshot)
    requires
        world_placed(world),
    ensures
        orderly(WorldSnapshot::format(), world.value()),
{
    broadcast use plain_rules;

    let chunks = held_values(world.chunks.pairs());
    let players = held_values(world.players.pairs());
    let entities = <OrderedMap<BlockPos, BlockEntityState>>::format();
    held_values_are_sorted(world.chunks);
    held_values_are_sorted(world.players);
    columns_are_orderly(world.chunks.pairs(), 0);
    plain_are_orderly(PlayerSnapshot::format(), players, 0);
    plain_is_orderly(WorldMeta::format(), world.meta.value());
    plain_is_orderly(entities, world.block_entities.value());
    orderly_held(ChunkColumn::format(), chunks);
    orderly_held(PlayerSnapshot::format(), players);
    let last = pair(entities, held(PlayerSnapshot::format()));
    let last_value = both(world.block_entities.value(), Value::List(players));
    orderly_pair(
        entities,
        held(PlayerSnapshot::format()),
        world.block_entities.value(),
        Value::List(players),
    );
    orderly_pair(held(ChunkColumn::format()), last, Value::List(chunks), last_value);
    orderly_pair(
        WorldMeta::format(),
        pair(held(ChunkColumn::format()), last),
        world.meta.value(),
        both(Value::List(chunks), last_value),
    );
}

} // verus!
