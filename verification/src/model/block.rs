//! Blocks and positions.

use crate::model::item::OpaqueF64;
use crate::ordered::{insert_at_end, lex_before, lex_of_few, sorted, Entries, Key, OrderedMap};
use vstd::prelude::*;
use vstd::string::*;

verus! {

/// The width of a chunk in blocks.
pub const CHUNK_WIDTH: i32 = 16;

/// The height of a section in blocks.
pub const SECTION_HEIGHT: i32 = 16;

/// What kind of block a block is.
#[derive(Debug, PartialEq, Eq, PartialOrd, Ord, Hash)]
pub struct BlockKey {
    text: String,
}

impl View for BlockKey {
    type V = Seq<char>;

    closed spec fn view(&self) -> Seq<char> {
        self.text@
    }
}

impl BlockKey {
    /// The key with a name.
    pub fn new(value: &str) -> (result: Self)
        ensures
            result@ == value@,
    {
        BlockKey { text: value.to_string() }
    }

    /// The name of the key.
    pub fn as_str(&self) -> (result: &str)
        ensures
            result@ == self@,
    {
        self.text.as_str()
    }
}

/// A block with its properties.
#[derive(Debug, PartialEq, Eq)]
pub struct BlockState {
    pub key: BlockKey,
    pub properties: OrderedMap<String, String>,
}

/// What a block is.
pub struct BlockView {
    pub key: Seq<char>,
    pub properties: Entries<Seq<char>>,
}

impl View for BlockState {
    type V = BlockView;

    open spec fn view(&self) -> BlockView {
        BlockView { key: self.key@, properties: self.properties@ }
    }
}

/// What a block that may be absent is.
pub open spec fn block_view(block: Option<BlockState>) -> Option<BlockView> {
    match block {
        Some(block) => Some(block@),
        None => None,
    }
}

/// Whether the properties of a block that may be absent stand in order.
pub open spec fn block_wf(block: Option<BlockState>) -> bool {
    block matches Some(block) ==> block.wf()
}

/// A copy of named texts.
pub fn duplicate_texts(map: &OrderedMap<String, String>) -> (result: OrderedMap<String, String>)
    requires
        map.wf(),
    ensures
        result.wf(),
        result@ == map@,
{
    let mut result: OrderedMap<String, String> = OrderedMap::new();
    let mut i: usize = 0;
    assert(result@ =~= map@.subrange(0, 0));
    while i < map.len()
        invariant
            i <= map@.len(),
            map.wf(),
            result.wf(),
            result@ == map@.subrange(0, i as int),
        decreases map@.len() - i,
    {
        let key = map.key(i).clone();
        let value = map.at(i).clone();
        proof {
            let done = map@.subrange(0, i as int);
            if i > 0 {
                assert(done.last() == map@[i - 1]);
                assert(lex_before(map@[i - 1].0, map@[i as int].0));
            }
            assert(sorted(done));
            insert_at_end(done, key.id(), value@);
            assert(done.push(map@[i as int]) =~= map@.subrange(0, i + 1));
        }
        result.insert(key, value);
        i += 1;
    }
    assert(map@.subrange(0, map@.len() as int) =~= map@);
    result
}

impl BlockState {
    /// Whether the properties stand in order.
    pub open spec fn wf(&self) -> bool {
        self.properties.wf()
    }

    /// A block without properties.
    pub fn new(key: &str) -> (result: Self)
        ensures
            result.wf(),
            result@ == (BlockView { key: key@, properties: Seq::empty() }),
    {
        BlockState { key: BlockKey::new(key), properties: OrderedMap::new() }
    }

    /// A copy of the block.
    pub fn duplicate(&self) -> (result: Self)
        requires
            self.wf(),
        ensures
            result.wf(),
            result@ == self@,
    {
        BlockState {
            key: BlockKey { text: self.key.text.clone() },
            properties: duplicate_texts(&self.properties),
        }
    }
}

/// A copy of a block that may be absent.
pub fn duplicate_block(block: &Option<BlockState>) -> (result: Option<BlockState>)
    requires
        block_wf(*block),
    ensures
        block_wf(result),
        block_view(result) == block_view(*block),
{
    match block {
        Some(block) => Some(block.duplicate()),
        None => None,
    }
}

/// A side of a block.
#[derive(Clone, Copy, Debug, PartialEq, Eq, Structural)]
pub enum BlockFace {
    Bottom,
    Top,
    North,
    South,
    West,
    East,
}

impl BlockFace {
    /// The side with a given number in the game protocol.
    pub fn from_protocol_byte(value: u8) -> (result: Option<Self>)
        ensures
            result == if value == 0 {
                Some(BlockFace::Bottom)
            } else if value == 1 {
                Some(BlockFace::Top)
            } else if value == 2 {
                Some(BlockFace::North)
            } else if value == 3 {
                Some(BlockFace::South)
            } else if value == 4 {
                Some(BlockFace::West)
            } else if value == 5 {
                Some(BlockFace::East)
            } else {
                None
            },
    {
        match value {
            0 => Some(BlockFace::Bottom),
            1 => Some(BlockFace::Top),
            2 => Some(BlockFace::North),
            3 => Some(BlockFace::South),
            4 => Some(BlockFace::West),
            5 => Some(BlockFace::East),
            _ => None,
        }
    }

    /// The step to the block at the side.
    pub open spec fn spec_offset(self) -> (int, int, int) {
        match self {
            BlockFace::Bottom => (0, -1, 0),
            BlockFace::Top => (0, 1, 0),
            BlockFace::North => (0, 0, -1),
            BlockFace::South => (0, 0, 1),
            BlockFace::West => (-1, 0, 0),
            BlockFace::East => (1, 0, 0),
        }
    }

    /// The step to the block at the side.
    pub fn offset(self) -> (result: (i32, i32, i32))
        ensures
            (result.0 as int, result.1 as int, result.2 as int) == self.spec_offset(),
            -1 <= result.0 <= 1,
            -1 <= result.1 <= 1,
            -1 <= result.2 <= 1,
    {
        match self {
            BlockFace::Bottom => (0, -1, 0),
            BlockFace::Top => (0, 1, 0),
            BlockFace::North => (0, 0, -1),
            BlockFace::South => (0, 0, 1),
            BlockFace::West => (-1, 0, 0),
            BlockFace::East => (1, 0, 0),
        }
    }
}

/// The place of a block.
#[derive(Clone, Copy, Debug, PartialEq, Eq, Structural, Hash)]
pub struct BlockPos {
    pub x: i32,
    pub y: i32,
    pub z: i32,
}

impl Key for BlockPos {
    open spec fn id(&self) -> Seq<int> {
        seq![self.x as int, self.y as int, self.z as int]
    }

    fn precedes(&self, other: &Self) -> (result: bool) {
        proof {
            lex_of_few(
                self.x as int,
                self.y as int,
                self.z as int,
                other.x as int,
                other.y as int,
                other.z as int,
            );
        }
        self.x < other.x || (self.x == other.x && (self.y < other.y || (self.y == other.y && self.z
            < other.z)))
    }
}

/// The coordinate of the chunk or section that a coordinate lies in.
pub open spec fn coarse(n: int) -> int {
    n / 16
}

/// The coordinate within the chunk or section.
pub open spec fn fine(n: int) -> int {
    n % 16
}

/// The coordinate of the chunk or section that a coordinate lies in.
pub fn coarse_of(n: i32) -> (result: i32)
    ensures
        result as int == coarse(n as int),
        -134_217_728 <= result <= 134_217_727,
{
    let shifted: u64 = (n as i64 + 0x8000_0000) as u64;
    ((shifted / 16) as i64 - 0x800_0000) as i32
}

/// The coordinate within the chunk or section.
pub fn fine_of(n: i32) -> (result: u8)
    ensures
        result as int == fine(n as int),
        result < 16,
{
    let shifted: u64 = (n as i64 + 0x8000_0000) as u64;
    (shifted % 16) as u8
}

impl BlockPos {
    /// The place with given coordinates.
    pub fn new(x: i32, y: i32, z: i32) -> (result: Self)
        ensures
            result == (BlockPos { x, y, z }),
    {
        BlockPos { x, y, z }
    }

    /// The chunk that the place lies in.
    pub open spec fn spec_chunk_pos(self) -> ChunkPos {
        ChunkPos { x: coarse(self.x as int) as i32, z: coarse(self.z as int) as i32 }
    }

    /// The chunk that the place lies in.
    pub fn chunk_pos(self) -> (result: ChunkPos)
        ensures
            result == self.spec_chunk_pos(),
            result.x as int == coarse(self.x as int),
            result.z as int == coarse(self.z as int),
    {
        ChunkPos::new(coarse_of(self.x), coarse_of(self.z))
    }

    /// The place at a side of this one.
    pub fn offset(self, face: BlockFace) -> (result: Self)
        requires
            i32::MIN <= self.x + face.spec_offset().0 <= i32::MAX,
            i32::MIN <= self.y + face.spec_offset().1 <= i32::MAX,
            i32::MIN <= self.z + face.spec_offset().2 <= i32::MAX,
        ensures
            result.x as int == self.x + face.spec_offset().0,
            result.y as int == self.y + face.spec_offset().1,
            result.z as int == self.z + face.spec_offset().2,
    {
        let (dx, dy, dz) = face.offset();
        BlockPos::new(self.x + dx, self.y + dy, self.z + dz)
    }
}

/// A point of the world, each coordinate as its bit pattern.
#[derive(Clone, Copy, Debug, PartialEq, Eq, Structural)]
pub struct Vec3 {
    pub x: OpaqueF64,
    pub y: OpaqueF64,
    pub z: OpaqueF64,
}

impl Vec3 {
    /// The point with given coordinates.
    pub fn new(x: OpaqueF64, y: OpaqueF64, z: OpaqueF64) -> (result: Self)
        ensures
            result == (Vec3 { x, y, z }),
    {
        Vec3 { x, y, z }
    }
}

/// A part of the world with rules of its own.
#[derive(Clone, Copy, Debug, PartialEq, Eq, Structural)]
pub enum DimensionId {
    Overworld,
}

/// What is known of a world as a whole.
#[derive(Debug, PartialEq, Eq)]
pub struct WorldMeta {
    pub level_name: String,
    pub seed: u64,
    pub spawn: BlockPos,
    pub dimension: DimensionId,
    pub age: i64,
    pub time: i64,
    pub level_type: String,
    pub game_mode: u8,
    pub difficulty: u8,
    pub max_players: u8,
}

/// What a world as a whole is.
pub struct WorldMetaView {
    pub level_name: Seq<char>,
    pub seed: u64,
    pub spawn: BlockPos,
    pub dimension: DimensionId,
    pub age: i64,
    pub time: i64,
    pub level_type: Seq<char>,
    pub game_mode: u8,
    pub difficulty: u8,
    pub max_players: u8,
}

impl View for WorldMeta {
    type V = WorldMetaView;

    open spec fn view(&self) -> WorldMetaView {
        WorldMetaView {
            level_name: self.level_name@,
            seed: self.seed,
            spawn: self.spawn,
            dimension: self.dimension,
            age: self.age,
            time: self.time,
            level_type: self.level_type@,
            game_mode: self.game_mode,
            difficulty: self.difficulty,
            max_players: self.max_players,
        }
    }
}

impl WorldMeta {
    /// A copy.
    pub fn duplicate(&self) -> (result: Self)
        ensures
            result@ == self@,
    {
        WorldMeta {
            level_name: self.level_name.clone(),
            seed: self.seed,
            spawn: self.spawn,
            dimension: self.dimension,
            age: self.age,
            time: self.time,
            level_type: self.level_type.clone(),
            game_mode: self.game_mode,
            difficulty: self.difficulty,
            max_players: self.max_players,
        }
    }
}

/// The place of a chunk.
#[derive(Clone, Copy, Debug, PartialEq, Eq, Structural, Hash)]
pub struct ChunkPos {
    pub x: i32,
    pub z: i32,
}

impl Key for ChunkPos {
    open spec fn id(&self) -> Seq<int> {
        seq![self.x as int, self.z as int]
    }

    fn precedes(&self, other: &Self) -> (result: bool) {
        proof {
            lex_of_few(self.x as int, self.z as int, 0, other.x as int, other.z as int, 0);
        }
        self.x < other.x || (self.x == other.x && self.z < other.z)
    }
}

impl ChunkPos {
    /// The place with given coordinates.
    pub fn new(x: i32, z: i32) -> (result: Self)
        ensures
            result == (ChunkPos { x, z }),
    {
        ChunkPos { x, z }
    }
}

/// The place of a chunk with a given identity.
pub open spec fn chunk_of(id: Seq<int>) -> ChunkPos {
    ChunkPos { x: id[0] as i32, z: id[1] as i32 }
}

/// Places of chunks with the same identity are the same.
pub proof fn chunk_identity(a: ChunkPos, b: ChunkPos)
    requires
        a.id() == b.id(),
    ensures
        a == b,
{
    assert(a.id()[0] == b.id()[0] && a.id()[1] == b.id()[1]);
}

/// The place of a section.
#[derive(Clone, Copy, Debug, PartialEq, Eq, Structural, Hash)]
pub struct SectionPos {
    pub x: i32,
    pub y: i32,
    pub z: i32,
}

impl SectionPos {
    /// The place with given coordinates.
    pub fn new(x: i32, y: i32, z: i32) -> (result: Self)
        ensures
            result == (SectionPos { x, y, z }),
    {
        SectionPos { x, y, z }
    }
}

} // verus!
