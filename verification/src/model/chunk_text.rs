//! Places of chunks as text: the two coordinates with a comma between them.

use crate::model::block::ChunkPos;
use crate::numbers::{
    is_digit, parse_i32, parsed, reading_undoes_rendering, rendering_is_plain, NumberFault,
};
use crate::text::{append_signed_decimal, signed_decimal};
use vstd::prelude::*;
use vstd::string::*;

verus! {

/// Why a text is not the place of a chunk.
#[derive(Clone, Copy, Debug, PartialEq, Eq, Structural)]
pub enum ChunkTextFault {
    NoComma,
    Coordinate(NumberFault),
}

impl ChunkTextFault {
    /// The fault in words.
    pub open spec fn words(self) -> Seq<char> {
        match self {
            ChunkTextFault::NoComma => "invalid chunk coordinate"@,
            ChunkTextFault::Coordinate(fault) => fault.words(),
        }
    }

    /// The fault in words.
    pub fn message(&self) -> (result: &'static str)
        ensures
            result@ == self.words(),
    {
        match self {
            ChunkTextFault::NoComma => "invalid chunk coordinate",
            ChunkTextFault::Coordinate(fault) => fault.message(),
        }
    }
}

/// Where the first comma of a text stands, or the length of a text that has none.
pub open spec fn comma_at(s: Seq<char>) -> nat
    decreases s.len(),
{
    if s.len() == 0 || s[0] == ',' {
        0
    } else {
        1 + comma_at(s.drop_first())
    }
}

/// The text of a place.
pub open spec fn chunk_text(pos: ChunkPos) -> Seq<char> {
    signed_decimal(pos.x as int).push(',') + signed_decimal(pos.z as int)
}

/// The place that a text names: a number before the first comma, and a number after it.
pub open spec fn chunk_named(s: Seq<char>) -> Result<ChunkPos, ChunkTextFault> {
    let at = comma_at(s) as int;
    if at >= s.len() {
        Err(ChunkTextFault::NoComma)
    } else {
        match parsed(s.take(at)) {
            Err(fault) => Err(ChunkTextFault::Coordinate(fault)),
            Ok(x) => match parsed(s.skip(at + 1)) {
                Err(fault) => Err(ChunkTextFault::Coordinate(fault)),
                Ok(z) => Ok(ChunkPos { x, z }),
            },
        }
    }
}

/// The first comma stands where none stands before it.
pub proof fn comma_is_at(s: Seq<char>, n: nat)
    requires
        n <= s.len(),
        n < s.len() ==> s[n as int] == ',',
        forall|i: int| 0 <= i < n ==> #[trigger] s[i] != ',',
    ensures
        comma_at(s) == n,
    decreases n,
{
    if n > 0 {
        let rest = s.drop_first();
        assert forall|i: int| 0 <= i < n - 1 implies #[trigger] rest[i] != ',' by {
            assert(rest[i] == s[i + 1]);
        }
        comma_is_at(rest, (n - 1) as nat);
    }
}

/// The text of a place names the place.
pub proof fn text_names_chunk(pos: ChunkPos)
    ensures
        chunk_named(chunk_text(pos)) == Ok::<ChunkPos, ChunkTextFault>(pos),
{
    let x = signed_decimal(pos.x as int);
    let z = signed_decimal(pos.z as int);
    let text = chunk_text(pos);
    rendering_is_plain(pos.x as int);
    assert forall|i: int| 0 <= i < x.len() implies #[trigger] text[i] != ',' by {
        assert(text[i] == x[i]);
        assert(is_digit(x[i]) || x[i] == '-');
    }
    comma_is_at(text, x.len());
    assert(text.take(x.len() as int) =~= x);
    assert(text.skip((x.len() + 1) as int) =~= z);
    reading_undoes_rendering(pos.x);
    reading_undoes_rendering(pos.z);
}

impl ChunkPos {
    /// The text of the place.
    pub fn to_text(&self) -> (result: String)
        ensures
            result@ == chunk_text(*self),
    {
        proof {
            reveal_strlit("");
            reveal_strlit(",");
        }
        let mut text = "".to_string();
        append_signed_decimal(&mut text, self.x as i64);
        text.append(",");
        append_signed_decimal(&mut text, self.z as i64);
        assert(text@ =~= chunk_text(*self));
        text
    }

    /// The place that a text names.
    pub fn from_text(text: &str) -> (result: Result<ChunkPos, ChunkTextFault>)
        ensures
            result == chunk_named(text@),
    {
        let len: usize = text.unicode_len();
        let mut at: usize = 0;
        while at < len && text.get_char(at) != ','
            invariant
                at <= len,
                len == text@.len(),
                forall|i: int| 0 <= i < at ==> #[trigger] text@[i] != ',',
            decreases len - at,
        {
            at = at + 1;
        }
        proof {
            comma_is_at(text@, at as nat);
        }
        if at == len {
            return Err(ChunkTextFault::NoComma);
        }
        let x = match parse_i32(text.substring_char(0, at)) {
            Ok(x) => x,
            Err(fault) => return Err(ChunkTextFault::Coordinate(fault)),
        };
        assert(text@.subrange(0, at as int) =~= text@.take(at as int));
        assert(text@.subrange(at + 1, len as int) =~= text@.skip(at + 1));
        match parse_i32(text.substring_char(at + 1, len)) {
            Ok(z) => Ok(ChunkPos { x, z }),
            Err(fault) => Err(ChunkTextFault::Coordinate(fault)),
        }
    }
}

} // verus!
