//! A cursor over the bytes of one packet.

use crate::bytes::{from_be, from_le, pow256_values, signed64, take_be, take_le, to_signed};
use crate::raknet::error::{RakNetError, WireError};
use vstd::prelude::*;
use vstd::slice::slice_subrange;

verus! {

/// The sixteen bytes that mark offline messages.
pub open spec fn magic() -> Seq<u8> {
    seq![
        0x00u8, 0xff, 0xff, 0x00, 0xfe, 0xfe, 0xfe, 0xfe, 0xfd, 0xfd, 0xfd, 0xfd, 0x12, 0x34, 0x56,
        0x78,
    ]
}

/// The bytes that mark offline messages.
pub fn magic_bytes() -> (result: [u8; 16])
    ensures
        result@ == magic(),
{
    let result: [u8; 16] = [
        0x00, 0xff, 0xff, 0x00, 0xfe, 0xfe, 0xfe, 0xfe, 0xfd, 0xfd, 0xfd, 0xfd, 0x12, 0x34, 0x56,
        0x78,
    ];
    assert(result@ =~= magic());
    result
}

/// The error of a packet that ends too early.
pub open spec fn truncated() -> RakNetError {
    RakNetError::Wire(WireError::Fault("truncated raknet packet"))
}

/// The error of an offline message without its mark.
pub open spec fn bad_magic() -> RakNetError {
    RakNetError::Wire(WireError::Fault("invalid raknet offline magic"))
}

/// A position in the bytes of a packet.
pub struct Reader<'a> {
    pub bytes: &'a [u8],
    pub cursor: usize,
}

impl<'a> Reader<'a> {
    /// Whether the cursor lies within the packet.
    pub open spec fn wf(&self) -> bool {
        self.cursor <= self.bytes@.len()
    }

    /// The `width` bytes at the cursor.
    pub open spec fn window(&self, width: int) -> Seq<u8> {
        self.bytes@.subrange(self.cursor as int, self.cursor + width)
    }

    /// What `width` bytes of reading does to the cursor: it moves past them if they are there,
    /// and stays where it is if not.
    pub open spec fn advanced(&self, before: &Self, width: int, success: bool) -> bool {
        &&& self.bytes@ == before.bytes@
        &&& self.wf()
        &&& success == (before.cursor + width <= before.bytes@.len())
        &&& self.cursor == before.cursor + (if success {
            width
        } else {
            0
        })
    }

    /// A cursor at the start of `bytes`.
    pub fn new(bytes: &'a [u8]) -> (result: Self)
        ensures
            result.bytes@ == bytes@,
            result.cursor == 0,
            result.wf(),
    {
        Reader { bytes, cursor: 0 }
    }

    /// Whether nothing is left to read.
    pub fn is_empty(&self) -> (result: bool)
        ensures
            result == (self.cursor == self.bytes@.len()),
    {
        self.cursor == self.bytes.len()
    }

    /// Moves past `len` bytes and returns where they start.
    pub fn skip(&mut self, len: usize) -> (result: Result<usize, RakNetError>)
        requires
            old(self).wf(),
        ensures
            final(self).advanced(old(self), len as int, result is Ok),
            result matches Ok(start) ==> start == old(self).cursor,
            result matches Err(e) ==> e == truncated(),
    {
        if len > self.bytes.len() - self.cursor {
            return Err(RakNetError::Wire(WireError::Fault("truncated raknet packet")));
        }
        let start: usize = self.cursor;
        self.cursor = start + len;
        Ok(start)
    }

    /// The next `len` bytes.
    pub fn take(&mut self, len: usize) -> (result: Result<&'a [u8], RakNetError>)
        requires
            old(self).wf(),
        ensures
            final(self).advanced(old(self), len as int, result is Ok),
            result matches Ok(bytes) ==> bytes@ == old(self).window(len as int),
            result matches Err(e) ==> e == truncated(),
    {
        let start: usize = self.skip(len)?;
        Ok(slice_subrange(self.bytes, start, start + len))
    }

    pub fn u8(&mut self) -> (result: Result<u8, RakNetError>)
        requires
            old(self).wf(),
        ensures
            final(self).advanced(old(self), 1, result is Ok),
            result matches Ok(value) ==> value == old(self).bytes@[old(self).cursor as int],
            result matches Err(e) ==> e == truncated(),
    {
        let start: usize = self.skip(1)?;
        Ok(self.bytes[start])
    }

    pub fn u16_be(&mut self) -> (result: Result<u16, RakNetError>)
        requires
            old(self).wf(),
        ensures
            final(self).advanced(old(self), 2, result is Ok),
            result matches Ok(value) ==> value as nat == from_be(old(self).window(2)),
            result matches Err(e) ==> e == truncated(),
    {
        broadcast use pow256_values;

        let start: usize = self.skip(2)?;
        Ok(take_be(self.bytes, start, 2) as u16)
    }

    pub fn u24_le(&mut self) -> (result: Result<u32, RakNetError>)
        requires
            old(self).wf(),
        ensures
            final(self).advanced(old(self), 3, result is Ok),
            result matches Ok(value) ==> value as nat == from_le(old(self).window(3)) && value
                < 0x100_0000,
            result matches Err(e) ==> e == truncated(),
    {
        broadcast use pow256_values;

        let start: usize = self.skip(3)?;
        Ok(take_le(self.bytes, start, 3) as u32)
    }

    pub fn u32_be(&mut self) -> (result: Result<u32, RakNetError>)
        requires
            old(self).wf(),
        ensures
            final(self).advanced(old(self), 4, result is Ok),
            result matches Ok(value) ==> value as nat == from_be(old(self).window(4)),
            result matches Err(e) ==> e == truncated(),
    {
        broadcast use pow256_values;

        let start: usize = self.skip(4)?;
        Ok(take_be(self.bytes, start, 4) as u32)
    }

    pub fn i64_be(&mut self) -> (result: Result<i64, RakNetError>)
        requires
            old(self).wf(),
        ensures
            final(self).advanced(old(self), 8, result is Ok),
            result matches Ok(value) ==> value as int == to_signed(from_be(old(self).window(8)), 8),
            result matches Err(e) ==> e == truncated(),
    {
        let start: usize = self.skip(8)?;
        Ok(signed64(take_be(self.bytes, start, 8)))
    }

    /// Reads the mark of offline messages.
    pub fn magic(&mut self) -> (result: Result<(), RakNetError>)
        requires
            old(self).wf(),
        ensures
            final(self).bytes@ == old(self).bytes@,
            final(self).wf(),
            match result {
                Ok(_) => final(self).cursor == old(self).cursor + 16 && old(self).window(16)
                    == magic(),
                Err(e) => if old(self).cursor + 16 <= old(self).bytes@.len() {
                    old(self).window(16) != magic() && e == bad_magic()
                } else {
                    e == truncated()
                },
            },
    {
        let start: usize = self.skip(16)?;
        let expected = magic_bytes();
        let mut i: usize = 0;
        while i < 16
            invariant
                i <= 16,
                expected@ == magic(),
                expected@.len() == 16,
                start == old(self).cursor,
                self.cursor == start + 16,
                self.bytes@ == old(self).bytes@,
                self.wf(),
                forall|j: int| 0 <= j < i ==> self.bytes@[start + j] == expected@[j],
            decreases 16 - i,
        {
            if self.bytes[start + i] != expected[i] {
                assert(old(self).window(16)[i as int] != magic()[i as int]);
                return Err(RakNetError::Wire(WireError::Fault("invalid raknet offline magic")));
            }
            i += 1;
        }
        assert(old(self).window(16) =~= magic());
        Ok(())
    }
}

} // verus!
