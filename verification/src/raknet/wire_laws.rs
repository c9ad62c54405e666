//! What reading gives back of what was written.

use crate::bytes::{be, be_len, from_be_of_be, from_le_of_le, le, le_len, pow256_values};
use crate::raknet::budget::RakNetBudgets;
use crate::raknet::error::RakNetError;
use crate::raknet::sequence::MODULUS;
use crate::raknet::wire::{
    ack_range_wire, acknowledgement, be_at, bit_length, byte_count, datagram, datagram_wire,
    frame_at, frame_flags, frame_layout, frame_tail, frames_from, ranges_at, u24_at, u24_wire,
    FrameView, Reliability,
};
use vstd::prelude::*;

verus! {

/// Whether a frame carries exactly the numbers that its reliability calls for.
pub open spec fn coherent(frame: FrameView) -> bool {
    &&& frame.reliable_index is Some == frame.reliability.spec_reliable()
    &&& frame.sequence_index is Some == frame.reliability.spec_sequenced()
    &&& frame.order_index is Some == frame.reliability.spec_ordered()
    &&& frame.order_index is None ==> frame.order_channel == 0
    &&& frame.reliable_index matches Some(n) ==> n < MODULUS
    &&& frame.sequence_index matches Some(n) ==> n < MODULUS
    &&& frame.order_index matches Some(n) ==> n < MODULUS
}

/// The part of `a + b + c` that is `b`.
proof fn middle(a: Seq<u8>, b: Seq<u8>, c: Seq<u8>)
    ensures
        (a + b + c).subrange(a.len() as int, (a.len() + b.len()) as int) == b,
{
    assert((a + b + c).subrange(a.len() as int, (a.len() + b.len()) as int) =~= b);
}

/// The bytes of the order index and channel of a frame.
spec fn order_wire(frame: FrameView) -> Seq<u8> {
    match frame.order_index {
        Some(n) => le(n, 3).push(frame.order_channel),
        None => Seq::empty(),
    }
}

/// The bytes of the fragment header of a frame.
spec fn split_wire(frame: FrameView) -> Seq<u8> {
    match frame.split {
        Some(split) => be(split.count as nat, 4) + be(split.id as nat, 2) + be(
            split.index as nat,
            4,
        ),
        None => Seq::empty(),
    }
}

/// The first eight bytes of a written datagram name its number, its flags and its length.
proof fn datagram_head(sequence: nat, frame: FrameView)
    requires
        sequence < MODULUS,
        frame.payload.len() <= 8191,
    ensures
        ({
            let s = datagram_wire(sequence, frame);
            &&& s.len() == 7 + frame_tail(frame).len()
            &&& s[0] == 0x84
            &&& u24_at(s, 1) == sequence
            &&& s[4] == frame_flags(frame)
            &&& Reliability::of_tag(s[4] / 32) == frame.reliability
            &&& ((s[4] / 16) % 2 == 1) == (frame.split is Some)
            &&& byte_count(be_at(s, 5, 2)) == frame.payload.len()
            &&& s.subrange(7, s.len() as int) == frame_tail(frame)
        }),
{
    broadcast use be_len, le_len, pow256_values, from_be_of_be, from_le_of_le;

    let s = datagram_wire(sequence, frame);
    let bits = bit_length(frame.payload.len());
    let a = seq![0x84u8];
    let b = le(sequence, 3);
    let c = seq![frame_flags(frame)];
    let d = be(bits, 2);
    let e = frame_tail(frame);
    assert(s.subrange(1, 4) =~= b);
    assert(s.subrange(5, 7) =~= d);
    assert(s.subrange(7, s.len() as int) =~= e);
}

/// Where the parts of a written frame lie.
proof fn tail_layout(sequence: nat, frame: FrameView)
    requires
        sequence < MODULUS,
        frame.payload.len() <= 8191,
        coherent(frame),
    ensures
        ({
            let s = datagram_wire(sequence, frame);
            let (reliable_at, sequence_at, order_at, split_at, payload_at, end) = frame_layout(
                s,
                4,
            );
            &&& end == s.len()
            &&& s.subrange(reliable_at, sequence_at) == u24_wire(frame.reliable_index)
            &&& s.subrange(sequence_at, order_at) == u24_wire(frame.sequence_index)
            &&& s.subrange(order_at, split_at) == order_wire(frame)
            &&& s.subrange(split_at, payload_at) == split_wire(frame)
            &&& s.subrange(payload_at, end) == frame.payload
        }),
{
    broadcast use be_len, le_len;

    datagram_head(sequence, frame);
    let s = datagram_wire(sequence, frame);
    let (reliable_at, sequence_at, order_at, split_at, payload_at, end) = frame_layout(s, 4);
    let a = u24_wire(frame.reliable_index);
    let b = u24_wire(frame.sequence_index);
    let c = order_wire(frame);
    let d = split_wire(frame);
    let t = frame_tail(frame);
    assert(t == a + b + c + d + frame.payload);
    assert(s.subrange(7, s.len() as int) == t);
    assert forall|i: int| 0 <= i < t.len() implies s[7 + i] == t[i] by {
        assert(s.subrange(7, s.len() as int)[i] == t[i]);
    }
    assert(s.subrange(reliable_at, sequence_at) =~= a);
    assert(s.subrange(sequence_at, order_at) =~= b);
    assert(s.subrange(order_at, split_at) =~= c);
    assert(s.subrange(split_at, payload_at) =~= d);
    assert(s.subrange(payload_at, end) =~= frame.payload);
}

/// Reading a datagram that was written for a coherent frame within the budgets gives its number
/// and that frame.
pub proof fn datagram_round_trip(sequence: nat, frame: FrameView, budgets: RakNetBudgets)
    requires
        sequence < MODULUS,
        coherent(frame),
        frame.payload.len() <= 8191,
        frame.payload.len() <= budgets.max_payload_bytes,
        datagram_wire(sequence, frame).len() <= budgets.max_datagram_bytes,
    ensures
        datagram(datagram_wire(sequence, frame), budgets) == Ok::<
            (nat, Seq<FrameView>),
            RakNetError,
        >((sequence, seq![frame])),
{
    broadcast use be_len, le_len, pow256_values, from_be_of_be, from_le_of_le;

    datagram_head(sequence, frame);
    tail_layout(sequence, frame);
    let s = datagram_wire(sequence, frame);
    let (reliable_at, sequence_at, order_at, split_at, payload_at, end) = frame_layout(s, 4);
    let read = frame_at(s, 4);
    if frame.order_index is Some {
        let n = frame.order_index->Some_0;
        let part = s.subrange(order_at, split_at);
        assert(part.subrange(0, 3) =~= le(n, 3));
        assert(s.subrange(order_at, order_at + 3) =~= part.subrange(0, 3));
        assert(s[order_at + 3] == part[3]);
    }
    if frame.split is Some {
        let split = frame.split->Some_0;
        let part = s.subrange(split_at, payload_at);
        assert(part.subrange(0, 4) =~= be(split.count as nat, 4));
        assert(part.subrange(4, 6) =~= be(split.id as nat, 2));
        assert(part.subrange(6, 10) =~= be(split.index as nat, 4));
        assert(s.subrange(split_at, split_at + 4) =~= part.subrange(0, 4));
        assert(s.subrange(split_at + 4, split_at + 6) =~= part.subrange(4, 6));
        assert(s.subrange(split_at + 6, split_at + 10) =~= part.subrange(6, 10));
    }
    assert(read.reliable_index == frame.reliable_index);
    assert(read.sequence_index == frame.sequence_index);
    assert(read.order_index == frame.order_index);
    assert(read.split == frame.split);
    assert(read == frame);
    reveal_with_fuel(frames_from, 2);
    assert(seq![frame] + Seq::<FrameView>::empty() =~= seq![frame]);
}

/// Reading an acknowledgement that was written for one range gives that range.
pub proof fn acknowledgement_round_trip(confirms: bool, start: nat, end: nat)
    requires
        start < MODULUS,
        end < MODULUS,
    ensures
        acknowledgement(
            ack_range_wire(
                if confirms {
                    0xc0
                } else {
                    0xa0
                },
                start,
                end,
            ),
        ) == Ok::<Option<(bool, Seq<(nat, nat)>)>, RakNetError>(
            Some((confirms, seq![(start, end)])),
        ),
{
    broadcast use be_len, le_len, pow256_values, from_be_of_be, from_le_of_le;

    let id: u8 = if confirms {
        0xc0
    } else {
        0xa0
    };
    let s = ack_range_wire(id, start, end);
    assert(s.subrange(1, 3) =~= be(1, 2));
    assert(s.subrange(4, 7) =~= le(start, 3));
    if start != end {
        assert(s.subrange(7, 10) =~= le(end, 3));
    }
    reveal_with_fuel(ranges_at, 2);
    assert(seq![(start, end)] + Seq::<(nat, nat)>::empty() =~= seq![(start, end)]);
}

} // verus!
