//! How datagrams, frames and acknowledgements stand on the wire, byte for byte.

use crate::bytes::{be, be_len, from_be, from_le, le, le_len, pow256_values};
use crate::raknet::budget::RakNetBudgets;
use crate::raknet::error::RakNetError;
use crate::raknet::resend_laws::are_numbers;
use crate::raknet::wire::{
    ack_range_wire, acknowledgement, be_at, datagram, datagram_wire, frame_at, frame_layout,
    frames_from, next_frame, ranges_at, u24_at, FrameView, Reliability,
};
use crate::raknet::wire_laws::{coherent, datagram_round_trip};
use vstd::prelude::*;

verus! {

/// The number that three bytes spell, least significant first.
pub open spec fn three_bytes(s: Seq<u8>, at: int) -> int {
    s[at] + 0x100 * s[at + 1] + 0x1_0000 * s[at + 2]
}

/// The number that two bytes spell, most significant first.
pub open spec fn two_bytes(s: Seq<u8>, at: int) -> int {
    0x100 * s[at] + s[at + 1]
}

/// The number that four bytes spell, most significant first.
pub open spec fn four_bytes(s: Seq<u8>, at: int) -> int {
    0x100_0000 * s[at] + 0x1_0000 * s[at + 1] + 0x100 * s[at + 2] + s[at + 3]
}

proof fn three_bytes_spell(s: Seq<u8>, at: int)
    requires
        0 <= at,
        at + 3 <= s.len(),
    ensures
        u24_at(s, at) == three_bytes(s, at),
        u24_at(s, at) < 0x100_0000,
{
    let part = s.subrange(at, at + 3);
    reveal_with_fuel(from_le, 4);
    assert(part[0] == s[at] && part[1] == s[at + 1] && part[2] == s[at + 2]);
}

proof fn two_bytes_spell(s: Seq<u8>, at: int)
    requires
        0 <= at,
        at + 2 <= s.len(),
    ensures
        be_at(s, at, 2) == two_bytes(s, at),
{
    let part = s.subrange(at, at + 2);
    reveal_with_fuel(from_be, 3);
    assert(part[0] == s[at] && part[1] == s[at + 1]);
}

proof fn four_bytes_spell(s: Seq<u8>, at: int)
    requires
        0 <= at,
        at + 4 <= s.len(),
    ensures
        be_at(s, at, 4) == four_bytes(s, at),
{
    let part = s.subrange(at, at + 4);
    reveal_with_fuel(from_be, 5);
    assert(part[0] == s[at] && part[1] == s[at + 1] && part[2] == s[at + 2] && part[3] == s[at + 3]);
}

/// Which ways of delivery there are: each has its number, up to seven. Those with the numbers two,
/// three, four, six and seven are numbered so that duplicates can be told; of those with one and
/// four only the newest counts; and those with one, three, four and seven have a place in an order.
pub proof fn ways_of_delivery(r: Reliability, tag: u8)
    requires
        tag <= 7,
    ensures
        Reliability::of_tag(tag) == r <==> r.spec_tag() == tag,
        r.spec_tag() <= 7,
        r is Unreliable ==> r.spec_tag() == 0,
        r is UnreliableSequenced ==> r.spec_tag() == 1,
        r is Reliable ==> r.spec_tag() == 2,
        r is ReliableOrdered ==> r.spec_tag() == 3,
        r is ReliableSequenced ==> r.spec_tag() == 4,
        r is UnreliableWithReceipt ==> r.spec_tag() == 5,
        r is ReliableWithReceipt ==> r.spec_tag() == 6,
        r is ReliableOrderedWithReceipt ==> r.spec_tag() == 7,
        r.spec_reliable() <==> r is Reliable || r is ReliableOrdered || r is ReliableSequenced
            || r is ReliableWithReceipt || r is ReliableOrderedWithReceipt,
        r.spec_sequenced() <==> r is UnreliableSequenced || r is ReliableSequenced,
        r.spec_ordered() <==> r is UnreliableSequenced || r is ReliableOrdered
            || r is ReliableSequenced || r is ReliableOrderedWithReceipt,
{
}

/// An acknowledgement of one range starts with its kind and one as the number of ranges. One number
/// alone follows the byte one; a first and a last number follow the byte zero.
pub proof fn acknowledgement_is_laid_out(id: u8, start: nat, end: nat)
    requires
        start < 0x100_0000,
        end < 0x100_0000,
    ensures
        ({
            let s = ack_range_wire(id, start, end);
            &&& s[0] == id && s[1] == 0 && s[2] == 1
            &&& three_bytes(s, 4) == start
            &&& start == end ==> s.len() == 7 && s[3] == 1
            &&& start != end ==> s.len() == 10 && s[3] == 0 && three_bytes(s, 7) == end
        }),
{
    broadcast use le_len, be_len;

    reveal_with_fuel(le, 4);
    reveal_with_fuel(be, 3);
}

proof fn ranges_are_numbers(s: Seq<u8>, at: int, count: nat)
    requires
        0 <= at,
    ensures
        ranges_at(s, at, count) matches Ok(ranges) ==> are_numbers(ranges) && ranges.len() == count,
    decreases count,
{
    if count > 0 && at + 4 <= s.len() {
        three_bytes_spell(s, at + 1);
        if s[at] != 0 {
            ranges_are_numbers(s, at + 4, (count - 1) as nat);
        } else if at + 7 <= s.len() {
            three_bytes_spell(s, at + 4);
            ranges_are_numbers(s, at + 7, (count - 1) as nat);
        }
    }
}

/// A packet that starts with 0xc0 confirms datagrams, one that starts with 0xa0 reports them
/// missing, and no other does either. It names as many ranges as it says, all of numbers that
/// datagrams have.
pub proof fn acknowledgements_are_recognized(s: Seq<u8>)
    ensures
        acknowledgement(s) matches Ok(None) <==> s.len() == 0 || (s[0] != 0xa0 && s[0] != 0xc0),
        acknowledgement(s) matches Ok(Some((confirms, ranges))) ==> {
            &&& s.len() >= 3
            &&& confirms <==> s[0] == 0xc0
            &&& !confirms <==> s[0] == 0xa0
            &&& ranges.len() == two_bytes(s, 1)
            &&& are_numbers(ranges)
        },
{
    if s.len() >= 3 {
        two_bytes_spell(s, 1);
        ranges_are_numbers(s, 3, be_at(s, 1, 2));
    }
}

/// Each range of an acknowledgement stands behind the one before it: a number alone where its first
/// byte is not zero, and otherwise a first and a last number.
pub proof fn ranges_stand_in_turn(s: Seq<u8>, at: int, count: nat)
    requires
        0 <= at,
        count > 0,
    ensures
        ranges_at(s, at, count) matches Ok(ranges) ==> {
            &&& s.len() >= at + 4
            &&& ranges[0].0 == three_bytes(s, at + 1)
            &&& s[at] != 0 ==> ranges[0].1 == ranges[0].0 && ranges_at(
                s,
                at + 4,
                (count - 1) as nat,
            ) == Ok::<Seq<(nat, nat)>, RakNetError>(ranges.subrange(1, ranges.len() as int))
            &&& s[at] == 0 ==> s.len() >= at + 7 && ranges[0].1 == three_bytes(s, at + 4)
                && ranges_at(s, at + 7, (count - 1) as nat) == Ok::<Seq<(nat, nat)>, RakNetError>(
                ranges.subrange(1, ranges.len() as int),
            )
        },
{
    if let Ok(ranges) = ranges_at(s, at, count) {
        three_bytes_spell(s, at + 1);
        if s[at] != 0 {
            let rest = ranges_at(s, at + 4, (count - 1) as nat)->Ok_0;
            assert(ranges.subrange(1, ranges.len() as int) =~= rest);
        } else {
            three_bytes_spell(s, at + 4);
            let rest = ranges_at(s, at + 7, (count - 1) as nat)->Ok_0;
            assert(ranges.subrange(1, ranges.len() as int) =~= rest);
        }
    }
}

/// Where the payload of a frame starts, by its way of delivery and whether it is a fragment: after
/// one byte of flags, two of its length, three for each number, one for the channel of an order,
/// and ten for the place of a fragment.
pub open spec fn payload_offset(r: Reliability, fragment: bool) -> int {
    3 + (if r.spec_reliable() {
        3int
    } else {
        0
    }) + (if r.spec_sequenced() {
        3int
    } else {
        0
    }) + (if r.spec_ordered() {
        4int
    } else {
        0
    }) + if fragment {
        10int
    } else {
        0
    }
}

/// Whether a frame stands at a place as its bytes say, up to another place.
pub open spec fn stands_at(s: Seq<u8>, at: int, frame: FrameView, end: int) -> bool {
    let r = frame.reliability;
    let sequence_at = at + 3 + if r.spec_reliable() {
        3int
    } else {
        0
    };
    let order_at = sequence_at + if r.spec_sequenced() {
        3int
    } else {
        0
    };
    let payload_at = at + payload_offset(r, frame.split is Some);
    let split_at = payload_at - 10;
    &&& r.spec_tag() == s[at] / 32
    &&& frame.split is Some <==> (s[at] / 16) % 2 == 1
    &&& frame.reliable_index == if r.spec_reliable() {
        Some(three_bytes(s, at + 3) as nat)
    } else {
        None
    }
    &&& frame.sequence_index == if r.spec_sequenced() {
        Some(three_bytes(s, sequence_at) as nat)
    } else {
        None
    }
    &&& frame.order_index == if r.spec_ordered() {
        Some(three_bytes(s, order_at) as nat)
    } else {
        None
    }
    &&& frame.order_channel == if r.spec_ordered() {
        s[order_at + 3]
    } else {
        0
    }
    &&& frame.split matches Some(split) ==> split.count == four_bytes(s, split_at) && split.id
        == two_bytes(s, split_at + 4) && split.index == four_bytes(s, split_at + 6)
    &&& frame.payload == s.subrange(payload_at, end)
    &&& end == payload_at + frame.payload.len()
    &&& 8 * frame.payload.len() - 8 < two_bytes(s, at + 1) <= 8 * frame.payload.len()
}

/// A frame is read as it stands: where all its bytes are there and its payload is not too long, and
/// only then.
pub proof fn frame_is_read_as_it_stands(s: Seq<u8>, at: int, max_payload: usize)
    requires
        0 <= at < s.len(),
    ensures
        next_frame(s, at, max_payload) matches Ok((frame, end)) ==> at < end <= s.len()
            && stands_at(s, at, frame, end) && frame.payload.len() <= max_payload,
        at + 3 > s.len() ==> next_frame(s, at, max_payload) is Err,
        at + 3 <= s.len() && two_bytes(s, at + 1) <= 8 * max_payload && at + payload_offset(
            Reliability::of_tag(s[at] / 32),
            (s[at] / 16) % 2 == 1,
        ) + (two_bytes(s, at + 1) + 7) / 8 <= s.len() ==> next_frame(s, at, max_payload) is Ok,
{
    if at + 3 <= s.len() {
        two_bytes_spell(s, at + 1);
    }
    if let Ok((frame, end)) = next_frame(s, at, max_payload) {
        let (reliable_at, sequence_at, order_at, split_at, payload_at, stop) = frame_layout(s, at);
        ways_of_delivery(frame.reliability, s[at] / 32);
        if frame.reliability.spec_reliable() {
            three_bytes_spell(s, reliable_at);
        }
        if frame.reliability.spec_sequenced() {
            three_bytes_spell(s, sequence_at);
        }
        if frame.reliability.spec_ordered() {
            three_bytes_spell(s, order_at);
        }
        if frame.split is Some {
            four_bytes_spell(s, split_at);
            two_bytes_spell(s, split_at + 4);
            four_bytes_spell(s, split_at + 6);
        }
        assert(frame == frame_at(s, at));
    }
}

/// The frames of a datagram stand one behind the other and fill it: none is left out, and nothing
/// is left over.
pub proof fn frames_stand_in_turn(s: Seq<u8>, at: int, max_payload: usize)
    requires
        0 <= at <= s.len(),
    ensures
        frames_from(s, at, max_payload) matches Ok(frames) ==> {
            &&& frames.len() == 0 <==> at == s.len()
            &&& frames.len() > 0 ==> exists|end: int| #[trigger]
                stands_at(s, at, frames[0], end) && at < end <= s.len() && frames_from(
                    s,
                    end,
                    max_payload,
                ) == Ok::<Seq<FrameView>, RakNetError>(frames.subrange(1, frames.len() as int))
        },
{
    if at < s.len() {
        frame_is_read_as_it_stands(s, at, max_payload);
        if let Ok(frames) = frames_from(s, at, max_payload) {
            let (frame, end) = next_frame(s, at, max_payload)->Ok_0;
            let rest = frames_from(s, end, max_payload)->Ok_0;
            assert(frames == seq![frame] + rest);
            assert(frames.subrange(1, frames.len() as int) =~= rest);
            assert(stands_at(s, at, frames[0], end));
        }
    }
}

/// A datagram is read where it is not too long, its first bit is set and its second and third are
/// not. Its number is in the three bytes that follow.
pub proof fn datagram_is_read_as_it_stands(s: Seq<u8>, budgets: RakNetBudgets)
    requires
        s.len() <= usize::MAX,
    ensures
        datagram(s, budgets) matches Ok((sequence, frames)) ==> {
            &&& 4 <= s.len() <= budgets.max_datagram_bytes
            &&& 0x80 <= s[0] < 0xa0
            &&& sequence == three_bytes(s, 1)
            &&& frames_from(s, 4, budgets.max_payload_bytes) == Ok::<Seq<FrameView>, RakNetError>(
                frames,
            )
        },
        4 <= s.len() <= budgets.max_datagram_bytes && 0x80 <= s[0] < 0xa0 && frames_from(
            s,
            4,
            budgets.max_payload_bytes,
        ) is Ok ==> datagram(s, budgets) is Ok,
{
    if s.len() >= 4 {
        three_bytes_spell(s, 1);
    }
}

/// A datagram that is sent starts with 0x84 and its number; its one frame follows and fills it.
pub proof fn sent_datagram_is_laid_out(sequence: nat, frame: FrameView)
    requires
        sequence < 0x100_0000,
        coherent(frame),
        frame.payload.len() <= 8191,
    ensures
        ({
            let s = datagram_wire(sequence, frame);
            &&& s.len() == 4 + payload_offset(frame.reliability, frame.split is Some)
                + frame.payload.len()
            &&& s[0] == 0x84
            &&& three_bytes(s, 1) == sequence
            &&& stands_at(s, 4, frame, s.len() as int)
        }),
{
    broadcast use le_len, be_len, pow256_values;

    let s = datagram_wire(sequence, frame);
    let budgets = RakNetBudgets {
        max_datagram_bytes: 0xffff,
        max_payload_bytes: 0xffff,
        ..arbitrary()
    };
    datagram_round_trip(sequence, frame, budgets);
    datagram_is_read_as_it_stands(s, budgets);
    frames_stand_in_turn(s, 4, budgets.max_payload_bytes);
    let end = choose|end: int| #[trigger]
        stands_at(s, 4, frame, end) && 4 < end <= s.len() && frames_from(
            s,
            end,
            budgets.max_payload_bytes,
        ) == Ok::<Seq<FrameView>, RakNetError>(seq![frame].subrange(1, 1));
    assert(seq![frame].subrange(1, 1).len() == 0);
    frames_stand_in_turn(s, end, budgets.max_payload_bytes);
}

} // verus!
