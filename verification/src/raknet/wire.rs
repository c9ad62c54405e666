//! The RakNet packets: offline handshake, datagrams, acknowledgements and control payloads.

use crate::bytes::{
    be, from_be, from_le, from_le_bound, le, pow256_values, push_be, push_le, to_signed,
    to_unsigned, unsigned64,
};
use crate::raknet::address::{write_address, PeerAddress};
use crate::raknet::budget::{budget_check, ensure_budget, RakNetBudgets};
use crate::raknet::error::{RakNetError, WireError};
use crate::raknet::reader::{bad_magic, magic, magic_bytes, truncated, Reader};
use crate::raknet::sequence::{DatagramSequence, OrderSequence, ReliableSequence};
use vstd::prelude::*;
use vstd::string::*;

verus! {

/// A message of a client that has no connection yet.
#[derive(Clone, Copy, Debug, PartialEq, Eq, Structural)]
pub enum OfflineRequest {
    Ping { time: i64 },
    OpenConnection1 { protocol: u8, mtu: u16 },
    OpenConnection2 { mtu: u16, client_guid: i64 },
}

/// Where the address that starts at `at` ends, or why there is none.
pub open spec fn address_end(s: Seq<u8>, at: int) -> Result<int, RakNetError> {
    if at + 1 > s.len() {
        Err(truncated())
    } else if s[at] == 4 {
        if at + 7 > s.len() {
            Err(truncated())
        } else {
            Ok(at + 7)
        }
    } else if s[at] == 6 {
        if at + 29 > s.len() {
            Err(truncated())
        } else {
            Ok(at + 29)
        }
    } else {
        Err(RakNetError::Wire(WireError::AddressVersion(s[at])))
    }
}

/// Whether the mark of offline messages stands at `at`.
pub open spec fn magic_at(s: Seq<u8>, at: int) -> Result<(), RakNetError> {
    if at + 16 > s.len() {
        Err(truncated())
    } else if s.subrange(at, at + 16) != magic() {
        Err(bad_magic())
    } else {
        Ok(())
    }
}

/// The signed number in the eight bytes at `at`.
pub open spec fn i64_at(s: Seq<u8>, at: int) -> i64 {
    to_signed(from_be(s.subrange(at, at + 8)), 8) as i64
}

/// The offline message in `s`: none where the first byte names no such message.
pub open spec fn offline_request(s: Seq<u8>) -> Result<Option<OfflineRequest>, RakNetError> {
    if s.len() == 0 {
        Ok(None)
    } else if s[0] == 0x01 || s[0] == 0x02 {
        if s.len() < 9 {
            Err(truncated())
        } else if magic_at(s, 9) is Err {
            Err(magic_at(s, 9)->Err_0)
        } else if s.len() < 33 {
            Err(truncated())
        } else {
            Ok(Some(OfflineRequest::Ping { time: i64_at(s, 1) }))
        }
    } else if s[0] == 0x05 {
        if magic_at(s, 1) is Err {
            Err(magic_at(s, 1)->Err_0)
        } else if s.len() < 18 {
            Err(truncated())
        } else {
            let mtu = if s.len() > 0xffff {
                0xffffu16
            } else {
                s.len() as u16
            };
            Ok(Some(OfflineRequest::OpenConnection1 { protocol: s[17], mtu }))
        }
    } else if s[0] == 0x07 {
        if magic_at(s, 1) is Err {
            Err(magic_at(s, 1)->Err_0)
        } else {
            match address_end(s, 17) {
                Err(e) => Err(e),
                Ok(end) => if end + 10 > s.len() {
                    Err(truncated())
                } else {
                    Ok(
                        Some(
                            OfflineRequest::OpenConnection2 {
                                mtu: from_be(s.subrange(end, end + 2)) as u16,
                                client_guid: i64_at(s, end + 2),
                            },
                        ),
                    )
                },
            }
        }
    } else {
        Ok(None)
    }
}

fn skip_address(reader: &mut Reader<'_>) -> (result: Result<(), RakNetError>)
    requires
        old(reader).wf(),
    ensures
        final(reader).bytes@ == old(reader).bytes@,
        final(reader).wf(),
        match address_end(old(reader).bytes@, old(reader).cursor as int) {
            Ok(end) => result is Ok && final(reader).cursor == end,
            Err(e) => result == Err::<(), RakNetError>(e),
        },
{
    let version: u8 = reader.u8()?;
    if version == 4 {
        reader.skip(4)?;
        reader.u16_be()?;
        Ok(())
    } else if version == 6 {
        reader.skip(2)?;
        reader.u16_be()?;
        reader.u32_be()?;
        reader.skip(16)?;
        reader.u32_be()?;
        Ok(())
    } else {
        Err(RakNetError::Wire(WireError::AddressVersion(version)))
    }
}

/// Reads an offline message.
pub fn decode_offline_request(bytes: &[u8]) -> (result: Result<Option<OfflineRequest>, RakNetError>)
    ensures
        result == offline_request(bytes@),
{
    if bytes.len() == 0 {
        return Ok(None);
    }
    let mut reader = Reader::new(bytes);
    let id: u8 = reader.u8()?;
    if id == 0x01 || id == 0x02 {
        let time: i64 = reader.i64_be()?;
        reader.magic()?;
        let _client_guid: i64 = reader.i64_be()?;
        Ok(Some(OfflineRequest::Ping { time }))
    } else if id == 0x05 {
        reader.magic()?;
        let protocol: u8 = reader.u8()?;
        let mtu: u16 = if bytes.len() > 0xffff {
            0xffff
        } else {
            bytes.len() as u16
        };
        Ok(Some(OfflineRequest::OpenConnection1 { protocol, mtu }))
    } else if id == 0x07 {
        reader.magic()?;
        skip_address(&mut reader)?;
        let mtu: u16 = reader.u16_be()?;
        let client_guid: i64 = reader.i64_be()?;
        Ok(Some(OfflineRequest::OpenConnection2 { mtu, client_guid }))
    } else {
        Ok(None)
    }
}

/// The eight bytes of a signed number.
pub open spec fn i64_wire(n: i64) -> Seq<u8> {
    be(to_unsigned(n as int, 8), 8)
}

fn push_i64(output: &mut Vec<u8>, value: i64)
    ensures
        final(output)@ == old(output)@ + i64_wire(value),
{
    push_be(output, unsigned64(value), 8);
}

fn push_all(output: &mut Vec<u8>, bytes: &[u8])
    ensures
        final(output)@ == old(output)@ + bytes@,
{
    output.extend_from_slice(bytes);
    assert(output@ =~= old(output)@ + bytes@);
}

fn push_magic(output: &mut Vec<u8>)
    ensures
        final(output)@ == old(output)@ + magic(),
{
    let mark = magic_bytes();
    push_all(output, mark.as_slice());
}

/// The bytes of a pong that carries the server's advertisement.
pub open spec fn unconnected_pong(time: i64, server_guid: i64, motd: Seq<u8>) -> Seq<u8> {
    seq![0x1cu8] + i64_wire(time) + i64_wire(server_guid) + magic() + be(motd.len(), 2) + motd
}

/// Writes a pong; an advertisement longer than sixteen bits can count is refused.
pub fn encode_unconnected_pong(time: i64, server_guid: i64, motd: &str) -> (result: Result<
    Vec<u8>,
    RakNetError,
>)
    ensures
        match result {
            Ok(output) => motd.spec_bytes().len() <= 0xffff && output@ == unconnected_pong(
                time,
                server_guid,
                motd.spec_bytes(),
            ),
            Err(e) => motd.spec_bytes().len() > 0xffff && e == RakNetError::Wire(
                WireError::Fault("raknet pong motd exceeded u16 length"),
            ),
        },
{
    let motd = motd.as_bytes();
    if motd.len() > 0xffff {
        return Err(RakNetError::Wire(WireError::Fault("raknet pong motd exceeded u16 length")));
    }
    let mut output: Vec<u8> = Vec::new();
    output.push(0x1c);
    push_i64(&mut output, time);
    push_i64(&mut output, server_guid);
    push_magic(&mut output);
    push_be(&mut output, motd.len() as u64, 2);
    push_all(&mut output, motd);
    assert(output@ =~= unconnected_pong(time, server_guid, motd@));
    Ok(output)
}

/// The bytes of the first open-connection reply.
pub open spec fn open_connection_reply_1(server_guid: i64, mtu: u16) -> Seq<u8> {
    seq![0x06u8] + magic() + i64_wire(server_guid) + seq![0u8] + be(mtu as nat, 2)
}

/// Writes the first open-connection reply.
pub fn encode_open_connection_reply_1(server_guid: i64, mtu: u16) -> (output: Vec<u8>)
    ensures
        output@ == open_connection_reply_1(server_guid, mtu),
{
    let mut output: Vec<u8> = Vec::new();
    output.push(0x06);
    push_magic(&mut output);
    push_i64(&mut output, server_guid);
    output.push(0);
    push_be(&mut output, mtu as u64, 2);
    assert(output@ =~= open_connection_reply_1(server_guid, mtu));
    output
}

/// The bytes of the refusal of a protocol version.
pub open spec fn incompatible_protocol(protocol: u8, server_guid: i64) -> Seq<u8> {
    seq![0x19u8, protocol] + magic() + i64_wire(server_guid)
}

/// Writes the refusal of a protocol version.
pub fn encode_incompatible_protocol(protocol: u8, server_guid: i64) -> (output: Vec<u8>)
    ensures
        output@ == incompatible_protocol(protocol, server_guid),
{
    let mut output: Vec<u8> = Vec::new();
    output.push(0x19);
    output.push(protocol);
    push_magic(&mut output);
    push_i64(&mut output, server_guid);
    assert(output@ =~= incompatible_protocol(protocol, server_guid));
    output
}

/// The bytes of the second open-connection reply.
pub open spec fn open_connection_reply_2(
    server_guid: i64,
    client_addr: PeerAddress,
    mtu: u16,
) -> Seq<u8> {
    seq![0x08u8] + magic() + i64_wire(server_guid) + client_addr.wire() + be(mtu as nat, 2) + seq![
        0u8,
    ]
}

/// Writes the second open-connection reply.
pub fn encode_open_connection_reply_2(
    server_guid: i64,
    client_addr: PeerAddress,
    mtu: u16,
) -> (output: Vec<u8>)
    ensures
        output@ == open_connection_reply_2(server_guid, client_addr, mtu),
{
    let mut output: Vec<u8> = Vec::new();
    output.push(0x08);
    push_magic(&mut output);
    push_i64(&mut output, server_guid);
    write_address(&mut output, client_addr);
    push_be(&mut output, mtu as u64, 2);
    output.push(0);
    assert(output@ =~= open_connection_reply_2(server_guid, client_addr, mtu));
    output
}

/// How a frame is delivered.
#[derive(Clone, Copy, Debug, PartialEq, Eq, Structural)]
pub enum Reliability {
    Unreliable,
    UnreliableSequenced,
    Reliable,
    ReliableOrdered,
    ReliableSequenced,
    UnreliableWithReceipt,
    ReliableWithReceipt,
    ReliableOrderedWithReceipt,
}

impl Reliability {
    /// The number of the reliability on the wire.
    pub open spec fn spec_tag(self) -> u8 {
        match self {
            Reliability::Unreliable => 0,
            Reliability::UnreliableSequenced => 1,
            Reliability::Reliable => 2,
            Reliability::ReliableOrdered => 3,
            Reliability::ReliableSequenced => 4,
            Reliability::UnreliableWithReceipt => 5,
            Reliability::ReliableWithReceipt => 6,
            Reliability::ReliableOrderedWithReceipt => 7,
        }
    }

    /// The reliability with a given number.
    pub open spec fn of_tag(tag: u8) -> Self {
        if tag == 0 {
            Reliability::Unreliable
        } else if tag == 1 {
            Reliability::UnreliableSequenced
        } else if tag == 2 {
            Reliability::Reliable
        } else if tag == 3 {
            Reliability::ReliableOrdered
        } else if tag == 4 {
            Reliability::ReliableSequenced
        } else if tag == 5 {
            Reliability::UnreliableWithReceipt
        } else if tag == 6 {
            Reliability::ReliableWithReceipt
        } else {
            Reliability::ReliableOrderedWithReceipt
        }
    }

    pub open spec fn spec_reliable(self) -> bool {
        self.spec_tag() == 2 || self.spec_tag() == 3 || self.spec_tag() == 4 || self.spec_tag() == 6
            || self.spec_tag() == 7
    }

    pub open spec fn spec_sequenced(self) -> bool {
        self.spec_tag() == 1 || self.spec_tag() == 4
    }

    pub open spec fn spec_ordered(self) -> bool {
        self.spec_tag() == 1 || self.spec_tag() == 3 || self.spec_tag() == 4 || self.spec_tag() == 7
    }

    /// The reliability with a given number; numbers above seven name none.
    pub fn from_tag(tag: u8) -> (result: Result<Self, RakNetError>)
        ensures
            tag <= 7 ==> result == Ok::<Self, RakNetError>(Reliability::of_tag(tag)),
            tag > 7 ==> result == Err::<Self, RakNetError>(
                RakNetError::Wire(WireError::ReliabilityTag(tag)),
            ),
    {
        match tag {
            0 => Ok(Reliability::Unreliable),
            1 => Ok(Reliability::UnreliableSequenced),
            2 => Ok(Reliability::Reliable),
            3 => Ok(Reliability::ReliableOrdered),
            4 => Ok(Reliability::ReliableSequenced),
            5 => Ok(Reliability::UnreliableWithReceipt),
            6 => Ok(Reliability::ReliableWithReceipt),
            7 => Ok(Reliability::ReliableOrderedWithReceipt),
            _ => Err(RakNetError::Wire(WireError::ReliabilityTag(tag))),
        }
    }

    /// The number of the reliability on the wire.
    pub fn tag(self) -> (result: u8)
        ensures
            result == self.spec_tag(),
    {
        match self {
            Reliability::Unreliable => 0,
            Reliability::UnreliableSequenced => 1,
            Reliability::Reliable => 2,
            Reliability::ReliableOrdered => 3,
            Reliability::ReliableSequenced => 4,
            Reliability::UnreliableWithReceipt => 5,
            Reliability::ReliableWithReceipt => 6,
            Reliability::ReliableOrderedWithReceipt => 7,
        }
    }

    /// Whether the frame is numbered so that duplicates can be told.
    pub fn reliable(self) -> (result: bool)
        ensures
            result == self.spec_reliable(),
    {
        matches!(
            self,
            Reliability::Reliable
                | Reliability::ReliableOrdered
                | Reliability::ReliableSequenced
                | Reliability::ReliableWithReceipt
                | Reliability::ReliableOrderedWithReceipt
        )
    }

    /// Whether only the newest frame of the channel counts.
    pub fn sequenced(self) -> (result: bool)
        ensures
            result == self.spec_sequenced(),
    {
        matches!(self, Reliability::UnreliableSequenced | Reliability::ReliableSequenced)
    }

    /// Whether the frame has a place in the order of its channel.
    pub fn ordered(self) -> (result: bool)
        ensures
            result == self.spec_ordered(),
    {
        matches!(
            self,
            Reliability::UnreliableSequenced
                | Reliability::ReliableOrdered
                | Reliability::ReliableSequenced
                | Reliability::ReliableOrderedWithReceipt
        )
    }
}

/// The place of a fragment in the payload it is a part of.
#[derive(Clone, Copy, Debug, PartialEq, Eq, Structural)]
pub struct SplitHeader {
    pub count: u32,
    pub id: u16,
    pub index: u32,
}

/// One frame of a datagram.
#[derive(Clone, Debug)]
pub struct Frame {
    pub reliability: Reliability,
    pub reliable_index: Option<ReliableSequence>,
    pub sequence_index: Option<OrderSequence>,
    pub order_index: Option<OrderSequence>,
    pub order_channel: u8,
    pub split: Option<SplitHeader>,
    pub payload: Vec<u8>,
}

/// What a frame says.
pub struct FrameView {
    pub reliability: Reliability,
    pub reliable_index: Option<nat>,
    pub sequence_index: Option<nat>,
    pub order_index: Option<nat>,
    pub order_channel: u8,
    pub split: Option<SplitHeader>,
    pub payload: Seq<u8>,
}

/// The number of a reliable sequence that may be absent.
pub open spec fn reliable_value(index: Option<ReliableSequence>) -> Option<nat> {
    match index {
        Some(sequence) => Some(sequence@),
        None => None,
    }
}

/// The number of an order sequence that may be absent.
pub open spec fn order_value(index: Option<OrderSequence>) -> Option<nat> {
    match index {
        Some(sequence) => Some(sequence@),
        None => None,
    }
}

impl View for Frame {
    type V = FrameView;

    open spec fn view(&self) -> FrameView {
        FrameView {
            reliability: self.reliability,
            reliable_index: reliable_value(self.reliable_index),
            sequence_index: order_value(self.sequence_index),
            order_index: order_value(self.order_index),
            order_channel: self.order_channel,
            split: self.split,
            payload: self.payload@,
        }
    }
}

/// A numbered packet of frames.
#[derive(Debug)]
pub struct Datagram {
    pub sequence: DatagramSequence,
    pub frames: Vec<Frame>,
}

/// What the frames of a list say.
pub open spec fn frame_views(frames: Seq<Frame>) -> Seq<FrameView> {
    frames.map_values(|frame: Frame| frame@)
}

/// The number in the three bytes at `at`.
pub open spec fn u24_at(s: Seq<u8>, at: int) -> nat {
    from_le(s.subrange(at, at + 3))
}

/// The number in the `width` bytes at `at`, most significant first.
pub open spec fn be_at(s: Seq<u8>, at: int, width: int) -> nat {
    from_be(s.subrange(at, at + width))
}

/// How many bytes hold `bits` bits.
pub open spec fn byte_count(bits: nat) -> nat {
    (bits + 7) / 8
}

/// Where the parts of the frame at `at` lie: the reliable index, the sequence index, the order
/// index, the fragment header, the payload and the end.
pub open spec fn frame_layout(s: Seq<u8>, at: int) -> (int, int, int, int, int, int) {
    let reliability = Reliability::of_tag(s[at] / 32);
    let reliable_at = at + 3;
    let sequence_at = reliable_at + if reliability.spec_reliable() {
        3int
    } else {
        0
    };
    let order_at = sequence_at + if reliability.spec_sequenced() {
        3int
    } else {
        0
    };
    let split_at = order_at + if reliability.spec_ordered() {
        4int
    } else {
        0
    };
    let payload_at = split_at + if (s[at] / 16) % 2 == 1 {
        10int
    } else {
        0
    };
    let end = payload_at + byte_count(be_at(s, at + 1, 2));
    (reliable_at, sequence_at, order_at, split_at, payload_at, end)
}

/// The frame at `at`, whose parts all lie within `s`.
pub open spec fn frame_at(s: Seq<u8>, at: int) -> FrameView {
    let reliability = Reliability::of_tag(s[at] / 32);
    let (reliable_at, sequence_at, order_at, split_at, payload_at, end) = frame_layout(s, at);
    FrameView {
        reliability,
        reliable_index: if reliability.spec_reliable() {
            Some(u24_at(s, reliable_at))
        } else {
            None
        },
        sequence_index: if reliability.spec_sequenced() {
            Some(u24_at(s, sequence_at))
        } else {
            None
        },
        order_index: if reliability.spec_ordered() {
            Some(u24_at(s, order_at))
        } else {
            None
        },
        order_channel: if reliability.spec_ordered() {
            s[order_at + 3]
        } else {
            0
        },
        split: if (s[at] / 16) % 2 == 1 {
            Some(
                SplitHeader {
                    count: be_at(s, split_at, 4) as u32,
                    id: be_at(s, split_at + 4, 2) as u16,
                    index: be_at(s, split_at + 6, 4) as u32,
                },
            )
        } else {
            None
        },
        payload: s.subrange(payload_at, end),
    }
}

/// The frame at `at` and where it ends, or why there is none.
pub open spec fn next_frame(s: Seq<u8>, at: int, max_payload: usize) -> Result<
    (FrameView, int),
    RakNetError,
> {
    if at + 3 > s.len() {
        Err(truncated())
    } else {
        let payload_len = byte_count(be_at(s, at + 1, 2));
        match budget_check("frame payload bytes", payload_len as usize, max_payload) {
            Err(e) => Err(RakNetError::Budget(e)),
            Ok(_) => {
                let end = frame_layout(s, at).5;
                if end > s.len() {
                    Err(truncated())
                } else {
                    Ok((frame_at(s, at), end))
                }
            },
        }
    }
}

/// The frames from `at` to the end of the packet.
pub open spec fn frames_from(s: Seq<u8>, at: int, max_payload: usize) -> Result<
    Seq<FrameView>,
    RakNetError,
>
    decreases s.len() - at,
{
    if at >= s.len() {
        Ok(Seq::empty())
    } else {
        match next_frame(s, at, max_payload) {
            Err(e) => Err(e),
            Ok((frame, end)) => if end <= at {
                Err(truncated())
            } else {
                match frames_from(s, end, max_payload) {
                    Err(e) => Err(e),
                    Ok(rest) => Ok(seq![frame] + rest),
                }
            },
        }
    }
}

/// The datagram in `s`: its number and its frames.
pub open spec fn datagram(s: Seq<u8>, budgets: RakNetBudgets) -> Result<
    (nat, Seq<FrameView>),
    RakNetError,
> {
    match budget_check("datagram bytes", s.len() as usize, budgets.max_datagram_bytes) {
        Err(e) => Err(RakNetError::Budget(e)),
        Ok(_) => if s.len() == 0 {
            Err(truncated())
        } else if s[0] < 0x80 || (s[0] / 32) % 4 != 0 {
            Err(RakNetError::Wire(WireError::DatagramFlags(s[0])))
        } else if s.len() < 4 {
            Err(truncated())
        } else {
            match frames_from(s, 4, budgets.max_payload_bytes) {
                Err(e) => Err(e),
                Ok(frames) => Ok((u24_at(s, 1), frames)),
            }
        },
    }
}

/// What a datagram says.
pub open spec fn datagram_view(d: Datagram) -> (nat, Seq<FrameView>) {
    (d.sequence@, frame_views(d.frames@))
}

fn decode_frame(reader: &mut Reader<'_>, max_payload: usize) -> (result: Result<Frame, RakNetError>)
    requires
        old(reader).wf(),
        old(reader).cursor < old(reader).bytes@.len(),
    ensures
        final(reader).bytes@ == old(reader).bytes@,
        final(reader).wf(),
        match result {
            Ok(frame) => next_frame(old(reader).bytes@, old(reader).cursor as int, max_payload)
                == Ok::<(FrameView, int), RakNetError>((frame@, final(reader).cursor as int))
                && final(reader).cursor > old(reader).cursor,
            Err(e) => next_frame(old(reader).bytes@, old(reader).cursor as int, max_payload)
                == Err::<(FrameView, int), RakNetError>(e),
        },
{
    broadcast use pow256_values, from_le_bound;

    let ghost s = reader.bytes@;
    let ghost at = reader.cursor as int;
    let ghost (reliable_at, sequence_at, order_at, split_at, payload_at, end) = frame_layout(s, at);
    let flags: u8 = reader.u8()?;
    proof {
        assert(flags >> 5 == flags / 32) by (bit_vector);
        assert((flags & 0x10 != 0) == ((flags / 16) % 2 == 1)) by (bit_vector);
    }
    let reliability = Reliability::from_tag(flags >> 5)?;
    let bit_len: usize = reader.u16_be()? as usize;
    let byte_len: usize = (bit_len + 7) / 8;
    if let Err(e) = ensure_budget("frame payload bytes", byte_len, max_payload) {
        return Err(RakNetError::Budget(e));
    }
    let reliable_index = if reliability.reliable() {
        Some(ReliableSequence::new(reader.u24_le()?))
    } else {
        None
    };
    assert(reader.cursor == sequence_at);
    let sequence_index = if reliability.sequenced() {
        Some(OrderSequence::new(reader.u24_le()?))
    } else {
        None
    };
    assert(reader.cursor == order_at);
    let mut order_index: Option<OrderSequence> = None;
    let mut order_channel: u8 = 0;
    if reliability.ordered() {
        order_index = Some(OrderSequence::new(reader.u24_le()?));
        order_channel = reader.u8()?;
    }
    assert(reader.cursor == split_at);
    let split = if flags & 0x10 != 0 {
        let count: u32 = reader.u32_be()?;
        let id: u16 = reader.u16_be()?;
        let index: u32 = reader.u32_be()?;
        Some(SplitHeader { count, id, index })
    } else {
        None
    };
    assert(reader.cursor == payload_at);
    let body = reader.take(byte_len)?;
    let mut payload: Vec<u8> = Vec::new();
    push_all(&mut payload, body);
    assert(payload@ =~= body@);
    Ok(
        Frame {
            reliability,
            reliable_index,
            sequence_index,
            order_index,
            order_channel,
            split,
            payload,
        },
    )
}

/// Reads a datagram.
pub fn decode_datagram(bytes: &[u8], budgets: RakNetBudgets) -> (result: Result<
    Datagram,
    RakNetError,
>)
    ensures
        match result {
            Ok(d) => datagram(bytes@, budgets) == Ok::<(nat, Seq<FrameView>), RakNetError>(
                datagram_view(d),
            ),
            Err(e) => datagram(bytes@, budgets) == Err::<(nat, Seq<FrameView>), RakNetError>(e),
        },
{
    broadcast use pow256_values, from_le_bound;

    if let Err(e) = ensure_budget("datagram bytes", bytes.len(), budgets.max_datagram_bytes) {
        return Err(RakNetError::Budget(e));
    }
    let mut reader = Reader::new(bytes);
    let flags: u8 = reader.u8()?;
    proof {
        assert((flags & 0x80 == 0) == (flags < 0x80)) by (bit_vector);
        assert((flags & 0x60 != 0) == ((flags / 32) % 4 != 0)) by (bit_vector);
    }
    if flags & 0x80 == 0 || flags & 0x60 != 0 {
        return Err(RakNetError::Wire(WireError::DatagramFlags(flags)));
    }
    let sequence = DatagramSequence::new(reader.u24_le()?);
    let mut frames: Vec<Frame> = Vec::new();
    let ghost whole = frames_from(bytes@, 4, budgets.max_payload_bytes);
    assert(frame_views(frames@) =~= Seq::empty());
    assert(whole is Ok ==> Seq::empty() + whole->Ok_0 =~= whole->Ok_0);
    while !reader.is_empty()
        invariant
            reader.wf(),
            reader.bytes@ == bytes@,
            datagram(bytes@, budgets) == (match whole {
                Ok(all) => Ok::<(nat, Seq<FrameView>), RakNetError>((sequence@, all)),
                Err(e) => Err(e),
            }),
            match frames_from(bytes@, reader.cursor as int, budgets.max_payload_bytes) {
                Ok(rest) => whole == Ok::<Seq<FrameView>, RakNetError>(frame_views(frames@) + rest),
                Err(e) => whole == Err::<Seq<FrameView>, RakNetError>(e),
            },
        decreases bytes@.len() - reader.cursor,
    {
        let ghost at = reader.cursor as int;
        let ghost before = frames@;
        let decoded = decode_frame(&mut reader, budgets.max_payload_bytes);
        match decoded {
            Err(e) => {
                assert(datagram(bytes@, budgets) == Err::<(nat, Seq<FrameView>), RakNetError>(e));
                return Err(e);
            },
            Ok(frame) => {
                let ghost rest = frames_from(
                    bytes@,
                    reader.cursor as int,
                    budgets.max_payload_bytes,
                );
                frames.push(frame);
                proof {
                    assert(frame_views(frames@) =~= frame_views(before).push(frame@));
                    if rest is Ok {
                        assert(frame_views(before) + (seq![frame@] + rest->Ok_0) =~= frame_views(
                            frames@,
                        ) + rest->Ok_0);
                    }
                }
            },
        }
    }
    assert(frame_views(frames@) + Seq::<FrameView>::empty() =~= frame_views(frames@));
    Ok(Datagram { sequence, frames })
}

/// The three bytes of a sequence number that may be absent.
pub open spec fn u24_wire(index: Option<nat>) -> Seq<u8> {
    match index {
        Some(n) => le(n, 3),
        None => Seq::empty(),
    }
}

/// The bytes of a frame after its flags and length.
pub open spec fn frame_tail(frame: FrameView) -> Seq<u8> {
    u24_wire(frame.reliable_index) + u24_wire(frame.sequence_index) + (match frame.order_index {
        Some(n) => le(n, 3).push(frame.order_channel),
        None => Seq::empty(),
    }) + (match frame.split {
        Some(split) => be(split.count as nat, 4) + be(split.id as nat, 2) + be(
            split.index as nat,
            4,
        ),
        None => Seq::empty(),
    }) + frame.payload
}

/// The length of a payload in bits, or the largest number that fits if it does not.
pub open spec fn bit_length(payload_len: nat) -> nat {
    if payload_len * 8 > 0xffff {
        0xffff
    } else {
        payload_len * 8
    }
}

/// The flag byte of a frame.
pub open spec fn frame_flags(frame: FrameView) -> u8 {
    (frame.reliability.spec_tag() * 32 + if frame.split is Some {
        16int
    } else {
        0
    }) as u8
}

/// The bytes of a datagram with one frame.
pub open spec fn datagram_wire(sequence: nat, frame: FrameView) -> Seq<u8> {
    seq![0x84u8] + le(sequence, 3) + seq![frame_flags(frame)] + be(
        bit_length(frame.payload.len()),
        2,
    ) + frame_tail(frame)
}

fn push_indices(output: &mut Vec<u8>, frame: &Frame)
    ensures
        final(output)@ == old(output)@ + (u24_wire(frame@.reliable_index) + u24_wire(
            frame@.sequence_index,
        ) + (match frame@.order_index {
            Some(n) => le(n, 3).push(frame@.order_channel),
            None => Seq::empty(),
        })),
{
    if let Some(index) = frame.reliable_index {
        push_le(output, index.value() as u64, 3);
    }
    assert(output@ =~= old(output)@ + u24_wire(frame@.reliable_index));
    if let Some(index) = frame.sequence_index {
        push_le(output, index.value() as u64, 3);
    }
    assert(output@ =~= old(output)@ + (u24_wire(frame@.reliable_index) + u24_wire(
        frame@.sequence_index,
    )));
    let ghost middle = output@;
    if let Some(index) = frame.order_index {
        push_le(output, index.value() as u64, 3);
        output.push(frame.order_channel);
        assert(output@ =~= middle + le(index@, 3).push(frame.order_channel));
    } else {
        assert(output@ =~= middle + Seq::<u8>::empty());
    }
    assert(output@ =~= old(output)@ + (u24_wire(frame@.reliable_index) + u24_wire(
        frame@.sequence_index,
    ) + (match frame@.order_index {
        Some(n) => le(n, 3).push(frame@.order_channel),
        None => Seq::empty(),
    })));
}

fn push_frame_tail(output: &mut Vec<u8>, frame: &Frame)
    ensures
        final(output)@ == old(output)@ + frame_tail(frame@),
{
    push_indices(output, frame);
    let ghost middle = output@;
    if let Some(split) = frame.split {
        push_be(output, split.count as u64, 4);
        push_be(output, split.id as u64, 2);
        push_be(output, split.index as u64, 4);
        assert(output@ =~= middle + (be(split.count as nat, 4) + be(split.id as nat, 2) + be(
            split.index as nat,
            4,
        )));
    } else {
        assert(output@ =~= middle + Seq::<u8>::empty());
    }
    push_all(output, frame.payload.as_slice());
    assert(output@ =~= old(output)@ + frame_tail(frame@));
}

/// Writes a datagram with one frame.
pub fn encode_datagram(sequence: DatagramSequence, frame: &Frame) -> (output: Vec<u8>)
    ensures
        output@ == datagram_wire(sequence@, frame@),
{
    let mut output: Vec<u8> = Vec::new();
    output.push(0x84);
    push_le(&mut output, sequence.value() as u64, 3);
    let tag: u8 = frame.reliability.tag();
    let split_flag: u8 = if frame.split.is_some() {
        0x10
    } else {
        0
    };
    proof {
        assert(tag <= 7 && (split_flag == 0x10 || split_flag == 0) ==> (tag << 5) | split_flag == (
        tag * 32 + split_flag) as u8) by (bit_vector);
    }
    output.push((tag << 5) | split_flag);
    let bits: u64 = if frame.payload.len() > 8191 {
        0xffff
    } else {
        frame.payload.len() as u64 * 8
    };
    push_be(&mut output, bits, 2);
    let ghost head = output@;
    assert(head =~= seq![0x84u8] + le(sequence@, 3) + seq![frame_flags(frame@)] + be(
        bit_length(frame@.payload.len()),
        2,
    ));
    push_frame_tail(&mut output, frame);
    assert(output@ == head + frame_tail(frame@));
    assert(output@ =~= datagram_wire(sequence@, frame@));
    output
}

/// Ranges of datagrams that arrived or went missing.
#[derive(Debug)]
pub enum Acknowledgement {
    Ack(Vec<(DatagramSequence, DatagramSequence)>),
    Nack(Vec<(DatagramSequence, DatagramSequence)>),
}

/// The numbers that bound the ranges of a list.
pub open spec fn range_values(ranges: Seq<(DatagramSequence, DatagramSequence)>) -> Seq<
    (nat, nat),
> {
    ranges.map_values(|range: (DatagramSequence, DatagramSequence)| (range.0@, range.1@))
}

/// What an acknowledgement says: whether it confirms, and its ranges.
pub open spec fn acknowledgement_view(ack: Acknowledgement) -> (bool, Seq<(nat, nat)>) {
    match ack {
        Acknowledgement::Ack(ranges) => (true, range_values(ranges@)),
        Acknowledgement::Nack(ranges) => (false, range_values(ranges@)),
    }
}

/// The `count` ranges that stand at `at`.
pub open spec fn ranges_at(s: Seq<u8>, at: int, count: nat) -> Result<Seq<(nat, nat)>, RakNetError>
    decreases count,
{
    if count == 0 {
        Ok(Seq::empty())
    } else if at + 4 > s.len() {
        Err(truncated())
    } else {
        let start = u24_at(s, at + 1);
        if s[at] != 0 {
            match ranges_at(s, at + 4, (count - 1) as nat) {
                Err(e) => Err(e),
                Ok(rest) => Ok(seq![(start, start)] + rest),
            }
        } else if at + 7 > s.len() {
            Err(truncated())
        } else {
            match ranges_at(s, at + 7, (count - 1) as nat) {
                Err(e) => Err(e),
                Ok(rest) => Ok(seq![(start, u24_at(s, at + 4))] + rest),
            }
        }
    }
}

/// The acknowledgement in `s`: none where the first byte names no such packet.
pub open spec fn acknowledgement(s: Seq<u8>) -> Result<
    Option<(bool, Seq<(nat, nat)>)>,
    RakNetError,
> {
    if s.len() == 0 || (s[0] != 0xa0 && s[0] != 0xc0) {
        Ok(None)
    } else if s.len() < 3 {
        Err(truncated())
    } else {
        match ranges_at(s, 3, be_at(s, 1, 2)) {
            Err(e) => Err(e),
            Ok(ranges) => Ok(Some((s[0] == 0xc0, ranges))),
        }
    }
}

/// Reads an acknowledgement.
pub fn decode_acknowledgement(bytes: &[u8]) -> (result: Result<
    Option<Acknowledgement>,
    RakNetError,
>)
    ensures
        match result {
            Ok(Some(ack)) => acknowledgement(bytes@) == Ok::<
                Option<(bool, Seq<(nat, nat)>)>,
                RakNetError,
            >(Some(acknowledgement_view(ack))),
            Ok(None) => acknowledgement(bytes@) == Ok::<
                Option<(bool, Seq<(nat, nat)>)>,
                RakNetError,
            >(None),
            Err(e) => acknowledgement(bytes@) == Err::<
                Option<(bool, Seq<(nat, nat)>)>,
                RakNetError,
            >(e),
        },
{
    broadcast use pow256_values, from_le_bound;

    if bytes.len() == 0 {
        return Ok(None);
    }
    let id: u8 = bytes[0];
    if id != 0xa0 && id != 0xc0 {
        return Ok(None);
    }
    let mut reader = Reader::new(bytes);
    reader.u8()?;
    let count: u16 = reader.u16_be()?;
    let mut ranges: Vec<(DatagramSequence, DatagramSequence)> = Vec::new();
    let ghost whole = ranges_at(bytes@, 3, count as nat);
    let mut left: u16 = count;
    assert(range_values(ranges@) =~= Seq::empty());
    assert(whole is Ok ==> Seq::empty() + whole->Ok_0 =~= whole->Ok_0);
    while left > 0
        invariant
            reader.wf(),
            reader.bytes@ == bytes@,
            bytes@.len() >= 3,
            bytes@[0] == 0xa0 || bytes@[0] == 0xc0,
            count as nat == be_at(bytes@, 1, 2),
            whole == ranges_at(bytes@, 3, count as nat),
            match ranges_at(bytes@, reader.cursor as int, left as nat) {
                Ok(rest) => whole == Ok::<Seq<(nat, nat)>, RakNetError>(
                    range_values(ranges@) + rest,
                ),
                Err(e) => whole == Err::<Seq<(nat, nat)>, RakNetError>(e),
            },
        decreases left,
    {
        let ghost at = reader.cursor as int;
        let ghost before = ranges@;
        let single = reader.u8()? != 0;
        let start = DatagramSequence::new(reader.u24_le()?);
        let end = if single {
            start
        } else {
            DatagramSequence::new(reader.u24_le()?)
        };
        let ghost rest = ranges_at(bytes@, reader.cursor as int, (left - 1) as nat);
        ranges.push((start, end));
        left -= 1;
        proof {
            assert(range_values(ranges@) =~= range_values(before).push((start@, end@)));
            if rest is Ok {
                assert(range_values(before) + (seq![(start@, end@)] + rest->Ok_0) =~= range_values(
                    ranges@,
                ) + rest->Ok_0);
            }
        }
    }
    assert(range_values(ranges@) + Seq::<(nat, nat)>::empty() =~= range_values(ranges@));
    if id == 0xc0 {
        Ok(Some(Acknowledgement::Ack(ranges)))
    } else {
        Ok(Some(Acknowledgement::Nack(ranges)))
    }
}

/// The bytes of an acknowledgement of one range.
pub open spec fn ack_range_wire(id: u8, start: nat, end: nat) -> Seq<u8> {
    seq![id] + be(1, 2) + (if start == end {
        seq![1u8] + le(start, 3)
    } else {
        seq![0u8] + le(start, 3) + le(end, 3)
    })
}

fn encode_ack_range(id: u8, start: DatagramSequence, end: DatagramSequence) -> (output: Vec<u8>)
    ensures
        output@ == ack_range_wire(id, start@, end@),
{
    let mut output: Vec<u8> = Vec::new();
    output.push(id);
    push_be(&mut output, 1, 2);
    if start.value() == end.value() {
        output.push(1);
        push_le(&mut output, start.value() as u64, 3);
    } else {
        output.push(0);
        push_le(&mut output, start.value() as u64, 3);
        push_le(&mut output, end.value() as u64, 3);
    }
    assert(output@ =~= ack_range_wire(id, start@, end@));
    output
}

/// Confirms one datagram.
pub fn encode_ack(sequence: DatagramSequence) -> (output: Vec<u8>)
    ensures
        output@ == ack_range_wire(0xc0, sequence@, sequence@),
{
    encode_ack_range(0xc0, sequence, sequence)
}

/// Reports a range of datagrams missing.
pub fn encode_nack(start: DatagramSequence, end: DatagramSequence) -> (output: Vec<u8>)
    ensures
        output@ == ack_range_wire(0xa0, start@, end@),
{
    encode_ack_range(0xa0, start, end)
}

/// The address that stands for no address.
pub open spec fn unspecified() -> PeerAddress {
    PeerAddress::V4 { ip: 0, port: 0 }
}

/// `count` times the wire form of no address.
pub open spec fn unspecified_list(count: nat) -> Seq<u8>
    decreases count,
{
    if count == 0 {
        Seq::empty()
    } else {
        unspecified_list((count - 1) as nat) + unspecified().wire()
    }
}

/// The bytes that accept a connection.
pub open spec fn connection_accept(
    client_addr: PeerAddress,
    request_time: i64,
    timestamp: i64,
) -> Seq<u8> {
    seq![0x10u8] + client_addr.wire() + be(0, 2) + unspecified_list(10) + i64_wire(request_time)
        + i64_wire(timestamp)
}

/// Writes the acceptance of a connection.
pub fn encode_connection_accept(
    client_addr: PeerAddress,
    request_time: i64,
    timestamp: i64,
) -> (output: Vec<u8>)
    ensures
        output@ == connection_accept(client_addr, request_time, timestamp),
{
    let mut output: Vec<u8> = Vec::new();
    output.push(0x10);
    write_address(&mut output, client_addr);
    push_be(&mut output, 0, 2);
    let ghost head = output@;
    let mut i: usize = 0;
    assert(output@ =~= head + unspecified_list(0));
    while i < 10
        invariant
            i <= 10,
            output@ == head + unspecified_list(i as nat),
        decreases 10 - i,
    {
        write_address(&mut output, PeerAddress::V4 { ip: 0, port: 0 });
        i += 1;
        assert(output@ =~= head + unspecified_list(i as nat));
    }
    push_i64(&mut output, request_time);
    push_i64(&mut output, timestamp);
    assert(output@ =~= connection_accept(client_addr, request_time, timestamp));
    output
}

/// The bytes of a pong within a connection.
pub open spec fn connected_pong(ping_time: i64, pong_time: i64) -> Seq<u8> {
    seq![0x03u8] + i64_wire(ping_time) + i64_wire(pong_time)
}

/// Writes a pong within a connection.
pub fn encode_connected_pong(ping_time: i64, pong_time: i64) -> (output: Vec<u8>)
    ensures
        output@ == connected_pong(ping_time, pong_time),
{
    let mut output: Vec<u8> = Vec::new();
    output.push(0x03);
    push_i64(&mut output, ping_time);
    push_i64(&mut output, pong_time);
    assert(output@ =~= connected_pong(ping_time, pong_time));
    output
}

/// The time that a connection request carries, if `s` is one.
pub open spec fn connection_request(s: Seq<u8>) -> Result<Option<i64>, RakNetError> {
    if s.len() == 0 || s[0] != 0x09 {
        Ok(None)
    } else if s.len() < 18 {
        Err(truncated())
    } else {
        Ok(Some(i64_at(s, 9)))
    }
}

/// Reads a connection request.
pub fn decode_connection_request(payload: &[u8]) -> (result: Result<Option<i64>, RakNetError>)
    ensures
        result == connection_request(payload@),
{
    if payload.len() == 0 || payload[0] != 0x09 {
        return Ok(None);
    }
    let mut reader = Reader::new(payload);
    reader.u8()?;
    let _client_guid: i64 = reader.i64_be()?;
    let request_time: i64 = reader.i64_be()?;
    let _security: u8 = reader.u8()?;
    Ok(Some(request_time))
}

/// The time that a ping within a connection carries, if `s` is one.
pub open spec fn connected_ping(s: Seq<u8>) -> Result<Option<i64>, RakNetError> {
    if s.len() == 0 || s[0] != 0x00 {
        Ok(None)
    } else if s.len() < 9 {
        Err(truncated())
    } else {
        Ok(Some(i64_at(s, 1)))
    }
}

/// Reads a ping within a connection.
pub fn decode_connected_ping(payload: &[u8]) -> (result: Result<Option<i64>, RakNetError>)
    ensures
        result == connected_ping(payload@),
{
    if payload.len() == 0 || payload[0] != 0x00 {
        return Ok(None);
    }
    let mut reader = Reader::new(payload);
    reader.u8()?;
    Ok(Some(reader.i64_be()?))
}

} // verus!
