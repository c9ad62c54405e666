//! Identifiers, positions and small alternatives on the wire.

use crate::bytes::{be, be_halves, from_be_concat, pow256_values, push_be, take_be};
use crate::codec::binary::{Decoder, Encoder};
use crate::codec::grammar::{
    all_fit, both, case, chosen, fits, key_id, list, pair, parse, parse_list, serialize,
    serialize_from, tagged, unsigned, Cases, Format, ProtocolCodecError, Value,
};
use crate::codec::maps::WireKey;
use crate::codec::wire::{
    append, append_from, append_item, append_list, append_no_item, compound_rules, decode_bytes,
    encode_bytes, int_rules, parse_item, parse_whole_list, read, written, Wire,
};
use crate::model::block::{BlockFace, BlockPos, ChunkPos, DimensionId, Vec3};
use crate::model::chunk::SectionBlockIndex;
use crate::model::ids::{ConnectionId, EntityId, PlayerId, PluginGenerationId};
use crate::model::inventory::{
    InteractionHand, InventoryClickButton, InventoryClickTarget, InventoryClickValidation,
    InventorySlot, InventoryTransactionContext,
};
use crate::model::item::{ItemStack, OpaqueF32, OpaqueF64};
use crate::model::names::{
    AuthProfileId, BlockEntityKindId, ContainerKindId, ContainerPropertyKey, GameplayProfileId,
    StorageProfileId,
};
use crate::model::session::{
    ConnectionPhase, Edition, HandshakeNextState, TransportKind, WireFormatKind,
};
use crate::ordered::Key;
use vstd::prelude::*;
use vstd::string::*;
use vstd::utf8::encode_utf8;

verus! {

broadcast use compound_rules;

/// Writes a text with its length before it.
pub fn encode_text(text: &str, encoder: &mut Encoder) -> (result: Result<(), ProtocolCodecError>)
    ensures
        written(Format::Text, Value::Text(text@), old(encoder)@, final(encoder)@, result),
{
    proof {
        reveal(append);
        reveal(serialize);
        reveal(serialize_from);
        reveal(fits);
        reveal(all_fit);
        let bytes = encode_utf8(text@);
        let head = crate::bytes::le(bytes.len(), 4);
        assert(encoder@ + head + bytes =~= encoder@ + (head + bytes));
    }
    encoder.write_string(text)
}

/// Writes a length or a count.
pub fn encode_len(len: usize, encoder: &mut Encoder) -> (result: Result<(), ProtocolCodecError>)
    ensures
        written(unsigned(4), Value::Int(len as int), old(encoder)@, final(encoder)@, result),
{
    proof {
        pow256_values(4);
        int_rules(4, false, len as int, encoder@, encoder@);
    }
    encoder.write_len(len)
}

/// Reads a length or a count.
pub fn decode_len(decoder: &mut Decoder<'_>) -> (result: Result<usize, ProtocolCodecError>)
    requires
        old(decoder).wf(),
    ensures
        final(decoder).wf(),
        read(
            unsigned(4),
            old(decoder)@,
            final(decoder)@,
            match result {
                Ok(len) => Ok(Value::Int(len as int)),
                Err(e) => Err(e),
            },
        ),
{
    proof {
        int_rules(4, false, 0, decoder@, decoder@);
    }
    decoder.read_len()
}

/// Packets without their types.
pub open spec fn frame_values(frames: Seq<Vec<u8>>) -> Seq<Value> {
    frames.map_values(|frame: Vec<u8>| Value::Bytes(frame@))
}

/// Writes packets.
pub fn encode_frames(frames: &Vec<Vec<u8>>, encoder: &mut Encoder) -> (result: Result<
    (),
    ProtocolCodecError,
>)
    ensures
        written(
            list(Format::Bytes),
            Value::List(frame_values(frames@)),
            old(encoder)@,
            final(encoder)@,
            result,
        ),
{
    let ghost f = Format::Bytes;
    let ghost values = frame_values(frames@);
    proof {
        append_list(encoder@, Box::new(f), values);
    }
    encoder.write_len(frames.len())?;
    let ghost start = encoder@;
    let mut i: usize = 0;
    while i < frames.len()
        invariant
            i <= frames@.len(),
            f == Format::Bytes,
            values == frame_values(frames@),
            append_from(start, f, values, 0) == append_from(encoder@, f, values, i as nat),
            all_fit(f, values, 0) == all_fit(f, values, i as nat),
            fits(list(f), Value::List(values)) == all_fit(f, values, 0),
        decreases frames@.len() - i,
    {
        proof {
            append_item(encoder@, f, values, i as nat);
        }
        encode_bytes(&frames[i], encoder)?;
        i += 1;
    }
    proof {
        append_no_item(encoder@, f, values);
    }
    Ok(())
}

/// Reads packets.
pub fn decode_frames(decoder: &mut Decoder<'_>) -> (result: Result<
    Vec<Vec<u8>>,
    ProtocolCodecError,
>)
    requires
        old(decoder).wf(),
    ensures
        final(decoder).wf(),
        read(
            list(Format::Bytes),
            old(decoder)@,
            final(decoder)@,
            match result {
                Ok(frames) => Ok(Value::List(frame_values(frames@))),
                Err(e) => Err(e),
            },
        ),
{
    let ghost f = Format::Bytes;
    proof {
        parse_whole_list(Box::new(f), decoder@);
    }
    let count: usize = decoder.read_len()?;
    let ghost whole = parse_list(f, count as nat, decoder@);
    let mut frames: Vec<Vec<u8>> = Vec::new();
    let mut left: usize = count;
    proof {
        assert(frame_values(frames@) =~= Seq::empty());
        assert(whole is Ok ==> Seq::empty() + whole->Ok_0.0 =~= whole->Ok_0.0);
    }
    while left > 0
        invariant
            decoder.wf(),
            f == Format::Bytes,
            parse(list(f), old(decoder)@) == (match whole {
                Ok((all, t)) => Ok::<(Value, Seq<u8>), ProtocolCodecError>((Value::List(all), t)),
                Err(e) => Err(e),
            }),
            match parse_list(f, left as nat, decoder@) {
                Ok((rest, t)) => whole == Ok::<(Seq<Value>, Seq<u8>), ProtocolCodecError>(
                    (frame_values(frames@) + rest, t),
                ),
                Err(e) => whole == Err::<(Seq<Value>, Seq<u8>), ProtocolCodecError>(e),
            },
        decreases left,
    {
        let ghost before = frames@;
        proof {
            parse_item(f, left as nat, decoder@);
        }
        let frame = decode_bytes(decoder)?;
        let ghost value = Value::Bytes(frame@);
        let ghost later = parse_list(f, (left - 1) as nat, decoder@);
        frames.push(frame);
        left -= 1;
        proof {
            assert(frame_values(frames@) =~= frame_values(before).push(value));
            if later is Ok {
                assert(frame_values(before) + (seq![value] + later->Ok_0.0) =~= frame_values(
                    frames@,
                ) + later->Ok_0.0);
            }
        }
    }
    proof {
        parse_item(f, 0, decoder@);
        assert(frame_values(frames@) + Seq::<Value>::empty() =~= frame_values(frames@));
    }
    Ok(frames)
}

impl Wire for PlayerId {
    open spec fn format() -> Format {
        Format::Uuid
    }

    open spec fn value(&self) -> Value {
        Value::Int(self.0 as int)
    }

    open spec fn encodable(&self) -> bool {
        true
    }

    fn encode(&self, encoder: &mut Encoder) -> (result: Result<(), ProtocolCodecError>) {
        broadcast use pow256_values;

        let high: u64 = (self.0 / 0x1_0000_0000_0000_0000) as u64;
        let low: u64 = (self.0 % 0x1_0000_0000_0000_0000) as u64;
        proof {
            reveal(append);
            reveal(serialize);
            reveal(serialize_from);
            reveal(fits);
            reveal(all_fit);
            be_halves(high as nat, low as nat);
            assert(high as nat * 0x1_0000_0000_0000_0000 + low as nat == self.0 as nat);
        }
        let mut bytes: Vec<u8> = Vec::new();
        push_be(&mut bytes, high, 8);
        push_be(&mut bytes, low, 8);
        assert(bytes@ =~= be(self.0 as nat, 16));
        encoder.write_raw(bytes.as_slice());
        Ok(())
    }

    fn decode(decoder: &mut Decoder<'_>) -> (result: Result<Self, ProtocolCodecError>) {
        broadcast use pow256_values;

        proof {
            reveal(parse);
            reveal(parse_list);
        }
        let bytes = decoder.read_exact::<16>()?;
        let all = bytes.as_slice();
        let high: u64 = take_be(all, 0, 8);
        let low: u64 = take_be(all, 8, 8);
        proof {
            let a = bytes@.subrange(0, 8);
            let b = bytes@.subrange(8, 16);
            assert(a + b =~= bytes@);
            from_be_concat(a, b);
        }
        Ok(PlayerId(high as u128 * 0x1_0000_0000_0000_0000 + low as u128))
    }
}

impl WireKey for PlayerId {
    proof fn id_is_key_id(&self) {
    }
}

impl Wire for EntityId {
    open spec fn format() -> Format {
        i32::format()
    }

    open spec fn value(&self) -> Value {
        self.0.value()
    }

    open spec fn encodable(&self) -> bool {
        true
    }

    fn encode(&self, encoder: &mut Encoder) -> (result: Result<(), ProtocolCodecError>) {
        self.0.encode(encoder)
    }

    fn decode(decoder: &mut Decoder<'_>) -> (result: Result<Self, ProtocolCodecError>) {
        Ok(EntityId(i32::decode(decoder)?))
    }
}

impl Wire for ConnectionId {
    open spec fn format() -> Format {
        u64::format()
    }

    open spec fn value(&self) -> Value {
        self.0.value()
    }

    open spec fn encodable(&self) -> bool {
        true
    }

    fn encode(&self, encoder: &mut Encoder) -> (result: Result<(), ProtocolCodecError>) {
        self.0.encode(encoder)
    }

    fn decode(decoder: &mut Decoder<'_>) -> (result: Result<Self, ProtocolCodecError>) {
        Ok(ConnectionId(u64::decode(decoder)?))
    }
}

impl Wire for PluginGenerationId {
    open spec fn format() -> Format {
        u64::format()
    }

    open spec fn value(&self) -> Value {
        self.0.value()
    }

    open spec fn encodable(&self) -> bool {
        true
    }

    fn encode(&self, encoder: &mut Encoder) -> (result: Result<(), ProtocolCodecError>) {
        self.0.encode(encoder)
    }

    fn decode(decoder: &mut Decoder<'_>) -> (result: Result<Self, ProtocolCodecError>) {
        Ok(PluginGenerationId(u64::decode(decoder)?))
    }
}

impl Wire for OpaqueF32 {
    open spec fn format() -> Format {
        u32::format()
    }

    open spec fn value(&self) -> Value {
        self.0.value()
    }

    open spec fn encodable(&self) -> bool {
        true
    }

    fn encode(&self, encoder: &mut Encoder) -> (result: Result<(), ProtocolCodecError>) {
        proof {
            pow256_values(4);
            int_rules(4, false, self.0 as int, encoder@, encoder@);
        }
        encoder.write_f32(*self);
        Ok(())
    }

    fn decode(decoder: &mut Decoder<'_>) -> (result: Result<Self, ProtocolCodecError>) {
        proof {
            int_rules(4, false, 0, decoder@, decoder@);
        }
        decoder.read_f32()
    }
}

impl Wire for OpaqueF64 {
    open spec fn format() -> Format {
        u64::format()
    }

    open spec fn value(&self) -> Value {
        self.0.value()
    }

    open spec fn encodable(&self) -> bool {
        true
    }

    fn encode(&self, encoder: &mut Encoder) -> (result: Result<(), ProtocolCodecError>) {
        proof {
            pow256_values(8);
            int_rules(8, false, self.0 as int, encoder@, encoder@);
        }
        encoder.write_f64(*self);
        Ok(())
    }

    fn decode(decoder: &mut Decoder<'_>) -> (result: Result<Self, ProtocolCodecError>) {
        proof {
            int_rules(8, false, 0, decoder@, decoder@);
        }
        decoder.read_f64()
    }
}

impl Wire for ContainerKindId {
    open spec fn format() -> Format {
        Format::Text
    }

    open spec fn value(&self) -> Value {
        Value::Text(self@)
    }

    open spec fn encodable(&self) -> bool {
        true
    }

    fn encode(&self, encoder: &mut Encoder) -> (result: Result<(), ProtocolCodecError>) {
        encode_text(self.as_str(), encoder)
    }

    fn decode(decoder: &mut Decoder<'_>) -> (result: Result<Self, ProtocolCodecError>) {
        let text = String::decode(decoder)?;
        Ok(ContainerKindId::new(text.as_str()))
    }
}

impl Wire for BlockEntityKindId {
    open spec fn format() -> Format {
        Format::Text
    }

    open spec fn value(&self) -> Value {
        Value::Text(self@)
    }

    open spec fn encodable(&self) -> bool {
        true
    }

    fn encode(&self, encoder: &mut Encoder) -> (result: Result<(), ProtocolCodecError>) {
        encode_text(self.as_str(), encoder)
    }

    fn decode(decoder: &mut Decoder<'_>) -> (result: Result<Self, ProtocolCodecError>) {
        let text = String::decode(decoder)?;
        Ok(BlockEntityKindId::new(text.as_str()))
    }
}

impl Wire for ContainerPropertyKey {
    open spec fn format() -> Format {
        Format::Text
    }

    open spec fn value(&self) -> Value {
        Value::Text(self@)
    }

    open spec fn encodable(&self) -> bool {
        true
    }

    fn encode(&self, encoder: &mut Encoder) -> (result: Result<(), ProtocolCodecError>) {
        encode_text(self.as_str(), encoder)
    }

    fn decode(decoder: &mut Decoder<'_>) -> (result: Result<Self, ProtocolCodecError>) {
        let text = String::decode(decoder)?;
        Ok(ContainerPropertyKey::new(text.as_str()))
    }
}

impl Wire for GameplayProfileId {
    open spec fn format() -> Format {
        Format::Text
    }

    open spec fn value(&self) -> Value {
        Value::Text(self@)
    }

    open spec fn encodable(&self) -> bool {
        true
    }

    fn encode(&self, encoder: &mut Encoder) -> (result: Result<(), ProtocolCodecError>) {
        encode_text(self.as_str(), encoder)
    }

    fn decode(decoder: &mut Decoder<'_>) -> (result: Result<Self, ProtocolCodecError>) {
        let text = String::decode(decoder)?;
        Ok(GameplayProfileId::new(text.as_str()))
    }
}

impl Wire for AuthProfileId {
    open spec fn format() -> Format {
        Format::Text
    }

    open spec fn value(&self) -> Value {
        Value::Text(self@)
    }

    open spec fn encodable(&self) -> bool {
        true
    }

    fn encode(&self, encoder: &mut Encoder) -> (result: Result<(), ProtocolCodecError>) {
        encode_text(self.as_str(), encoder)
    }

    fn decode(decoder: &mut Decoder<'_>) -> (result: Result<Self, ProtocolCodecError>) {
        let text = String::decode(decoder)?;
        Ok(AuthProfileId::new(text.as_str()))
    }
}

impl Wire for StorageProfileId {
    open spec fn format() -> Format {
        Format::Text
    }

    open spec fn value(&self) -> Value {
        Value::Text(self@)
    }

    open spec fn encodable(&self) -> bool {
        true
    }

    fn encode(&self, encoder: &mut Encoder) -> (result: Result<(), ProtocolCodecError>) {
        encode_text(self.as_str(), encoder)
    }

    fn decode(decoder: &mut Decoder<'_>) -> (result: Result<Self, ProtocolCodecError>) {
        let text = String::decode(decoder)?;
        Ok(StorageProfileId::new(text.as_str()))
    }
}

impl WireKey for ContainerPropertyKey {
    proof fn id_is_key_id(&self) {
    }
}

impl Wire for BlockPos {
    open spec fn format() -> Format {
        pair(i32::format(), pair(i32::format(), i32::format()))
    }

    open spec fn value(&self) -> Value {
        both(self.x.value(), both(self.y.value(), self.z.value()))
    }

    open spec fn encodable(&self) -> bool {
        true
    }

    fn encode(&self, encoder: &mut Encoder) -> (result: Result<(), ProtocolCodecError>) {
        self.x.encode(encoder)?;
        self.y.encode(encoder)?;
        self.z.encode(encoder)
    }

    fn decode(decoder: &mut Decoder<'_>) -> (result: Result<Self, ProtocolCodecError>) {
        let x: i32 = i32::decode(decoder)?;
        let y: i32 = i32::decode(decoder)?;
        let z: i32 = i32::decode(decoder)?;
        Ok(BlockPos { x, y, z })
    }
}

impl WireKey for BlockPos {
    proof fn id_is_key_id(&self) {
        reveal_with_fuel(key_id, 4);
        assert(self.id() =~= key_id(self.value()));
    }
}

impl Wire for ChunkPos {
    open spec fn format() -> Format {
        pair(i32::format(), i32::format())
    }

    open spec fn value(&self) -> Value {
        both(self.x.value(), self.z.value())
    }

    open spec fn encodable(&self) -> bool {
        true
    }

    fn encode(&self, encoder: &mut Encoder) -> (result: Result<(), ProtocolCodecError>) {
        self.x.encode(encoder)?;
        self.z.encode(encoder)
    }

    fn decode(decoder: &mut Decoder<'_>) -> (result: Result<Self, ProtocolCodecError>) {
        let x: i32 = i32::decode(decoder)?;
        let z: i32 = i32::decode(decoder)?;
        Ok(ChunkPos { x, z })
    }
}

impl Wire for Vec3 {
    open spec fn format() -> Format {
        pair(OpaqueF64::format(), pair(OpaqueF64::format(), OpaqueF64::format()))
    }

    open spec fn value(&self) -> Value {
        both(self.x.value(), both(self.y.value(), self.z.value()))
    }

    open spec fn encodable(&self) -> bool {
        self.x.encodable() && self.y.encodable() && self.z.encodable()
    }

    fn encode(&self, encoder: &mut Encoder) -> (result: Result<(), ProtocolCodecError>) {
        self.x.encode(encoder)?;
        self.y.encode(encoder)?;
        self.z.encode(encoder)
    }

    fn decode(decoder: &mut Decoder<'_>) -> (result: Result<Self, ProtocolCodecError>) {
        let x = OpaqueF64::decode(decoder)?;
        let y = OpaqueF64::decode(decoder)?;
        let z = OpaqueF64::decode(decoder)?;
        Ok(Vec3 { x, y, z })
    }
}

impl Wire for SectionBlockIndex {
    open spec fn format() -> Format {
        Format::BlockIndex
    }

    open spec fn value(&self) -> Value {
        Value::Int(self@ as int)
    }

    open spec fn encodable(&self) -> bool {
        self.wf()
    }

    fn encode(&self, encoder: &mut Encoder) -> (result: Result<(), ProtocolCodecError>) {
        proof {
            reveal(append);
            reveal(serialize);
            reveal(serialize_from);
            reveal(fits);
            reveal(all_fit);
        }
        encoder.write_u16(self.into_raw());
        Ok(())
    }

    fn decode(decoder: &mut Decoder<'_>) -> (result: Result<Self, ProtocolCodecError>) {
        proof {
            reveal(parse);
            reveal(parse_list);
        }
        Ok(SectionBlockIndex::from_raw(decoder.read_u16()?))
    }
}

impl WireKey for SectionBlockIndex {
    proof fn id_is_key_id(&self) {
    }
}

impl Wire for ConnectionPhase {
    open spec fn format() -> Format {
        tagged(
            case(
                1,
                Format::Unit,
                case(
                    2,
                    Format::Unit,
                    case(
                        3,
                        Format::Unit,
                        case(4, Format::Unit, Cases::Otherwise("invalid connection phase")),
                    ),
                ),
            ),
        )
    }

    open spec fn value(&self) -> Value {
        match self {
            ConnectionPhase::Handshaking => chosen(1, Value::Unit),
            ConnectionPhase::Status => chosen(2, Value::Unit),
            ConnectionPhase::Login => chosen(3, Value::Unit),
            ConnectionPhase::Play => chosen(4, Value::Unit),
        }
    }

    open spec fn encodable(&self) -> bool {
        true
    }

    fn encode(&self, encoder: &mut Encoder) -> (result: Result<(), ProtocolCodecError>) {
        match self {
            ConnectionPhase::Handshaking => {
                encoder.write_u8(1);
                Ok(())
            },
            ConnectionPhase::Status => {
                encoder.write_u8(2);
                Ok(())
            },
            ConnectionPhase::Login => {
                encoder.write_u8(3);
                Ok(())
            },
            ConnectionPhase::Play => {
                encoder.write_u8(4);
                Ok(())
            },
        }
    }

    fn decode(decoder: &mut Decoder<'_>) -> (result: Result<Self, ProtocolCodecError>) {
        let tag: u8 = decoder.read_u8()?;
        match tag {
            1 => Ok(ConnectionPhase::Handshaking),
            2 => Ok(ConnectionPhase::Status),
            3 => Ok(ConnectionPhase::Login),
            4 => Ok(ConnectionPhase::Play),
            _ => Err(ProtocolCodecError::InvalidValue("invalid connection phase")),
        }
    }
}

impl Wire for TransportKind {
    open spec fn format() -> Format {
        tagged(
            case(
                1,
                Format::Unit,
                case(2, Format::Unit, Cases::Otherwise("invalid transport kind")),
            ),
        )
    }

    open spec fn value(&self) -> Value {
        match self {
            TransportKind::Tcp => chosen(1, Value::Unit),
            TransportKind::Udp => chosen(2, Value::Unit),
        }
    }

    open spec fn encodable(&self) -> bool {
        true
    }

    fn encode(&self, encoder: &mut Encoder) -> (result: Result<(), ProtocolCodecError>) {
        match self {
            TransportKind::Tcp => {
                encoder.write_u8(1);
                Ok(())
            },
            TransportKind::Udp => {
                encoder.write_u8(2);
                Ok(())
            },
        }
    }

    fn decode(decoder: &mut Decoder<'_>) -> (result: Result<Self, ProtocolCodecError>) {
        let tag: u8 = decoder.read_u8()?;
        match tag {
            1 => Ok(TransportKind::Tcp),
            2 => Ok(TransportKind::Udp),
            _ => Err(ProtocolCodecError::InvalidValue("invalid transport kind")),
        }
    }
}

impl Wire for WireFormatKind {
    open spec fn format() -> Format {
        tagged(
            case(
                1,
                Format::Unit,
                case(2, Format::Unit, Cases::Otherwise("invalid wire format kind")),
            ),
        )
    }

    open spec fn value(&self) -> Value {
        match self {
            WireFormatKind::MinecraftFramed => chosen(1, Value::Unit),
            WireFormatKind::RawPacketStream => chosen(2, Value::Unit),
        }
    }

    open spec fn encodable(&self) -> bool {
        true
    }

    fn encode(&self, encoder: &mut Encoder) -> (result: Result<(), ProtocolCodecError>) {
        match self {
            WireFormatKind::MinecraftFramed => {
                encoder.write_u8(1);
                Ok(())
            },
            WireFormatKind::RawPacketStream => {
                encoder.write_u8(2);
                Ok(())
            },
        }
    }

    fn decode(decoder: &mut Decoder<'_>) -> (result: Result<Self, ProtocolCodecError>) {
        let tag: u8 = decoder.read_u8()?;
        match tag {
            1 => Ok(WireFormatKind::MinecraftFramed),
            2 => Ok(WireFormatKind::RawPacketStream),
            _ => Err(ProtocolCodecError::InvalidValue("invalid wire format kind")),
        }
    }
}

impl Wire for Edition {
    open spec fn format() -> Format {
        tagged(case(1, Format::Unit, case(2, Format::Unit, Cases::Otherwise("invalid edition"))))
    }

    open spec fn value(&self) -> Value {
        match self {
            Edition::Je => chosen(1, Value::Unit),
            Edition::Be => chosen(2, Value::Unit),
        }
    }

    open spec fn encodable(&self) -> bool {
        true
    }

    fn encode(&self, encoder: &mut Encoder) -> (result: Result<(), ProtocolCodecError>) {
        match self {
            Edition::Je => {
                encoder.write_u8(1);
                Ok(())
            },
            Edition::Be => {
                encoder.write_u8(2);
                Ok(())
            },
        }
    }

    fn decode(decoder: &mut Decoder<'_>) -> (result: Result<Self, ProtocolCodecError>) {
        let tag: u8 = decoder.read_u8()?;
        match tag {
            1 => Ok(Edition::Je),
            2 => Ok(Edition::Be),
            _ => Err(ProtocolCodecError::InvalidValue("invalid edition")),
        }
    }
}

impl Wire for HandshakeNextState {
    open spec fn format() -> Format {
        tagged(
            case(
                1,
                Format::Unit,
                case(2, Format::Unit, Cases::Otherwise("invalid handshake next state")),
            ),
        )
    }

    open spec fn value(&self) -> Value {
        match self {
            HandshakeNextState::Status => chosen(1, Value::Unit),
            HandshakeNextState::Login => chosen(2, Value::Unit),
        }
    }

    open spec fn encodable(&self) -> bool {
        true
    }

    fn encode(&self, encoder: &mut Encoder) -> (result: Result<(), ProtocolCodecError>) {
        match self {
            HandshakeNextState::Status => {
                encoder.write_u8(1);
                Ok(())
            },
            HandshakeNextState::Login => {
                encoder.write_u8(2);
                Ok(())
            },
        }
    }

    fn decode(decoder: &mut Decoder<'_>) -> (result: Result<Self, ProtocolCodecError>) {
        let tag: u8 = decoder.read_u8()?;
        match tag {
            1 => Ok(HandshakeNextState::Status),
            2 => Ok(HandshakeNextState::Login),
            _ => Err(ProtocolCodecError::InvalidValue("invalid handshake next state")),
        }
    }
}

impl Wire for DimensionId {
    open spec fn format() -> Format {
        tagged(case(1, Format::Unit, Cases::Otherwise("invalid dimension id")))
    }

    open spec fn value(&self) -> Value {
        match self {
            DimensionId::Overworld => chosen(1, Value::Unit),
        }
    }

    open spec fn encodable(&self) -> bool {
        true
    }

    fn encode(&self, encoder: &mut Encoder) -> (result: Result<(), ProtocolCodecError>) {
        match self {
            DimensionId::Overworld => {
                encoder.write_u8(1);
                Ok(())
            },
        }
    }

    fn decode(decoder: &mut Decoder<'_>) -> (result: Result<Self, ProtocolCodecError>) {
        let tag: u8 = decoder.read_u8()?;
        match tag {
            1 => Ok(DimensionId::Overworld),
            _ => Err(ProtocolCodecError::InvalidValue("invalid dimension id")),
        }
    }
}

impl Wire for InteractionHand {
    open spec fn format() -> Format {
        tagged(
            case(
                1,
                Format::Unit,
                case(2, Format::Unit, Cases::Otherwise("invalid interaction hand")),
            ),
        )
    }

    open spec fn value(&self) -> Value {
        match self {
            InteractionHand::Main => chosen(1, Value::Unit),
            InteractionHand::Offhand => chosen(2, Value::Unit),
        }
    }

    open spec fn encodable(&self) -> bool {
        true
    }

    fn encode(&self, encoder: &mut Encoder) -> (result: Result<(), ProtocolCodecError>) {
        match self {
            InteractionHand::Main => {
                encoder.write_u8(1);
                Ok(())
            },
            InteractionHand::Offhand => {
                encoder.write_u8(2);
                Ok(())
            },
        }
    }

    fn decode(decoder: &mut Decoder<'_>) -> (result: Result<Self, ProtocolCodecError>) {
        let tag: u8 = decoder.read_u8()?;
        match tag {
            1 => Ok(InteractionHand::Main),
            2 => Ok(InteractionHand::Offhand),
            _ => Err(ProtocolCodecError::InvalidValue("invalid interaction hand")),
        }
    }
}

impl Wire for BlockFace {
    open spec fn format() -> Format {
        tagged(
            case(
                1,
                Format::Unit,
                case(
                    2,
                    Format::Unit,
                    case(
                        3,
                        Format::Unit,
                        case(
                            4,
                            Format::Unit,
                            case(
                                5,
                                Format::Unit,
                                case(6, Format::Unit, Cases::Otherwise("invalid block face")),
                            ),
                        ),
                    ),
                ),
            ),
        )
    }

    open spec fn value(&self) -> Value {
        match self {
            BlockFace::Bottom => chosen(1, Value::Unit),
            BlockFace::Top => chosen(2, Value::Unit),
            BlockFace::North => chosen(3, Value::Unit),
            BlockFace::South => chosen(4, Value::Unit),
            BlockFace::West => chosen(5, Value::Unit),
            BlockFace::East => chosen(6, Value::Unit),
        }
    }

    open spec fn encodable(&self) -> bool {
        true
    }

    fn encode(&self, encoder: &mut Encoder) -> (result: Result<(), ProtocolCodecError>) {
        match self {
            BlockFace::Bottom => {
                encoder.write_u8(1);
                Ok(())
            },
            BlockFace::Top => {
                encoder.write_u8(2);
                Ok(())
            },
            BlockFace::North => {
                encoder.write_u8(3);
                Ok(())
            },
            BlockFace::South => {
                encoder.write_u8(4);
                Ok(())
            },
            BlockFace::West => {
                encoder.write_u8(5);
                Ok(())
            },
            BlockFace::East => {
                encoder.write_u8(6);
                Ok(())
            },
        }
    }

    fn decode(decoder: &mut Decoder<'_>) -> (result: Result<Self, ProtocolCodecError>) {
        let tag: u8 = decoder.read_u8()?;
        match tag {
            1 => Ok(BlockFace::Bottom),
            2 => Ok(BlockFace::Top),
            3 => Ok(BlockFace::North),
            4 => Ok(BlockFace::South),
            5 => Ok(BlockFace::West),
            6 => Ok(BlockFace::East),
            _ => Err(ProtocolCodecError::InvalidValue("invalid block face")),
        }
    }
}

impl Wire for InventorySlot {
    open spec fn format() -> Format {
        tagged(
            case(
                1,
                unsigned(1),
                Cases::Case {
                    tag: 2,
                    means: 1,
                    body: unsigned(1),
                    rest: Box::new(
                        case(
                            3,
                            unsigned(1),
                            case(
                                4,
                                unsigned(1),
                                case(5, Format::Unit, Cases::Otherwise("invalid inventory slot")),
                            ),
                        ),
                    ),
                },
            ),
        )
    }

    open spec fn value(&self) -> Value {
        match self {
            InventorySlot::WindowLocal(index) => chosen(1, Value::Int(*index as int)),
            InventorySlot::MainInventory(index) => chosen(3, Value::Int(*index as int)),
            InventorySlot::Hotbar(index) => chosen(4, Value::Int(*index as int)),
            InventorySlot::Offhand => chosen(5, Value::Unit),
        }
    }

    open spec fn encodable(&self) -> bool {
        self matches InventorySlot::WindowLocal(index) ==> index <= 255
    }

    fn encode(&self, encoder: &mut Encoder) -> (result: Result<(), ProtocolCodecError>) {
        match self {
            InventorySlot::WindowLocal(index) => {
                encoder.write_u8(1);
                let small: u8 = *index as u8;
                small.encode(encoder)
            },
            InventorySlot::MainInventory(index) => {
                encoder.write_u8(3);
                index.encode(encoder)
            },
            InventorySlot::Hotbar(index) => {
                encoder.write_u8(4);
                index.encode(encoder)
            },
            InventorySlot::Offhand => {
                encoder.write_u8(5);
                Ok(())
            },
        }
    }

    fn decode(decoder: &mut Decoder<'_>) -> (result: Result<Self, ProtocolCodecError>) {
        let tag: u8 = decoder.read_u8()?;
        match tag {
            1 | 2 => {
                let index: u8 = u8::decode(decoder)?;
                Ok(InventorySlot::WindowLocal(index as u16))
            },
            3 => Ok(InventorySlot::MainInventory(u8::decode(decoder)?)),
            4 => Ok(InventorySlot::Hotbar(u8::decode(decoder)?)),
            5 => Ok(InventorySlot::Offhand),
            _ => Err(ProtocolCodecError::InvalidValue("invalid inventory slot")),
        }
    }
}

impl Wire for InventoryClickButton {
    open spec fn format() -> Format {
        tagged(
            case(
                1,
                Format::Unit,
                case(2, Format::Unit, Cases::Otherwise("invalid inventory click button")),
            ),
        )
    }

    open spec fn value(&self) -> Value {
        match self {
            InventoryClickButton::Left => chosen(1, Value::Unit),
            InventoryClickButton::Right => chosen(2, Value::Unit),
        }
    }

    open spec fn encodable(&self) -> bool {
        true
    }

    fn encode(&self, encoder: &mut Encoder) -> (result: Result<(), ProtocolCodecError>) {
        match self {
            InventoryClickButton::Left => {
                encoder.write_u8(1);
                Ok(())
            },
            InventoryClickButton::Right => {
                encoder.write_u8(2);
                Ok(())
            },
        }
    }

    fn decode(decoder: &mut Decoder<'_>) -> (result: Result<Self, ProtocolCodecError>) {
        let tag: u8 = decoder.read_u8()?;
        match tag {
            1 => Ok(InventoryClickButton::Left),
            2 => Ok(InventoryClickButton::Right),
            _ => Err(ProtocolCodecError::InvalidValue("invalid inventory click button")),
        }
    }
}

impl Wire for InventoryClickTarget {
    open spec fn format() -> Format {
        tagged(
            case(
                1,
                InventorySlot::format(),
                case(
                    2,
                    Format::Unit,
                    case(3, Format::Unit, Cases::Otherwise("invalid inventory click target")),
                ),
            ),
        )
    }

    open spec fn value(&self) -> Value {
        match self {
            InventoryClickTarget::Slot(x) => chosen(1, x.value()),
            InventoryClickTarget::Outside => chosen(2, Value::Unit),
            InventoryClickTarget::Unsupported => chosen(3, Value::Unit),
        }
    }

    open spec fn encodable(&self) -> bool {
        match self {
            InventoryClickTarget::Slot(x) => x.encodable(),
            _ => true,
        }
    }

    fn encode(&self, encoder: &mut Encoder) -> (result: Result<(), ProtocolCodecError>) {
        match self {
            InventoryClickTarget::Slot(x) => {
                encoder.write_u8(1);
                x.encode(encoder)
            },
            InventoryClickTarget::Outside => {
                encoder.write_u8(2);
                Ok(())
            },
            InventoryClickTarget::Unsupported => {
                encoder.write_u8(3);
                Ok(())
            },
        }
    }

    fn decode(decoder: &mut Decoder<'_>) -> (result: Result<Self, ProtocolCodecError>) {
        let tag: u8 = decoder.read_u8()?;
        match tag {
            1 => Ok(InventoryClickTarget::Slot(InventorySlot::decode(decoder)?)),
            2 => Ok(InventoryClickTarget::Outside),
            3 => Ok(InventoryClickTarget::Unsupported),
            _ => Err(ProtocolCodecError::InvalidValue("invalid inventory click target")),
        }
    }
}

impl Wire for InventoryClickValidation {
    open spec fn format() -> Format {
        tagged(
            case(
                1,
                <Option<ItemStack>>::format(),
                case(2, Format::Unit, Cases::Otherwise("invalid inventory click validation")),
            ),
        )
    }

    open spec fn value(&self) -> Value {
        match self {
            InventoryClickValidation::StrictSlotEcho { clicked_item } => chosen(
                1,
                clicked_item.value(),
            ),
            InventoryClickValidation::Authoritative => chosen(2, Value::Unit),
        }
    }

    open spec fn encodable(&self) -> bool {
        match self {
            InventoryClickValidation::StrictSlotEcho { clicked_item } => clicked_item.encodable(),
            _ => true,
        }
    }

    fn encode(&self, encoder: &mut Encoder) -> (result: Result<(), ProtocolCodecError>) {
        match self {
            InventoryClickValidation::StrictSlotEcho { clicked_item } => {
                encoder.write_u8(1);
                clicked_item.encode(encoder)
            },
            InventoryClickValidation::Authoritative => {
                encoder.write_u8(2);
                Ok(())
            },
        }
    }

    fn decode(decoder: &mut Decoder<'_>) -> (result: Result<Self, ProtocolCodecError>) {
        let tag: u8 = decoder.read_u8()?;
        match tag {
            1 => {
                let clicked_item = Option::<ItemStack>::decode(decoder)?;
                Ok(InventoryClickValidation::StrictSlotEcho { clicked_item })
            },
            2 => Ok(InventoryClickValidation::Authoritative),
            _ => Err(ProtocolCodecError::InvalidValue("invalid inventory click validation")),
        }
    }
}

impl Wire for InventoryTransactionContext {
    open spec fn format() -> Format {
        pair(u8::format(), i16::format())
    }

    open spec fn value(&self) -> Value {
        both(self.window_id.value(), self.action_number.value())
    }

    open spec fn encodable(&self) -> bool {
        true
    }

    fn encode(&self, encoder: &mut Encoder) -> (result: Result<(), ProtocolCodecError>) {
        self.window_id.encode(encoder)?;
        self.action_number.encode(encoder)
    }

    fn decode(decoder: &mut Decoder<'_>) -> (result: Result<Self, ProtocolCodecError>) {
        let window_id: u8 = u8::decode(decoder)?;
        let action_number: i16 = i16::decode(decoder)?;
        Ok(InventoryTransactionContext { window_id, action_number })
    }
}

} // verus!
