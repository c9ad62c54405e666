//! Values that can be written to and read from the wire, and how compound values follow from
//! their parts.

use crate::bytes::{from_le, le, pow256, pow256_values, to_signed, to_unsigned};
use crate::codec::binary::{Decoder, Encoder};
use crate::codec::grammar::{
    all_fit, both, chosen, fits, in_order, item_data_cases, list, optional, orderly, parse,
    parse_inverts_serialize, parse_list, parse_shrinks, select, serialize, serialize_from, signed,
    skip, under_keys, unsigned, Cases, Format, ProtocolCodecError, Value,
};
use crate::ordered::sorted;
use vstd::prelude::*;
use vstd::string::*;
use vstd::utf8::{decode_utf8, encode_utf8, valid_utf8};

verus! {

/// Bytes with those of a value behind them.
#[verifier::opaque]
pub open spec fn append(before: Seq<u8>, f: Format, v: Value) -> Seq<u8> {
    before + serialize(f, v)
}

/// Bytes with those of the items of a list, from the place `i` on, behind them.
#[verifier::opaque]
pub open spec fn append_from(before: Seq<u8>, f: Format, items: Seq<Value>, i: nat) -> Seq<u8> {
    before + serialize_from(f, items, i)
}

/// Whether writing a value put its bytes behind those before, or was refused because a length is
/// too large.
pub open spec fn written(
    f: Format,
    v: Value,
    before: Seq<u8>,
    after: Seq<u8>,
    result: Result<(), ProtocolCodecError>,
) -> bool {
    if fits(f, v) {
        result is Ok && after == append(before, f, v)
    } else {
        result == Err::<(), ProtocolCodecError>(ProtocolCodecError::LengthOverflow)
    }
}

/// Whether reading gave what the bytes mean and left what they leave.
pub open spec fn read(
    f: Format,
    before: Seq<u8>,
    after: Seq<u8>,
    result: Result<Value, ProtocolCodecError>,
) -> bool {
    match parse(f, before) {
        Ok((v, rest)) => result == Ok::<Value, ProtocolCodecError>(v) && after == rest,
        Err(e) => result == Err::<Value, ProtocolCodecError>(e),
    }
}

/// A value that can be written to and read from the wire.
pub trait Wire: Sized {
    /// How values of the type stand on the wire.
    spec fn format() -> Format;

    /// The value without its type.
    spec fn value(&self) -> Value;

    /// Whether the value is one that can stand on the wire.
    spec fn encodable(&self) -> bool;

    /// Writes the value.
    fn encode(&self, encoder: &mut Encoder) -> (result: Result<(), ProtocolCodecError>)
        requires
            self.encodable(),
        ensures
            written(Self::format(), self.value(), old(encoder)@, final(encoder)@, result),
    ;

    /// Reads a value.
    fn decode(decoder: &mut Decoder<'_>) -> (result: Result<Self, ProtocolCodecError>)
        requires
            old(decoder).wf(),
        ensures
            final(decoder).wf(),
            read(
                Self::format(),
                old(decoder)@,
                final(decoder)@,
                match result {
                    Ok(value) => Ok(value.value()),
                    Err(e) => Err(e),
                },
            ),
            result matches Ok(value) ==> value.encodable(),
    ;
}

/// The values of a list without their types.
pub open spec fn values_of<T: Wire>(items: Seq<T>) -> Seq<Value> {
    items.map_values(|item: T| item.value())
}

/// Writing one thing after another.
pub broadcast proof fn append_pair(
    before: Seq<u8>,
    a: Box<Format>,
    b: Box<Format>,
    x: Box<Value>,
    y: Box<Value>,
)
    ensures
        #[trigger] append(before, Format::Pair(a, b), Value::Pair(x, y)) == append(
            append(before, *a, *x),
            *b,
            *y,
        ),
{
    reveal(append);
    reveal(serialize);
    reveal(serialize_from);
    assert(before + (serialize(*a, *x) + serialize(*b, *y)) =~= before + serialize(*a, *x)
        + serialize(*b, *y));
}

/// One thing after another fits where both do.
pub broadcast proof fn fits_pair(a: Box<Format>, b: Box<Format>, x: Box<Value>, y: Box<Value>)
    ensures
        #[trigger] fits(Format::Pair(a, b), Value::Pair(x, y)) == (fits(*a, *x) && fits(*b, *y)),
{
    reveal(fits);
    reveal(all_fit);
}

/// Reading one thing after another.
pub broadcast proof fn parse_pair(a: Box<Format>, b: Box<Format>, s: Seq<u8>)
    ensures
        #[trigger] parse(Format::Pair(a, b), s) == match parse(*a, s) {
            Err(e) => Err(e),
            Ok((x, r)) => match parse(*b, r) {
                Err(e) => Err(e),
                Ok((y, t)) => Ok((both(x, y), t)),
            },
        },
{
    reveal(parse);
    reveal(parse_list);
    parse_shrinks(*a, s);
}

/// Nothing stands for nothing.
pub broadcast proof fn rules_unit(before: Seq<u8>, v: Value, s: Seq<u8>)
    ensures
        #![trigger append(before, Format::Unit, v), parse(Format::Unit, s)]
        append(before, Format::Unit, v) == before,
        fits(Format::Unit, Value::Unit),
        parse(Format::Unit, s) == Ok::<(Value, Seq<u8>), ProtocolCodecError>((Value::Unit, s)),
{
    reveal(append);
    reveal(serialize);
    reveal(serialize_from);
    reveal(fits);
    reveal(all_fit);
    reveal(parse);
    reveal(parse_list);
    assert(before + Seq::<u8>::empty() =~= before);
}

/// Writing nothing.
pub broadcast proof fn append_unit(before: Seq<u8>)
    ensures
        #[trigger] append(before, Format::Unit, Value::Unit) == before,
{
    rules_unit(before, Value::Unit, before);
}

/// Nothing fits nothing.
pub broadcast proof fn fits_unit(v: Value)
    ensures
        #[trigger] fits(Format::Unit, v) == (v == Value::Unit),
{
    reveal(fits);
    reveal(all_fit);
}

/// Reading nothing.
pub broadcast proof fn parse_unit(s: Seq<u8>)
    ensures
        #[trigger] parse(Format::Unit, s) == Ok::<(Value, Seq<u8>), ProtocolCodecError>(
            (Value::Unit, s),
        ),
{
    rules_unit(s, Value::Unit, s);
}

/// What follows a tag is found case by case.
pub broadcast proof fn select_case(tag: u8, means: u8, body: Format, rest: Box<Cases>, t: u8)
    ensures
        #[trigger] select(Cases::Case { tag, means, body, rest }, t) == if tag == t {
            Ok::<(u8, Format), &'static str>((means, body))
        } else {
            select(*rest, t)
        },
{
}

/// Writing an alternative.
pub broadcast proof fn append_tagged(
    before: Seq<u8>,
    cases: Box<Cases>,
    n: int,
    x: Box<Value>,
)
    ensures
        #[trigger] append(before, Format::Tagged(cases), Value::Case(n, x)) == match select(
            *cases,
            n as u8,
        ) {
            Ok((means, body)) => append(before.push(n as u8), body, *x),
            Err(_) => before,
        },
{
    reveal(append);
    reveal(serialize);
    reveal(serialize_from);
    match select(*cases, n as u8) {
        Ok((means, body)) => {
            assert(before + (seq![n as u8] + serialize(body, *x)) =~= before.push(n as u8)
                + serialize(body, *x));
        },
        Err(_) => {
            assert(before + Seq::<u8>::empty() =~= before);
        },
    }
}

/// An alternative fits where it exists and what follows the tag fits.
pub broadcast proof fn fits_tagged(cases: Box<Cases>, n: int, x: Box<Value>)
    ensures
        #[trigger] fits(Format::Tagged(cases), Value::Case(n, x)) == (0 <= n < 256 && match select(
            *cases,
            n as u8,
        ) {
            Ok((means, body)) => means == n && fits(body, *x),
            Err(_) => false,
        }),
{
    reveal(fits);
    reveal(all_fit);
}

/// Reading an alternative.
pub broadcast proof fn parse_tagged(cases: Box<Cases>, s: Seq<u8>)
    ensures
        #[trigger] parse(Format::Tagged(cases), s) == if s.len() < 1 {
            Err(ProtocolCodecError::UnexpectedEof)
        } else {
            match select(*cases, s[0]) {
                Err(text) => Err(ProtocolCodecError::InvalidValue(text)),
                Ok((means, body)) => match parse(body, skip(s, 1)) {
                    Err(e) => Err(e),
                    Ok((x, r)) => Ok((chosen(means as int, x), r)),
                },
            }
        },
{
    reveal(parse);
    reveal(parse_list);
}

/// Writing structured data of an item.
pub broadcast proof fn append_item_data(before: Seq<u8>, n: int, x: Box<Value>)
    ensures
        #[trigger] append(before, Format::ItemData, Value::Case(n, x)) == append(
            before,
            Format::Tagged(Box::new(item_data_cases())),
            Value::Case(n, x),
        ),
{
    reveal(append);
    reveal(serialize);
    reveal(serialize_from);
}

/// Structured data of an item fits where its alternative does.
pub broadcast proof fn fits_item_data(n: int, x: Box<Value>)
    ensures
        #[trigger] fits(Format::ItemData, Value::Case(n, x)) == fits(
            Format::Tagged(Box::new(item_data_cases())),
            Value::Case(n, x),
        ),
{
    reveal(fits);
    reveal(all_fit);
}

/// Reading structured data of an item.
pub broadcast proof fn parse_item_data(s: Seq<u8>)
    ensures
        #[trigger] parse(Format::ItemData, s) == parse(
            Format::Tagged(Box::new(item_data_cases())),
            s,
        ),
{
    reveal(parse);
    reveal(parse_list);
}

pub broadcast group compound_rules {
    append_item_data,
    fits_item_data,
    parse_item_data,
    append_pair,
    fits_pair,
    parse_pair,
    append_unit,
    fits_unit,
    parse_unit,
    select_case,
    append_tagged,
    fits_tagged,
    parse_tagged,
}

/// Numbers are written in their fixed width.
pub proof fn int_rules(width: nat, is_signed: bool, n: int, before: Seq<u8>, s: Seq<u8>)
    ensures
        ({
            let f = Format::Int { width, signed: is_signed };
            &&& append(before, f, Value::Int(n)) == before + le(to_unsigned(n, width), width)
            &&& fits(f, Value::Int(n)) == if is_signed {
                -pow256(width) <= 2 * n < pow256(width)
            } else {
                0 <= n < pow256(width)
            }
            &&& parse(f, s) == if s.len() < width {
                Err::<(Value, Seq<u8>), ProtocolCodecError>(ProtocolCodecError::UnexpectedEof)
            } else {
                let raw = from_le(s.subrange(0, width as int));
                Ok(
                    (
                        Value::Int(
                            if is_signed {
                                to_signed(raw, width)
                            } else {
                                raw as int
                            },
                        ),
                        skip(s, width as int),
                    ),
                )
            }
        }),
{
    reveal(append);
    reveal(serialize);
    reveal(serialize_from);
    reveal(fits);
    reveal(all_fit);
    reveal(parse);
    reveal(parse_list);
}

impl Wire for u8 {
    open spec fn format() -> Format {
        unsigned(1)
    }

    open spec fn value(&self) -> Value {
        Value::Int(*self as int)
    }

    open spec fn encodable(&self) -> bool {
        true
    }

    fn encode(&self, encoder: &mut Encoder) -> (result: Result<(), ProtocolCodecError>) {
        proof {
            pow256_values(1);
            int_rules(1, false, *self as int, encoder@, encoder@);
            reveal_with_fuel(le, 2);
            assert(encoder@.push(*self) =~= encoder@ + le(*self as nat, 1));
        }
        encoder.write_u8(*self);
        Ok(())
    }

    fn decode(decoder: &mut Decoder<'_>) -> (result: Result<Self, ProtocolCodecError>) {
        proof {
            int_rules(1, false, 0, decoder@, decoder@);
            if decoder@.len() >= 1 {
                let head = decoder@.subrange(0, 1);
                reveal_with_fuel(from_le, 2);
                assert(head.drop_first() =~= Seq::empty());
                assert(from_le(head) == decoder@[0] as nat);
            }
        }
        decoder.read_u8()
    }
}

impl Wire for i8 {
    open spec fn format() -> Format {
        signed(1)
    }

    open spec fn value(&self) -> Value {
        Value::Int(*self as int)
    }

    open spec fn encodable(&self) -> bool {
        true
    }

    fn encode(&self, encoder: &mut Encoder) -> (result: Result<(), ProtocolCodecError>) {
        proof {
            pow256_values(1);
            int_rules(1, true, *self as int, encoder@, encoder@);
        }
        encoder.write_i8(*self);
        Ok(())
    }

    fn decode(decoder: &mut Decoder<'_>) -> (result: Result<Self, ProtocolCodecError>) {
        proof {
            int_rules(1, true, 0, decoder@, decoder@);
        }
        decoder.read_i8()
    }
}

impl Wire for u16 {
    open spec fn format() -> Format {
        unsigned(2)
    }

    open spec fn value(&self) -> Value {
        Value::Int(*self as int)
    }

    open spec fn encodable(&self) -> bool {
        true
    }

    fn encode(&self, encoder: &mut Encoder) -> (result: Result<(), ProtocolCodecError>) {
        proof {
            pow256_values(2);
            int_rules(2, false, *self as int, encoder@, encoder@);
        }
        encoder.write_u16(*self);
        Ok(())
    }

    fn decode(decoder: &mut Decoder<'_>) -> (result: Result<Self, ProtocolCodecError>) {
        proof {
            int_rules(2, false, 0, decoder@, decoder@);
        }
        decoder.read_u16()
    }
}

impl Wire for i16 {
    open spec fn format() -> Format {
        signed(2)
    }

    open spec fn value(&self) -> Value {
        Value::Int(*self as int)
    }

    open spec fn encodable(&self) -> bool {
        true
    }

    fn encode(&self, encoder: &mut Encoder) -> (result: Result<(), ProtocolCodecError>) {
        proof {
            pow256_values(2);
            int_rules(2, true, *self as int, encoder@, encoder@);
        }
        encoder.write_i16(*self);
        Ok(())
    }

    fn decode(decoder: &mut Decoder<'_>) -> (result: Result<Self, ProtocolCodecError>) {
        proof {
            int_rules(2, true, 0, decoder@, decoder@);
        }
        decoder.read_i16()
    }
}

impl Wire for u32 {
    open spec fn format() -> Format {
        unsigned(4)
    }

    open spec fn value(&self) -> Value {
        Value::Int(*self as int)
    }

    open spec fn encodable(&self) -> bool {
        true
    }

    fn encode(&self, encoder: &mut Encoder) -> (result: Result<(), ProtocolCodecError>) {
        proof {
            pow256_values(4);
            int_rules(4, false, *self as int, encoder@, encoder@);
        }
        encoder.write_u32(*self);
        Ok(())
    }

    fn decode(decoder: &mut Decoder<'_>) -> (result: Result<Self, ProtocolCodecError>) {
        proof {
            int_rules(4, false, 0, decoder@, decoder@);
        }
        decoder.read_u32()
    }
}

impl Wire for i32 {
    open spec fn format() -> Format {
        signed(4)
    }

    open spec fn value(&self) -> Value {
        Value::Int(*self as int)
    }

    open spec fn encodable(&self) -> bool {
        true
    }

    fn encode(&self, encoder: &mut Encoder) -> (result: Result<(), ProtocolCodecError>) {
        proof {
            pow256_values(4);
            int_rules(4, true, *self as int, encoder@, encoder@);
        }
        encoder.write_i32(*self);
        Ok(())
    }

    fn decode(decoder: &mut Decoder<'_>) -> (result: Result<Self, ProtocolCodecError>) {
        proof {
            int_rules(4, true, 0, decoder@, decoder@);
        }
        decoder.read_i32()
    }
}

impl Wire for u64 {
    open spec fn format() -> Format {
        unsigned(8)
    }

    open spec fn value(&self) -> Value {
        Value::Int(*self as int)
    }

    open spec fn encodable(&self) -> bool {
        true
    }

    fn encode(&self, encoder: &mut Encoder) -> (result: Result<(), ProtocolCodecError>) {
        proof {
            pow256_values(8);
            int_rules(8, false, *self as int, encoder@, encoder@);
        }
        encoder.write_u64(*self);
        Ok(())
    }

    fn decode(decoder: &mut Decoder<'_>) -> (result: Result<Self, ProtocolCodecError>) {
        proof {
            int_rules(8, false, 0, decoder@, decoder@);
        }
        decoder.read_u64()
    }
}

impl Wire for i64 {
    open spec fn format() -> Format {
        signed(8)
    }

    open spec fn value(&self) -> Value {
        Value::Int(*self as int)
    }

    open spec fn encodable(&self) -> bool {
        true
    }

    fn encode(&self, encoder: &mut Encoder) -> (result: Result<(), ProtocolCodecError>) {
        proof {
            pow256_values(8);
            int_rules(8, true, *self as int, encoder@, encoder@);
        }
        encoder.write_i64(*self);
        Ok(())
    }

    fn decode(decoder: &mut Decoder<'_>) -> (result: Result<Self, ProtocolCodecError>) {
        proof {
            int_rules(8, true, 0, decoder@, decoder@);
        }
        decoder.read_i64()
    }
}

impl Wire for bool {
    open spec fn format() -> Format {
        Format::Bool
    }

    open spec fn value(&self) -> Value {
        Value::Int(
            if *self {
                1
            } else {
                0
            },
        )
    }

    open spec fn encodable(&self) -> bool {
        true
    }

    fn encode(&self, encoder: &mut Encoder) -> (result: Result<(), ProtocolCodecError>) {
        proof {
            reveal(append);
            reveal(serialize);
            reveal(serialize_from);
            reveal(fits);
            reveal(all_fit);
            let byte: u8 = if *self {
                1
            } else {
                0
            };
            assert(encoder@.push(byte) =~= encoder@ + seq![byte]);
        }
        encoder.write_bool(*self);
        Ok(())
    }

    fn decode(decoder: &mut Decoder<'_>) -> (result: Result<Self, ProtocolCodecError>) {
        proof {
            reveal(parse);
            reveal(parse_list);
        }
        decoder.read_bool()
    }
}

impl Wire for String {
    open spec fn format() -> Format {
        Format::Text
    }

    open spec fn value(&self) -> Value {
        Value::Text(self@)
    }

    open spec fn encodable(&self) -> bool {
        true
    }

    fn encode(&self, encoder: &mut Encoder) -> (result: Result<(), ProtocolCodecError>) {
        proof {
            reveal(append);
            reveal(serialize);
            reveal(serialize_from);
            reveal(fits);
            reveal(all_fit);
            let bytes = encode_utf8(self@);
            assert(encoder@ + le(bytes.len(), 4) + bytes =~= encoder@ + (le(bytes.len(), 4)
                + bytes));
        }
        encoder.write_string(self.as_str())
    }

    fn decode(decoder: &mut Decoder<'_>) -> (result: Result<Self, ProtocolCodecError>) {
        proof {
            reveal(parse);
            reveal(parse_list);
        }
        decoder.read_string()
    }
}

/// Some bytes with their length before them.
pub struct Blob(pub Vec<u8>);

impl Wire for Blob {
    open spec fn format() -> Format {
        Format::Bytes
    }

    open spec fn value(&self) -> Value {
        Value::Bytes(self.0@)
    }

    open spec fn encodable(&self) -> bool {
        true
    }

    fn encode(&self, encoder: &mut Encoder) -> (result: Result<(), ProtocolCodecError>) {
        encode_bytes(&self.0, encoder)
    }

    fn decode(decoder: &mut Decoder<'_>) -> (result: Result<Self, ProtocolCodecError>) {
        Ok(Blob(decode_bytes(decoder)?))
    }
}

/// Writes some bytes with their length before them.
pub fn encode_bytes(bytes: &Vec<u8>, encoder: &mut Encoder) -> (result: Result<
    (),
    ProtocolCodecError,
>)
    ensures
        written(
            Format::Bytes,
            Value::Bytes(bytes@),
            old(encoder)@,
            final(encoder)@,
            result,
        ),
{
    proof {
        reveal(append);
        reveal(serialize);
        reveal(serialize_from);
        reveal(fits);
        reveal(all_fit);
        assert(encoder@ + le(bytes@.len(), 4) + bytes@ =~= encoder@ + (le(bytes@.len(), 4)
            + bytes@));
    }
    encoder.write_bytes(bytes.as_slice())
}

/// Reads some bytes with their length before them.
pub fn decode_bytes(decoder: &mut Decoder<'_>) -> (result: Result<Vec<u8>, ProtocolCodecError>)
    requires
        old(decoder).wf(),
    ensures
        final(decoder).wf(),
        read(
            Format::Bytes,
            old(decoder)@,
            final(decoder)@,
            match result {
                Ok(bytes) => Ok(Value::Bytes(bytes@)),
                Err(e) => Err(e),
            },
        ),
{
    proof {
        reveal(parse);
        reveal(parse_list);
    }
    decoder.read_bytes()
}

/// Something that may be absent, without its type.
pub open spec fn option_value<T: Wire>(value: Option<&T>) -> Value {
    match value {
        None => chosen(0, Value::Unit),
        Some(value) => chosen(1, value.value()),
    }
}

/// Writes something that may be absent.
pub fn encode_option<T: Wire>(value: Option<&T>, encoder: &mut Encoder) -> (result: Result<
    (),
    ProtocolCodecError,
>)
    requires
        value matches Some(value) ==> value.encodable(),
    ensures
        written(
            optional(T::format()),
            option_value(value),
            old(encoder)@,
            final(encoder)@,
            result,
        ),
{
    proof {
        reveal(append);
        reveal(serialize);
        reveal(serialize_from);
        reveal(fits);
        reveal(all_fit);
    }
    match value {
        None => {
            encoder.write_bool(false);
            assert(encoder@ =~= old(encoder)@ + seq![0u8]);
            Ok(())
        },
        Some(value) => {
            encoder.write_bool(true);
            let result = value.encode(encoder);
            proof {
                let body = serialize(T::format(), value.value());
                assert(old(encoder)@.push(1u8) + body =~= old(encoder)@ + (seq![1u8] + body));
            }
            result
        },
    }
}

impl<T: Wire> Wire for Option<T> {
    open spec fn format() -> Format {
        optional(T::format())
    }

    open spec fn value(&self) -> Value {
        match self {
            None => chosen(0, Value::Unit),
            Some(value) => chosen(1, value.value()),
        }
    }

    open spec fn encodable(&self) -> bool {
        match self {
            None => true,
            Some(value) => value.encodable(),
        }
    }

    fn encode(&self, encoder: &mut Encoder) -> (result: Result<(), ProtocolCodecError>) {
        encode_option(self.as_ref(), encoder)
    }

    fn decode(decoder: &mut Decoder<'_>) -> (result: Result<Self, ProtocolCodecError>) {
        proof {
            reveal(parse);
            reveal(parse_list);
        }
        if decoder.read_bool()? {
            Ok(Some(T::decode(decoder)?))
        } else {
            Ok(None)
        }
    }
}

/// Writing one more item.
pub proof fn append_item(before: Seq<u8>, f: Format, items: Seq<Value>, i: nat)
    requires
        i < items.len(),
    ensures
        append_from(before, f, items, i) == append_from(
            append(before, f, items[i as int]),
            f,
            items,
            i + 1,
        ),
        all_fit(f, items, i) == (fits(f, items[i as int]) && all_fit(f, items, i + 1)),
{
    reveal(append);
    reveal(append_from);
    reveal(serialize);
    reveal(serialize_from);
    reveal(fits);
    reveal(all_fit);
    let a = serialize(f, items[i as int]);
    let b = serialize_from(f, items, i + 1);
    assert(before + (a + b) =~= before + a + b);
}

/// Writing no further item.
pub proof fn append_no_item(before: Seq<u8>, f: Format, items: Seq<Value>)
    ensures
        append_from(before, f, items, items.len()) == before,
        all_fit(f, items, items.len()),
{
    reveal(append_from);
    reveal(serialize);
    reveal(serialize_from);
    reveal(fits);
    reveal(all_fit);
    assert(before + Seq::<u8>::empty() =~= before);
}

/// Writing a list is writing its length and its items.
pub proof fn append_list(before: Seq<u8>, item: Box<Format>, items: Seq<Value>)
    ensures
        append(before, Format::List(item), Value::List(items)) == append_from(
            before + le(items.len(), 4),
            *item,
            items,
            0,
        ),
        append(before, Format::Keyed(item), Value::List(items)) == append_from(
            before + le(items.len(), 4),
            *item,
            items,
            0,
        ),
        append(before, Format::Held(item), Value::List(items)) == append_from(
            before + le(items.len(), 4),
            *item,
            items,
            0,
        ),
        fits(Format::Held(item), Value::List(items)) == (items.len() <= u32::MAX && all_fit(
            *item,
            items,
            0,
        )),
        fits(Format::List(item), Value::List(items)) == (items.len() <= u32::MAX && all_fit(
            *item,
            items,
            0,
        )),
        fits(Format::Keyed(item), Value::List(items)) == (items.len() <= u32::MAX && all_fit(
            *item,
            items,
            0,
        ) && sorted(under_keys(items))),
{
    reveal(append);
    reveal(append_from);
    reveal(serialize);
    reveal(serialize_from);
    reveal(fits);
    reveal(all_fit);
    let a = le(items.len(), 4);
    let b = serialize_from(*item, items, 0);
    assert(before + (a + b) =~= before + a + b);
}

/// Reading one more item.
pub proof fn parse_item(f: Format, n: nat, s: Seq<u8>)
    ensures
        n == 0 ==> parse_list(f, n, s) == Ok::<(Seq<Value>, Seq<u8>), ProtocolCodecError>(
            (Seq::empty(), s),
        ),
        n > 0 ==> parse_list(f, n, s) == match parse(f, s) {
            Err(e) => Err::<(Seq<Value>, Seq<u8>), ProtocolCodecError>(e),
            Ok((x, r)) => match parse_list(f, (n - 1) as nat, r) {
                Err(e) => Err(e),
                Ok((rest, t)) => Ok((seq![x] + rest, t)),
            },
        },
{
    reveal(parse);
    reveal(parse_list);
    parse_shrinks(f, s);
}

/// Reading a list is reading its length and its items.
pub proof fn parse_whole_list(item: Box<Format>, s: Seq<u8>)
    ensures
        parse(Format::List(item), s) == if s.len() < 4 {
            Err::<(Value, Seq<u8>), ProtocolCodecError>(ProtocolCodecError::UnexpectedEof)
        } else {
            match parse_list(*item, from_le(s.subrange(0, 4)), skip(s, 4)) {
                Err(e) => Err(e),
                Ok((items, r)) => Ok((Value::List(items), r)),
            }
        },
        parse(Format::Keyed(item), s) == if s.len() < 4 {
            Err::<(Value, Seq<u8>), ProtocolCodecError>(ProtocolCodecError::UnexpectedEof)
        } else {
            match parse_list(*item, from_le(s.subrange(0, 4)), skip(s, 4)) {
                Err(e) => Err(e),
                Ok((items, r)) => Ok((Value::List(in_order(items)), r)),
            }
        },
        parse(Format::Held(item), s) == parse(Format::Keyed(item), s),
{
    reveal(parse);
    reveal(parse_list);
}

/// Writes the items of a list, without their number.
pub fn encode_items<T: Wire>(items: &Vec<T>, encoder: &mut Encoder) -> (result: Result<
    (),
    ProtocolCodecError,
>)
    requires
        forall|i: int| 0 <= i < items@.len() ==> (#[trigger] items@[i]).encodable(),
    ensures
        if all_fit(T::format(), values_of(items@), 0) {
            result is Ok && final(encoder)@ == append_from(
                old(encoder)@,
                T::format(),
                values_of(items@),
                0,
            )
        } else {
            result == Err::<(), ProtocolCodecError>(ProtocolCodecError::LengthOverflow)
        },
{
    let ghost values = values_of(items@);
    let ghost f = T::format();
    let mut i: usize = 0;
    while i < items.len()
        invariant
            i <= items@.len(),
            values == values_of(items@),
            f == T::format(),
            forall|j: int| 0 <= j < items@.len() ==> (#[trigger] items@[j]).encodable(),
            append_from(old(encoder)@, f, values, 0) == append_from(encoder@, f, values, i as nat),
            all_fit(f, values, 0) == all_fit(f, values, i as nat),
        decreases items@.len() - i,
    {
        proof {
            append_item(encoder@, f, values, i as nat);
        }
        items[i].encode(encoder)?;
        i += 1;
    }
    proof {
        append_no_item(encoder@, f, values);
    }
    Ok(())
}

/// Reads a number of items.
pub fn decode_items<T: Wire>(decoder: &mut Decoder<'_>, count: usize) -> (result: Result<
    Vec<T>,
    ProtocolCodecError,
>)
    requires
        old(decoder).wf(),
    ensures
        final(decoder).wf(),
        match parse_list(T::format(), count as nat, old(decoder)@) {
            Ok((values, rest)) => result matches Ok(items) && values_of(items@) == values
                && final(decoder)@ == rest && forall|i: int|
                0 <= i < items@.len() ==> (#[trigger] items@[i]).encodable(),
            Err(e) => result == Err::<Vec<T>, ProtocolCodecError>(e),
        },
{
    let ghost f = T::format();
    let ghost whole = parse_list(f, count as nat, decoder@);
    let mut items: Vec<T> = Vec::new();
    let mut left: usize = count;
    assert(values_of(items@) =~= Seq::empty());
    assert(whole is Ok ==> Seq::empty() + whole->Ok_0.0 =~= whole->Ok_0.0);
    while left > 0
        invariant
            decoder.wf(),
            f == T::format(),
            whole == parse_list(f, count as nat, old(decoder)@),
            forall|i: int| 0 <= i < items@.len() ==> (#[trigger] items@[i]).encodable(),
            match parse_list(f, left as nat, decoder@) {
                Ok((rest, t)) => whole == Ok::<(Seq<Value>, Seq<u8>), ProtocolCodecError>(
                    (values_of(items@) + rest, t),
                ),
                Err(e) => whole == Err::<(Seq<Value>, Seq<u8>), ProtocolCodecError>(e),
            },
        decreases left,
    {
        let ghost before = items@;
        proof {
            parse_item(f, left as nat, decoder@);
        }
        let item = T::decode(decoder)?;
        let ghost value = item.value();
        let ghost later = parse_list(f, (left - 1) as nat, decoder@);
        items.push(item);
        left -= 1;
        proof {
            assert(values_of(items@) =~= values_of(before).push(value));
            if later is Ok {
                assert(values_of(before) + (seq![value] + later->Ok_0.0) =~= values_of(items@)
                    + later->Ok_0.0);
            }
        }
    }
    proof {
        parse_item(f, 0, decoder@);
        assert(values_of(items@) + Seq::<Value>::empty() =~= values_of(items@));
    }
    Ok(items)
}

impl<T: Wire> Wire for Vec<T> {
    open spec fn format() -> Format {
        list(T::format())
    }

    open spec fn value(&self) -> Value {
        Value::List(values_of(self@))
    }

    open spec fn encodable(&self) -> bool {
        forall|i: int| 0 <= i < self@.len() ==> (#[trigger] self@[i]).encodable()
    }

    fn encode(&self, encoder: &mut Encoder) -> (result: Result<(), ProtocolCodecError>) {
        proof {
            append_list(encoder@, Box::new(T::format()), values_of(self@));
        }
        encoder.write_len(self.len())?;
        encode_items(self, encoder)
    }

    fn decode(decoder: &mut Decoder<'_>) -> (result: Result<Self, ProtocolCodecError>) {
        proof {
            parse_whole_list(Box::new(T::format()), decoder@);
        }
        let count: usize = decoder.read_len()?;
        decode_items::<T>(decoder, count)
    }
}

/// Reading gives back what was written: the bytes of a value that can stand on the wire, and
/// nothing else, mean that value.
pub proof fn reading_undoes_writing<T: Wire>(value: T, rest: Seq<u8>)
    requires
        fits(T::format(), value.value()),
        orderly(T::format(), value.value()),
    ensures
        parse(T::format(), append(Seq::empty(), T::format(), value.value()) + rest) == Ok::<
            (Value, Seq<u8>),
            ProtocolCodecError,
        >((value.value(), rest)),
{
    reveal(append);
    parse_inverts_serialize(T::format(), value.value(), rest);
    assert(Seq::<u8>::empty() + serialize(T::format(), value.value()) =~= serialize(
        T::format(),
        value.value(),
    ));
}

} // verus!
