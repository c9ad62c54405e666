//! A grammar of wire formats: what a value is on the wire, what bytes mean, and that reading
//! undoes writing.

use crate::bytes::{
    be, be_len, from_be, from_be_of_be, from_le, from_le_of_le, le, le_len, pow256, pow256_values,
    signed_round_trip, to_signed, to_unsigned,
};
use crate::ordered::{
    gathered, gathered_sorted, holds, insert_at_end, inserted, lex_before, sorted, Entries,
};
use vstd::prelude::*;
use vstd::string::*;
use vstd::utf8::{
    decode_utf8, encode_utf8, encode_utf8_decode_utf8, encode_utf8_valid_utf8, valid_utf8,
};

verus! {

/// Why bytes are no message, or a value cannot be written.
#[derive(Clone, Copy, Debug, PartialEq, Eq)]
pub enum ProtocolCodecError {
    UnexpectedEof,
    InvalidUtf8,
    LengthOverflow,
    InvalidEnvelope(&'static str),
    InvalidPluginKind(u8),
    InvalidProtocolOpCode(u8),
    InvalidValue(&'static str),
    TrailingBytes,
}

/// A value without its type.
pub enum Value {
    /// Nothing.
    Unit,
    /// A number.
    Int(int),
    /// A text.
    Text(Seq<char>),
    /// Some bytes.
    Bytes(Seq<u8>),
    /// One value and another.
    Pair(Box<Value>, Box<Value>),
    /// Any number of values.
    List(Seq<Value>),
    /// One of several alternatives, told apart by a number.
    Case(int, Box<Value>),
}

/// How a value stands on the wire.
pub enum Format {
    /// Nothing at all.
    Unit,
    /// A number in a fixed number of bytes, least significant first.
    Int { width: nat, signed: bool },
    /// One byte, zero or one.
    Bool,
    /// A length in four bytes, then that many bytes of text.
    Text,
    /// A length in four bytes, then that many bytes.
    Bytes,
    /// Sixteen bytes, most significant first.
    Uuid,
    /// The place of a block in its section: two bytes of which twelve bits count.
    BlockIndex,
    /// One thing after another.
    Pair(Box<Format>, Box<Format>),
    /// A byte that is one where something follows, and zero where nothing does.
    Option(Box<Format>),
    /// A length in four bytes, then that many items.
    List(Box<Format>),
    /// The items of a map or a set: a list that is put in the order of its keys, a later item
    /// replacing an earlier one with the same key.
    Keyed(Box<Format>),
    /// The items of a map whose items hold their keys: read as the items of a map, and written in
    /// the order in which the map holds them.
    Held(Box<Format>),
    /// A byte that tells which of several things follows.
    Tagged(Box<Cases>),
    /// Structured data attached to an item.
    ItemData,
    /// The capabilities of a plugin, out of a vocabulary, and the build it comes from: a number of
    /// tokens, of which one may name the build.
    Announcement(Seq<Seq<char>>),
    /// The same, of which only the capabilities count.
    Capabilities(Seq<Seq<char>>),
}

/// The things that may follow a tag.
pub enum Cases {
    /// What follows the byte `tag`. It counts as the alternative numbered `means`.
    Case { tag: u8, means: u8, body: Format, rest: Box<Cases> },
    /// Any other byte is an error.
    Otherwise(&'static str),
}

/// One format after another.
pub open spec fn pair(a: Format, b: Format) -> Format {
    Format::Pair(Box::new(a), Box::new(b))
}

/// One value and another.
pub open spec fn both(a: Value, b: Value) -> Value {
    Value::Pair(Box::new(a), Box::new(b))
}

/// The format of an unsigned number of a given width.
pub open spec fn unsigned(width: nat) -> Format {
    Format::Int { width, signed: false }
}

/// The format of a signed number of a given width.
pub open spec fn signed(width: nat) -> Format {
    Format::Int { width, signed: true }
}

/// Something that may be absent.
pub open spec fn optional(body: Format) -> Format {
    Format::Option(Box::new(body))
}

/// Any number of things.
pub open spec fn list(item: Format) -> Format {
    Format::List(Box::new(item))
}

/// The items of a map or a set.
pub open spec fn keyed(item: Format) -> Format {
    Format::Keyed(Box::new(item))
}

/// The items of a map whose items hold their keys.
pub open spec fn held(item: Format) -> Format {
    Format::Held(Box::new(item))
}

/// One of several things.
pub open spec fn tagged(cases: Cases) -> Format {
    Format::Tagged(Box::new(cases))
}

/// What follows a tag, and the cases besides.
pub open spec fn case(tag: u8, body: Format, rest: Cases) -> Cases {
    Cases::Case { tag, means: tag, body, rest: Box::new(rest) }
}

/// One of several alternatives.
pub open spec fn chosen(tag: int, value: Value) -> Value {
    Value::Case(tag, Box::new(value))
}

/// What follows a tag: the number of the alternative and its format, or the error.
pub open spec fn select(cases: Cases, tag: u8) -> Result<(u8, Format), &'static str>
    decreases cases,
{
    match cases {
        Cases::Otherwise(text) => Err(text),
        Cases::Case { tag: t, means, body, rest } => if t == tag {
            Ok((means, body))
        } else {
            select(*rest, tag)
        },
    }
}

/// The alternatives of structured data attached to an item.
pub open spec fn item_data_cases() -> Cases {
    case(
        1,
        signed(1),
        case(
            2,
            signed(2),
            case(
                3,
                signed(4),
                case(
                    4,
                    signed(8),
                    case(
                        5,
                        unsigned(4),
                        case(
                            6,
                            unsigned(8),
                            case(
                                7,
                                Format::Bytes,
                                case(
                                    8,
                                    Format::Text,
                                    case(
                                        9,
                                        list(Format::ItemData),
                                        case(
                                            10,
                                            keyed(pair(Format::Text, Format::ItemData)),
                                            case(
                                                11,
                                                list(signed(4)),
                                                case(
                                                    12,
                                                    list(signed(8)),
                                                    Cases::Otherwise("invalid item data tag"),
                                                ),
                                            ),
                                        ),
                                    ),
                                ),
                            ),
                        ),
                    ),
                ),
            ),
        ),
    )
}

/// The bytes of a text as numbers.
pub open spec fn text_id(text: Seq<char>) -> Seq<int> {
    encode_utf8(text).map_values(|byte: u8| byte as int)
}

/// The numbers that place a key in the order of keys.
pub open spec fn key_id(key: Value) -> Seq<int>
    decreases key,
{
    match key {
        Value::Int(n) => seq![n],
        Value::Text(text) => text_id(text),
        Value::Bytes(bytes) => bytes.map_values(|byte: u8| byte as int),
        Value::Pair(a, b) => key_id(*a) + key_id(*b),
        _ => Seq::empty(),
    }
}

/// The key of an item of a map or a set: its first part, or the item itself.
pub open spec fn key_of(item: Value) -> Seq<int> {
    match item {
        Value::Pair(a, b) => key_id(*a),
        _ => key_id(item),
    }
}

/// Items under their keys.
pub open spec fn under_keys(items: Seq<Value>) -> Entries<Value> {
    items.map_values(|item: Value| (key_of(item), item))
}

/// Items put in the order of their keys.
pub open spec fn in_order(items: Seq<Value>) -> Seq<Value> {
    gathered(under_keys(items)).map_values(|entry: (Seq<int>, Value)| entry.1)
}

/// What the token that names a build starts with.
pub open spec fn build_tag_prefix() -> Seq<char> {
    "build-tag:"@
}

/// Whether a token names a build.
pub open spec fn names_build(token: Seq<char>) -> bool {
    token.len() >= 10 && token.subrange(0, 10) == build_tag_prefix()
}

/// The text that follows its length, and the bytes that are left.
pub open spec fn counted_text(s: Seq<u8>) -> Result<(Seq<char>, Seq<u8>), ProtocolCodecError> {
    match counted(s) {
        Err(e) => Err(e),
        Ok((bytes, rest)) => if valid_utf8(bytes) {
            Ok((decode_utf8(bytes), rest))
        } else {
            Err(ProtocolCodecError::InvalidUtf8)
        },
    }
}

/// What `n` tokens add to the capabilities and the build that were read before them.
pub open spec fn parse_tokens(
    vocabulary: Seq<Seq<char>>,
    n: nat,
    s: Seq<u8>,
    capabilities: Entries<Value>,
    build: Option<Seq<char>>,
) -> Result<(Entries<Value>, Option<Seq<char>>, Seq<u8>), ProtocolCodecError>
    decreases n,
{
    if n == 0 {
        Ok((capabilities, build, s))
    } else {
        match counted_text(s) {
            Err(e) => Err(e),
            Ok((token, rest)) => if names_build(token) {
                let raw = token.subrange(10, token.len() as int);
                if raw.len() == 0 {
                    Err(ProtocolCodecError::InvalidValue("build tag capability must not be empty"))
                } else if build is Some {
                    Err(ProtocolCodecError::InvalidValue("duplicate build tag capability"))
                } else {
                    parse_tokens(vocabulary, (n - 1) as nat, rest, capabilities, Some(raw))
                }
            } else if !vocabulary.contains(token) {
                Err(ProtocolCodecError::InvalidValue("invalid plugin capability"))
            } else if holds(capabilities, text_id(token)) {
                Err(ProtocolCodecError::InvalidValue("duplicate plugin capability"))
            } else {
                parse_tokens(
                    vocabulary,
                    (n - 1) as nat,
                    rest,
                    inserted(capabilities, text_id(token), Value::Text(token)),
                    build,
                )
            },
        }
    }
}

/// The name of a build that may be absent, without its type.
pub open spec fn build_value(build: Option<Seq<char>>) -> Value {
    match build {
        Some(name) => chosen(1, Value::Text(name)),
        None => chosen(0, Value::Unit),
    }
}

/// What tokens say, without its type.
pub open spec fn tokens_value(capabilities: Entries<Value>, build: Option<Seq<char>>) -> Value {
    both(
        Value::List(capabilities.map_values(|entry: (Seq<int>, Value)| entry.1)),
        build_value(build),
    )
}

/// The capabilities that tokens name, without their types.
pub open spec fn tokens_list(capabilities: Entries<Value>) -> Value {
    Value::List(capabilities.map_values(|entry: (Seq<int>, Value)| entry.1))
}

/// The bytes of a text with its length before it.
pub open spec fn text_bytes(text: Seq<char>) -> Seq<u8> {
    le(encode_utf8(text).len(), 4) + encode_utf8(text)
}

/// The bytes of the token that names a build, if one is named.
pub open spec fn build_bytes(build: Value) -> Seq<u8> {
    match build {
        Value::Case(n, name) => match *name {
            Value::Text(name) => text_bytes(build_tag_prefix() + name),
            _ => Seq::empty(),
        },
        _ => Seq::empty(),
    }
}

/// How many tokens name a build.
pub open spec fn build_count(build: Value) -> nat {
    match build {
        Value::Case(n, name) => if n == 1 {
            1
        } else {
            0
        },
        _ => 0,
    }
}

/// Whether a value names a build or none.
pub open spec fn build_fits(build: Value) -> bool {
    match build {
        Value::Case(n, name) => match *name {
            Value::Unit => n == 0,
            Value::Text(name) => n == 1 && encode_utf8(
                build_tag_prefix() + name,
            ).len() <= u32::MAX,
            _ => false,
        },
        _ => false,
    }
}

/// Whether a value is a capability of a vocabulary.
pub open spec fn capability_fits(vocabulary: Seq<Seq<char>>, item: Value) -> bool {
    match item {
        Value::Text(token) => vocabulary.contains(token) && !names_build(token) && encode_utf8(
            token,
        ).len() <= u32::MAX,
        _ => false,
    }
}

/// A value that was read and the bytes that are left.
pub type Parsed = Result<(Value, Seq<u8>), ProtocolCodecError>;

/// All bytes but the first `n`.
pub open spec fn skip(s: Seq<u8>, n: int) -> Seq<u8> {
    s.subrange(n, s.len() as int)
}

/// The bytes that follow their length, and the bytes that are left.
pub open spec fn counted(s: Seq<u8>) -> Result<(Seq<u8>, Seq<u8>), ProtocolCodecError> {
    if s.len() < 4 {
        Err(ProtocolCodecError::UnexpectedEof)
    } else {
        let n = from_le(s.subrange(0, 4)) as int;
        if s.len() < 4 + n {
            Err(ProtocolCodecError::UnexpectedEof)
        } else {
            Ok((s.subrange(4, 4 + n), skip(s, 4 + n)))
        }
    }
}

/// What bytes mean in a format.
#[verifier::opaque]
pub open spec fn parse(f: Format, s: Seq<u8>) -> Parsed
    decreases s.len(), f, 0nat,
{
    match f {
        Format::Unit => Ok((Value::Unit, s)),
        Format::Int { width, signed } => if s.len() < width {
            Err(ProtocolCodecError::UnexpectedEof)
        } else {
            let n = from_le(s.subrange(0, width as int));
            Ok(
                (
                    Value::Int(
                        if signed {
                            to_signed(n, width)
                        } else {
                            n as int
                        },
                    ),
                    skip(s, width as int),
                ),
            )
        },
        Format::Bool => if s.len() < 1 {
            Err(ProtocolCodecError::UnexpectedEof)
        } else if s[0] > 1 {
            Err(ProtocolCodecError::InvalidValue("invalid bool tag"))
        } else {
            Ok((Value::Int(s[0] as int), skip(s, 1)))
        },
        Format::Text => match counted(s) {
            Err(e) => Err(e),
            Ok((bytes, rest)) => if valid_utf8(bytes) {
                Ok((Value::Text(decode_utf8(bytes)), rest))
            } else {
                Err(ProtocolCodecError::InvalidUtf8)
            },
        },
        Format::Bytes => match counted(s) {
            Err(e) => Err(e),
            Ok((bytes, rest)) => Ok((Value::Bytes(bytes), rest)),
        },
        Format::Uuid => if s.len() < 16 {
            Err(ProtocolCodecError::UnexpectedEof)
        } else {
            Ok((Value::Int(from_be(s.subrange(0, 16)) as int), skip(s, 16)))
        },
        Format::BlockIndex => if s.len() < 2 {
            Err(ProtocolCodecError::UnexpectedEof)
        } else {
            Ok((Value::Int((from_le(s.subrange(0, 2)) % 4096) as int), skip(s, 2)))
        },
        Format::Pair(a, b) => match parse(*a, s) {
            Err(e) => Err(e),
            Ok((x, r)) => if r.len() > s.len() {
                Err(ProtocolCodecError::UnexpectedEof)
            } else {
                match parse(*b, r) {
                    Err(e) => Err(e),
                    Ok((y, t)) => Ok((both(x, y), t)),
                }
            },
        },
        Format::Option(body) => if s.len() < 1 {
            Err(ProtocolCodecError::UnexpectedEof)
        } else if s[0] > 1 {
            Err(ProtocolCodecError::InvalidValue("invalid bool tag"))
        } else if s[0] == 0 {
            Ok((chosen(0, Value::Unit), skip(s, 1)))
        } else {
            match parse(*body, skip(s, 1)) {
                Err(e) => Err(e),
                Ok((x, r)) => Ok((chosen(1, x), r)),
            }
        },
        Format::List(item) => if s.len() < 4 {
            Err(ProtocolCodecError::UnexpectedEof)
        } else {
            match parse_list(*item, from_le(s.subrange(0, 4)), skip(s, 4)) {
                Err(e) => Err(e),
                Ok((items, r)) => Ok((Value::List(items), r)),
            }
        },
        Format::Keyed(item) => if s.len() < 4 {
            Err(ProtocolCodecError::UnexpectedEof)
        } else {
            match parse_list(*item, from_le(s.subrange(0, 4)), skip(s, 4)) {
                Err(e) => Err(e),
                Ok((items, r)) => Ok((Value::List(in_order(items)), r)),
            }
        },
        Format::Held(item) => if s.len() < 4 {
            Err(ProtocolCodecError::UnexpectedEof)
        } else {
            match parse_list(*item, from_le(s.subrange(0, 4)), skip(s, 4)) {
                Err(e) => Err(e),
                Ok((items, r)) => Ok((Value::List(in_order(items)), r)),
            }
        },
        Format::Tagged(cases) => if s.len() < 1 {
            Err(ProtocolCodecError::UnexpectedEof)
        } else {
            match select(*cases, s[0]) {
                Err(text) => Err(ProtocolCodecError::InvalidValue(text)),
                Ok((means, body)) => match parse(body, skip(s, 1)) {
                    Err(e) => Err(e),
                    Ok((x, r)) => Ok((chosen(means as int, x), r)),
                },
            }
        },
        Format::ItemData => if s.len() < 1 {
            Err(ProtocolCodecError::UnexpectedEof)
        } else {
            match select(item_data_cases(), s[0]) {
                Err(text) => Err(ProtocolCodecError::InvalidValue(text)),
                Ok((means, body)) => match parse(body, skip(s, 1)) {
                    Err(e) => Err(e),
                    Ok((x, r)) => Ok((chosen(means as int, x), r)),
                },
            }
        },
        Format::Announcement(vocabulary) => if s.len() < 4 {
            Err(ProtocolCodecError::UnexpectedEof)
        } else {
            match parse_tokens(
                vocabulary,
                from_le(s.subrange(0, 4)),
                skip(s, 4),
                Seq::empty(),
                None,
            ) {
                Err(e) => Err(e),
                Ok((capabilities, build, r)) => Ok((tokens_value(capabilities, build), r)),
            }
        },
        Format::Capabilities(vocabulary) => if s.len() < 4 {
            Err(ProtocolCodecError::UnexpectedEof)
        } else {
            match parse_tokens(
                vocabulary,
                from_le(s.subrange(0, 4)),
                skip(s, 4),
                Seq::empty(),
                None,
            ) {
                Err(e) => Err(e),
                Ok((capabilities, build, r)) => Ok((tokens_list(capabilities), r)),
            }
        },
    }
}

/// What bytes mean as `n` things of a format.
#[verifier::opaque]
pub open spec fn parse_list(f: Format, n: nat, s: Seq<u8>) -> Result<
    (Seq<Value>, Seq<u8>),
    ProtocolCodecError,
>
    decreases s.len(), f, n,
{
    if n == 0 {
        Ok((Seq::empty(), s))
    } else {
        match parse(f, s) {
            Err(e) => Err(e),
            Ok((x, r)) => if r.len() > s.len() {
                Err(ProtocolCodecError::UnexpectedEof)
            } else {
                match parse_list(f, (n - 1) as nat, r) {
                    Err(e) => Err(e),
                    Ok((rest, t)) => Ok((seq![x] + rest, t)),
                }
            },
        }
    }
}

/// The bytes of a value in a format that it fits.
#[verifier::opaque]
pub open spec fn serialize(f: Format, v: Value) -> Seq<u8>
    decreases v, 0nat,
{
    match (f, v) {
        (Format::Int { width, signed }, Value::Int(n)) => le(to_unsigned(n, width), width),
        (Format::Bool, Value::Int(n)) => seq![n as u8],
        (Format::Text, Value::Text(text)) => le(encode_utf8(text).len(), 4) + encode_utf8(text),
        (Format::Bytes, Value::Bytes(bytes)) => le(bytes.len(), 4) + bytes,
        (Format::Uuid, Value::Int(n)) => be(n as nat, 16),
        (Format::BlockIndex, Value::Int(n)) => le(n as nat, 2),
        (Format::Pair(a, b), Value::Pair(x, y)) => serialize(*a, *x) + serialize(*b, *y),
        (Format::Option(body), Value::Case(n, x)) => if n == 0 {
            seq![0u8]
        } else {
            seq![1u8] + serialize(*body, *x)
        },
        (Format::List(item), Value::List(items)) => le(items.len(), 4) + serialize_from(
            *item,
            items,
            0,
        ),
        (Format::Keyed(item), Value::List(items)) => le(items.len(), 4) + serialize_from(
            *item,
            items,
            0,
        ),
        (Format::Held(item), Value::List(items)) => le(items.len(), 4) + serialize_from(
            *item,
            items,
            0,
        ),
        (Format::Tagged(cases), Value::Case(n, x)) => match select(*cases, n as u8) {
            Ok((means, body)) => seq![n as u8] + serialize(body, *x),
            Err(_) => Seq::empty(),
        },
        (Format::ItemData, Value::Case(n, x)) => match select(item_data_cases(), n as u8) {
            Ok((means, body)) => seq![n as u8] + serialize(body, *x),
            Err(_) => Seq::empty(),
        },
        (Format::Announcement(vocabulary), Value::Pair(x, build)) => match *x {
            Value::List(items) => le(items.len() + build_count(*build), 4) + serialize_from(
                Format::Text,
                items,
                0,
            ) + build_bytes(*build),
            _ => Seq::empty(),
        },
        (Format::Capabilities(vocabulary), Value::List(items)) => le(items.len(), 4)
            + serialize_from(Format::Text, items, 0),
        _ => Seq::empty(),
    }
}

/// The bytes of the items of a list from the place `i` on.
#[verifier::opaque]
pub open spec fn serialize_from(f: Format, items: Seq<Value>, i: nat) -> Seq<u8>
    decreases items, items.len() - i,
{
    if i >= items.len() {
        Seq::empty()
    } else {
        serialize(f, items[i as int]) + serialize_from(f, items, i + 1)
    }
}

/// Whether a value is of the kind that a format is for, and every length in it can be written.
#[verifier::opaque]
pub open spec fn fits(f: Format, v: Value) -> bool
    decreases v, 0nat,
{
    match (f, v) {
        (Format::Unit, Value::Unit) => true,
        (Format::Int { width, signed }, Value::Int(n)) => if signed {
            -pow256(width) <= 2 * n < pow256(width)
        } else {
            0 <= n < pow256(width)
        },
        (Format::Bool, Value::Int(n)) => n == 0 || n == 1,
        (Format::Text, Value::Text(text)) => encode_utf8(text).len() <= u32::MAX,
        (Format::Bytes, Value::Bytes(bytes)) => bytes.len() <= u32::MAX,
        (Format::Uuid, Value::Int(n)) => 0 <= n < pow256(16),
        (Format::BlockIndex, Value::Int(n)) => 0 <= n < 4096,
        (Format::Pair(a, b), Value::Pair(x, y)) => fits(*a, *x) && fits(*b, *y),
        (Format::Option(body), Value::Case(n, x)) => if n == 0 {
            *x == Value::Unit
        } else {
            n == 1 && fits(*body, *x)
        },
        (Format::List(item), Value::List(items)) => items.len() <= u32::MAX && all_fit(
            *item,
            items,
            0,
        ),
        (Format::Keyed(item), Value::List(items)) => items.len() <= u32::MAX && all_fit(
            *item,
            items,
            0,
        ) && sorted(under_keys(items)),
        (Format::Held(item), Value::List(items)) => items.len() <= u32::MAX && all_fit(
            *item,
            items,
            0,
        ),
        (Format::Tagged(cases), Value::Case(n, x)) => 0 <= n < 256 && match select(
            *cases,
            n as u8,
        ) {
            Ok((means, body)) => means == n && fits(body, *x),
            Err(_) => false,
        },
        (Format::ItemData, Value::Case(n, x)) => 0 <= n < 256 && match select(
            item_data_cases(),
            n as u8,
        ) {
            Ok((means, body)) => means == n && fits(body, *x),
            Err(_) => false,
        },
        (Format::Announcement(vocabulary), Value::Pair(x, build)) => match *x {
            Value::List(items) => {
                &&& items.len() + build_count(*build) <= u32::MAX
                &&& forall|i: int|
                    0 <= i < items.len() ==> capability_fits(vocabulary, #[trigger] items[i])
                &&& sorted(under_keys(items))
                &&& build_fits(*build)
            },
            _ => false,
        },
        (Format::Capabilities(vocabulary), Value::List(items)) => {
            &&& items.len() <= u32::MAX
            &&& forall|i: int|
                0 <= i < items.len() ==> capability_fits(vocabulary, #[trigger] items[i])
            &&& sorted(under_keys(items))
        },
        _ => false,
    }
}

/// Whether the items of a list from the place `i` on fit a format.
#[verifier::opaque]
pub open spec fn all_fit(f: Format, items: Seq<Value>, i: nat) -> bool
    decreases items, items.len() - i,
{
    i < items.len() ==> fits(f, items[i as int]) && all_fit(f, items, i + 1)
}

/// Whether a build that a value names has a name.
pub open spec fn build_named(build: Value) -> bool {
    build_of(build) matches Some(name) ==> name.len() > 0
}

/// Whether every map whose items hold their keys has its items in the order of those keys, each
/// key once, and every build that is named has a name.
#[verifier::opaque]
pub open spec fn orderly(f: Format, v: Value) -> bool
    decreases v, 0nat,
{
    match (f, v) {
        (Format::Pair(a, b), Value::Pair(x, y)) => orderly(*a, *x) && orderly(*b, *y),
        (Format::Option(body), Value::Case(n, x)) => n == 0 || orderly(*body, *x),
        (Format::List(item), Value::List(items)) => all_orderly(*item, items, 0),
        (Format::Keyed(item), Value::List(items)) => all_orderly(*item, items, 0),
        (Format::Held(item), Value::List(items)) => sorted(under_keys(items)) && all_orderly(
            *item,
            items,
            0,
        ),
        (Format::Tagged(cases), Value::Case(n, x)) => match select(*cases, n as u8) {
            Ok((means, body)) => orderly(body, *x),
            Err(_) => true,
        },
        (Format::ItemData, Value::Case(n, x)) => match select(item_data_cases(), n as u8) {
            Ok((means, body)) => orderly(body, *x),
            Err(_) => true,
        },
        (Format::Announcement(_), Value::Pair(_, build)) => build_named(*build),
        _ => true,
    }
}

/// Whether the items of a list from the place `i` on are orderly.
#[verifier::opaque]
pub open spec fn all_orderly(f: Format, items: Seq<Value>, i: nat) -> bool
    decreases items, items.len() - i,
{
    i < items.len() ==> orderly(f, items[i as int]) && all_orderly(f, items, i + 1)
}

/// Whether a format has no map whose items hold their keys, and no build.
pub open spec fn plain(f: Format) -> bool
    decreases f,
{
    match f {
        Format::Pair(a, b) => plain(*a) && plain(*b),
        Format::Option(body) => plain(*body),
        Format::List(item) => plain(*item),
        Format::Keyed(item) => plain(*item),
        Format::Held(_) => false,
        Format::Announcement(_) => false,
        Format::Tagged(cases) => plain_cases(*cases),
        _ => true,
    }
}

/// Whether nothing that may follow a tag has a map whose items hold their keys, or a build.
pub open spec fn plain_cases(cases: Cases) -> bool
    decreases cases,
{
    match cases {
        Cases::Case { tag, means, body, rest } => plain(body) && plain_cases(*rest),
        Cases::Otherwise(_) => true,
    }
}

proof fn plain_select(cases: Cases, tag: u8)
    requires
        plain_cases(cases),
    ensures
        select(cases, tag) matches Ok((means, body)) ==> plain(body),
    decreases cases,
{
    if let Cases::Case { tag: t, means, body, rest } = cases {
        plain_select(*rest, tag);
    }
}

/// Every value of a plain format is orderly.
pub proof fn plain_is_orderly(f: Format, v: Value)
    requires
        plain(f),
    ensures
        orderly(f, v),
    decreases v, 0nat,
{
    reveal(orderly);
    reveal(all_orderly);
    match (f, v) {
        (Format::Pair(a, b), Value::Pair(x, y)) => {
            plain_is_orderly(*a, *x);
            plain_is_orderly(*b, *y);
        },
        (Format::Option(body), Value::Case(n, x)) => {
            plain_is_orderly(*body, *x);
        },
        (Format::List(item), Value::List(items)) => {
            plain_are_orderly(*item, items, 0);
        },
        (Format::Keyed(item), Value::List(items)) => {
            plain_are_orderly(*item, items, 0);
        },
        (Format::Tagged(cases), Value::Case(n, x)) => {
            plain_select(*cases, n as u8);
            if let Ok((means, body)) = select(*cases, n as u8) {
                plain_is_orderly(body, *x);
            }
        },
        (Format::ItemData, Value::Case(n, x)) => {
            reveal_with_fuel(plain, 4);
            reveal_with_fuel(plain_cases, 14);
            plain_select(item_data_cases(), n as u8);
            if let Ok((means, body)) = select(item_data_cases(), n as u8) {
                plain_is_orderly(body, *x);
            }
        },
        _ => {},
    }
}

/// All values of a plain format are orderly.
pub proof fn plain_are_orderly(f: Format, items: Seq<Value>, i: nat)
    requires
        plain(f),
    ensures
        all_orderly(f, items, i),
    decreases items, items.len() - i,
{
    reveal(orderly);
    reveal(all_orderly);
    if i < items.len() {
        plain_is_orderly(f, items[i as int]);
        plain_are_orderly(f, items, i + 1);
    }
}

/// Reading leaves no more bytes than there were.
pub proof fn parse_shrinks(f: Format, s: Seq<u8>)
    ensures
        parse(f, s) matches Ok((v, r)) ==> r.len() <= s.len(),
    decreases s.len(), f, 0nat,
{
    reveal(parse);
    reveal(parse_list);
    match f {
        Format::Pair(a, b) => {
            parse_shrinks(*a, s);
            if let Ok((x, r)) = parse(*a, s) {
                if r.len() <= s.len() {
                    parse_shrinks(*b, r);
                }
            }
        },
        Format::Option(body) => {
            if s.len() > 0 {
                parse_shrinks(*body, skip(s, 1));
            }
        },
        Format::List(item) => {
            if s.len() >= 4 {
                parse_list_shrinks(*item, from_le(s.subrange(0, 4)), skip(s, 4));
            }
        },
        Format::Keyed(item) => {
            if s.len() >= 4 {
                parse_list_shrinks(*item, from_le(s.subrange(0, 4)), skip(s, 4));
            }
        },
        Format::Held(item) => {
            if s.len() >= 4 {
                parse_list_shrinks(*item, from_le(s.subrange(0, 4)), skip(s, 4));
            }
        },
        Format::Tagged(cases) => {
            if s.len() > 0 {
                if let Ok((means, body)) = select(*cases, s[0]) {
                    parse_shrinks(body, skip(s, 1));
                }
            }
        },
        Format::ItemData => {
            if s.len() > 0 {
                if let Ok((means, body)) = select(item_data_cases(), s[0]) {
                    parse_shrinks(body, skip(s, 1));
                }
            }
        },
        Format::Announcement(vocabulary) => {
            if s.len() >= 4 {
                tokens_shrink(
                    vocabulary,
                    from_le(s.subrange(0, 4)),
                    skip(s, 4),
                    Seq::empty(),
                    None,
                );
            }
        },
        Format::Capabilities(vocabulary) => {
            if s.len() >= 4 {
                tokens_shrink(
                    vocabulary,
                    from_le(s.subrange(0, 4)),
                    skip(s, 4),
                    Seq::empty(),
                    None,
                );
            }
        },
        _ => {},
    }
}

proof fn tokens_shrink(
    vocabulary: Seq<Seq<char>>,
    n: nat,
    s: Seq<u8>,
    capabilities: Entries<Value>,
    build: Option<Seq<char>>,
)
    ensures
        parse_tokens(vocabulary, n, s, capabilities, build) matches Ok((c, b, r)) ==> r.len()
            <= s.len(),
    decreases n,
{
    if n > 0 {
        if let Ok((token, rest)) = counted_text(s) {
            if names_build(token) {
                let raw = token.subrange(10, token.len() as int);
                tokens_shrink(vocabulary, (n - 1) as nat, rest, capabilities, Some(raw));
            } else {
                tokens_shrink(
                    vocabulary,
                    (n - 1) as nat,
                    rest,
                    inserted(capabilities, text_id(token), Value::Text(token)),
                    build,
                );
            }
        }
    }
}

/// Reading several things leaves no more bytes than there were.
pub proof fn parse_list_shrinks(f: Format, n: nat, s: Seq<u8>)
    ensures
        parse_list(f, n, s) matches Ok((v, r)) ==> r.len() <= s.len(),
    decreases s.len(), f, n,
{
    reveal(parse);
    reveal(parse_list);
    if n > 0 {
        parse_shrinks(f, s);
        if let Ok((x, r)) = parse(f, s) {
            if r.len() <= s.len() {
                parse_list_shrinks(f, (n - 1) as nat, r);
            }
        }
    }
}

/// The bytes of text or of raw bytes are read back after their length.
proof fn counted_round_trip(bytes: Seq<u8>, rest: Seq<u8>)
    requires
        bytes.len() <= u32::MAX,
    ensures
        counted(le(bytes.len(), 4) + bytes + rest) == Ok::<
            (Seq<u8>, Seq<u8>),
            ProtocolCodecError,
        >((bytes, rest)),
{
    broadcast use le_len, pow256_values;

    let head = le(bytes.len(), 4);
    let s = head + bytes + rest;
    from_le_of_le(bytes.len(), 4);
    assert(s.subrange(0, 4) =~= head);
    assert(s.subrange(4, 4 + bytes.len() as int) =~= bytes);
    assert(skip(s, 4 + bytes.len() as int) =~= rest);
}

/// Reading gives back what was written: the bytes of an orderly value that fits, followed by
/// anything, mean that value and leave what followed.
#[verifier::rlimit(60)]
pub proof fn parse_inverts_serialize(f: Format, v: Value, rest: Seq<u8>)
    requires
        fits(f, v),
        orderly(f, v),
    ensures
        parse(f, serialize(f, v) + rest) == Ok::<(Value, Seq<u8>), ProtocolCodecError>((v, rest)),
    decreases v, 0nat,
{
    broadcast use be_len, le_len, pow256_values;

    reveal(parse);
    reveal(parse_list);
    reveal(serialize);
    reveal(serialize_from);
    reveal(fits);
    reveal(all_fit);
    reveal(orderly);
    reveal(all_orderly);
    let s = serialize(f, v) + rest;
    match (f, v) {
        (Format::Unit, Value::Unit) => {
            assert(s =~= rest);
        },
        (Format::Int { width, signed }, Value::Int(n)) => {
            if signed {
                signed_round_trip(n, width);
            }
            from_le_of_le(to_unsigned(n, width), width);
            assert(s.subrange(0, width as int) =~= le(to_unsigned(n, width), width));
            assert(skip(s, width as int) =~= rest);
        },
        (Format::Bool, Value::Int(n)) => {
            assert(skip(s, 1) =~= rest);
        },
        (Format::Text, Value::Text(text)) => {
            counted_round_trip(encode_utf8(text), rest);
            encode_utf8_valid_utf8(text);
            encode_utf8_decode_utf8(text);
        },
        (Format::Bytes, Value::Bytes(bytes)) => {
            counted_round_trip(bytes, rest);
        },
        (Format::Uuid, Value::Int(n)) => {
            from_be_of_be(n as nat, 16);
            assert(s.subrange(0, 16) =~= be(n as nat, 16));
            assert(skip(s, 16) =~= rest);
        },
        (Format::BlockIndex, Value::Int(n)) => {
            from_le_of_le(n as nat, 2);
            assert(s.subrange(0, 2) =~= le(n as nat, 2));
            assert(skip(s, 2) =~= rest);
        },
        (Format::Pair(a, b), Value::Pair(x, y)) => {
            let tail = serialize(*b, *y) + rest;
            assert(s =~= serialize(*a, *x) + tail);
            parse_inverts_serialize(*a, *x, tail);
            parse_inverts_serialize(*b, *y, rest);
        },
        (Format::Option(body), Value::Case(n, x)) => {
            if n == 0 {
                assert(skip(s, 1) =~= rest);
            } else {
                assert(skip(s, 1) =~= serialize(*body, *x) + rest);
                parse_inverts_serialize(*body, *x, rest);
            }
        },
        (Format::List(item), Value::List(items)) => {
            list_head(item, items, rest);
            list_round_trip(*item, items, 0, rest);
            assert(items.subrange(0, items.len() as int) =~= items);
        },
        (Format::Keyed(item), Value::List(items)) => {
            list_head(item, items, rest);
            list_round_trip(*item, items, 0, rest);
            assert(items.subrange(0, items.len() as int) =~= items);
            gathered_sorted(under_keys(items));
            assert(in_order(items) =~= items);
        },
        (Format::Held(item), Value::List(items)) => {
            list_head(item, items, rest);
            list_round_trip(*item, items, 0, rest);
            assert(items.subrange(0, items.len() as int) =~= items);
            gathered_sorted(under_keys(items));
            assert(in_order(items) =~= items);
        },
        (Format::Tagged(cases), Value::Case(n, x)) => {
            if let Ok((means, body)) = select(*cases, n as u8) {
                assert(skip(s, 1) =~= serialize(body, *x) + rest);
                parse_inverts_serialize(body, *x, rest);
            }
        },
        (Format::ItemData, Value::Case(n, x)) => {
            if let Ok((means, body)) = select(item_data_cases(), n as u8) {
                assert(skip(s, 1) =~= serialize(body, *x) + rest);
                parse_inverts_serialize(body, *x, rest);
            }
        },
        (Format::Announcement(vocabulary), Value::Pair(x, build)) => {
            if let Value::List(items) = *x {
                announcement_round_trip(vocabulary, items, *build, rest);
                let count = items.len() + build_count(*build);
                let tail = serialize_from(Format::Text, items, 0) + build_bytes(*build) + rest;
                from_le_of_le(count, 4);
                assert(s =~= le(count, 4) + tail);
                assert(s.subrange(0, 4) =~= le(count, 4));
                assert(skip(s, 4) =~= tail);
                assert(under_keys(items).map_values(|entry: (Seq<int>, Value)| entry.1) =~= items);
            }
        },
        (Format::Capabilities(vocabulary), Value::List(items)) => {
            let build = chosen(0, Value::Unit);
            announcement_round_trip(vocabulary, items, build, rest);
            let tail = serialize_from(Format::Text, items, 0) + build_bytes(build) + rest;
            from_le_of_le(items.len(), 4);
            assert(s =~= le(items.len(), 4) + tail);
            assert(s.subrange(0, 4) =~= le(items.len(), 4));
            assert(skip(s, 4) =~= tail);
            assert(under_keys(items).map_values(|entry: (Seq<int>, Value)| entry.1) =~= items);
        },
        _ => {},
    }
}

proof fn text_round_trip(text: Seq<char>, rest: Seq<u8>)
    requires
        encode_utf8(text).len() <= u32::MAX,
    ensures
        counted_text(text_bytes(text) + rest) == Ok::<(Seq<char>, Seq<u8>), ProtocolCodecError>(
            (text, rest),
        ),
{
    counted_round_trip(encode_utf8(text), rest);
    encode_utf8_valid_utf8(text);
    encode_utf8_decode_utf8(text);
}

/// The build that a value names, if it names one.
pub open spec fn build_of(build: Value) -> Option<Seq<char>> {
    match build {
        Value::Case(n, name) => match *name {
            Value::Text(name) => Some(name),
            _ => None,
        },
        _ => None,
    }
}

/// Reading gives back the capabilities and the build that were written.
proof fn announcement_round_trip(
    vocabulary: Seq<Seq<char>>,
    items: Seq<Value>,
    build: Value,
    rest: Seq<u8>,
)
    requires
        forall|i: int| 0 <= i < items.len() ==> capability_fits(vocabulary, #[trigger] items[i]),
        sorted(under_keys(items)),
        build_fits(build),
        build_named(build),
    ensures
        parse_tokens(
            vocabulary,
            items.len() + build_count(build),
            serialize_from(Format::Text, items, 0) + build_bytes(build) + rest,
            Seq::empty(),
            None,
        ) == Ok::<(Entries<Value>, Option<Seq<char>>, Seq<u8>), ProtocolCodecError>(
            (under_keys(items), build_of(build), rest),
        ),
        build_value(build_of(build)) == build,
{
    assert(under_keys(items).subrange(0, 0) =~= Seq::empty());
    tokens_round_trip(vocabulary, items, 0, build, rest);
}

proof fn tokens_round_trip(
    vocabulary: Seq<Seq<char>>,
    items: Seq<Value>,
    i: nat,
    build: Value,
    rest: Seq<u8>,
)
    requires
        i <= items.len(),
        forall|j: int| 0 <= j < items.len() ==> capability_fits(vocabulary, #[trigger] items[j]),
        sorted(under_keys(items)),
        build_fits(build),
        build_named(build),
    ensures
        parse_tokens(
            vocabulary,
            (items.len() - i + build_count(build)) as nat,
            serialize_from(Format::Text, items, i) + build_bytes(build) + rest,
            under_keys(items).subrange(0, i as int),
            None,
        ) == Ok::<(Entries<Value>, Option<Seq<char>>, Seq<u8>), ProtocolCodecError>(
            (under_keys(items), build_of(build), rest),
        ),
    decreases items.len() - i,
{
    reveal(serialize);
    reveal(serialize_from);
    let done = under_keys(items).subrange(0, i as int);
    let s = serialize_from(Format::Text, items, i) + build_bytes(build) + rest;
    if i < items.len() {
        assert(capability_fits(vocabulary, items[i as int]));
        if let Value::Text(token) = items[i as int] {
            let tail = serialize_from(Format::Text, items, i + 1) + build_bytes(build) + rest;
            assert(serialize(Format::Text, items[i as int]) == text_bytes(token));
            assert(s =~= text_bytes(token) + tail);
            text_round_trip(token, tail);
            assert(sorted(done));
            if i > 0 {
                assert(done.last() == under_keys(items)[i - 1]);
                assert(lex_before(
                    under_keys(items)[i - 1].0,
                    under_keys(items)[i as int].0,
                ));
            }
            assert(under_keys(items)[i as int] == (text_id(token), items[i as int]));
            insert_at_end(done, text_id(token), items[i as int]);
            assert(done.push(under_keys(items)[i as int]) =~= under_keys(items).subrange(
                0,
                i as int + 1,
            ));
            tokens_round_trip(vocabulary, items, i + 1, build, rest);
        }
    } else {
        assert(done =~= under_keys(items));
        if build_count(build) == 0 {
            assert(s =~= rest);
        } else {
            let name = build_of(build)->Some_0;
            let token = build_tag_prefix() + name;
            reveal_strlit("build-tag:");
            assert(build_tag_prefix().len() == 10);
            assert(s =~= text_bytes(token) + rest);
            text_round_trip(token, rest);
            assert(token.subrange(0, 10) =~= build_tag_prefix());
            assert(token.subrange(10, token.len() as int) =~= name);
            reveal_with_fuel(parse_tokens, 2);
        }
    }
}

proof fn list_head(item: Box<Format>, items: Seq<Value>, rest: Seq<u8>)
    requires
        items.len() <= u32::MAX,
    ensures
        ({
            let s = le(items.len(), 4) + serialize_from(*item, items, 0) + rest;
            &&& s.len() >= 4
            &&& from_le(s.subrange(0, 4)) == items.len()
            &&& skip(s, 4) == serialize_from(*item, items, 0) + rest
        }),
{
    broadcast use le_len, pow256_values;

    let s = le(items.len(), 4) + serialize_from(*item, items, 0) + rest;
    from_le_of_le(items.len(), 4);
    assert(s.subrange(0, 4) =~= le(items.len(), 4));
    assert(skip(s, 4) =~= serialize_from(*item, items, 0) + rest);
}

/// Reading gives back the items of a list from a place on.
proof fn list_round_trip(f: Format, items: Seq<Value>, i: nat, rest: Seq<u8>)
    requires
        i <= items.len(),
        all_fit(f, items, i),
        all_orderly(f, items, i),
    ensures
        parse_list(f, (items.len() - i) as nat, serialize_from(f, items, i) + rest) == Ok::<
            (Seq<Value>, Seq<u8>),
            ProtocolCodecError,
        >((items.subrange(i as int, items.len() as int), rest)),
    decreases items, items.len() - i,
{
    reveal(parse);
    reveal(parse_list);
    reveal(serialize);
    reveal(serialize_from);
    reveal(fits);
    reveal(all_fit);
    reveal(orderly);
    reveal(all_orderly);
    let s = serialize_from(f, items, i) + rest;
    if i < items.len() {
        let tail = serialize_from(f, items, i + 1) + rest;
        assert(s =~= serialize(f, items[i as int]) + tail);
        parse_inverts_serialize(f, items[i as int], tail);
        list_round_trip(f, items, i + 1, rest);
        let later = items.subrange(i as int + 1, items.len() as int);
        assert(seq![items[i as int]] + later =~= items.subrange(i as int, items.len() as int));
    } else {
        assert(s =~= rest);
        assert(items.subrange(i as int, items.len() as int) =~= Seq::empty());
    }
}

} // verus!
