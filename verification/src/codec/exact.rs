//! Formats in which a value has one form only: what was read and is written again gives the same
//! bytes.

use crate::bytes::{
    be_of_from_be, from_be_bound, from_le, from_le_bound, le, le_of_from_le, pow256_values,
    to_signed, to_unsigned,
};
use crate::codec::binary::envelope;
use crate::codec::grammar::{
    all_fit, counted, fits, parse, parse_list, parse_shrinks, select, serialize, serialize_from,
    skip, Cases, Format, ProtocolCodecError, Value,
};
use crate::codec::message::{flags_of, message, opened, sealed, whole};
use crate::codec::wire::append;
use crate::plugin::abi::PluginKind;
use vstd::prelude::*;
use vstd::utf8::decode_utf8_encode_utf8;

verus! {

/// Whether every value of a format has one form only.
pub open spec fn exact(f: Format) -> bool
    decreases f,
{
    match f {
        Format::Unit | Format::Int { .. } | Format::Bool | Format::Text | Format::Bytes
        | Format::Uuid => true,
        Format::Pair(a, b) => exact(*a) && exact(*b),
        Format::Option(body) => exact(*body),
        Format::List(item) => exact(*item),
        Format::Tagged(cases) => exact_cases(*cases),
        _ => false,
    }
}

/// Whether what follows each tag has one form only, and no two tags mean the same.
pub open spec fn exact_cases(cases: Cases) -> bool
    decreases cases,
{
    match cases {
        Cases::Case { tag, means, body, rest } => tag == means && exact(body) && exact_cases(
            *rest,
        ),
        Cases::Otherwise(_) => true,
    }
}

proof fn exact_select(cases: Cases, tag: u8)
    requires
        exact_cases(cases),
    ensures
        select(cases, tag) matches Ok((means, body)) ==> means == tag && exact(body),
    decreases cases,
{
    if let Cases::Case { tag: t, means, body, rest } = cases {
        exact_select(*rest, tag);
    }
}

proof fn counted_is_exact(s: Seq<u8>)
    ensures
        counted(s) matches Ok((bytes, rest)) ==> bytes.len() <= u32::MAX && le(bytes.len(), 4)
            + bytes + rest == s,
{
    if let Ok((bytes, rest)) = counted(s) {
        head_is_exact(s);
        assert(le(bytes.len(), 4) + bytes + rest =~= s);
    }
}

/// Four bytes are those of the number that they spell.
proof fn head_is_exact(s: Seq<u8>)
    requires
        s.len() >= 4,
    ensures
        le(from_le(s.subrange(0, 4)), 4) == s.subrange(0, 4),
        from_le(s.subrange(0, 4)) <= u32::MAX,
{
    broadcast use pow256_values;

    le_of_from_le(s.subrange(0, 4));
    from_le_bound(s.subrange(0, 4));
}

/// Writing gives back what was read: a value that bytes mean in an exact format fits the format,
/// and its bytes, followed by those that were left, are the bytes that were read.
#[verifier::rlimit(60)]
pub proof fn serialize_inverts_parse(f: Format, s: Seq<u8>)
    requires
        exact(f),
    ensures
        parse(f, s) matches Ok((v, rest)) ==> fits(f, v) && serialize(f, v) + rest == s,
    decreases s.len(), f, 0nat,
{
    broadcast use pow256_values;

    reveal(parse);
    reveal(parse_list);
    reveal(serialize);
    reveal(serialize_from);
    reveal(fits);
    reveal(all_fit);
    if let Ok((v, rest)) = parse(f, s) {
        match f {
            Format::Int { width, signed } => {
                let head = s.subrange(0, width as int);
                le_of_from_le(head);
                from_le_bound(head);
                let n = from_le(head);
                if signed {
                    assert(to_unsigned(to_signed(n, width), width) == n);
                }
                assert(head + rest =~= s);
            },
            Format::Bool => {
                assert(seq![s[0]] + rest =~= s);
            },
            Format::Text => {
                counted_is_exact(s);
                if let Ok((bytes, r)) = counted(s) {
                    decode_utf8_encode_utf8(bytes);
                }
            },
            Format::Bytes => {
                counted_is_exact(s);
            },
            Format::Uuid => {
                be_of_from_be(s.subrange(0, 16));
                from_be_bound(s.subrange(0, 16));
                assert(s.subrange(0, 16) + rest =~= s);
            },
            Format::Pair(a, b) => {
                parse_shrinks(*a, s);
                serialize_inverts_parse(*a, s);
                if let Ok((x, r)) = parse(*a, s) {
                    serialize_inverts_parse(*b, r);
                    if let Ok((y, t)) = parse(*b, r) {
                        assert(serialize(*a, x) + serialize(*b, y) + t =~= serialize(*a, x) + (
                        serialize(*b, y) + t));
                    }
                }
            },
            Format::Option(body) => {
                assert(seq![s[0]] + skip(s, 1) =~= s);
                if s[0] == 1 {
                    serialize_inverts_parse(*body, skip(s, 1));
                    if let Ok((x, r)) = parse(*body, skip(s, 1)) {
                        assert(seq![1u8] + serialize(*body, x) + r =~= seq![1u8] + (serialize(
                            *body,
                            x,
                        ) + r));
                    }
                }
            },
            Format::List(item) => {
                let n = from_le(s.subrange(0, 4));
                head_is_exact(s);
                list_is_exact(*item, n, skip(s, 4));
                if let Ok((items, r)) = parse_list(*item, n, skip(s, 4)) {
                    let tail = serialize_from(*item, items, 0);
                    assert(le(n, 4) + tail + r =~= le(n, 4) + (tail + r));
                    assert(s.subrange(0, 4) + skip(s, 4) =~= s);
                }
            },
            Format::Tagged(cases) => {
                exact_select(*cases, s[0]);
                assert(seq![s[0]] + skip(s, 1) =~= s);
                if let Ok((means, body)) = select(*cases, s[0]) {
                    serialize_inverts_parse(body, skip(s, 1));
                    if let Ok((x, r)) = parse(body, skip(s, 1)) {
                        assert(seq![s[0]] + serialize(body, x) + r =~= seq![s[0]] + (serialize(
                            body,
                            x,
                        ) + r));
                    }
                }
            },
            _ => {
                assert(Seq::<u8>::empty() + s =~= s);
            },
        }
    }
}

/// Writing gives back several things that were read.
proof fn list_is_exact(f: Format, n: nat, s: Seq<u8>)
    requires
        exact(f),
    ensures
        parse_list(f, n, s) matches Ok((items, rest)) ==> items.len() == n && all_fit(f, items, 0)
            && serialize_from(f, items, 0) + rest == s,
    decreases s.len(), f, n,
{
    reveal(parse);
    reveal(parse_list);
    reveal(serialize);
    reveal(serialize_from);
    reveal(fits);
    reveal(all_fit);
    if n == 0 {
        assert(Seq::<u8>::empty() + s =~= s);
    } else {
        parse_shrinks(f, s);
        serialize_inverts_parse(f, s);
        if let Ok((x, r)) = parse(f, s) {
            list_is_exact(f, (n - 1) as nat, r);
            if let Ok((later, t)) = parse_list(f, (n - 1) as nat, r) {
                let items = seq![x] + later;
                moved(f, items, later, 0);
                let tail = serialize_from(f, later, 0);
                assert(serialize(f, x) + tail + t =~= serialize(f, x) + (tail + t));
            }
        }
    }
}

/// The items of a list are the same things in a list with one more before them.
proof fn moved(f: Format, items: Seq<Value>, later: Seq<Value>, i: nat)
    requires
        items.len() == later.len() + 1,
        forall|j: int| 0 <= j < later.len() ==> items[j + 1] == #[trigger] later[j],
    ensures
        all_fit(f, items, i + 1) == all_fit(f, later, i),
        serialize_from(f, items, i + 1) == serialize_from(f, later, i),
    decreases later.len() - i,
{
    reveal(serialize);
    reveal(serialize_from);
    reveal(fits);
    reveal(all_fit);
    if i < later.len() {
        assert(items[i as int + 1] == later[i as int]);
        moved(f, items, later, i + 1);
    }
}

/// A message that was read in an exact format and carries no flag but that of a response, if it is
/// one, is what is written for its value.
pub proof fn message_is_exact(
    s: Seq<u8>,
    kind: PluginKind,
    response: bool,
    f: Format,
    wrong_kind: &'static str,
    wrong_flag: &'static str,
)
    requires
        exact(f),
        s.len() >= 8,
        from_le(s.subrange(6, 8)) == flags_of(response),
    ensures
        opened(s, kind, response, wrong_kind, wrong_flag) matches Ok((op, payload)) ==> (whole(
            f,
            payload,
        ) matches Ok(v) ==> sealed(kind, op, response, f, v) == Ok::<
            Seq<u8>,
            ProtocolCodecError,
        >(s)),
{
    broadcast use pow256_values;

    if let Ok((op, payload)) = opened(s, kind, response, wrong_kind, wrong_flag) {
        if let Ok(v) = whole(f, payload) {
            serialize_inverts_parse(f, payload);
            reveal(append);
            let rest = parse(f, payload)->Ok_0.1;
            assert(rest =~= Seq::empty());
            assert(serialize(f, v) + rest =~= serialize(f, v));
            assert(append(Seq::empty(), f, v) =~= payload);
            le_of_from_le(s.subrange(0, 2));
            le_of_from_le(s.subrange(2, 4));
            le_of_from_le(s.subrange(6, 8));
            le_of_from_le(s.subrange(8, 12));
            from_le_bound(s.subrange(0, 2));
            from_le_bound(s.subrange(2, 4));
            from_le_bound(s.subrange(6, 8));
            from_le_bound(s.subrange(8, 12));
            let header = envelope(s)->Ok_0.0;
            assert(header.wire() =~= s.subrange(0, 12));
            assert(s.subrange(0, 12) + payload =~= s);
            assert(message(kind, op, response, payload) =~= s);
        }
    }
}

} // verus!
