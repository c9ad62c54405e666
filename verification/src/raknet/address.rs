//! Socket addresses as plain numbers, with the order of addresses and their wire form.

use crate::bytes::{be, le, push_be, push_le};
use crate::ordered::{lex_by_place, smaller_from, Key};
use vstd::prelude::*;

verus! {

/// The address of a remote peer.
#[derive(Clone, Copy, Debug, PartialEq, Eq, Structural, Hash)]
pub enum PeerAddress {
    /// Version four: the four octets as one big-endian number.
    V4 { ip: u32, port: u16 },
    /// Version six: the first and last eight octets as two big-endian numbers.
    V6 { high: u64, low: u64, port: u16, flowinfo: u32, scope_id: u32 },
}

impl PeerAddress {
    /// The bytes that stand for the address on the wire.
    pub open spec fn wire(self) -> Seq<u8> {
        match self {
            PeerAddress::V4 { ip, port } => seq![4u8] + be((0xffff_ffff - ip) as nat, 4) + be(
                port as nat,
                2,
            ),
            PeerAddress::V6 { high, low, port, flowinfo, scope_id } => seq![6u8] + le(23, 2) + be(
                port as nat,
                2,
            ) + be(flowinfo as nat, 4) + be(high as nat, 8) + be(low as nat, 8) + be(
                scope_id as nat,
                4,
            ),
        }
    }

    /// Whether this address comes before `other`: version four first, then by address, port,
    /// flow and scope.
    pub open spec fn before(self, other: PeerAddress) -> bool {
        match (self, other) {
            (PeerAddress::V4 { .. }, PeerAddress::V6 { .. }) => true,
            (PeerAddress::V6 { .. }, PeerAddress::V4 { .. }) => false,
            (PeerAddress::V4 { ip: a, port: p }, PeerAddress::V4 { ip: b, port: q }) => a < b || (a
                == b && p < q),
            (
                PeerAddress::V6 { high: h, low: l, port: p, flowinfo: f, scope_id: s },
                PeerAddress::V6 { high: i, low: m, port: q, flowinfo: g, scope_id: t },
            ) => h < i || (h == i && (l < m || (l == m && (p < q || (p == q && (f < g || (f == g && s
                < t))))))),
        }
    }

    /// Whether this address comes before `other`.
    pub fn is_before(&self, other: &PeerAddress) -> (result: bool)
        ensures
            result == self.before(*other),
    {
        match (*self, *other) {
            (PeerAddress::V4 { .. }, PeerAddress::V6 { .. }) => true,
            (PeerAddress::V6 { .. }, PeerAddress::V4 { .. }) => false,
            (PeerAddress::V4 { ip: a, port: p }, PeerAddress::V4 { ip: b, port: q }) => a < b || (a
                == b && p < q),
            (
                PeerAddress::V6 { high: h, low: l, port: p, flowinfo: f, scope_id: s },
                PeerAddress::V6 { high: i, low: m, port: q, flowinfo: g, scope_id: t },
            ) => h < i || (h == i && (l < m || (l == m && (p < q || (p == q && (f < g || (f == g && s
                < t))))))),
        }
    }
}

impl Key for PeerAddress {
    open spec fn id(&self) -> Seq<int> {
        match self {
            PeerAddress::V4 { ip, port } => seq![4int, *ip as int, *port as int],
            PeerAddress::V6 { high, low, port, flowinfo, scope_id } => seq![
                6int,
                *high as int,
                *low as int,
                *port as int,
                *flowinfo as int,
                *scope_id as int,
            ],
        }
    }

    fn precedes(&self, other: &Self) -> (result: bool) {
        proof {
            reveal_with_fuel(smaller_from, 7);
            if self.id().len() == other.id().len() {
                lex_by_place(self.id(), other.id(), 0);
            }
        }
        self.is_before(other)
    }
}

/// The address with a given identity.
pub open spec fn address_of(id: Seq<int>) -> PeerAddress {
    if id.len() == 3 {
        PeerAddress::V4 { ip: id[1] as u32, port: id[2] as u16 }
    } else {
        PeerAddress::V6 {
            high: id[1] as u64,
            low: id[2] as u64,
            port: id[3] as u16,
            flowinfo: id[4] as u32,
            scope_id: id[5] as u32,
        }
    }
}

/// An address is the one with its identity.
pub broadcast proof fn address_of_id(a: PeerAddress)
    ensures
        address_of(#[trigger] a.id()) == a,
{
}

/// Addresses with the same identity are the same.
pub proof fn address_identity(a: PeerAddress, b: PeerAddress)
    requires
        a.id() == b.id(),
    ensures
        a == b,
{
    let (s, t) = (a.id(), b.id());
    assert(s[0] == t[0] && s[1] == t[1] && s[2] == t[2]);
    assert(s.len() == t.len());
    if s.len() == 6 {
        assert(s[3] == t[3] && s[4] == t[4] && s[5] == t[5]);
    }
}

/// The order of addresses is a strict total order.
pub proof fn address_order_is_total(a: PeerAddress, b: PeerAddress, c: PeerAddress)
    ensures
        !a.before(a),
        a.before(b) || b.before(a) || a == b,
        a.before(b) && b.before(c) ==> a.before(c),
{
}

/// Appends the wire form of an address.
pub fn write_address(output: &mut Vec<u8>, address: PeerAddress)
    ensures
        final(output)@ == old(output)@ + address.wire(),
{
    match address {
        PeerAddress::V4 { ip, port } => {
            output.push(4);
            push_be(output, (0xffff_ffff - ip) as u64, 4);
            push_be(output, port as u64, 2);
        },
        PeerAddress::V6 { high, low, port, flowinfo, scope_id } => {
            output.push(6);
            push_le(output, 23, 2);
            push_be(output, port as u64, 2);
            push_be(output, flowinfo as u64, 4);
            push_be(output, high, 8);
            push_be(output, low, 8);
            push_be(output, scope_id as u64, 4);
        },
    }
    assert(output@ =~= old(output)@ + address.wire());
}

} // verus!
