//! What a peer sends: how a payload is laid out in datagrams, and what is answered to whom.

use crate::bytes::{
    be, be_len, be_of_from_be, from_be, from_be_bound, from_be_of_be, from_le, from_le_of_le, le,
    le_len, pow256_values, signed_round_trip, to_signed, to_unsigned,
};
use crate::ordered::{insert_laws, lookup, sorted};
use crate::raknet::address::PeerAddress;
use crate::raknet::error::RakNetError;
use crate::raknet::peer_model::{
    after, fragment, fragment_count, fragment_start, send_keeps, ActionView, PeerModel,
    UnackedView, DATAGRAM_HEADER_BUDGET,
};
use crate::raknet::sequence::MODULUS;
use crate::raknet::wire::{
    bit_length, connected_pong, connection_accept, datagram_wire, i64_at, i64_wire, unspecified,
    unspecified_list,
};
use vstd::prelude::*;

verus! {

/// The bytes that a datagram with one reliable ordered frame carries: all that follow fourteen
/// bytes of header, or twenty-four where the frame is a fragment.
pub open spec fn carried(bytes: Seq<u8>) -> Seq<u8> {
    if (bytes[4] / 16) % 2 == 1 {
        bytes.skip(24)
    } else {
        bytes.skip(14)
    }
}

/// The bytes that datagrams carry, one after the other.
pub open spec fn carried_by(actions: Seq<ActionView>) -> Seq<u8>
    decreases actions.len(),
{
    if actions.len() == 0 {
        Seq::empty()
    } else {
        (match actions[0] {
            ActionView::Send(bytes) => carried(bytes),
            ActionView::Accept => Seq::empty(),
        }) + carried_by(actions.drop_first())
    }
}

/// Whether bytes are those of a datagram that carries one fragment of several, or all of a payload,
/// reliably and in order on the first channel: the numbers of the datagram, of the frame and of the
/// payload, and, where there are several fragments, how many there are, which payload they are of,
/// and which of them it is.
#[verifier::opaque]
pub open spec fn is_fragment(
    bytes: Seq<u8>,
    number: nat,
    reliable: nat,
    order: nat,
    count: nat,
    id: u16,
    index: nat,
) -> bool {
    &&& bytes.len() >= 14
    &&& bytes[0] == 0x84
    &&& from_le(bytes.subrange(1, 4)) == number
    &&& bytes[4] == if count > 1 {
        0x70u8
    } else {
        0x60u8
    }
    &&& from_le(bytes.subrange(7, 10)) == reliable
    &&& from_le(bytes.subrange(10, 13)) == order
    &&& bytes[13] == 0
    &&& count > 1 ==> {
        &&& bytes.len() >= 24
        &&& from_be(bytes.subrange(14, 18)) == count
        &&& from_be(bytes.subrange(18, 20)) == id
        &&& from_be(bytes.subrange(20, 24)) == index
    }
    &&& carried(bytes).len() <= 8191 ==> from_be(bytes.subrange(5, 7)) == carried(bytes).len() * 8
}

proof fn fragment_is_laid_out(
    payload: Seq<u8>,
    capacity: nat,
    count: nat,
    i: nat,
    number: nat,
    reliable: nat,
    order: nat,
    id: u16,
)
    requires
        i < count <= u32::MAX,
        capacity > 0,
        number < MODULUS,
        reliable < MODULUS,
        order < MODULUS,
    ensures
        ({
            let frame = fragment(payload, capacity, count, i, reliable, order, id);
            let bytes = datagram_wire(number, frame);
            let from = fragment_start(payload.len(), capacity, i) as int;
            let to = fragment_start(payload.len(), capacity, i + 1) as int;
            &&& is_fragment(bytes, number, reliable, order, count, id, i)
            &&& 0 <= from <= to <= payload.len()
            &&& carried(bytes) == payload.subrange(from, to)
            &&& to - from <= capacity
            &&& bytes.len() <= 24 + (to - from)
        }),
{
    broadcast use be_len, le_len, pow256_values, from_be_of_be, from_le_of_le;

    reveal(is_fragment);
    let frame = fragment(payload, capacity, count, i, reliable, order, id);
    let bytes = datagram_wire(number, frame);
    assert((i + 1) * capacity == i * capacity + capacity) by (nonlinear_arith);
    let body = frame.payload;
    assert(bytes.subrange(1, 4) =~= le(number, 3));
    assert(bytes.subrange(5, 7) =~= be(bit_length(body.len()), 2));
    assert(bytes.subrange(7, 10) =~= le(reliable, 3));
    assert(bytes.subrange(10, 13) =~= le(order, 3));
    if count > 1 {
        assert(bytes.subrange(14, 18) =~= be(count, 4));
        assert(bytes.subrange(18, 20) =~= be(id as nat, 2));
        assert(bytes.subrange(20, 24) =~= be(i, 4));
        assert(carried(bytes) =~= body);
    } else {
        assert(carried(bytes) =~= body);
    }
}

/// Whether actions are the sending of all fragments of a payload from the one numbered `first` on,
/// in order, each in a datagram and with a number of its own, none longer than the peer takes.
pub open spec fn are_fragments(
    actions: Seq<ActionView>,
    m: PeerModel,
    order: nat,
    count: nat,
    id: u16,
    first: nat,
) -> bool {
    &&& actions.len() + first == count
    &&& forall|k: int|
        0 <= k < actions.len() ==> {
            &&& (#[trigger] actions[k]) matches ActionView::Send(bytes)
            &&& bytes.len() <= m.mtu
            &&& is_fragment(
                bytes,
                (m.next_datagram + k) as nat % (MODULUS as nat),
                (m.next_reliable + k) as nat % (MODULUS as nat),
                order,
                count,
                id,
                (first + k) as nat,
            )
        }
}

proof fn fragments_follow(
    actions: Seq<ActionView>,
    m: PeerModel,
    next: PeerModel,
    order: nat,
    count: nat,
    id: u16,
    first: nat,
)
    requires
        actions.len() > 0,
        next.mtu == m.mtu,
        m.next_datagram < MODULUS,
        m.next_reliable < MODULUS,
        next.next_datagram == (m.next_datagram + 1) % (MODULUS as nat),
        next.next_reliable == (m.next_reliable + 1) % (MODULUS as nat),
        actions[0] matches ActionView::Send(bytes) && bytes.len() <= m.mtu && is_fragment(
            bytes,
            m.next_datagram,
            m.next_reliable,
            order,
            count,
            id,
            first,
        ),
        are_fragments(actions.drop_first(), next, order, count, id, first + 1),
    ensures
        are_fragments(actions, m, order, count, id, first),
{
    let later = actions.drop_first();
    assert forall|k: int| 0 <= k < actions.len() implies {
        &&& (#[trigger] actions[k]) matches ActionView::Send(b)
        &&& b.len() <= m.mtu
        &&& is_fragment(
            b,
            (m.next_datagram + k) as nat % (MODULUS as nat),
            (m.next_reliable + k) as nat % (MODULUS as nat),
            order,
            count,
            id,
            (first + k) as nat,
        )
    } by {
        reveal(is_fragment);
        if k > 0 {
            assert(actions[k] == later[k - 1]);
            assert((next.next_datagram + (k - 1)) % (MODULUS as int) == (m.next_datagram + k) % (
            MODULUS as int));
            assert((next.next_reliable + (k - 1)) % (MODULUS as int) == (m.next_reliable + k) % (
            MODULUS as int));
        }
    }
}

proof fn fragments_are_sent(
    m: PeerModel,
    payload: Seq<u8>,
    capacity: nat,
    count: nat,
    i: nat,
    order: nat,
    split_id: u16,
    now: u64,
)
    requires
        m.send_fragments(payload, capacity, count, i, order, split_id, now).1 is None,
        i <= count <= u32::MAX,
        count == fragment_count(payload.len(), capacity),
        m.mtu == capacity + 64,
        capacity > 0,
        m.next_datagram < MODULUS,
        m.next_reliable < MODULUS,
        order < MODULUS,
    ensures
        ({
            let sent = m.send_fragments(payload, capacity, count, i, order, split_id, now).0;
            let added = sent.outbox.skip(m.outbox.len() as int);
            let from = fragment_start(payload.len(), capacity, i) as int;
            &&& sent.outbox.len() >= m.outbox.len()
            &&& sent.outbox.take(m.outbox.len() as int) == m.outbox
            &&& are_fragments(added, m, order, count, split_id, i)
            &&& 0 <= from <= payload.len()
            &&& carried_by(added) == payload.subrange(from, payload.len() as int)
        }),
    decreases count - i,
{
    let n = m.outbox.len() as int;
    let (sent, e) = m.send_fragments(payload, capacity, count, i, order, split_id, now);
    if i < count {
        let frame = fragment(payload, capacity, count, i, m.next_reliable, order, split_id);
        let numbered = PeerModel { next_reliable: after(m.next_reliable), ..m };
        let bytes = datagram_wire(m.next_datagram, frame);
        let next = numbered.send_frame(frame, now).0;
        fragment_is_laid_out(
            payload,
            capacity,
            count,
            i,
            m.next_datagram,
            m.next_reliable,
            order,
            split_id,
        );
        assert(next.outbox == m.outbox.push(ActionView::Send(bytes)));
        fragments_are_sent(next, payload, capacity, count, i + 1, order, split_id, now);
        let later = sent.outbox.skip(n + 1);
        let added = sent.outbox.skip(n);
        assert(sent.outbox[n] == sent.outbox.take(n + 1)[n]);
        assert(added[0] == ActionView::Send(bytes));
        assert(added.drop_first() =~= later);
        assert(sent.outbox.take(n) =~= sent.outbox.take(n + 1).take(n));
        assert(m.outbox.push(ActionView::Send(bytes)).take(n) =~= m.outbox);
        let from = fragment_start(payload.len(), capacity, i) as int;
        let to = fragment_start(payload.len(), capacity, i + 1) as int;
        let all = payload.len() as int;
        assert(payload.subrange(from, to) + payload.subrange(to, all) =~= payload.subrange(
            from,
            all,
        ));
        fragments_follow(added, m, next, order, count, split_id, i);
    } else {
        last_fragment_ends(payload.len(), capacity);
        assert(sent.outbox.skip(n) =~= Seq::empty());
        assert(sent.outbox.take(n) =~= m.outbox);
        assert(payload.subrange(payload.len() as int, payload.len() as int) =~= Seq::empty());
    }
}

proof fn last_fragment_ends(len: nat, capacity: nat)
    requires
        capacity > 0,
    ensures
        fragment_start(len, capacity, fragment_count(len, capacity)) == len,
{
    if len > 0 {
        let n = len as int;
        let c = capacity as int;
        vstd::arithmetic::div_mod::lemma_fundamental_div_mod(n + c - 1, c);
        let q = (n + c - 1) / c;
        assert(q * c >= n) by (nonlinear_arith)
            requires
                n + c - 1 == c * q + (n + c - 1) % c,
                (n + c - 1) % c < c,
        ;
    } else {
        assert(1 * capacity == capacity) by (nonlinear_arith);
    }
}

/// Whether nothing but sending a payload happened: what was to be sent before is still there, and
/// behind it stand the fragments of the payload, at least one, which carry exactly the payload, all
/// under the next number of the order of payloads.
pub open spec fn only_sent(m: PeerModel, after: PeerModel, payload: Seq<u8>) -> bool {
    let added = after.outbox.skip(m.outbox.len() as int);
    &&& after.outbox.len() > m.outbox.len()
    &&& after.outbox.take(m.outbox.len() as int) == m.outbox
    &&& carried_by(added) == payload
    &&& are_fragments(added, m, m.next_ordered, added.len(), m.next_split_id, 0)
    &&& after.inbox == m.inbox
    &&& after.accepted == m.accepted
}

/// Sending a payload without an error puts the whole payload, and nothing else, into datagrams.
pub proof fn sent_payload_is_carried(m: PeerModel, payload: Seq<u8>, now: u64)
    requires
        m.send_reliable_ordered(payload, now).1 is None,
        m.next_datagram < MODULUS,
        m.next_reliable < MODULUS,
        m.next_ordered < MODULUS,
    ensures
        only_sent(m, m.send_reliable_ordered(payload, now).0, payload),
        m.send_reliable_ordered(payload, now).0.next_ordered == (m.next_ordered + 1) % (
        MODULUS as nat),
{
    let capacity = (m.mtu - DATAGRAM_HEADER_BUDGET) as nat;
    let count = fragment_count(payload.len(), capacity);
    let numbered = PeerModel {
        next_ordered: after(m.next_ordered),
        next_split_id: if m.next_split_id == u16::MAX {
            0
        } else {
            (m.next_split_id + 1) as u16
        },
        ..m
    };
    fragments_are_sent(
        numbered,
        payload,
        capacity,
        count,
        0,
        m.next_ordered,
        m.next_split_id,
        now,
    );
    send_keeps(m, payload, now);
    assert(fragment_start(payload.len(), capacity, 0) == 0) by {
        assert(0 * capacity == 0) by (nonlinear_arith);
    }
    assert(payload.subrange(0, payload.len() as int) =~= payload);
    assert(count >= 1) by {
        if payload.len() > 0 {
            last_fragment_ends(payload.len(), capacity);
            assert(0 * capacity == 0) by (nonlinear_arith);
        }
    }
    let sent = m.send_reliable_ordered(payload, now).0;
    let added = sent.outbox.skip(m.outbox.len() as int);
    assert(are_fragments(added, numbered, m.next_ordered, count, m.next_split_id, 0));
    sending_counts_on(numbered, payload, capacity, count, 0, m.next_ordered, m.next_split_id, now);
}

proof fn sending_counts_on(
    m: PeerModel,
    payload: Seq<u8>,
    capacity: nat,
    count: nat,
    i: nat,
    order: nat,
    split_id: u16,
    now: u64,
)
    ensures
        m.send_fragments(payload, capacity, count, i, order, split_id, now).0.next_ordered
            == m.next_ordered,
    decreases count - i,
{
    if i < count {
        let frame = fragment(payload, capacity, count, i, m.next_reliable, order, split_id);
        let numbered = PeerModel { next_reliable: after(m.next_reliable), ..m };
        let next = numbered.send_frame(frame, now).0;
        sending_counts_on(next, payload, capacity, count, i + 1, order, split_id, now);
    }
}

proof fn numbers_differ(base: nat, a: int, b: int)
    requires
        base < MODULUS,
        0 <= a < b < MODULUS,
    ensures
        (base + a) % (MODULUS as int) != (base + b) % (MODULUS as int),
{
}

/// The number of a datagram as a key.
pub open spec fn datagram_key(number: int) -> Seq<int> {
    seq![number % (MODULUS as int)]
}

/// Whether every datagram that was sent waits for its confirmation, sent once and just now, and
/// every other one that waited still waits as it did.
pub open spec fn are_remembered(
    before: PeerModel,
    after: PeerModel,
    actions: Seq<ActionView>,
    now: u64,
) -> bool {
    &&& sorted(after.unacked)
    &&& forall|k: int|
        0 <= k < actions.len() ==> #[trigger] lookup(
            after.unacked,
            datagram_key(before.next_datagram + k),
        ) == Some(UnackedView { bytes: actions[k]->Send_0, sent_at: now, attempts: 1 })
    &&& forall|other: int|
        0 <= other < MODULUS - actions.len() ==> lookup(
            after.unacked,
            #[trigger] datagram_key(before.next_datagram + actions.len() + other),
        ) == lookup(before.unacked, datagram_key(before.next_datagram + actions.len() + other))
}

proof fn fragments_are_remembered(
    m: PeerModel,
    payload: Seq<u8>,
    capacity: nat,
    count: nat,
    i: nat,
    order: nat,
    split_id: u16,
    now: u64,
)
    requires
        m.send_fragments(payload, capacity, count, i, order, split_id, now).1 is None,
        i <= count,
        count - i < MODULUS,
        m.next_datagram < MODULUS,
        sorted(m.unacked),
    ensures
        ({
            let sent = m.send_fragments(payload, capacity, count, i, order, split_id, now).0;
            let added = sent.outbox.skip(m.outbox.len() as int);
            &&& sent.outbox.len() == m.outbox.len() + (count - i)
            &&& sent.outbox.take(m.outbox.len() as int) == m.outbox
            &&& are_remembered(m, sent, added, now)
        }),
    decreases count - i,
{
    let n = m.outbox.len() as int;
    let (sent, e) = m.send_fragments(payload, capacity, count, i, order, split_id, now);
    let added = sent.outbox.skip(n);
    if i < count {
        let frame = fragment(payload, capacity, count, i, m.next_reliable, order, split_id);
        let numbered = PeerModel { next_reliable: after(m.next_reliable), ..m };
        let bytes = datagram_wire(m.next_datagram, frame);
        let next = numbered.send_frame(frame, now).0;
        let entry = UnackedView { bytes, sent_at: now, attempts: 1 };
        let key = datagram_key(m.next_datagram as int);
        assert(key =~= seq![m.next_datagram as int]);
        insert_laws(m.unacked, key, entry, key);
        fragments_are_remembered(next, payload, capacity, count, i + 1, order, split_id, now);
        let later = sent.outbox.skip(n + 1);
        assert(added.drop_first() =~= later);
        assert(sent.outbox[n] == sent.outbox.take(n + 1)[n]);
        assert(added[0] == ActionView::Send(bytes));
        assert(sent.outbox.take(n) =~= sent.outbox.take(n + 1).take(n));
        assert(m.outbox.push(ActionView::Send(bytes)).take(n) =~= m.outbox);
        assert forall|k: int| 0 <= k < added.len() implies #[trigger] lookup(
            sent.unacked,
            datagram_key(m.next_datagram + k),
        ) == Some(UnackedView { bytes: added[k]->Send_0, sent_at: now, attempts: 1 }) by {
            if k > 0 {
                assert(added[k] == later[k - 1]);
                assert(datagram_key(next.next_datagram + (k - 1)) =~= datagram_key(
                    m.next_datagram + k,
                ));
            } else {
                let other = MODULUS - 1 - later.len();
                assert(datagram_key(next.next_datagram + later.len() + other) =~= key);
            }
        }
        assert forall|other: int| 0 <= other < MODULUS - added.len() implies lookup(
            sent.unacked,
            #[trigger] datagram_key(m.next_datagram + added.len() + other),
        ) == lookup(m.unacked, datagram_key(m.next_datagram + added.len() + other)) by {
            let there = datagram_key(m.next_datagram + added.len() + other);
            assert(datagram_key(next.next_datagram + later.len() + other) =~= there);
            numbers_differ(m.next_datagram, 0, added.len() + other);
            assert(there[0] != key[0]);
            insert_laws(m.unacked, key, entry, there);
        }
    } else {
        assert(sent.outbox.take(n) =~= m.outbox);
    }
}

/// What is sent reliably waits for its confirmation.
pub proof fn sent_payload_is_remembered(m: PeerModel, payload: Seq<u8>, now: u64)
    requires
        m.send_reliable_ordered(payload, now).1 is None,
        m.next_datagram < MODULUS,
        m.next_reliable < MODULUS,
        m.next_ordered < MODULUS,
        sorted(m.unacked),
        payload.len() < MODULUS,
    ensures
        ({
            let sent = m.send_reliable_ordered(payload, now).0;
            are_remembered(m, sent, sent.outbox.skip(m.outbox.len() as int), now)
        }),
{
    let capacity = (m.mtu - DATAGRAM_HEADER_BUDGET) as nat;
    let count = fragment_count(payload.len(), capacity);
    let numbered = PeerModel {
        next_ordered: after(m.next_ordered),
        next_split_id: if m.next_split_id == u16::MAX {
            0
        } else {
            (m.next_split_id + 1) as u16
        },
        ..m
    };
    if payload.len() > 0 {
        let x = payload.len() + capacity - 1;
        assert(x / (capacity as int) <= payload.len()) by (nonlinear_arith)
            requires
                x == payload.len() + capacity - 1,
                capacity >= 1,
                payload.len() >= 1,
        ;
    }
    fragments_are_remembered(
        numbered,
        payload,
        capacity,
        count,
        0,
        m.next_ordered,
        m.next_split_id,
        now,
    );
    let sent = m.send_reliable_ordered(payload, now).0;
    assert(are_remembered(numbered, sent, sent.outbox.skip(m.outbox.len() as int), now));
}

/// A payload that fits into one datagram is sent where there is room for one more unconfirmed
/// datagram and datagrams may be as long as the peer takes them.
pub proof fn short_payload_is_sent(m: PeerModel, payload: Seq<u8>, now: u64)
    requires
        m.mtu > 64,
        payload.len() <= m.mtu - 64,
        m.mtu <= m.budgets.max_datagram_bytes,
        m.unacked.len() < m.budgets.max_unacked_datagrams,
        m.next_datagram < MODULUS,
        m.next_reliable < MODULUS,
        m.next_ordered < MODULUS,
    ensures
        m.send_reliable_ordered(payload, now).1 is None,
        m.send_reliable_ordered(payload, now).0.outbox.len() == m.outbox.len() + 1,
{
    let capacity = (m.mtu - DATAGRAM_HEADER_BUDGET) as nat;
    let count = fragment_count(payload.len(), capacity);
    assert(count == 1) by {
        if payload.len() > 0 {
            let x = payload.len() + capacity - 1;
            assert(x / (capacity as int) == 1) by (nonlinear_arith)
                requires
                    x == payload.len() + capacity - 1,
                    1 <= payload.len() <= capacity,
            ;
        }
    }
    fragment_is_laid_out(
        payload,
        capacity,
        1,
        0,
        m.next_datagram,
        m.next_reliable,
        m.next_ordered,
        m.next_split_id,
    );
    reveal_with_fuel(PeerModel::send_fragments, 2);
}

/// Eight bytes of a signed number read and written again are the same.
pub proof fn number_is_echoed(s: Seq<u8>, at: int)
    requires
        0 <= at,
        at + 8 <= s.len(),
    ensures
        i64_wire(i64_at(s, at)) == s.subrange(at, at + 8),
{
    broadcast use pow256_values;

    let part = s.subrange(at, at + 8);
    be_of_from_be(part);
    from_be_bound(part);
}

/// Whether eight bytes hold a signed number, most significant byte first.
pub open spec fn holds_number(s: Seq<u8>, at: int, n: i64) -> bool {
    &&& 0 <= at
    &&& at + 8 <= s.len()
    &&& to_signed(from_be(s.subrange(at, at + 8)), 8) == n
}

/// Eight bytes of a number among others hold the number.
pub proof fn number_is_held(before: Seq<u8>, n: i64, behind: Seq<u8>)
    ensures
        holds_number(before + i64_wire(n) + behind, before.len() as int, n),
{
    broadcast use be_len, pow256_values;

    let s = before + i64_wire(n) + behind;
    let at = before.len() as int;
    assert(s.subrange(at, at + 8) =~= i64_wire(n));
    signed_round_trip(n as int, 8);
    from_be_of_be(to_unsigned(n as int, 8), 8);
}

/// Whether bytes are an address: the version, then for version four the four octets inverted and
/// the port, and for version six a family, the port, the flow, the sixteen octets and the scope.
pub open spec fn is_address(s: Seq<u8>, address: PeerAddress) -> bool {
    match address {
        PeerAddress::V4 { ip, port } => {
            &&& s.len() == 7
            &&& s[0] == 4
            &&& from_be(s.subrange(1, 5)) + ip == 0xffff_ffff
            &&& from_be(s.subrange(5, 7)) == port
        },
        PeerAddress::V6 { high, low, port, flowinfo, scope_id } => {
            &&& s.len() == 29
            &&& s[0] == 6
            &&& s[1] == 23
            &&& s[2] == 0
            &&& from_be(s.subrange(3, 5)) == port
            &&& from_be(s.subrange(5, 9)) == flowinfo
            &&& from_be(s.subrange(9, 17)) == high
            &&& from_be(s.subrange(17, 25)) == low
            &&& from_be(s.subrange(25, 29)) == scope_id
        },
    }
}

/// An address is written in the form of addresses.
pub proof fn address_is_written(address: PeerAddress)
    ensures
        is_address(address.wire(), address),
{
    broadcast use be_len, le_len, pow256_values, from_be_of_be, from_le_of_le;

    let s = address.wire();
    match address {
        PeerAddress::V4 { ip, port } => {
            assert(s.subrange(1, 5) =~= be((0xffff_ffff - ip) as nat, 4));
            assert(s.subrange(5, 7) =~= be(port as nat, 2));
        },
        PeerAddress::V6 { high, low, port, flowinfo, scope_id } => {
            reveal_with_fuel(le, 3);
            assert(s.subrange(3, 5) =~= be(port as nat, 2));
            assert(s.subrange(5, 9) =~= be(flowinfo as nat, 4));
            assert(s.subrange(9, 17) =~= be(high as nat, 8));
            assert(s.subrange(17, 25) =~= be(low as nat, 8));
            assert(s.subrange(25, 29) =~= be(scope_id as nat, 4));
        },
    }
}

/// Whether bytes accept a connection: a mark, the address of the client, two zero bytes, ten
/// addresses of nowhere, the time that the client sent, as it sent it, and the time of the server.
pub open spec fn accepts(s: Seq<u8>, client: PeerAddress, request: Seq<u8>, time: i64) -> bool {
    let n: int = if client is V4 {
        7
    } else {
        29
    };
    &&& s.len() == n + 89
    &&& s[0] == 0x10
    &&& is_address(s.subrange(1, 1 + n), client)
    &&& s[1 + n] == 0
    &&& s[2 + n] == 0
    &&& forall|i: int|
        0 <= i < 10 ==> #[trigger] s.subrange(3 + n + 7 * i, 10 + n + 7 * i) == seq![
            4u8,
            255u8,
            255u8,
            255u8,
            255u8,
            0u8,
            0u8,
        ]
    &&& s.subrange(n + 73, n + 81) == request.subrange(9, 17)
    &&& holds_number(s, n + 81, time)
}

proof fn nowhere_list(count: nat)
    ensures
        unspecified_list(count).len() == 7 * count,
        forall|i: int|
            0 <= i < count ==> #[trigger] unspecified_list(count).subrange(7 * i, 7 * i + 7)
                == unspecified().wire(),
    decreases count,
{
    broadcast use be_len;

    if count > 0 {
        nowhere_list((count - 1) as nat);
        let before = unspecified_list((count - 1) as nat);
        let all = unspecified_list(count);
        assert forall|i: int| 0 <= i < count implies #[trigger] all.subrange(7 * i, 7 * i + 7)
            == unspecified().wire() by {
            if i < count - 1 {
                assert(all.subrange(7 * i, 7 * i + 7) =~= before.subrange(7 * i, 7 * i + 7));
            } else {
                assert(all.subrange(7 * i, 7 * i + 7) =~= unspecified().wire());
            }
        }
    }
}

proof fn acceptance_is_laid_out(client: PeerAddress, request: Seq<u8>, time: i64)
    requires
        request.len() >= 18,
    ensures
        accepts(connection_accept(client, i64_at(request, 9), time), client, request, time),
{
    broadcast use be_len, le_len, pow256_values;

    let s = connection_accept(client, i64_at(request, 9), time);
    let n: int = if client is V4 {
        7
    } else {
        29
    };
    address_is_written(client);
    nowhere_list(10);
    number_is_echoed(request, 9);
    let head = seq![0x10u8] + client.wire() + be(0, 2) + unspecified_list(10) + i64_wire(
        i64_at(request, 9),
    );
    number_is_held(head, time, Seq::empty());
    assert(head + i64_wire(time) + Seq::<u8>::empty() =~= s);
    assert(s.subrange(1, 1 + n) =~= client.wire());
    reveal_with_fuel(be, 5);
    assert(be(0, 2) =~= seq![0u8, 0u8]);
    assert(be(0xffff_ffff, 4) =~= seq![255u8, 255u8, 255u8, 255u8]);
    assert(unspecified().wire() =~= seq![4u8, 255u8, 255u8, 255u8, 255u8, 0u8, 0u8]);
    assert forall|i: int| 0 <= i < 10 implies #[trigger] s.subrange(3 + n + 7 * i, 10 + n + 7 * i)
        == seq![4u8, 255u8, 255u8, 255u8, 255u8, 0u8, 0u8] by {
        assert(s.subrange(3 + n + 7 * i, 10 + n + 7 * i) =~= unspecified_list(10).subrange(
            7 * i,
            7 * i + 7,
        ));
    }
    assert(s.subrange(n + 73, n + 81) =~= request.subrange(9, 17));
}

/// A client that asks for a connection is answered: the datagrams that are sent carry an acceptance
/// with the address of the client, the time that the client sent and the time of the server.
pub proof fn connection_request_is_answered(
    m: PeerModel,
    request: Seq<u8>,
    now: u64,
    epoch: i64,
)
    requires
        request.len() >= 18,
        request[0] == 0x09,
        m.mtu > 64,
        m.next_datagram < MODULUS,
        m.next_reliable < MODULUS,
        m.next_ordered < MODULUS,
    ensures
        ({
            let (after, error) = m.deliver_payload(request, now, epoch);
            error is None ==> exists|answer: Seq<u8>|
                #[trigger] only_sent(m, after, answer) && accepts(
                    answer,
                    m.remote_addr,
                    request,
                    epoch,
                )
        }),
        m.unacked.len() < m.budgets.max_unacked_datagrams && m.mtu <= m.budgets.max_datagram_bytes
            && m.mtu >= 182 ==> m.deliver_payload(request, now, epoch).1 is None,
{
    let answer = connection_accept(m.remote_addr, i64_at(request, 9), epoch);
    acceptance_is_laid_out(m.remote_addr, request, epoch);
    let (after, error) = m.deliver_payload(request, now, epoch);
    assert(m.deliver_payload(request, now, epoch) == m.send_reliable_ordered(answer, now));
    if error is None {
        sent_payload_is_carried(m, answer, now);
    }
    if m.unacked.len() < m.budgets.max_unacked_datagrams && m.mtu <= m.budgets.max_datagram_bytes
        && m.mtu >= 182 {
        short_payload_is_sent(m, answer, now);
    }
}

/// A ping within a connection is answered by a pong with the time that the client sent, as it sent
/// it, and the time of the server.
pub proof fn connected_ping_is_answered(m: PeerModel, ping: Seq<u8>, now: u64, epoch: i64)
    requires
        ping.len() >= 9,
        ping[0] == 0x00,
        m.mtu > 64,
        m.next_datagram < MODULUS,
        m.next_reliable < MODULUS,
        m.next_ordered < MODULUS,
    ensures
        ({
            let (after, error) = m.deliver_payload(ping, now, epoch);
            error is None ==> exists|answer: Seq<u8>|
                {
                    &&& #[trigger] only_sent(m, after, answer)
                    &&& answer.len() == 17
                    &&& answer[0] == 0x03
                    &&& answer.subrange(1, 9) == ping.subrange(1, 9)
                    &&& holds_number(answer, 9, epoch)
                }
        }),
        m.unacked.len() < m.budgets.max_unacked_datagrams && m.mtu <= m.budgets.max_datagram_bytes
            && m.mtu >= 81 ==> m.deliver_payload(ping, now, epoch).1 is None,
{
    broadcast use be_len, pow256_values;

    let answer = connected_pong(i64_at(ping, 1), epoch);
    number_is_echoed(ping, 1);
    number_is_held(seq![0x03u8] + i64_wire(i64_at(ping, 1)), epoch, Seq::empty());
    assert(seq![0x03u8] + i64_wire(i64_at(ping, 1)) + i64_wire(epoch) + Seq::<u8>::empty()
        =~= answer);
    assert(answer.subrange(1, 9) =~= ping.subrange(1, 9));
    let (after, error) = m.deliver_payload(ping, now, epoch);
    assert(m.deliver_payload(ping, now, epoch) == m.send_reliable_ordered(answer, now));
    if error is None {
        sent_payload_is_carried(m, answer, now);
    }
    if m.unacked.len() < m.budgets.max_unacked_datagrams && m.mtu <= m.budgets.max_datagram_bytes
        && m.mtu >= 81 {
        short_payload_is_sent(m, answer, now);
    }
}

/// A client that completes the handshake is handed to whoever accepts connections, once.
pub proof fn handshake_is_completed_once(
    m: PeerModel,
    payload: Seq<u8>,
    now: u64,
    epoch: i64,
)
    requires
        payload.len() > 0,
        payload[0] == 0x13,
    ensures
        ({
            let (after, error) = m.deliver_payload(payload, now, epoch);
            &&& error is None
            &&& after.accepted
            &&& !m.accepted ==> after.outbox == m.outbox.push(ActionView::Accept)
            &&& m.accepted ==> after == m
            &&& after.inbox == m.inbox
            &&& after.unacked == m.unacked
        }),
{
}

/// A client that disconnects closes the connection, and nothing else happens.
pub proof fn disconnection_closes(m: PeerModel, payload: Seq<u8>, now: u64, epoch: i64)
    requires
        payload.len() > 0,
        payload[0] == 0x15 || payload[0] == 0x1c,
    ensures
        m.deliver_payload(payload, now, epoch) == (m, Some(RakNetError::Closed)),
{
}

/// Whether a payload is none of those that the transport itself understands.
pub open spec fn is_for_application(payload: Seq<u8>) -> bool {
    payload.len() == 0 || !seq![0x00u8, 0x03u8, 0x09u8, 0x13u8, 0x15u8, 0x1cu8].contains(payload[0])
}

/// A payload for the application waits behind those that came before it, once the handshake is
/// complete and while there is room; before, it is dropped, and without room, it is an error. In no
/// case is anything answered.
pub proof fn application_payload_waits_to_be_read(
    m: PeerModel,
    payload: Seq<u8>,
    now: u64,
    epoch: i64,
)
    requires
        is_for_application(payload),
        m.inbox.queue.len() < usize::MAX,
    ensures
        ({
            let (after, error) = m.deliver_payload(payload, now, epoch);
            &&& after.outbox == m.outbox
            &&& after.accepted == m.accepted
            &&& !m.accepted ==> error is None && after == m
            &&& m.accepted && m.inbox.queue.len() < m.inbox.capacity ==> error is None
                && after.inbox.queue == m.inbox.queue.push(payload) && after.inbox.closed
                == m.inbox.closed && after == (PeerModel { inbox: after.inbox, ..m })
            &&& m.accepted && m.inbox.queue.len() >= m.inbox.capacity ==> error is Some
                && after == m
        }),
{
    let known = seq![0x00u8, 0x03u8, 0x09u8, 0x13u8, 0x15u8, 0x1cu8];
    assert(known[0] == 0x00 && known[1] == 0x03 && known[2] == 0x09 && known[3] == 0x13 && known[4]
        == 0x15 && known[5] == 0x1c);
}

/// A request or a ping that is cut short is an error, and nothing is answered.
pub proof fn short_request_is_refused(m: PeerModel, payload: Seq<u8>, now: u64, epoch: i64)
    requires
        payload.len() > 0,
        (payload[0] == 0x09 && payload.len() < 18) || (payload[0] == 0x00 && payload.len() < 9),
    ensures
        m.deliver_payload(payload, now, epoch).0 == m,
        m.deliver_payload(payload, now, epoch).1 is Some,
{
}

/// What the application asks to be sent is sent as it is, once the handshake is complete and where
/// it is not too long; otherwise nothing is sent and nothing changes.
pub proof fn application_payload_is_sent(m: PeerModel, payload: Seq<u8>, now: u64)
    requires
        m.next_datagram < MODULUS,
        m.next_reliable < MODULUS,
        m.next_ordered < MODULUS,
    ensures
        ({
            let (after, error) = m.send_application(payload, now);
            &&& error is None ==> m.accepted && payload.len() <= m.budgets.max_payload_bytes
                && only_sent(m, after, payload)
            &&& !m.accepted || payload.len() > m.budgets.max_payload_bytes ==> error is Some
                && after == m
            &&& m.accepted && payload.len() <= m.budgets.max_payload_bytes && m.mtu > 64
                && payload.len() <= m.mtu - 64 && m.mtu <= m.budgets.max_datagram_bytes
                && m.unacked.len() < m.budgets.max_unacked_datagrams ==> error is None
        }),
{
    if m.send_application(payload, now).1 is None {
        sent_payload_is_carried(m, payload, now);
    }
    if m.mtu > 64 && payload.len() <= m.mtu - 64 && m.mtu <= m.budgets.max_datagram_bytes
        && m.unacked.len() < m.budgets.max_unacked_datagrams {
        short_payload_is_sent(m, payload, now);
    }
}

} // verus!
