//! What becomes of datagrams that were sent: they are confirmed, sent again, or given up.

use crate::ordered::{
    found_entry, insert_laws, lex_before, lex_of_few, lookup, lookup_entry, sorted, Entries,
};
use crate::raknet::error::RakNetError;
use crate::raknet::peer_laws::{sending_in_bounds, unacked_ok};
use crate::raknet::peer_model::{
    due, earliest, in_range, in_ranges, kept, missing, ActionView, PeerModel, UnackedView,
};
use crate::raknet::sequence::MODULUS;
use crate::raknet::timing::{delay_after, elapsed};
use crate::raknet::wire::acknowledgement;
use vstd::prelude::*;

verus! {

/// The datagram that was sent under a number and is not yet confirmed.
pub open spec fn sent_under(m: PeerModel, number: int) -> Option<UnackedView> {
    lookup(m.unacked, seq![number])
}

/// Whether a number lies between two others, going up from the first and round past the largest.
pub open spec fn lies_between(n: int, first: int, last: int) -> bool {
    if first <= last {
        first <= n <= last
    } else {
        n >= first || n <= last
    }
}

/// Whether a number lies in one of some ranges.
pub open spec fn is_covered(n: int, ranges: Seq<(nat, nat)>) -> bool {
    exists|i: int|
        0 <= i < ranges.len() && lies_between(
            n,
            (#[trigger] ranges[i]).0 as int,
            ranges[i].1 as int,
        )
}

/// Whether ranges are made of numbers that datagrams have.
pub open spec fn are_numbers(ranges: Seq<(nat, nat)>) -> bool {
    forall|i: int|
        0 <= i < ranges.len() ==> (#[trigger] ranges[i]).0 < 0x100_0000 && ranges[i].1 < 0x100_0000
}

/// Whether two peers differ at most in their unconfirmed datagrams and in what is to be sent.
pub open spec fn differ_by_resending(a: PeerModel, b: PeerModel) -> bool {
    b == (PeerModel { unacked: b.unacked, outbox: b.outbox, ..a })
}

proof fn ranges_cover(n: nat, ranges: Seq<(nat, nat)>)
    requires
        n < MODULUS,
        are_numbers(ranges),
    ensures
        in_ranges(n, ranges) <==> is_covered(n as int, ranges),
{
    assert forall|i: int| 0 <= i < ranges.len() implies in_range(n, #[trigger] ranges[i])
        == lies_between(n as int, ranges[i].0 as int, ranges[i].1 as int) by {
    }
}

proof fn keys_differ(entries: Entries<UnackedView>, i: int, j: int)
    requires
        sorted(entries),
        0 <= i < j < entries.len(),
        entries[i].0.len() == 1,
        entries[j].0.len() == 1,
    ensures
        entries[i].0[0] < entries[j].0[0],
{
    assert(lex_before(entries[i].0, entries[j].0));
    let a = entries[i].0[0];
    let b = entries[j].0[0];
    assert(entries[i].0 =~= seq![a]);
    assert(entries[j].0 =~= seq![b]);
    lex_of_few(a, 0, 0, b, 0, 0);
}

spec fn stands_from(entries: Entries<UnackedView>, i: int, entry: (Seq<int>, UnackedView)) -> bool {
    exists|j: int| i <= j < entries.len() && #[trigger] entries[j] == entry
}

proof fn kept_holds(
    entries: Entries<UnackedView>,
    ranges: Seq<(nat, nat)>,
    i: int,
    entry: (Seq<int>, UnackedView),
)
    requires
        0 <= i <= entries.len(),
    ensures
        kept(entries, ranges, i).contains(entry) <==> stands_from(entries, i, entry) && !in_ranges(
            entry.0[0] as nat,
            ranges,
        ),
    decreases entries.len() - i,
{
    if i < entries.len() {
        kept_holds(entries, ranges, i + 1, entry);
        let rest = kept(entries, ranges, i + 1);
        let all = kept(entries, ranges, i);
        if stands_from(entries, i + 1, entry) {
            let j = choose|j: int| i + 1 <= j < entries.len() && #[trigger] entries[j] == entry;
            assert(stands_from(entries, i, entry));
        }
        if stands_from(entries, i, entry) && entry != entries[i] {
            let j = choose|j: int| i <= j < entries.len() && #[trigger] entries[j] == entry;
            assert(stands_from(entries, i + 1, entry));
        }
        if entry == entries[i] {
            assert(stands_from(entries, i, entry));
        }
        if !in_ranges(entries[i].0[0] as nat, ranges) {
            assert(all == seq![entries[i]] + rest);
            assert(all[0] == entries[i]);
            if rest.contains(entry) {
                let k = choose|k: int| 0 <= k < rest.len() && rest[k] == entry;
                assert(all[k + 1] == entry);
            }
            if all.contains(entry) && entry != entries[i] {
                let k = choose|k: int| 0 <= k < all.len() && all[k] == entry;
                assert(rest[k - 1] == entry);
            }
        }
    }
}

proof fn kept_are_sorted(entries: Entries<UnackedView>, ranges: Seq<(nat, nat)>, i: int)
    requires
        sorted(entries),
        0 <= i <= entries.len(),
    ensures
        sorted(kept(entries, ranges, i)),
    decreases entries.len() - i,
{
    if i < entries.len() {
        kept_are_sorted(entries, ranges, i + 1);
        let rest = kept(entries, ranges, i + 1);
        let all = kept(entries, ranges, i);
        if !in_ranges(entries[i].0[0] as nat, ranges) {
            assert(all == seq![entries[i]] + rest);
            assert forall|a: int, b: int| 0 <= a < b < all.len() implies lex_before(
                #[trigger] all[a].0,
                #[trigger] all[b].0,
            ) by {
                assert(all[b] == rest[b - 1]);
                if a > 0 {
                    assert(all[a] == rest[a - 1]);
                } else {
                    assert(rest.contains(rest[b - 1]));
                    kept_holds(entries, ranges, i + 1, rest[b - 1]);
                    let j = choose|j: int|
                        i + 1 <= j < entries.len() && #[trigger] entries[j] == rest[b - 1];
                    assert(lex_before(entries[i].0, entries[j].0));
                }
            }
        }
    }
}

/// When datagrams are confirmed, those whose numbers lie in the ranges are forgotten and all others
/// are still remembered as they were. Nothing else of the peer changes, and nothing is sent.
pub proof fn confirmation_forgets_what_it_names(m: PeerModel, ranges: Seq<(nat, nat)>, n: int)
    requires
        sending_in_bounds(m),
        are_numbers(ranges),
        0 <= n < 0x100_0000,
    ensures
        ({
            let after = m.confirmed(ranges);
            &&& is_covered(n, ranges) ==> sent_under(after, n) is None
            &&& !is_covered(n, ranges) ==> sent_under(after, n) == sent_under(m, n)
            &&& after.outbox == m.outbox
            &&& differ_by_resending(m, after)
        }),
{
    let after = m.confirmed(ranges);
    let key = seq![n];
    kept_are_sorted(m.unacked, ranges, 0);
    ranges_cover(n as nat, ranges);
    found_entry(m.unacked, key);
    found_entry(after.unacked, key);
    assert(key[0] == n);
    if let Some(sent) = lookup(after.unacked, key) {
        let k = choose|k: int|
            0 <= k < after.unacked.len() && #[trigger] after.unacked[k] == (key, sent);
        kept_holds(m.unacked, ranges, 0, (key, sent));
        assert(after.unacked.contains((key, sent)));
        let j = choose|j: int| 0 <= j < m.unacked.len() && #[trigger] m.unacked[j] == (key, sent);
        lookup_entry(m.unacked, j);
    }
    if let Some(sent) = lookup(m.unacked, key) {
        let j = choose|j: int| 0 <= j < m.unacked.len() && #[trigger] m.unacked[j] == (key, sent);
        kept_holds(m.unacked, ranges, 0, (key, sent));
        assert(stands_from(m.unacked, 0, (key, sent)));
        if !in_ranges(n as nat, ranges) {
            let k = choose|k: int|
                0 <= k < after.unacked.len() && after.unacked[k] == (key, sent);
            lookup_entry(after.unacked, k);
        }
    }
}

/// A datagram that is sent again is the same, bytes for bytes; it was sent once more, and now. No
/// other datagram is touched. After sixty times it is given up, and the error names it.
pub proof fn datagram_is_sent_again(m: PeerModel, n: nat, now: u64, other: int)
    requires
        sending_in_bounds(m),
        n < 0x100_0000,
    ensures
        ({
            let (after, e) = m.retransmit(n, now);
            &&& sent_under(m, n as int) is None ==> after == m && e is None
            &&& sent_under(m, n as int) matches Some(sent) ==> {
                &&& sent.attempts >= 60 ==> {
                    &&& after == m
                    &&& e matches Some(RakNetError::RetransmitExhausted { sequence, attempts })
                    &&& sequence == n
                    &&& attempts == sent.attempts
                }
                &&& sent.attempts < 60 ==> {
                    &&& e is None
                    &&& after.outbox == m.outbox.push(ActionView::Send(sent.bytes))
                    &&& sent_under(after, n as int) matches Some(again)
                    &&& again.bytes == sent.bytes
                    &&& again.sent_at == now
                    &&& again.attempts == sent.attempts + 1
                    &&& other != n ==> sent_under(after, other) == sent_under(m, other)
                }
            }
            &&& differ_by_resending(m, after)
            &&& sending_in_bounds(after)
        }),
{
    let key = seq![n as int];
    if let Some(sent) = lookup(m.unacked, key) {
        if sent.attempts < 60 {
            let again = UnackedView {
                bytes: sent.bytes,
                sent_at: now,
                attempts: (sent.attempts + 1) as u16,
            };
            let after = m.retransmit(n, now).0;
            insert_laws(m.unacked, key, again, key);
            insert_laws(m.unacked, key, again, seq![other]);
            if seq![other] == key {
                assert(seq![other][0] == key[0]);
            }
            found_entry(m.unacked, key);
            let i = choose|i: int| 0 <= i < m.unacked.len() && #[trigger] m.unacked[i] == (key, sent);
            assert(unacked_ok(m.unacked[i], m.budgets));
            crate::raknet::peer_laws::every_inserted(
                m.unacked,
                key,
                again,
                |entry: (Seq<int>, UnackedView)| unacked_ok(entry, m.budgets),
            );
        }
    }
}

/// Whether each number of a list is larger than those before it.
pub open spec fn climbs(list: Seq<nat>) -> bool {
    forall|i: int, j: int| 0 <= i < j < list.len() ==> (#[trigger] list[i]) < (#[trigger] list[j])
}

/// The datagrams of a list, sent one after the other.
pub open spec fn sent_in_turn(m: PeerModel, list: Seq<nat>, from: int) -> Seq<ActionView> {
    Seq::new(
        (list.len() - from) as nat,
        |k: int| ActionView::Send(sent_under(m, list[from + k] as int)->Some_0.bytes),
    )
}

proof fn rest_is_sent_again(m: PeerModel, list: Seq<nat>, i: int, now: u64, n: int)
    requires
        sending_in_bounds(m),
        0 <= i <= list.len(),
        climbs(list),
        forall|k: int| i <= k < list.len() ==> #[trigger] list[k] < 0x100_0000,
        forall|k: int| i <= k < list.len() ==> sent_under(m, #[trigger] list[k] as int) is Some,
        m.retransmit_all(list, i, now).1 is None,
    ensures
        ({
            let after = m.retransmit_all(list, i, now).0;
            &&& after.outbox == m.outbox + sent_in_turn(m, list, i)
            &&& forall|k: int|
                i <= k < list.len() ==> {
                    let sent = sent_under(m, #[trigger] list[k] as int)->Some_0;
                    sent_under(after, list[k] as int) == Some(
                        UnackedView {
                            bytes: sent.bytes,
                            sent_at: now,
                            attempts: (sent.attempts + 1) as u16,
                        },
                    ) && sent.attempts < 60
                }
            &&& (forall|k: int| i <= k < list.len() ==> #[trigger] list[k] != n) ==> sent_under(
                after,
                n,
            ) == sent_under(m, n)
            &&& differ_by_resending(m, after)
        }),
    decreases list.len() - i,
{
    let (after, e) = m.retransmit_all(list, i, now);
    if i < list.len() {
        let first = list[i];
        let (sent, fault) = m.retransmit(first, now);
        let was = sent_under(m, first as int)->Some_0;
        datagram_is_sent_again(m, first, now, n);
        assert(fault is None);
        assert forall|k: int| i + 1 <= k < list.len() implies sent_under(
            sent,
            #[trigger] list[k] as int,
        ) == sent_under(m, list[k] as int) by {
            datagram_is_sent_again(m, first, now, list[k] as int);
            assert(list[i] < list[k]);
        }
        rest_is_sent_again(sent, list, i + 1, now, n);
        rest_is_sent_again(sent, list, i + 1, now, first as int);
        assert forall|k: int| i + 1 <= k < list.len() implies #[trigger] list[k] != first as int by {
            assert(list[i] < list[k]);
        }
        assert(sent_in_turn(m, list, i) =~= seq![ActionView::Send(was.bytes)] + sent_in_turn(
            sent,
            list,
            i + 1,
        )) by {
            assert forall|k: int| 0 < k < list.len() - i implies #[trigger] sent_in_turn(m, list, i)[k]
                == sent_in_turn(sent, list, i + 1)[k - 1] by {
                assert(sent_under(sent, list[i + k] as int) == sent_under(m, list[i + k] as int));
            }
        }
        assert(after.outbox =~= m.outbox + sent_in_turn(m, list, i));
    } else {
        assert(after.outbox =~= m.outbox + sent_in_turn(m, list, i));
    }
}

/// The datagrams that are due are exactly those whose delay since they were sent last is over, in
/// the order of their numbers.
pub proof fn late_datagrams_are_due(m: PeerModel, now: u64, i: int, n: nat)
    requires
        sending_in_bounds(m),
        0 <= i <= m.unacked.len(),
    ensures
        ({
            let list = due(m.unacked, now, i);
            &&& climbs(list)
            &&& forall|k: int|
                0 <= k < list.len() ==> #[trigger] list[k] < 0x100_0000 && sent_under(
                    m,
                    list[k] as int,
                ) is Some
            &&& forall|k: int|
                0 <= k < list.len() ==> i < m.unacked.len() && m.unacked[i].0[0]
                    <= #[trigger] list[k]
            &&& i == 0 ==> (list.contains(n) <==> (sent_under(m, n as int) matches Some(sent) && now
                - sent.sent_at >= delay_after(sent.attempts)))
            &&& list.contains(n) ==> (sent_under(m, n as int) matches Some(sent) && now
                - sent.sent_at >= delay_after(sent.attempts))
            &&& forall|j: int|
                i <= j < m.unacked.len() && (#[trigger] m.unacked[j]).0[0] == n && now
                    - m.unacked[j].1.sent_at >= delay_after(m.unacked[j].1.attempts)
                    ==> list.contains(n)
        }),
    decreases m.unacked.len() - i,
{
    let list = due(m.unacked, now, i);
    if i < m.unacked.len() {
        let entry = m.unacked[i];
        late_datagrams_are_due(m, now, i + 1, n);
        let rest = due(m.unacked, now, i + 1);
        assert(unacked_ok(entry, m.budgets));
        assert(entry.0 =~= seq![entry.0[0]]);
        lookup_entry(m.unacked, i);
        if i + 1 < m.unacked.len() {
            assert(unacked_ok(m.unacked[i + 1], m.budgets));
            keys_differ(m.unacked, i, i + 1);
        }
        if elapsed(now, entry.1.sent_at) >= delay_after(entry.1.attempts) {
            let number = entry.0[0] as nat;
            assert(list == seq![number] + rest);
            assert forall|a: int, b: int| 0 <= a < b < list.len() implies (#[trigger] list[a]) < (
            #[trigger] list[b]) by {
                assert(list[b] == rest[b - 1]);
                if a > 0 {
                    assert(list[a] == rest[a - 1]);
                }
            }
            assert forall|k: int| 0 <= k < list.len() implies #[trigger] list[k] < 0x100_0000
                && sent_under(m, list[k] as int) is Some && m.unacked[i].0[0] <= list[k] by {
                if k > 0 {
                    assert(list[k] == rest[k - 1]);
                }
            }
            assert(list[0] == number);
            if rest.contains(n) {
                let k = choose|k: int| 0 <= k < rest.len() && rest[k] == n;
                assert(list[k + 1] == n);
            }
            if list.contains(n) && n != number {
                let k = choose|k: int| 0 <= k < list.len() && list[k] == n;
                assert(rest[k - 1] == n);
            }
        } else {
            assert(list == rest);
            assert forall|k: int| 0 <= k < list.len() implies m.unacked[i].0[0]
                <= #[trigger] list[k] by {
                assert(list[k] == rest[k]);
            }
        }
    }
    if i == 0 {
        found_entry(m.unacked, seq![n as int]);
        if let Some(sent) = sent_under(m, n as int) {
            let j = choose|j: int|
                0 <= j < m.unacked.len() && #[trigger] m.unacked[j] == (seq![n as int], sent);
            assert(m.unacked[j].0[0] == n);
        }
    }
}

proof fn named_are_missing(m: PeerModel, ranges: Seq<(nat, nat)>, i: int, n: nat)
    requires
        sending_in_bounds(m),
        0 <= i <= m.unacked.len(),
    ensures
        ({
            let list = missing(m.unacked, ranges, i);
            &&& climbs(list)
            &&& forall|k: int|
                0 <= k < list.len() ==> #[trigger] list[k] < 0x100_0000 && sent_under(
                    m,
                    list[k] as int,
                ) is Some
            &&& forall|k: int|
                0 <= k < list.len() ==> i < m.unacked.len() && m.unacked[i].0[0]
                    <= #[trigger] list[k]
            &&& list.contains(n) ==> sent_under(m, n as int) is Some && in_ranges(n, ranges)
            &&& forall|j: int|
                i <= j < m.unacked.len() && (#[trigger] m.unacked[j]).0[0] == n && in_ranges(
                    n,
                    ranges,
                ) ==> list.contains(n)
        }),
    decreases m.unacked.len() - i,
{
    let list = missing(m.unacked, ranges, i);
    if i < m.unacked.len() {
        let entry = m.unacked[i];
        named_are_missing(m, ranges, i + 1, n);
        let rest = missing(m.unacked, ranges, i + 1);
        assert(unacked_ok(entry, m.budgets));
        assert(entry.0 =~= seq![entry.0[0]]);
        lookup_entry(m.unacked, i);
        if i + 1 < m.unacked.len() {
            assert(unacked_ok(m.unacked[i + 1], m.budgets));
            keys_differ(m.unacked, i, i + 1);
        }
        let number = entry.0[0] as nat;
        if in_ranges(number, ranges) {
            assert(list == seq![number] + rest);
            assert forall|a: int, b: int| 0 <= a < b < list.len() implies (#[trigger] list[a]) < (
            #[trigger] list[b]) by {
                assert(list[b] == rest[b - 1]);
                if a > 0 {
                    assert(list[a] == rest[a - 1]);
                }
            }
            assert forall|k: int| 0 <= k < list.len() implies #[trigger] list[k] < 0x100_0000
                && sent_under(m, list[k] as int) is Some && m.unacked[i].0[0] <= list[k] by {
                if k > 0 {
                    assert(list[k] == rest[k - 1]);
                }
            }
            assert(list[0] == number);
            if rest.contains(n) {
                let k = choose|k: int| 0 <= k < rest.len() && rest[k] == n;
                assert(list[k + 1] == n);
            }
            if list.contains(n) && n != number {
                let k = choose|k: int| 0 <= k < list.len() && list[k] == n;
                assert(rest[k - 1] == n);
            }
        } else {
            assert(list == rest);
            assert forall|k: int| 0 <= k < list.len() implies m.unacked[i].0[0]
                <= #[trigger] list[k] by {
                assert(list[k] == rest[k]);
            }
        }
    }
}

/// Whether exactly the datagrams that are asked for were sent again.
pub open spec fn is_resent(
    before: PeerModel,
    after: PeerModel,
    asked: bool,
    n: int,
    now: u64,
) -> bool {
    match sent_under(before, n) {
        None => sent_under(after, n) is None,
        Some(sent) => if asked {
            sent_under(after, n) matches Some(again) && again.bytes == sent.bytes && again.sent_at
                == now && again.attempts == sent.attempts + 1 && after.outbox.contains(
                ActionView::Send(sent.bytes),
            )
        } else {
            sent_under(after, n) == Some(sent)
        },
    }
}

/// A packet that reports datagrams as missing has exactly those sent again that it names and that
/// are not yet confirmed; all others are left alone. One that was sent too often closes the peer.
pub proof fn missing_datagrams_are_sent_again(
    m: PeerModel,
    bytes: Seq<u8>,
    ranges: Seq<(nat, nat)>,
    now: u64,
    epoch: i64,
    n: nat,
)
    requires
        sending_in_bounds(m),
        are_numbers(ranges),
        n < 0x100_0000,
        acknowledgement(bytes) == Ok::<Option<(bool, Seq<(nat, nat)>)>, RakNetError>(
            Some((false, ranges)),
        ),
    ensures
        ({
            let (after, e) = m.receive_datagram(bytes, now, epoch);
            &&& e is None ==> is_resent(m, after, is_covered(n as int, ranges), n as int, now)
            &&& e is None ==> after.outbox.len() >= m.outbox.len()
            &&& e is None && is_covered(n as int, ranges) ==> (sent_under(m, n as int) matches Some(
                sent,
            ) ==> sent.attempts < 60)
            &&& after.inbox == m.inbox
            &&& after.accepted == m.accepted
            &&& after.seen_datagrams == m.seen_datagrams
            &&& after.next_datagram == m.next_datagram
        }),
{
    let heard = m.observed(now);
    let list = missing(heard.unacked, ranges, 0);
    let (after, e) = m.receive_datagram(bytes, now, epoch);
    named_are_missing(heard, ranges, 0, n);
    ranges_cover(n, ranges);
    found_entry(m.unacked, seq![n as int]);
    if let Some(sent) = sent_under(m, n as int) {
        let j = choose|j: int|
            0 <= j < m.unacked.len() && #[trigger] m.unacked[j] == (seq![n as int], sent);
        assert(heard.unacked[j].0[0] == n);
    }
    resending_keeps(heard, list, 0, now);
    if e is None {
        rest_is_sent_again(heard, list, 0, now, n as int);
        if sent_under(m, n as int) is Some {
            resent_is_in_outbox(heard, after, list, n, now);
        }
    }
}

proof fn resending_keeps(m: PeerModel, list: Seq<nat>, i: int, now: u64)
    requires
        sending_in_bounds(m),
        0 <= i <= list.len(),
        forall|k: int| i <= k < list.len() ==> #[trigger] list[k] < 0x100_0000,
    ensures
        differ_by_resending(m, m.retransmit_all(list, i, now).0),
    decreases list.len() - i,
{
    if i < list.len() {
        datagram_is_sent_again(m, list[i], now, 0);
        resending_keeps(m.retransmit(list[i], now).0, list, i + 1, now);
    }
}

proof fn resent_is_in_outbox(m: PeerModel, after: PeerModel, list: Seq<nat>, n: nat, now: u64)
    requires
        after.outbox == m.outbox + sent_in_turn(m, list, 0),
        sent_under(m, n as int) is Some,
    ensures
        list.contains(n) ==> after.outbox.contains(
            ActionView::Send(sent_under(m, n as int)->Some_0.bytes),
        ),
{
    if list.contains(n) {
        let k = choose|k: int| 0 <= k < list.len() && list[k] == n;
        assert(sent_in_turn(m, list, 0)[k] == ActionView::Send(
            sent_under(m, n as int)->Some_0.bytes,
        ));
        assert(after.outbox[m.outbox.len() + k] == sent_in_turn(m, list, 0)[k]);
    }
}

/// A packet that confirms datagrams forgets exactly those that it names; nothing is sent, and the
/// peer was heard of.
pub proof fn confirmed_datagrams_are_forgotten(
    m: PeerModel,
    bytes: Seq<u8>,
    ranges: Seq<(nat, nat)>,
    now: u64,
    epoch: i64,
    n: int,
)
    requires
        sending_in_bounds(m),
        are_numbers(ranges),
        0 <= n < 0x100_0000,
        acknowledgement(bytes) == Ok::<Option<(bool, Seq<(nat, nat)>)>, RakNetError>(
            Some((true, ranges)),
        ),
    ensures
        ({
            let (after, e) = m.receive_datagram(bytes, now, epoch);
            &&& e is None
            &&& is_covered(n, ranges) ==> sent_under(after, n) is None
            &&& !is_covered(n, ranges) ==> sent_under(after, n) == sent_under(m, n)
            &&& after.outbox == m.outbox
            &&& after.inbox == m.inbox
            &&& after.last_observed >= now
            &&& after.last_observed >= m.last_observed
            &&& after.last_observed == now || after.last_observed == m.last_observed
        }),
{
    confirmation_forgets_what_it_names(m.observed(now), ranges, n);
}

/// A peer that has been silent for twelve seconds is given up when a timer runs out, and nothing is
/// sent to it.
pub proof fn silent_peer_is_given_up(m: PeerModel, now: u64)
    ensures
        now - m.last_observed >= 12_000_000_000 ==> m.on_timer(now) == (
            m,
            Some(RakNetError::PeerTimeout),
        ),
        now - m.last_observed < 12_000_000_000 ==> m.on_timer(now).1 != Some(
            RakNetError::PeerTimeout,
        ),
{
    if now - m.last_observed < 12_000_000_000 {
        resending_does_not_time_out(m, due(m.unacked, now, 0), 0, now);
    }
}

proof fn resending_does_not_time_out(m: PeerModel, list: Seq<nat>, i: int, now: u64)
    ensures
        m.retransmit_all(list, i, now).1 != Some(RakNetError::PeerTimeout),
    decreases list.len() - i,
{
    if 0 <= i < list.len() {
        resending_does_not_time_out(m.retransmit(list[i], now).0, list, i + 1, now);
    }
}

/// When a timer runs out for a peer that was heard of, exactly the datagrams are sent again whose
/// delay is over; all others are left alone.
pub proof fn late_datagrams_are_sent_again(m: PeerModel, now: u64, n: nat)
    requires
        sending_in_bounds(m),
        now - m.last_observed < 12_000_000_000,
    ensures
        ({
            let (after, e) = m.on_timer(now);
            let late = sent_under(m, n as int) matches Some(sent) && now - sent.sent_at
                >= delay_after(sent.attempts);
            &&& e is None ==> is_resent(m, after, late, n as int, now)
            &&& e is None && late ==> sent_under(m, n as int)->Some_0.attempts < 60
            &&& differ_by_resending(m, after)
        }),
{
    let list = due(m.unacked, now, 0);
    let (after, e) = m.on_timer(now);
    late_datagrams_are_due(m, now, 0, n);
    resending_keeps(m, list, 0, now);
    if e is None {
        rest_is_sent_again(m, list, 0, now, n as int);
        if sent_under(m, n as int) is Some {
            resent_is_in_outbox(m, after, list, n, now);
        }
    }
}

/// A datagram waits two tenths of a second before it is sent for the second time, twice that before
/// the third, and twice that again before the fourth and before the fifth; then it waits no longer.
pub proof fn delay_doubles_three_times(attempts: u16)
    ensures
        attempts == 1 ==> delay_after(attempts) == 200_000_000,
        1 <= attempts < 4 ==> delay_after((attempts + 1) as u16) == 2 * delay_after(attempts),
        4 <= attempts < u16::MAX ==> delay_after((attempts + 1) as u16) == delay_after(attempts),
{
}

/// Whether something happens at an instant: the peer times out, or the delay of a datagram is over.
pub open spec fn happens_at(m: PeerModel, instant: int, n: int) -> bool {
    ||| instant == m.last_observed + 12_000_000_000
    ||| sent_under(m, n) matches Some(sent) && instant == sent.sent_at + delay_after(sent.attempts)
}

proof fn earliest_of_all(m: PeerModel, i: int, instant: u64, n: int) -> (found: int)
    requires
        sending_in_bounds(m),
        0 <= i <= m.unacked.len(),
    ensures
        ({
            let first = earliest(m.unacked, i, instant);
            &&& first <= instant
            &&& forall|j: int|
                i <= j < m.unacked.len() ==> first <= (#[trigger] m.unacked[j]).1.sent_at
                    + delay_after(m.unacked[j].1.attempts)
            &&& first == instant || (sent_under(m, found) matches Some(sent) && first
                == sent.sent_at + delay_after(sent.attempts))
        }),
    decreases m.unacked.len() - i,
{
    if i < m.unacked.len() {
        let entry = m.unacked[i];
        let end = entry.1.sent_at + delay_after(entry.1.attempts);
        let next: u64 = if end < instant {
            end as u64
        } else {
            instant
        };
        let rest = earliest_of_all(m, i + 1, next, n);
        assert(unacked_ok(entry, m.budgets));
        assert(entry.0 =~= seq![entry.0[0]]);
        lookup_entry(m.unacked, i);
        if earliest(m.unacked, i + 1, next) == next && next != instant {
            entry.0[0]
        } else {
            rest
        }
    } else {
        n
    }
}

/// The next timer runs out as soon as anything happens and not before: no later than the peer times
/// out or the delay of any datagram is over, and at the very instant of one of these.
pub proof fn timer_runs_out_in_time(m: PeerModel, now: u64, n: int)
    requires
        sending_in_bounds(m),
        m.last_observed + 12_000_000_000 <= u64::MAX,
    ensures
        ({
            let at = m.next_timer_deadline(now);
            &&& at <= m.last_observed + 12_000_000_000
            &&& sent_under(m, n) matches Some(sent) ==> at <= sent.sent_at + delay_after(
                sent.attempts,
            )
            &&& exists|k: int| #[trigger] happens_at(m, at as int, k)
        }),
{
    let limit = (m.last_observed + 12_000_000_000) as u64;
    let found = earliest_of_all(m, 0, limit, n);
    assert(happens_at(m, m.next_timer_deadline(now) as int, found));
    found_entry(m.unacked, seq![n]);
    if let Some(sent) = sent_under(m, n) {
        let j = choose|j: int| 0 <= j < m.unacked.len() && #[trigger] m.unacked[j] == (seq![n], sent);
    }
}

} // verus!
