//! What can be said of addresses as text.

use crate::raknet::address::PeerAddress;
use crate::raknet::address_text::{
    address_text, dotted, groups, groups_text, joined_groups, longest, zeros,
};
use crate::text::{decimal, hex};
use vstd::prelude::*;

verus! {

/// An address of version four is written with its four bytes in decimal, the most significant
/// first, and its port.
pub proof fn four_bytes_are_written(a: u8, b: u8, c: u8, d: u8, ip: u32, port: u16)
    requires
        ip == 0x100_0000 * a + 0x1_0000 * b + 0x100 * c + d,
    ensures
        address_text(PeerAddress::V4 { ip, port }) == decimal(a as nat) + "."@ + decimal(b as nat)
            + "."@ + decimal(c as nat) + "."@ + decimal(d as nat) + ":"@ + decimal(port as nat),
{
    assert(ip / 0x100_0000 == a);
    assert(ip / 0x1_0000 % 0x100 == b);
    assert(ip / 0x100 % 0x100 == c);
    assert(ip % 0x100 == d);
}

/// The eight groups of an address of version six make it up, the most significant first.
pub proof fn groups_make_up_the_address(high: u64, low: u64)
    ensures
        ({
            let g = groups(high, low);
            &&& g.len() == 8
            &&& high == 0x1_0000_0000_0000 * g[0] + 0x1_0000_0000 * g[1] + 0x1_0000 * g[2] + g[3]
            &&& low == 0x1_0000_0000_0000 * g[4] + 0x1_0000_0000 * g[5] + 0x1_0000 * g[6] + g[7]
        }),
{
}

/// A run of zeros is as long as can be: all groups in it are zero, and the one behind it is not.
pub proof fn runs_are_of_zeros(s: Seq<u16>, i: int, k: int)
    requires
        0 <= i <= s.len(),
    ensures
        i + zeros(s, i) <= s.len(),
        i <= k < i + zeros(s, i) ==> s[k] == 0,
        i + zeros(s, i) < s.len() ==> s[i + zeros(s, i)] != 0,
    decreases s.len() - i,
{
    if i < s.len() && s[i] == 0 {
        runs_are_of_zeros(s, i + 1, k);
    }
}

/// The longest run is at least as long as every other, and longer than every one before it.
pub proof fn longest_run_is_longest(s: Seq<u16>, i: int, k: int)
    requires
        0 <= i <= k <= s.len(),
    ensures
        i <= longest(s, i) <= s.len(),
        zeros(s, k) <= zeros(s, longest(s, i)),
        k < longest(s, i) ==> zeros(s, k) < zeros(s, longest(s, i)),
    decreases s.len() - i,
{
    if i < s.len() {
        if k > i {
            longest_run_is_longest(s, i + 1, k);
        } else {
            longest_run_is_longest(s, i + 1, i + 1);
        }
    }
}

/// Groups are written in hexadecimal, one behind the other, with colons between.
pub proof fn groups_are_joined(s: Seq<u16>, from: int, to: int)
    requires
        0 <= from < to <= s.len(),
    ensures
        joined_groups(s, from, from) == Seq::<char>::empty(),
        joined_groups(s, from, from + 1) == hex(s[from] as nat),
        from + 1 < to ==> joined_groups(s, from, to) == hex(s[from] as nat) + ":"@ + joined_groups(
            s,
            from + 1,
            to,
        ),
    decreases to - from,
{
    if from + 1 < to {
        if from + 2 < to {
            groups_are_joined(s, from, to - 1);
        }
        let first = hex(s[from] as nat) + ":"@;
        let front = joined_groups(s, from, to - 1);
        let rest = joined_groups(s, from + 1, to - 1);
        let last = hex(s[to - 1] as nat);
        assert(joined_groups(s, from, to) == front + ":"@ + last);
        if from + 2 < to {
            assert(front == first + rest);
            assert(joined_groups(s, from + 1, to) == rest + ":"@ + last);
        } else {
            assert(joined_groups(s, from + 1, to) == last);
            assert(front == hex(s[from] as nat));
        }
        assert(joined_groups(s, from, to) =~= first + joined_groups(s, from + 1, to));
    }
}

/// Two colons stand for the longest run of zero groups, where it has more than one; an address of
/// version four within one of version six is written with dots.
pub proof fn six_words_are_shortened(high: u64, low: u64, ip: u32)
    ensures
        ({
            let s = groups(high, low);
            let start = longest(s, 0);
            let run = zeros(s, start);
            &&& high == 0 && low == 0xffff * 0x1_0000_0000 + ip ==> groups_text(high, low)
                == "::ffff:"@ + dotted(ip)
            &&& !(high == 0 && 0xffff_0000_0000 <= low < 0x1_0000_0000_0000) ==> (run <= 1
                ==> groups_text(high, low) == joined_groups(s, 0, 8)) && (run >= 2 ==> groups_text(
                high,
                low,
            ) == joined_groups(s, 0, start) + "::"@ + joined_groups(s, start + run, 8))
        }),
{
}

/// An address of version six stands in brackets before its port, with the number of its zone behind
/// a percent sign where it has one.
pub proof fn zones_are_written(high: u64, low: u64, port: u16, flowinfo: u32, scope_id: u32)
    ensures
        ({
            let text = address_text(PeerAddress::V6 { high, low, port, flowinfo, scope_id });
            &&& scope_id == 0 ==> text == "["@ + groups_text(high, low) + "]:"@ + decimal(
                port as nat,
            )
            &&& scope_id > 0 ==> text == "["@ + groups_text(high, low) + "%"@ + decimal(
                scope_id as nat,
            ) + "]:"@ + decimal(port as nat)
        }),
{
}

} // verus!
