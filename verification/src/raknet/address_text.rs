//! Socket addresses as text.

use crate::raknet::address::PeerAddress;
use crate::text::{append_decimal, append_hex, decimal, hex};
use vstd::prelude::*;
use vstd::string::*;

verus! {

/// Four octets in decimal with dots between, from one big-endian number.
pub open spec fn dotted(ip: u32) -> Seq<char> {
    decimal((ip / 0x100_0000) as nat) + "."@ + decimal((ip / 0x1_0000 % 0x100) as nat) + "."@
        + decimal((ip / 0x100 % 0x100) as nat) + "."@ + decimal((ip % 0x100) as nat)
}

/// The eight groups of sixteen bits of an address of version six.
pub open spec fn groups(high: u64, low: u64) -> Seq<u16> {
    seq![
        (high / 0x1_0000_0000_0000) as u16,
        (high / 0x1_0000_0000 % 0x1_0000) as u16,
        (high / 0x1_0000 % 0x1_0000) as u16,
        (high % 0x1_0000) as u16,
        (low / 0x1_0000_0000_0000) as u16,
        (low / 0x1_0000_0000 % 0x1_0000) as u16,
        (low / 0x1_0000 % 0x1_0000) as u16,
        (low % 0x1_0000) as u16,
    ]
}

/// How many groups from the one numbered `i` on are zero.
pub open spec fn zeros(s: Seq<u16>, i: int) -> nat
    decreases s.len() - i,
{
    if 0 <= i < s.len() && s[i] == 0 {
        1 + zeros(s, i + 1)
    } else {
        0
    }
}

/// Where the longest run of zero groups from the one numbered `i` on starts, the first of them
/// where there are several.
pub open spec fn longest(s: Seq<u16>, i: int) -> int
    decreases s.len() - i,
{
    if i < 0 || i >= s.len() {
        s.len() as int
    } else if zeros(s, i) >= zeros(s, longest(s, i + 1)) {
        i
    } else {
        longest(s, i + 1)
    }
}

/// The groups from one number up to another, in hexadecimal with colons between.
pub open spec fn joined_groups(s: Seq<u16>, from: int, to: int) -> Seq<char>
    decreases to - from,
{
    if from >= to {
        Seq::empty()
    } else if from + 1 == to {
        hex(s[from] as nat)
    } else {
        joined_groups(s, from, to - 1) + ":"@ + hex(s[to - 1] as nat)
    }
}

/// The text of an address of version six: one of version four in its last groups is written as
/// such, and two colons stand for the longest run of more than one zero group.
pub open spec fn groups_text(high: u64, low: u64) -> Seq<char> {
    let s = groups(high, low);
    let start = longest(s, 0);
    let run = zeros(s, start);
    if high == 0 && low / 0x1_0000_0000 == 0xffff {
        "::ffff:"@ + dotted((low % 0x1_0000_0000) as u32)
    } else if run > 1 {
        joined_groups(s, 0, start) + "::"@ + joined_groups(s, start + run, 8)
    } else {
        joined_groups(s, 0, 8)
    }
}

/// The text of an address.
pub open spec fn address_text(address: PeerAddress) -> Seq<char> {
    match address {
        PeerAddress::V4 { ip, port } => dotted(ip) + ":"@ + decimal(port as nat),
        PeerAddress::V6 { high, low, port, flowinfo, scope_id } => if scope_id == 0 {
            "["@ + groups_text(high, low) + "]:"@ + decimal(port as nat)
        } else {
            "["@ + groups_text(high, low) + "%"@ + decimal(scope_id as nat) + "]:"@ + decimal(
                port as nat,
            )
        },
    }
}

fn append_dotted(out: &mut String, ip: u32)
    ensures
        final(out)@ == old(out)@ + dotted(ip),
{
    append_decimal(out, (ip / 0x100_0000) as u64);
    out.append(".");
    append_decimal(out, (ip / 0x1_0000 % 0x100) as u64);
    out.append(".");
    append_decimal(out, (ip / 0x100 % 0x100) as u64);
    out.append(".");
    append_decimal(out, (ip % 0x100) as u64);
    assert(out@ =~= old(out)@ + dotted(ip));
}

fn append_groups(out: &mut String, s: &Vec<u16>, from: usize, to: usize)
    requires
        from <= to <= s@.len(),
    ensures
        final(out)@ == old(out)@ + joined_groups(s@, from as int, to as int),
    decreases to - from,
{
    if to - from > 1 {
        append_groups(out, s, from, to - 1);
        out.append(":");
    }
    if from < to {
        append_hex(out, s[to - 1] as u64);
    }
    assert(out@ =~= old(out)@ + joined_groups(s@, from as int, to as int));
}

fn count_zeros(s: &Vec<u16>, i: usize) -> (result: usize)
    requires
        i <= s@.len(),
    ensures
        result == zeros(s@, i as int),
        i + result <= s@.len(),
    decreases s@.len() - i,
{
    if i < s.len() && s[i] == 0 {
        1 + count_zeros(s, i + 1)
    } else {
        0
    }
}

fn longest_run(s: &Vec<u16>) -> (result: usize)
    ensures
        result == longest(s@, 0),
        result <= s@.len(),
{
    let mut best: usize = s.len();
    let mut i: usize = s.len();
    while i > 0
        invariant
            i <= s@.len(),
            best <= s@.len(),
            best == longest(s@, i as int),
        decreases i,
    {
        i = i - 1;
        if count_zeros(s, i) >= count_zeros(s, best) {
            best = i;
        }
    }
    best
}

fn append_groups_text(out: &mut String, high: u64, low: u64)
    ensures
        final(out)@ == old(out)@ + groups_text(high, low),
{
    if high == 0 && low / 0x1_0000_0000 == 0xffff {
        out.append("::ffff:");
        append_dotted(out, (low % 0x1_0000_0000) as u32);
        assert(out@ =~= old(out)@ + groups_text(high, low));
        return;
    }
    let s: Vec<u16> = vec![
        (high / 0x1_0000_0000_0000) as u16,
        (high / 0x1_0000_0000 % 0x1_0000) as u16,
        (high / 0x1_0000 % 0x1_0000) as u16,
        (high % 0x1_0000) as u16,
        (low / 0x1_0000_0000_0000) as u16,
        (low / 0x1_0000_0000 % 0x1_0000) as u16,
        (low / 0x1_0000 % 0x1_0000) as u16,
        (low % 0x1_0000) as u16,
    ];
    assert(s@ =~= groups(high, low));
    let start: usize = longest_run(&s);
    let run: usize = count_zeros(&s, start);
    if run > 1 {
        append_groups(out, &s, 0, start);
        out.append("::");
        append_groups(out, &s, start + run, 8);
    } else {
        append_groups(out, &s, 0, 8);
    }
    assert(out@ =~= old(out)@ + groups_text(high, low));
}

/// Appends the text of an address.
pub fn append_address(out: &mut String, address: PeerAddress)
    ensures
        final(out)@ == old(out)@ + address_text(address),
{
    match address {
        PeerAddress::V4 { ip, port } => {
            append_dotted(out, ip);
            out.append(":");
            append_decimal(out, port as u64);
        },
        PeerAddress::V6 { high, low, port, scope_id, .. } => {
            out.append("[");
            append_groups_text(out, high, low);
            if scope_id != 0 {
                out.append("%");
                append_decimal(out, scope_id as u64);
            }
            out.append("]:");
            append_decimal(out, port as u64);
        },
    }
    assert(out@ =~= old(out)@ + address_text(address));
}

} // verus!
