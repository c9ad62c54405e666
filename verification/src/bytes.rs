//! Fixed-width unsigned integers as byte sequences, in both byte orders.

use vstd::prelude::*;

verus! {

/// Two hundred and fifty-six to the power `width`: the number of values that `width` bytes hold.
pub open spec fn pow256(width: nat) -> nat
    decreases width,
{
    if width == 0 {
        1
    } else {
        256 * pow256((width - 1) as nat)
    }
}

/// The lowest `width` bytes of `n`, least significant first.
pub open spec fn le(n: nat, width: nat) -> Seq<u8>
    decreases width,
{
    if width == 0 {
        Seq::empty()
    } else {
        seq![(n % 256) as u8] + le(n / 256, (width - 1) as nat)
    }
}

/// The number that `s` spells, least significant byte first.
pub open spec fn from_le(s: Seq<u8>) -> nat
    decreases s.len(),
{
    if s.len() == 0 {
        0
    } else {
        s[0] as nat + 256 * from_le(s.drop_first())
    }
}

/// The lowest `width` bytes of `n`, most significant first.
pub open spec fn be(n: nat, width: nat) -> Seq<u8>
    decreases width,
{
    if width == 0 {
        Seq::empty()
    } else {
        be(n / 256, (width - 1) as nat).push((n % 256) as u8)
    }
}

/// The number that `s` spells, most significant byte first.
pub open spec fn from_be(s: Seq<u8>) -> nat
    decreases s.len(),
{
    if s.len() == 0 {
        0
    } else {
        256 * from_be(s.drop_last()) + s.last() as nat
    }
}

/// The two's complement image of `n` in `width` bytes.
pub open spec fn to_unsigned(n: int, width: nat) -> nat {
    if n < 0 {
        (n + pow256(width)) as nat
    } else {
        n as nat
    }
}

/// The number that the `width`-byte pattern `n` stands for in two's complement.
pub open spec fn to_signed(n: nat, width: nat) -> int {
    if 2 * n >= pow256(width) {
        n - pow256(width)
    } else {
        n as int
    }
}

/// The values of `pow256` at the widths that occur on the wire.
pub broadcast proof fn pow256_values(width: nat)
    ensures
        width == 0 ==> #[trigger] pow256(width) == 1,
        width == 1 ==> pow256(width) == 0x100,
        width == 2 ==> pow256(width) == 0x1_0000,
        width == 3 ==> pow256(width) == 0x100_0000,
        width == 4 ==> pow256(width) == 0x1_0000_0000,
        width == 8 ==> pow256(width) == 0x1_0000_0000_0000_0000,
        width == 16 ==> pow256(width) == 0x1_0000_0000_0000_0000 * 0x1_0000_0000_0000_0000,
        pow256(width) >= 1,
    decreases width,
{
    reveal_with_fuel(pow256, 17);
    if width > 0 {
        pow256_values((width - 1) as nat);
    }
}

/// `le` yields as many bytes as it is asked for.
pub broadcast proof fn le_len(n: nat, width: nat)
    ensures
        #[trigger] le(n, width).len() == width,
    decreases width,
{
    if width > 0 {
        le_len(n / 256, (width - 1) as nat);
    }
}

/// `be` yields as many bytes as it is asked for.
pub broadcast proof fn be_len(n: nat, width: nat)
    ensures
        #[trigger] be(n, width).len() == width,
    decreases width,
{
    if width > 0 {
        be_len(n / 256, (width - 1) as nat);
    }
}

/// A number spelled least significant byte first is below `pow256` of its length.
pub broadcast proof fn from_le_bound(s: Seq<u8>)
    ensures
        #[trigger] from_le(s) < pow256(s.len()),
    decreases s.len(),
{
    if s.len() > 0 {
        from_le_bound(s.drop_first());
    }
}

/// A number spelled most significant byte first is below `pow256` of its length.
pub broadcast proof fn from_be_bound(s: Seq<u8>)
    ensures
        #[trigger] from_be(s) < pow256(s.len()),
    decreases s.len(),
{
    if s.len() > 0 {
        from_be_bound(s.drop_last());
    }
}

/// Reading back what `le` wrote gives the number again, when the width holds it.
pub broadcast proof fn from_le_of_le(n: nat, width: nat)
    requires
        n < pow256(width),
    ensures
        #[trigger] from_le(le(n, width)) == n,
    decreases width,
{
    if width > 0 {
        let rest = le(n / 256, (width - 1) as nat);
        assert(le(n, width).drop_first() =~= rest);
        assert(n / 256 < pow256((width - 1) as nat)) by {
            assert(pow256(width) == 256 * pow256((width - 1) as nat));
        }
        from_le_of_le(n / 256, (width - 1) as nat);
    }
}

/// Reading back what `be` wrote gives the number again, when the width holds it.
pub broadcast proof fn from_be_of_be(n: nat, width: nat)
    requires
        n < pow256(width),
    ensures
        #[trigger] from_be(be(n, width)) == n,
    decreases width,
{
    if width > 0 {
        let rest = be(n / 256, (width - 1) as nat);
        assert(be(n, width).drop_last() =~= rest);
        assert(n / 256 < pow256((width - 1) as nat)) by {
            assert(pow256(width) == 256 * pow256((width - 1) as nat));
        }
        from_be_of_be(n / 256, (width - 1) as nat);
    }
}

/// The number that two spelled parts spell together, most significant byte first.
pub proof fn from_be_concat(a: Seq<u8>, b: Seq<u8>)
    ensures
        from_be(a + b) == from_be(a) * pow256(b.len()) + from_be(b),
    decreases b.len(),
{
    if b.len() == 0 {
        assert(a + b =~= a);
        assert(from_be(a) * 1 == from_be(a)) by (nonlinear_arith);
    } else {
        from_be_concat(a, b.drop_last());
        assert((a + b).drop_last() =~= a + b.drop_last());
        assert((a + b).last() == b.last());
        let p = pow256(b.drop_last().len());
        assert(pow256(b.len()) == 256 * p);
        assert(256 * (from_be(a) * p) == from_be(a) * (256 * p)) by (nonlinear_arith);
    }
}

/// The bytes of a number of sixteen bytes are those of its halves.
pub proof fn be_halves(high: nat, low: nat)
    requires
        high < pow256(8),
        low < pow256(8),
    ensures
        be(high * pow256(8) + low, 16) == be(high, 8) + be(low, 8),
        high * pow256(8) + low < pow256(16),
{
    broadcast use be_len;

    let s = be(high, 8) + be(low, 8);
    from_be_concat(be(high, 8), be(low, 8));
    from_be_of_be(high, 8);
    from_be_of_be(low, 8);
    from_be_bound(s);
    be_of_from_be(s);
}

/// Writing what bytes spell gives the bytes again, most significant byte first.
pub proof fn be_of_from_be(s: Seq<u8>)
    ensures
        be(from_be(s), s.len()) == s,
    decreases s.len(),
{
    if s.len() > 0 {
        be_of_from_be(s.drop_last());
        let n = from_be(s);
        assert(n % 256 == s.last() as nat);
        assert(n / 256 == from_be(s.drop_last()));
        assert(s.drop_last().push(s.last()) =~= s);
    } else {
        assert(s =~= Seq::empty());
    }
}

/// Writing what bytes spell gives the bytes again, least significant byte first.
pub proof fn le_of_from_le(s: Seq<u8>)
    ensures
        le(from_le(s), s.len()) == s,
    decreases s.len(),
{
    if s.len() > 0 {
        le_of_from_le(s.drop_first());
        let n = from_le(s);
        assert(n % 256 == s[0] as nat);
        assert(n / 256 == from_le(s.drop_first()));
        assert(seq![s[0]] + s.drop_first() =~= s);
    } else {
        assert(s =~= Seq::empty());
    }
}

/// Two's complement loses nothing on numbers that the width holds.
pub proof fn signed_round_trip(n: int, width: nat)
    requires
        -pow256(width) <= 2 * n < pow256(width),
    ensures
        to_unsigned(n, width) < pow256(width),
        to_signed(to_unsigned(n, width), width) == n,
{
    pow256_values(width);
}

/// Appends the lowest `width` bytes of `value`, least significant first.
pub fn push_le(out: &mut Vec<u8>, value: u64, width: usize)
    requires
        width <= 8,
    ensures
        final(out)@ == old(out)@ + le(value as nat, width as nat),
    decreases width,
{
    if width > 0 {
        out.push((value % 256) as u8);
        push_le(out, value / 256, width - 1);
        proof {
            let head = seq![(value as nat % 256) as u8];
            let tail = le(value as nat / 256, (width - 1) as nat);
            assert(old(out)@.push((value % 256) as u8) + tail =~= old(out)@ + (head + tail));
        }
    } else {
        assert(old(out)@ + le(value as nat, 0) =~= old(out)@);
    }
}

/// Appends the lowest `width` bytes of `value`, most significant first.
pub fn push_be(out: &mut Vec<u8>, value: u64, width: usize)
    requires
        width <= 8,
    ensures
        final(out)@ == old(out)@ + be(value as nat, width as nat),
    decreases width,
{
    if width > 0 {
        push_be(out, value / 256, width - 1);
        out.push((value % 256) as u8);
        proof {
            let head = be(value as nat / 256, (width - 1) as nat);
            assert((old(out)@ + head).push((value % 256) as u8) =~= old(out)@ + head.push(
                (value as nat % 256) as u8,
            ));
        }
    } else {
        assert(old(out)@ + be(value as nat, 0) =~= old(out)@);
    }
}

/// Reads `width` bytes at `at`, least significant first.
pub fn take_le(bytes: &[u8], at: usize, width: usize) -> (value: u64)
    requires
        width <= 8,
        at + width <= bytes@.len(),
    ensures
        value as nat == from_le(bytes@.subrange(at as int, at + width)),
        (value as nat) < pow256(width as nat),
    decreases width,
{
    let _total: usize = bytes.len();
    let ghost s = bytes@.subrange(at as int, at + width);
    proof {
        from_le_bound(s);
        pow256_values(width as nat);
    }
    if width == 0 {
        0
    } else {
        let rest: u64 = take_le(bytes, at + 1, width - 1);
        proof {
            assert(s.drop_first() =~= bytes@.subrange(at + 1, at + width));
            pow256_bound(width as nat);
        }
        bytes[at] as u64 + 256 * rest
    }
}

/// Reads `width` bytes at `at`, most significant first.
pub fn take_be(bytes: &[u8], at: usize, width: usize) -> (value: u64)
    requires
        width <= 8,
        at + width <= bytes@.len(),
    ensures
        value as nat == from_be(bytes@.subrange(at as int, at + width)),
        (value as nat) < pow256(width as nat),
    decreases width,
{
    let _total: usize = bytes.len();
    let ghost s = bytes@.subrange(at as int, at + width);
    proof {
        from_be_bound(s);
        pow256_values(width as nat);
    }
    if width == 0 {
        0
    } else {
        let rest: u64 = take_be(bytes, at, width - 1);
        proof {
            assert(s.drop_last() =~= bytes@.subrange(at as int, at + width - 1));
            pow256_bound(width as nat);
        }
        256 * rest + bytes[at + (width - 1)] as u64
    }
}

proof fn pow256_bound(width: nat)
    requires
        width <= 8,
    ensures
        pow256(width) <= 0x1_0000_0000_0000_0000,
{
    reveal_with_fuel(pow256, 9);
}

/// A copy of some bytes.
pub fn copy_bytes(bytes: &[u8]) -> (result: Vec<u8>)
    ensures
        result@ == bytes@,
{
    let mut result: Vec<u8> = Vec::new();
    result.extend_from_slice(bytes);
    assert(result@ =~= bytes@);
    result
}

/// The two's complement image of a 64-bit integer.
pub fn unsigned64(value: i64) -> (result: u64)
    ensures
        result as nat == to_unsigned(value as int, 8),
{
    broadcast use pow256_values;

    if value < 0 {
        (value as i128 + 0x1_0000_0000_0000_0000) as u64
    } else {
        value as u64
    }
}

/// The 64-bit integer that a two's complement image stands for.
pub fn signed64(value: u64) -> (result: i64)
    ensures
        result as int == to_signed(value as nat, 8),
{
    broadcast use pow256_values;

    if value >= 0x8000_0000_0000_0000 {
        (value as i128 - 0x1_0000_0000_0000_0000) as i64
    } else {
        value as i64
    }
}

} // verus!
