//! What can be said of numbers as text: the digits mean the number.

use crate::model::block::ChunkPos;
use crate::model::chunk_text::{chunk_named, comma_is_at, ChunkTextFault};
use crate::numbers::{
    digits, digits_are_digits, digits_fit, digits_reach, is_digit, number, parsed, NumberFault,
};
use crate::text::{decimal, digit, hex, hex_byte};
use vstd::prelude::*;

verus! {

/// Whether a character is one of the ten decimal digits.
pub open spec fn is_decimal_digit(c: char) -> bool {
    0x30 <= c as u32 <= 0x39
}

/// The value of a digit.
pub open spec fn digit_value(c: char) -> int {
    if is_decimal_digit(c) {
        c as u32 - 0x30
    } else {
        c as u32 - 0x61 + 10
    }
}

/// Whether a character is a digit of a base up to sixteen, in lower case.
pub open spec fn is_digit_of(c: char, base: int) -> bool {
    &&& is_decimal_digit(c) || 0x61 <= c as u32 <= 0x66
    &&& digit_value(c) < base
}

/// The number that digits mean, the most significant first.
pub open spec fn number_of(s: Seq<char>, base: int) -> int
    decreases s.len(),
{
    if s.len() == 0 {
        0
    } else {
        base * number_of(s.drop_last(), base) + digit_value(s.last())
    }
}

/// Whether a text is how a number is written in a base: digits that mean it, without a zero that is
/// not needed.
pub open spec fn is_written(s: Seq<char>, n: nat, base: int) -> bool {
    &&& s.len() > 0
    &&& number_of(s, base) == n
    &&& s[0] == '0' ==> s.len() == 1
    &&& forall|i: int| 0 <= i < s.len() ==> #[trigger] is_digit_of(s[i], base)
}

/// Each digit has its character, from zero to nine and from `a` to `f`.
pub proof fn digits_have_characters(d: nat)
    requires
        d < 16,
    ensures
        digit_value(digit(d)) == d,
        is_digit_of(digit(d), d as int + 1),
        digit(d) == '0' <==> d == 0,
{
    reveal_strlit("0123456789abcdef");
}

/// The decimal text of a number is how it is written in base ten.
pub proof fn decimal_means_the_number(n: nat)
    ensures
        is_written(decimal(n), n, 10),
        decimal(n) == seq!['0'] <==> n == 0,
    decreases n,
{
    digits_have_characters(n % 10);
    let s = decimal(n);
    if n < 10 {
        digits_have_characters(n);
        assert(s.drop_last() =~= Seq::empty());
        reveal_with_fuel(number_of, 2);
        assert(s[0] == digit(n));
        if n == 0 {
            assert(s =~= seq!['0']);
        }
    } else {
        decimal_means_the_number(n / 10);
        let front = decimal(n / 10);
        assert(s.drop_last() =~= front);
        assert(s[0] == front[0]);
        if front[0] == '0' {
            assert(front =~= seq!['0']);
        }
        assert forall|i: int| 0 <= i < s.len() implies #[trigger] is_digit_of(s[i], 10) by {
            if i < front.len() {
                assert(is_digit_of(front[i], 10));
            }
        }
    }
}

/// The hexadecimal text of a number is how it is written in base sixteen.
pub proof fn hex_means_the_number(n: nat)
    ensures
        is_written(hex(n), n, 16),
        hex(n) == seq!['0'] <==> n == 0,
    decreases n,
{
    digits_have_characters(n % 16);
    let s = hex(n);
    if n < 16 {
        digits_have_characters(n);
        assert(s.drop_last() =~= Seq::empty());
        reveal_with_fuel(number_of, 2);
        assert(s[0] == digit(n));
        if n == 0 {
            assert(s =~= seq!['0']);
        }
    } else {
        hex_means_the_number(n / 16);
        let front = hex(n / 16);
        assert(s.drop_last() =~= front);
        assert(s[0] == front[0]);
        if front[0] == '0' {
            assert(front =~= seq!['0']);
        }
        assert forall|i: int| 0 <= i < s.len() implies #[trigger] is_digit_of(s[i], 16) by {
            if i < front.len() {
                assert(is_digit_of(front[i], 16));
            }
        }
    }
}

/// A byte is written with two hexadecimal digits, the first of which may be a zero.
pub proof fn bytes_have_two_digits(n: u8)
    ensures
        hex_byte(n).len() == 2,
        number_of(hex_byte(n), 16) == n,
        is_digit_of(hex_byte(n)[0], 16) && is_digit_of(hex_byte(n)[1], 16),
{
    let s = hex_byte(n);
    digits_have_characters((n / 16) as nat);
    digits_have_characters((n % 16) as nat);
    reveal_with_fuel(number_of, 3);
    assert(s.drop_last() =~= seq![s[0]]);
    assert(s.drop_last().drop_last() =~= Seq::empty());
}

/// Whether a text is of decimal digits and has at least one.
pub open spec fn all_digits(s: Seq<char>) -> bool {
    &&& s.len() > 0
    &&& forall|i: int| 0 <= i < s.len() ==> is_decimal_digit(#[trigger] s[i])
}

/// What follows the sign of a text, or the text where it has none.
pub open spec fn behind_sign(s: Seq<char>) -> Seq<char> {
    if s.len() > 0 && (s[0] == '-' || s[0] == '+') {
        s.subrange(1, s.len() as int)
    } else {
        s
    }
}

/// The number that a text of digits behind a sign means.
pub open spec fn signed_number(s: Seq<char>) -> int {
    if s[0] == '-' {
        -number_of(behind_sign(s), 10)
    } else {
        number_of(behind_sign(s), 10)
    }
}

proof fn digits_mean_number(s: Seq<char>)
    requires
        forall|i: int| 0 <= i < s.len() ==> is_decimal_digit(#[trigger] s[i]),
    ensures
        number(s) == number_of(s, 10),
    decreases s.len(),
{
    if s.len() > 0 {
        assert forall|i: int| 0 <= i < s.drop_last().len() implies is_decimal_digit(
            #[trigger] s.drop_last()[i],
        ) by {
            assert(s.drop_last()[i] == s[i]);
        }
        digits_mean_number(s.drop_last());
        assert(is_decimal_digit(s[s.len() - 1]));
    }
}

/// The largest number with so many decimal digits.
pub open spec fn largest_with(n: nat) -> nat
    decreases n,
{
    if n == 0 {
        0
    } else {
        largest_with((n - 1) as nat) * 10 + 9
    }
}

proof fn digits_bound(s: Seq<char>)
    requires
        forall|i: int| 0 <= i < s.len() ==> is_decimal_digit(#[trigger] s[i]),
    ensures
        number(s) <= largest_with(s.len()),
    decreases s.len(),
{
    if s.len() > 0 {
        assert forall|i: int| 0 <= i < s.drop_last().len() implies is_decimal_digit(
            #[trigger] s.drop_last()[i],
        ) by {
            assert(s.drop_last()[i] == s[i]);
        }
        digits_bound(s.drop_last());
        assert(is_decimal_digit(s[s.len() - 1]));
    }
}

/// A text is read as a number if and only if it is of digits, behind a sign or not, and they mean a
/// number of thirty-two bits; it is the number that they mean. An empty text, a number out of range
/// and a short text with another character each have a fault of their own.
pub proof fn texts_are_read_as_numbers(s: Seq<char>)
    ensures
        parsed(s) is Ok <==> all_digits(behind_sign(s)) && i32::MIN <= signed_number(s) <= i32::MAX,
        parsed(s) matches Ok(n) ==> n == signed_number(s),
        s.len() == 0 <==> parsed(s) == Err::<i32, NumberFault>(NumberFault::Empty),
        all_digits(behind_sign(s)) && signed_number(s) > i32::MAX ==> parsed(s) == Err::<
            i32,
            NumberFault,
        >(NumberFault::TooLarge),
        all_digits(behind_sign(s)) && signed_number(s) < i32::MIN ==> parsed(s) == Err::<
            i32,
            NumberFault,
        >(NumberFault::TooSmall),
        0 < s.len() <= 9 && !all_digits(behind_sign(s)) ==> parsed(s) == Err::<i32, NumberFault>(
            NumberFault::InvalidDigit,
        ),
{
    let body = crate::numbers::unsigned(s);
    assert(body =~= behind_sign(s));
    digits_fit(body);
    let start = body.take(digits(body) as int);
    assert forall|i: int| 0 <= i < start.len() implies is_decimal_digit(#[trigger] start[i]) by {
        digits_are_digits(body, i);
        assert(start[i] == body[i]);
        assert(is_digit(body[i]));
    }
    digits_mean_number(start);
    digits_bound(start);
    if all_digits(body) {
        assert forall|i: int| 0 <= i < body.len() implies is_digit(#[trigger] body[i]) by {}
        digits_reach(body, body.len());
        assert(start =~= body);
    } else if digits(body) == body.len() && body.len() > 0 {
        assert(start =~= body);
    }
    if s.len() <= 9 {
        largest_grows(start.len(), 9);
        reveal_with_fuel(largest_with, 10);
    }
}

proof fn largest_grows(n: nat, more: nat)
    requires
        n <= more,
    ensures
        largest_with(n) <= largest_with(more),
    decreases more,
{
    if n < more {
        largest_grows(n, (more - 1) as nat);
    }
}

/// The place of a chunk is read from the number before the first comma and the number behind it; a
/// text without a comma names none.
pub proof fn texts_are_read_as_places(x: Seq<char>, z: Seq<char>)
    requires
        !x.contains(','),
    ensures
        chunk_named(x) == Err::<ChunkPos, ChunkTextFault>(ChunkTextFault::NoComma),
        match (parsed(x), parsed(z)) {
            (Ok(a), Ok(b)) => chunk_named(x.push(',') + z) == Ok::<ChunkPos, ChunkTextFault>(
                ChunkPos { x: a, z: b },
            ),
            (Err(fault), _) => chunk_named(x.push(',') + z) == Err::<ChunkPos, ChunkTextFault>(
                ChunkTextFault::Coordinate(fault),
            ),
            (_, Err(fault)) => chunk_named(x.push(',') + z) == Err::<ChunkPos, ChunkTextFault>(
                ChunkTextFault::Coordinate(fault),
            ),
        },
{
    let all = x.push(',') + z;
    comma_is_at(x, x.len());
    assert forall|i: int| 0 <= i < x.len() implies #[trigger] all[i] != ',' by {
        assert(all[i] == x[i]);
    }
    comma_is_at(all, x.len());
    assert(all.take(x.len() as int) =~= x);
    assert(all.skip((x.len() + 1) as int) =~= z);
}

} // verus!
