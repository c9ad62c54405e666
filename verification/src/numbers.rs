//! Reading decimal numbers.

use crate::text::{decimal, digit, signed_decimal};
use vstd::prelude::*;
use vstd::string::*;

verus! {

/// Why a text is not a number.
#[derive(Clone, Copy, Debug, PartialEq, Eq, Structural)]
pub enum NumberFault {
    Empty,
    InvalidDigit,
    TooLarge,
    TooSmall,
}

impl NumberFault {
    /// The fault in words.
    pub open spec fn words(self) -> Seq<char> {
        match self {
            NumberFault::Empty => "cannot parse integer from empty string"@,
            NumberFault::InvalidDigit => "invalid digit found in string"@,
            NumberFault::TooLarge => "number too large to fit in target type"@,
            NumberFault::TooSmall => "number too small to fit in target type"@,
        }
    }

    /// The fault in words.
    pub fn message(&self) -> (result: &'static str)
        ensures
            result@ == self.words(),
    {
        match self {
            NumberFault::Empty => "cannot parse integer from empty string",
            NumberFault::InvalidDigit => "invalid digit found in string",
            NumberFault::TooLarge => "number too large to fit in target type",
            NumberFault::TooSmall => "number too small to fit in target type",
        }
    }
}

/// Whether a character is a decimal digit.
pub open spec fn is_digit(c: char) -> bool {
    '0' as u32 <= c as u32 <= '9' as u32
}

/// The number of digits at the start of a text.
pub open spec fn digits(s: Seq<char>) -> nat
    decreases s.len(),
{
    if s.len() > 0 && is_digit(s[0]) {
        1 + digits(s.drop_first())
    } else {
        0
    }
}

/// The number that digits stand for.
pub open spec fn number(s: Seq<char>) -> nat
    decreases s.len(),
{
    if s.len() == 0 {
        0
    } else {
        (number(s.drop_last()) * 10 + (s.last() as u32 - '0' as u32)) as nat
    }
}

/// A text without the sign at its start.
pub open spec fn unsigned(s: Seq<char>) -> Seq<char> {
    if s.len() > 0 && (s[0] == '-' || s[0] == '+') {
        s.skip(1)
    } else {
        s
    }
}

/// The number that a text stands for: a sign, which may be missing, and at least one digit. What
/// comes first decides about the fault: digits that make the number too large, or a character that
/// is none.
pub open spec fn parsed(s: Seq<char>) -> Result<i32, NumberFault> {
    let body = unsigned(s);
    let n = number(body.take(digits(body) as int));
    if s.len() == 0 {
        Err(NumberFault::Empty)
    } else if s[0] == '-' && -n < i32::MIN {
        Err(NumberFault::TooSmall)
    } else if s[0] != '-' && n > i32::MAX {
        Err(NumberFault::TooLarge)
    } else if body.len() == 0 || digits(body) < body.len() {
        Err(NumberFault::InvalidDigit)
    } else if s[0] == '-' {
        Ok((-n) as i32)
    } else {
        Ok(n as i32)
    }
}

/// Digits at the start of a text are counted.
pub proof fn digits_reach(s: Seq<char>, n: nat)
    requires
        n <= s.len(),
        forall|i: int| 0 <= i < n ==> is_digit(#[trigger] s[i]),
    ensures
        n <= digits(s) <= s.len(),
        n == s.len() || !is_digit(s[n as int]) ==> digits(s) == n,
    decreases n,
{
    if n > 0 {
        let rest = s.drop_first();
        assert forall|i: int| 0 <= i < n - 1 implies is_digit(#[trigger] rest[i]) by {
            assert(rest[i] == s[i + 1]);
        }
        digits_reach(rest, (n - 1) as nat);
    } else {
        digits_fit(s);
    }
}

/// There are no more digits at the start of a text than characters in it.
pub proof fn digits_fit(s: Seq<char>)
    ensures
        digits(s) <= s.len(),
    decreases s.len(),
{
    if s.len() > 0 {
        digits_fit(s.drop_first());
    }
}

proof fn number_grows(s: Seq<char>, shorter: nat, longer: nat)
    requires
        shorter <= longer <= digits(s),
    ensures
        number(s.take(shorter as int)) <= number(s.take(longer as int)),
    decreases longer - shorter,
{
    digits_fit(s);
    if shorter < longer {
        number_grows(s, shorter, (longer - 1) as nat);
        let all = s.take(longer as int);
        assert(all.drop_last() =~= s.take(longer - 1));
        digits_are_digits(s, longer - 1);
        assert(number(all) == number(all.drop_last()) * 10 + (all.last() as u32 - '0' as u32));
    }
}

/// What is counted as digits are digits.
pub proof fn digits_are_digits(s: Seq<char>, i: int)
    requires
        0 <= i < digits(s),
    ensures
        digits(s) <= s.len(),
        is_digit(s[i]),
    decreases i,
{
    digits_fit(s);
    if i > 0 {
        digits_are_digits(s.drop_first(), i - 1);
    }
}

proof fn number_of_decimal(n: nat)
    ensures
        number(decimal(n)) == n,
        decimal(n).len() > 0,
        forall|i: int| 0 <= i < decimal(n).len() ==> is_digit(#[trigger] decimal(n)[i]),
    decreases n,
{
    reveal_strlit("0123456789abcdef");
    let last = digit(n % 10);
    assert(is_digit(last) && last as u32 == '0' as u32 + n % 10);
    if n >= 10 {
        number_of_decimal(n / 10);
        assert(decimal(n).drop_last() =~= decimal(n / 10));
    } else {
        assert(decimal(n).drop_last() =~= Seq::<char>::empty());
        assert(number(Seq::<char>::empty()) == 0);
    }
}

/// What a number is written as reads as the number.
pub proof fn reading_undoes_rendering(n: i32)
    ensures
        parsed(signed_decimal(n as int)) == Ok::<i32, NumberFault>(n),
{
    let body = if n < 0 {
        decimal((-n) as nat)
    } else {
        decimal(n as nat)
    };
    let text = signed_decimal(n as int);
    number_of_decimal(if n < 0 {
        (-n) as nat
    } else {
        n as nat
    });
    assert(is_digit(body[0]));
    assert(unsigned(text) =~= body);
    digits_reach(body, body.len());
    assert(body.take(body.len() as int) =~= body);
}

/// A rendered number holds nothing but digits after its sign.
pub proof fn rendering_is_plain(n: int)
    ensures
        forall|i: int|
            0 <= i < signed_decimal(n).len() ==> is_digit(#[trigger] signed_decimal(n)[i])
                || signed_decimal(n)[i] == '-',
{
    if n < 0 {
        number_of_decimal((-n) as nat);
        let body = decimal((-n) as nat);
        assert forall|i: int| 0 <= i < signed_decimal(n).len() implies is_digit(
            #[trigger] signed_decimal(n)[i],
        ) || signed_decimal(n)[i] == '-' by {
            if i > 0 {
                assert(signed_decimal(n)[i] == body[i - 1]);
            }
        }
    } else {
        number_of_decimal(n as nat);
    }
}

/// Reads a number.
pub fn parse_i32(text: &str) -> (result: Result<i32, NumberFault>)
    ensures
        result == parsed(text@),
{
    let len: usize = text.unicode_len();
    if len == 0 {
        return Err(NumberFault::Empty);
    }
    let first = text.get_char(0);
    let negative = first == '-';
    let start: usize = if first == '-' || first == '+' {
        1
    } else {
        0
    };
    let limit: u64 = if negative {
        0x8000_0000
    } else {
        0x7fff_ffff
    };
    let ghost body = unsigned(text@);
    let mut n: u64 = 0;
    let mut i: usize = start;
    assert(body.take(0) =~= Seq::<char>::empty());
    while i < len
        invariant
            start <= i <= len,
            len == text@.len(),
            start <= 1,
            body == text@.skip(start as int),
            body == unsigned(text@),
            negative == (text@[0] == '-'),
            limit == if negative {
                0x8000_0000u64
            } else {
                0x7fff_ffffu64
            },
            n <= limit,
            n == number(body.take(i - start)),
            forall|j: int| 0 <= j < i - start ==> is_digit(#[trigger] body[j]),
        decreases len - i,
    {
        let c = text.get_char(i);
        assert(body[i - start] == c);
        let code: u32 = c as u32;
        if code < 48 || code > 57 {
            proof {
                digits_reach(body, (i - start) as nat);
            }
            return Err(NumberFault::InvalidDigit);
        }
        let grown: u64 = n * 10 + (code - 48) as u64;
        assert(body.take(i + 1 - start).drop_last() =~= body.take(i - start));
        if grown > limit {
            proof {
                digits_reach(body, (i + 1 - start) as nat);
                number_grows(body, (i + 1 - start) as nat, digits(body));
            }
            return Err(
                if negative {
                    NumberFault::TooSmall
                } else {
                    NumberFault::TooLarge
                },
            );
        }
        n = grown;
        i = i + 1;
    }
    proof {
        digits_reach(body, body.len());
    }
    if i == start {
        return Err(NumberFault::InvalidDigit);
    }
    if negative {
        Ok((-(n as i64)) as i32)
    } else {
        Ok(n as i32)
    }
}

} // verus!
