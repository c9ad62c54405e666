//! Which plain values fit the wire.

use crate::bytes::{pow256, pow256_values};
use crate::codec::grammar::{all_fit, fits, Format, Value};
use vstd::prelude::*;
use vstd::utf8::encode_utf8;

verus! {

/// A number fits its width.
pub broadcast proof fn fits_int(width: nat, signed: bool, n: int)
    ensures
        #[trigger] fits(Format::Int { width, signed }, Value::Int(n)) == if signed {
            -pow256(width) <= 2 * n < pow256(width)
        } else {
            0 <= n < pow256(width)
        },
{
    reveal(fits);
    reveal(all_fit);
}

/// Zero and one fit a byte that is zero or one.
pub broadcast proof fn fits_bool(n: int)
    ensures
        #[trigger] fits(Format::Bool, Value::Int(n)) == (n == 0 || n == 1),
{
    reveal(fits);
    reveal(all_fit);
}

/// A text fits where the number of its bytes does.
pub broadcast proof fn fits_text(text: Seq<char>)
    ensures
        #[trigger] fits(Format::Text, Value::Text(text)) == (encode_utf8(text).len() <= u32::MAX),
{
    reveal(fits);
    reveal(all_fit);
}

/// Bytes fit where their number does.
pub broadcast proof fn fits_bytes(bytes: Seq<u8>)
    ensures
        #[trigger] fits(Format::Bytes, Value::Bytes(bytes)) == (bytes.len() <= u32::MAX),
{
    reveal(fits);
    reveal(all_fit);
}

/// A number of up to sixteen bytes fits sixteen bytes.
pub broadcast proof fn fits_uuid(n: int)
    ensures
        #[trigger] fits(Format::Uuid, Value::Int(n)) == (0 <= n < pow256(16)),
{
    reveal(fits);
    reveal(all_fit);
}

/// Something that may be absent fits where it is absent or fits itself.
pub broadcast proof fn fits_option(body: Box<Format>, n: int, x: Box<Value>)
    ensures
        #[trigger] fits(Format::Option(body), Value::Case(n, x)) == if n == 0 {
            *x == Value::Unit
        } else {
            n == 1 && fits(*body, *x)
        },
{
    reveal(fits);
    reveal(all_fit);
}

proof fn all_fit_each(f: Format, items: Seq<Value>, i: nat)
    ensures
        all_fit(f, items, i) == forall|j: int|
            i <= j < items.len() ==> fits(f, #[trigger] items[j]),
    decreases items.len() - i,
{
    reveal(fits);
    reveal(all_fit);
    if i < items.len() {
        all_fit_each(f, items, i + 1);
        if fits(f, items[i as int]) && all_fit(f, items, i + 1) {
            assert forall|j: int| i <= j < items.len() implies fits(f, #[trigger] items[j]) by {
                if j > i {
                    assert(i + 1 <= j);
                }
            }
        } else if fits(f, items[i as int]) {
            let j = choose|j: int| i + 1 <= j < items.len() && !fits(f, #[trigger] items[j]);
            assert(!fits(f, items[j]));
        }
    }
}

/// A list fits where the number of its items does and every item fits.
pub broadcast proof fn fits_list(item: Box<Format>, items: Seq<Value>)
    ensures
        #[trigger] fits(Format::List(item), Value::List(items)) == (items.len() <= u32::MAX
            && forall|j: int| 0 <= j < items.len() ==> fits(*item, #[trigger] items[j])),
{
    reveal(fits);
    reveal(all_fit);
    all_fit_each(*item, items, 0);
}

pub broadcast group leaf_rules {
    pow256_values,
    fits_int,
    fits_bool,
    fits_text,
    fits_bytes,
    fits_uuid,
    fits_option,
    fits_list,
}

} // verus!
