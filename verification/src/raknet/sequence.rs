//! Twenty-four-bit sequence numbers that wrap around.

use std::cmp::Ordering;
use vstd::prelude::*;
use vstd::std_specs::cmp::PartialOrdSpecImpl;

verus! {

/// The number of distinct sequence values.
pub const MODULUS: u32 = 0x100_0000;

const MASK: u32 = 0xff_ffff;

const HALF_RANGE: u32 = 0x80_0000;

/// How many steps forward lead from `older` to `newer`, modulo the sequence range.
pub open spec fn distance(newer: nat, older: nat) -> nat {
    ((newer - older) % (MODULUS as int)) as nat
}

/// Whether `a` is ahead of `b` by less than half the sequence range.
pub open spec fn newer(a: nat, b: nat) -> bool {
    0 < distance(a, b) < 0x80_0000
}

/// How `a` compares to `b`: equal, ahead, or neither.
pub open spec fn sequence_order(a: nat, b: nat) -> Option<Ordering> {
    if a == b {
        Some(Ordering::Equal)
    } else if newer(a, b) {
        Some(Ordering::Greater)
    } else {
        Some(Ordering::Less)
    }
}

fn mask(value: u32) -> (result: u32)
    ensures
        result == value % MODULUS,
{
    assert(value & 0xff_ffff == value % 0x100_0000) by (bit_vector);
    value & MASK
}

fn masked_distance(newer: u32, older: u32) -> (result: u32)
    ensures
        result as nat == distance(newer as nat, older as nat),
{
    mask(newer.wrapping_sub(older))
}

/// The number of a datagram.
#[derive(Clone, Copy, Debug, PartialEq, Eq, Structural, Hash)]
pub struct DatagramSequence {
    raw: u32,
}

impl View for DatagramSequence {
    type V = nat;

    closed spec fn view(&self) -> nat {
        self.raw as nat
    }
}

impl Default for DatagramSequence {
    fn default() -> (result: Self)
        ensures
            result@ == 0,
    {
        DatagramSequence { raw: 0 }
    }
}

impl DatagramSequence {
    /// Whether the number lies in the sequence range.
    pub open spec fn wf(&self) -> bool {
        self@ < MODULUS
    }

    /// The sequence number that `value` has modulo the range.
    pub fn new(value: u32) -> (result: Self)
        ensures
            result@ == value as nat % (MODULUS as nat),
            result.wf(),
    {
        DatagramSequence { raw: mask(value) }
    }

    /// The sequence number `value`, if it lies in the range.
    pub fn from_wire_domain(value: u32) -> (result: Option<Self>)
        ensures
            result is Some <==> value < MODULUS,
            result matches Some(sequence) ==> sequence@ == value as nat && sequence.wf(),
    {
        if value > MASK {
            None
        } else {
            Some(DatagramSequence { raw: value })
        }
    }

    /// The sequence number that `value` was taken from.
    pub(crate) fn from_value(value: u32) -> (result: Self)
        ensures
            result@ == value as nat,
    {
        DatagramSequence { raw: value }
    }

    /// The number itself.
    pub fn value(self) -> (result: u32)
        ensures
            result as nat == self@,
    {
        self.raw
    }

    /// The number that follows.
    pub fn next(self) -> (result: Self)
        ensures
            result@ == (self@ + 1) % (MODULUS as nat),
            result.wf(),
    {
        DatagramSequence { raw: mask(self.raw.wrapping_add(1)) }
    }

    /// The number before.
    pub fn previous(self) -> (result: Self)
        ensures
            result@ == (self@ - 1) % (MODULUS as int),
            result.wf(),
    {
        DatagramSequence { raw: mask(self.raw.wrapping_sub(1)) }
    }

    /// How many steps forward lead from `older` to this number.
    pub fn wrapping_distance_from(self, older: Self) -> (result: u32)
        ensures
            result as nat == distance(self@, older@),
    {
        masked_distance(self.raw, older.raw)
    }

    /// Whether this number is ahead of `other` by less than half the range.
    pub fn is_newer_than(self, other: Self) -> (result: bool)
        ensures
            result == newer(self@, other@),
    {
        let steps: u32 = self.wrapping_distance_from(other);
        steps != 0 && steps < HALF_RANGE
    }
}

impl PartialOrdSpecImpl for DatagramSequence {
    open spec fn obeys_partial_cmp_spec() -> bool {
        true
    }

    open spec fn partial_cmp_spec(&self, other: &Self) -> Option<Ordering> {
        sequence_order(self@, other@)
    }
}

impl PartialOrd for DatagramSequence {
    fn partial_cmp(&self, other: &Self) -> (result: Option<Ordering>) {
        if self.raw == other.raw {
            Some(Ordering::Equal)
        } else if self.is_newer_than(*other) {
            Some(Ordering::Greater)
        } else {
            Some(Ordering::Less)
        }
    }
}

/// Two numbers of this type with the same value are the same number.
pub broadcast proof fn datagram_sequence_injective(a: DatagramSequence, b: DatagramSequence)
    requires
        #[trigger] a@ == #[trigger] b@,
    ensures
        a == b,
{
}

/// The number of a reliable frame.
#[derive(Clone, Copy, Debug, PartialEq, Eq, Structural, Hash)]
pub struct ReliableSequence {
    raw: u32,
}

impl View for ReliableSequence {
    type V = nat;

    closed spec fn view(&self) -> nat {
        self.raw as nat
    }
}

impl Default for ReliableSequence {
    fn default() -> (result: Self)
        ensures
            result@ == 0,
    {
        ReliableSequence { raw: 0 }
    }
}

impl ReliableSequence {
    /// Whether the number lies in the sequence range.
    pub open spec fn wf(&self) -> bool {
        self@ < MODULUS
    }

    /// The sequence number that `value` has modulo the range.
    pub fn new(value: u32) -> (result: Self)
        ensures
            result@ == value as nat % (MODULUS as nat),
            result.wf(),
    {
        ReliableSequence { raw: mask(value) }
    }

    /// The sequence number `value`, if it lies in the range.
    pub fn from_wire_domain(value: u32) -> (result: Option<Self>)
        ensures
            result is Some <==> value < MODULUS,
            result matches Some(sequence) ==> sequence@ == value as nat && sequence.wf(),
    {
        if value > MASK {
            None
        } else {
            Some(ReliableSequence { raw: value })
        }
    }

    /// The sequence number that `value` was taken from.
    pub(crate) fn from_value(value: u32) -> (result: Self)
        ensures
            result@ == value as nat,
    {
        ReliableSequence { raw: value }
    }

    /// The number itself.
    pub fn value(self) -> (result: u32)
        ensures
            result as nat == self@,
    {
        self.raw
    }

    /// The number that follows.
    pub fn next(self) -> (result: Self)
        ensures
            result@ == (self@ + 1) % (MODULUS as nat),
            result.wf(),
    {
        ReliableSequence { raw: mask(self.raw.wrapping_add(1)) }
    }

    /// The number before.
    pub fn previous(self) -> (result: Self)
        ensures
            result@ == (self@ - 1) % (MODULUS as int),
            result.wf(),
    {
        ReliableSequence { raw: mask(self.raw.wrapping_sub(1)) }
    }

    /// How many steps forward lead from `older` to this number.
    pub fn wrapping_distance_from(self, older: Self) -> (result: u32)
        ensures
            result as nat == distance(self@, older@),
    {
        masked_distance(self.raw, older.raw)
    }

    /// Whether this number is ahead of `other` by less than half the range.
    pub fn is_newer_than(self, other: Self) -> (result: bool)
        ensures
            result == newer(self@, other@),
    {
        let steps: u32 = self.wrapping_distance_from(other);
        steps != 0 && steps < HALF_RANGE
    }
}

impl PartialOrdSpecImpl for ReliableSequence {
    open spec fn obeys_partial_cmp_spec() -> bool {
        true
    }

    open spec fn partial_cmp_spec(&self, other: &Self) -> Option<Ordering> {
        sequence_order(self@, other@)
    }
}

impl PartialOrd for ReliableSequence {
    fn partial_cmp(&self, other: &Self) -> (result: Option<Ordering>) {
        if self.raw == other.raw {
            Some(Ordering::Equal)
        } else if self.is_newer_than(*other) {
            Some(Ordering::Greater)
        } else {
            Some(Ordering::Less)
        }
    }
}

/// Two numbers of this type with the same value are the same number.
pub broadcast proof fn reliable_sequence_injective(a: ReliableSequence, b: ReliableSequence)
    requires
        #[trigger] a@ == #[trigger] b@,
    ensures
        a == b,
{
}

/// The number of an ordered or sequenced frame within its channel.
#[derive(Clone, Copy, Debug, PartialEq, Eq, Structural, Hash)]
pub struct OrderSequence {
    raw: u32,
}

impl View for OrderSequence {
    type V = nat;

    closed spec fn view(&self) -> nat {
        self.raw as nat
    }
}

impl Default for OrderSequence {
    fn default() -> (result: Self)
        ensures
            result@ == 0,
    {
        OrderSequence { raw: 0 }
    }
}

impl OrderSequence {
    /// Whether the number lies in the sequence range.
    pub open spec fn wf(&self) -> bool {
        self@ < MODULUS
    }

    /// The sequence number that `value` has modulo the range.
    pub fn new(value: u32) -> (result: Self)
        ensures
            result@ == value as nat % (MODULUS as nat),
            result.wf(),
    {
        OrderSequence { raw: mask(value) }
    }

    /// The sequence number `value`, if it lies in the range.
    pub fn from_wire_domain(value: u32) -> (result: Option<Self>)
        ensures
            result is Some <==> value < MODULUS,
            result matches Some(sequence) ==> sequence@ == value as nat && sequence.wf(),
    {
        if value > MASK {
            None
        } else {
            Some(OrderSequence { raw: value })
        }
    }

    /// The sequence number that `value` was taken from.
    pub(crate) fn from_value(value: u32) -> (result: Self)
        ensures
            result@ == value as nat,
    {
        OrderSequence { raw: value }
    }

    /// The number itself.
    pub fn value(self) -> (result: u32)
        ensures
            result as nat == self@,
    {
        self.raw
    }

    /// The number that follows.
    pub fn next(self) -> (result: Self)
        ensures
            result@ == (self@ + 1) % (MODULUS as nat),
            result.wf(),
    {
        OrderSequence { raw: mask(self.raw.wrapping_add(1)) }
    }

    /// The number before.
    pub fn previous(self) -> (result: Self)
        ensures
            result@ == (self@ - 1) % (MODULUS as int),
            result.wf(),
    {
        OrderSequence { raw: mask(self.raw.wrapping_sub(1)) }
    }

    /// How many steps forward lead from `older` to this number.
    pub fn wrapping_distance_from(self, older: Self) -> (result: u32)
        ensures
            result as nat == distance(self@, older@),
    {
        masked_distance(self.raw, older.raw)
    }

    /// Whether this number is ahead of `other` by less than half the range.
    pub fn is_newer_than(self, other: Self) -> (result: bool)
        ensures
            result == newer(self@, other@),
    {
        let steps: u32 = self.wrapping_distance_from(other);
        steps != 0 && steps < HALF_RANGE
    }
}

impl PartialOrdSpecImpl for OrderSequence {
    open spec fn obeys_partial_cmp_spec() -> bool {
        true
    }

    open spec fn partial_cmp_spec(&self, other: &Self) -> Option<Ordering> {
        sequence_order(self@, other@)
    }
}

impl PartialOrd for OrderSequence {
    fn partial_cmp(&self, other: &Self) -> (result: Option<Ordering>) {
        if self.raw == other.raw {
            Some(Ordering::Equal)
        } else if self.is_newer_than(*other) {
            Some(Ordering::Greater)
        } else {
            Some(Ordering::Less)
        }
    }
}

/// Two numbers of this type with the same value are the same number.
pub broadcast proof fn order_sequence_injective(a: OrderSequence, b: OrderSequence)
    requires
        #[trigger] a@ == #[trigger] b@,
    ensures
        a == b,
{
}

/// The number after another is newer than it, across the wraparound as well.
pub proof fn successor_is_newer(n: nat)
    requires
        n < MODULUS,
    ensures
        newer((n + 1) % (MODULUS as nat), n),
        !newer(n, (n + 1) % (MODULUS as nat)),
{
}

/// Of two numbers at most one is newer than the other, and no number is newer than itself.
pub proof fn newer_is_asymmetric(a: nat, b: nat)
    requires
        a < MODULUS,
        b < MODULUS,
    ensures
        !(newer(a, b) && newer(b, a)),
        !newer(a, a),
{
}

/// Two different numbers that are not exactly half the range apart have a newer one.
pub proof fn newer_is_total(a: nat, b: nat)
    requires
        a < MODULUS,
        b < MODULUS,
        a != b,
        distance(a, b) != 0x80_0000,
    ensures
        newer(a, b) || newer(b, a),
{
}

/// Stepping back undoes stepping forward.
pub proof fn previous_undoes_next(n: nat)
    requires
        n < MODULUS,
    ensures
        ((n + 1) % (MODULUS as nat) - 1) % (MODULUS as int) == n,
{
}

/// Going `distance(a, b)` steps forward from `b` leads to `a`.
pub proof fn distance_leads_back(a: nat, b: nat)
    requires
        a < MODULUS,
        b < MODULUS,
    ensures
        (b + distance(a, b)) % (MODULUS as nat) == a,
{
}

} // verus!
