//! A bounded memory of the numbers seen last, in the order in which they came.

use std::collections::{HashSet, VecDeque};
use vstd::prelude::*;

verus! {

/// The last `limit` items of `s`.
pub open spec fn latest<T>(s: Seq<T>, limit: nat) -> Seq<T> {
    if s.len() > limit {
        s.subrange(s.len() - limit, s.len() as int)
    } else {
        s
    }
}

/// What is kept of numbers is their end: as many as may be kept, or all of them.
pub proof fn end_is_kept<T>(s: Seq<T>, limit: nat)
    ensures
        latest(s, limit).len() <= limit,
        s.len() <= limit ==> latest(s, limit) == s,
        s.len() >= limit ==> latest(s, limit).len() == limit,
        s.take(s.len() - latest(s, limit).len()) + latest(s, limit) == s,
{
    assert(s.take(s.len() - latest(s, limit).len()) + latest(s, limit) =~= s);
}

/// Whether no number of `s` occurs twice.
pub open spec fn distinct(s: Seq<nat>) -> bool {
    forall|i: int, j: int| 0 <= i < j < s.len() ==> #[trigger] s[i] != #[trigger] s[j]
}

/// The numbers seen last, without repetition.
pub struct DuplicateWindow {
    seen: HashSet<u32>,
    order: VecDeque<u32>,
}

impl View for DuplicateWindow {
    type V = Seq<nat>;

    closed spec fn view(&self) -> Seq<nat> {
        self.order@.map_values(|value: u32| value as nat)
    }
}

impl DuplicateWindow {
    /// Whether the index holds exactly the numbers in the order, each of them once.
    pub closed spec fn wf(&self) -> bool {
        &&& distinct(self@)
        &&& forall|value: u32| #[trigger]
            self.seen@.contains(value) <==> self.order@.contains(value)
    }

    /// No number occurs twice.
    pub proof fn wf_is_distinct(&self)
        requires
            self.wf(),
        ensures
            distinct(self@),
    {
    }

    /// A window that has seen nothing.
    pub fn new() -> (result: Self)
        ensures
            result.wf(),
            result@ == Seq::<nat>::empty(),
    {
        broadcast use vstd::std_specs::hash::group_hash_axioms;

        let result = DuplicateWindow { seen: HashSet::new(), order: VecDeque::new() };
        assert(result@ =~= Seq::<nat>::empty());
        result
    }

    /// The window that has seen `values` in their order, if none of them repeats.
    pub fn from_values(values: &[u32]) -> (result: Option<Self>)
        ensures
            match result {
                Some(window) => window.wf() && window@ == values@.map_values(
                    |value: u32| value as nat,
                ),
                None => !distinct(values@.map_values(|value: u32| value as nat)),
            },
    {
        broadcast use vstd::std_specs::hash::group_hash_axioms;

        let mut window = DuplicateWindow::new();
        let ghost all = values@.map_values(|value: u32| value as nat);
        let mut i: usize = 0;
        assert(window@ =~= all.subrange(0, 0));
        while i < values.len()
            invariant
                i <= values@.len(),
                all == values@.map_values(|value: u32| value as nat),
                window.wf(),
                window@ == all.subrange(0, i as int),
            decreases values@.len() - i,
        {
            let value: u32 = values[i];
            if !window.append(value) {
                proof {
                    let j = choose|j: int| 0 <= j < window@.len() && window@[j] == value as nat;
                    assert(all[j] == all[i as int]);
                }
                return None;
            }
            i += 1;
            assert(window@ =~= all.subrange(0, i as int));
        }
        assert(window@ =~= all);
        Some(window)
    }

    fn append(&mut self, value: u32) -> (fresh: bool)
        requires
            old(self).wf(),
        ensures
            final(self).wf(),
            fresh == !old(self)@.contains(value as nat),
            final(self)@ == if fresh {
                old(self)@.push(value as nat)
            } else {
                old(self)@
            },
    {
        broadcast use vstd::std_specs::hash::group_hash_axioms;

        let ghost before = *self;
        proof {
            if before.order@.contains(value) {
                let j = choose|j: int| 0 <= j < before.order@.len() && before.order@[j] == value;
                assert(before@[j] == value as nat);
            }
            if before@.contains(value as nat) {
                let j = choose|j: int| 0 <= j < before@.len() && before@[j] == value as nat;
                assert(before.order@[j] == value);
            }
        }
        if !self.seen.insert(value) {
            assert(self.seen@ =~= before.seen@);
            return false;
        }
        self.order.push_back(value);
        proof {
            assert(self@ =~= before@.push(value as nat));
            assert forall|other: u32| #[trigger]
                self.seen@.contains(other) <==> self.order@.contains(other) by {
                if before.order@.contains(other) {
                    let j = choose|j: int|
                        0 <= j < before.order@.len() && before.order@[j] == other;
                    assert(self.order@[j] == other);
                }
                if other == value {
                    assert(self.order@[before.order@.len() as int] == value);
                }
                if self.order@.contains(other) && other != value {
                    let j = choose|j: int| 0 <= j < self.order@.len() && self.order@[j] == other;
                    assert(before.order@[j] == other);
                }
            }
        }
        true
    }

    fn forget_first(&mut self)
        requires
            old(self).wf(),
            old(self)@.len() > 0,
        ensures
            final(self).wf(),
            final(self)@ == old(self)@.subrange(1, old(self)@.len() as int),
    {
        broadcast use vstd::std_specs::hash::group_hash_axioms;

        let ghost before = *self;
        if let Some(expired) = self.order.pop_front() {
            self.seen.remove(&expired);
            proof {
                assert(self@ =~= before@.subrange(1, before@.len() as int));
                assert(before.order@[0] == expired);
                assert forall|other: u32| #[trigger]
                    self.seen@.contains(other) <==> self.order@.contains(other) by {
                    if before.order@.contains(other) && other != expired {
                        let j = choose|j: int|
                            0 <= j < before.order@.len() && before.order@[j] == other;
                        assert(self.order@[j - 1] == other);
                    }
                    if self.order@.contains(other) {
                        let j = choose|j: int|
                            0 <= j < self.order@.len() && self.order@[j] == other;
                        assert(before.order@[j + 1] == other);
                        assert(before@[j + 1] != before@[0]);
                    }
                }
                assert forall|i: int, j: int| 0 <= i < j < self@.len() implies #[trigger] self@[i]
                    != #[trigger] self@[j] by {
                    assert(before@[i + 1] != before@[j + 1]);
                }
            }
        }
    }

    /// Remembers a number that was not in the window, forgetting the oldest beyond `limit`.
    /// Returns whether the number was new.
    pub fn remember(&mut self, value: u32, limit: usize) -> (fresh: bool)
        requires
            old(self).wf(),
        ensures
            final(self).wf(),
            fresh == !old(self)@.contains(value as nat),
            final(self)@ == if fresh {
                latest(old(self)@.push(value as nat), limit as nat)
            } else {
                old(self)@
            },
    {
        let ghost pushed = self@.push(value as nat);
        if !self.append(value) {
            return false;
        }
        assert(self@ =~= pushed.subrange(0, pushed.len() as int));
        while self.order.len() > limit
            invariant
                self.wf(),
                self@.len() <= pushed.len(),
                self@.len() == self.order@.len(),
                self@ == pushed.subrange(pushed.len() - self@.len(), pushed.len() as int),
                self@.len() >= limit || self@.len() == pushed.len(),
            decreases self@.len(),
        {
            self.forget_first();
            assert(self@ =~= pushed.subrange(pushed.len() - self@.len(), pushed.len() as int));
        }
        assert(self@ =~= latest(pushed, limit as nat));
        true
    }

    /// The numbers in the order in which they came.
    pub fn values(&self) -> (result: Vec<u32>)
        ensures
            result@.map_values(|value: u32| value as nat) == self@,
    {
        let mut result: Vec<u32> = Vec::new();
        let mut i: usize = 0;
        while i < self.order.len()
            invariant
                i <= self.order@.len(),
                result@ == self.order@.subrange(0, i as int),
            decreases self.order@.len() - i,
        {
            result.push(self.order[i]);
            i += 1;
            assert(result@ =~= self.order@.subrange(0, i as int));
        }
        assert(result@ =~= self.order@);
        result
    }
}

} // verus!
