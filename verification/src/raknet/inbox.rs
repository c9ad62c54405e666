//! The queue of payloads that wait for the application.

use crate::bytes::copy_bytes;
use crate::raknet::budget::{budget_check, ensure_budget};
use crate::raknet::error::RakNetError;
use std::collections::VecDeque;
use vstd::prelude::*;

verus! {

/// What the payloads of a list hold.
pub open spec fn payload_views(payloads: Seq<Vec<u8>>) -> Seq<Seq<u8>> {
    payloads.map_values(|payload: Vec<u8>| payload@)
}

/// The number that follows, or the largest there is.
pub open spec fn plus_one(n: usize) -> usize {
    if n < usize::MAX {
        (n + 1) as usize
    } else {
        n
    }
}

/// A bounded queue of payloads.
pub struct PeerInbox {
    queue: VecDeque<Vec<u8>>,
    closed: bool,
    capacity: usize,
}

/// The payloads that wait, whether more may come, and how many may wait.
pub struct InboxView {
    pub queue: Seq<Seq<u8>>,
    pub closed: bool,
    pub capacity: usize,
}

impl View for PeerInbox {
    type V = InboxView;

    closed spec fn view(&self) -> InboxView {
        InboxView {
            queue: payload_views(self.queue@),
            closed: self.closed,
            capacity: self.capacity,
        }
    }
}

/// Why an inbox does not take another payload.
pub open spec fn inbox_fault(inbox: InboxView) -> Option<RakNetError> {
    match budget_check(
        "application queue entries",
        plus_one(inbox.queue.len() as usize),
        inbox.capacity,
    ) {
        Err(e) => Some(RakNetError::Budget(e)),
        Ok(_) => None,
    }
}

impl PeerInbox {
    /// An empty inbox.
    pub fn new(capacity: usize) -> (result: Self)
        ensures
            result@ == (InboxView { queue: Seq::empty(), closed: false, capacity }),
    {
        let result = PeerInbox { queue: VecDeque::new(), closed: false, capacity };
        assert(result@.queue =~= Seq::<Seq<u8>>::empty());
        result
    }

    /// An inbox that already holds payloads.
    pub fn from_validated_queue(payloads: &Vec<Vec<u8>>, capacity: usize) -> (result: Self)
        ensures
            result@ == (InboxView { queue: payload_views(payloads@), closed: false, capacity }),
    {
        let mut queue: VecDeque<Vec<u8>> = VecDeque::new();
        let mut i: usize = 0;
        assert(payload_views(queue@) =~= payload_views(payloads@).subrange(0, 0));
        while i < payloads.len()
            invariant
                i <= payloads@.len(),
                payload_views(queue@) == payload_views(payloads@).subrange(0, i as int),
            decreases payloads@.len() - i,
        {
            let ghost before = queue@;
            queue.push_back(copy_bytes(payloads[i].as_slice()));
            i += 1;
            assert(payload_views(queue@) =~= payload_views(before).push(
                payload_views(payloads@)[i - 1],
            ));
            assert(payload_views(queue@) =~= payload_views(payloads@).subrange(0, i as int));
        }
        assert(payload_views(queue@) =~= payload_views(payloads@));
        PeerInbox { queue, closed: false, capacity }
    }

    /// Adds a payload at the end, if there is room.
    pub fn push(&mut self, payload: Vec<u8>) -> (result: Result<(), RakNetError>)
        ensures
            match inbox_fault(old(self)@) {
                Some(e) => result == Err::<(), RakNetError>(e) && final(self)@ == old(self)@,
                None => result is Ok && final(self)@ == (InboxView {
                    queue: old(self)@.queue.push(payload@),
                    ..old(self)@
                }),
            },
    {
        let wanted: usize = self.queue.len().saturating_add(1);
        if let Err(e) = ensure_budget("application queue entries", wanted, self.capacity) {
            return Err(RakNetError::Budget(e));
        }
        self.queue.push_back(payload);
        assert(self@.queue =~= old(self)@.queue.push(payload@));
        Ok(())
    }

    /// Takes the first payload. Without one, a closed inbox gives an error and an open one
    /// nothing yet.
    pub fn receive(&mut self) -> (result: Result<Option<Vec<u8>>, RakNetError>)
        ensures
            if old(self)@.queue.len() > 0 {
                &&& result matches Ok(Some(payload)) && payload@ == old(self)@.queue[0]
                &&& final(self)@ == (InboxView {
                    queue: old(self)@.queue.subrange(1, old(self)@.queue.len() as int),
                    ..old(self)@
                })
            } else {
                &&& final(self)@ == old(self)@
                &&& result == if old(self)@.closed {
                    Err::<Option<Vec<u8>>, RakNetError>(RakNetError::Closed)
                } else {
                    Ok(None)
                }
            },
    {
        match self.queue.pop_front() {
            Some(payload) => {
                assert(self@.queue =~= old(self)@.queue.subrange(
                    1,
                    old(self)@.queue.len() as int,
                ));
                Ok(Some(payload))
            },
            None => if self.closed {
                Err(RakNetError::Closed)
            } else {
                Ok(None)
            },
        }
    }

    /// Copies of the payloads that wait.
    pub fn snapshot(&self) -> (result: Vec<Vec<u8>>)
        ensures
            payload_views(result@) == self@.queue,
    {
        let mut result: Vec<Vec<u8>> = Vec::new();
        let mut i: usize = 0;
        assert(payload_views(result@) =~= self@.queue.subrange(0, 0));
        while i < self.queue.len()
            invariant
                i <= self.queue@.len(),
                payload_views(result@) == self@.queue.subrange(0, i as int),
                self@.queue == payload_views(self.queue@),
            decreases self.queue@.len() - i,
        {
            let ghost before = result@;
            result.push(copy_bytes(self.queue[i].as_slice()));
            i += 1;
            assert(payload_views(result@) =~= payload_views(before).push(self@.queue[i - 1]));
            assert(payload_views(result@) =~= self@.queue.subrange(0, i as int));
        }
        assert(payload_views(result@) =~= self@.queue);
        result
    }

    /// Lets no further payload be waited for.
    pub fn close(&mut self)
        ensures
            final(self)@ == (InboxView { closed: true, ..old(self)@ }),
    {
        self.closed = true;
    }
}

} // verus!
