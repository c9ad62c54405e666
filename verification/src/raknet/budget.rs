//! Resource limits of a RakNet server and the error that a breach gives.

use crate::text::{append_decimal, decimal};
use vstd::prelude::*;
use vstd::string::*;

verus! {

/// The limits a RakNet server keeps to.
#[derive(Clone, Copy, Debug, PartialEq, Eq, Structural)]
pub struct RakNetBudgets {
    pub max_peers: usize,
    pub peer_ingress_queue: usize,
    pub peer_command_queue: usize,
    pub application_queue: usize,
    pub max_datagram_bytes: usize,
    pub max_payload_bytes: usize,
    pub max_reassembly_bytes_per_peer: usize,
    pub max_reassembly_parts_per_peer: usize,
    pub max_ordered_holdback: usize,
    pub max_unacked_datagrams: usize,
}

impl Default for RakNetBudgets {
    fn default() -> (result: Self)
        ensures
            result == (RakNetBudgets {
                max_peers: 4_096,
                peer_ingress_queue: 256,
                peer_command_queue: 256,
                application_queue: 256,
                max_datagram_bytes: 2_048,
                max_payload_bytes: 4_194_304,
                max_reassembly_bytes_per_peer: 8_388_608,
                max_reassembly_parts_per_peer: 4_096,
                max_ordered_holdback: 1_024,
                max_unacked_datagrams: 2_048,
            }),
    {
        RakNetBudgets {
            max_peers: 4_096,
            peer_ingress_queue: 256,
            peer_command_queue: 256,
            application_queue: 256,
            max_datagram_bytes: 2_048,
            max_payload_bytes: 4 * 1024 * 1024,
            max_reassembly_bytes_per_peer: 8 * 1024 * 1024,
            max_reassembly_parts_per_peer: 4_096,
            max_ordered_holdback: 1_024,
            max_unacked_datagrams: 2_048,
        }
    }
}

/// A request for more of a resource than its limit.
#[derive(Clone, Copy, Debug, PartialEq, Eq)]
pub struct BudgetExceeded {
    pub resource: &'static str,
    pub requested: usize,
    pub limit: usize,
}

impl BudgetExceeded {
    /// The text of the error.
    pub open spec fn spec_message(self) -> Seq<char> {
        "raknet "@ + self.resource@ + " budget exhausted: requested "@ + decimal(
            self.requested as nat,
        ) + ", limit "@ + decimal(self.limit as nat)
    }

    /// The text of the error.
    pub fn message(&self) -> (text: String)
        ensures
            text@ == self.spec_message(),
    {
        let mut text = "raknet ".to_string();
        text.append(self.resource);
        text.append(" budget exhausted: requested ");
        append_decimal(&mut text, self.requested as u64);
        text.append(", limit ");
        append_decimal(&mut text, self.limit as u64);
        text
    }
}

/// What checking `requested` against `limit` gives.
pub open spec fn budget_check(resource: &'static str, requested: usize, limit: usize) -> Result<
    (),
    BudgetExceeded,
> {
    if requested > limit {
        Err(BudgetExceeded { resource, requested, limit })
    } else {
        Ok(())
    }
}

/// A request is refused if and only if it is above the limit, and the refusal tells what was asked
/// for: a request that is granted is granted with every higher limit.
pub proof fn limits_are_kept(resource: &'static str, requested: usize, limit: usize, higher: usize)
    requires
        limit <= higher,
    ensures
        budget_check(resource, requested, limit) is Ok <==> requested <= limit,
        budget_check(resource, requested, limit) is Ok ==> budget_check(
            resource,
            requested,
            higher,
        ) is Ok,
        budget_check(resource, requested, limit) matches Err(e) ==> e.resource == resource
            && e.requested == requested && e.limit == limit,
{
}

/// Refuses a request above the limit.
pub fn ensure_budget(resource: &'static str, requested: usize, limit: usize) -> (result: Result<
    (),
    BudgetExceeded,
>)
    ensures
        result == budget_check(resource, requested, limit),
{
    if requested > limit {
        Err(BudgetExceeded { resource, requested, limit })
    } else {
        Ok(())
    }
}

} // verus!
