//! The active endpoint of a user: at most one at a time, which the switch
//! enforces.

use crate::config::store::EndpointRow;
use vstd::prelude::*;
use vstd::string::*;

verus! {

/// How many of the endpoints are active.
pub open spec fn active_count(endpoints: Seq<EndpointRow>) -> nat
    decreases endpoints.len(),
{
    if endpoints.len() == 0 {
        0
    } else {
        active_count(endpoints.drop_last()) + (if endpoints.last().active {
            1nat
        } else {
            0nat
        })
    }
}

/// How many of the endpoints have the given identifier.
pub open spec fn count_with_id(endpoints: Seq<EndpointRow>, id: Seq<char>) -> nat
    decreases endpoints.len(),
{
    if endpoints.len() == 0 {
        0
    } else {
        count_with_id(endpoints.drop_last(), id) + (if endpoints.last().endpoint_id@ == id {
            1nat
        } else {
            0nat
        })
    }
}

/// The endpoints after the switch to `target`: each is active exactly if it
/// is the target; nothing else changes.
pub open spec fn switched(
    before: Seq<EndpointRow>,
    after: Seq<EndpointRow>,
    target: Seq<char>,
) -> bool {
    &&& after.len() == before.len()
    &&& forall|i: int|
        0 <= i < before.len() ==> {
            &&& (#[trigger] after[i]).endpoint_id == before[i].endpoint_id
            &&& after[i].group_id == before[i].group_id
            &&& after[i].remark == before[i].remark
            &&& after[i].active == (before[i].endpoint_id@ == target)
        }
}

/// After the switch as many endpoints are active as carry the target's
/// identifier: exactly one where the identifier is in use once.
pub proof fn lemma_switch_activates_target_only(
    before: Seq<EndpointRow>,
    after: Seq<EndpointRow>,
    target: Seq<char>,
)
    requires
        switched(before, after, target),
    ensures
        active_count(after) == count_with_id(before, target),
    decreases before.len(),
{
    if before.len() > 0 {
        assert(switched(before.drop_last(), after.drop_last(), target)) by {
            assert forall|i: int| 0 <= i < before.len() - 1 implies {
                &&& (#[trigger] after.drop_last()[i]).endpoint_id == before.drop_last()[i].endpoint_id
                &&& after.drop_last()[i].group_id == before.drop_last()[i].group_id
                &&& after.drop_last()[i].remark == before.drop_last()[i].remark
                &&& after.drop_last()[i].active == (before.drop_last()[i].endpoint_id@ == target)
            } by {
                assert(after.drop_last()[i] == after[i]);
            }
        }
        lemma_switch_activates_target_only(before.drop_last(), after.drop_last(), target);
        assert(after.last() == after[after.len() - 1]);
    }
}

/// Makes `target` the active endpoint and every other endpoint inactive.
pub fn switch_active_endpoint(endpoints: &mut Vec<EndpointRow>, target: &str)
    ensures
        switched(old(endpoints)@, final(endpoints)@, target@),
{
    let wanted = target.to_owned();
    let mut i: usize = 0;
    while i < endpoints.len()
        invariant
            i <= endpoints.len(),
            wanted@ == target@,
            endpoints@.len() == old(endpoints)@.len(),
            forall|k: int|
                0 <= k < i ==> {
                    &&& (#[trigger] endpoints@[k]).endpoint_id == old(endpoints)@[k].endpoint_id
                    &&& endpoints@[k].group_id == old(endpoints)@[k].group_id
                    &&& endpoints@[k].remark == old(endpoints)@[k].remark
                    &&& endpoints@[k].active == (old(endpoints)@[k].endpoint_id@ == target@)
                },
            forall|k: int| i <= k < endpoints@.len() ==> endpoints@[k] == old(endpoints)@[k],
        decreases endpoints.len() - i,
    {
        let is_target = endpoints[i].endpoint_id == wanted;
        endpoints[i].active = is_target;
        i += 1;
    }
}

/// Whether an endpoint is active at all: the engine may be switched on only
/// then.
pub fn has_active_endpoint(endpoints: &Vec<EndpointRow>) -> (any: bool)
    ensures
        any == (exists|i: int| 0 <= i < endpoints@.len() && (#[trigger] endpoints@[i]).active),
{
    let mut i: usize = 0;
    while i < endpoints.len()
        invariant
            i <= endpoints.len(),
            forall|k: int| 0 <= k < i ==> !(#[trigger] endpoints@[k]).active,
        decreases endpoints.len() - i,
    {
        if endpoints[i].active {
            return true;
        }
        i += 1;
    }
    false
}

} // verus!
