//! The network weight that a set of delegation records amounts to.

use crate::records::{DelegationKey, ResourceCode, ResourceDelegation};
use vstd::prelude::*;

verus! {

/// The network weight of `resource` that a set of delegation records amounts
/// to: the sum, over all records, of the whole coins frozen under each.
pub open spec fn total_weight(
    records: Map<DelegationKey, ResourceDelegation>,
    resource: ResourceCode,
) -> int
    decreases records.dom().len(),
    when records.dom().finite()
{
    if records.dom().len() == 0 {
        0
    } else {
        let k = records.dom().choose();
        records[k].weight(resource) + total_weight(records.remove(k), resource)
    }
}

/// Any one record can be taken out of the sum first.
pub proof fn lemma_total_weight_remove(
    records: Map<DelegationKey, ResourceDelegation>,
    resource: ResourceCode,
    k: DelegationKey,
)
    requires
        records.dom().finite(),
        records.contains_key(k),
    ensures
        total_weight(records, resource) == records[k].weight(resource) + total_weight(
            records.remove(k),
            resource,
        ),
    decreases records.dom().len(),
{
    let c = records.dom().choose();
    if c != k {
        lemma_total_weight_remove(records.remove(c), resource, k);
        lemma_total_weight_remove(records.remove(k), resource, c);
        assert(records.remove(c).remove(k) =~= records.remove(k).remove(c));
    }
}

/// Storing a record changes the sum by the difference between the new
/// record's weight and that of the record it replaces.
pub proof fn lemma_total_weight_insert(
    records: Map<DelegationKey, ResourceDelegation>,
    resource: ResourceCode,
    k: DelegationKey,
    v: ResourceDelegation,
)
    requires
        records.dom().finite(),
    ensures
        total_weight(records.insert(k, v), resource) == total_weight(records, resource) + v.weight(
            resource,
        ) - (if records.contains_key(k) {
            records[k].weight(resource)
        } else {
            0
        }),
{
    let after = records.insert(k, v);
    lemma_total_weight_remove(after, resource, k);
    assert(after.remove(k) =~= records.remove(k));
    if records.contains_key(k) {
        lemma_total_weight_remove(records, resource, k);
    } else {
        assert(records.remove(k) =~= records);
    }
}

} // verus!
