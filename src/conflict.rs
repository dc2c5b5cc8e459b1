//! The conflict checker: which of a vendor's incoming UsesVendor relations, if
//! any, is an active engagement.
use vstd::prelude::*;
use crate::model::Engagement;

verus! {

/// The vendor has an active engagement among `rels`.
pub open spec fn has_active(rels: Seq<Engagement>) -> bool {
    exists|i: int| 0 <= i < rels.len() && (#[trigger] rels[i]).is_active()
}

/// Finds the first active engagement among a vendor's relations; closed ones
/// (with an `end`) never count as a conflict.
pub fn active_engagement(rels: &Vec<Engagement>) -> (r: Option<usize>)
    ensures
        r is None <==> !has_active(rels@),
        r matches Some(i) ==> i < rels@.len() && rels@[i as int].is_active() && forall|j: int|
            0 <= j < i ==> !(#[trigger] rels@[j]).is_active(),
{
    let mut i: usize = 0;
    while i < rels.len()
        invariant
            0 <= i <= rels@.len(),
            forall|j: int| 0 <= j < i ==> !(#[trigger] rels@[j]).is_active(),
        decreases rels@.len() - i,
    {
        if rels[i].end.is_none() {
            return Some(i);
        }
        i = i + 1;
    }
    None
}

} // verus!
