//! Membership changes: an item joins or leaves a collection, and an
//! identifier joins or leaves a list of identifiers.  Nothing here changes
//! the order of what stays.

use crate::reorder::is_first_position;
use crate::requests::episode::Episode;
use crate::sequences::retain_by;
use vstd::prelude::*;

verus! {

/// Whether an episode stays when the episodes with identifier `id` go.
pub open spec fn spec_is_other(id: i32) -> spec_fn(Episode) -> bool {
    |e: Episode| e.episodeid != id
}

/// Whether an identifier stays when `id` goes.
pub open spec fn spec_is_other_id(id: i32) -> spec_fn(i32) -> bool {
    |other: i32| other != id
}

/// Takes every episode with identifier `id` out of the collection.  The
/// others stay, in their order.
pub fn remove_episode(episodes: &mut Vec<Episode>, id: i32)
    ensures
        final(episodes)@ == old(episodes)@.filter(spec_is_other(id)),
{
    let keep = |e: &Episode| -> (stays: bool)
        ensures
            stays == (e.episodeid != id),
        { e.episodeid != id };
    retain_by(episodes, keep, Ghost(spec_is_other(id)));
}

/// Takes every occurrence of `id` out of `ids`.  The others stay, in
/// their order.
pub fn remove_id(ids: &mut Vec<i32>, id: i32)
    ensures
        final(ids)@ == old(ids)@.filter(spec_is_other_id(id)),
{
    let keep = |other: &i32| -> (stays: bool)
        ensures
            stays == (*other != id),
        { *other != id };
    retain_by(ids, keep, Ghost(spec_is_other_id(id)));
}

/// Switches `id` in a list of identifiers: where it occurs, its first
/// occurrence is taken out; where it does not, it is added at the end.
pub fn toggle_id(ids: &mut Vec<i32>, id: i32) -> (added: bool)
    ensures
        added <==> !old(ids)@.contains(id),
        added ==> final(ids)@ == old(ids)@.push(id),
        !added ==> exists|index: int|
            is_first_position(old(ids)@, id, index) && final(ids)@ == old(ids)@.remove(index),
{
    let mut at: usize = 0;
    while at < ids.len()
        invariant
            0 <= at <= ids@.len(),
            ids@ == old(ids)@,
            forall|j: int| 0 <= j < at ==> ids@[j] != id,
        decreases ids@.len() - at,
    {
        if ids[at] == id {
            assert(is_first_position(old(ids)@, id, at as int));
            ids.remove(at);
            return false;
        }
        at += 1;
    }
    ids.push(id);
    true
}

} // verus!
