//! The order reconciler: moving one item of the ordered collection to a new
//! position.
//!
//! A move takes the dragged item out and puts it back at the target index,
//! counted in the collection as it is after the item was taken out.  An
//! item dragged towards the end therefore lands after the item that stood
//! at the target, one dragged towards the front lands before it.

use crate::requests::episode::Episode;
use vstd::prelude::*;
use vstd::seq_lib::{to_multiset_insert, to_multiset_remove};

verus! {

/// The identifiers of `items`, in order.
pub open spec fn spec_ids(items: Seq<Episode>) -> Seq<i32> {
    Seq::new(items.len(), |i: int| items[i].episodeid)
}

/// Whether `index` is where `id` stands first in `ids`.
pub open spec fn is_first_position(ids: Seq<i32>, id: i32, index: int) -> bool {
    &&& 0 <= index < ids.len()
    &&& ids[index] == id
    &&& forall|j: int| 0 <= j < index ==> ids[j] != id
}

/// Where `id` stands first in `ids`, if it stands there at all.
pub open spec fn spec_position(ids: Seq<i32>, id: i32) -> Option<int> {
    if exists|i: int| is_first_position(ids, id, i) {
        Some(choose|i: int| is_first_position(ids, id, i))
    } else {
        None
    }
}

/// `items` with the item at `from` taken out and put back at `to`, or at
/// the end where `to` lies beyond it.
pub open spec fn spec_move_item<T>(items: Seq<T>, from: int, to: int) -> Seq<T>
    recommends
        0 <= from < items.len(),
        0 <= to,
{
    let rest = items.remove(from);
    let at = if to <= rest.len() {
        to
    } else {
        rest.len() as int
    };
    rest.insert(at, items[from])
}

/// `items` after the item with identifier `dragged_id` was dropped at
/// `target_index`: unchanged where no item has that identifier or the item
/// already stands at the target, else with that item moved.
pub open spec fn spec_reorder(items: Seq<Episode>, dragged_id: i32, target_index: int) -> Seq<
    Episode,
> {
    match spec_position(spec_ids(items), dragged_id) {
        None => items,
        Some(from) => if from == target_index {
            items
        } else {
            spec_move_item(items, from, target_index)
        },
    }
}

/// Whether dropping `dragged_id` at `target_index` moves an item.
pub open spec fn spec_moves(items: Seq<Episode>, dragged_id: i32, target_index: int) -> bool {
    match spec_position(spec_ids(items), dragged_id) {
        None => false,
        Some(from) => from != target_index,
    }
}

/// An identifier has at most one first position.
pub proof fn lemma_first_position_unique(ids: Seq<i32>, id: i32, a: int, b: int)
    requires
        is_first_position(ids, id, a),
        is_first_position(ids, id, b),
    ensures
        a == b,
{
    if a < b {
        assert(ids[a] != id);
    } else if b < a {
        assert(ids[b] != id);
    }
}

/// The position of an identifier is its first position, and there is none
/// exactly when the identifier does not occur.
pub proof fn lemma_position(ids: Seq<i32>, id: i32)
    ensures
        match spec_position(ids, id) {
            Some(i) => is_first_position(ids, id, i),
            None => forall|j: int| 0 <= j < ids.len() ==> ids[j] != id,
        },
{
    if exists|i: int| is_first_position(ids, id, i) {
    } else {
        assert forall|j: int| 0 <= j < ids.len() implies ids[j] != id by {
            lemma_no_position_prefix(ids, id, j + 1);
        }
    }
}

/// Where an identifier has no first position, it occurs in no prefix.
proof fn lemma_no_position_prefix(ids: Seq<i32>, id: i32, n: int)
    requires
        0 <= n <= ids.len(),
        !exists|i: int| is_first_position(ids, id, i),
    ensures
        forall|j: int| 0 <= j < n ==> ids[j] != id,
    decreases n,
{
    if n > 0 {
        lemma_no_position_prefix(ids, id, n - 1);
        if ids[n - 1] == id {
            assert(is_first_position(ids, id, n - 1));
        }
    }
}

/// An index that holds the identifier, with none before it, is the
/// identifier's position.
pub proof fn lemma_position_is(ids: Seq<i32>, id: i32, index: int)
    requires
        is_first_position(ids, id, index),
    ensures
        spec_position(ids, id) == Some(index),
{
    let chosen = choose|i: int| is_first_position(ids, id, i);
    lemma_first_position_unique(ids, id, chosen, index);
}

/// Where `id` stands first among the identifiers of `items`.
pub fn position_of(items: &Vec<Episode>, id: i32) -> (position: Option<usize>)
    ensures
        match position {
            Some(i) => spec_position(spec_ids(items@), id) == Some(i as int),
            None => spec_position(spec_ids(items@), id) is None,
        },
        match position {
            Some(i) => is_first_position(spec_ids(items@), id, i as int),
            None => forall|j: int| 0 <= j < items@.len() ==> items@[j].episodeid != id,
        },
{
    let mut i: usize = 0;
    while i < items.len()
        invariant
            0 <= i <= items.len(),
            forall|j: int| 0 <= j < i ==> spec_ids(items@)[j] != id,
        decreases items.len() - i,
    {
        if items[i].episodeid == id {
            proof {
                lemma_position_is(spec_ids(items@), id, i as int);
            }
            return Some(i);
        }
        i += 1;
    }
    proof {
        lemma_position(spec_ids(items@), id);
        assert forall|j: int| 0 <= j < items@.len() implies items@[j].episodeid != id by {
            assert(spec_ids(items@)[j] != id);
        }
    }
    None
}

/// The identifiers of `items`, in order: the sequence the server is asked
/// to store.
pub fn episode_ids(items: &Vec<Episode>) -> (ids: Vec<i32>)
    ensures
        ids@ == spec_ids(items@),
{
    let mut ids: Vec<i32> = Vec::new();
    let mut i: usize = 0;
    while i < items.len()
        invariant
            0 <= i <= items.len(),
            ids@.len() == i,
            forall|j: int| 0 <= j < i ==> ids@[j] == items@[j].episodeid,
        decreases items.len() - i,
    {
        ids.push(items[i].episodeid);
        i += 1;
    }
    assert(ids@ =~= spec_ids(items@));
    ids
}

/// Moves the item with identifier `dragged_id` to `target_index` and
/// returns the collection in its new order.
///
/// Nothing changes where no item has that identifier, or where the first
/// item that has it already stands at `target_index`.  Otherwise that item
/// is taken out and put back at `target_index`, or at the end where
/// `target_index` lies beyond it.
pub fn reorder(collection: Vec<Episode>, dragged_id: i32, target_index: usize) -> (reordered: Vec<
    Episode,
>)
    ensures
        reordered@ == spec_reorder(collection@, dragged_id, target_index as int),
        reordered@.len() == collection@.len(),
        reordered@.to_multiset() == collection@.to_multiset(),
        spec_ids(reordered@).to_multiset() == spec_ids(collection@).to_multiset(),
{
    proof {
        lemma_reorder_is_permutation(collection@, dragged_id, target_index as int);
    }
    let mut items = collection;
    match position_of(&items, dragged_id) {
        None => items,
        Some(from) => {
            if from == target_index {
                items
            } else {
                let dragged = items.remove(from);
                let at: usize = if target_index <= items.len() {
                    target_index
                } else {
                    items.len()
                };
                items.insert(at, dragged);
                items
            }
        },
    }
}

/// Taking an item out and putting it back anywhere keeps every item, each
/// as often as before.
pub proof fn lemma_move_keeps_items<T>(items: Seq<T>, from: int, to: int)
    requires
        0 <= from < items.len(),
        0 <= to,
    ensures
        spec_move_item(items, from, to).len() == items.len(),
        spec_move_item(items, from, to).to_multiset() == items.to_multiset(),
{
    let rest = items.remove(from);
    let at = if to <= rest.len() {
        to
    } else {
        rest.len() as int
    };
    to_multiset_remove(items, from);
    to_multiset_insert(rest, at, items[from]);
    items.to_multiset_ensures();
    assert(items.to_multiset().count(items[from]) > 0);
    assert(items.to_multiset().remove(items[from]).insert(items[from]) =~= items.to_multiset());
}

/// The identifiers of a moved collection are the moved identifiers.
proof fn lemma_ids_of_move(items: Seq<Episode>, from: int, to: int)
    requires
        0 <= from < items.len(),
        0 <= to,
    ensures
        spec_ids(spec_move_item(items, from, to)) == spec_move_item(spec_ids(items), from, to),
{
    assert(spec_ids(spec_move_item(items, from, to)) =~= spec_move_item(spec_ids(items), from, to));
}

/// A reorder is a permutation: the collection afterwards is as long as
/// before and holds the same items and the same identifiers, each as often
/// as before.  Nothing is added and nothing is lost, whatever the dragged
/// identifier and the target index.
pub proof fn lemma_reorder_is_permutation(items: Seq<Episode>, dragged_id: i32, target_index: int)
    requires
        0 <= target_index,
    ensures
        spec_reorder(items, dragged_id, target_index).len() == items.len(),
        spec_reorder(items, dragged_id, target_index).to_multiset() == items.to_multiset(),
        spec_ids(spec_reorder(items, dragged_id, target_index)).to_multiset() == spec_ids(
            items,
        ).to_multiset(),
{
    lemma_position(spec_ids(items), dragged_id);
    match spec_position(spec_ids(items), dragged_id) {
        None => {},
        Some(from) => {
            if from != target_index {
                lemma_move_keeps_items(items, from, target_index);
                lemma_move_keeps_items(spec_ids(items), from, target_index);
                lemma_ids_of_move(items, from, target_index);
            }
        },
    }
}

/// A collection whose identifiers are all different keeps them all
/// different through a reorder.
pub proof fn lemma_reorder_keeps_ids_distinct(
    items: Seq<Episode>,
    dragged_id: i32,
    target_index: int,
)
    requires
        0 <= target_index,
        spec_ids(items).no_duplicates(),
    ensures
        spec_ids(spec_reorder(items, dragged_id, target_index)).no_duplicates(),
{
    lemma_reorder_is_permutation(items, dragged_id, target_index);
    spec_ids(items).lemma_multiset_has_no_duplicates();
    spec_ids(spec_reorder(items, dragged_id, target_index)).lemma_multiset_has_no_duplicates_conv();
}

/// Dropping an item where it already stands changes nothing.
pub proof fn lemma_same_position_is_noop(items: Seq<Episode>, dragged_id: i32, target_index: int)
    requires
        spec_position(spec_ids(items), dragged_id) == Some(target_index),
    ensures
        spec_reorder(items, dragged_id, target_index) == items,
        !spec_moves(items, dragged_id, target_index),
{
}

/// A reorder can be undone: in a collection without repeated identifiers,
/// dropping the moved item at the index it came from gives the collection
/// back as it was.
pub proof fn lemma_reorder_can_be_undone(
    items: Seq<Episode>,
    dragged_id: i32,
    target_index: int,
    from: int,
)
    requires
        0 <= target_index,
        spec_ids(items).no_duplicates(),
        spec_position(spec_ids(items), dragged_id) == Some(from),
    ensures
        spec_reorder(spec_reorder(items, dragged_id, target_index), dragged_id, from) == items,
{
    lemma_position(spec_ids(items), dragged_id);
    if from != target_index {
        let rest = items.remove(from);
        let at = if target_index <= rest.len() {
            target_index
        } else {
            rest.len() as int
        };
        let moved = rest.insert(at, items[from]);
        assert(moved == spec_reorder(items, dragged_id, target_index));
        assert(spec_ids(moved)[at] == dragged_id);
        assert forall|j: int| 0 <= j < at implies spec_ids(moved)[j] != dragged_id by {
            let k = if j < from {
                j
            } else {
                j + 1
            };
            assert(moved[j] == items[k]);
            assert(spec_ids(items)[k] != spec_ids(items)[from]);
        }
        lemma_position_is(spec_ids(moved), dragged_id, at);
        if at != from {
            assert(moved.remove(at) =~= rest);
            assert(rest.insert(from, items[from]) =~= items);
        } else {
            assert(moved =~= items);
        }
    }
}

} // verus!
