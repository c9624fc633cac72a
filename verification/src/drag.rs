//! The drag reorder coordinator: which item is being dragged, where a drop
//! lands, and what the drop does to the collection.
//!
//! A drop lands either on a mounted item, found by walking up from the
//! element under the pointer, or in a spacer, where no item is mounted.  In
//! a spacer the pointer's height in the list is turned into the index of
//! the item that would be drawn there.
//!
//! Pointer and container positions are whole pixels.  A caller that
//! measures a fractional container top rounds it up, a fractional bottom
//! down: against whole pointer positions the comparisons are the same.

use crate::reorder::{
    episode_ids, lemma_reorder_is_permutation, position_of, reorder, spec_ids, spec_moves,
    spec_position, spec_reorder,
};
use crate::requests::episode::Episode;
use crate::text::{parse_item_id, spec_parse_item_id};
use vstd::prelude::*;

verus! {

/// Distance from a container edge within which a drag scrolls the list.
pub const AUTO_SCROLL_MARGIN: i64 = 50;

/// Pixels the list scrolls for one drag-over event near an edge.
pub const AUTO_SCROLL_STEP: i64 = 20;

/// How many parents the search for a tagged element climbs at most.
pub const MAX_ANCESTOR_HOPS: usize = 10;

/// The scroll offset after a drag-over event at height `pointer_y`, where
/// the edges of the container are at `container_top` and
/// `container_bottom` and it is scrolled to `scroll_top`.  Near the top
/// edge the list scrolls up by one step, not past its start; near the
/// bottom edge it then scrolls down by one step.
pub open spec fn spec_auto_scroll(
    pointer_y: int,
    container_top: int,
    container_bottom: int,
    scroll_top: int,
) -> int {
    let up = if pointer_y < container_top + 50 {
        if scroll_top - 20 < 0 {
            0
        } else {
            scroll_top - 20
        }
    } else {
        scroll_top
    };
    if pointer_y > container_bottom - 50 {
        up + 20
    } else {
        up
    }
}

/// Whether a drag-over event at `pointer_y` scrolls the list at all.
pub open spec fn spec_near_edge(pointer_y: int, container_top: int, container_bottom: int) -> bool {
    pointer_y < container_top + 50 || pointer_y > container_bottom - 50
}

/// The scroll offset to set for a drag-over event, or `None` where the
/// pointer is near neither edge and the list stays as it is.
pub fn auto_scroll(pointer_y: i32, container_top: i32, container_bottom: i32, scroll_top: i32) -> (target: Option<i64>)
    ensures
        target is Some <==> spec_near_edge(
            pointer_y as int,
            container_top as int,
            container_bottom as int,
        ),
        target matches Some(offset) ==> offset == spec_auto_scroll(
            pointer_y as int,
            container_top as int,
            container_bottom as int,
            scroll_top as int,
        ),
        target matches Some(offset) ==> (scroll_top >= 0 ==> offset >= 0),
{
    let y: i64 = pointer_y as i64;
    let top: i64 = container_top as i64;
    let bottom: i64 = container_bottom as i64;
    let near_top: bool = y < top + AUTO_SCROLL_MARGIN;
    let near_bottom: bool = y > bottom - AUTO_SCROLL_MARGIN;
    if !near_top && !near_bottom {
        return None;
    }
    let mut offset: i64 = scroll_top as i64;
    if near_top {
        offset = if offset - AUTO_SCROLL_STEP < 0 {
            0
        } else {
            offset - AUTO_SCROLL_STEP
        };
    }
    if near_bottom {
        offset = offset + AUTO_SCROLL_STEP;
    }
    Some(offset)
}

/// Height of the pointer in the list: its distance below the container's
/// top edge, plus what is scrolled out above that edge.
pub open spec fn spec_relative_y(pointer_client_y: int, container_top: int, container_scroll_top: int) -> int {
    (pointer_client_y - container_top) + container_scroll_top
}

/// The index of the item drawn at height `relative_y` of a list of `len`
/// items, each `item_height` tall: `floor(relative_y / item_height)`, held
/// between the first and the last item.
pub open spec fn spec_virtual_index(relative_y: int, item_height: nat, len: nat) -> nat
    recommends
        item_height > 0,
{
    let raw = if relative_y < 0 {
        0
    } else {
        (relative_y / item_height as int) as nat
    };
    let last = if len == 0 {
        0
    } else {
        (len - 1) as nat
    };
    if raw <= last {
        raw
    } else {
        last
    }
}

/// The index at which an item dropped in a spacer is put: that of the item
/// that would be drawn under the pointer, never outside the list.
pub fn virtual_index(
    pointer_client_y: i32,
    container_top: i32,
    container_scroll_top: i32,
    item_height: u64,
    len: usize,
) -> (index: usize)
    requires
        item_height > 0,
    ensures
        index == spec_virtual_index(
            spec_relative_y(
                pointer_client_y as int,
                container_top as int,
                container_scroll_top as int,
            ),
            item_height as nat,
            len as nat,
        ),
        len > 0 ==> index < len,
        len == 0 ==> index == 0,
{
    let relative_y: i64 = (pointer_client_y as i64 - container_top as i64)
        + container_scroll_top as i64;
    let last: usize = if len == 0 {
        0
    } else {
        len - 1
    };
    if relative_y < 0 {
        return 0;
    }
    let raw: u64 = (relative_y as u64) / item_height;
    if raw <= last as u64 {
        raw as usize
    } else {
        last
    }
}

/// A pointer above the start of the list gives the first index, a pointer
/// at or below its end the last one; no pointer gives an index outside
/// the list.
pub proof fn lemma_virtual_index_clamps(relative_y: int, item_height: nat, len: nat)
    requires
        item_height > 0,
        len > 0,
    ensures
        spec_virtual_index(relative_y, item_height, len) <= len - 1,
        relative_y < item_height ==> spec_virtual_index(relative_y, item_height, len) == 0,
        relative_y >= (len - 1) * item_height ==> spec_virtual_index(relative_y, item_height, len)
            == len - 1,
{
    let h = item_height as int;
    if 0 <= relative_y < h {
        assert(relative_y / h == 0) by (nonlinear_arith)
            requires
                0 <= relative_y < h,
        ;
    }
    if relative_y >= (len - 1) * item_height {
        assert(relative_y / h >= len - 1) by (nonlinear_arith)
            requires
                relative_y >= (len - 1) * h,
                h > 0,
                len >= 1,
        ;
    }
}

/// With the list scrolled to its start, a pointer above the container's
/// top edge gives index 0.  With the list scrolled so far that its end is
/// at or above the container's bottom edge, a pointer below that edge
/// gives the last index.
pub proof fn lemma_virtual_index_outside_container(
    pointer_client_y: int,
    container_top: int,
    container_bottom: int,
    container_scroll_top: int,
    item_height: nat,
    len: nat,
)
    requires
        item_height > 0,
        len > 0,
        container_top <= container_bottom,
    ensures
        pointer_client_y < container_top && container_scroll_top <= 0 ==> spec_virtual_index(
            spec_relative_y(pointer_client_y, container_top, container_scroll_top),
            item_height,
            len,
        ) == 0,
        pointer_client_y > container_bottom && (container_bottom - container_top)
            + container_scroll_top >= len * item_height ==> spec_virtual_index(
            spec_relative_y(pointer_client_y, container_top, container_scroll_top),
            item_height,
            len,
        ) == len - 1,
{
    let relative_y = spec_relative_y(pointer_client_y, container_top, container_scroll_top);
    lemma_virtual_index_clamps(relative_y, item_height, len);
    assert((len - 1) * item_height <= len * item_height) by (nonlinear_arith)
        requires
            len >= 1,
    ;
}

/// Index of the first tagged element among the element under the pointer
/// and its first ten ancestors, where `chain[0]` is that element and each
/// next one its parent.
pub open spec fn is_nearest_tag<T>(chain: Seq<Option<T>>, index: int) -> bool {
    &&& 0 <= index < chain.len()
    &&& index <= 10
    &&& chain[index] is Some
    &&& forall|j: int| 0 <= j < index ==> chain[j] is None
}

/// Whether none of the element under the pointer and its first ten
/// ancestors is tagged.
pub open spec fn no_tag_in_reach<T>(chain: Seq<Option<T>>) -> bool {
    forall|j: int| 0 <= j < chain.len() && j <= 10 ==> chain[j] is None
}

/// Searches for the tagged element nearest to the one under the pointer:
/// `chain` holds the tag of that element, then of its parent, and so on
/// upwards.  The search climbs at most ten parents, however long the chain.
pub fn nearest_tag<T>(chain: &Vec<Option<T>>) -> (found: Option<usize>)
    ensures
        match found {
            Some(index) => is_nearest_tag(chain@, index as int),
            None => no_tag_in_reach(chain@),
        },
{
    let mut hops: usize = 0;
    while hops < chain.len() && hops <= MAX_ANCESTOR_HOPS
        invariant
            0 <= hops <= chain.len(),
            hops <= MAX_ANCESTOR_HOPS + 1,
            forall|j: int| 0 <= j < hops ==> chain@[j] is None,
        decreases chain.len() - hops,
    {
        if chain[hops].is_some() {
            return Some(hops);
        }
        hops += 1;
    }
    None
}

/// Whether the walk from the element under the pointer goes on to the
/// parent: the element is not tagged, it has a parent, and fewer than ten
/// parents were climbed.
pub fn should_climb(tagged: bool, has_parent: bool, hops: usize) -> (climb: bool)
    ensures
        climb == spec_should_climb(tagged, has_parent, hops as int),
{
    !tagged && has_parent && hops < MAX_ANCESTOR_HOPS
}

/// Whether a walk that stands at an element goes on to its parent.
pub open spec fn spec_should_climb(tagged: bool, has_parent: bool, hops: int) -> bool {
    !tagged && has_parent && hops < 10
}

/// Where a walk ends that stands at index `at` of `chain` after as many
/// hops, and goes on as long as it should.
pub open spec fn spec_walk_end<T>(chain: Seq<Option<T>>, at: int) -> int
    decreases chain.len() - at,
{
    if 0 <= at < chain.len() && spec_should_climb(chain[at] is Some, at + 1 < chain.len(), at) {
        spec_walk_end(chain, at + 1)
    } else {
        at
    }
}

/// The walk finds what the search finds: it ends on the nearest tagged
/// element where one is in reach, and on an untagged element where none
/// is.
pub proof fn lemma_walk_finds_nearest_tag<T>(chain: Seq<Option<T>>, at: int)
    requires
        0 <= at < chain.len(),
        at <= 10,
        forall|j: int| 0 <= j < at ==> chain[j] is None,
    ensures
        at <= spec_walk_end(chain, at) < chain.len(),
        spec_walk_end(chain, at) <= 10,
        chain[spec_walk_end(chain, at)] is Some ==> is_nearest_tag(
            chain,
            spec_walk_end(chain, at),
        ),
        chain[spec_walk_end(chain, at)] is None ==> no_tag_in_reach(chain),
    decreases chain.len() - at,
{
    if spec_should_climb(chain[at] is Some, at + 1 < chain.len(), at) {
        lemma_walk_finds_nearest_tag(chain, at + 1);
    }
}

/// Where the pointer is over a container that holds no mounted item there.
#[derive(Debug, Clone, Copy, PartialEq, Eq, Structural)]
pub struct SpacerGeometry {
    /// Height of the pointer in the viewport.
    pub pointer_client_y: i32,
    /// Height of the container's top edge in the viewport.
    pub container_top: i32,
    /// How far the container is scrolled.
    pub container_scroll_top: i32,
    /// Full height of one item.
    pub item_height: u64,
}

/// What was found under the pointer when the dragged item was dropped.
#[derive(Debug, Clone, Copy, PartialEq, Eq, Structural)]
pub enum DropPoint {
    /// A mounted element tagged with this item identifier.
    Item(i32),
    /// A tagged element whose tag is not an item identifier.
    Unreadable,
    /// No tagged element: the pointer is over a spacer of this container.
    Spacer(SpacerGeometry),
    /// No tagged element, and no container that could be measured.
    Nowhere,
}

impl DropPoint {
    /// A drop point can be resolved when the items it measures against
    /// have a height.
    pub open spec fn wf(self) -> bool {
        match self {
            DropPoint::Spacer(g) => g.item_height > 0,
            _ => true,
        }
    }
}

/// What a drop lands on: the tagged element where the walk found one,
/// whatever its tag says; else the spacer, where the container could be
/// measured; else nothing.
pub open spec fn spec_locate(tag: Option<Seq<char>>, spacer: Option<SpacerGeometry>) -> DropPoint {
    match tag {
        Some(text) => spec_tagged_point(text),
        None => match spacer {
            Some(g) => DropPoint::Spacer(g),
            None => DropPoint::Nowhere,
        },
    }
}

/// Decides what a drop lands on.  `tag` is the tag of the element the
/// walk stopped at, if it has one; `spacer` is the geometry of the
/// container, if it could be measured.  A tag is final: an unreadable one
/// is not made up for by the geometry.
pub fn locate_drop(tag: Option<&str>, spacer: Option<SpacerGeometry>) -> (point: DropPoint)
    requires
        spacer matches Some(g) ==> g.item_height > 0,
    ensures
        point == spec_locate(
            match tag {
                Some(text) => Some(text@),
                None => None,
            },
            spacer,
        ),
        point.wf(),
{
    match tag {
        Some(text) => drop_point_for_tag(text),
        None => match spacer {
            Some(g) => DropPoint::Spacer(g),
            None => DropPoint::Nowhere,
        },
    }
}

/// What the tag of an element says of the drop: the item it names, or
/// that it names none.
pub open spec fn spec_tagged_point(tag: Seq<char>) -> DropPoint {
    match spec_parse_item_id(tag) {
        Some(id) => DropPoint::Item(id),
        None => DropPoint::Unreadable,
    }
}

/// The drop point for a tagged element found under the pointer.
pub fn drop_point_for_tag(tag: &str) -> (point: DropPoint)
    ensures
        point == spec_tagged_point(tag@),
        point.wf(),
{
    match parse_item_id(tag) {
        Some(id) => DropPoint::Item(id),
        None => DropPoint::Unreadable,
    }
}

/// The index at which `dragged_id` is dropped among `ids`, if `point`
/// names one.  A mounted item gives its own position, unless it is the
/// dragged item itself; a spacer gives the virtual index; nothing else
/// gives an index.
pub open spec fn spec_resolve_target(ids: Seq<i32>, dragged_id: i32, point: DropPoint) -> Option<int> {
    match point {
        DropPoint::Item(target_id) => if target_id != dragged_id {
            spec_position(ids, target_id)
        } else {
            None
        },
        DropPoint::Unreadable => None,
        DropPoint::Spacer(g) => Some(
            spec_virtual_index(
                spec_relative_y(
                    g.pointer_client_y as int,
                    g.container_top as int,
                    g.container_scroll_top as int,
                ),
                g.item_height as nat,
                ids.len(),
            ) as int,
        ),
        DropPoint::Nowhere => None,
    }
}

/// The index at which `dragged_id` is dropped in `collection`, if `point`
/// names one.
pub fn resolve_target(collection: &Vec<Episode>, dragged_id: i32, point: DropPoint) -> (target: Option<usize>)
    requires
        point.wf(),
    ensures
        match target {
            Some(index) => spec_resolve_target(spec_ids(collection@), dragged_id, point) == Some(
                index as int,
            ),
            None => spec_resolve_target(spec_ids(collection@), dragged_id, point) is None,
        },
        target matches Some(index) ==> index < collection@.len() || collection@.len() == 0,
{
    match point {
        DropPoint::Item(target_id) => {
            if target_id != dragged_id {
                position_of(collection, target_id)
            } else {
                None
            }
        },
        DropPoint::Unreadable => None,
        DropPoint::Spacer(g) => {
            Some(
                virtual_index(
                    g.pointer_client_y,
                    g.container_top,
                    g.container_scroll_top,
                    g.item_height,
                    collection.len(),
                ),
            )
        },
        DropPoint::Nowhere => None,
    }
}

/// The collection after `dragged` was dropped at `point`: reordered where
/// an item is being dragged and the point names an index, else unchanged.
pub open spec fn spec_drop(items: Seq<Episode>, dragged: Option<i32>, point: DropPoint) -> Seq<Episode> {
    match dragged {
        None => items,
        Some(dragged_id) => match spec_resolve_target(spec_ids(items), dragged_id, point) {
            None => items,
            Some(target) => spec_reorder(items, dragged_id, target),
        },
    }
}

/// Whether dropping `dragged` at `point` moves an item, so that the new
/// order has to be stored.
pub open spec fn spec_drop_moves(items: Seq<Episode>, dragged: Option<i32>, point: DropPoint) -> bool {
    match dragged {
        None => false,
        Some(dragged_id) => match spec_resolve_target(spec_ids(items), dragged_id, point) {
            None => false,
            Some(target) => spec_moves(items, dragged_id, target),
        },
    }
}

/// What a drop leaves behind.
#[derive(Debug)]
pub struct DropOutcome {
    /// The collection, in its new order where an item moved.
    pub collection: Vec<Episode>,
    /// Where an item moved: every identifier of the collection, in the new
    /// order, for the server to store.
    pub persist: Option<Vec<i32>>,
}

/// The identity of the item being dragged, from drag start to drop.
#[derive(Debug, Clone, Copy, PartialEq, Eq, Structural)]
pub struct DragState {
    /// The dragged item, while a drag is under way.
    pub dragged_id: Option<i32>,
}

impl DragState {
    /// Whether a drag is under way.
    pub open spec fn is_dragging(self) -> bool {
        self.dragged_id is Some
    }

    /// The state with no drag under way.
    pub fn new() -> (state: DragState)
        ensures
            state.dragged_id is None,
    {
        DragState { dragged_id: None }
    }

    /// Starts dragging the item `id`.  Whatever was recorded before is
    /// forgotten: one item at most is dragged at a time.
    pub fn start(&mut self, id: i32)
        ensures
            final(self).dragged_id == Some(id),
    {
        self.dragged_id = Some(id);
    }

    /// Ends the drag without a drop.
    pub fn cancel(&mut self)
        ensures
            final(self).dragged_id is None,
    {
        self.dragged_id = None;
    }

    /// Drops the dragged item at `point` and ends the drag.
    ///
    /// The collection comes back reordered where an item is being dragged,
    /// the point names an index, and the item does not already stand
    /// there; then the identifiers to store come with it.  In every other
    /// case the collection comes back as it was and nothing is to be
    /// stored.  The drag is over afterwards either way.
    pub fn drop(&mut self, collection: Vec<Episode>, point: DropPoint) -> (outcome: DropOutcome)
        requires
            point.wf(),
        ensures
            final(self).dragged_id is None,
            outcome.collection@ == spec_drop(collection@, old(self).dragged_id, point),
            outcome.collection@.len() == collection@.len(),
            outcome.collection@.to_multiset() == collection@.to_multiset(),
            outcome.persist is Some <==> spec_drop_moves(collection@, old(self).dragged_id, point),
            outcome.persist matches Some(ids) ==> ids@ == spec_ids(outcome.collection@),
            outcome.persist is None ==> outcome.collection@ == collection@,
    {
        let dragged: Option<i32> = self.dragged_id;
        self.dragged_id = None;
        let dragged_id: i32 = match dragged {
            Some(id) => id,
            None => {
                return DropOutcome { collection, persist: None };
            },
        };
        let target: usize = match resolve_target(&collection, dragged_id, point) {
            Some(index) => index,
            None => {
                return DropOutcome { collection, persist: None };
            },
        };
        let moves: bool = match position_of(&collection, dragged_id) {
            Some(from) => from != target,
            None => false,
        };
        proof {
            lemma_reorder_is_permutation(collection@, dragged_id, target as int);
        }
        let reordered = reorder(collection, dragged_id, target);
        if moves {
            let ids = episode_ids(&reordered);
            DropOutcome { collection: reordered, persist: Some(ids) }
        } else {
            DropOutcome { collection: reordered, persist: None }
        }
    }
}

} // verus!
