//! The windowed list: from the whole collection, the scroll position and
//! the geometry in effect to the few items that are mounted, each with its
//! key, and the two spacers that stand for all the others.

use crate::components::context_menu_button::PageType;
use crate::geometry::WidthClass;
use crate::requests::episode::Episode;
use crate::resize::LayoutEpoch;
use crate::text::{
    decimal, is_digit, lemma_decimal_injective, lemma_decimal_value,
    lemma_signed_decimal_injective, signed_decimal, spec_decimal, spec_signed_decimal,
};
use crate::window::{compute_window, spec_window, ListWindow, BUFFER_SIZE};
use vstd::prelude::*;
use vstd::string::StringExecFns;

verus! {

/// Which drag events of an item the page listens to.
#[derive(Debug, Clone, Copy, PartialEq, Eq, Structural, Default)]
pub struct DragCallbacks {
    /// A handler for the start of a drag is set.
    pub ondragstart: bool,
    /// A handler for a drag entering an item is set.
    pub ondragenter: bool,
    /// A handler for a drag moving over an item is set.
    pub ondragover: bool,
    /// A handler for a drop is set.
    pub ondrop: bool,
}

impl DragCallbacks {
    /// Whether any handler is set.
    pub open spec fn spec_draggable(self) -> bool {
        self.ondragstart || self.ondragenter || self.ondragover || self.ondrop
    }

    /// An item can be dragged where any handler is set.
    pub fn draggable(&self) -> (draggable: bool)
        ensures
            draggable == self.spec_draggable(),
    {
        self.ondragstart || self.ondragenter || self.ondragover || self.ondrop
    }

    /// No handler set: the list cannot be reordered.
    pub fn none() -> (callbacks: DragCallbacks)
        ensures
            !callbacks.spec_draggable(),
            callbacks == (DragCallbacks {
                ondragstart: false,
                ondragenter: false,
                ondragover: false,
                ondrop: false,
            }),
    {
        DragCallbacks { ondragstart: false, ondragenter: false, ondragover: false, ondrop: false }
    }
}

/// What a page hands to the windowed list.
#[derive(Debug)]
pub struct VirtualListProps {
    /// The whole collection, in its authoritative order.
    pub episodes: Vec<Episode>,
    /// The page the items are drawn for.
    pub page_type: PageType,
    /// The drag handlers the page has set.
    pub drag_callbacks: DragCallbacks,
}

/// One mounted item: where it stands in the collection, and the key it is
/// mounted under.
#[derive(Debug)]
pub struct MountedItem {
    /// Index of the item in the collection.
    pub index: usize,
    /// The item's identifier and the epoch number, joined by a hyphen.
    pub key: String,
}

/// What the windowed list draws.
#[derive(Debug)]
pub struct ListLayout {
    /// The mounted range and the spacers around it.
    pub window: ListWindow,
    /// The mounted items, in order.
    pub items: Vec<MountedItem>,
    /// The page the items are drawn for.
    pub page_type: PageType,
    /// The layout the items are drawn in.
    pub width_class: WidthClass,
    /// Whether the items can be dragged.
    pub draggable: bool,
}

/// The key of item `episode_id` in epoch `generation`.
pub open spec fn spec_item_key(episode_id: int, generation: nat) -> Seq<char> {
    spec_signed_decimal(episode_id) + seq!['-'] + spec_decimal(generation)
}

/// The key an item is mounted under: its identifier, a hyphen, and the
/// number of the geometry epoch.
pub fn item_key(episode_id: i32, generation: u64) -> (key: String)
    ensures
        key@ == spec_item_key(episode_id as int, generation as nat),
{
    proof {
        reveal_strlit("-");
    }
    let id_text: String = signed_decimal(episode_id);
    let epoch_text: String = decimal(generation);
    let key: String = id_text.concat("-").concat(epoch_text.as_str());
    assert("-"@ =~= seq!['-']);
    key
}

/// A key names one item in one epoch: two keys are the same only for the
/// same identifier and the same epoch number.
pub proof fn lemma_key_is_unique(first_id: int, first_epoch: nat, second_id: int, second_epoch: nat)
    requires
        spec_item_key(first_id, first_epoch) == spec_item_key(second_id, second_epoch),
    ensures
        first_id == second_id,
        first_epoch == second_epoch,
{
    let a = spec_item_key(first_id, first_epoch);
    let b = spec_item_key(second_id, second_epoch);
    let head_a = spec_signed_decimal(first_id);
    let head_b = spec_signed_decimal(second_id);
    let tail_a = spec_decimal(first_epoch);
    let tail_b = spec_decimal(second_epoch);
    lemma_decimal_value(first_epoch);
    lemma_decimal_value(second_epoch);
    assert(a.len() == head_a.len() + 1 + tail_a.len());
    assert(b.len() == head_b.len() + 1 + tail_b.len());
    // The hyphen before the digits of the epoch stands at the same place
    // in both keys: where one key has it the other cannot have a digit.
    if tail_a.len() < tail_b.len() {
        let at = head_a.len() as int;
        assert(a[at] == '-');
        assert(b[at] == tail_b[at - head_b.len() - 1]);
        assert(is_digit(tail_b[at - head_b.len() - 1]));
    } else if tail_b.len() < tail_a.len() {
        let at = head_b.len() as int;
        assert(b[at] == '-');
        assert(a[at] == tail_a[at - head_a.len() - 1]);
        assert(is_digit(tail_a[at - head_a.len() - 1]));
    }
    assert(tail_a.len() == tail_b.len());
    assert(a.subrange(head_a.len() as int + 1, a.len() as int) =~= tail_a);
    assert(b.subrange(head_b.len() as int + 1, b.len() as int) =~= tail_b);
    lemma_decimal_injective(first_epoch, second_epoch);
    assert(a.subrange(0, head_a.len() as int) =~= head_a);
    assert(b.subrange(0, head_b.len() as int) =~= head_b);
    lemma_signed_decimal_injective(first_id, second_id);
}

/// An item gets a new key with every epoch: a mounted item of an earlier
/// geometry is never taken for one of the current geometry.
pub proof fn lemma_key_changes_with_epoch(episode_id: int, earlier: nat, later: nat)
    requires
        earlier != later,
    ensures
        spec_item_key(episode_id, earlier) != spec_item_key(episode_id, later),
{
    if spec_item_key(episode_id, earlier) == spec_item_key(episode_id, later) {
        lemma_key_is_unique(episode_id, earlier, episode_id, later);
    }
}

/// Within one epoch, items with different identifiers have different keys.
pub proof fn lemma_key_tells_items_apart(first_id: int, second_id: int, generation: nat)
    requires
        first_id != second_id,
    ensures
        spec_item_key(first_id, generation) != spec_item_key(second_id, generation),
{
    if spec_item_key(first_id, generation) == spec_item_key(second_id, generation) {
        lemma_key_is_unique(first_id, generation, second_id, generation);
    }
}

/// What the windowed list draws for `props` when scrolled to
/// `scroll_offset` in the geometry of `epoch`: the window with its
/// spacers, and for each index of the window, in order, the item's key.
pub fn virtual_list(props: &VirtualListProps, scroll_offset: u64, epoch: &LayoutEpoch) -> (layout: ListLayout)
    requires
        epoch.wf(),
    ensures
        layout.window == spec_window(
            scroll_offset as nat,
            epoch.viewport.item_height as nat,
            epoch.viewport.container_height as nat,
            BUFFER_SIZE as nat,
            props.episodes@.len(),
        ),
        layout.window.start <= layout.window.end <= props.episodes@.len(),
        layout.window.top_spacer + layout.window.bottom_spacer + layout.items@.len()
            * epoch.viewport.item_height == props.episodes@.len() * epoch.viewport.item_height,
        layout.items@.len() == layout.window.end - layout.window.start,
        forall|i: int|
            0 <= i < layout.items@.len() ==> (#[trigger] layout.items@[i]).index
                == layout.window.start + i,
        forall|i: int|
            0 <= i < layout.items@.len() ==> (#[trigger] layout.items@[i]).key@ == spec_item_key(
                props.episodes@[layout.window.start + i].episodeid as int,
                epoch.generation as nat,
            ),
        layout.page_type == props.page_type,
        layout.width_class == epoch.viewport.width_class,
        layout.draggable == props.drag_callbacks.spec_draggable(),
{
    let window: ListWindow = compute_window(
        scroll_offset,
        epoch.viewport.item_height,
        epoch.viewport.container_height,
        BUFFER_SIZE,
        props.episodes.len(),
    );
    let mut items: Vec<MountedItem> = Vec::new();
    let mut index: usize = window.start;
    while index < window.end
        invariant
            window.start <= index <= window.end <= props.episodes@.len(),
            items@.len() == index - window.start,
            forall|i: int| 0 <= i < items@.len() ==> (#[trigger] items@[i]).index == window.start + i,
            forall|i: int|
                0 <= i < items@.len() ==> (#[trigger] items@[i]).key@ == spec_item_key(
                    props.episodes@[window.start + i].episodeid as int,
                    epoch.generation as nat,
                ),
        decreases window.end - index,
    {
        let key: String = item_key(props.episodes[index].episodeid, epoch.generation);
        items.push(MountedItem { index, key });
        index += 1;
    }
    ListLayout {
        window,
        items,
        page_type: props.page_type,
        width_class: epoch.viewport.width_class,
        draggable: props.drag_callbacks.draggable(),
    }
}

} // verus!
