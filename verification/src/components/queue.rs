//! The queue page: the one list whose order the listener can change by
//! dragging.

use crate::components::context_menu_button::PageType;
use crate::components::virtual_list::{DragCallbacks, VirtualListProps};
use crate::requests::episode::Episode;
use vstd::prelude::*;

verus! {

/// What the queue page hands to its list.
#[derive(Debug)]
pub struct VirtualQueueListProps {
    /// The queued episodes, in queue order.
    pub episodes: Vec<Episode>,
}

/// The windowed list of the queue page: the queued episodes in their
/// order, drawn for the queue, with every drag handler set.
pub fn virtual_queue_list(props: VirtualQueueListProps) -> (list: VirtualListProps)
    ensures
        list.episodes@ == props.episodes@,
        list.page_type == PageType::Queue,
        list.drag_callbacks == (DragCallbacks {
            ondragstart: true,
            ondragenter: true,
            ondragover: true,
            ondrop: true,
        }),
        list.drag_callbacks.spec_draggable(),
{
    VirtualListProps {
        episodes: props.episodes,
        page_type: PageType::Queue,
        drag_callbacks: DragCallbacks {
            ondragstart: true,
            ondragenter: true,
            ondragover: true,
            ondrop: true,
        },
    }
}

/// What the queue page shows.
#[derive(Debug, Clone, Copy, PartialEq, Eq, Structural)]
pub enum QueueView {
    /// The loading animation.
    Loading,
    /// A notice that nothing is queued, for a queue that was loaded and
    /// is empty.
    NothingQueued,
    /// A notice that nothing is queued, for a queue that was never loaded.
    NeverLoaded,
    /// The windowed list of the queued episodes.
    List,
}

/// What the queue page shows while `loading` says whether the queue is
/// still being fetched and `queued` is the queue as the store holds it.
pub open spec fn spec_queue(loading: bool, queued: Option<Seq<Episode>>) -> QueueView {
    if loading {
        QueueView::Loading
    } else {
        match queued {
            Some(episodes) => if episodes.len() == 0 {
                QueueView::NothingQueued
            } else {
                QueueView::List
            },
            None => QueueView::NeverLoaded,
        }
    }
}

/// Decides what the queue page shows.
pub fn queue(loading: bool, queued: Option<&Vec<Episode>>) -> (view: QueueView)
    ensures
        view == spec_queue(
            loading,
            match queued {
                Some(episodes) => Some(episodes@),
                None => None,
            },
        ),
{
    if loading {
        QueueView::Loading
    } else {
        match queued {
            Some(episodes) => {
                if episodes.len() == 0 {
                    QueueView::NothingQueued
                } else {
                    QueueView::List
                }
            },
            None => QueueView::NeverLoaded,
        }
    }
}

} // verus!
