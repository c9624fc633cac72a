//! The owner of one list: its collection, its geometry, its scroll
//! position and the drag under way.  Events come in as commands, one at a
//! time; each leaves the state ready to be drawn and says what the host has
//! to do next.

use crate::drag::{spec_drop, spec_drop_moves, DragState, DropPoint};
use crate::geometry::GeometryProvider;
use crate::membership::{remove_episode, spec_is_other};
use crate::reorder::spec_ids;
use crate::requests::episode::Episode;
use crate::resize::LayoutEpoch;
use crate::scroll::ScrollTracker;
use crate::window::{compute_window, spec_visible_count, spec_window, ListWindow, BUFFER_SIZE};
use vstd::prelude::*;

verus! {

/// An event the list takes.
#[derive(Debug)]
pub enum Command {
    /// The collection was loaded anew.
    Loaded(Vec<Episode>),
    /// The item with this identifier left the collection.
    Removed(i32),
    /// The container scrolled to this offset.
    Scrolled(u64),
    /// The frame that was asked for has come.
    Frame,
    /// The viewport now measures `width` by `height`.
    Resized { width: u64, height: u64 },
    /// The item with this identifier is being dragged.
    DragStarted(i32),
    /// The dragged item was dropped at this point.
    Dropped(DropPoint),
    /// The view is gone.
    Unmounted,
}

/// What the host has to do after a command.
#[derive(Debug, PartialEq)]
pub enum Effect {
    /// Nothing.
    Nothing,
    /// Ask for the next frame and send `Command::Frame` when it comes.
    RequestFrame,
    /// Draw the list again.
    Render,
    /// Draw the list again and ask the server to store this order.
    Persist(Vec<i32>),
}

/// Everything one list owns.
#[derive(Debug)]
pub struct ListState {
    /// The collection, in its authoritative order.
    pub episodes: Vec<Episode>,
    /// Where item heights come from.
    pub provider: GeometryProvider,
    /// The geometry in effect.
    pub epoch: LayoutEpoch,
    /// The scroll position and the update in flight.
    pub tracker: ScrollTracker,
    /// The drag under way.
    pub drag: DragState,
}

impl ListState {
    /// A list can be drawn when its geometry gives items a height.
    pub open spec fn wf(&self) -> bool {
        self.epoch.wf()
    }

    /// The window this state is drawn with.
    pub open spec fn spec_current_window(&self) -> ListWindow {
        spec_window(
            self.tracker.published as nat,
            self.epoch.viewport.item_height as nat,
            self.epoch.viewport.container_height as nat,
            BUFFER_SIZE as nat,
            self.episodes@.len(),
        )
    }

    /// An empty list that was neither measured nor scrolled.
    pub fn new(provider: GeometryProvider) -> (state: ListState)
        ensures
            state.wf(),
            state.episodes@.len() == 0,
            state.provider == provider,
            state.epoch == LayoutEpoch::spec_unmeasured(),
            state.tracker == ScrollTracker::spec_new(),
            state.drag.dragged_id is None,
    {
        ListState {
            episodes: Vec::new(),
            provider,
            epoch: LayoutEpoch::unmeasured(),
            tracker: ScrollTracker::new(),
            drag: DragState::new(),
        }
    }

    /// The window to draw: it lies inside the collection, and its spacers
    /// and mounted items are together as tall as the whole collection.
    pub fn current_window(&self) -> (window: ListWindow)
        requires
            self.wf(),
        ensures
            window == self.spec_current_window(),
            window.start <= window.end <= self.episodes@.len(),
            window.end - window.start <= spec_visible_count(
                self.epoch.viewport.container_height as nat,
                self.epoch.viewport.item_height as nat,
            ) + 2 * BUFFER_SIZE,
            window.top_spacer + window.bottom_spacer + (window.end - window.start)
                * self.epoch.viewport.item_height == self.episodes@.len()
                * self.epoch.viewport.item_height,
    {
        compute_window(
            self.tracker.published,
            self.epoch.viewport.item_height,
            self.epoch.viewport.container_height,
            BUFFER_SIZE,
            self.episodes.len(),
        )
    }

    /// Takes one command.
    ///
    /// A load replaces the collection and a removal takes one item out of
    /// it.  A scroll and a frame go to the
    /// tracker: the list is drawn again only when a frame publishes a new
    /// offset.  A resize measures the geometry anew and starts a new epoch.
    /// A drag start records the item; a drop ends the drag, reorders the
    /// collection where the drop names a new place for the item, and only
    /// then asks to store the order.  After a command the list can still be
    /// drawn, and only a load or a removal changes which items it holds.
    pub fn apply(&mut self, command: Command) -> (effect: Effect)
        requires
            old(self).wf(),
            command matches Command::Dropped(point) ==> point.wf(),
        ensures
            final(self).wf(),
            final(self).provider == old(self).provider,
            match command {
                Command::Loaded(episodes) => {
                    &&& final(self).episodes@ == episodes@
                    &&& final(self).epoch == old(self).epoch
                    &&& final(self).tracker == old(self).tracker
                    &&& final(self).drag == old(self).drag
                    &&& effect == Effect::Render
                },
                Command::Removed(id) => {
                    &&& final(self).episodes@ == old(self).episodes@.filter(spec_is_other(id))
                    &&& final(self).epoch == old(self).epoch
                    &&& final(self).tracker == old(self).tracker
                    &&& final(self).drag == old(self).drag
                    &&& effect == Effect::Render
                },
                Command::Scrolled(offset) => {
                    &&& final(self).episodes@ == old(self).episodes@
                    &&& final(self).epoch == old(self).epoch
                    &&& final(self).drag == old(self).drag
                    &&& final(self).tracker == old(self).tracker.spec_on_scroll(offset).0
                    &&& effect == if old(self).tracker.spec_on_scroll(offset).1 {
                        Effect::RequestFrame
                    } else {
                        Effect::Nothing
                    }
                },
                Command::Frame => {
                    &&& final(self).episodes@ == old(self).episodes@
                    &&& final(self).epoch == old(self).epoch
                    &&& final(self).drag == old(self).drag
                    &&& final(self).tracker == old(self).tracker.spec_on_frame().0
                    &&& effect == if old(self).tracker.spec_on_frame().1 is Some {
                        Effect::Render
                    } else {
                        Effect::Nothing
                    }
                },
                Command::Resized { width, height } => {
                    &&& final(self).episodes@ == old(self).episodes@
                    &&& final(self).tracker == old(self).tracker
                    &&& final(self).drag == old(self).drag
                    &&& final(self).epoch == old(self).epoch.spec_on_resize(
                        old(self).provider,
                        width as nat,
                        height as nat,
                    )
                    &&& final(self).epoch.generation != old(self).epoch.generation
                    &&& effect == Effect::Render
                },
                Command::DragStarted(id) => {
                    &&& final(self).episodes@ == old(self).episodes@
                    &&& final(self).epoch == old(self).epoch
                    &&& final(self).tracker == old(self).tracker
                    &&& final(self).drag.dragged_id == Some(id)
                    &&& effect == Effect::Nothing
                },
                Command::Dropped(point) => {
                    &&& final(self).episodes@ == spec_drop(
                        old(self).episodes@,
                        old(self).drag.dragged_id,
                        point,
                    )
                    &&& final(self).episodes@.to_multiset() == old(self).episodes@.to_multiset()
                    &&& final(self).epoch == old(self).epoch
                    &&& final(self).tracker == old(self).tracker
                    &&& final(self).drag.dragged_id is None
                    &&& if spec_drop_moves(old(self).episodes@, old(self).drag.dragged_id, point) {
                        effect matches Effect::Persist(ids) && ids@ == spec_ids(
                            final(self).episodes@,
                        )
                    } else {
                        effect == Effect::Nothing
                    }
                },
                Command::Unmounted => {
                    &&& final(self).episodes@ == old(self).episodes@
                    &&& final(self).epoch == old(self).epoch
                    &&& final(self).tracker == old(self).tracker.spec_teardown()
                    &&& final(self).drag.dragged_id is None
                    &&& effect == Effect::Nothing
                },
            },
    {
        match command {
            Command::Loaded(episodes) => {
                self.episodes = episodes;
                Effect::Render
            },
            Command::Removed(id) => {
                remove_episode(&mut self.episodes, id);
                Effect::Render
            },
            Command::Scrolled(offset) => {
                if self.tracker.on_scroll(offset) {
                    Effect::RequestFrame
                } else {
                    Effect::Nothing
                }
            },
            Command::Frame => {
                match self.tracker.on_frame() {
                    Some(_) => Effect::Render,
                    None => Effect::Nothing,
                }
            },
            Command::Resized { width, height } => {
                self.epoch.on_resize(self.provider, width, height);
                Effect::Render
            },
            Command::DragStarted(id) => {
                self.drag.start(id);
                Effect::Nothing
            },
            Command::Dropped(point) => {
                let mut episodes: Vec<Episode> = Vec::new();
                std::mem::swap(&mut self.episodes, &mut episodes);
                let outcome = self.drag.drop(episodes, point);
                self.episodes = outcome.collection;
                match outcome.persist {
                    Some(ids) => Effect::Persist(ids),
                    None => Effect::Nothing,
                }
            },
            Command::Unmounted => {
                self.tracker.teardown();
                self.drag.cancel();
                Effect::Nothing
            },
        }
    }
}

} // verus!
