//! The scroll position tracker.  It takes the scroll container's events and
//! publishes an offset to the window calculator at most once per frame.
//!
//! Publishing an offset changes the spacers, which makes the container fire
//! scroll events of its own.  The tracker therefore keeps a single update in
//! flight: the first new offset asks the host for a frame, offsets that
//! arrive before the frame replace the waiting one, and the frame publishes
//! whichever is latest.  After teardown nothing is published any more.

use vstd::prelude::*;

verus! {

/// Whether an update waits for its frame.
#[derive(Debug, Clone, Copy, PartialEq, Eq, Structural)]
pub enum TrackerPhase {
    /// No frame is requested.
    Idle,
    /// A frame is requested; it will publish `pending`.
    Applying { pending: u64 },
}

/// The tracker's whole state.
#[derive(Debug, Clone, Copy, PartialEq, Eq, Structural)]
pub struct ScrollTracker {
    /// The offset published last.
    pub published: u64,
    /// Whether a frame is awaited, and with which offset.
    pub phase: TrackerPhase,
    /// False once the owning view is gone.
    pub alive: bool,
}

impl ScrollTracker {
    /// The tracker of a view that was just mounted, at the top of its list.
    pub open spec fn spec_new() -> ScrollTracker {
        ScrollTracker { published: 0, phase: TrackerPhase::Idle, alive: true }
    }

    /// The state after a scroll event at `offset`, and whether the host must
    /// be asked for a frame.
    pub open spec fn spec_on_scroll(self, offset: u64) -> (ScrollTracker, bool) {
        if !self.alive {
            (self, false)
        } else {
            match self.phase {
                TrackerPhase::Idle => {
                    if offset != self.published {
                        (
                            ScrollTracker {
                                phase: TrackerPhase::Applying { pending: offset },
                                ..self
                            },
                            true,
                        )
                    } else {
                        (self, false)
                    }
                },
                TrackerPhase::Applying { .. } => (
                    ScrollTracker { phase: TrackerPhase::Applying { pending: offset }, ..self },
                    false,
                ),
            }
        }
    }

    /// The state after the requested frame, and the offset it publishes.
    pub open spec fn spec_on_frame(self) -> (ScrollTracker, Option<u64>) {
        if !self.alive {
            (self, None)
        } else {
            match self.phase {
                TrackerPhase::Idle => (self, None),
                TrackerPhase::Applying { pending } => (
                    ScrollTracker { published: pending, phase: TrackerPhase::Idle, ..self },
                    if pending != self.published {
                        Some(pending)
                    } else {
                        None
                    },
                ),
            }
        }
    }

    /// The state after the owning view is unmounted.
    pub open spec fn spec_teardown(self) -> ScrollTracker {
        ScrollTracker { alive: false, ..self }
    }

    /// The state after the scroll events `offsets`, in order.
    pub open spec fn spec_on_scrolls(self, offsets: Seq<u64>) -> ScrollTracker
        decreases offsets.len(),
    {
        if offsets.len() == 0 {
            self
        } else {
            self.spec_on_scrolls(offsets.drop_last()).spec_on_scroll(offsets.last()).0
        }
    }

    /// The tracker of a view that was just mounted.
    pub fn new() -> (tracker: ScrollTracker)
        ensures
            tracker == ScrollTracker::spec_new(),
    {
        ScrollTracker { published: 0, phase: TrackerPhase::Idle, alive: true }
    }

    /// Takes a scroll event at `offset`.  Returns true when the host must be
    /// asked for a frame: the tracker was idle and the offset is new.  While
    /// a frame is awaited the offset replaces the waiting one and no second
    /// frame is asked for.
    pub fn on_scroll(&mut self, offset: u64) -> (request_frame: bool)
        ensures
            (*final(self), request_frame) == old(self).spec_on_scroll(offset),
            request_frame ==> old(self).phase is Idle && final(self).phase is Applying,
            final(self).published == old(self).published,
    {
        if !self.alive {
            return false;
        }
        match self.phase {
            TrackerPhase::Idle => {
                if offset != self.published {
                    self.phase = TrackerPhase::Applying { pending: offset };
                    true
                } else {
                    false
                }
            },
            TrackerPhase::Applying { .. } => {
                self.phase = TrackerPhase::Applying { pending: offset };
                false
            },
        }
    }

    /// Runs the frame that was asked for.  Returns the offset to hand to the
    /// window calculator, if the latest offset differs from the one
    /// published last.  A frame that arrives after teardown, or that nobody
    /// asked for, changes nothing.
    pub fn on_frame(&mut self) -> (publish: Option<u64>)
        ensures
            (*final(self), publish) == old(self).spec_on_frame(),
            publish matches Some(offset) ==> offset != old(self).published
                && final(self).published == offset,
            old(self).alive ==> final(self).phase is Idle,
    {
        if !self.alive {
            return None;
        }
        match self.phase {
            TrackerPhase::Idle => None,
            TrackerPhase::Applying { pending } => {
                let changed: bool = pending != self.published;
                self.published = pending;
                self.phase = TrackerPhase::Idle;
                if changed {
                    Some(pending)
                } else {
                    None
                }
            },
        }
    }

    /// Ends the subscription: from now on every event is ignored.
    pub fn teardown(&mut self)
        ensures
            *final(self) == old(self).spec_teardown(),
            !final(self).alive,
    {
        self.alive = false;
    }

    /// While a frame is awaited, no scroll event asks for another.
    pub proof fn lemma_single_frame_in_flight(self, first: u64, second: u64)
        requires
            self.spec_on_scroll(first).1,
        ensures
            !self.spec_on_scroll(first).0.spec_on_scroll(second).1,
            self.spec_on_scroll(first).0.spec_on_scroll(second).0.phase
                == (TrackerPhase::Applying { pending: second }),
    {
    }

    /// Scroll events never end a wait: a tracker that awaits a frame still
    /// awaits it after any number of them.
    pub proof fn lemma_scrolls_keep_waiting(self, offsets: Seq<u64>)
        requires
            self.alive,
            self.phase is Applying,
        ensures
            self.spec_on_scrolls(offsets).alive,
            self.spec_on_scrolls(offsets).phase is Applying,
            self.spec_on_scrolls(offsets).published == self.published,
        decreases offsets.len(),
    {
        if offsets.len() > 0 {
            self.lemma_scrolls_keep_waiting(offsets.drop_last());
        }
    }

    /// Scroll events change neither the published offset nor liveness.
    pub proof fn lemma_scrolls_publish_nothing(self, offsets: Seq<u64>)
        ensures
            self.spec_on_scrolls(offsets).published == self.published,
            self.spec_on_scrolls(offsets).alive == self.alive,
        decreases offsets.len(),
    {
        if offsets.len() > 0 {
            self.lemma_scrolls_publish_nothing(offsets.drop_last());
        }
    }

    /// The latest offset wins: after any scroll events, the next frame leaves
    /// the last of their offsets published, whatever came between.
    pub proof fn lemma_converges_to_latest(self, offsets: Seq<u64>)
        requires
            self.alive,
            offsets.len() > 0,
        ensures
            self.spec_on_scrolls(offsets).spec_on_frame().0.published == offsets.last(),
            self.spec_on_scrolls(offsets).spec_on_frame().0.phase is Idle,
    {
        self.lemma_scrolls_publish_nothing(offsets.drop_last());
    }

    /// After teardown a scroll event and a frame both leave the tracker as it
    /// is, ask for nothing and publish nothing.
    pub proof fn lemma_teardown_is_final(self, offset: u64)
        ensures
            self.spec_teardown().spec_on_scroll(offset) == (self.spec_teardown(), false),
            self.spec_teardown().spec_on_frame() == (self.spec_teardown(), None::<u64>),
    {
    }
}

} // verus!
