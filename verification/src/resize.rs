//! The resize listener's state: the geometry in effect and the epoch it
//! belongs to.
//!
//! Spacer heights computed for one geometry are wrong for the next, and an
//! item mounted at one height must not be reused at another.  Every resize
//! therefore starts a new epoch, and item keys carry the epoch's number.

use crate::geometry::{GeometryProvider, ViewportState, WidthClass};
use vstd::prelude::*;

verus! {

/// Item height assumed before the viewport was measured for the first time.
pub const DEFAULT_ITEM_HEIGHT: u64 = 234;

/// The epoch number that follows `generation`.
pub open spec fn spec_next_generation(generation: u64) -> u64 {
    if generation == u64::MAX {
        0
    } else {
        (generation + 1) as u64
    }
}

/// The geometry in effect, and the number of the epoch it started.
#[derive(Debug, Clone, Copy, PartialEq, Eq, Structural)]
pub struct LayoutEpoch {
    /// The geometry of the most recent resize.
    pub viewport: ViewportState,
    /// How many resizes were processed.
    pub generation: u64,
}

impl LayoutEpoch {
    /// An epoch can lay a list out when its viewport can.
    pub open spec fn wf(self) -> bool {
        self.viewport.wf()
    }

    /// The epoch of a list that was not measured yet.
    pub open spec fn spec_unmeasured() -> LayoutEpoch {
        LayoutEpoch {
            viewport: ViewportState {
                container_height: 0,
                item_height: 234,
                width_class: WidthClass::Wide,
            },
            generation: 0,
        }
    }

    /// The epoch after a resize to `width` by `height`.
    pub open spec fn spec_on_resize(
        self,
        provider: GeometryProvider,
        width: nat,
        height: nat,
    ) -> LayoutEpoch {
        LayoutEpoch {
            viewport: ViewportState::spec_measure(provider, width, height),
            generation: spec_next_generation(self.generation),
        }
    }

    /// The epoch of a list that was not measured yet: no usable height, the
    /// default item height, epoch number zero.
    pub fn unmeasured() -> (epoch: LayoutEpoch)
        ensures
            epoch == LayoutEpoch::spec_unmeasured(),
            epoch.wf(),
    {
        LayoutEpoch {
            viewport: ViewportState {
                container_height: 0,
                item_height: DEFAULT_ITEM_HEIGHT,
                width_class: WidthClass::Wide,
            },
            generation: 0,
        }
    }

    /// Takes a resize to `width` by `height`: the geometry is measured anew
    /// and a new epoch begins.  The epoch number goes up by one; after the
    /// largest number it starts again at zero, so it always differs from
    /// the one before.
    pub fn on_resize(&mut self, provider: GeometryProvider, width: u64, height: u64)
        ensures
            *final(self) == old(self).spec_on_resize(provider, width as nat, height as nat),
            final(self).wf(),
            final(self).generation != old(self).generation,
            old(self).generation < u64::MAX ==> final(self).generation == old(self).generation + 1,
    {
        self.viewport = ViewportState::measure(provider, width, height);
        self.generation = self.generation.wrapping_add(1);
    }
}

} // verus!
