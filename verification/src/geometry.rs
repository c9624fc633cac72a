//! Viewport geometry: which of the three item heights is in effect for a
//! viewport width, and how much of the viewport height the list may use.
//!
//! All lengths are whole CSS pixels.  A caller that measures fractional
//! lengths rounds a width or a height up before asking: for whole
//! breakpoints and whole item heights the answers are the same.

use vstd::prelude::*;

verus! {

/// Widest viewport, in pixels, that still gets the narrow layout.
pub const NARROW_MAX_WIDTH: u64 = 530;

/// Widest viewport, in pixels, that still gets the medium layout.
pub const MEDIUM_MAX_WIDTH: u64 = 768;

/// Height of an item's content box in the narrow layout.
pub const NARROW_CONTENT_HEIGHT: u64 = 122;

/// Height of an item's content box in the medium layout.
pub const MEDIUM_CONTENT_HEIGHT: u64 = 150;

/// Height of an item's content box in the wide layout.
pub const WIDE_CONTENT_HEIGHT: u64 = 221;

/// Margin below every item, counted into its height.
pub const ITEM_MARGIN: u64 = 16;

/// Part of the viewport height taken by the fixed interface around the list.
pub const CHROME_ALLOWANCE: u64 = 100;

/// The three layouts an item can be drawn in.
#[derive(Debug, Clone, Copy, PartialEq, Eq, Structural)]
pub enum WidthClass {
    Narrow,
    Medium,
    Wide,
}

/// The layout in effect at viewport width `width`.
pub open spec fn spec_width_class(width: nat) -> WidthClass {
    if width <= 530 {
        WidthClass::Narrow
    } else if width <= 768 {
        WidthClass::Medium
    } else {
        WidthClass::Wide
    }
}

/// The full height of one item in layout `class`: content box plus margin.
pub open spec fn spec_class_height(class: WidthClass) -> nat {
    match class {
        WidthClass::Narrow => 138,
        WidthClass::Medium => 166,
        WidthClass::Wide => 237,
    }
}

/// The full height of one item at viewport width `width`.
pub open spec fn spec_item_height(width: nat) -> nat {
    spec_class_height(spec_width_class(width))
}

/// The height left for the list in a viewport `viewport_height` tall.
pub open spec fn spec_usable_height(viewport_height: nat) -> nat {
    if viewport_height <= 100 {
        0
    } else {
        (viewport_height - 100) as nat
    }
}

/// The height of an item whose content box was measured as
/// `content_height`.
pub open spec fn spec_measured_height(content_height: nat) -> nat {
    content_height + 16
}

impl WidthClass {
    /// The layout in effect at viewport width `width`.
    pub fn for_width(width: u64) -> (class: WidthClass)
        ensures
            class == spec_width_class(width as nat),
    {
        if width <= NARROW_MAX_WIDTH {
            WidthClass::Narrow
        } else if width <= MEDIUM_MAX_WIDTH {
            WidthClass::Medium
        } else {
            WidthClass::Wide
        }
    }

    /// The full height of one item in this layout.
    pub fn item_height(self) -> (height: u64)
        ensures
            height == spec_class_height(self),
            height > 0,
    {
        match self {
            WidthClass::Narrow => NARROW_CONTENT_HEIGHT + ITEM_MARGIN,
            WidthClass::Medium => MEDIUM_CONTENT_HEIGHT + ITEM_MARGIN,
            WidthClass::Wide => WIDE_CONTENT_HEIGHT + ITEM_MARGIN,
        }
    }
}

/// The full height of one item at viewport width `width`: one of 138, 166
/// and 237.
pub fn item_height_for(width: u64) -> (height: u64)
    ensures
        height == spec_item_height(width as nat),
        height == 138 || height == 166 || height == 237,
{
    WidthClass::for_width(width).item_height()
}

/// The height left for the list in a viewport `viewport_height` tall: the
/// viewport less the chrome allowance, and never below zero.
pub fn usable_height_for(viewport_height: u64) -> (height: u64)
    ensures
        height == spec_usable_height(viewport_height as nat),
{
    if viewport_height <= CHROME_ALLOWANCE {
        0
    } else {
        viewport_height - CHROME_ALLOWANCE
    }
}

/// The full height of an item whose content box was measured in the live
/// document as `content_height`: the measurement plus the item margin.
pub fn measured_item_height(content_height: u32) -> (height: u64)
    ensures
        height == spec_measured_height(content_height as nat),
        height > 0,
{
    let content: u64 = content_height as u64;
    content + ITEM_MARGIN
}

/// Where item heights come from.  The breakpoint table is the default; a
/// height measured in the live document takes its place where one is known.
#[derive(Debug, Clone, Copy, PartialEq, Eq, Structural)]
pub enum GeometryProvider {
    /// Heights from the three-breakpoint table.
    Breakpoints,
    /// The content box of a mounted item was measured at this many pixels.
    Measured(u32),
}

impl GeometryProvider {
    /// The item height this provider gives at viewport width `width`.
    pub open spec fn spec_item_height(self, width: nat) -> nat {
        match self {
            GeometryProvider::Breakpoints => spec_item_height(width),
            GeometryProvider::Measured(content) => spec_measured_height(content as nat),
        }
    }

    /// The item height this provider gives at viewport width `width`.
    pub fn item_height(self, width: u64) -> (height: u64)
        ensures
            height == self.spec_item_height(width as nat),
            height > 0,
    {
        match self {
            GeometryProvider::Breakpoints => item_height_for(width),
            GeometryProvider::Measured(content) => measured_item_height(content),
        }
    }
}

/// The geometry the list is laid out with between two resizes.
#[derive(Debug, Clone, Copy, PartialEq, Eq, Structural)]
pub struct ViewportState {
    /// Height of the scroll area.
    pub container_height: u64,
    /// Full height of one item.
    pub item_height: u64,
    /// The layout the item view draws in.
    pub width_class: WidthClass,
}

impl ViewportState {
    /// A viewport state can lay a list out when its items have a height.
    pub open spec fn wf(self) -> bool {
        self.item_height > 0
    }

    /// The state for a viewport of `width` by `height` pixels, as `provider`
    /// gives the item height.
    pub open spec fn spec_measure(provider: GeometryProvider, width: nat, height: nat) -> ViewportState {
        ViewportState {
            container_height: spec_usable_height(height) as u64,
            item_height: provider.spec_item_height(width) as u64,
            width_class: spec_width_class(width),
        }
    }

    /// The state for a viewport of `width` by `height` pixels, with item
    /// heights from the breakpoint table.
    pub fn for_viewport(width: u64, height: u64) -> (state: ViewportState)
        ensures
            state == ViewportState::spec_measure(GeometryProvider::Breakpoints, width as nat, height as nat),
            state.item_height == spec_class_height(state.width_class),
            state.wf(),
    {
        ViewportState::measure(GeometryProvider::Breakpoints, width, height)
    }

    /// The state for a viewport of `width` by `height` pixels, as `provider`
    /// gives the item height.
    pub fn measure(provider: GeometryProvider, width: u64, height: u64) -> (state: ViewportState)
        ensures
            state == ViewportState::spec_measure(provider, width as nat, height as nat),
            state.wf(),
    {
        ViewportState {
            container_height: usable_height_for(height),
            item_height: provider.item_height(width),
            width_class: WidthClass::for_width(width),
        }
    }
}

} // verus!
