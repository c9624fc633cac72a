//! The window calculator: which items of a long list to mount for a scroll
//! position, and how tall the spacers above and below them must be so that
//! the list keeps its full scrollable height.
//!
//! Lengths are whole pixels.  A caller with a fractional scroll offset
//! rounds it down and a fractional usable height up: with a whole item
//! height the quotients are the same.

use vstd::prelude::*;

verus! {

/// Items mounted beyond the visible range, on each side.
pub const BUFFER_SIZE: usize = 2;

/// The mounted slice of a list and the spacers around it.
#[derive(Debug, Clone, Copy, PartialEq, Eq, Structural)]
pub struct ListWindow {
    /// Index of the first mounted item.
    pub start: usize,
    /// Index after the last mounted item.
    pub end: usize,
    /// Height standing for the items before `start`.
    pub top_spacer: u128,
    /// Height standing for the items from `end` on.
    pub bottom_spacer: u128,
}

/// Index of the item whose box holds the scroll offset:
/// `floor(scroll_offset / item_height)`.
pub open spec fn spec_raw_start(scroll_offset: nat, item_height: nat) -> nat
    recommends
        item_height > 0,
{
    scroll_offset / item_height
}

/// `ceil(a / b)`.
pub open spec fn spec_ceil_div(a: nat, b: nat) -> nat
    recommends
        b > 0,
{
    if a % b == 0 {
        a / b
    } else {
        a / b + 1
    }
}

/// Number of items that can be seen at once: as many as fill the usable
/// height, and one more for the item cut by the lower edge.
pub open spec fn spec_visible_count(usable_height: nat, item_height: nat) -> nat
    recommends
        item_height > 0,
{
    spec_ceil_div(usable_height, item_height) + 1
}

/// First mounted index: `buffer` items before the raw start, held inside
/// the list.
pub open spec fn spec_window_start(scroll_offset: nat, item_height: nat, buffer: nat, len: nat) -> nat
    recommends
        item_height > 0,
{
    let raw = spec_raw_start(scroll_offset, item_height);
    let first = if raw <= buffer {
        0
    } else {
        (raw - buffer) as nat
    };
    if first <= len {
        first
    } else {
        len
    }
}

/// Index after the last mounted item: the raw start, the visible count and
/// `buffer` more, held inside the list.
pub open spec fn spec_window_end(
    scroll_offset: nat,
    item_height: nat,
    usable_height: nat,
    buffer: nat,
    len: nat,
) -> nat
    recommends
        item_height > 0,
{
    let last = spec_raw_start(scroll_offset, item_height) + spec_visible_count(
        usable_height,
        item_height,
    ) + buffer;
    if last <= len {
        last
    } else {
        len
    }
}

/// The window for a scroll position: the two indices, and spacers that
/// stand for every item outside them.
pub open spec fn spec_window(
    scroll_offset: nat,
    item_height: nat,
    usable_height: nat,
    buffer: nat,
    len: nat,
) -> ListWindow
    recommends
        item_height > 0,
{
    let start = spec_window_start(scroll_offset, item_height, buffer, len);
    let end = spec_window_end(scroll_offset, item_height, usable_height, buffer, len);
    ListWindow {
        start: start as usize,
        end: end as usize,
        top_spacer: (start * item_height) as u128,
        bottom_spacer: ((len - end) * item_height) as u128,
    }
}

/// A product of a list length and a pixel height fits in 128 bits.
proof fn lemma_height_fits(count: nat, item_height: nat)
    requires
        count <= usize::MAX,
        item_height <= u64::MAX,
    ensures
        count * item_height <= u128::MAX,
{
    assert(count * item_height <= 0xffff_ffff_ffff_ffff * 0xffff_ffff_ffff_ffff)
        by (nonlinear_arith)
        requires
            count <= 0xffff_ffff_ffff_ffff,
            item_height <= 0xffff_ffff_ffff_ffff,
    ;
}

/// Three runs of items that make up a list are together as tall as the list.
proof fn lemma_heights_add_up(start: nat, end: nat, len: nat, item_height: nat)
    requires
        start <= end <= len,
    ensures
        start * item_height + (len - end) * item_height + (end - start) * item_height == len
            * item_height,
{
    assert(start * item_height + (len - end) * item_height + (end - start) * item_height == len
        * item_height) by (nonlinear_arith)
        requires
            start <= end <= len,
    ;
}

/// `ceil(usable_height / item_height) + 1`, in a type wide enough for every
/// pair of 64-bit lengths.
pub fn visible_count(usable_height: u64, item_height: u64) -> (count: u128)
    requires
        item_height > 0,
    ensures
        count == spec_visible_count(usable_height as nat, item_height as nat),
        count >= 1,
{
    let whole: u64 = usable_height / item_height;
    let cut: u64 = usable_height % item_height;
    let whole_wide: u128 = whole as u128;
    if cut == 0 {
        whole_wide + 1
    } else {
        whole_wide + 2
    }
}

/// The window to mount at `scroll_offset` in a list of `len` items, each
/// `item_height` tall, seen through `usable_height` pixels, with `buffer`
/// extra items on each side.
///
/// The window lies inside the list, holds at most the visible count and
/// two buffers, and its spacers and mounted items are together exactly as
/// tall as the whole list.  An empty list gives the empty window at 0 with
/// no spacers.
pub fn compute_window(
    scroll_offset: u64,
    item_height: u64,
    usable_height: u64,
    buffer: usize,
    len: usize,
) -> (window: ListWindow)
    requires
        item_height > 0,
    ensures
        window == spec_window(
            scroll_offset as nat,
            item_height as nat,
            usable_height as nat,
            buffer as nat,
            len as nat,
        ),
        window.start == spec_window_start(
            scroll_offset as nat,
            item_height as nat,
            buffer as nat,
            len as nat,
        ),
        window.end == spec_window_end(
            scroll_offset as nat,
            item_height as nat,
            usable_height as nat,
            buffer as nat,
            len as nat,
        ),
        window.top_spacer == window.start * item_height,
        window.bottom_spacer == (len - window.end) * item_height,
        window.start <= window.end <= len,
        window.end - window.start <= spec_visible_count(usable_height as nat, item_height as nat)
            + 2 * buffer,
        window.top_spacer + window.bottom_spacer + (window.end - window.start) * item_height == len
            * item_height,
        len == 0 ==> window.start == 0 && window.end == 0 && window.top_spacer == 0
            && window.bottom_spacer == 0,
{
    let raw: u128 = (scroll_offset / item_height) as u128;
    let seen: u128 = visible_count(usable_height, item_height);
    let buffer_wide: u128 = buffer as u128;
    let len_wide: u128 = len as u128;
    let first: u128 = if raw <= buffer_wide {
        0
    } else {
        raw - buffer_wide
    };
    let last: u128 = raw + seen + buffer_wide;
    let start: usize = if first <= len_wide {
        first as usize
    } else {
        len
    };
    let end: usize = if last <= len_wide {
        last as usize
    } else {
        len
    };
    proof {
        lemma_height_fits(start as nat, item_height as nat);
        lemma_height_fits((len - end) as nat, item_height as nat);
        lemma_heights_add_up(start as nat, end as nat, len as nat, item_height as nat);
    }
    let top_spacer: u128 = (start as u128) * (item_height as u128);
    let bottom_spacer: u128 = ((len - end) as u128) * (item_height as u128);
    ListWindow { start, end, top_spacer, bottom_spacer }
}

/// Computing a window keeps no state: whatever two computations on the same
/// inputs return, they return the same window.
pub proof fn lemma_compute_window_repeatable(
    scroll_offset: nat,
    item_height: nat,
    usable_height: nat,
    buffer: nat,
    len: nat,
    first: ListWindow,
    second: ListWindow,
)
    requires
        item_height > 0,
        first == spec_window(scroll_offset, item_height, usable_height, buffer, len),
        second == spec_window(scroll_offset, item_height, usable_height, buffer, len),
    ensures
        first == second,
{
}

/// Every item that can be seen is mounted: an item of the list whose box
/// reaches into the `usable_height` pixels below the scroll offset lies in
/// the window, whatever the buffer.
pub proof fn lemma_visible_items_are_mounted(
    scroll_offset: nat,
    item_height: nat,
    usable_height: nat,
    buffer: nat,
    len: nat,
    index: nat,
)
    requires
        item_height > 0,
        index < len,
        index * item_height < scroll_offset + usable_height,
        (index + 1) * item_height > scroll_offset,
    ensures
        spec_window_start(scroll_offset, item_height, buffer, len) <= index,
        index < spec_window_end(scroll_offset, item_height, usable_height, buffer, len),
{
    let raw = spec_raw_start(scroll_offset, item_height);
    let filled = spec_ceil_div(usable_height, item_height);
    assert(raw * item_height <= scroll_offset < (raw + 1) * item_height) by (nonlinear_arith)
        requires
            item_height > 0,
            raw == scroll_offset / item_height,
    ;
    assert(usable_height <= filled * item_height) by (nonlinear_arith)
        requires
            item_height > 0,
            filled == if usable_height % item_height == 0 {
                usable_height / item_height
            } else {
                usable_height / item_height + 1
            },
    ;
    assert(raw <= index) by (nonlinear_arith)
        requires
            item_height > 0,
            raw * item_height <= scroll_offset,
            (index + 1) * item_height > scroll_offset,
    ;
    assert(index < raw + 1 + filled) by (nonlinear_arith)
        requires
            item_height > 0,
            index * item_height < scroll_offset + usable_height,
            scroll_offset < (raw + 1) * item_height,
            usable_height <= filled * item_height,
    ;
}

/// Scrolling further down never moves the window up.
pub proof fn lemma_window_follows_scroll(
    earlier: nat,
    later: nat,
    item_height: nat,
    usable_height: nat,
    buffer: nat,
    len: nat,
)
    requires
        item_height > 0,
        earlier <= later,
    ensures
        spec_window_start(earlier, item_height, buffer, len) <= spec_window_start(
            later,
            item_height,
            buffer,
            len,
        ),
        spec_window_end(earlier, item_height, usable_height, buffer, len) <= spec_window_end(
            later,
            item_height,
            usable_height,
            buffer,
            len,
        ),
{
    assert(earlier / item_height <= later / item_height) by (nonlinear_arith)
        requires
            item_height > 0,
            earlier <= later,
    ;
}

} // verus!
