//! The library counts whole pixels.  These tests hold it against the same
//! formulas on floating-point lengths, as a browser reports them.

use pinepods_core::drag::{auto_scroll, virtual_index};
use pinepods_core::geometry::{item_height_for, usable_height_for};
use pinepods_core::window::compute_window;

/// A small generator of test inputs, the same on every run.
struct Sequence(u64);

impl Sequence {
    fn next(&mut self) -> u64 {
        self.0 = self.0.wrapping_mul(6364136223846793005).wrapping_add(1442695040888963407);
        self.0 >> 33
    }

    fn below(&mut self, bound: u64) -> u64 {
        self.next() % bound
    }
}

fn float_item_height(window_width: f64) -> f64 {
    if window_width <= 530.0 {
        122.0 + 16.0
    } else if window_width <= 768.0 {
        150.0 + 16.0
    } else {
        221.0 + 16.0
    }
}

fn up(length: f64) -> u64 {
    if length <= 0.0 {
        0
    } else {
        length.ceil() as u64
    }
}

#[test]
fn item_height_agrees_with_the_float_breakpoints() {
    for width in [0.0, 1.5, 529.9, 530.0, 530.1, 530.5, 531.0, 767.99, 768.0, 768.01, 769.0, 4000.25]
    {
        assert_eq!(item_height_for(up(width)) as f64, float_item_height(width), "width {}", width);
    }
}

#[test]
fn usable_height_agrees_with_the_float_subtraction_where_it_is_positive() {
    for height in [100.0, 100.25, 101.0, 480.5, 900.0, 1079.75] {
        let usable: f64 = height - 100.0;
        for item_height in [138u64, 166, 237] {
            let float_count = (usable / item_height as f64).ceil() as u64;
            let whole = usable_height_for(up(height));
            let whole_count = whole.div_ceil(item_height);
            assert_eq!(whole_count, float_count, "height {}", height);
        }
    }
    assert_eq!(usable_height_for(up(60.0)), 0);
}

#[test]
fn window_agrees_with_the_float_formulas() {
    let mut inputs = Sequence(7);
    for _ in 0..20_000 {
        let len = inputs.below(400) as usize;
        let item_height = [138u64, 166, 237, 234, 1, 50][inputs.below(6) as usize];
        let usable = inputs.below(2500);
        let buffer = inputs.below(4) as usize;
        // a scroll offset inside the list, with a fraction
        let total = len as u64 * item_height;
        let whole_offset = if total == 0 { 0 } else { inputs.below(total) };
        let offset = whole_offset as f64 + inputs.below(1000) as f64 / 1000.0;

        let h = item_height as f64;
        let start_index = (offset / h).floor() as usize;
        let visible_count = ((usable as f64 / h).ceil() as usize) + 1;
        let buffered_start = start_index.saturating_sub(buffer);
        let buffered_end = (start_index + visible_count + buffer).min(len);
        let total_height = len as f64 * h;
        let offset_y = buffered_start as f64 * h;

        let window = compute_window(offset.floor() as u64, item_height, usable, buffer, len);
        assert_eq!(window.start, buffered_start);
        assert_eq!(window.end, buffered_end);
        assert_eq!(window.top_spacer as f64, offset_y);
        assert_eq!(
            window.bottom_spacer as f64,
            total_height - offset_y - (buffered_end - buffered_start) as f64 * h
        );
    }
}

#[test]
fn virtual_index_agrees_with_the_float_formula() {
    let mut inputs = Sequence(11);
    for _ in 0..20_000 {
        let len = inputs.below(300) as usize;
        let item_height = [138u64, 166, 237, 154][inputs.below(4) as usize];
        let client_y = inputs.below(3000) as i32 - 500;
        let scroll_top = inputs.below(40_000) as i32;
        let top = inputs.below(400_000) as f64 / 1000.0 - 100.0;

        let relative_y = (client_y as f64 - top) + scroll_top as f64;
        let float_index = (relative_y / item_height as f64).floor() as usize;
        let expected = float_index.min(len.saturating_sub(1));

        let whole_top = top.ceil() as i32;
        assert_eq!(
            virtual_index(client_y, whole_top, scroll_top, item_height, len),
            expected,
            "y {} top {} scroll {} height {} len {}",
            client_y,
            top,
            scroll_top,
            item_height,
            len
        );
    }
}

#[test]
fn auto_scroll_agrees_with_the_float_comparisons() {
    let mut inputs = Sequence(13);
    for _ in 0..20_000 {
        let y = inputs.below(1200) as i32 - 100;
        let top = inputs.below(300_000) as f64 / 1000.0;
        let bottom = top + inputs.below(900_000) as f64 / 1000.0;
        let scroll_top = inputs.below(500) as i32;

        let mut expected = scroll_top;
        let mut scrolled = false;
        if (y as f64) < top + 50.0 {
            expected = (expected - 20).max(0);
            scrolled = true;
        }
        if (y as f64) > bottom - 50.0 {
            expected += 20;
            scrolled = true;
        }

        let result = auto_scroll(y, top.ceil() as i32, bottom.floor() as i32, scroll_top);
        if scrolled {
            assert_eq!(result, Some(expected as i64));
        } else {
            assert_eq!(result, None);
        }
    }
}
