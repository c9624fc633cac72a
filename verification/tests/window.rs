use pinepods_core::geometry::{
    item_height_for, measured_item_height, usable_height_for, GeometryProvider, ViewportState,
    WidthClass,
};
use pinepods_core::window::{compute_window, visible_count, ListWindow, BUFFER_SIZE};

#[test]
fn item_height_follows_the_breakpoints() {
    assert_eq!(item_height_for(0), 138);
    assert_eq!(item_height_for(320), 138);
    assert_eq!(item_height_for(530), 138);
    assert_eq!(item_height_for(531), 166);
    assert_eq!(item_height_for(768), 166);
    assert_eq!(item_height_for(769), 237);
    assert_eq!(item_height_for(1920), 237);
    assert_eq!(item_height_for(u64::MAX), 237);
}

#[test]
fn width_class_follows_the_breakpoints() {
    assert_eq!(WidthClass::for_width(530), WidthClass::Narrow);
    assert_eq!(WidthClass::for_width(531), WidthClass::Medium);
    assert_eq!(WidthClass::for_width(768), WidthClass::Medium);
    assert_eq!(WidthClass::for_width(769), WidthClass::Wide);
    assert_eq!(WidthClass::Narrow.item_height(), 122 + 16);
    assert_eq!(WidthClass::Medium.item_height(), 150 + 16);
    assert_eq!(WidthClass::Wide.item_height(), 221 + 16);
}

#[test]
fn usable_height_subtracts_the_chrome_and_stops_at_zero() {
    assert_eq!(usable_height_for(700), 600);
    assert_eq!(usable_height_for(101), 1);
    assert_eq!(usable_height_for(100), 0);
    assert_eq!(usable_height_for(40), 0);
    assert_eq!(usable_height_for(0), 0);
}

#[test]
fn measured_height_adds_the_margin() {
    assert_eq!(measured_item_height(122), 138);
    assert_eq!(measured_item_height(0), 16);
    assert_eq!(measured_item_height(u32::MAX), 4_294_967_295 + 16);
    assert_eq!(GeometryProvider::Measured(200).item_height(400), 216);
    assert_eq!(GeometryProvider::Breakpoints.item_height(400), 138);
}

#[test]
fn viewport_state_is_measured_from_width_and_height() {
    let state = ViewportState::for_viewport(1024, 900);
    assert_eq!(
        state,
        ViewportState { container_height: 800, item_height: 237, width_class: WidthClass::Wide }
    );
    let measured = ViewportState::measure(GeometryProvider::Measured(84), 500, 50);
    assert_eq!(
        measured,
        ViewportState { container_height: 0, item_height: 100, width_class: WidthClass::Narrow }
    );
}

#[test]
fn visible_count_rounds_up_and_adds_one() {
    assert_eq!(visible_count(600, 138), 6);
    assert_eq!(visible_count(500, 238), 4);
    assert_eq!(visible_count(0, 138), 1);
    assert_eq!(visible_count(138, 138), 2);
    assert_eq!(visible_count(139, 138), 3);
    assert_eq!(visible_count(u64::MAX, 1), u64::MAX as u128 + 1);
}

#[test]
fn window_at_the_top_of_a_long_list() {
    let window = compute_window(0, 138, 600, 2, 100);
    assert_eq!(window.start, 0);
    assert_eq!(window.end, 8);
    assert_eq!(window.top_spacer, 0);
    assert_eq!(window.bottom_spacer, 92 * 138);
}

#[test]
fn window_near_the_bottom_of_a_short_list() {
    let window = compute_window(1000, 238, 500, 2, 10);
    assert_eq!(1000 / 238, 4);
    assert_eq!(window.start, 2);
    assert_eq!(window.end, 10);
    assert_eq!(window.top_spacer, 2 * 238);
    assert_eq!(window.bottom_spacer, 0);
}

#[test]
fn window_in_the_middle() {
    let window = compute_window(5000, 166, 700, BUFFER_SIZE, 1000);
    // raw start 30, visible count ceil(700 / 166) + 1 = 6
    assert_eq!(
        window,
        ListWindow { start: 28, end: 38, top_spacer: 28 * 166, bottom_spacer: 962 * 166 }
    );
}

#[test]
fn window_of_an_empty_list_is_empty() {
    for offset in [0u64, 10, 1000, u64::MAX] {
        let window = compute_window(offset, 138, 600, 2, 0);
        assert_eq!(window, ListWindow { start: 0, end: 0, top_spacer: 0, bottom_spacer: 0 });
    }
}

#[test]
fn window_scrolled_past_the_end_stays_inside_the_list() {
    let window = compute_window(100_000, 138, 600, 2, 5);
    assert_eq!(window, ListWindow { start: 5, end: 5, top_spacer: 5 * 138, bottom_spacer: 0 });
}

#[test]
fn window_bounds_hold_on_a_grid_of_inputs() {
    for len in [0usize, 1, 2, 7, 50, 1000] {
        for item_height in [1u64, 138, 166, 237, 238] {
            for usable in [0u64, 1, 137, 138, 600, 5000] {
                for buffer in [0usize, 1, 2, 5] {
                    for offset in [0u64, 1, 137, 138, 139, 1000, 99_999] {
                        let w = compute_window(offset, item_height, usable, buffer, len);
                        assert!(w.start <= w.end);
                        assert!(w.end <= len);
                        let seen = visible_count(usable, item_height);
                        assert!(((w.end - w.start) as u128) <= seen + 2 * buffer as u128);
                        let mounted = (w.end - w.start) as u128 * item_height as u128;
                        assert_eq!(
                            w.top_spacer + w.bottom_spacer + mounted,
                            len as u128 * item_height as u128
                        );
                    }
                }
            }
        }
    }
}

#[test]
fn window_is_the_same_when_computed_twice() {
    let first = compute_window(4321, 166, 777, 2, 345);
    let second = compute_window(4321, 166, 777, 2, 345);
    assert_eq!(first, second);
}

#[test]
fn window_with_the_largest_inputs_does_not_overflow() {
    let window = compute_window(u64::MAX, 1, u64::MAX, usize::MAX, usize::MAX);
    assert_eq!(window.end, usize::MAX);
    assert_eq!(window.bottom_spacer, 0);
    let tall = compute_window(0, u64::MAX, 0, 0, usize::MAX);
    assert_eq!(tall.start, 0);
    assert_eq!(tall.end, 1);
    assert_eq!(tall.bottom_spacer, (usize::MAX as u128 - 1) * u64::MAX as u128);
}
