use pinepods_core::geometry::{GeometryProvider, ViewportState, WidthClass};
use pinepods_core::resize::LayoutEpoch;
use pinepods_core::scroll::{ScrollTracker, TrackerPhase};

#[test]
fn first_new_offset_asks_for_a_frame() {
    let mut tracker = ScrollTracker::new();
    assert_eq!(tracker, ScrollTracker { published: 0, phase: TrackerPhase::Idle, alive: true });
    assert!(tracker.on_scroll(40));
    assert_eq!(tracker.phase, TrackerPhase::Applying { pending: 40 });
    assert_eq!(tracker.published, 0);
}

#[test]
fn unchanged_offset_asks_for_nothing() {
    let mut tracker = ScrollTracker::new();
    assert!(!tracker.on_scroll(0));
    assert_eq!(tracker.phase, TrackerPhase::Idle);
    assert_eq!(tracker.on_frame(), None);
}

#[test]
fn offsets_before_the_frame_are_coalesced_and_the_latest_wins() {
    let mut tracker = ScrollTracker::new();
    assert!(tracker.on_scroll(10));
    assert!(!tracker.on_scroll(20));
    assert!(!tracker.on_scroll(35));
    assert_eq!(tracker.on_frame(), Some(35));
    assert_eq!(tracker.published, 35);
    assert_eq!(tracker.phase, TrackerPhase::Idle);
    assert_eq!(tracker.on_frame(), None);
    assert!(tracker.on_scroll(36));
}

#[test]
fn returning_to_the_published_offset_publishes_nothing() {
    let mut tracker = ScrollTracker::new();
    assert!(tracker.on_scroll(10));
    assert!(!tracker.on_scroll(0));
    assert_eq!(tracker.on_frame(), None);
    assert_eq!(tracker.published, 0);
    assert_eq!(tracker.phase, TrackerPhase::Idle);
}

#[test]
fn frame_after_teardown_is_a_no_op() {
    let mut tracker = ScrollTracker::new();
    assert!(tracker.on_scroll(10));
    tracker.teardown();
    let before = tracker;
    assert_eq!(tracker.on_frame(), None);
    assert_eq!(tracker, before);
    assert!(!tracker.on_scroll(99));
    assert_eq!(tracker, before);
    assert_eq!(tracker.published, 0);
}

#[test]
fn resize_starts_a_new_epoch() {
    let mut epoch = LayoutEpoch::unmeasured();
    assert_eq!(epoch.generation, 0);
    assert_eq!(
        epoch.viewport,
        ViewportState { container_height: 0, item_height: 234, width_class: WidthClass::Wide }
    );
    epoch.on_resize(GeometryProvider::Breakpoints, 500, 900);
    assert_eq!(epoch.generation, 1);
    assert_eq!(
        epoch.viewport,
        ViewportState { container_height: 800, item_height: 138, width_class: WidthClass::Narrow }
    );
    epoch.on_resize(GeometryProvider::Breakpoints, 700, 60);
    assert_eq!(epoch.generation, 2);
    assert_eq!(
        epoch.viewport,
        ViewportState { container_height: 0, item_height: 166, width_class: WidthClass::Medium }
    );
    epoch.on_resize(GeometryProvider::Measured(184), 700, 1100);
    assert_eq!(epoch.generation, 3);
    assert_eq!(epoch.viewport.item_height, 200);
    assert_eq!(epoch.viewport.container_height, 1000);
}

#[test]
fn epoch_number_starts_again_after_the_largest() {
    let mut epoch = LayoutEpoch::unmeasured();
    epoch.generation = u64::MAX;
    epoch.on_resize(GeometryProvider::Breakpoints, 1000, 1000);
    assert_eq!(epoch.generation, 0);
}
