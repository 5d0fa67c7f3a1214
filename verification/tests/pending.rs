use wayland_window::pending::PendingEvent;
use wayland_window::state::{Dimensions, WindowState};

fn normal() -> WindowState {
    WindowState { full_screen: false, maximized: false, hidden: false }
}

fn maximized() -> WindowState {
    WindowState { full_screen: false, maximized: true, hidden: false }
}

#[test]
fn new_record_is_empty() {
    let pending = PendingEvent::new();
    assert!(pending.is_empty());
    assert!(!pending.close);
    assert!(!pending.had_configure_event);
    assert!(!pending.refresh_decorations);
    assert_eq!(pending.configure, None);
    assert_eq!(pending.scale_factor, None);
    assert_eq!(pending.window_state, None);
    assert_eq!(PendingEvent::default(), pending);
}

#[test]
fn record_close_reports_change_once() {
    let mut pending = PendingEvent::new();
    assert!(pending.record_close());
    assert!(pending.close);
    assert!(!pending.is_empty());
    assert!(!pending.record_close());
    assert!(pending.close);
}

#[test]
fn first_configure_is_a_change() {
    let mut pending = PendingEvent::new();
    assert!(pending.record_configure(Some((800, 600)), normal()));
    assert!(pending.had_configure_event);
    assert_eq!(pending.configure, Some((800, 600)));
    assert_eq!(pending.window_state, Some(normal()));
}

#[test]
fn repeated_configure_is_no_change() {
    let mut pending = PendingEvent::new();
    assert!(pending.record_configure(Some((800, 600)), normal()));
    assert!(!pending.record_configure(Some((800, 600)), normal()));
    assert_eq!(pending.configure, Some((800, 600)));
}

#[test]
fn configure_with_other_size_is_a_change() {
    let mut pending = PendingEvent::new();
    assert!(pending.record_configure(Some((800, 600)), normal()));
    assert!(pending.record_configure(Some((801, 600)), normal()));
    assert!(pending.record_configure(Some((801, 601)), normal()));
    assert!(!pending.record_configure(Some((801, 601)), normal()));
}

#[test]
fn configure_with_other_state_is_a_change() {
    let mut pending = PendingEvent::new();
    assert!(pending.record_configure(Some((800, 600)), normal()));
    assert!(pending.record_configure(Some((800, 600)), maximized()));
    assert_eq!(pending.window_state, Some(maximized()));
    assert!(!pending.record_configure(Some((800, 600)), maximized()));
    assert!(pending.record_configure(Some((800, 600)), normal()));
}

#[test]
fn configure_without_size_is_always_a_change() {
    let mut pending = PendingEvent::new();
    assert!(pending.record_configure(None, normal()));
    assert!(pending.had_configure_event);
    assert_eq!(pending.configure, None);
    assert!(pending.record_configure(None, normal()));
    assert_eq!(pending.configure, None);
}

#[test]
fn configure_without_size_keeps_pending_size() {
    let mut pending = PendingEvent::new();
    pending.record_configure(Some((800, 600)), normal());
    assert!(pending.record_configure(None, maximized()));
    assert_eq!(pending.configure, Some((800, 600)));
    assert_eq!(pending.window_state, Some(maximized()));
}

#[test]
fn configure_twice_keeps_latest() {
    let mut pending = PendingEvent::new();
    pending.record_configure(Some((800, 600)), normal());
    pending.record_configure(Some((1024, 768)), maximized());
    let snapshot = pending.drain();
    assert_eq!(snapshot.configure, Some((1024, 768)));
    assert_eq!(snapshot.window_state, Some(maximized()));
    assert!(snapshot.had_configure_event);
}

#[test]
fn drain_resets_the_record() {
    let mut pending = PendingEvent::new();
    pending.record_close();
    pending.record_configure(Some((10, 20)), maximized());
    pending.record_refresh_decorations();
    let snapshot = pending.drain();
    assert!(snapshot.close);
    assert!(snapshot.had_configure_event);
    assert!(snapshot.refresh_decorations);
    assert_eq!(snapshot.configure, Some((10, 20)));
    assert!(pending.is_empty());
    assert_eq!(pending, PendingEvent::new());
    let again = pending.drain();
    assert!(again.is_empty());
}

#[test]
fn first_configure_after_a_scale_change_is_a_change() {
    let mut pending = PendingEvent::new();
    let current = Dimensions { pixel_width: 800, pixel_height: 600, dpi: 96 };
    pending.record_scale_change(2, current);
    // the size made up for the scale change equals the one proposed, but no
    // configure has been seen yet
    assert!(pending.record_configure(Some((800, 600)), normal()));
}

#[test]
fn scale_change_makes_up_a_size() {
    let mut pending = PendingEvent::new();
    let current = Dimensions { pixel_width: 1600, pixel_height: 1200, dpi: 192 };
    pending.record_scale_change(1, current);
    assert_eq!(pending.scale_factor, Some(1));
    assert_eq!(pending.configure, Some((800, 600)));
    assert!(!pending.had_configure_event);
}

#[test]
fn scale_change_rounds_the_size_up() {
    let mut pending = PendingEvent::new();
    let current = Dimensions { pixel_width: 10, pixel_height: 3, dpi: 144 };
    pending.record_scale_change(2, current);
    assert_eq!(pending.configure, Some((7, 2)));
}

#[test]
fn scale_change_keeps_a_pending_size() {
    let mut pending = PendingEvent::new();
    pending.record_configure(Some((640, 480)), normal());
    let current = Dimensions { pixel_width: 1600, pixel_height: 1200, dpi: 192 };
    pending.record_scale_change(3, current);
    assert_eq!(pending.scale_factor, Some(3));
    assert_eq!(pending.configure, Some((640, 480)));
    pending.record_scale_change(2, current);
    assert_eq!(pending.scale_factor, Some(2));
}

#[test]
fn refresh_decorations_reports_change_once() {
    let mut pending = PendingEvent::new();
    assert!(pending.record_refresh_decorations());
    assert!(pending.refresh_decorations);
    assert!(!pending.record_refresh_decorations());
}
