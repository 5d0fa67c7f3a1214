use wayland_window::event::{WindowAction, WindowEvent};
use wayland_window::state::{WindowConfig, WindowDecorations};
use wayland_window::window::WaylandWindowInner;

fn config() -> WindowConfig {
    WindowConfig { dpi: None, window_decorations: WindowDecorations { title: true, resize: true } }
}

fn repaints(actions: &[WindowAction]) -> usize {
    actions.iter().filter(|a| **a == WindowAction::Dispatch(WindowEvent::NeedRepaint)).count()
}

#[test]
fn new_window_is_idle() {
    let (inner, _rx) = WaylandWindowInner::new(800, 600, config());
    assert!(!inner.frame_pending());
    assert!(!inner.invalidated());
}

#[test]
fn paint_when_idle_requests_callback_then_repaint() {
    let (mut inner, _rx) = WaylandWindowInner::new(800, 600, config());
    let actions = inner.do_paint();
    assert_eq!(
        actions,
        vec![WindowAction::RequestFrameCallback, WindowAction::Dispatch(WindowEvent::NeedRepaint)]
    );
    assert!(inner.frame_pending());
    assert!(!inner.invalidated());
}

#[test]
fn paint_while_awaiting_frame_is_deferred() {
    let (mut inner, _rx) = WaylandWindowInner::new(800, 600, config());
    inner.do_paint();
    let actions = inner.do_paint();
    assert_eq!(actions, vec![]);
    assert!(inner.frame_pending());
    assert!(inner.invalidated());
}

#[test]
fn paint_twice_repaints_once() {
    let (mut inner, _rx) = WaylandWindowInner::new(800, 600, config());
    let mut all = inner.do_paint();
    all.extend(inner.do_paint());
    assert_eq!(repaints(&all), 1);
}

#[test]
fn frame_ready_replays_one_deferred_paint() {
    let (mut inner, _rx) = WaylandWindowInner::new(800, 600, config());
    inner.do_paint();
    inner.do_paint();
    inner.do_paint();
    inner.do_paint();
    assert!(inner.invalidated());
    let actions = inner.next_frame_is_ready();
    assert_eq!(
        actions,
        vec![WindowAction::RequestFrameCallback, WindowAction::Dispatch(WindowEvent::NeedRepaint)]
    );
    assert_eq!(repaints(&actions), 1);
    assert!(inner.frame_pending());
    assert!(!inner.invalidated());
    // nothing was asked for since: the next frame finds the pacer idle
    let actions = inner.next_frame_is_ready();
    assert_eq!(actions, vec![]);
    assert!(!inner.frame_pending());
    assert!(!inner.invalidated());
}

#[test]
fn frame_ready_without_deferred_paint_goes_idle() {
    let (mut inner, _rx) = WaylandWindowInner::new(800, 600, config());
    inner.do_paint();
    let actions = inner.next_frame_is_ready();
    assert_eq!(actions, vec![]);
    assert!(!inner.frame_pending());
    let actions = inner.do_paint();
    assert_eq!(repaints(&actions), 1);
}

#[test]
fn frame_ready_when_idle_does_nothing() {
    let (mut inner, _rx) = WaylandWindowInner::new(800, 600, config());
    assert_eq!(inner.next_frame_is_ready(), vec![]);
    assert!(!inner.frame_pending());
}

#[test]
fn invalidate_and_show_go_through_the_pacer() {
    let (mut inner, _rx) = WaylandWindowInner::new(800, 600, config());
    let shown = inner.show();
    assert_eq!(repaints(&shown), 1);
    let invalidated = inner.invalidate();
    assert_eq!(invalidated, vec![]);
    assert!(inner.invalidated());
    let next = inner.next_frame_is_ready();
    assert_eq!(repaints(&next), 1);
}

#[test]
fn paint_on_closed_window_awaiting_frame_is_remembered() {
    let (mut inner, _rx) = WaylandWindowInner::new(800, 600, config());
    inner.do_paint();
    inner.close();
    assert!(inner.frame_pending());
    assert!(!inner.invalidated());
    // showing a closed window does nothing at all
    assert_eq!(inner.show(), vec![]);
    assert!(!inner.invalidated());
    // a request to paint is remembered as long as the frame is outstanding
    assert_eq!(inner.do_paint(), vec![]);
    assert!(inner.invalidated());
    assert!(inner.frame_pending());
    // the frame then finds nothing to paint on
    assert_eq!(inner.next_frame_is_ready(), vec![]);
    assert!(!inner.frame_pending());
}

#[test]
fn invalidate_on_closed_window_awaiting_frame_is_remembered() {
    let (mut inner, _rx) = WaylandWindowInner::new(800, 600, config());
    inner.invalidate();
    inner.close();
    assert_eq!(inner.invalidate(), vec![]);
    assert!(inner.invalidated());
}

#[test]
fn closed_window_ignores_paint_and_frame() {
    let (mut inner, _rx) = WaylandWindowInner::new(800, 600, config());
    inner.do_paint();
    inner.do_paint();
    inner.close();
    // the callback that was outstanding fires against the closed window
    assert_eq!(inner.next_frame_is_ready(), vec![]);
    assert!(!inner.frame_pending());
    assert_eq!(inner.do_paint(), vec![]);
    assert_eq!(inner.show(), vec![]);
    assert_eq!(inner.invalidate(), vec![]);
    assert!(!inner.frame_pending());
}
