use wayland_window::event::{
    ConfigureState, GlSetup, PaintFailure, WaylandWindowEvent, WindowAction, WindowConfigure,
    WindowError, WindowEvent,
};
use wayland_window::registry::WindowRegistry;
use wayland_window::state::{Dimensions, WindowConfig, WindowDecorations, WindowState};
use wayland_window::window::{WaylandWindow, WaylandWindowInner};

fn config() -> WindowConfig {
    WindowConfig { dpi: None, window_decorations: WindowDecorations { title: true, resize: true } }
}

fn plain_state() -> ConfigureState {
    ConfigureState {
        maximized: false,
        fullscreen: false,
        resizing: false,
        activated: false,
        tiled_left: false,
        tiled_right: false,
        tiled_top: false,
        tiled_bottom: false,
    }
}

const REPAINT: WindowAction = WindowAction::Dispatch(WindowEvent::NeedRepaint);

fn registered(registry: &mut WindowRegistry) -> WaylandWindow {
    match WaylandWindow::new_window(Some(registry), "class", "name", 640, 480, config()) {
        Ok(new) => new.window,
        Err(e) => panic!("{:?}", e),
    }
}

#[test]
fn window_numbers_count_up() {
    let mut registry = WindowRegistry::new();
    assert_eq!(registry.next_window_id(), 0);
    assert_eq!(registry.next_window_id(), 1);
    assert_eq!(registry.next_window_id(), 2);
}

#[test]
fn registry_starts_empty() {
    let registry = WindowRegistry::new();
    assert!(!registry.contains(&WaylandWindow(0)));
}

#[test]
fn insert_and_remove() {
    let mut registry = WindowRegistry::new();
    let first = registered(&mut registry);
    let second = registered(&mut registry);
    assert_eq!(first, WaylandWindow(0));
    assert_eq!(second, WaylandWindow(1));
    assert!(registry.contains(&first));
    assert!(registry.contains(&second));
    let removed = registry.remove(&first);
    assert!(removed.is_some());
    assert!(!registry.contains(&first));
    assert!(registry.contains(&second));
    assert!(registry.remove(&first).is_none());
}

#[test]
fn operations_reach_the_named_window_only() {
    let mut registry = WindowRegistry::new();
    let first = registered(&mut registry);
    let second = registered(&mut registry);
    let actions = first.show(&mut registry);
    assert_eq!(actions, vec![WindowAction::RequestFrameCallback, REPAINT]);
    // the first window now waits for its frame; the second is still idle
    assert_eq!(first.invalidate(&mut registry), vec![]);
    assert_eq!(second.invalidate(&mut registry), vec![WindowAction::RequestFrameCallback, REPAINT]);
    let first_inner = registry.remove(&first).unwrap();
    assert!(first_inner.frame_pending());
    assert!(first_inner.invalidated());
    let second_inner = registry.remove(&second).unwrap();
    assert!(second_inner.frame_pending());
    assert!(!second_inner.invalidated());
}

#[test]
fn unknown_window_is_answered_with_nothing() {
    let mut registry = WindowRegistry::new();
    let known = registered(&mut registry);
    let unknown = WaylandWindow(41);
    assert_eq!(unknown.show(&mut registry), vec![]);
    assert_eq!(unknown.invalidate(&mut registry), vec![]);
    assert_eq!(unknown.close(&mut registry), vec![]);
    assert_eq!(unknown.set_title(&mut registry, "t"), vec![]);
    assert_eq!(registry.frame(41), vec![]);
    assert_eq!(registry.handle_window_event(41, WaylandWindowEvent::Close), vec![]);
    assert_eq!(registry.scale_factor_changed(41, 2), vec![]);
    assert_eq!(
        unknown.enable_opengl(&registry, true, true),
        Err(WindowError::PaintResource(PaintFailure::WindowMissing))
    );
    assert!(!registry.contains(&unknown));
    assert!(registry.contains(&known));
}

#[test]
fn notifications_are_carried_by_number() {
    let mut registry = WindowRegistry::new();
    let window = registered(&mut registry);
    let actions = registry.handle_window_event(
        window.window_id(),
        WaylandWindowEvent::Request(WindowConfigure {
            new_size: (Some(800), Some(600)),
            state: plain_state(),
        }),
    );
    assert_eq!(
        actions,
        vec![
            WindowAction::Dispatch(WindowEvent::Resized {
                dimensions: Dimensions { pixel_width: 800, pixel_height: 600, dpi: 96 },
                window_state: WindowState { full_screen: false, maximized: false, hidden: false },
                live_resizing: false,
            }),
            WindowAction::CommitSurface,
            WindowAction::RequestFrameCallback,
            REPAINT,
        ]
    );
    assert_eq!(registry.frame(window.window_id()), vec![]);
    let actions = registry.scale_factor_changed(window.window_id(), 2);
    assert_eq!(actions.len(), 5);
    let inner = registry.remove(&window).unwrap();
    assert_eq!(inner.dimensions(), Dimensions { pixel_width: 1600, pixel_height: 1200, dpi: 192 });
}

#[test]
fn recorded_notifications_are_reconciled_on_request() {
    let mut registry = WindowRegistry::new();
    let window = registered(&mut registry);
    let id = window.window_id();
    let first = WaylandWindowEvent::Request(WindowConfigure {
        new_size: (Some(800), Some(600)),
        state: plain_state(),
    });
    let second = WaylandWindowEvent::Request(WindowConfigure {
        new_size: (Some(1024), Some(768)),
        state: plain_state(),
    });
    assert!(registry.record_window_event(id, first));
    assert!(!registry.record_window_event(id, first));
    assert!(registry.record_window_event(id, second));
    assert!(registry.record_window_event(id, WaylandWindowEvent::Close));
    registry.record_scale_change(id, 2);
    // a number that names no window records nothing
    assert!(!registry.record_window_event(41, WaylandWindowEvent::Close));
    registry.record_scale_change(41, 2);
    assert_eq!(registry.dispatch_pending_event(41), vec![]);
    let before = registry.get(&window).unwrap();
    assert_eq!(before.dimensions(), Dimensions { pixel_width: 640, pixel_height: 480, dpi: 96 });
    assert_eq!(before.pending_event().configure, Some((1024, 768)));
    let actions = registry.dispatch_pending_event(id);
    assert_eq!(
        actions,
        vec![
            WindowAction::Dispatch(WindowEvent::CloseRequested),
            WindowAction::Dispatch(WindowEvent::Resized {
                dimensions: Dimensions { pixel_width: 2048, pixel_height: 1536, dpi: 192 },
                window_state: WindowState { full_screen: false, maximized: false, hidden: false },
                live_resizing: false,
            }),
            WindowAction::AttachScaledBuffer { scale: 2 },
            WindowAction::CommitSurface,
            WindowAction::RequestFrameCallback,
            REPAINT,
        ]
    );
    assert_eq!(registry.dispatch_pending_event(id), vec![]);
    let after = registry.get(&window).unwrap();
    assert!(after.pending_event().is_empty());
}

#[test]
fn frame_replays_a_deferred_paint() {
    let mut registry = WindowRegistry::new();
    let window = registered(&mut registry);
    window.show(&mut registry);
    window.invalidate(&mut registry);
    assert_eq!(registry.frame(0), vec![WindowAction::RequestFrameCallback, REPAINT]);
    assert_eq!(registry.frame(0), vec![]);
}

#[test]
fn close_keeps_the_window_registered() {
    let mut registry = WindowRegistry::new();
    let window = registered(&mut registry);
    let actions = window.close(&mut registry);
    assert_eq!(
        actions,
        vec![WindowAction::Dispatch(WindowEvent::Destroyed), WindowAction::DestroyWindow]
    );
    assert!(registry.contains(&window));
    assert_eq!(window.show(&mut registry), vec![]);
    assert_eq!(
        window.enable_opengl(&registry, true, false),
        Err(WindowError::PaintResource(PaintFailure::WindowMissing))
    );
    let inner = registry.remove(&window).unwrap();
    assert!(!inner.is_open());
}

#[test]
fn title_is_set_through_the_handle() {
    let mut registry = WindowRegistry::new();
    let window = registered(&mut registry);
    assert_eq!(
        window.set_title(&mut registry, "hello"),
        vec![WindowAction::UpdateTitle, WindowAction::CommitSurface]
    );
    assert_eq!(window.set_title(&mut registry, "hello"), vec![]);
    let inner = registry.remove(&window).unwrap();
    assert_eq!(inner.title(), Some(&"hello".to_string()));
}

#[test]
fn opengl_is_planned_through_the_handle() {
    let mut registry = WindowRegistry::new();
    let window = registered(&mut registry);
    assert_eq!(
        window.enable_opengl(&registry, true, false),
        Ok(GlSetup::NewConnection { surface_width: 100, surface_height: 100 })
    );
    assert_eq!(
        window.enable_opengl(&registry, false, false),
        Err(WindowError::PaintResource(PaintFailure::EglUnavailable))
    );
}

#[test]
fn insert_replaces_a_window_of_the_same_number() {
    let mut registry = WindowRegistry::new();
    let window = registered(&mut registry);
    window.show(&mut registry);
    let (fresh, _rx) = WaylandWindowInner::new(10, 10, config());
    registry.insert(&window, fresh);
    let inner = registry.remove(&window).unwrap();
    assert!(!inner.frame_pending());
    assert_eq!(inner.dimensions(), Dimensions { pixel_width: 10, pixel_height: 10, dpi: 96 });
}
