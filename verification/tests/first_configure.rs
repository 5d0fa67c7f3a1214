use async_channel::{RecvError, TryRecvError};
use wayland_window::event::{ConfigureState, WaylandWindowEvent, WindowConfigure, WindowError};
use wayland_window::first_configure::{first_configure_outcome, FirstConfigureGate};
use wayland_window::model::Lifecycle;
use wayland_window::state::{WindowConfig, WindowDecorations};
use wayland_window::window::WaylandWindowInner;

fn config() -> WindowConfig {
    WindowConfig { dpi: None, window_decorations: WindowDecorations { title: true, resize: true } }
}

fn plain_state() -> ConfigureState {
    ConfigureState {
        maximized: false,
        fullscreen: false,
        resizing: false,
        activated: false,
        tiled_left: false,
        tiled_right: false,
        tiled_top: false,
        tiled_bottom: false,
    }
}

#[test]
fn new_signal_is_pending_and_silent() {
    let (signal, rx) = FirstConfigureGate::new();
    assert!(signal.pending());
    assert_eq!(rx.try_recv(), Err(TryRecvError::Empty));
}

#[test]
fn signal_delivers_once() {
    let (mut signal, rx) = FirstConfigureGate::new();
    assert!(signal.signal());
    assert!(!signal.pending());
    assert_eq!(rx.try_recv(), Ok(()));
    // the sender is gone with the signal: nothing more will come
    assert_eq!(rx.try_recv(), Err(TryRecvError::Closed));
}

#[test]
fn second_signal_is_a_no_op() {
    let (mut signal, rx) = FirstConfigureGate::new();
    assert!(signal.signal());
    assert!(!signal.signal());
    assert!(!signal.pending());
    assert_eq!(rx.try_recv(), Ok(()));
    assert_eq!(rx.try_recv(), Err(TryRecvError::Closed));
}

#[test]
fn signal_to_abandoned_wait_is_not_taken() {
    let (mut signal, rx) = FirstConfigureGate::new();
    drop(rx);
    assert!(!signal.signal());
    assert!(!signal.pending());
}

#[test]
fn abandoned_sender_closes_the_channel() {
    let (signal, rx) = FirstConfigureGate::new();
    drop(signal);
    assert_eq!(rx.try_recv(), Err(TryRecvError::Closed));
    assert_eq!(rx.recv_blocking(), Err(RecvError));
}

#[test]
fn signalled_wait_completes() {
    let (mut signal, rx) = FirstConfigureGate::new();
    signal.signal();
    assert_eq!(first_configure_outcome(rx.recv_blocking()), Ok(()));
}

#[test]
fn abandoned_wait_fails_with_connection_closed() {
    let (signal, rx) = FirstConfigureGate::new();
    drop(signal);
    assert_eq!(first_configure_outcome(rx.recv_blocking()), Err(WindowError::ConnectionClosed));
    assert_eq!(first_configure_outcome(Err(RecvError)), Err(WindowError::ConnectionClosed));
    assert_eq!(first_configure_outcome(Ok(())), Ok(()));
}

#[test]
fn window_signals_on_first_configure_only() {
    let (mut inner, rx) = WaylandWindowInner::new(640, 480, config());
    assert_eq!(inner.lifecycle(), Lifecycle::AwaitingFirstConfigure);
    assert_eq!(rx.try_recv(), Err(TryRecvError::Empty));

    // a close request alone is no configure
    inner.handle_window_event(WaylandWindowEvent::Close);
    assert_eq!(inner.lifecycle(), Lifecycle::AwaitingFirstConfigure);
    assert_eq!(rx.try_recv(), Err(TryRecvError::Empty));

    inner.handle_window_event(WaylandWindowEvent::Request(WindowConfigure {
        new_size: (None, None),
        state: plain_state(),
    }));
    assert_eq!(inner.lifecycle(), Lifecycle::Live);
    assert_eq!(rx.try_recv(), Ok(()));

    inner.handle_window_event(WaylandWindowEvent::Request(WindowConfigure {
        new_size: (Some(800), Some(600)),
        state: plain_state(),
    }));
    assert_eq!(inner.lifecycle(), Lifecycle::Live);
    assert_eq!(rx.try_recv(), Err(TryRecvError::Closed));
}

#[test]
fn closed_window_never_signals() {
    let (mut inner, rx) = WaylandWindowInner::new(640, 480, config());
    inner.close();
    inner.handle_window_event(WaylandWindowEvent::Request(WindowConfigure {
        new_size: (Some(800), Some(600)),
        state: plain_state(),
    }));
    assert_eq!(inner.lifecycle(), Lifecycle::Closed);
    assert_eq!(rx.try_recv(), Err(TryRecvError::Empty));
    drop(inner);
    assert_eq!(first_configure_outcome(rx.recv_blocking()), Err(WindowError::ConnectionClosed));
}
