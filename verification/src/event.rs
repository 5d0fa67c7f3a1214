//! What goes into a window and what comes out of it: notifications from the
//! compositor, events for the application, and the actions that the
//! embedding program carries out on the window's behalf.

use vstd::prelude::*;
use crate::state::Dimensions;
use crate::state::WindowState;

verus! {

/// The state flags that a configure notification carries.
#[derive(Clone, Copy, Debug, PartialEq, Eq)]
pub struct ConfigureState {
    pub maximized: bool,
    pub fullscreen: bool,
    pub resizing: bool,
    pub activated: bool,
    pub tiled_left: bool,
    pub tiled_right: bool,
    pub tiled_top: bool,
    pub tiled_bottom: bool,
}

impl ConfigureState {
    /// The window state that these flags amount to.
    pub open spec fn window_state_spec(self) -> WindowState {
        WindowState {
            full_screen: self.fullscreen,
            maximized: self.maximized || self.tiled_left || self.tiled_right || self.tiled_top
                || self.tiled_bottom,
            hidden: false,
        }
    }

    /// Folds the compositor's flags into a window state: a window that is
    /// tiled along any edge counts as maximized.
    pub fn window_state(&self) -> (state: WindowState)
        ensures
            state == self.window_state_spec(),
    {
        WindowState {
            full_screen: self.fullscreen,
            maximized: self.maximized || self.tiled_left || self.tiled_right || self.tiled_top
                || self.tiled_bottom,
            hidden: false,
        }
    }
}

/// A configure notification: the size that the compositor proposes, each
/// side in surface units and absent where the window is free to choose, and
/// the state flags.
#[derive(Clone, Copy, Debug, PartialEq, Eq)]
pub struct WindowConfigure {
    pub new_size: (Option<u32>, Option<u32>),
    pub state: ConfigureState,
}

impl WindowConfigure {
    /// The proposed size, present only if both sides are.
    pub open spec fn surface_size_spec(self) -> Option<(u32, u32)> {
        match self.new_size {
            (Some(w), Some(h)) => Some((w, h)),
            _ => None,
        }
    }

    /// The proposed size, if the compositor proposed both sides.
    pub fn surface_size(&self) -> (size: Option<(u32, u32)>)
        ensures
            size == self.surface_size_spec(),
    {
        match self.new_size {
            (Some(w), Some(h)) => Some((w, h)),
            _ => None,
        }
    }
}

/// A notification about the window's toplevel.
#[derive(Clone, Copy, Debug, PartialEq, Eq)]
pub enum WaylandWindowEvent {
    /// The user or the compositor asked for the window to be closed.
    Close,
    /// The compositor proposes a new size or state.
    Request(WindowConfigure),
}

/// An event for the application that owns the window.
#[derive(Clone, Copy, Debug, PartialEq, Eq)]
pub enum WindowEvent {
    /// The window was asked to close.  It stays open until closed explicitly.
    CloseRequested,
    /// The window has been closed.
    Destroyed,
    /// The drawable area changed size or density.
    Resized { dimensions: Dimensions, window_state: WindowState, live_resizing: bool },
    /// The window contents should be painted now.
    NeedRepaint,
}

/// One step for the embedding program to carry out, in the order given.
#[derive(Clone, Copy, Debug, PartialEq, Eq)]
pub enum WindowAction {
    /// Deliver an event to the application.
    Dispatch(WindowEvent),
    /// Commit the surface so that pending surface state takes effect.
    CommitSurface,
    /// Resize the offscreen rendering surface.
    ResizeRenderSurface { pixel_width: u32, pixel_height: u32 },
    /// Attach a placeholder buffer of the given scale and set the surface's
    /// buffer scale to it.
    AttachScaledBuffer { scale: i32 },
    /// Ask the compositor to tell when the next frame may be drawn.
    RequestFrameCallback,
    /// Hand the window's current title to the compositor.
    UpdateTitle,
    /// Release the offscreen rendering surface.
    ReleaseRenderSurface,
    /// Release the GPU context.
    ReleaseGlContext,
    /// Destroy the toplevel.
    DestroyWindow,
}

/// The side, in pixels, of the rendering surface as it is first created; the
/// first resize gives it its real size.
pub const INITIAL_RENDER_SURFACE_SIZE: u32 = 100;

/// How the paint resources of a window are to be acquired.
#[derive(Clone, Copy, Debug, PartialEq, Eq)]
pub enum GlSetup {
    /// With a GPU context on the display connection that an earlier window
    /// opened.
    ExistingConnection { surface_width: u32, surface_height: u32 },
    /// With a GPU context on a display connection of its own, to be shared
    /// from then on.
    NewConnection { surface_width: u32, surface_height: u32 },
}

/// Why an operation on a window failed.
#[derive(Clone, Copy, Debug, PartialEq, Eq)]
pub enum WindowError {
    /// A window was to be created without an initialized connection.
    ConnectionUnavailable,
    /// The connection went away before the window was first configured.
    ConnectionClosed,
    /// The resources for painting could not be acquired.
    PaintResource(PaintFailure),
}

/// What stood in the way of acquiring paint resources.
#[derive(Clone, Copy, Debug, PartialEq, Eq)]
pub enum PaintFailure {
    /// The platform offers no EGL.
    EglUnavailable,
    /// The window has been closed.
    WindowMissing,
}

/// The number of `NeedRepaint` events in a list of actions.
pub open spec fn repaint_count(actions: Seq<WindowAction>) -> nat
    decreases actions.len(),
{
    if actions.len() == 0 {
        0
    } else {
        let rest = repaint_count(actions.drop_last());
        if actions.last() == WindowAction::Dispatch(WindowEvent::NeedRepaint) {
            rest + 1
        } else {
            rest
        }
    }
}

/// Whether a list of actions delivers a `Resized` event.
pub open spec fn has_resized(actions: Seq<WindowAction>) -> bool {
    exists|i: int|
        0 <= i < actions.len() && (#[trigger] actions[i] matches WindowAction::Dispatch(
            WindowEvent::Resized { .. },
        ))
}

} // verus!
