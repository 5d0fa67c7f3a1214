//! The window itself: the canonical state, the intake of notifications, the
//! reconciliation pass and the frame pacer.
//!
//! Every operation answers with the actions it calls for, in the order in
//! which they are to be carried out.

use vstd::prelude::*;
use crate::event::GlSetup;
use crate::event::PaintFailure;
use crate::event::WaylandWindowEvent;
use crate::event::WindowAction;
use crate::event::WindowError;
use crate::event::WindowEvent;
use crate::event::INITIAL_RENDER_SURFACE_SIZE;
use crate::first_configure::FirstConfigureGate;
use crate::geometry::pixels_to_surface;
use crate::geometry::pixels_to_surface_spec;
use crate::geometry::saturate;
use crate::geometry::snap_to_increment;
use crate::geometry::surface_to_pixels;
use crate::geometry::surface_to_pixels_spec;
use crate::model::target_length;
use crate::model::Lifecycle;
use crate::model::WindowModel;
use crate::pending::PendingEvent;
use crate::state::Dimensions;
use crate::state::WindowConfig;
use crate::state::WindowState;

verus! {

/// The handle by which the application names a window.
#[derive(Clone, Copy, Debug, PartialEq, Eq, Hash, Ord, PartialOrd)]
pub struct WaylandWindow(pub usize);

/// The state of one window.
pub struct WaylandWindowInner {
    surface_factor: i32,
    output_scale: i32,
    has_window: bool,
    dimensions: Dimensions,
    resize_increments: Option<(u16, u16)>,
    window_state: WindowState,
    pending_event: PendingEvent,
    pending_first_configure: FirstConfigureGate,
    frame_pending: bool,
    invalidated: bool,
    config: WindowConfig,
    title: Option<String>,
    has_render_surface: bool,
}

impl WaylandWindow {
    /// The number that names the window.
    pub open spec fn id(self) -> usize {
        self.0
    }

    /// The number that names the window.
    pub fn window_id(&self) -> (id: usize)
        ensures
            id == self.id(),
    {
        self.0
    }
}

/// Computes the pixel length that a surface length comes to.
fn pixel_length(surface: u32, increment: Option<u16>, dpi: u64) -> (pixels: u32)
    requires
        dpi > 0,
        increment matches Some(step) ==> step > 0,
    ensures
        pixels == target_length(surface, increment, dpi),
{
    let pixels: u32 = surface_to_pixels(surface, dpi);
    match increment {
        Some(step) => snap_to_increment(pixels, step, dpi),
        None => pixels,
    }
}

impl View for WaylandWindowInner {
    type V = WindowModel;

    closed spec fn view(&self) -> WindowModel {
        WindowModel {
            surface_factor: self.surface_factor,
            output_scale: self.output_scale,
            invalidated: self.invalidated,
            has_window: self.has_window,
            dimensions: self.dimensions,
            resize_increments: self.resize_increments,
            window_state: self.window_state,
            pending_event: self.pending_event,
            first_configure_pending: self.pending_first_configure.is_pending(),
            frame_pending: self.frame_pending,
            config: self.config,
            title: match self.title {
                Some(title) => Some(title@),
                None => None,
            },
            has_render_surface: self.has_render_surface,
        }
    }
}

impl WaylandWindowInner {
    /// Creates the state of a new window, together with the receiver that
    /// tells when it has first been configured.
    pub fn new(pixel_width: u32, pixel_height: u32, config: WindowConfig) -> (created: (
        WaylandWindowInner,
        async_channel::Receiver<()>,
    ))
        requires
            config.wf(),
        ensures
            created.0@ == WindowModel::initial(pixel_width, pixel_height, config),
            created.0@.inv(),
    {
        let (signal, receiver) = FirstConfigureGate::new();
        let inner = WaylandWindowInner {
            surface_factor: 1,
            output_scale: 1,
            has_window: true,
            dimensions: Dimensions { pixel_width, pixel_height, dpi: config.dpi_for_scale(1) },
            resize_increments: None,
            window_state: WindowState::default(),
            pending_event: PendingEvent::new(),
            pending_first_configure: signal,
            frame_pending: false,
            invalidated: false,
            config,
            title: None,
            has_render_surface: false,
        };
        (inner, receiver)
    }

    /// The canonical pixel size and density.
    pub fn dimensions(&self) -> (dimensions: Dimensions)
        ensures
            dimensions == self@.dimensions,
    {
        self.dimensions
    }

    /// The canonical window state.
    pub fn window_state(&self) -> (state: WindowState)
        ensures
            state == self@.window_state,
    {
        self.window_state
    }

    /// The title last set, if any.
    pub fn title(&self) -> (title: Option<&String>)
        ensures
            match title {
                Some(t) => self@.title == Some(t@),
                None => self@.title is None,
            },
    {
        self.title.as_ref()
    }

    /// The output scale that the surface's buffer was last matched to.
    pub fn surface_factor(&self) -> (scale: i32)
        ensures
            scale == self@.surface_factor,
    {
        self.surface_factor
    }

    /// The output scale that the compositor last told of.
    pub fn output_scale(&self) -> (scale: i32)
        ensures
            scale == self@.output_scale,
    {
        self.output_scale
    }

    /// Whether a frame callback is outstanding.
    pub fn frame_pending(&self) -> (pending: bool)
        ensures
            pending == self@.frame_pending,
    {
        self.frame_pending
    }

    /// Whether a paint is owed once the outstanding frame callback returns.
    pub fn invalidated(&self) -> (invalidated: bool)
        ensures
            invalidated == self@.invalidated,
    {
        self.invalidated
    }

    /// Whether the window has not been closed.
    pub fn is_open(&self) -> (open: bool)
        ensures
            open == self@.has_window,
    {
        self.has_window
    }

    /// Where the window stands in its life.
    pub fn lifecycle(&self) -> (stage: Lifecycle)
        ensures
            stage == self@.lifecycle(),
    {
        if !self.has_window {
            Lifecycle::Closed
        } else if self.pending_first_configure.pending() {
            Lifecycle::AwaitingFirstConfigure
        } else {
            Lifecycle::Live
        }
    }

    /// The notifications that no pass has reconciled yet.
    pub fn pending_event(&self) -> (pending: PendingEvent)
        ensures
            pending == self@.pending_event,
    {
        self.pending_event
    }

    /// The step to which the pixel size snaps, if one is set.
    pub fn resize_increments(&self) -> (increments: Option<(u16, u16)>)
        ensures
            increments == self@.resize_increments,
    {
        self.resize_increments
    }

    /// Sets or clears the step to which the pixel size snaps.
    pub fn set_resize_increments(&mut self, increments: Option<(u16, u16)>)
        requires
            old(self)@.inv(),
            increments matches Some(step) ==> step.0 > 0 && step.1 > 0,
        ensures
            final(self)@ == (WindowModel { resize_increments: increments, ..old(self)@ }),
            final(self)@.inv(),
    {
        self.resize_increments = increments;
    }

    /// Converts a length in surface units to pixels at the window's density.
    pub fn surface_to_pixels(&self, surface: u32) -> (pixels: u32)
        ensures
            pixels as int == saturate(
                surface_to_pixels_spec(surface as int, self@.dimensions.dpi as int),
            ),
    {
        surface_to_pixels(surface, self.dimensions.dpi)
    }

    /// Converts a length in pixels to surface units at the window's density.
    pub fn pixels_to_surface(&self, pixels: u32) -> (surface: u32)
        requires
            self@.inv(),
        ensures
            surface as int == saturate(
                pixels_to_surface_spec(pixels as int, self@.dimensions.dpi as int),
            ),
    {
        pixels_to_surface(pixels, self.dimensions.dpi)
    }

    /// Commits the surface of an open window.
    pub fn refresh_frame(&self) -> (actions: Vec<WindowAction>)
        ensures
            actions@ == self@.refresh_frame(),
    {
        let mut actions: Vec<WindowAction> = Vec::new();
        if self.has_window {
            actions.push(WindowAction::CommitSurface);
        }
        assert(actions@ =~= self@.refresh_frame());
        actions
    }

    /// The frame pacer's request: appends to `actions` what a paint calls for
    /// now.
    fn paint_into(&mut self, actions: &mut Vec<WindowAction>)
        ensures
            final(self)@ == old(self)@.request_paint().0,
            final(actions)@ == old(actions)@ + old(self)@.request_paint().1,
    {
        if self.frame_pending {
            self.invalidated = true;
            assert(actions@ =~= old(actions)@ + old(self)@.request_paint().1);
            return ;
        }
        if !self.has_window {
            assert(actions@ =~= old(actions)@ + old(self)@.request_paint().1);
            return ;
        }
        self.invalidated = false;
        self.frame_pending = true;
        actions.push(WindowAction::RequestFrameCallback);
        actions.push(WindowAction::Dispatch(WindowEvent::NeedRepaint));
        assert(actions@ =~= old(actions)@ + old(self)@.request_paint().1);
    }

    /// Asks for a paint.  At most one frame callback is outstanding at a
    /// time: while one is, the request is remembered and nothing is emitted.
    /// With none outstanding, a closed window is left as it is.
    pub fn do_paint(&mut self) -> (actions: Vec<WindowAction>)
        ensures
            (final(self)@, actions@) == old(self)@.request_paint(),
    {
        let mut actions: Vec<WindowAction> = Vec::new();
        self.paint_into(&mut actions);
        assert(actions@ =~= old(self)@.request_paint().1);
        actions
    }

    /// Marks the window contents as stale, which asks for a paint.
    pub fn invalidate(&mut self) -> (actions: Vec<WindowAction>)
        ensures
            (final(self)@, actions@) == old(self)@.request_paint(),
    {
        self.do_paint()
    }

    /// Shows the window, which asks for a paint.  A closed window is left as
    /// it is.
    pub fn show(&mut self) -> (actions: Vec<WindowAction>)
        ensures
            (final(self)@, actions@) == old(self)@.show(),
    {
        if !self.has_window {
            return Vec::new();
        }
        self.do_paint()
    }

    /// The compositor is ready for the next frame.
    pub fn next_frame_is_ready(&mut self) -> (actions: Vec<WindowAction>)
        ensures
            (final(self)@, actions@) == old(self)@.frame_ready(),
    {
        self.frame_pending = false;
        if self.invalidated {
            self.do_paint()
        } else {
            Vec::new()
        }
    }

    /// Closes the window.
    pub fn close(&mut self) -> (actions: Vec<WindowAction>)
        ensures
            (final(self)@, actions@) == old(self)@.close(),
    {
        let mut actions: Vec<WindowAction> = Vec::new();
        actions.push(WindowAction::Dispatch(WindowEvent::Destroyed));
        if self.has_render_surface {
            actions.push(WindowAction::ReleaseRenderSurface);
            actions.push(WindowAction::ReleaseGlContext);
            self.has_render_surface = false;
        }
        if self.has_window {
            actions.push(WindowAction::DestroyWindow);
            self.has_window = false;
        }
        assert(actions@ =~= old(self)@.close().1);
        actions
    }

    /// Makes the given dimensions the canonical ones and appends to `actions`
    /// what that change calls for, short of the paint.
    fn resize_into(&mut self, dimensions: Dimensions, scale: i32, actions: &mut Vec<WindowAction>)
        ensures
            final(self)@ == (WindowModel { dimensions, surface_factor: scale, ..old(self)@ }),
            final(actions)@ == old(actions)@ + old(self)@.resize_actions(dimensions, scale),
    {
        self.dimensions = dimensions;
        actions.push(
            WindowAction::Dispatch(
                WindowEvent::Resized {
                    dimensions,
                    window_state: self.window_state,
                    live_resizing: false,
                },
            ),
        );
        if self.has_render_surface {
            actions.push(
                WindowAction::ResizeRenderSurface {
                    pixel_width: dimensions.pixel_width,
                    pixel_height: dimensions.pixel_height,
                },
            );
        }
        if self.surface_factor != scale {
            actions.push(WindowAction::AttachScaledBuffer { scale });
            self.surface_factor = scale;
        }
        assert(actions@ =~= old(actions)@ + old(self)@.resize_actions(dimensions, scale));
    }

    /// Brings the window to a surface size at a scale and appends to
    /// `actions` what that calls for.
    fn apply_size_into(&mut self, size: (u32, u32), scale: i32, actions: &mut Vec<WindowAction>)
        requires
            old(self)@.config.wf(),
            old(self)@.resize_increments matches Some(step) ==> step.0 > 0 && step.1 > 0,
            scale > 0,
        ensures
            final(self)@ == old(self)@.apply_size(size, scale).0,
            final(actions)@ == old(actions)@ + old(self)@.apply_size(size, scale).1,
    {
        let dpi: u64 = self.config.dpi_for_scale(scale);
        let (step_x, step_y): (Option<u16>, Option<u16>) = if self.window_state.can_resize() {
            match self.resize_increments {
                Some((x, y)) => (Some(x), Some(y)),
                None => (None, None),
            }
        } else {
            (None, None)
        };
        let new_dimensions = Dimensions {
            pixel_width: pixel_length(size.0, step_x, dpi),
            pixel_height: pixel_length(size.1, step_y, dpi),
            dpi,
        };
        assert(new_dimensions == old(self)@.target_dimensions(size, old(self)@.window_state, scale));
        self.output_scale = scale;
        if new_dimensions != self.dimensions {
            self.resize_into(new_dimensions, scale, actions);
        }
        let ghost resized = self@;
        let ghost resize = actions@;
        actions.push(WindowAction::CommitSurface);
        self.paint_into(actions);
        reveal(WindowModel::apply_size);
        assert(actions@ =~= resize + (seq![WindowAction::CommitSurface] + resized.request_paint().1));
        assert(actions@ =~= old(actions)@ + old(self)@.apply_size(size, scale).1);
    }

    /// The surface size that a pass over `pending` works with.
    fn target_size(&self, pending: &PendingEvent) -> (size: Option<(u32, u32)>)
        requires
            self@.dimensions.dpi > 0,
        ensures
            size == self@.target_size(*pending),
    {
        match pending.configure {
            Some(size) => Some(size),
            None => if pending.scale_factor.is_some() {
                Some(
                    (
                        pixels_to_surface(self.dimensions.pixel_width, self.dimensions.dpi),
                        pixels_to_surface(self.dimensions.pixel_height, self.dimensions.dpi),
                    ),
                )
            } else {
                None
            },
        }
    }

    /// One reconciliation pass over a drained record.
    pub fn reconcile(&mut self, pending: PendingEvent) -> (actions: Vec<WindowAction>)
        requires
            old(self)@.inv(),
            pending.wf(),
        ensures
            (final(self)@, actions@) == old(self)@.reconcile(pending),
            final(self)@.inv(),
    {
        let ghost before = self@;
        let mut actions: Vec<WindowAction> = Vec::new();
        if pending.close {
            actions.push(WindowAction::Dispatch(WindowEvent::CloseRequested));
        }
        let ghost close = actions@;
        let scale: i32 = match pending.scale_factor {
            Some(scale) => scale,
            None => self.output_scale,
        };
        let size: Option<(u32, u32)> = self.target_size(&pending);
        if let Some(window_state) = pending.window_state {
            self.window_state = window_state;
        }
        let ghost stated = self@;
        if let Some(size) = size {
            if self.has_window {
                self.apply_size_into(size, scale, &mut actions);
            }
        }
        let ghost resize = actions@;
        if pending.refresh_decorations && self.has_window {
            actions.push(WindowAction::CommitSurface);
        }
        if pending.had_configure_event && self.has_window {
            self.pending_first_configure.signal();
        }
        proof {
            stated.lemma_apply_size_frame(size.unwrap(), scale);
            let model = before.reconcile(pending);
            let sized = match before.target_size(pending) {
                Some(size) => if before.has_window {
                    stated.apply_size(size, scale)
                } else {
                    (stated, Seq::empty())
                },
                None => (stated, Seq::empty()),
            };
            assert(resize =~= close + sized.1);
            assert(actions@ =~= model.1);
            assert(self@ == model.0);
            before.lemma_reconcile_frame(pending);
        }
        actions
    }

    /// A reconciliation pass over the window's own record: the record is
    /// drained, and what it held is reconciled.
    pub fn dispatch_pending_event(&mut self) -> (actions: Vec<WindowAction>)
        requires
            old(self)@.inv(),
        ensures
            (final(self)@, actions@) == old(self)@.dispatch_pending_event(),
            final(self)@.inv(),
            final(self)@.pending_event == PendingEvent::empty(),
    {
        let pending: PendingEvent = self.pending_event.drain();
        proof {
            self@.lemma_reconcile_frame(pending);
        }
        self.reconcile(pending)
    }

    /// Records a notification about the toplevel without reconciling.
    /// Returns whether it changed what is pending, and so calls for a pass.
    pub fn record_window_event(&mut self, event: WaylandWindowEvent) -> (changed: bool)
        ensures
            final(self)@ == (WindowModel {
                pending_event: old(self)@.recorded(event),
                ..old(self)@
            }),
            changed == old(self)@.event_changes(event),
            old(self)@.inv() ==> final(self)@.inv(),
    {
        match event {
            WaylandWindowEvent::Close => self.pending_event.record_close(),
            WaylandWindowEvent::Request(configure) => self.pending_event.record_configure(
                configure.surface_size(),
                configure.state.window_state(),
            ),
        }
    }

    /// Records a change of the output scale without reconciling.
    pub fn record_scale_change(&mut self, scale: i32)
        requires
            old(self)@.inv(),
            scale > 0,
        ensures
            final(self)@ == (WindowModel {
                pending_event: old(self)@.pending_event.with_scale(scale, old(self)@.dimensions),
                ..old(self)@
            }),
            final(self)@.inv(),
    {
        self.pending_event.record_scale_change(scale, self.dimensions);
    }

    /// Marks the decorations as in need of a refresh without reconciling.
    /// Returns whether they were not marked before.
    pub fn record_refresh_decorations(&mut self) -> (changed: bool)
        ensures
            final(self)@ == (WindowModel {
                pending_event: PendingEvent {
                    refresh_decorations: true,
                    ..old(self)@.pending_event
                },
                ..old(self)@
            }),
            changed == !old(self)@.pending_event.refresh_decorations,
            old(self)@.inv() ==> final(self)@.inv(),
    {
        self.pending_event.record_refresh_decorations()
    }

    /// Takes in a notification about the toplevel.  It is recorded, and where
    /// that changed what is pending a reconciliation pass follows at once.
    pub fn handle_window_event(&mut self, event: WaylandWindowEvent) -> (actions: Vec<WindowAction>)
        requires
            old(self)@.inv(),
        ensures
            (final(self)@, actions@) == old(self)@.handle_window_event(event),
            final(self)@.inv(),
    {
        let changed: bool = self.record_window_event(event);
        if changed {
            self.dispatch_pending_event()
        } else {
            Vec::new()
        }
    }

    /// Takes in a change of the output scale and reconciles at once.
    pub fn scale_factor_changed(&mut self, scale: i32) -> (actions: Vec<WindowAction>)
        requires
            old(self)@.inv(),
            scale > 0,
        ensures
            (final(self)@, actions@) == old(self)@.scale_factor_changed(scale),
            final(self)@.inv(),
    {
        self.record_scale_change(scale);
        self.dispatch_pending_event()
    }

    /// Decides how the paint resources of the window are to be acquired.
    /// Without EGL there is no way; a closed window has nothing to paint on;
    /// otherwise the GPU context goes on the display connection that an
    /// earlier window opened, if there is one.
    pub fn enable_opengl(&self, egl_available: bool, has_gl_connection: bool) -> (setup: Result<
        GlSetup,
        WindowError,
    >)
        ensures
            setup == self@.gl_setup(egl_available, has_gl_connection),
    {
        if !egl_available {
            Err(WindowError::PaintResource(PaintFailure::EglUnavailable))
        } else if !self.has_window {
            Err(WindowError::PaintResource(PaintFailure::WindowMissing))
        } else if has_gl_connection {
            Ok(
                GlSetup::ExistingConnection {
                    surface_width: INITIAL_RENDER_SURFACE_SIZE,
                    surface_height: INITIAL_RENDER_SURFACE_SIZE,
                },
            )
        } else {
            Ok(
                GlSetup::NewConnection {
                    surface_width: INITIAL_RENDER_SURFACE_SIZE,
                    surface_height: INITIAL_RENDER_SURFACE_SIZE,
                },
            )
        }
    }

    /// Takes note that the paint resources have been acquired: from now on a
    /// change of size resizes the rendering surface too.
    pub fn opengl_enabled(&mut self)
        ensures
            final(self)@ == (WindowModel { has_render_surface: true, ..old(self)@ }),
            old(self)@.inv() ==> final(self)@.inv(),
    {
        self.has_render_surface = true;
    }

    /// Whether the paint resources have been acquired.
    pub fn has_render_surface(&self) -> (present: bool)
        ensures
            present == self@.has_render_surface,
    {
        self.has_render_surface
    }

    /// Sets the window's title, unless it is the title already.
    pub fn set_title(&mut self, title: String) -> (actions: Vec<WindowAction>)
        ensures
            (final(self)@, actions@) == old(self)@.set_title(title@),
    {
        let mut actions: Vec<WindowAction> = Vec::new();
        let same: bool = match &self.title {
            Some(last_title) => *last_title == title,
            None => false,
        };
        if same {
            return actions;
        }
        if self.has_window {
            actions.push(WindowAction::UpdateTitle);
            actions.push(WindowAction::CommitSurface);
        }
        self.title = Some(title);
        assert(actions@ =~= old(self)@.set_title(title@).1);
        actions
    }
}

} // verus!
