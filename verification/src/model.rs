//! The mathematical model of a window: its canonical state as a plain value,
//! and each operation as a function from a state to the next state and the
//! actions it calls for.

use vstd::prelude::*;
use crate::event::GlSetup;
use crate::event::PaintFailure;
use crate::event::WaylandWindowEvent;
use crate::event::WindowError;
use crate::event::INITIAL_RENDER_SURFACE_SIZE;
use crate::event::WindowAction;
use crate::event::WindowEvent;
use crate::geometry::saturate;
use crate::geometry::snapped_pixels_spec;
use crate::geometry::surface_to_pixels_spec;
use crate::pending::surface_size_of;
use crate::pending::PendingEvent;
use crate::state::Dimensions;
use crate::state::WindowConfig;
use crate::state::WindowState;

verus! {

/// Where a window stands in its life.
#[derive(Clone, Copy, Debug, PartialEq, Eq)]
pub enum Lifecycle {
    /// Created, but not yet configured by the compositor.
    AwaitingFirstConfigure,
    /// Configured at least once.
    Live,
    /// Closed.  Nothing brings a window back from here.
    Closed,
}

/// The last-reconciled truth about a window.
pub struct WindowModel {
    /// The output scale that the surface's buffer was last matched to.
    pub surface_factor: i32,
    /// The output scale that the compositor last told of.
    pub output_scale: i32,
    /// A paint was asked for while a frame callback was outstanding.
    pub invalidated: bool,
    /// The toplevel exists: the window has not been closed.
    pub has_window: bool,
    /// The canonical pixel size and density.
    pub dimensions: Dimensions,
    /// The step, in pixels, that each side snaps to while the window may
    /// choose its size.
    pub resize_increments: Option<(u16, u16)>,
    /// The canonical window state.
    pub window_state: WindowState,
    /// Notifications that no pass has reconciled yet.
    pub pending_event: PendingEvent,
    /// No pass has seen a configure notification yet.
    pub first_configure_pending: bool,
    /// A frame callback has been requested and has not come back.
    pub frame_pending: bool,
    /// The configuration the window was created with.
    pub config: WindowConfig,
    /// The title last handed to the compositor.
    pub title: Option<Seq<char>>,
    /// The paint resources exist.
    pub has_render_surface: bool,
}

/// The one pixel length that a surface length comes to: scaled up, and,
/// where an increment applies, snapped down to it and carried through the
/// surface units once more.
pub open spec fn target_length(surface: u32, increment: Option<u16>, dpi: u64) -> u32 {
    let pixels = saturate(surface_to_pixels_spec(surface as int, dpi as int));
    match increment {
        Some(step) => snapped_pixels_spec(pixels, step as int, dpi as int) as u32,
        None => pixels as u32,
    }
}

impl WindowModel {
    /// What holds of every window, whatever happened to it: scale and density
    /// are positive, the density is the one that configuration and scale
    /// give, and no increment is zero.
    pub open spec fn inv(self) -> bool {
        &&& self.surface_factor > 0
        &&& self.output_scale > 0
        &&& (self.config.dpi is None ==> self.output_scale == self.surface_factor)
        &&& self.config.wf()
        &&& self.dimensions.dpi == self.config.dpi_for_scale_spec(self.surface_factor)
        &&& self.dimensions.dpi > 0
        &&& self.pending_event.wf()
        &&& (self.resize_increments matches Some(step) ==> step.0 > 0 && step.1 > 0)
    }

    /// The state of a window that has just been created.
    pub open spec fn initial(pixel_width: u32, pixel_height: u32, config: WindowConfig) -> WindowModel {
        WindowModel {
            surface_factor: 1,
            output_scale: 1,
            invalidated: false,
            has_window: true,
            dimensions: Dimensions {
                pixel_width,
                pixel_height,
                dpi: config.dpi_for_scale_spec(1),
            },
            resize_increments: None,
            window_state: WindowState::normal(),
            pending_event: PendingEvent::empty(),
            first_configure_pending: true,
            frame_pending: false,
            config,
            title: None,
            has_render_surface: false,
        }
    }

    /// Where the window stands in its life.
    pub open spec fn lifecycle(self) -> Lifecycle {
        if !self.has_window {
            Lifecycle::Closed
        } else if self.first_configure_pending {
            Lifecycle::AwaitingFirstConfigure
        } else {
            Lifecycle::Live
        }
    }

    /// A request to paint.  While a frame callback is outstanding the request
    /// is only remembered, whether the window is still open or not.
    /// Otherwise a closed window ignores it, and for an open one a callback is
    /// requested and the application is told to paint.
    pub open spec fn request_paint(self) -> (WindowModel, Seq<WindowAction>) {
        if self.frame_pending {
            (WindowModel { invalidated: true, ..self }, Seq::empty())
        } else if !self.has_window {
            (self, Seq::empty())
        } else {
            (
                WindowModel { invalidated: false, frame_pending: true, ..self },
                seq![
                    WindowAction::RequestFrameCallback,
                    WindowAction::Dispatch(WindowEvent::NeedRepaint),
                ],
            )
        }
    }

    /// Showing the window: a closed window stays as it is, an open one is
    /// asked to paint.
    pub open spec fn show(self) -> (WindowModel, Seq<WindowAction>) {
        if !self.has_window {
            (self, Seq::empty())
        } else {
            self.request_paint()
        }
    }

    /// The compositor is ready for the next frame: the callback is no longer
    /// outstanding, and a paint that was remembered meanwhile is asked for
    /// now.
    pub open spec fn frame_ready(self) -> (WindowModel, Seq<WindowAction>) {
        let idle = WindowModel { frame_pending: false, ..self };
        if self.invalidated {
            idle.request_paint()
        } else {
            (idle, Seq::empty())
        }
    }

    /// A commit of the surface, which a closed window no longer has.
    pub open spec fn refresh_frame(self) -> Seq<WindowAction> {
        if self.has_window {
            seq![WindowAction::CommitSurface]
        } else {
            Seq::empty()
        }
    }

    /// The scale that a pass works with: the pending one, else the one that
    /// the compositor last told of.
    pub open spec fn target_scale(self, pending: PendingEvent) -> i32 {
        match pending.scale_factor {
            Some(scale) => scale,
            None => self.output_scale,
        }
    }

    /// The surface size that a pass works with: the pending one; else, where
    /// only a scale is pending, the size that the current pixel dimensions
    /// cover; else none.
    pub open spec fn target_size(self, pending: PendingEvent) -> Option<(u32, u32)> {
        if pending.configure is Some {
            pending.configure
        } else if pending.scale_factor is Some {
            Some(surface_size_of(self.dimensions))
        } else {
            None
        }
    }

    /// The increments that apply under a window state: those configured, as
    /// long as the window may choose its size.
    pub open spec fn effective_increments(self, state: WindowState) -> Option<(u16, u16)> {
        if state.can_resize_spec() {
            self.resize_increments
        } else {
            None
        }
    }

    /// The pixel dimensions that a surface size comes to under a window state
    /// and a scale.
    pub open spec fn target_dimensions(self, size: (u32, u32), state: WindowState, scale: i32) -> Dimensions {
        let dpi = self.config.dpi_for_scale_spec(scale);
        let increments = self.effective_increments(state);
        Dimensions {
            pixel_width: target_length(
                size.0,
                match increments {
                    Some(step) => Some(step.0),
                    None => None,
                },
                dpi,
            ),
            pixel_height: target_length(
                size.1,
                match increments {
                    Some(step) => Some(step.1),
                    None => None,
                },
                dpi,
            ),
            dpi,
        }
    }

    /// What a change to new dimensions calls for, before the paint: the event
    /// for the application, a resize of the rendering surface if there is one,
    /// and a placeholder buffer if the scale changed.
    pub open spec fn resize_actions(self, dimensions: Dimensions, scale: i32) -> Seq<WindowAction> {
        seq![
            WindowAction::Dispatch(
                WindowEvent::Resized {
                    dimensions,
                    window_state: self.window_state,
                    live_resizing: false,
                },
            ),
        ] + (if self.has_render_surface {
            seq![
                WindowAction::ResizeRenderSurface {
                    pixel_width: dimensions.pixel_width,
                    pixel_height: dimensions.pixel_height,
                },
            ]
        } else {
            Seq::empty()
        }) + (if self.surface_factor != scale {
            seq![WindowAction::AttachScaledBuffer { scale }]
        } else {
            Seq::empty()
        })
    }

    /// Brings an open window to a surface size at a scale, which is taken
    /// note of as the scale last told.  Dimensions that are the canonical ones
    /// already change nothing else and raise no event; in either case the
    /// surface is committed and a paint is asked for.
    #[verifier::opaque]
    pub open spec fn apply_size(self, size: (u32, u32), scale: i32) -> (WindowModel, Seq<WindowAction>) {
        let dimensions = self.target_dimensions(size, self.window_state, scale);
        let told = WindowModel { output_scale: scale, ..self };
        if dimensions != self.dimensions {
            let resized = WindowModel { dimensions, surface_factor: scale, ..told };
            let (painted, paint) = resized.request_paint();
            (painted, self.resize_actions(dimensions, scale) + seq![WindowAction::CommitSurface] + paint)
        } else {
            let (painted, paint) = told.request_paint();
            (painted, seq![WindowAction::CommitSurface] + paint)
        }
    }

    /// Bringing a window to a size changes nothing but the dimensions, the
    /// two scales and the pacer's two flags, and keeps the density the one
    /// that configuration and scale give.
    pub proof fn lemma_apply_size_frame(self, size: (u32, u32), scale: i32)
        ensures
            ({
                let next = self.apply_size(size, scale).0;
                &&& next == (WindowModel {
                    dimensions: next.dimensions,
                    surface_factor: next.surface_factor,
                    output_scale: scale,
                    invalidated: next.invalidated,
                    frame_pending: next.frame_pending,
                    ..self
                })
                &&& (next.dimensions == self.dimensions && next.surface_factor == self.surface_factor
                    && self.dimensions.dpi == self.config.dpi_for_scale_spec(scale))
                    || (next.dimensions.dpi == self.config.dpi_for_scale_spec(scale)
                    && next.surface_factor == scale)
            }),
    {
        reveal(WindowModel::apply_size);
    }

    /// One reconciliation pass over a drained record.  In this order: a close
    /// request is passed on; the window state is replaced; an open window is
    /// brought to the pending size; dirty decorations are refreshed; and a
    /// pass that has seen a configure notification lets window creation
    /// complete.
    pub open spec fn reconcile(self, pending: PendingEvent) -> (WindowModel, Seq<WindowAction>) {
        let close = if pending.close {
            seq![WindowAction::Dispatch(WindowEvent::CloseRequested)]
        } else {
            Seq::empty()
        };
        let stated = WindowModel {
            window_state: match pending.window_state {
                Some(state) => state,
                None => self.window_state,
            },
            ..self
        };
        let (sized, resize) = match self.target_size(pending) {
            Some(size) => if self.has_window {
                stated.apply_size(size, self.target_scale(pending))
            } else {
                (stated, Seq::empty())
            },
            None => (stated, Seq::empty()),
        };
        let decorations = if pending.refresh_decorations {
            self.refresh_frame()
        } else {
            Seq::empty()
        };
        let configured = WindowModel {
            first_configure_pending: self.first_configure_pending && !(pending.had_configure_event
                && self.has_window),
            ..sized
        };
        (configured, close + resize + decorations)
    }

    /// A pass keeps the invariant, and leaves alone what it has no business
    /// with: the record of pending notifications, the configuration, the
    /// increments, the title, the paint resources, and whether the window is
    /// open.
    pub proof fn lemma_reconcile_frame(self, pending: PendingEvent)
        requires
            self.inv(),
            pending.wf(),
        ensures
            self.reconcile(pending).0.inv(),
            self.reconcile(pending).0.pending_event == self.pending_event,
            self.reconcile(pending).0.config == self.config,
            self.reconcile(pending).0.resize_increments == self.resize_increments,
            self.reconcile(pending).0.title == self.title,
            self.reconcile(pending).0.has_render_surface == self.has_render_surface,
            self.reconcile(pending).0.has_window == self.has_window,
    {
        let stated = WindowModel {
            window_state: match pending.window_state {
                Some(state) => state,
                None => self.window_state,
            },
            ..self
        };
        if self.target_size(pending) is Some {
            stated.lemma_apply_size_frame(self.target_size(pending).unwrap(), self.target_scale(pending));
        }
    }

    /// A pass over the window's own record, which it leaves empty.
    pub open spec fn dispatch_pending_event(self) -> (WindowModel, Seq<WindowAction>) {
        WindowModel { pending_event: PendingEvent::empty(), ..self }.reconcile(self.pending_event)
    }

    /// The record after a notification.
    pub open spec fn recorded(self, event: WaylandWindowEvent) -> PendingEvent {
        match event {
            WaylandWindowEvent::Close => PendingEvent { close: true, ..self.pending_event },
            WaylandWindowEvent::Request(configure) => self.pending_event.with_configure(
                configure.surface_size_spec(),
                configure.state.window_state_spec(),
            ),
        }
    }

    /// Whether a notification calls for a pass.
    pub open spec fn event_changes(self, event: WaylandWindowEvent) -> bool {
        match event {
            WaylandWindowEvent::Close => !self.pending_event.close,
            WaylandWindowEvent::Request(configure) => self.pending_event.configure_changes(
                configure.surface_size_spec(),
                configure.state.window_state_spec(),
            ),
        }
    }

    /// The intake of a notification: it is recorded, and where that changed
    /// anything a pass follows at once.
    pub open spec fn handle_window_event(self, event: WaylandWindowEvent) -> (WindowModel, Seq<WindowAction>) {
        let recorded = WindowModel { pending_event: self.recorded(event), ..self };
        if self.event_changes(event) {
            recorded.dispatch_pending_event()
        } else {
            (recorded, Seq::empty())
        }
    }

    /// The intake of a change of scale, which a pass always follows.
    pub open spec fn scale_factor_changed(self, scale: i32) -> (WindowModel, Seq<WindowAction>) {
        WindowModel {
            pending_event: self.pending_event.with_scale(scale, self.dimensions),
            ..self
        }.dispatch_pending_event()
    }

    /// Closing: the application is told, the paint resources are released,
    /// the rendering surface before the GPU context, and the toplevel is
    /// destroyed.  A window that is closed already only tells again.
    pub open spec fn close(self) -> (WindowModel, Seq<WindowAction>) {
        (
            WindowModel { has_window: false, has_render_surface: false, ..self },
            seq![WindowAction::Dispatch(WindowEvent::Destroyed)] + (if self.has_render_surface {
                seq![WindowAction::ReleaseRenderSurface, WindowAction::ReleaseGlContext]
            } else {
                Seq::empty()
            }) + (if self.has_window {
                seq![WindowAction::DestroyWindow]
            } else {
                Seq::empty()
            }),
        )
    }

    /// How the paint resources are to be acquired, or why they cannot be.
    pub open spec fn gl_setup(self, egl_available: bool, has_gl_connection: bool) -> Result<
        GlSetup,
        WindowError,
    > {
        if !egl_available {
            Err(WindowError::PaintResource(PaintFailure::EglUnavailable))
        } else if !self.has_window {
            Err(WindowError::PaintResource(PaintFailure::WindowMissing))
        } else if has_gl_connection {
            Ok(
                GlSetup::ExistingConnection {
                    surface_width: INITIAL_RENDER_SURFACE_SIZE,
                    surface_height: INITIAL_RENDER_SURFACE_SIZE,
                },
            )
        } else {
            Ok(
                GlSetup::NewConnection {
                    surface_width: INITIAL_RENDER_SURFACE_SIZE,
                    surface_height: INITIAL_RENDER_SURFACE_SIZE,
                },
            )
        }
    }

    /// Setting the title.  The title on record is not sent again.
    pub open spec fn set_title(self, title: Seq<char>) -> (WindowModel, Seq<WindowAction>) {
        if self.title == Some(title) {
            (self, Seq::empty())
        } else {
            (
                WindowModel { title: Some(title), ..self },
                if self.has_window {
                    seq![WindowAction::UpdateTitle, WindowAction::CommitSurface]
                } else {
                    Seq::empty()
                },
            )
        }
    }
}

} // verus!
