//! The coalescing record of notifications that have arrived since the last
//! reconciliation pass.
//!
//! Each field keeps the latest value only.  The record is the one channel
//! from the protocol dispatcher to the reconciler: a window holds its own,
//! notifications are recorded there one by one, and a pass drains it.  Both
//! take the window exclusively, so a pass never sees a record half written.

use vstd::prelude::*;
use crate::geometry::pixels_to_surface;
use crate::geometry::pixels_to_surface_spec;
use crate::geometry::saturate;
use crate::state::Dimensions;
use crate::state::WindowState;

verus! {

/// Notifications accumulated between two reconciliation passes.
#[derive(Clone, Copy, Debug, PartialEq, Eq)]
pub struct PendingEvent {
    /// The window was asked to close.
    pub close: bool,
    /// At least one configure notification arrived.
    pub had_configure_event: bool,
    /// The decorations need a refresh even if the size stays as it is.
    pub refresh_decorations: bool,
    /// The latest proposed size, in surface units.
    pub configure: Option<(u32, u32)>,
    /// The latest output scale.
    pub scale_factor: Option<i32>,
    /// The latest window state.
    pub window_state: Option<WindowState>,
}

/// The surface size that covers the given pixel dimensions.
pub open spec fn surface_size_of(current: Dimensions) -> (u32, u32) {
    (
        saturate(pixels_to_surface_spec(current.pixel_width as int, current.dpi as int)) as u32,
        saturate(pixels_to_surface_spec(current.pixel_height as int, current.dpi as int)) as u32,
    )
}

impl PendingEvent {
    /// The record with nothing pending.
    pub open spec fn empty() -> PendingEvent {
        PendingEvent {
            close: false,
            had_configure_event: false,
            refresh_decorations: false,
            configure: None,
            scale_factor: None,
            window_state: None,
        }
    }

    /// A pending scale is positive.
    pub open spec fn wf(self) -> bool {
        self.scale_factor matches Some(scale) ==> scale > 0
    }

    /// The record after a configure notification: the size is replaced only
    /// by a size, the state always.
    pub open spec fn with_configure(
        self,
        surface_size: Option<(u32, u32)>,
        window_state: WindowState,
    ) -> PendingEvent {
        PendingEvent {
            had_configure_event: true,
            configure: if surface_size is Some {
                surface_size
            } else {
                self.configure
            },
            window_state: Some(window_state),
            ..self
        }
    }

    /// Whether a configure notification calls for a reconciliation pass: it
    /// is the first one since the last pass, it proposes no size (the window
    /// chooses), its size differs from the pending one, or its state differs
    /// from the pending one (an absent pending state counts as normal).
    pub open spec fn configure_changes(
        self,
        surface_size: Option<(u32, u32)>,
        window_state: WindowState,
    ) -> bool {
        ||| !self.had_configure_event
        ||| surface_size is None
        ||| self.configure != surface_size
        ||| window_state != match self.window_state {
            Some(pending) => pending,
            None => WindowState::normal(),
        }
    }

    /// The record after a change of scale: the scale is stored, and a size is
    /// made up from the current dimensions unless one is pending already.
    pub open spec fn with_scale(self, scale: i32, current: Dimensions) -> PendingEvent {
        PendingEvent {
            scale_factor: Some(scale),
            configure: if self.configure is Some {
                self.configure
            } else {
                Some(surface_size_of(current))
            },
            ..self
        }
    }

    /// Creates a record with nothing pending.
    pub fn new() -> (pending: PendingEvent)
        ensures
            pending == PendingEvent::empty(),
    {
        PendingEvent {
            close: false,
            had_configure_event: false,
            refresh_decorations: false,
            configure: None,
            scale_factor: None,
            window_state: None,
        }
    }

    /// Whether nothing is pending.
    pub fn is_empty(&self) -> (empty: bool)
        ensures
            empty == (*self == PendingEvent::empty()),
    {
        !self.close && !self.had_configure_event && !self.refresh_decorations
            && self.configure.is_none() && self.scale_factor.is_none() && self.window_state.is_none()
    }

    /// Records a close request.  Returns whether none was pending before.
    pub fn record_close(&mut self) -> (changed: bool)
        ensures
            *final(self) == (PendingEvent { close: true, ..*old(self) }),
            changed == !old(self).close,
            old(self).wf() ==> final(self).wf(),
    {
        if !self.close {
            self.close = true;
            true
        } else {
            false
        }
    }

    /// Records a configure notification, overwriting what an earlier one left.
    /// Returns whether a reconciliation pass is called for.
    pub fn record_configure(
        &mut self,
        surface_size: Option<(u32, u32)>,
        window_state: WindowState,
    ) -> (changed: bool)
        ensures
            *final(self) == old(self).with_configure(surface_size, window_state),
            changed == old(self).configure_changes(surface_size, window_state),
            old(self).wf() ==> final(self).wf(),
    {
        let mut changed: bool = !self.had_configure_event;
        self.had_configure_event = true;
        match surface_size {
            Some((w, h)) => {
                match self.configure {
                    Some((pending_w, pending_h)) => {
                        if pending_w != w || pending_h != h {
                            changed = true;
                        }
                    },
                    None => {
                        changed = true;
                    },
                }
                self.configure = Some((w, h));
            },
            None => {
                changed = true;
            },
        }
        let pending_state: WindowState = match self.window_state {
            Some(pending) => pending,
            None => WindowState::default(),
        };
        if window_state != pending_state {
            changed = true;
        }
        self.window_state = Some(window_state);
        changed
    }

    /// Records a change of the output scale.  Where no size is pending, one
    /// is made up from the current pixel dimensions, so that a change of scale
    /// alone still has the geometry computed anew.
    pub fn record_scale_change(&mut self, scale: i32, current: Dimensions)
        requires
            scale > 0,
            current.dpi > 0,
        ensures
            *final(self) == old(self).with_scale(scale, current),
            final(self).wf(),
    {
        self.scale_factor = Some(scale);
        if self.configure.is_none() {
            self.configure = Some(
                (
                    pixels_to_surface(current.pixel_width, current.dpi),
                    pixels_to_surface(current.pixel_height, current.dpi),
                ),
            );
        }
    }

    /// Marks the decorations as in need of a refresh.  Returns whether they
    /// were not marked before.
    pub fn record_refresh_decorations(&mut self) -> (changed: bool)
        ensures
            *final(self) == (PendingEvent { refresh_decorations: true, ..*old(self) }),
            changed == !old(self).refresh_decorations,
            old(self).wf() ==> final(self).wf(),
    {
        let changed: bool = !self.refresh_decorations;
        self.refresh_decorations = true;
        changed
    }

    /// Takes everything that is pending and leaves the record empty.
    pub fn drain(&mut self) -> (snapshot: PendingEvent)
        ensures
            snapshot == *old(self),
            *final(self) == PendingEvent::empty(),
    {
        let snapshot: PendingEvent = *self;
        *self = PendingEvent::new();
        snapshot
    }
}

impl Default for PendingEvent {
    fn default() -> (pending: PendingEvent)
        ensures
            pending == PendingEvent::empty(),
    {
        PendingEvent::new()
    }
}

/// Of two configure notifications recorded before a pass, the later one
/// decides: the drained size is the second one's, and so is the state.
pub proof fn lemma_configure_last_write_wins(
    pending: PendingEvent,
    first: (u32, u32),
    first_state: WindowState,
    second: (u32, u32),
    second_state: WindowState,
)
    ensures
        pending.with_configure(Some(first), first_state).with_configure(
            Some(second),
            second_state,
        ).configure == Some(second),
        pending.with_configure(Some(first), first_state).with_configure(
            Some(second),
            second_state,
        ).window_state == Some(second_state),
        pending.with_configure(Some(first), first_state).with_configure(Some(second), second_state)
            == pending.with_configure(Some(second), second_state),
{
}

/// A configure notification without a size leaves the pending size as it is.
pub proof fn lemma_configure_without_size_keeps_size(pending: PendingEvent, state: WindowState)
    ensures
        pending.with_configure(None, state).configure == pending.configure,
{
}

} // verus!
