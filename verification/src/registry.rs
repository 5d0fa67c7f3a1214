//! The windows of one connection, by number.
//!
//! The application names a window by its handle; the protocol dispatcher
//! names it by the number stored with its surface.  Either way the window is
//! looked up here, and a number that names no window is answered with
//! nothing.

use std::collections::HashMap;
use vstd::prelude::*;
use crate::event::GlSetup;
use crate::event::PaintFailure;
use crate::event::WaylandWindowEvent;
use crate::event::WindowAction;
use crate::event::WindowError;
use crate::model::WindowModel;
use crate::state::decoration_mode;
use crate::state::decoration_mode_spec;
use crate::state::DecorationMode;
use crate::state::WindowConfig;
use crate::window::WaylandWindow;
use crate::window::WaylandWindowInner;

verus! {

broadcast use vstd::std_specs::hash::group_hash_axioms;

/// The smallest size, in surface units, that a window asks the compositor to
/// respect.
pub const MIN_WINDOW_SIZE: u32 = 32;

/// What the embedding program needs to bring a newly created window to the
/// compositor: the handle it is registered under, the receiver to wait on
/// until the first configure has been reconciled, and what to tell the
/// compositor about the toplevel.
pub struct NewWindow {
    pub window: WaylandWindow,
    pub first_configure: async_channel::Receiver<()>,
    pub app_id: String,
    pub title: String,
    pub decoration_mode: Option<DecorationMode>,
    pub min_size: (u32, u32),
}

/// The windows of one connection, and the number that the next one gets.
pub struct WindowRegistry {
    windows: HashMap<usize, WaylandWindowInner>,
    next_window_id: usize,
}

/// An operation carried to the window of the given number: where there is
/// such a window it takes the outcome's state and the outcome's actions are
/// called for; where there is none, nothing changes and nothing is called
/// for.
pub open spec fn applied(
    windows: Map<usize, WindowModel>,
    id: usize,
    outcome: (WindowModel, Seq<WindowAction>),
) -> (Map<usize, WindowModel>, Seq<WindowAction>) {
    if windows.contains_key(id) {
        (windows.insert(id, outcome.0), outcome.1)
    } else {
        (windows, Seq::empty())
    }
}

impl View for WindowRegistry {
    type V = Map<usize, WindowModel>;

    closed spec fn view(&self) -> Map<usize, WindowModel> {
        self.windows@.map_values(|inner: WaylandWindowInner| inner@)
    }
}

impl WindowRegistry {
    /// The number that the next window gets.
    pub closed spec fn next_id(&self) -> usize {
        self.next_window_id
    }

    /// Every registered window is well formed, and its number has been
    /// handed out.
    pub closed spec fn inv(&self) -> bool {
        forall|id: usize| #[trigger]
            self.windows@.contains_key(id) ==> self.windows@[id]@.inv() && id < self.next_window_id
    }

    /// What the invariant says, in terms of the view.
    pub proof fn lemma_inv(&self)
        requires
            self.inv(),
        ensures
            forall|id: usize| #[trigger]
                self@.contains_key(id) ==> self@[id].inv() && id < self.next_id(),
    {
    }

    /// Creates a registry without windows, whose first window gets number 0.
    pub fn new() -> (registry: WindowRegistry)
        ensures
            registry@ == Map::<usize, WindowModel>::empty(),
            registry.next_id() == 0,
            registry.inv(),
    {
        let registry = WindowRegistry { windows: HashMap::new(), next_window_id: 0 };
        assert(registry@ =~= Map::<usize, WindowModel>::empty());
        registry
    }

    /// The number that the next window will get.
    pub fn upcoming_window_id(&self) -> (id: usize)
        ensures
            id == self.next_id(),
    {
        self.next_window_id
    }

    /// Hands out the number for a new window.  It names no registered window.
    pub fn next_window_id(&mut self) -> (id: usize)
        requires
            old(self).inv(),
            old(self).next_id() < usize::MAX,
        ensures
            id == old(self).next_id(),
            final(self).next_id() == id + 1,
            final(self)@ == old(self)@,
            !final(self)@.contains_key(id),
            final(self).inv(),
    {
        let id: usize = self.next_window_id;
        self.next_window_id = id + 1;
        id
    }

    /// Whether a window of that number is registered.
    pub fn contains(&self, window: &WaylandWindow) -> (present: bool)
        ensures
            present == self@.contains_key(window.id()),
    {
        self.windows.contains_key(&window.0)
    }

    /// The state of the window of that handle, if it is registered.
    pub fn get(&self, window: &WaylandWindow) -> (found: Option<&WaylandWindowInner>)
        ensures
            match found {
                Some(inner) => self@.contains_key(window.id()) && inner@ == self@[window.id()],
                None => !self@.contains_key(window.id()),
            },
    {
        self.windows.get(&window.0)
    }

    /// Registers a window under a number that has been handed out, in place
    /// of any window registered under it before.
    pub fn insert(&mut self, window: &WaylandWindow, inner: WaylandWindowInner)
        requires
            old(self).inv(),
            inner@.inv(),
            window.id() < old(self).next_id(),
        ensures
            final(self)@ == old(self)@.insert(window.id(), inner@),
            final(self).next_id() == old(self).next_id(),
            final(self).inv(),
    {
        self.put(window.0, inner);
    }

    /// Takes a window out of the registry, if it is there.
    pub fn remove(&mut self, window: &WaylandWindow) -> (removed: Option<WaylandWindowInner>)
        requires
            old(self).inv(),
        ensures
            final(self)@ == old(self)@.remove(window.id()),
            final(self).next_id() == old(self).next_id(),
            final(self).inv(),
            match removed {
                Some(inner) => old(self)@.contains_key(window.id()) && inner@ == old(self)@[window.id()]
                    && inner@.inv(),
                None => !old(self)@.contains_key(window.id()),
            },
    {
        self.take(window.0)
    }

    fn take(&mut self, id: usize) -> (taken: Option<WaylandWindowInner>)
        requires
            old(self).inv(),
        ensures
            final(self)@ == old(self)@.remove(id),
            final(self).next_id() == old(self).next_id(),
            final(self).inv(),
            match taken {
                Some(inner) => old(self)@.contains_key(id) && inner@ == old(self)@[id] && inner@.inv()
                    && id < old(self).next_id(),
                None => !old(self)@.contains_key(id),
            },
    {
        let taken = self.windows.remove(&id);
        assert(self@ =~= old(self)@.remove(id));
        taken
    }

    fn put(&mut self, id: usize, inner: WaylandWindowInner)
        requires
            old(self).inv(),
            inner@.inv(),
            id < old(self).next_id(),
        ensures
            final(self)@ == old(self)@.insert(id, inner@),
            final(self).next_id() == old(self).next_id(),
            final(self).inv(),
    {
        self.windows.insert(id, inner);
        assert(self@ =~= old(self)@.insert(id, inner@));
    }

    /// Records a notification about a toplevel with its window, without
    /// reconciling.  Returns whether it changed what is pending there, and so
    /// calls for a pass; for a number that names no window it does not.
    pub fn record_window_event(&mut self, window_id: usize, event: WaylandWindowEvent) -> (changed:
        bool)
        requires
            old(self).inv(),
        ensures
            final(self)@ == applied(
                old(self)@,
                window_id,
                (
                    WindowModel {
                        pending_event: old(self)@[window_id].recorded(event),
                        ..old(self)@[window_id]
                    },
                    Seq::<WindowAction>::empty(),
                ),
            ).0,
            changed == (old(self)@.contains_key(window_id) && old(self)@[window_id].event_changes(
                event,
            )),
            final(self).next_id() == old(self).next_id(),
            final(self).inv(),
    {
        match self.take(window_id) {
            Some(mut inner) => {
                let changed = inner.record_window_event(event);
                self.put(window_id, inner);
                assert(self@ =~= old(self)@.insert(window_id, inner@));
                changed
            },
            None => {
                assert(self@ =~= old(self)@);
                false
            },
        }
    }

    /// Records a change of the output scale with a window, without
    /// reconciling.
    pub fn record_scale_change(&mut self, window_id: usize, scale: i32)
        requires
            old(self).inv(),
            scale > 0,
        ensures
            final(self)@ == applied(
                old(self)@,
                window_id,
                (
                    WindowModel {
                        pending_event: old(self)@[window_id].pending_event.with_scale(
                            scale,
                            old(self)@[window_id].dimensions,
                        ),
                        ..old(self)@[window_id]
                    },
                    Seq::<WindowAction>::empty(),
                ),
            ).0,
            final(self).next_id() == old(self).next_id(),
            final(self).inv(),
    {
        match self.take(window_id) {
            Some(mut inner) => {
                inner.record_scale_change(scale);
                self.put(window_id, inner);
                assert(self@ =~= old(self)@.insert(window_id, inner@));
            },
            None => {
                assert(self@ =~= old(self)@);
            },
        }
    }

    /// Runs a reconciliation pass over what is pending with a window.
    pub fn dispatch_pending_event(&mut self, window_id: usize) -> (actions: Vec<WindowAction>)
        requires
            old(self).inv(),
        ensures
            (final(self)@, actions@) == applied(
                old(self)@,
                window_id,
                old(self)@[window_id].dispatch_pending_event(),
            ),
            final(self).next_id() == old(self).next_id(),
            final(self).inv(),
    {
        match self.take(window_id) {
            Some(mut inner) => {
                let actions = inner.dispatch_pending_event();
                self.put(window_id, inner);
                assert(self@ =~= old(self)@.insert(window_id, inner@));
                actions
            },
            None => {
                assert(self@ =~= old(self)@);
                Vec::new()
            },
        }
    }

    /// Carries a notification about a toplevel to its window.
    pub fn handle_window_event(&mut self, window_id: usize, event: WaylandWindowEvent) -> (actions:
        Vec<WindowAction>)
        requires
            old(self).inv(),
        ensures
            (final(self)@, actions@) == applied(
                old(self)@,
                window_id,
                old(self)@[window_id].handle_window_event(event),
            ),
            final(self).next_id() == old(self).next_id(),
            final(self).inv(),
    {
        match self.take(window_id) {
            Some(mut inner) => {
                let actions = inner.handle_window_event(event);
                self.put(window_id, inner);
                assert(self@ =~= old(self)@.insert(window_id, inner@));
                actions
            },
            None => {
                assert(self@ =~= old(self)@);
                Vec::new()
            },
        }
    }

    /// Carries a change of the output scale to a window.
    pub fn scale_factor_changed(&mut self, window_id: usize, scale: i32) -> (actions: Vec<
        WindowAction,
    >)
        requires
            old(self).inv(),
            scale > 0,
        ensures
            (final(self)@, actions@) == applied(
                old(self)@,
                window_id,
                old(self)@[window_id].scale_factor_changed(scale),
            ),
            final(self).next_id() == old(self).next_id(),
            final(self).inv(),
    {
        match self.take(window_id) {
            Some(mut inner) => {
                let actions = inner.scale_factor_changed(scale);
                self.put(window_id, inner);
                assert(self@ =~= old(self)@.insert(window_id, inner@));
                actions
            },
            None => {
                assert(self@ =~= old(self)@);
                Vec::new()
            },
        }
    }

    /// Tells a window that the compositor is ready for its next frame.
    pub fn frame(&mut self, window_id: usize) -> (actions: Vec<WindowAction>)
        requires
            old(self).inv(),
        ensures
            (final(self)@, actions@) == applied(
                old(self)@,
                window_id,
                old(self)@[window_id].frame_ready(),
            ),
            final(self).next_id() == old(self).next_id(),
            final(self).inv(),
    {
        match self.take(window_id) {
            Some(mut inner) => {
                let actions = inner.next_frame_is_ready();
                self.put(window_id, inner);
                assert(self@ =~= old(self)@.insert(window_id, inner@));
                actions
            },
            None => {
                assert(self@ =~= old(self)@);
                Vec::new()
            },
        }
    }
}

impl WaylandWindow {
    /// Creates a window of the given pixel size on a connection and
    /// registers it there under the next number.  Without an initialized
    /// connection creation fails.
    pub fn new_window(
        connection: Option<&mut WindowRegistry>,
        class_name: &str,
        name: &str,
        pixel_width: u32,
        pixel_height: u32,
        config: WindowConfig,
    ) -> (created: Result<NewWindow, WindowError>)
        requires
            config.wf(),
            connection matches Some(registry) ==> registry.inv() && registry.next_id() < usize::MAX,
        ensures
            match connection {
                None => created matches Err(e) && e == WindowError::ConnectionUnavailable,
                Some(registry) => {
                    &&& created matches Ok(new)
                    &&& new.window.id() == registry.next_id()
                    &&& final(registry)@ == registry@.insert(
                        new.window.id(),
                        WindowModel::initial(pixel_width, pixel_height, config),
                    )
                    &&& final(registry).next_id() == registry.next_id() + 1
                    &&& final(registry).inv()
                    &&& new.app_id@ == class_name@
                    &&& new.title@ == name@
                    &&& new.decoration_mode == decoration_mode_spec(config.window_decorations)
                    &&& new.min_size == (MIN_WINDOW_SIZE, MIN_WINDOW_SIZE)
                },
            },
    {
        let registry: &mut WindowRegistry = match connection {
            Some(registry) => registry,
            None => {
                return Err(WindowError::ConnectionUnavailable);
            },
        };
        let id: usize = registry.next_window_id();
        let (inner, first_configure) = WaylandWindowInner::new(pixel_width, pixel_height, config);
        registry.put(id, inner);
        Ok(
            NewWindow {
                window: WaylandWindow(id),
                first_configure,
                app_id: class_name.to_owned(),
                title: name.to_owned(),
                decoration_mode: decoration_mode(config.window_decorations),
                min_size: (MIN_WINDOW_SIZE, MIN_WINDOW_SIZE),
            },
        )
    }

    /// Shows the window.
    pub fn show(&self, registry: &mut WindowRegistry) -> (actions: Vec<WindowAction>)
        requires
            old(registry).inv(),
        ensures
            (final(registry)@, actions@) == applied(
                old(registry)@,
                self.id(),
                old(registry)@[self.id()].show(),
            ),
            final(registry).next_id() == old(registry).next_id(),
            final(registry).inv(),
    {
        match registry.take(self.0) {
            Some(mut inner) => {
                let actions = inner.show();
                registry.put(self.0, inner);
                assert(registry@ =~= old(registry)@.insert(self.id(), inner@));
                actions
            },
            None => {
                assert(registry@ =~= old(registry)@);
                Vec::new()
            },
        }
    }

    /// Marks the window contents as stale.
    pub fn invalidate(&self, registry: &mut WindowRegistry) -> (actions: Vec<WindowAction>)
        requires
            old(registry).inv(),
        ensures
            (final(registry)@, actions@) == applied(
                old(registry)@,
                self.id(),
                old(registry)@[self.id()].request_paint(),
            ),
            final(registry).next_id() == old(registry).next_id(),
            final(registry).inv(),
    {
        match registry.take(self.0) {
            Some(mut inner) => {
                let actions = inner.invalidate();
                registry.put(self.0, inner);
                assert(registry@ =~= old(registry)@.insert(self.id(), inner@));
                actions
            },
            None => {
                assert(registry@ =~= old(registry)@);
                Vec::new()
            },
        }
    }

    /// Closes the window.  It stays registered, closed, until it is removed.
    pub fn close(&self, registry: &mut WindowRegistry) -> (actions: Vec<WindowAction>)
        requires
            old(registry).inv(),
        ensures
            (final(registry)@, actions@) == applied(
                old(registry)@,
                self.id(),
                old(registry)@[self.id()].close(),
            ),
            final(registry).next_id() == old(registry).next_id(),
            final(registry).inv(),
    {
        match registry.take(self.0) {
            Some(mut inner) => {
                let actions = inner.close();
                registry.put(self.0, inner);
                assert(registry@ =~= old(registry)@.insert(self.id(), inner@));
                actions
            },
            None => {
                assert(registry@ =~= old(registry)@);
                Vec::new()
            },
        }
    }

    /// Sets the window's title.
    pub fn set_title(&self, registry: &mut WindowRegistry, title: &str) -> (actions: Vec<
        WindowAction,
    >)
        requires
            old(registry).inv(),
        ensures
            (final(registry)@, actions@) == applied(
                old(registry)@,
                self.id(),
                old(registry)@[self.id()].set_title(title@),
            ),
            final(registry).next_id() == old(registry).next_id(),
            final(registry).inv(),
    {
        match registry.take(self.0) {
            Some(mut inner) => {
                let actions = inner.set_title(title.to_owned());
                registry.put(self.0, inner);
                assert(registry@ =~= old(registry)@.insert(self.id(), inner@));
                actions
            },
            None => {
                assert(registry@ =~= old(registry)@);
                Vec::new()
            },
        }
    }

    /// Takes note that the paint resources of the window have been acquired.
    pub fn opengl_enabled(&self, registry: &mut WindowRegistry)
        requires
            old(registry).inv(),
        ensures
            final(registry)@ == applied(
                old(registry)@,
                self.id(),
                (
                    WindowModel { has_render_surface: true, ..old(registry)@[self.id()] },
                    Seq::<WindowAction>::empty(),
                ),
            ).0,
            final(registry).next_id() == old(registry).next_id(),
            final(registry).inv(),
    {
        match registry.take(self.0) {
            Some(mut inner) => {
                inner.opengl_enabled();
                registry.put(self.0, inner);
                assert(registry@ =~= old(registry)@.insert(self.id(), inner@));
            },
            None => {
                assert(registry@ =~= old(registry)@);
            },
        }
    }

    /// Decides how the paint resources of the window are to be acquired.  A
    /// handle that names no window is answered like a closed window.
    pub fn enable_opengl(
        &self,
        registry: &WindowRegistry,
        egl_available: bool,
        has_gl_connection: bool,
    ) -> (setup: Result<GlSetup, WindowError>)
        ensures
            setup == if registry@.contains_key(self.id()) {
                registry@[self.id()].gl_setup(egl_available, has_gl_connection)
            } else {
                Err::<GlSetup, WindowError>(WindowError::PaintResource(PaintFailure::WindowMissing))
            },
    {
        match registry.windows.get(&self.0) {
            Some(inner) => inner.enable_opengl(egl_available, has_gl_connection),
            None => Err(WindowError::PaintResource(PaintFailure::WindowMissing)),
        }
    }
}

} // verus!
