//! Plain values that describe a window: its size, its state flags and the
//! configuration it was created with.

use vstd::prelude::*;

verus! {

/// The size of a window's drawable area in pixels, with the density it is
/// rendered at.
#[derive(Clone, Copy, Debug, PartialEq, Eq, Structural)]
pub struct Dimensions {
    pub pixel_width: u32,
    pub pixel_height: u32,
    pub dpi: u64,
}

/// How the compositor currently presents the window.
#[derive(Clone, Copy, Debug, PartialEq, Eq, Structural)]
pub struct WindowState {
    pub full_screen: bool,
    pub maximized: bool,
    pub hidden: bool,
}

impl WindowState {
    /// The state of an ordinary, floating window: no flag set.
    pub open spec fn normal() -> WindowState {
        WindowState { full_screen: false, maximized: false, hidden: false }
    }

    /// A window may choose its own size unless the compositor dictates it.
    pub open spec fn can_resize_spec(self) -> bool {
        !self.full_screen && !self.maximized
    }

    /// Whether the window may pick a size other than the proposed one; a
    /// full-screen or maximized window must obey the compositor.
    #[verifier::when_used_as_spec(can_resize_spec)]
    pub fn can_resize(self) -> (r: bool)
        ensures
            r == self.can_resize_spec(),
    {
        !self.full_screen && !self.maximized
    }
}

impl Default for WindowState {
    fn default() -> (r: WindowState)
        ensures
            r == WindowState::normal(),
    {
        WindowState { full_screen: false, maximized: false, hidden: false }
    }
}

/// Which window decorations the user asked for.
#[derive(Clone, Copy, Debug, PartialEq, Eq, Structural)]
pub struct WindowDecorations {
    pub title: bool,
    pub resize: bool,
}

impl WindowDecorations {
    /// No decorations at all.
    pub open spec fn none() -> WindowDecorations {
        WindowDecorations { title: false, resize: false }
    }

    /// Title bar and resizable border: what a window has unless configured
    /// otherwise.
    pub open spec fn full() -> WindowDecorations {
        WindowDecorations { title: true, resize: true }
    }
}

impl Default for WindowDecorations {
    fn default() -> (r: WindowDecorations)
        ensures
            r == WindowDecorations::full(),
    {
        WindowDecorations { title: true, resize: true }
    }
}

/// Who draws the decorations of a window.
#[derive(Clone, Copy, Debug, PartialEq, Eq, Structural)]
pub enum DecorationMode {
    /// The window draws them itself.
    Client,
    /// The compositor draws them.
    Server,
}

/// The decoration mode to request from the compositor for a decoration
/// preference; `None` asks for no decorations.
pub open spec fn decoration_mode_spec(decorations: WindowDecorations) -> Option<DecorationMode> {
    if decorations == WindowDecorations::none() {
        None
    } else if decorations == WindowDecorations::full() {
        Some(DecorationMode::Server)
    } else {
        Some(DecorationMode::Client)
    }
}

/// Chooses the decoration mode to request: none for no decorations, the
/// compositor's for the full set, the window's own for anything in between.
pub fn decoration_mode(decorations: WindowDecorations) -> (mode: Option<DecorationMode>)
    ensures
        mode == decoration_mode_spec(decorations),
{
    if !decorations.title && !decorations.resize {
        None
    } else if decorations.title && decorations.resize {
        Some(DecorationMode::Server)
    } else {
        Some(DecorationMode::Client)
    }
}

/// The part of the user's configuration that a window consumes.
#[derive(Clone, Copy, Debug, PartialEq, Eq)]
pub struct WindowConfig {
    /// A fixed density that overrides the one derived from the output scale.
    pub dpi: Option<u64>,
    /// The decoration preference.
    pub window_decorations: WindowDecorations,
}

impl WindowConfig {
    /// A configured density is positive.
    pub open spec fn wf(self) -> bool {
        self.dpi matches Some(d) ==> d > 0
    }

    /// Whether a configured density is positive.
    pub fn is_valid(&self) -> (valid: bool)
        ensures
            valid == self.wf(),
    {
        match self.dpi {
            Some(d) => d > 0,
            None => true,
        }
    }

    /// The density to render at when the output has the given scale.
    pub open spec fn dpi_for_scale_spec(self, scale: i32) -> u64 {
        match self.dpi {
            Some(d) => d,
            None => (scale * crate::geometry::DEFAULT_DPI) as u64,
        }
    }

    /// The density to render at when the output has the given scale: the
    /// configured override if there is one, else the reference density times
    /// the scale.
    pub fn dpi_for_scale(&self, scale: i32) -> (dpi: u64)
        requires
            self.wf(),
            scale > 0,
        ensures
            dpi == self.dpi_for_scale_spec(scale),
            dpi > 0,
    {
        match self.dpi {
            Some(d) => d,
            None => scale as u64 * crate::geometry::DEFAULT_DPI,
        }
    }
}

impl Default for WindowConfig {
    fn default() -> (r: WindowConfig)
        ensures
            r == (WindowConfig { dpi: None, window_decorations: WindowDecorations::full() }),
    {
        WindowConfig { dpi: None, window_decorations: WindowDecorations { title: true, resize: true } }
    }
}

} // verus!
