//! What the window's event handler decides.
//!
//! The program around this crate owns the window, the surface and the GPU
//! device, which all come into being together the first time the event loop
//! resumes. [`Shell`] is what the handler remembers of them: whether they
//! exist yet, and the extent the surface is configured with. For each event
//! the handler asks the shell what to do and then does it.

use crate::surface::Extent;
use vstd::prelude::*;

verus! {

/// Title of the window.
pub const WINDOW_TITLE: &'static str = "Waytify - Music Player";

/// Width the window opens with, in logical pixels.
pub const WINDOW_WIDTH: u32 = 400;

/// Height the window opens with, in logical pixels.
pub const WINDOW_HEIGHT: u32 = 300;

/// Line for standard error when the surface hands out no texture for a frame.
pub const SURFACE_LOST: &'static str = "Surface texture lost / timeout";

/// A window event, reduced to what the handler tells apart.
#[derive(Clone, Copy, Debug, PartialEq, Eq, Structural)]
pub enum WindowInput {
    /// The user asked for the window to be closed.
    CloseRequested,
    /// The window now has this size, in physical pixels.
    Resized { width: u32, height: u32 },
    /// The window's contents are to be drawn.
    RedrawRequested,
    /// Any other event.
    Other,
}

/// What the handler does in answer to a window event.
#[derive(Clone, Copy, Debug, PartialEq, Eq, Structural)]
pub enum Action {
    /// Nothing.
    Ignore,
    /// Leave the event loop.
    Exit,
    /// Configure the surface with this extent, then ask for a redraw.
    Reconfigure(Extent),
    /// Draw one frame onto the surface, which has this extent.
    Render(Extent),
}

/// The handler's record of the window and its surface.
pub struct Shell {
    surface: Option<Extent>,
}

impl View for Shell {
    type V = Option<Extent>;

    /// The extent the surface is configured with, or `None` while there is no
    /// window yet.
    closed spec fn view(&self) -> Option<Extent> {
        self.surface
    }
}

impl Shell {
    #[verifier::type_invariant]
    spec fn surface_is_drawable(&self) -> bool {
        self.surface matches Some(extent) ==> extent.drawable()
    }

    /// The next record and the answer for a window event. `consumed` says
    /// whether the UI took the event for itself.
    ///
    /// Before the window exists every event is ignored, and so is one the UI
    /// consumed. A new size is fitted and becomes the surface's extent.
    pub open spec fn step(surface: Option<Extent>, consumed: bool, event: WindowInput) -> (
        Option<Extent>,
        Action,
    ) {
        match surface {
            None => (surface, Action::Ignore),
            Some(current) => if consumed {
                (surface, Action::Ignore)
            } else {
                match event {
                    WindowInput::CloseRequested => (surface, Action::Exit),
                    WindowInput::Resized { width, height } => (
                        Some(Extent::fitted(width, height)),
                        Action::Reconfigure(Extent::fitted(width, height)),
                    ),
                    WindowInput::RedrawRequested => (surface, Action::Render(current)),
                    WindowInput::Other => (surface, Action::Ignore),
                }
            },
        }
    }

    /// The extent an answer hands to the surface, if it hands one.
    pub open spec fn target(action: Action) -> Option<Extent> {
        match action {
            Action::Reconfigure(extent) | Action::Render(extent) => Some(extent),
            Action::Ignore | Action::Exit => None,
        }
    }

    /// The record of a program that has not opened its window yet.
    pub fn new() -> (shell: Shell)
        ensures
            shell@ is None,
    {
        Shell { surface: None }
    }

    /// The extent the surface is configured with, once there is one. It is
    /// never empty.
    pub fn surface(&self) -> (surface: Option<Extent>)
        ensures
            surface == self@,
            surface matches Some(extent) ==> extent.drawable(),
    {
        proof {
            use_type_invariant(self);
        }
        self.surface
    }

    /// Answers the event loop's resume: whether the window and its surface
    /// are still to be created. The caller then creates them and reports back
    /// with [`Shell::surface_created`].
    pub fn resumed(&self) -> (create: bool)
        ensures
            create == (self@ is None),
    {
        self.surface.is_none()
    }

    /// Records that the surface exists, for a window that reports the given
    /// size, and returns the extent to configure it with.
    pub fn surface_created(&mut self, width: u32, height: u32) -> (extent: Extent)
        ensures
            extent == Extent::fitted(width, height),
            final(self)@ == Some(extent),
    {
        let extent = Extent::fit(width, height);
        self.surface = Some(extent);
        extent
    }

    /// Answers a window event: see [`Shell::step`]. The extent on record
    /// stays drawable, and so is whatever extent the answer hands to the
    /// surface.
    pub fn window_event(&mut self, consumed: bool, event: WindowInput) -> (action: Action)
        ensures
            (final(self)@, action) == Self::step(old(self)@, consumed, event),
            final(self)@ matches Some(extent) ==> extent.drawable(),
            Self::target(action) matches Some(extent) ==> extent.drawable(),
    {
        proof {
            use_type_invariant(&*self);
        }
        let current = match self.surface {
            None => {
                return Action::Ignore;
            },
            Some(current) => current,
        };
        if consumed {
            return Action::Ignore;
        }
        match event {
            WindowInput::CloseRequested => Action::Exit,
            WindowInput::Resized { width, height } => {
                let extent = Extent::fit(width, height);
                self.surface = Some(extent);
                Action::Reconfigure(extent)
            },
            WindowInput::RedrawRequested => Action::Render(current),
            WindowInput::Other => Action::Ignore,
        }
    }

    /// Answers the event loop going idle: whether to ask for a redraw, which
    /// is whenever there is a window.
    pub fn about_to_wait(&self) -> (redraw: bool)
        ensures
            redraw == (self@ is Some),
    {
        self.surface.is_some()
    }
}

/// Whether to ask for another redraw once a frame has been presented.
/// `repaint_delay_nanos` is the delay the UI reported for the window's
/// viewport, in nanoseconds, if it reported on that viewport at all. A redraw
/// is asked for when there is such a delay and it is not zero.
pub fn redraw_after_frame(repaint_delay_nanos: Option<u128>) -> (redraw: bool)
    ensures
        redraw == (repaint_delay_nanos matches Some(delay) && delay != 0),
{
    match repaint_delay_nanos {
        Some(delay) => delay != 0,
        None => false,
    }
}

} // verus!
