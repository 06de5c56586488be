//! The overlay lifecycle coordinator.
//!
//! Exactly one overlay surface is live at a time. The coordinator is
//! constructed already holding an initial ghost handle, so "no current
//! surface" is unrepresentable, and replacing the surface hands the
//! old handle back only while recording the new one: the surface
//! service is asked for the new surface before the old one's
//! destruction, leaving no gap in which keyboard focus could stray.

use vstd::prelude::*;

verus! {

/// The two surface modes the overlay service is asked for.
#[derive(Clone, Copy, PartialEq, Eq, Structural, Debug)]
pub enum SurfaceMode {
    /// Full-screen, topmost, keyboard-grabbing, rendering the grid.
    Interactive,
    /// Full-screen, lowest layer, invisible and event-transparent: the
    /// ghost placeholder, kept so a surface handle always exists to
    /// swap from.
    Background,
}

/// Owner of the single live surface handle and its mode.
#[derive(Clone, Copy, PartialEq, Eq, Structural, Debug)]
pub struct Coordinator {
    /// Handle of the one live surface.
    pub current: u64,
    /// Mode the live surface was requested in.
    pub mode: SurfaceMode,
}

impl Coordinator {
    /// A coordinator holding the initial ghost surface.
    pub fn new(initial_ghost: u64) -> (c: Coordinator)
        ensures
            c == (Coordinator { current: initial_ghost, mode: SurfaceMode::Background }),
    {
        Coordinator { current: initial_ghost, mode: SurfaceMode::Background }
    }

    /// Records `fresh` as the live surface in `target` mode and hands
    /// back the displaced handle, which the caller must close.
    pub fn swap(&mut self, target: SurfaceMode, fresh: u64) -> (displaced: u64)
        ensures
            *final(self) == (Coordinator { current: fresh, mode: target }),
            displaced == old(self).current,
    {
        let displaced = self.current;
        self.current = fresh;
        self.mode = target;
        displaced
    }
}

} // verus!
