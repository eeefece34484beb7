//! The interface every screen offers to the screen manager.

use vstd::prelude::*;

verus! {

/// A screen: advanced every frame, told when it is entered and left, and asked
/// whether it must be redrawn in full.
pub trait Page: Sized {
    /// Advances the page by one frame; `false` once the page is done.
    fn update(&mut self) -> bool;

    /// Called when the page becomes the visible one.
    fn on_enter(&mut self)
        default_ensures
            *final(self) == *old(self),
    {
    }

    /// Called when the page stops being the visible one.
    fn on_exit(&mut self)
        default_ensures
            *final(self) == *old(self),
    {
    }

    /// Whether the screen is cleared before the page is drawn.
    fn needs_clear(&self) -> (b: bool)
        default_ensures
            b,
    {
        true
    }

    /// Asks for a full redraw on the next frame.
    fn mark_dirty(&mut self);

    /// Whether the next draw must repaint everything.
    fn needs_full_redraw(&self) -> bool;
}

} // verus!
