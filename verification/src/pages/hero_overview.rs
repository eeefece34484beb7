//! The hero overview: stats, with buttons to allocate stat points or go back.

use vstd::prelude::*;
use crate::page::Page;
use crate::touch::{TouchArea, areas_wf, first_touched, find_touched};

verus! {

/// What a button of the overview does.
#[derive(Clone, Copy, Debug, PartialEq, Eq, Structural)]
pub enum ButtonAction {
    AllocateStats,
    Close,
}

/// The two buttons at the bottom: stats on the left, back on the right.
pub open spec fn overview_buttons() -> Seq<TouchArea<ButtonAction>> {
    seq![
        TouchArea { rect: crate::geometry::Rect { x: 15, y: 400, w: 165, h: 55 }, action: ButtonAction::AllocateStats },
        TouchArea { rect: crate::geometry::Rect { x: 188, y: 400, w: 165, h: 55 }, action: ButtonAction::Close },
    ]
}

/// The hero overview screen.
pub struct HeroOverviewPage {
    touch_buttons: Vec<TouchArea<ButtonAction>>,
    needs_full_redraw: bool,
}

impl HeroOverviewPage {
    pub closed spec fn buttons(&self) -> Seq<TouchArea<ButtonAction>> {
        self.touch_buttons@
    }

    pub closed spec fn dirty(&self) -> bool {
        self.needs_full_redraw
    }

    pub closed spec fn wf(&self) -> bool {
        areas_wf(self.touch_buttons@)
    }

    pub fn new() -> (p: Self)
        ensures
            p.wf(),
            p.buttons().len() == 0,
            p.dirty(),
    {
        HeroOverviewPage { touch_buttons: Vec::new(), needs_full_redraw: true }
    }

    /// Registers the buttons as drawing with a hero lays them out; a pending full
    /// redraw was just done.
    pub fn layout(&mut self, full_redraw: bool)
        ensures
            final(self).wf(),
            final(self).buttons() == overview_buttons(),
            !final(self).dirty(),
    {
        if full_redraw || self.needs_full_redraw {
            self.needs_full_redraw = false;
        }
        let mut b: Vec<TouchArea<ButtonAction>> = Vec::new();
        b.push(TouchArea::new(15, 400, 165, 55, ButtonAction::AllocateStats));
        b.push(TouchArea::new(188, 400, 165, 55, ButtonAction::Close));
        assert(b@ =~= overview_buttons());
        self.touch_buttons = b;
    }

    /// The first button under the tap gives its action.
    pub fn handle_touch(&mut self, x: i32, y: i32) -> (a: Option<ButtonAction>)
        requires
            old(self).wf(),
        ensures
            final(self).wf(),
            final(self).buttons() == old(self).buttons(),
            final(self).dirty() == old(self).dirty(),
            a == (match first_touched(old(self).buttons(), x as int, y as int, 0) {
                Some(i) => Some(old(self).buttons()[i].action),
                None => None::<ButtonAction>,
            }),
    {
        match find_touched(&self.touch_buttons, x, y) {
            Some(i) => Some(self.touch_buttons[i].action),
            None => None,
        }
    }
}

impl HeroOverviewPage {
    /// A full redraw is pending.
    pub closed spec fn redraw_pending(&self) -> bool {
        self.needs_full_redraw
    }
}

impl Page for HeroOverviewPage {
    fn update(&mut self) -> (alive: bool)
        ensures
            alive,
            *final(self) == *old(self),
    {
        true
    }

    fn mark_dirty(&mut self)
        ensures
            final(self).redraw_pending(),
    {
        self.needs_full_redraw = true;
    }

    fn needs_full_redraw(&self) -> (b: bool)
        ensures
            b == self.redraw_pending(),
    {
        self.needs_full_redraw
    }
}

} // verus!
