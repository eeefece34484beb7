//! The summon preview: confirm or cancel.

use vstd::prelude::*;
use crate::geometry::Rect;
use crate::page::Page;
use crate::touch::{TouchArea, areas_wf, first_touched, find_touched};

verus! {

/// What a tap on the preview asks for.
#[derive(Clone, Copy, Debug, PartialEq, Eq, Structural)]
pub enum RustymonSummonAction {
    Confirm,
    Cancel,
}

/// The confirm button, then the cancel button.
pub open spec fn summon_buttons() -> Seq<TouchArea<RustymonSummonAction>> {
    seq![
        TouchArea { rect: Rect { x: 200, y: 410, w: 150, h: 35 }, action: RustymonSummonAction::Confirm },
        TouchArea { rect: Rect { x: 20, y: 410, w: 150, h: 35 }, action: RustymonSummonAction::Cancel },
    ]
}

/// Whether a summoned stat shows as good: at least the middle of its range.
pub open spec fn good_stat(stat: int, level: int) -> bool {
    stat >= 5 + level + 2
}

/// Whether a summoned stat shows as good.
pub fn is_good_stat(stat: u32, level: u32) -> (b: bool)
    requires
        level + 7 <= u32::MAX,
    ensures
        b == good_stat(stat as int, level as int),
{
    stat >= 5 + level + 2
}

/// The summon preview.
pub struct RustymonSummonPage {
    touch_areas: Vec<TouchArea<RustymonSummonAction>>,
    needs_full_redraw: bool,
}

impl RustymonSummonPage {
    pub closed spec fn areas(&self) -> Seq<TouchArea<RustymonSummonAction>> {
        self.touch_areas@
    }

    pub closed spec fn wf(&self) -> bool {
        areas_wf(self.touch_areas@)
    }

    pub closed spec fn dirty(&self) -> bool {
        self.needs_full_redraw
    }

    pub fn new() -> (p: Self)
        ensures
            p.wf(),
            p.areas().len() == 0,
            p.dirty(),
    {
        RustymonSummonPage { touch_areas: Vec::new(), needs_full_redraw: true }
    }

    /// The first button under the tap gives its action.
    pub fn handle_touch(&mut self, x: i32, y: i32) -> (a: Option<RustymonSummonAction>)
        requires
            old(self).wf(),
        ensures
            final(self).wf(),
            final(self).areas() == old(self).areas(),
            a == (match first_touched(old(self).areas(), x as int, y as int, 0) {
                Some(i) => Some(old(self).areas()[i].action),
                None => None::<RustymonSummonAction>,
            }),
    {
        match find_touched(&self.touch_areas, x, y) {
            Some(i) => Some(self.touch_areas[i].action),
            None => None,
        }
    }

    /// Registers the buttons, as drawing places them; a pending full redraw was done.
    pub fn layout(&mut self)
        ensures
            final(self).wf(),
            final(self).areas() == summon_buttons(),
            !final(self).dirty(),
    {
        let mut b: Vec<TouchArea<RustymonSummonAction>> = Vec::new();
        b.push(TouchArea::new(200, 410, 150, 35, RustymonSummonAction::Confirm));
        b.push(TouchArea::new(20, 410, 150, 35, RustymonSummonAction::Cancel));
        assert(b@ =~= summon_buttons());
        self.touch_areas = b;
        self.needs_full_redraw = false;
    }
}

impl RustymonSummonPage {
    /// A full redraw is pending.
    pub closed spec fn redraw_pending(&self) -> bool {
        self.needs_full_redraw
    }
}

impl Page for RustymonSummonPage {
    fn update(&mut self) -> (alive: bool)
        ensures
            alive,
            *final(self) == *old(self),
    {
        true
    }

    fn mark_dirty(&mut self)
        ensures
            final(self).redraw_pending(),
    {
        self.needs_full_redraw = true;
    }

    fn needs_full_redraw(&self) -> (b: bool)
        ensures
            b == self.redraw_pending(),
    {
        self.needs_full_redraw
    }
}

} // verus!
