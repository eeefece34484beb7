//! Monster fragments collected, five to a screen; a monster with enough fragments can
//! be summoned (or evolved when already owned).

use vstd::prelude::*;
use crate::geometry::Rect;
use crate::page::Page;
use crate::touch::{TouchArea, areas_wf, first_touched, find_touched};

verus! {

/// What a tap on the fragment list asks for.
#[derive(Clone, Copy, Debug, PartialEq, Eq, Structural)]
pub enum FragmentCollectionAction {
    /// Summon (or evolve) the monster with this id.
    Summon(u32),
    ScrollUp,
    ScrollDown,
    Close,
}

/// Fragments shown on one screen.
pub const FRAGMENTS_PER_PAGE: usize = 5;

/// A monster's fragments: how many are held and how many the next summon or evolution
/// needs (`None` when the game has no data for the monster, which hides the row).
#[derive(Clone, Copy, Debug, PartialEq, Eq, Structural)]
pub struct FragmentRow {
    pub monster_id: u32,
    pub count: u32,
    pub required: Option<u32>,
}

/// Summon buttons of the first `k` rows shown from `scroll` on: a row whose fragments
/// suffice has one.
pub open spec fn summon_areas(rows: Seq<FragmentRow>, scroll: int, k: int) -> Seq<TouchArea<FragmentCollectionAction>>
    decreases k,
{
    if k <= 0 {
        seq![]
    } else {
        let prev = summon_areas(rows, scroll, k - 1);
        let r = scroll + k - 1;
        if r < rows.len() && (rows[r].required matches Some(req) && rows[r].count >= req) {
            prev.push(TouchArea {
                rect: Rect { x: 280, y: (70 + 70 * (k - 1)) as i32, w: 70, h: 30 },
                action: FragmentCollectionAction::Summon(rows[r].monster_id),
            })
        } else {
            prev
        }
    }
}

/// Every touch area: summon buttons, the scroll buttons when there are fragments and
/// more above or below, and the close button.
pub open spec fn fragment_areas(rows: Seq<FragmentRow>, scroll: int) -> Seq<TouchArea<FragmentCollectionAction>> {
    let n = rows.len() as int;
    let up = if n > 0 && scroll > 0 {
        seq![TouchArea { rect: Rect { x: 320, y: 30, w: 40, h: 20 }, action: FragmentCollectionAction::ScrollUp }]
    } else {
        seq![]
    };
    let down = if n > 0 && scroll + 5 < n {
        seq![TouchArea { rect: Rect { x: 320, y: 410, w: 40, h: 20 }, action: FragmentCollectionAction::ScrollDown }]
    } else {
        seq![]
    };
    (if n > 0 { summon_areas(rows, scroll, 5) } else { seq![] }) + up + down
        + seq![TouchArea { rect: Rect { x: 10, y: 420, w: 100, h: 30 }, action: FragmentCollectionAction::Close }]
}

/// The fragment list.
pub struct FragmentCollectionPage {
    touch_areas: Vec<TouchArea<FragmentCollectionAction>>,
    needs_full_redraw: bool,
    scroll_offset: usize,
}

impl FragmentCollectionPage {
    pub closed spec fn areas(&self) -> Seq<TouchArea<FragmentCollectionAction>> {
        self.touch_areas@
    }

    pub closed spec fn scroll(&self) -> usize {
        self.scroll_offset
    }

    pub closed spec fn wf(&self) -> bool {
        areas_wf(self.touch_areas@) && self.scroll_offset <= usize::MAX - 5
    }

    pub fn new() -> (p: Self)
        ensures
            p.redraw_pending(),
            p.wf(),
            p.areas().len() == 0,
            p.scroll() == 0,
    {
        FragmentCollectionPage { touch_areas: Vec::new(), needs_full_redraw: true, scroll_offset: 0 }
    }

    pub fn scroll_offset(&self) -> (o: usize)
        ensures
            o == self.scroll(),
    {
        self.scroll_offset
    }

    /// The first touch area under the tap gives its action.
    pub fn handle_touch(&mut self, x: i32, y: i32) -> (a: Option<FragmentCollectionAction>)
        requires
            old(self).wf(),
        ensures
            final(self).wf(),
            final(self).areas() == old(self).areas(),
            final(self).scroll() == old(self).scroll(),
            a == (match first_touched(old(self).areas(), x as int, y as int, 0) {
                Some(i) => Some(old(self).areas()[i].action),
                None => None::<FragmentCollectionAction>,
            }),
    {
        match find_touched(&self.touch_areas, x, y) {
            Some(i) => Some(self.touch_areas[i].action),
            None => None,
        }
    }

    pub fn scroll_up(&mut self)
        requires
            old(self).wf(),
        ensures
            final(self).wf(),
            final(self).scroll() == (if old(self).scroll() > 0 { old(self).scroll() - 1 } else { 0 }),
            final(self).areas() == old(self).areas(),
    {
        if self.scroll_offset > 0 {
            self.scroll_offset -= 1;
            self.needs_full_redraw = true;
        }
    }

    /// Scrolls down one row while more than five remain from the top shown.
    pub fn scroll_down(&mut self, total_items: usize)
        requires
            old(self).wf(),
        ensures
            final(self).wf(),
            final(self).scroll() == (if old(self).scroll() + 5 < total_items { old(self).scroll() + 1 } else { old(self).scroll() as int }),
            final(self).areas() == old(self).areas(),
    {
        if self.scroll_offset + FRAGMENTS_PER_PAGE < total_items {
            self.scroll_offset += 1;
            self.needs_full_redraw = true;
        }
    }

    /// Registers the touch areas for the fragment rows, as drawing lays them out; a
    /// pending full redraw was just done.
    pub fn layout(&mut self, rows: &Vec<FragmentRow>)
        requires
            old(self).wf(),
        ensures
            final(self).wf(),
            final(self).areas() == fragment_areas(rows@, old(self).scroll() as int),
            final(self).scroll() == old(self).scroll(),
    {
        let scroll = self.scroll_offset;
        let n = rows.len();
        let mut areas: Vec<TouchArea<FragmentCollectionAction>> = Vec::new();
        if n > 0 {
            let mut k: usize = 0;
            while k < FRAGMENTS_PER_PAGE
                invariant
                    k <= 5,
                    scroll <= usize::MAX - 5,
                    n == rows@.len(),
                    areas_wf(areas@),
                    areas@ == summon_areas(rows@, scroll as int, k as int),
                decreases 5 - k,
            {
                let r = scroll + k;
                if r < n {
                    let row = rows[r];
                    let ready = match row.required {
                        Some(req) => row.count >= req,
                        None => false,
                    };
                    if ready {
                        areas.push(TouchArea::new(280, 70 + (k as i32) * 70, 70, 30, FragmentCollectionAction::Summon(row.monster_id)));
                    }
                }
                k += 1;
            }
            if scroll > 0 {
                areas.push(TouchArea::new(320, 30, 40, 20, FragmentCollectionAction::ScrollUp));
            }
            if scroll + FRAGMENTS_PER_PAGE < n {
                areas.push(TouchArea::new(320, 410, 40, 20, FragmentCollectionAction::ScrollDown));
            }
        }
        areas.push(TouchArea::new(10, 420, 100, 30, FragmentCollectionAction::Close));
        assert(areas@ =~= fragment_areas(rows@, scroll as int));
        self.touch_areas = areas;
        self.needs_full_redraw = false;
    }
}

impl Default for FragmentCollectionPage {
    fn default() -> (p: Self)
        ensures
            p.redraw_pending(),
            p.wf(),
            p.areas().len() == 0,
            p.scroll() == 0,
    {
        Self::new()
    }
}

impl FragmentCollectionPage {
    /// A full redraw is pending.
    pub closed spec fn redraw_pending(&self) -> bool {
        self.needs_full_redraw
    }
}

impl Page for FragmentCollectionPage {
    fn on_enter(&mut self)
        ensures
            final(self).redraw_pending(),
            final(self).scroll() == 0,
            final(self).areas() == old(self).areas(),
            old(self).wf() ==> final(self).wf(),
    {
        self.needs_full_redraw = true;
        self.scroll_offset = 0;
    }

    fn update(&mut self) -> (alive: bool)
        ensures
            alive,
            *final(self) == *old(self),
    {
        true
    }

    fn mark_dirty(&mut self)
        ensures
            final(self).redraw_pending(),
    {
        self.needs_full_redraw = true;
    }

    fn needs_full_redraw(&self) -> (b: bool)
        ensures
            b == self.redraw_pending(),
    {
        self.needs_full_redraw
    }
}

} // verus!
