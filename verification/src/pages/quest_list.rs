//! The daily quests, four to a screen, with a claim button on each completed quest.

use vstd::prelude::*;
use crate::geometry::Rect;
use crate::page::Page;
use crate::touch::{TouchArea, areas_wf, first_touched, find_touched};

verus! {

/// What a tap on the quest list asks for.
#[derive(Clone, Copy, Debug, PartialEq, Eq, Structural)]
pub enum QuestListAction {
    /// Claim the reward of the quest with this id.
    ClaimReward(u32),
    ScrollUp,
    ScrollDown,
    Close,
}

/// Quests shown on one screen.
pub const QUESTS_PER_PAGE: usize = 4;

/// A daily quest: its id and whether it is completed.
#[derive(Clone, Copy, Debug, PartialEq, Eq, Structural)]
pub struct QuestEntry {
    pub id: u32,
    pub completed: bool,
}

/// Claim buttons of the first `k` quests shown from `scroll` on.
pub open spec fn claim_areas(quests: Seq<QuestEntry>, scroll: int, k: int) -> Seq<TouchArea<QuestListAction>>
    decreases k,
{
    if k <= 0 {
        seq![]
    } else {
        let prev = claim_areas(quests, scroll, k - 1);
        let q = scroll + k - 1;
        if q < quests.len() && quests[q].completed {
            prev.push(TouchArea {
                rect: Rect { x: 275, y: (100 + 95 * (k - 1)) as i32, w: 75, h: 30 },
                action: QuestListAction::ClaimReward(quests[q].id),
            })
        } else {
            prev
        }
    }
}

/// Every touch area: the claim buttons of the quests shown, the scroll buttons when
/// there are quests and more above or below, and the close button.
pub open spec fn quest_areas(quests: Seq<QuestEntry>, scroll: int) -> Seq<TouchArea<QuestListAction>> {
    let n = quests.len() as int;
    let up = if n > 0 && scroll > 0 {
        seq![TouchArea { rect: Rect { x: 130, y: 30, w: 100, h: 30 }, action: QuestListAction::ScrollUp }]
    } else {
        seq![]
    };
    let down = if n > 0 && scroll + 4 < n {
        seq![TouchArea { rect: Rect { x: 130, y: 420, w: 100, h: 30 }, action: QuestListAction::ScrollDown }]
    } else {
        seq![]
    };
    (if n > 0 { claim_areas(quests, scroll, 4) } else { seq![] }) + up + down
        + seq![TouchArea { rect: Rect { x: 280, y: 5, w: 80, h: 30 }, action: QuestListAction::Close }]
}

/// The quest list.
pub struct QuestListPage {
    touch_areas: Vec<TouchArea<QuestListAction>>,
    needs_full_redraw: bool,
    scroll_offset: usize,
}

impl QuestListPage {
    pub closed spec fn areas(&self) -> Seq<TouchArea<QuestListAction>> {
        self.touch_areas@
    }

    pub closed spec fn scroll(&self) -> usize {
        self.scroll_offset
    }

    pub closed spec fn dirty(&self) -> bool {
        self.needs_full_redraw
    }

    pub closed spec fn wf(&self) -> bool {
        areas_wf(self.touch_areas@) && self.scroll_offset <= usize::MAX - 4
    }

    pub fn new() -> (p: Self)
        ensures
            p.wf(),
            p.areas().len() == 0,
            p.scroll() == 0,
            p.dirty(),
    {
        QuestListPage { touch_areas: Vec::new(), needs_full_redraw: true, scroll_offset: 0 }
    }

    /// Asks for a full redraw on the next frame.
    pub fn mark_redraw(&mut self)
        ensures
            final(self).dirty(),
            final(self).areas() == old(self).areas(),
            final(self).scroll() == old(self).scroll(),
            final(self).wf() == old(self).wf(),
    {
        self.needs_full_redraw = true;
    }

    pub fn scroll_offset(&self) -> (o: usize)
        ensures
            o == self.scroll(),
    {
        self.scroll_offset
    }

    /// The first touch area under the tap gives its action.
    pub fn handle_touch(&mut self, x: i32, y: i32) -> (a: Option<QuestListAction>)
        requires
            old(self).wf(),
        ensures
            final(self).wf(),
            final(self).areas() == old(self).areas(),
            final(self).scroll() == old(self).scroll(),
            a == (match first_touched(old(self).areas(), x as int, y as int, 0) {
                Some(i) => Some(old(self).areas()[i].action),
                None => None::<QuestListAction>,
            }),
    {
        match find_touched(&self.touch_areas, x, y) {
            Some(i) => Some(self.touch_areas[i].action),
            None => None,
        }
    }

    pub fn scroll_up(&mut self)
        requires
            old(self).wf(),
        ensures
            final(self).wf(),
            final(self).scroll() == (if old(self).scroll() > 0 { old(self).scroll() - 1 } else { 0 }),
            final(self).areas() == old(self).areas(),
    {
        if self.scroll_offset > 0 {
            self.scroll_offset -= 1;
            self.needs_full_redraw = true;
        }
    }

    /// Scrolls down one quest while more than four remain from the top shown.
    pub fn scroll_down(&mut self, total_items: usize)
        requires
            old(self).wf(),
        ensures
            final(self).wf(),
            final(self).scroll() == (if old(self).scroll() + 4 < total_items { old(self).scroll() + 1 } else { old(self).scroll() as int }),
            final(self).areas() == old(self).areas(),
    {
        if self.scroll_offset + QUESTS_PER_PAGE < total_items {
            self.scroll_offset += 1;
            self.needs_full_redraw = true;
        }
    }

    /// Registers the touch areas for the daily quests, as drawing lays them out; a
    /// pending full redraw was just done.
    pub fn layout(&mut self, quests: &Vec<QuestEntry>)
        requires
            old(self).wf(),
        ensures
            final(self).wf(),
            final(self).areas() == quest_areas(quests@, old(self).scroll() as int),
            final(self).scroll() == old(self).scroll(),
            !final(self).dirty(),
    {
        let scroll = self.scroll_offset;
        let n = quests.len();
        let mut areas: Vec<TouchArea<QuestListAction>> = Vec::new();
        if n > 0 {
            let mut k: usize = 0;
            while k < QUESTS_PER_PAGE
                invariant
                    k <= 4,
                    scroll <= usize::MAX - 4,
                    n == quests@.len(),
                    areas_wf(areas@),
                    areas@ == claim_areas(quests@, scroll as int, k as int),
                decreases 4 - k,
            {
                let q = scroll + k;
                if q < n && quests[q].completed {
                    areas.push(TouchArea::new(275, 100 + (k as i32) * 95, 75, 30, QuestListAction::ClaimReward(quests[q].id)));
                }
                k += 1;
            }
            if scroll > 0 {
                areas.push(TouchArea::new(130, 30, 100, 30, QuestListAction::ScrollUp));
            }
            if scroll + QUESTS_PER_PAGE < n {
                areas.push(TouchArea::new(130, 420, 100, 30, QuestListAction::ScrollDown));
            }
        }
        areas.push(TouchArea::new(280, 5, 80, 30, QuestListAction::Close));
        assert(areas@ =~= quest_areas(quests@, scroll as int));
        self.touch_areas = areas;
        self.needs_full_redraw = false;
    }
}

impl QuestListPage {
    /// A full redraw is pending.
    pub closed spec fn redraw_pending(&self) -> bool {
        self.needs_full_redraw
    }
}

impl Page for QuestListPage {
    fn update(&mut self) -> (alive: bool)
        ensures
            alive,
            *final(self) == *old(self),
    {
        true
    }

    fn mark_dirty(&mut self)
        ensures
            final(self).redraw_pending(),
    {
        self.needs_full_redraw = true;
    }

    fn needs_full_redraw(&self) -> (b: bool)
        ensures
            b == self.redraw_pending(),
    {
        self.needs_full_redraw
    }
}

} // verus!
