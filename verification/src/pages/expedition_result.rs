//! The report of a finished expedition, with continue and rerun buttons.

use vstd::prelude::*;
use crate::element::Element;
use crate::geometry::Rect;
use crate::page::Page;

verus! {

/// What a tap on the report asks for.
#[derive(Clone, Copy, Debug, PartialEq, Eq, Structural)]
pub enum ExpeditionResultAction {
    NoAction,
    Continue,
    Rerun,
}

/// What an expedition brought back.
pub struct ExpeditionResultData {
    pub map_name: String,
    pub map_id: String,
    pub duration_minutes: u32,
    pub duration_seconds: u64,
    pub xp_per_monster: u32,
    pub monster_names: Vec<String>,
    pub monster_ids: Vec<String>,
    pub crystals: u16,
    pub essences: Vec<(Element, u8)>,
    pub captured_species: Option<String>,
    pub was_fusion: bool,
}

pub open spec fn rerun_rect() -> Rect {
    Rect { x: 15, y: 370, w: 160, h: 55 }
}

pub open spec fn continue_rect() -> Rect {
    Rect { x: 190, y: 370, w: 160, h: 55 }
}

/// Report of a finished expedition.
pub struct ExpeditionResultPage {
    result: ExpeditionResultData,
    dirty: bool,
    continue_area: Option<Rect>,
    rerun_area: Option<Rect>,
}

impl ExpeditionResultPage {
    pub closed spec fn data(&self) -> &ExpeditionResultData {
        &self.result
    }

    pub closed spec fn areas(&self) -> (Option<Rect>, Option<Rect>) {
        (self.continue_area, self.rerun_area)
    }

    pub closed spec fn wf(&self) -> bool {
        &&& (self.continue_area matches Some(r) ==> r == continue_rect())
        &&& (self.rerun_area matches Some(r) ==> r == rerun_rect())
    }

    pub fn new(result: ExpeditionResultData) -> (p: Self)
        ensures
            p.wf(),
            p.data() == result,
            p.areas() == (None::<Rect>, None::<Rect>),
    {
        ExpeditionResultPage { result, dirty: true, continue_area: None, rerun_area: None }
    }

    pub fn result(&self) -> (r: &ExpeditionResultData)
        ensures
            r == self.data(),
    {
        &self.result
    }

    /// What a rerun needs: the map, the team and the duration in seconds.
    pub fn rerun_data(&self) -> (r: (&str, &[String], u64))
        ensures
            r.0@ == self.data().map_id@,
            r.1@ == self.data().monster_ids@,
            r.2 == self.data().duration_seconds,
    {
        (self.result.map_id.as_str(), self.result.monster_ids.as_slice(), self.result.duration_seconds)
    }

    /// Registers the rerun and continue buttons, as drawing places them.
    pub fn layout(&mut self)
        ensures
            final(self).wf(),
            final(self).areas() == (Some(continue_rect()), Some(rerun_rect())),
            final(self).data() == old(self).data(),
    {
        self.rerun_area = Some(Rect::new(15, 370, 160, 55));
        self.continue_area = Some(Rect::new(190, 370, 160, 55));
    }

    /// Continue wins over rerun when a tap hits both.
    pub fn handle_touch(&mut self, x: i32, y: i32) -> (a: ExpeditionResultAction)
        requires
            old(self).wf(),
        ensures
            final(self).wf(),
            final(self).areas() == old(self).areas(),
            final(self).data() == old(self).data(),
            a == (if old(self).areas().0 matches Some(r) && r.has(x as int, y as int) {
                ExpeditionResultAction::Continue
            } else if old(self).areas().1 matches Some(r) && r.has(x as int, y as int) {
                ExpeditionResultAction::Rerun
            } else {
                ExpeditionResultAction::NoAction
            }),
    {
        if let Some(r) = self.continue_area {
            if r.contains(x, y) {
                return ExpeditionResultAction::Continue;
            }
        }
        if let Some(r) = self.rerun_area {
            if r.contains(x, y) {
                return ExpeditionResultAction::Rerun;
            }
        }
        ExpeditionResultAction::NoAction
    }
}

impl ExpeditionResultPage {
    /// A full redraw is pending.
    pub closed spec fn redraw_pending(&self) -> bool {
        self.dirty
    }
}

impl Page for ExpeditionResultPage {
    fn update(&mut self) -> (alive: bool)
        ensures
            alive,
            *final(self) == *old(self),
    {
        true
    }

    fn mark_dirty(&mut self)
        ensures
            final(self).redraw_pending(),
    {
        self.dirty = true;
    }

    fn needs_full_redraw(&self) -> (b: bool)
        ensures
            b == self.redraw_pending(),
    {
        self.dirty
    }
}

} // verus!
