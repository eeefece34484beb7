//! The screen after falling in a dungeon: what was earned and whether to retry.

use vstd::prelude::*;
use crate::geometry::{Rect, opt_contains};
use crate::page::Page;

verus! {

/// What a tap on the defeat screen asks for.
#[derive(Clone, Copy, Debug, PartialEq, Eq, Structural)]
pub enum DungeonDefeatAction {
    NoAction,
    Retry,
    Quit,
}

pub open spec fn retry_rect() -> Rect {
    Rect { x: 30, y: 340, w: 145, h: 60 }
}

pub open spec fn quit_rect() -> Rect {
    Rect { x: 193, y: 340, w: 145, h: 60 }
}

/// The outcome of a failed dungeon run.
pub struct DungeonDefeatPage {
    dungeon_id: String,
    dungeon_name: String,
    floor_reached: u16,
    crystals_earned: u32,
    xp_earned: u32,
    is_new_record: bool,
    previous_record: u16,
    last_checkpoint: u16,
    retry_button: Option<Rect>,
    quit_button: Option<Rect>,
    dirty: bool,
}

impl DungeonDefeatPage {
    pub closed spec fn record(&self) -> bool {
        self.is_new_record
    }

    pub closed spec fn floor(&self) -> u16 {
        self.floor_reached
    }

    pub closed spec fn checkpoint(&self) -> u16 {
        self.last_checkpoint
    }

    pub closed spec fn earned(&self) -> (u32, u32) {
        (self.crystals_earned, self.xp_earned)
    }

    pub closed spec fn buttons(&self) -> (Option<Rect>, Option<Rect>) {
        (self.retry_button, self.quit_button)
    }

    pub closed spec fn id(&self) -> Seq<char> {
        self.dungeon_id@
    }

    pub closed spec fn wf(&self) -> bool {
        &&& (self.retry_button matches Some(r) ==> r == retry_rect())
        &&& (self.quit_button matches Some(r) ==> r == quit_rect())
    }

    /// The run reached `floor_reached`; it is a new record when it beats the previous one.
    pub fn new(dungeon_id: String, dungeon_name: String, floor_reached: u16, crystals_earned: u32,
        xp_earned: u32, previous_record: u16, last_checkpoint: u16) -> (p: Self)
        ensures
            p.dungeon_name_text() == dungeon_name@,
            p.previous_record_value() == previous_record,
            p.wf(),
            p.record() == (floor_reached > previous_record),
            p.floor() == floor_reached,
            p.checkpoint() == last_checkpoint,
            p.earned() == (crystals_earned, xp_earned),
            p.buttons() == (None::<Rect>, None::<Rect>),
            p.id() == dungeon_id@,
    {
        DungeonDefeatPage {
            dungeon_id,
            dungeon_name,
            floor_reached,
            crystals_earned,
            xp_earned,
            is_new_record: floor_reached > previous_record,
            previous_record,
            last_checkpoint,
            retry_button: None,
            quit_button: None,
            dirty: true,
        }
    }

    pub fn dungeon_id(&self) -> (s: &str)
        ensures
            s@ == self.id(),
    {
        self.dungeon_id.as_str()
    }

    pub closed spec fn dungeon_name_text(&self) -> Seq<char> {
        self.dungeon_name@
    }

    pub fn dungeon_name(&self) -> (s: &str)
        ensures
            s@ == self.dungeon_name_text(),
    {
        self.dungeon_name.as_str()
    }

    pub closed spec fn previous_record_value(&self) -> u16 {
        self.previous_record
    }

    pub fn previous_record(&self) -> (r: u16)
        ensures
            r == self.previous_record_value(),
    {
        self.previous_record
    }

    /// The checkpoint floor a retry starts from.
    pub fn retry_checkpoint(&self) -> (c: u16)
        ensures
            c == self.checkpoint(),
    {
        self.last_checkpoint
    }

    pub fn crystals_earned(&self) -> (c: u32)
        ensures
            c == self.earned().0,
    {
        self.crystals_earned
    }

    pub fn xp_earned(&self) -> (x: u32)
        ensures
            x == self.earned().1,
    {
        self.xp_earned
    }

    pub fn floor_reached(&self) -> (f: u16)
        ensures
            f == self.floor(),
    {
        self.floor_reached
    }

    pub fn is_new_record(&self) -> (b: bool)
        ensures
            b == self.record(),
    {
        self.is_new_record
    }

    /// Registers the retry and quit buttons, as drawing places them.
    pub fn layout(&mut self)
        ensures
            final(self).wf(),
            final(self).buttons() == (Some(retry_rect()), Some(quit_rect())),
            final(self).record() == old(self).record(),
            final(self).floor() == old(self).floor(),
            final(self).checkpoint() == old(self).checkpoint(),
            final(self).earned() == old(self).earned(),
            final(self).id() == old(self).id(),
    {
        self.retry_button = Some(Rect::new(30, 340, 145, 60));
        self.quit_button = Some(Rect::new(193, 340, 145, 60));
    }

    /// Retry wins over quit when a tap hits both.
    pub fn handle_touch(&self, x: i32, y: i32) -> (a: DungeonDefeatAction)
        requires
            self.wf(),
        ensures
            a == (if self.buttons().0 matches Some(r) && r.has(x as int, y as int) {
                DungeonDefeatAction::Retry
            } else if self.buttons().1 matches Some(r) && r.has(x as int, y as int) {
                DungeonDefeatAction::Quit
            } else {
                DungeonDefeatAction::NoAction
            }),
    {
        if opt_contains(self.retry_button, x, y) {
            return DungeonDefeatAction::Retry;
        }
        if opt_contains(self.quit_button, x, y) {
            return DungeonDefeatAction::Quit;
        }
        DungeonDefeatAction::NoAction
    }
}

impl DungeonDefeatPage {
    /// A full redraw is pending.
    pub closed spec fn redraw_pending(&self) -> bool {
        self.dirty
    }
}

impl Page for DungeonDefeatPage {
    fn update(&mut self) -> (alive: bool)
        ensures
            alive,
            *final(self) == *old(self),
    {
        true
    }

    fn mark_dirty(&mut self)
        ensures
            final(self).redraw_pending(),
    {
        self.dirty = true;
    }

    fn needs_full_redraw(&self) -> (b: bool)
        ensures
            b == self.redraw_pending(),
    {
        self.dirty
    }
}

} // verus!
