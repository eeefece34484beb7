//! The screen after a battle: victory or defeat and the experience gained.

use vstd::prelude::*;
use crate::page::Page;

verus! {

/// What a tap on the result screen asks for.
#[derive(Clone, Copy, Debug, PartialEq, Eq, Structural)]
pub enum BattleResultAction {
    NoAction,
    Continue,
}

/// Result of a finished battle.
pub struct BattleResultPage {
    exp_gained: u64,
    victory: bool,
    dirty: bool,
}

impl BattleResultPage {
    pub fn new(exp_gained: u64, victory: bool) -> (p: Self)
        ensures
            p.get_exp_gained_spec() == exp_gained,
            p.is_victory_spec() == victory,
    {
        BattleResultPage { exp_gained, victory, dirty: true }
    }

    pub closed spec fn get_exp_gained_spec(&self) -> u64 {
        self.exp_gained
    }

    pub closed spec fn is_victory_spec(&self) -> bool {
        self.victory
    }

    /// Any tap continues.
    pub fn handle_touch(&self, x: i32, y: i32) -> (a: BattleResultAction)
        ensures
            a == BattleResultAction::Continue,
    {
        BattleResultAction::Continue
    }

    pub fn get_exp_gained(&self) -> (e: u64)
        ensures
            e == self.get_exp_gained_spec(),
    {
        self.exp_gained
    }

    pub fn is_victory(&self) -> (v: bool)
        ensures
            v == self.is_victory_spec(),
    {
        self.victory
    }
}

impl BattleResultPage {
    /// A full redraw is pending.
    pub closed spec fn redraw_pending(&self) -> bool {
        self.dirty
    }
}

impl Page for BattleResultPage {
    fn update(&mut self) -> (alive: bool)
        ensures
            alive,
            *final(self) == *old(self),
    {
        true
    }

    fn mark_dirty(&mut self)
        ensures
            final(self).redraw_pending(),
    {
        self.dirty = true;
    }

    fn needs_full_redraw(&self) -> (b: bool)
        ensures
            b == self.redraw_pending(),
    {
        self.dirty
    }
}

} // verus!
