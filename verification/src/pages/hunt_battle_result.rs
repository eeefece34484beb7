//! The result of a hunt battle: hunt again (after a win, with the hero standing) or stop.

use vstd::prelude::*;
use crate::page::Page;

verus! {

/// What the result screen asks of the caller.
#[derive(Clone, Copy, Debug, PartialEq, Eq, Structural)]
pub enum HuntResultAction {
    Next,
    Stop,
}

/// The next button, edges included: x from 30 to 170, y from 380 to 430.
pub open spec fn on_next(x: int, y: int) -> bool {
    30 <= x <= 170 && 380 <= y <= 430
}

/// The stop button, edges included: x from 195 to 335, y from 380 to 430.
pub open spec fn on_stop(x: int, y: int) -> bool {
    195 <= x <= 335 && 380 <= y <= 430
}

/// What a hunt battle gave.
pub struct HuntOutcome {
    pub enemy_id: u32,
    pub enemy_name: String,
    pub exp_gained: u32,
    pub exp_before: u32,
    pub exp_to_next: u32,
    pub level_before: u32,
    pub leveled_up: bool,
    pub victory: bool,
}

/// The result of a hunt battle by a hero of type `H`, with a dropped card of type `C`.
pub struct HuntBattleResultPage<H, C> {
    hero: H,
    hero_health: i32,
    outcome: HuntOutcome,
    card_dropped: Option<C>,
    pending_action: Option<HuntResultAction>,
    needs_redraw: bool,
    first_draw: bool,
}

impl<H, C> HuntBattleResultPage<H, C> {
    pub closed spec fn pending(&self) -> Option<HuntResultAction> {
        self.pending_action
    }

    pub closed spec fn won(&self) -> bool {
        self.outcome.victory
    }

    pub closed spec fn health(&self) -> i32 {
        self.hero_health
    }

    pub closed spec fn enemy(&self) -> u32 {
        self.outcome.enemy_id
    }

    pub closed spec fn who(&self) -> H {
        self.hero
    }

    /// The result for a hero with `hero_health` HP left.
    pub fn new(hero: H, hero_health: i32, outcome: HuntOutcome, card_dropped: Option<C>) -> (p: Self)
        ensures
            p.outcome_data() == outcome,
            p.card_dropped_data() == card_dropped,
            p.pending() is None,
            p.won() == outcome.victory,
            p.health() == hero_health,
            p.enemy() == outcome.enemy_id,
            p.who() == hero,
    {
        HuntBattleResultPage { hero, hero_health, outcome, card_dropped, pending_action: None, needs_redraw: true, first_draw: true }
    }

    /// Next hunts again after a win with the hero standing; stop stops.
    pub fn handle_tap(&mut self, x: i32, y: i32)
        ensures
            final(self).won() == old(self).won(),
            final(self).health() == old(self).health(),
            final(self).pending() == (if on_next(x as int, y as int) {
                if old(self).won() && old(self).health() > 0 { Some(HuntResultAction::Next) } else { old(self).pending() }
            } else if on_stop(x as int, y as int) {
                Some(HuntResultAction::Stop)
            } else {
                old(self).pending()
            }),
    {
        if x >= 30 && x <= 170 && y >= 380 && y <= 430 {
            if self.outcome.victory && self.hero_health > 0 {
                self.pending_action = Some(HuntResultAction::Next);
            }
            return;
        }
        if x >= 195 && x <= 335 && y >= 380 && y <= 430 {
            self.pending_action = Some(HuntResultAction::Stop);
        }
    }

    /// A swipe left stops.
    pub fn handle_swipe_left(&mut self)
        ensures
            final(self).pending() == Some(HuntResultAction::Stop),
            final(self).won() == old(self).won(),
            final(self).health() == old(self).health(),
    {
        self.pending_action = Some(HuntResultAction::Stop);
    }

    /// Hands out the pending action once.
    pub fn take_action(&mut self) -> (a: Option<HuntResultAction>)
        ensures
            a == old(self).pending(),
            final(self).pending() is None,
            final(self).won() == old(self).won(),
            final(self).health() == old(self).health(),
    {
        let a = self.pending_action;
        self.pending_action = None;
        a
    }

    pub fn get_hero(&self) -> (h: &H)
        ensures
            *h == self.who(),
    {
        &self.hero
    }

    pub fn get_enemy_id(&self) -> (id: u32)
        ensures
            id == self.enemy(),
    {
        self.outcome.enemy_id
    }

    pub closed spec fn outcome_data(&self) -> HuntOutcome {
        self.outcome
    }

    pub fn outcome(&self) -> (r: &HuntOutcome)
        ensures
            *r == self.outcome_data(),
    {
        &self.outcome
    }

    pub closed spec fn card_dropped_data(&self) -> Option<C> {
        self.card_dropped
    }

    pub fn card_dropped(&self) -> (r: &Option<C>)
        ensures
            *r == self.card_dropped_data(),
    {
        &self.card_dropped
    }
}

impl<H, C> HuntBattleResultPage<H, C> {
    /// Whether the next frame repaints the screen.
    pub fn wants_redraw(&self) -> (b: bool)
        ensures
            b == (self.redraw_pending() || self.redraw_requested()),
    {
        self.first_draw || self.needs_redraw
    }

    /// A frame was painted.
    pub fn finish_draw(&mut self)
        ensures
            !final(self).redraw_pending(),
            !final(self).redraw_requested(),
            final(self).pending() == old(self).pending(),
            final(self).won() == old(self).won(),
            final(self).health() == old(self).health(),
            final(self).enemy() == old(self).enemy(),
            final(self).who() == old(self).who(),
    {
        self.first_draw = false;
        self.needs_redraw = false;
    }
}

impl<H, C> HuntBattleResultPage<H, C> {
    /// A full redraw is pending.
    pub closed spec fn redraw_pending(&self) -> bool {
        self.first_draw
    }

    /// A redraw was asked for.
    pub closed spec fn redraw_requested(&self) -> bool {
        self.needs_redraw
    }
}

impl<H, C> Page for HuntBattleResultPage<H, C> {
    /// The screen stays while no action is pending.
    fn update(&mut self) -> (alive: bool)
        ensures
            alive == (old(self).pending() is None),
            *final(self) == *old(self),
    {
        self.pending_action.is_none()
    }

    fn mark_dirty(&mut self)
        ensures
            final(self).redraw_requested(),
            final(self).redraw_pending() == old(self).redraw_pending(),
    {
        self.needs_redraw = true;
    }

    fn needs_full_redraw(&self) -> (b: bool)
        ensures
            b == self.redraw_pending(),
    {
        self.first_draw
    }
}

} // verus!
