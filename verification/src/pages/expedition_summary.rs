//! The summary after an expedition: a tap reveals the loot, a tap after the reveal
//! continues. A failed expedition loses its loot and shows no reveal.

use vstd::prelude::*;
use crate::page::Page;

verus! {

/// Where the loot reveal stands.
#[derive(Clone, Copy, Debug, PartialEq, Eq, Structural)]
pub enum LootState {
    Hidden,
    Revealing,
    Revealed,
}

/// Length of the reveal animation, in milliseconds.
pub const REVEAL_MS: u64 = 500;

/// Summary of an expedition by a hero of type `H`, with loot cards of type `C`.
pub struct ExpeditionSummaryPage<H, C> {
    hero: H,
    initial_exp: u32,
    target_kills: u32,
    actual_kills: u32,
    exp_gained: u32,
    survived: bool,
    cards_dropped: Vec<C>,
    loot_state: LootState,
}

impl<H, C> ExpeditionSummaryPage<H, C> {
    pub closed spec fn loot(&self) -> LootState {
        self.loot_state
    }

    pub closed spec fn alive(&self) -> bool {
        self.survived
    }

    pub closed spec fn cards(&self) -> Seq<C> {
        self.cards_dropped@
    }

    pub closed spec fn kills(&self) -> (u32, u32) {
        (self.target_kills, self.actual_kills)
    }

    pub closed spec fn exp(&self) -> (u32, u32) {
        (self.initial_exp, self.exp_gained)
    }

    pub closed spec fn who(&self) -> H {
        self.hero
    }

    /// A failed expedition keeps no loot.
    pub closed spec fn wf(&self) -> bool {
        !self.survived ==> self.cards_dropped@.len() == 0
    }

    /// A successful expedition: every target killed, loot hidden until tapped.
    pub fn new_success(hero: H, hero_exp: u32, kills: u32, exp_gained: u32, cards: Vec<C>) -> (p: Self)
        ensures
            p.wf(),
            p.alive(),
            p.loot() == LootState::Hidden,
            p.cards() == cards@,
            p.kills() == (kills, kills),
            p.exp() == (hero_exp, exp_gained),
            p.who() == hero,
    {
        ExpeditionSummaryPage {
            hero,
            initial_exp: hero_exp,
            target_kills: kills,
            actual_kills: kills,
            exp_gained,
            survived: true,
            cards_dropped: cards,
            loot_state: LootState::Hidden,
        }
    }

    /// A failed expedition: the loot is lost and there is nothing to reveal.
    pub fn new_failure(hero: H, hero_exp: u32, target_kills: u32, actual_kills: u32, exp_gained: u32) -> (p: Self)
        ensures
            p.wf(),
            !p.alive(),
            p.loot() == LootState::Revealed,
            p.cards().len() == 0,
            p.kills() == (target_kills, actual_kills),
            p.exp() == (hero_exp, exp_gained),
            p.who() == hero,
    {
        ExpeditionSummaryPage {
            hero,
            initial_exp: hero_exp,
            target_kills,
            actual_kills,
            exp_gained,
            survived: false,
            cards_dropped: Vec::new(),
            loot_state: LootState::Revealed,
        }
    }

    /// A tap starts the reveal while the loot is hidden, and continues (`true`) once it
    /// is revealed.
    pub fn handle_touch(&mut self, x: i32, y: i32) -> (cont: bool)
        ensures
            cont == (old(self).loot() == LootState::Revealed),
            final(self).loot() == (if old(self).loot() == LootState::Hidden { LootState::Revealing } else { old(self).loot() }),
            final(self).cards() == old(self).cards(),
            final(self).alive() == old(self).alive(),
            final(self).wf() == old(self).wf(),
    {
        match self.loot_state {
            LootState::Hidden => {
                self.loot_state = LootState::Revealing;
                false
            },
            LootState::Revealing => false,
            LootState::Revealed => true,
        }
    }

    /// The reveal ends once it has run for more than half a second.
    pub fn update_reveal(&mut self, reveal_elapsed_ms: u64)
        ensures
            final(self).loot() == (if old(self).loot() == LootState::Revealing && reveal_elapsed_ms > REVEAL_MS {
                LootState::Revealed
            } else {
                old(self).loot()
            }),
            final(self).cards() == old(self).cards(),
            final(self).alive() == old(self).alive(),
            final(self).wf() == old(self).wf(),
    {
        if self.loot_state == LootState::Revealing && reveal_elapsed_ms > REVEAL_MS {
            self.loot_state = LootState::Revealed;
        }
    }

    pub fn can_continue(&self) -> (b: bool)
        ensures
            b == (self.loot() == LootState::Revealed),
    {
        self.loot_state == LootState::Revealed
    }

    pub fn loot_state(&self) -> (s: LootState)
        ensures
            s == self.loot(),
    {
        self.loot_state
    }

    /// The hero after the expedition.
    pub fn get_updated_hero(&self) -> (h: &H)
        ensures
            *h == self.who(),
    {
        &self.hero
    }

    /// The loot kept: the cards dropped when the hero survived, none otherwise.
    pub fn get_collected_cards(&self) -> (c: &Vec<C>)
        requires
            self.wf(),
        ensures
            c@ == (if self.alive() { self.cards() } else { Seq::<C>::empty() }),
    {
        &self.cards_dropped
    }

    pub fn survived(&self) -> (b: bool)
        ensures
            b == self.alive(),
    {
        self.survived
    }

    /// Kill target, kills made, experience before and experience gained.
    pub fn numbers(&self) -> (r: (u32, u32, u32, u32))
        ensures
            r == (self.kills().0, self.kills().1, self.exp().0, self.exp().1),
    {
        (self.target_kills, self.actual_kills, self.initial_exp, self.exp_gained)
    }
}

impl<H, C> Page for ExpeditionSummaryPage<H, C> {
    fn update(&mut self) -> (alive: bool)
        ensures
            alive,
            *final(self) == *old(self),
    {
        true
    }

    fn mark_dirty(&mut self)
        ensures
            *final(self) == *old(self),
    {
    }

    fn needs_full_redraw(&self) -> (b: bool)
        ensures
            b,
    {
        true
    }
}

} // verus!
