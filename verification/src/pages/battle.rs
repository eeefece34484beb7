//! The simple tap-to-attack battle: each tap, at most every half second, trades one
//! blow with the enemy.

use vstd::prelude::*;
use crate::page::Page;

verus! {

/// Outcome of a tap on the battle screen.
#[derive(Clone, Copy, Debug, PartialEq, Eq, Structural)]
pub enum BattleAction {
    NoAction,
    Victory,
    Defeat,
    Flee,
}

/// The enemy of the simple battle.
pub struct Foe {
    pub id: u32,
    pub name: String,
    pub atk: u32,
    pub def: u32,
    pub hp: u32,
    pub max_hp: u32,
    pub exp_reward: u64,
}

/// Damage of a blow: attack minus half the defence, at least 1.
pub open spec fn blow(atk: int, def: int) -> int {
    let d = atk - def / 2;
    if d < 1 { 1 } else { d }
}

/// HP left after a blow, stopping at zero.
pub open spec fn after_blow(hp: int, damage: int) -> int {
    if hp > damage { hp - damage } else { 0 }
}

/// Damage of a blow.
pub fn blow_damage(atk: u32, def: u32) -> (d: u32)
    ensures
        d == blow(atk as int, def as int),
{
    let d = atk.saturating_sub(def / 2);
    if d < 1 { 1 } else { d }
}

/// Every blow deals at least one point, so each exchange brings a standing foe
/// closer to defeat.
pub proof fn lemma_blow_progress(atk: int, def: int, hp: int)
    requires
        hp > 0,
    ensures
        blow(atk, def) >= 1,
        0 <= after_blow(hp, blow(atk, def)) < hp,
{
}

/// State of the simple battle.
pub struct BattlePage {
    enemy: Foe,
    hero_hp: u32,
    hero_max_hp: u32,
    hero_atk: u32,
    hero_def: u32,
    is_victory: bool,
    is_defeat: bool,
    exp_gained: u64,
    dirty: bool,
}

impl BattlePage {
    pub closed spec fn foe(&self) -> &Foe {
        &self.enemy
    }

    pub closed spec fn hero_hp(&self) -> u32 {
        self.hero_hp
    }

    pub closed spec fn won(&self) -> bool {
        self.is_victory
    }

    pub closed spec fn lost(&self) -> bool {
        self.is_defeat
    }

    pub closed spec fn exp(&self) -> u64 {
        self.exp_gained
    }

    pub closed spec fn hero_stats(&self) -> (u32, u32, u32, u32) {
        (self.hero_hp, self.hero_max_hp, self.hero_atk, self.hero_def)
    }

    /// A battle against `enemy` with the stock hero (100 HP, attack 20, defence 10).
    pub fn new(enemy: Foe) -> (p: Self)
        ensures
            p.foe().hp == enemy.hp,
            p.foe().atk == enemy.atk,
            p.foe().def == enemy.def,
            p.foe().id == enemy.id,
            p.hero_stats() == (100u32, 100u32, 20u32, 10u32),
            !p.won(),
            !p.lost(),
            p.exp() == enemy.exp_reward,
    {
        let exp = enemy.exp_reward;
        BattlePage {
            enemy,
            hero_hp: 100,
            hero_max_hp: 100,
            hero_atk: 20,
            hero_def: 10,
            is_victory: false,
            is_defeat: false,
            exp_gained: exp,
            dirty: true,
        }
    }

    /// A tap attacks when the last attack is at least half a second old (`ready`): the
    /// hero hits the enemy; a fallen enemy wins the battle, otherwise the enemy hits
    /// back and a fallen hero loses it.
    pub fn handle_touch(&mut self, ready: bool) -> (a: BattleAction)
        ensures
            final(self).foe().id == old(self).foe().id,
            final(self).foe().atk == old(self).foe().atk,
            final(self).foe().def == old(self).foe().def,
            final(self).exp() == old(self).exp(),
            !ready ==> a == BattleAction::NoAction && final(self).foe().hp == old(self).foe().hp
                && final(self).hero_hp() == old(self).hero_hp() && final(self).won() == old(self).won()
                && final(self).lost() == old(self).lost(),
            ready ==> {
                let ehp = after_blow(old(self).foe().hp as int, blow(old(self).hero_stats().2 as int, old(self).foe().def as int));
                let hhp = after_blow(old(self).hero_hp() as int, blow(old(self).foe().atk as int, old(self).hero_stats().3 as int));
                &&& final(self).foe().hp == ehp
                &&& if ehp == 0 {
                    &&& a == BattleAction::Victory
                    &&& final(self).won()
                    &&& final(self).lost() == old(self).lost()
                    &&& final(self).hero_hp() == old(self).hero_hp()
                } else {
                    &&& final(self).hero_hp() == hhp
                    &&& final(self).won() == old(self).won()
                    &&& if hhp == 0 {
                        a == BattleAction::Defeat && final(self).lost()
                    } else {
                        a == BattleAction::NoAction && final(self).lost() == old(self).lost()
                    }
                }
            },
    {
        if !ready {
            return BattleAction::NoAction;
        }
        let damage = blow_damage(self.hero_atk, self.enemy.def);
        self.enemy.hp = if self.enemy.hp > damage { self.enemy.hp - damage } else { 0 };
        if self.enemy.hp == 0 {
            self.is_victory = true;
            return BattleAction::Victory;
        }
        let back = blow_damage(self.enemy.atk, self.hero_def);
        self.hero_hp = self.hero_hp.saturating_sub(back);
        if self.hero_hp == 0 {
            self.is_defeat = true;
            return BattleAction::Defeat;
        }
        BattleAction::NoAction
    }

    pub fn hero_died(&self) -> (b: bool)
        ensures
            b == self.lost(),
    {
        self.is_defeat
    }

    pub fn is_victory(&self) -> (b: bool)
        ensures
            b == self.won(),
    {
        self.is_victory
    }

    pub fn get_exp_gained(&self) -> (e: u64)
        ensures
            e == self.exp(),
    {
        self.exp_gained
    }

    pub fn get_enemy(&self) -> (f: &Foe)
        ensures
            f == self.foe(),
    {
        &self.enemy
    }

    /// The hero's HP and maximum.
    pub fn hero_hp_of(&self) -> (r: (u32, u32))
        ensures
            r.0 == self.hero_stats().0 && r.1 == self.hero_stats().1,
    {
        (self.hero_hp, self.hero_max_hp)
    }
}

impl BattlePage {
    /// A full redraw is pending.
    pub closed spec fn redraw_pending(&self) -> bool {
        self.dirty
    }
}

impl Page for BattlePage {
    fn update(&mut self) -> (alive: bool)
        ensures
            alive,
            *final(self) == *old(self),
    {
        true
    }

    fn mark_dirty(&mut self)
        ensures
            final(self).redraw_pending(),
    {
        self.dirty = true;
    }

    fn needs_full_redraw(&self) -> (b: bool)
        ensures
            b == self.redraw_pending(),
    {
        self.dirty
    }
}

} // verus!
