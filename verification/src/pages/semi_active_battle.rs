//! One hero against one enemy: the hero auto-attacks on a timer and may fire skills
//! at any time; the enemy answers after each hero attack.
//!
//! The caller keeps the clock and the game's attack rolls: it reports the time spent
//! in the current turn state and whether the current animation finished, and hands
//! over the attack results that the turn machine asks for.

use vstd::prelude::*;

verus! {

/// Animation an entity is playing.
#[derive(Clone, Copy, Debug, PartialEq, Eq, Structural)]
pub enum AnimationType {
    Idle,
    Attack,
    Attacked,
    Death,
}

/// Side of the battle an entity fights on.
#[derive(Clone, Copy, Debug, PartialEq, Eq, Structural)]
pub enum EntityRole {
    Hero,
    Enemy,
}

/// Turn state of the battle.
#[derive(Clone, Copy, Debug, PartialEq, Eq, Structural)]
pub enum BattleTurn {
    /// Waiting for the hero to act.
    HeroTurn,
    /// The hero's attack animation plays.
    HeroAttacking,
    /// The enemy's hit animation plays.
    EnemyHit,
    /// Short pause before the enemy attacks.
    EnemyTurn,
    /// The enemy's attack animation plays.
    EnemyAttacking,
    /// The hero's hit animation plays.
    HeroHit,
    /// The battle is over.
    BattleEnded,
}

/// Outcome of the battle.
#[derive(Clone, Debug, PartialEq, Eq)]
pub enum BattleResult {
    Victory { exp_gained: u32, cards_dropped: Vec<u32> },
    Defeat,
    Fled,
    InProgress,
}

/// One attack roll: damage, critical hit, miss.
#[derive(Clone, Copy, Debug, PartialEq, Eq, Structural)]
pub struct AttackRoll {
    pub damage: u32,
    pub critical: bool,
    pub miss: bool,
}

/// Milliseconds the hero waits before attacking on its own.
pub const HERO_AUTO_ATTACK_MS: u64 = 1500;
/// Longest an attack animation is waited for.
pub const ANIMATION_MS: u64 = 500;
/// Length of a hit animation.
pub const HIT_MS: u64 = 300;
/// Pause before the enemy attacks.
pub const ENEMY_PAUSE_MS: u64 = 500;
/// How long the page stays open after the battle is decided.
pub const END_LINGER_MS: u64 = 2000;

/// A skill slot on screen with its cooldown, in milliseconds.
#[derive(Debug)]
pub struct SkillButton {
    pub skill_id: Option<u32>,
    pub skill_name: String,
    pub cooldown_remaining_ms: u64,
    pub max_cooldown_ms: u64,
    /// x, y, width, height.
    pub bounds: (i32, i32, u32, u32),
}

impl SkillButton {
    /// An empty 110x55 slot at (`x`, `y`).
    pub fn new(x: i32, y: i32) -> (b: Self)
        ensures
            b.skill_id is None,
            b.skill_name@.len() == 0,
            b.cooldown_remaining_ms == 0,
            b.max_cooldown_ms == 0,
            b.bounds == (x, y, 110u32, 55u32),
    {
        SkillButton {
            skill_id: None,
            skill_name: String::new(),
            cooldown_remaining_ms: 0,
            max_cooldown_ms: 0,
            bounds: (x, y, 110, 55),
        }
    }

    pub open spec fn ready(&self) -> bool {
        self.skill_id is Some && self.cooldown_remaining_ms == 0
    }

    /// A skill is set and off cooldown.
    pub fn is_ready(&self) -> (b: bool)
        ensures
            b == self.ready(),
    {
        self.skill_id.is_some() && self.cooldown_remaining_ms == 0
    }

    pub fn is_empty(&self) -> (b: bool)
        ensures
            b == self.skill_id is None,
    {
        self.skill_id.is_none()
    }

    /// Puts a skill in the slot, ready to use.
    pub fn set_skill(&mut self, skill_id: u32, skill_name: &str, cooldown_ms: u64)
        ensures
            final(self).skill_id == Some(skill_id),
            final(self).skill_name@ == skill_name@,
            final(self).max_cooldown_ms == cooldown_ms,
            final(self).cooldown_remaining_ms == 0,
            final(self).bounds == old(self).bounds,
    {
        self.skill_id = Some(skill_id);
        self.skill_name = skill_name.to_string();
        self.max_cooldown_ms = cooldown_ms;
        self.cooldown_remaining_ms = 0;
    }

    /// The skill was used: its full cooldown starts.
    pub fn use_skill(&mut self)
        ensures
            final(self).cooldown_remaining_ms == old(self).max_cooldown_ms,
            final(self).skill_id == old(self).skill_id,
            final(self).skill_name == old(self).skill_name,
            final(self).max_cooldown_ms == old(self).max_cooldown_ms,
            final(self).bounds == old(self).bounds,
    {
        self.cooldown_remaining_ms = self.max_cooldown_ms;
    }

    /// Starts the full cooldown.
    pub fn start_cooldown(&mut self)
        ensures
            final(self).cooldown_remaining_ms == old(self).max_cooldown_ms,
            final(self).skill_id == old(self).skill_id,
            final(self).skill_name == old(self).skill_name,
            final(self).max_cooldown_ms == old(self).max_cooldown_ms,
            final(self).bounds == old(self).bounds,
    {
        self.cooldown_remaining_ms = self.max_cooldown_ms;
    }

    /// `delta_ms` passed: the cooldown runs down, stopping at zero.
    pub fn update(&mut self, delta_ms: u64)
        ensures
            final(self).cooldown_remaining_ms == (if old(self).cooldown_remaining_ms > delta_ms {
                old(self).cooldown_remaining_ms - delta_ms
            } else {
                0
            }),
            final(self).skill_id == old(self).skill_id,
            final(self).skill_name == old(self).skill_name,
            final(self).max_cooldown_ms == old(self).max_cooldown_ms,
            final(self).bounds == old(self).bounds,
    {
        if self.cooldown_remaining_ms > 0 {
            if self.cooldown_remaining_ms > delta_ms {
                self.cooldown_remaining_ms = self.cooldown_remaining_ms - delta_ms;
            } else {
                self.cooldown_remaining_ms = 0;
            }
        }
    }

    pub open spec fn holds(&self, x: int, y: int) -> bool {
        &&& self.bounds.0 <= x < self.bounds.0 + self.bounds.2
        &&& self.bounds.1 <= y < self.bounds.1 + self.bounds.3
    }

    /// Whether (`x`, `y`) lies on the button.
    pub fn contains(&self, x: i32, y: i32) -> (b: bool)
        requires
            self.bounds.2 <= i32::MAX,
            self.bounds.3 <= i32::MAX,
            self.bounds.0 + self.bounds.2 <= i32::MAX,
            self.bounds.1 + self.bounds.3 <= i32::MAX,
        ensures
            b == self.holds(x as int, y as int),
    {
        let (bx, by, bw, bh) = self.bounds;
        x >= bx && x < bx + bw as i32 && y >= by && y < by + bh as i32
    }
}

/// Damage of an attack skill: attack times power percent, minus half the defence,
/// at least 1.
pub open spec fn skill_damage_of(attack: int, power: int, def: int) -> int {
    let base = attack * power / 100;
    let d = base - def / 2;
    if d < 1 { 1 } else { d }
}

/// Damage of an attack skill.
pub fn skill_damage(attack: u32, power: u32, def: u32) -> (d: u32)
    requires
        attack * power <= u32::MAX,
    ensures
        d == skill_damage_of(attack as int, power as int, def as int),
{
    let base = attack * power / 100;
    let d = base.saturating_sub(def / 2);
    if d < 1 { 1 } else { d }
}

/// What a skill does, as the game's skill data describes it.
#[derive(Clone, Copy, Debug, PartialEq, Eq, Structural)]
pub enum SkillKind {
    /// Strikes the enemy with `power` percent of the hero's attack.
    Attack { power: u32 },
    /// Heals the hero by `power` HP.
    Heal { power: u32 },
    /// An effect with nothing to apply at once.
    Other,
}

/// What a tap on a skill asks the caller to apply.
#[derive(Clone, Copy, Debug, PartialEq, Eq, Structural)]
pub enum SkillOutcome {
    /// No skill was used.
    NotFired,
    /// The skill in `slot` struck the enemy for `damage` HP.
    Struck { slot: usize, damage: u32 },
    /// The skill in `slot` heals the hero by `amount` HP.
    Healed { slot: usize, amount: u32 },
    /// The skill in `slot` was used with nothing to apply at once.
    Used { slot: usize },
}

/// Effect of the skill in `slot` of kind `kind`, with the hero's attack and the enemy's
/// defence (`None` when there is no enemy to strike).
pub open spec fn skill_effect(slot: int, kind: SkillKind, hero_attack: u32, enemy_def: Option<u32>) -> SkillOutcome {
    match kind {
        SkillKind::Attack { power } => match enemy_def {
            Some(def) => SkillOutcome::Struck {
                slot: slot as usize,
                damage: skill_damage_of(hero_attack as int, power as int, def as int) as u32,
            },
            None => SkillOutcome::Used { slot: slot as usize },
        },
        SkillKind::Heal { power } => SkillOutcome::Healed { slot: slot as usize, amount: power },
        SkillKind::Other => SkillOutcome::Used { slot: slot as usize },
    }
}

/// The attack of a skill of kind `kind` fits in `u32`.
pub open spec fn skill_fits(kind: Option<SkillKind>, hero_attack: u32, enemy_def: Option<u32>) -> bool {
    match (kind, enemy_def) {
        (Some(SkillKind::Attack { power }), Some(_)) => hero_attack * power <= u32::MAX,
        _ => true,
    }
}

/// `b` is `a` after the hero tried the skill in `slot`, of kind `kind` (`None` when the
/// game does not know it), answered by `out`. A ready skill that the game knows is used:
/// its cooldown starts, the hero attacks, and a strike's damage waits to be shown.
/// Otherwise nothing changes.
pub open spec fn skill_tried(a: &SemiActiveBattlePage, b: &SemiActiveBattlePage, slot: int,
    kind: Option<SkillKind>, hero_attack: u32, enemy_def: Option<u32>, out: SkillOutcome) -> bool {
    if a.buttons()[slot].ready() && kind is Some {
        let effect = skill_effect(slot, kind->0, hero_attack, enemy_def);
        &&& out == effect
        &&& b.turn_of() == BattleTurn::HeroAttacking
        &&& b.buttons()[slot].cooldown_remaining_ms == a.buttons()[slot].max_cooldown_ms
        &&& b.buttons()[slot].skill_id == a.buttons()[slot].skill_id
        &&& b.buttons()[slot].skill_name == a.buttons()[slot].skill_name
        &&& b.buttons()[slot].max_cooldown_ms == a.buttons()[slot].max_cooldown_ms
        &&& b.buttons()[slot].bounds == a.buttons()[slot].bounds
        &&& forall|j: int| 0 <= j < 3 && j != slot ==> #[trigger] b.buttons()[j] == a.buttons()[j]
        &&& b.pending_for_enemy() == (match effect {
            SkillOutcome::Struck { damage, .. } => Some(AttackRoll { damage, critical: false, miss: false }),
            _ => a.pending_for_enemy(),
        })
        &&& b.result_of() == a.result_of()
        &&& b.pending_for_hero() == a.pending_for_hero()
        &&& b.enemy_id_value() == a.enemy_id_value()
    } else {
        &&& out == SkillOutcome::NotFired
        &&& *b == *a
    }
}

/// What the caller does after a step of the turn machine.
#[derive(Clone, Copy, Debug, PartialEq, Eq, Structural)]
pub enum TurnEvent {
    /// Nothing happened.
    Wait,
    /// The hero attacks on its own: roll the attack and pass it to `queue_enemy_damage`.
    HeroAutoAttack,
    /// The hero's attack landed with this roll (shown over the enemy).
    HeroAttackLanded(Option<AttackRoll>),
    /// The enemy fell; the battle is won.
    EnemyDefeated,
    /// The enemy's turn begins.
    EnemyTurnBegins,
    /// The enemy attacks: roll the attack and pass it to `queue_hero_damage`.
    EnemyAttackDue,
    /// The enemy's attack landed with this roll (shown over the hero).
    EnemyAttackLanded(Option<AttackRoll>),
    /// The hero fell; the battle is lost.
    HeroDefeated,
    /// The hero's turn begins again.
    HeroTurnBegins,
}

/// Turn logic of the one-on-one battle.
pub struct SemiActiveBattlePage {
    enemy_id: u32,
    turn: BattleTurn,
    skill_buttons: [SkillButton; 3],
    attack_button_bounds: (i32, i32, u32, u32),
    pending_hero_damage: Option<AttackRoll>,
    pending_enemy_damage: Option<AttackRoll>,
    result: BattleResult,
}

impl SemiActiveBattlePage {
    pub closed spec fn turn_of(&self) -> BattleTurn {
        self.turn
    }

    pub closed spec fn result_of(&self) -> BattleResult {
        self.result
    }

    pub closed spec fn buttons(&self) -> Seq<SkillButton> {
        self.skill_buttons@
    }

    pub closed spec fn pending_for_hero(&self) -> Option<AttackRoll> {
        self.pending_hero_damage
    }

    pub closed spec fn pending_for_enemy(&self) -> Option<AttackRoll> {
        self.pending_enemy_damage
    }

    /// The skill buttons sit in a row at the bottom of the screen.
    pub closed spec fn wf(&self) -> bool {
        &&& self.skill_buttons@[0].bounds == (10i32, 390i32, 110u32, 55u32)
        &&& self.skill_buttons@[1].bounds == (128i32, 390i32, 110u32, 55u32)
        &&& self.skill_buttons@[2].bounds == (246i32, 390i32, 110u32, 55u32)
        &&& self.attack_button_bounds == (0i32, 0i32, 0u32, 0u32)
    }

    /// A battle against `enemy_id` that starts on the hero's turn with empty skill slots.
    pub fn new(enemy_id: u32) -> (p: Self)
        ensures
            p.enemy_id_value() == enemy_id,
            p.wf(),
            p.turn_of() == BattleTurn::HeroTurn,
            p.result_of() == BattleResult::InProgress,
            p.pending_for_hero() is None,
            p.pending_for_enemy() is None,
            forall|i: int| 0 <= i < 3 ==> (#[trigger] p.buttons()[i]).skill_id is None && p.buttons()[i].cooldown_remaining_ms == 0,
    {
        SemiActiveBattlePage {
            enemy_id,
            turn: BattleTurn::HeroTurn,
            skill_buttons: [SkillButton::new(10, 390), SkillButton::new(128, 390), SkillButton::new(246, 390)],
            attack_button_bounds: (0, 0, 0, 0),
            pending_hero_damage: None,
            pending_enemy_damage: None,
            result: BattleResult::InProgress,
        }
    }

    pub closed spec fn enemy_id_value(&self) -> u32 {
        self.enemy_id
    }

    pub fn enemy_id(&self) -> (r: u32)
        ensures
            r == self.enemy_id_value(),
    {
        self.enemy_id
    }

    pub fn turn(&self) -> (t: BattleTurn)
        ensures
            t == self.turn_of(),
    {
        self.turn
    }

    pub fn get_result(&self) -> (r: &BattleResult)
        ensures
            *r == self.result_of(),
    {
        &self.result
    }

    pub fn skill_button(&self, i: usize) -> (b: &SkillButton)
        requires
            i < 3,
        ensures
            *b == self.buttons()[i as int],
    {
        &self.skill_buttons[i]
    }

    /// Puts skill `skill_id` in slot `i`.
    pub fn set_skill(&mut self, i: usize, skill_id: u32, name: &str, cooldown_ms: u64)
        requires
            old(self).wf(),
            i < 3,
        ensures
            final(self).wf(),
            final(self).turn_of() == old(self).turn_of(),
            final(self).result_of() == old(self).result_of(),
            final(self).buttons()[i as int].skill_id == Some(skill_id),
            final(self).buttons()[i as int].skill_name@ == name@,
            final(self).buttons()[i as int].max_cooldown_ms == cooldown_ms,
            final(self).buttons()[i as int].cooldown_remaining_ms == 0,
            forall|j: int| 0 <= j < 3 && j != i ==> #[trigger] final(self).buttons()[j] == old(self).buttons()[j],
            final(self).pending_for_hero() == old(self).pending_for_hero(),
            final(self).pending_for_enemy() == old(self).pending_for_enemy(),
    {
        self.skill_buttons[i].set_skill(skill_id, name, cooldown_ms);
    }

    /// Loads the hero's equipped skills into the buttons: slot `i` holding skill id,
    /// name and cooldown (in milliseconds) fills button `i`; an empty slot leaves its
    /// button as it was.
    pub fn initialize(&mut self, skills: &Vec<Option<(u32, String, u64)>>)
        requires
            old(self).wf(),
            skills@.len() <= 3,
        ensures
            final(self).wf(),
            final(self).turn_of() == old(self).turn_of(),
            final(self).result_of() == old(self).result_of(),
            final(self).pending_for_hero() == old(self).pending_for_hero(),
            final(self).pending_for_enemy() == old(self).pending_for_enemy(),
            forall|i: int| 0 <= i < 3 ==> (match (if i < skills@.len() { skills@[i] } else { None }) {
                Some((id, name, cd)) => {
                    &&& (#[trigger] final(self).buttons()[i]).skill_id == Some(id)
                    &&& final(self).buttons()[i].skill_name@ == name@
                    &&& final(self).buttons()[i].max_cooldown_ms == cd
                    &&& final(self).buttons()[i].cooldown_remaining_ms == 0
                },
                None => final(self).buttons()[i] == old(self).buttons()[i],
            }),
    {
        let mut i: usize = 0;
        while i < skills.len()
            invariant
                i <= skills@.len(),
                skills@.len() <= 3,
                self.wf(),
                self.turn == old(self).turn,
                self.result == old(self).result,
                self.pending_hero_damage == old(self).pending_hero_damage,
                self.pending_enemy_damage == old(self).pending_enemy_damage,
                forall|k: int| 0 <= k < i ==> (match skills@[k] {
                    Some((id, name, cd)) => {
                        &&& (#[trigger] self.skill_buttons@[k]).skill_id == Some(id)
                        &&& self.skill_buttons@[k].skill_name@ == name@
                        &&& self.skill_buttons@[k].max_cooldown_ms == cd
                        &&& self.skill_buttons@[k].cooldown_remaining_ms == 0
                    },
                    None => self.skill_buttons@[k] == old(self).skill_buttons@[k],
                }),
                forall|k: int| i <= k < 3 ==> #[trigger] self.skill_buttons@[k] == old(self).skill_buttons@[k],
            decreases skills@.len() - i,
        {
            if let Some((id, name, cd)) = &skills[i] {
                self.set_skill(i, *id, name.as_str(), *cd);
                assert(skills@[i as int] == Some((*id, *name, *cd)));
            }
            i += 1;
        }
    }

    /// `delta_ms` passed: every skill cooldown runs down.
    pub fn tick_cooldowns(&mut self, delta_ms: u64)
        requires
            old(self).wf(),
        ensures
            final(self).wf(),
            final(self).turn_of() == old(self).turn_of(),
            final(self).result_of() == old(self).result_of(),
            final(self).pending_for_hero() == old(self).pending_for_hero(),
            final(self).pending_for_enemy() == old(self).pending_for_enemy(),
            forall|j: int| 0 <= j < 3 ==> {
                &&& (#[trigger] final(self).buttons()[j]).cooldown_remaining_ms == (
                    if old(self).buttons()[j].cooldown_remaining_ms > delta_ms {
                        old(self).buttons()[j].cooldown_remaining_ms - delta_ms
                    } else {
                        0
                    })
                &&& final(self).buttons()[j].skill_id == old(self).buttons()[j].skill_id
                &&& final(self).buttons()[j].max_cooldown_ms == old(self).buttons()[j].max_cooldown_ms
            },
    {
        let mut i: usize = 0;
        while i < 3
            invariant
                i <= 3,
                self.wf(),
                self.turn == old(self).turn,
                self.result == old(self).result,
                self.pending_hero_damage == old(self).pending_hero_damage,
                self.pending_enemy_damage == old(self).pending_enemy_damage,
                forall|j: int| 0 <= j < i ==> {
                    &&& (#[trigger] self.skill_buttons@[j]).cooldown_remaining_ms == (
                        if old(self).skill_buttons@[j].cooldown_remaining_ms > delta_ms {
                            old(self).skill_buttons@[j].cooldown_remaining_ms - delta_ms
                        } else {
                            0
                        })
                    &&& self.skill_buttons@[j].skill_id == old(self).skill_buttons@[j].skill_id
                    &&& self.skill_buttons@[j].max_cooldown_ms == old(self).skill_buttons@[j].max_cooldown_ms
                },
                forall|j: int| i <= j < 3 ==> #[trigger] self.skill_buttons@[j] == old(self).skill_buttons@[j],
            decreases 3 - i,
        {
            self.skill_buttons[i].update(delta_ms);
            i += 1;
        }
    }

    /// The first skill button under a tap, if any.
    pub open spec fn button_hit(&self, x: int, y: int) -> Option<int> {
        if self.buttons()[0].holds(x, y) {
            Some(0)
        } else if self.buttons()[1].holds(x, y) {
            Some(1)
        } else if self.buttons()[2].holds(x, y) {
            Some(2)
        } else {
            None
        }
    }

    /// A tap on a skill button tries that skill (at any point of the battle); `kinds`
    /// holds what the game knows of the skill in each slot. The basic attack button is
    /// not shown, so nothing else reacts to a tap.
    pub fn handle_touch(&mut self, x: i32, y: i32, kinds: [Option<SkillKind>; 3], hero_attack: u32,
        enemy_def: Option<u32>) -> (out: SkillOutcome)
        requires
            old(self).wf(),
            forall|i: int| 0 <= i < 3 ==> skill_fits(#[trigger] kinds@[i], hero_attack, enemy_def),
        ensures
            final(self).wf(),
            match old(self).button_hit(x as int, y as int) {
                Some(i) => skill_tried(old(self), final(self), i, kinds@[i], hero_attack, enemy_def, out),
                None => out == SkillOutcome::NotFired && *final(self) == *old(self),
            },
    {
        let mut i: usize = 0;
        while i < 3
            invariant
                i <= 3,
                self.wf(),
                *self == *old(self),
                forall|k: int| 0 <= k < 3 ==> skill_fits(#[trigger] kinds@[k], hero_attack, enemy_def),
                forall|j: int| 0 <= j < i ==> !(#[trigger] self.skill_buttons@[j]).holds(x as int, y as int),
            decreases 3 - i,
        {
            if self.skill_buttons[i].contains(x, y) {
                return self.handle_skill_use(i, kinds[i], hero_attack, enemy_def);
            }
            i += 1;
        }
        SkillOutcome::NotFired
    }

    /// The hero tries the skill in `slot`, of kind `kind` (`None` when the game does not
    /// know it). A ready skill that the game knows is used: an attack strikes the enemy
    /// (when there is one) for its damage, a heal asks for its HP, the skill's cooldown
    /// starts and the hero's attack animation begins. Otherwise nothing happens.
    pub fn handle_skill_use(&mut self, slot: usize, kind: Option<SkillKind>, hero_attack: u32,
        enemy_def: Option<u32>) -> (out: SkillOutcome)
        requires
            old(self).wf(),
            slot < 3,
            skill_fits(kind, hero_attack, enemy_def),
        ensures
            final(self).wf(),
            skill_tried(old(self), final(self), slot as int, kind, hero_attack, enemy_def, out),
    {
        if !self.skill_buttons[slot].is_ready() {
            return SkillOutcome::NotFired;
        }
        let k = match kind {
            Some(k) => k,
            None => return SkillOutcome::NotFired,
        };
        let out = match k {
            SkillKind::Attack { power } => match enemy_def {
                Some(def) => {
                    let damage = skill_damage(hero_attack, power, def);
                    self.pending_enemy_damage = Some(AttackRoll { damage, critical: false, miss: false });
                    SkillOutcome::Struck { slot, damage }
                },
                None => SkillOutcome::Used { slot },
            },
            SkillKind::Heal { power } => SkillOutcome::Healed { slot, amount: power },
            SkillKind::Other => SkillOutcome::Used { slot },
        };
        self.skill_buttons[slot].use_skill();
        self.turn = BattleTurn::HeroAttacking;
        out
    }

    /// The hero's basic attack was rolled: it lands when the attack animation ends.
    pub fn queue_enemy_damage(&mut self, roll: AttackRoll)
        ensures
            final(self).pending_for_enemy() == Some(roll),
            final(self).turn_of() == old(self).turn_of(),
            final(self).result_of() == old(self).result_of(),
            final(self).buttons() == old(self).buttons(),
            final(self).pending_for_hero() == old(self).pending_for_hero(),
            final(self).wf() == old(self).wf(),
    {
        self.pending_enemy_damage = Some(roll);
    }

    /// The enemy's attack was rolled: it lands when the attack animation ends.
    pub fn queue_hero_damage(&mut self, roll: AttackRoll)
        ensures
            final(self).pending_for_hero() == Some(roll),
            final(self).turn_of() == old(self).turn_of(),
            final(self).result_of() == old(self).result_of(),
            final(self).buttons() == old(self).buttons(),
            final(self).pending_for_enemy() == old(self).pending_for_enemy(),
            final(self).wf() == old(self).wf(),
    {
        self.pending_hero_damage = Some(roll);
    }

    /// One step of the turn machine. `elapsed_ms` is the time spent in the current turn
    /// state, `anim_done` whether the running attack animation finished, `enemy_down`
    /// and `hero_down` whether that side has no HP left, and `exp_reward` what the enemy
    /// gives when it falls.
    pub fn update_turn(&mut self, elapsed_ms: u64, anim_done: bool, enemy_down: bool, hero_down: bool,
        exp_reward: u32) -> (ev: TurnEvent)
        requires
            old(self).wf(),
        ensures
            final(self).wf(),
            final(self).buttons() == old(self).buttons(),
            match old(self).turn_of() {
                BattleTurn::HeroTurn => if elapsed_ms >= HERO_AUTO_ATTACK_MS {
                    &&& ev == TurnEvent::HeroAutoAttack
                    &&& final(self).turn_of() == BattleTurn::HeroAttacking
                    &&& final(self).result_of() == old(self).result_of()
                    &&& final(self).pending_for_hero() == old(self).pending_for_hero()
                    &&& final(self).pending_for_enemy() == old(self).pending_for_enemy()
                } else {
                    unchanged_step(old(self), final(self), ev)
                },
                BattleTurn::HeroAttacking => if anim_done || elapsed_ms > ANIMATION_MS {
                    &&& ev == TurnEvent::HeroAttackLanded(old(self).pending_for_enemy())
                    &&& final(self).turn_of() == BattleTurn::EnemyHit
                    &&& final(self).result_of() == old(self).result_of()
                    &&& final(self).pending_for_hero() == old(self).pending_for_hero()
                    &&& final(self).pending_for_enemy() is None
                } else {
                    unchanged_step(old(self), final(self), ev)
                },
                BattleTurn::EnemyHit => if elapsed_ms > HIT_MS {
                    &&& final(self).pending_for_hero() == old(self).pending_for_hero()
                    &&& final(self).pending_for_enemy() == old(self).pending_for_enemy()
                    &&& if enemy_down {
                        &&& ev == TurnEvent::EnemyDefeated
                        &&& final(self).turn_of() == BattleTurn::BattleEnded
                        &&& final(self).result_of() matches BattleResult::Victory { exp_gained, cards_dropped }
                            && exp_gained == exp_reward && cards_dropped@.len() == 0
                    } else {
                        &&& ev == TurnEvent::EnemyTurnBegins
                        &&& final(self).turn_of() == BattleTurn::EnemyTurn
                        &&& final(self).result_of() == old(self).result_of()
                    }
                } else {
                    unchanged_step(old(self), final(self), ev)
                },
                BattleTurn::EnemyTurn => if elapsed_ms > ENEMY_PAUSE_MS {
                    &&& ev == TurnEvent::EnemyAttackDue
                    &&& final(self).turn_of() == BattleTurn::EnemyAttacking
                    &&& final(self).result_of() == old(self).result_of()
                    &&& final(self).pending_for_hero() == old(self).pending_for_hero()
                    &&& final(self).pending_for_enemy() == old(self).pending_for_enemy()
                } else {
                    unchanged_step(old(self), final(self), ev)
                },
                BattleTurn::EnemyAttacking => if anim_done || elapsed_ms > ANIMATION_MS {
                    &&& ev == TurnEvent::EnemyAttackLanded(old(self).pending_for_hero())
                    &&& final(self).turn_of() == BattleTurn::HeroHit
                    &&& final(self).result_of() == old(self).result_of()
                    &&& final(self).pending_for_hero() is None
                    &&& final(self).pending_for_enemy() == old(self).pending_for_enemy()
                } else {
                    unchanged_step(old(self), final(self), ev)
                },
                BattleTurn::HeroHit => if elapsed_ms > HIT_MS {
                    &&& final(self).pending_for_hero() == old(self).pending_for_hero()
                    &&& final(self).pending_for_enemy() == old(self).pending_for_enemy()
                    &&& if hero_down {
                        &&& ev == TurnEvent::HeroDefeated
                        &&& final(self).turn_of() == BattleTurn::BattleEnded
                        &&& final(self).result_of() == BattleResult::Defeat
                    } else {
                        &&& ev == TurnEvent::HeroTurnBegins
                        &&& final(self).turn_of() == BattleTurn::HeroTurn
                        &&& final(self).result_of() == old(self).result_of()
                    }
                } else {
                    unchanged_step(old(self), final(self), ev)
                },
                BattleTurn::BattleEnded => unchanged_step(old(self), final(self), ev),
            },
    {
        match self.turn {
            BattleTurn::HeroTurn => {
                if elapsed_ms >= HERO_AUTO_ATTACK_MS {
                    self.turn = BattleTurn::HeroAttacking;
                    return TurnEvent::HeroAutoAttack;
                }
            },
            BattleTurn::HeroAttacking => {
                if anim_done || elapsed_ms > ANIMATION_MS {
                    let landed = self.pending_enemy_damage;
                    self.pending_enemy_damage = None;
                    self.turn = BattleTurn::EnemyHit;
                    return TurnEvent::HeroAttackLanded(landed);
                }
            },
            BattleTurn::EnemyHit => {
                if elapsed_ms > HIT_MS {
                    if enemy_down {
                        self.result = BattleResult::Victory { exp_gained: exp_reward, cards_dropped: Vec::new() };
                        self.turn = BattleTurn::BattleEnded;
                        return TurnEvent::EnemyDefeated;
                    }
                    self.turn = BattleTurn::EnemyTurn;
                    return TurnEvent::EnemyTurnBegins;
                }
            },
            BattleTurn::EnemyTurn => {
                if elapsed_ms > ENEMY_PAUSE_MS {
                    self.turn = BattleTurn::EnemyAttacking;
                    return TurnEvent::EnemyAttackDue;
                }
            },
            BattleTurn::EnemyAttacking => {
                if anim_done || elapsed_ms > ANIMATION_MS {
                    let landed = self.pending_hero_damage;
                    self.pending_hero_damage = None;
                    self.turn = BattleTurn::HeroHit;
                    return TurnEvent::EnemyAttackLanded(landed);
                }
            },
            BattleTurn::HeroHit => {
                if elapsed_ms > HIT_MS {
                    if hero_down {
                        self.result = BattleResult::Defeat;
                        self.turn = BattleTurn::BattleEnded;
                        return TurnEvent::HeroDefeated;
                    }
                    self.turn = BattleTurn::HeroTurn;
                    return TurnEvent::HeroTurnBegins;
                }
            },
            BattleTurn::BattleEnded => {},
        }
        TurnEvent::Wait
    }

    /// Whether the page stays open: while the battle runs, and for two seconds after it
    /// was decided (`elapsed_ms` is the time spent in the current turn state).
    pub fn keep_open(&self, elapsed_ms: u64) -> (b: bool)
        ensures
            b == (self.result_of() == BattleResult::InProgress || elapsed_ms < END_LINGER_MS),
    {
        let running = match self.result {
            BattleResult::InProgress => true,
            _ => false,
        };
        running || elapsed_ms < END_LINGER_MS
    }

    /// Hands out the result once the battle is decided, leaving the battle in progress;
    /// `None` while it runs.
    pub fn take_result(&mut self) -> (r: Option<BattleResult>)
        ensures
            r == (if old(self).result_of() == BattleResult::InProgress { None } else { Some(old(self).result_of()) }),
            final(self).result_of() == BattleResult::InProgress,
            old(self).result_of() == BattleResult::InProgress ==> *final(self) == *old(self),
            final(self).pending_for_hero() == old(self).pending_for_hero(),
            final(self).pending_for_enemy() == old(self).pending_for_enemy(),
            final(self).enemy_id_value() == old(self).enemy_id_value(),
            final(self).turn_of() == old(self).turn_of(),
            final(self).buttons() == old(self).buttons(),
            final(self).wf() == old(self).wf(),
    {
        let mut taken = BattleResult::InProgress;
        std::mem::swap(&mut taken, &mut self.result);
        match taken {
            BattleResult::InProgress => None,
            other => Some(other),
        }
    }

    /// The player flees: a running battle ends as fled.
    pub fn attempt_flee(&mut self)
        ensures
            old(self).result_of() == BattleResult::InProgress ==> {
                &&& final(self).result_of() == BattleResult::Fled
                &&& final(self).turn_of() == BattleTurn::BattleEnded
            },
            old(self).result_of() != BattleResult::InProgress ==> *final(self) == *old(self),
            final(self).pending_for_hero() == old(self).pending_for_hero(),
            final(self).pending_for_enemy() == old(self).pending_for_enemy(),
            final(self).enemy_id_value() == old(self).enemy_id_value(),
            final(self).buttons() == old(self).buttons(),
            final(self).wf() == old(self).wf(),
    {
        let running = match self.result {
            BattleResult::InProgress => true,
            _ => false,
        };
        if !running {
            return;
        }
        self.result = BattleResult::Fled;
        self.turn = BattleTurn::BattleEnded;
    }
}

/// A step that changed nothing.
pub open spec fn unchanged_step(a: &SemiActiveBattlePage, b: &SemiActiveBattlePage, ev: TurnEvent) -> bool {
    &&& ev == TurnEvent::Wait
    &&& b.turn_of() == a.turn_of()
    &&& b.result_of() == a.result_of()
    &&& b.pending_for_hero() == a.pending_for_hero()
    &&& b.pending_for_enemy() == a.pending_for_enemy()
}

/// Trying a skill: a ready skill that the game knows, of whatever kind, goes on its full
/// cooldown and the hero attacks, while the other buttons stay as they were. An attack on
/// an enemy strikes for the attack's power percent of the hero's attack less half the
/// defence, at least 1; a heal asks for its power in HP. A skill on cooldown, an empty
/// slot or a skill the game does not know changes nothing and fires nothing.
pub proof fn lemma_skill_tried(a: &SemiActiveBattlePage, b: &SemiActiveBattlePage, slot: int,
    kind: Option<SkillKind>, hero_attack: u32, enemy_def: Option<u32>, out: SkillOutcome)
    requires
        0 <= slot < 3,
        skill_fits(kind, hero_attack, enemy_def),
        skill_tried(a, b, slot, kind, hero_attack, enemy_def, out),
    ensures
        (a.buttons()[slot].skill_id is Some && a.buttons()[slot].cooldown_remaining_ms == 0 && kind is Some) ==> {
            &&& out != SkillOutcome::NotFired
            &&& a.buttons()[slot].max_cooldown_ms == b.buttons()[slot].cooldown_remaining_ms
            &&& a.buttons()[slot].skill_id == b.buttons()[slot].skill_id
            &&& b.turn_of() == BattleTurn::HeroAttacking
            &&& forall|j: int| 0 <= j < 3 && j != slot ==> #[trigger] b.buttons()[j] == a.buttons()[j]
            &&& (match (kind, enemy_def) {
                (Some(SkillKind::Attack { power }), Some(def)) => {
                    let base = hero_attack * power / 100 - def / 2;
                    out == SkillOutcome::Struck { slot: slot as usize, damage: (if base >= 1 { base } else { 1 }) as u32 }
                },
                (Some(SkillKind::Heal { power }), _) => out == SkillOutcome::Healed { slot: slot as usize, amount: power },
                _ => out == SkillOutcome::Used { slot: slot as usize },
            })
        },
        !(a.buttons()[slot].skill_id is Some && a.buttons()[slot].cooldown_remaining_ms == 0 && kind is Some) ==> {
            &&& out == SkillOutcome::NotFired
            &&& *b == *a
        },
{
}

} // verus!
