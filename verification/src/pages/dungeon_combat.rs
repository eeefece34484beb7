//! Dungeon combat: turn order by speed, the turn phase machine, elemental
//! reactions, floor rewards, and the touch areas of the action buttons.
//!
//! Timers that run in seconds (animation lengths, the end-of-combat delay) are
//! kept by the caller; it reports when the current phase's timer has run out.

use vstd::prelude::*;
use crate::element::Element;
use crate::geometry::{Rect, opt_contains};

verus! {

/// Counter value a side needs to act.
pub const TURN_THRESHOLD: u64 = 100;

/// Largest turn counter the page accepts.
pub open spec fn counter_cap() -> int {
    0x4000_0000_0000_0000
}

/// Headroom a turn decision needs below the counter cap.
pub open spec fn counter_room() -> int {
    0x10_0000
}

/// A monster as combat sees it.
#[derive(Clone, Debug)]
pub struct CombatMonster {
    pub hp_current: u16,
    pub hp_max: u16,
    pub spd: u16,
    /// Number of equipped skills.
    pub skill_count: usize,
    /// Remaining cooldown of each equipped skill, in turns.
    pub cooldowns: Vec<u8>,
}

impl CombatMonster {
    pub open spec fn alive(&self) -> bool {
        self.hp_current > 0
    }

    pub open spec fn on_cooldown(&self, slot: int) -> bool {
        0 <= slot < self.cooldowns@.len() && self.cooldowns@[slot] > 0
    }

    /// The skill in `slot` exists, is off cooldown and its owner can act.
    pub open spec fn skill_usable(&self, slot: int) -> bool {
        &&& self.alive()
        &&& 0 <= slot < self.skill_count
        &&& !self.on_cooldown(slot)
    }

    pub fn is_alive(&self) -> (b: bool)
        ensures
            b == self.alive(),
    {
        self.hp_current > 0
    }

    pub fn is_skill_on_cooldown(&self, slot: usize) -> (b: bool)
        ensures
            b == self.on_cooldown(slot as int),
    {
        slot < self.cooldowns.len() && self.cooldowns[slot] > 0
    }

    pub fn can_use_skill(&self, slot: usize) -> (b: bool)
        ensures
            b == self.skill_usable(slot as int),
    {
        self.is_alive() && slot < self.skill_count && !self.is_skill_on_cooldown(slot)
    }

    /// Lowers every running cooldown by one turn.
    pub fn tick_cooldowns(&mut self)
        ensures
            final(self).cooldowns@ == ticked(old(self).cooldowns@),
            final(self).hp_current == old(self).hp_current,
            final(self).hp_max == old(self).hp_max,
            final(self).spd == old(self).spd,
            final(self).skill_count == old(self).skill_count,
    {
        let n = self.cooldowns.len();
        let mut i: usize = 0;
        while i < n
            invariant
                n == self.cooldowns@.len(),
                n == old(self).cooldowns@.len(),
                i <= n,
                forall|j: int| 0 <= j < i ==> #[trigger] self.cooldowns@[j] == ticked(old(self).cooldowns@)[j],
                forall|j: int| i <= j < n ==> #[trigger] self.cooldowns@[j] == old(self).cooldowns@[j],
                self.hp_current == old(self).hp_current,
                self.hp_max == old(self).hp_max,
                self.spd == old(self).spd,
                self.skill_count == old(self).skill_count,
            decreases n - i,
        {
            let c = self.cooldowns[i];
            if c > 0 {
                self.cooldowns[i] = c - 1;
            }
            i += 1;
        }
        assert(self.cooldowns@ =~= ticked(old(self).cooldowns@));
    }

    /// Lowers HP by `damage`, stopping at zero.
    pub fn take_damage(&mut self, damage: u16)
        ensures
            final(self).hp_current as int == if old(self).hp_current >= damage {
                old(self).hp_current - damage
            } else {
                0
            },
            final(self).hp_max == old(self).hp_max,
            final(self).spd == old(self).spd,
            final(self).skill_count == old(self).skill_count,
            final(self).cooldowns == old(self).cooldowns,
    {
        self.hp_current = self.hp_current.saturating_sub(damage);
    }
}

/// Cooldowns after one turn has passed.
pub open spec fn ticked(s: Seq<u8>) -> Seq<u8> {
    Seq::new(s.len(), |i: int| if s[i] > 0 { (s[i] - 1) as u8 } else { 0u8 })
}

/// State of one dungeon fight.
#[derive(Clone, Debug)]
pub struct CombatState {
    pub player_monsters: Vec<CombatMonster>,
    pub active_index: u8,
    pub enemy: CombatMonster,
    /// Element left on the enemy by the last hit.
    pub enemy_aura: Option<Element>,
    pub current_floor: u16,
    pub is_boss_floor: bool,
    pub crystals_earned: u32,
    pub xp_earned: u32,
    pub combat_ended: bool,
    pub player_won: bool,
}

impl CombatState {
    pub open spec fn active(&self) -> Option<CombatMonster> {
        if (self.active_index as int) < self.player_monsters@.len() {
            Some(self.player_monsters@[self.active_index as int])
        } else {
            None
        }
    }

    /// Some teammate other than the active one is still standing.
    pub open spec fn swap_possible(&self) -> bool {
        exists|i: int|
            0 <= i < self.player_monsters@.len() && i != self.active_index as int
                && #[trigger] self.player_monsters@[i].alive()
    }

    pub open spec fn all_down(&self) -> bool {
        forall|i: int| 0 <= i < self.player_monsters@.len() ==> !#[trigger] self.player_monsters@[i].alive()
    }

    pub fn active_monster(&self) -> (m: Option<&CombatMonster>)
        ensures
            m matches Some(x) ==> self.active() == Some(*x),
            m is None <==> self.active() is None,
    {
        if (self.active_index as usize) < self.player_monsters.len() {
            Some(&self.player_monsters[self.active_index as usize])
        } else {
            None
        }
    }

    pub fn all_players_dead(&self) -> (b: bool)
        ensures
            b == self.all_down(),
    {
        let mut i: usize = 0;
        while i < self.player_monsters.len()
            invariant
                i <= self.player_monsters@.len(),
                forall|j: int| 0 <= j < i ==> !#[trigger] self.player_monsters@[j].alive(),
            decreases self.player_monsters@.len() - i,
        {
            if self.player_monsters[i].is_alive() {
                return false;
            }
            i += 1;
        }
        true
    }
}

/// `b` is `a` but for the HP of each teammate, which is `hp(j)` for teammate `j`.
pub open spec fn team_hp_set(a: CombatMonster, b: CombatMonster, hp: int) -> bool {
    &&& b.hp_current == hp
    &&& b.hp_max == a.hp_max
    &&& b.spd == a.spd
    &&& b.skill_count == a.skill_count
    &&& b.cooldowns == a.cooldowns
}

/// All of the fight but the team and the aura is the same in `a` and `b`.
pub open spec fn same_fight(a: CombatState, b: CombatState) -> bool {
    &&& b.player_monsters@.len() == a.player_monsters@.len()
    &&& b.active_index == a.active_index
    &&& b.enemy == a.enemy
    &&& b.current_floor == a.current_floor
    &&& b.is_boss_floor == a.is_boss_floor
    &&& b.crystals_earned == a.crystals_earned
    &&& b.xp_earned == a.xp_earned
    &&& b.combat_ended == a.combat_ended
    &&& b.player_won == a.player_won
}

/// `b` is `a` after the active monster's cooldowns ticked down once.
pub open spec fn cooldowns_ticked(a: CombatState, b: CombatState) -> bool {
    &&& same_fight(a, b)
    &&& b.enemy_aura == a.enemy_aura
    &&& forall|j: int| 0 <= j < a.player_monsters@.len() && j != a.active_index as int
        ==> #[trigger] b.player_monsters@[j] == a.player_monsters@[j]
    &&& (a.active() matches Some(m) ==> {
        let n = b.player_monsters@[a.active_index as int];
        &&& n.hp_current == m.hp_current
        &&& n.hp_max == m.hp_max
        &&& n.spd == m.spd
        &&& n.skill_count == m.skill_count
        &&& n.cooldowns@ == ticked(m.cooldowns@)
    })
}

/// What the player chose to do on their turn.
#[derive(Clone, Copy, Debug, PartialEq, Eq, Structural)]
pub enum TurnAction {
    UseSkill { slot: u8 },
    Swap { target_index: u8 },
}

/// Phase of the turn-based fight.
#[derive(Clone, Copy, Debug, PartialEq, Eq, Structural)]
pub enum TurnPhase {
    DeterminingTurnOrder,
    PlayerSelectAction,
    PlayerActionExecuting { action_type: TurnAction },
    PlayerActionComplete,
    EnemyActionExecuting,
    EnemyActionComplete,
    CombatEnded { victory: bool },
}

/// Which side is playing its lunge animation.
#[derive(Clone, Copy, Debug, PartialEq, Eq, Structural)]
pub enum ActiveAnim {
    Neither,
    Enemy,
    Player,
}

/// What the caller must do after a frame of the phase machine.
#[derive(Clone, Copy, Debug, PartialEq, Eq, Structural)]
pub enum PhaseStep {
    /// Nothing beyond redrawing.
    Idle,
    /// The player's turn began (the active monster's cooldowns ticked down).
    PlayerTurnStarted,
    /// The enemy's turn began.
    EnemyTurnStarted,
    /// The player's action is due: apply its effect, then call `resolve_player_action`.
    ApplyPlayerAction(TurnAction),
    /// The enemy's attack is due: apply it, then call `resolve_enemy_action`.
    ApplyEnemyAttack,
    /// The phase ran its course and the next one started.
    Advanced,
}

/// Result of a touch on the combat screen.
#[derive(Clone, Copy, Debug, PartialEq, Eq, Structural)]
pub enum DungeonCombatAction {
    NoAction,
    UseSkill,
    SwapMonster(u8),
    CombatEnded { victory: bool },
}

/// Outcome of an elemental reaction.
#[derive(Clone, Copy, Debug, PartialEq, Eq, Structural)]
pub enum Reaction {
    Vaporize,
    Electrocute,
    Bloom,
}

/// Counters `p` and `e` (speeds already added once) settle who acts: while both are
/// below 100 both keep adding their speed; then the side at 100 or more acts (the
/// higher counter when both are, the player on a tie) and pays 100.
/// Returns who acts (`true` for the player) and the two counters afterwards.
pub open spec fn settle_turn(p: int, e: int, ps: int, es: int) -> (bool, int, int)
    decreases gap(p) + gap(e) when ps >= 0 && es >= 0 && ps + es > 0
{
    if p >= 100 && e >= 100 {
        if p >= e { (true, p - 100, e) } else { (false, p, e - 100) }
    } else if p >= 100 {
        (true, p - 100, e)
    } else if e >= 100 {
        (false, p, e - 100)
    } else {
        settle_turn(p + ps, e + es, ps, es)
    }
}

/// Distance of a counter below the threshold.
pub open spec fn gap(c: int) -> int {
    if c < 100 { 100 - c } else { 0 }
}

/// Turn order from counters `pc`, `ec` and speeds `ps`, `es`.
pub open spec fn next_turn(pc: int, ec: int, ps: int, es: int) -> (bool, int, int) {
    settle_turn(pc + ps, ec + es, ps, es)
}

/// Damage multiplier (in percent) and reaction when `attack` hits an enemy carrying `aura`.
pub open spec fn reaction_of(aura: Option<Element>, attack: Element) -> (u32, Option<Reaction>) {
    match aura {
        Some(Element::Water) => match attack {
            Element::Fire => (200, Some(Reaction::Vaporize)),
            Element::Thunder => (150, Some(Reaction::Electrocute)),
            Element::Earth => (100, Some(Reaction::Bloom)),
            _ => (100, None),
        },
        Some(Element::Fire) => if attack == Element::Water {
            (200, Some(Reaction::Vaporize))
        } else {
            (100, None)
        },
        _ => (100, None),
    }
}

/// Crystals and XP for clearing `floor`.
pub open spec fn floor_rewards(floor: int, boss: bool) -> (int, int) {
    let crystals = 10 + floor / 3;
    let xp = 50 + floor * 15;
    if boss { (crystals * 3, xp * 2) } else { (crystals, xp) }
}

/// HP a Bloom restores to a monster: 15% of its maximum, capped at the maximum.
pub open spec fn bloom_hp(m: CombatMonster) -> int {
    if m.alive() {
        let healed = m.hp_current + m.hp_max * 15 / 100;
        if healed > m.hp_max { m.hp_max as int } else { healed }
    } else {
        m.hp_current as int
    }
}

/// HP the whole team gains from a Bloom.
pub open spec fn bloom_total(team: Seq<CombatMonster>) -> int
    decreases team.len(),
{
    if team.len() == 0 {
        0
    } else {
        bloom_total(team.drop_last()) + bloom_hp(team.last()) - team.last().hp_current
    }
}

/// A Bloom on this team stays within 16-bit HP: every standing member is at or below
/// its maximum with room for the heal, and the total gain fits.
pub open spec fn bloom_fits(team: Seq<CombatMonster>) -> bool {
    &&& forall|j: int| 0 <= j < team.len() && (#[trigger] team[j]).alive() ==> {
        &&& team[j].hp_current <= team[j].hp_max
        &&& team[j].hp_current + team[j].hp_max * 15 / 100 <= 0xffff
    }
    &&& bloom_total(team) <= 0xffff
}

proof fn lemma_bloom_prefix(team: Seq<CombatMonster>, i: int)
    requires
        0 <= i <= team.len(),
        forall|j: int| 0 <= j < team.len() && (#[trigger] team[j]).alive() ==> team[j].hp_current <= team[j].hp_max,
    ensures
        0 <= bloom_total(team.take(i)) <= bloom_total(team),
    decreases team.len(),
{
    if team.len() == 0 {
        assert(team.take(i) =~= team);
    } else if i == team.len() {
        assert(team.take(i) =~= team);
        lemma_bloom_prefix(team.drop_last(), i - 1);
        assert(team.drop_last().take(i - 1) =~= team.drop_last());
    } else {
        lemma_bloom_prefix(team.drop_last(), i);
        assert(team.drop_last().take(i) =~= team.take(i));
        lemma_bloom_prefix(team.drop_last(), team.len() - 1);
        assert(team.drop_last().take(team.len() - 1) =~= team.drop_last());
    }
}

pub open spec fn skill_button_rect(slot: int) -> Rect {
    Rect { x: (4 + slot * 78) as i32, y: 200, w: 74, h: 32 }
}

pub open spec fn swap_button_rect() -> Rect {
    Rect { x: 4, y: 236, w: 232, h: 28 }
}

pub open spec fn popup_button_rect(i: int) -> Rect {
    Rect { x: (25 + i * 62) as i32, y: 118, w: 58, h: 50 }
}

/// The area outside of which a tap dismisses the swap popup.
pub open spec fn popup_area() -> Rect {
    Rect { x: 20, y: 100, w: 200, h: 100 }
}

/// Multiplier in percent and reaction for `attack` on an enemy carrying `aura`.
pub fn reaction_for(aura: Option<Element>, attack: Element) -> (r: (u32, Option<Reaction>))
    ensures
        r == reaction_of(aura, attack),
{
    match aura {
        Some(Element::Water) => match attack {
            Element::Fire => (200, Some(Reaction::Vaporize)),
            Element::Thunder => (150, Some(Reaction::Electrocute)),
            Element::Earth => (100, Some(Reaction::Bloom)),
            _ => (100, None),
        },
        Some(Element::Fire) => match attack {
            Element::Water => (200, Some(Reaction::Vaporize)),
            _ => (100, None),
        },
        _ => (100, None),
    }
}

/// Rewards for clearing a floor: crystals and XP.
pub fn rewards_for_floor(floor: u16, boss: bool) -> (r: (u32, u32))
    ensures
        (r.0 as int, r.1 as int) == floor_rewards(floor as int, boss),
{
    let crystals: u32 = 10 + floor as u32 / 3;
    let xp: u32 = 50 + floor as u32 * 15;
    if boss {
        (crystals * 3, xp * 2)
    } else {
        (crystals, xp)
    }
}

/// Dungeon combat page.
pub struct DungeonCombatPage {
    combat_state: CombatState,
    dungeon_name: String,
    dirty: bool,
    skill_button_areas: [Option<Rect>; 3],
    swap_button_area: Option<Rect>,
    show_swap_popup: bool,
    swap_popup_buttons: [Option<Rect>; 3],
    is_loading: bool,
    loading_drawn: bool,
    needs_player_anim_reload: bool,
    death_anim_active: bool,
    action_target: ActiveAnim,
    turn_phase: TurnPhase,
    player_turn_counter: u64,
    enemy_turn_counter: u64,
    last_actor_was_player: bool,
    last_player_action: Option<TurnAction>,
}

impl DungeonCombatPage {
    pub closed spec fn state(&self) -> CombatState {
        self.combat_state
    }

    pub closed spec fn phase(&self) -> TurnPhase {
        self.turn_phase
    }

    pub closed spec fn counters(&self) -> (int, int) {
        (self.player_turn_counter as int, self.enemy_turn_counter as int)
    }

    pub closed spec fn popup_open(&self) -> bool {
        self.show_swap_popup
    }

    pub closed spec fn last_action(&self) -> Option<TurnAction> {
        self.last_player_action
    }

    pub closed spec fn target(&self) -> ActiveAnim {
        self.action_target
    }

    pub closed spec fn skill_areas(&self) -> Seq<Option<Rect>> {
        self.skill_button_areas@
    }

    pub closed spec fn swap_area(&self) -> Option<Rect> {
        self.swap_button_area
    }

    pub closed spec fn popup_areas(&self) -> Seq<Option<Rect>> {
        self.swap_popup_buttons@
    }

    /// Every registered touch area is one of the fixed button rectangles.
    pub closed spec fn wf(&self) -> bool {
        &&& self.player_turn_counter <= counter_cap()
        &&& self.enemy_turn_counter <= counter_cap()
        &&& forall|i: int| 0 <= i < 3 ==> (#[trigger] self.skill_button_areas@[i] matches Some(r) ==> r == skill_button_rect(i))
        &&& forall|i: int| 0 <= i < 3 ==> (#[trigger] self.swap_popup_buttons@[i] matches Some(r) ==> r == popup_button_rect(i))
        &&& (self.swap_button_area matches Some(r) ==> r == swap_button_rect())
        &&& self.ended_consistent()
    }

    /// An ended fight is recorded in the combat state with the same outcome.
    pub open spec fn ended_consistent(&self) -> bool {
        self.phase() matches TurnPhase::CombatEnded { victory } ==> {
            &&& self.state().combat_ended
            &&& self.state().player_won == victory
        }
    }

    /// Every well-formed page records an ended fight in its combat state.
    pub proof fn lemma_wf_ended_consistent(&self)
        requires
            self.wf(),
        ensures
            self.ended_consistent(),
    {
    }

    /// A fight that starts by working out who acts first, with nothing laid out yet.
    pub fn new(combat_state: CombatState, dungeon_name: String) -> (p: Self)
        ensures
            p.dungeon_name_text() == dungeon_name@,
            p.wf(),
            p.state() == combat_state,
            p.phase() == TurnPhase::DeterminingTurnOrder,
            p.counters() == (0int, 0int),
            !p.popup_open(),
            p.last_action() is None,
            p.target() == ActiveAnim::Neither,
            p.load_stage() == (true, false),
            p.needs_initial_load() == false,
    {
        DungeonCombatPage {
            combat_state,
            dungeon_name,
            dirty: true,
            skill_button_areas: [None, None, None],
            swap_button_area: None,
            show_swap_popup: false,
            swap_popup_buttons: [None, None, None],
            is_loading: true,
            loading_drawn: false,
            needs_player_anim_reload: false,
            death_anim_active: false,
            action_target: ActiveAnim::Neither,
            turn_phase: TurnPhase::DeterminingTurnOrder,
            player_turn_counter: 0,
            enemy_turn_counter: 0,
            last_actor_was_player: false,
            last_player_action: None,
        }
    }

    /// Whether animations are still to be loaded, and whether the loading screen was drawn.
    pub closed spec fn load_stage(&self) -> (bool, bool) {
        (self.is_loading, self.loading_drawn)
    }

    /// Animations are to be loaded now: the page is loading and its loading screen was drawn.
    pub open spec fn needs_initial_load(&self) -> bool {
        self.load_stage().0 && self.load_stage().1
    }

    pub closed spec fn dungeon_name_text(&self) -> Seq<char> {
        self.dungeon_name@
    }

    pub fn dungeon_name(&self) -> (s: &str)
        ensures
            s@ == self.dungeon_name_text(),
    {
        self.dungeon_name.as_str()
    }

    pub fn combat_state(&self) -> (s: &CombatState)
        ensures
            *s == self.state(),
    {
        &self.combat_state
    }

    pub fn turn_phase(&self) -> (t: TurnPhase)
        ensures
            t == self.phase(),
    {
        self.turn_phase
    }

    /// The two turn-order counters, player's first.
    pub fn turn_counters(&self) -> (r: (u64, u64))
        ensures
            (r.0 as int, r.1 as int) == self.counters(),
    {
        (self.player_turn_counter, self.enemy_turn_counter)
    }

    pub fn action_target(&self) -> (t: ActiveAnim)
        ensures
            t == self.target(),
    {
        self.action_target
    }

    /// The loading screen was shown; animations may now be loaded.
    pub fn mark_loading_drawn(&mut self)
        ensures
            final(self).load_stage() == (old(self).load_stage().0, true),
            final(self).needs_initial_load() == old(self).is_loading_flag(),
            final(self).wf() == old(self).wf(),
            final(self).state() == old(self).state(),
            final(self).counters() == old(self).counters(),
            final(self).popup_open() == old(self).popup_open(),
            final(self).same_turn(old(self)),
    {
        self.loading_drawn = true;
    }

    pub open spec fn is_loading_flag(&self) -> bool {
        self.load_stage().0
    }

    /// Whether animations are still to be loaded after the loading screen was drawn.
    pub fn needs_initial_load_now(&self) -> (b: bool)
        ensures
            b == self.needs_initial_load(),
    {
        self.is_loading && self.loading_drawn
    }

    /// Animations are loaded; the fight can be shown.
    pub fn finish_loading(&mut self)
        ensures
            final(self).load_stage() == (false, old(self).load_stage().1),
            !final(self).needs_initial_load(),
            final(self).wf() == old(self).wf(),
            final(self).state() == old(self).state(),
            final(self).counters() == old(self).counters(),
            final(self).popup_open() == old(self).popup_open(),
            final(self).same_turn(old(self)),
    {
        self.is_loading = false;
        self.dirty = true;
    }

    /// Whether the active monster's animation must be loaded after a swap.
    pub fn needs_player_reload(&self) -> (b: bool)
        ensures
            b == self.player_reload(),
    {
        self.needs_player_anim_reload
    }

    pub closed spec fn player_reload(&self) -> bool {
        self.needs_player_anim_reload
    }

    /// The active monster's animation was loaded.
    pub fn clear_player_reload(&mut self)
        ensures
            final(self).load_stage() == old(self).load_stage(),
            !final(self).player_reload(),
            final(self).wf() == old(self).wf(),
            final(self).state() == old(self).state(),
            final(self).counters() == old(self).counters(),
            final(self).popup_open() == old(self).popup_open(),
            final(self).same_turn(old(self)),
    {
        self.needs_player_anim_reload = false;
    }

    /// A swap brought in a monster whose animation is not loaded yet.
    pub fn request_player_reload(&mut self)
        ensures
            final(self).load_stage() == old(self).load_stage(),
            final(self).player_reload(),
            final(self).wf() == old(self).wf(),
            final(self).state() == old(self).state(),
            final(self).counters() == old(self).counters(),
            final(self).popup_open() == old(self).popup_open(),
            final(self).same_turn(old(self)),
    {
        self.needs_player_anim_reload = true;
    }

    /// Starts the enemy's death animation (once).
    pub fn start_death_animation(&mut self)
        ensures
            final(self).load_stage() == old(self).load_stage(),
            final(self).death_anim(),
            old(self).death_anim() ==> *final(self) == *old(self),
            final(self).wf() == old(self).wf(),
            final(self).state() == old(self).state(),
            final(self).counters() == old(self).counters(),
            final(self).popup_open() == old(self).popup_open(),
            final(self).same_turn(old(self)),
    {
        if !self.death_anim_active {
            self.death_anim_active = true;
        }
    }

    /// The death animation ran its course.
    pub fn finish_death_animation(&mut self)
        ensures
            final(self).load_stage() == old(self).load_stage(),
            !final(self).death_anim(),
            final(self).wf() == old(self).wf(),
            final(self).state() == old(self).state(),
            final(self).counters() == old(self).counters(),
            final(self).popup_open() == old(self).popup_open(),
            final(self).same_turn(old(self)),
    {
        self.death_anim_active = false;
    }

    pub closed spec fn death_anim(&self) -> bool {
        self.death_anim_active
    }

    pub fn is_death_anim_playing(&self) -> (b: bool)
        ensures
            b == self.death_anim(),
    {
        self.death_anim_active
    }

    /// Works out the elemental reaction of `attack` on the enemy's aura: the damage
    /// multiplier in percent, the reaction and, for a Bloom, the HP it gave back to the
    /// team. A reaction uses up the aura; a Bloom heals every standing teammate by 15%
    /// of its maximum HP, up to that maximum.
    pub fn check_reaction(&mut self, attack: Element) -> (r: (u32, Option<Reaction>, Option<u16>))
        requires
            old(self).wf(),
            reaction_of(old(self).state().enemy_aura, attack).1 == Some(Reaction::Bloom)
                ==> bloom_fits(old(self).state().player_monsters@),
        ensures
            final(self).load_stage() == old(self).load_stage(),
            final(self).wf(),
            final(self).same_turn(old(self)),
            final(self).counters() == old(self).counters(),
            final(self).popup_open() == old(self).popup_open(),
            (r.0, r.1) == reaction_of(old(self).state().enemy_aura, attack),
            same_fight(old(self).state(), final(self).state()),
            final(self).state().enemy_aura == (if r.1 is Some { None } else { old(self).state().enemy_aura }),
            if r.1 == Some(Reaction::Bloom) {
                &&& r.2 == Some(bloom_total(old(self).state().player_monsters@) as u16)
                &&& forall|j: int| 0 <= j < old(self).state().player_monsters@.len() ==> team_hp_set(
                    old(self).state().player_monsters@[j],
                    #[trigger] final(self).state().player_monsters@[j],
                    bloom_hp(old(self).state().player_monsters@[j]),
                )
            } else {
                &&& r.2 is None
                &&& final(self).state().player_monsters == old(self).state().player_monsters
            },
    {
        let (mult, reaction) = reaction_for(self.combat_state.enemy_aura, attack);
        if reaction.is_some() {
            self.combat_state.enemy_aura = None;
        }
        match reaction {
            Some(Reaction::Bloom) => {
                let total = self.bloom_heal();
                (mult, reaction, Some(total))
            },
            _ => (mult, reaction, None),
        }
    }

    /// Heals every standing teammate by 15% of its maximum HP, capped at the maximum,
    /// and returns the HP gained in all.
    fn bloom_heal(&mut self) -> (total: u16)
        requires
            old(self).wf(),
            bloom_fits(old(self).state().player_monsters@),
        ensures
            final(self).load_stage() == old(self).load_stage(),
            final(self).wf(),
            final(self).same_turn(old(self)),
            final(self).counters() == old(self).counters(),
            final(self).popup_open() == old(self).popup_open(),
            same_fight(old(self).state(), final(self).state()),
            final(self).state().enemy_aura == old(self).state().enemy_aura,
            total == bloom_total(old(self).state().player_monsters@),
            forall|j: int| 0 <= j < old(self).state().player_monsters@.len() ==> team_hp_set(
                old(self).state().player_monsters@[j],
                #[trigger] final(self).state().player_monsters@[j],
                bloom_hp(old(self).state().player_monsters@[j]),
            ),
    {
        let ghost team = old(self).combat_state.player_monsters@;
        let n = self.combat_state.player_monsters.len();
        let mut total: u16 = 0;
        let mut i: usize = 0;
        while i < n
            invariant
                n == team.len(),
                i <= n,
                bloom_fits(team),
                self.wf(),
                self.turn_phase == old(self).turn_phase,
                self.action_target == old(self).action_target,
                self.last_player_action == old(self).last_player_action,
                self.player_turn_counter == old(self).player_turn_counter,
                self.enemy_turn_counter == old(self).enemy_turn_counter,
                self.show_swap_popup == old(self).show_swap_popup,
                self.load_stage() == old(self).load_stage(),
                same_fight(old(self).combat_state, self.combat_state),
                self.combat_state.enemy_aura == old(self).combat_state.enemy_aura,
                team == old(self).combat_state.player_monsters@,
                total == bloom_total(team.take(i as int)),
                forall|j: int| 0 <= j < i ==> team_hp_set(team[j], #[trigger] self.combat_state.player_monsters@[j], bloom_hp(team[j])),
                forall|j: int| i <= j < n ==> #[trigger] self.combat_state.player_monsters@[j] == team[j],
            decreases n - i,
        {
            proof {
                assert(team.take(i as int + 1).drop_last() =~= team.take(i as int));
                assert(team.take(i as int + 1).last() == team[i as int]);
                lemma_bloom_prefix(team, i as int + 1);
            }
            if self.combat_state.player_monsters[i].is_alive() {
                let hp = self.combat_state.player_monsters[i].hp_current;
                let max = self.combat_state.player_monsters[i].hp_max;
                let heal: u16 = ((max as u32) * 15 / 100) as u16;
                let raised: u16 = hp + heal;
                let healed: u16 = if raised > max { max } else { raised };
                self.combat_state.player_monsters[i].hp_current = healed;
                total = total + (healed - hp);
            }
            i += 1;
        }
        proof {
            assert(team.take(n as int) =~= team);
        }
        total
    }

    /// The enemy takes `damage` (HP stops at zero) and now carries `element`.
    pub fn hit_enemy(&mut self, damage: u16, element: Element)
        requires
            old(self).wf(),
        ensures
            final(self).load_stage() == old(self).load_stage(),
            final(self).wf(),
            final(self).same_turn(old(self)),
            final(self).counters() == old(self).counters(),
            final(self).popup_open() == old(self).popup_open(),
            final(self).state().player_monsters == old(self).state().player_monsters,
            final(self).state().enemy.hp_current as int == if old(self).state().enemy.hp_current >= damage {
                old(self).state().enemy.hp_current - damage
            } else {
                0
            },
            final(self).state().enemy.hp_max == old(self).state().enemy.hp_max,
            final(self).state().enemy.spd == old(self).state().enemy.spd,
            final(self).state().enemy_aura == Some(element),
            final(self).state().active_index == old(self).state().active_index,
            final(self).state().combat_ended == old(self).state().combat_ended,
            final(self).state().player_won == old(self).state().player_won,
            final(self).state().crystals_earned == old(self).state().crystals_earned,
            final(self).state().xp_earned == old(self).state().xp_earned,
            final(self).state().current_floor == old(self).state().current_floor,
            final(self).state().is_boss_floor == old(self).state().is_boss_floor,
    {
        self.combat_state.enemy.take_damage(damage);
        self.combat_state.enemy_aura = Some(element);
    }

    /// A heal skill restores `amount` HP to the active monster, up to its maximum.
    /// Returns the HP gained, or `None` when no monster is active.
    pub fn heal_active(&mut self, amount: u16) -> (gained: Option<u16>)
        requires
            old(self).wf(),
            old(self).state().active() matches Some(m) ==> m.hp_current <= m.hp_max && m.hp_current + amount <= 0xffff,
        ensures
            final(self).load_stage() == old(self).load_stage(),
            final(self).wf(),
            final(self).same_turn(old(self)),
            final(self).counters() == old(self).counters(),
            final(self).popup_open() == old(self).popup_open(),
            same_fight(old(self).state(), final(self).state()),
            final(self).state().enemy_aura == old(self).state().enemy_aura,
            match old(self).state().active() {
                Some(m) => {
                    let hp = if m.hp_current + amount > m.hp_max { m.hp_max as int } else { m.hp_current + amount };
                    &&& gained == Some((hp - m.hp_current) as u16)
                    &&& team_hp_set(m, final(self).state().player_monsters@[old(self).state().active_index as int], hp)
                    &&& forall|j: int| 0 <= j < old(self).state().player_monsters@.len() && j != old(self).state().active_index as int
                        ==> #[trigger] final(self).state().player_monsters@[j] == old(self).state().player_monsters@[j]
                },
                None => {
                    &&& gained is None
                    &&& final(self).state() == old(self).state()
                },
            },
    {
        let idx = self.combat_state.active_index as usize;
        if idx >= self.combat_state.player_monsters.len() {
            return None;
        }
        let hp = self.combat_state.player_monsters[idx].hp_current;
        let max = self.combat_state.player_monsters[idx].hp_max;
        let raised: u16 = hp + amount;
        let healed: u16 = if raised > max { max } else { raised };
        self.combat_state.player_monsters[idx].hp_current = healed;
        Some(healed - hp)
    }

    /// Puts the active monster's skill in `slot` on cooldown for `turns` turns.
    pub fn start_active_cooldown(&mut self, slot: usize, turns: u8)
        requires
            old(self).wf(),
        ensures
            final(self).load_stage() == old(self).load_stage(),
            final(self).wf(),
            final(self).same_turn(old(self)),
            final(self).counters() == old(self).counters(),
            final(self).popup_open() == old(self).popup_open(),
            same_fight(old(self).state(), final(self).state()),
            final(self).state().enemy_aura == old(self).state().enemy_aura,
            forall|j: int| 0 <= j < old(self).state().player_monsters@.len() && j != old(self).state().active_index as int
                ==> #[trigger] final(self).state().player_monsters@[j] == old(self).state().player_monsters@[j],
            old(self).state().active() matches Some(m) ==> {
                let n = final(self).state().player_monsters@[old(self).state().active_index as int];
                &&& n.hp_current == m.hp_current
                &&& n.hp_max == m.hp_max
                &&& n.spd == m.spd
                &&& n.skill_count == m.skill_count
                &&& n.cooldowns@ == (if slot < m.cooldowns@.len() { m.cooldowns@.update(slot as int, turns) } else { m.cooldowns@ })
            },
    {
        let idx = self.combat_state.active_index as usize;
        if idx < self.combat_state.player_monsters.len() {
            if slot < self.combat_state.player_monsters[idx].cooldowns.len() {
                self.combat_state.player_monsters[idx].cooldowns[slot] = turns;
            }
        }
    }

    /// The enemy attacks the active monster for `damage` when both are standing.
    /// Returns whether the attack happened.
    pub fn enemy_attack(&mut self, damage: u16) -> (hit: bool)
        requires
            old(self).wf(),
        ensures
            final(self).load_stage() == old(self).load_stage(),
            final(self).wf(),
            final(self).same_turn(old(self)),
            final(self).counters() == old(self).counters(),
            final(self).popup_open() == old(self).popup_open(),
            hit == (old(self).state().enemy.alive() && (old(self).state().active() matches Some(m) && m.alive())),
            same_fight(old(self).state(), final(self).state()),
            final(self).state().enemy_aura == old(self).state().enemy_aura,
            if hit {
                let m = old(self).state().player_monsters@[old(self).state().active_index as int];
                &&& team_hp_set(m, final(self).state().player_monsters@[old(self).state().active_index as int],
                    if m.hp_current >= damage { m.hp_current - damage } else { 0 })
                &&& forall|j: int| 0 <= j < old(self).state().player_monsters@.len() && j != old(self).state().active_index as int
                    ==> #[trigger] final(self).state().player_monsters@[j] == old(self).state().player_monsters@[j]
            } else {
                final(self).state() == old(self).state()
            },
    {
        if !self.combat_state.enemy.is_alive() {
            return false;
        }
        let idx = self.combat_state.active_index as usize;
        if idx >= self.combat_state.player_monsters.len() {
            return false;
        }
        if !self.combat_state.player_monsters[idx].is_alive() {
            return false;
        }
        self.combat_state.player_monsters[idx].take_damage(damage);
        true
    }

    /// Finishes the player's action once its effect was applied: a swap brings in the
    /// chosen teammate, the lunge ends, and a fallen enemy wins the fight and pays the
    /// floor's rewards; otherwise the post-action pause begins.
    pub fn resolve_player_action(&mut self)
        requires
            old(self).wf(),
            old(self).phase() is PlayerActionExecuting,
        ensures
            final(self).ended_consistent(),
            final(self).load_stage() == old(self).load_stage(),
            final(self).death_anim() == (old(self).death_anim() || !old(self).state().enemy.alive()),
            final(self).wf(),
            final(self).counters() == old(self).counters(),
            final(self).popup_open() == old(self).popup_open(),
            final(self).last_action() == old(self).last_action(),
            final(self).target() == ActiveAnim::Neither,
            final(self).state().player_monsters == old(self).state().player_monsters,
            final(self).state().enemy == old(self).state().enemy,
            final(self).state().enemy_aura == old(self).state().enemy_aura,
            final(self).state().current_floor == old(self).state().current_floor,
            final(self).state().is_boss_floor == old(self).state().is_boss_floor,
            final(self).state().active_index == (match old(self).phase() {
                TurnPhase::PlayerActionExecuting { action_type: TurnAction::Swap { target_index } } => target_index,
                _ => old(self).state().active_index,
            }),
            if old(self).state().enemy.alive() {
                &&& final(self).phase() == TurnPhase::PlayerActionComplete
                &&& final(self).state().crystals_earned == old(self).state().crystals_earned
                &&& final(self).state().xp_earned == old(self).state().xp_earned
                &&& final(self).state().combat_ended == old(self).state().combat_ended
                &&& final(self).state().player_won == old(self).state().player_won
            } else {
                let rw = floor_rewards(old(self).state().current_floor as int, old(self).state().is_boss_floor);
                &&& final(self).phase() == (TurnPhase::CombatEnded { victory: true })
                &&& final(self).state().crystals_earned as int == rw.0
                &&& final(self).state().xp_earned as int == rw.1
                &&& final(self).state().combat_ended
                &&& final(self).state().player_won
            },
    {
        if let TurnPhase::PlayerActionExecuting { action_type: TurnAction::Swap { target_index } } = self.turn_phase {
            self.combat_state.active_index = target_index;
        }
        self.action_target = ActiveAnim::Neither;
        if !self.combat_state.enemy.is_alive() {
            self.handle_enemy_death();
        } else {
            self.turn_phase = TurnPhase::PlayerActionComplete;
        }
        self.dirty = true;
    }

    /// The enemy fell: the floor's rewards are earned and the fight is won.
    fn handle_enemy_death(&mut self)
        requires
            old(self).wf(),
        ensures
            final(self).load_stage() == old(self).load_stage(),
            final(self).death_anim(),
            final(self).wf(),
            final(self).counters() == old(self).counters(),
            final(self).popup_open() == old(self).popup_open(),
            final(self).last_action() == old(self).last_action(),
            final(self).target() == old(self).target(),
            final(self).phase() == (TurnPhase::CombatEnded { victory: true }),
            final(self).state().player_monsters == old(self).state().player_monsters,
            final(self).state().enemy == old(self).state().enemy,
            final(self).state().enemy_aura == old(self).state().enemy_aura,
            final(self).state().active_index == old(self).state().active_index,
            final(self).state().current_floor == old(self).state().current_floor,
            final(self).state().is_boss_floor == old(self).state().is_boss_floor,
            (final(self).state().crystals_earned as int, final(self).state().xp_earned as int)
                == floor_rewards(old(self).state().current_floor as int, old(self).state().is_boss_floor),
            final(self).state().combat_ended,
            final(self).state().player_won,
    {
        let (crystals, xp) = rewards_for_floor(self.combat_state.current_floor, self.combat_state.is_boss_floor);
        self.combat_state.crystals_earned = crystals;
        self.combat_state.xp_earned = xp;
        self.turn_phase = TurnPhase::CombatEnded { victory: true };
        self.combat_state.combat_ended = true;
        self.combat_state.player_won = true;
        self.start_death_animation();
    }

    /// Finishes the enemy's attack once it was applied: the lunge ends; with the whole
    /// team down the fight is lost, otherwise the post-action pause begins.
    pub fn resolve_enemy_action(&mut self)
        requires
            old(self).wf(),
        ensures
            final(self).ended_consistent(),
            final(self).load_stage() == old(self).load_stage(),
            final(self).wf(),
            final(self).counters() == old(self).counters(),
            final(self).popup_open() == old(self).popup_open(),
            final(self).last_action() == old(self).last_action(),
            final(self).target() == ActiveAnim::Neither,
            final(self).state().player_monsters == old(self).state().player_monsters,
            final(self).state().enemy == old(self).state().enemy,
            final(self).state().enemy_aura == old(self).state().enemy_aura,
            final(self).state().active_index == old(self).state().active_index,
            final(self).state().crystals_earned == old(self).state().crystals_earned,
            final(self).state().xp_earned == old(self).state().xp_earned,
            if old(self).state().all_down() {
                &&& final(self).phase() == (TurnPhase::CombatEnded { victory: false })
                &&& final(self).state().combat_ended
                &&& !final(self).state().player_won
            } else {
                &&& final(self).phase() == TurnPhase::EnemyActionComplete
                &&& final(self).state().combat_ended == old(self).state().combat_ended
                &&& final(self).state().player_won == old(self).state().player_won
            },
    {
        self.action_target = ActiveAnim::Neither;
        if self.combat_state.all_players_dead() {
            self.turn_phase = TurnPhase::CombatEnded { victory: false };
            self.combat_state.combat_ended = true;
            self.combat_state.player_won = false;
        } else {
            self.turn_phase = TurnPhase::EnemyActionComplete;
        }
        self.dirty = true;
    }

    /// Outcome of a finished fight: whether the player won, crystals and XP earned.
    pub fn combat_result(&self) -> (r: Option<(bool, u32, u32)>)
        ensures
            r == (if self.state().combat_ended {
                Some((self.state().player_won, self.state().crystals_earned, self.state().xp_earned))
            } else {
                None
            }),
    {
        if self.combat_state.combat_ended {
            Some((self.combat_state.player_won, self.combat_state.crystals_earned, self.combat_state.xp_earned))
        } else {
            None
        }
    }

    /// The action animation ended; both sides return to idle.
    pub fn end_action_to_idle(&mut self)
        ensures
            final(self).load_stage() == old(self).load_stage(),
            final(self).target() == ActiveAnim::Neither,
            final(self).phase() == old(self).phase(),
            final(self).state() == old(self).state(),
    {
        self.action_target = ActiveAnim::Neither;
    }

    /// Decides who acts next: both sides add their speed to their counter until one
    /// reaches 100; when both do, the higher counter acts (the player on a tie).
    /// The side that acts pays 100 from its counter.
    pub fn determine_next_turn(&mut self) -> (player_goes: bool)
        requires
            old(self).wf(),
            old(self).speed_sum() > 0,
            old(self).counters().0 + counter_room() <= counter_cap(),
            old(self).counters().1 + counter_room() <= counter_cap(),
        ensures
            final(self).load_stage() == old(self).load_stage(),
            final(self).wf(),
            (player_goes, final(self).counters().0, final(self).counters().1) == next_turn(
                old(self).counters().0,
                old(self).counters().1,
                old(self).player_speed(),
                old(self).enemy_speed(),
            ),
            final(self).state() == old(self).state(),
            final(self).phase() == old(self).phase(),
            final(self).popup_open() == old(self).popup_open(),
            final(self).last_action() == old(self).last_action(),
            final(self).target() == old(self).target(),
    {
        let ps: u64 = match self.combat_state.active_monster() {
            Some(m) => m.spd as u64,
            None => 0,
        };
        let es: u64 = self.combat_state.enemy.spd as u64;
        let ghost pc0 = self.player_turn_counter as int;
        let ghost ec0 = self.enemy_turn_counter as int;
        let mut p: u64 = self.player_turn_counter + ps;
        let mut e: u64 = self.enemy_turn_counter + es;
        while p < TURN_THRESHOLD && e < TURN_THRESHOLD
            invariant
                ps as int == self.player_speed(),
                es as int == self.enemy_speed(),
                ps + es > 0,
                ps <= 65535,
                es <= 65535,
                p <= pc0 + 200000,
                e <= ec0 + 200000,
                pc0 >= 0,
                ec0 >= 0,
                pc0 + counter_room() <= counter_cap(),
                ec0 + counter_room() <= counter_cap(),
                settle_turn(p as int, e as int, ps as int, es as int) == next_turn(pc0, ec0, ps as int, es as int),
            decreases gap(p as int) + gap(e as int),
        {
            p = p + ps;
            e = e + es;
        }
        if p >= TURN_THRESHOLD && e >= TURN_THRESHOLD {
            if p >= e {
                self.player_turn_counter = p - TURN_THRESHOLD;
                self.enemy_turn_counter = e;
                true
            } else {
                self.player_turn_counter = p;
                self.enemy_turn_counter = e - TURN_THRESHOLD;
                false
            }
        } else if p >= TURN_THRESHOLD {
            self.player_turn_counter = p - TURN_THRESHOLD;
            self.enemy_turn_counter = e;
            true
        } else {
            self.player_turn_counter = p;
            self.enemy_turn_counter = e - TURN_THRESHOLD;
            false
        }
    }

    /// Speed of the active monster, 0 when there is none.
    pub open spec fn player_speed(&self) -> int {
        match self.state().active() {
            Some(m) => m.spd as int,
            None => 0,
        }
    }

    pub open spec fn enemy_speed(&self) -> int {
        self.state().enemy.spd as int
    }

    pub open spec fn speed_sum(&self) -> int {
        self.player_speed() + self.enemy_speed()
    }

    /// Whether working out the next turn is possible: some side has speed, and both
    /// counters have room below the cap.
    pub fn can_determine_turn(&self) -> (b: bool)
        ensures
            b == (self.speed_sum() > 0 && self.counters().0 + counter_room() <= counter_cap()
                && self.counters().1 + counter_room() <= counter_cap()),
    {
        let ps: u32 = match self.combat_state.active_monster() {
            Some(m) => m.spd as u32,
            None => 0,
        };
        let es: u32 = self.combat_state.enemy.spd as u32;
        let limit: u64 = 0x4000_0000_0000_0000 - 0x10_0000;
        ps + es > 0 && self.player_turn_counter <= limit && self.enemy_turn_counter <= limit
    }

    /// The skill in `slot` of the active monster can be used now.
    pub fn can_use_skill_slot(&self, slot: u8) -> (b: bool)
        ensures
            b == (self.state().active() matches Some(m) && m.skill_usable(slot as int)),
    {
        match self.combat_state.active_monster() {
            Some(m) => m.can_use_skill(slot as usize),
            None => false,
        }
    }

    /// Some other teammate is still standing.
    pub fn can_swap(&self) -> (b: bool)
        ensures
            b == self.state().swap_possible(),
    {
        let n = self.combat_state.player_monsters.len();
        let mut i: usize = 0;
        while i < n
            invariant
                n == self.combat_state.player_monsters@.len(),
                i <= n,
                forall|j: int| 0 <= j < i && j != self.combat_state.active_index as int
                    ==> !#[trigger] self.combat_state.player_monsters@[j].alive(),
            decreases n - i,
        {
            if i != self.combat_state.active_index as usize && self.combat_state.player_monsters[i].is_alive() {
                return true;
            }
            i += 1;
        }
        false
    }

    /// A swap to `target` is allowed: an existing, standing teammate that is not active.
    pub open spec fn swap_valid(&self, target: int) -> bool {
        &&& 0 <= target < self.state().player_monsters@.len()
        &&& target < 256
        &&& self.state().player_monsters@[target].alive()
        &&& target != self.state().active_index as int
    }

    /// Chooses the skill in `slot`; nothing happens unless it can be used now.
    pub fn execute_player_skill_slot(&mut self, slot: u8)
        requires
            old(self).wf(),
        ensures
            final(self).load_stage() == old(self).load_stage(),
            final(self).wf(),
            final(self).state() == old(self).state(),
            final(self).counters() == old(self).counters(),
            final(self).popup_open() == old(self).popup_open(),
            if old(self).state().active() matches Some(m) && m.skill_usable(slot as int) {
                &&& final(self).phase() == (TurnPhase::PlayerActionExecuting { action_type: TurnAction::UseSkill { slot } })
                &&& final(self).target() == ActiveAnim::Player
                &&& final(self).last_action() == Some(TurnAction::UseSkill { slot })
            } else {
                &&& final(self).phase() == old(self).phase()
                &&& final(self).target() == old(self).target()
                &&& final(self).last_action() == old(self).last_action()
            },
    {
        if !self.can_use_skill_slot(slot) {
            return;
        }
        self.turn_phase = TurnPhase::PlayerActionExecuting { action_type: TurnAction::UseSkill { slot } };
        self.action_target = ActiveAnim::Player;
        self.last_player_action = Some(TurnAction::UseSkill { slot });
    }

    /// Chooses to swap to `target_index`; nothing happens unless the swap is allowed.
    pub fn execute_player_swap(&mut self, target_index: u8)
        requires
            old(self).wf(),
        ensures
            final(self).load_stage() == old(self).load_stage(),
            final(self).wf(),
            final(self).state() == old(self).state(),
            final(self).counters() == old(self).counters(),
            if old(self).swap_valid(target_index as int) {
                &&& final(self).phase() == (TurnPhase::PlayerActionExecuting { action_type: TurnAction::Swap { target_index } })
                &&& final(self).target() == ActiveAnim::Neither
                &&& final(self).last_action() == Some(TurnAction::Swap { target_index })
                &&& !final(self).popup_open()
            } else {
                &&& final(self).phase() == old(self).phase()
                &&& final(self).target() == old(self).target()
                &&& final(self).last_action() == old(self).last_action()
                &&& final(self).popup_open() == old(self).popup_open()
            },
    {
        if target_index as usize >= self.combat_state.player_monsters.len() {
            return;
        }
        if !self.combat_state.player_monsters[target_index as usize].is_alive() {
            return;
        }
        if target_index == self.combat_state.active_index {
            return;
        }
        self.turn_phase = TurnPhase::PlayerActionExecuting { action_type: TurnAction::Swap { target_index } };
        self.action_target = ActiveAnim::Neither;
        self.last_player_action = Some(TurnAction::Swap { target_index });
        self.show_swap_popup = false;
    }

    /// Registers the touch areas of the buttons for the current state, as drawing does:
    /// a skill button is live on the player's turn when its skill can be used, the swap
    /// button when a teammate can come in, and the popup buttons while the popup is
    /// open, for standing teammates other than the active one.
    pub fn layout(&mut self)
        requires
            old(self).wf(),
        ensures
            final(self).load_stage() == old(self).load_stage(),
            final(self).wf(),
            final(self).state() == old(self).state(),
            final(self).phase() == old(self).phase(),
            final(self).counters() == old(self).counters(),
            final(self).popup_open() == old(self).popup_open(),
            final(self).last_action() == old(self).last_action(),
            final(self).target() == old(self).target(),
            forall|i: int| 0 <= i < 3 ==> #[trigger] final(self).skill_areas()[i] == (
                if old(self).phase() == TurnPhase::PlayerSelectAction
                    && (old(self).state().active() matches Some(m) && m.skill_usable(i)) {
                    Some(skill_button_rect(i))
                } else {
                    None
                }),
            final(self).swap_area() == (if old(self).phase() == TurnPhase::PlayerSelectAction
                && old(self).state().swap_possible() {
                Some(swap_button_rect())
            } else {
                None
            }),
            forall|i: int| 0 <= i < 3 ==> #[trigger] final(self).popup_areas()[i] == (
                if !old(self).popup_open() {
                    None
                } else if i < old(self).state().player_monsters@.len() {
                    if i != old(self).state().active_index as int && old(self).state().player_monsters@[i].alive() {
                        Some(popup_button_rect(i))
                    } else {
                        None
                    }
                } else {
                    old(self).popup_areas()[i]
                }),
    {
        let show_buttons = self.turn_phase == TurnPhase::PlayerSelectAction;
        let mut slot: usize = 0;
        while slot < 3
            invariant
                slot <= 3,
                self.wf(),
                self.combat_state == old(self).combat_state,
                self.turn_phase == old(self).turn_phase,
                self.player_turn_counter == old(self).player_turn_counter,
                self.enemy_turn_counter == old(self).enemy_turn_counter,
                self.show_swap_popup == old(self).show_swap_popup,
                self.last_player_action == old(self).last_player_action,
                self.action_target == old(self).action_target,
                self.swap_popup_buttons == old(self).swap_popup_buttons,
                self.load_stage() == old(self).load_stage(),
                show_buttons == (self.turn_phase == TurnPhase::PlayerSelectAction),
                forall|i: int| 0 <= i < slot ==> #[trigger] self.skill_button_areas@[i] == (
                    if old(self).phase() == TurnPhase::PlayerSelectAction
                        && (old(self).state().active() matches Some(m) && m.skill_usable(i)) {
                        Some(skill_button_rect(i))
                    } else {
                        None
                    }),
            decreases 3 - slot,
        {
            let usable = match self.combat_state.active_monster() {
                Some(m) => m.can_use_skill(slot),
                None => false,
            };
            let btn = Rect::new(4 + (slot as i32) * 78, 200, 74, 32);
            self.skill_button_areas[slot] = if show_buttons && usable { Some(btn) } else { None };
            slot += 1;
        }
        let swap_enabled = show_buttons && self.can_swap();
        self.swap_button_area = if swap_enabled { Some(Rect::new(4, 236, 232, 28)) } else { None };
        let ghost sk = self.skill_button_areas;
        let ghost sw = self.swap_button_area;
        if self.show_swap_popup {
            let n = self.combat_state.player_monsters.len();
            let mut i: usize = 0;
            while i < 3 && i < n
                invariant
                    i <= 3,
                    i <= n,
                    n == self.combat_state.player_monsters@.len(),
                    self.wf(),
                    self.show_swap_popup,
                    self.combat_state == old(self).combat_state,
                    self.turn_phase == old(self).turn_phase,
                    self.player_turn_counter == old(self).player_turn_counter,
                    self.enemy_turn_counter == old(self).enemy_turn_counter,
                    self.last_player_action == old(self).last_player_action,
                    self.action_target == old(self).action_target,
                    self.skill_button_areas == sk,
                    self.swap_button_area == sw,
                    self.load_stage() == old(self).load_stage(),
                    forall|j: int| 0 <= j < i ==> #[trigger] self.swap_popup_buttons@[j] == (
                        if j != old(self).state().active_index as int && old(self).state().player_monsters@[j].alive() {
                            Some(popup_button_rect(j))
                        } else {
                            None
                        }),
                    forall|j: int| i <= j < 3 ==> #[trigger] self.swap_popup_buttons@[j] == old(self).swap_popup_buttons@[j],
                decreases 3 - i,
            {
                let is_active = i == self.combat_state.active_index as usize;
                let is_dead = !self.combat_state.player_monsters[i].is_alive();
                if !is_active && !is_dead {
                    self.swap_popup_buttons[i] = Some(Rect::new(25 + (i as i32) * 62, 118, 58, 50));
                } else {
                    self.swap_popup_buttons[i] = None;
                }
                i += 1;
            }
        } else {
            self.swap_popup_buttons = [None, None, None];
            assert(forall|j: int| 0 <= j < 3 ==> #[trigger] self.swap_popup_buttons@[j] == None::<Rect>);
        }
    }

    /// The state a touch on the combat screen leaves unchanged.
    pub open spec fn same_turn(&self, other: &Self) -> bool {
        &&& other.phase() == self.phase()
        &&& other.target() == self.target()
        &&& other.last_action() == self.last_action()
    }

    /// Handles a tap. Outside the player's turn a tap only closes the swap popup when it
    /// lands outside of it. On the player's turn an open popup takes the tap: a teammate
    /// button asks for a swap (carried out when allowed), anywhere else closes the popup.
    /// Otherwise a live skill button whose skill can be used starts that skill, and the
    /// swap button opens the popup when a teammate can come in.
    pub fn handle_touch(&mut self, x: i32, y: i32) -> (a: DungeonCombatAction)
        requires
            old(self).wf(),
        ensures
            final(self).load_stage() == old(self).load_stage(),
            final(self).wf(),
            final(self).state() == old(self).state(),
            final(self).counters() == old(self).counters(),
            old(self).phase() != TurnPhase::PlayerSelectAction ==> {
                &&& a == DungeonCombatAction::NoAction
                &&& old(self).same_turn(final(self))
                &&& final(self).popup_open() == (old(self).popup_open() && popup_area().has(x as int, y as int))
            },
            old(self).phase() == TurnPhase::PlayerSelectAction && old(self).popup_open() ==> match first_hit(old(self).popup_areas(), x as int, y as int, 0) {
                Some(i) => {
                    &&& a == DungeonCombatAction::SwapMonster(i as u8)
                    &&& if old(self).swap_valid(i) {
                        &&& final(self).phase() == (TurnPhase::PlayerActionExecuting { action_type: TurnAction::Swap { target_index: i as u8 } })
                        &&& final(self).target() == ActiveAnim::Neither
                        &&& final(self).last_action() == Some(TurnAction::Swap { target_index: i as u8 })
                        &&& !final(self).popup_open()
                    } else {
                        &&& old(self).same_turn(final(self))
                        &&& final(self).popup_open()
                    }
                },
                None => {
                    &&& a == DungeonCombatAction::NoAction
                    &&& old(self).same_turn(final(self))
                    &&& !final(self).popup_open()
                },
            },
            old(self).phase() == TurnPhase::PlayerSelectAction && !old(self).popup_open() ==> match old(self).first_skill_hit(x as int, y as int, 0) {
                Some(slot) => {
                    &&& a == DungeonCombatAction::UseSkill
                    &&& final(self).phase() == (TurnPhase::PlayerActionExecuting { action_type: TurnAction::UseSkill { slot: slot as u8 } })
                    &&& final(self).target() == ActiveAnim::Player
                    &&& final(self).last_action() == Some(TurnAction::UseSkill { slot: slot as u8 })
                    &&& !final(self).popup_open()
                },
                None => {
                    &&& a == DungeonCombatAction::NoAction
                    &&& old(self).same_turn(final(self))
                    &&& final(self).popup_open() == (old(self).swap_area() matches Some(r) && r.has(x as int, y as int)
                        && old(self).state().swap_possible())
                },
            },
    {
        if self.turn_phase != TurnPhase::PlayerSelectAction {
            if self.show_swap_popup {
                if !crate::geometry::eg_contains(Rect::new(20, 100, 200, 100), x, y) {
                    self.show_swap_popup = false;
                    self.dirty = true;
                }
            }
            return DungeonCombatAction::NoAction;
        }
        if self.show_swap_popup {
            let mut i: usize = 0;
            while i < 3
                invariant
                    i <= 3,
                    self == old(self),
                    self.wf(),
                    self.turn_phase == TurnPhase::PlayerSelectAction,
                    self.show_swap_popup,
                    first_hit(self.popup_areas(), x as int, y as int, i as int) == first_hit(self.popup_areas(), x as int, y as int, 0),
                decreases 3 - i,
            {
                if opt_contains(self.swap_popup_buttons[i], x, y) {
                    self.execute_player_swap(i as u8);
                    self.dirty = true;
                    return DungeonCombatAction::SwapMonster(i as u8);
                }
                i += 1;
            }
            self.show_swap_popup = false;
            self.dirty = true;
            return DungeonCombatAction::NoAction;
        }
        let mut slot: usize = 0;
        while slot < 3
            invariant
                slot <= 3,
                self == old(self),
                self.wf(),
                self.turn_phase == TurnPhase::PlayerSelectAction,
                !self.show_swap_popup,
                self.first_skill_hit(x as int, y as int, slot as int) == self.first_skill_hit(x as int, y as int, 0),
            decreases 3 - slot,
        {
            if opt_contains(self.skill_button_areas[slot], x, y) && self.can_use_skill_slot(slot as u8) {
                self.execute_player_skill_slot(slot as u8);
                self.dirty = true;
                return DungeonCombatAction::UseSkill;
            }
            slot += 1;
        }
        if opt_contains(self.swap_button_area, x, y) && self.can_swap() {
            self.show_swap_popup = true;
            self.dirty = true;
        }
        DungeonCombatAction::NoAction
    }

    /// First skill button, from `from` on, that the tap hits and whose skill can be used.
    pub open spec fn first_skill_hit(&self, x: int, y: int, from: int) -> Option<int>
        decreases 3 - from
    {
        if from < 0 || from >= 3 {
            None
        } else if (self.skill_areas()[from] matches Some(r) && r.has(x, y))
            && (self.state().active() matches Some(m) && m.skill_usable(from)) {
            Some(from)
        } else {
            self.first_skill_hit(x, y, from + 1)
        }
    }

    /// Advances the turn machine by one frame. `timer_done` tells whether the timer of
    /// the current timed phase has run out. The phase that carries out an action stays
    /// put and asks the caller to apply it; `resolve_player_action` and
    /// `resolve_enemy_action` then move on.
    pub fn update(&mut self, timer_done: bool) -> (step: PhaseStep)
        requires
            old(self).wf(),
            old(self).phase() == TurnPhase::DeterminingTurnOrder ==> {
                &&& old(self).speed_sum() > 0
                &&& old(self).counters().0 + counter_room() <= counter_cap()
                &&& old(self).counters().1 + counter_room() <= counter_cap()
            },
        ensures
            final(self).ended_consistent(),
            old(self).phase() is CombatEnded ==> {
                &&& step == PhaseStep::Idle
                &&& final(self).phase() == old(self).phase()
                &&& final(self).state() == old(self).state()
            },
            final(self).load_stage() == old(self).load_stage(),
            final(self).wf(),
            final(self).popup_open() == old(self).popup_open(),
            final(self).last_action() == old(self).last_action(),
            old(self).phase() != TurnPhase::DeterminingTurnOrder ==> final(self).counters() == old(self).counters(),
            if old(self).phase() == TurnPhase::DeterminingTurnOrder && next_turn(old(self).counters().0,
                old(self).counters().1, old(self).player_speed(), old(self).enemy_speed()).0 {
                cooldowns_ticked(old(self).state(), final(self).state())
            } else {
                final(self).state() == old(self).state()
            },
            match old(self).phase() {
                TurnPhase::DeterminingTurnOrder => {
                    let r = next_turn(old(self).counters().0, old(self).counters().1,
                        old(self).player_speed(), old(self).enemy_speed());
                    &&& final(self).counters() == (r.1, r.2)
                    &&& if r.0 {
                        &&& step == PhaseStep::PlayerTurnStarted
                        &&& final(self).phase() == TurnPhase::PlayerSelectAction
                        &&& final(self).target() == old(self).target()
                    } else {
                        &&& step == PhaseStep::EnemyTurnStarted
                        &&& final(self).phase() == TurnPhase::EnemyActionExecuting
                        &&& final(self).target() == ActiveAnim::Enemy
                    }
                },
                TurnPhase::PlayerActionExecuting { action_type } => {
                    &&& step == (if timer_done { PhaseStep::ApplyPlayerAction(action_type) } else { PhaseStep::Idle })
                    &&& final(self).phase() == old(self).phase()
                    &&& final(self).target() == old(self).target()
                },
                TurnPhase::PlayerActionComplete => if timer_done {
                    &&& step == PhaseStep::Advanced
                    &&& if old(self).last_action() matches Some(TurnAction::Swap { .. }) {
                        &&& final(self).phase() == TurnPhase::EnemyActionExecuting
                        &&& final(self).target() == ActiveAnim::Enemy
                    } else {
                        &&& final(self).phase() == TurnPhase::DeterminingTurnOrder
                        &&& final(self).target() == old(self).target()
                    }
                } else {
                    &&& step == PhaseStep::Idle
                    &&& final(self).phase() == old(self).phase()
                    &&& final(self).target() == old(self).target()
                },
                TurnPhase::EnemyActionExecuting => {
                    &&& step == (if timer_done { PhaseStep::ApplyEnemyAttack } else { PhaseStep::Idle })
                    &&& final(self).phase() == old(self).phase()
                    &&& final(self).target() == old(self).target()
                },
                TurnPhase::EnemyActionComplete => {
                    &&& step == (if timer_done { PhaseStep::Advanced } else { PhaseStep::Idle })
                    &&& final(self).phase() == (if timer_done { TurnPhase::DeterminingTurnOrder } else { old(self).phase() })
                    &&& final(self).target() == old(self).target()
                },
                _ => {
                    &&& step == PhaseStep::Idle
                    &&& final(self).phase() == old(self).phase()
                    &&& final(self).target() == old(self).target()
                },
            },
    {
        match self.turn_phase {
            TurnPhase::DeterminingTurnOrder => {
                let player_goes = self.determine_next_turn();
                if player_goes {
                    let idx = self.combat_state.active_index as usize;
                    if idx < self.combat_state.player_monsters.len() {
                        self.combat_state.player_monsters[idx].tick_cooldowns();
                    }
                    self.turn_phase = TurnPhase::PlayerSelectAction;
                    self.dirty = true;
                    PhaseStep::PlayerTurnStarted
                } else {
                    self.turn_phase = TurnPhase::EnemyActionExecuting;
                    self.action_target = ActiveAnim::Enemy;
                    self.dirty = true;
                    PhaseStep::EnemyTurnStarted
                }
            },
            TurnPhase::PlayerActionExecuting { action_type } => {
                if timer_done {
                    PhaseStep::ApplyPlayerAction(action_type)
                } else {
                    PhaseStep::Idle
                }
            },
            TurnPhase::PlayerActionComplete => {
                if timer_done {
                    let swapped = match self.last_player_action {
                        Some(TurnAction::Swap { .. }) => true,
                        _ => false,
                    };
                    if swapped {
                        self.turn_phase = TurnPhase::EnemyActionExecuting;
                        self.action_target = ActiveAnim::Enemy;
                    } else {
                        self.turn_phase = TurnPhase::DeterminingTurnOrder;
                    }
                    self.dirty = true;
                    PhaseStep::Advanced
                } else {
                    PhaseStep::Idle
                }
            },
            TurnPhase::EnemyActionExecuting => {
                if timer_done {
                    PhaseStep::ApplyEnemyAttack
                } else {
                    PhaseStep::Idle
                }
            },
            TurnPhase::EnemyActionComplete => {
                if timer_done {
                    self.turn_phase = TurnPhase::DeterminingTurnOrder;
                    self.dirty = true;
                    PhaseStep::Advanced
                } else {
                    PhaseStep::Idle
                }
            },
            _ => PhaseStep::Idle,
        }
    }
}

/// First area, from `from` on, that holds the point.
pub open spec fn first_hit(areas: Seq<Option<Rect>>, x: int, y: int, from: int) -> Option<int>
    decreases 3 - from
{
    if from < 0 || from >= 3 {
        None
    } else if areas[from] matches Some(r) && r.has(x, y) {
        Some(from)
    } else {
        first_hit(areas, x, y, from + 1)
    }
}


/// A Bloom never lowers a monster's HP nor lifts it past its maximum.
pub proof fn lemma_bloom_bounds(m: CombatMonster)
    requires
        m.hp_current <= m.hp_max,
    ensures
        m.hp_current <= bloom_hp(m) <= m.hp_max,
{
}

/// A boss floor pays three times the crystals and twice the XP of an ordinary floor.
pub proof fn lemma_boss_rewards(floor: int)
    ensures
        floor_rewards(floor, true).0 == 3 * floor_rewards(floor, false).0,
        floor_rewards(floor, true).1 == 2 * floor_rewards(floor, false).1,
{
}

/// Settling the turn keeps both counters non-negative, and a side with no speed whose
/// counter is below 100 never gets the turn.
pub proof fn lemma_settle_turn(p: int, e: int, ps: int, es: int)
    requires
        p >= 0,
        e >= 0,
        ps >= 0,
        es >= 0,
        ps + es > 0,
    ensures
        settle_turn(p, e, ps, es).1 >= 0,
        settle_turn(p, e, ps, es).2 >= 0,
        ps == 0 && p < 100 ==> !settle_turn(p, e, ps, es).0,
        es == 0 && e < 100 ==> settle_turn(p, e, ps, es).0,
    decreases gap(p) + gap(e),
{
    if p < 100 && e < 100 {
        lemma_settle_turn(p + ps, e + es, ps, es);
    }
}

/// The next turn goes to a side that reached 100 and pays for it; counters stay
/// non-negative, and a side with no speed never acts while below 100.
pub proof fn lemma_next_turn(pc: int, ec: int, ps: int, es: int)
    requires
        pc >= 0,
        ec >= 0,
        ps >= 0,
        es >= 0,
        ps + es > 0,
    ensures
        next_turn(pc, ec, ps, es).1 >= 0,
        next_turn(pc, ec, ps, es).2 >= 0,
        ps == 0 && pc < 100 ==> !next_turn(pc, ec, ps, es).0,
        es == 0 && ec < 100 ==> next_turn(pc, ec, ps, es).0,
{
    lemma_settle_turn(pc + ps, ec + es, ps, es);
}

/// Who acts is decided at the first step where a side reaches 100. Both sides have added
/// their speed the same number of times `k`; one step earlier both were below 100. A
/// side at 100 or more acts: when both are, the strictly higher counter wins and the
/// player takes a tie. The side that acts pays 100; the other keeps its counter.
pub proof fn lemma_settle_turn_order(p: int, e: int, ps: int, es: int) -> (k: nat)
    requires
        ps >= 0,
        es >= 0,
        ps + es > 0,
    ensures
        p + k * ps >= 100 || e + k * es >= 100,
        k > 0 ==> p + (k - 1) * ps < 100 && e + (k - 1) * es < 100,
        settle_turn(p, e, ps, es).0 == (p + k * ps >= 100 && (e + k * es < 100 || p + k * ps >= e + k * es)),
        settle_turn(p, e, ps, es).0 ==> settle_turn(p, e, ps, es).1 == p + k * ps - 100
            && settle_turn(p, e, ps, es).2 == e + k * es,
        !settle_turn(p, e, ps, es).0 ==> settle_turn(p, e, ps, es).1 == p + k * ps
            && settle_turn(p, e, ps, es).2 == e + k * es - 100,
    decreases gap(p) + gap(e),
{
    if p >= 100 || e >= 100 {
        assert(0 * ps == 0 && 0 * es == 0) by (nonlinear_arith);
        0
    } else {
        let k1 = lemma_settle_turn_order(p + ps, e + es, ps, es);
        let k = k1 + 1;
        assert(p + k * ps == (p + ps) + k1 * ps && e + k * es == (e + es) + k1 * es) by (nonlinear_arith)
            requires k == k1 + 1;
        assert(p + (k - 1) * ps == (p + ps) + (k1 - 1) * ps && e + (k - 1) * es == (e + es) + (k1 - 1) * es)
            by (nonlinear_arith)
            requires k == k1 + 1;
        if k1 == 0 {
            assert((k - 1) * ps == 0 && (k - 1) * es == 0) by (nonlinear_arith)
                requires k == 1;
        }
        k
    }
}

/// From counters `pc` and `ec`, the next turn is decided after both sides added their
/// speed `k >= 1` times, at the first such step where a side reaches 100: the side at 100
/// or more acts (the strictly higher counter when both are, the player on a tie) and
/// pays 100.
pub proof fn lemma_next_turn_order(pc: int, ec: int, ps: int, es: int) -> (k: nat)
    requires
        ps >= 0,
        es >= 0,
        ps + es > 0,
    ensures
        k >= 1,
        pc + k * ps >= 100 || ec + k * es >= 100,
        k > 1 ==> pc + (k - 1) * ps < 100 && ec + (k - 1) * es < 100,
        next_turn(pc, ec, ps, es).0 == (pc + k * ps >= 100 && (ec + k * es < 100 || pc + k * ps >= ec + k * es)),
        next_turn(pc, ec, ps, es).0 ==> next_turn(pc, ec, ps, es).1 == pc + k * ps - 100
            && next_turn(pc, ec, ps, es).2 == ec + k * es,
        !next_turn(pc, ec, ps, es).0 ==> next_turn(pc, ec, ps, es).1 == pc + k * ps
            && next_turn(pc, ec, ps, es).2 == ec + k * es - 100,
{
    let j = lemma_settle_turn_order(pc + ps, ec + es, ps, es);
    let k = j + 1;
    assert(pc + k * ps == (pc + ps) + j * ps && ec + k * es == (ec + es) + j * es) by (nonlinear_arith)
        requires k == j + 1;
    assert(pc + (k - 1) * ps == (pc + ps) + (j - 1) * ps && ec + (k - 1) * es == (ec + es) + (j - 1) * es)
        by (nonlinear_arith)
        requires k == j + 1;
    k
}

} // verus!
