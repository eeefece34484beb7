//! The pause between dungeon floors: the team's state, the rewards so far, and the
//! choice to go on or leave.

use vstd::prelude::*;
use crate::element::Element;
use crate::geometry::{Rect, opt_contains};
use crate::page::Page;

verus! {

/// What a tap between floors asks for.
#[derive(Clone, Copy, Debug, PartialEq, Eq, Structural)]
pub enum BetweenFloorsAction {
    NoAction,
    Continue,
    Abandon,
}

/// A team member as shown between floors.
pub struct MonsterStatusData {
    pub name: String,
    pub element: Element,
    pub level: u8,
    pub hp_current: u16,
    pub hp_max: u16,
    pub is_alive: bool,
    pub xp_current: u32,
    pub xp_to_next: u32,
    pub xp_gained: u32,
}

/// A team member after a fight.
pub struct MonsterSnapshot {
    pub name: String,
    pub element: Element,
    pub level: u8,
    pub hp_current: u16,
    pub hp_max: u16,
    pub is_alive: bool,
    pub xp: u32,
    pub xp_to_next: u32,
}

/// Number of standing monsters.
pub open spec fn alive_count(ms: Seq<MonsterSnapshot>) -> int
    decreases ms.len(),
{
    if ms.len() == 0 { 0 } else { alive_count(ms.drop_last()) + if ms.last().is_alive { 1int } else { 0int } }
}

/// XP each standing monster gets: an equal share, rounded down.
pub open spec fn xp_share(xp: int, alive: int) -> int {
    if alive > 0 { xp / alive } else { 0 }
}

/// Some team member stands.
pub open spec fn any_alive(team: Seq<MonsterStatusData>) -> bool {
    exists|i: int| 0 <= i < team.len() && (#[trigger] team[i]).is_alive
}

pub open spec fn continue_rect() -> Rect {
    Rect { x: 15, y: 234, w: 100, h: 28 }
}

pub open spec fn abandon_rect() -> Rect {
    Rect { x: 125, y: 234, w: 100, h: 28 }
}

proof fn lemma_alive_count_le(ms: Seq<MonsterSnapshot>)
    ensures
        0 <= alive_count(ms) <= ms.len(),
    decreases ms.len(),
{
    if ms.len() > 0 {
        lemma_alive_count_le(ms.drop_last());
    }
}

/// The shares never add up to more than the XP won.
pub proof fn lemma_xp_share(xp: nat, alive: nat)
    ensures
        xp_share(xp as int, alive as int) * alive <= xp,
{
    if alive > 0 {
        assert((xp as int / alive as int) * alive as int <= xp) by (nonlinear_arith)
            requires alive > 0;
    }
}

/// The screen between floors; `B` is the game's active bonus type.
pub struct BetweenFloorsPage<B> {
    dungeon_name: String,
    current_floor: u16,
    floors_cleared: u16,
    crystals_earned: u32,
    xp_earned: u32,
    pub team_status: Vec<MonsterStatusData>,
    active_bonuses: Vec<B>,
    continue_button: Option<Rect>,
    abandon_button: Option<Rect>,
    dirty: bool,
}

impl<B> BetweenFloorsPage<B> {
    pub closed spec fn progress(&self) -> (u16, u16, u32, u32) {
        (self.current_floor, self.floors_cleared, self.crystals_earned, self.xp_earned)
    }

    pub closed spec fn team(&self) -> Seq<MonsterStatusData> {
        self.team_status@
    }

    pub closed spec fn bonuses(&self) -> Seq<B> {
        self.active_bonuses@
    }

    pub closed spec fn buttons(&self) -> (Option<Rect>, Option<Rect>) {
        (self.continue_button, self.abandon_button)
    }

    pub closed spec fn wf(&self) -> bool {
        &&& (self.continue_button matches Some(r) ==> r == continue_rect())
        &&& (self.abandon_button matches Some(r) ==> r == abandon_rect())
    }

    pub fn new(dungeon_name: String, current_floor: u16, floors_cleared: u16, crystals_earned: u32, xp_earned: u32,
        team_status: Vec<MonsterStatusData>, active_bonuses: Vec<B>) -> (p: Self)
        ensures
            p.dungeon_name_text() == dungeon_name@,
            p.wf(),
            p.progress() == (current_floor, floors_cleared, crystals_earned, xp_earned),
            p.team() == team_status@,
            p.bonuses() == active_bonuses@,
            p.buttons() == (None::<Rect>, None::<Rect>),
    {
        BetweenFloorsPage {
            dungeon_name,
            current_floor,
            floors_cleared,
            crystals_earned,
            xp_earned,
            team_status,
            active_bonuses,
            continue_button: None,
            abandon_button: None,
            dirty: true,
        }
    }

    pub closed spec fn dungeon_name_text(&self) -> Seq<char> {
        self.dungeon_name@
    }

    pub fn dungeon_name(&self) -> (s: &str)
        ensures
            s@ == self.dungeon_name_text(),
    {
        self.dungeon_name.as_str()
    }

    /// Current floor, floors cleared, crystals and XP earned.
    pub fn progress_of(&self) -> (r: (u16, u16, u32, u32))
        ensures
            r == self.progress(),
    {
        (self.current_floor, self.floors_cleared, self.crystals_earned, self.xp_earned)
    }

    pub fn active_bonuses(&self) -> (b: &Vec<B>)
        ensures
            b@ == self.bonuses(),
    {
        &self.active_bonuses
    }

    /// After a won floor: the floor count, the rewards add up, and the team's state is
    /// refreshed, each standing monster getting an equal share of the floor's XP.
    pub fn update_from_combat(&mut self, monsters: &Vec<MonsterSnapshot>, crystals: u32, xp: u32, floor: u16)
        requires
            old(self).progress().1 < u16::MAX,
            old(self).progress().2 + crystals <= u32::MAX,
            old(self).progress().3 + xp <= u32::MAX,
            monsters@.len() <= u32::MAX,
        ensures
            final(self).progress() == (floor, (old(self).progress().1 + 1) as u16,
                (old(self).progress().2 + crystals) as u32, (old(self).progress().3 + xp) as u32),
            final(self).bonuses() == old(self).bonuses(),
            final(self).buttons() == old(self).buttons(),
            final(self).team().len() == monsters@.len(),
            forall|i: int| 0 <= i < monsters@.len() ==> {
                let m = monsters@[i];
                let s = #[trigger] final(self).team()[i];
                &&& s.name == m.name
                &&& s.element == m.element
                &&& s.level == m.level
                &&& s.hp_current == m.hp_current
                &&& s.hp_max == m.hp_max
                &&& s.is_alive == m.is_alive
                &&& s.xp_current == m.xp
                &&& s.xp_to_next == m.xp_to_next
                &&& s.xp_gained == (if m.is_alive { xp_share(xp as int, alive_count(monsters@)) } else { 0 })
            },
    {
        self.current_floor = floor;
        self.floors_cleared = self.floors_cleared + 1;
        self.crystals_earned = self.crystals_earned + crystals;
        self.xp_earned = self.xp_earned + xp;
        let mut alive: u32 = 0;
        let mut i: usize = 0;
        while i < monsters.len()
            invariant
                i <= monsters@.len(),
                monsters@.len() <= u32::MAX,
                alive == alive_count(monsters@.take(i as int)),
                alive <= i,
            decreases monsters@.len() - i,
        {
            proof {
                assert(monsters@.take(i as int + 1).drop_last() =~= monsters@.take(i as int));
            }
            if monsters[i].is_alive {
                alive = alive + 1;
            }
            i += 1;
        }
        assert(monsters@.take(i as int) =~= monsters@);
        let share: u32 = if alive > 0 { xp / alive } else { 0 };
        let mut team: Vec<MonsterStatusData> = Vec::new();
        let mut k: usize = 0;
        while k < monsters.len()
            invariant
                k <= monsters@.len(),
                team@.len() == k,
                share == xp_share(xp as int, alive_count(monsters@)),
                forall|j: int| 0 <= j < k ==> {
                    let m = monsters@[j];
                    let s = #[trigger] team@[j];
                    &&& s.name == m.name
                    &&& s.element == m.element
                    &&& s.level == m.level
                    &&& s.hp_current == m.hp_current
                    &&& s.hp_max == m.hp_max
                    &&& s.is_alive == m.is_alive
                    &&& s.xp_current == m.xp
                    &&& s.xp_to_next == m.xp_to_next
                    &&& s.xp_gained == (if m.is_alive { xp_share(xp as int, alive_count(monsters@)) } else { 0 })
                },
            decreases monsters@.len() - k,
        {
            let m = &monsters[k];
            team.push(MonsterStatusData {
                name: m.name.clone(),
                element: m.element,
                level: m.level,
                hp_current: m.hp_current,
                hp_max: m.hp_max,
                is_alive: m.is_alive,
                xp_current: m.xp,
                xp_to_next: m.xp_to_next,
                xp_gained: if m.is_alive { share } else { 0 },
            });
            k += 1;
        }
        self.team_status = team;
        self.dirty = true;
    }

    pub fn set_active_bonuses(&mut self, bonuses: Vec<B>)
        ensures
            final(self).bonuses() == bonuses@,
            final(self).progress() == old(self).progress(),
            final(self).buttons() == old(self).buttons(),
            final(self).team() == old(self).team(),
    {
        self.active_bonuses = bonuses;
        self.dirty = true;
    }

    /// Some team member still stands.
    pub fn can_continue(&self) -> (b: bool)
        ensures
            b == any_alive(self.team()),
    {
        let mut i: usize = 0;
        while i < self.team_status.len()
            invariant
                i <= self.team_status@.len(),
                forall|j: int| 0 <= j < i ==> !(#[trigger] self.team_status@[j]).is_alive,
            decreases self.team_status@.len() - i,
        {
            if self.team_status[i].is_alive {
                return true;
            }
            i += 1;
        }
        false
    }

    /// Registers the two buttons, as drawing places them.
    pub fn layout(&mut self)
        ensures
            final(self).wf(),
            final(self).buttons() == (Some(continue_rect()), Some(abandon_rect())),
            final(self).progress() == old(self).progress(),
            final(self).bonuses() == old(self).bonuses(),
            final(self).team() == old(self).team(),
    {
        self.continue_button = Some(Rect::new(15, 234, 100, 28));
        self.abandon_button = Some(Rect::new(125, 234, 100, 28));
        self.dirty = false;
    }

    /// Continue needs a standing team member; abandon is always possible.
    pub fn handle_touch(&self, x: i32, y: i32) -> (a: BetweenFloorsAction)
        requires
            self.wf(),
        ensures
            a == (if (self.buttons().0 matches Some(r) && r.has(x as int, y as int)) && any_alive(self.team()) {
                BetweenFloorsAction::Continue
            } else if self.buttons().1 matches Some(r) && r.has(x as int, y as int) {
                BetweenFloorsAction::Abandon
            } else {
                BetweenFloorsAction::NoAction
            }),
    {
        if opt_contains(self.continue_button, x, y) {
            if self.can_continue() {
                return BetweenFloorsAction::Continue;
            }
        }
        if opt_contains(self.abandon_button, x, y) {
            return BetweenFloorsAction::Abandon;
        }
        BetweenFloorsAction::NoAction
    }
}

impl<B> BetweenFloorsPage<B> {
    /// A full redraw is pending.
    pub closed spec fn redraw_pending(&self) -> bool {
        self.dirty
    }
}

impl<B> Page for BetweenFloorsPage<B> {
    fn update(&mut self) -> (alive: bool)
        ensures
            alive,
            *final(self) == *old(self),
    {
        true
    }

    fn mark_dirty(&mut self)
        ensures
            final(self).redraw_pending(),
    {
        self.dirty = true;
    }

    fn needs_full_redraw(&self) -> (b: bool)
        ensures
            b == self.redraw_pending(),
    {
        self.dirty
    }
}

} // verus!
