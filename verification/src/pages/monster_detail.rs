//! A monster's details, with buttons to change its team membership or upgrade it.

use vstd::prelude::*;
use crate::geometry::{Rect, opt_contains};
use crate::page::Page;

verus! {

/// What a tap on the detail screen asks for.
#[derive(Clone, Copy, Debug, PartialEq, Eq, Structural)]
pub enum MonsterDetailAction {
    NoAction,
    Back,
    AddToTeam,
    RemoveFromTeam,
    Upgrade,
}

/// What the detail screen shows of a monster.
pub struct MonsterStats {
    pub name: String,
    pub species_id: String,
    pub level: u8,
    pub element_name: String,
    pub fusion_count: u8,
    pub hp_current: u16,
    pub hp_max: u16,
    pub atk: u16,
    pub def: u16,
    pub spd: u16,
    pub xp: u32,
    pub xp_to_next: u32,
    pub power: u16,
}

pub open spec fn team_button_rect() -> Rect {
    Rect { x: 15, y: 172, w: 100, h: 28 }
}

pub open spec fn upgrade_button_rect() -> Rect {
    Rect { x: 125, y: 172, w: 100, h: 28 }
}

/// Details of one monster.
pub struct MonsterDetailPage {
    stats: MonsterStats,
    skill_name: String,
    skill_description: String,
    is_in_team: bool,
    back_area: Option<Rect>,
    team_button_area: Option<Rect>,
    upgrade_button_area: Option<Rect>,
    dirty: bool,
}

impl MonsterDetailPage {
    pub closed spec fn in_team(&self) -> bool {
        self.is_in_team
    }

    pub closed spec fn skill(&self) -> (Seq<char>, Seq<char>) {
        (self.skill_name@, self.skill_description@)
    }

    pub closed spec fn areas(&self) -> (Option<Rect>, Option<Rect>, Option<Rect>) {
        (self.back_area, self.team_button_area, self.upgrade_button_area)
    }

    pub closed spec fn wf(&self) -> bool {
        &&& (self.back_area matches Some(r) ==> r.wf())
        &&& (self.team_button_area matches Some(r) ==> r == team_button_rect())
        &&& (self.upgrade_button_area matches Some(r) ==> r == upgrade_button_rect())
    }

    /// The first equipped skill is shown, or "No Skill" when there is none.
    pub fn new(stats: MonsterStats, first_skill: Option<(String, String)>, is_in_team: bool) -> (p: Self)
        ensures
            p.stats_data() == stats,
            p.wf(),
            p.in_team() == is_in_team,
            p.skill() == (match first_skill {
                Some(s) => (s.0@, s.1@),
                None => ("No Skill"@, "No skill equipped"@),
            }),
            p.areas() == (None::<Rect>, None::<Rect>, None::<Rect>),
    {
        let (skill_name, skill_description) = match first_skill {
            Some(s) => s,
            None => ("No Skill".to_string(), "No skill equipped".to_string()),
        };
        MonsterDetailPage {
            stats,
            skill_name,
            skill_description,
            is_in_team,
            back_area: None,
            team_button_area: None,
            upgrade_button_area: None,
            dirty: true,
        }
    }

    pub closed spec fn stats_data(&self) -> MonsterStats {
        self.stats
    }

    pub fn stats(&self) -> (r: &MonsterStats)
        ensures
            *r == self.stats_data(),
    {
        &self.stats
    }

    pub fn skill_name(&self) -> (s: &str)
        ensures
            s@ == self.skill().0,
    {
        self.skill_name.as_str()
    }

    pub fn skill_description(&self) -> (s: &str)
        ensures
            s@ == self.skill().1,
    {
        self.skill_description.as_str()
    }

    pub fn is_in_team(&self) -> (b: bool)
        ensures
            b == self.in_team(),
    {
        self.is_in_team
    }

    /// Registers the team and upgrade buttons, as drawing places them; there is no
    /// back button.
    pub fn layout(&mut self)
        ensures
            final(self).wf(),
            final(self).areas() == (None::<Rect>, Some(team_button_rect()), Some(upgrade_button_rect())),
            final(self).in_team() == old(self).in_team(),
            final(self).skill() == old(self).skill(),
    {
        self.team_button_area = Some(Rect::new(15, 172, 100, 28));
        self.upgrade_button_area = Some(Rect::new(125, 172, 100, 28));
        self.back_area = None;
        self.dirty = false;
    }

    /// Back first, then the team button (add or remove, by membership), then upgrade.
    pub fn handle_touch(&mut self, x: i32, y: i32) -> (a: MonsterDetailAction)
        requires
            old(self).wf(),
        ensures
            final(self).wf(),
            final(self).areas() == old(self).areas(),
            final(self).in_team() == old(self).in_team(),
            a == (if old(self).areas().0 matches Some(r) && r.has(x as int, y as int) {
                MonsterDetailAction::Back
            } else if old(self).areas().1 matches Some(r) && r.has(x as int, y as int) {
                if old(self).in_team() { MonsterDetailAction::RemoveFromTeam } else { MonsterDetailAction::AddToTeam }
            } else if old(self).areas().2 matches Some(r) && r.has(x as int, y as int) {
                MonsterDetailAction::Upgrade
            } else {
                MonsterDetailAction::NoAction
            }),
    {
        if opt_contains(self.back_area, x, y) {
            return MonsterDetailAction::Back;
        }
        if opt_contains(self.team_button_area, x, y) {
            if self.is_in_team {
                return MonsterDetailAction::RemoveFromTeam;
            } else {
                return MonsterDetailAction::AddToTeam;
            }
        }
        if opt_contains(self.upgrade_button_area, x, y) {
            return MonsterDetailAction::Upgrade;
        }
        MonsterDetailAction::NoAction
    }
}

impl MonsterDetailPage {
    /// A full redraw is pending.
    pub closed spec fn redraw_pending(&self) -> bool {
        self.dirty
    }
}

impl Page for MonsterDetailPage {
    fn update(&mut self) -> (alive: bool)
        ensures
            alive,
            *final(self) == *old(self),
    {
        true
    }

    fn mark_dirty(&mut self)
        ensures
            final(self).redraw_pending(),
    {
        self.dirty = true;
    }

    fn needs_full_redraw(&self) -> (b: bool)
        ensures
            b == self.redraw_pending(),
    {
        self.dirty
    }
}

} // verus!
