//! The home screen: two expedition slots, the team, and buttons to the map and the
//! collection.

use vstd::prelude::*;
use crate::element::Element;
use crate::geometry::{Rect, opt_contains};
use crate::page::Page;

verus! {

/// What a tap on the home screen asks for.
#[derive(Clone, Copy, Debug, PartialEq, Eq, Structural)]
pub enum HomeAction {
    NoAction,
    GoToMap,
    GoToCollection,
    ViewExpedition(usize),
    StartExpedition,
    ViewMonster(usize),
}

/// Time left of an expedition, as the slot shows it.
#[derive(Clone, Copy, Debug, PartialEq, Eq, Structural)]
pub enum TimeLeft {
    /// "Complete!"
    Complete,
    /// More than an hour: hours and minutes.
    HoursMinutes(u64, u64),
    /// Minutes and seconds.
    MinutesSeconds(u64, u64),
}

/// An expedition slot as shown.
pub struct ExpeditionSlotData {
    pub is_active: bool,
    pub map_name: String,
    pub progress_percent: u8,
    pub time_remaining: TimeLeft,
    pub is_complete: bool,
}

/// A running expedition: its length and start, in seconds, and its map's name.
pub struct ExpeditionInfo {
    pub total_seconds: u64,
    pub started_at: u64,
    pub map_name: String,
    /// Share of the time that has passed, in percent.
    pub progress_percent: u8,
}

/// A team member as shown.
pub struct TeamMonsterData {
    pub species_id: String,
    pub element: Element,
    pub level: u8,
    pub name: String,
}

/// Seconds left of an expedition at time `now`.
pub open spec fn secs_left(total: int, started: int, now: int) -> int {
    let elapsed = if now > started { now - started } else { 0 };
    if total > elapsed { total - elapsed } else { 0 }
}

/// How the slot shows `remaining` seconds.
pub open spec fn time_left_of(remaining: int) -> TimeLeft {
    let mins = remaining / 60;
    if remaining == 0 {
        TimeLeft::Complete
    } else if mins > 60 {
        TimeLeft::HoursMinutes((mins / 60) as u64, (mins % 60) as u64)
    } else {
        TimeLeft::MinutesSeconds(mins as u64, (remaining % 60) as u64)
    }
}

/// How the slot shows `remaining` seconds.
pub fn time_left(remaining: u64) -> (t: TimeLeft)
    ensures
        t == time_left_of(remaining as int),
{
    let mins = remaining / 60;
    if remaining == 0 {
        TimeLeft::Complete
    } else if mins > 60 {
        TimeLeft::HoursMinutes(mins / 60, mins % 60)
    } else {
        TimeLeft::MinutesSeconds(mins, remaining % 60)
    }
}

pub open spec fn slot_rect(i: int) -> Rect {
    Rect { x: 15, y: (85 + 60 * i) as i32, w: 338, h: 50 }
}

pub open spec fn team_rect(i: int) -> Rect {
    Rect { x: (20 + 110 * i) as i32, y: 240, w: 100, h: 80 }
}

pub open spec fn map_button_rect() -> Rect {
    Rect { x: 15, y: 370, w: 160, h: 55 }
}

pub open spec fn collection_button_rect() -> Rect {
    Rect { x: 190, y: 370, w: 160, h: 55 }
}

/// The first of the first `n` areas, from `from` on, that holds the tap.
pub open spec fn first_in(areas: Seq<Option<Rect>>, n: int, x: int, y: int, from: int) -> Option<int>
    decreases n - from,
{
    if from < 0 || from >= n || from >= areas.len() {
        None
    } else if areas[from] matches Some(r) && r.has(x, y) {
        Some(from)
    } else {
        first_in(areas, n, x, y, from + 1)
    }
}

/// The home screen.
pub struct HomePage {
    crystals: u32,
    expedition_slots: [Option<ExpeditionSlotData>; 2],
    team_monsters: Vec<TeamMonsterData>,
    expedition_areas: [Option<Rect>; 2],
    team_areas: [Option<Rect>; 3],
    map_button: Option<Rect>,
    collection_button: Option<Rect>,
    dirty: bool,
}

impl HomePage {
    pub closed spec fn crystals_of(&self) -> u32 {
        self.crystals
    }

    pub closed spec fn slots(&self) -> Seq<Option<ExpeditionSlotData>> {
        self.expedition_slots@
    }

    pub closed spec fn team(&self) -> Seq<TeamMonsterData> {
        self.team_monsters@
    }

    pub closed spec fn slot_areas(&self) -> Seq<Option<Rect>> {
        self.expedition_areas@
    }

    pub closed spec fn team_touch(&self) -> Seq<Option<Rect>> {
        self.team_areas@
    }

    pub closed spec fn nav_buttons(&self) -> (Option<Rect>, Option<Rect>) {
        (self.map_button, self.collection_button)
    }

    pub closed spec fn wf(&self) -> bool {
        &&& forall|i: int| 0 <= i < 2 ==> (#[trigger] self.expedition_areas@[i] matches Some(r) ==> r == slot_rect(i))
        &&& forall|i: int| 0 <= i < 3 ==> (#[trigger] self.team_areas@[i] matches Some(r) ==> r == team_rect(i))
        &&& (self.map_button matches Some(r) ==> r == map_button_rect())
        &&& (self.collection_button matches Some(r) ==> r == collection_button_rect())
    }

    pub fn new() -> (p: Self)
        ensures
            p.wf(),
            p.crystals_of() == 0,
            forall|i: int| 0 <= i < 2 ==> (#[trigger] p.slots()[i]) is None && p.slot_areas()[i] is None,
            forall|i: int| 0 <= i < 3 ==> #[trigger] p.team_touch()[i] is None,
            p.team().len() == 0,
            p.nav_buttons() == (None::<Rect>, None::<Rect>),
    {
        HomePage {
            crystals: 0,
            expedition_slots: [None, None],
            team_monsters: Vec::new(),
            expedition_areas: [None, None],
            team_areas: [None, None, None],
            map_button: None,
            collection_button: None,
            dirty: true,
        }
    }

    pub fn crystals(&self) -> (c: u32)
        ensures
            c == self.crystals_of(),
    {
        self.crystals
    }

    pub fn slot(&self, i: usize) -> (s: &Option<ExpeditionSlotData>)
        requires
            i < 2,
        ensures
            *s == self.slots()[i as int],
    {
        &self.expedition_slots[i]
    }

    pub fn team_monsters(&self) -> (t: &Vec<TeamMonsterData>)
        ensures
            t@ == self.team(),
    {
        &self.team_monsters
    }

    /// Refreshes the screen at time `now` (Unix seconds): the crystals, each running
    /// expedition's slot (time left, done once no time is left) and the team.
    pub fn update_data(&mut self, crystals: u32, expeditions: (Option<ExpeditionInfo>, Option<ExpeditionInfo>), team: Vec<TeamMonsterData>, now: u64)
        ensures
            final(self).crystals_of() == crystals,
            final(self).team() == team@,
            final(self).wf() == old(self).wf(),
            final(self).slot_areas() == old(self).slot_areas(),
            final(self).team_touch() == old(self).team_touch(),
            final(self).nav_buttons() == old(self).nav_buttons(),
            forall|i: int| 0 <= i < 2 ==> match (if i == 0 { expeditions.0 } else { expeditions.1 }) {
                Some(e) => #[trigger] final(self).slots()[i] matches Some(s) && {
                    let left = secs_left(e.total_seconds as int, e.started_at as int, now as int);
                    &&& s.is_active
                    &&& s.map_name == e.map_name
                    &&& s.progress_percent == e.progress_percent
                    &&& s.is_complete == (left == 0)
                    &&& s.time_remaining == time_left_of(left)
                },
                None => final(self).slots()[i] is None,
            },
    {
        self.crystals = crystals;
        let (e0, e1) = expeditions;
        self.expedition_slots = [slot_of(e0, now), slot_of(e1, now)];
        self.team_monsters = team;
        self.dirty = true;
    }

    /// Registers the touch areas, as drawing places them: both expedition slots, three
    /// team places, and the map and collection buttons.
    pub fn layout(&mut self)
        ensures
            final(self).wf(),
            forall|i: int| 0 <= i < 2 ==> #[trigger] final(self).slot_areas()[i] == Some(slot_rect(i)),
            forall|i: int| 0 <= i < 3 ==> #[trigger] final(self).team_touch()[i] == Some(team_rect(i)),
            final(self).nav_buttons() == (Some(map_button_rect()), Some(collection_button_rect())),
            final(self).slots() == old(self).slots(),
            final(self).team() == old(self).team(),
            final(self).crystals_of() == old(self).crystals_of(),
    {
        self.expedition_areas = [Some(Rect::new(15, 85, 338, 50)), Some(Rect::new(15, 145, 338, 50))];
        self.team_areas = [Some(Rect::new(20, 240, 100, 80)), Some(Rect::new(130, 240, 100, 80)), Some(Rect::new(240, 240, 100, 80))];
        assert(self.expedition_areas@[1] == Some(slot_rect(1)));
        assert(self.team_areas@[1] == Some(team_rect(1)) && self.team_areas@[2] == Some(team_rect(2)));
        self.map_button = Some(Rect::new(15, 370, 160, 55));
        self.collection_button = Some(Rect::new(190, 370, 160, 55));
        self.dirty = false;
    }

    /// An expedition slot views its expedition, or starts one when empty; then a team
    /// place views that monster; then the map and collection buttons.
    pub fn handle_touch(&mut self, x: i32, y: i32) -> (a: HomeAction)
        requires
            old(self).wf(),
        ensures
            final(self).wf(),
            final(self).slots() == old(self).slots(),
            final(self).slot_areas() == old(self).slot_areas(),
            final(self).team_touch() == old(self).team_touch(),
            a == (match first_in(old(self).slot_areas(), 2, x as int, y as int, 0) {
                Some(i) => if old(self).slots()[i] is Some { HomeAction::ViewExpedition(i as usize) } else { HomeAction::StartExpedition },
                None => match first_in(old(self).team_touch(), 3, x as int, y as int, 0) {
                    Some(i) => HomeAction::ViewMonster(i as usize),
                    None => if old(self).nav_buttons().0 matches Some(r) && r.has(x as int, y as int) {
                        HomeAction::GoToMap
                    } else if old(self).nav_buttons().1 matches Some(r) && r.has(x as int, y as int) {
                        HomeAction::GoToCollection
                    } else {
                        HomeAction::NoAction
                    },
                },
            }),
    {
        let mut i: usize = 0;
        while i < 2
            invariant
                i <= 2,
                self.wf(),
                self == old(self),
                first_in(self.expedition_areas@, 2, x as int, y as int, i as int) == first_in(self.expedition_areas@, 2, x as int, y as int, 0),
            decreases 2 - i,
        {
            if opt_contains(self.expedition_areas[i], x, y) {
                if self.expedition_slots[i].is_some() {
                    return HomeAction::ViewExpedition(i);
                } else {
                    return HomeAction::StartExpedition;
                }
            }
            i += 1;
        }
        let mut k: usize = 0;
        while k < 3
            invariant
                k <= 3,
                self.wf(),
                self == old(self),
                first_in(self.expedition_areas@, 2, x as int, y as int, 0) is None,
                first_in(self.team_areas@, 3, x as int, y as int, k as int) == first_in(self.team_areas@, 3, x as int, y as int, 0),
            decreases 3 - k,
        {
            if opt_contains(self.team_areas[k], x, y) {
                return HomeAction::ViewMonster(k);
            }
            k += 1;
        }
        if opt_contains(self.map_button, x, y) {
            return HomeAction::GoToMap;
        }
        if opt_contains(self.collection_button, x, y) {
            return HomeAction::GoToCollection;
        }
        HomeAction::NoAction
    }
}

/// The slot of a running expedition at time `now`.
fn slot_of(e: Option<ExpeditionInfo>, now: u64) -> (s: Option<ExpeditionSlotData>)
    ensures
        match e {
            Some(e) => s matches Some(s) && {
                let left = secs_left(e.total_seconds as int, e.started_at as int, now as int);
                &&& s.is_active
                &&& s.map_name == e.map_name
                &&& s.progress_percent == e.progress_percent
                &&& s.is_complete == (left == 0)
                &&& s.time_remaining == time_left_of(left)
            },
            None => s is None,
        },
{
    match e {
        Some(e) => {
            let elapsed = now.saturating_sub(e.started_at);
            let remaining = e.total_seconds.saturating_sub(elapsed);
            Some(ExpeditionSlotData {
                is_active: true,
                map_name: e.map_name,
                progress_percent: e.progress_percent,
                time_remaining: time_left(remaining),
                is_complete: remaining == 0,
            })
        },
        None => None,
    }
}

impl HomePage {
    /// A full redraw is pending.
    pub closed spec fn redraw_pending(&self) -> bool {
        self.dirty
    }
}

impl Page for HomePage {
    fn update(&mut self) -> (alive: bool)
        ensures
            alive,
            *final(self) == *old(self),
    {
        true
    }

    fn mark_dirty(&mut self)
        ensures
            final(self).redraw_pending(),
    {
        self.dirty = true;
    }

    fn needs_full_redraw(&self) -> (b: bool)
        ensures
            b == self.redraw_pending(),
    {
        self.dirty
    }
}

} // verus!
