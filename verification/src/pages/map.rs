//! World map navigation: the zone list, a zone's maps and dungeon, and the dungeon's
//! start screen, with the touch areas each view registers.

use vstd::prelude::*;
use crate::geometry::Rect;
use crate::page::Page;
use crate::order::{stable_order, stably_sorted, take_in_order};
use crate::touch::{TouchArea, areas_wf, first_touched, find_touched};

verus! {

/// Which view of the map is shown.
#[derive(Debug, PartialEq, Eq)]
pub enum NavigationPage {
    /// All zones, from the `scroll_offset`-th on.
    ZoneList { scroll_offset: usize },
    /// The maps and the dungeon of one zone.
    ZoneDetail { zone_id: String, scroll_offset: usize },
    /// Where to start a zone's dungeon.
    DungeonSelect { zone_id: String },
}

/// What a touch area of the map does.
#[derive(Debug, PartialEq, Eq)]
pub enum TouchAreaAction {
    SelectZone(String),
    SelectMap(String),
    EnterDungeon(String),
    Back,
    StartDungeonCombat,
}

/// What the caller must do after a tap on the map.
#[derive(Debug, PartialEq, Eq)]
pub enum TouchAction {
    /// Start an expedition on this map.
    StartExpedition(String),
    /// Enter this dungeon from this floor.
    StartDungeon { dungeon_id: String, start_floor: u16 },
    /// Go back to the home screen.
    BackToHome,
    /// Nothing beyond the map's own navigation.
    NoAction,
}

/// A zone as the map shows it.
pub struct ZoneEntry {
    pub id: String,
    pub dungeon_id: String,
    /// Lowest level of the zone's range.
    pub min_level: u32,
}

/// An expedition map as the map shows it.
pub struct MapEntry {
    pub id: String,
    pub zone_id: String,
    /// Lowest level of the map's range.
    pub min_level: u32,
}

/// Zone list rows: first row's top, row height and gap.
pub open spec fn zone_row_y(idx: int) -> int {
    32 + idx * 62
}

/// Map rows of a zone: first row's top, row height and gap.
pub open spec fn map_row_y(idx: int) -> int {
    48 + idx * 46
}

/// Top of the dungeon button below `shown` map rows.
pub open spec fn dungeon_button_y(shown: int) -> int {
    48 + shown * 46 + 16
}

/// Floors a dungeon can be started from.
pub open spec fn checkpoint(idx: int) -> int {
    if idx == 0 { 1 } else { 10 * idx }
}

pub open spec fn zone_keys(zones: Seq<ZoneEntry>) -> Seq<u32> {
    Seq::new(zones.len(), |i: int| zones[i].min_level)
}

pub open spec fn map_keys(maps: Seq<MapEntry>) -> Seq<u32> {
    Seq::new(maps.len(), |i: int| maps[i].min_level)
}

/// Index of the first zone with the given id.
pub open spec fn zone_index(zones: Seq<ZoneEntry>, id: Seq<char>, from: int) -> Option<int>
    decreases zones.len() - from,
{
    if from < 0 || from >= zones.len() {
        None
    } else if zones[from].id@ == id {
        Some(from)
    } else {
        zone_index(zones, id, from + 1)
    }
}

/// Touch areas of the zone list for the first `k` rows shown: each unlocked zone's row
/// opens it.
pub open spec fn zone_list_areas(zones: Seq<ZoneEntry>, unlocked: Seq<bool>, scroll: int, k: int)
    -> Seq<TouchArea<TouchAreaAction>>
    decreases k,
{
    if k <= 0 {
        seq![]
    } else {
        let prev = zone_list_areas(zones, unlocked, scroll, k - 1);
        let z = scroll + k - 1;
        if z < zones.len() && unlocked[z] {
            prev.push(TouchArea {
                rect: Rect { x: 10, y: zone_row_y(k - 1) as i32, w: 220, h: 58 },
                action: TouchAreaAction::SelectZone(zones[z].id),
            })
        } else {
            prev
        }
    }
}

/// Positions, in order, of the maps that belong to a zone, among the first `k` maps.
pub open spec fn zone_map_positions(maps: Seq<MapEntry>, zone_id: Seq<char>, k: int) -> Seq<int>
    decreases k,
{
    if k <= 0 {
        seq![]
    } else {
        let prev = zone_map_positions(maps, zone_id, k - 1);
        if maps[k - 1].zone_id@ == zone_id { prev.push(k - 1) } else { prev }
    }
}

/// Touch areas of a zone's detail for the first `k` map rows shown.
pub open spec fn zone_map_areas(maps: Seq<MapEntry>, pos: Seq<int>, scroll: int, k: int)
    -> Seq<TouchArea<TouchAreaAction>>
    decreases k,
{
    if k <= 0 {
        seq![]
    } else {
        let prev = zone_map_areas(maps, pos, scroll, k - 1);
        let m = scroll + k - 1;
        if m < pos.len() {
            prev.push(TouchArea {
                rect: Rect { x: 10, y: map_row_y(k - 1) as i32, w: 220, h: 42 },
                action: TouchAreaAction::SelectMap(maps[pos[m]].id),
            })
        } else {
            prev
        }
    }
}

/// Dungeon of the zone with the given id (empty when no zone has it).
pub open spec fn dungeon_of(zones: Seq<ZoneEntry>, zone_id: Seq<char>) -> Seq<char> {
    match zone_index(zones, zone_id, 0) {
        Some(z) => zones[z].dungeon_id@,
        None => Seq::<char>::empty(),
    }
}

/// No dungeon appears twice in a progress list.
pub open spec fn distinct_ids(progress: Seq<(String, u16)>) -> bool {
    forall|i: int, j: int| 0 <= i < j < progress.len() ==> (#[trigger] progress[i]).0@ != (#[trigger] progress[j]).0@
}

/// Navigation and touch handling of the world map.
pub struct MapPage {
    touch_areas: Vec<TouchArea<TouchAreaAction>>,
    needs_full_redraw: bool,
    navigation_page: NavigationPage,
    dungeon_progress: Vec<(String, u16)>,
    zones: Vec<ZoneEntry>,
    tamer_maps: Vec<MapEntry>,
}

impl MapPage {
    pub closed spec fn areas(&self) -> Seq<TouchArea<TouchAreaAction>> {
        self.touch_areas@
    }

    pub closed spec fn nav(&self) -> NavigationPage {
        self.navigation_page
    }

    pub closed spec fn zone_list(&self) -> Seq<ZoneEntry> {
        self.zones@
    }

    pub closed spec fn map_list(&self) -> Seq<MapEntry> {
        self.tamer_maps@
    }

    pub closed spec fn progress(&self) -> Seq<(String, u16)> {
        self.dungeon_progress@
    }

    pub closed spec fn dirty(&self) -> bool {
        self.needs_full_redraw
    }

    pub closed spec fn wf(&self) -> bool {
        &&& areas_wf(self.touch_areas@)
        &&& distinct_ids(self.dungeon_progress@)
    }

    /// The zone list at the top, with no data yet.
    pub fn new() -> (p: Self)
        ensures
            p.wf(),
            p.nav() == (NavigationPage::ZoneList { scroll_offset: 0 }),
            p.areas().len() == 0,
            p.zone_list().len() == 0,
            p.map_list().len() == 0,
            p.progress().len() == 0,
            p.dirty(),
    {
        MapPage {
            touch_areas: Vec::new(),
            needs_full_redraw: true,
            navigation_page: NavigationPage::ZoneList { scroll_offset: 0 },
            dungeon_progress: Vec::new(),
            zones: Vec::new(),
            tamer_maps: Vec::new(),
        }
    }

    /// Stores the zones and maps, each in a stable order by lowest level.
    pub fn set_game_data(&mut self, zones: Vec<ZoneEntry>, tamer_maps: Vec<MapEntry>)
        requires
            old(self).wf(),
        ensures
            final(self).wf(),
            final(self).dirty(),
            final(self).nav() == old(self).nav(),
            final(self).areas() == old(self).areas(),
            final(self).progress() == old(self).progress(),
            final(self).zone_list().len() == zones@.len(),
            final(self).map_list().len() == tamer_maps@.len(),
            exists|o: Seq<usize>| #![auto] stably_sorted(zone_keys(zones@), o) && o.len() == zones@.len()
                && forall|i: int| 0 <= i < o.len() ==> final(self).zone_list()[i] == zones@[o[i] as int],
            exists|o: Seq<usize>| #![auto] stably_sorted(map_keys(tamer_maps@), o) && o.len() == tamer_maps@.len()
                && forall|i: int| 0 <= i < o.len() ==> final(self).map_list()[i] == tamer_maps@[o[i] as int],
    {
        let mut zkeys: Vec<u32> = Vec::new();
        let mut i: usize = 0;
        while i < zones.len()
            invariant
                i <= zones@.len(),
                zkeys@.len() == i,
                forall|j: int| 0 <= j < i ==> #[trigger] zkeys@[j] == zones@[j].min_level,
            decreases zones@.len() - i,
        {
            zkeys.push(zones[i].min_level);
            i += 1;
        }
        assert(zkeys@ =~= zone_keys(zones@));
        let zorder = stable_order(&zkeys);
        let mut mkeys: Vec<u32> = Vec::new();
        let mut i: usize = 0;
        while i < tamer_maps.len()
            invariant
                i <= tamer_maps@.len(),
                mkeys@.len() == i,
                forall|j: int| 0 <= j < i ==> #[trigger] mkeys@[j] == tamer_maps@[j].min_level,
            decreases tamer_maps@.len() - i,
        {
            mkeys.push(tamer_maps[i].min_level);
            i += 1;
        }
        assert(mkeys@ =~= map_keys(tamer_maps@));
        let morder = stable_order(&mkeys);
        let sorted_zones = take_in_order(zones, &zorder);
        let sorted_maps = take_in_order(tamer_maps, &morder);
        self.zones = sorted_zones;
        self.tamer_maps = sorted_maps;
        self.needs_full_redraw = true;
    }

    pub fn has_game_data(&self) -> (b: bool)
        ensures
            b == (self.zone_list().len() > 0),
    {
        self.zones.len() > 0
    }

    /// Replaces the best floor reached in each dungeon.
    pub fn update_dungeon_progress(&mut self, progress: Vec<(String, u16)>)
        requires
            old(self).wf(),
            distinct_ids(progress@),
        ensures
            final(self).wf(),
            final(self).progress() == progress@,
            final(self).nav() == old(self).nav(),
            final(self).areas() == old(self).areas(),
            final(self).zone_list() == old(self).zone_list(),
            final(self).map_list() == old(self).map_list(),
            final(self).dirty() == old(self).dirty(),
    {
        self.dungeon_progress = progress;
    }

    /// Best floor reached in a dungeon, 0 when never entered.
    pub fn record_for(&self, dungeon_id: &String) -> (r: u16)
        ensures
            (exists|i: int| 0 <= i < self.progress().len() && self.progress()[i].0@ == dungeon_id@
                && r == self.progress()[i].1 && forall|j: int| 0 <= j < i ==> self.progress()[j].0@ != dungeon_id@)
            || (r == 0 && forall|i: int| 0 <= i < self.progress().len() ==> self.progress()[i].0@ != dungeon_id@),
    {
        let mut i: usize = 0;
        while i < self.dungeon_progress.len()
            invariant
                i <= self.dungeon_progress@.len(),
                forall|j: int| 0 <= j < i ==> self.dungeon_progress@[j].0@ != dungeon_id@,
            decreases self.dungeon_progress@.len() - i,
        {
            if self.dungeon_progress[i].0 == *dungeon_id {
                assert(self.progress()[i as int].0@ == dungeon_id@);
                return self.dungeon_progress[i].1;
            }
            i += 1;
        }
        0
    }

    pub fn is_at_top_level(&self) -> (b: bool)
        ensures
            b == (self.nav() is ZoneList),
    {
        match self.navigation_page {
            NavigationPage::ZoneList { .. } => true,
            _ => false,
        }
    }

    /// Steps back one view: a zone's detail returns to the list, the dungeon start
    /// screen to its zone. The list itself is left to the caller.
    pub fn go_back(&mut self)
        requires
            old(self).wf(),
        ensures
            final(self).wf(),
            final(self).areas() == old(self).areas(),
            final(self).zone_list() == old(self).zone_list(),
            final(self).map_list() == old(self).map_list(),
            final(self).progress() == old(self).progress(),
            match old(self).nav() {
                NavigationPage::ZoneList { scroll_offset } => final(self).nav() == old(self).nav()
                    && final(self).dirty() == old(self).dirty(),
                NavigationPage::ZoneDetail { .. } => final(self).nav() == (NavigationPage::ZoneList { scroll_offset: 0 })
                    && final(self).dirty(),
                NavigationPage::DungeonSelect { zone_id } => final(self).nav() == (NavigationPage::ZoneDetail { zone_id, scroll_offset: 0 })
                    && final(self).dirty(),
            },
    {
        let next = match &self.navigation_page {
            NavigationPage::ZoneList { .. } => None,
            NavigationPage::ZoneDetail { .. } => Some(NavigationPage::ZoneList { scroll_offset: 0 }),
            NavigationPage::DungeonSelect { zone_id } => Some(NavigationPage::ZoneDetail { zone_id: zone_id.clone(), scroll_offset: 0 }),
        };
        if let Some(n) = next {
            self.navigation_page = n;
            self.needs_full_redraw = true;
        }
    }

    /// Registers the touch areas of the view shown, as drawing lays it out. The zone
    /// list shows four rows from the scroll position, and a row opens its zone when
    /// the zone is unlocked (`unlocked` has one flag per zone). A zone's detail shows
    /// three of its maps from the scroll position, then the dungeon button below as
    /// many rows as the zone has maps (three at most). The dungeon screen has its
    /// enter button.
    pub fn layout(&mut self, unlocked: &Vec<bool>)
        requires
            old(self).wf(),
            unlocked@.len() == old(self).zone_list().len(),
        ensures
            final(self).wf(),
            final(self).nav() == old(self).nav(),
            final(self).zone_list() == old(self).zone_list(),
            final(self).map_list() == old(self).map_list(),
            final(self).progress() == old(self).progress(),
            final(self).dirty() == old(self).dirty(),
            match old(self).nav() {
                NavigationPage::ZoneList { scroll_offset } =>
                    final(self).areas() == zone_list_areas(old(self).zone_list(), unlocked@, scroll_offset as int, 4),
                NavigationPage::ZoneDetail { zone_id, scroll_offset } => {
                    let pos = zone_map_positions(old(self).map_list(), zone_id@, old(self).map_list().len() as int);
                    let maps = zone_map_areas(old(self).map_list(), pos, scroll_offset as int, 3);
                    let shown = if pos.len() < 3 { pos.len() as int } else { 3 };
                    &&& final(self).areas().len() == maps.len() + 1
                    &&& forall|k: int| 0 <= k < maps.len() ==> #[trigger] final(self).areas()[k] == maps[k]
                    &&& final(self).areas()[maps.len() as int].rect == (Rect { x: 10, y: dungeon_button_y(shown) as i32, w: 220, h: 40 })
                    &&& final(self).areas()[maps.len() as int].action matches TouchAreaAction::EnterDungeon(d)
                        && d@ == dungeon_of(old(self).zone_list(), zone_id@)
                },
                NavigationPage::DungeonSelect { .. } => final(self).areas() == seq![TouchArea {
                    rect: Rect { x: 10, y: 248, w: 220, h: 30 },
                    action: TouchAreaAction::StartDungeonCombat,
                }],
            },
    {
        let mut areas: Vec<TouchArea<TouchAreaAction>> = Vec::new();
        match &self.navigation_page {
            NavigationPage::ZoneList { scroll_offset } => {
                let scroll = *scroll_offset;
                let mut idx: usize = 0;
                while idx < 4
                    invariant
                        idx <= 4,
                        unlocked@.len() == self.zones@.len(),
                        areas_wf(areas@),
                        areas@ == zone_list_areas(self.zones@, unlocked@, scroll as int, idx as int),
                    decreases 4 - idx,
                {
                    if scroll < self.zones.len() && idx < self.zones.len() - scroll {
                        let z = scroll + idx;
                        if unlocked[z] {
                            areas.push(TouchArea::new(10, 32 + (idx as i32) * 62, 220, 58,
                                TouchAreaAction::SelectZone(self.zones[z].id.clone())));
                        }
                    }
                    idx += 1;
                }
            },
            NavigationPage::ZoneDetail { zone_id, scroll_offset } => {
                let scroll = *scroll_offset;
                let mut pos: Vec<usize> = Vec::new();
                let mut i: usize = 0;
                while i < self.tamer_maps.len()
                    invariant
                        i <= self.tamer_maps@.len(),
                        pos@.len() == zone_map_positions(self.tamer_maps@, zone_id@, i as int).len(),
                        forall|k: int| 0 <= k < pos@.len() ==> #[trigger] pos@[k] as int
                            == zone_map_positions(self.tamer_maps@, zone_id@, i as int)[k],
                        forall|k: int| 0 <= k < pos@.len() ==> #[trigger] pos@[k] < i,
                    decreases self.tamer_maps@.len() - i,
                {
                    if self.tamer_maps[i].zone_id == *zone_id {
                        pos.push(i);
                    }
                    i += 1;
                }
                let ghost gpos = zone_map_positions(self.tamer_maps@, zone_id@, self.tamer_maps@.len() as int);
                let mut idx: usize = 0;
                while idx < 3
                    invariant
                        idx <= 3,
                        pos@.len() == gpos.len(),
                        forall|k: int| 0 <= k < pos@.len() ==> #[trigger] pos@[k] as int == gpos[k],
                        forall|k: int| 0 <= k < pos@.len() ==> #[trigger] pos@[k] < self.tamer_maps@.len(),
                        areas_wf(areas@),
                        areas@ == zone_map_areas(self.tamer_maps@, gpos, scroll as int, idx as int),
                    decreases 3 - idx,
                {
                    if scroll < pos.len() && idx < pos.len() - scroll {
                        let m = pos[scroll + idx];
                        areas.push(TouchArea::new(10, 48 + (idx as i32) * 46, 220, 42,
                            TouchAreaAction::SelectMap(self.tamer_maps[m].id.clone())));
                    }
                    idx += 1;
                }
                let shown: i32 = if pos.len() < 3 { pos.len() as i32 } else { 3 };
                let dungeon = match find_zone(&self.zones, zone_id) {
                    Some(z) => self.zones[z].dungeon_id.clone(),
                    None => String::new(),
                };
                areas.push(TouchArea::new(10, 48 + shown * 46 + 16, 220, 40, TouchAreaAction::EnterDungeon(dungeon)));
            },
            NavigationPage::DungeonSelect { .. } => {
                areas.push(TouchArea::new(10, 248, 220, 30, TouchAreaAction::StartDungeonCombat));
            },
        }
        self.touch_areas = areas;
    }

    /// Kept for callers that travel by location id; the zone view handles travel.
    pub fn travel_to(&mut self, location_id: u32) -> (r: Result<(), String>)
        ensures
            r is Ok,
            *final(self) == *old(self),
    {
        Ok(())
    }

    /// A tap: the first touch area under it decides. A zone opens its detail, a map
    /// starts an expedition, the dungeon button opens the dungeon's start screen (from
    /// a zone's detail), back steps back, and the enter button starts the zone's
    /// dungeon from floor 1. A tap on no area gives `None`.
    pub fn handle_touch(&mut self, x: i32, y: i32) -> (r: Option<TouchAction>)
        requires
            old(self).wf(),
        ensures
            final(self).wf(),
            final(self).areas() == old(self).areas(),
            final(self).zone_list() == old(self).zone_list(),
            final(self).map_list() == old(self).map_list(),
            final(self).progress() == old(self).progress(),
            match first_touched(old(self).areas(), x as int, y as int, 0) {
                None => r is None && final(self).nav() == old(self).nav(),
                Some(i) => match old(self).areas()[i].action {
                    TouchAreaAction::SelectZone(z) => r == Some(TouchAction::NoAction)
                        && final(self).nav() == (NavigationPage::ZoneDetail { zone_id: z, scroll_offset: 0 }),
                    TouchAreaAction::SelectMap(m) => r == Some(TouchAction::StartExpedition(m))
                        && final(self).nav() == old(self).nav(),
                    TouchAreaAction::EnterDungeon(_) => r == Some(TouchAction::NoAction)
                        && final(self).nav() == (match old(self).nav() {
                            NavigationPage::ZoneDetail { zone_id, .. } => NavigationPage::DungeonSelect { zone_id },
                            other => other,
                        }),
                    TouchAreaAction::Back => r == Some(TouchAction::NoAction) && final(self).nav() == (match old(self).nav() {
                        NavigationPage::ZoneList { scroll_offset } => NavigationPage::ZoneList { scroll_offset },
                        NavigationPage::ZoneDetail { .. } => NavigationPage::ZoneList { scroll_offset: 0 },
                        NavigationPage::DungeonSelect { zone_id } => NavigationPage::ZoneDetail { zone_id, scroll_offset: 0 },
                    }),
                    TouchAreaAction::StartDungeonCombat => final(self).nav() == old(self).nav() && r == Some(
                        match old(self).nav() {
                            NavigationPage::DungeonSelect { zone_id } => match zone_index(old(self).zone_list(), zone_id@, 0) {
                                Some(z) => TouchAction::StartDungeon {
                                    dungeon_id: old(self).zone_list()[z].dungeon_id,
                                    start_floor: 1,
                                },
                                None => TouchAction::NoAction,
                            },
                            _ => TouchAction::NoAction,
                        }),
                },
            },
    {
        let hit = find_touched(&self.touch_areas, x, y);
        let i = match hit {
            Some(i) => i,
            None => return None,
        };
        match &self.touch_areas[i].action {
            TouchAreaAction::SelectZone(zone_id) => {
                self.navigation_page = NavigationPage::ZoneDetail { zone_id: zone_id.clone(), scroll_offset: 0 };
                self.needs_full_redraw = true;
                Some(TouchAction::NoAction)
            },
            TouchAreaAction::SelectMap(map_id) => Some(TouchAction::StartExpedition(map_id.clone())),
            TouchAreaAction::EnterDungeon(_) => {
                let next = match &self.navigation_page {
                    NavigationPage::ZoneDetail { zone_id, .. } => Some(NavigationPage::DungeonSelect { zone_id: zone_id.clone() }),
                    _ => None,
                };
                if let Some(n) = next {
                    self.navigation_page = n;
                    self.needs_full_redraw = true;
                }
                Some(TouchAction::NoAction)
            },
            TouchAreaAction::Back => {
                self.go_back();
                Some(TouchAction::NoAction)
            },
            TouchAreaAction::StartDungeonCombat => {
                if let NavigationPage::DungeonSelect { zone_id } = &self.navigation_page {
                    if let Some(z) = find_zone(&self.zones, zone_id) {
                        return Some(TouchAction::StartDungeon {
                            dungeon_id: self.zones[z].dungeon_id.clone(),
                            start_floor: 1,
                        });
                    }
                }
                Some(TouchAction::NoAction)
            },
        }
    }
}

proof fn lemma_zone_index_in_range(zones: Seq<ZoneEntry>, id: Seq<char>, from: int)
    ensures
        zone_index(zones, id, from) matches Some(i) ==> from <= i < zones.len(),
    decreases zones.len() - from,
{
    if 0 <= from < zones.len() && zones[from].id@ != id {
        lemma_zone_index_in_range(zones, id, from + 1);
    }
}

/// Index of the first zone with the given id.
pub fn find_zone(zones: &Vec<ZoneEntry>, id: &String) -> (r: Option<usize>)
    ensures
        r is None <==> zone_index(zones@, id@, 0) is None,
        r matches Some(i) ==> zone_index(zones@, id@, 0) == Some(i as int),
        r matches Some(i) ==> i < zones@.len(),
        zone_index(zones@, id@, 0) matches Some(i) ==> 0 <= i < zones@.len(),
{
    proof {
        lemma_zone_index_in_range(zones@, id@, 0);
    }
    let mut i: usize = 0;
    while i < zones.len()
        invariant
            i <= zones@.len(),
            zone_index(zones@, id@, i as int) == zone_index(zones@, id@, 0),
        decreases zones@.len() - i,
    {
        if zones[i].id == *id {
            return Some(i);
        }
        i += 1;
    }
    None
}

impl MapPage {
    /// The current view was drawn in full.
    pub fn finish_draw(&mut self)
        ensures
            !final(self).dirty(),
            final(self).wf() == old(self).wf(),
            final(self).nav() == old(self).nav(),
            final(self).areas() == old(self).areas(),
            final(self).zone_list() == old(self).zone_list(),
            final(self).map_list() == old(self).map_list(),
            final(self).progress() == old(self).progress(),
    {
        self.needs_full_redraw = false;
    }
}

impl Page for MapPage {
    /// The map stays open until the player leaves it.
    fn update(&mut self) -> (alive: bool)
        ensures
            alive,
            *final(self) == *old(self),
    {
        true
    }

    fn mark_dirty(&mut self)
        ensures
            final(self).dirty(),
            final(self).wf() == old(self).wf(),
            final(self).nav() == old(self).nav(),
            final(self).areas() == old(self).areas(),
            final(self).zone_list() == old(self).zone_list(),
            final(self).map_list() == old(self).map_list(),
            final(self).progress() == old(self).progress(),
    {
        self.needs_full_redraw = true;
    }

    fn needs_full_redraw(&self) -> (b: bool)
        ensures
            b == self.dirty(),
    {
        self.needs_full_redraw
    }
}

} // verus!
