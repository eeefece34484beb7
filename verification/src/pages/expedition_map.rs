//! Choosing an expedition map: zone tabs along the top and the chosen zone's maps.

use vstd::prelude::*;
use crate::element::Element;
use crate::geometry::Rect;
use crate::page::Page;
use crate::touch::{TouchArea, areas_wf, first_touched, find_touched};

verus! {

/// What a tap on the map choice asks for.
#[derive(Debug, PartialEq, Eq)]
pub enum ExpeditionMapAction {
    NoAction,
    Back,
    SelectMap(String),
}

/// A zone tab.
pub struct ZoneDisplayData {
    pub id: String,
    pub name: String,
    pub level_range: (u8, u8),
    pub is_unlocked: bool,
}

/// A map of a zone.
pub struct MapDisplayData {
    pub id: String,
    pub name: String,
    pub zone_id: String,
    pub level_range: (u8, u8),
    pub required_elements: Vec<Element>,
    pub capturable_count: usize,
}

/// Positions of the maps, among the first `k`, that belong to zone `zone_id`.
pub open spec fn maps_in_zone(maps: Seq<MapDisplayData>, zone_id: Seq<char>, k: int) -> Seq<usize>
    decreases k,
{
    if k <= 0 {
        seq![]
    } else {
        let prev = maps_in_zone(maps, zone_id, k - 1);
        if maps[k - 1].zone_id@ == zone_id { prev.push((k - 1) as usize) } else { prev }
    }
}

/// The first map row, from `from` on, that holds the tap and stands for one of the
/// `n` maps of the zone.
pub open spec fn first_map_row(areas: Seq<TouchArea<usize>>, n: int, x: int, y: int, from: int) -> Option<int>
    decreases areas.len() - from,
{
    if from < 0 || from >= areas.len() {
        None
    } else if areas[from].rect.has(x, y) && (areas[from].action as int) < n {
        Some(from)
    } else {
        first_map_row(areas, n, x, y, from + 1)
    }
}

/// Tabs of the first four zones.
pub open spec fn zone_tabs(n: int) -> Seq<TouchArea<usize>> {
    Seq::new(if n < 4 { n as nat } else { 4 }, |i: int| TouchArea { rect: Rect { x: (10 + 56 * i) as i32, y: 28, w: 52, h: 24 }, action: i as usize })
}

/// Rows of the first four maps of the zone.
pub open spec fn map_rows(n: int) -> Seq<TouchArea<usize>> {
    Seq::new(if n < 4 { n as nat } else { 4 }, |i: int| TouchArea { rect: Rect { x: 10, y: (72 + 52 * i) as i32, w: 220, h: 48 }, action: i as usize })
}

/// The map choice screen.
pub struct ExpeditionMapPage {
    zones: Vec<ZoneDisplayData>,
    maps: Vec<MapDisplayData>,
    selected_zone_index: usize,
    selected_map_index: Option<usize>,
    scroll_offset: usize,
    dirty: bool,
    back_area: Option<Rect>,
    zone_areas: Vec<TouchArea<usize>>,
    map_areas: Vec<TouchArea<usize>>,
}

impl ExpeditionMapPage {
    pub closed spec fn zone_list(&self) -> Seq<ZoneDisplayData> {
        self.zones@
    }

    pub closed spec fn map_list(&self) -> Seq<MapDisplayData> {
        self.maps@
    }

    pub closed spec fn zone_choice(&self) -> usize {
        self.selected_zone_index
    }

    pub closed spec fn map_choice(&self) -> Option<usize> {
        self.selected_map_index
    }

    pub closed spec fn tabs(&self) -> Seq<TouchArea<usize>> {
        self.zone_areas@
    }

    pub closed spec fn rows(&self) -> Seq<TouchArea<usize>> {
        self.map_areas@
    }

    /// Positions of the maps of the chosen zone.
    pub open spec fn zone_maps(&self) -> Seq<usize> {
        if self.zone_list().len() == 0 {
            seq![]
        } else {
            maps_in_zone(self.map_list(), self.zone_list()[self.zone_choice() as int].id@, self.map_list().len() as int)
        }
    }

    pub closed spec fn wf(&self) -> bool {
        &&& areas_wf(self.zone_areas@)
        &&& areas_wf(self.map_areas@)
        &&& (self.zones@.len() > 0 ==> self.selected_zone_index < self.zones@.len())
    }

    /// The first zone chosen, no map yet, nothing laid out.
    pub fn new(zones: Vec<ZoneDisplayData>, maps: Vec<MapDisplayData>) -> (p: Self)
        ensures
            p.wf(),
            p.zone_list() == zones@,
            p.map_list() == maps@,
            p.zone_choice() == 0,
            p.map_choice() is None,
            p.tabs().len() == 0,
            p.rows().len() == 0,
    {
        ExpeditionMapPage {
            zones,
            maps,
            selected_zone_index: 0,
            selected_map_index: None,
            scroll_offset: 0,
            dirty: true,
            back_area: None,
            zone_areas: Vec::new(),
            map_areas: Vec::new(),
        }
    }

    pub fn selected_zone_index(&self) -> (i: usize)
        ensures
            i == self.zone_choice(),
    {
        self.selected_zone_index
    }

    /// Positions of the maps of the chosen zone.
    pub fn map_indices_for_selected_zone(&self) -> (v: Vec<usize>)
        requires
            self.wf(),
        ensures
            v@ == self.zone_maps(),
            forall|k: int| 0 <= k < v@.len() ==> (#[trigger] v@[k]) < self.map_list().len(),
    {
        let mut v: Vec<usize> = Vec::new();
        if self.zones.len() == 0 {
            return v;
        }
        let zone_id = &self.zones[self.selected_zone_index].id;
        let mut i: usize = 0;
        while i < self.maps.len()
            invariant
                i <= self.maps@.len(),
                self.wf(),
                self.zones@.len() > 0,
                *zone_id == self.zones@[self.selected_zone_index as int].id,
                v@ == maps_in_zone(self.maps@, zone_id@, i as int),
                forall|k: int| 0 <= k < v@.len() ==> (#[trigger] v@[k]) < i,
            decreases self.maps@.len() - i,
        {
            if self.maps[i].zone_id == *zone_id {
                v.push(i);
            }
            i += 1;
        }
        v
    }

    /// Registers the zone tabs and the rows of the chosen zone's first four maps, as
    /// drawing lays them out.
    pub fn layout(&mut self)
        requires
            old(self).wf(),
        ensures
            final(self).wf(),
            final(self).tabs() == zone_tabs(old(self).zone_list().len() as int),
            final(self).rows() == map_rows(old(self).zone_maps().len() as int),
            final(self).zone_list() == old(self).zone_list(),
            final(self).map_list() == old(self).map_list(),
            final(self).zone_choice() == old(self).zone_choice(),
            final(self).map_choice() == old(self).map_choice(),
    {
        let mut tabs: Vec<TouchArea<usize>> = Vec::new();
        let mut i: usize = 0;
        while i < 4 && i < self.zones.len()
            invariant
                i <= 4,
                i <= self.zones@.len(),
                tabs@.len() == i,
                forall|k: int| 0 <= k < i ==> #[trigger] tabs@[k] == zone_tabs(self.zones@.len() as int)[k],
                areas_wf(tabs@),
            decreases 4 - i,
        {
            tabs.push(TouchArea::new(10 + (i as i32) * 56, 28, 52, 24, i));
            i += 1;
        }
        assert(tabs@ =~= zone_tabs(self.zones@.len() as int));
        let n = self.map_indices_for_selected_zone().len();
        let mut rows: Vec<TouchArea<usize>> = Vec::new();
        let mut k: usize = 0;
        while k < 4 && k < n
            invariant
                k <= 4,
                k <= n,
                rows@.len() == k,
                forall|j: int| 0 <= j < k ==> #[trigger] rows@[j] == map_rows(n as int)[j],
                areas_wf(rows@),
            decreases 4 - k,
        {
            rows.push(TouchArea::new(10, 72 + (k as i32) * 52, 220, 48, k));
            k += 1;
        }
        assert(rows@ =~= map_rows(n as int));
        self.zone_areas = tabs;
        self.map_areas = rows;
    }

    /// A zone tab chooses that zone when it is unlocked (and forgets the chosen map);
    /// otherwise a row of the chosen zone's maps selects that map.
    pub fn handle_touch(&mut self, x: i32, y: i32) -> (a: ExpeditionMapAction)
        requires
            old(self).wf(),
        ensures
            final(self).wf(),
            final(self).tabs() == old(self).tabs(),
            final(self).rows() == old(self).rows(),
            final(self).zone_list() == old(self).zone_list(),
            final(self).map_list() == old(self).map_list(),
            match first_touched(old(self).tabs(), x as int, y as int, 0) {
                Some(t) => {
                    let i = old(self).tabs()[t].action as int;
                    &&& a == ExpeditionMapAction::NoAction
                    &&& if i < old(self).zone_list().len() && old(self).zone_list()[i].is_unlocked {
                        &&& final(self).zone_choice() == i
                        &&& final(self).map_choice() is None
                        &&& final(self).redraw_pending()
                    } else {
                        *final(self) == *old(self)
                    }
                },
                None => {
                    &&& *final(self) == *old(self)
                    &&& match first_map_row(old(self).rows(), old(self).zone_maps().len() as int, x as int, y as int, 0) {
                        Some(r) => a matches ExpeditionMapAction::SelectMap(id)
                            && id == old(self).map_list()[old(self).zone_maps()[old(self).rows()[r].action as int] as int].id,
                        None => a == ExpeditionMapAction::NoAction,
                    }
                },
            },
    {
        if let Some(t) = find_touched(&self.zone_areas, x, y) {
            let i = self.zone_areas[t].action;
            if i < self.zones.len() && self.zones[i].is_unlocked {
                self.selected_zone_index = i;
                self.selected_map_index = None;
                self.dirty = true;
            }
            return ExpeditionMapAction::NoAction;
        }
        let indices = self.map_indices_for_selected_zone();
        let mut r: usize = 0;
        while r < self.map_areas.len()
            invariant
                r <= self.map_areas@.len(),
                self.wf(),
                self == old(self),
                first_touched(self.zone_areas@, x as int, y as int, 0) is None,
                indices@ == self.zone_maps(),
                forall|k: int| 0 <= k < indices@.len() ==> (#[trigger] indices@[k]) < self.map_list().len(),
                first_map_row(self.map_areas@, indices@.len() as int, x as int, y as int, r as int)
                    == first_map_row(self.map_areas@, indices@.len() as int, x as int, y as int, 0),
            decreases self.map_areas@.len() - r,
        {
            if self.map_areas[r].rect.contains(x, y) && self.map_areas[r].action < indices.len() {
                let m = indices[self.map_areas[r].action];
                return ExpeditionMapAction::SelectMap(self.maps[m].id.clone());
            }
            r += 1;
        }
        ExpeditionMapAction::NoAction
    }
}

impl ExpeditionMapPage {
    /// A full redraw is pending.
    pub closed spec fn redraw_pending(&self) -> bool {
        self.dirty
    }

    /// The page was drawn in full.
    pub fn finish_draw(&mut self)
        ensures
            !final(self).redraw_pending(),
            final(self).wf() == old(self).wf(),
            final(self).tabs() == old(self).tabs(),
            final(self).rows() == old(self).rows(),
            final(self).zone_list() == old(self).zone_list(),
            final(self).map_list() == old(self).map_list(),
            final(self).zone_choice() == old(self).zone_choice(),
            final(self).map_choice() == old(self).map_choice(),
    {
        self.dirty = false;
    }
}

impl Page for ExpeditionMapPage {
    fn update(&mut self) -> (alive: bool)
        ensures
            alive,
            *final(self) == *old(self),
    {
        true
    }

    fn mark_dirty(&mut self)
        ensures
            final(self).redraw_pending(),
            final(self).wf() == old(self).wf(),
            final(self).tabs() == old(self).tabs(),
            final(self).rows() == old(self).rows(),
            final(self).zone_list() == old(self).zone_list(),
            final(self).map_list() == old(self).map_list(),
            final(self).zone_choice() == old(self).zone_choice(),
            final(self).map_choice() == old(self).map_choice(),
    {
        self.dirty = true;
    }

    fn needs_full_redraw(&self) -> (b: bool)
        ensures
            b == self.redraw_pending(),
    {
        self.dirty
    }
}

} // verus!
