//! The monster collection: zones with their species and which ones were captured.

use vstd::prelude::*;
use crate::element::Element;
use crate::geometry::{Rect, eg_contains};
use crate::page::Page;
use crate::touch::{TouchArea, areas_wf, first_touched};

verus! {

/// What a tap on the collection asks for.
#[derive(Debug, PartialEq, Eq)]
pub enum CollectionAction {
    NoAction,
    Back,
    SelectZone(String),
}

/// A zone of the collection.
pub struct ZoneCollectionData {
    pub zone_id: String,
    pub zone_name: String,
    pub is_unlocked: bool,
    pub species: Vec<SpeciesCollectionData>,
    pub level_min: u8,
}

/// A species of a zone.
pub struct SpeciesCollectionData {
    pub species_id: String,
    pub name: String,
    pub element: Element,
    pub is_captured: bool,
}

/// Whether `id` is among the captured species.
pub open spec fn captured_in(captured: Seq<String>, id: Seq<char>) -> bool {
    exists|i: int| 0 <= i < captured.len() && (#[trigger] captured[i])@ == id
}

/// Number of captured species in a list.
pub open spec fn captured_count(species: Seq<SpeciesCollectionData>) -> int
    decreases species.len(),
{
    if species.len() == 0 {
        0
    } else {
        captured_count(species.drop_last()) + if species.last().is_captured { 1int } else { 0int }
    }
}

/// Number of species over all zones.
pub open spec fn species_total(zones: Seq<ZoneCollectionData>) -> int
    decreases zones.len(),
{
    if zones.len() == 0 { 0 } else { species_total(zones.drop_last()) + zones.last().species@.len() }
}

/// Number of captured species over all zones.
pub open spec fn captured_total(zones: Seq<ZoneCollectionData>) -> int
    decreases zones.len(),
{
    if zones.len() == 0 { 0 } else { captured_total(zones.drop_last()) + captured_count(zones.last().species@) }
}

/// Top of zone row `k` scrolled by `scroll`.
pub open spec fn zone_top(scroll: int, k: int) -> int {
    32 - scroll + 65 * k
}

/// Touch areas of the first `k` zones: an unlocked zone whose row starts between 12
/// and 272 opens it.
pub open spec fn collection_areas(zones: Seq<ZoneCollectionData>, scroll: int, k: int) -> Seq<TouchArea<Seq<char>>>
    decreases k,
{
    if k <= 0 {
        seq![]
    } else {
        let prev = collection_areas(zones, scroll, k - 1);
        let y = zone_top(scroll, k - 1);
        if 12 <= y < 272 && zones[k - 1].is_unlocked {
            prev.push(TouchArea { rect: Rect { x: 10, y: y as i32, w: 220, h: 62 }, action: zones[k - 1].zone_id@ })
        } else {
            prev
        }
    }
}

/// Scroll position after a swipe: up shows more below, by 130 and up to the end; down
/// shows more above, by 130 and down to the top.
pub open spec fn swiped(scroll: int, n: int, is_up: bool) -> int {
    if is_up {
        let max = n * 65 - 180;
        if scroll < max { if scroll + 130 < max { scroll + 130 } else { max } } else { scroll }
    } else {
        if scroll > 0 { if scroll - 130 > 0 { scroll - 130 } else { 0 } } else { scroll }
    }
}

proof fn lemma_count_le(species: Seq<SpeciesCollectionData>)
    ensures
        0 <= captured_count(species) <= species.len(),
    decreases species.len(),
{
    if species.len() > 0 {
        lemma_count_le(species.drop_last());
    }
}

/// The collection screen.
pub struct CollectionPage {
    total_captured: usize,
    total_species: usize,
    zones: Vec<ZoneCollectionData>,
    scroll_offset: i32,
    back_area: Option<Rect>,
    zone_areas: Vec<TouchArea<String>>,
    dirty: bool,
}

/// Whether `id` is among the captured species.
pub fn is_captured(captured: &Vec<String>, id: &String) -> (b: bool)
    ensures
        b == captured_in(captured@, id@),
{
    let mut i: usize = 0;
    while i < captured.len()
        invariant
            i <= captured@.len(),
            forall|j: int| 0 <= j < i ==> (#[trigger] captured@[j])@ != id@,
        decreases captured@.len() - i,
    {
        if captured[i] == *id {
            return true;
        }
        i += 1;
    }
    false
}

impl CollectionPage {
    pub closed spec fn zone_list(&self) -> Seq<ZoneCollectionData> {
        self.zones@
    }

    pub closed spec fn totals(&self) -> (int, int) {
        (self.total_captured as int, self.total_species as int)
    }

    pub closed spec fn scroll(&self) -> int {
        self.scroll_offset as int
    }

    pub closed spec fn areas(&self) -> Seq<TouchArea<Seq<char>>> {
        Seq::new(self.zone_areas@.len(), |i: int| TouchArea { rect: self.zone_areas@[i].rect, action: self.zone_areas@[i].action@ })
    }

    pub closed spec fn back(&self) -> Option<Rect> {
        self.back_area
    }

    pub closed spec fn wf(&self) -> bool {
        &&& areas_wf(self.zone_areas@)
        &&& self.zones@.len() * 65 + 200 <= i32::MAX
        &&& (self.back_area matches Some(r) ==> r.wf())
        &&& 0 <= self.scroll_offset <= self.zones@.len() * 65
    }

    /// The zones with each species marked captured when its id is in `captured`, and
    /// the totals counted.
    pub fn new(zones: Vec<ZoneCollectionData>, captured: &Vec<String>) -> (p: Self)
        requires
            zones@.len() * 65 + 200 <= i32::MAX,
            species_total(zones@) <= usize::MAX,
        ensures
            p.wf(),
            p.scroll() == 0,
            p.back() is None,
            p.areas().len() == 0,
            p.zone_list().len() == zones@.len(),
            forall|i: int| 0 <= i < zones@.len() ==> zone_marked(zones@[i], #[trigger] p.zone_list()[i], captured@),
            p.totals() == (captured_total(p.zone_list()), species_total(zones@)),
    {
        let mut zones = zones;
        let ghost orig = zones@;
        let n = zones.len();
        let mut total_captured: usize = 0;
        let mut total_species: usize = 0;
        let mut i: usize = 0;
        while i < n
            invariant
                n == zones@.len(),
                n == orig.len(),
                i <= n,
                species_total(orig) <= usize::MAX,
                forall|k: int| 0 <= k < i ==> zone_marked(orig[k], #[trigger] zones@[k], captured@),
                forall|k: int| i <= k < n ==> #[trigger] zones@[k] == orig[k],
                total_captured == captured_total(zones@.take(i as int)),
                total_species == species_total(orig.take(i as int)),
                total_captured <= total_species,
            decreases n - i,
        {
            proof {
                lemma_species_prefix(orig, i as int + 1);
                assert(orig.take(i as int + 1).drop_last() =~= orig.take(i as int));
                assert(orig.take(i as int + 1).last() == orig[i as int]);
            }
            let ghost before = zones@;
            let here = mark_zone(&mut zones[i], captured);
            assert(zone_marked(orig[i as int], zones@[i as int], captured@));
            assert(zones@[i as int].species@.len() == orig[i as int].species@.len());
            proof {
                lemma_count_le(zones@[i as int].species@);
            }
            total_captured = total_captured + here;
            total_species = total_species + zones[i].species.len();
            proof {
                assert(zones@.take(i as int + 1).drop_last() =~= zones@.take(i as int));
                assert(zones@.take(i as int) =~= before.take(i as int));
            }
            i += 1;
        }
        proof {
            assert(zones@.take(n as int) =~= zones@);
            assert(orig.take(n as int) =~= orig);
        }
        CollectionPage {
            total_captured,
            total_species,
            zones,
            scroll_offset: 0,
            back_area: None,
            zone_areas: Vec::new(),
            dirty: true,
        }
    }
}

impl CollectionPage {
    pub fn total_captured(&self) -> (n: usize)
        ensures
            n == self.totals().0,
    {
        self.total_captured
    }

    pub fn total_species(&self) -> (n: usize)
        ensures
            n == self.totals().1,
    {
        self.total_species
    }

    pub fn scroll_offset(&self) -> (o: i32)
        ensures
            o == self.scroll(),
    {
        self.scroll_offset
    }

    pub fn zone(&self, i: usize) -> (z: &ZoneCollectionData)
        requires
            i < self.zone_list().len(),
        ensures
            *z == self.zone_list()[i as int],
    {
        &self.zones[i]
    }

    pub fn zone_count(&self) -> (n: usize)
        ensures
            n == self.zone_list().len(),
    {
        self.zones.len()
    }

    /// Registers the touch areas as drawing lays the zones out: each unlocked zone whose
    /// row starts between 12 and 272 opens it; there is no back button.
    pub fn layout(&mut self)
        requires
            old(self).wf(),
        ensures
            final(self).wf(),
            final(self).areas() == collection_areas(old(self).zone_list(), old(self).scroll(), old(self).zone_list().len() as int),
            final(self).back() is None,
            final(self).zone_list() == old(self).zone_list(),
            final(self).scroll() == old(self).scroll(),
            final(self).totals() == old(self).totals(),
    {
        let mut areas: Vec<TouchArea<String>> = Vec::new();
        let n = self.zones.len();
        let mut k: usize = 0;
        while k < n
            invariant
                n == self.zones@.len(),
                k <= n,
                self.wf(),
                areas_wf(areas@),
                Seq::new(areas@.len(), |i: int| TouchArea { rect: areas@[i].rect, action: areas@[i].action@ })
                    == collection_areas(self.zones@, self.scroll_offset as int, k as int),
            decreases n - k,
        {
            let y: i32 = 32 - self.scroll_offset + 65 * (k as i32);
            let ghost prev = areas@;
            if y >= 12 && y < 272 && self.zones[k].is_unlocked {
                areas.push(TouchArea::new(10, y, 220, 62, self.zones[k].zone_id.clone()));
            }
            assert(Seq::new(areas@.len(), |i: int| TouchArea { rect: areas@[i].rect, action: areas@[i].action@ })
                =~= collection_areas(self.zones@, self.scroll_offset as int, k as int + 1));
            k += 1;
        }
        self.zone_areas = areas;
        self.back_area = None;
        self.dirty = false;
    }

    /// A tap on the back button goes back; one on a zone's row opens that zone.
    pub fn handle_touch(&self, x: i32, y: i32) -> (a: CollectionAction)
        requires
            self.wf(),
        ensures
            self.back() matches Some(r) && r.has(x as int, y as int) ==> a == CollectionAction::Back,
            !(self.back() matches Some(r) && r.has(x as int, y as int)) ==> match first_touched(self.areas(), x as int, y as int, 0) {
                Some(i) => a matches CollectionAction::SelectZone(z) && z@ == self.areas()[i].action,
                None => a == CollectionAction::NoAction,
            },
    {
        if let Some(r) = self.back_area {
            if eg_contains(r, x, y) {
                return CollectionAction::Back;
            }
        }
        proof {
            lemma_first_touched_view(self.zone_areas@, x as int, y as int, 0);
        }
        let mut i: usize = 0;
        while i < self.zone_areas.len()
            invariant
                i <= self.zone_areas@.len(),
                self.wf(),
                !(self.back() matches Some(r) && r.has(x as int, y as int)),
                first_touched(self.zone_areas@, x as int, y as int, i as int)
                    == first_touched(self.zone_areas@, x as int, y as int, 0),
                first_touched(self.areas(), x as int, y as int, 0)
                    == first_touched(self.zone_areas@, x as int, y as int, 0),
            decreases self.zone_areas@.len() - i,
        {
            assert(self.zone_areas@[i as int].rect.wf());
            if eg_contains(self.zone_areas[i].rect, x, y) {
                assert(self.areas()[i as int].action == self.zone_areas@[i as int].action@);
                return CollectionAction::SelectZone(self.zone_areas[i].action.clone());
            }
            i += 1;
        }
        CollectionAction::NoAction
    }

    /// A swipe up shows more below (130 pixels, up to the end of the list); a swipe
    /// down shows more above (130 pixels, up to the top).
    pub fn handle_swipe(&mut self, is_up: bool)
        requires
            old(self).wf(),
        ensures
            final(self).wf(),
            final(self).scroll() == swiped(old(self).scroll(), old(self).zone_list().len() as int, is_up),
            final(self).zone_list() == old(self).zone_list(),
            final(self).areas() == old(self).areas(),
            final(self).totals() == old(self).totals(),
    {
        if is_up {
            let max_scroll: i32 = (self.zones.len() as i32) * 65 - 180;
            if self.scroll_offset < max_scroll {
                let next = self.scroll_offset + 130;
                self.scroll_offset = if next < max_scroll { next } else { max_scroll };
                self.dirty = true;
            }
        } else {
            if self.scroll_offset > 0 {
                let next = self.scroll_offset - 130;
                self.scroll_offset = if next > 0 { next } else { 0 };
                self.dirty = true;
            }
        }
    }
}

proof fn lemma_first_touched_view(areas: Seq<TouchArea<String>>, x: int, y: int, from: int)
    ensures
        first_touched(areas, x, y, from) == first_touched(
            Seq::new(areas.len(), |i: int| TouchArea { rect: areas[i].rect, action: areas[i].action@ }), x, y, from),
    decreases areas.len() - from,
{
    if 0 <= from < areas.len() {
        lemma_first_touched_view(areas, x, y, from + 1);
    }
}

impl CollectionPage {
    /// A full redraw is pending.
    pub closed spec fn redraw_pending(&self) -> bool {
        self.dirty
    }
}

impl Page for CollectionPage {
    fn update(&mut self) -> (alive: bool)
        ensures
            alive,
            *final(self) == *old(self),
    {
        true
    }

    fn mark_dirty(&mut self)
        ensures
            final(self).redraw_pending(),
    {
        self.dirty = true;
    }

    fn needs_full_redraw(&self) -> (b: bool)
        ensures
            b == self.redraw_pending(),
    {
        self.dirty
    }
}

/// `b` is zone `a` with each species marked captured when its id is in `captured`.
pub open spec fn zone_marked(a: ZoneCollectionData, b: ZoneCollectionData, captured: Seq<String>) -> bool {
    &&& b.zone_id == a.zone_id
    &&& b.zone_name == a.zone_name
    &&& b.is_unlocked == a.is_unlocked
    &&& b.level_min == a.level_min
    &&& b.species@.len() == a.species@.len()
    &&& forall|j: int| 0 <= j < a.species@.len() ==> {
        &&& (#[trigger] b.species@[j]).species_id == a.species@[j].species_id
        &&& b.species@[j].name == a.species@[j].name
        &&& b.species@[j].element == a.species@[j].element
        &&& b.species@[j].is_captured == captured_in(captured, a.species@[j].species_id@)
    }
}

proof fn lemma_species_prefix(zones: Seq<ZoneCollectionData>, i: int)
    requires
        0 <= i <= zones.len(),
    ensures
        0 <= species_total(zones.take(i)) <= species_total(zones),
    decreases zones.len(),
{
    if zones.len() > 0 {
        if i == zones.len() {
            assert(zones.take(i) =~= zones);
            lemma_species_prefix(zones.drop_last(), i - 1);
        } else {
            assert(zones.drop_last().take(i) =~= zones.take(i));
            lemma_species_prefix(zones.drop_last(), i);
        }
    } else {
        assert(zones.take(i) =~= zones);
    }
}

/// Marks each species of the zone captured or not; returns how many are.
fn mark_zone(zone: &mut ZoneCollectionData, captured: &Vec<String>) -> (here: usize)
    ensures
        zone_marked(*old(zone), *final(zone), captured@),
        here == captured_count(final(zone).species@),
{
    let m = zone.species.len();
    let ghost orig = zone.species@;
    let mut j: usize = 0;
    let mut here: usize = 0;
    while j < m
        invariant
            m == zone.species@.len(),
            m == orig.len(),
            j <= m,
            orig == old(zone).species@,
            zone.zone_id == old(zone).zone_id,
            zone.zone_name == old(zone).zone_name,
            zone.is_unlocked == old(zone).is_unlocked,
            zone.level_min == old(zone).level_min,
            forall|k: int| 0 <= k < j ==> {
                &&& (#[trigger] zone.species@[k]).species_id == orig[k].species_id
                &&& zone.species@[k].name == orig[k].name
                &&& zone.species@[k].element == orig[k].element
                &&& zone.species@[k].is_captured == captured_in(captured@, orig[k].species_id@)
            },
            forall|k: int| j <= k < m ==> #[trigger] zone.species@[k] == orig[k],
            here == captured_count(zone.species@.take(j as int)),
            here <= j,
        decreases m - j,
    {
        let c = is_captured(captured, &zone.species[j].species_id);
        let ghost before = zone.species@;
        zone.species[j].is_captured = c;
        proof {
            assert(zone.species@.take(j as int + 1).drop_last() =~= zone.species@.take(j as int));
            assert(zone.species@.take(j as int) =~= before.take(j as int));
        }
        if c {
            here += 1;
        }
        j += 1;
    }
    assert(zone.species@.take(m as int) =~= zone.species@);
    here
}

} // verus!
