//! The monster list: the player's monsters, or a zone's species with the owned ones
//! first, scrolled by swipes.

use vstd::prelude::*;
use crate::geometry::Rect;
use crate::order::{stable_order, stably_sorted, take_in_order};
use crate::page::Page;
use crate::touch::{TouchArea, areas_wf, first_touched, find_touched};

verus! {

/// What a tap on the list asks for.
#[derive(Clone, Copy, Debug, PartialEq, Eq, Structural)]
pub enum MonsterListAction {
    NoAction,
    Select(usize),
    Back,
}

/// A row of the list.
pub struct ListEntry {
    pub species_id: String,
    pub is_in_team: bool,
    pub is_owned: bool,
    /// Position of the monster among the player's monsters, when owned.
    pub monster_index: Option<usize>,
}

/// Whether `id` is one of `ids`.
pub open spec fn listed(ids: Seq<String>, id: Seq<char>) -> bool {
    exists|i: int| 0 <= i < ids.len() && (#[trigger] ids[i])@ == id
}

/// Whether `id` is one of `ids`.
pub fn contains_id(ids: &Vec<String>, id: &String) -> (b: bool)
    ensures
        b == listed(ids@, id@),
{
    let mut i: usize = 0;
    while i < ids.len()
        invariant
            i <= ids@.len(),
            forall|j: int| 0 <= j < i ==> (#[trigger] ids@[j])@ != id@,
        decreases ids@.len() - i,
    {
        if ids[i] == *id {
            return true;
        }
        i += 1;
    }
    false
}

/// Index of the first of `ids`, from `from` on, equal to `id`.
pub open spec fn first_index(ids: Seq<String>, id: Seq<char>, from: int) -> Option<int>
    decreases ids.len() - from,
{
    if from < 0 || from >= ids.len() {
        None
    } else if ids[from]@ == id {
        Some(from)
    } else {
        first_index(ids, id, from + 1)
    }
}

proof fn lemma_first_index_range(ids: Seq<String>, id: Seq<char>, from: int)
    ensures
        first_index(ids, id, from) matches Some(i) ==> from <= i < ids.len(),
    decreases ids.len() - from,
{
    if 0 <= from < ids.len() && ids[from]@ != id {
        lemma_first_index_range(ids, id, from + 1);
    }
}

/// Index of the first of `ids` equal to `id`.
pub fn find_index(ids: &Vec<String>, id: &String) -> (r: Option<usize>)
    ensures
        r is None <==> first_index(ids@, id@, 0) is None,
        r matches Some(i) ==> first_index(ids@, id@, 0) == Some(i as int) && i < ids@.len(),
        first_index(ids@, id@, 0) matches Some(i) ==> 0 <= i < ids@.len(),
{
    proof {
        lemma_first_index_range(ids@, id@, 0);
    }
    let mut i: usize = 0;
    while i < ids.len()
        invariant
            i <= ids@.len(),
            first_index(ids@, id@, i as int) == first_index(ids@, id@, 0),
        decreases ids@.len() - i,
    {
        if ids[i] == *id {
            return Some(i);
        }
        i += 1;
    }
    None
}

/// One of the player's monsters, as the list knows it.
pub struct OwnedMonster {
    pub id: String,
    pub species_id: String,
}

/// Ids of the monsters, in order.
pub open spec fn ids_of(ms: Seq<OwnedMonster>) -> Seq<String> {
    ms.map_values(|m: OwnedMonster| m.id)
}

/// Species of the monsters, in order.
pub open spec fn species_of(ms: Seq<OwnedMonster>) -> Seq<String> {
    ms.map_values(|m: OwnedMonster| m.species_id)
}

/// Position of the first of `ms` of species `species`.
pub fn find_species(ms: &Vec<OwnedMonster>, species: &String) -> (r: Option<usize>)
    ensures
        r is None <==> first_index(species_of(ms@), species@, 0) is None,
        r matches Some(i) ==> first_index(species_of(ms@), species@, 0) == Some(i as int) && i < ms@.len(),
        first_index(species_of(ms@), species@, 0) matches Some(i) ==> 0 <= i < ms@.len(),
{
    proof {
        lemma_first_index_range(species_of(ms@), species@, 0);
    }
    let mut i: usize = 0;
    while i < ms.len()
        invariant
            i <= ms@.len(),
            first_index(species_of(ms@), species@, i as int) == first_index(species_of(ms@), species@, 0),
        decreases ms@.len() - i,
    {
        if ms[i].species_id == *species {
            return Some(i);
        }
        i += 1;
    }
    None
}

/// Sort rank of a row: owned team members, then other owned monsters, then the rest.
pub open spec fn rank(e: ListEntry) -> u32 {
    if e.is_owned && e.is_in_team { 0 } else if e.is_owned { 1 } else { 2 }
}

pub open spec fn ranks(es: Seq<ListEntry>) -> Seq<u32> {
    Seq::new(es.len(), |i: int| rank(es[i]))
}

/// The row of a zone species: the first player monster of that species when there is
/// one, else a species not yet owned.
pub open spec fn zone_row(species: String, player_species: Seq<String>, player_ids: Seq<String>, team_ids: Seq<String>, e: ListEntry) -> bool {
    &&& e.species_id == species
    &&& match first_index(player_species, species@, 0) {
        Some(i) => e.is_owned && e.monster_index == Some(i as usize) && e.is_in_team == listed(team_ids, player_ids[i]@),
        None => !e.is_owned && e.monster_index is None && !e.is_in_team,
    }
}

/// Top of row `k` scrolled by `scroll`.
pub open spec fn row_top(scroll: int, k: int) -> int {
    32 - scroll + 52 * k
}

/// Touch areas of the first `k` rows: an owned row shown on screen selects its monster.
pub open spec fn list_areas(es: Seq<ListEntry>, scroll: int, k: int) -> Seq<TouchArea<usize>>
    decreases k,
{
    if k <= 0 {
        seq![]
    } else {
        let prev = list_areas(es, scroll, k - 1);
        let y = row_top(scroll, k - 1);
        if -16 <= y <= 272 && es[k - 1].monster_index is Some {
            prev.push(TouchArea { rect: Rect { x: 10, y: y as i32, w: 220, h: 48 }, action: es[k - 1].monster_index->0 })
        } else {
            prev
        }
    }
}

/// Scroll position after a swipe: up shows more below, by 110 and up to the end; down
/// shows more above, by 110 and down to the top.
pub open spec fn list_swiped(scroll: int, n: int, is_up: bool) -> int {
    if is_up {
        let max = n * 52 - 200;
        if scroll < max { if scroll + 110 < max { scroll + 110 } else { max } } else { scroll }
    } else {
        if scroll > 0 { if scroll - 110 > 0 { scroll - 110 } else { 0 } } else { scroll }
    }
}

/// The list of monsters.
pub struct MonsterListPage {
    title: String,
    monsters: Vec<ListEntry>,
    touch_areas: Vec<TouchArea<usize>>,
    back_area: Option<Rect>,
    dirty: bool,
    scroll_offset: i32,
    total_items: usize,
}

impl MonsterListPage {
    pub closed spec fn rows(&self) -> Seq<ListEntry> {
        self.monsters@
    }

    pub closed spec fn areas(&self) -> Seq<TouchArea<usize>> {
        self.touch_areas@
    }

    pub closed spec fn back(&self) -> Option<Rect> {
        self.back_area
    }

    pub closed spec fn scroll(&self) -> int {
        self.scroll_offset as int
    }

    pub closed spec fn heading(&self) -> Seq<char> {
        self.title@
    }

    pub closed spec fn wf(&self) -> bool {
        &&& areas_wf(self.touch_areas@)
        &&& (self.back_area matches Some(r) ==> r.wf())
        &&& self.total_items == self.monsters@.len()
        &&& self.monsters@.len() * 52 + 400 <= i32::MAX
        &&& 0 <= self.scroll_offset <= self.monsters@.len() * 52
    }

    /// The player's monsters in order, each marked when it is in the team.
    pub fn new(monsters: &Vec<OwnedMonster>, team_ids: &Vec<String>) -> (p: Self)
        requires
            monsters@.len() * 52 + 400 <= i32::MAX,
        ensures
            p.wf(),
            p.heading() == "MONSTERS"@,
            p.scroll() == 0,
            p.rows().len() == monsters@.len(),
            forall|i: int| 0 <= i < monsters@.len() ==> {
                &&& (#[trigger] p.rows()[i]).species_id == monsters@[i].species_id
                &&& p.rows()[i].is_owned
                &&& p.rows()[i].monster_index == Some(i as usize)
                &&& p.rows()[i].is_in_team == listed(team_ids@, monsters@[i].id@)
            },
    {
        let mut rows: Vec<ListEntry> = Vec::new();
        let mut i: usize = 0;
        while i < monsters.len()
            invariant
                i <= monsters@.len(),
                rows@.len() == i,
                forall|k: int| 0 <= k < i ==> {
                    &&& (#[trigger] rows@[k]).species_id == monsters@[k].species_id
                    &&& rows@[k].is_owned
                    &&& rows@[k].monster_index == Some(k as usize)
                    &&& rows@[k].is_in_team == listed(team_ids@, monsters@[k].id@)
                },
            decreases monsters@.len() - i,
        {
            let in_team = contains_id(team_ids, &monsters[i].id);
            rows.push(ListEntry {
                species_id: monsters[i].species_id.clone(),
                is_in_team: in_team,
                is_owned: true,
                monster_index: Some(i),
            });
            i += 1;
        }
        let n = rows.len();
        MonsterListPage {
            title: "MONSTERS".to_string(),
            monsters: rows,
            touch_areas: Vec::new(),
            back_area: None,
            dirty: true,
            scroll_offset: 0,
            total_items: n,
        }
    }

    /// A zone's species: each with the first player monster of that species when there
    /// is one, then sorted (stably) with team members first, other owned monsters next
    /// and species not owned last.
    pub fn from_zone(zone_name: &str, zone_species: &Vec<String>, player_monsters: &Vec<OwnedMonster>,
        team_ids: &Vec<String>) -> (p: Self)
        requires
            zone_species@.len() * 52 + 400 <= i32::MAX,
        ensures
            p.wf(),
            p.heading() == zone_name@,
            p.scroll() == 0,
            p.rows().len() == zone_species@.len(),
            exists|unsorted: Seq<ListEntry>, o: Seq<usize>| #![auto]
                unsorted.len() == zone_species@.len()
                && (forall|i: int| 0 <= i < unsorted.len() ==> zone_row(zone_species@[i], species_of(player_monsters@), ids_of(player_monsters@), team_ids@, unsorted[i]))
                && stably_sorted(ranks(unsorted), o) && o.len() == unsorted.len()
                && forall|i: int| 0 <= i < o.len() ==> p.rows()[i] == unsorted[o[i] as int],
    {
        let mut rows: Vec<ListEntry> = Vec::new();
        let mut keys: Vec<u32> = Vec::new();
        let mut i: usize = 0;
        while i < zone_species.len()
            invariant
                i <= zone_species@.len(),
                rows@.len() == i,
                keys@.len() == i,
                forall|k: int| 0 <= k < i ==> zone_row(zone_species@[k], species_of(player_monsters@), ids_of(player_monsters@), team_ids@, #[trigger] rows@[k]),
                forall|k: int| 0 <= k < i ==> #[trigger] keys@[k] == rank(rows@[k]),
            decreases zone_species@.len() - i,
        {
            let species = &zone_species[i];
            let row = match find_species(player_monsters, species) {
                Some(idx) => {
                    let in_team = contains_id(team_ids, &player_monsters[idx].id);
                    ListEntry { species_id: species.clone(), is_in_team: in_team, is_owned: true, monster_index: Some(idx) }
                },
                None => ListEntry { species_id: species.clone(), is_in_team: false, is_owned: false, monster_index: None },
            };
            let key: u32 = if row.is_owned && row.is_in_team { 0 } else if row.is_owned { 1 } else { 2 };
            keys.push(key);
            rows.push(row);
            i += 1;
        }
        let ghost unsorted = rows@;
        assert(keys@ =~= ranks(unsorted));
        let order = stable_order(&keys);
        let sorted = take_in_order(rows, &order);
        let n = sorted.len();
        MonsterListPage {
            title: zone_name.to_string(),
            monsters: sorted,
            touch_areas: Vec::new(),
            back_area: None,
            dirty: true,
            scroll_offset: 0,
            total_items: n,
        }
    }

    pub fn title(&self) -> (t: &str)
        ensures
            t@ == self.heading(),
    {
        self.title.as_str()
    }

    pub fn row(&self, i: usize) -> (e: &ListEntry)
        requires
            i < self.rows().len(),
        ensures
            *e == self.rows()[i as int],
    {
        &self.monsters[i]
    }

    pub fn len(&self) -> (n: usize)
        ensures
            n == self.rows().len(),
    {
        self.monsters.len()
    }

    pub fn scroll_offset(&self) -> (o: i32)
        ensures
            o == self.scroll(),
    {
        self.scroll_offset
    }

    /// Registers the touch areas as drawing lays the rows out (48 high, 4 apart, from
    /// y = 32 less the scroll); there is no back button.
    pub fn layout(&mut self)
        requires
            old(self).wf(),
        ensures
            final(self).wf(),
            final(self).areas() == list_areas(old(self).rows(), old(self).scroll(), old(self).rows().len() as int),
            final(self).back() is None,
            final(self).rows() == old(self).rows(),
            final(self).scroll() == old(self).scroll(),
            final(self).heading() == old(self).heading(),
    {
        let mut areas: Vec<TouchArea<usize>> = Vec::new();
        let n = self.monsters.len();
        let mut k: usize = 0;
        while k < n
            invariant
                n == self.monsters@.len(),
                k <= n,
                self.wf(),
                areas_wf(areas@),
                areas@ == list_areas(self.monsters@, self.scroll_offset as int, k as int),
            decreases n - k,
        {
            let y: i32 = 32 - self.scroll_offset + 52 * (k as i32);
            if y >= -16 && y <= 272 {
                if let Some(idx) = self.monsters[k].monster_index {
                    areas.push(TouchArea::new(10, y, 220, 48, idx));
                }
            }
            k += 1;
        }
        self.touch_areas = areas;
        self.back_area = None;
        self.dirty = false;
    }

    /// A tap on the back button goes back; one on an owned monster's row selects it.
    pub fn handle_touch(&self, x: i32, y: i32) -> (a: MonsterListAction)
        requires
            self.wf(),
        ensures
            a == (if self.back() matches Some(r) && r.has(x as int, y as int) {
                MonsterListAction::Back
            } else {
                match first_touched(self.areas(), x as int, y as int, 0) {
                    Some(i) => MonsterListAction::Select(self.areas()[i].action),
                    None => MonsterListAction::NoAction,
                }
            }),
    {
        if let Some(r) = self.back_area {
            if r.contains(x, y) {
                return MonsterListAction::Back;
            }
        }
        match find_touched(&self.touch_areas, x, y) {
            Some(i) => MonsterListAction::Select(self.touch_areas[i].action),
            None => MonsterListAction::NoAction,
        }
    }

    /// A swipe up shows more below (110 pixels, up to the end); a swipe down shows more
    /// above (110 pixels, up to the top).
    pub fn handle_swipe(&mut self, is_up: bool)
        requires
            old(self).wf(),
        ensures
            final(self).wf(),
            final(self).scroll() == list_swiped(old(self).scroll(), old(self).rows().len() as int, is_up),
            final(self).rows() == old(self).rows(),
            final(self).areas() == old(self).areas(),
    {
        if is_up {
            let max_scroll: i32 = (self.total_items as i32) * 52 - 200;
            if self.scroll_offset < max_scroll {
                let next = self.scroll_offset + 110;
                self.scroll_offset = if next < max_scroll { next } else { max_scroll };
                self.dirty = true;
            }
        } else {
            if self.scroll_offset > 0 {
                let next = self.scroll_offset - 110;
                self.scroll_offset = if next > 0 { next } else { 0 };
                self.dirty = true;
            }
        }
    }
}

impl MonsterListPage {
    /// A full redraw is pending.
    pub closed spec fn redraw_pending(&self) -> bool {
        self.dirty
    }
}

impl Page for MonsterListPage {
    fn update(&mut self) -> (alive: bool)
        ensures
            alive,
            *final(self) == *old(self),
    {
        true
    }

    fn mark_dirty(&mut self)
        ensures
            final(self).redraw_pending(),
    {
        self.dirty = true;
    }

    fn needs_full_redraw(&self) -> (b: bool)
        ensures
            b == self.redraw_pending(),
    {
        self.dirty
    }
}

} // verus!
