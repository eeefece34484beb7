//! Picking up to three monsters and a duration for an expedition; the team must cover
//! the map's required elements.

use vstd::prelude::*;
use crate::element::Element;
use crate::geometry::{Rect, opt_contains};
use crate::page::Page;
use crate::touch::{TouchArea, areas_wf, first_touched, find_touched};

verus! {

/// How long an expedition runs.
#[derive(Clone, Copy, Debug, PartialEq, Eq, Structural)]
pub enum ExpeditionDuration {
    Short,
    Medium,
    Long,
    Overnight,
}

/// What a tap on the team screen asks for.
#[derive(Clone, Copy, Debug, PartialEq, Eq, Structural)]
pub enum ExpeditionTeamAction {
    NoAction,
    Back,
    ToggleMonster(usize),
    SelectDuration(ExpeditionDuration),
    StartExpedition,
}

/// A monster that can join the expedition.
pub struct MonsterSelectData {
    pub id: String,
    pub name: String,
    pub level: u8,
    pub element: Element,
    /// Not away on another expedition.
    pub is_available: bool,
    pub is_selected: bool,
}

/// Number of selected monsters.
pub open spec fn selected_count(ms: Seq<MonsterSelectData>) -> int
    decreases ms.len(),
{
    if ms.len() == 0 {
        0
    } else {
        selected_count(ms.drop_last()) + if ms.last().is_selected { 1int } else { 0int }
    }
}

/// Ids of the selected monsters, in order.
pub open spec fn selected_ids(ms: Seq<MonsterSelectData>) -> Seq<String>
    decreases ms.len(),
{
    if ms.len() == 0 {
        seq![]
    } else if ms.last().is_selected {
        selected_ids(ms.drop_last()).push(ms.last().id)
    } else {
        selected_ids(ms.drop_last())
    }
}

/// Every required element is carried by a selected monster.
pub open spec fn covers(ms: Seq<MonsterSelectData>, required: Seq<Element>) -> bool {
    forall|r: int| 0 <= r < required.len() ==> #[trigger] carried(ms, required[r])
}

/// A selected monster carries the element.
pub open spec fn carried(ms: Seq<MonsterSelectData>, e: Element) -> bool {
    exists|i: int| 0 <= i < ms.len() && (#[trigger] ms[i]).is_selected && ms[i].element == e
}

/// The duration of button `i`.
pub open spec fn duration_at(i: int) -> ExpeditionDuration {
    if i == 0 {
        ExpeditionDuration::Short
    } else if i == 1 {
        ExpeditionDuration::Medium
    } else if i == 2 {
        ExpeditionDuration::Long
    } else {
        ExpeditionDuration::Overnight
    }
}

/// Label of each duration button.
pub open spec fn duration_label(d: ExpeditionDuration) -> &'static str {
    match d {
        ExpeditionDuration::Short => "1min",
        ExpeditionDuration::Medium => "2min",
        ExpeditionDuration::Long => "3min",
        ExpeditionDuration::Overnight => "4min",
    }
}

/// The label of a duration button.
pub fn duration_text(d: ExpeditionDuration) -> (s: &'static str)
    ensures
        s@ == duration_label(d)@,
{
    match d {
        ExpeditionDuration::Short => "1min",
        ExpeditionDuration::Medium => "2min",
        ExpeditionDuration::Long => "3min",
        ExpeditionDuration::Overnight => "4min",
    }
}

pub open spec fn start_rect() -> Rect {
    Rect { x: 8, y: 240, w: 224, h: 42 }
}

/// Rows of the first six monsters.
pub open spec fn monster_rows(n: int) -> Seq<TouchArea<usize>> {
    Seq::new(if n < 6 { n as nat } else { 6 }, |i: int| TouchArea { rect: Rect { x: 10, y: (52 + 31 * i) as i32, w: 220, h: 28 }, action: i as usize })
}

/// The four duration buttons.
pub open spec fn duration_buttons() -> Seq<TouchArea<ExpeditionDuration>> {
    Seq::new(4, |i: int| TouchArea { rect: Rect { x: (10 + 54 * i) as i32, y: 208, w: 52, h: 22 }, action: duration_at(i) })
}

proof fn lemma_count_update(ms: Seq<MonsterSelectData>, i: int, m: MonsterSelectData)
    requires
        0 <= i < ms.len(),
    ensures
        selected_count(ms.update(i, m)) == selected_count(ms) - (if ms[i].is_selected { 1int } else { 0int })
            + (if m.is_selected { 1int } else { 0int }),
    decreases ms.len(),
{
    if i < ms.len() - 1 {
        lemma_count_update(ms.drop_last(), i, m);
        assert(ms.update(i, m).drop_last() =~= ms.drop_last().update(i, m));
    } else {
        assert(ms.update(i, m).drop_last() =~= ms.drop_last());
    }
}

proof fn lemma_count_nonneg(ms: Seq<MonsterSelectData>)
    ensures
        0 <= selected_count(ms) <= ms.len(),
    decreases ms.len(),
{
    if ms.len() > 0 {
        lemma_count_nonneg(ms.drop_last());
    }
}

/// The roster after a tap on monster `index`: an available monster changes its
/// selection, but a fourth one is not taken into a full team.
pub open spec fn after_toggle(ms: Seq<MonsterSelectData>, index: int) -> Seq<MonsterSelectData> {
    if 0 <= index < ms.len() && ms[index].is_available && (ms[index].is_selected || selected_count(ms) < 3) {
        ms.update(index, MonsterSelectData { is_selected: !ms[index].is_selected, ..ms[index] })
    } else {
        ms
    }
}

/// Team and duration choice for an expedition on one map.
pub struct ExpeditionTeamSelectPage {
    map_id: String,
    map_name: String,
    required_elements: Vec<Element>,
    monsters: Vec<MonsterSelectData>,
    selected_duration: ExpeditionDuration,
    dirty: bool,
    back_area: Option<Rect>,
    monster_areas: Vec<TouchArea<usize>>,
    duration_areas: Vec<TouchArea<ExpeditionDuration>>,
    start_area: Option<Rect>,
}

impl ExpeditionTeamSelectPage {
    pub closed spec fn roster(&self) -> Seq<MonsterSelectData> {
        self.monsters@
    }

    pub closed spec fn required(&self) -> Seq<Element> {
        self.required_elements@
    }

    pub closed spec fn duration(&self) -> ExpeditionDuration {
        self.selected_duration
    }

    pub closed spec fn start(&self) -> Option<Rect> {
        self.start_area
    }

    pub closed spec fn back(&self) -> Option<Rect> {
        self.back_area
    }

    pub closed spec fn monster_touch(&self) -> Seq<TouchArea<usize>> {
        self.monster_areas@
    }

    pub closed spec fn duration_touch(&self) -> Seq<TouchArea<ExpeditionDuration>> {
        self.duration_areas@
    }

    pub closed spec fn id(&self) -> Seq<char> {
        self.map_id@
    }

    pub closed spec fn wf(&self) -> bool {
        &&& areas_wf(self.monster_areas@)
        &&& areas_wf(self.duration_areas@)
        &&& (self.start_area matches Some(r) ==> r.wf())
        &&& (self.back_area matches Some(r) ==> r.wf())
    }

    /// A team screen with the monsters as given and the short duration chosen.
    pub fn new(map_id: String, map_name: String, required_elements: Vec<Element>, monsters: Vec<MonsterSelectData>) -> (p: Self)
        ensures
            p.map_name_text() == map_name@,
            p.wf(),
            p.roster() == monsters@,
            p.required() == required_elements@,
            p.duration() == ExpeditionDuration::Short,
            p.id() == map_id@,
            p.start() is None,
            p.back() is None,
            p.monster_touch().len() == 0,
            p.duration_touch().len() == 0,
    {
        ExpeditionTeamSelectPage {
            map_id,
            map_name,
            required_elements,
            monsters,
            selected_duration: ExpeditionDuration::Short,
            dirty: true,
            back_area: None,
            monster_areas: Vec::new(),
            duration_areas: Vec::new(),
            start_area: None,
        }
    }

    pub fn map_id(&self) -> (s: &str)
        ensures
            s@ == self.id(),
    {
        self.map_id.as_str()
    }

    pub closed spec fn map_name_text(&self) -> Seq<char> {
        self.map_name@
    }

    pub fn map_name(&self) -> (s: &str)
        ensures
            s@ == self.map_name_text(),
    {
        self.map_name.as_str()
    }

    pub fn selected_duration(&self) -> (d: ExpeditionDuration)
        ensures
            d == self.duration(),
    {
        self.selected_duration
    }

    pub fn monster(&self, i: usize) -> (m: &MonsterSelectData)
        requires
            i < self.roster().len(),
        ensures
            *m == self.roster()[i as int],
    {
        &self.monsters[i]
    }

    pub fn monster_count(&self) -> (n: usize)
        ensures
            n == self.roster().len(),
    {
        self.monsters.len()
    }

    /// Ids of the selected monsters, in roster order.
    pub fn selected_monster_ids(&self) -> (ids: Vec<String>)
        ensures
            ids@ == selected_ids(self.roster()),
    {
        let mut ids: Vec<String> = Vec::new();
        let mut i: usize = 0;
        while i < self.monsters.len()
            invariant
                i <= self.monsters@.len(),
                ids@ == selected_ids(self.monsters@.take(i as int)),
            decreases self.monsters@.len() - i,
        {
            proof {
                assert(self.monsters@.take(i as int + 1).drop_last() =~= self.monsters@.take(i as int));
            }
            if self.monsters[i].is_selected {
                ids.push(self.monsters[i].id.clone());
            }
            i += 1;
        }
        assert(self.monsters@.take(i as int) =~= self.monsters@);
        ids
    }

    /// Number of selected monsters.
    pub fn selected_count(&self) -> (n: usize)
        ensures
            n == selected_count(self.roster()),
    {
        let mut n: usize = 0;
        let mut i: usize = 0;
        while i < self.monsters.len()
            invariant
                i <= self.monsters@.len(),
                n == selected_count(self.monsters@.take(i as int)),
                n <= i,
            decreases self.monsters@.len() - i,
        {
            proof {
                assert(self.monsters@.take(i as int + 1).drop_last() =~= self.monsters@.take(i as int));
            }
            if self.monsters[i].is_selected {
                n += 1;
            }
            i += 1;
        }
        assert(self.monsters@.take(i as int) =~= self.monsters@);
        n
    }

    /// Every required element is carried by a selected monster.
    pub fn requirements_met(&self) -> (b: bool)
        ensures
            b == covers(self.roster(), self.required()),
    {
        let mut r: usize = 0;
        while r < self.required_elements.len()
            invariant
                r <= self.required_elements@.len(),
                forall|q: int| 0 <= q < r ==> #[trigger] carried(self.monsters@, self.required_elements@[q]),
            decreases self.required_elements@.len() - r,
        {
            let req = self.required_elements[r];
            let mut found = false;
            let mut i: usize = 0;
            while i < self.monsters.len()
                invariant
                    i <= self.monsters@.len(),
                    req == self.required_elements@[r as int],
                    found ==> exists|j: int| 0 <= j < self.monsters@.len()
                        && (#[trigger] self.monsters@[j]).is_selected && self.monsters@[j].element == req,
                    !found ==> forall|j: int| 0 <= j < i ==> !((#[trigger] self.monsters@[j]).is_selected && self.monsters@[j].element == req),
                decreases self.monsters@.len() - i,
            {
                if self.monsters[i].is_selected && self.monsters[i].element == req {
                    found = true;
                }
                i += 1;
            }
            if !found {
                assert(!carried(self.monsters@, self.required_elements@[r as int]));
                return false;
            }
            r += 1;
        }
        true
    }

    /// The expedition can start with one to three monsters covering the requirements.
    pub fn can_start(&self) -> (b: bool)
        ensures
            b == (1 <= selected_count(self.roster()) <= 3 && covers(self.roster(), self.required())),
    {
        let n = self.selected_count();
        n >= 1 && n <= 3 && self.requirements_met()
    }

    /// Selects or deselects an available monster; a fourth one cannot be selected.
    pub fn toggle_monster(&mut self, index: usize)
        requires
            old(self).wf(),
        ensures
            final(self).wf(),
            final(self).roster().len() == old(self).roster().len(),
            final(self).required() == old(self).required(),
            final(self).duration() == old(self).duration(),
            final(self).id() == old(self).id(),
            final(self).start() == old(self).start(),
            final(self).monster_touch() == old(self).monster_touch(),
            final(self).duration_touch() == old(self).duration_touch(),
            final(self).roster() == after_toggle(old(self).roster(), index as int),
            selected_count(old(self).roster()) <= 3 ==> selected_count(final(self).roster()) <= 3,
    {
        if index < self.monsters.len() && self.monsters[index].is_available {
            let count = self.selected_count();
            let current = self.monsters[index].is_selected;
            if current || count < 3 {
                let ghost before = self.monsters@;
                self.monsters[index].is_selected = !current;
                proof {
                    lemma_count_update(before, index as int, self.monsters@[index as int]);
                    assert(self.monsters@ =~= before.update(index as int, self.monsters@[index as int]));
                    assert(self.monsters@ =~= after_toggle(before, index as int));
                }
                self.dirty = true;
            }
        }
    }

    /// Registers the touch areas as drawing lays them out: rows for the first six
    /// monsters, the four duration buttons and the start button; no back button.
    pub fn layout(&mut self)
        requires
            old(self).wf(),
        ensures
            final(self).wf(),
            final(self).monster_touch() == monster_rows(old(self).roster().len() as int),
            final(self).duration_touch() == duration_buttons(),
            final(self).start() == Some(start_rect()),
            final(self).back() is None,
            final(self).roster() == old(self).roster(),
            final(self).required() == old(self).required(),
            final(self).duration() == old(self).duration(),
            final(self).id() == old(self).id(),
    {
        let mut rows: Vec<TouchArea<usize>> = Vec::new();
        let mut i: usize = 0;
        while i < 6 && i < self.monsters.len()
            invariant
                i <= 6,
                i <= self.monsters@.len(),
                rows@.len() == i,
                forall|k: int| 0 <= k < i ==> #[trigger] rows@[k] == monster_rows(self.monsters@.len() as int)[k],
                areas_wf(rows@),
            decreases 6 - i,
        {
            rows.push(TouchArea::new(10, 52 + (i as i32) * 31, 220, 28, i));
            i += 1;
        }
        assert(rows@ =~= monster_rows(self.monsters@.len() as int));
        let mut durs: Vec<TouchArea<ExpeditionDuration>> = Vec::new();
        durs.push(TouchArea::new(10, 208, 52, 22, ExpeditionDuration::Short));
        durs.push(TouchArea::new(64, 208, 52, 22, ExpeditionDuration::Medium));
        durs.push(TouchArea::new(118, 208, 52, 22, ExpeditionDuration::Long));
        durs.push(TouchArea::new(172, 208, 52, 22, ExpeditionDuration::Overnight));
        assert(durs@ =~= duration_buttons());
        self.monster_areas = rows;
        self.duration_areas = durs;
        self.start_area = Some(Rect::new(8, 240, 224, 42));
        self.back_area = None;
    }

    /// The start button starts when the team may go; otherwise a monster row toggles
    /// that monster (the caller does it), and a duration button picks that duration.
    pub fn handle_touch(&mut self, x: i32, y: i32) -> (a: ExpeditionTeamAction)
        requires
            old(self).wf(),
        ensures
            final(self).required() == old(self).required(),
            final(self).id() == old(self).id(),
            final(self).back() == old(self).back(),
            final(self).map_name_text() == old(self).map_name_text(),
            !(a is SelectDuration) ==> *final(self) == *old(self),
            final(self).wf(),
            final(self).roster() == old(self).roster(),
            final(self).monster_touch() == old(self).monster_touch(),
            final(self).duration_touch() == old(self).duration_touch(),
            final(self).start() == old(self).start(),
            if (old(self).start() matches Some(r) && r.has(x as int, y as int))
                && 1 <= selected_count(old(self).roster()) <= 3 && covers(old(self).roster(), old(self).required()) {
                a == ExpeditionTeamAction::StartExpedition && final(self).duration() == old(self).duration()
            } else {
                match first_touched(old(self).monster_touch(), x as int, y as int, 0) {
                    Some(i) => a == ExpeditionTeamAction::ToggleMonster(old(self).monster_touch()[i].action)
                        && final(self).duration() == old(self).duration(),
                    None => match first_touched(old(self).duration_touch(), x as int, y as int, 0) {
                        Some(i) => a == ExpeditionTeamAction::SelectDuration(old(self).duration_touch()[i].action)
                            && final(self).duration() == old(self).duration_touch()[i].action,
                        None => a == ExpeditionTeamAction::NoAction && final(self).duration() == old(self).duration(),
                    },
                }
            },
    {
        if opt_contains(self.start_area, x, y) {
            if self.can_start() {
                return ExpeditionTeamAction::StartExpedition;
            }
        }
        if let Some(i) = find_touched(&self.monster_areas, x, y) {
            return ExpeditionTeamAction::ToggleMonster(self.monster_areas[i].action);
        }
        if let Some(i) = find_touched(&self.duration_areas, x, y) {
            let d = self.duration_areas[i].action;
            self.selected_duration = d;
            self.dirty = true;
            return ExpeditionTeamAction::SelectDuration(d);
        }
        ExpeditionTeamAction::NoAction
    }
}

/// Toggling never takes a team of at most three past three.
pub proof fn lemma_team_cap(ms: Seq<MonsterSelectData>, index: int)
    requires
        selected_count(ms) <= 3,
    ensures
        selected_count(after_toggle(ms, index)) <= 3,
{
    if 0 <= index < ms.len() && ms[index].is_available && (ms[index].is_selected || selected_count(ms) < 3) {
        lemma_count_update(ms, index, after_toggle(ms, index)[index]);
    }
}

/// Tapping the same monster twice leaves the roster as it was.
pub proof fn lemma_toggle_twice(ms: Seq<MonsterSelectData>, index: int)
    requires
        selected_count(ms) <= 3,
    ensures
        after_toggle(after_toggle(ms, index), index) == ms,
{
    if 0 <= index < ms.len() && ms[index].is_available && (ms[index].is_selected || selected_count(ms) < 3) {
        let once = after_toggle(ms, index);
        lemma_count_update(ms, index, once[index]);
        assert(once[index].is_available);
        assert(once[index].is_selected || selected_count(once) < 3);
        assert(after_toggle(once, index) =~= ms);
    }
}

impl ExpeditionTeamSelectPage {
    /// A full redraw is pending.
    pub closed spec fn redraw_pending(&self) -> bool {
        self.dirty
    }
}

impl Page for ExpeditionTeamSelectPage {
    fn update(&mut self) -> (alive: bool)
        ensures
            alive,
            *final(self) == *old(self),
    {
        true
    }

    fn mark_dirty(&mut self)
        ensures
            final(self).redraw_pending(),
    {
        self.dirty = true;
    }

    fn needs_full_redraw(&self) -> (b: bool)
        ensures
            b == self.redraw_pending(),
    {
        self.dirty
    }
}

/// The requirement holds exactly when every required element is the element of some
/// selected monster: one required element that no selected monster has is enough to
/// fail it, whatever else is covered.
pub proof fn lemma_requirements_cover_each(ms: Seq<MonsterSelectData>, required: Seq<Element>)
    ensures
        covers(ms, required) <==> (forall|r: int| #![trigger required[r]] 0 <= r < required.len() ==> exists|i: int|
            0 <= i < ms.len() && (#[trigger] ms[i]).is_selected && ms[i].element == required[r]),
        forall|r: int| #![trigger required[r]] 0 <= r < required.len() && (forall|i: int| 0 <= i < ms.len()
            && (#[trigger] ms[i]).is_selected ==> ms[i].element != required[r]) ==> !covers(ms, required),
{
    assert forall|r: int| #![trigger required[r]] 0 <= r < required.len() && (forall|i: int| 0 <= i < ms.len()
        && (#[trigger] ms[i]).is_selected ==> ms[i].element != required[r]) implies !covers(ms, required) by {
        if covers(ms, required) {
            assert(carried(ms, required[r]));
            let i = choose|i: int| 0 <= i < ms.len() && (#[trigger] ms[i]).is_selected && ms[i].element == required[r];
            assert(ms[i].element != required[r]);
        }
    }
    if covers(ms, required) {
        assert forall|r: int| #![trigger required[r]] 0 <= r < required.len() implies exists|i: int|
            0 <= i < ms.len() && (#[trigger] ms[i]).is_selected && ms[i].element == required[r] by {
            assert(carried(ms, required[r]));
        }
    }
    if forall|r: int| #![trigger required[r]] 0 <= r < required.len() ==> exists|i: int|
        0 <= i < ms.len() && (#[trigger] ms[i]).is_selected && ms[i].element == required[r] {
        assert forall|r: int| 0 <= r < required.len() implies #[trigger] carried(ms, required[r]) by {
            assert(required[r] == required[r]);
        }
    }
}

} // verus!
