//! A rustymon's learned skills: tapping one enables it in the first free slot, or
//! disables it when it is enabled.

use vstd::prelude::*;
use crate::geometry::Rect;
use crate::page::Page;
use crate::touch::{TouchArea, areas_wf, first_touched, find_touched};

verus! {

/// What a tap on the skills screen asks for.
#[derive(Clone, Copy, Debug, PartialEq, Eq, Structural)]
pub enum RustymonSkillsAction {
    /// Toggle the learned skill at this position.
    ToggleSkill(usize),
    Close,
}

/// A rustymon's skills: the ids it learned and the enabled slots.
pub struct SkillLoadout {
    pub learned_skills: Vec<u32>,
    pub enabled_skills: Vec<Option<u32>>,
}

/// Position of the first slot, from `from` on, holding `v`.
pub open spec fn slot_of(slots: Seq<Option<u32>>, v: Option<u32>, from: int) -> Option<int>
    decreases slots.len() - from,
{
    if from < 0 || from >= slots.len() {
        None
    } else if slots[from] == v {
        Some(from)
    } else {
        slot_of(slots, v, from + 1)
    }
}

proof fn lemma_slot_of(slots: Seq<Option<u32>>, v: Option<u32>, from: int)
    requires
        0 <= from,
    ensures
        slot_of(slots, v, from) matches Some(i) ==> from <= i < slots.len() && slots[i] == v
            && forall|j: int| from <= j < i ==> slots[j] != v,
        slot_of(slots, v, from) is None ==> forall|j: int| from <= j < slots.len() ==> slots[j] != v,
    decreases slots.len() - from,
{
    if from < slots.len() && slots[from] != v {
        lemma_slot_of(slots, v, from + 1);
    }
}

/// The enabled slots after toggling learned skill `idx`, and whether anything changed:
/// an enabled skill leaves its slot, another one takes the first free slot, if any.
pub open spec fn toggled(learned: Seq<u32>, slots: Seq<Option<u32>>, idx: int) -> (Seq<Option<u32>>, bool) {
    if idx < 0 || idx >= learned.len() {
        (slots, false)
    } else {
        match slot_of(slots, Some(learned[idx]), 0) {
            Some(s) => (slots.update(s, None), true),
            None => match slot_of(slots, None, 0) {
                Some(e) => (slots.update(e, Some(learned[idx])), true),
                None => (slots, false),
            },
        }
    }
}

/// No skill is enabled in two slots.
pub open spec fn distinct_slots(slots: Seq<Option<u32>>) -> bool {
    forall|i: int, j: int| 0 <= i < j < slots.len() && (#[trigger] slots[i]) is Some ==> slots[i] != #[trigger] slots[j]
}

/// Position of the first slot holding `v`.
fn find_slot(slots: &Vec<Option<u32>>, v: Option<u32>) -> (r: Option<usize>)
    ensures
        r is None <==> slot_of(slots@, v, 0) is None,
        r matches Some(i) ==> slot_of(slots@, v, 0) == Some(i as int) && i < slots@.len(),
{
    proof {
        lemma_slot_of(slots@, v, 0);
    }
    let mut i: usize = 0;
    while i < slots.len()
        invariant
            i <= slots@.len(),
            slot_of(slots@, v, i as int) == slot_of(slots@, v, 0),
        decreases slots@.len() - i,
    {
        if slots[i] == v {
            return Some(i);
        }
        i += 1;
    }
    None
}

/// The skills screen.
pub struct RustymonSkillsPage {
    touch_areas: Vec<TouchArea<RustymonSkillsAction>>,
    needs_full_redraw: bool,
    scroll_offset: usize,
}

/// Skill cards of the first `k` learned skills: those found in the game data, while
/// they fit above y = 410.
pub open spec fn skill_cards(found: Seq<bool>, k: int) -> Seq<TouchArea<RustymonSkillsAction>>
    decreases k,
{
    if k <= 0 {
        seq![]
    } else {
        let prev = skill_cards(found, k - 1);
        if k - 1 < 4 && found[k - 1] {
            prev.push(TouchArea { rect: Rect { x: 10, y: (60 + 78 * (k - 1)) as i32, w: 348, h: 70 }, action: RustymonSkillsAction::ToggleSkill((k - 1) as usize) })
        } else {
            prev
        }
    }
}

impl RustymonSkillsPage {
    pub closed spec fn areas(&self) -> Seq<TouchArea<RustymonSkillsAction>> {
        self.touch_areas@
    }

    pub closed spec fn dirty(&self) -> bool {
        self.needs_full_redraw
    }

    pub closed spec fn wf(&self) -> bool {
        areas_wf(self.touch_areas@)
    }

    pub fn new() -> (p: Self)
        ensures
            p.wf(),
            p.areas().len() == 0,
            p.dirty(),
    {
        RustymonSkillsPage { touch_areas: Vec::new(), needs_full_redraw: true, scroll_offset: 0 }
    }

    /// The first touch area under the tap gives its action.
    pub fn handle_touch(&mut self, x: i32, y: i32) -> (a: Option<RustymonSkillsAction>)
        requires
            old(self).wf(),
        ensures
            final(self).wf(),
            final(self).areas() == old(self).areas(),
            a == (match first_touched(old(self).areas(), x as int, y as int, 0) {
                Some(i) => Some(old(self).areas()[i].action),
                None => None::<RustymonSkillsAction>,
            }),
    {
        match find_touched(&self.touch_areas, x, y) {
            Some(i) => Some(self.touch_areas[i].action),
            None => None,
        }
    }

    /// Toggles learned skill `skill_index`: disables it when enabled, else enables it
    /// in the first free slot. Returns whether anything changed (not when the index is
    /// out of range or every slot is taken).
    pub fn toggle_skill(loadout: &mut SkillLoadout, skill_index: usize) -> (changed: bool)
        ensures
            final(loadout).learned_skills@ == old(loadout).learned_skills@,
            (final(loadout).enabled_skills@, changed) == toggled(old(loadout).learned_skills@, old(loadout).enabled_skills@, skill_index as int),
    {
        if skill_index >= loadout.learned_skills.len() {
            return false;
        }
        let skill_id = loadout.learned_skills[skill_index];
        match find_slot(&loadout.enabled_skills, Some(skill_id)) {
            Some(slot) => {
                loadout.enabled_skills.set(slot, None);
                true
            },
            None => match find_slot(&loadout.enabled_skills, None) {
                Some(empty) => {
                    loadout.enabled_skills.set(empty, Some(skill_id));
                    true
                },
                None => false,
            },
        }
    }

    /// Registers the touch areas, as drawing lays them out: a card for each learned
    /// skill found in the game data (`found`) that fits, and the close button; a
    /// pending full redraw was just done.
    pub fn layout(&mut self, found: &Vec<bool>)
        ensures
            final(self).wf(),
            final(self).areas() == skill_cards(found@, found@.len() as int).push(
                TouchArea { rect: Rect { x: 134, y: 420, w: 100, h: 30 }, action: RustymonSkillsAction::Close }),
            !final(self).dirty(),
    {
        let mut areas: Vec<TouchArea<RustymonSkillsAction>> = Vec::new();
        let mut k: usize = 0;
        while k < found.len()
            invariant
                k <= found@.len(),
                areas_wf(areas@),
                areas@ == skill_cards(found@, k as int),
            decreases found@.len() - k,
        {
            if k < 4 && found[k] {
                areas.push(TouchArea::new(10, 60 + (k as i32) * 78, 348, 70, RustymonSkillsAction::ToggleSkill(k)));
            }
            k += 1;
        }
        areas.push(TouchArea::new(134, 420, 100, 30, RustymonSkillsAction::Close));
        self.touch_areas = areas;
        self.needs_full_redraw = false;
    }
}

/// Toggling keeps each skill in at most one slot, and a skill that toggling enabled
/// is disabled again by the next toggle, which gives back the slots as they were.
pub proof fn lemma_toggle(learned: Seq<u32>, slots: Seq<Option<u32>>, idx: int)
    requires
        distinct_slots(slots),
    ensures
        distinct_slots(toggled(learned, slots, idx).0),
        toggled(learned, slots, idx).1 && (0 <= idx < learned.len() ==> slot_of(slots, Some(learned[idx]), 0) is None)
            ==> toggled(learned, toggled(learned, slots, idx).0, idx).0 == slots,
{
    lemma_slot_of(slots, None, 0);
    if 0 <= idx < learned.len() {
        let v = Some(learned[idx]);
        lemma_slot_of(slots, v, 0);
        match slot_of(slots, v, 0) {
            Some(s) => {
                let after = slots.update(s, None);
                assert forall|i: int, j: int| 0 <= i < j < after.len() && (#[trigger] after[i]) is Some
                    implies after[i] != #[trigger] after[j] by {
                    assert(after[i] == slots[i]);
                    if j != s {
                        assert(after[j] == slots[j]);
                    }
                }
            },
            None => {
                match slot_of(slots, None, 0) {
                    Some(e) => {
                        let after = slots.update(e, v);
                        assert forall|i: int, j: int| 0 <= i < j < after.len() && (#[trigger] after[i]) is Some
                            implies after[i] != #[trigger] after[j] by {
                            if i == e {
                                assert(after[j] == slots[j]);
                                assert(slots[j] != v);
                            } else if j == e {
                                assert(after[i] == slots[i]);
                                assert(slots[i] != v);
                            } else {
                                assert(after[i] == slots[i] && after[j] == slots[j]);
                            }
                        }
                        lemma_slot_of(after, v, 0);
                        assert(after[e] == v);
                        assert forall|k: int| 0 <= k < e implies after[k] != v by {
                            assert(after[k] == slots[k]);
                            assert(slots[k] != v);
                        }
                        assert(slot_of(after, v, 0) == Some(e)) by {
                            lemma_slot_first(after, v, e);
                        }
                        assert(after.update(e, None) =~= slots);
                    },
                    None => {},
                }
            },
        }
    }
}

proof fn lemma_slot_first(slots: Seq<Option<u32>>, v: Option<u32>, e: int)
    requires
        0 <= e < slots.len(),
        slots[e] == v,
        forall|k: int| 0 <= k < e ==> slots[k] != v,
    ensures
        slot_of(slots, v, 0) == Some(e),
{
    lemma_slot_first_from(slots, v, e, 0);
}

proof fn lemma_slot_first_from(slots: Seq<Option<u32>>, v: Option<u32>, e: int, from: int)
    requires
        0 <= from <= e < slots.len(),
        slots[e] == v,
        forall|k: int| from <= k < e ==> slots[k] != v,
    ensures
        slot_of(slots, v, from) == Some(e),
    decreases e - from,
{
    if from < e {
        lemma_slot_first_from(slots, v, e, from + 1);
    }
}

impl RustymonSkillsPage {
    /// A full redraw is pending.
    pub closed spec fn redraw_pending(&self) -> bool {
        self.needs_full_redraw
    }
}

impl Page for RustymonSkillsPage {
    fn update(&mut self) -> (alive: bool)
        ensures
            alive,
            *final(self) == *old(self),
    {
        true
    }

    fn mark_dirty(&mut self)
        ensures
            final(self).redraw_pending(),
    {
        self.needs_full_redraw = true;
    }

    fn needs_full_redraw(&self) -> (b: bool)
        ensures
            b == self.redraw_pending(),
    {
        self.needs_full_redraw
    }
}

} // verus!
