//! Upgrading a monster's stats with crystals, and a major attack upgrade that also
//! costs essence of its element.

use vstd::prelude::*;
use crate::element::Element;
use crate::geometry::{Rect, opt_contains};
use crate::page::Page;

verus! {

/// What a tap on the upgrade screen asks for.
#[derive(Clone, Copy, Debug, PartialEq, Eq, Structural)]
pub enum MonsterUpgradeAction {
    NoAction,
    Back,
    UpgradeAtk,
    UpgradeDef,
    UpgradeSpd,
    UpgradeHp,
    MajorUpgradeAtk,
}

/// A monster's upgradable stats and what each upgrade costs.
#[derive(Clone, Copy, Debug, PartialEq, Eq, Structural)]
pub struct UpgradeState {
    pub atk: u16,
    pub def: u16,
    pub spd: u16,
    pub hp_max: u16,
    pub crystals: u32,
    pub essence_count: u16,
    pub atk_cost: u32,
    pub def_cost: u32,
    pub spd_cost: u32,
    pub hp_cost: u32,
    /// Crystals of the major attack upgrade.
    pub major_atk_crystals: u32,
    /// Essence of the major attack upgrade.
    pub major_atk_essence: u8,
    /// Highest value a stat may reach.
    pub max_stat: u16,
}

/// Row `i` of the stat buttons (attack, defence, speed, HP).
pub open spec fn stat_row(i: int) -> Rect {
    Rect { x: 10, y: (32 + 32 * i) as i32, w: 220, h: 28 }
}

pub open spec fn major_row() -> Rect {
    Rect { x: 10, y: 170, w: 220, h: 32 }
}

/// The upgrade each button offers, when it can be paid and the stat has room.
pub open spec fn affordable(s: UpgradeState, a: MonsterUpgradeAction) -> bool {
    match a {
        MonsterUpgradeAction::UpgradeAtk => s.crystals >= s.atk_cost && s.atk < s.max_stat,
        MonsterUpgradeAction::UpgradeDef => s.crystals >= s.def_cost && s.def < s.max_stat,
        MonsterUpgradeAction::UpgradeSpd => s.crystals >= s.spd_cost && s.spd < s.max_stat,
        MonsterUpgradeAction::UpgradeHp => s.crystals >= s.hp_cost && s.hp_max < s.max_stat,
        MonsterUpgradeAction::MajorUpgradeAtk => s.crystals >= s.major_atk_crystals
            && s.essence_count >= s.major_atk_essence && s.atk + 10 <= s.max_stat,
        _ => false,
    }
}

/// The upgrade screen of one monster.
pub struct MonsterUpgradePage {
    monster_id: String,
    name: String,
    element: Element,
    state: UpgradeState,
    back_area: Option<Rect>,
    buttons: [Option<Rect>; 5],
    dirty: bool,
}

/// The action of button `i`: attack, defence, speed, HP, major attack.
pub open spec fn button_action(i: int) -> MonsterUpgradeAction {
    if i == 0 {
        MonsterUpgradeAction::UpgradeAtk
    } else if i == 1 {
        MonsterUpgradeAction::UpgradeDef
    } else if i == 2 {
        MonsterUpgradeAction::UpgradeSpd
    } else if i == 3 {
        MonsterUpgradeAction::UpgradeHp
    } else {
        MonsterUpgradeAction::MajorUpgradeAtk
    }
}

/// The first button, from `from` on, that holds the tap and whose upgrade is possible.
pub open spec fn first_upgrade(areas: Seq<Option<Rect>>, s: UpgradeState, x: int, y: int, from: int) -> Option<int>
    decreases 5 - from,
{
    if from < 0 || from >= 5 {
        None
    } else if (areas[from] matches Some(r) && r.has(x, y)) && affordable(s, button_action(from)) {
        Some(from)
    } else {
        first_upgrade(areas, s, x, y, from + 1)
    }
}

impl MonsterUpgradePage {
    pub closed spec fn stats(&self) -> UpgradeState {
        self.state
    }

    pub closed spec fn back(&self) -> Option<Rect> {
        self.back_area
    }

    pub closed spec fn areas(&self) -> Seq<Option<Rect>> {
        self.buttons@
    }

    pub closed spec fn id(&self) -> Seq<char> {
        self.monster_id@
    }

    pub closed spec fn wf(&self) -> bool {
        &&& (self.back_area matches Some(r) ==> r.wf())
        &&& forall|i: int| 0 <= i < 4 ==> (#[trigger] self.buttons@[i] matches Some(r) ==> r == stat_row(i))
        &&& (self.buttons@[4] matches Some(r) ==> r == major_row())
    }

    pub fn new(monster_id: String, name: String, element: Element, state: UpgradeState) -> (p: Self)
        ensures
            p.name_text() == name@,
            p.element_value() == element,
            p.wf(),
            p.stats() == state,
            p.id() == monster_id@,
            p.back() is None,
            forall|i: int| 0 <= i < 5 ==> #[trigger] p.areas()[i] is None,
    {
        MonsterUpgradePage {
            monster_id,
            name,
            element,
            state,
            back_area: None,
            buttons: [None, None, None, None, None],
            dirty: true,
        }
    }

    /// The monster whose stats are upgraded.
    pub fn monster_id(&self) -> (s: &str)
        ensures
            s@ == self.id(),
    {
        self.monster_id.as_str()
    }

    pub closed spec fn name_text(&self) -> Seq<char> {
        self.name@
    }

    pub fn name(&self) -> (s: &str)
        ensures
            s@ == self.name_text(),
    {
        self.name.as_str()
    }

    pub closed spec fn element_value(&self) -> Element {
        self.element
    }

    pub fn element(&self) -> (r: Element)
        ensures
            r == self.element_value(),
    {
        self.element
    }

    pub fn state(&self) -> (s: UpgradeState)
        ensures
            s == self.stats(),
    {
        self.state
    }

    /// After an upgrade: the new stats, balances and costs.
    pub fn refresh(&mut self, state: UpgradeState)
        ensures
            final(self).stats() == state,
            final(self).wf() == old(self).wf(),
            final(self).areas() == old(self).areas(),
            final(self).back() == old(self).back(),
            final(self).id() == old(self).id(),
    {
        self.state = state;
        self.dirty = true;
    }

    /// Registers the buttons, as drawing places them: four stat rows, then the major
    /// upgrade below a gap.
    pub fn layout(&mut self)
        requires
            old(self).wf(),
        ensures
            final(self).wf(),
            forall|i: int| 0 <= i < 4 ==> #[trigger] final(self).areas()[i] == Some(stat_row(i)),
            final(self).areas()[4] == Some(major_row()),
            final(self).back() == old(self).back(),
            final(self).stats() == old(self).stats(),
            final(self).id() == old(self).id(),
    {
        self.buttons = [
            Some(Rect::new(10, 32, 220, 28)),
            Some(Rect::new(10, 64, 220, 28)),
            Some(Rect::new(10, 96, 220, 28)),
            Some(Rect::new(10, 128, 220, 28)),
            Some(Rect::new(10, 170, 220, 32)),
        ];
        assert(self.buttons@[0] == Some(stat_row(0)));
        assert(self.buttons@[1] == Some(stat_row(1)));
        assert(self.buttons@[2] == Some(stat_row(2)));
        assert(self.buttons@[3] == Some(stat_row(3)));
        self.dirty = false;
    }

    /// Back first; then the first button under the tap whose upgrade can be paid and
    /// has room under the stat cap.
    pub fn handle_touch(&self, x: i32, y: i32) -> (a: MonsterUpgradeAction)
        requires
            self.wf(),
        ensures
            a == (if self.back() matches Some(r) && r.has(x as int, y as int) {
                MonsterUpgradeAction::Back
            } else {
                match first_upgrade(self.areas(), self.stats(), x as int, y as int, 0) {
                    Some(i) => button_action(i),
                    None => MonsterUpgradeAction::NoAction,
                }
            }),
    {
        if opt_contains(self.back_area, x, y) {
            return MonsterUpgradeAction::Back;
        }
        let s = self.state;
        let ok: [bool; 5] = [
            s.crystals >= s.atk_cost && s.atk < s.max_stat,
            s.crystals >= s.def_cost && s.def < s.max_stat,
            s.crystals >= s.spd_cost && s.spd < s.max_stat,
            s.crystals >= s.hp_cost && s.hp_max < s.max_stat,
            s.crystals >= s.major_atk_crystals && s.essence_count >= s.major_atk_essence as u16
                && (s.atk as u32) + 10 <= s.max_stat as u32,
        ];
        let actions: [MonsterUpgradeAction; 5] = [
            MonsterUpgradeAction::UpgradeAtk,
            MonsterUpgradeAction::UpgradeDef,
            MonsterUpgradeAction::UpgradeSpd,
            MonsterUpgradeAction::UpgradeHp,
            MonsterUpgradeAction::MajorUpgradeAtk,
        ];
        assert(ok@[0] == affordable(s, button_action(0)));
        assert(ok@[1] == affordable(s, button_action(1)));
        assert(ok@[2] == affordable(s, button_action(2)));
        assert(ok@[3] == affordable(s, button_action(3)));
        assert(ok@[4] == affordable(s, button_action(4)));
        assert(actions@[0] == button_action(0) && actions@[1] == button_action(1) && actions@[2] == button_action(2)
            && actions@[3] == button_action(3) && actions@[4] == button_action(4));
        let mut i: usize = 0;
        while i < 5
            invariant
                i <= 5,
                self.wf(),
                s == self.state,
                !(self.back_area matches Some(r) && r.has(x as int, y as int)),
                forall|k: int| 0 <= k < 5 ==> #[trigger] ok@[k] == affordable(s, button_action(k)),
                forall|k: int| 0 <= k < 5 ==> #[trigger] actions@[k] == button_action(k),
                first_upgrade(self.buttons@, s, x as int, y as int, i as int) == first_upgrade(self.buttons@, s, x as int, y as int, 0),
            decreases 5 - i,
        {
            if opt_contains(self.buttons[i], x, y) && ok[i] {
                return actions[i];
            }
            i += 1;
        }
        MonsterUpgradeAction::NoAction
    }
}

impl MonsterUpgradePage {
    /// A full redraw is pending.
    pub closed spec fn redraw_pending(&self) -> bool {
        self.dirty
    }
}

impl Page for MonsterUpgradePage {
    fn update(&mut self) -> (alive: bool)
        ensures
            alive,
            *final(self) == *old(self),
    {
        true
    }

    fn mark_dirty(&mut self)
        ensures
            final(self).redraw_pending(),
    {
        self.dirty = true;
    }

    fn needs_full_redraw(&self) -> (b: bool)
        ensures
            b == self.redraw_pending(),
    {
        self.dirty
    }
}

/// On a laid-out screen, a tap on stat row `i` asks for that row's upgrade exactly when
/// the row's own cost can be paid and its own stat is below the cap, and for nothing
/// otherwise: no other button's cost or stat plays a part.
pub proof fn lemma_stat_row_tap(areas: Seq<Option<Rect>>, s: UpgradeState, i: int, x: int, y: int)
    requires
        areas.len() == 5,
        forall|k: int| 0 <= k < 4 ==> #[trigger] areas[k] == Some(stat_row(k)),
        areas[4] == Some(major_row()),
        0 <= i < 4,
        stat_row(i).has(x, y),
    ensures
        i == 0 ==> first_upgrade(areas, s, x, y, 0)
            == (if s.crystals >= s.atk_cost && s.atk < s.max_stat { Some(0int) } else { None::<int> }),
        i == 1 ==> first_upgrade(areas, s, x, y, 0)
            == (if s.crystals >= s.def_cost && s.def < s.max_stat { Some(1int) } else { None::<int> }),
        i == 2 ==> first_upgrade(areas, s, x, y, 0)
            == (if s.crystals >= s.spd_cost && s.spd < s.max_stat { Some(2int) } else { None::<int> }),
        i == 3 ==> first_upgrade(areas, s, x, y, 0)
            == (if s.crystals >= s.hp_cost && s.hp_max < s.max_stat { Some(3int) } else { None::<int> }),
{
    assert(areas[0] == Some(stat_row(0)));
    assert(areas[1] == Some(stat_row(1)));
    assert(areas[2] == Some(stat_row(2)));
    assert(areas[3] == Some(stat_row(3)));
    assert(stat_row(0).y == 32 && stat_row(1).y == 64 && stat_row(2).y == 96 && stat_row(3).y == 128);
    reveal_with_fuel(first_upgrade, 6);
}

/// On a laid-out screen, a tap on the major upgrade asks for it exactly when its
/// crystals and essence can be paid and attack has room for ten more points.
pub proof fn lemma_major_row_tap(areas: Seq<Option<Rect>>, s: UpgradeState, x: int, y: int)
    requires
        areas.len() == 5,
        forall|k: int| 0 <= k < 4 ==> #[trigger] areas[k] == Some(stat_row(k)),
        areas[4] == Some(major_row()),
        major_row().has(x, y),
    ensures
        first_upgrade(areas, s, x, y, 0) == (if s.crystals >= s.major_atk_crystals
            && s.essence_count >= s.major_atk_essence && s.atk + 10 <= s.max_stat {
            Some(4int)
        } else {
            None::<int>
        }),
{
    assert(areas[0] == Some(stat_row(0)));
    assert(areas[1] == Some(stat_row(1)));
    assert(areas[2] == Some(stat_row(2)));
    assert(areas[3] == Some(stat_row(3)));
    assert(stat_row(0).y == 32 && stat_row(1).y == 64 && stat_row(2).y == 96 && stat_row(3).y == 128);
    reveal_with_fuel(first_upgrade, 6);
}

} // verus!
