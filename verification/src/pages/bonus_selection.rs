//! Choosing one of three bonuses between dungeon floors.

use vstd::prelude::*;
use crate::geometry::{Rect, opt_contains};
use crate::page::Page;

verus! {

/// What a tap on the bonus screen asks for.
#[derive(Clone, Copy, Debug, PartialEq, Eq, Structural)]
pub enum BonusSelectionAction {
    NoAction,
    Selected(usize),
}

/// The card of bonus `i`.
pub open spec fn bonus_card_rect(i: int) -> Rect {
    Rect { x: 10, y: (60 + 73 * i) as i32, w: 220, h: 65 }
}

/// Three bonuses on offer; `B` is the game's bonus type.
pub struct BonusSelectionPage<B> {
    bonuses: [B; 3],
    current_floor: u16,
    dungeon_name: String,
    bonus_areas: [Option<Rect>; 3],
    selected_index: Option<usize>,
    dirty: bool,
    floor_xp: u32,
}

impl<B> BonusSelectionPage<B> {
    pub closed spec fn offers(&self) -> Seq<B> {
        self.bonuses@
    }

    pub closed spec fn areas(&self) -> Seq<Option<Rect>> {
        self.bonus_areas@
    }

    pub closed spec fn selected(&self) -> Option<usize> {
        self.selected_index
    }

    pub closed spec fn xp(&self) -> u32 {
        self.floor_xp
    }

    pub closed spec fn wf(&self) -> bool {
        forall|i: int| 0 <= i < 3 ==> (#[trigger] self.bonus_areas@[i] matches Some(r) ==> r == bonus_card_rect(i))
    }

    /// The offer for `current_floor`, with nothing picked and nothing laid out yet: the
    /// first three of `bonuses`, a short list filled up from `defaults` at the same
    /// positions.
    pub fn new(bonuses: Vec<B>, defaults: (B, B, B), current_floor: u16, dungeon_name: String, floor_xp: u32) -> (p: Self)
        ensures
            p.current_floor_value() == current_floor,
            p.dungeon_name_text() == dungeon_name@,
            p.wf(),
            p.offers().len() == 3,
            forall|i: int| 0 <= i < 3 ==> #[trigger] p.offers()[i] == (if i < bonuses@.len() { bonuses@[i] } else if i == 0 { defaults.0 } else if i == 1 { defaults.1 } else { defaults.2 }),
            p.selected() is None,
            p.xp() == floor_xp,
            forall|i: int| 0 <= i < 3 ==> #[trigger] p.areas()[i] is None,
    {
        let (d0, d1, d2) = defaults;
        let mut v = bonuses;
        v.truncate(3);
        let n = v.len();
        let b2 = if n >= 3 { v.pop().unwrap() } else { d2 };
        let b1 = if n >= 2 { v.pop().unwrap() } else { d1 };
        let b0 = if n >= 1 { v.pop().unwrap() } else { d0 };
        let offered = [b0, b1, b2];
        assert(offered@[0] == b0 && offered@[1] == b1 && offered@[2] == b2);
        BonusSelectionPage {
            bonuses: offered,
            current_floor,
            dungeon_name,
            bonus_areas: [None, None, None],
            selected_index: None,
            dirty: true,
            floor_xp,
        }
    }

    pub fn floor_xp(&self) -> (x: u32)
        ensures
            x == self.xp(),
    {
        self.floor_xp
    }

    pub closed spec fn current_floor_value(&self) -> u16 {
        self.current_floor
    }

    pub fn current_floor(&self) -> (r: u16)
        ensures
            r == self.current_floor_value(),
    {
        self.current_floor
    }

    pub closed spec fn dungeon_name_text(&self) -> Seq<char> {
        self.dungeon_name@
    }

    pub fn dungeon_name(&self) -> (s: &str)
        ensures
            s@ == self.dungeon_name_text(),
    {
        self.dungeon_name.as_str()
    }

    pub fn selected_index(&self) -> (s: Option<usize>)
        ensures
            s == self.selected(),
    {
        self.selected_index
    }

    /// The bonus at `index`, if there is one.
    pub fn get_bonus(&self, index: usize) -> (b: Option<&B>)
        ensures
            b matches Some(x) ==> index < 3 && *x == self.offers()[index as int],
            b is None <==> index >= 3,
    {
        if index < 3 { Some(&self.bonuses[index]) } else { None }
    }

    /// Registers the three cards, as drawing places them.
    pub fn layout(&mut self)
        ensures
            final(self).wf(),
            forall|i: int| 0 <= i < 3 ==> #[trigger] final(self).areas()[i] == Some(bonus_card_rect(i)),
            final(self).offers() == old(self).offers(),
            final(self).selected() == old(self).selected(),
            final(self).xp() == old(self).xp(),
    {
        self.bonus_areas = [Some(Rect::new(10, 60, 220, 65)), Some(Rect::new(10, 133, 220, 65)), Some(Rect::new(10, 206, 220, 65))];
    }

    /// A tap on a card picks that bonus.
    pub fn handle_touch(&mut self, x: i32, y: i32) -> (a: BonusSelectionAction)
        requires
            old(self).wf(),
        ensures
            final(self).wf(),
            final(self).offers() == old(self).offers(),
            final(self).areas() == old(self).areas(),
            final(self).xp() == old(self).xp(),
            match crate::pages::dungeon_combat::first_hit(old(self).areas(), x as int, y as int, 0) {
                Some(i) => a == BonusSelectionAction::Selected(i as usize) && final(self).selected() == Some(i as usize),
                None => a == BonusSelectionAction::NoAction && final(self).selected() == old(self).selected(),
            },
    {
        let mut i: usize = 0;
        while i < 3
            invariant
                i <= 3,
                self.wf(),
                self == old(self),
                crate::pages::dungeon_combat::first_hit(self.bonus_areas@, x as int, y as int, i as int)
                    == crate::pages::dungeon_combat::first_hit(self.bonus_areas@, x as int, y as int, 0),
            decreases 3 - i,
        {
            if opt_contains(self.bonus_areas[i], x, y) {
                self.selected_index = Some(i);
                self.dirty = true;
                return BonusSelectionAction::Selected(i);
            }
            i += 1;
        }
        BonusSelectionAction::NoAction
    }
}

impl<B> BonusSelectionPage<B> {
    /// A full redraw is pending.
    pub closed spec fn redraw_pending(&self) -> bool {
        self.dirty
    }
}

impl<B> Page for BonusSelectionPage<B> {
    fn update(&mut self) -> (alive: bool)
        ensures
            alive,
            *final(self) == *old(self),
    {
        true
    }

    fn mark_dirty(&mut self)
        ensures
            final(self).redraw_pending(),
    {
        self.dirty = true;
    }

    fn needs_full_redraw(&self) -> (b: bool)
        ensures
            b == self.redraw_pending(),
    {
        self.dirty
    }
}

} // verus!
