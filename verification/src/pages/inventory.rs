//! The inventory: crystals and the essence of each element.

use vstd::prelude::*;
use crate::element::Element;
use crate::geometry::{Rect, opt_contains};
use crate::page::Page;

verus! {

/// What a tap on the inventory asks for.
#[derive(Clone, Copy, Debug, PartialEq, Eq, Structural)]
pub enum InventoryAction {
    NoAction,
    Back,
}

/// The back button's rectangle.
pub open spec fn inventory_back_rect() -> Rect {
    Rect { x: 15, y: 410, w: 80, h: 30 }
}

/// Crystals and essences held.
pub struct InventoryPage {
    crystals: u32,
    essences: [(Element, u16); 8],
    back_area: Option<Rect>,
    dirty: bool,
}

impl InventoryPage {
    pub closed spec fn crystals_of(&self) -> u32 {
        self.crystals
    }

    pub closed spec fn essences_of(&self) -> Seq<(Element, u16)> {
        self.essences@
    }

    pub closed spec fn back(&self) -> Option<Rect> {
        self.back_area
    }

    pub closed spec fn wf(&self) -> bool {
        self.back_area matches Some(r) ==> r == inventory_back_rect()
    }

    pub fn new(crystals: u32, essences: [(Element, u16); 8]) -> (p: Self)
        ensures
            p.wf(),
            p.crystals_of() == crystals,
            p.essences_of() == essences@,
            p.back() is None,
    {
        InventoryPage { crystals, essences, back_area: None, dirty: true }
    }

    /// The inventory from the player's crystals and essence counts, in element order.
    pub fn from_player(crystals: u32, fire: u16, water: u16, earth: u16, wind: u16, thunder: u16,
        shadow: u16, holy: u16, ghost: u16) -> (p: Self)
        ensures
            p.wf(),
            p.crystals_of() == crystals,
            p.essences_of() == seq![(Element::Fire, fire), (Element::Water, water), (Element::Earth, earth),
                (Element::Wind, wind), (Element::Thunder, thunder), (Element::Shadow, shadow),
                (Element::Holy, holy), (Element::Spirit, ghost)],
            p.back() is None,
    {
        let p = Self::new(crystals, [
            (Element::Fire, fire),
            (Element::Water, water),
            (Element::Earth, earth),
            (Element::Wind, wind),
            (Element::Thunder, thunder),
            (Element::Shadow, shadow),
            (Element::Holy, holy),
            (Element::Spirit, ghost),
        ]);
        assert(p.essences_of() =~= seq![(Element::Fire, fire), (Element::Water, water), (Element::Earth, earth),
            (Element::Wind, wind), (Element::Thunder, thunder), (Element::Shadow, shadow),
            (Element::Holy, holy), (Element::Spirit, ghost)]);
        p
    }

    pub fn crystals(&self) -> (c: u32)
        ensures
            c == self.crystals_of(),
    {
        self.crystals
    }

    pub fn essence(&self, i: usize) -> (e: (Element, u16))
        requires
            i < 8,
        ensures
            e == self.essences_of()[i as int],
    {
        self.essences[i]
    }

    /// Registers the back button, as drawing places it.
    pub fn layout(&mut self)
        ensures
            final(self).wf(),
            final(self).back() == Some(inventory_back_rect()),
            final(self).crystals_of() == old(self).crystals_of(),
            final(self).essences_of() == old(self).essences_of(),
    {
        self.back_area = Some(Rect::new(15, 410, 80, 30));
    }

    /// A tap on the back button goes back.
    pub fn handle_touch(&self, x: i32, y: i32) -> (a: InventoryAction)
        requires
            self.wf(),
        ensures
            a == (if self.back() matches Some(r) && r.has(x as int, y as int) {
                InventoryAction::Back
            } else {
                InventoryAction::NoAction
            }),
    {
        if opt_contains(self.back_area, x, y) {
            return InventoryAction::Back;
        }
        InventoryAction::NoAction
    }
}

impl InventoryPage {
    /// A full redraw is pending.
    pub closed spec fn redraw_pending(&self) -> bool {
        self.dirty
    }
}

impl Page for InventoryPage {
    fn update(&mut self) -> (alive: bool)
        ensures
            alive,
            *final(self) == *old(self),
    {
        true
    }

    fn mark_dirty(&mut self)
        ensures
            final(self).redraw_pending(),
    {
        self.dirty = true;
    }

    fn needs_full_redraw(&self) -> (b: bool)
        ensures
            b == self.redraw_pending(),
    {
        self.dirty
    }
}

} // verus!
