//! Equipping skill cards into the hero's three skill slots: pick a slot, then a card
//! (or unequip the slot).

use vstd::prelude::*;
use crate::page::Page;

verus! {

/// Which view is shown.
#[derive(Clone, Copy, Debug, PartialEq, Eq, Structural)]
pub enum PageState {
    SlotView,
    CardSelection { slot_index: usize },
}

/// What the skill screen reports to the caller.
#[derive(Clone, Copy, Debug, PartialEq, Eq, Structural)]
pub enum SkillSelectionAction {
    Exit,
    CardEquipped,
    CardUnequipped,
}

/// What a tap asks the caller to do to the hero.
#[derive(Clone, Copy, Debug, PartialEq, Eq, Structural)]
pub enum SkillTap {
    Nothing,
    /// Empty this slot.
    Unequip(usize),
    /// Put card `card_index` in `slot`, unless the card is already equipped; report
    /// success with `equip_done`.
    Equip { slot: usize, card_index: usize },
}

/// Slot `i` of the slot view, x edges included.
pub open spec fn on_slot(i: int, x: int, y: int) -> bool {
    80 + 120 * i <= y < 180 + 120 * i && 20 <= x <= 460
}

/// The unequip row of the card view.
pub open spec fn on_unequip(x: int, y: int) -> bool {
    70 <= y < 135 && 20 <= x <= 460
}

/// The slot of the slot view under the tap.
pub open spec fn slot_hit(x: int, y: int) -> Option<int> {
    if on_slot(0, x, y) { Some(0) } else if on_slot(1, x, y) { Some(1) } else if on_slot(2, x, y) { Some(2) } else { None }
}

/// The visible card row, among the five shown, under the tap that stands for a card.
pub open spec fn card_hit(scroll: int, n: int, x: int, y: int) -> Option<int> {
    if 20 <= x <= 460 && y >= 140 && (y - 140) % 70 < 65 && (y - 140) / 70 < 5 && scroll + (y - 140) / 70 < n {
        Some((y - 140) / 70)
    } else {
        None
    }
}

/// The skill slots screen; `C` is the game's card-with-skill type.
pub struct SkillSelectionPage<C> {
    available_cards: Vec<C>,
    state: PageState,
    selected_slot: usize,
    selected_card_index: usize,
    scroll_offset: usize,
    pending_action: Option<SkillSelectionAction>,
    needs_redraw: bool,
    first_draw: bool,
}

impl<C> SkillSelectionPage<C> {
    pub closed spec fn view_state(&self) -> PageState {
        self.state
    }

    pub closed spec fn cards(&self) -> Seq<C> {
        self.available_cards@
    }

    pub closed spec fn slot(&self) -> usize {
        self.selected_slot
    }

    pub closed spec fn card(&self) -> usize {
        self.selected_card_index
    }

    pub closed spec fn scroll(&self) -> usize {
        self.scroll_offset
    }

    pub closed spec fn pending(&self) -> Option<SkillSelectionAction> {
        self.pending_action
    }

    /// The slot view, first slot chosen, with the cards that unlock a skill.
    pub fn new(available_cards: Vec<C>) -> (p: Self)
        ensures
            p.view_state() == PageState::SlotView,
            p.cards() == available_cards@,
            p.slot() == 0,
            p.card() == 0,
            p.scroll() == 0,
            p.pending() is None,
    {
        SkillSelectionPage {
            available_cards,
            state: PageState::SlotView,
            selected_slot: 0,
            selected_card_index: 0,
            scroll_offset: 0,
            pending_action: None,
            needs_redraw: true,
            first_draw: true,
        }
    }

    pub fn state(&self) -> (s: PageState)
        ensures
            s == self.view_state(),
    {
        self.state
    }

    pub fn selection(&self) -> (r: (usize, usize, usize))
        ensures
            r == (self.slot(), self.card(), self.scroll()),
    {
        (self.selected_slot, self.selected_card_index, self.scroll_offset)
    }

    pub fn card_at(&self, i: usize) -> (c: &C)
        requires
            i < self.cards().len(),
        ensures
            *c == self.cards()[i as int],
    {
        &self.available_cards[i]
    }

    pub fn card_count(&self) -> (n: usize)
        ensures
            n == self.cards().len(),
    {
        self.available_cards.len()
    }

    /// Hands out the pending action once.
    pub fn take_action(&mut self) -> (a: Option<SkillSelectionAction>)
        ensures
            a == old(self).pending(),
            final(self).pending() is None,
            final(self).view_state() == old(self).view_state(),
            final(self).cards() == old(self).cards(),
    {
        let a = self.pending_action;
        self.pending_action = None;
        a
    }

    /// A swipe left leaves the card view, or exits from the slot view.
    pub fn handle_swipe_left(&mut self)
        ensures
            final(self).cards() == old(self).cards(),
            match old(self).view_state() {
                PageState::SlotView => final(self).pending() == Some(SkillSelectionAction::Exit)
                    && final(self).view_state() == PageState::SlotView,
                PageState::CardSelection { .. } => final(self).pending() == old(self).pending()
                    && final(self).view_state() == PageState::SlotView,
            },
    {
        match self.state {
            PageState::SlotView => {
                self.pending_action = Some(SkillSelectionAction::Exit);
            },
            PageState::CardSelection { .. } => {
                self.state = PageState::SlotView;
                self.needs_redraw = true;
            },
        }
    }

    /// A swipe up moves the choice up: the slot, or the card (scrolling to keep it shown).
    pub fn handle_swipe_up(&mut self)
        ensures
            final(self).cards() == old(self).cards(),
            final(self).view_state() == old(self).view_state(),
            final(self).pending() == old(self).pending(),
            match old(self).view_state() {
                PageState::SlotView => {
                    &&& final(self).slot() == (if old(self).slot() > 0 { old(self).slot() - 1 } else { 0 })
                    &&& final(self).card() == old(self).card()
                    &&& final(self).scroll() == old(self).scroll()
                },
                PageState::CardSelection { .. } => {
                    &&& final(self).slot() == old(self).slot()
                    &&& final(self).card() == (if old(self).card() > 0 { old(self).card() - 1 } else { 0 })
                    &&& final(self).scroll() == (if old(self).card() > 0 && old(self).card() - 1 < old(self).scroll() {
                        old(self).card() - 1
                    } else {
                        old(self).scroll() as int
                    })
                },
            },
    {
        match self.state {
            PageState::SlotView => {
                if self.selected_slot > 0 {
                    self.selected_slot -= 1;
                    self.needs_redraw = true;
                }
            },
            PageState::CardSelection { .. } => {
                if self.selected_card_index > 0 {
                    self.selected_card_index -= 1;
                    if self.selected_card_index < self.scroll_offset {
                        self.scroll_offset = self.selected_card_index;
                    }
                    self.needs_redraw = true;
                }
            },
        }
    }

    /// A swipe down moves the choice down: the slot (to the third at most), or the card
    /// (up to one past the last card, scrolling to keep it within the five shown).
    pub fn handle_swipe_down(&mut self)
        ensures
            final(self).cards() == old(self).cards(),
            final(self).view_state() == old(self).view_state(),
            final(self).pending() == old(self).pending(),
            match old(self).view_state() {
                PageState::SlotView => {
                    &&& final(self).slot() == (if old(self).slot() < 2 { old(self).slot() + 1 } else { old(self).slot() as int })
                    &&& final(self).card() == old(self).card()
                    &&& final(self).scroll() == old(self).scroll()
                },
                PageState::CardSelection { .. } => {
                    let moved = old(self).card() < old(self).cards().len();
                    let c = if moved { old(self).card() + 1 } else { old(self).card() as int };
                    &&& final(self).slot() == old(self).slot()
                    &&& final(self).card() == c
                    &&& final(self).scroll() == (if moved && c >= old(self).scroll() + 5 {
                        if c >= 4 { c - 4 } else { 0 }
                    } else {
                        old(self).scroll() as int
                    })
                },
            },
    {
        match self.state {
            PageState::SlotView => {
                if self.selected_slot < 2 {
                    self.selected_slot += 1;
                    self.needs_redraw = true;
                }
            },
            PageState::CardSelection { .. } => {
                let max_index = self.available_cards.len();
                if self.selected_card_index < max_index {
                    self.selected_card_index += 1;
                    if self.selected_card_index >= self.scroll_offset && self.selected_card_index - self.scroll_offset >= 5 {
                        self.scroll_offset = self.selected_card_index.saturating_sub(4);
                    }
                    self.needs_redraw = true;
                }
            },
        }
    }

    /// A tap in the slot view opens a slot's card view at the first card. In the card
    /// view the unequip row empties the slot and returns to the slot view; a card row
    /// asks the caller to equip that card.
    pub fn handle_tap(&mut self, x: i32, y: i32) -> (t: SkillTap)
        requires
            old(self).scroll() + 5 <= usize::MAX,
        ensures
            final(self).cards() == old(self).cards(),
            match old(self).view_state() {
                PageState::SlotView => match slot_hit(x as int, y as int) {
                    Some(i) => {
                        &&& t == SkillTap::Nothing
                        &&& final(self).view_state() == (PageState::CardSelection { slot_index: i as usize })
                        &&& final(self).slot() == i
                        &&& final(self).card() == 0
                        &&& final(self).scroll() == 0
                        &&& final(self).pending() == old(self).pending()
                    },
                    None => t == SkillTap::Nothing && unchanged_choice(old(self), final(self)),
                },
                PageState::CardSelection { slot_index } => if on_unequip(x as int, y as int) {
                    &&& t == SkillTap::Unequip(slot_index)
                    &&& final(self).pending() == Some(SkillSelectionAction::CardUnequipped)
                    &&& final(self).view_state() == PageState::SlotView
                    &&& final(self).slot() == old(self).slot()
                    &&& final(self).card() == old(self).card()
                    &&& final(self).scroll() == old(self).scroll()
                } else {
                    &&& unchanged_choice(old(self), final(self))
                    &&& t == (match card_hit(old(self).scroll() as int, old(self).cards().len() as int, x as int, y as int) {
                        Some(d) => SkillTap::Equip { slot: slot_index, card_index: (old(self).scroll() + d) as usize },
                        None => SkillTap::Nothing,
                    })
                },
            },
    {
        match self.state {
            PageState::SlotView => {
                let mut i: usize = 0;
                while i < 3
                    invariant
                        i <= 3,
                        self == old(self),
                        self.state == PageState::SlotView,
                        forall|k: int| 0 <= k < i ==> !on_slot(k, x as int, y as int),
                    decreases 3 - i,
                {
                    let top: i32 = 80 + (i as i32) * 120;
                    if y >= top && y < top + 100 && x >= 20 && x <= 460 {
                        self.selected_slot = i;
                        self.state = PageState::CardSelection { slot_index: i };
                        self.selected_card_index = 0;
                        self.scroll_offset = 0;
                        self.needs_redraw = true;
                        return SkillTap::Nothing;
                    }
                    i += 1;
                }
                SkillTap::Nothing
            },
            PageState::CardSelection { slot_index } => {
                if y >= 70 && y < 135 && x >= 20 && x <= 460 {
                    self.pending_action = Some(SkillSelectionAction::CardUnequipped);
                    self.state = PageState::SlotView;
                    self.needs_redraw = true;
                    return SkillTap::Unequip(slot_index);
                }
                if x < 20 || x > 460 || y < 140 {
                    return SkillTap::Nothing;
                }
                let off: i32 = y - 140;
                let d: i32 = off / 70;
                if off % 70 < 65 && d < 5 {
                    let idx = self.scroll_offset + (d as usize);
                    if idx < self.available_cards.len() {
                        return SkillTap::Equip { slot: slot_index, card_index: idx };
                    }
                }
                SkillTap::Nothing
            },
        }
    }

    /// The caller equipped the card asked for: back to the slot view, reporting it.
    pub fn equip_done(&mut self)
        ensures
            final(self).pending() == Some(SkillSelectionAction::CardEquipped),
            final(self).view_state() == PageState::SlotView,
            final(self).cards() == old(self).cards(),
            final(self).slot() == old(self).slot(),
            final(self).card() == old(self).card(),
            final(self).scroll() == old(self).scroll(),
    {
        self.pending_action = Some(SkillSelectionAction::CardEquipped);
        self.state = PageState::SlotView;
        self.needs_redraw = true;
    }

    /// Whether the next frame repaints the screen.
    pub fn wants_redraw(&self) -> (b: bool)
        ensures
            b == (self.redraw_pending() || self.redraw_requested()),
    {
        self.first_draw || self.needs_redraw
    }

    /// A frame was painted.
    pub fn finish_draw(&mut self)
        ensures
            !final(self).redraw_pending(),
            !final(self).redraw_requested(),
            final(self).pending() == old(self).pending(),
            final(self).view_state() == old(self).view_state(),
            final(self).cards() == old(self).cards(),
            final(self).slot() == old(self).slot(),
            final(self).card() == old(self).card(),
            final(self).scroll() == old(self).scroll(),
    {
        self.first_draw = false;
        self.needs_redraw = false;
    }
}

/// A step that changed none of the choices.
pub open spec fn unchanged_choice<C>(a: &SkillSelectionPage<C>, b: &SkillSelectionPage<C>) -> bool {
    &&& b.view_state() == a.view_state()
    &&& b.slot() == a.slot()
    &&& b.card() == a.card()
    &&& b.scroll() == a.scroll()
    &&& b.pending() == a.pending()
}

impl<C> SkillSelectionPage<C> {
    /// A full redraw is pending.
    pub closed spec fn redraw_pending(&self) -> bool {
        self.first_draw
    }

    /// A redraw was asked for.
    pub closed spec fn redraw_requested(&self) -> bool {
        self.needs_redraw
    }
}

impl<C> Page for SkillSelectionPage<C> {
    /// The screen stays while no action is pending.
    fn update(&mut self) -> (alive: bool)
        ensures
            alive == (old(self).pending() is None),
            *final(self) == *old(self),
    {
        self.pending_action.is_none()
    }

    fn mark_dirty(&mut self)
        ensures
            final(self).redraw_requested(),
            final(self).redraw_pending() == old(self).redraw_pending(),
    {
        self.needs_redraw = true;
    }

    fn needs_full_redraw(&self) -> (b: bool)
        ensures
            b == self.redraw_pending(),
    {
        self.first_draw
    }
}

} // verus!
