//! Choosing a monster to hunt on a map: five rows at a time, each with a fight button.

use vstd::prelude::*;
use crate::pages::cards::{count_of, count_owned};
use crate::page::Page;

verus! {

/// What the hunt list asks of the caller.
#[derive(Clone, Copy, Debug, PartialEq, Eq, Structural)]
pub enum HuntAction {
    /// Fight the enemy with this id.
    Fight(u32),
    Exit,
}

/// A huntable enemy and how many of its cards the hero owns.
#[derive(Clone, Copy, Debug, PartialEq, Eq, Structural)]
pub struct HuntEntry {
    pub enemy_id: u32,
    pub cards_owned: u32,
}

/// The fight button's columns, edges included.
pub open spec fn on_fight(x: int) -> bool {
    290 <= x <= 355
}

/// The visible row, among the first five shown, under the tap.
pub open spec fn tapped_row(scroll: int, n: int, y: int) -> Option<int> {
    if 0 <= y - 50 && (y - 50) % 75 < 70 && (y - 50) / 75 < 5 && scroll + (y - 50) / 75 < n {
        Some((y - 50) / 75)
    } else {
        None
    }
}

/// The monster list of a hunt.
pub struct HuntMonsterListPage {
    map_id: u32,
    monsters: Vec<HuntEntry>,
    selected_index: usize,
    scroll_offset: usize,
    pending_action: Option<HuntAction>,
    needs_redraw: bool,
    first_draw: bool,
}

impl HuntMonsterListPage {
    pub closed spec fn entries(&self) -> Seq<HuntEntry> {
        self.monsters@
    }

    pub closed spec fn selected(&self) -> usize {
        self.selected_index
    }

    pub closed spec fn scroll(&self) -> usize {
        self.scroll_offset
    }

    pub closed spec fn pending(&self) -> Option<HuntAction> {
        self.pending_action
    }

    /// The enemies of the map (found in the game data, the map's own first, then its
    /// bosses), each with the number of the hero's cards of it.
    pub fn new(map_id: u32, enemy_ids: &Vec<u32>, hero_card_ids: &Vec<u32>) -> (p: Self)
        requires
            hero_card_ids@.len() <= u32::MAX,
        ensures
            p.map_id_value() == map_id,
            p.entries().len() == enemy_ids@.len(),
            forall|i: int| 0 <= i < enemy_ids@.len() ==> {
                &&& (#[trigger] p.entries()[i]).enemy_id == enemy_ids@[i]
                &&& p.entries()[i].cards_owned == count_of(hero_card_ids@, enemy_ids@[i])
            },
            p.selected() == 0,
            p.scroll() == 0,
            p.pending() is None,
    {
        let mut monsters: Vec<HuntEntry> = Vec::new();
        let mut i: usize = 0;
        while i < enemy_ids.len()
            invariant
                i <= enemy_ids@.len(),
                hero_card_ids@.len() <= u32::MAX,
                monsters@.len() == i,
                forall|k: int| 0 <= k < i ==> {
                    &&& (#[trigger] monsters@[k]).enemy_id == enemy_ids@[k]
                    &&& monsters@[k].cards_owned == count_of(hero_card_ids@, enemy_ids@[k])
                },
            decreases enemy_ids@.len() - i,
        {
            let n = count_owned(hero_card_ids, enemy_ids[i]);
            proof {
                lemma_count_le_len(hero_card_ids@, enemy_ids@[i as int]);
            }
            monsters.push(HuntEntry { enemy_id: enemy_ids[i], cards_owned: n as u32 });
            i += 1;
        }
        HuntMonsterListPage {
            map_id,
            monsters,
            selected_index: 0,
            scroll_offset: 0,
            pending_action: None,
            needs_redraw: true,
            first_draw: true,
        }
    }

    pub closed spec fn map_id_value(&self) -> u32 {
        self.map_id
    }

    pub fn map_id(&self) -> (r: u32)
        ensures
            r == self.map_id_value(),
    {
        self.map_id
    }

    pub fn entry(&self, i: usize) -> (e: HuntEntry)
        requires
            i < self.entries().len(),
        ensures
            e == self.entries()[i as int],
    {
        self.monsters[i]
    }

    pub fn len(&self) -> (n: usize)
        ensures
            n == self.entries().len(),
    {
        self.monsters.len()
    }

    pub fn selected_index(&self) -> (i: usize)
        ensures
            i == self.selected(),
    {
        self.selected_index
    }

    pub fn scroll_offset(&self) -> (o: usize)
        ensures
            o == self.scroll(),
    {
        self.scroll_offset
    }

    /// The back corner exits; on a visible row the fight button fights that enemy and
    /// elsewhere the row is selected.
    pub fn handle_tap(&mut self, x: i32, y: i32)
        requires
            old(self).scroll() + 5 <= usize::MAX,
        ensures
            final(self).redraw_pending() == old(self).redraw_pending(),
            final(self).redraw_requested() == (old(self).redraw_requested() || (!(x < 60 && y < 40)
                && tapped_row(old(self).scroll() as int, old(self).entries().len() as int, y as int) is Some
                && !on_fight(x as int))),
            final(self).map_id_value() == old(self).map_id_value(),
            final(self).entries() == old(self).entries(),
            final(self).scroll() == old(self).scroll(),
            if x < 60 && y < 40 {
                final(self).pending() == Some(HuntAction::Exit) && final(self).selected() == old(self).selected()
            } else {
                match tapped_row(old(self).scroll() as int, old(self).entries().len() as int, y as int) {
                    Some(d) => if on_fight(x as int) {
                        &&& final(self).pending() == Some(HuntAction::Fight(old(self).entries()[old(self).scroll() + d].enemy_id))
                        &&& final(self).selected() == old(self).selected()
                    } else {
                        &&& final(self).pending() == old(self).pending()
                        &&& final(self).selected() == old(self).scroll() + d
                    },
                    None => final(self).pending() == old(self).pending() && final(self).selected() == old(self).selected(),
                }
            },
    {
        if x < 60 && y < 40 {
            self.pending_action = Some(HuntAction::Exit);
            return;
        }
        if y < 50 {
            return;
        }
        let off: i32 = y - 50;
        let d: i32 = off / 75;
        if off % 75 < 70 && d < 5 {
            let idx = self.scroll_offset + (d as usize);
            if idx < self.monsters.len() {
                if x >= 290 && x <= 355 {
                    self.pending_action = Some(HuntAction::Fight(self.monsters[idx].enemy_id));
                    return;
                }
                self.selected_index = idx;
                self.needs_redraw = true;
            }
        }
    }

    /// Scrolls down one row while more rows lie below the five shown.
    pub fn handle_swipe_up(&mut self)
        ensures
            final(self).map_id_value() == old(self).map_id_value(),
            final(self).redraw_requested() == (old(self).redraw_requested()
                || old(self).scroll() + 5 < old(self).entries().len()),
            final(self).redraw_pending() == old(self).redraw_pending(),
            final(self).scroll() == (if old(self).scroll() + 5 < old(self).entries().len() { old(self).scroll() + 1 } else { old(self).scroll() as int }),
            final(self).entries() == old(self).entries(),
            final(self).selected() == old(self).selected(),
            final(self).pending() == old(self).pending(),
    {
        if self.scroll_offset < self.monsters.len() && self.monsters.len() - self.scroll_offset > 5 {
            self.scroll_offset += 1;
            self.needs_redraw = true;
        }
    }

    /// Scrolls up one row.
    pub fn handle_swipe_down(&mut self)
        ensures
            final(self).map_id_value() == old(self).map_id_value(),
            final(self).redraw_requested() == (old(self).redraw_requested() || old(self).scroll() > 0),
            final(self).redraw_pending() == old(self).redraw_pending(),
            final(self).scroll() == (if old(self).scroll() > 0 { old(self).scroll() - 1 } else { 0 }),
            final(self).entries() == old(self).entries(),
            final(self).selected() == old(self).selected(),
            final(self).pending() == old(self).pending(),
    {
        if self.scroll_offset > 0 {
            self.scroll_offset -= 1;
            self.needs_redraw = true;
        }
    }

    /// A swipe left exits.
    pub fn handle_swipe_left(&mut self)
        ensures
            final(self).map_id_value() == old(self).map_id_value(),
            final(self).redraw_requested() == old(self).redraw_requested(),
            final(self).redraw_pending() == old(self).redraw_pending(),
            final(self).pending() == Some(HuntAction::Exit),
            final(self).entries() == old(self).entries(),
            final(self).scroll() == old(self).scroll(),
            final(self).selected() == old(self).selected(),
    {
        self.pending_action = Some(HuntAction::Exit);
    }

    /// Hands out the pending action once.
    pub fn take_action(&mut self) -> (a: Option<HuntAction>)
        ensures
            final(self).map_id_value() == old(self).map_id_value(),
            final(self).redraw_requested() == old(self).redraw_requested(),
            final(self).redraw_pending() == old(self).redraw_pending(),
            a == old(self).pending(),
            final(self).pending() is None,
            final(self).entries() == old(self).entries(),
            final(self).scroll() == old(self).scroll(),
            final(self).selected() == old(self).selected(),
    {
        let a = self.pending_action;
        self.pending_action = None;
        a
    }
}

proof fn lemma_count_le_len(ids: Seq<u32>, id: u32)
    ensures
        count_of(ids, id) <= ids.len(),
    decreases ids.len(),
{
    if ids.len() > 0 {
        lemma_count_le_len(ids.drop_last(), id);
    }
}

impl HuntMonsterListPage {
    /// Whether the next frame repaints the screen.
    pub fn wants_redraw(&self) -> (b: bool)
        ensures
            b == (self.redraw_pending() || self.redraw_requested()),
    {
        self.first_draw || self.needs_redraw
    }

    /// A frame was painted.
    pub fn finish_draw(&mut self)
        ensures
            final(self).map_id_value() == old(self).map_id_value(),
            !final(self).redraw_pending(),
            !final(self).redraw_requested(),
            final(self).pending() == old(self).pending(),
            final(self).entries() == old(self).entries(),
            final(self).selected() == old(self).selected(),
            final(self).scroll() == old(self).scroll(),
    {
        self.first_draw = false;
        self.needs_redraw = false;
    }
}

impl HuntMonsterListPage {
    /// A full redraw is pending.
    pub closed spec fn redraw_pending(&self) -> bool {
        self.first_draw
    }

    /// A redraw was asked for.
    pub closed spec fn redraw_requested(&self) -> bool {
        self.needs_redraw
    }
}

impl Page for HuntMonsterListPage {
    /// The list stays while no action is pending.
    fn update(&mut self) -> (alive: bool)
        ensures
            alive == (old(self).pending() is None),
            *final(self) == *old(self),
    {
        self.pending_action.is_none()
    }

    fn mark_dirty(&mut self)
        ensures
            final(self).redraw_requested(),
            final(self).redraw_pending() == old(self).redraw_pending(),
            final(self).map_id_value() == old(self).map_id_value(),
            final(self).pending() == old(self).pending(),
            final(self).entries() == old(self).entries(),
            final(self).selected() == old(self).selected(),
            final(self).scroll() == old(self).scroll(),
    {
        self.needs_redraw = true;
    }

    fn needs_full_redraw(&self) -> (b: bool)
        ensures
            b == self.redraw_pending(),
    {
        self.first_draw
    }
}

} // verus!
