//! The card collection: every monster's card, whether it is owned and how many times.

use vstd::prelude::*;
use crate::order::{stable_order, stably_sorted, take_in_order};
use crate::page::Page;

verus! {

/// A card of the catalogue.
pub struct CardInfo {
    pub monster_id: u32,
    pub name: String,
    pub rarity: u8,
    pub atk_bonus: u32,
    pub def_bonus: u32,
}

/// A card with what the player owns of it.
pub struct CardEntry {
    pub card: CardInfo,
    pub owned: bool,
    pub owned_count: usize,
}

/// How many of `ids` equal `id`.
pub open spec fn count_of(ids: Seq<u32>, id: u32) -> nat
    decreases ids.len(),
{
    if ids.len() == 0 {
        0
    } else {
        count_of(ids.drop_last(), id) + if ids.last() == id { 1nat } else { 0nat }
    }
}

proof fn lemma_count_bound(ids: Seq<u32>, id: u32)
    ensures
        count_of(ids, id) <= ids.len(),
    decreases ids.len(),
{
    if ids.len() > 0 {
        lemma_count_bound(ids.drop_last(), id);
    }
}

/// How many of the owned cards are for monster `id`.
pub fn count_owned(owned: &Vec<u32>, id: u32) -> (n: usize)
    ensures
        n == count_of(owned@, id),
{
    let mut n: usize = 0;
    let mut i: usize = 0;
    while i < owned.len()
        invariant
            i <= owned@.len(),
            n == count_of(owned@.take(i as int), id),
            n <= i,
        decreases owned@.len() - i,
    {
        proof {
            assert(owned@.take(i as int + 1).drop_last() =~= owned@.take(i as int));
        }
        if owned[i] == id {
            n += 1;
        }
        i += 1;
    }
    assert(owned@.take(i as int) =~= owned@);
    n
}

pub open spec fn card_ids(cards: Seq<CardInfo>) -> Seq<u32> {
    Seq::new(cards.len(), |i: int| cards[i].monster_id)
}

/// The scroll position after a tap: the top band scrolls up, the bottom band scrolls
/// down while more than four cards remain below.
pub open spec fn scrolled(offset: int, total: int, y: int) -> int {
    if y < 112 && offset > 0 {
        offset - 1
    } else if y > 336 && offset < total - 4 {
        offset + 1
    } else {
        offset
    }
}

/// The card collection, scrolled four cards to a screen.
pub struct CardsPage {
    card_entries: Vec<CardEntry>,
    scroll_offset: usize,
}

impl CardsPage {
    pub closed spec fn entries(&self) -> Seq<CardEntry> {
        self.card_entries@
    }

    pub closed spec fn offset(&self) -> usize {
        self.scroll_offset
    }

    /// The catalogue in order of monster id (stable), each card with the number of
    /// owned cards for its monster.
    pub fn new(catalog: Vec<CardInfo>, owned: &Vec<u32>) -> (p: Self)
        ensures
            p.offset() == 0,
            p.entries().len() == catalog@.len(),
            exists|o: Seq<usize>| #![auto] stably_sorted(card_ids(catalog@), o) && o.len() == catalog@.len()
                && forall|i: int| 0 <= i < o.len() ==> p.entries()[i].card == catalog@[o[i] as int],
            forall|i: int| 0 <= i < p.entries().len() ==> {
                &&& (#[trigger] p.entries()[i]).owned_count == count_of(owned@, p.entries()[i].card.monster_id)
                &&& p.entries()[i].owned == (p.entries()[i].owned_count > 0)
            },
    {
        let mut keys: Vec<u32> = Vec::new();
        let mut i: usize = 0;
        while i < catalog.len()
            invariant
                i <= catalog@.len(),
                keys@.len() == i,
                forall|j: int| 0 <= j < i ==> #[trigger] keys@[j] == catalog@[j].monster_id,
            decreases catalog@.len() - i,
        {
            keys.push(catalog[i].monster_id);
            i += 1;
        }
        assert(keys@ =~= card_ids(catalog@));
        let order = stable_order(&keys);
        let ghost cat = catalog@;
        let mut sorted = take_in_order(catalog, &order);
        let mut entries: Vec<CardEntry> = Vec::new();
        let n = sorted.len();
        let mut taken: Vec<CardInfo> = Vec::new();
        while sorted.len() > 0
            invariant
                sorted@.len() + taken@.len() == n,
                n == order@.len(),
                forall|j: int| 0 <= j < sorted@.len() ==> #[trigger] sorted@[j] == cat[order@[j] as int],
                forall|j: int| 0 <= j < taken@.len() ==> #[trigger] taken@[j] == cat[order@[n - 1 - j] as int],
            decreases sorted@.len(),
        {
            let c = sorted.pop().unwrap();
            taken.push(c);
        }
        while taken.len() > 0
            invariant
                taken@.len() + entries@.len() == n,
                n == order@.len(),
                forall|j: int| 0 <= j < taken@.len() ==> #[trigger] taken@[j] == cat[order@[n - 1 - j] as int],
                forall|j: int| 0 <= j < entries@.len() ==> {
                    &&& (#[trigger] entries@[j]).card == cat[order@[j] as int]
                    &&& entries@[j].owned_count == count_of(owned@, entries@[j].card.monster_id)
                    &&& entries@[j].owned == (entries@[j].owned_count > 0)
                },
            decreases taken@.len(),
        {
            let c = taken.pop().unwrap();
            let count = count_owned(owned, c.monster_id);
            entries.push(CardEntry { card: c, owned: count > 0, owned_count: count });
        }
        CardsPage { card_entries: entries, scroll_offset: 0 }
    }

    pub fn scroll_offset(&self) -> (o: usize)
        ensures
            o == self.offset(),
    {
        self.scroll_offset
    }

    /// The `i`-th card of the collection.
    pub fn entry(&self, i: usize) -> (e: &CardEntry)
        requires
            i < self.entries().len(),
        ensures
            *e == self.entries()[i as int],
    {
        &self.card_entries[i]
    }

    pub fn len(&self) -> (n: usize)
        ensures
            n == self.entries().len(),
    {
        self.card_entries.len()
    }

    /// A tap in the top band scrolls up, in the bottom band scrolls down; a tap in the
    /// middle band returns to the menu (`true`).
    pub fn handle_touch(&mut self, x: i32, y: i32) -> (back: bool)
        ensures
            final(self).entries() == old(self).entries(),
            final(self).offset() == scrolled(old(self).offset() as int, old(self).entries().len() as int, y as int),
            back == (!(y < 112 && old(self).offset() > 0) && 112 <= y <= 336),
    {
        if y < 112 && self.scroll_offset > 0 {
            self.scroll_offset = self.scroll_offset - 1;
            false
        } else if y > 336 {
            let max_scroll = self.card_entries.len().saturating_sub(4);
            if self.scroll_offset < max_scroll {
                self.scroll_offset += 1;
            }
            false
        } else if y >= 112 && y <= 336 {
            true
        } else {
            false
        }
    }
}

impl Page for CardsPage {
    fn update(&mut self) -> (alive: bool)
        ensures
            alive,
            *final(self) == *old(self),
    {
        true
    }

    fn mark_dirty(&mut self)
        ensures
            *final(self) == *old(self),
    {
    }

    fn needs_full_redraw(&self) -> (b: bool)
        ensures
            b,
    {
        true
    }
}

} // verus!
