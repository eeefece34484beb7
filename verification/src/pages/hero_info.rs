//! The hero's profile screen; it shows whatever hero it was last given.

use vstd::prelude::*;
use crate::page::Page;

verus! {

/// Profile of a hero of the game's type `H`.
pub struct HeroInfoPage<H> {
    hero: H,
}

impl<H> HeroInfoPage<H> {
    pub closed spec fn shown(&self) -> H {
        self.hero
    }

    pub fn new(hero: H) -> (p: Self)
        ensures
            p.shown() == hero,
    {
        HeroInfoPage { hero }
    }

    /// The hero changed: show the new one.
    pub fn update_hero(&mut self, hero: H)
        ensures
            final(self).shown() == hero,
    {
        self.hero = hero;
    }

    pub fn hero(&self) -> (h: &H)
        ensures
            *h == self.shown(),
    {
        &self.hero
    }
}

impl<H> Page for HeroInfoPage<H> {
    fn update(&mut self) -> (alive: bool)
        ensures
            alive,
            *final(self) == *old(self),
    {
        true
    }

    fn mark_dirty(&mut self)
        ensures
            *final(self) == *old(self),
    {
    }

    fn needs_full_redraw(&self) -> (b: bool)
        ensures
            b,
    {
        true
    }
}

} // verus!
