//! Choosing how many enemies an expedition hunts: one button per expedition size.

use vstd::prelude::*;
use crate::page::Page;

verus! {

/// Button `i` of the size row, edges included: x from 20 + 88 i to 103 + 88 i, y from
/// 160 to 230.
pub open spec fn on_size_button(i: int, x: int, y: int) -> bool {
    20 + 88 * i <= x <= 103 + 88 * i && 160 <= y <= 230
}

/// The first size button, from `from` on, under the tap.
pub open spec fn size_hit(n: int, x: int, y: int, from: int) -> Option<int>
    decreases n - from,
{
    if from < 0 || from >= n {
        None
    } else if on_size_button(from, x, y) {
        Some(from)
    } else {
        size_hit(n, x, y, from + 1)
    }
}

/// The size choice; sizes are the game's, listed by position.
pub struct ExpeditionSetupPage {
    size_count: usize,
    selected_size: Option<usize>,
}

impl ExpeditionSetupPage {
    pub closed spec fn sizes(&self) -> int {
        self.size_count as int
    }

    pub closed spec fn selection(&self) -> Option<usize> {
        self.selected_size
    }

    /// A choice among `size_count` sizes (at most a screen's width of buttons).
    pub fn new(size_count: usize) -> (p: Self)
        requires
            size_count <= 4,
        ensures
            p.sizes() == size_count,
            p.selection() is None,
    {
        ExpeditionSetupPage { size_count, selected_size: None }
    }

    /// A tap on a size button chooses that size.
    pub fn handle_touch(&mut self, x: i32, y: i32) -> (s: Option<usize>)
        requires
            old(self).sizes() <= 4,
        ensures
            final(self).sizes() == old(self).sizes(),
            s == (match size_hit(old(self).sizes(), x as int, y as int, 0) {
                Some(i) => Some(i as usize),
                None => None::<usize>,
            }),
            final(self).selection() == (if s is Some { s } else { old(self).selection() }),
    {
        let mut i: usize = 0;
        while i < self.size_count
            invariant
                i <= self.size_count,
                self.size_count <= 4,
                self == old(self),
                size_hit(self.size_count as int, x as int, y as int, i as int)
                    == size_hit(self.size_count as int, x as int, y as int, 0),
            decreases self.size_count - i,
        {
            let bx: i32 = 20 + (i as i32) * 88;
            if x >= bx && x <= bx + 83 && y >= 160 && y <= 160 + 70 {
                self.selected_size = Some(i);
                return Some(i);
            }
            i += 1;
        }
        None
    }

    pub fn get_selection(&self) -> (s: Option<usize>)
        ensures
            s == self.selection(),
    {
        self.selected_size
    }
}

impl Page for ExpeditionSetupPage {
    fn update(&mut self) -> (alive: bool)
        ensures
            alive,
            *final(self) == *old(self),
    {
        true
    }

    fn mark_dirty(&mut self)
        ensures
            *final(self) == *old(self),
    {
    }

    fn needs_full_redraw(&self) -> (b: bool)
        ensures
            b,
    {
        true
    }
}

} // verus!
