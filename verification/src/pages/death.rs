//! The hero fell: a two-minute wait, then the respawn button.

use vstd::prelude::*;
use crate::page::Page;

verus! {

/// Length of the wait before respawning, in nanoseconds.
pub const RESPAWN_NANOS: u64 = 120_000_000_000;

/// Whole seconds left of the wait after `elapsed` nanoseconds.
pub open spec fn wait_left_secs(elapsed: int) -> int {
    if elapsed >= RESPAWN_NANOS { 0 } else { (RESPAWN_NANOS - elapsed) / 1_000_000_000 }
}

/// The respawn button: (90, 390), 190 by 60.
pub open spec fn on_respawn_button(x: int, y: int) -> bool {
    90 <= x < 280 && 390 <= y < 450
}

/// The countdown never goes up as time passes, and it is zero from two minutes on.
pub proof fn lemma_wait_left_monotone(a: int, b: int)
    requires
        0 <= a <= b,
    ensures
        0 <= wait_left_secs(b) <= wait_left_secs(a),
        b >= RESPAWN_NANOS ==> wait_left_secs(b) == 0,
{
    if b < RESPAWN_NANOS {
        assert((RESPAWN_NANOS - b) / 1_000_000_000int <= (RESPAWN_NANOS - a) / 1_000_000_000int) by (nonlinear_arith)
            requires
                0 <= RESPAWN_NANOS - b <= RESPAWN_NANOS - a;
    }
}

/// The death screen; the caller reports the time since death in nanoseconds.
pub struct DeathPage {
    needs_full_redraw: bool,
    can_respawn: bool,
    last_remaining_seconds: Option<u64>,
}

impl DeathPage {
    pub closed spec fn respawn_open(&self) -> bool {
        self.can_respawn
    }

    pub closed spec fn shown_secs(&self) -> Option<u64> {
        self.last_remaining_seconds
    }

    pub fn new() -> (p: Self)
        ensures
            p.redraw_pending(),
            !p.respawn_open(),
            p.shown_secs() is None,
    {
        DeathPage { needs_full_redraw: true, can_respawn: false, last_remaining_seconds: None }
    }

    pub fn can_respawn(&self) -> (b: bool)
        ensures
            b == self.respawn_open(),
    {
        self.can_respawn
    }

    /// Whole seconds of the wait left after `elapsed_nanos`.
    pub fn remaining_seconds(&self, elapsed_nanos: u64) -> (s: u64)
        ensures
            s == wait_left_secs(elapsed_nanos as int),
    {
        if elapsed_nanos >= RESPAWN_NANOS { 0 } else { (RESPAWN_NANOS - elapsed_nanos) / 1_000_000_000 }
    }

    /// Once the wait is over the respawn button opens, and stays open.
    pub fn tick(&mut self, elapsed_nanos: u64)
        ensures
            final(self).respawn_open() == (old(self).respawn_open() || elapsed_nanos >= RESPAWN_NANOS),
            final(self).shown_secs() == old(self).shown_secs(),
    {
        if !self.can_respawn && elapsed_nanos >= RESPAWN_NANOS {
            self.can_respawn = true;
        }
    }

    /// Before drawing: the seconds to show, and whether they changed since the last
    /// frame. A wait shown as over opens the respawn button.
    pub fn frame(&mut self, elapsed_nanos: u64) -> (r: (u64, bool))
        ensures
            r.0 == wait_left_secs(elapsed_nanos as int),
            r.1 == (old(self).shown_secs() != Some(r.0)),
            final(self).shown_secs() == Some(r.0),
            final(self).respawn_open() == (old(self).respawn_open() || r.0 == 0),
    {
        let remaining = self.remaining_seconds(elapsed_nanos);
        let changed = match self.last_remaining_seconds {
            Some(s) => s != remaining,
            None => true,
        };
        if remaining == 0 {
            self.can_respawn = true;
        }
        self.last_remaining_seconds = Some(remaining);
        (remaining, changed)
    }

    /// A tap on the respawn button respawns, once it is open.
    pub fn handle_touch(&self, x: i32, y: i32) -> (b: bool)
        ensures
            b == (self.respawn_open() && on_respawn_button(x as int, y as int)),
    {
        if !self.can_respawn {
            return false;
        }
        x >= 90 && x < 90 + 190 && y >= 390 && y < 390 + 60
    }
}

impl DeathPage {
    /// A full redraw is pending.
    pub closed spec fn redraw_pending(&self) -> bool {
        self.needs_full_redraw
    }
}

impl Page for DeathPage {
    fn update(&mut self) -> (alive: bool)
        ensures
            alive,
            *final(self) == *old(self),
    {
        true
    }

    fn mark_dirty(&mut self)
        ensures
            final(self).redraw_pending(),
    {
        self.needs_full_redraw = true;
    }

    fn needs_full_redraw(&self) -> (b: bool)
        ensures
            b == self.redraw_pending(),
    {
        self.needs_full_redraw
    }
}

} // verus!
