//! An expedition under way: what it hunts and how long is left.

use vstd::prelude::*;
use crate::clock::unix_now;
use crate::page::Page;

verus! {

/// Seconds left at time `now` before `end`.
pub open spec fn seconds_left(end: int, now: int) -> int {
    if now >= end { 0 } else { end - now }
}

/// A running expedition; times are Unix seconds.
pub struct ExpeditionInProgressPage {
    enemy_name: String,
    target_kills: u32,
    start_time: u64,
    end_time: u64,
}

impl ExpeditionInProgressPage {
    pub closed spec fn start(&self) -> u64 {
        self.start_time
    }

    pub closed spec fn end(&self) -> u64 {
        self.end_time
    }

    pub fn new(enemy_name: String, target_kills: u32, start_time: u64, end_time: u64) -> (p: Self)
        ensures
            p.enemy_name_text() == enemy_name@,
            p.target_kills_value() == target_kills,
            p.start() == start_time,
            p.end() == end_time,
    {
        ExpeditionInProgressPage { enemy_name, target_kills, start_time, end_time }
    }

    pub closed spec fn enemy_name_text(&self) -> Seq<char> {
        self.enemy_name@
    }

    pub fn enemy_name(&self) -> (s: &str)
        ensures
            s@ == self.enemy_name_text(),
    {
        self.enemy_name.as_str()
    }

    pub closed spec fn target_kills_value(&self) -> u32 {
        self.target_kills
    }

    pub fn target_kills(&self) -> (r: u32)
        ensures
            r == self.target_kills_value(),
    {
        self.target_kills
    }

    pub fn start_time(&self) -> (t: u64)
        ensures
            t == self.start(),
    {
        self.start_time
    }

    pub fn end_time(&self) -> (t: u64)
        ensures
            t == self.end(),
    {
        self.end_time
    }

    /// Whether the expedition is over at time `now`.
    pub fn is_complete_at(&self, now: u64) -> (b: bool)
        ensures
            b == (now >= self.end()),
    {
        now >= self.end_time
    }

    /// Seconds left at time `now`.
    pub fn remaining_seconds_at(&self, now: u64) -> (s: u64)
        ensures
            s == seconds_left(self.end() as int, now as int),
    {
        if now >= self.end_time { 0 } else { self.end_time - now }
    }

    /// Whether the expedition is over now, by the wall clock (`is_complete_at` of the
    /// clock's reading); an expedition that ends at time 0 is always over.
    pub fn is_complete(&self) -> (b: bool)
        ensures
            self.end() == 0 ==> b,
    {
        self.is_complete_at(unix_now())
    }

    /// Seconds left now, by the wall clock (`remaining_seconds_at` of the clock's
    /// reading); never more than the end time itself.
    pub fn remaining_seconds(&self) -> (s: u64)
        ensures
            s <= self.end(),
    {
        let now = unix_now();
        self.remaining_seconds_at(now)
    }
}

/// Minutes and seconds of a duration in seconds, for a "M:SS" display.
pub fn minutes_seconds(total: u64) -> (r: (u64, u64))
    ensures
        r.0 == total / 60,
        r.1 == total % 60,
{
    (total / 60, total % 60)
}

impl Page for ExpeditionInProgressPage {
    fn update(&mut self) -> (alive: bool)
        ensures
            alive,
            *final(self) == *old(self),
    {
        true
    }

    fn mark_dirty(&mut self)
        ensures
            *final(self) == *old(self),
    {
    }

    fn needs_full_redraw(&self) -> (b: bool)
        ensures
            b,
    {
        true
    }
}

} // verus!
