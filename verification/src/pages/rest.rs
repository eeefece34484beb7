//! Resting: up to three monsters regain HP in small steps until all are full.

use vstd::prelude::*;

verus! {

/// HP regained per step.
pub const HP_REGEN_AMOUNT: u32 = 3;

/// HP and maximum of a resting monster.
#[derive(Clone, Copy, Debug, PartialEq, Eq, Structural)]
pub struct RestMember {
    pub hp: u32,
    pub max_hp: u32,
}

/// HP after one regeneration step: 3 more, up to the maximum.
pub open spec fn regen_step(m: RestMember) -> RestMember {
    if m.hp < m.max_hp {
        let gain = if m.max_hp - m.hp < HP_REGEN_AMOUNT { m.max_hp - m.hp } else { HP_REGEN_AMOUNT as int };
        RestMember { hp: (m.hp + gain) as u32, max_hp: m.max_hp }
    } else {
        m
    }
}

pub open spec fn all_full(ms: Seq<RestMember>) -> bool {
    forall|i: int| 0 <= i < ms.len() ==> (#[trigger] ms[i]).hp >= ms[i].max_hp
}

/// The continue button, edges included: x from 100 to 268, y from 420 to 460.
pub open spec fn on_continue(x: int, y: int) -> bool {
    100 <= x <= 268 && 420 <= y <= 460
}

/// The resting monsters.
pub struct RestPage {
    members: Vec<RestMember>,
}

impl RestPage {
    pub closed spec fn team(&self) -> Seq<RestMember> {
        self.members@
    }

    /// Rests the first three of `team`.
    pub fn new(team: &Vec<RestMember>) -> (p: Self)
        ensures
            p.team() == team@.take(if team@.len() < 3 { team@.len() as int } else { 3 }),
    {
        let mut members: Vec<RestMember> = Vec::new();
        let mut i: usize = 0;
        while i < team.len() && i < 3
            invariant
                i <= team@.len(),
                i <= 3,
                members@ == team@.take(i as int),
            decreases 3 - i,
        {
            members.push(team[i]);
            i += 1;
            assert(members@ =~= team@.take(i as int));
        }
        RestPage { members }
    }

    /// The monsters as they are now.
    pub fn get_updated_rustymon(&self) -> (v: Vec<RestMember>)
        ensures
            v@ == self.team(),
    {
        self.members.clone()
    }

    /// One regeneration step, when it is due (every two seconds).
    pub fn process_regen(&mut self, due: bool)
        ensures
            final(self).team().len() == old(self).team().len(),
            forall|i: int| 0 <= i < old(self).team().len() ==> #[trigger] final(self).team()[i] == (
                if due { regen_step(old(self).team()[i]) } else { old(self).team()[i] }),
    {
        if !due {
            return;
        }
        let n = self.members.len();
        let mut i: usize = 0;
        while i < n
            invariant
                n == self.members@.len(),
                n == old(self).members@.len(),
                i <= n,
                forall|j: int| 0 <= j < i ==> #[trigger] self.members@[j] == regen_step(old(self).members@[j]),
                forall|j: int| i <= j < n ==> #[trigger] self.members@[j] == old(self).members@[j],
            decreases n - i,
        {
            let m = self.members[i];
            if m.hp < m.max_hp {
                let room = m.max_hp - m.hp;
                let gain = if room < HP_REGEN_AMOUNT { room } else { HP_REGEN_AMOUNT };
                self.members.set(i, RestMember { hp: m.hp + gain, max_hp: m.max_hp });
            }
            i += 1;
        }
    }

    /// Every monster is at full HP.
    pub fn is_hp_full(&self) -> (b: bool)
        ensures
            b == all_full(self.team()),
    {
        let mut i: usize = 0;
        while i < self.members.len()
            invariant
                i <= self.members@.len(),
                forall|j: int| 0 <= j < i ==> (#[trigger] self.members@[j]).hp >= self.members@[j].max_hp,
            decreases self.members@.len() - i,
        {
            if self.members[i].hp < self.members[i].max_hp {
                return false;
            }
            i += 1;
        }
        true
    }

    /// A tap on the continue button leaves, once everyone is full.
    pub fn handle_touch(&self, x: i32, y: i32) -> (b: bool)
        ensures
            b == (all_full(self.team()) && on_continue(x as int, y as int)),
    {
        if !self.is_hp_full() {
            return false;
        }
        x >= 100 && x <= 100 + 168 && y >= 420 && y <= 420 + 40
    }
}

/// Resting never lowers HP nor raises it past the maximum, and each step brings a
/// monster below its maximum closer to it.
pub proof fn lemma_regen_step(m: RestMember)
    requires
        m.hp <= m.max_hp,
    ensures
        m.hp <= regen_step(m).hp <= m.max_hp,
        regen_step(m).max_hp == m.max_hp,
        m.hp < m.max_hp ==> regen_step(m).hp > m.hp,
{
}

} // verus!
