//! Three heroes against waves of three enemies: target choice, damage, waves and
//! the outcome of the battle.
//!
//! Each entity attacks on its own timer; the caller reports which ones are ready,
//! applies the random damage spread and keeps the sprites.

use vstd::prelude::*;
use crate::random::{random_index, random_in};

verus! {

/// Animation an entity is playing.
#[derive(Clone, Copy, Debug, PartialEq, Eq, Structural)]
pub enum AnimationType {
    Idle,
    Attack,
    Attacked,
    Death,
}

/// Side of the battle an entity fights on.
#[derive(Clone, Copy, Debug, PartialEq, Eq, Structural)]
pub enum EntityRole {
    Hero,
    Enemy,
}

/// Where the battle stands.
#[derive(Clone, Copy, Debug, PartialEq, Eq, Structural)]
pub enum BattleResult {
    Ongoing,
    Victory,
    Defeat,
}

/// The stats a fighter brings into the battle.
#[derive(Clone, Copy, Debug, PartialEq, Eq, Structural)]
pub struct Fighter {
    pub id: u32,
    pub atk: u32,
    pub def: u32,
    pub hp: u32,
    pub max_hp: u32,
}

impl Fighter {
    pub open spec fn alive(self) -> bool {
        self.hp > 0
    }
}

/// Damage before the random spread: attack minus defence, at least 1.
pub open spec fn base_damage(atk: int, def: int) -> int {
    if atk > def { atk - def } else { 1 }
}

/// HP left after taking `damage`, stopping at zero.
pub open spec fn hp_after(hp: int, damage: int) -> int {
    if damage >= hp { 0 } else { hp - damage }
}

/// Slots of `side` that hold a standing fighter.
pub open spec fn alive_at(side: Seq<Option<Fighter>>, i: int) -> bool {
    side[i] matches Some(f) && f.alive()
}

/// No slot of `side` holds a standing fighter.
pub open spec fn side_down(side: Seq<Option<Fighter>>) -> bool {
    forall|i: int| 0 <= i < 3 ==> !#[trigger] alive_at(side, i)
}

/// Hero positions on screen, right side, top to bottom.
pub open spec fn hero_position(i: int) -> (int, int) {
    (200, 80 + 90 * i)
}

/// Enemy positions on screen, left side, top to bottom.
pub open spec fn enemy_position(i: int) -> (int, int) {
    (60, 80 + 90 * i)
}

/// Damage before the random spread: attack minus defence, at least 1.
pub fn damage_before_spread(atk: u32, def: u32) -> (d: u32)
    ensures
        d == base_damage(atk as int, def as int),
{
    if atk > def { atk - def } else { 1 }
}

/// Screen position of hero slot `i`.
pub fn get_hero_positions() -> (p: [(i32, i32); 3])
    ensures
        forall|i: int| 0 <= i < 3 ==> (#[trigger] p@[i]).0 == hero_position(i).0 && p@[i].1 == hero_position(i).1,
{
    [(200, 80), (200, 170), (200, 260)]
}

/// Screen position of enemy slot `i`.
pub fn get_enemy_positions() -> (p: [(i32, i32); 3])
    ensures
        forall|i: int| 0 <= i < 3 ==> (#[trigger] p@[i]).0 == enemy_position(i).0 && p@[i].1 == enemy_position(i).1,
{
    [(60, 80), (60, 170), (60, 260)]
}

/// An attack chosen for a ready attacker: whom it hits, the damage before the spread
/// and the spread in percent (80 to 120).
#[derive(Clone, Copy, Debug, PartialEq, Eq, Structural)]
pub struct PlannedAttack {
    pub target: usize,
    pub base: u32,
    pub spread_percent: u32,
}

/// A battle has three hero slots and three enemy slots.
pub proof fn lemma_slot_counts(p: Battle3v3Page)
    ensures
        p.hero_slots().len() == 3,
        p.enemy_slots().len() == 3,
{
}

/// How many of `drops` are fragments of `enemy_id`.
pub open spec fn drop_count(drops: Seq<(u32, String)>, enemy_id: u32) -> nat
    decreases drops.len(),
{
    if drops.len() == 0 {
        0
    } else {
        drop_count(drops.drop_last(), enemy_id) + if drops.last().0 == enemy_id { 1nat } else { 0nat }
    }
}

/// A new drop adds one to its own enemy's count and leaves the others' counts alone.
pub proof fn lemma_drop_count_push(drops: Seq<(u32, String)>, dropped: u32, name: String, enemy_id: u32)
    ensures
        drop_count(drops.push((dropped, name)), enemy_id)
            == drop_count(drops, enemy_id) + if dropped == enemy_id { 1nat } else { 0nat },
{
    assert(drops.push((dropped, name)).drop_last() =~= drops);
}

/// Within a battle the fragments of an enemy never pass the required count: if the
/// fragments owned at the start plus those dropped so far are at most `required`,
/// they still are after the next drop of that enemy is tried.
pub proof fn lemma_fragment_cap(drops: Seq<(u32, String)>, enemy_id: u32, name: String, owned: u32, required: u32)
    requires
        owned + drop_count(drops, enemy_id) <= required,
    ensures
        ({
            let kept = owned + drop_count(drops, enemy_id) < required;
            let after = if kept { drops.push((enemy_id, name)) } else { drops };
            owned + drop_count(after, enemy_id) <= required
        }),
{
    lemma_drop_count_push(drops, enemy_id, name, enemy_id);
}

/// State of the three-against-three battle.
pub struct Battle3v3Page {
    heroes: [Option<Fighter>; 3],
    enemies: [Option<Fighter>; 3],
    result: BattleResult,
    current_wave: u32,
    total_waves: u32,
    wave_cleared: bool,
    enemy_ids_pool: Vec<u32>,
    fragment_drops: Vec<(u32, String)>,
}

impl Battle3v3Page {
    pub closed spec fn hero_slots(&self) -> Seq<Option<Fighter>> {
        self.heroes@
    }

    pub closed spec fn enemy_slots(&self) -> Seq<Option<Fighter>> {
        self.enemies@
    }

    pub closed spec fn result_of(&self) -> BattleResult {
        self.result
    }

    pub closed spec fn wave(&self) -> int {
        self.current_wave as int
    }

    pub closed spec fn waves(&self) -> int {
        self.total_waves as int
    }

    pub closed spec fn cleared(&self) -> bool {
        self.wave_cleared
    }

    pub closed spec fn pool(&self) -> Seq<u32> {
        self.enemy_ids_pool@
    }

    pub closed spec fn drops(&self) -> Seq<(u32, String)> {
        self.fragment_drops@
    }

    /// A battle of five waves, at the first, with no fighters yet.
    pub fn new() -> (p: Self)
        ensures
            p.hero_slots() == seq![None::<Fighter>, None, None],
            p.enemy_slots() == seq![None::<Fighter>, None, None],
            p.result_of() == BattleResult::Ongoing,
            p.wave() == 1,
            p.waves() == 5,
            !p.cleared(),
            p.pool().len() == 0,
            p.drops().len() == 0,
    {
        let p = Battle3v3Page {
            heroes: [None, None, None],
            enemies: [None, None, None],
            result: BattleResult::Ongoing,
            current_wave: 1,
            total_waves: 5,
            wave_cleared: false,
            enemy_ids_pool: Vec::new(),
            fragment_drops: Vec::new(),
        };
        assert(p.heroes@ =~= seq![None::<Fighter>, None, None]);
        assert(p.enemies@ =~= seq![None::<Fighter>, None, None]);
        p
    }

    pub fn get_result(&self) -> (r: BattleResult)
        ensures
            r == self.result_of(),
    {
        self.result
    }

    pub fn current_wave(&self) -> (w: u32)
        ensures
            w == self.wave(),
    {
        self.current_wave
    }

    pub fn total_waves(&self) -> (w: u32)
        ensures
            w == self.waves(),
    {
        self.total_waves
    }

    pub fn hero(&self, i: usize) -> (f: Option<Fighter>)
        requires
            i < 3,
        ensures
            f == self.hero_slots()[i as int],
    {
        self.heroes[i]
    }

    pub fn enemy(&self, i: usize) -> (f: Option<Fighter>)
        requires
            i < 3,
        ensures
            f == self.enemy_slots()[i as int],
    {
        self.enemies[i]
    }

    /// Fragments dropped so far: enemy id and name.
    pub fn get_fragment_drops(&self) -> (d: Vec<(u32, String)>)
        ensures
            d@ == self.drops(),
    {
        let mut out: Vec<(u32, String)> = Vec::new();
        let mut i: usize = 0;
        while i < self.fragment_drops.len()
            invariant
                i <= self.fragment_drops@.len(),
                out@.len() == i,
                forall|j: int| 0 <= j < i ==> #[trigger] out@[j] == self.fragment_drops@[j],
            decreases self.fragment_drops@.len() - i,
        {
            let (id, name) = &self.fragment_drops[i];
            out.push((*id, name.clone()));
            i += 1;
        }
        assert(out@ =~= self.fragment_drops@);
        out
    }
}


/// Index of the first fighter of `roster`, from `from` on, with the given id.
pub open spec fn first_with_id(roster: Seq<Fighter>, id: u32, from: int) -> Option<int>
    decreases roster.len() - from,
{
    if from < 0 || from >= roster.len() {
        None
    } else if roster[from].id == id {
        Some(from)
    } else {
        first_with_id(roster, id, from + 1)
    }
}

/// The standing fighters that the team slots name, in slot order.
pub open spec fn team_picks(slots: Seq<Option<u32>>, roster: Seq<Fighter>) -> Seq<Fighter>
    decreases slots.len(),
{
    if slots.len() == 0 {
        seq![]
    } else {
        let prev = team_picks(slots.drop_last(), roster);
        match slots.last() {
            Some(id) => match first_with_id(roster, id, 0) {
                Some(j) => if roster[j].hp > 0 { prev.push(roster[j]) } else { prev },
                None => prev,
            },
            None => prev,
        }
    }
}

/// HP of the last hero slot below `k` that holds the fighter `id`.
pub open spec fn hero_hp_upto(heroes: Seq<Option<Fighter>>, id: u32, k: int) -> Option<u32>
    decreases k,
{
    if k <= 0 {
        None
    } else {
        match heroes[k - 1] {
            Some(h) => if h.id == id { Some(h.hp) } else { hero_hp_upto(heroes, id, k - 1) },
            None => hero_hp_upto(heroes, id, k - 1),
        }
    }
}

/// Roster entry `j` after the heroes' HP was carried back: the first entry of each id
/// takes the HP of the last hero slot holding that id.
pub open spec fn synced_entry(roster: Seq<Fighter>, heroes: Seq<Option<Fighter>>, j: int) -> Fighter {
    let f = roster[j];
    if first_with_id(roster, f.id, 0) == Some(j) {
        match hero_hp_upto(heroes, f.id, 3) {
            Some(hp) => Fighter { hp, ..f },
            None => f,
        }
    } else {
        f
    }
}

proof fn lemma_first_with_id_same_ids(a: Seq<Fighter>, b: Seq<Fighter>, id: u32, from: int)
    requires
        a.len() == b.len(),
        forall|j: int| 0 <= j < a.len() ==> #[trigger] a[j].id == b[j].id,
    ensures
        first_with_id(a, id, from) == first_with_id(b, id, from),
    decreases a.len() - from,
{
    if 0 <= from < a.len() {
        lemma_first_with_id_same_ids(a, b, id, from + 1);
    }
}

proof fn lemma_first_with_id_found(roster: Seq<Fighter>, id: u32, from: int)
    requires
        first_with_id(roster, id, from) matches Some(j),
    ensures
        first_with_id(roster, id, from) matches Some(j) && from <= j < roster.len() && roster[j].id == id,
    decreases roster.len() - from,
{
    if 0 <= from < roster.len() && roster[from].id != id {
        lemma_first_with_id_found(roster, id, from + 1);
    }
}

/// Index of the first fighter of `roster` with the given id.
pub fn find_fighter(roster: &Vec<Fighter>, id: u32) -> (r: Option<usize>)
    ensures
        r matches Some(j) ==> j < roster@.len() && roster@[j as int].id == id && first_with_id(roster@, id, 0) == Some(j as int),
        r is None ==> first_with_id(roster@, id, 0) is None,
{
    let mut i: usize = 0;
    while i < roster.len()
        invariant
            i <= roster@.len(),
            first_with_id(roster@, id, i as int) == first_with_id(roster@, id, 0),
        decreases roster@.len() - i,
    {
        if roster[i].id == id {
            return Some(i);
        }
        i += 1;
    }
    None
}

/// A standing fighter of `side`, drawn at random; `None` when all are down.
pub fn random_alive(side: &[Option<Fighter>; 3]) -> (r: Option<usize>)
    ensures
        r is None <==> side_down(side@),
        r matches Some(i) ==> i < 3 && alive_at(side@, i as int),
{
    let mut alive: Vec<usize> = Vec::new();
    let mut i: usize = 0;
    while i < 3
        invariant
            i <= 3,
            forall|k: int| 0 <= k < alive@.len() ==> #[trigger] alive@[k] < 3 && alive_at(side@, alive@[k] as int),
            forall|k: int| 0 <= k < i && alive_at(side@, k) ==> alive@.contains(k as usize),
        decreases 3 - i,
    {
        let standing = match side[i] {
            Some(f) => f.hp > 0,
            None => false,
        };
        let ghost before = alive@;
        if standing {
            alive.push(i);
            assert(alive@[alive@.len() - 1] == i);
        }
        assert forall|k: int| 0 <= k < i + 1 && alive_at(side@, k) implies alive@.contains(k as usize) by {
            if k < i {
                let m = choose|m: int| 0 <= m < before.len() && before[m] == k as usize;
                assert(alive@[m] == k as usize);
            }
        }
        i += 1;
    }
    if alive.len() == 0 {
        assert forall|k: int| 0 <= k < 3 implies !#[trigger] alive_at(side@, k) by {
            if alive_at(side@, k) {
                assert(alive@.contains(k as usize));
            }
        }
        None
    } else {
        let pick = alive[random_index(alive.len())];
        Some(pick)
    }
}

impl Battle3v3Page {
    /// Fills the hero slots with the first three standing fighters that the team slots
    /// name (each id taken from its first roster entry), in slot order. Returns how many
    /// heroes were placed; the other hero slots keep what they held.
    pub fn setup_heroes(&mut self, slots: &Vec<Option<u32>>, roster: &Vec<Fighter>) -> (loaded: usize)
        ensures
            loaded as int == if team_picks(slots@, roster@).len() < 3 { team_picks(slots@, roster@).len() as int } else { 3 },
            forall|k: int| 0 <= k < loaded ==> #[trigger] final(self).hero_slots()[k] == Some(team_picks(slots@, roster@)[k]),
            forall|k: int| loaded <= k < 3 ==> #[trigger] final(self).hero_slots()[k] == old(self).hero_slots()[k],
            final(self).enemy_slots() == old(self).enemy_slots(),
            final(self).result_of() == old(self).result_of(),
            final(self).wave() == old(self).wave(),
            final(self).waves() == old(self).waves(),
            final(self).cleared() == old(self).cleared(),
            final(self).pool() == old(self).pool(),
            final(self).drops() == old(self).drops(),
    {
        let mut loaded: usize = 0;
        let mut i: usize = 0;
        while i < slots.len()
            invariant
                i <= slots@.len(),
                loaded as int == if team_picks(slots@.take(i as int), roster@).len() < 3 {
                    team_picks(slots@.take(i as int), roster@).len() as int
                } else {
                    3
                },
                forall|k: int| 0 <= k < loaded ==> #[trigger] self.heroes@[k] == Some(team_picks(slots@.take(i as int), roster@)[k]),
                forall|k: int| loaded <= k < 3 ==> #[trigger] self.heroes@[k] == old(self).heroes@[k],
                self.enemies == old(self).enemies,
                self.result == old(self).result,
                self.current_wave == old(self).current_wave,
                self.total_waves == old(self).total_waves,
                self.wave_cleared == old(self).wave_cleared,
                self.enemy_ids_pool == old(self).enemy_ids_pool,
                self.fragment_drops == old(self).fragment_drops,
            decreases slots@.len() - i,
        {
            proof {
                assert(slots@.take(i as int + 1).drop_last() =~= slots@.take(i as int));
            }
            if let Some(id) = slots[i] {
                if let Some(j) = find_fighter(roster, id) {
                    if roster[j].hp > 0 && loaded < 3 {
                        self.heroes[loaded] = Some(roster[j]);
                        loaded += 1;
                    }
                }
            }
            i += 1;
        }
        proof {
            assert(slots@.take(slots@.len() as int) =~= slots@);
        }
        loaded
    }

    /// Stores the enemies of a wave: the pool of enemy ids is kept from the first call,
    /// and enemy slot `i` gets `wave[i]` for the first three.
    pub fn add_enemies(&mut self, enemy_ids: &Vec<u32>, wave: &Vec<Fighter>)
        ensures
            final(self).pool() == (if old(self).pool().len() == 0 { enemy_ids@ } else { old(self).pool() }),
            forall|k: int| 0 <= k < 3 ==> #[trigger] final(self).enemy_slots()[k] == (
                if k < wave@.len() { Some(wave@[k]) } else { old(self).enemy_slots()[k] }),
            final(self).hero_slots() == old(self).hero_slots(),
            final(self).result_of() == old(self).result_of(),
            final(self).wave() == old(self).wave(),
            final(self).waves() == old(self).waves(),
            final(self).cleared() == old(self).cleared(),
            final(self).drops() == old(self).drops(),
    {
        if self.enemy_ids_pool.len() == 0 {
            self.enemy_ids_pool = enemy_ids.clone();
        }
        let mut i: usize = 0;
        while i < 3 && i < wave.len()
            invariant
                i <= 3,
                i <= wave@.len(),
                forall|k: int| 0 <= k < i ==> #[trigger] self.enemies@[k] == Some(wave@[k]),
                forall|k: int| i <= k < 3 ==> #[trigger] self.enemies@[k] == old(self).enemies@[k],
                self.enemy_ids_pool@ == (if old(self).enemy_ids_pool@.len() == 0 { enemy_ids@ } else { old(self).enemy_ids_pool@ }),
                self.heroes == old(self).heroes,
                self.result == old(self).result,
                self.current_wave == old(self).current_wave,
                self.total_waves == old(self).total_waves,
                self.wave_cleared == old(self).wave_cleared,
                self.fragment_drops == old(self).fragment_drops,
            decreases 3 - i,
        {
            self.enemies[i] = Some(wave[i]);
            i += 1;
        }
    }
}

/// What the battle asks of the caller after its outcome was checked.
#[derive(Clone, Debug, PartialEq, Eq)]
pub enum WaveStep {
    /// The fight goes on.
    Continue,
    /// The last enemy of the wave just fell; the pause before the next wave starts now.
    WaveCleared,
    /// A new wave began: load these enemies and pass them to `add_enemies`.
    Spawn(Vec<u32>),
    /// Every wave was beaten.
    Won,
    /// Every hero fell.
    Lost,
}

impl Battle3v3Page {
    /// The attack of a ready hero in slot `hero`: a standing enemy drawn at random,
    /// the damage before the spread, and a spread of 80 to 120 percent. `None` once the
    /// battle is decided, when the hero is missing or down, or when no enemy stands.
    pub fn plan_hero_attack(&self, hero: usize) -> (p: Option<PlannedAttack>)
        requires
            hero < 3,
        ensures
            p is None <==> (self.result_of() != BattleResult::Ongoing || !alive_at(self.hero_slots(), hero as int)
                || side_down(self.enemy_slots())),
            p matches Some(a) ==> {
                &&& a.target < 3
                &&& alive_at(self.enemy_slots(), a.target as int)
                &&& a.base == base_damage(self.hero_slots()[hero as int]->0.atk as int,
                    self.enemy_slots()[a.target as int]->0.def as int)
                &&& 80 <= a.spread_percent <= 120
            },
    {
        if self.result != BattleResult::Ongoing {
            return None;
        }
        let attacker = match self.heroes[hero] {
            Some(f) => f,
            None => return None,
        };
        if attacker.hp == 0 {
            return None;
        }
        match random_alive(&self.enemies) {
            Some(t) => {
                let target = self.enemies[t].unwrap();
                Some(PlannedAttack {
                    target: t,
                    base: damage_before_spread(attacker.atk, target.def),
                    spread_percent: random_in(80, 120),
                })
            },
            None => None,
        }
    }

    /// The attack of a ready enemy in slot `enemy` on a standing hero drawn at random.
    pub fn plan_enemy_attack(&self, enemy: usize) -> (p: Option<PlannedAttack>)
        requires
            enemy < 3,
        ensures
            p is None <==> (self.result_of() != BattleResult::Ongoing || !alive_at(self.enemy_slots(), enemy as int)
                || side_down(self.hero_slots())),
            p matches Some(a) ==> {
                &&& a.target < 3
                &&& alive_at(self.hero_slots(), a.target as int)
                &&& a.base == base_damage(self.enemy_slots()[enemy as int]->0.atk as int,
                    self.hero_slots()[a.target as int]->0.def as int)
                &&& 80 <= a.spread_percent <= 120
            },
    {
        if self.result != BattleResult::Ongoing {
            return None;
        }
        let attacker = match self.enemies[enemy] {
            Some(f) => f,
            None => return None,
        };
        if attacker.hp == 0 {
            return None;
        }
        match random_alive(&self.heroes) {
            Some(t) => {
                let target = self.heroes[t].unwrap();
                Some(PlannedAttack {
                    target: t,
                    base: damage_before_spread(attacker.atk, target.def),
                    spread_percent: random_in(80, 120),
                })
            },
            None => None,
        }
    }

    /// The enemy in slot `target` takes `damage` (at least 1). Returns the damage dealt
    /// and whether the enemy fell, or `None` for an empty slot.
    pub fn land_hero_attack(&mut self, target: usize, damage: u32) -> (r: Option<(u32, bool)>)
        requires
            target < 3,
        ensures
            old(self).hero_slots().len() == 3,
            old(self).enemy_slots().len() == 3,
            final(self).hero_slots().len() == 3,
            final(self).enemy_slots().len() == 3,
            final(self).hero_slots() == old(self).hero_slots(),
            final(self).result_of() == old(self).result_of(),
            final(self).wave() == old(self).wave(),
            final(self).waves() == old(self).waves(),
            final(self).cleared() == old(self).cleared(),
            final(self).pool() == old(self).pool(),
            final(self).drops() == old(self).drops(),
            match old(self).enemy_slots()[target as int] {
                Some(f) => {
                    let dealt = if damage >= 1 { damage as int } else { 1 };
                    let hp = hp_after(f.hp as int, dealt);
                    &&& r == Some((dealt as u32, hp == 0))
                    &&& final(self).enemy_slots() == old(self).enemy_slots().update(target as int, Some(Fighter { hp: hp as u32, ..f }))
                },
                None => r is None && final(self).enemy_slots() == old(self).enemy_slots(),
            },
    {
        let dealt: u32 = if damage >= 1 { damage } else { 1 };
        match self.enemies[target] {
            Some(f) => {
                let hp: u32 = if dealt >= f.hp { 0 } else { f.hp - dealt };
                self.enemies[target] = Some(Fighter { hp, ..f });
                Some((dealt, hp == 0))
            },
            None => None,
        }
    }

    /// The hero in slot `target` takes `damage` (at least 1). Returns the damage dealt
    /// and whether the hero fell, or `None` for an empty slot.
    pub fn land_enemy_attack(&mut self, target: usize, damage: u32) -> (r: Option<(u32, bool)>)
        requires
            target < 3,
        ensures
            old(self).hero_slots().len() == 3,
            old(self).enemy_slots().len() == 3,
            final(self).hero_slots().len() == 3,
            final(self).enemy_slots().len() == 3,
            final(self).enemy_slots() == old(self).enemy_slots(),
            final(self).result_of() == old(self).result_of(),
            final(self).wave() == old(self).wave(),
            final(self).waves() == old(self).waves(),
            final(self).cleared() == old(self).cleared(),
            final(self).pool() == old(self).pool(),
            final(self).drops() == old(self).drops(),
            match old(self).hero_slots()[target as int] {
                Some(f) => {
                    let dealt = if damage >= 1 { damage as int } else { 1 };
                    let hp = hp_after(f.hp as int, dealt);
                    &&& r == Some((dealt as u32, hp == 0))
                    &&& final(self).hero_slots() == old(self).hero_slots().update(target as int, Some(Fighter { hp: hp as u32, ..f }))
                },
                None => r is None && final(self).hero_slots() == old(self).hero_slots(),
            },
    {
        let dealt: u32 = if damage >= 1 { damage } else { 1 };
        match self.heroes[target] {
            Some(f) => {
                let hp: u32 = if dealt >= f.hp { 0 } else { f.hp - dealt };
                self.heroes[target] = Some(Fighter { hp, ..f });
                Some((dealt, hp == 0))
            },
            None => None,
        }
    }

    /// How many fragments of `enemy_id` this battle has dropped so far.
    pub fn drops_of(&self, enemy_id: u32) -> (n: u64)
        ensures
            n == drop_count(self.drops(), enemy_id),
    {
        let mut n: u64 = 0;
        let mut i: usize = 0;
        while i < self.fragment_drops.len()
            invariant
                i <= self.fragment_drops@.len(),
                n == drop_count(self.fragment_drops@.take(i as int), enemy_id),
                n <= i,
            decreases self.fragment_drops@.len() - i,
        {
            proof {
                assert(self.fragment_drops@.take(i as int + 1).drop_last() =~= self.fragment_drops@.take(i as int));
            }
            if self.fragment_drops[i].0 == enemy_id {
                n = n + 1;
            }
            i += 1;
        }
        proof {
            assert(self.fragment_drops@.take(self.fragment_drops@.len() as int) =~= self.fragment_drops@);
        }
        n
    }

    /// A fallen enemy's fragment dropped. `owned` is how many fragments of that enemy
    /// the player held when the battle began; the drops of this battle count too. The
    /// fragment is kept while the total is below `required`. Returns whether it was
    /// kept.
    pub fn try_fragment_drop(&mut self, enemy_id: u32, name: String, owned: u32, required: u32) -> (kept: bool)
        ensures
            kept == (owned + drop_count(old(self).drops(), enemy_id) < required),
            final(self).drops() == (if kept { old(self).drops().push((enemy_id, name)) } else { old(self).drops() }),
            final(self).hero_slots() == old(self).hero_slots(),
            final(self).enemy_slots() == old(self).enemy_slots(),
            final(self).result_of() == old(self).result_of(),
            final(self).wave() == old(self).wave(),
            final(self).waves() == old(self).waves(),
            final(self).cleared() == old(self).cleared(),
            final(self).pool() == old(self).pool(),
    {
        let earlier = self.drops_of(enemy_id);
        if earlier < (required as u64) && (owned as u64) + earlier < (required as u64) {
            self.fragment_drops.push((enemy_id, name));
            true
        } else {
            false
        }
    }

    /// Settles the battle after a round of attacks. With every hero down the battle is
    /// lost. When the last enemy of the wave falls the wave counts as cleared; once
    /// `clear_delay_done` (the death animations ran), the next wave starts with up to
    /// three enemies drawn from the pool, or the battle is won after the last wave (or
    /// when there is no pool to draw from).
    pub fn check_battle_result(&mut self, clear_delay_done: bool) -> (step: WaveStep)
        ensures
            final(self).hero_slots() == old(self).hero_slots(),
            final(self).waves() == old(self).waves(),
            final(self).pool() == old(self).pool(),
            final(self).drops() == old(self).drops(),
            if side_down(old(self).hero_slots()) {
                &&& step == WaveStep::Lost
                &&& final(self).result_of() == BattleResult::Defeat
                &&& final(self).enemy_slots() == old(self).enemy_slots()
                &&& final(self).wave() == old(self).wave()
                &&& final(self).cleared() == old(self).cleared()
            } else {
                let cleared = old(self).cleared() || side_down(old(self).enemy_slots());
                let due = cleared && side_down(old(self).enemy_slots()) && clear_delay_done;
                if !due {
                    &&& step == (if cleared && !old(self).cleared() { WaveStep::WaveCleared } else { WaveStep::Continue })
                    &&& final(self).result_of() == old(self).result_of()
                    &&& final(self).enemy_slots() == old(self).enemy_slots()
                    &&& final(self).wave() == old(self).wave()
                    &&& final(self).cleared() == cleared
                } else if old(self).wave() < old(self).waves() && old(self).pool().len() > 0 {
                    &&& step matches WaveStep::Spawn(ids) && ids@.len() == (if old(self).pool().len() < 3 { old(self).pool().len() as int } else { 3 })
                        && forall|k: int| 0 <= k < ids@.len() ==> old(self).pool().contains(#[trigger] ids@[k])
                    &&& final(self).result_of() == old(self).result_of()
                    &&& final(self).enemy_slots() == seq![None::<Fighter>, None, None]
                    &&& final(self).wave() == old(self).wave() + 1
                    &&& !final(self).cleared()
                } else {
                    &&& step == WaveStep::Won
                    &&& final(self).result_of() == BattleResult::Victory
                    &&& final(self).enemy_slots() == old(self).enemy_slots()
                    &&& final(self).wave() == old(self).wave()
                    &&& final(self).cleared() == cleared
                }
            },
    {
        if self.all_down(true) {
            self.result = BattleResult::Defeat;
            return WaveStep::Lost;
        }
        let enemies_down = self.all_down(false);
        let mut step = WaveStep::Continue;
        if enemies_down && !self.wave_cleared {
            self.wave_cleared = true;
            step = WaveStep::WaveCleared;
        }
        if self.wave_cleared && enemies_down && clear_delay_done {
            if self.current_wave < self.total_waves && self.enemy_ids_pool.len() > 0 {
                self.current_wave = self.current_wave + 1;
                self.wave_cleared = false;
                self.enemies = [None, None, None];
                assert(self.enemies@ =~= seq![None::<Fighter>, None, None]);
                let n = self.enemy_ids_pool.len();
                let count: usize = if n < 3 { n } else { 3 };
                let mut ids: Vec<u32> = Vec::new();
                let mut k: usize = 0;
                while k < count
                    invariant
                        k <= count,
                        count <= 3,
                        n == self.enemy_ids_pool@.len(),
                        n > 0,
                        ids@.len() == k,
                        forall|m: int| 0 <= m < k ==> self.enemy_ids_pool@.contains(#[trigger] ids@[m]),
                    decreases count - k,
                {
                    let r = random_index(n);
                    let id = self.enemy_ids_pool[r];
                    ids.push(id);
                    assert(self.enemy_ids_pool@[r as int] == id);
                    k += 1;
                }
                return WaveStep::Spawn(ids);
            } else {
                self.result = BattleResult::Victory;
                return WaveStep::Won;
            }
        }
        step
    }

    /// A new wave could not be loaded; the battle ends in victory.
    pub fn spawn_failed(&mut self)
        ensures
            final(self).result_of() == BattleResult::Victory,
            final(self).hero_slots() == old(self).hero_slots(),
            final(self).enemy_slots() == old(self).enemy_slots(),
            final(self).wave() == old(self).wave(),
            final(self).waves() == old(self).waves(),
            final(self).cleared() == old(self).cleared(),
            final(self).pool() == old(self).pool(),
            final(self).drops() == old(self).drops(),
    {
        self.result = BattleResult::Victory;
    }

    /// Whether every hero slot (`heroes`) or every enemy slot is empty or down.
    fn all_down(&self, heroes: bool) -> (b: bool)
        ensures
            b == side_down(if heroes { self.hero_slots() } else { self.enemy_slots() }),
    {
        let side = if heroes { &self.heroes } else { &self.enemies };
        let mut i: usize = 0;
        while i < 3
            invariant
                i <= 3,
                side@ == (if heroes { self.heroes@ } else { self.enemies@ }),
                forall|k: int| 0 <= k < i ==> !#[trigger] alive_at(side@, k),
            decreases 3 - i,
        {
            if let Some(f) = side[i] {
                if f.hp > 0 {
                    assert(alive_at(side@, i as int));
                    return false;
                }
            }
            i += 1;
        }
        true
    }

    /// The roster after the battle: `roster` with the heroes' HP carried back, as
    /// `sync_roster_hp` does.
    pub fn get_rustymon_collection(&self, roster: &Vec<Fighter>) -> (r: Vec<Fighter>)
        ensures
            r@.len() == roster@.len(),
            forall|j: int| 0 <= j < roster@.len() ==> #[trigger] r@[j] == synced_entry(roster@, self.hero_slots(), j),
    {
        let mut copy: Vec<Fighter> = Vec::new();
        let mut i: usize = 0;
        while i < roster.len()
            invariant
                i <= roster@.len(),
                copy@ == roster@.take(i as int),
            decreases roster@.len() - i,
        {
            copy.push(roster[i]);
            i += 1;
        }
        assert(copy@ =~= roster@);
        self.sync_roster_hp(&mut copy);
        copy
    }

    /// Carries the heroes' HP back to the roster: the first entry of each hero's id
    /// takes the HP of the last hero slot holding that id.
    pub fn sync_roster_hp(&self, roster: &mut Vec<Fighter>)
        ensures
            final(roster)@.len() == old(roster)@.len(),
            forall|j: int| 0 <= j < old(roster)@.len() ==> #[trigger] final(roster)@[j] == synced_entry(old(roster)@, self.hero_slots(), j),
    {
        let ghost orig = roster@;
        let mut h: usize = 0;
        while h < 3
            invariant
                h <= 3,
                roster@.len() == orig.len(),
                forall|j: int| 0 <= j < orig.len() ==> #[trigger] roster@[j].id == orig[j].id,
                forall|j: int| 0 <= j < orig.len() ==> #[trigger] roster@[j] == (
                    if first_with_id(orig, orig[j].id, 0) == Some(j) {
                        match hero_hp_upto(self.heroes@, orig[j].id, h as int) {
                            Some(hp) => Fighter { hp, ..orig[j] },
                            None => orig[j],
                        }
                    } else {
                        orig[j]
                    }),
            decreases 3 - h,
        {
            if let Some(hero) = self.heroes[h] {
                proof {
                    lemma_first_with_id_same_ids(roster@, orig, hero.id, 0);
                }
                if let Some(j) = find_fighter(roster, hero.id) {
                    let f = roster[j];
                    roster.set(j, Fighter { hp: hero.hp, ..f });
                }
            }
            h += 1;
        }
    }
}

proof fn lemma_first_with_id_at(roster: Seq<Fighter>, id: u32, from: int, j: int)
    requires
        0 <= from <= j < roster.len(),
        roster[j].id == id,
        forall|q: int| from <= q < j ==> #[trigger] roster[q].id != id,
    ensures
        first_with_id(roster, id, from) == Some(j),
    decreases j - from,
{
    if from < j {
        lemma_first_with_id_at(roster, id, from + 1, j);
    }
}

proof fn lemma_hero_hp_upto_last(heroes: Seq<Option<Fighter>>, hero: Fighter, h: int, k: int)
    requires
        0 <= h < k <= heroes.len(),
        heroes[h] == Some(hero),
        forall|g: int| h < g < k ==> !(#[trigger] heroes[g] matches Some(o) && o.id == hero.id),
    ensures
        hero_hp_upto(heroes, hero.id, k) == Some(hero.hp),
    decreases k,
{
    if k - 1 > h {
        assert(!(heroes[k - 1] matches Some(o) && o.id == hero.id));
        lemma_hero_hp_upto_last(heroes, hero, h, k - 1);
    }
}

/// Carrying HP back after the battle: when hero slot `h` holds a fighter and no later
/// slot holds the same id, the first roster entry with that id ends with exactly that
/// hero's HP, whatever it is (a fallen hero's 0 included); the entry's other fields stay.
pub proof fn lemma_synced_hero_hp(roster: Seq<Fighter>, heroes: Seq<Option<Fighter>>, hero: Fighter, h: int, j: int)
    requires
        heroes.len() == 3,
        0 <= h < 3,
        heroes[h] == Some(hero),
        forall|g: int| h < g < 3 ==> !(#[trigger] heroes[g] matches Some(o) && o.id == hero.id),
        0 <= j < roster.len(),
        roster[j].id == hero.id,
        forall|q: int| 0 <= q < j ==> #[trigger] roster[q].id != hero.id,
    ensures
        synced_entry(roster, heroes, j) == (Fighter { hp: hero.hp, ..roster[j] }),
{
    lemma_first_with_id_at(roster, hero.id, 0, j);
    lemma_hero_hp_upto_last(heroes, hero, h, 3);
}

/// Carrying HP back leaves alone every roster entry that is not the first of its id, and
/// every entry whose id no hero slot holds.
pub proof fn lemma_synced_untouched(roster: Seq<Fighter>, heroes: Seq<Option<Fighter>>, j: int)
    requires
        heroes.len() == 3,
        0 <= j < roster.len(),
        (exists|q: int| 0 <= q < j && #[trigger] roster[q].id == roster[j].id)
            || (forall|g: int| 0 <= g < 3 ==> !(#[trigger] heroes[g] matches Some(o) && o.id == roster[j].id)),
    ensures
        synced_entry(roster, heroes, j) == roster[j],
{
    if exists|q: int| 0 <= q < j && #[trigger] roster[q].id == roster[j].id {
        let q = choose|q: int| 0 <= q < j && #[trigger] roster[q].id == roster[j].id;
        lemma_first_with_id_before(roster, roster[j].id, 0, q, j);
    } else {
        lemma_hero_hp_upto_none(heroes, roster[j].id, 3);
    }
}

proof fn lemma_first_with_id_before(roster: Seq<Fighter>, id: u32, from: int, q: int, j: int)
    requires
        0 <= from <= q < j < roster.len(),
        roster[q].id == id,
    ensures
        first_with_id(roster, id, from) != Some(j),
    decreases q - from,
{
    if from < q && roster[from].id != id {
        lemma_first_with_id_before(roster, id, from + 1, q, j);
    }
}

proof fn lemma_hero_hp_upto_none(heroes: Seq<Option<Fighter>>, id: u32, k: int)
    requires
        0 <= k <= heroes.len(),
        forall|g: int| 0 <= g < k ==> !(#[trigger] heroes[g] matches Some(o) && o.id == id),
    ensures
        hero_hp_upto(heroes, id, k) is None,
    decreases k,
{
    if k > 0 {
        assert(!(heroes[k - 1] matches Some(o) && o.id == id));
        lemma_hero_hp_upto_none(heroes, id, k - 1);
    }
}

} // verus!
