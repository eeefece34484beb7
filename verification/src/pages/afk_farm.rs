//! Idle farming: the hero gains a fixed amount of experience every cycle until the
//! player stops.

use vstd::prelude::*;

verus! {

/// Sum of the difficulties of the enemies found: each enemy's level times its base
/// experience.
pub open spec fn difficulty_sum(s: Seq<(u32, u32)>) -> int
    decreases s.len(),
{
    if s.len() == 0 { 0 } else { difficulty_sum(s.drop_last()) + s.last().0 * s.last().1 }
}

/// Experience per cycle: the hero's level times the enemy's level times the enemy's
/// base experience, over 50; with several enemies the average of level times base
/// experience is taken. Kept between 5 and 100; 5 when no enemy was found.
pub open spec fn exp_per_cycle(level: int, enemies: Seq<(u32, u32)>) -> int {
    if enemies.len() == 0 {
        5
    } else {
        let raw = level * (difficulty_sum(enemies) / (enemies.len() as int)) / 50;
        if raw < 5 { 5 } else if raw > 100 { 100 } else { raw }
    }
}

proof fn lemma_difficulty_prefix(s: Seq<(u32, u32)>, i: int)
    requires
        0 <= i <= s.len(),
    ensures
        0 <= difficulty_sum(s.take(i)) <= difficulty_sum(s),
    decreases s.len(),
{
    if s.len() > 0 {
        assert(s.last().0 * s.last().1 >= 0) by (nonlinear_arith);
        if i == s.len() {
            assert(s.take(i) =~= s);
            lemma_difficulty_prefix(s.drop_last(), i - 1);
        } else {
            assert(s.drop_last().take(i) =~= s.take(i));
            lemma_difficulty_prefix(s.drop_last(), i);
        }
    } else {
        assert(s.take(i) =~= s);
    }
}

/// Experience per cycle for a hero of `level` against the enemies found among the
/// farmed ones (`enemies`: the level and base experience of each).
pub fn calculate_exp_per_cycle(level: u32, enemies: &Vec<(u32, u32)>) -> (e: u32)
    requires
        difficulty_sum(enemies@) <= u64::MAX,
        enemies@.len() > 0 ==> level * (difficulty_sum(enemies@) / (enemies@.len() as int)) <= u64::MAX,
    ensures
        e == exp_per_cycle(level as int, enemies@),
{
    if enemies.len() == 0 {
        return 5;
    }
    let mut total: u64 = 0;
    let mut i: usize = 0;
    while i < enemies.len()
        invariant
            i <= enemies@.len(),
            difficulty_sum(enemies@) <= u64::MAX,
            total == difficulty_sum(enemies@.take(i as int)),
        decreases enemies@.len() - i,
    {
        proof {
            lemma_difficulty_prefix(enemies@, i as int + 1);
            assert(enemies@.take(i as int + 1).drop_last() =~= enemies@.take(i as int));
        }
        let (lvl, exp) = enemies[i];
        let d: u64 = (lvl as u64) * (exp as u64);
        total = total + d;
        i += 1;
    }
    proof {
        assert(enemies@.take(enemies@.len() as int) =~= enemies@);
    }
    let avg: u64 = total / (enemies.len() as u64);
    let raw: u64 = (level as u64) * avg / 50;
    if raw < 5 { 5 } else if raw > 100 { 100 } else { raw as u32 }
}

/// The character of decimal digit `d`.
pub open spec fn digit_char(d: int) -> char {
    (48 + d) as char
}

/// The decimal digits of `n`, without leading zeros.
pub open spec fn decimal(n: nat) -> Seq<char>
    decreases n,
{
    if n < 10 {
        seq![digit_char(n as int)]
    } else {
        decimal(n / 10).push(digit_char((n % 10) as int))
    }
}

/// `n` in decimal with at least two digits.
pub open spec fn two_digits(n: nat) -> Seq<char> {
    if n < 10 {
        seq!['0'] + decimal(n)
    } else {
        decimal(n)
    }
}

/// A duration in seconds written "MM:SS".
pub open spec fn clock_text(total: nat) -> Seq<char> {
    two_digits(total / 60) + seq![':'] + two_digits(total % 60)
}

fn digit_str(d: u64) -> (s: &'static str)
    requires
        d < 10,
    ensures
        s@ == seq![digit_char(d as int)],
{
    match d {
        0 => {
            proof {
                reveal_strlit("0");
            }
            "0"
        },
        1 => {
            proof {
                reveal_strlit("1");
            }
            "1"
        },
        2 => {
            proof {
                reveal_strlit("2");
            }
            "2"
        },
        3 => {
            proof {
                reveal_strlit("3");
            }
            "3"
        },
        4 => {
            proof {
                reveal_strlit("4");
            }
            "4"
        },
        5 => {
            proof {
                reveal_strlit("5");
            }
            "5"
        },
        6 => {
            proof {
                reveal_strlit("6");
            }
            "6"
        },
        7 => {
            proof {
                reveal_strlit("7");
            }
            "7"
        },
        8 => {
            proof {
                reveal_strlit("8");
            }
            "8"
        },
        _ => {
            proof {
                reveal_strlit("9");
            }
            "9"
        },
    }
}

fn push_decimal(s: &mut String, n: u64)
    ensures
        final(s)@ == old(s)@ + decimal(n as nat),
    decreases n,
{
    if n >= 10 {
        push_decimal(s, n / 10);
    }
    s.append(digit_str(n % 10));
    proof {
        if n >= 10 {
            assert(old(s)@ + decimal((n / 10) as nat) + seq![digit_char((n % 10) as int)]
                =~= old(s)@ + decimal(n as nat));
        } else {
            assert(n % 10 == n);
        }
    }
}

fn push_two_digits(s: &mut String, n: u64)
    ensures
        final(s)@ == old(s)@ + two_digits(n as nat),
{
    if n < 10 {
        s.append("0");
        proof {
            reveal_strlit("0");
        }
    }
    push_decimal(s, n);
    proof {
        if n < 10 {
            assert(old(s)@ + seq!['0'] + decimal(n as nat) =~= old(s)@ + two_digits(n as nat));
        }
    }
}

/// A duration in seconds as "MM:SS": minutes, then seconds, each with at least two
/// digits.
pub fn format_duration(total_secs: u64) -> (r: String)
    ensures
        r@ == clock_text(total_secs as nat),
{
    let mut r = String::new();
    push_two_digits(&mut r, total_secs / 60);
    r.append(":");
    proof {
        reveal_strlit(":");
    }
    push_two_digits(&mut r, total_secs % 60);
    proof {
        assert(r@ =~= clock_text(total_secs as nat));
    }
    r
}

/// The stop button, edges included: x from 100 to 268, y from 400 to 450.
pub open spec fn on_stop(x: int, y: int) -> bool {
    100 <= x <= 268 && 400 <= y <= 450
}

/// State of an idle farming session.
pub struct AfkFarmPage {
    enemy_name: String,
    initial_exp: u32,
    initial_level: u32,
    exp_per_cycle: u32,
    total_exp_gained: u32,
}

impl AfkFarmPage {
    pub closed spec fn per_cycle(&self) -> u32 {
        self.exp_per_cycle
    }

    pub closed spec fn gained(&self) -> u32 {
        self.total_exp_gained
    }

    pub closed spec fn start(&self) -> (u32, u32) {
        (self.initial_exp, self.initial_level)
    }

    /// A session that starts from the hero's experience and level.
    pub fn new(enemy_name: String, initial_exp: u32, initial_level: u32, exp_per_cycle: u32) -> (p: Self)
        ensures
            p.enemy_name_text() == enemy_name@,
            p.per_cycle() == exp_per_cycle,
            p.gained() == 0,
            p.start() == (initial_exp, initial_level),
    {
        AfkFarmPage { enemy_name, initial_exp, initial_level, exp_per_cycle, total_exp_gained: 0 }
    }

    pub closed spec fn enemy_name_text(&self) -> Seq<char> {
        self.enemy_name@
    }

    pub fn enemy_name(&self) -> (s: &str)
        ensures
            s@ == self.enemy_name_text(),
    {
        self.enemy_name.as_str()
    }

    pub fn exp_per_cycle(&self) -> (e: u32)
        ensures
            e == self.per_cycle(),
    {
        self.exp_per_cycle
    }

    pub fn total_exp_gained(&self) -> (e: u32)
        ensures
            e == self.gained(),
    {
        self.total_exp_gained
    }

    pub fn initial(&self) -> (r: (u32, u32))
        ensures
            r == self.start(),
    {
        (self.initial_exp, self.initial_level)
    }

    /// A cycle ended when `due` (every 30 seconds): its experience is counted and
    /// returned for the hero; `None` otherwise.
    pub fn process_exp_gain(&mut self, due: bool) -> (g: Option<u32>)
        requires
            due ==> old(self).gained() + old(self).per_cycle() <= u32::MAX,
        ensures
            final(self).per_cycle() == old(self).per_cycle(),
            final(self).start() == old(self).start(),
            due ==> g == Some(old(self).per_cycle()) && final(self).gained() == old(self).gained() + old(self).per_cycle(),
            !due ==> g is None && final(self).gained() == old(self).gained(),
    {
        if !due {
            return None;
        }
        self.total_exp_gained = self.total_exp_gained + self.exp_per_cycle;
        Some(self.exp_per_cycle)
    }

    /// A tap on the stop button ends the session.
    pub fn handle_touch(&self, x: i32, y: i32) -> (b: bool)
        ensures
            b == on_stop(x as int, y as int),
    {
        x >= 100 && x <= 100 + 168 && y >= 400 && y <= 400 + 50
    }
}

/// Experience per cycle always lies between 5 and 100.
pub proof fn lemma_exp_per_cycle_bounds(level: int, enemies: Seq<(u32, u32)>)
    ensures
        5 <= exp_per_cycle(level, enemies) <= 100,
{
}

} // verus!
