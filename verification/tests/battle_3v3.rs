use stdgotchi::pages::battle_3v3::{
    damage_before_spread, find_fighter, get_enemy_positions, get_hero_positions, random_alive,
    Battle3v3Page, BattleResult, Fighter, WaveStep,
};

fn f(id: u32, atk: u32, def: u32, hp: u32) -> Fighter {
    Fighter { id, atk, def, hp, max_hp: 100 }
}

#[test]
fn damage_is_attack_minus_defence_or_one() {
    assert_eq!(damage_before_spread(30, 10), 20);
    assert_eq!(damage_before_spread(10, 10), 1);
    assert_eq!(damage_before_spread(5, 40), 1);
}

#[test]
fn positions() {
    assert_eq!(get_hero_positions(), [(200, 80), (200, 170), (200, 260)]);
    assert_eq!(get_enemy_positions(), [(60, 80), (60, 170), (60, 260)]);
}

#[test]
fn new_battle() {
    let p = Battle3v3Page::new();
    assert_eq!(p.get_result(), BattleResult::Ongoing);
    assert_eq!(p.current_wave(), 1);
    assert_eq!(p.total_waves(), 5);
    assert_eq!(p.hero(0), None);
    assert_eq!(p.enemy(2), None);
    assert!(p.get_fragment_drops().is_empty());
}

#[test]
fn find_fighter_takes_the_first_match() {
    let roster = vec![f(1, 1, 1, 1), f(2, 2, 2, 2), f(2, 3, 3, 3)];
    assert_eq!(find_fighter(&roster, 2), Some(1));
    assert_eq!(find_fighter(&roster, 9), None);
}

#[test]
fn setup_heroes_skips_fallen_and_unknown() {
    let roster = vec![f(1, 10, 5, 50), f(2, 10, 5, 0), f(3, 10, 5, 40), f(4, 10, 5, 30), f(5, 10, 5, 30)];
    let slots = vec![Some(2), None, Some(9), Some(1), Some(3), Some(4), Some(5)];
    let mut p = Battle3v3Page::new();
    assert_eq!(p.setup_heroes(&slots, &roster), 3);
    assert_eq!(p.hero(0).map(|h| h.id), Some(1));
    assert_eq!(p.hero(1).map(|h| h.id), Some(3));
    assert_eq!(p.hero(2).map(|h| h.id), Some(4));
}

#[test]
fn random_alive_picks_only_standing_fighters() {
    let side = [Some(f(1, 1, 1, 0)), None, Some(f(3, 1, 1, 5))];
    for _ in 0..20 {
        assert_eq!(random_alive(&side), Some(2));
    }
    let down = [Some(f(1, 1, 1, 0)), None, None];
    assert_eq!(random_alive(&down), None);
}

#[test]
fn planned_attacks_target_the_living_with_a_bounded_spread() {
    let mut p = Battle3v3Page::new();
    p.setup_heroes(&vec![Some(1)], &vec![f(1, 30, 5, 50)]);
    p.add_enemies(&vec![7, 8], &vec![f(7, 12, 10, 0), f(8, 12, 10, 20)]);
    for _ in 0..50 {
        let a = p.plan_hero_attack(0).unwrap();
        assert_eq!(a.target, 1);
        assert_eq!(a.base, 20);
        assert!(a.spread_percent >= 80 && a.spread_percent <= 120);
    }
    assert_eq!(p.plan_hero_attack(1), None);
    assert_eq!(p.plan_enemy_attack(0), None);
    let e = p.plan_enemy_attack(1).unwrap();
    assert_eq!(e.target, 0);
    assert_eq!(e.base, 7);
}

#[test]
fn landing_attacks_lowers_hp_and_reports_kills() {
    let mut p = Battle3v3Page::new();
    p.setup_heroes(&vec![Some(1)], &vec![f(1, 30, 5, 50)]);
    p.add_enemies(&vec![7], &vec![f(7, 12, 10, 20)]);
    assert_eq!(p.land_hero_attack(0, 0), Some((1, false)));
    assert_eq!(p.enemy(0).unwrap().hp, 19);
    assert_eq!(p.land_hero_attack(0, 25), Some((25, true)));
    assert_eq!(p.enemy(0).unwrap().hp, 0);
    assert_eq!(p.land_hero_attack(2, 5), None);
    assert_eq!(p.land_enemy_attack(0, 10), Some((10, false)));
    assert_eq!(p.hero(0).unwrap().hp, 40);
}

#[test]
fn fragment_drop_only_while_short() {
    let mut p = Battle3v3Page::new();
    assert!(p.try_fragment_drop(7, "Slime".to_string(), 2, 5));
    assert!(!p.try_fragment_drop(7, "Slime".to_string(), 5, 5));
    assert_eq!(p.get_fragment_drops(), vec![(7, "Slime".to_string())]);
}

#[test]
fn fragment_drops_of_the_battle_count_toward_the_cap() {
    let mut p = Battle3v3Page::new();
    // three owned before the battle, five required: two more may drop
    assert!(p.try_fragment_drop(7, "Slime".to_string(), 3, 5));
    assert!(p.try_fragment_drop(8, "Bat".to_string(), 0, 1));
    assert!(p.try_fragment_drop(7, "Slime".to_string(), 3, 5));
    assert!(!p.try_fragment_drop(7, "Slime".to_string(), 3, 5));
    assert!(!p.try_fragment_drop(8, "Bat".to_string(), 0, 1));
    assert_eq!(p.drops_of(7), 2);
    assert_eq!(p.drops_of(8), 1);
    assert_eq!(p.drops_of(9), 0);
}

#[test]
fn wave_flow_to_victory() {
    let mut p = Battle3v3Page::new();
    p.setup_heroes(&vec![Some(1)], &vec![f(1, 30, 5, 50)]);
    p.add_enemies(&vec![7, 8], &vec![f(7, 12, 10, 5)]);
    assert_eq!(p.check_battle_result(false), WaveStep::Continue);
    p.land_hero_attack(0, 10);
    assert_eq!(p.check_battle_result(false), WaveStep::WaveCleared);
    assert_eq!(p.check_battle_result(false), WaveStep::Continue);
    match p.check_battle_result(true) {
        WaveStep::Spawn(ids) => {
            assert_eq!(ids.len(), 2);
            assert!(ids.iter().all(|i| *i == 7 || *i == 8));
        }
        other => panic!("expected a spawn, got {:?}", other),
    }
    assert_eq!(p.current_wave(), 2);
    assert_eq!(p.enemy(0), None);
    // the next wave failed to appear: the battle counts as won
    p.spawn_failed();
    assert_eq!(p.get_result(), BattleResult::Victory);
}

#[test]
fn last_wave_cleared_wins() {
    let mut p = Battle3v3Page::new();
    p.setup_heroes(&vec![Some(1)], &vec![f(1, 30, 5, 50)]);
    p.add_enemies(&Vec::new(), &vec![f(7, 12, 10, 0)]);
    // empty pool: no further wave
    assert_eq!(p.check_battle_result(false), WaveStep::WaveCleared);
    assert_eq!(p.check_battle_result(true), WaveStep::Won);
    assert_eq!(p.get_result(), BattleResult::Victory);
    assert_eq!(p.plan_hero_attack(0), None);
}

#[test]
fn fallen_heroes_lose() {
    let mut p = Battle3v3Page::new();
    p.setup_heroes(&vec![Some(1)], &vec![f(1, 30, 5, 5)]);
    p.add_enemies(&vec![7], &vec![f(7, 12, 10, 5)]);
    p.land_enemy_attack(0, 9);
    assert_eq!(p.check_battle_result(true), WaveStep::Lost);
    assert_eq!(p.get_result(), BattleResult::Defeat);
}

#[test]
fn roster_hp_follows_the_heroes() {
    let mut p = Battle3v3Page::new();
    let roster0 = vec![f(1, 30, 5, 50), f(2, 30, 5, 40)];
    p.setup_heroes(&vec![Some(1)], &roster0);
    p.add_enemies(&vec![7], &vec![f(7, 12, 10, 5)]);
    p.land_enemy_attack(0, 15);
    let mut roster = roster0.clone();
    p.sync_roster_hp(&mut roster);
    assert_eq!(roster[0].hp, 35);
    assert_eq!(roster[1].hp, 40);
    assert_eq!(p.get_rustymon_collection(&roster0), roster);
}
