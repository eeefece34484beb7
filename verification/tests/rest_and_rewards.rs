use stdgotchi::element::Element;
use stdgotchi::page::Page;
use stdgotchi::pages::afk_farm::{calculate_exp_per_cycle, format_duration, AfkFarmPage};
use stdgotchi::pages::between_floors::{
    BetweenFloorsAction, BetweenFloorsPage, MonsterSnapshot, MonsterStatusData,
};
use stdgotchi::pages::death::DeathPage;
use stdgotchi::pages::rest::{RestMember, RestPage};

#[test]
fn exp_per_cycle_formula() {
    // hero level x enemy level x base experience / 50
    assert_eq!(calculate_exp_per_cycle(10, &vec![(1, 50)]), 10);
    assert_eq!(calculate_exp_per_cycle(10, &vec![(3, 40)]), 24);
    // several enemies: the average of level x base experience
    assert_eq!(calculate_exp_per_cycle(10, &vec![(2, 50), (4, 50)]), 30);
    assert_eq!(calculate_exp_per_cycle(10, &vec![]), 5);
    // clamped below at 5 and above at 100
    assert_eq!(calculate_exp_per_cycle(1, &vec![(1, 10)]), 5);
    assert_eq!(calculate_exp_per_cycle(50, &vec![(20, 100)]), 100);
}

#[test]
fn exp_per_cycle_stays_between_5_and_100() {
    for lvl in [1u32, 5, 20, 60] {
        for e in [0u32, 7, 80, 900] {
            let v = calculate_exp_per_cycle(lvl, &vec![(lvl, e), (1, e / 2)]);
            assert!(v >= 5 && v <= 100);
        }
    }
}

#[test]
fn durations() {
    assert_eq!(format_duration(0), "00:00");
    assert_eq!(format_duration(125), "02:05");
    assert_eq!(format_duration(3600), "60:00");
    assert_eq!(format_duration(6000 + 59), "100:59");
}

#[test]
fn afk_farm_accumulates_exp() {
    let mut p = AfkFarmPage::new("Slime".to_string(), 40, 3, 12);
    assert_eq!(p.enemy_name(), "Slime");
    assert_eq!(p.initial(), (40, 3));
    assert_eq!(p.process_exp_gain(false), None);
    assert_eq!(p.process_exp_gain(true), Some(12));
    assert_eq!(p.process_exp_gain(true), Some(12));
    assert_eq!(p.total_exp_gained(), 24);
    assert_eq!(p.exp_per_cycle(), 12);
    assert!(p.handle_touch(100, 400));
    assert!(p.handle_touch(268, 450));
    assert!(!p.handle_touch(269, 420));
}

#[test]
fn rest_regenerates_three_hp_up_to_max() {
    let team = vec![
        RestMember { hp: 10, max_hp: 20 },
        RestMember { hp: 19, max_hp: 20 },
        RestMember { hp: 20, max_hp: 20 },
        RestMember { hp: 1, max_hp: 50 },
    ];
    let mut p = RestPage::new(&team);
    assert_eq!(p.get_updated_rustymon().len(), 3);
    assert!(!p.is_hp_full());
    assert!(!p.handle_touch(150, 430));
    p.process_regen(false);
    assert_eq!(p.get_updated_rustymon()[0].hp, 10);
    p.process_regen(true);
    let hp: Vec<u32> = p.get_updated_rustymon().iter().map(|m| m.hp).collect();
    assert_eq!(hp, vec![13, 20, 20]);
    for _ in 0..3 {
        p.process_regen(true);
    }
    assert!(p.is_hp_full());
    assert!(p.handle_touch(150, 430));
    assert!(!p.handle_touch(150, 470));
}

#[test]
fn death_timer_counts_down_two_minutes() {
    let mut p = DeathPage::new();
    assert!(p.needs_full_redraw());
    assert!(!p.can_respawn());
    assert_eq!(p.remaining_seconds(0), 120);
    assert_eq!(p.remaining_seconds(500_000_000), 119);
    assert_eq!(p.frame(1_000_000_000), (119, true));
    assert_eq!(p.frame(1_500_000_000), (118, true));
    assert_eq!(p.frame(1_600_000_000), (118, false));
    p.tick(60_000_000_000);
    assert!(!p.can_respawn());
    assert!(!p.handle_touch(100, 400));
    p.tick(120_000_000_000);
    assert!(p.can_respawn());
    assert!(p.handle_touch(100, 400));
    assert!(!p.handle_touch(280, 400));
    let mut q = DeathPage::new();
    assert_eq!(q.frame(200_000_000_000), (0, true));
    assert!(q.can_respawn());
    assert!(q.needs_full_redraw());
}

fn snapshot(name: &str, alive: bool, xp: u32) -> MonsterSnapshot {
    MonsterSnapshot {
        name: name.to_string(),
        element: Element::Fire,
        level: 3,
        hp_current: if alive { 10 } else { 0 },
        hp_max: 20,
        is_alive: alive,
        xp,
        xp_to_next: 100,
    }
}

#[test]
fn xp_is_shared_among_the_living() {
    let mut p: BetweenFloorsPage<u8> = BetweenFloorsPage::new("Cave".to_string(), 1, 0, 0, 0, Vec::new(), Vec::new());
    assert_eq!(p.dungeon_name(), "Cave");
    p.update_from_combat(&vec![snapshot("a", true, 5), snapshot("b", false, 6), snapshot("c", true, 7)], 11, 125, 2);
    assert_eq!(p.progress_of(), (2, 1, 11, 125));
    let gained: Vec<u32> = p.team_status.iter().map(|s| s.xp_gained).collect();
    assert_eq!(gained, vec![62, 0, 62]);
    assert_eq!(p.team_status[2].xp_current, 7);
    p.update_from_combat(&vec![snapshot("a", false, 5)], 4, 10, 3);
    assert_eq!(p.progress_of(), (3, 2, 15, 135));
    assert_eq!(p.team_status[0].xp_gained, 0);
}

#[test]
fn between_floors_buttons() {
    let alive = MonsterStatusData {
        name: "a".to_string(),
        element: Element::Water,
        level: 1,
        hp_current: 5,
        hp_max: 10,
        is_alive: true,
        xp_current: 0,
        xp_to_next: 10,
        xp_gained: 0,
    };
    let mut p: BetweenFloorsPage<u8> = BetweenFloorsPage::new("Cave".to_string(), 1, 0, 0, 0, vec![alive], vec![1, 2]);
    assert_eq!(p.handle_touch(20, 240), BetweenFloorsAction::NoAction);
    p.layout();
    assert!(p.can_continue());
    assert_eq!(p.handle_touch(20, 240), BetweenFloorsAction::Continue);
    assert_eq!(p.handle_touch(130, 240), BetweenFloorsAction::Abandon);
    assert_eq!(p.handle_touch(120, 240), BetweenFloorsAction::NoAction);
    p.team_status[0].is_alive = false;
    assert!(!p.can_continue());
    assert_eq!(p.handle_touch(20, 240), BetweenFloorsAction::NoAction);
    assert_eq!(p.active_bonuses(), &vec![1, 2]);
    p.set_active_bonuses(vec![9]);
    assert_eq!(p.active_bonuses(), &vec![9]);
}
