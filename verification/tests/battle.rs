use stdgotchi::page::Page;
use stdgotchi::pages::battle::{blow_damage, BattleAction, BattlePage, Foe};
use stdgotchi::pages::battle_result::{BattleResultAction, BattleResultPage};
use stdgotchi::pages::bonus_selection::{BonusSelectionAction, BonusSelectionPage};

fn foe(atk: u32, def: u32, hp: u32) -> Foe {
    Foe { id: 4, name: "Bat".to_string(), atk, def, hp, max_hp: hp, exp_reward: 33 }
}

#[test]
fn blow_damage_formula() {
    assert_eq!(blow_damage(20, 10), 15);
    assert_eq!(blow_damage(20, 60), 1);
    assert_eq!(blow_damage(5, 10), 1);
    assert_eq!(blow_damage(0, 0), 1);
}

#[test]
fn exchange_of_blows_until_victory() {
    let mut p = BattlePage::new(foe(30, 10, 40));
    assert_eq!(p.hero_hp_of(), (100, 100));
    assert_eq!(p.handle_touch(false), BattleAction::NoAction);
    assert_eq!(p.get_enemy().hp, 40);
    // the hero hits for 20 - 5 = 15, the foe answers with 30 - 5 = 25
    assert_eq!(p.handle_touch(true), BattleAction::NoAction);
    assert_eq!(p.get_enemy().hp, 25);
    assert_eq!(p.hero_hp_of(), (75, 100));
    assert_eq!(p.handle_touch(true), BattleAction::NoAction);
    assert_eq!(p.handle_touch(true), BattleAction::Victory);
    assert_eq!(p.get_enemy().hp, 0);
    // the felled foe does not strike back
    assert_eq!(p.hero_hp_of(), (50, 100));
    assert!(p.is_victory());
    assert!(!p.hero_died());
    assert_eq!(p.get_exp_gained(), 33);
}

#[test]
fn a_strong_foe_defeats_the_hero() {
    let mut p = BattlePage::new(foe(200, 100, 500));
    assert_eq!(p.handle_touch(true), BattleAction::Defeat);
    assert!(p.hero_died());
    assert_eq!(p.hero_hp_of().0, 0);
    assert!(p.needs_full_redraw());
}

#[test]
fn result_page_always_continues() {
    let p = BattleResultPage::new(120, true);
    assert_eq!(p.handle_touch(0, 0), BattleResultAction::Continue);
    assert_eq!(p.get_exp_gained(), 120);
    assert!(p.is_victory());
    let q = BattleResultPage::new(0, false);
    assert!(!q.is_victory());
}

#[test]
fn bonus_cards_are_picked_by_touch() {
    let mut p = BonusSelectionPage::new(vec!["atk", "def", "hp"], ("x", "y", "z"), 4, "Cave".to_string(), 75);
    assert_eq!(p.floor_xp(), 75);
    assert_eq!(p.current_floor(), 4);
    assert_eq!(p.dungeon_name(), "Cave");
    assert_eq!(p.get_bonus(1), Some(&"def"));
    assert_eq!(p.get_bonus(3), None);
    assert_eq!(p.handle_touch(20, 70), BonusSelectionAction::NoAction);
    p.layout();
    assert_eq!(p.handle_touch(20, 70), BonusSelectionAction::Selected(0));
    assert_eq!(p.handle_touch(20, 140), BonusSelectionAction::Selected(1));
    assert_eq!(p.selected_index(), Some(1));
    assert_eq!(p.handle_touch(20, 200), BonusSelectionAction::NoAction);
    assert_eq!(p.selected_index(), Some(1));
    assert_eq!(p.handle_touch(20, 210), BonusSelectionAction::Selected(2));
}

#[test]
fn short_bonus_lists_are_filled_from_the_defaults() {
    let p = BonusSelectionPage::new(vec!["atk"], ("x", "y", "z"), 1, "Cave".to_string(), 0);
    assert_eq!(p.get_bonus(0), Some(&"atk"));
    assert_eq!(p.get_bonus(1), Some(&"y"));
    assert_eq!(p.get_bonus(2), Some(&"z"));
    let q = BonusSelectionPage::new(vec!["a", "b", "c", "d"], ("x", "y", "z"), 1, "Cave".to_string(), 0);
    assert_eq!(q.get_bonus(2), Some(&"c"));
    let e: BonusSelectionPage<&str> = BonusSelectionPage::new(vec![], ("x", "y", "z"), 1, "Cave".to_string(), 0);
    assert_eq!(e.get_bonus(0), Some(&"x"));
}
