use stdgotchi::element::Element;
use stdgotchi::pages::dungeon_combat::{
    reaction_for, rewards_for_floor, ActiveAnim, CombatMonster, CombatState, DungeonCombatAction,
    DungeonCombatPage, PhaseStep, Reaction, TurnAction, TurnPhase,
};

fn monster(hp: u16, max: u16, spd: u16) -> CombatMonster {
    CombatMonster { hp_current: hp, hp_max: max, spd, skill_count: 2, cooldowns: vec![0, 0] }
}

fn fight(team: Vec<CombatMonster>, enemy: CombatMonster) -> CombatState {
    CombatState {
        player_monsters: team,
        active_index: 0,
        enemy,
        enemy_aura: None,
        current_floor: 5,
        is_boss_floor: false,
        crystals_earned: 0,
        xp_earned: 0,
        combat_ended: false,
        player_won: false,
    }
}

#[test]
fn rewards_formula() {
    assert_eq!(rewards_for_floor(5, false), (11, 125));
    assert_eq!(rewards_for_floor(5, true), (33, 250));
    assert_eq!(rewards_for_floor(0, false), (10, 50));
    assert_eq!(rewards_for_floor(u16::MAX, true), ((10 + 65535 / 3) * 3, (50 + 65535 * 15) * 2));
}

#[test]
fn boss_floor_pays_triple_crystals_and_double_xp() {
    for floor in [1u16, 7, 30, 1000] {
        let (c, x) = rewards_for_floor(floor, false);
        let (bc, bx) = rewards_for_floor(floor, true);
        assert_eq!(bc, 3 * c);
        assert_eq!(bx, 2 * x);
    }
}

#[test]
fn reaction_table() {
    assert_eq!(reaction_for(Some(Element::Water), Element::Fire), (200, Some(Reaction::Vaporize)));
    assert_eq!(reaction_for(Some(Element::Water), Element::Thunder), (150, Some(Reaction::Electrocute)));
    assert_eq!(reaction_for(Some(Element::Water), Element::Earth), (100, Some(Reaction::Bloom)));
    assert_eq!(reaction_for(Some(Element::Fire), Element::Water), (200, Some(Reaction::Vaporize)));
    assert_eq!(reaction_for(Some(Element::Fire), Element::Fire), (100, None));
    assert_eq!(reaction_for(None, Element::Fire), (100, None));
    assert_eq!(reaction_for(Some(Element::Earth), Element::Water), (100, None));
}

#[test]
fn monster_helpers() {
    let mut m = CombatMonster { hp_current: 10, hp_max: 20, spd: 5, skill_count: 2, cooldowns: vec![2, 0] };
    assert!(m.is_alive());
    assert!(m.is_skill_on_cooldown(0));
    assert!(!m.is_skill_on_cooldown(1));
    assert!(!m.is_skill_on_cooldown(5));
    assert!(!m.can_use_skill(0));
    assert!(m.can_use_skill(1));
    assert!(!m.can_use_skill(2));
    m.tick_cooldowns();
    assert_eq!(m.cooldowns, vec![1, 0]);
    m.take_damage(15);
    assert_eq!(m.hp_current, 0);
    assert!(!m.is_alive());
    assert!(!m.can_use_skill(1));
}

#[test]
fn faster_player_acts_first_and_cooldowns_tick() {
    let mut team = vec![monster(50, 100, 50)];
    team[0].cooldowns = vec![2, 0];
    let mut page = DungeonCombatPage::new(fight(team, monster(80, 80, 30)), "Cave".to_string());
    assert_eq!(page.dungeon_name(), "Cave");
    assert_eq!(page.turn_phase(), TurnPhase::DeterminingTurnOrder);
    assert_eq!(page.update(false), PhaseStep::PlayerTurnStarted);
    assert_eq!(page.turn_phase(), TurnPhase::PlayerSelectAction);
    assert_eq!(page.combat_state().player_monsters[0].cooldowns, vec![1, 0]);
}

#[test]
fn faster_enemy_acts_first() {
    let team = vec![monster(50, 100, 10)];
    let mut page = DungeonCombatPage::new(fight(team, monster(80, 80, 60)), "Cave".to_string());
    assert_eq!(page.update(false), PhaseStep::EnemyTurnStarted);
    assert_eq!(page.turn_phase(), TurnPhase::EnemyActionExecuting);
    assert_eq!(page.action_target(), ActiveAnim::Enemy);
    assert_eq!(page.update(false), PhaseStep::Idle);
    assert_eq!(page.update(true), PhaseStep::ApplyEnemyAttack);
    assert!(page.enemy_attack(30));
    assert_eq!(page.combat_state().player_monsters[0].hp_current, 20);
    page.resolve_enemy_action();
    assert_eq!(page.turn_phase(), TurnPhase::EnemyActionComplete);
    assert_eq!(page.action_target(), ActiveAnim::Neither);
    assert_eq!(page.update(true), PhaseStep::Advanced);
    assert_eq!(page.turn_phase(), TurnPhase::DeterminingTurnOrder);
}

#[test]
fn equal_counters_go_to_the_player() {
    let team = vec![monster(50, 100, 50)];
    let mut page = DungeonCombatPage::new(fight(team, monster(80, 80, 50)), "Cave".to_string());
    assert_eq!(page.update(false), PhaseStep::PlayerTurnStarted);
}

#[test]
fn skill_tap_runs_the_skill_and_a_kill_pays_the_floor() {
    let team = vec![monster(50, 100, 50)];
    let mut st = fight(team, monster(30, 80, 30));
    st.enemy_aura = Some(Element::Water);
    let mut page = DungeonCombatPage::new(st, "Cave".to_string());
    page.update(false);
    page.layout();
    assert!(page.can_use_skill_slot(0));
    assert!(!page.can_swap());
    // tap on the first skill button
    assert_eq!(page.handle_touch(10, 210), DungeonCombatAction::UseSkill);
    assert_eq!(
        page.turn_phase(),
        TurnPhase::PlayerActionExecuting { action_type: TurnAction::UseSkill { slot: 0 } }
    );
    assert_eq!(page.action_target(), ActiveAnim::Player);
    assert_eq!(page.update(true), PhaseStep::ApplyPlayerAction(TurnAction::UseSkill { slot: 0 }));
    let (mult, reaction, healed) = page.check_reaction(Element::Fire);
    assert_eq!((mult, reaction, healed), (200, Some(Reaction::Vaporize), None));
    assert_eq!(page.combat_state().enemy_aura, None);
    page.hit_enemy(40, Element::Fire);
    assert_eq!(page.combat_state().enemy.hp_current, 0);
    assert_eq!(page.combat_state().enemy_aura, Some(Element::Fire));
    page.start_active_cooldown(0, 3);
    assert_eq!(page.combat_state().player_monsters[0].cooldowns, vec![3, 0]);
    page.resolve_player_action();
    assert_eq!(page.turn_phase(), TurnPhase::CombatEnded { victory: true });
    assert!(page.is_death_anim_playing());
    assert_eq!(page.combat_result(), Some((true, 11, 125)));
    page.finish_death_animation();
    assert!(!page.is_death_anim_playing());
}

#[test]
fn surviving_enemy_leaves_player_action_complete() {
    let team = vec![monster(50, 100, 50)];
    let mut page = DungeonCombatPage::new(fight(team, monster(80, 80, 30)), "Cave".to_string());
    page.update(false);
    page.execute_player_skill_slot(1);
    assert_eq!(page.update(true), PhaseStep::ApplyPlayerAction(TurnAction::UseSkill { slot: 1 }));
    page.hit_enemy(10, Element::Water);
    page.resolve_player_action();
    assert_eq!(page.turn_phase(), TurnPhase::PlayerActionComplete);
    assert_eq!(page.combat_result(), None);
    assert_eq!(page.update(false), PhaseStep::Idle);
    assert_eq!(page.update(true), PhaseStep::Advanced);
    assert_eq!(page.turn_phase(), TurnPhase::DeterminingTurnOrder);
}

#[test]
fn skill_on_cooldown_cannot_be_chosen() {
    let mut team = vec![monster(50, 100, 50)];
    team[0].cooldowns = vec![3, 0];
    let mut page = DungeonCombatPage::new(fight(team, monster(80, 80, 30)), "Cave".to_string());
    page.update(false);
    // cooldown ticked to 2, still blocked
    assert!(!page.can_use_skill_slot(0));
    page.layout();
    assert_eq!(page.handle_touch(10, 210), DungeonCombatAction::NoAction);
    assert_eq!(page.turn_phase(), TurnPhase::PlayerSelectAction);
    page.execute_player_skill_slot(0);
    assert_eq!(page.turn_phase(), TurnPhase::PlayerSelectAction);
}

#[test]
fn swap_through_the_popup() {
    let team = vec![monster(50, 100, 50), monster(70, 100, 20), monster(0, 100, 20)];
    let mut page = DungeonCombatPage::new(fight(team, monster(80, 80, 30)), "Cave".to_string());
    page.update(false);
    page.layout();
    assert!(page.can_swap());
    // the swap button opens the popup
    assert_eq!(page.handle_touch(10, 240), DungeonCombatAction::NoAction);
    page.layout();
    // the fallen teammate's button is not live
    assert_eq!(page.handle_touch(160, 120), DungeonCombatAction::NoAction);
    // the popup closed on a miss; open it again
    page.handle_touch(10, 240);
    page.layout();
    assert_eq!(page.handle_touch(90, 120), DungeonCombatAction::SwapMonster(1));
    assert_eq!(
        page.turn_phase(),
        TurnPhase::PlayerActionExecuting { action_type: TurnAction::Swap { target_index: 1 } }
    );
    assert_eq!(page.update(true), PhaseStep::ApplyPlayerAction(TurnAction::Swap { target_index: 1 }));
    page.resolve_player_action();
    assert_eq!(page.combat_state().active_index, 1);
    assert_eq!(page.turn_phase(), TurnPhase::PlayerActionComplete);
    // a swap hands the turn to the enemy
    assert_eq!(page.update(true), PhaseStep::Advanced);
    assert_eq!(page.turn_phase(), TurnPhase::EnemyActionExecuting);
    assert_eq!(page.action_target(), ActiveAnim::Enemy);
}

#[test]
fn invalid_swaps_are_ignored() {
    let team = vec![monster(50, 100, 50), monster(0, 100, 20)];
    let mut page = DungeonCombatPage::new(fight(team, monster(80, 80, 30)), "Cave".to_string());
    page.update(false);
    page.execute_player_swap(0);
    assert_eq!(page.turn_phase(), TurnPhase::PlayerSelectAction);
    page.execute_player_swap(1);
    assert_eq!(page.turn_phase(), TurnPhase::PlayerSelectAction);
    page.execute_player_swap(9);
    assert_eq!(page.turn_phase(), TurnPhase::PlayerSelectAction);
}

#[test]
fn bloom_heals_the_standing_team() {
    let team = vec![monster(50, 100, 50), monster(95, 100, 20), monster(0, 100, 20)];
    let mut st = fight(team, monster(80, 80, 30));
    st.enemy_aura = Some(Element::Water);
    let mut page = DungeonCombatPage::new(st, "Cave".to_string());
    let (mult, reaction, healed) = page.check_reaction(Element::Earth);
    assert_eq!(mult, 100);
    assert_eq!(reaction, Some(Reaction::Bloom));
    assert_eq!(healed, Some(20));
    let hp: Vec<u16> = page.combat_state().player_monsters.iter().map(|m| m.hp_current).collect();
    assert_eq!(hp, vec![65, 100, 0]);
    assert_eq!(page.combat_state().enemy_aura, None);
}

#[test]
fn no_reaction_keeps_the_aura() {
    let team = vec![monster(50, 100, 50)];
    let mut st = fight(team, monster(80, 80, 30));
    st.enemy_aura = Some(Element::Earth);
    let mut page = DungeonCombatPage::new(st, "Cave".to_string());
    assert_eq!(page.check_reaction(Element::Fire), (100, None, None));
    assert_eq!(page.combat_state().enemy_aura, Some(Element::Earth));
}

#[test]
fn heal_active_caps_at_max() {
    let team = vec![monster(90, 100, 50)];
    let mut page = DungeonCombatPage::new(fight(team, monster(80, 80, 30)), "Cave".to_string());
    assert_eq!(page.heal_active(25), Some(10));
    assert_eq!(page.combat_state().player_monsters[0].hp_current, 100);
    let mut st = fight(vec![monster(90, 100, 50)], monster(80, 80, 30));
    st.active_index = 4;
    let mut lonely = DungeonCombatPage::new(st, "Cave".to_string());
    assert_eq!(lonely.heal_active(25), None);
}

#[test]
fn losing_the_last_monster_loses_the_fight() {
    let team = vec![monster(20, 100, 10)];
    let mut page = DungeonCombatPage::new(fight(team, monster(80, 80, 60)), "Cave".to_string());
    page.update(false);
    page.update(true);
    assert!(page.enemy_attack(50));
    assert_eq!(page.combat_state().player_monsters[0].hp_current, 0);
    page.resolve_enemy_action();
    assert_eq!(page.turn_phase(), TurnPhase::CombatEnded { victory: false });
    assert_eq!(page.combat_result(), Some((false, 0, 0)));
    assert_eq!(page.update(true), PhaseStep::Idle);
}

#[test]
fn fallen_active_monster_is_not_attacked() {
    let team = vec![monster(0, 100, 10), monster(40, 100, 10)];
    let mut page = DungeonCombatPage::new(fight(team, monster(80, 80, 60)), "Cave".to_string());
    assert!(!page.enemy_attack(50));
    assert_eq!(page.combat_state().player_monsters[1].hp_current, 40);
}

#[test]
fn taps_outside_the_players_turn_do_nothing() {
    let team = vec![monster(50, 100, 10)];
    let mut page = DungeonCombatPage::new(fight(team, monster(80, 80, 60)), "Cave".to_string());
    assert_eq!(page.handle_touch(10, 210), DungeonCombatAction::NoAction);
    assert_eq!(page.turn_phase(), TurnPhase::DeterminingTurnOrder);
}

#[test]
fn loading_flags() {
    let team = vec![monster(50, 100, 10)];
    let mut page = DungeonCombatPage::new(fight(team, monster(80, 80, 60)), "Cave".to_string());
    assert!(!page.needs_initial_load_now());
    page.mark_loading_drawn();
    assert!(page.needs_initial_load_now());
    page.finish_loading();
    assert!(!page.needs_initial_load_now());
    assert!(!page.needs_player_reload());
    page.request_player_reload();
    assert!(page.needs_player_reload());
    page.clear_player_reload();
    assert!(!page.needs_player_reload());
    page.start_death_animation();
    assert!(page.is_death_anim_playing());
    page.end_action_to_idle();
    assert_eq!(page.action_target(), ActiveAnim::Neither);
}

#[test]
fn loading_is_needed_only_between_the_loading_screen_and_the_load() {
    let team = vec![monster(50, 100, 10)];
    let mut page = DungeonCombatPage::new(fight(team, monster(80, 80, 60)), "Cave".to_string());
    assert!(!page.needs_initial_load_now());
    page.request_player_reload();
    page.start_death_animation();
    assert!(!page.needs_initial_load_now());
    page.mark_loading_drawn();
    page.update(false);
    assert!(page.needs_initial_load_now());
    page.finish_loading();
    assert!(!page.needs_initial_load_now());
    page.mark_loading_drawn();
    assert!(!page.needs_initial_load_now());
}

#[test]
fn starting_the_death_animation_twice_is_starting_it_once() {
    let team = vec![monster(50, 100, 10)];
    let mut page = DungeonCombatPage::new(fight(team, monster(80, 80, 60)), "Cave".to_string());
    page.start_death_animation();
    let phase = page.turn_phase();
    let counters = page.turn_counters();
    page.start_death_animation();
    assert!(page.is_death_anim_playing());
    assert_eq!(page.turn_phase(), phase);
    assert_eq!(page.turn_counters(), counters);
}

#[test]
fn an_ended_fight_stays_ended() {
    let team = vec![monster(50, 100, 50)];
    let mut page = DungeonCombatPage::new(fight(team, monster(1, 80, 30)), "Cave".to_string());
    page.update(false);
    page.execute_player_skill_slot(0);
    page.update(true);
    page.hit_enemy(5, Element::Fire);
    page.resolve_player_action();
    assert_eq!(page.turn_phase(), TurnPhase::CombatEnded { victory: true });
    for done in [false, true, true] {
        assert_eq!(page.update(done), PhaseStep::Idle);
        assert_eq!(page.turn_phase(), TurnPhase::CombatEnded { victory: true });
        assert_eq!(page.combat_result(), Some((true, 11, 125)));
    }
}

#[test]
fn next_turn_from_the_speeds() {
    // player 30, enemy 45: after three steps the enemy has 135 and the player 90
    let team = vec![monster(50, 100, 30)];
    let mut page = DungeonCombatPage::new(fight(team, monster(80, 80, 45)), "Cave".to_string());
    assert!(page.can_determine_turn());
    assert!(!page.determine_next_turn());
    assert_eq!(page.turn_counters(), (90, 35));
    // one more step each: 120 against 80
    assert!(page.determine_next_turn());
    assert_eq!(page.turn_counters(), (20, 80));
}
