use stdgotchi::pages::semi_active_battle::{
    skill_damage, AttackRoll, BattleResult, BattleTurn, SemiActiveBattlePage, SkillButton, SkillKind,
    SkillOutcome,
    TurnEvent,
};

#[test]
fn skill_damage_formula() {
    // 40 * 150 / 100 = 60, minus half of 20
    assert_eq!(skill_damage(40, 150, 20), 50);
    assert_eq!(skill_damage(10, 100, 100), 1);
    assert_eq!(skill_damage(0, 0, 0), 1);
    assert_eq!(skill_damage(33, 100, 5), 31);
}

#[test]
fn skill_button_cooldown_runs_down_in_milliseconds() {
    let mut b = SkillButton::new(0, 0);
    assert!(b.is_empty());
    assert!(!b.is_ready());
    b.set_skill(7, "Blaze", 3000);
    assert!(b.is_ready());
    assert_eq!(b.skill_name, "Blaze");
    b.use_skill();
    assert_eq!(b.cooldown_remaining_ms, 3000);
    assert!(!b.is_ready());
    b.update(1000);
    assert_eq!(b.cooldown_remaining_ms, 2000);
    b.update(5000);
    assert_eq!(b.cooldown_remaining_ms, 0);
    assert!(b.is_ready());
    b.start_cooldown();
    assert_eq!(b.cooldown_remaining_ms, 3000);
    assert!(b.contains(0, 0));
    assert!(b.contains(109, 54));
    assert!(!b.contains(110, 10));
}

#[test]
fn touch_only_fires_ready_buttons() {
    let kinds = [Some(SkillKind::Attack { power: 150 }), None, Some(SkillKind::Heal { power: 30 })];
    let mut p = SemiActiveBattlePage::new(3);
    assert_eq!(p.enemy_id(), 3);
    assert_eq!(p.handle_touch(20, 400, kinds, 40, Some(20)), SkillOutcome::NotFired);
    p.set_skill(0, 1, "Bite", 1000);
    p.set_skill(1, 5, "Unknown", 700);
    p.set_skill(2, 2, "Mend", 2000);
    assert_eq!(p.handle_touch(20, 10, kinds, 40, Some(20)), SkillOutcome::NotFired);
    assert_eq!(p.turn(), BattleTurn::HeroTurn);
    // The game does not know the skill in slot 1: nothing happens.
    assert_eq!(p.handle_touch(130, 400, kinds, 40, Some(20)), SkillOutcome::NotFired);
    assert_eq!(p.skill_button(1).cooldown_remaining_ms, 0);
    assert_eq!(p.turn(), BattleTurn::HeroTurn);
    // 40 * 150 / 100 - 20 / 2 = 50
    assert_eq!(p.handle_touch(20, 400, kinds, 40, Some(20)), SkillOutcome::Struck { slot: 0, damage: 50 });
    assert_eq!(p.turn(), BattleTurn::HeroAttacking);
    assert_eq!(p.skill_button(0).cooldown_remaining_ms, 1000);
    assert_eq!(p.handle_touch(20, 400, kinds, 40, Some(20)), SkillOutcome::NotFired);
    assert_eq!(p.handle_touch(250, 400, kinds, 40, Some(20)), SkillOutcome::Healed { slot: 2, amount: 30 });
    assert_eq!(p.skill_button(2).cooldown_remaining_ms, 2000);
    p.tick_cooldowns(400);
    assert_eq!(p.skill_button(0).cooldown_remaining_ms, 600);
    p.tick_cooldowns(900);
    assert_eq!(p.handle_touch(20, 400, kinds, 40, None), SkillOutcome::Used { slot: 0 });
    assert_eq!(p.skill_button(0).cooldown_remaining_ms, 1000);
}

#[test]
fn a_struck_skill_lands_with_the_attack() {
    let mut p = SemiActiveBattlePage::new(3);
    p.set_skill(0, 1, "Bite", 1000);
    let out = p.handle_skill_use(0, Some(SkillKind::Attack { power: 100 }), 10, Some(100));
    assert_eq!(out, SkillOutcome::Struck { slot: 0, damage: 1 });
    let landed = AttackRoll { damage: 1, critical: false, miss: false };
    assert_eq!(p.update_turn(0, true, false, false, 0), TurnEvent::HeroAttackLanded(Some(landed)));
    assert_eq!(p.handle_skill_use(1, Some(SkillKind::Other), 10, None), SkillOutcome::NotFired);
}

#[test]
fn a_full_round_to_victory() {
    let mut p = SemiActiveBattlePage::new(3);
    assert_eq!(p.update_turn(1000, false, false, false, 50), TurnEvent::Wait);
    assert_eq!(p.update_turn(1500, false, false, false, 50), TurnEvent::HeroAutoAttack);
    let roll = AttackRoll { damage: 12, critical: true, miss: false };
    p.queue_enemy_damage(roll);
    assert_eq!(p.update_turn(100, false, false, false, 50), TurnEvent::Wait);
    assert_eq!(p.update_turn(100, true, false, false, 50), TurnEvent::HeroAttackLanded(Some(roll)));
    assert_eq!(p.turn(), BattleTurn::EnemyHit);
    assert_eq!(p.update_turn(300, false, false, false, 50), TurnEvent::Wait);
    assert_eq!(p.update_turn(301, false, false, false, 50), TurnEvent::EnemyTurnBegins);
    assert_eq!(p.update_turn(501, false, false, false, 50), TurnEvent::EnemyAttackDue);
    let hit = AttackRoll { damage: 4, critical: false, miss: false };
    p.queue_hero_damage(hit);
    assert_eq!(p.update_turn(501, false, false, false, 50), TurnEvent::EnemyAttackLanded(Some(hit)));
    assert_eq!(p.update_turn(301, false, false, false, 50), TurnEvent::HeroTurnBegins);
    assert_eq!(p.turn(), BattleTurn::HeroTurn);
    assert_eq!(p.handle_skill_use(0, Some(SkillKind::Other), 10, None), SkillOutcome::NotFired);
    p.update_turn(1500, false, false, false, 50);
    assert_eq!(p.update_turn(600, false, false, false, 50), TurnEvent::HeroAttackLanded(None));
    assert_eq!(p.update_turn(400, false, true, false, 50), TurnEvent::EnemyDefeated);
    assert_eq!(p.turn(), BattleTurn::BattleEnded);
    assert_eq!(*p.get_result(), BattleResult::Victory { exp_gained: 50, cards_dropped: vec![] });
    assert!(p.keep_open(1999));
    assert!(!p.keep_open(2000));
    assert_eq!(p.update_turn(9999, true, true, true, 50), TurnEvent::Wait);
    assert_eq!(p.take_result(), Some(BattleResult::Victory { exp_gained: 50, cards_dropped: vec![] }));
    assert_eq!(p.take_result(), None);
}

#[test]
fn hero_can_fall() {
    let mut p = SemiActiveBattlePage::new(3);
    p.update_turn(1500, false, false, false, 0);
    p.update_turn(0, true, false, false, 0);
    p.update_turn(400, false, false, false, 0);
    p.update_turn(600, false, false, false, 0);
    p.update_turn(0, true, false, false, 0);
    assert_eq!(p.update_turn(400, false, false, true, 0), TurnEvent::HeroDefeated);
    assert_eq!(*p.get_result(), BattleResult::Defeat);
}

#[test]
fn fleeing_ends_a_running_battle_only() {
    let mut p = SemiActiveBattlePage::new(3);
    assert!(p.keep_open(100000));
    p.attempt_flee();
    assert_eq!(*p.get_result(), BattleResult::Fled);
    assert_eq!(p.turn(), BattleTurn::BattleEnded);
    let mut q = SemiActiveBattlePage::new(3);
    q.update_turn(1500, false, false, false, 0);
    q.update_turn(0, true, false, false, 0);
    q.update_turn(400, false, true, false, 9);
    q.attempt_flee();
    assert_eq!(*q.get_result(), BattleResult::Victory { exp_gained: 9, cards_dropped: vec![] });
}

#[test]
fn initialize_loads_the_equipped_skills() {
    let mut p = SemiActiveBattlePage::new(3);
    p.initialize(&vec![Some((4, "Bash".to_string(), 2500)), None, Some((9, "Heal".to_string(), 4000))]);
    assert_eq!(p.skill_button(0).skill_id, Some(4));
    assert_eq!(p.skill_button(0).skill_name, "Bash");
    assert_eq!(p.skill_button(0).max_cooldown_ms, 2500);
    assert!(p.skill_button(1).is_empty());
    assert_eq!(p.skill_button(2).skill_id, Some(9));
    assert_eq!(p.handle_touch(250, 400, [None, None, Some(SkillKind::Other)], 1, None), SkillOutcome::Used { slot: 2 });
}
