use stdgotchi::element::Element;
use stdgotchi::pages::monster_detail::{MonsterDetailAction, MonsterDetailPage, MonsterStats};
use stdgotchi::pages::monster_upgrade::{MonsterUpgradeAction, MonsterUpgradePage, UpgradeState};

fn stats() -> MonsterStats {
    MonsterStats {
        name: "Flare".to_string(),
        species_id: "fox".to_string(),
        level: 7,
        element_name: "Fire".to_string(),
        fusion_count: 0,
        hp_current: 30,
        hp_max: 40,
        atk: 12,
        def: 8,
        spd: 9,
        xp: 10,
        xp_to_next: 90,
        power: 60,
    }
}

#[test]
fn detail_without_a_skill_says_so() {
    let p = MonsterDetailPage::new(stats(), None, false);
    assert_eq!(p.skill_name(), "No Skill");
    assert_eq!(p.skill_description(), "No skill equipped");
    assert_eq!(p.stats().level, 7);
    let q = MonsterDetailPage::new(stats(), Some(("Blaze".to_string(), "Burns".to_string())), true);
    assert_eq!(q.skill_name(), "Blaze");
    assert_eq!(q.skill_description(), "Burns");
    assert!(q.is_in_team());
}

#[test]
fn team_button_toggles_by_membership() {
    let mut p = MonsterDetailPage::new(stats(), None, false);
    assert_eq!(p.handle_touch(20, 180), MonsterDetailAction::NoAction);
    p.layout();
    assert_eq!(p.handle_touch(20, 180), MonsterDetailAction::AddToTeam);
    assert_eq!(p.handle_touch(130, 180), MonsterDetailAction::Upgrade);
    assert_eq!(p.handle_touch(120, 180), MonsterDetailAction::NoAction);
    let mut q = MonsterDetailPage::new(stats(), None, true);
    q.layout();
    assert_eq!(q.handle_touch(20, 180), MonsterDetailAction::RemoveFromTeam);
}

fn upgrade_state(crystals: u32, essence: u16) -> UpgradeState {
    UpgradeState {
        atk: 95,
        def: 100,
        spd: 20,
        hp_max: 50,
        crystals,
        essence_count: essence,
        atk_cost: 10,
        def_cost: 10,
        spd_cost: 30,
        hp_cost: 10,
        major_atk_crystals: 50,
        major_atk_essence: 5,
        max_stat: 100,
    }
}

#[test]
fn upgrades_need_crystals_and_room_below_the_cap() {
    let mut p = MonsterUpgradePage::new("m1".to_string(), "Flare".to_string(), Element::Fire, upgrade_state(20, 9));
    assert_eq!(p.monster_id(), "m1");
    assert_eq!(p.name(), "Flare");
    assert_eq!(p.element(), Element::Fire);
    assert_eq!(p.handle_touch(20, 40), MonsterUpgradeAction::NoAction);
    p.layout();
    assert_eq!(p.handle_touch(20, 40), MonsterUpgradeAction::UpgradeAtk);
    // defence is at the cap
    assert_eq!(p.handle_touch(20, 70), MonsterUpgradeAction::NoAction);
    // speed costs more than there is
    assert_eq!(p.handle_touch(20, 100), MonsterUpgradeAction::NoAction);
    assert_eq!(p.handle_touch(20, 130), MonsterUpgradeAction::UpgradeHp);
    // the major upgrade would pass the cap and costs 50
    assert_eq!(p.handle_touch(20, 175), MonsterUpgradeAction::NoAction);
    let mut rich = upgrade_state(60, 9);
    rich.atk = 90;
    p.refresh(rich);
    assert_eq!(p.state().crystals, 60);
    assert_eq!(p.handle_touch(20, 175), MonsterUpgradeAction::MajorUpgradeAtk);
    assert_eq!(p.handle_touch(20, 100), MonsterUpgradeAction::UpgradeSpd);
    let mut poor_essence = rich;
    poor_essence.essence_count = 4;
    p.refresh(poor_essence);
    assert_eq!(p.handle_touch(20, 175), MonsterUpgradeAction::NoAction);
}
