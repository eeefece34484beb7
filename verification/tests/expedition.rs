use stdgotchi::page::Page;
use stdgotchi::element::Element;
use stdgotchi::pages::expedition_map::{
    ExpeditionMapAction, ExpeditionMapPage, MapDisplayData, ZoneDisplayData,
};
use stdgotchi::pages::expedition_result::{
    ExpeditionResultAction, ExpeditionResultData, ExpeditionResultPage,
};
use stdgotchi::pages::expedition_setup::ExpeditionSetupPage;
use stdgotchi::pages::expedition_summary::{ExpeditionSummaryPage, LootState};
use stdgotchi::pages::expedition_team_select::{
    duration_text, ExpeditionDuration, ExpeditionTeamAction, ExpeditionTeamSelectPage, MonsterSelectData,
};

fn candidate(id: &str, element: Element, available: bool) -> MonsterSelectData {
    MonsterSelectData {
        id: id.to_string(),
        name: id.to_uppercase(),
        level: 5,
        element,
        is_available: available,
        is_selected: false,
    }
}

fn team_page() -> ExpeditionTeamSelectPage {
    ExpeditionTeamSelectPage::new(
        "shore".to_string(),
        "Shore".to_string(),
        vec![Element::Water],
        vec![
            candidate("a", Element::Fire, true),
            candidate("b", Element::Water, true),
            candidate("c", Element::Earth, false),
            candidate("d", Element::Wind, true),
            candidate("e", Element::Holy, true),
        ],
    )
}

#[test]
fn team_selection_is_capped_at_three() {
    let mut p = team_page();
    assert_eq!(p.map_id(), "shore");
    assert_eq!(p.map_name(), "Shore");
    assert_eq!(p.monster_count(), 5);
    p.toggle_monster(0);
    p.toggle_monster(3);
    p.toggle_monster(4);
    assert_eq!(p.selected_count(), 3);
    // a fourth pick is refused
    p.toggle_monster(1);
    assert!(!p.monster(1).is_selected);
    assert_eq!(p.selected_count(), 3);
    // an unavailable monster cannot be picked
    p.toggle_monster(4);
    p.toggle_monster(2);
    assert!(!p.monster(2).is_selected);
    // out of range does nothing
    p.toggle_monster(99);
    assert_eq!(p.selected_monster_ids(), vec!["a".to_string(), "d".to_string()]);
}

#[test]
fn required_elements_gate_the_start() {
    let mut p = team_page();
    assert!(!p.can_start());
    p.toggle_monster(0);
    assert!(!p.requirements_met());
    assert!(!p.can_start());
    p.toggle_monster(1);
    assert!(p.requirements_met());
    assert!(p.can_start());
    // toggling twice undoes the pick
    p.toggle_monster(1);
    assert!(!p.can_start());
}

#[test]
fn team_select_touches() {
    let mut p = team_page();
    p.layout();
    assert_eq!(p.handle_touch(20, 55), ExpeditionTeamAction::ToggleMonster(0));
    assert_eq!(p.handle_touch(20, 52 + 31 * 4 + 2), ExpeditionTeamAction::ToggleMonster(4));
    assert_eq!(p.handle_touch(70, 210), ExpeditionTeamAction::SelectDuration(ExpeditionDuration::Medium));
    assert_eq!(p.selected_duration(), ExpeditionDuration::Medium);
    assert_eq!(p.handle_touch(180, 210), ExpeditionTeamAction::SelectDuration(ExpeditionDuration::Overnight));
    assert_eq!(p.selected_duration(), ExpeditionDuration::Overnight);
    // the start button does nothing until the team is ready
    assert_eq!(p.handle_touch(20, 250), ExpeditionTeamAction::NoAction);
    p.toggle_monster(1);
    assert_eq!(p.handle_touch(20, 250), ExpeditionTeamAction::StartExpedition);
}

#[test]
fn setup_picks_a_size() {
    let mut p = ExpeditionSetupPage::new(3);
    assert_eq!(p.get_selection(), None);
    assert_eq!(p.handle_touch(10, 170), None);
    assert_eq!(p.handle_touch(20, 160), Some(0));
    assert_eq!(p.handle_touch(108 + 83, 230), Some(1));
    assert_eq!(p.get_selection(), Some(1));
    // a fourth button is not shown with three sizes
    assert_eq!(p.handle_touch(20 + 88 * 3, 170), None);
    assert_eq!(p.get_selection(), Some(1));
}

fn zone(id: &str, unlocked: bool) -> ZoneDisplayData {
    ZoneDisplayData { id: id.to_string(), name: id.to_uppercase(), level_range: (1, 5), is_unlocked: unlocked }
}

fn emap(id: &str, zone_id: &str) -> MapDisplayData {
    MapDisplayData {
        id: id.to_string(),
        name: id.to_uppercase(),
        zone_id: zone_id.to_string(),
        level_range: (1, 5),
        required_elements: Vec::new(),
        capturable_count: 2,
    }
}

#[test]
fn expedition_map_tabs_and_rows() {
    let mut p = ExpeditionMapPage::new(
        vec![zone("z1", true), zone("z2", true), zone("z3", false)],
        vec![emap("m1", "z1"), emap("m2", "z2"), emap("m3", "z1"), emap("m4", "z2")],
    );
    assert_eq!(p.map_indices_for_selected_zone(), vec![0, 2]);
    p.layout();
    assert_eq!(p.handle_touch(20, 80), ExpeditionMapAction::SelectMap("m1".to_string()));
    assert_eq!(p.handle_touch(20, 130), ExpeditionMapAction::SelectMap("m3".to_string()));
    assert_eq!(p.handle_touch(20, 180), ExpeditionMapAction::NoAction);
    // the second tab switches zones
    assert_eq!(p.handle_touch(70, 30), ExpeditionMapAction::NoAction);
    assert_eq!(p.selected_zone_index(), 1);
    assert_eq!(p.map_indices_for_selected_zone(), vec![1, 3]);
    p.layout();
    assert_eq!(p.handle_touch(20, 80), ExpeditionMapAction::SelectMap("m2".to_string()));
    // a locked zone's tab does nothing
    assert_eq!(p.handle_touch(125, 30), ExpeditionMapAction::NoAction);
    assert_eq!(p.selected_zone_index(), 1);
}

#[test]
fn map_taps_leave_the_expedition_map_as_it_was() {
    let mut p = ExpeditionMapPage::new(vec![zone("z1", true), zone("z2", true)], vec![emap("m1", "z1")]);
    p.layout();
    assert!(p.needs_full_redraw());
    p.finish_draw();
    assert!(!p.needs_full_redraw());
    assert_eq!(p.handle_touch(20, 80), ExpeditionMapAction::SelectMap("m1".to_string()));
    assert!(!p.needs_full_redraw());
    assert_eq!(p.selected_zone_index(), 0);
    assert_eq!(p.handle_touch(300, 300), ExpeditionMapAction::NoAction);
    assert!(!p.needs_full_redraw());
    assert!(p.needs_clear());
    // a zone tab redraws
    assert_eq!(p.handle_touch(70, 30), ExpeditionMapAction::NoAction);
    assert!(p.needs_full_redraw());
    p.finish_draw();
    p.mark_dirty();
    assert!(p.needs_full_redraw());
    assert_eq!(p.selected_zone_index(), 1);
}

#[test]
fn summary_reveals_loot_before_continuing() {
    let mut p: ExpeditionSummaryPage<&str, u32> = ExpeditionSummaryPage::new_success("hero", 10, 8, 40, vec![3, 4]);
    assert_eq!(p.loot_state(), LootState::Hidden);
    assert!(!p.handle_touch(0, 0));
    assert_eq!(p.loot_state(), LootState::Revealing);
    p.update_reveal(500);
    assert_eq!(p.loot_state(), LootState::Revealing);
    assert!(!p.handle_touch(0, 0));
    p.update_reveal(501);
    assert!(p.can_continue());
    assert!(p.handle_touch(0, 0));
    assert_eq!(p.get_collected_cards(), &vec![3, 4]);
    assert_eq!(*p.get_updated_hero(), "hero");
    assert_eq!(p.numbers(), (8, 8, 10, 40));
    assert!(p.survived());
}

#[test]
fn failed_expedition_keeps_no_cards() {
    let mut p: ExpeditionSummaryPage<&str, u32> = ExpeditionSummaryPage::new_failure("hero", 10, 8, 3, 15);
    assert!(!p.survived());
    assert!(p.can_continue());
    assert!(p.get_collected_cards().is_empty());
    assert_eq!(p.numbers(), (8, 3, 10, 15));
    assert!(p.handle_touch(0, 0));
}

#[test]
fn expedition_result_buttons_and_rerun() {
    let data = ExpeditionResultData {
        map_name: "Shore".to_string(),
        map_id: "shore".to_string(),
        duration_minutes: 5,
        duration_seconds: 300,
        xp_per_monster: 12,
        monster_names: vec!["A".to_string()],
        monster_ids: vec!["a".to_string()],
        crystals: 4,
        essences: vec![(Element::Water, 2)],
        captured_species: None,
        was_fusion: false,
    };
    let mut p = ExpeditionResultPage::new(data);
    assert_eq!(p.handle_touch(200, 380), ExpeditionResultAction::NoAction);
    p.layout();
    assert_eq!(p.handle_touch(200, 380), ExpeditionResultAction::Continue);
    assert_eq!(p.handle_touch(20, 380), ExpeditionResultAction::Rerun);
    assert_eq!(p.handle_touch(180, 380), ExpeditionResultAction::NoAction);
    let (map_id, ids, secs) = p.rerun_data();
    assert_eq!(map_id, "shore");
    assert_eq!(ids, &["a".to_string()][..]);
    assert_eq!(secs, 300);
    assert_eq!(p.result().crystals, 4);
}

#[test]
fn duration_labels() {
    assert_eq!(duration_text(ExpeditionDuration::Short), "1min");
    assert_eq!(duration_text(ExpeditionDuration::Medium), "2min");
    assert_eq!(duration_text(ExpeditionDuration::Long), "3min");
    assert_eq!(duration_text(ExpeditionDuration::Overnight), "4min");
}

#[test]
fn tapping_a_monster_twice_restores_the_team() {
    let mut p = team_page();
    p.toggle_monster(0);
    p.toggle_monster(3);
    let before = p.selected_monster_ids();
    p.toggle_monster(1);
    p.toggle_monster(1);
    assert_eq!(p.selected_monster_ids(), before);
    p.toggle_monster(3);
    p.toggle_monster(3);
    assert_eq!(p.selected_monster_ids(), before);
}
