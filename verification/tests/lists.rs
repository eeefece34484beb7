use stdgotchi::page::Page;
use stdgotchi::pages::monster_list::{
    contains_id, find_index, find_species, MonsterListAction, MonsterListPage, OwnedMonster,
};
use stdgotchi::pages::quest_list::{QuestEntry, QuestListAction, QuestListPage};

fn strings(v: &[&str]) -> Vec<String> {
    v.iter().map(|s| s.to_string()).collect()
}

fn owned(v: &[(&str, &str)]) -> Vec<OwnedMonster> {
    v.iter().map(|(id, species)| OwnedMonster { id: id.to_string(), species_id: species.to_string() }).collect()
}

#[test]
fn id_lookups() {
    let ids = strings(&["a", "b", "a"]);
    assert!(contains_id(&ids, &"b".to_string()));
    assert!(!contains_id(&ids, &"z".to_string()));
    assert_eq!(find_index(&ids, &"a".to_string()), Some(0));
    assert_eq!(find_index(&ids, &"z".to_string()), None);
    let ms = owned(&[("m1", "fox"), ("m2", "owl"), ("m3", "fox")]);
    assert_eq!(find_species(&ms, &"fox".to_string()), Some(0));
    assert_eq!(find_species(&ms, &"owl".to_string()), Some(1));
    assert_eq!(find_species(&ms, &"elk".to_string()), None);
}

#[test]
fn owned_list_marks_the_team() {
    let p = MonsterListPage::new(&owned(&[("m1", "fox"), ("m2", "owl"), ("m3", "elk")]), &strings(&["m2"]));
    assert_eq!(p.title(), "MONSTERS");
    assert_eq!(p.len(), 3);
    assert!(!p.row(0).is_in_team);
    assert!(p.row(1).is_in_team);
    assert_eq!(p.row(2).species_id, "elk");
    assert_eq!(p.row(2).monster_index, Some(2));
}

#[test]
fn zone_list_puts_team_then_owned_then_missing() {
    let p = MonsterListPage::from_zone(
        "Woods",
        &strings(&["bat", "fox", "owl", "elk", "cat"]),
        &owned(&[("m_owl", "owl"), ("m_fox", "fox"), ("m_elk", "elk")]),
        &strings(&["m_elk"]),
    );
    assert_eq!(p.title(), "Woods");
    let order: Vec<String> = (0..5).map(|i| p.row(i).species_id.clone()).collect();
    assert_eq!(order, strings(&["elk", "fox", "owl", "bat", "cat"]));
    assert!(p.row(0).is_in_team);
    assert_eq!(p.row(0).monster_index, Some(2));
    assert_eq!(p.row(1).monster_index, Some(1));
    assert!(!p.row(3).is_owned);
    assert_eq!(p.row(3).monster_index, None);
}

#[test]
fn list_rows_select_owned_monsters_and_scroll() {
    let mut p = MonsterListPage::from_zone(
        "Woods",
        &strings(&["bat", "fox", "owl", "elk", "cat", "ant", "bee"]),
        &owned(&[("m_fox", "fox")]),
        &strings(&[]),
    );
    p.layout();
    assert_eq!(p.handle_touch(20, 40), MonsterListAction::Select(0));
    // a species not owned has no row to tap
    assert_eq!(p.handle_touch(20, 90), MonsterListAction::NoAction);
    assert_eq!(p.handle_touch(300, 40), MonsterListAction::NoAction);
    // seven rows: at most 7 * 52 - 200 = 164 of scroll
    p.handle_swipe(true);
    assert_eq!(p.scroll_offset(), 110);
    p.handle_swipe(true);
    assert_eq!(p.scroll_offset(), 164);
    p.handle_swipe(false);
    assert_eq!(p.scroll_offset(), 54);
    p.handle_swipe(false);
    assert_eq!(p.scroll_offset(), 0);
    assert!(p.needs_full_redraw());
}

fn quest(id: u32, completed: bool) -> QuestEntry {
    QuestEntry { id, completed }
}

#[test]
fn quests_claim_and_scroll() {
    let quests = vec![quest(1, true), quest(2, false), quest(3, true), quest(4, false), quest(5, true), quest(6, true)];
    let mut p = QuestListPage::new();
    p.layout(&quests);
    assert_eq!(p.handle_touch(280, 105), Some(QuestListAction::ClaimReward(1)));
    assert_eq!(p.handle_touch(280, 200), None);
    assert_eq!(p.handle_touch(280, 295), Some(QuestListAction::ClaimReward(3)));
    assert_eq!(p.handle_touch(140, 425), Some(QuestListAction::ScrollDown));
    assert_eq!(p.handle_touch(140, 35), None);
    assert_eq!(p.handle_touch(290, 10), Some(QuestListAction::Close));
    p.scroll_down(quests.len());
    p.scroll_down(quests.len());
    p.scroll_down(quests.len());
    assert_eq!(p.scroll_offset(), 2);
    p.layout(&quests);
    assert_eq!(p.handle_touch(280, 105), Some(QuestListAction::ClaimReward(3)));
    assert_eq!(p.handle_touch(280, 100 + 95 * 3 + 5), Some(QuestListAction::ClaimReward(6)));
    assert_eq!(p.handle_touch(140, 35), Some(QuestListAction::ScrollUp));
    assert_eq!(p.handle_touch(140, 425), None);
    assert!(!p.needs_full_redraw());
    p.mark_redraw();
    assert!(p.needs_full_redraw());
    p.scroll_up();
    assert_eq!(p.scroll_offset(), 1);
    let mut empty = QuestListPage::new();
    empty.layout(&vec![]);
    assert_eq!(empty.handle_touch(290, 10), Some(QuestListAction::Close));
}
