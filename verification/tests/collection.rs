use stdgotchi::element::Element;
use stdgotchi::page::Page;
use stdgotchi::pages::cards::{count_owned, CardInfo, CardsPage};
use stdgotchi::pages::collection::{
    is_captured, CollectionAction, CollectionPage, SpeciesCollectionData, ZoneCollectionData,
};

fn card(id: u32, name: &str) -> CardInfo {
    CardInfo { monster_id: id, name: name.to_string(), rarity: 1, atk_bonus: 2, def_bonus: 3 }
}

#[test]
fn owned_cards_are_counted() {
    assert_eq!(count_owned(&vec![3, 1, 3, 3], 3), 3);
    assert_eq!(count_owned(&vec![3, 1, 3, 3], 2), 0);
    assert_eq!(count_owned(&vec![], 2), 0);
}

#[test]
fn catalog_is_sorted_by_monster_and_marks_ownership() {
    let p = CardsPage::new(vec![card(9, "nine"), card(2, "two"), card(5, "five"), card(2, "two-b")], &vec![5, 2, 5]);
    assert_eq!(p.len(), 4);
    let ids: Vec<u32> = (0..4).map(|i| p.entry(i).card.monster_id).collect();
    assert_eq!(ids, vec![2, 2, 5, 9]);
    assert_eq!(p.entry(0).card.name, "two");
    assert_eq!(p.entry(1).card.name, "two-b");
    assert_eq!(p.entry(2).owned_count, 2);
    assert!(p.entry(2).owned);
    assert_eq!(p.entry(3).owned_count, 0);
    assert!(!p.entry(3).owned);
}

#[test]
fn cards_scroll_and_go_back() {
    let catalog: Vec<CardInfo> = (0..7).map(|i| card(i, "c")).collect();
    let mut p = CardsPage::new(catalog, &vec![]);
    assert_eq!(p.scroll_offset(), 0);
    // at the top a tap above the list does nothing
    assert!(!p.handle_touch(10, 50));
    assert!(!p.handle_touch(10, 400));
    assert!(!p.handle_touch(10, 400));
    assert!(!p.handle_touch(10, 400));
    assert_eq!(p.scroll_offset(), 3);
    // no further than the last page
    assert!(!p.handle_touch(10, 400));
    assert_eq!(p.scroll_offset(), 3);
    assert!(!p.handle_touch(10, 50));
    assert_eq!(p.scroll_offset(), 2);
    assert!(p.handle_touch(10, 200));
    assert_eq!(p.scroll_offset(), 2);
}

fn species(id: &str) -> SpeciesCollectionData {
    SpeciesCollectionData { species_id: id.to_string(), name: id.to_uppercase(), element: Element::Wind, is_captured: false }
}

fn czone(id: &str, unlocked: bool, sp: Vec<SpeciesCollectionData>) -> ZoneCollectionData {
    ZoneCollectionData { zone_id: id.to_string(), zone_name: id.to_uppercase(), is_unlocked: unlocked, species: sp, level_min: 1 }
}

#[test]
fn captured_lookup() {
    let caught = vec!["a".to_string(), "c".to_string()];
    assert!(is_captured(&caught, &"c".to_string()));
    assert!(!is_captured(&caught, &"b".to_string()));
}

#[test]
fn collection_marks_captures_and_counts() {
    let zones = vec![
        czone("z1", true, vec![species("a"), species("b")]),
        czone("z2", false, vec![species("c")]),
        czone("z3", true, vec![]),
    ];
    let p = CollectionPage::new(zones, &vec!["a".to_string(), "c".to_string(), "x".to_string()]);
    assert_eq!(p.total_species(), 3);
    assert_eq!(p.total_captured(), 2);
    assert_eq!(p.zone_count(), 3);
    assert!(p.zone(0).species[0].is_captured);
    assert!(!p.zone(0).species[1].is_captured);
    assert!(p.zone(1).species[0].is_captured);
}

#[test]
fn collection_rows_and_swipes() {
    let zones: Vec<ZoneCollectionData> =
        (0..6).map(|i| czone(&format!("z{}", i), i != 1, vec![species("s")])).collect();
    let mut p = CollectionPage::new(zones, &vec![]);
    p.layout();
    assert_eq!(p.handle_touch(20, 40), CollectionAction::SelectZone("z0".to_string()));
    // the second zone is locked
    assert_eq!(p.handle_touch(20, 100), CollectionAction::NoAction);
    assert_eq!(p.handle_touch(20, 170), CollectionAction::SelectZone("z2".to_string()));
    assert_eq!(p.handle_touch(300, 170), CollectionAction::NoAction);
    // 6 zones: at most 6 * 65 - 180 = 210 of scroll
    p.handle_swipe(true);
    assert_eq!(p.scroll_offset(), 130);
    p.handle_swipe(true);
    assert_eq!(p.scroll_offset(), 210);
    p.handle_swipe(true);
    assert_eq!(p.scroll_offset(), 210);
    p.layout();
    // the fifth zone now sits at 32 - 210 + 260 = 82
    assert_eq!(p.handle_touch(20, 90), CollectionAction::SelectZone("z4".to_string()));
    p.handle_swipe(false);
    assert_eq!(p.scroll_offset(), 80);
    p.handle_swipe(false);
    assert_eq!(p.scroll_offset(), 0);
}

#[test]
fn cards_page_always_redraws() {
    let mut p = CardsPage::new(vec![card(1, "one")], &vec![1]);
    assert!(p.update());
    p.mark_dirty();
    assert!(p.needs_full_redraw());
    assert_eq!(p.len(), 1);
}
