use stdgotchi::page::Page;
use stdgotchi::pages::map::{find_zone, MapEntry, MapPage, TouchAction, ZoneEntry};

fn zone(id: &str, dungeon: &str, lvl: u32) -> ZoneEntry {
    ZoneEntry { id: id.to_string(), dungeon_id: dungeon.to_string(), min_level: lvl }
}

fn map(id: &str, zone_id: &str, lvl: u32) -> MapEntry {
    MapEntry { id: id.to_string(), zone_id: zone_id.to_string(), min_level: lvl }
}

fn sample() -> MapPage {
    let mut p = MapPage::new();
    p.set_game_data(
        vec![zone("peaks", "d_peaks", 20), zone("meadow", "d_meadow", 1), zone("woods", "d_woods", 10)],
        vec![
            map("m_woods_b", "woods", 12),
            map("m_meadow_b", "meadow", 5),
            map("m_meadow_a", "meadow", 1),
            map("m_meadow_c", "meadow", 5),
        ],
    );
    p
}

#[test]
fn new_map_page_is_empty() {
    let p = MapPage::new();
    assert!(!p.has_game_data());
    assert!(p.is_at_top_level());
    assert_eq!(p.record_for(&"x".to_string()), 0);
}

#[test]
fn find_zone_by_id() {
    let zones = vec![zone("a", "da", 1), zone("b", "db", 2), zone("b", "dc", 3)];
    assert_eq!(find_zone(&zones, &"b".to_string()), Some(1));
    assert_eq!(find_zone(&zones, &"z".to_string()), None);
}

#[test]
fn dungeon_records() {
    let mut p = MapPage::new();
    p.update_dungeon_progress(vec![("d1".to_string(), 7), ("d2".to_string(), 3)]);
    assert_eq!(p.record_for(&"d1".to_string()), 7);
    assert_eq!(p.record_for(&"d2".to_string()), 3);
    assert_eq!(p.record_for(&"d3".to_string()), 0);
}

#[test]
fn zones_are_listed_by_level_and_lead_to_their_dungeon() {
    let mut p = sample();
    assert!(p.has_game_data());
    p.layout(&vec![true, true, true]);
    // the first row holds the lowest-level zone: the meadow
    assert_eq!(p.handle_touch(20, 40), Some(TouchAction::NoAction));
    assert!(!p.is_at_top_level());
    p.layout(&vec![true, true, true]);
    // maps of the meadow, by level, ties in their given order
    assert_eq!(p.handle_touch(20, 50), Some(TouchAction::StartExpedition("m_meadow_a".to_string())));
    assert_eq!(p.handle_touch(20, 96), Some(TouchAction::StartExpedition("m_meadow_b".to_string())));
    assert_eq!(p.handle_touch(20, 142), Some(TouchAction::StartExpedition("m_meadow_c".to_string())));
    // the dungeon button sits below the three maps
    assert_eq!(p.handle_touch(20, 48 + 3 * 46 + 16 + 5), Some(TouchAction::NoAction));
    p.layout(&vec![true, true, true]);
    assert_eq!(
        p.handle_touch(20, 250),
        Some(TouchAction::StartDungeon { dungeon_id: "d_meadow".to_string(), start_floor: 1 })
    );
    p.go_back();
    p.go_back();
    assert!(p.is_at_top_level());
    p.go_back();
    assert!(p.is_at_top_level());
}

#[test]
fn locked_zones_take_no_taps() {
    let mut p = sample();
    // sorted: meadow, woods, peaks; the woods is locked
    p.layout(&vec![true, false, true]);
    assert_eq!(p.handle_touch(20, 32 + 62 + 5), None);
    assert!(p.is_at_top_level());
    assert_eq!(p.handle_touch(20, 32 + 2 * 62 + 5), Some(TouchAction::NoAction));
    p.layout(&vec![true, false, true]);
    // the peaks have no maps: the dungeon button is the first row
    assert_eq!(p.handle_touch(20, 48 + 16 + 5), Some(TouchAction::NoAction));
    p.layout(&vec![true, false, true]);
    assert_eq!(
        p.handle_touch(20, 250),
        Some(TouchAction::StartDungeon { dungeon_id: "d_peaks".to_string(), start_floor: 1 })
    );
}

#[test]
fn taps_outside_every_area() {
    let mut p = sample();
    p.layout(&vec![true, true, true]);
    assert_eq!(p.handle_touch(300, 5), None);
    assert!(p.travel_to(4).is_ok());
}

#[test]
fn map_page_is_a_page() {
    let mut p = sample();
    assert!(p.needs_full_redraw());
    p.finish_draw();
    assert!(!p.needs_full_redraw());
    assert!(p.update());
    assert!(p.needs_clear());
    p.on_enter();
    assert!(p.is_at_top_level());
    assert!(!p.needs_full_redraw());
    p.mark_dirty();
    assert!(p.needs_full_redraw());
    assert!(p.has_game_data());
}
