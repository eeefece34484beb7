use stdgotchi::element::Element;
use stdgotchi::page::Page;
use stdgotchi::pages::hunt_monster_list::{HuntAction, HuntEntry, HuntMonsterListPage};
use stdgotchi::pages::inventory::{InventoryAction, InventoryPage};
use stdgotchi::pages::menu::{MenuAction, MenuPage};

#[test]
fn hunt_list_counts_cards_per_enemy() {
    let p = HuntMonsterListPage::new(3, &vec![10, 11, 12], &vec![11, 10, 11]);
    assert_eq!(p.map_id(), 3);
    assert_eq!(p.len(), 3);
    assert_eq!(p.entry(0), HuntEntry { enemy_id: 10, cards_owned: 1 });
    assert_eq!(p.entry(1), HuntEntry { enemy_id: 11, cards_owned: 2 });
    assert_eq!(p.entry(2), HuntEntry { enemy_id: 12, cards_owned: 0 });
}

#[test]
fn hunt_list_taps_and_swipes() {
    let ids: Vec<u32> = (100..108).collect();
    let mut p = HuntMonsterListPage::new(1, &ids, &vec![]);
    // selecting a row
    p.handle_tap(100, 50 + 75 * 2 + 10);
    assert_eq!(p.selected_index(), 2);
    assert_eq!(p.take_action(), None);
    // the gap between rows does nothing
    p.handle_tap(100, 50 + 75 + 72);
    assert_eq!(p.selected_index(), 2);
    // the fight button of a row
    p.handle_tap(300, 50 + 75 * 4 + 1);
    assert_eq!(p.take_action(), Some(HuntAction::Fight(104)));
    p.handle_swipe_up();
    p.handle_swipe_up();
    p.handle_swipe_up();
    p.handle_swipe_up();
    assert_eq!(p.scroll_offset(), 3);
    p.handle_tap(300, 55);
    assert_eq!(p.take_action(), Some(HuntAction::Fight(103)));
    p.handle_swipe_down();
    assert_eq!(p.scroll_offset(), 2);
    p.handle_tap(10, 10);
    assert!(!p.update());
    assert_eq!(p.take_action(), Some(HuntAction::Exit));
    assert!(p.update());
    p.handle_swipe_left();
    assert_eq!(p.take_action(), Some(HuntAction::Exit));
    assert!(p.wants_redraw());
    p.finish_draw();
    assert!(!p.wants_redraw());
    assert_eq!(p.map_id(), 1);
}

#[test]
fn hunt_list_ignores_rows_past_the_end() {
    let mut p = HuntMonsterListPage::new(1, &vec![7], &vec![]);
    p.handle_tap(300, 50 + 75 + 10);
    assert_eq!(p.take_action(), None);
    p.handle_tap(300, 60);
    assert_eq!(p.take_action(), Some(HuntAction::Fight(7)));
}

#[test]
fn inventory_lists_essences_in_element_order() {
    let mut p = InventoryPage::from_player(99, 1, 2, 3, 4, 5, 6, 7, 8);
    assert_eq!(p.crystals(), 99);
    assert_eq!(p.essence(0), (Element::Fire, 1));
    assert_eq!(p.essence(7), (Element::Spirit, 8));
    assert_eq!(p.handle_touch(20, 420), InventoryAction::NoAction);
    p.layout();
    assert_eq!(p.handle_touch(20, 420), InventoryAction::Back);
    assert_eq!(p.handle_touch(100, 420), InventoryAction::NoAction);
}

#[test]
fn menu_buttons_shift_with_an_active_battle() {
    let mut p = MenuPage::new();
    p.layout(false);
    assert_eq!(p.handle_touch(50, 75), Some(MenuAction::WorldMap));
    assert_eq!(p.handle_touch(50, 140), Some(MenuAction::Rustymon));
    assert_eq!(p.handle_touch(50, 210), Some(MenuAction::Quests));
    assert_eq!(p.handle_touch(50, 280), Some(MenuAction::Fragments));
    assert_eq!(p.handle_touch(50, 345), None);
    p.set_has_active_battle(true);
    assert!(p.needs_full_redraw());
    p.layout(true);
    assert!(!p.needs_full_redraw());
    assert_eq!(p.handle_touch(50, 140), Some(MenuAction::Battle));
    assert_eq!(p.handle_touch(50, 345), Some(MenuAction::Fragments));
    assert_eq!(p.handle_touch(10, 140), None);
    p.set_has_active_battle(true);
    assert!(!p.needs_full_redraw());
}

#[test]
fn hunt_list_asks_for_a_redraw_only_when_it_changes() {
    let ids: Vec<u32> = (100..108).collect();
    let mut p = HuntMonsterListPage::new(1, &ids, &vec![]);
    p.finish_draw();
    p.handle_tap(100, 50 + 75 + 72);
    assert!(!p.wants_redraw());
    p.handle_tap(300, 55);
    assert!(!p.wants_redraw());
    p.handle_tap(100, 55);
    assert!(p.wants_redraw());
    p.finish_draw();
    p.handle_swipe_up();
    assert!(p.wants_redraw());
    p.finish_draw();
    p.handle_swipe_up();
    p.handle_swipe_up();
    p.finish_draw();
    p.handle_swipe_up();
    assert!(!p.wants_redraw());
}
