use stdgotchi::page::Page;
use stdgotchi::pages::crafting::{can_craft_recipe, CraftingAction, CraftingPage, MaterialNeed};
use stdgotchi::pages::dungeon_defeat::{DungeonDefeatAction, DungeonDefeatPage};

#[test]
fn recipe_needs_level_gold_and_every_material() {
    let mats = vec![MaterialNeed { have: 3, need: 2 }, MaterialNeed { have: 5, need: 5 }];
    assert!(can_craft_recipe(10, 100, 10, 100, &mats));
    assert!(!can_craft_recipe(9, 100, 10, 100, &mats));
    assert!(!can_craft_recipe(10, 99, 10, 100, &mats));
    let short = vec![MaterialNeed { have: 3, need: 2 }, MaterialNeed { have: 4, need: 5 }];
    assert!(!can_craft_recipe(10, 100, 10, 100, &short));
    assert!(can_craft_recipe(1, 0, 0, 0, &vec![]));
}

#[test]
fn recipe_list_and_detail() {
    let mut p = CraftingPage::new();
    assert_eq!(p.current_location, "prontera");
    p.layout(Some(8), false);
    assert!(!p.needs_full_redraw());
    assert_eq!(p.handle_touch(20, 50), Some(CraftingAction::SelectRecipe(0)));
    assert_eq!(p.handle_touch(20, 45 + 60 * 5 + 10), Some(CraftingAction::SelectRecipe(5)));
    assert_eq!(p.handle_touch(20, 400), Some(CraftingAction::Close));
    assert_eq!(p.handle_touch(370, 50), None);
    p.select_recipe(5);
    assert_eq!(p.selected_recipe_index(), Some(5));
    p.layout(Some(8), false);
    assert_eq!(p.handle_touch(20, 380), Some(CraftingAction::Back));
    assert_eq!(p.handle_touch(200, 380), None);
    p.layout(Some(8), true);
    assert_eq!(p.handle_touch(200, 380), Some(CraftingAction::Craft));
    // no recipes at the location: nothing to tap in the detail view
    p.layout(None, true);
    assert_eq!(p.handle_touch(200, 380), None);
    p.back_to_list();
    p.layout(None, true);
    assert_eq!(p.handle_touch(20, 400), Some(CraftingAction::Close));
    assert_eq!(p.handle_touch(20, 50), None);
}

#[test]
fn success_dialog_and_location() {
    let mut p = CraftingPage::new();
    assert!(!p.is_success_dialog_open());
    p.show_craft_success("Sword".to_string(), 3);
    assert!(p.is_success_dialog_open());
    assert_eq!(p.craft_success_item(), &Some(("Sword".to_string(), 3)));
    p.clear_craft_success();
    assert!(!p.is_success_dialog_open());
    p.select_recipe(2);
    p.set_location("geffen".to_string());
    assert_eq!(p.current_location, "geffen");
    assert_eq!(p.selected_recipe_index(), None);
}

#[test]
fn defeat_screen_keeps_the_record_and_checkpoint() {
    let mut p = DungeonDefeatPage::new("d1".to_string(), "Cave".to_string(), 12, 40, 300, 10, 10);
    assert!(p.is_new_record());
    assert_eq!(p.floor_reached(), 12);
    assert_eq!(p.retry_checkpoint(), 10);
    assert_eq!(p.crystals_earned(), 40);
    assert_eq!(p.xp_earned(), 300);
    assert_eq!(p.dungeon_id(), "d1");
    assert_eq!(p.dungeon_name(), "Cave");
    assert_eq!(p.previous_record(), 10);
    assert_eq!(p.handle_touch(40, 350), DungeonDefeatAction::NoAction);
    p.layout();
    assert_eq!(p.handle_touch(40, 350), DungeonDefeatAction::Retry);
    assert_eq!(p.handle_touch(200, 350), DungeonDefeatAction::Quit);
    assert_eq!(p.handle_touch(180, 350), DungeonDefeatAction::NoAction);
    let q = DungeonDefeatPage::new("d1".to_string(), "Cave".to_string(), 10, 0, 0, 10, 1);
    assert!(!q.is_new_record());
}
