use stdgotchi::page::Page;
use stdgotchi::pages::equipment::{DetailInfo, EquipmentAction, EquipmentPage, ViewMode};

#[test]
fn slot_grid_two_per_row() {
    let mut p = EquipmentPage::new();
    assert!(p.needs_full_redraw());
    p.layout_slot_list(5);
    assert!(!p.needs_full_redraw());
    assert_eq!(p.handle_touch(20, 50), Some(EquipmentAction::SelectSlot(0)));
    assert_eq!(p.handle_touch(190, 50), Some(EquipmentAction::SelectSlot(1)));
    assert_eq!(p.handle_touch(20, 45 + 73 * 2 + 1), Some(EquipmentAction::SelectSlot(4)));
    assert_eq!(p.handle_touch(190, 45 + 73 * 2 + 1), None);
    assert_eq!(p.handle_touch(20, 370), Some(EquipmentAction::SwitchToInventory));
    assert_eq!(p.handle_touch(200, 370), Some(EquipmentAction::Close));
}

#[test]
fn detail_buttons_depend_on_the_item() {
    let mut p = EquipmentPage::new();
    p.layout_detail(DetailInfo::Empty);
    assert_eq!(p.handle_touch(20, 360), None);
    p.open_dialog(2);
    assert_eq!(p.view_mode(), ViewMode::ItemDetail);
    assert_eq!(p.selected_slot(), Some(2));
    p.layout_detail(DetailInfo::Item { unique_id: 77, upgrade: 3 });
    assert_eq!(p.handle_touch(20, 300), Some(EquipmentAction::Upgrade(77)));
    assert_eq!(p.handle_touch(20, 360), Some(EquipmentAction::Switch));
    assert_eq!(p.handle_touch(20, 420), Some(EquipmentAction::Back));
    // a fully upgraded item offers no upgrade
    p.layout_detail(DetailInfo::Item { unique_id: 77, upgrade: 10 });
    assert_eq!(p.handle_touch(20, 300), Some(EquipmentAction::Switch));
    assert_eq!(p.handle_touch(20, 360), Some(EquipmentAction::Back));
    assert_eq!(p.handle_touch(20, 420), None);
    p.layout_detail(DetailInfo::Empty);
    assert_eq!(p.handle_touch(20, 360), Some(EquipmentAction::Switch));
    assert_eq!(p.handle_touch(20, 420), Some(EquipmentAction::Back));
    p.layout_detail(DetailInfo::Unknown);
    assert_eq!(p.handle_touch(20, 360), None);
}

#[test]
fn selection_dialog() {
    let mut p = EquipmentPage::new();
    p.open_dialog(1);
    p.open_selection();
    assert!(p.is_dialog_open());
    p.layout_dialog(7, Some((9, Some(4))));
    assert_eq!(p.handle_touch(30, 105), Some(EquipmentAction::SelectSlot(1)));
    assert_eq!(p.handle_touch(30, 100 + 45 * 4 + 1), Some(EquipmentAction::SelectSlot(1)));
    // with a full list the fifth row lies over the buttons and takes the tap
    assert_eq!(p.handle_touch(200, 300), Some(EquipmentAction::SelectSlot(1)));
    p.layout_dialog(2, Some((9, Some(4))));
    assert_eq!(p.handle_touch(200, 300), Some(EquipmentAction::Upgrade(9)));
    assert_eq!(p.handle_touch(40, 350), Some(EquipmentAction::Close));
    p.layout_dialog(0, Some((9, Some(10))));
    assert_eq!(p.handle_touch(200, 300), None);
    assert_eq!(p.handle_touch(40, 300), Some(EquipmentAction::SelectSlot(1)));
    p.layout_dialog(0, None);
    assert_eq!(p.handle_touch(40, 300), None);
    p.back_to_detail();
    assert_eq!(p.view_mode(), ViewMode::ItemDetail);
    p.dialog_scroll_offset = 3;
    p.close_dialog();
    assert_eq!(p.view_mode(), ViewMode::SlotList);
    assert_eq!(p.selected_slot(), None);
    assert_eq!(p.dialog_scroll_offset, 0);
}
