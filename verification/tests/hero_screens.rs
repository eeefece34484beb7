use stdgotchi::page::Page;
use stdgotchi::pages::fragment_collection_page::{
    FragmentCollectionAction, FragmentCollectionPage, FragmentRow,
};
use stdgotchi::pages::hero_info::HeroInfoPage;
use stdgotchi::pages::hero_overview::{ButtonAction, HeroOverviewPage};
use stdgotchi::pages::hunt_battle_result::{HuntBattleResultPage, HuntOutcome, HuntResultAction};

fn row(id: u32, count: u32, required: Option<u32>) -> FragmentRow {
    FragmentRow { monster_id: id, count, required }
}

#[test]
fn fragments_summon_when_complete() {
    let rows = vec![
        row(1, 5, Some(5)),
        row(2, 4, Some(5)),
        row(3, 9, None),
        row(4, 10, Some(3)),
        row(5, 0, Some(1)),
        row(6, 2, Some(2)),
        row(7, 1, Some(1)),
    ];
    let mut p = FragmentCollectionPage::new();
    assert!(p.needs_full_redraw());
    p.layout(&rows);
    assert_eq!(p.handle_touch(290, 75), Some(FragmentCollectionAction::Summon(1)));
    assert_eq!(p.handle_touch(290, 145), None);
    assert_eq!(p.handle_touch(290, 215), None);
    assert_eq!(p.handle_touch(290, 285), Some(FragmentCollectionAction::Summon(4)));
    // at the top there is no scroll-up arrow, but there is one down
    assert_eq!(p.handle_touch(330, 35), None);
    assert_eq!(p.handle_touch(330, 415), Some(FragmentCollectionAction::ScrollDown));
    assert_eq!(p.handle_touch(20, 430), Some(FragmentCollectionAction::Close));
    p.scroll_down(rows.len());
    p.scroll_down(rows.len());
    p.scroll_down(rows.len());
    assert_eq!(p.scroll_offset(), 2);
    p.layout(&rows);
    assert_eq!(p.handle_touch(330, 35), Some(FragmentCollectionAction::ScrollUp));
    assert_eq!(p.handle_touch(330, 415), None);
    // rows 6 and 7 are now the last two lines
    assert_eq!(p.handle_touch(290, 70 + 70 * 3 + 5), Some(FragmentCollectionAction::Summon(6)));
    assert_eq!(p.handle_touch(290, 70 + 70 * 4 + 5), Some(FragmentCollectionAction::Summon(7)));
    p.scroll_up();
    assert_eq!(p.scroll_offset(), 1);
    // entering the page again starts from the top
    p.on_enter();
    assert_eq!(p.scroll_offset(), 0);
    assert!(p.needs_full_redraw());
}

#[test]
fn no_fragments_only_close() {
    let mut p = FragmentCollectionPage::default();
    assert_eq!(p.scroll_offset(), 0);
    p.layout(&vec![]);
    assert!(!p.needs_full_redraw());
    assert_eq!(p.handle_touch(20, 430), Some(FragmentCollectionAction::Close));
    assert_eq!(p.handle_touch(330, 415), None);
}

#[test]
fn hero_info_holds_the_hero() {
    let mut p = HeroInfoPage::new(3u32);
    assert_eq!(*p.hero(), 3);
    p.update_hero(8);
    assert_eq!(*p.hero(), 8);
    assert!(p.needs_full_redraw());
}

#[test]
fn hero_overview_buttons() {
    let mut p = HeroOverviewPage::new();
    assert_eq!(p.handle_touch(20, 410), None);
    p.layout(true);
    assert!(!p.needs_full_redraw());
    assert_eq!(p.handle_touch(20, 410), Some(ButtonAction::AllocateStats));
    assert_eq!(p.handle_touch(200, 410), Some(ButtonAction::Close));
    assert_eq!(p.handle_touch(183, 410), None);
    p.mark_dirty();
    assert!(p.needs_full_redraw());
}

fn outcome(victory: bool) -> HuntOutcome {
    HuntOutcome {
        enemy_id: 12,
        enemy_name: "Boar".to_string(),
        exp_gained: 30,
        exp_before: 10,
        exp_to_next: 100,
        level_before: 2,
        leveled_up: false,
        victory,
    }
}

#[test]
fn hunt_result_next_needs_a_living_winner() {
    let mut p: HuntBattleResultPage<&str, u32> = HuntBattleResultPage::new("hero", 20, outcome(true), Some(5));
    assert_eq!(p.get_enemy_id(), 12);
    assert_eq!(*p.get_hero(), "hero");
    assert_eq!(p.card_dropped(), &Some(5));
    assert_eq!(p.outcome().exp_gained, 30);
    assert!(p.update());
    p.handle_tap(100, 400);
    assert!(!p.update());
    assert_eq!(p.take_action(), Some(HuntResultAction::Next));
    assert_eq!(p.take_action(), None);
    p.handle_tap(200, 400);
    assert_eq!(p.take_action(), Some(HuntResultAction::Stop));
    p.handle_tap(180, 400);
    assert_eq!(p.take_action(), None);
    assert!(p.wants_redraw());
    p.finish_draw();
    assert!(!p.wants_redraw());
    p.mark_dirty();
    assert!(p.wants_redraw());

    let mut lost: HuntBattleResultPage<&str, u32> = HuntBattleResultPage::new("hero", 20, outcome(false), None);
    lost.handle_tap(100, 400);
    assert_eq!(lost.take_action(), None);
    let mut fallen: HuntBattleResultPage<&str, u32> = HuntBattleResultPage::new("hero", 0, outcome(true), None);
    fallen.handle_tap(100, 400);
    assert_eq!(fallen.take_action(), None);
    fallen.handle_swipe_left();
    assert_eq!(fallen.take_action(), Some(HuntResultAction::Stop));
}

#[test]
fn page_defaults_clear_and_keep_the_page() {
    let mut p = HeroOverviewPage::new();
    assert!(p.needs_clear());
    p.layout(true);
    p.on_enter();
    p.on_exit();
    assert_eq!(p.handle_touch(20, 410), Some(ButtonAction::AllocateStats));
    assert!(!p.needs_full_redraw());
}
