use stdgotchi::page::Page;
use stdgotchi::pages::rustymon_detail::{
    idle_animation_for, IdleAnimation, RustymonDetailAction, RustymonDetailPage,
};
use stdgotchi::pages::rustymon_list::{RustymonListAction, RustymonListPage};
use stdgotchi::pages::rustymon_skills::{RustymonSkillsAction, RustymonSkillsPage, SkillLoadout};
use stdgotchi::pages::rustymon_summon::{is_good_stat, RustymonSummonAction, RustymonSummonPage};
use stdgotchi::pages::skill_selection::{PageState, SkillSelectionAction, SkillSelectionPage, SkillTap};

#[test]
fn idle_animation_by_species() {
    assert_eq!(idle_animation_for(1002), IdleAnimation::Poring);
    assert_eq!(idle_animation_for(1004), IdleAnimation::Hornet);
    assert_eq!(idle_animation_for(1007), IdleAnimation::Fabre);
    assert_eq!(idle_animation_for(1051), IdleAnimation::ThiefBug);
    assert_eq!(idle_animation_for(9999), IdleAnimation::Fabre);
}

#[test]
fn detail_buttons_and_idle() {
    let mut p = RustymonDetailPage::new();
    assert!(p.needs_full_redraw());
    assert!(!p.has_idle_animation());
    assert_eq!(p.load_idle_animation(1004), IdleAnimation::Hornet);
    assert!(p.has_idle_animation());
    p.clear_idle_animation();
    assert!(!p.has_idle_animation());
    p.layout(false);
    assert_eq!(p.handle_touch(30, 390), Some(RustymonDetailAction::AddToTeam));
    assert_eq!(p.handle_touch(200, 390), Some(RustymonDetailAction::OpenSkills));
    p.layout(true);
    assert_eq!(p.handle_touch(30, 390), Some(RustymonDetailAction::RemoveFromTeam));
    assert_eq!(p.handle_touch(185, 390), None);
}

#[test]
fn rustymon_list_pages_by_six() {
    let mut p = RustymonListPage::new();
    p.layout(8);
    assert!(!p.needs_full_redraw());
    assert_eq!(p.handle_touch(20, 55), Some(RustymonListAction::SelectRustymon(0)));
    assert_eq!(p.handle_touch(20, 50 + 60 * 5 + 1), Some(RustymonListAction::SelectRustymon(5)));
    assert_eq!(p.handle_touch(330, 35), None);
    assert_eq!(p.handle_touch(20, 430), Some(RustymonListAction::Close));
    p.scroll_down(8);
    p.scroll_down(8);
    p.scroll_down(8);
    assert_eq!(p.scroll_offset(), 2);
    p.layout(8);
    assert_eq!(p.handle_touch(20, 55), Some(RustymonListAction::SelectRustymon(2)));
    assert_eq!(p.handle_touch(330, 35), Some(RustymonListAction::ScrollUp));
    p.scroll_up();
    assert_eq!(p.scroll_offset(), 1);
    p.layout(8);
    assert_eq!(p.handle_touch(330, 415), Some(RustymonListAction::ScrollDown));
    let mut few = RustymonListPage::new();
    few.layout(2);
    assert_eq!(few.handle_touch(20, 50 + 60 * 2 + 1), None);
}

#[test]
fn skills_toggle_into_the_first_free_slot() {
    let mut l = SkillLoadout { learned_skills: vec![10, 20, 30], enabled_skills: vec![None, Some(20), None] };
    assert!(RustymonSkillsPage::toggle_skill(&mut l, 0));
    assert_eq!(l.enabled_skills, vec![Some(10), Some(20), None]);
    assert!(RustymonSkillsPage::toggle_skill(&mut l, 1));
    assert_eq!(l.enabled_skills, vec![Some(10), None, None]);
    assert!(RustymonSkillsPage::toggle_skill(&mut l, 2));
    assert_eq!(l.enabled_skills, vec![Some(10), Some(30), None]);
    assert!(!RustymonSkillsPage::toggle_skill(&mut l, 7));
    let mut full = SkillLoadout { learned_skills: vec![1, 2, 3, 4], enabled_skills: vec![Some(1), Some(2), Some(3)] };
    assert!(!RustymonSkillsPage::toggle_skill(&mut full, 3));
    assert_eq!(full.enabled_skills, vec![Some(1), Some(2), Some(3)]);
}

#[test]
fn toggling_twice_restores_the_slots() {
    let mut l = SkillLoadout { learned_skills: vec![10, 20, 30], enabled_skills: vec![Some(20), None, None] };
    let before = l.enabled_skills.clone();
    assert!(RustymonSkillsPage::toggle_skill(&mut l, 2));
    assert!(RustymonSkillsPage::toggle_skill(&mut l, 2));
    assert_eq!(l.enabled_skills, before);
}

#[test]
fn skill_cards_are_tappable_when_known() {
    let mut p = RustymonSkillsPage::new();
    p.layout(&vec![true, false, true, true, true]);
    assert_eq!(p.handle_touch(20, 65), Some(RustymonSkillsAction::ToggleSkill(0)));
    assert_eq!(p.handle_touch(20, 60 + 78 + 5), None);
    assert_eq!(p.handle_touch(20, 60 + 78 * 3 + 5), Some(RustymonSkillsAction::ToggleSkill(3)));
    // the fifth skill does not fit on the screen
    assert_eq!(p.handle_touch(20, 60 + 78 * 4 + 5), None);
    assert_eq!(p.handle_touch(140, 425), Some(RustymonSkillsAction::Close));
}

#[test]
fn summon_confirm_and_cancel() {
    let mut p = RustymonSummonPage::new();
    assert_eq!(p.handle_touch(210, 420), None);
    p.layout();
    assert_eq!(p.handle_touch(210, 420), Some(RustymonSummonAction::Confirm));
    assert_eq!(p.handle_touch(30, 420), Some(RustymonSummonAction::Cancel));
    assert!(is_good_stat(12, 5));
    assert!(!is_good_stat(11, 5));
}

#[test]
fn skill_slots_pick_then_equip() {
    let mut p: SkillSelectionPage<&str> = SkillSelectionPage::new(vec!["a", "b", "c", "d", "e", "f", "g"]);
    assert_eq!(p.state(), PageState::SlotView);
    assert_eq!(p.card_count(), 7);
    assert_eq!(*p.card_at(2), "c");
    p.handle_swipe_down();
    p.handle_swipe_down();
    p.handle_swipe_down();
    assert_eq!(p.selection().0, 2);
    p.handle_swipe_up();
    assert_eq!(p.selection().0, 1);
    assert_eq!(p.handle_tap(100, 210), SkillTap::Nothing);
    assert_eq!(p.state(), PageState::CardSelection { slot_index: 1 });
    assert_eq!(p.selection(), (1, 0, 0));
    assert_eq!(p.handle_tap(100, 145), SkillTap::Equip { slot: 1, card_index: 0 });
    assert_eq!(p.handle_tap(100, 140 + 70 * 2 + 66), SkillTap::Nothing);
    for _ in 0..6 {
        p.handle_swipe_down();
    }
    assert_eq!(p.selection(), (1, 6, 2));
    assert_eq!(p.handle_tap(100, 145), SkillTap::Equip { slot: 1, card_index: 2 });
    p.equip_done();
    assert_eq!(p.take_action(), Some(SkillSelectionAction::CardEquipped));
    assert_eq!(p.state(), PageState::SlotView);
    p.handle_tap(100, 90);
    assert_eq!(p.handle_tap(100, 80), SkillTap::Unequip(0));
    assert_eq!(p.take_action(), Some(SkillSelectionAction::CardUnequipped));
    p.handle_tap(100, 330);
    assert_eq!(p.state(), PageState::CardSelection { slot_index: 2 });
    p.handle_swipe_left();
    assert_eq!(p.state(), PageState::SlotView);
    assert_eq!(p.take_action(), None);
    p.handle_swipe_left();
    assert_eq!(p.take_action(), Some(SkillSelectionAction::Exit));
    assert!(p.wants_redraw());
    p.finish_draw();
    assert!(!p.wants_redraw());
}
