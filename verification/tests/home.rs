use stdgotchi::element::Element;
use stdgotchi::pages::expedition_in_progress::{minutes_seconds, ExpeditionInProgressPage};
use stdgotchi::pages::home::{
    time_left, ExpeditionInfo, HomeAction, HomePage, TeamMonsterData, TimeLeft,
};

#[test]
fn time_left_formats() {
    assert_eq!(time_left(0), TimeLeft::Complete);
    assert_eq!(time_left(59), TimeLeft::MinutesSeconds(0, 59));
    assert_eq!(time_left(3600), TimeLeft::MinutesSeconds(60, 0));
    assert_eq!(time_left(3660), TimeLeft::HoursMinutes(1, 1));
    assert_eq!(time_left(7325), TimeLeft::HoursMinutes(2, 2));
}

fn info(total: u64, started: u64, name: &str) -> ExpeditionInfo {
    ExpeditionInfo { total_seconds: total, started_at: started, map_name: name.to_string(), progress_percent: 40 }
}

#[test]
fn expedition_slots_show_the_time_left() {
    let mut p = HomePage::new();
    let team = vec![TeamMonsterData {
        species_id: "s1".to_string(),
        element: Element::Holy,
        level: 4,
        name: "Lumi".to_string(),
    }];
    p.update_data(250, (Some(info(600, 1000, "Shore")), Some(info(100, 1000, "Cave"))), team, 1125);
    assert_eq!(p.crystals(), 250);
    assert_eq!(p.team_monsters().len(), 1);
    let s0 = p.slot(0).as_ref().unwrap();
    assert!(s0.is_active);
    assert!(!s0.is_complete);
    assert_eq!(s0.map_name, "Shore");
    assert_eq!(s0.time_remaining, TimeLeft::MinutesSeconds(7, 55));
    let s1 = p.slot(1).as_ref().unwrap();
    assert!(s1.is_complete);
    assert_eq!(s1.time_remaining, TimeLeft::Complete);
    // a clock behind the start counts no time as passed
    p.update_data(0, (Some(info(600, 1000, "Shore")), None), Vec::new(), 10);
    assert_eq!(p.slot(0).as_ref().unwrap().time_remaining, TimeLeft::MinutesSeconds(10, 0));
    assert!(p.slot(1).is_none());
}

#[test]
fn home_touches() {
    let mut p = HomePage::new();
    assert_eq!(p.handle_touch(20, 90), HomeAction::NoAction);
    p.update_data(0, (Some(info(600, 0, "Shore")), None), Vec::new(), 0);
    p.layout();
    assert_eq!(p.handle_touch(20, 90), HomeAction::ViewExpedition(0));
    assert_eq!(p.handle_touch(20, 150), HomeAction::StartExpedition);
    assert_eq!(p.handle_touch(25, 250), HomeAction::ViewMonster(0));
    assert_eq!(p.handle_touch(245, 250), HomeAction::ViewMonster(2));
    assert_eq!(p.handle_touch(20, 380), HomeAction::GoToMap);
    assert_eq!(p.handle_touch(200, 380), HomeAction::GoToCollection);
    assert_eq!(p.handle_touch(180, 380), HomeAction::NoAction);
}

#[test]
fn expedition_in_progress_timing() {
    let p = ExpeditionInProgressPage::new("Wolf".to_string(), 12, 1000, 1600);
    assert_eq!(p.enemy_name(), "Wolf");
    assert_eq!(p.target_kills(), 12);
    assert_eq!(p.start_time(), 1000);
    assert_eq!(p.end_time(), 1600);
    assert!(!p.is_complete_at(1599));
    assert!(p.is_complete_at(1600));
    assert_eq!(p.remaining_seconds_at(1000), 600);
    assert_eq!(p.remaining_seconds_at(2000), 0);
    assert_eq!(minutes_seconds(600), (10, 0));
    assert_eq!(minutes_seconds(61), (1, 1));
}

#[test]
fn expedition_in_progress_reads_the_system_clock() {
    // an expedition that ended at the epoch is over whatever the clock says
    let done = ExpeditionInProgressPage::new("Wolf".to_string(), 1, 0, 0);
    assert!(done.is_complete());
    assert_eq!(done.remaining_seconds(), 0);
    // one that ends far in the future is still running
    let far = ExpeditionInProgressPage::new("Wolf".to_string(), 1, 0, u64::MAX);
    assert!(!far.is_complete());
    assert!(far.remaining_seconds() > 0);
}
