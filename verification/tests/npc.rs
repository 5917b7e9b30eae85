use grf_engine::{NpcState, Schedule};

#[test]
fn test_schedule() {
    let mut schedule = Schedule::new();
    schedule.add(6, "home", NpcState::Sleeping);
    schedule.add(8, "shop", NpcState::Working);
    schedule.add(17, "home", NpcState::Idle);
    schedule.add(22, "home", NpcState::Sleeping);

    assert!(schedule.get_current(5).is_none()); // Before any schedule

    let at_7 = schedule.get_current(7).unwrap();
    assert_eq!(at_7.location.as_str(), "home");

    let at_12 = schedule.get_current(12).unwrap();
    assert_eq!(at_12.location.as_str(), "shop");

    let at_23 = schedule.get_current(23).unwrap();
    assert_eq!(at_23.activity, NpcState::Sleeping);
}

#[test]
fn test_schedule_stays_sorted_regardless_of_add_order() {
    let mut schedule = Schedule::new();
    schedule.add(17, "home", NpcState::Idle);
    schedule.add(6, "home", NpcState::Sleeping);
    schedule.add(8, "shop", NpcState::Working);

    let hours: Vec<u32> = schedule.entries.iter().map(|e| e.hour).collect();
    assert_eq!(hours, vec![6, 8, 17]);
}

#[test]
fn test_schedule_same_hour_later_entry_wins() {
    let mut schedule = Schedule::new();
    schedule.add(8, "shop", NpcState::Working);
    schedule.add(8, "market", NpcState::Working);

    // Among entries with the same hour the most recently added one is in
    // force, matching a stable sort of appended entries.
    let at_8 = schedule.get_current(8).unwrap();
    assert_eq!(at_8.location.as_str(), "market");
}

#[test]
fn test_npc_state_interaction() {
    assert!(NpcState::Idle.can_interact());
    assert!(NpcState::Walking.can_interact());
    assert!(NpcState::Working.can_interact());
    assert!(!NpcState::Talking.can_interact());
    assert!(!NpcState::Sleeping.can_interact());
    assert!(NpcState::Walking.is_moving());
    assert!(!NpcState::Idle.is_moving());
}
