use grf_engine::{DayOfWeek, GameClock, Season, TimeOfDay};

#[test]
fn test_new_clock() {
    let clock = GameClock::new();
    assert_eq!(clock.hour(), 6);
    assert_eq!(clock.minute(), 0);
    assert_eq!(clock.day(), 1);
    assert_eq!(clock.season(), Season::Spring);
    assert_eq!(clock.year(), 1);
}

#[test]
fn test_day_rollover() {
    let mut clock = GameClock::new();
    clock.set_time(23, 59);

    clock.advance_minute();

    assert_eq!(clock.hour(), 0);
    assert_eq!(clock.minute(), 0);
    assert_eq!(clock.day(), 2);
}

#[test]
fn test_season_rollover() {
    let mut clock = GameClock::new();
    clock.day = 28;
    clock.set_time(23, 59);

    clock.advance_minute();

    assert_eq!(clock.day(), 1);
    assert_eq!(clock.season(), Season::Summer);
}

#[test]
fn test_year_rollover() {
    let mut clock = GameClock::new();
    clock.season = Season::Winter;
    clock.day = 28;
    clock.set_time(23, 59);

    clock.advance_minute();

    assert_eq!(clock.season(), Season::Spring);
    assert_eq!(clock.year(), 2);
}

#[test]
fn test_time_of_day() {
    let mut clock = GameClock::new();

    clock.set_time(6, 0);
    assert!(clock.is_morning());

    clock.set_time(12, 0);
    assert!(clock.is_afternoon());

    clock.set_time(18, 0);
    assert!(clock.is_evening());

    clock.set_time(22, 0);
    assert!(clock.is_night());

    clock.set_time(3, 0);
    assert!(clock.is_night());
}

#[test]
fn test_day_of_week() {
    let clock = GameClock::new();
    // Day 1 = Monday
    assert_eq!(clock.day_of_week(), DayOfWeek::Monday);
}

#[test]
fn test_minute_rollover_into_hour() {
    let mut clock = GameClock::new();
    clock.set_time(6, 59);
    clock.advance_minute();
    assert_eq!(clock.hour(), 7);
    assert_eq!(clock.minute(), 0);
}

#[test]
fn test_skip_to_next_day() {
    let mut clock = GameClock::new();
    clock.set_time(14, 30);
    clock.skip_to_next_day();
    assert_eq!(clock.day(), 2);
    assert_eq!(clock.hour(), 6);
    assert_eq!(clock.minute(), 0);
}

#[test]
fn test_season_cycle_and_index() {
    assert_eq!(Season::Spring.next(), Season::Summer);
    assert_eq!(Season::Summer.next(), Season::Fall);
    assert_eq!(Season::Fall.next(), Season::Winter);
    assert_eq!(Season::Winter.next(), Season::Spring);
    assert_eq!(Season::from_index(0), Season::Spring);
    assert_eq!(Season::from_index(5), Season::Summer);
    assert_eq!(Season::Fall.index(), 2);
    assert_eq!(Season::Winter.name(), "Winter");
}

#[test]
fn test_day_of_week_names_and_cycle() {
    assert_eq!(DayOfWeek::Monday.next(), DayOfWeek::Tuesday);
    assert_eq!(DayOfWeek::Sunday.next(), DayOfWeek::Monday);
    assert_eq!(DayOfWeek::from_index(7), DayOfWeek::Monday);
    assert_eq!(DayOfWeek::Wednesday.name(), "Wednesday");
    assert_eq!(DayOfWeek::Wednesday.short_name(), "Wed");
}

#[test]
fn test_time_of_day_names() {
    assert_eq!(TimeOfDay::Morning.name(), "Morning");
    assert_eq!(TimeOfDay::Night.name(), "Night");
}

#[test]
fn test_daytime_boundaries() {
    let mut clock = GameClock::new();
    clock.set_time(5, 59);
    assert!(clock.is_nighttime());
    clock.set_time(6, 0);
    assert!(clock.is_daytime());
    clock.set_time(21, 59);
    assert!(clock.is_daytime());
    clock.set_time(22, 0);
    assert!(clock.is_nighttime());
}

#[test]
fn test_formatting() {
    let mut clock = GameClock::new();
    clock.set_time(14, 30);

    assert_eq!(clock.time_string(), "14:30");
    assert_eq!(clock.time_string_12h(), "2:30 PM");
}

#[test]
fn test_twelve_hour_edges() {
    let mut clock = GameClock::new();
    clock.set_time(0, 5);
    assert_eq!(clock.time_string_12h(), "12:05 AM");
    clock.set_time(12, 0);
    assert_eq!(clock.time_string_12h(), "12:00 PM");
    clock.set_time(11, 59);
    assert_eq!(clock.time_string_12h(), "11:59 AM");
}

#[test]
fn test_date_and_full_strings() {
    let mut clock = GameClock::new();
    clock.set_time(14, 30);
    assert_eq!(clock.date_string(), "Spring 1 Year 1");
    assert_eq!(clock.full_string(), "Monday, Spring 1 - 2:30 PM");
}
