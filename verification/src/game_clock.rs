use vstd::prelude::*;

use crate::text::{push_decimal, push_two_digits, spec_decimal, spec_two_digits};

verus! {

/// Minutes per hour.
pub const MINUTES_PER_HOUR: u32 = 60;

/// Hours per day.
pub const HOURS_PER_DAY: u32 = 24;

/// Days per season.
pub const DAYS_PER_SEASON: u32 = 28;

/// Seasons per year.
pub const SEASONS_PER_YEAR: u32 = 4;

/// Season of the year.
#[derive(Debug, Clone, Copy, PartialEq, Eq, Structural, Hash)]
pub enum Season {
    Spring,
    Summer,
    Fall,
    Winter,
}

impl Season {
    /// The season after this one, wrapping from winter to spring.
    pub fn next(self) -> (r: Season)
        ensures
            r == (match self {
                Season::Spring => Season::Summer,
                Season::Summer => Season::Fall,
                Season::Fall => Season::Winter,
                Season::Winter => Season::Spring,
            }),
    {
        match self {
            Season::Spring => Season::Summer,
            Season::Summer => Season::Fall,
            Season::Fall => Season::Winter,
            Season::Winter => Season::Spring,
        }
    }

    /// The season's display name.
    pub fn name(self) -> (r: &'static str)
        ensures
            r@ == (match self {
                Season::Spring => "Spring"@,
                Season::Summer => "Summer"@,
                Season::Fall => "Fall"@,
                Season::Winter => "Winter"@,
            }),
    {
        match self {
            Season::Spring => "Spring",
            Season::Summer => "Summer",
            Season::Fall => "Fall",
            Season::Winter => "Winter",
        }
    }

    /// The season's index, 0 through 3.
    pub fn index(self) -> (r: u32)
        ensures
            r == self.spec_index(),
    {
        match self {
            Season::Spring => 0,
            Season::Summer => 1,
            Season::Fall => 2,
            Season::Winter => 3,
        }
    }

    /// Spec-level season index.
    pub open spec fn spec_index(self) -> u32 {
        match self {
            Season::Spring => 0u32,
            Season::Summer => 1u32,
            Season::Fall => 2u32,
            Season::Winter => 3u32,
        }
    }

    /// The season with the given index, wrapping every four.
    pub fn from_index(index: u32) -> (r: Season)
        ensures
            r.spec_index() == index % 4,
    {
        match index % 4 {
            0 => Season::Spring,
            1 => Season::Summer,
            2 => Season::Fall,
            _ => Season::Winter,
        }
    }
}

/// Day of the week.
#[derive(Debug, Clone, Copy, PartialEq, Eq, Structural, Hash)]
pub enum DayOfWeek {
    Monday,
    Tuesday,
    Wednesday,
    Thursday,
    Friday,
    Saturday,
    Sunday,
}

impl DayOfWeek {
    /// The day after this one, wrapping from Sunday to Monday.
    pub fn next(self) -> (r: DayOfWeek)
        ensures
            r.spec_index() == (self.spec_index() + 1) % 7,
    {
        match self {
            DayOfWeek::Monday => DayOfWeek::Tuesday,
            DayOfWeek::Tuesday => DayOfWeek::Wednesday,
            DayOfWeek::Wednesday => DayOfWeek::Thursday,
            DayOfWeek::Thursday => DayOfWeek::Friday,
            DayOfWeek::Friday => DayOfWeek::Saturday,
            DayOfWeek::Saturday => DayOfWeek::Sunday,
            DayOfWeek::Sunday => DayOfWeek::Monday,
        }
    }

    /// Spec-level day index, 0 = Monday.
    pub open spec fn spec_index(self) -> u32 {
        match self {
            DayOfWeek::Monday => 0u32,
            DayOfWeek::Tuesday => 1u32,
            DayOfWeek::Wednesday => 2u32,
            DayOfWeek::Thursday => 3u32,
            DayOfWeek::Friday => 4u32,
            DayOfWeek::Saturday => 5u32,
            DayOfWeek::Sunday => 6u32,
        }
    }

    /// The day's display name.
    pub fn name(self) -> (r: &'static str)
        ensures
            r@ == (match self {
                DayOfWeek::Monday => "Monday"@,
                DayOfWeek::Tuesday => "Tuesday"@,
                DayOfWeek::Wednesday => "Wednesday"@,
                DayOfWeek::Thursday => "Thursday"@,
                DayOfWeek::Friday => "Friday"@,
                DayOfWeek::Saturday => "Saturday"@,
                DayOfWeek::Sunday => "Sunday"@,
            }),
    {
        match self {
            DayOfWeek::Monday => "Monday",
            DayOfWeek::Tuesday => "Tuesday",
            DayOfWeek::Wednesday => "Wednesday",
            DayOfWeek::Thursday => "Thursday",
            DayOfWeek::Friday => "Friday",
            DayOfWeek::Saturday => "Saturday",
            DayOfWeek::Sunday => "Sunday",
        }
    }

    /// The day's three-letter name.
    pub fn short_name(self) -> (r: &'static str)
        ensures
            r@ == (match self {
                DayOfWeek::Monday => "Mon"@,
                DayOfWeek::Tuesday => "Tue"@,
                DayOfWeek::Wednesday => "Wed"@,
                DayOfWeek::Thursday => "Thu"@,
                DayOfWeek::Friday => "Fri"@,
                DayOfWeek::Saturday => "Sat"@,
                DayOfWeek::Sunday => "Sun"@,
            }),
    {
        match self {
            DayOfWeek::Monday => "Mon",
            DayOfWeek::Tuesday => "Tue",
            DayOfWeek::Wednesday => "Wed",
            DayOfWeek::Thursday => "Thu",
            DayOfWeek::Friday => "Fri",
            DayOfWeek::Saturday => "Sat",
            DayOfWeek::Sunday => "Sun",
        }
    }

    /// The day with the given index, wrapping every seven; 0 is Monday.
    pub fn from_index(index: u32) -> (r: DayOfWeek)
        ensures
            r.spec_index() == index % 7,
    {
        match index % 7 {
            0 => DayOfWeek::Monday,
            1 => DayOfWeek::Tuesday,
            2 => DayOfWeek::Wednesday,
            3 => DayOfWeek::Thursday,
            4 => DayOfWeek::Friday,
            5 => DayOfWeek::Saturday,
            _ => DayOfWeek::Sunday,
        }
    }
}

/// Period of the day.
#[derive(Debug, Clone, Copy, PartialEq, Eq, Structural)]
pub enum TimeOfDay {
    /// 6:00 - 11:59.
    Morning,
    /// 12:00 - 17:59.
    Afternoon,
    /// 18:00 - 21:59.
    Evening,
    /// 22:00 - 5:59.
    Night,
}

impl TimeOfDay {
    /// The period's display name.
    pub fn name(self) -> (r: &'static str)
        ensures
            r@ == (match self {
                TimeOfDay::Morning => "Morning"@,
                TimeOfDay::Afternoon => "Afternoon"@,
                TimeOfDay::Evening => "Evening"@,
                TimeOfDay::Night => "Night"@,
            }),
    {
        match self {
            TimeOfDay::Morning => "Morning",
            TimeOfDay::Afternoon => "Afternoon",
            TimeOfDay::Evening => "Evening",
            TimeOfDay::Night => "Night",
        }
    }
}

/// The period of the day a given hour falls in.
pub open spec fn spec_time_of_day(hour: u32) -> TimeOfDay {
    if 6 <= hour <= 11 {
        TimeOfDay::Morning
    } else if 12 <= hour <= 17 {
        TimeOfDay::Afternoon
    } else if 18 <= hour <= 21 {
        TimeOfDay::Evening
    } else {
        TimeOfDay::Night
    }
}

/// The display name of a season.
pub open spec fn spec_season_name(s: Season) -> Seq<char> {
    match s {
        Season::Spring => "Spring"@,
        Season::Summer => "Summer"@,
        Season::Fall => "Fall"@,
        Season::Winter => "Winter"@,
    }
}

/// The display name of the day of the week with the given index (0 is
/// Monday).
pub open spec fn spec_day_name(idx: int) -> Seq<char> {
    if idx == 0 {
        "Monday"@
    } else if idx == 1 {
        "Tuesday"@
    } else if idx == 2 {
        "Wednesday"@
    } else if idx == 3 {
        "Thursday"@
    } else if idx == 4 {
        "Friday"@
    } else if idx == 5 {
        "Saturday"@
    } else {
        "Sunday"@
    }
}

/// The hour on a 12-hour dial: 0 shows as 12, afternoon hours drop twelve.
pub open spec fn spec_hour_12(hour: u32) -> u32 {
    if hour == 0 {
        12u32
    } else if hour <= 12 {
        hour
    } else {
        (hour - 12) as u32
    }
}

/// The "H:MM AM/PM" rendering of a time of day.
pub open spec fn spec_time_12h(hour: u32, minute: u32) -> Seq<char> {
    spec_decimal(spec_hour_12(hour) as int) + seq![':'] + spec_two_digits(minute as int) + (
    if hour < 12 {
        " AM"@
    } else {
        " PM"@
    })
}

/// The in-game calendar and time of day: minute, hour, day of the month,
/// season and year, advanced one in-game minute at a time. (How fast real
/// time maps to in-game minutes is the caller's affair.)
#[derive(Debug, Clone)]
pub struct GameClock {
    /// Current minute (0-59).
    pub minute: u32,
    /// Current hour (0-23).
    pub hour: u32,
    /// Current day of the month (1-28).
    pub day: u32,
    /// Current season.
    pub season: Season,
    /// Current year (starts at 1).
    pub year: u32,
    /// Whether time is paused.
    pub paused: bool,
}

impl GameClock {
    /// The clock's fields are always in range.
    pub open spec fn wf(self) -> bool {
        &&& self.minute < 60
        &&& self.hour < 24
        &&& 1 <= self.day <= 28
        &&& self.year >= 1
    }

    /// Spec-level views of the fields.
    pub open spec fn spec_minute(self) -> u32 {
        self.minute
    }

    pub open spec fn spec_hour(self) -> u32 {
        self.hour
    }

    pub open spec fn spec_day(self) -> u32 {
        self.day
    }

    pub open spec fn spec_season(self) -> Season {
        self.season
    }

    pub open spec fn spec_year(self) -> u32 {
        self.year
    }

    /// A new clock starting at 6:00, day 1 of spring, year 1, running.
    pub fn new() -> (c: GameClock)
        ensures
            c.wf(),
            c.spec_minute() == 0,
            c.spec_hour() == 6,
            c.spec_day() == 1,
            c.spec_season() == Season::Spring,
            c.spec_year() == 1,
            c.paused == false,
    {
        GameClock { minute: 0, hour: 6, day: 1, season: Season::Spring, year: 1, paused: false }
    }

    /// A new clock with a custom starting time; hour and minute wrap into
    /// range.
    pub fn with_time(hour: u32, minute: u32) -> (c: GameClock)
        ensures
            c.wf(),
            c.spec_minute() == minute % 60,
            c.spec_hour() == hour % 24,
            c.spec_day() == 1,
            c.spec_season() == Season::Spring,
            c.spec_year() == 1,
            c.paused == false,
    {
        let mut clock = GameClock::new();
        clock.hour = hour % HOURS_PER_DAY;
        clock.minute = minute % MINUTES_PER_HOUR;
        clock
    }

    /// Advance by one in-game minute, rolling minutes into hours, hours into
    /// days, days into seasons and seasons into years.
    pub fn advance_minute(&mut self)
        requires
            old(self).wf(),
            old(self).spec_year() < u32::MAX,
        ensures
            final(self).wf(),
            final(self).paused == old(self).paused,
            ({
                let total = old(self).spec_minute() + 1;
                &&& final(self).spec_minute() == total % 60
                &&& total < 60 ==> final(self).spec_hour() == old(self).spec_hour() && final(self).spec_day() == old(self).spec_day() && final(self).spec_season() == old(self).spec_season() && final(self).spec_year() == old(self).spec_year()
                &&& total == 60 ==> {
                    let h = old(self).spec_hour() + 1;
                    &&& final(self).spec_hour() == h % 24
                    &&& h < 24 ==> final(self).spec_day() == old(self).spec_day() && final(self).spec_season() == old(self).spec_season() && final(self).spec_year() == old(self).spec_year()
                    &&& h == 24 ==> {
                        let d = old(self).spec_day() + 1;
                        &&& (d <= 28 ==> final(self).spec_day() == d && final(self).spec_season()
                            == old(self).spec_season() && final(self).spec_year() == old(self).spec_year())
                        &&& (d > 28 ==> final(self).spec_day() == 1 && final(self).spec_season()
                            == (match old(self).spec_season() {
                            Season::Spring => Season::Summer,
                            Season::Summer => Season::Fall,
                            Season::Fall => Season::Winter,
                            Season::Winter => Season::Spring,
                        }) && final(self).spec_year() == old(self).spec_year() + (
                        if old(self).spec_season() == Season::Winter {
                            1int
                        } else {
                            0int
                        }))
                    }
                }
            }),
    {
        self.minute = self.minute + 1;
        if self.minute >= MINUTES_PER_HOUR {
            self.minute = 0;
            self.advance_hour();
        }
    }

    /// Advance by one hour, rolling into the next day when needed.
    fn advance_hour(&mut self)
        requires
            old(self).wf(),
            old(self).spec_year() < u32::MAX,
        ensures
            final(self).wf(),
            final(self).paused == old(self).paused,
            final(self).spec_minute() == old(self).spec_minute(),
            final(self).spec_hour() == (old(self).spec_hour() + 1) % 24,
            old(self).spec_hour() + 1 < 24 ==> final(self).spec_day() == old(self).spec_day()
                && final(self).spec_season() == old(self).spec_season() && final(self).spec_year()
                == old(self).spec_year(),
            old(self).spec_hour() + 1 == 24 ==> {
                let d = old(self).spec_day() + 1;
                &&& (d <= 28 ==> final(self).spec_day() == d && final(self).spec_season() == old(self).spec_season() && final(self).spec_year() == old(self).spec_year())
                &&& (d > 28 ==> final(self).spec_day() == 1 && final(self).spec_season() == (
                match old(self).spec_season() {
                    Season::Spring => Season::Summer,
                    Season::Summer => Season::Fall,
                    Season::Fall => Season::Winter,
                    Season::Winter => Season::Spring,
                }) && final(self).spec_year() == old(self).spec_year() + (
                if old(self).spec_season() == Season::Winter {
                    1int
                } else {
                    0int
                }))
            },
    {
        self.hour = self.hour + 1;
        if self.hour >= HOURS_PER_DAY {
            self.hour = 0;
            self.advance_day();
        }
    }

    /// Advance by one day, rolling into the next season when needed.
    fn advance_day(&mut self)
        requires
            old(self).wf(),
            old(self).spec_year() < u32::MAX,
        ensures
            final(self).wf(),
            final(self).paused == old(self).paused,
            final(self).spec_minute() == old(self).spec_minute(),
            final(self).spec_hour() == old(self).spec_hour(),
            old(self).spec_day() + 1 <= 28 ==> final(self).spec_day() == old(self).spec_day() + 1
                && final(self).spec_season() == old(self).spec_season() && final(self).spec_year()
                == old(self).spec_year(),
            old(self).spec_day() + 1 > 28 ==> final(self).spec_day() == 1 && final(self).spec_season() == (match old(self).spec_season() {
                Season::Spring => Season::Summer,
                Season::Summer => Season::Fall,
                Season::Fall => Season::Winter,
                Season::Winter => Season::Spring,
            }) && final(self).spec_year() == old(self).spec_year() + (
            if old(self).spec_season() == Season::Winter {
                1int
            } else {
                0int
            }),
    {
        self.day = self.day + 1;
        if self.day > DAYS_PER_SEASON {
            self.day = 1;
            self.season = self.season.next();
            if self.season == Season::Spring {
                self.year = self.year + 1;
            }
        }
    }

    /// Current minute (0-59).
    pub fn minute(&self) -> (r: u32)
        ensures
            r == self.spec_minute(),
    {
        self.minute
    }

    /// Current hour (0-23).
    pub fn hour(&self) -> (r: u32)
        ensures
            r == self.spec_hour(),
    {
        self.hour
    }

    /// Current day of the month (1-28).
    pub fn day(&self) -> (r: u32)
        ensures
            r == self.spec_day(),
    {
        self.day
    }

    /// Current season.
    pub fn season(&self) -> (r: Season)
        ensures
            r == self.spec_season(),
    {
        self.season
    }

    /// Current year (starting at 1).
    pub fn year(&self) -> (r: u32)
        ensures
            r == self.spec_year(),
    {
        self.year
    }

    /// The day of the week, counting day 1 of spring in year 1 as a Monday.
    pub fn day_of_week(&self) -> (r: DayOfWeek)
        requires
            self.wf(),
        ensures
            r.spec_index() as int == ((self.spec_year() - 1) * 112 + self.spec_season().spec_index()
                * 28 + (self.spec_day() - 1)) % 7,
    {
        let years: u64 = (self.year - 1) as u64;
        let season_index: u64 = self.season.index() as u64;
        let total_days: u64 = years * 112 + season_index * 28 + (self.day - 1) as u64;
        let rem: u32 = (total_days % 7) as u32;
        proof {
            assert(total_days as int == (self.year - 1) * 112 + self.spec_season().spec_index()
                * 28 + (self.day - 1));
        }
        DayOfWeek::from_index(rem)
    }

    /// The day of the week's index (0 is Monday), counting day 1 of spring
    /// in year 1 as a Monday.
    pub open spec fn spec_day_of_week_index(self) -> int {
        ((self.year - 1) * 112 + self.season.spec_index() * 28 + (self.day - 1)) % 7
    }

    /// The time as a zero-padded "HH:MM" string.
    pub fn time_string(&self) -> (r: String)
        requires
            self.wf(),
        ensures
            r@ == spec_two_digits(self.spec_hour() as int) + seq![':'] + spec_two_digits(
                self.spec_minute() as int,
            ),
    {
        let mut s = String::new();
        push_two_digits(&mut s, self.hour);
        s.append(":");
        push_two_digits(&mut s, self.minute);
        proof {
            reveal_strlit(":");
            assert(s@ =~= spec_two_digits(self.spec_hour() as int) + seq![':'] + spec_two_digits(
                self.spec_minute() as int,
            ));
        }
        s
    }

    /// The time as an "H:MM AM/PM" string on a 12-hour dial.
    pub fn time_string_12h(&self) -> (r: String)
        requires
            self.wf(),
        ensures
            r@ == spec_time_12h(self.spec_hour(), self.spec_minute()),
    {
        let (hour_12, is_am): (u32, bool) = if self.hour == 0 {
            (12, true)
        } else if self.hour < 12 {
            (self.hour, true)
        } else if self.hour == 12 {
            (12, false)
        } else {
            (self.hour - 12, false)
        };
        let mut s = String::new();
        push_decimal(&mut s, hour_12);
        s.append(":");
        push_two_digits(&mut s, self.minute);
        if is_am {
            s.append(" AM");
        } else {
            s.append(" PM");
        }
        proof {
            reveal_strlit(":");
            reveal_strlit(" AM");
            reveal_strlit(" PM");
            assert(s@ =~= spec_time_12h(self.spec_hour(), self.spec_minute()));
        }
        s
    }

    /// The date as a "Season day Year year" string.
    pub fn date_string(&self) -> (r: String)
        ensures
            r@ == spec_season_name(self.spec_season()) + " "@ + spec_decimal(self.spec_day() as int)
                + " Year "@ + spec_decimal(self.spec_year() as int),
    {
        let mut s = String::new();
        s.append(self.season.name());
        s.append(" ");
        push_decimal(&mut s, self.day);
        s.append(" Year ");
        push_decimal(&mut s, self.year);
        proof {
            assert(s@ =~= spec_season_name(self.spec_season()) + " "@ + spec_decimal(
                self.spec_day() as int,
            ) + " Year "@ + spec_decimal(self.spec_year() as int));
        }
        s
    }

    /// The full date and time: "Weekday, Season day - H:MM AM/PM".
    pub fn full_string(&self) -> (r: String)
        requires
            self.wf(),
        ensures
            r@ == spec_day_name(self.spec_day_of_week_index()) + ", "@ + spec_season_name(
                self.spec_season(),
            ) + " "@ + spec_decimal(self.spec_day() as int) + " - "@ + spec_time_12h(
                self.spec_hour(),
                self.spec_minute(),
            ),
    {
        let dow = self.day_of_week();
        let dow_name = dow.name();
        proof {
            assert(dow_name@ == spec_day_name(self.spec_day_of_week_index()));
        }
        let mut s = String::new();
        s.append(dow_name);
        s.append(", ");
        s.append(self.season.name());
        s.append(" ");
        push_decimal(&mut s, self.day);
        s.append(" - ");
        let time = self.time_string_12h();
        s.append(time.as_str());
        proof {
            assert(s@ =~= spec_day_name(self.spec_day_of_week_index()) + ", "@ + spec_season_name(
                self.spec_season(),
            ) + " "@ + spec_decimal(self.spec_day() as int) + " - "@ + spec_time_12h(
                self.spec_hour(),
                self.spec_minute(),
            ));
        }
        s
    }

    /// The period of the day the clock stands in.
    pub fn time_of_day(&self) -> (r: TimeOfDay)
        ensures
            r == spec_time_of_day(self.spec_hour()),
    {
        if 6 <= self.hour && self.hour <= 11 {
            TimeOfDay::Morning
        } else if 12 <= self.hour && self.hour <= 17 {
            TimeOfDay::Afternoon
        } else if 18 <= self.hour && self.hour <= 21 {
            TimeOfDay::Evening
        } else {
            TimeOfDay::Night
        }
    }

    /// Whether it is morning (6:00 - 11:59).
    pub fn is_morning(&self) -> (r: bool)
        ensures
            r == (spec_time_of_day(self.spec_hour()) == TimeOfDay::Morning),
    {
        self.time_of_day() == TimeOfDay::Morning
    }

    /// Whether it is afternoon (12:00 - 17:59).
    pub fn is_afternoon(&self) -> (r: bool)
        ensures
            r == (spec_time_of_day(self.spec_hour()) == TimeOfDay::Afternoon),
    {
        self.time_of_day() == TimeOfDay::Afternoon
    }

    /// Whether it is evening (18:00 - 21:59).
    pub fn is_evening(&self) -> (r: bool)
        ensures
            r == (spec_time_of_day(self.spec_hour()) == TimeOfDay::Evening),
    {
        self.time_of_day() == TimeOfDay::Evening
    }

    /// Whether it is night (22:00 - 5:59).
    pub fn is_night(&self) -> (r: bool)
        ensures
            r == (spec_time_of_day(self.spec_hour()) == TimeOfDay::Night),
    {
        self.time_of_day() == TimeOfDay::Night
    }

    /// Whether it is daytime (6:00 - 21:59).
    pub fn is_daytime(&self) -> (r: bool)
        ensures
            r == (6 <= self.spec_hour() <= 21),
    {
        6 <= self.hour && self.hour <= 21
    }

    /// Whether it is nighttime (22:00 - 5:59).
    pub fn is_nighttime(&self) -> (r: bool)
        ensures
            r == !(6 <= self.spec_hour() <= 21),
    {
        !self.is_daytime()
    }

    /// Set the time of day; hour and minute wrap into range. The date does
    /// not change.
    pub fn set_time(&mut self, hour: u32, minute: u32)
        ensures
            final(self).spec_hour() == hour % 24,
            final(self).spec_minute() == minute % 60,
            final(self).spec_day() == old(self).spec_day(),
            final(self).spec_season() == old(self).spec_season(),
            final(self).spec_year() == old(self).spec_year(),
            final(self).paused == old(self).paused,
            old(self).wf() ==> final(self).wf(),
    {
        self.hour = hour % HOURS_PER_DAY;
        self.minute = minute % MINUTES_PER_HOUR;
    }

    /// Skip to 6:00 of the next day.
    pub fn skip_to_next_day(&mut self)
        requires
            old(self).wf(),
            old(self).spec_year() < u32::MAX,
        ensures
            final(self).wf(),
            final(self).paused == old(self).paused,
            final(self).spec_hour() == 6,
            final(self).spec_minute() == 0,
            old(self).spec_day() + 1 <= 28 ==> final(self).spec_day() == old(self).spec_day() + 1
                && final(self).spec_season() == old(self).spec_season() && final(self).spec_year()
                == old(self).spec_year(),
            old(self).spec_day() + 1 > 28 ==> final(self).spec_day() == 1 && final(self).spec_season() == (match old(self).spec_season() {
                Season::Spring => Season::Summer,
                Season::Summer => Season::Fall,
                Season::Fall => Season::Winter,
                Season::Winter => Season::Spring,
            }) && final(self).spec_year() == old(self).spec_year() + (
            if old(self).spec_season() == Season::Winter {
                1int
            } else {
                0int
            }),
    {
        self.advance_day();
        self.hour = 6;
        self.minute = 0;
    }
}

impl Default for GameClock {
    /// The default clock starts at 6:00, day 1 of spring, year 1.
    fn default() -> (c: GameClock)
        ensures
            c.wf(),
            c.spec_minute() == 0,
            c.spec_hour() == 6,
            c.spec_day() == 1,
            c.spec_season() == Season::Spring,
            c.spec_year() == 1,
            c.paused == false,
    {
        GameClock::new()
    }
}

} // verus!
