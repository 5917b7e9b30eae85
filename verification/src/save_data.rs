use vstd::prelude::*;

use crate::game_clock::GameClock;

verus! {

/// The game clock's state as it is written into a save file.
#[derive(Debug, Clone)]
pub struct GameClockData {
    pub minute: u32,
    pub hour: u32,
    pub day: u32,
    /// The season's display name.
    pub season: String,
    pub year: u32,
}

impl GameClockData {
    /// Capture a clock's state for saving.
    pub fn from_clock(clock: &GameClock) -> (d: GameClockData)
        ensures
            d.minute == clock.minute,
            d.hour == clock.hour,
            d.day == clock.day,
            d.season@ == (match clock.season {
                crate::game_clock::Season::Spring => "Spring"@,
                crate::game_clock::Season::Summer => "Summer"@,
                crate::game_clock::Season::Fall => "Fall"@,
                crate::game_clock::Season::Winter => "Winter"@,
            }),
            d.year == clock.year,
    {
        GameClockData {
            minute: clock.minute,
            hour: clock.hour,
            day: clock.day,
            season: clock.season.name().to_owned(),
            year: clock.year,
        }
    }
}

} // verus!
