use vstd::prelude::*;

use crate::text::{digit_str, push_decimal, spec_decimal, spec_digit_char};

verus! {

/// A single slot of the hotbar display.
#[derive(Debug, Clone, Default)]
pub struct HotbarSlot {
    /// Item id shown in the slot, if any.
    pub item_id: Option<u32>,
    /// Item count, for stackable items.
    pub count: u32,
}

/// The in-game clock display of the heads-up display.
#[derive(Debug, Clone)]
pub struct TimeDisplay {
    /// Current hour (0-23).
    pub hour: u8,
    /// Current minute (0-59).
    pub minute: u8,
    /// Current day.
    pub day: u32,
}

impl TimeDisplay {
    /// A fresh display showing 6:00 on day 1.
    pub fn new() -> (t: TimeDisplay)
        ensures
            t.hour == 6,
            t.minute == 0,
            t.day == 1,
    {
        TimeDisplay { hour: 6, minute: 0, day: 1 }
    }

    /// Set the displayed time; hour and minute are clamped into range.
    pub fn set_time(&mut self, hour: u8, minute: u8, day: u32)
        ensures
            final(self).hour == if hour < 23 {
                hour
            } else {
                23u8
            },
            final(self).minute == if minute < 59 {
                minute
            } else {
                59u8
            },
            final(self).day == day,
    {
        self.hour = if hour < 23 {
            hour
        } else {
            23
        };
        self.minute = if minute < 59 {
            minute
        } else {
            59
        };
        self.day = day;
    }

    /// The time as a five-character "HH:MM" string with zero-padded fields.
    pub fn time_string(&self) -> (r: String)
        requires
            self.hour <= 23,
            self.minute <= 59,
        ensures
            r@ == seq![
                spec_digit_char(self.hour as int / 10),
                spec_digit_char(self.hour as int % 10),
                ':',
                spec_digit_char(self.minute as int / 10),
                spec_digit_char(self.minute as int % 10),
            ],
    {
        proof {
            reveal_strlit(":");
        }
        let mut s = String::new();
        s.append(digit_str((self.hour / 10) as u32));
        s.append(digit_str((self.hour % 10) as u32));
        s.append(":");
        s.append(digit_str((self.minute / 10) as u32));
        s.append(digit_str((self.minute % 10) as u32));
        proof {
            assert(s@ =~= seq![
                spec_digit_char(self.hour as int / 10),
                spec_digit_char(self.hour as int % 10),
                ':',
                spec_digit_char(self.minute as int / 10),
                spec_digit_char(self.minute as int % 10),
            ]);
        }
        s
    }

    /// The day as a "Day N" string.
    pub fn day_string(&self) -> (r: String)
        ensures
            r@ == "Day "@ + spec_decimal(self.day as int),
    {
        let mut s = String::new();
        s.append("Day ");
        push_decimal(&mut s, self.day);
        s
    }
}

impl Default for TimeDisplay {
    /// The default display shows 6:00 on day 1.
    fn default() -> (t: TimeDisplay)
        ensures
            t.hour == 6,
            t.minute == 0,
            t.day == 1,
    {
        TimeDisplay::new()
    }
}

} // verus!
