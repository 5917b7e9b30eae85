use vstd::prelude::*;

verus! {

/// NPC behaviour state.
#[derive(Debug, Clone, Copy, PartialEq, Eq, Structural, Hash)]
pub enum NpcState {
    /// Standing still.
    Idle,
    /// Walking to a destination.
    Walking,
    /// In conversation with the player.
    Talking,
    /// Performing a work activity.
    Working,
    /// Sleeping.
    Sleeping,
}

impl Default for NpcState {
    /// An NPC starts idle.
    fn default() -> (r: Self)
        ensures
            r == NpcState::Idle,
    {
        NpcState::Idle
    }
}

impl NpcState {
    /// Whether the player can interact with an NPC in this state.
    pub fn can_interact(self) -> (r: bool)
        ensures
            r == (self == NpcState::Idle || self == NpcState::Walking || self
                == NpcState::Working),
    {
        match self {
            NpcState::Idle | NpcState::Walking | NpcState::Working => true,
            _ => false,
        }
    }

    /// Whether the NPC is moving.
    pub fn is_moving(self) -> (r: bool)
        ensures
            r == (self == NpcState::Walking),
    {
        self == NpcState::Walking
    }
}

/// Direction an NPC is facing.
#[derive(Debug, Clone, Copy, PartialEq, Eq, Structural, Hash)]
pub enum Direction {
    Up,
    Down,
    Left,
    Right,
}

impl Default for Direction {
    /// NPCs face down (toward the camera) by default.
    fn default() -> (r: Self)
        ensures
            r == Direction::Down,
    {
        Direction::Down
    }
}

/// A scheduled activity of an NPC.
#[derive(Debug, Clone)]
pub struct ScheduleEntry {
    /// Hour this activity starts (0-23).
    pub hour: u32,
    /// Target location name (for example "home" or "shop").
    pub location: String,
    /// Activity to perform at the location.
    pub activity: NpcState,
}

/// An NPC's daily schedule: entries sorted by starting hour.
#[derive(Debug, Clone, Default)]
pub struct Schedule {
    /// Entries, sorted by hour; entries with the same hour keep the order
    /// they were added in.
    pub entries: Vec<ScheduleEntry>,
}

impl Schedule {
    /// Entries are sorted by hour.
    pub open spec fn wf(self) -> bool {
        forall|i: int, j: int|
            0 <= i < j < self.entries@.len() ==> (#[trigger] self.entries@[i]).hour <= (
            #[trigger] self.entries@[j]).hour
    }

    /// `after` is `before` with one entry for (`hour`, `location`,
    /// `activity`) inserted at position `p`: everything before `p` had an
    /// hour not after `hour`, everything from `p` on had a later hour and
    /// shifted right by one.
    pub open spec fn inserted_at(
        before: Seq<ScheduleEntry>,
        after: Seq<ScheduleEntry>,
        p: int,
        hour: u32,
        location: Seq<char>,
        activity: NpcState,
    ) -> bool {
        &&& 0 <= p <= before.len()
        &&& after.len() == before.len() + 1
        &&& (forall|j: int| 0 <= j < p ==> (#[trigger] after[j]) == before[j])
        &&& (forall|j: int| p < j < after.len() ==> (#[trigger] after[j]) == before[j - 1])
        &&& after[p].hour == hour
        &&& after[p].location@ == location
        &&& after[p].activity == activity
        &&& (forall|j: int| 0 <= j < p ==> (#[trigger] before[j]).hour <= hour)
        &&& (forall|j: int| p <= j < before.len() ==> (#[trigger] before[j]).hour > hour)
    }

    /// Create an empty schedule.
    pub fn new() -> (s: Schedule)
        ensures
            s.wf(),
            s.entries@.len() == 0,
    {
        Schedule { entries: Vec::new() }
    }

    /// Add an entry, keeping the entries sorted by hour; among entries with
    /// the same hour the new one comes last.
    pub fn add(&mut self, hour: u32, location: &str, activity: NpcState)
        requires
            old(self).wf(),
        ensures
            final(self).wf(),
            final(self).entries@.len() == old(self).entries@.len() + 1,
            exists|p: int|
                #[trigger] Schedule::inserted_at(
                    old(self).entries@,
                    final(self).entries@,
                    p,
                    hour,
                    location@,
                    activity,
                ),
    {
        let entry = ScheduleEntry { hour, location: location.to_owned(), activity };
        let mut p: usize = 0;
        while p < self.entries.len() && self.entries[p].hour <= hour
            invariant
                old(self).wf(),
                self.entries@ == old(self).entries@,
                p <= self.entries@.len(),
                forall|j: int| 0 <= j < p ==> (#[trigger] self.entries@[j]).hour <= hour,
            decreases self.entries@.len() - p,
        {
            p = p + 1;
        }
        proof {
            assert forall|j: int| p <= j < self.entries@.len() implies (
            #[trigger] self.entries@[j]).hour > hour by {
                if (p as int) < self.entries@.len() {
                    assert(self.entries@[p as int].hour > hour);
                }
            }
        }
        self.entries.insert(p, entry);
        proof {
            let q = p as int;
            let before = old(self).entries@;
            let after = self.entries@;
            assert(after[q] == entry);
            assert(forall|j: int| 0 <= j < q ==> (#[trigger] after[j]) == before[j]);
            assert(forall|j: int| q < j < after.len() ==> (#[trigger] after[j]) == before[j - 1]);
            assert(Schedule::inserted_at(before, after, q, hour, location@, activity));
            assert forall|a: int, b: int|
                0 <= a < b < after.len() implies (#[trigger] after[a]).hour <= (
            #[trigger] after[b]).hour by {
                if a < q && b < q {
                    assert(before[a].hour <= before[b].hour);
                } else if a < q && b == q {
                    assert(before[a].hour <= hour);
                } else if a < q && b > q {
                    if q <= b - 1 < before.len() {
                        assert(before[b - 1].hour > hour);
                        assert(before[a].hour <= hour);
                    }
                } else if a == q && b > q {
                    assert(before[b - 1].hour > hour);
                } else {
                    assert(before[a - 1].hour <= before[b - 1].hour);
                }
            }
        }
    }

    /// The entry in force at the given hour: the last entry whose hour is
    /// not after `hour`, or nothing before the first entry of the day.
    pub fn get_current(&self, hour: u32) -> (r: Option<&ScheduleEntry>)
        ensures
            match r {
                Some(e) => exists|p: int|
                    {
                        &&& 0 <= p < self.entries@.len()
                        &&& *e == self.entries@[p]
                        &&& self.entries@[p].hour <= hour
                        &&& forall|j: int|
                            p < j < self.entries@.len() ==> (#[trigger] self.entries@[j]).hour
                                > hour
                    },
                None => forall|j: int|
                    0 <= j < self.entries@.len() ==> (#[trigger] self.entries@[j]).hour > hour,
            },
    {
        let mut i: usize = self.entries.len();
        while i > 0
            invariant
                i <= self.entries@.len(),
                forall|j: int|
                    i <= j < self.entries@.len() ==> (#[trigger] self.entries@[j]).hour > hour,
            decreases i,
        {
            i = i - 1;
            if self.entries[i].hour <= hour {
                return Some(&self.entries[i]);
            }
        }
        None
    }
}

/// A schedule entry as it stands in the NPC data files.
#[derive(Debug, Clone)]
pub struct ScheduleEntryDef {
    /// Hour the activity starts.
    pub hour: u32,
    /// Target location name.
    pub location: String,
    /// Activity to perform.
    pub activity: NpcState,
}

/// Errors when loading NPC data.
#[derive(Debug)]
pub enum NpcLoadError {
    /// Reading the data source failed.
    Io { path: String, error: String },
    /// The data did not parse.
    Parse { error: String },
}

} // verus!
