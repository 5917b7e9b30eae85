use vstd::prelude::*;

verus! {

/// Player facing direction: down is front-facing, up back-facing, and both
/// side directions share one sprite row.
#[derive(Debug, Clone, Copy, PartialEq, Eq, Structural)]
pub enum Direction {
    Down,
    Up,
    Left,
    Right,
}

impl Default for Direction {
    /// The player starts facing down.
    fn default() -> (r: Self)
        ensures
            r == Direction::Down,
    {
        Direction::Down
    }
}

impl Direction {
    /// The sprite sheet row of this direction (front 0, back 1, side 2).
    pub fn sprite_row(self) -> (r: u32)
        ensures
            r == (match self {
                Direction::Down => 0u32,
                Direction::Up => 1u32,
                Direction::Left | Direction::Right => 2u32,
            }),
    {
        match self {
            Direction::Down => 0,
            Direction::Up => 1,
            Direction::Left | Direction::Right => 2,
        }
    }

    /// Whether the sprite must be mirrored horizontally (only when facing
    /// left).
    pub fn flip_x(self) -> (r: bool)
        ensures
            r == (self == Direction::Left),
    {
        self == Direction::Left
    }

    /// The direction's suffix in animation names.
    pub fn suffix(self) -> (r: &'static str)
        ensures
            r@ == (match self {
                Direction::Down => "down"@,
                Direction::Up => "up"@,
                Direction::Left | Direction::Right => "side"@,
            }),
    {
        match self {
            Direction::Down => "down",
            Direction::Up => "up",
            Direction::Left | Direction::Right => "side",
        }
    }
}

/// Player movement state.
#[derive(Debug, Clone, Copy, PartialEq, Eq, Structural)]
pub enum PlayerState {
    Idle,
    Walking,
    Running,
}

impl Default for PlayerState {
    /// The player starts idle.
    fn default() -> (r: Self)
        ensures
            r == PlayerState::Idle,
    {
        PlayerState::Idle
    }
}

} // verus!
