use vstd::prelude::*;

verus! {

/// Sprite sheet configuration for a character.
#[derive(Debug, Clone)]
pub struct SpriteSheetConfig {
    /// Path to the texture file, relative to the asset root.
    pub path: String,
    /// Sheet size (width, height) in pixels.
    pub size: [u32; 2],
    /// Size of each square frame in pixels.
    pub frame_size: u32,
}

/// Direction a character is facing in its sprite sheet.
#[derive(Debug, Clone, Copy, PartialEq, Eq, Structural)]
pub enum Direction {
    Down,
    Up,
    Left,
    Right,
}

impl Default for Direction {
    /// Characters face down (toward the camera) by default.
    fn default() -> (r: Self)
        ensures
            r == Direction::Down,
    {
        Direction::Down
    }
}

impl Direction {
    /// The row of this direction in the sprite sheet; left and right share
    /// the side row.
    pub fn row(self) -> (r: u32)
        ensures
            r == (match self {
                Direction::Down => 0u32,
                Direction::Up => 1u32,
                Direction::Left | Direction::Right => 2u32,
            }),
    {
        match self {
            Direction::Down => 0,
            Direction::Up => 1,
            Direction::Left | Direction::Right => 2,
        }
    }

    /// Whether the sprite must be mirrored horizontally (only when facing
    /// left, which reuses the right-facing row).
    pub fn flip_x(self) -> (r: bool)
        ensures
            r == (self == Direction::Left),
    {
        self == Direction::Left
    }

    /// The direction's suffix in animation names.
    pub fn suffix(self) -> (r: &'static str)
        ensures
            r@ == (match self {
                Direction::Down => "down"@,
                Direction::Up => "up"@,
                Direction::Left | Direction::Right => "side"@,
            }),
    {
        match self {
            Direction::Down => "down",
            Direction::Up => "up",
            Direction::Left | Direction::Right => "side",
        }
    }
}

/// Character movement state.
#[derive(Debug, Clone, Copy, PartialEq, Eq, Structural)]
pub enum CharacterState {
    Idle,
    Walking,
    Running,
}

impl Default for CharacterState {
    /// Characters start idle.
    fn default() -> (r: Self)
        ensures
            r == CharacterState::Idle,
    {
        CharacterState::Idle
    }
}

impl CharacterState {
    /// The animation key of this state.
    pub fn key(self) -> (r: &'static str)
        ensures
            r@ == (match self {
                CharacterState::Idle => "idle"@,
                CharacterState::Walking => "walk"@,
                CharacterState::Running => "run"@,
            }),
    {
        match self {
            CharacterState::Idle => "idle",
            CharacterState::Walking => "walk",
            CharacterState::Running => "run",
        }
    }
}

/// Errors when loading a character configuration.
#[derive(Debug)]
pub enum CharacterLoadError {
    /// Reading the configuration failed.
    Io(String),
    /// The configuration did not parse.
    Parse(String),
    /// An animation referenced a sprite sheet that is not defined.
    MissingSheet(String),
}

} // verus!
