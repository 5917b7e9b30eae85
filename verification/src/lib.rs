//! A small game-engine core library: a generational entity/component store
//! with sparse-set storage, singleton resources, and the surrounding game
//! systems (inventory, farming, dialogue, schedules, input, clock).
//!
//! Every executable function in this crate carries a contract checked by
//! Verus.

mod assets;
mod character;
mod debug;
mod dialogue;
mod entity;
mod game_clock;
mod game_state;
mod hud;
mod input;
mod keyboard;
mod menu;
mod npc;
mod overlay;
mod player;
mod save_data;
mod stats;
mod text;
mod farming;
mod inventory;
mod items;
mod sparse_set;
mod tilemap;
mod window;
mod world;

pub use assets::{AssetError, Bytes, Handle, ResourceManager};
pub use character::{
    CharacterLoadError, CharacterState, Direction as CharacterDirection, SpriteSheetConfig,
};
pub use debug::{DebugConfig, DEBUG_TOGGLE_KEY};
pub use dialogue::{
    Action, Condition, Dialogue, DialogueChoice, DialogueLoadError, DialogueManager, DialogueNode,
    DialogueState,
};
pub use entity::Entity;
pub use game_clock::{
    spec_day_name, spec_hour_12, spec_season_name, spec_time_12h, spec_time_of_day, DayOfWeek,
    GameClock, Season, TimeOfDay, DAYS_PER_SEASON, HOURS_PER_DAY, MINUTES_PER_HOUR,
    SEASONS_PER_YEAR,
};
pub use game_state::{GameState, PreviousState};
pub use hud::{HotbarSlot, TimeDisplay};
pub use text::{spec_decimal, spec_digit_char, spec_two_digits};
pub use input::Input;
pub use menu::{main_menu_items, pause_menu_items, MenuItem};
pub use keyboard::{spec_pressed, spec_settle, ButtonState, KeyCode, KeyboardState};
pub use npc::{Direction, NpcLoadError, NpcState, Schedule, ScheduleEntry, ScheduleEntryDef};
pub use overlay::{DisplayRenderStats, EventLogFilter, EventType, PanelState};
pub use player::{Direction as PlayerDirection, PlayerState};
pub use save_data::GameClockData;
pub use stats::RenderStats;
pub use tilemap::{LayerType, TilemapError, Tileset};
pub use window::{Window, WindowConfig, DEFAULT_HEIGHT, DEFAULT_TITLE, DEFAULT_WIDTH};
pub use farming::{
    stage_for_days, try_plant, Crop, FarmTile, GrowthStage, PlantResult, TileState,
};
pub use inventory::{
    Inventory, ItemStack, Quality, DEFAULT_INVENTORY_SIZE, DEFAULT_MAX_STACK, HOTBAR_SIZE,
};
pub use items::{ItemDatabase, ItemDefinition, ItemLoadError, ItemType, ToolType};
pub use sparse_set::SparseSet;
pub use world::World;
