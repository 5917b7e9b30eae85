use vstd::prelude::*;

verus! {

/// Category of a logged event, used for filtering the event log.
#[derive(Debug, Clone, Copy, PartialEq, Eq, Structural)]
pub enum EventType {
    /// Input events (key press, mouse click).
    Input,
    /// Game events (map transition, item pickup, dialogue).
    Game,
    /// System events (init, resize, error).
    System,
    /// Debug events (toggle, command).
    Debug,
}

impl EventType {
    /// The category's display name.
    pub fn name(&self) -> (r: &'static str)
        ensures
            r@ == (match self {
                EventType::Input => "Input"@,
                EventType::Game => "Game"@,
                EventType::System => "System"@,
                EventType::Debug => "Debug"@,
            }),
    {
        match self {
            EventType::Input => "Input",
            EventType::Game => "Game",
            EventType::System => "System",
            EventType::Debug => "Debug",
        }
    }
}

/// Which event categories the event log shows.
#[derive(Debug, Clone)]
pub struct EventLogFilter {
    /// Show input events.
    pub show_input: bool,
    /// Show game events.
    pub show_game: bool,
    /// Show system events.
    pub show_system: bool,
    /// Show debug events.
    pub show_debug: bool,
}

impl Default for EventLogFilter {
    /// By default every category is shown.
    fn default() -> (r: Self)
        ensures
            r.show_input && r.show_game && r.show_system && r.show_debug,
    {
        EventLogFilter { show_input: true, show_game: true, show_system: true, show_debug: true }
    }
}

impl EventLogFilter {
    /// Whether events of the given category pass this filter.
    pub fn should_show(&self, event_type: EventType) -> (r: bool)
        ensures
            r == (match event_type {
                EventType::Input => self.show_input,
                EventType::Game => self.show_game,
                EventType::System => self.show_system,
                EventType::Debug => self.show_debug,
            }),
    {
        match event_type {
            EventType::Input => self.show_input,
            EventType::Game => self.show_game,
            EventType::System => self.show_system,
            EventType::Debug => self.show_debug,
        }
    }
}

/// Which panels of the diagnostics overlay are open.
#[derive(Debug, Clone, Default)]
pub struct PanelState {
    /// Show the performance panel.
    pub show_performance: bool,
    /// Show the entity inspector.
    pub show_ecs_inspector: bool,
    /// Show collision overlay settings.
    pub show_collision: bool,
    /// Show the draw-order legend.
    pub show_zorder: bool,
    /// Show the event log.
    pub show_event_log: bool,
    /// Show the command console.
    pub show_console: bool,
}

/// Render statistics as shown by the diagnostics overlay.
#[derive(Debug, Clone, Default)]
pub struct DisplayRenderStats {
    /// Sprites rendered.
    pub sprites: usize,
    /// Vertices submitted.
    pub vertices: usize,
    /// Draw calls.
    pub draw_calls: usize,
    /// Texture binds.
    pub texture_binds: usize,
}

} // verus!
