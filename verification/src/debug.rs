use vstd::prelude::*;

verus! {

/// Key that toggles the diagnostics overlay.
pub const DEBUG_TOGGLE_KEY: &'static str = "F12";

/// Which diagnostics are drawn over the game.
#[derive(Debug, Clone, Default)]
pub struct DebugConfig {
    /// Master toggle for all diagnostics.
    pub enabled: bool,
    /// Show collision boxes.
    pub show_collisions: bool,
    /// Show draw-order labels.
    pub show_z_order: bool,
    /// Show the tile grid.
    pub show_grid: bool,
    /// Show the frame-rate counter.
    pub show_fps: bool,
}

impl DebugConfig {
    /// A fresh configuration with everything off.
    pub fn new() -> (c: DebugConfig)
        ensures
            !c.enabled,
            !c.show_collisions,
            !c.show_z_order,
            !c.show_grid,
            !c.show_fps,
    {
        DebugConfig {
            enabled: false,
            show_collisions: false,
            show_z_order: false,
            show_grid: false,
            show_fps: false,
        }
    }

    /// Flip the master toggle.
    pub fn toggle(&mut self)
        ensures
            final(self).enabled == !old(self).enabled,
            final(self).show_collisions == old(self).show_collisions,
            final(self).show_z_order == old(self).show_z_order,
            final(self).show_grid == old(self).show_grid,
            final(self).show_fps == old(self).show_fps,
    {
        self.enabled = !self.enabled;
    }
}

} // verus!
