use vstd::prelude::*;

verus! {

/// Default window width in pixels.
pub const DEFAULT_WIDTH: u32 = 1280;

/// Default window height in pixels.
pub const DEFAULT_HEIGHT: u32 = 720;

/// Default window title.
pub const DEFAULT_TITLE: &'static str = "GRF Game";

/// Configuration for creating a window.
#[derive(Debug, Clone)]
pub struct WindowConfig {
    /// Window title.
    pub title: String,
    /// Window width in pixels.
    pub width: u32,
    /// Window height in pixels.
    pub height: u32,
    /// Whether the window is resizable.
    pub resizable: bool,
}

impl WindowConfig {
    /// A configuration with the given title and default size.
    pub fn new(title: &str) -> (c: WindowConfig)
        ensures
            c.title@ == title@,
            c.width == DEFAULT_WIDTH,
            c.height == DEFAULT_HEIGHT,
            c.resizable,
    {
        WindowConfig {
            title: title.to_owned(),
            width: DEFAULT_WIDTH,
            height: DEFAULT_HEIGHT,
            resizable: true,
        }
    }

    /// This configuration with the given size.
    pub fn with_size(self, width: u32, height: u32) -> (c: WindowConfig)
        ensures
            c == (WindowConfig { width, height, ..self }),
    {
        WindowConfig { width, height, ..self }
    }

    /// This configuration with resizability set.
    pub fn with_resizable(self, resizable: bool) -> (c: WindowConfig)
        ensures
            c == (WindowConfig { resizable, ..self }),
    {
        WindowConfig { resizable, ..self }
    }
}

impl Default for WindowConfig {
    /// The default configuration: default title and size, resizable.
    fn default() -> (c: WindowConfig)
        ensures
            c.title@ == DEFAULT_TITLE@,
            c.width == DEFAULT_WIDTH,
            c.height == DEFAULT_HEIGHT,
            c.resizable,
    {
        WindowConfig::new(DEFAULT_TITLE)
    }
}

/// A window about to be opened: holds its configuration until the host's
/// event loop takes over.
pub struct Window {
    /// The configuration the window will be created with.
    pub config: WindowConfig,
}

impl Window {
    /// Create a window with the given configuration.
    pub fn new(config: WindowConfig) -> (w: Window)
        ensures
            w.config == config,
    {
        Window { config }
    }
}

} // verus!
