use vstd::prelude::*;

verus! {

/// One selectable menu entry.
#[derive(Debug, Clone)]
pub struct MenuItem {
    /// Display label.
    pub label: String,
    /// Unique identifier.
    pub id: String,
    /// Whether the entry can be selected.
    pub enabled: bool,
}

impl MenuItem {
    /// Create an enabled menu entry.
    pub fn new(id: &str, label: &str) -> (m: MenuItem)
        ensures
            m.id@ == id@,
            m.label@ == label@,
            m.enabled,
    {
        MenuItem { id: id.to_owned(), label: label.to_owned(), enabled: true }
    }

    /// Create a disabled menu entry.
    pub fn disabled(id: &str, label: &str) -> (m: MenuItem)
        ensures
            m.id@ == id@,
            m.label@ == label@,
            !m.enabled,
    {
        MenuItem { id: id.to_owned(), label: label.to_owned(), enabled: false }
    }
}

/// The standard main menu entries, in order.
pub fn main_menu_items() -> (r: Vec<MenuItem>)
    ensures
        r@.len() == 4,
        r@[0].id@ == "new_game"@ && r@[0].label@ == "New Game"@ && r@[0].enabled,
        r@[1].id@ == "load_game"@ && r@[1].label@ == "Load Game"@ && r@[1].enabled,
        r@[2].id@ == "settings"@ && r@[2].label@ == "Settings"@ && r@[2].enabled,
        r@[3].id@ == "quit"@ && r@[3].label@ == "Quit"@ && r@[3].enabled,
{
    let mut r: Vec<MenuItem> = Vec::new();
    r.push(MenuItem::new("new_game", "New Game"));
    r.push(MenuItem::new("load_game", "Load Game"));
    r.push(MenuItem::new("settings", "Settings"));
    r.push(MenuItem::new("quit", "Quit"));
    r
}

/// The standard pause menu entries, in order.
pub fn pause_menu_items() -> (r: Vec<MenuItem>)
    ensures
        r@.len() == 5,
        r@[0].id@ == "resume"@ && r@[0].label@ == "Resume"@ && r@[0].enabled,
        r@[1].id@ == "settings"@ && r@[1].label@ == "Settings"@ && r@[1].enabled,
        r@[2].id@ == "save_game"@ && r@[2].label@ == "Save Game"@ && r@[2].enabled,
        r@[3].id@ == "main_menu"@ && r@[3].label@ == "Main Menu"@ && r@[3].enabled,
        r@[4].id@ == "quit"@ && r@[4].label@ == "Quit"@ && r@[4].enabled,
{
    let mut r: Vec<MenuItem> = Vec::new();
    r.push(MenuItem::new("resume", "Resume"));
    r.push(MenuItem::new("settings", "Settings"));
    r.push(MenuItem::new("save_game", "Save Game"));
    r.push(MenuItem::new("main_menu", "Main Menu"));
    r.push(MenuItem::new("quit", "Quit"));
    r
}

} // verus!
