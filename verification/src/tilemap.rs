use vstd::prelude::*;

verus! {

/// A tileset definition: a sprite sheet cut into equal tiles.
#[derive(Debug, Clone)]
pub struct Tileset {
    /// Name of the tileset.
    pub name: String,
    /// Path to the tileset image, relative to the asset root.
    pub image: String,
    /// Width of each tile in pixels.
    pub tile_width: u32,
    /// Height of each tile in pixels.
    pub tile_height: u32,
    /// Number of columns in the tileset image.
    pub columns: u32,
    /// Number of rows in the tileset image.
    pub rows: u32,
    /// First tile id of this tileset, for maps with several tilesets.
    pub first_gid: u32,
}

impl Tileset {
    /// Total number of tiles in the tileset.
    pub fn tile_count(&self) -> (n: u32)
        requires
            self.columns * self.rows <= u32::MAX,
        ensures
            n == self.columns * self.rows,
    {
        self.columns * self.rows
    }
}

/// Where a map layer is drawn relative to entities.
#[derive(Debug, Clone, Copy, PartialEq, Eq, Structural)]
pub enum LayerType {
    /// Drawn below all entities (ground, floors).
    Below,
    /// Drawn above all entities (roofs, overlays).
    Above,
}

impl Default for LayerType {
    /// Layers are drawn below entities unless said otherwise.
    fn default() -> (r: Self)
        ensures
            r == LayerType::Below,
    {
        LayerType::Below
    }
}

/// Errors when loading a tilemap.
#[derive(Debug)]
pub enum TilemapError {
    /// Reading the map failed.
    IoError(String),
    /// The map data did not parse.
    ParseError(String),
}

} // verus!
