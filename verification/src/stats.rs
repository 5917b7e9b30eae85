use vstd::prelude::*;

verus! {

/// Statistics collected while rendering one frame.
#[derive(Debug, Clone, Default)]
pub struct RenderStats {
    /// Number of sprites rendered this frame.
    pub sprites: usize,
    /// Number of vertices submitted this frame.
    pub vertices: usize,
    /// Number of draw calls this frame.
    pub draw_calls: usize,
    /// Number of texture binds this frame.
    pub texture_binds: usize,
}

impl RenderStats {
    /// Fresh statistics, all zero.
    pub fn new() -> (s: RenderStats)
        ensures
            s.sprites == 0,
            s.vertices == 0,
            s.draw_calls == 0,
            s.texture_binds == 0,
    {
        RenderStats { sprites: 0, vertices: 0, draw_calls: 0, texture_binds: 0 }
    }

    /// Reset all counters for a new frame.
    pub fn reset(&mut self)
        ensures
            final(self).sprites == 0,
            final(self).vertices == 0,
            final(self).draw_calls == 0,
            final(self).texture_binds == 0,
    {
        self.sprites = 0;
        self.vertices = 0;
        self.draw_calls = 0;
        self.texture_binds = 0;
    }

    /// Record one draw call that drew `sprites` sprites (four vertices
    /// each).
    pub fn record_draw(&mut self, sprites: usize)
        requires
            old(self).sprites + sprites <= usize::MAX,
            old(self).vertices + sprites * 4 <= usize::MAX,
            old(self).draw_calls < usize::MAX,
        ensures
            final(self).sprites == old(self).sprites + sprites,
            final(self).vertices == old(self).vertices + sprites * 4,
            final(self).draw_calls == old(self).draw_calls + 1,
            final(self).texture_binds == old(self).texture_binds,
    {
        self.sprites = self.sprites + sprites;
        self.vertices = self.vertices + sprites * 4;
        self.draw_calls = self.draw_calls + 1;
    }

    /// Record one texture bind.
    pub fn record_texture_bind(&mut self)
        requires
            old(self).texture_binds < usize::MAX,
        ensures
            final(self).texture_binds == old(self).texture_binds + 1,
            final(self).sprites == old(self).sprites,
            final(self).vertices == old(self).vertices,
            final(self).draw_calls == old(self).draw_calls,
    {
        self.texture_binds = self.texture_binds + 1;
    }
}

} // verus!
