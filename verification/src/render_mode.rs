//! The shading-mode state machine: an enumerated mode selects which pixel
//! program runs, and `next`/`previous` cycle through the modes, wrapping at
//! both ends.

use vstd::prelude::*;

verus! {

/// Which fragment program shades covered pixels.
#[derive(Clone, Copy, Debug, PartialEq, Eq, Structural)]
pub enum RenderMode {
    Default,
    VertexColor,
    Texture,
    TextureColor,
    Normal,
    Uv,
    Bary,
    Depth,
    Aabb,
    Error,
}

/// The mode at a given position of the fixed cycle.
pub open spec fn spec_mode_of_index(mode: int) -> RenderMode {
    if mode == 0 {
        RenderMode::Default
    } else if mode == 1 {
        RenderMode::VertexColor
    } else if mode == 2 {
        RenderMode::Texture
    } else if mode == 3 {
        RenderMode::TextureColor
    } else if mode == 4 {
        RenderMode::Normal
    } else if mode == 5 {
        RenderMode::Uv
    } else if mode == 6 {
        RenderMode::Bary
    } else if mode == 7 {
        RenderMode::Depth
    } else if mode == 8 {
        RenderMode::Aabb
    } else {
        RenderMode::Error
    }
}

/// The successor of a mode in the fixed cycle.
pub open spec fn spec_next_mode(m: RenderMode) -> RenderMode {
    match m {
        RenderMode::Default => RenderMode::VertexColor,
        RenderMode::VertexColor => RenderMode::Texture,
        RenderMode::Texture => RenderMode::TextureColor,
        RenderMode::TextureColor => RenderMode::Normal,
        RenderMode::Normal => RenderMode::Uv,
        RenderMode::Uv => RenderMode::Bary,
        RenderMode::Bary => RenderMode::Depth,
        RenderMode::Depth => RenderMode::Aabb,
        RenderMode::Aabb => RenderMode::Error,
        RenderMode::Error => RenderMode::Default,
    }
}

/// The predecessor of a mode in the fixed cycle.
pub open spec fn spec_previous_mode(m: RenderMode) -> RenderMode {
    match m {
        RenderMode::Default => RenderMode::Error,
        RenderMode::VertexColor => RenderMode::Default,
        RenderMode::Texture => RenderMode::VertexColor,
        RenderMode::TextureColor => RenderMode::Texture,
        RenderMode::Normal => RenderMode::TextureColor,
        RenderMode::Uv => RenderMode::Normal,
        RenderMode::Bary => RenderMode::Uv,
        RenderMode::Depth => RenderMode::Bary,
        RenderMode::Aabb => RenderMode::Depth,
        RenderMode::Error => RenderMode::Aabb,
    }
}

impl Default for RenderMode {
    /// The designated initial mode.
    fn default() -> (r: Self)
        ensures
            r == RenderMode::Default,
    {
        RenderMode::Default
    }
}

impl RenderMode {
    /// The mode at a cycle position; positions outside the cycle are the
    /// caller's error and are excluded up front.
    pub fn new(mode: i32) -> (r: Self)
        requires
            0 <= mode <= 9,
        ensures
            r == spec_mode_of_index(mode as int),
    {
        if mode == 0 {
            RenderMode::Default
        } else if mode == 1 {
            RenderMode::VertexColor
        } else if mode == 2 {
            RenderMode::Texture
        } else if mode == 3 {
            RenderMode::TextureColor
        } else if mode == 4 {
            RenderMode::Normal
        } else if mode == 5 {
            RenderMode::Uv
        } else if mode == 6 {
            RenderMode::Bary
        } else if mode == 7 {
            RenderMode::Depth
        } else if mode == 8 {
            RenderMode::Aabb
        } else {
            RenderMode::Error
        }
    }

    /// Advance one position in the cycle.
    pub fn next_mode(&self) -> (r: Self)
        ensures
            r == spec_next_mode(*self),
    {
        match *self {
            RenderMode::Default => RenderMode::VertexColor,
            RenderMode::VertexColor => RenderMode::Texture,
            RenderMode::Texture => RenderMode::TextureColor,
            RenderMode::TextureColor => RenderMode::Normal,
            RenderMode::Normal => RenderMode::Uv,
            RenderMode::Uv => RenderMode::Bary,
            RenderMode::Bary => RenderMode::Depth,
            RenderMode::Depth => RenderMode::Aabb,
            RenderMode::Aabb => RenderMode::Error,
            RenderMode::Error => RenderMode::Default,
        }
    }

    /// Retreat one position in the cycle.
    pub fn previous_mode(&self) -> (r: Self)
        ensures
            r == spec_previous_mode(*self),
    {
        match *self {
            RenderMode::Default => RenderMode::Error,
            RenderMode::VertexColor => RenderMode::Default,
            RenderMode::Texture => RenderMode::VertexColor,
            RenderMode::TextureColor => RenderMode::Texture,
            RenderMode::Normal => RenderMode::TextureColor,
            RenderMode::Uv => RenderMode::Normal,
            RenderMode::Bary => RenderMode::Uv,
            RenderMode::Depth => RenderMode::Bary,
            RenderMode::Aabb => RenderMode::Depth,
            RenderMode::Error => RenderMode::Aabb,
        }
    }
}

/// The two cycle transitions are mutually inverse total functions, so the
/// mode machine can be stepped forever in either direction and one step of
/// each undoes the other.
pub proof fn lemma_mode_cycle_roundtrip(m: RenderMode)
    ensures
        spec_previous_mode(spec_next_mode(m)) == m,
        spec_next_mode(spec_previous_mode(m)) == m,
{
}

} // verus!
