//! Vertex-format bookkeeping: draw modes, index counts and fixed-color
//! state for vertex consumers.

use vstd::prelude::*;

verus! {

/// How a vertex buffer's vertices are assembled into primitives.
#[derive(Clone, Copy, Debug, PartialEq, Eq, Structural)]
pub enum VertexFormatDrawMode {
    Lines,
    LineStrip,
    DebugLines,
    DebugLineStrip,
    Triangles,
    TriangleStrip,
    TriangleFan,
    Quads,
}

impl VertexFormatDrawMode {
    /// How many vertices the first primitive drawn in this mode takes.
    pub fn first_vertex_count(&self) -> (r: usize)
        ensures
            r == match *self {
                VertexFormatDrawMode::Lines | VertexFormatDrawMode::LineStrip
                    | VertexFormatDrawMode::DebugLines
                    | VertexFormatDrawMode::DebugLineStrip => 2usize,
                VertexFormatDrawMode::Triangles | VertexFormatDrawMode::TriangleStrip
                    | VertexFormatDrawMode::TriangleFan => 3usize,
                VertexFormatDrawMode::Quads => 4usize,
            },
    {
        match self {
            VertexFormatDrawMode::Lines
            | VertexFormatDrawMode::LineStrip
            | VertexFormatDrawMode::DebugLines
            | VertexFormatDrawMode::DebugLineStrip => 2,
            VertexFormatDrawMode::Triangles
            | VertexFormatDrawMode::TriangleStrip
            | VertexFormatDrawMode::TriangleFan => 3,
            VertexFormatDrawMode::Quads => 4,
        }
    }

    /// How many further vertices each subsequent primitive takes.
    pub fn additional_vertex_count(&self) -> (r: usize)
        ensures
            r == match *self {
                VertexFormatDrawMode::Lines | VertexFormatDrawMode::DebugLines => 2usize,
                VertexFormatDrawMode::LineStrip | VertexFormatDrawMode::DebugLineStrip
                    | VertexFormatDrawMode::TriangleStrip
                    | VertexFormatDrawMode::TriangleFan => 1usize,
                VertexFormatDrawMode::Triangles => 3usize,
                VertexFormatDrawMode::Quads => 4usize,
            },
    {
        match self {
            VertexFormatDrawMode::Lines | VertexFormatDrawMode::DebugLines => 2,
            VertexFormatDrawMode::LineStrip
            | VertexFormatDrawMode::DebugLineStrip
            | VertexFormatDrawMode::TriangleStrip
            | VertexFormatDrawMode::TriangleFan => 1,
            VertexFormatDrawMode::Triangles => 3,
            VertexFormatDrawMode::Quads => 4,
        }
    }

    /// Whether consecutive primitives share vertices in this mode.
    pub fn share_vertices(&self) -> (r: bool)
        ensures
            r == match *self {
                VertexFormatDrawMode::LineStrip | VertexFormatDrawMode::DebugLineStrip
                    | VertexFormatDrawMode::TriangleStrip
                    | VertexFormatDrawMode::TriangleFan => true,
                _ => false,
            },
    {
        matches!(
            self,
            Self::LineStrip | Self::DebugLineStrip | Self::TriangleStrip | Self::TriangleFan
        )
    }

    /// How many indices a buffer of `count` vertices takes in this mode:
    /// six indices per four vertices for modes drawn as quads split into
    /// triangles, one per vertex otherwise.
    pub fn index_count(&self, count: usize) -> (r: usize)
        requires
            count / 4 * 6 <= usize::MAX,
        ensures
            r == match *self {
                VertexFormatDrawMode::Lines | VertexFormatDrawMode::Quads => count / 4 * 6,
                _ => count as int,
            },
    {
        match self {
            VertexFormatDrawMode::LineStrip
            | VertexFormatDrawMode::DebugLines
            | VertexFormatDrawMode::DebugLineStrip
            | VertexFormatDrawMode::Triangles
            | VertexFormatDrawMode::TriangleStrip
            | VertexFormatDrawMode::TriangleFan => count,
            VertexFormatDrawMode::Lines | VertexFormatDrawMode::Quads => count / 4 * 6,
        }
    }
}

/// Fixed-color state for a vertex consumer: an overriding color that, while
/// set, applies to every vertex written.
pub struct FixedColorVertexConsumer {
    pub color_fixed: bool,
    pub fixed_red: u32,
    pub fixed_green: u32,
    pub fixed_blue: u32,
    pub fixed_alpha: u32,
}

impl FixedColorVertexConsumer {
    /// Fixes the given color for subsequent vertices.
    pub fn fixed_color(&mut self, red: u32, green: u32, blue: u32, alpha: u32)
        ensures
            final(self).color_fixed,
            final(self).fixed_red == red,
            final(self).fixed_green == green,
            final(self).fixed_blue == blue,
            final(self).fixed_alpha == alpha,
    {
        self.fixed_red = red;
        self.fixed_green = green;
        self.fixed_blue = blue;
        self.fixed_alpha = alpha;
        self.color_fixed = true;
    }

    /// Stops fixing the color; the stored channels stay as they were.
    pub fn unfix_color(&mut self)
        ensures
            !final(self).color_fixed,
            final(self).fixed_red == old(self).fixed_red,
            final(self).fixed_green == old(self).fixed_green,
            final(self).fixed_blue == old(self).fixed_blue,
            final(self).fixed_alpha == old(self).fixed_alpha,
    {
        self.color_fixed = false;
    }
}

/// The highest block-light coordinate a lightmap texture addresses.
pub const MAX_BLOCK_LIGHT_COORDINATE: u32 = 240;

/// Manages the lightmap texture used to shade block and sky light.
pub struct LightmapTextureManager;

} // verus!
