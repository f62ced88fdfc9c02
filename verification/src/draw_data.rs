use vstd::prelude::*;

use crate::geometry::VERTEX_STRIDE;

verus! {

/// Fixed-point denominator: logical coordinates and scale factors carry this
/// many units per logical pixel (respectively per unit of scale).
pub const SUBPIXEL: i64 = 256;

/// Units per framebuffer pixel of a transformed coordinate: transforming
/// multiplies a coordinate by a scale factor, so the product carries
/// `SUBPIXEL * SUBPIXEL` units per pixel.
pub const PIXEL_UNIT: i64 = 65536;

/// Largest magnitude allowed of a logical coordinate, in `SUBPIXEL` units
/// (65536 logical pixels).
pub const COORD_LIMIT: i64 = 16777216;

/// Largest scale factor allowed, in `SUBPIXEL` units (a factor of 256).
pub const SCALE_LIMIT: i64 = 65536;

/// A two-component fixed-point vector in `SUBPIXEL` units.
#[derive(Clone, Copy, Debug, PartialEq, Eq, Structural)]
pub struct Vec2 {
    pub x: i64,
    pub y: i64,
}

/// A clip rectangle in logical coordinates (`SUBPIXEL` units), top-left
/// origin: `(x0, y0)` is the left/top corner, `(x1, y1)` the right/bottom.
#[derive(Clone, Copy, Debug, PartialEq, Eq, Structural)]
pub struct ClipRect {
    pub x0: i64,
    pub y0: i64,
    pub x1: i64,
    pub y1: i64,
}

/// One draw command of a draw list.
#[derive(Clone, Copy, Debug, PartialEq, Eq, Structural)]
pub enum DrawCmd {
    /// A textured, clipped triangle range: `count` indices starting at
    /// `idx_offset`, vertices based at `vtx_offset`, clipped to `clip_rect`,
    /// sampled from the texture named by `texture_id`.
    Elements {
        count: usize,
        clip_rect: ClipRect,
        texture_id: usize,
        vtx_offset: usize,
        idx_offset: usize,
    },
    /// A reserved render-state-reset marker; requires no action.
    ResetRenderState,
    /// An opaque backend callback: `callback` is a token the embedding layer
    /// maps back to the platform-defined callback and payload; it is passed
    /// through without interpretation.
    RawCallback { callback: usize },
}

/// One draw list: a raw vertex byte buffer in the fixed vertex layout, an
/// index buffer, and an ordered command sequence.
#[derive(Clone, Debug)]
pub struct DrawList {
    pub vtx_bytes: Vec<u8>,
    pub idx_buffer: Vec<u16>,
    pub commands: Vec<DrawCmd>,
}

/// A per-frame draw-data snapshot: the logical-to-pixel mapping of the frame
/// plus the ordered draw lists. Immutable for the duration of one render
/// call.
#[derive(Clone, Debug)]
pub struct DrawData {
    pub display_pos: Vec2,
    pub display_size: Vec2,
    pub framebuffer_scale: Vec2,
    pub draw_lists: Vec<DrawList>,
}

/// A logical coordinate within the representable range.
pub open spec fn coord_ok(v: i64) -> bool {
    -COORD_LIMIT <= v <= COORD_LIMIT
}

/// A scale factor within the representable range (scales are non-negative).
pub open spec fn scale_ok(v: i64) -> bool {
    0 <= v <= SCALE_LIMIT
}

impl DrawCmd {
    /// The command's offsets stay inside the owning list's buffers and its
    /// clip rectangle is within the representable coordinate range.
    pub open spec fn wf(self, vtx_count: int, idx_len: int) -> bool {
        match self {
            DrawCmd::Elements { count, clip_rect, texture_id, vtx_offset, idx_offset } => {
                &&& coord_ok(clip_rect.x0)
                &&& coord_ok(clip_rect.y0)
                &&& coord_ok(clip_rect.x1)
                &&& coord_ok(clip_rect.y1)
                &&& idx_offset + count <= idx_len
                &&& vtx_offset <= vtx_count
            },
            DrawCmd::ResetRenderState => true,
            DrawCmd::RawCallback { callback } => true,
        }
    }
}

impl DrawList {
    /// Number of whole vertices encoded by the raw byte buffer.
    pub open spec fn vtx_count(self) -> int {
        self.vtx_bytes@.len() as int / (VERTEX_STRIDE as int)
    }

    /// Every command references only geometry the list holds.
    pub open spec fn wf(self) -> bool {
        forall|j: int|
            0 <= j < self.commands@.len() ==> (#[trigger] self.commands@[j]).wf(
                self.vtx_count(),
                self.idx_buffer@.len() as int,
            )
    }
}

impl DrawData {
    /// The snapshot is self-contained: the frame mapping is within the
    /// representable ranges and every draw list is well-formed.
    pub open spec fn wf(self) -> bool {
        &&& coord_ok(self.display_pos.x)
        &&& coord_ok(self.display_pos.y)
        &&& coord_ok(self.display_size.x)
        &&& coord_ok(self.display_size.y)
        &&& scale_ok(self.framebuffer_scale.x)
        &&& scale_ok(self.framebuffer_scale.y)
        &&& forall|i: int|
            0 <= i < self.draw_lists@.len() ==> (#[trigger] self.draw_lists@[i]).wf()
    }
}

} // verus!
