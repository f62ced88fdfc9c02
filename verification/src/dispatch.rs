use vstd::prelude::*;

use crate::draw_data::{ClipRect, DrawCmd, DrawData, DrawList, COORD_LIMIT, PIXEL_UNIT, SCALE_LIMIT};
use crate::error::RendererError;
use crate::geometry::{build_vertices, vertices_match, DrawVert, VERTEX_STRIDE};
use crate::registry::{tex_map, Renderer};
use crate::texture::Texture;

verus! {

broadcast use vstd::std_specs::vec::group_vec_axioms;

/// The frame's projection parameters. `fb_width` and `fb_height` are the
/// framebuffer dimensions in `PIXEL_UNIT` units per pixel; `left`, `top`,
/// `right`, `bottom` bound the logical rectangle (in `SUBPIXEL` units) that
/// the projection maps to clip space, X to `[-1, 1]` left to right and Y to
/// `[+1, -1]` top to bottom.
#[derive(Clone, Copy, Debug, PartialEq, Eq, Structural)]
pub struct FrameParams {
    pub fb_width: i64,
    pub fb_height: i64,
    pub left: i64,
    pub top: i64,
    pub right: i64,
    pub bottom: i64,
}

/// A scissor rectangle in framebuffer pixels, bottom-left origin. The origin
/// coordinates are unsigned: clamping guarantees they are never negative.
#[derive(Clone, Copy, Debug, PartialEq, Eq, Structural)]
pub struct ScissorRect {
    pub left: u32,
    pub bottom: u32,
    pub width: u32,
    pub height: u32,
}

/// A blending factor of the backend's blend equation.
#[derive(Clone, Copy, Debug, PartialEq, Eq, Structural)]
pub enum BlendFactor {
    One,
    OneMinusSourceAlpha,
}

/// The blend configuration of a draw call: source and destination factors
/// for the color and alpha channels, combined by addition.
#[derive(Clone, Copy, Debug, PartialEq, Eq, Structural)]
pub struct BlendConfig {
    pub color_source: BlendFactor,
    pub color_destination: BlendFactor,
    pub alpha_source: BlendFactor,
    pub alpha_destination: BlendFactor,
}

/// Source-over blending with premultiplication-aware factors: source factor
/// one, destination factor one-minus-source-alpha, identically for color and
/// alpha.
pub open spec fn premultiplied_alpha_blend_spec() -> BlendConfig {
    BlendConfig {
        color_source: BlendFactor::One,
        color_destination: BlendFactor::OneMinusSourceAlpha,
        alpha_source: BlendFactor::One,
        alpha_destination: BlendFactor::OneMinusSourceAlpha,
    }
}

/// The blend configuration used for every draw call.
pub fn premultiplied_alpha_blend() -> (r: BlendConfig)
    ensures
        r == premultiplied_alpha_blend_spec(),
{
    BlendConfig {
        color_source: BlendFactor::One,
        color_destination: BlendFactor::OneMinusSourceAlpha,
        alpha_source: BlendFactor::One,
        alpha_destination: BlendFactor::OneMinusSourceAlpha,
    }
}

/// One draw call to issue: a slice of the list's buffers, the resolved
/// texture, the clamped scissor rectangle and the blend configuration.
#[derive(Clone, Copy, Debug, PartialEq, Eq, Structural)]
pub struct DrawCallParams {
    pub vtx_offset: usize,
    pub idx_offset: usize,
    pub count: usize,
    pub texture: Texture,
    pub scissor: ScissorRect,
    pub blend: BlendConfig,
}

/// One action the embedding layer performs for a draw list, in order.
#[derive(Clone, Copy, Debug, PartialEq, Eq, Structural)]
pub enum ListAction {
    /// Issue a draw call.
    Draw(DrawCallParams),
    /// Invoke the platform-defined callback named by the token.
    Callback { callback: usize },
}

/// The plan for one draw list: freshly built geometry plus the ordered
/// actions over it.
#[derive(Clone, Debug)]
pub struct ListPlan {
    pub vertices: Vec<DrawVert>,
    pub indices: Vec<u16>,
    pub calls: Vec<ListAction>,
}

/// The plan for one frame: `frame` is `None` exactly for a degenerate frame
/// (nothing to do); `lists` are the per-list plans in snapshot order;
/// `error` is the first error met while planning — everything planned before
/// it stands, as already-issued draw calls are not rolled back.
#[derive(Clone, Debug)]
pub struct FramePlan {
    pub frame: Option<FrameParams>,
    pub lists: Vec<ListPlan>,
    pub error: Option<RendererError>,
}

/// Framebuffer width in `PIXEL_UNIT` units.
pub open spec fn fb_width_spec(d: DrawData) -> int {
    d.display_size.x * d.framebuffer_scale.x
}

/// Framebuffer height in `PIXEL_UNIT` units.
pub open spec fn fb_height_spec(d: DrawData) -> int {
    d.display_size.y * d.framebuffer_scale.y
}

/// A degenerate frame: a framebuffer dimension is not strictly positive.
pub open spec fn degenerate_spec(d: DrawData) -> bool {
    !(fb_width_spec(d) > 0 && fb_height_spec(d) > 0)
}

/// Left edge of the clip rectangle transformed to framebuffer coordinates.
pub open spec fn clip_x0_spec(d: DrawData, c: ClipRect) -> int {
    (c.x0 - d.display_pos.x) * d.framebuffer_scale.x
}

/// Top edge of the clip rectangle transformed to framebuffer coordinates.
pub open spec fn clip_y0_spec(d: DrawData, c: ClipRect) -> int {
    (c.y0 - d.display_pos.y) * d.framebuffer_scale.y
}

/// Right edge of the clip rectangle transformed to framebuffer coordinates.
pub open spec fn clip_x1_spec(d: DrawData, c: ClipRect) -> int {
    (c.x1 - d.display_pos.x) * d.framebuffer_scale.x
}

/// Bottom edge of the clip rectangle transformed to framebuffer coordinates.
pub open spec fn clip_y1_spec(d: DrawData, c: ClipRect) -> int {
    (c.y1 - d.display_pos.y) * d.framebuffer_scale.y
}

/// The transformed clip rectangle intersects the framebuffer rectangle
/// `[0, fb_width) x [0, fb_height)`; a command whose rectangle does not is
/// culled: no draw call is issued for it.
pub open spec fn visible_spec(d: DrawData, c: ClipRect) -> bool {
    &&& clip_x0_spec(d, c) < fb_width_spec(d)
    &&& clip_y0_spec(d, c) < fb_height_spec(d)
    &&& clip_x1_spec(d, c) >= 0
    &&& clip_y1_spec(d, c) >= 0
}

/// Clamp to zero from below.
pub open spec fn max_zero(v: int) -> int {
    if v > 0 {
        v
    } else {
        0
    }
}

/// Absolute value.
pub open spec fn abs_val(v: int) -> int {
    if v >= 0 {
        v
    } else {
        -v
    }
}

/// Round a transformed coordinate down to whole pixels.
pub open spec fn floor_pixels(v: int) -> int {
    v / (PIXEL_UNIT as int)
}

/// Round a transformed coordinate up to whole pixels.
pub open spec fn ceil_pixels(v: int) -> int {
    (v + PIXEL_UNIT - 1) / (PIXEL_UNIT as int)
}

/// Scissor left edge: the transformed left edge clamped to zero, in pixels.
pub open spec fn scissor_left_spec(d: DrawData, c: ClipRect) -> int {
    floor_pixels(max_zero(clip_x0_spec(d, c)))
}

/// Scissor bottom edge: the transformed bottom edge flipped to the GPU's
/// bottom-left origin and clamped to zero, in pixels.
pub open spec fn scissor_bottom_spec(d: DrawData, c: ClipRect) -> int {
    floor_pixels(max_zero(fb_height_spec(d) - clip_y1_spec(d, c)))
}

/// Scissor width: the absolute difference of the unclamped horizontal
/// edges, rounded up to whole pixels.
pub open spec fn scissor_width_spec(d: DrawData, c: ClipRect) -> int {
    ceil_pixels(abs_val(clip_x1_spec(d, c) - clip_x0_spec(d, c)))
}

/// Scissor height: the absolute difference of the unclamped vertical edges,
/// rounded up to whole pixels.
pub open spec fn scissor_height_spec(d: DrawData, c: ClipRect) -> int {
    ceil_pixels(abs_val(clip_y1_spec(d, c) - clip_y0_spec(d, c)))
}

/// The scissor rectangle of a command with clip rectangle `c`.
pub open spec fn scissor_rect_spec(d: DrawData, c: ClipRect) -> ScissorRect {
    ScissorRect {
        left: scissor_left_spec(d, c) as u32,
        bottom: scissor_bottom_spec(d, c) as u32,
        width: scissor_width_spec(d, c) as u32,
        height: scissor_height_spec(d, c) as u32,
    }
}

/// The projection parameters of a non-degenerate frame.
pub open spec fn frame_params_spec(d: DrawData) -> FrameParams {
    FrameParams {
        fb_width: fb_width_spec(d) as i64,
        fb_height: fb_height_spec(d) as i64,
        left: d.display_pos.x,
        top: d.display_pos.y,
        right: (d.display_pos.x + d.display_size.x) as i64,
        bottom: (d.display_pos.y + d.display_size.y) as i64,
    }
}

/// The draw call issued for a surviving command that resolved to `texture`.
pub open spec fn draw_call_spec(
    d: DrawData,
    texture: Texture,
    count: usize,
    c: ClipRect,
    vtx_offset: usize,
    idx_offset: usize,
) -> DrawCallParams {
    DrawCallParams {
        vtx_offset,
        idx_offset,
        count,
        texture,
        scissor: scissor_rect_spec(d, c),
        blend: premultiplied_alpha_blend_spec(),
    }
}

/// Processing the first `n` commands of a list: the actions issued, in
/// order, and the first error met. A culled command and a
/// render-state-reset marker issue nothing; an unresolvable texture stops
/// processing with `BadTexture`.
pub open spec fn plan_cmds_spec(
    d: DrawData,
    rm: Map<usize, Texture>,
    font: Texture,
    cmds: Seq<DrawCmd>,
    n: int,
) -> (Seq<ListAction>, Option<RendererError>)
    decreases n,
{
    if n <= 0 {
        (Seq::empty(), None)
    } else {
        let prev = plan_cmds_spec(d, rm, font, cmds, n - 1);
        if prev.1 is Some {
            prev
        } else {
            match cmds[n - 1] {
                DrawCmd::Elements { count, clip_rect, texture_id, vtx_offset, idx_offset } => {
                    if !visible_spec(d, clip_rect) {
                        prev
                    } else {
                        match Renderer::resolve_spec(rm, font, texture_id) {
                            Ok(texture) => (
                                prev.0.push(
                                    ListAction::Draw(
                                        draw_call_spec(
                                            d,
                                            texture,
                                            count,
                                            clip_rect,
                                            vtx_offset,
                                            idx_offset,
                                        ),
                                    ),
                                ),
                                None,
                            ),
                            Err(e) => (prev.0, Some(e)),
                        }
                    }
                },
                DrawCmd::ResetRenderState => prev,
                DrawCmd::RawCallback { callback } => (
                    prev.0.push(ListAction::Callback { callback }),
                    None,
                ),
            }
        }
    }
}

/// Processing the first `n` draw lists: how many per-list plans are emitted
/// and the first error met. A list whose vertex bytes mismatch the layout
/// stops processing before emitting a plan; a command error stops processing
/// after emitting the partial plan of its list.
pub open spec fn plan_lists_spec(
    d: DrawData,
    rm: Map<usize, Texture>,
    font: Texture,
    n: int,
) -> (int, Option<RendererError>)
    decreases n,
{
    if n <= 0 {
        (0, None)
    } else {
        let prev = plan_lists_spec(d, rm, font, n - 1);
        if prev.1 is Some {
            prev
        } else {
            let list = d.draw_lists[n - 1];
            if list.vtx_bytes@.len() as int % (VERTEX_STRIDE as int) != 0 {
                (prev.0, Some(RendererError::Vertex))
            } else {
                (
                    prev.0 + 1,
                    plan_cmds_spec(d, rm, font, list.commands@, list.commands@.len() as int).1,
                )
            }
        }
    }
}

/// `lp` is the plan of draw list `list`: geometry built fresh from the
/// list's buffers by the checked conversion, and exactly the actions of the
/// list's commands.
pub open spec fn list_plan_matches(
    d: DrawData,
    rm: Map<usize, Texture>,
    font: Texture,
    list: DrawList,
    lp: ListPlan,
) -> bool {
    &&& vertices_match(list.vtx_bytes@, lp.vertices@)
    &&& lp.indices@ == list.idx_buffer@
    &&& lp.calls@ == plan_cmds_spec(d, rm, font, list.commands@, list.commands@.len() as int).0
}

/// Once command processing has stopped at an error, later commands change
/// nothing.
pub proof fn lemma_plan_cmds_stable(
    d: DrawData,
    rm: Map<usize, Texture>,
    font: Texture,
    cmds: Seq<DrawCmd>,
    m: int,
    n: int,
)
    requires
        0 <= m <= n,
        plan_cmds_spec(d, rm, font, cmds, m).1 is Some,
    ensures
        plan_cmds_spec(d, rm, font, cmds, n) == plan_cmds_spec(d, rm, font, cmds, m),
    decreases n,
{
    if m < n {
        lemma_plan_cmds_stable(d, rm, font, cmds, m, n - 1);
    }
}

/// While no error has stopped list processing, every processed list has
/// emitted a plan: the emitted count equals the number of processed lists.
pub proof fn lemma_plan_lists_count(d: DrawData, rm: Map<usize, Texture>, font: Texture, n: int)
    requires
        n >= 0,
    ensures
        0 <= plan_lists_spec(d, rm, font, n).0 <= n,
        plan_lists_spec(d, rm, font, n).1 is None ==> plan_lists_spec(d, rm, font, n).0 == n,
    decreases n,
{
    if n > 0 {
        lemma_plan_lists_count(d, rm, font, n - 1);
    }
}

/// Once list processing has stopped at an error, later lists change nothing.
pub proof fn lemma_plan_lists_stable(
    d: DrawData,
    rm: Map<usize, Texture>,
    font: Texture,
    m: int,
    n: int,
)
    requires
        0 <= m <= n,
        plan_lists_spec(d, rm, font, m).1 is Some,
    ensures
        plan_lists_spec(d, rm, font, n) == plan_lists_spec(d, rm, font, m),
    decreases n,
{
    if m < n {
        lemma_plan_lists_stable(d, rm, font, m, n - 1);
    }
}

/// A snapshot whose display size has a non-positive component is a
/// degenerate frame: rendering it issues no draw call and is no error.
pub proof fn lemma_nonpositive_display_size_is_degenerate(d: DrawData)
    requires
        d.wf(),
        d.display_size.x <= 0 || d.display_size.y <= 0,
    ensures
        degenerate_spec(d),
{
    assert(d.display_size.x <= 0 ==> d.display_size.x * d.framebuffer_scale.x <= 0)
        by (nonlinear_arith)
        requires
            d.framebuffer_scale.x >= 0,
    ;
    assert(d.display_size.y <= 0 ==> d.display_size.y * d.framebuffer_scale.y <= 0)
        by (nonlinear_arith)
        requires
            d.framebuffer_scale.y >= 0,
    ;
}

/// A command whose transformed clip rectangle lies entirely outside the
/// framebuffer is culled exactly: it contributes no action at all.
pub proof fn lemma_culled_command_issues_nothing(
    d: DrawData,
    rm: Map<usize, Texture>,
    font: Texture,
    cmds: Seq<DrawCmd>,
    n: int,
)
    requires
        0 <= n < cmds.len(),
        cmds[n] matches DrawCmd::Elements { clip_rect, .. } && !visible_spec(d, clip_rect),
    ensures
        plan_cmds_spec(d, rm, font, cmds, n + 1).0 == plan_cmds_spec(d, rm, font, cmds, n).0,
{
}

/// Culling is exact the other way too: a command whose transformed clip
/// rectangle reaches the framebuffer, and whose texture resolves, issues
/// exactly one draw call, with the clamped scissor rectangle, the resolved
/// texture and premultiplied source-over blending.
pub proof fn lemma_visible_command_issues_one_draw(
    d: DrawData,
    rm: Map<usize, Texture>,
    font: Texture,
    cmds: Seq<DrawCmd>,
    n: int,
)
    requires
        0 <= n < cmds.len(),
        plan_cmds_spec(d, rm, font, cmds, n).1 is None,
    ensures
        cmds[n] matches DrawCmd::Elements {
            count,
            clip_rect,
            texture_id,
            vtx_offset,
            idx_offset,
        } ==> ((visible_spec(d, clip_rect) && Renderer::resolve_spec(rm, font, texture_id)
            is Ok) ==> plan_cmds_spec(d, rm, font, cmds, n + 1).0 == plan_cmds_spec(
            d,
            rm,
            font,
            cmds,
            n,
        ).0.push(
            ListAction::Draw(
                draw_call_spec(
                    d,
                    Renderer::resolve_spec(rm, font, texture_id)->Ok_0,
                    count,
                    clip_rect,
                    vtx_offset,
                    idx_offset,
                ),
            ),
        )),
{
}

/// Scissor origin coordinates are never negative, however far negative the
/// source clip rectangle extends.
pub proof fn lemma_scissor_origin_nonneg(d: DrawData, c: ClipRect)
    ensures
        scissor_left_spec(d, c) >= 0,
        scissor_bottom_spec(d, c) >= 0,
{
    vstd::arithmetic::div_mod::lemma_div_pos_is_pos(max_zero(clip_x0_spec(d, c)), PIXEL_UNIT as int);
    vstd::arithmetic::div_mod::lemma_div_pos_is_pos(
        max_zero(fb_height_spec(d) - clip_y1_spec(d, c)),
        PIXEL_UNIT as int,
    );
}

/// A product of a bounded value and a bounded non-negative value is bounded.
proof fn lemma_mul_range(a: int, s: int, amax: int, smax: int)
    by (nonlinear_arith)
    requires
        -amax <= a <= amax,
        0 <= s <= smax,
        0 <= amax,
    ensures
        -(amax * smax) <= a * s <= amax * smax,
{
}

/// Multiplies a bounded dimension by a bounded scale factor.
fn scaled_dim(size: i64, scale: i64) -> (r: i64)
    requires
        -COORD_LIMIT <= size <= COORD_LIMIT,
        0 <= scale <= SCALE_LIMIT,
    ensures
        r == size * scale,
        -0x10000000000 <= r <= 0x10000000000,
{
    proof {
        lemma_mul_range(size as int, scale as int, COORD_LIMIT as int, SCALE_LIMIT as int);
    }
    size * scale
}

/// Transforms one clip-rectangle coordinate to framebuffer coordinates.
fn transform_coord(c: i64, off: i64, scale: i64) -> (r: i64)
    requires
        -COORD_LIMIT <= c <= COORD_LIMIT,
        -COORD_LIMIT <= off <= COORD_LIMIT,
        0 <= scale <= SCALE_LIMIT,
    ensures
        r == (c - off) * scale,
        -0x20000000000 <= r <= 0x20000000000,
{
    proof {
        lemma_mul_range((c - off) as int, scale as int, 2 * COORD_LIMIT as int, SCALE_LIMIT as int);
    }
    (c - off) * scale
}

/// Rounds a non-negative transformed coordinate down to whole pixels.
fn floor_to_pixels(v: i64) -> (r: u32)
    requires
        0 <= v <= 0x40000000000,
    ensures
        r == floor_pixels(v as int),
{
    ((v as u64) / (PIXEL_UNIT as u64)) as u32
}

/// Rounds a non-negative transformed coordinate up to whole pixels.
fn ceil_to_pixels(v: i64) -> (r: u32)
    requires
        0 <= v <= 0x40000000000,
    ensures
        r == ceil_pixels(v as int),
{
    (((v as u64) + (PIXEL_UNIT - 1) as u64) / (PIXEL_UNIT as u64)) as u32
}

/// Computes the clamped scissor rectangle from the transformed clip edges
/// and the framebuffer height.
fn scissor_for(fb_height: i64, tx0: i64, ty0: i64, tx1: i64, ty1: i64) -> (s: ScissorRect)
    requires
        0 <= fb_height <= 0x10000000000,
        -0x20000000000 <= tx0 <= 0x20000000000,
        -0x20000000000 <= ty0 <= 0x20000000000,
        -0x20000000000 <= tx1 <= 0x20000000000,
        -0x20000000000 <= ty1 <= 0x20000000000,
    ensures
        s.left == floor_pixels(max_zero(tx0 as int)),
        s.bottom == floor_pixels(max_zero(fb_height - ty1 as int)),
        s.width == ceil_pixels(abs_val(tx1 - tx0 as int)),
        s.height == ceil_pixels(abs_val(ty1 - ty0 as int)),
{
    let left = floor_to_pixels(if tx0 > 0 {
        tx0
    } else {
        0
    });
    let flipped = fb_height - ty1;
    let bottom = floor_to_pixels(
        if flipped > 0 {
            flipped
        } else {
            0
        },
    );
    let dx = if tx1 >= tx0 {
        tx1 - tx0
    } else {
        tx0 - tx1
    };
    let dy = if ty1 >= ty0 {
        ty1 - ty0
    } else {
        ty0 - ty1
    };
    let width = ceil_to_pixels(dx);
    let height = ceil_to_pixels(dy);
    ScissorRect { left, bottom, width, height }
}

/// Copies a draw list's index buffer into the plan's fresh buffer.
fn copy_indices(src: &Vec<u16>) -> (r: Vec<u16>)
    ensures
        r@ == src@,
{
    let mut r: Vec<u16> = Vec::new();
    let mut i: usize = 0;
    while i < src.len()
        invariant
            i <= src.len(),
            r@ == src@.subrange(0, i as int),
        decreases src.len() - i,
    {
        r.push(src[i]);
        i = i + 1;
    }
    proof {
        assert(r@ =~= src@);
    }
    r
}

impl Renderer {
    /// Translates one draw-data snapshot into the frame's plan: the
    /// projection parameters, per draw list the freshly built geometry and
    /// the ordered actions (draw calls with clamped scissor rectangles,
    /// resolved textures and premultiplied source-over blending, and opaque
    /// callbacks), and the first error met. A degenerate frame yields an
    /// empty successful plan; a command whose transformed clip rectangle
    /// misses the framebuffer yields no draw call.
    pub fn render(&self, draw_data: &DrawData) -> (r: FramePlan)
        requires
            draw_data.wf(),
        ensures
            degenerate_spec(*draw_data) ==> r.frame is None && r.lists@.len() == 0 && r.error
                is None,
            !degenerate_spec(*draw_data) ==> r.frame == Some(frame_params_spec(*draw_data)),
            !degenerate_spec(*draw_data) ==> r.lists@.len() == plan_lists_spec(
                *draw_data,
                tex_map(self.textures),
                self.font_texture,
                draw_data.draw_lists@.len() as int,
            ).0,
            !degenerate_spec(*draw_data) ==> r.error == plan_lists_spec(
                *draw_data,
                tex_map(self.textures),
                self.font_texture,
                draw_data.draw_lists@.len() as int,
            ).1,
            forall|j: int|
                0 <= j < r.lists@.len() ==> list_plan_matches(
                    *draw_data,
                    tex_map(self.textures),
                    self.font_texture,
                    draw_data.draw_lists@[j],
                    #[trigger] r.lists@[j],
                ),
    {
        let ghost rm = tex_map(self.textures);
        let ghost font = self.font_texture;
        let fb_width = scaled_dim(draw_data.display_size.x, draw_data.framebuffer_scale.x);
        let fb_height = scaled_dim(draw_data.display_size.y, draw_data.framebuffer_scale.y);
        if !(fb_width > 0 && fb_height > 0) {
            return FramePlan { frame: None, lists: Vec::new(), error: None };
        }
        let frame = FrameParams {
            fb_width,
            fb_height,
            left: draw_data.display_pos.x,
            top: draw_data.display_pos.y,
            right: draw_data.display_pos.x + draw_data.display_size.x,
            bottom: draw_data.display_pos.y + draw_data.display_size.y,
        };
        let mut lists: Vec<ListPlan> = Vec::new();
        let mut error: Option<RendererError> = None;
        let mut li: usize = 0;
        while li < draw_data.draw_lists.len() && error.is_none()
            invariant
                draw_data.wf(),
                rm == tex_map(self.textures),
                font == self.font_texture,
                li <= draw_data.draw_lists@.len(),
                fb_width == fb_width_spec(*draw_data),
                fb_height == fb_height_spec(*draw_data),
                0 < fb_height <= 0x10000000000,
                lists@.len() == plan_lists_spec(*draw_data, rm, font, li as int).0,
                error == plan_lists_spec(*draw_data, rm, font, li as int).1,
                forall|j: int|
                    0 <= j < lists@.len() ==> list_plan_matches(
                        *draw_data,
                        rm,
                        font,
                        draw_data.draw_lists@[j],
                        #[trigger] lists@[j],
                    ),
            decreases draw_data.draw_lists@.len() - li,
        {
            let list = &draw_data.draw_lists[li];
            proof {
                assert(draw_data.draw_lists@[li as int].wf());
                lemma_plan_lists_count(*draw_data, rm, font, li as int);
            }
            match build_vertices(&list.vtx_bytes) {
                Err(e) => {
                    error = Some(e);
                    li = li + 1;
                },
                Ok(vertices) => {
                    let mut calls: Vec<ListAction> = Vec::new();
                    let mut cerr: Option<RendererError> = None;
                    let mut ci: usize = 0;
                    while ci < list.commands.len() && cerr.is_none()
                        invariant
                            draw_data.wf(),
                            rm == tex_map(self.textures),
                            font == self.font_texture,
                            li < draw_data.draw_lists@.len(),
                            list == &draw_data.draw_lists@[li as int],
                            ci <= list.commands@.len(),
                            fb_width == fb_width_spec(*draw_data),
                            fb_height == fb_height_spec(*draw_data),
                            0 < fb_height <= 0x10000000000,
                            calls@ == plan_cmds_spec(
                                *draw_data,
                                rm,
                                font,
                                list.commands@,
                                ci as int,
                            ).0,
                            cerr == plan_cmds_spec(
                                *draw_data,
                                rm,
                                font,
                                list.commands@,
                                ci as int,
                            ).1,
                        decreases list.commands@.len() - ci,
                    {
                        let cmd = list.commands[ci];
                        proof {
                            assert(draw_data.draw_lists@[li as int].wf());
                            assert(list.commands@[ci as int].wf(
                                list.vtx_count(),
                                list.idx_buffer@.len() as int,
                            ));
                        }
                        match cmd {
                            DrawCmd::Elements {
                                count,
                                clip_rect,
                                texture_id,
                                vtx_offset,
                                idx_offset,
                            } => {
                                let tx0 = transform_coord(
                                    clip_rect.x0,
                                    draw_data.display_pos.x,
                                    draw_data.framebuffer_scale.x,
                                );
                                let ty0 = transform_coord(
                                    clip_rect.y0,
                                    draw_data.display_pos.y,
                                    draw_data.framebuffer_scale.y,
                                );
                                let tx1 = transform_coord(
                                    clip_rect.x1,
                                    draw_data.display_pos.x,
                                    draw_data.framebuffer_scale.x,
                                );
                                let ty1 = transform_coord(
                                    clip_rect.y1,
                                    draw_data.display_pos.y,
                                    draw_data.framebuffer_scale.y,
                                );
                                if tx0 < fb_width && ty0 < fb_height && tx1 >= 0 && ty1 >= 0 {
                                    match self.lookup_texture(texture_id) {
                                        Ok(texture) => {
                                            let scissor = scissor_for(
                                                fb_height,
                                                tx0,
                                                ty0,
                                                tx1,
                                                ty1,
                                            );
                                            proof {
                                                assert(scissor == scissor_rect_spec(
                                                    *draw_data,
                                                    clip_rect,
                                                ));
                                            }
                                            let params = DrawCallParams {
                                                vtx_offset,
                                                idx_offset,
                                                count,
                                                texture,
                                                scissor,
                                                blend: premultiplied_alpha_blend(),
                                            };
                                            calls.push(ListAction::Draw(params));
                                        },
                                        Err(e) => {
                                            cerr = Some(e);
                                        },
                                    }
                                }
                                ci = ci + 1;
                            },
                            DrawCmd::ResetRenderState => {
                                ci = ci + 1;
                            },
                            DrawCmd::RawCallback { callback } => {
                                calls.push(ListAction::Callback { callback });
                                ci = ci + 1;
                            },
                        }
                    }
                    proof {
                        if cerr is Some {
                            lemma_plan_cmds_stable(
                                *draw_data,
                                rm,
                                font,
                                list.commands@,
                                ci as int,
                                list.commands@.len() as int,
                            );
                        }
                    }
                    let indices = copy_indices(&list.idx_buffer);
                    let list_plan = ListPlan { vertices, indices, calls };
                    lists.push(list_plan);
                    error = cerr;
                    li = li + 1;
                },
            }
        }
        proof {
            if error is Some {
                lemma_plan_lists_stable(
                    *draw_data,
                    rm,
                    font,
                    li as int,
                    draw_data.draw_lists@.len() as int,
                );
            }
        }
        FramePlan { frame: Some(frame), lists, error }
    }
}

} // verus!
