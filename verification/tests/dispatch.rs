use imgui_support::dispatch::{BlendFactor, ListAction};
use imgui_support::draw_data::{ClipRect, DrawCmd, DrawData, DrawList, Vec2, SUBPIXEL};
use imgui_support::error::RendererError;
use imgui_support::geometry::build_vertices;
use imgui_support::registry::{Renderer, FONT_ATLAS_TEXTURE_ID};
use imgui_support::texture::{font_atlas_sampler, Texture};

fn px(v: i64) -> i64 {
    v * SUBPIXEL
}

fn font_texture() -> Texture {
    Texture { handle: 11, sampler: font_atlas_sampler() }
}

fn vertex_bytes(vertices: &[([f32; 2], [f32; 2], [u8; 4])]) -> Vec<u8> {
    let mut bytes = Vec::new();
    for (pos, uv, col) in vertices {
        bytes.extend_from_slice(&pos[0].to_le_bytes());
        bytes.extend_from_slice(&pos[1].to_le_bytes());
        bytes.extend_from_slice(&uv[0].to_le_bytes());
        bytes.extend_from_slice(&uv[1].to_le_bytes());
        bytes.extend_from_slice(col);
    }
    bytes
}

fn quad_list(clip_rect: ClipRect, texture_id: usize) -> DrawList {
    let vtx_bytes = vertex_bytes(&[
        ([0.0, 0.0], [0.0, 0.0], [255, 0, 0, 255]),
        ([100.0, 0.0], [1.0, 0.0], [0, 255, 0, 255]),
        ([100.0, 100.0], [1.0, 1.0], [0, 0, 255, 255]),
        ([0.0, 100.0], [0.0, 1.0], [255, 255, 255, 255]),
    ]);
    DrawList {
        vtx_bytes,
        idx_buffer: vec![0, 1, 2, 0, 2, 3],
        commands: vec![DrawCmd::Elements {
            count: 6,
            clip_rect,
            texture_id,
            vtx_offset: 0,
            idx_offset: 0,
        }],
    }
}

fn snapshot(lists: Vec<DrawList>) -> DrawData {
    DrawData {
        display_pos: Vec2 { x: 0, y: 0 },
        display_size: Vec2 { x: px(800), y: px(600) },
        framebuffer_scale: Vec2 { x: SUBPIXEL, y: SUBPIXEL },
        draw_lists: lists,
    }
}

#[test]
fn overlapping_clip_rect_yields_one_clamped_draw_call() {
    let clip = ClipRect { x0: px(-10), y0: px(-10), x1: px(810), y1: px(610) };
    let renderer = Renderer::new(font_texture());
    let plan = renderer.render(&snapshot(vec![quad_list(clip, FONT_ATLAS_TEXTURE_ID)]));
    assert_eq!(plan.error, None);
    assert_eq!(plan.lists.len(), 1);
    assert_eq!(plan.lists[0].calls.len(), 1);
    match plan.lists[0].calls[0] {
        ListAction::Draw(call) => {
            assert_eq!(call.scissor.left, 0);
            assert_eq!(call.scissor.bottom, 0);
            assert_eq!(call.scissor.width, 820);
            assert_eq!(call.scissor.height, 620);
            assert_eq!(call.texture, font_texture());
            assert_eq!(call.count, 6);
            assert_eq!(call.vtx_offset, 0);
            assert_eq!(call.idx_offset, 0);
            assert_eq!(call.blend.color_source, BlendFactor::One);
            assert_eq!(call.blend.color_destination, BlendFactor::OneMinusSourceAlpha);
            assert_eq!(call.blend.alpha_source, BlendFactor::One);
            assert_eq!(call.blend.alpha_destination, BlendFactor::OneMinusSourceAlpha);
        }
        _ => panic!("expected a draw call"),
    }
}

#[test]
fn clip_rect_right_of_framebuffer_is_culled() {
    let clip = ClipRect { x0: px(900), y0: px(0), x1: px(950), y1: px(50) };
    let renderer = Renderer::new(font_texture());
    let plan = renderer.render(&snapshot(vec![quad_list(clip, FONT_ATLAS_TEXTURE_ID)]));
    assert_eq!(plan.error, None);
    assert_eq!(plan.lists.len(), 1);
    assert_eq!(plan.lists[0].calls.len(), 0);
}

#[test]
fn clip_rect_left_of_framebuffer_is_culled() {
    let clip = ClipRect { x0: px(-100), y0: px(0), x1: px(-50), y1: px(50) };
    let renderer = Renderer::new(font_texture());
    let plan = renderer.render(&snapshot(vec![quad_list(clip, FONT_ATLAS_TEXTURE_ID)]));
    assert_eq!(plan.error, None);
    assert_eq!(plan.lists[0].calls.len(), 0);
}

#[test]
fn non_positive_display_size_yields_empty_successful_plan() {
    let clip = ClipRect { x0: 0, y0: 0, x1: px(100), y1: px(100) };
    let mut data = snapshot(vec![quad_list(clip, FONT_ATLAS_TEXTURE_ID)]);
    data.display_size = Vec2 { x: 0, y: px(600) };
    let renderer = Renderer::new(font_texture());
    let plan = renderer.render(&data);
    assert!(plan.frame.is_none());
    assert_eq!(plan.lists.len(), 0);
    assert_eq!(plan.error, None);

    data.display_size = Vec2 { x: px(800), y: px(-600) };
    let plan = renderer.render(&data);
    assert!(plan.frame.is_none());
    assert_eq!(plan.lists.len(), 0);
    assert_eq!(plan.error, None);
}

#[test]
fn frame_params_cover_display_rectangle() {
    let clip = ClipRect { x0: 0, y0: 0, x1: px(100), y1: px(100) };
    let mut data = snapshot(vec![quad_list(clip, FONT_ATLAS_TEXTURE_ID)]);
    data.display_pos = Vec2 { x: px(20), y: px(30) };
    let renderer = Renderer::new(font_texture());
    let plan = renderer.render(&data);
    let frame = plan.frame.expect("non-degenerate frame");
    assert_eq!(frame.left, px(20));
    assert_eq!(frame.top, px(30));
    assert_eq!(frame.right, px(820));
    assert_eq!(frame.bottom, px(630));
    assert_eq!(frame.fb_width, px(800) * SUBPIXEL);
    assert_eq!(frame.fb_height, px(600) * SUBPIXEL);
}

#[test]
fn bad_texture_stops_after_partial_list() {
    let clip = ClipRect { x0: 0, y0: 0, x1: px(100), y1: px(100) };
    let mut list = quad_list(clip, FONT_ATLAS_TEXTURE_ID);
    list.commands.push(DrawCmd::Elements {
        count: 6,
        clip_rect: clip,
        texture_id: 7,
        vtx_offset: 0,
        idx_offset: 0,
    });
    let second = quad_list(clip, FONT_ATLAS_TEXTURE_ID);
    let renderer = Renderer::new(font_texture());
    let plan = renderer.render(&snapshot(vec![list, second]));
    // the first list's first draw call stands; the bad command stops the frame
    assert_eq!(plan.error, Some(RendererError::BadTexture(7)));
    assert_eq!(plan.lists.len(), 1);
    assert_eq!(plan.lists[0].calls.len(), 1);
}

#[test]
fn culled_command_with_bad_texture_is_not_resolved() {
    // an off-screen command is culled before texture resolution, so its
    // unregistered id surfaces no error
    let clip = ClipRect { x0: px(900), y0: 0, x1: px(950), y1: px(50) };
    let renderer = Renderer::new(font_texture());
    let plan = renderer.render(&snapshot(vec![quad_list(clip, 7)]));
    assert_eq!(plan.error, None);
    assert_eq!(plan.lists[0].calls.len(), 0);
}

#[test]
fn mismatched_vertex_bytes_yield_vertex_error() {
    let clip = ClipRect { x0: 0, y0: 0, x1: px(100), y1: px(100) };
    let mut list = quad_list(clip, FONT_ATLAS_TEXTURE_ID);
    list.vtx_bytes.push(0);
    let renderer = Renderer::new(font_texture());
    let plan = renderer.render(&snapshot(vec![list]));
    assert_eq!(plan.error, Some(RendererError::Vertex));
    assert_eq!(plan.lists.len(), 0);
}

#[test]
fn raw_callback_and_reset_pass_through() {
    let clip = ClipRect { x0: 0, y0: 0, x1: px(100), y1: px(100) };
    let mut list = quad_list(clip, FONT_ATLAS_TEXTURE_ID);
    list.commands.insert(0, DrawCmd::ResetRenderState);
    list.commands.push(DrawCmd::RawCallback { callback: 3 });
    let renderer = Renderer::new(font_texture());
    let plan = renderer.render(&snapshot(vec![list]));
    assert_eq!(plan.error, None);
    let calls = &plan.lists[0].calls;
    assert_eq!(calls.len(), 2);
    assert!(matches!(calls[0], ListAction::Draw(_)));
    assert_eq!(calls[1], ListAction::Callback { callback: 3 });
}

#[test]
fn geometry_is_rebuilt_fresh_every_frame() {
    let clip = ClipRect { x0: 0, y0: 0, x1: px(100), y1: px(100) };
    let mut list = quad_list(clip, FONT_ATLAS_TEXTURE_ID);
    let renderer = Renderer::new(font_texture());
    let first = renderer.render(&snapshot(vec![list.clone()]));

    // the UI library reuses the same underlying buffer for the next frame
    let new_bytes = vertex_bytes(&[
        ([5.0, 6.0], [0.25, 0.75], [1, 2, 3, 4]),
        ([7.0, 8.0], [0.5, 0.5], [5, 6, 7, 8]),
        ([9.0, 10.0], [1.0, 0.0], [9, 10, 11, 12]),
        ([11.0, 12.0], [0.0, 1.0], [13, 14, 15, 16]),
    ]);
    list.vtx_bytes.clear();
    list.vtx_bytes.extend_from_slice(&new_bytes);
    let second = renderer.render(&snapshot(vec![list]));

    // the first plan still holds the first frame's geometry ...
    assert_eq!(f32::from_bits(first.lists[0].vertices[1].pos_x_bits), 100.0);
    // ... and the second plan holds the overwritten geometry, read afresh
    assert_eq!(f32::from_bits(second.lists[0].vertices[0].pos_x_bits), 5.0);
    assert_eq!(f32::from_bits(second.lists[0].vertices[0].pos_y_bits), 6.0);
    assert_eq!(f32::from_bits(second.lists[0].vertices[0].uv_x_bits), 0.25);
    assert_eq!(second.lists[0].vertices[0].col_a, 4);
    assert_ne!(
        first.lists[0].vertices[0].uv_x_bits,
        second.lists[0].vertices[0].uv_x_bits
    );
}

#[test]
fn build_vertices_decodes_the_fixed_layout() {
    let bytes = vertex_bytes(&[([1.5, -2.0], [0.25, 1.0], [10, 20, 30, 40])]);
    let vs = build_vertices(&bytes).expect("layout matches");
    assert_eq!(vs.len(), 1);
    assert_eq!(f32::from_bits(vs[0].pos_x_bits), 1.5);
    assert_eq!(f32::from_bits(vs[0].pos_y_bits), -2.0);
    assert_eq!(f32::from_bits(vs[0].uv_x_bits), 0.25);
    assert_eq!(f32::from_bits(vs[0].uv_y_bits), 1.0);
    assert_eq!(vs[0].col_r, 10);
    assert_eq!(vs[0].col_g, 20);
    assert_eq!(vs[0].col_b, 30);
    assert_eq!(vs[0].col_a, 40);
}

#[test]
fn build_vertices_rejects_partial_vertex() {
    let bytes = vec![0u8; 30];
    assert_eq!(build_vertices(&bytes), Err(RendererError::Vertex));
    assert!(build_vertices(&Vec::new()).is_ok());
}

#[test]
fn fractional_scale_transforms_exactly() {
    // scale 1.5: clip [10, 20, 30, 40] px maps to [15, 30, 45, 60] px
    let clip = ClipRect { x0: px(10), y0: px(20), x1: px(30), y1: px(40) };
    let mut data = snapshot(vec![quad_list(clip, FONT_ATLAS_TEXTURE_ID)]);
    let scale_1_5 = SUBPIXEL + SUBPIXEL / 2;
    data.framebuffer_scale = Vec2 { x: scale_1_5, y: scale_1_5 };
    let renderer = Renderer::new(font_texture());
    let plan = renderer.render(&data);
    match plan.lists[0].calls[0] {
        ListAction::Draw(call) => {
            assert_eq!(call.scissor.left, 15);
            // fb_height = 600 * 1.5 = 900 px; bottom = 900 - 60
            assert_eq!(call.scissor.bottom, 840);
            assert_eq!(call.scissor.width, 30);
            assert_eq!(call.scissor.height, 30);
        }
        _ => panic!("expected a draw call"),
    }
}

#[test]
fn snapshot_without_draw_lists_plans_nothing() {
    let renderer = Renderer::new(font_texture());
    let plan = renderer.render(&snapshot(Vec::new()));
    assert!(plan.frame.is_some());
    assert_eq!(plan.lists.len(), 0);
    assert_eq!(plan.error, None);
}
