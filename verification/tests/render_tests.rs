use rlimgui::render::{ClipRect, DisplayMetrics, DrawCommand, DrawData, DrawList, DrawVert,
    RenderError, RenderOp, Renderer};

fn metrics_800() -> DisplayMetrics {
    // logical 600x400 at scale 2.0 on both axes: framebuffer 1200x800
    DisplayMetrics { width: 600, height: 400, scale_x: 2000, scale_y: 2000 }
}

fn vert(px: u32, py: u32, col: u32) -> DrawVert {
    DrawVert { pos_x: px, pos_y: py, uv_x: 0, uv_y: 0, col }
}

fn clip_10_10_110_60() -> ClipRect {
    ClipRect { left: 10_000, top: 10_000, right: 110_000, bottom: 60_000 }
}

#[test]
fn scissor_conversion_scales_and_flips() {
    let list = DrawList {
        vtx: vec![],
        idx: vec![],
        cmds: vec![DrawCommand::Elements {
            count: 0,
            idx_offset: 0,
            clip: clip_10_10_110_60(),
            texture_id: 7,
        }],
    };
    let dd = DrawData { lists: vec![list] };
    let ops = Renderer::render(&dd, metrics_800()).unwrap();
    assert_eq!(
        ops,
        vec![
            RenderOp::FlushBatch,
            RenderOp::DisableBackfaceCulling,
            RenderOp::EnableScissorTest,
            RenderOp::Scissor { x: 20, y: 800 - 120, width: 200, height: 100 },
            RenderOp::FlushBatch,
            RenderOp::SetTexture { id: 0 },
            RenderOp::DisableScissorTest,
            RenderOp::EnableBackfaceCulling,
        ]
    );
}

#[test]
fn trailing_partial_triangle_dropped() {
    // four indices: one full triangle plus one trailing index
    let list = DrawList {
        vtx: vec![vert(1, 2, 0), vert(3, 4, 0), vert(5, 6, 0), vert(7, 8, 0)],
        idx: vec![0, 1, 2, 3],
        cmds: vec![DrawCommand::Elements {
            count: 4,
            idx_offset: 0,
            clip: clip_10_10_110_60(),
            texture_id: 9,
        }],
    };
    let dd = DrawData { lists: vec![list] };
    let ops = Renderer::render(&dd, metrics_800()).unwrap();
    let vertex_count = ops
        .iter()
        .filter(|op| matches!(op, RenderOp::Vertex { .. }))
        .count();
    assert_eq!(vertex_count, 3);
    // the fourth vertex is never emitted
    assert!(!ops.contains(&RenderOp::Vertex { x: 7, y: 8 }));
}

#[test]
fn two_trailing_indices_dropped_too() {
    let list = DrawList {
        vtx: vec![vert(1, 2, 0), vert(3, 4, 0), vert(5, 6, 0)],
        idx: vec![0, 1, 2, 0, 1],
        cmds: vec![DrawCommand::Elements {
            count: 5,
            idx_offset: 0,
            clip: clip_10_10_110_60(),
            texture_id: 9,
        }],
    };
    let dd = DrawData { lists: vec![list] };
    let ops = Renderer::render(&dd, metrics_800()).unwrap();
    let vertex_count = ops
        .iter()
        .filter(|op| matches!(op, RenderOp::Vertex { .. }))
        .count();
    assert_eq!(vertex_count, 3);
}

#[test]
fn below_three_indices_renders_nothing() {
    let list = DrawList {
        vtx: vec![vert(1, 2, 0), vert(3, 4, 0)],
        idx: vec![0, 1],
        cmds: vec![DrawCommand::Elements {
            count: 2,
            idx_offset: 0,
            clip: clip_10_10_110_60(),
            texture_id: 9,
        }],
    };
    let dd = DrawData { lists: vec![list] };
    let ops = Renderer::render(&dd, metrics_800()).unwrap();
    assert!(!ops.contains(&RenderOp::BeginTriangles));
    assert!(!ops.contains(&RenderOp::EndTriangles));
}

#[test]
fn triangle_emits_color_uv_position_per_vertex() {
    let list = DrawList {
        vtx: vec![
            DrawVert { pos_x: 11, pos_y: 12, uv_x: 21, uv_y: 22, col: 0x0403_0201 },
            vert(3, 4, 0),
            vert(5, 6, 0),
        ],
        idx: vec![0, 1, 2],
        cmds: vec![DrawCommand::Elements {
            count: 3,
            idx_offset: 0,
            clip: clip_10_10_110_60(),
            texture_id: 9,
        }],
    };
    let dd = DrawData { lists: vec![list] };
    let ops = Renderer::render(&dd, metrics_800()).unwrap();
    // head, scissor pair, then the triangle batch
    assert_eq!(ops[4], RenderOp::BeginTriangles);
    assert_eq!(ops[5], RenderOp::SetTexture { id: 9 });
    assert_eq!(ops[6], RenderOp::Color { r: 1, g: 2, b: 3, a: 4 });
    assert_eq!(ops[7], RenderOp::TexCoord { u: 21, v: 22 });
    assert_eq!(ops[8], RenderOp::Vertex { x: 11, y: 12 });
    assert_eq!(ops[15], RenderOp::EndTriangles);
    assert_eq!(ops[16], RenderOp::FlushBatch);
}

#[test]
fn raw_callback_sets_clip_and_forwards() {
    let list = DrawList {
        vtx: vec![],
        idx: vec![],
        cmds: vec![DrawCommand::RawCallback { clip: clip_10_10_110_60() }],
    };
    let dd = DrawData { lists: vec![list] };
    let ops = Renderer::render(&dd, metrics_800()).unwrap();
    assert_eq!(ops[2], RenderOp::EnableScissorTest);
    assert_eq!(ops[3], RenderOp::Scissor { x: 20, y: 680, width: 200, height: 100 });
    assert_eq!(ops[4], RenderOp::Callback { list: 0, cmd: 0 });
    // no flush after a callback command
    assert_eq!(ops[5], RenderOp::SetTexture { id: 0 });
}

#[test]
fn reset_render_state_is_a_loud_error() {
    let list = DrawList { vtx: vec![], idx: vec![], cmds: vec![DrawCommand::ResetRenderState] };
    let dd = DrawData { lists: vec![list] };
    let r = Renderer::render(&dd, metrics_800());
    assert_eq!(r, Err(RenderError::ResetRenderStateUnsupported));
}

#[test]
fn empty_draw_data_still_restores_state() {
    let dd = DrawData { lists: vec![] };
    let ops = Renderer::render(&dd, metrics_800()).unwrap();
    assert_eq!(
        ops,
        vec![
            RenderOp::FlushBatch,
            RenderOp::DisableBackfaceCulling,
            RenderOp::SetTexture { id: 0 },
            RenderOp::DisableScissorTest,
            RenderOp::EnableBackfaceCulling,
        ]
    );
}

#[test]
fn index_offset_selects_command_range() {
    // two commands over one index buffer: the second starts at offset 3
    let list = DrawList {
        vtx: vec![vert(1, 1, 0), vert(2, 2, 0), vert(3, 3, 0), vert(4, 4, 0)],
        idx: vec![0, 1, 2, 1, 2, 3],
        cmds: vec![
            DrawCommand::Elements {
                count: 3,
                idx_offset: 0,
                clip: clip_10_10_110_60(),
                texture_id: 1,
            },
            DrawCommand::Elements {
                count: 3,
                idx_offset: 3,
                clip: clip_10_10_110_60(),
                texture_id: 2,
            },
        ],
    };
    let dd = DrawData { lists: vec![list] };
    let ops = Renderer::render(&dd, metrics_800()).unwrap();
    let verts: Vec<&RenderOp> = ops
        .iter()
        .filter(|op| matches!(op, RenderOp::Vertex { .. }))
        .collect();
    assert_eq!(verts.len(), 6);
    assert_eq!(*verts[3], RenderOp::Vertex { x: 2, y: 2 });
    assert_eq!(*verts[4], RenderOp::Vertex { x: 3, y: 3 });
    assert_eq!(*verts[5], RenderOp::Vertex { x: 4, y: 4 });
}
