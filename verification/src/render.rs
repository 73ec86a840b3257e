//! Translation of the GUI engine's finished draw-command list into the
//! host's immediate-mode drawing operations.
//!
//! Clip rectangles arrive in unscaled logical coordinates (milli-units) and
//! are converted to framebuffer pixel coordinates: x and y scaled directly,
//! width and height derived from the rectangle's extents, and the y origin
//! flipped against the framebuffer height.  Index buffers are walked three
//! indices at a time; a trailing partial group below a full triangle is
//! never emitted.  Vertex positions and texture coordinates are opaque host
//! scalars forwarded untouched as bit patterns; colors are packed RGBA8 and
//! unpacked per channel.
use vstd::prelude::*;

verus! {

/// Milli-units (thousandths) per logical unit.
pub const MILLI: i64 = 1000;

/// Micro-units per unit: the scale of a milli-coordinate times a
/// milli-scale-factor.
pub const MICRO: i64 = 1000000;

/// Magnitude bound on logical clip coordinates, in milli-units.
pub const CLIP_BOUND_MILLI: i64 = 1000000000;

/// Bound on a framebuffer scale factor, in milli-units.
pub const SCALE_BOUND_MILLI: i64 = 1000000;

/// Bound on a logical display dimension, in whole pixels.
pub const DISPLAY_BOUND: u32 = 1000000;

/// One vertex of a draw list: opaque position and texture-coordinate
/// scalars (bit patterns forwarded untouched) and a packed RGBA8 color
/// (red in the low byte, alpha in the high byte).
#[derive(Clone, Copy, Debug, PartialEq, Eq, Structural)]
pub struct DrawVert {
    pub pos_x: u32,
    pub pos_y: u32,
    pub uv_x: u32,
    pub uv_y: u32,
    pub col: u32,
}

/// A clip rectangle in unscaled logical coordinates, milli-units.
#[derive(Clone, Copy, Debug, PartialEq, Eq, Structural)]
pub struct ClipRect {
    pub left: i64,
    pub top: i64,
    pub right: i64,
    pub bottom: i64,
}

/// One draw command of a draw list.
#[derive(Clone, Copy, Debug, PartialEq, Eq, Structural)]
pub enum DrawCommand {
    /// An indexed-triangle range with its clip rectangle and texture.
    Elements { count: usize, idx_offset: usize, clip: ClipRect, texture_id: u32 },
    /// An opaque host-callback invocation; only its clip rectangle is read.
    RawCallback { clip: ClipRect },
    /// A render-state-reset marker; unsupported by this renderer.
    ResetRenderState,
}

/// One draw list: a vertex buffer, a 16-bit index buffer, and the draw
/// commands partitioning them.
pub struct DrawList {
    pub vtx: Vec<DrawVert>,
    pub idx: Vec<u16>,
    pub cmds: Vec<DrawCommand>,
}

/// The mathematical content of a draw list.
pub struct DrawListView {
    pub vtx: Seq<DrawVert>,
    pub idx: Seq<u16>,
    pub cmds: Seq<DrawCommand>,
}

impl View for DrawList {
    type V = DrawListView;

    open spec fn view(&self) -> DrawListView {
        DrawListView { vtx: self.vtx@, idx: self.idx@, cmds: self.cmds@ }
    }
}

/// The engine's finished draw data for one frame.
pub struct DrawData {
    pub lists: Vec<DrawList>,
}

/// The mathematical content of the draw data.
pub struct DrawDataView {
    pub lists: Seq<DrawListView>,
}

impl View for DrawData {
    type V = DrawDataView;

    open spec fn view(&self) -> DrawDataView {
        DrawDataView { lists: Seq::new(self.lists@.len(), |i: int| self.lists@[i]@) }
    }
}

/// Display metrics the renderer scales against: the logical display size
/// and the per-axis framebuffer scale in milli-units.
#[derive(Clone, Copy, Debug, PartialEq, Eq, Structural)]
pub struct DisplayMetrics {
    pub width: u32,
    pub height: u32,
    pub scale_x: i64,
    pub scale_y: i64,
}

/// Metrics within the machine bounds the scissor arithmetic needs.
pub open spec fn metrics_wf(m: DisplayMetrics) -> bool {
    &&& m.width <= DISPLAY_BOUND
    &&& m.height <= DISPLAY_BOUND
    &&& 0 <= m.scale_x <= SCALE_BOUND_MILLI
    &&& 0 <= m.scale_y <= SCALE_BOUND_MILLI
}

/// A clip rectangle within the machine bounds of the scissor arithmetic.
pub open spec fn clip_wf(c: ClipRect) -> bool {
    &&& -CLIP_BOUND_MILLI <= c.left <= CLIP_BOUND_MILLI
    &&& -CLIP_BOUND_MILLI <= c.top <= CLIP_BOUND_MILLI
    &&& -CLIP_BOUND_MILLI <= c.right <= CLIP_BOUND_MILLI
    &&& -CLIP_BOUND_MILLI <= c.bottom <= CLIP_BOUND_MILLI
}

/// Index values are valid offsets into the owning list's vertex buffer and
/// each command's index range lies inside the index buffer, with bounded
/// clip rectangles.
pub open spec fn list_wf(l: DrawListView) -> bool {
    &&& forall|i: int| 0 <= i < l.idx.len() ==> (#[trigger] l.idx[i]) < l.vtx.len()
    &&& forall|i: int|
        0 <= i < l.cmds.len() ==> match #[trigger] l.cmds[i] {
            DrawCommand::Elements { count, idx_offset, clip, .. } => idx_offset + count
                <= l.idx.len() && clip_wf(clip),
            DrawCommand::RawCallback { clip } => clip_wf(clip),
            DrawCommand::ResetRenderState => true,
        }
}

/// Well-formed draw data: every list is well formed.
pub open spec fn draw_data_wf(dd: DrawDataView) -> bool {
    forall|i: int| 0 <= i < dd.lists.len() ==> list_wf(#[trigger] dd.lists[i])
}

/// One immediate-mode drawing operation of the host runtime, in issue
/// order.
#[derive(Clone, Copy, Debug, PartialEq, Eq, Structural)]
pub enum RenderOp {
    /// Flush the active draw batch.
    FlushBatch,
    DisableBackfaceCulling,
    EnableBackfaceCulling,
    EnableScissorTest,
    DisableScissorTest,
    /// Set the scissor region, in framebuffer pixels with a bottom-left
    /// origin.
    Scissor { x: i32, y: i32, width: i32, height: i32 },
    SetTexture { id: u32 },
    BeginTriangles,
    EndTriangles,
    /// One vertex's color, unpacked per channel.
    Color { r: u8, g: u8, b: u8, a: u8 },
    /// One vertex's texture coordinate, as opaque host scalars.
    TexCoord { u: u32, v: u32 },
    /// One vertex's position, as opaque host scalars.
    Vertex { x: u32, y: u32 },
    /// Invoke the opaque raw callback of command `cmd` of draw list `list`,
    /// payload untouched.
    Callback { list: usize, cmd: usize },
}

/// The error of the one draw command this renderer cannot express.
#[derive(Clone, Copy, Debug, PartialEq, Eq, Structural)]
pub enum RenderError {
    /// A render-state-reset marker was encountered; silently skipping it
    /// would hide a capability mismatch.
    ResetRenderStateUnsupported,
}

/// A scissor operation.
pub open spec fn scissor_op(x: i32, y: i32, width: i32, height: i32) -> RenderOp {
    RenderOp::Scissor { x, y, width, height }
}

/// A texture binding operation.
pub open spec fn set_texture_op(id: u32) -> RenderOp {
    RenderOp::SetTexture { id }
}

/// A per-channel color operation.
pub open spec fn color_op(r: u8, g: u8, b: u8, a: u8) -> RenderOp {
    RenderOp::Color { r, g, b, a }
}

/// A texture-coordinate operation.
pub open spec fn texcoord_op(u: u32, v: u32) -> RenderOp {
    RenderOp::TexCoord { u, v }
}

/// A position operation.
pub open spec fn vertex_op(x: u32, y: u32) -> RenderOp {
    RenderOp::Vertex { x, y }
}

/// A raw-callback invocation operation.
pub open spec fn callback_op(list: usize, cmd: usize) -> RenderOp {
    RenderOp::Callback { list, cmd }
}

/// Division by a positive constant, truncating toward zero as the host's
/// float-to-integer conversion does.
pub open spec fn div_to_zero(a: int, b: int) -> int {
    if a >= 0 {
        a / b
    } else {
        -((-a) / b)
    }
}

/// The scissor x origin in framebuffer pixels.
pub open spec fn scissor_x(c: ClipRect, sx: int) -> int {
    div_to_zero(c.left * sx, MICRO as int)
}

/// The scissor y origin in framebuffer pixels: the clip rectangle's
/// vertical extent inverted against the framebuffer height.
pub open spec fn scissor_y(c: ClipRect, sy: int, disp_h: int) -> int {
    div_to_zero(disp_h * sy * (MILLI as int) - c.bottom * sy, MICRO as int)
}

/// The scissor width in framebuffer pixels.
pub open spec fn scissor_w(c: ClipRect, sx: int) -> int {
    div_to_zero((c.right - c.left) * sx, MICRO as int)
}

/// The scissor height in framebuffer pixels.
pub open spec fn scissor_h(c: ClipRect, sy: int) -> int {
    div_to_zero((c.bottom - c.top) * sy, MICRO as int)
}

/// The two operations that establish a command's clip region.
pub open spec fn scissor_ops(c: ClipRect, m: DisplayMetrics) -> Seq<RenderOp> {
    seq![
        RenderOp::EnableScissorTest,
        scissor_op(
            scissor_x(c, m.scale_x as int) as i32,
            scissor_y(c, m.scale_y as int, m.height as int) as i32,
            scissor_w(c, m.scale_x as int) as i32,
            scissor_h(c, m.scale_y as int) as i32,
        ),
    ]
}

/// The three operations emitting one vertex: color, texture coordinate,
/// then position.
pub open spec fn vert_ops(v: DrawVert) -> Seq<RenderOp> {
    seq![
        color_op(
            (v.col & 0xff) as u8,
            ((v.col >> 8) & 0xff) as u8,
            ((v.col >> 16) & 0xff) as u8,
            ((v.col >> 24) & 0xff) as u8,
        ),
        texcoord_op(v.uv_x, v.uv_y),
        vertex_op(v.pos_x, v.pos_y),
    ]
}

/// The vertex referenced by index `i` of the list's index buffer.
pub open spec fn vert_at(l: DrawListView, i: int) -> DrawVert {
    l.vtx[l.idx[i] as int]
}

/// The nine operations of triangle `t` of a command.
pub open spec fn tri_ops(l: DrawListView, idx_offset: int, t: int) -> Seq<RenderOp> {
    vert_ops(vert_at(l, idx_offset + 3 * t)) + vert_ops(vert_at(l, idx_offset + 3 * t + 1))
        + vert_ops(vert_at(l, idx_offset + 3 * t + 2))
}

/// The operations of the first `n` triangles of a command.
pub open spec fn tris_ops(l: DrawListView, idx_offset: int, n: int) -> Seq<RenderOp>
    decreases n,
{
    if n <= 0 {
        Seq::empty()
    } else {
        tris_ops(l, idx_offset, n - 1) + tri_ops(l, idx_offset, n - 1)
    }
}

/// The operations of one indexed-triangle command: nothing below a full
/// triangle, else a triangle batch of the complete 3-index groups.
pub open spec fn elements_ops(
    l: DrawListView,
    count: int,
    idx_offset: int,
    texture_id: u32,
) -> Seq<RenderOp> {
    if count < 3 {
        Seq::empty()
    } else {
        seq![RenderOp::BeginTriangles, set_texture_op(texture_id)] + tris_ops(
            l,
            idx_offset,
            count / 3,
        ) + seq![RenderOp::EndTriangles]
    }
}

/// The operations of command `ci` of list `li` (empty for the unsupported
/// reset marker, which aborts the render instead).
pub open spec fn cmd_ops(l: DrawListView, li: int, ci: int, m: DisplayMetrics) -> Seq<RenderOp> {
    match l.cmds[ci] {
        DrawCommand::Elements { count, idx_offset, clip, texture_id } => scissor_ops(clip, m)
            + elements_ops(l, count as int, idx_offset as int, texture_id) + seq![
            RenderOp::FlushBatch,
        ],
        DrawCommand::RawCallback { clip } => scissor_ops(clip, m) + seq![
            callback_op(li as usize, ci as usize),
        ],
        DrawCommand::ResetRenderState => Seq::empty(),
    }
}

/// The operations of the first `n` commands of list `li`.
pub open spec fn cmds_ops(l: DrawListView, li: int, n: int, m: DisplayMetrics) -> Seq<RenderOp>
    decreases n,
{
    if n <= 0 {
        Seq::empty()
    } else {
        cmds_ops(l, li, n - 1, m) + cmd_ops(l, li, n - 1, m)
    }
}

/// The operations of the first `n` draw lists.
pub open spec fn lists_ops(dd: DrawDataView, n: int, m: DisplayMetrics) -> Seq<RenderOp>
    decreases n,
{
    if n <= 0 {
        Seq::empty()
    } else {
        lists_ops(dd, n - 1, m) + cmds_ops(dd.lists[n - 1], n - 1, dd.lists[n - 1].cmds.len() as int, m)
    }
}

/// The full operation sequence of one frame's render: flush and disable
/// culling, replay every list, then restore host render state.
pub open spec fn render_ops(dd: DrawDataView, m: DisplayMetrics) -> Seq<RenderOp> {
    seq![RenderOp::FlushBatch, RenderOp::DisableBackfaceCulling] + lists_ops(
        dd,
        dd.lists.len() as int,
        m,
    ) + seq![set_texture_op(0), RenderOp::DisableScissorTest, RenderOp::EnableBackfaceCulling]
}

/// Whether a command is the unsupported render-state-reset marker.
pub open spec fn cmd_is_reset(c: DrawCommand) -> bool {
    c is ResetRenderState
}

/// Whether a draw list holds a reset marker.
pub open spec fn list_has_reset(l: DrawListView) -> bool {
    exists|i: int| 0 <= i < l.cmds.len() && cmd_is_reset(#[trigger] l.cmds[i])
}

/// Whether any draw list holds a reset marker.
pub open spec fn has_reset(dd: DrawDataView) -> bool {
    exists|i: int| 0 <= i < dd.lists.len() && list_has_reset(#[trigger] dd.lists[i])
}

/// Truncating-toward-zero division by the micro-unit scale.
fn div_micro_to_zero(a: i64) -> (r: i64)
    requires
        -2_000_000_000_000_000 <= a <= 2_000_000_000_000_000,
    ensures
        r == div_to_zero(a as int, MICRO as int),
        -2_000_000_000 <= r <= 2_000_000_000,
{
    if a >= 0 {
        proof {
            vstd::arithmetic::div_mod::lemma_div_is_ordered(
                a as int,
                2_000_000_000_000_000,
                MICRO as int,
            );
            vstd::arithmetic::div_mod::lemma_div_is_ordered(0, a as int, MICRO as int);
        }
        ((a as u64) / (MICRO as u64)) as i64
    } else {
        proof {
            vstd::arithmetic::div_mod::lemma_div_is_ordered(
                (-a) as int,
                2_000_000_000_000_000,
                MICRO as int,
            );
            vstd::arithmetic::div_mod::lemma_div_is_ordered(0, (-a) as int, MICRO as int);
        }
        -(((-a) as u64 / (MICRO as u64)) as i64)
    }
}

/// Appends the two operations establishing a command's clip region,
/// converting logical milli-coordinates to framebuffer pixels.
fn enable_scissor(ops: &mut Vec<RenderOp>, clip: ClipRect, m: DisplayMetrics)
    requires
        clip_wf(clip),
        metrics_wf(m),
    ensures
        final(ops)@ == old(ops)@ + scissor_ops(clip, m),
{
    proof {
        assert(-1_000_000_000_000_000 <= clip.left * m.scale_x <= 1_000_000_000_000_000)
            by (nonlinear_arith)
            requires
                -CLIP_BOUND_MILLI <= clip.left <= CLIP_BOUND_MILLI,
                0 <= m.scale_x <= SCALE_BOUND_MILLI,
        ;
        assert(0 <= (m.height as i64) * m.scale_y * MILLI <= 1_000_000_000_000_000)
            by (nonlinear_arith)
            requires
                0 <= m.height <= DISPLAY_BOUND,
                0 <= m.scale_y <= SCALE_BOUND_MILLI,
                MILLI == 1000,
        ;
        assert(-1_000_000_000_000_000 <= clip.bottom * m.scale_y <= 1_000_000_000_000_000)
            by (nonlinear_arith)
            requires
                -CLIP_BOUND_MILLI <= clip.bottom <= CLIP_BOUND_MILLI,
                0 <= m.scale_y <= SCALE_BOUND_MILLI,
        ;
        assert(-2_000_000_000_000_000 <= (clip.right - clip.left) * m.scale_x
            <= 2_000_000_000_000_000) by (nonlinear_arith)
            requires
                -CLIP_BOUND_MILLI <= clip.left <= CLIP_BOUND_MILLI,
                -CLIP_BOUND_MILLI <= clip.right <= CLIP_BOUND_MILLI,
                0 <= m.scale_x <= SCALE_BOUND_MILLI,
        ;
        assert(-2_000_000_000_000_000 <= (clip.bottom - clip.top) * m.scale_y
            <= 2_000_000_000_000_000) by (nonlinear_arith)
            requires
                -CLIP_BOUND_MILLI <= clip.top <= CLIP_BOUND_MILLI,
                -CLIP_BOUND_MILLI <= clip.bottom <= CLIP_BOUND_MILLI,
                0 <= m.scale_y <= SCALE_BOUND_MILLI,
        ;
    }
    let x = div_micro_to_zero(clip.left * m.scale_x);
    let y = div_micro_to_zero((m.height as i64) * m.scale_y * MILLI - clip.bottom * m.scale_y);
    let w = div_micro_to_zero((clip.right - clip.left) * m.scale_x);
    let h = div_micro_to_zero((clip.bottom - clip.top) * m.scale_y);
    ops.push(RenderOp::EnableScissorTest);
    ops.push(
        RenderOp::Scissor { x: x as i32, y: y as i32, width: w as i32, height: h as i32 },
    );
    proof {
        assert(ops@ =~= old(ops)@ + scissor_ops(clip, m));
    }
}

/// Appends the three operations of one vertex: unpacked color, texture
/// coordinate, position.
fn triangle_vert(ops: &mut Vec<RenderOp>, v: DrawVert)
    ensures
        final(ops)@ == old(ops)@ + vert_ops(v),
{
    let col = v.col;
    proof {
        assert(col & 0xff < 256) by (bit_vector);
        assert((col >> 8) & 0xff < 256) by (bit_vector);
        assert((col >> 16) & 0xff < 256) by (bit_vector);
        assert((col >> 24) & 0xff < 256) by (bit_vector);
    }
    let r = (col & 0xff) as u8;
    let g = ((col >> 8) & 0xff) as u8;
    let b = ((col >> 16) & 0xff) as u8;
    let a = ((col >> 24) & 0xff) as u8;
    ops.push(RenderOp::Color { r, g, b, a });
    ops.push(RenderOp::TexCoord { u: v.uv_x, v: v.uv_y });
    ops.push(RenderOp::Vertex { x: v.pos_x, y: v.pos_y });
    proof {
        assert(ops@ =~= old(ops)@ + vert_ops(v));
    }
}

/// Appends one indexed-triangle command's operations: walks the index
/// range three indices at a time, dropping any trailing partial group.
fn render_triangles(
    ops: &mut Vec<RenderOp>,
    count: usize,
    idx_offset: usize,
    list: &DrawList,
    texture_id: u32,
)
    requires
        list_wf(list@),
        idx_offset + count <= list@.idx.len(),
    ensures
        final(ops)@ == old(ops)@ + elements_ops(list@, count as int, idx_offset as int, texture_id),
{
    if count < 3 {
        proof {
            assert(ops@ =~= old(ops)@ + elements_ops(
                list@,
                count as int,
                idx_offset as int,
                texture_id,
            ));
        }
        return ;
    }
    ops.push(RenderOp::BeginTriangles);
    ops.push(RenderOp::SetTexture { id: texture_id });
    let n_tris = count / 3;
    let idx_len = list.idx.len();
    proof {
        assert(3 * (count as int / 3) <= count as int) by (nonlinear_arith);
    }
    let mut t: usize = 0;
    while t < n_tris
        invariant
            0 <= t <= n_tris,
            n_tris == count as int / 3,
            3 * (count as int / 3) <= count as int,
            idx_offset + count <= idx_len,
            idx_len == list@.idx.len(),
            list_wf(list@),
            ops@ == old(ops)@ + seq![RenderOp::BeginTriangles, set_texture_op(texture_id)]
                + tris_ops(list@, idx_offset as int, t as int),
        decreases n_tris - t,
    {
        proof {
            assert(3 * (t as int + 1) <= 3 * (count as int / 3)) by (nonlinear_arith)
                requires
                    t as int + 1 <= count as int / 3,
            ;
        }
        let ia = list.idx[idx_offset + 3 * t] as usize;
        let ib = list.idx[idx_offset + 3 * t + 1] as usize;
        let ic = list.idx[idx_offset + 3 * t + 2] as usize;
        let va = list.vtx[ia];
        let vb = list.vtx[ib];
        let vc = list.vtx[ic];
        triangle_vert(ops, va);
        triangle_vert(ops, vb);
        triangle_vert(ops, vc);
        proof {
            assert(va == vert_at(list@, idx_offset as int + 3 * (t as int)));
            assert(vb == vert_at(list@, idx_offset as int + 3 * (t as int) + 1));
            assert(vc == vert_at(list@, idx_offset as int + 3 * (t as int) + 2));
            assert(ops@ =~= old(ops)@ + seq![RenderOp::BeginTriangles, set_texture_op(texture_id)]
                + tris_ops(list@, idx_offset as int, t as int + 1));
        }
        t += 1;
    }
    ops.push(RenderOp::EndTriangles);
    proof {
        assert(ops@ =~= old(ops)@ + elements_ops(
            list@,
            count as int,
            idx_offset as int,
            texture_id,
        ));
    }
}

/// The draw-command renderer.
pub struct Renderer {}

impl Renderer {
    /// Replays the engine's finished draw data as host drawing operations,
    /// preserving clip regions and texture bindings and restoring host
    /// render state afterwards.  Aborts loudly on the one command kind the
    /// host primitives cannot express.
    pub fn render(dd: &DrawData, m: DisplayMetrics) -> (r: Result<Vec<RenderOp>, RenderError>)
        requires
            draw_data_wf(dd@),
            metrics_wf(m),
        ensures
            r is Ok <==> !has_reset(dd@),
            r matches Ok(ops) ==> ops@ == render_ops(dd@, m),
            r matches Err(e) ==> e == RenderError::ResetRenderStateUnsupported,
    {
        let mut ops: Vec<RenderOp> = Vec::new();
        ops.push(RenderOp::FlushBatch);
        ops.push(RenderOp::DisableBackfaceCulling);
        let ghost head = seq![RenderOp::FlushBatch, RenderOp::DisableBackfaceCulling];
        proof {
            assert(ops@ =~= head + lists_ops(dd@, 0, m));
        }
        let mut li: usize = 0;
        while li < dd.lists.len()
            invariant
                0 <= li <= dd.lists.len(),
                dd.lists@.len() == dd@.lists.len(),
                draw_data_wf(dd@),
                metrics_wf(m),
                head == seq![RenderOp::FlushBatch, RenderOp::DisableBackfaceCulling],
                ops@ == head + lists_ops(dd@, li as int, m),
                forall|i: int| 0 <= i < li ==> !list_has_reset(#[trigger] dd@.lists[i]),
            decreases dd.lists@.len() - li,
        {
            let list = &dd.lists[li];
            proof {
                assert(dd@.lists[li as int] == list@);
                assert(list_wf(list@));
            }
            let mut ci: usize = 0;
            while ci < list.cmds.len()
                invariant
                    0 <= ci <= list.cmds@.len(),
                    li < dd.lists@.len(),
                    dd.lists@.len() == dd@.lists.len(),
                    dd@.lists[li as int] == list@,
                    list_wf(list@),
                    metrics_wf(m),
                    ops@ == head + lists_ops(dd@, li as int, m) + cmds_ops(
                        list@,
                        li as int,
                        ci as int,
                        m,
                    ),
                    forall|i: int| 0 <= i < ci ==> !cmd_is_reset(#[trigger] list@.cmds[i]),
                decreases list.cmds@.len() - ci,
            {
                let cmd = list.cmds[ci];
                match cmd {
                    DrawCommand::Elements { count, idx_offset, clip, texture_id } => {
                        enable_scissor(&mut ops, clip, m);
                        render_triangles(&mut ops, count, idx_offset, list, texture_id);
                        ops.push(RenderOp::FlushBatch);
                        proof {
                            assert(ops@ =~= head + lists_ops(dd@, li as int, m) + cmds_ops(
                                list@,
                                li as int,
                                ci as int + 1,
                                m,
                            ));
                        }
                    },
                    DrawCommand::ResetRenderState => {
                        proof {
                            assert(cmd_is_reset(list@.cmds[ci as int]));
                            assert(list_has_reset(dd@.lists[li as int]));
                        }
                        return Err(RenderError::ResetRenderStateUnsupported);
                    },
                    DrawCommand::RawCallback { clip } => {
                        enable_scissor(&mut ops, clip, m);
                        ops.push(RenderOp::Callback { list: li, cmd: ci });
                        proof {
                            assert(ops@ =~= head + lists_ops(dd@, li as int, m) + cmds_ops(
                                list@,
                                li as int,
                                ci as int + 1,
                                m,
                            ));
                        }
                    },
                }
                ci += 1;
            }
            proof {
                assert(ops@ =~= head + lists_ops(dd@, li as int + 1, m));
            }
            li += 1;
        }
        ops.push(RenderOp::SetTexture { id: 0 });
        ops.push(RenderOp::DisableScissorTest);
        ops.push(RenderOp::EnableBackfaceCulling);
        proof {
            assert(ops@ =~= render_ops(dd@, m));
        }
        Ok(ops)
    }
}

/// Dropping a trailing partial index group changes nothing: a command
/// renders exactly its complete 3-index groups.
pub proof fn lemma_trailing_indices_dropped(
    l: DrawListView,
    count: int,
    idx_offset: int,
    texture_id: u32,
)
    requires
        count >= 0,
    ensures
        elements_ops(l, count, idx_offset, texture_id) == elements_ops(
            l,
            3 * (count / 3),
            idx_offset,
            texture_id,
        ),
{
    assert(3 * (count / 3) == count - count % 3);
    assert(count / 3 == (3 * (count / 3)) / 3) by (nonlinear_arith);
    if count < 3 {
        assert(3 * (count / 3) < 3);
    }
}

} // verus!
