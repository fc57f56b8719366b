use vstd::prelude::*;
use crate::geom::{
    affine_bounded, compose, coord_ok, identity_model, lemma_compose_assoc, lemma_compose_identity,
    Affine, AffineModel, Color, Rect, COORD_MAX,
};
use crate::frame::{finish_steps, FrameState, FrameStep};
use crate::image::{CachedImage, ImageCache};
use crate::tess::{
    event_ok, events_ok, fill_rect_mesh, mesh_ok, stroke_path_mesh, stroke_path_of, stroke_rect_mesh,
    stroke_rect_of, PathEvent, PathSink, StrokePath,
};

verus! {

/// Failures that the rendering context reports.
#[derive(Clone, Copy, Debug, PartialEq, Eq, Structural)]
pub enum RenderError {
    /// `restore` without a matching `save`.
    StackUnbalanced,
    /// A custom pass asked for before its viewport was configured.
    MissingViewport,
    /// The target surface could not be acquired for this frame.
    SurfaceUnavailable,
    /// An operation that is accepted but not implemented.
    Unsupported,
}

/// A raster image. Raster images are not supported: none is ever made.
pub struct WgpuImage {}

/// What a shape is painted with: solid colors only.
#[derive(Clone, Copy, Debug, PartialEq, Eq, Structural)]
pub enum Brush {
    Solid(Color),
}

/// Per-draw parameters shared by a group of vertices, addressed by their
/// position in the primitive table. `transform` holds numerators over
/// `transform_den`.
#[derive(Clone, Copy, Debug, PartialEq, Eq, Structural)]
pub struct Primitive {
    pub translate_x: i64,
    pub translate_y: i64,
    pub transform: Affine,
    pub transform_den: i64,
    pub clip: bool,
    pub clip_rect: Rect,
    pub blur_radius: i64,
    pub blur_rect: Rect,
}

/// A tessellated vertex, tagged with the primitive record it is drawn with.
#[derive(Clone, Copy, Debug, PartialEq, Eq, Structural)]
pub struct Vertex {
    pub x: i64,
    pub y: i64,
    pub translate_x: i64,
    pub translate_y: i64,
    pub color: Color,
    pub primitive_id: u32,
}

/// One saved scope: the transform at the parent, the transform since then, and
/// how many clips were pushed while it was on top.
pub struct FrameModel {
    pub transform: AffineModel,
    pub rel: AffineModel,
    pub n_clip: nat,
}

/// The save/restore state: current transform, saved scopes, active clips.
pub struct StackModel {
    pub cur: AffineModel,
    pub frames: Seq<FrameModel>,
    pub clips: Seq<Rect>,
}

pub open spec fn zero_rect() -> Rect {
    Rect { x0: 0, y0: 0, x1: 0, y1: 0 }
}

pub open spec fn identity_affine() -> Affine {
    Affine { xx: 1, yx: 0, xy: 0, yy: 1, tx: 0, ty: 0 }
}

/// A clip rectangle as stored: its two corners mapped by `cur`.
pub open spec fn clip_of(r: Rect, cur: AffineModel) -> Rect {
    Rect {
        x0: (cur.xx * r.x0 + cur.xy * r.y0 + cur.tx) as i64,
        y0: (cur.yx * r.x0 + cur.yy * r.y0 + cur.ty) as i64,
        x1: (cur.xx * r.x1 + cur.xy * r.y1 + cur.tx) as i64,
        y1: (cur.yx * r.x1 + cur.yy * r.y1 + cur.ty) as i64,
    }
}

/// The clip consulted for new primitives: the last one pushed, if any.
pub open spec fn current_clip_of(s: StackModel) -> Option<Rect> {
    if s.clips.len() > 0 {
        Some(s.clips.last())
    } else {
        None
    }
}

/// The primitive record that describes the state `s`.
pub open spec fn state_record(s: StackModel) -> Primitive {
    Primitive {
        translate_x: s.cur.tx as i64,
        translate_y: s.cur.ty as i64,
        transform: identity_affine(),
        transform_den: 1,
        clip: s.clips.len() > 0,
        clip_rect: if s.clips.len() > 0 {
            s.clips.last()
        } else {
            zero_rect()
        },
        blur_radius: 0,
        blur_rect: zero_rect(),
    }
}

/// Clips pushed under all saved scopes together.
pub open spec fn clip_total(frames: Seq<FrameModel>) -> nat
    decreases frames.len(),
{
    if frames.len() == 0 {
        0
    } else {
        clip_total(frames.drop_last()) + frames.last().n_clip
    }
}

pub open spec fn save_model(s: StackModel) -> StackModel {
    StackModel {
        frames: s.frames.push(FrameModel { transform: s.cur, rel: identity_model(), n_clip: 0 }),
        ..s
    }
}

/// Pops the top scope: its transform comes back and its clips go.
pub open spec fn restore_model(s: StackModel) -> StackModel {
    if s.frames.len() == 0 {
        s
    } else {
        StackModel {
            cur: s.frames.last().transform,
            frames: s.frames.drop_last(),
            clips: s.clips.take(s.clips.len() - s.frames.last().n_clip),
        }
    }
}

pub open spec fn transform_model(s: StackModel, t: AffineModel) -> StackModel {
    StackModel {
        cur: compose(s.cur, t),
        frames: if s.frames.len() == 0 {
            s.frames
        } else {
            s.frames.update(
                s.frames.len() - 1,
                FrameModel { rel: compose(s.frames.last().rel, t), ..s.frames.last() },
            )
        },
        clips: s.clips,
    }
}

/// Pushes the moved rectangle and counts it against the top scope, if any.
pub open spec fn clip_model(s: StackModel, r: Rect) -> StackModel {
    StackModel {
        cur: s.cur,
        frames: if s.frames.len() == 0 {
            s.frames
        } else {
            s.frames.update(
                s.frames.len() - 1,
                FrameModel { n_clip: s.frames.last().n_clip + 1, ..s.frames.last() },
            )
        },
        clips: s.clips.push(clip_of(r, s.cur)),
    }
}

/// Tolerance of curve flattening, in units, as decimal text.
pub const TOLERANCE: &'static str = "0.02";

/// One element of a path outline.
#[derive(Clone, Copy, Debug, PartialEq, Eq, Structural)]
pub enum PathEl {
    MoveTo(i64, i64),
    LineTo(i64, i64),
    QuadTo(i64, i64, i64, i64),
    CurveTo(i64, i64, i64, i64, i64, i64),
    ClosePath,
}

/// A shape to fill, stroke or clip with.
#[derive(Clone, Debug)]
pub enum Shape {
    Rect(Rect),
    Line(i64, i64, i64, i64),
    Path(Vec<PathEl>),
}

pub open spec fn el_points_ok(e: PathEl) -> bool {
    match e {
        PathEl::MoveTo(x, y) => coord_ok(x as int) && coord_ok(y as int),
        PathEl::LineTo(x, y) => coord_ok(x as int) && coord_ok(y as int),
        PathEl::QuadTo(a, b, x, y) => coord_ok(a as int) && coord_ok(b as int) && coord_ok(
            x as int,
        ) && coord_ok(y as int),
        PathEl::CurveTo(a, b, c, d, x, y) => coord_ok(a as int) && coord_ok(b as int) && coord_ok(
            c as int,
        ) && coord_ok(d as int) && coord_ok(x as int) && coord_ok(y as int),
        PathEl::ClosePath => true,
    }
}

/// Whether a sub-path is open after the first `n` elements.
pub open spec fn open_after(els: Seq<PathEl>, n: int) -> bool
    decreases n,
{
    if n <= 0 {
        false
    } else {
        match els[n - 1] {
            PathEl::MoveTo(_, _) => true,
            PathEl::ClosePath => false,
            _ => open_after(els, n - 1),
        }
    }
}

/// Element `i` has its points in range and, unless it starts a sub-path, a
/// sub-path open to continue or close.
pub open spec fn el_ok(els: Seq<PathEl>, i: int) -> bool {
    el_points_ok(els[i]) && (!(els[i] is MoveTo) ==> open_after(els, i))
}

pub open spec fn path_ok(els: Seq<PathEl>) -> bool {
    forall|i: int| 0 <= i < els.len() ==> el_ok(els, i)
}

/// The builder calls for the first `n` elements: a move while a sub-path is
/// open ends that sub-path first.
pub open spec fn events_after(els: Seq<PathEl>, n: int) -> Seq<PathEvent>
    decreases n,
{
    if n <= 0 {
        seq![]
    } else {
        let prev = events_after(els, n - 1);
        match els[n - 1] {
            PathEl::MoveTo(x, y) => if open_after(els, n - 1) {
                prev.push(PathEvent::End(false)).push(PathEvent::Begin(x, y))
            } else {
                prev.push(PathEvent::Begin(x, y))
            },
            PathEl::LineTo(x, y) => prev.push(PathEvent::Line(x, y)),
            PathEl::QuadTo(a, b, x, y) => prev.push(PathEvent::Quad(a, b, x, y)),
            PathEl::CurveTo(a, b, c, d, x, y) => prev.push(PathEvent::Cubic(a, b, c, d, x, y)),
            PathEl::ClosePath => prev.push(PathEvent::End(true)),
        }
    }
}

/// The builder calls for a path: its elements, then an open sub-path ended.
pub open spec fn path_events(els: Seq<PathEl>) -> Seq<PathEvent> {
    if open_after(els, els.len() as int) {
        events_after(els, els.len() as int).push(PathEvent::End(false))
    } else {
        events_after(els, els.len() as int)
    }
}

/// The builder calls for a line: a closed sub-path of one edge.
pub open spec fn line_events(x0: i64, y0: i64, x1: i64, y1: i64) -> Seq<PathEvent> {
    seq![PathEvent::Begin(x0, y0), PathEvent::Line(x1, y1), PathEvent::End(true)]
}

/// What lyon's stroke of the shape gives: vertex positions and indices.
pub open spec fn stroke_mesh_of(shape: Shape, width: i64) -> (Seq<(i64, i64)>, Seq<u32>) {
    match shape {
        Shape::Rect(r) => stroke_rect_of(
            r.x0,
            r.y0,
            (r.x1 - r.x0) as i64,
            (r.y1 - r.y0) as i64,
            width,
            TOLERANCE@,
        ),
        Shape::Line(x0, y0, x1, y1) => stroke_path_of(line_events(x0, y0, x1, y1), width, TOLERANCE@),
        Shape::Path(els) => stroke_path_of(path_events(els@), width, TOLERANCE@),
    }
}

/// A clip applies to a rectangle in range.
pub open spec fn clip_applies(shape: Shape) -> bool {
    match shape {
        Shape::Rect(r) => r.bounded(),
        _ => false,
    }
}

/// A fill draws a rectangle in range when the batch has room for four vertices.
pub open spec fn fill_applies(shape: Shape, nverts: nat) -> bool {
    match shape {
        Shape::Rect(r) => r.bounded() && nverts + 4 <= u32::MAX,
        _ => false,
    }
}

/// A stroke is drawn for a shape whose points are in range and, for a path,
/// well formed, at a width between zero and `COORD_MAX`.
pub open spec fn stroke_applies(shape: Shape, width: i64) -> bool {
    0 <= width <= COORD_MAX && match shape {
        Shape::Rect(r) => r.bounded(),
        Shape::Line(x0, y0, x1, y1) => coord_ok(x0 as int) && coord_ok(y0 as int) && coord_ok(
            x1 as int,
        ) && coord_ok(y1 as int),
        Shape::Path(els) => path_ok(els@),
    }
}

/// The rectangle with ordered corners, grown by three times `radius` on each side.
pub open spec fn inflated(r: Rect, radius: i64) -> Rect {
    Rect {
        x0: (normalized(r).x0 - 3 * radius) as i64,
        y0: (normalized(r).y0 - 3 * radius) as i64,
        x1: (normalized(r).x1 + 3 * radius) as i64,
        y1: (normalized(r).y1 + 3 * radius) as i64,
    }
}

/// The rectangle with `x0 <= x1` and `y0 <= y1`.
pub open spec fn normalized(r: Rect) -> Rect {
    Rect {
        x0: if r.x0 <= r.x1 { r.x0 } else { r.x1 },
        y0: if r.y0 <= r.y1 { r.y0 } else { r.y1 },
        x1: if r.x0 <= r.x1 { r.x1 } else { r.x0 },
        y1: if r.y0 <= r.y1 { r.y1 } else { r.y0 },
    }
}

/// A blurred rectangle is drawn when the grown rectangle is in range and the
/// batch has room for four more vertices.
pub open spec fn blur_applies(r: Rect, radius: i64, nverts: nat) -> bool {
    &&& coord_ok(radius as int)
    &&& r.bounded()
    &&& inflated(r, radius).bounded()
    &&& nverts + 4 <= u32::MAX
}

/// The record of a blurred rectangle: the state's record with the radius and
/// the normalized rectangle.
pub open spec fn blur_record(s: StackModel, r: Rect, radius: i64) -> Primitive {
    Primitive { blur_radius: radius, blur_rect: normalized(r), ..state_record(s) }
}

/// The uniform scale that fits the view box into `r`, as numerator and
/// denominator: the smaller of the width and height ratios.
pub open spec fn svg_scale(vb: Rect, r: Rect) -> (i64, i64) {
    let w = r.x1 - r.x0;
    let h = r.y1 - r.y0;
    let vw = vb.x1 - vb.x0;
    let vh = vb.y1 - vb.y0;
    if w * vh <= h * vw {
        (w as i64, vw as i64)
    } else {
        (h as i64, vh as i64)
    }
}

/// The record of one transform variant: the state's record with the variant's
/// scale and translation multiplied by the fitting scale.
pub open spec fn variant_record(s: StackModel, scale: (i64, i64), t: Affine) -> Primitive {
    Primitive {
        transform: Affine {
            xx: (scale.0 * t.xx) as i64,
            yx: 0,
            xy: 0,
            yy: (scale.0 * t.yy) as i64,
            tx: (scale.0 * t.tx) as i64,
            ty: (scale.0 * t.ty) as i64,
        },
        transform_den: scale.1,
        ..state_record(s)
    }
}

/// The records a replay appends: one per variant, then the state's own.
pub open spec fn image_records(s: StackModel, img: CachedImage, r: Rect) -> Seq<Primitive> {
    img.transforms@.map_values(|t: Affine| variant_record(s, svg_scale(img.view_box, r), t)).push(
        state_record(s),
    )
}

pub open spec fn replayed_vertex(v: Vertex, r: Rect, base: nat, over: Option<Color>) -> Vertex {
    Vertex {
        translate_x: r.x0,
        translate_y: r.y0,
        color: match over {
            Some(c) => c,
            None => v.color,
        },
        primitive_id: (base + v.primitive_id) as u32,
        ..v
    }
}

/// The image's vertices as a replay appends them.
pub open spec fn image_vertices(img: CachedImage, r: Rect, base: nat, over: Option<Color>) -> Seq<Vertex> {
    img.vertices@.map_values(|v: Vertex| replayed_vertex(v, r, base, over))
}

pub open spec fn image_vertices_upto(img: CachedImage, r: Rect, base: nat, over: Option<Color>, n: int) -> Seq<Vertex> {
    img.vertices@.take(n).map_values(|v: Vertex| replayed_vertex(v, r, base, over))
}

/// A replay draws when the rectangle is in range, the image is cached and the
/// table and batch have room for it under 32-bit ids.
pub open spec fn svg_applies(c: WgpuRenderContext, id: u64, r: Rect) -> bool {
    &&& r.bounded()
    &&& c.image_cache().has(id)
    &&& c.prims().len() + c.image_cache().entry(id).transforms@.len() + 1 <= u32::MAX
    &&& c.verts().len() + c.image_cache().entry(id).vertices@.len() <= u32::MAX
}

proof fn lemma_product_fits(a: int, b: int, bound: int)
    requires
        -8388608 <= a <= 8388608,
        -bound <= b <= bound,
        0 <= bound <= 1073741824,
    ensures
        -9007199254740992 <= a * b <= 9007199254740992,
{
    assert(-8388608 * bound <= a * b <= 8388608 * bound) by (nonlinear_arith)
        requires
            -8388608 <= a <= 8388608,
            -bound <= b <= bound,
            0 <= bound,
    ;
}

/// The corners of a rectangle's fill: origin, bottom-left, bottom-right, top-right.
pub open spec fn rect_corners(r: Rect) -> Seq<(i64, i64)> {
    seq![(r.x0, r.y0), (r.x0, r.y1), (r.x1, r.y1), (r.x1, r.y0)]
}

pub open spec fn mesh_vertices(pts: Seq<(i64, i64)>, color: Color, id: u32) -> Seq<Vertex> {
    pts.map_values(
        |p: (i64, i64)|
            Vertex { x: p.0, y: p.1, translate_x: 0, translate_y: 0, color, primitive_id: id },
    )
}

pub open spec fn offset_indices(idx: Seq<u32>, base: nat) -> Seq<u32> {
    idx.map_values(|i: u32| (i + base) as u32)
}

/// The table after making sure it has a record to tag geometry with.
pub open spec fn ensured_table(prims: Seq<Primitive>, s: StackModel) -> Seq<Primitive> {
    if prims.len() == 0 {
        seq![state_record(s)]
    } else {
        prims
    }
}

struct State {
    rel_transform: Ghost<AffineModel>,
    transform: Affine,
    n_clip: usize,
}

spec fn frame_of(st: State) -> FrameModel {
    FrameModel { transform: st.transform@, rel: st.rel_transform@, n_clip: st.n_clip as nat }
}

/// The drawing context of one frame: the state stack, the primitive table and
/// the geometry batch.
pub struct WgpuRenderContext {
    cur_transform: Affine,
    state_stack: Vec<State>,
    clip_stack: Vec<Rect>,
    primitives: Vec<Primitive>,
    vertices: Vec<Vertex>,
    indices: Vec<u32>,
    images: ImageCache,
    frame: FrameState,
}

impl WgpuRenderContext {
    /// The primitive table.
    pub closed spec fn prims(&self) -> Seq<Primitive> {
        self.primitives@
    }

    /// The vertices of the geometry batch.
    pub closed spec fn verts(&self) -> Seq<Vertex> {
        self.vertices@
    }

    /// The indices of the geometry batch, three per triangle.
    pub closed spec fn idxs(&self) -> Seq<u32> {
        self.indices@
    }

    pub fn primitives(&self) -> (r: &Vec<Primitive>)
        ensures
            r@ == self.prims(),
    {
        &self.primitives
    }

    pub fn vertices(&self) -> (r: &Vec<Vertex>)
        ensures
            r@ == self.verts(),
    {
        &self.vertices
    }

    pub fn indices(&self) -> (r: &Vec<u32>)
        ensures
            r@ == self.idxs(),
    {
        &self.indices
    }

    pub closed spec fn model(&self) -> StackModel {
        StackModel {
            cur: self.cur_transform@,
            frames: self.state_stack@.map_values(|st: State| frame_of(st)),
            clips: self.clip_stack@,
        }
    }

    /// Each saved transform composed with its relative transform gives the next
    /// one up, the last giving the current transform.
    pub open spec fn chain_ok(s: StackModel) -> bool {
        forall|i: int|
            0 <= i < s.frames.len() ==> compose(s.frames[i].transform, s.frames[i].rel) == (if i
                + 1 < s.frames.len() {
                s.frames[i + 1].transform
            } else {
                s.cur
            })
    }

    pub open spec fn geometry_ok(
        primitives: Seq<Primitive>,
        vertices: Seq<Vertex>,
        indices: Seq<u32>,
    ) -> bool {
        &&& primitives.len() <= u32::MAX
        &&& vertices.len() <= u32::MAX
        &&& forall|i: int| 0 <= i < vertices.len() ==> vertices[i].primitive_id < primitives.len()
        &&& forall|i: int| 0 <= i < indices.len() ==> indices[i] < vertices.len()
    }

    pub closed spec fn wf(&self) -> bool {
        &&& affine_bounded(self.cur_transform@)
        &&& forall|i: int|
            0 <= i < self.state_stack@.len() ==> affine_bounded(
                #[trigger] self.state_stack@[i].transform@,
            )
        &&& Self::chain_ok(self.model())
        &&& clip_total(self.model().frames) <= self.clip_stack@.len()
        &&& Self::geometry_ok(self.primitives@, self.vertices@, self.indices@)
        &&& self.images.wf()
    }

    /// What this frame has acquired and queued.
    pub closed spec fn frame_state(&self) -> FrameState {
        self.frame
    }

    /// The vector images cached for replay.
    pub closed spec fn image_cache(&self) -> ImageCache {
        self.images
    }

    pub fn new() -> (c: WgpuRenderContext)
        ensures
            c.wf(),
            c.model() == (StackModel { cur: identity_model(), frames: seq![], clips: seq![] }),
            c.prims().len() == 0,
            c.verts().len() == 0,
            c.idxs().len() == 0,
            c.image_cache().entries().len() == 0,
            c.frame_state() == FrameState::new_spec(),
    {
        let c = WgpuRenderContext {
            cur_transform: Affine::identity(),
            state_stack: Vec::new(),
            clip_stack: Vec::new(),
            primitives: Vec::new(),
            vertices: Vec::new(),
            indices: Vec::new(),
            images: ImageCache::new(),
            frame: FrameState::new(),
        };
        assert(c.model().frames =~= seq![]);
        c
    }

    /// The transform now in effect.
    pub fn current_transform(&self) -> (t: Affine)
        ensures
            t@ == self.model().cur,
    {
        self.cur_transform
    }

    /// The clip that new primitives are tagged with: the last one pushed.
    pub fn current_clip(&self) -> (r: Option<Rect>)
        ensures
            r == current_clip_of(self.model()),
    {
        let n = self.clip_stack.len();
        if n > 0 {
            Some(self.clip_stack[n - 1])
        } else {
            None
        }
    }

    /// Number of active clip rectangles.
    pub fn clip_depth(&self) -> (n: usize)
        ensures
            n == self.model().clips.len(),
    {
        self.clip_stack.len()
    }

    /// Number of open `save` scopes.
    pub fn save_depth(&self) -> (n: usize)
        ensures
            n == self.model().frames.len(),
    {
        self.state_stack.len()
    }

    fn add_primitive(&mut self)
        requires
            old(self).wf(),
            old(self).prims().len() < u32::MAX,
        ensures
            final(self).wf(),
            final(self).model() == old(self).model(),
            final(self).prims() == old(self).prims().push(state_record(old(self).model())),
            final(self).verts() == old(self).verts(),
            final(self).idxs() == old(self).idxs(),
    {
        let n = self.clip_stack.len();
        let clip = n > 0;
        let clip_rect = if n > 0 {
            self.clip_stack[n - 1]
        } else {
            Rect { x0: 0, y0: 0, x1: 0, y1: 0 }
        };
        self.primitives.push(
            Primitive {
                translate_x: self.cur_transform.tx,
                translate_y: self.cur_transform.ty,
                transform: Affine::identity(),
                transform_den: 1,
                clip,
                clip_rect,
                blur_radius: 0,
                blur_rect: Rect { x0: 0, y0: 0, x1: 0, y1: 0 },
            },
        );
        assert(self.model() == old(self).model());
        assert forall|i: int| 0 <= i < self.vertices@.len() implies self.vertices@[i].primitive_id
            < self.primitives@.len() by {
            assert(old(self).verts()[i].primitive_id < old(self).prims().len());
        }
    }

    /// Pushes a scope that remembers the current transform.
    pub fn save(&mut self) -> (r: Result<(), RenderError>)
        requires
            old(self).wf(),
        ensures
            final(self).wf(),
            r == Ok::<(), RenderError>(()),
            final(self).model() == save_model(old(self).model()),
            final(self).prims() == old(self).prims(),
            final(self).verts() == old(self).verts(),
            final(self).idxs() == old(self).idxs(),
    {
        let ghost s0 = self.model();
        self.state_stack.push(
            State { rel_transform: Ghost(identity_model()), transform: self.cur_transform, n_clip: 0 },
        );
        proof {
            lemma_compose_identity(self.cur_transform@);
            assert(self.model().frames =~= s0.frames.push(
                FrameModel { transform: s0.cur, rel: identity_model(), n_clip: 0 },
            ));
            assert(self.model().frames.drop_last() =~= s0.frames);
        }
        Ok(())
    }

    /// Pops the top scope: the transform saved there comes back, the clips
    /// pushed during it are popped, and a primitive records the new state. On
    /// an empty stack nothing changes and `StackUnbalanced` is returned.
    pub fn restore(&mut self) -> (r: Result<(), RenderError>)
        requires
            old(self).wf(),
            old(self).model().frames.len() > 0 ==> old(self).prims().len() < u32::MAX,
        ensures
            final(self).wf(),
            old(self).model().frames.len() == 0 ==> r == Err::<(), RenderError>(
                RenderError::StackUnbalanced,
            ) && *final(self) == *old(self),
            old(self).model().frames.len() > 0 ==> r == Ok::<(), RenderError>(())
                && final(self).model() == restore_model(old(self).model())
                && final(self).prims() == old(self).prims().push(
                state_record(final(self).model()),
            ),
            final(self).verts() == old(self).verts(),
            final(self).idxs() == old(self).idxs(),
    {
        if self.state_stack.len() == 0 {
            return Err(RenderError::StackUnbalanced);
        }
        let ghost s0 = self.model();
        assert(s0.frames.len() == self.state_stack@.len());
        let state = self.state_stack.pop().unwrap();
        assert(self.model().frames =~= s0.frames.drop_last());
        self.cur_transform = state.transform;
        let n_clip = state.n_clip;
        let ghost clips0 = self.clip_stack@;
        let ghost stack1 = self.state_stack@;
        proof {
            assert(s0.frames.last() == frame_of(state));
            assert(clip_total(s0.frames) == clip_total(s0.frames.drop_last())
                + s0.frames.last().n_clip);
        }
        let mut i: usize = 0;
        while i < n_clip
            invariant
                0 <= i <= n_clip,
                n_clip <= clips0.len(),
                self.clip_stack@ == clips0.take(clips0.len() - i),
                self.cur_transform == state.transform,
                self.state_stack@ == stack1,
                self.primitives@ == old(self).primitives@,
                self.vertices@ == old(self).vertices@,
                self.indices@ == old(self).indices@,
                self.images == old(self).images,
            decreases n_clip - i,
        {
            self.clip_stack.pop();
            i = i + 1;
            assert(self.clip_stack@ =~= clips0.take(clips0.len() - i));
        }
        assert(self.clip_stack@ =~= clips0.take(clips0.len() - i));
        assert(self.model().cur == restore_model(s0).cur);
        assert(self.model().frames == restore_model(s0).frames);
        assert(self.model().clips == restore_model(s0).clips);
        assert(self.model() == restore_model(s0));
        assert(clip_total(s0.frames) == clip_total(s0.frames.drop_last()) + s0.frames.last().n_clip);
        self.add_primitive();
        Ok(())
    }

    /// Composes `t` into the current transform and into the top scope's
    /// relative transform, then records the new state.
    pub fn transform(&mut self, t: Affine)
        requires
            old(self).wf(),
            old(self).prims().len() < u32::MAX,
            affine_bounded(t@),
            affine_bounded(compose(old(self).model().cur, t@)),
        ensures
            final(self).wf(),
            final(self).model() == transform_model(old(self).model(), t@),
            final(self).prims() == old(self).prims().push(
                state_record(final(self).model()),
            ),
            final(self).verts() == old(self).verts(),
            final(self).idxs() == old(self).idxs(),
    {
        let ghost s0 = self.model();
        let n = self.state_stack.len();
        if n > 0 {
            let top = self.state_stack.pop().unwrap();
            proof {
                lemma_compose_assoc(top.transform@, top.rel_transform@, t@);
            }
            self.state_stack.push(
                State {
                    rel_transform: Ghost(compose(top.rel_transform@, t@)),
                    transform: top.transform,
                    n_clip: top.n_clip,
                },
            );
        }
        self.cur_transform = self.cur_transform.then_apply(&t);
        assert(self.model().frames =~= transform_model(s0, t@).frames);
        assert(self.model() == transform_model(s0, t@));
        proof {
            if n > 0 {
                assert(self.model().frames.drop_last() =~= s0.frames.drop_last());
            }
        }
        self.add_primitive();
    }

    /// Maps the rectangle's corners by the current transform, pushes it as the active
    /// clip, counts it against the top scope and records the new state. Shapes
    /// other than rectangles, and rectangles out of range, change nothing.
    pub fn clip(&mut self, shape: &Shape)
        requires
            old(self).wf(),
            clip_applies(*shape) ==> old(self).prims().len() < u32::MAX,
        ensures
            final(self).wf(),
            match *shape {
                Shape::Rect(r) => r.bounded(),
                _ => false,
            } ==> match *shape {
                Shape::Rect(r) => final(self).model() == clip_model(old(self).model(), r)
                    && final(self).prims() == old(self).prims().push(
                    state_record(final(self).model()),
                ),
                _ => true,
            },
            !match *shape {
                Shape::Rect(r) => r.bounded(),
                _ => false,
            } ==> *final(self) == *old(self),
            final(self).verts() == old(self).verts(),
            final(self).idxs() == old(self).idxs(),
    {
        match shape {
            Shape::Rect(r) => {
                if r.is_bounded() {
                    self.push_clip(r);
                }
            },
            _ => {},
        }
    }

    fn push_clip(&mut self, r: &Rect)
        requires
            old(self).wf(),
            old(self).prims().len() < u32::MAX,
            r.bounded(),
        ensures
            final(self).wf(),
            final(self).model() == clip_model(old(self).model(), *r),
            final(self).prims() == old(self).prims().push(state_record(final(self).model())),
            final(self).verts() == old(self).verts(),
            final(self).idxs() == old(self).idxs(),
    {
        let ghost s0 = self.model();
        let m = self.cur_transform;
        proof {
            lemma_product_fits(r.x0 as int, m.xx as int, 1073741824);
            lemma_product_fits(r.y0 as int, m.xy as int, 1073741824);
            lemma_product_fits(r.x0 as int, m.yx as int, 1073741824);
            lemma_product_fits(r.y0 as int, m.yy as int, 1073741824);
            lemma_product_fits(r.x1 as int, m.xx as int, 1073741824);
            lemma_product_fits(r.y1 as int, m.xy as int, 1073741824);
            lemma_product_fits(r.x1 as int, m.yx as int, 1073741824);
            lemma_product_fits(r.y1 as int, m.yy as int, 1073741824);
        }
        let moved = Rect {
            x0: m.xx * r.x0 + m.xy * r.y0 + m.tx,
            y0: m.yx * r.x0 + m.yy * r.y0 + m.ty,
            x1: m.xx * r.x1 + m.xy * r.y1 + m.tx,
            y1: m.yx * r.x1 + m.yy * r.y1 + m.ty,
        };
        self.clip_stack.push(moved);
        let len = self.clip_stack.len();
        let n = self.state_stack.len();
        if n > 0 {
            let top = self.state_stack.pop().unwrap();
            proof {
                assert(s0.frames.last() == frame_of(top));
                assert(clip_total(s0.frames) == clip_total(s0.frames.drop_last())
                    + s0.frames.last().n_clip);
            }
            self.state_stack.push(
                State {
                    rel_transform: top.rel_transform,
                    transform: top.transform,
                    n_clip: top.n_clip + 1,
                },
            );
            proof {
                assert(self.model().frames.drop_last() =~= s0.frames.drop_last());
            }
        }
        assert(self.model().frames =~= clip_model(s0, *r).frames);
        assert(self.model() == clip_model(s0, *r));
        self.add_primitive();
    }

    /// Makes sure the table holds a record to tag geometry with; the id of the
    /// last record is returned.
    fn ensure_primitive(&mut self) -> (id: u32)
        requires
            old(self).wf(),
            old(self).prims().len() < u32::MAX,
        ensures
            final(self).wf(),
            final(self).model() == old(self).model(),
            final(self).prims() == ensured_table(old(self).prims(), old(self).model()),
            id == final(self).prims().len() - 1,
            final(self).verts() == old(self).verts(),
            final(self).idxs() == old(self).idxs(),
    {
        if self.primitives.len() == 0 {
            self.add_primitive();
            assert(self.primitives@ =~= seq![state_record(old(self).model())]);
        }
        (self.primitives.len() - 1) as u32
    }

    /// Appends a mesh with every vertex tagged `id` and colored `color`, its
    /// indices moved past the existing vertices; nothing where the batch would
    /// outgrow 32-bit indices.
    pub fn append_mesh(&mut self, pts: &Vec<(i64, i64)>, idx: &Vec<u32>, color: Color, id: u32) -> (done: bool)
        requires
            old(self).wf(),
            mesh_ok(pts@.len(), idx@),
            id < old(self).prims().len(),
        ensures
            final(self).wf(),
            final(self).model() == old(self).model(),
            final(self).prims() == old(self).prims(),
            done == (old(self).verts().len() + pts@.len() <= u32::MAX),
            done ==> final(self).verts() == old(self).verts() + mesh_vertices(pts@, color, id)
                && final(self).idxs() == old(self).idxs() + offset_indices(
                idx@,
                old(self).verts().len(),
            ),
            !done ==> final(self).verts() == old(self).verts() && final(self).idxs() == old(
                self,
            ).idxs(),
    {
        let base = self.vertices.len();
        if pts.len() > (u32::MAX as usize) - base {
            return false;
        }
        let ghost v0 = self.vertices@;
        let ghost i0 = self.indices@;
        let mut k: usize = 0;
        while k < pts.len()
            invariant
                k <= pts@.len(),
                base == v0.len(),
                base + pts@.len() <= u32::MAX,
                self.vertices@ == v0 + mesh_vertices(pts@.take(k as int), color, id),
                self.indices@ == i0,
                self.primitives@ == old(self).primitives@,
                self.cur_transform == old(self).cur_transform,
                self.state_stack@ == old(self).state_stack@,
                self.clip_stack@ == old(self).clip_stack@,
                self.images == old(self).images,
            decreases pts@.len() - k,
        {
            let p = pts[k];
            self.vertices.push(
                Vertex { x: p.0, y: p.1, translate_x: 0, translate_y: 0, color, primitive_id: id },
            );
            k = k + 1;
            assert(pts@.take(k as int) =~= pts@.take(k - 1).push(p));
            assert(self.vertices@ =~= v0 + mesh_vertices(pts@.take(k as int), color, id));
        }
        assert(pts@.take(k as int) =~= pts@);
        let mut j: usize = 0;
        while j < idx.len()
            invariant
                j <= idx@.len(),
                base == v0.len(),
                base + pts@.len() <= u32::MAX,
                mesh_ok(pts@.len(), idx@),
                self.vertices@ == v0 + mesh_vertices(pts@, color, id),
                self.indices@ == i0 + offset_indices(idx@.take(j as int), base as nat),
                self.primitives@ == old(self).primitives@,
                self.cur_transform == old(self).cur_transform,
                self.state_stack@ == old(self).state_stack@,
                self.clip_stack@ == old(self).clip_stack@,
                self.images == old(self).images,
            decreases idx@.len() - j,
        {
            let i = idx[j];
            assert(i < pts@.len());
            self.indices.push(i + base as u32);
            j = j + 1;
            assert(idx@.take(j as int) =~= idx@.take(j - 1).push(i));
            assert(self.indices@ =~= i0 + offset_indices(idx@.take(j as int), base as nat));
        }
        assert(idx@.take(j as int) =~= idx@);
        assert(self.model() == old(self).model());
        assert forall|q: int| 0 <= q < self.indices@.len() implies self.indices@[q]
            < self.vertices@.len() by {
            if q >= i0.len() {
                assert(idx@[q - i0.len()] < pts@.len());
            }
        }
        assert forall|q: int| 0 <= q < self.vertices@.len() implies self.vertices@[q].primitive_id
            < self.primitives@.len() by {
            if q < v0.len() {
                assert(self.vertices@[q] == v0[q]);
            }
        }
        true
    }

    /// Fills a rectangle, in range, with two triangles over its four corners,
    /// tagged with the last primitive record (one describing the current state
    /// is added first where the table is empty). Other shapes change nothing.
    pub fn fill(&mut self, shape: &Shape, brush: &Brush)
        requires
            old(self).wf(),
            fill_applies(*shape, old(self).verts().len()) ==> old(self).prims().len() < u32::MAX,
        ensures
            final(self).wf(),
            final(self).model() == old(self).model(),
            match *shape {
                Shape::Rect(r) => r.bounded() && old(self).verts().len() + 4 <= u32::MAX,
                _ => false,
            } ==> match (*shape, *brush) {
                (Shape::Rect(r), Brush::Solid(color)) => final(self).prims() == ensured_table(
                    old(self).prims(),
                    old(self).model(),
                ) && final(self).verts() == old(self).verts() + mesh_vertices(
                    rect_corners(r),
                    color,
                    (final(self).prims().len() - 1) as u32,
                ) && final(self).idxs() == old(self).idxs() + offset_indices(
                    seq![0u32, 1, 2, 0, 2, 3],
                    old(self).verts().len(),
                ),
                _ => true,
            },
            !match *shape {
                Shape::Rect(r) => r.bounded() && old(self).verts().len() + 4 <= u32::MAX,
                _ => false,
            } ==> *final(self) == *old(self),
    {
        match shape {
            Shape::Rect(r) => {
                if r.is_bounded() && self.vertices.len() <= (u32::MAX as usize) - 4 {
                    let color = match brush {
                        Brush::Solid(c) => *c,
                    };
                    let id = self.ensure_primitive();
                    let (pts, idx) = fill_rect_mesh(
                        r.x0,
                        r.y0,
                        r.x1 - r.x0,
                        r.y1 - r.y0,
                        TOLERANCE,
                    );
                    assert(pts@ =~= rect_corners(*r));
                    let _ = self.append_mesh(&pts, &idx, color, id);
                }
            },
            _ => {},
        }
    }

    /// Custom passes queued this frame.
    pub fn pending_passes(&self) -> (n: usize)
        ensures
            n == self.frame_state().pending_passes,
    {
        self.frame.pending_passes
    }

    /// Whether the target surface still has to be acquired this frame.
    pub fn view_needed(&self) -> (b: bool)
        ensures
            b == !self.frame_state().view_acquired,
    {
        self.frame.view_needed()
    }

    /// Takes the outcome of acquiring the surface (see `FrameState::view_result`).
    pub fn view_result(&mut self, acquired: bool) -> (r: Result<(), RenderError>)
        requires
            old(self).wf(),
        ensures
            final(self).wf(),
            final(self).model() == old(self).model(),
            final(self).prims() == old(self).prims(),
            final(self).verts() == old(self).verts(),
            final(self).idxs() == old(self).idxs(),
            acquired ==> r is Ok && final(self).frame_state() == (FrameState {
                view_acquired: true,
                ..old(self).frame_state()
            }),
            !acquired ==> r == Err::<(), RenderError>(RenderError::SurfaceUnavailable)
                && *final(self) == *old(self),
    {
        self.frame.view_result(acquired)
    }

    /// Records a finished custom pass, submitted after the main draw.
    pub fn custom_pass_queued(&mut self)
        requires
            old(self).wf(),
            old(self).frame_state().view_acquired,
            old(self).frame_state().pending_passes < usize::MAX,
        ensures
            final(self).wf(),
            final(self).model() == old(self).model(),
            final(self).prims() == old(self).prims(),
            final(self).verts() == old(self).verts(),
            final(self).idxs() == old(self).idxs(),
            final(self).frame_state() == (FrameState {
                pending_passes: (old(self).frame_state().pending_passes + 1) as usize,
                ..old(self).frame_state()
            }),
    {
        self.frame.pass_queued();
    }

    /// The outside work of `finish`: the main draw where the primitive table
    /// holds anything, the queued custom passes, one present, the recall.
    pub fn finish_plan(&self) -> (steps: Vec<FrameStep>)
        requires
            self.frame_state().view_acquired,
        ensures
            steps@ == finish_steps(self.prims().len() > 0, self.frame_state().pending_passes),
    {
        self.frame.finish_plan(self.primitives.len() > 0)
    }

    /// After present: the view is dropped and nothing is queued.
    pub fn end_frame(&mut self)
        requires
            old(self).wf(),
        ensures
            final(self).wf(),
            final(self).model() == old(self).model(),
            final(self).prims() == old(self).prims(),
            final(self).verts() == old(self).verts(),
            final(self).idxs() == old(self).idxs(),
            final(self).frame_state() == FrameState::new_spec(),
    {
        self.frame.end_frame();
    }

    /// Caches a well-formed image under a new identity (see `ImageCache::insert`).
    pub fn cache_image(&mut self, id: u64, image: CachedImage) -> (added: bool)
        requires
            old(self).wf(),
        ensures
            final(self).wf(),
            final(self).model() == old(self).model(),
            final(self).prims() == old(self).prims(),
            final(self).verts() == old(self).verts(),
            final(self).idxs() == old(self).idxs(),
            added == (!old(self).image_cache().has(id) && image.wf()),
            added ==> final(self).image_cache().entries() == old(
                self,
            ).image_cache().entries().push((id, image)),
            !added ==> final(self).image_cache().entries() == old(self).image_cache().entries(),
    {
        let r = self.images.insert(id, image);
        proof {
            if !r {
                assert(self.images.entries() =~= old(self).images.entries());
            }
        }
        r
    }

    pub fn images(&self) -> (r: &ImageCache)
        ensures
            *r == self.image_cache(),
    {
        &self.images
    }

    /// The record of the current state.
    fn state_primitive(&self) -> (p: Primitive)
        ensures
            p == state_record(self.model()),
    {
        let n = self.clip_stack.len();
        Primitive {
            translate_x: self.cur_transform.tx,
            translate_y: self.cur_transform.ty,
            transform: Affine::identity(),
            transform_den: 1,
            clip: n > 0,
            clip_rect: if n > 0 {
                self.clip_stack[n - 1]
            } else {
                Rect { x0: 0, y0: 0, x1: 0, y1: 0 }
            },
            blur_radius: 0,
            blur_rect: Rect { x0: 0, y0: 0, x1: 0, y1: 0 },
        }
    }

    /// Replays the image cached under `id` into `rect`, scaled uniformly to fit:
    /// one record per transform variant and one for the image itself, then its
    /// vertices moved to the rectangle's origin, retagged past the table's old
    /// length and optionally recolored, and its indices moved past the batch's
    /// vertices. The cache is left as it is. Nothing changes where the image is
    /// not cached, the rectangle is out of range or the batch has no room.
    pub fn draw_svg(&mut self, id: u64, rect: Rect, override_color: Option<Color>)
        requires
            old(self).wf(),
        ensures
            final(self).wf(),
            final(self).model() == old(self).model(),
            final(self).image_cache() == old(self).image_cache(),
            svg_applies(*old(self), id, rect) ==> final(self).prims() == old(self).prims()
                + image_records(
                old(self).model(),
                old(self).image_cache().entry(id),
                rect,
            ) && final(self).verts() == old(self).verts() + image_vertices(
                old(self).image_cache().entry(id),
                rect,
                old(self).prims().len(),
                override_color,
            ) && final(self).idxs() == old(self).idxs() + offset_indices(
                old(self).image_cache().entry(id).indices@,
                old(self).verts().len(),
            ),
            !svg_applies(*old(self), id, rect) ==> *final(self) == *old(self),
    {
        if !rect.is_bounded() {
            return;
        }
        let img = match self.images.get(id) {
            Some(i) => i,
            None => {
                return;
            },
        };
        let base = self.primitives.len();
        let vbase = self.vertices.len();
        if img.transforms.len() >= (u32::MAX as usize) - base || img.vertices.len() > (u32::MAX as usize) - vbase {
            return;
        }
        proof {
            assert(self.images.entries()[choose|i: int| 0 <= i < self.images.entries().len() && (#[trigger] self.images.entries()[i]).0 == id].1.wf());
        }
        let ghost s0 = self.model();
        let ghost p0 = self.primitives@;
        let ghost v0 = self.vertices@;
        let ghost i0 = self.indices@;
        let rec = self.state_primitive();
        let w = rect.x1 - rect.x0;
        let h = rect.y1 - rect.y0;
        let vw = img.view_box.x1 - img.view_box.x0;
        let vh = img.view_box.y1 - img.view_box.y0;
        proof {
            lemma_product_fits(w as int, vh as int, 8388608);
            lemma_product_fits(h as int, vw as int, 8388608);
        }
        let scale: (i64, i64) = if w * vh <= h * vw {
            (w, vw)
        } else {
            (h, vh)
        };
        assert(scale == svg_scale(img.view_box, rect));
        let mut k: usize = 0;
        while k < img.transforms.len()
            invariant
                k <= img.transforms@.len(),
                img.wf(),
                -8388608 <= scale.0 <= 8388608,
                scale == svg_scale(img.view_box, rect),
                rec == state_record(s0),
                self.primitives@ == p0 + img.transforms@.take(k as int).map_values(
                    |t: Affine| variant_record(s0, scale, t),
                ),
                self.vertices@ == v0,
                self.indices@ == i0,
                self.model() == s0,
                self.images == old(self).images,
                self.cur_transform == old(self).cur_transform,
                self.state_stack@ == old(self).state_stack@,
                self.clip_stack@ == old(self).clip_stack@,
            decreases img.transforms@.len() - k,
        {
            let t = img.transforms[k];
            assert(affine_bounded(img.transforms@[k as int]@));
            proof {
                lemma_product_fits(scale.0 as int, t.xx as int, 1073741824);
                lemma_product_fits(scale.0 as int, t.yy as int, 1073741824);
                lemma_product_fits(scale.0 as int, t.tx as int, 1073741824);
                lemma_product_fits(scale.0 as int, t.ty as int, 1073741824);
            }
            self.primitives.push(
                Primitive {
                    transform: Affine {
                        xx: scale.0 * t.xx,
                        yx: 0,
                        xy: 0,
                        yy: scale.0 * t.yy,
                        tx: scale.0 * t.tx,
                        ty: scale.0 * t.ty,
                    },
                    transform_den: scale.1,
                    ..rec
                },
            );
            k = k + 1;
            assert(img.transforms@.take(k as int) =~= img.transforms@.take(k - 1).push(t));
            assert(self.primitives@ =~= p0 + img.transforms@.take(k as int).map_values(
                |t: Affine| variant_record(s0, scale, t),
            ));
        }
        self.primitives.push(rec);
        assert(img.transforms@.take(k as int) =~= img.transforms@);
        assert(self.primitives@ =~= p0 + image_records(s0, *img, rect));
        let mut j: usize = 0;
        while j < img.vertices.len()
            invariant
                j <= img.vertices@.len(),
                img.wf(),
                base == p0.len(),
                vbase == v0.len(),
                base + img.transforms@.len() + 1 <= u32::MAX,
                vbase + img.vertices@.len() <= u32::MAX,
                self.primitives@.len() == base + img.transforms@.len() + 1,
                self.primitives@ == p0 + image_records(s0, *img, rect),
                self.vertices@ == v0 + image_vertices_upto(*img, rect, base as nat, override_color, j as int),
                self.indices@ == i0,
                self.images == old(self).images,
                self.cur_transform == old(self).cur_transform,
                self.state_stack@ == old(self).state_stack@,
                self.clip_stack@ == old(self).clip_stack@,
            decreases img.vertices@.len() - j,
        {
            let v = img.vertices[j];
            assert(img.vertices@[j as int].primitive_id <= img.transforms@.len());
            let color = match override_color {
                Some(c) => c,
                None => v.color,
            };
            self.vertices.push(
                Vertex {
                    x: v.x,
                    y: v.y,
                    translate_x: rect.x0,
                    translate_y: rect.y0,
                    color,
                    primitive_id: base as u32 + v.primitive_id,
                },
            );
            j = j + 1;
            assert(self.vertices@ =~= v0 + image_vertices_upto(*img, rect, base as nat, override_color, j as int));
        }
        assert(image_vertices_upto(*img, rect, base as nat, override_color, j as int) =~= image_vertices(*img, rect, base as nat, override_color));
        let mut m: usize = 0;
        while m < img.indices.len()
            invariant
                m <= img.indices@.len(),
                img.wf(),
                vbase == v0.len(),
                vbase + img.vertices@.len() <= u32::MAX,
                self.vertices@.len() == vbase + img.vertices@.len(),
                self.indices@ == i0 + offset_indices(img.indices@.take(m as int), vbase as nat),
                self.images == old(self).images,
                self.primitives@ == p0 + image_records(s0, *img, rect),
                self.vertices@ == v0 + image_vertices(*img, rect, base as nat, override_color),
                self.cur_transform == old(self).cur_transform,
                self.state_stack@ == old(self).state_stack@,
                self.clip_stack@ == old(self).clip_stack@,
            decreases img.indices@.len() - m,
        {
            let i = img.indices[m];
            assert(img.indices@[m as int] < img.vertices@.len());
            self.indices.push(i + vbase as u32);
            m = m + 1;
            assert(img.indices@.take(m as int) =~= img.indices@.take(m - 1).push(i));
            assert(self.indices@ =~= i0 + offset_indices(img.indices@.take(m as int), vbase as nat));
        }
        assert(img.indices@.take(m as int) =~= img.indices@);
        assert(self.model() == s0);
        assert forall|q: int| 0 <= q < self.indices@.len() implies self.indices@[q]
            < self.vertices@.len() by {
            if q >= i0.len() {
                assert(img.indices@[q - i0.len()] < img.vertices@.len());
            }
        }
        assert forall|q: int| 0 <= q < self.vertices@.len() implies self.vertices@[q].primitive_id
            < self.primitives@.len() by {
            if q < v0.len() {
                assert(self.vertices@[q] == v0[q]);
            } else {
                assert(img.vertices@[q - v0.len()].primitive_id <= img.transforms@.len());
            }
        }
    }

    /// A solid brush of `color`.
    pub fn solid_brush(&self, color: Color) -> (b: Brush)
        ensures
            b == Brush::Solid(color),
    {
        Brush::Solid(color)
    }

    /// Gradients are accepted but not implemented.
    pub fn gradient(&mut self) -> (r: Result<Brush, RenderError>)
        ensures
            r == Err::<Brush, RenderError>(RenderError::Unsupported),
            *final(self) == *old(self),
    {
        Err(RenderError::Unsupported)
    }

    /// Raster images are not implemented.
    pub fn make_image(&mut self, width: usize, height: usize, buf: &Vec<u8>) -> (r: Result<
        WgpuImage,
        RenderError,
    >)
        ensures
            r is Err && r->Err_0 == RenderError::Unsupported,
            *final(self) == *old(self),
    {
        Err(RenderError::Unsupported)
    }

    /// Capturing an area is not implemented.
    pub fn capture_image_area(&mut self, src_rect: Rect) -> (r: Result<WgpuImage, RenderError>)
        ensures
            r is Err && r->Err_0 == RenderError::Unsupported,
            *final(self) == *old(self),
    {
        Err(RenderError::Unsupported)
    }

    /// Even-odd fills are accepted and draw nothing.
    pub fn fill_even_odd(&mut self, shape: &Shape, brush: &Brush)
        ensures
            *final(self) == *old(self),
    {
    }

    /// Styled strokes are accepted and draw nothing.
    pub fn stroke_styled(&mut self, shape: &Shape, brush: &Brush, width: i64)
        ensures
            *final(self) == *old(self),
    {
    }

    /// Strokes the outline at `width` with round caps and joins; every new
    /// vertex is tagged with the last primitive record (one describing the
    /// current state is added first where the table is empty). Shapes out of
    /// range, malformed paths and widths out of range change nothing.
    pub fn stroke(&mut self, shape: &Shape, brush: &Brush, width: i64)
        requires
            old(self).wf(),
            stroke_applies(*shape, width) ==> old(self).prims().len() < u32::MAX,
        ensures
            final(self).wf(),
            final(self).model() == old(self).model(),
            stroke_applies(*shape, width) ==> mesh_ok(
                stroke_mesh_of(*shape, width).0.len(),
                stroke_mesh_of(*shape, width).1,
            ),
            stroke_applies(*shape, width) ==> match *brush {
                Brush::Solid(color) => final(self).prims() == ensured_table(
                    old(self).prims(),
                    old(self).model(),
                ) && (old(self).verts().len() + stroke_mesh_of(*shape, width).0.len() <= u32::MAX
                    ==> final(self).verts() == old(self).verts() + mesh_vertices(
                    stroke_mesh_of(*shape, width).0,
                    color,
                    (final(self).prims().len() - 1) as u32,
                ) && final(self).idxs() == old(self).idxs() + offset_indices(
                    stroke_mesh_of(*shape, width).1,
                    old(self).verts().len(),
                )) && (old(self).verts().len() + stroke_mesh_of(*shape, width).0.len() > u32::MAX
                    ==> final(self).verts() == old(self).verts() && final(self).idxs() == old(
                    self,
                ).idxs()),
            },
            !stroke_applies(*shape, width) ==> *final(self) == *old(self),
    {
        if width < 0 || width > COORD_MAX {
            return;
        }
        let color = match brush {
            Brush::Solid(c) => *c,
        };
        let mesh = match shape {
            Shape::Rect(r) => {
                if !r.is_bounded() {
                    return;
                }
                stroke_rect_mesh(r.x0, r.y0, r.x1 - r.x0, r.y1 - r.y0, width, TOLERANCE)
            },
            Shape::Line(x0, y0, x1, y1) => {
                if !(-COORD_MAX <= *x0 && *x0 <= COORD_MAX && -COORD_MAX <= *y0 && *y0 <= COORD_MAX
                    && -COORD_MAX <= *x1 && *x1 <= COORD_MAX && -COORD_MAX <= *y1 && *y1
                    <= COORD_MAX) {
                    return;
                }
                let mut sink = PathSink::new();
                sink.begin(*x0, *y0);
                sink.line_to(*x1, *y1);
                sink.end(true);
                let path = sink.finish();
                assert(path.events@ =~= line_events(*x0, *y0, *x1, *y1));
                assert(event_ok(path.events@[0]) && event_ok(path.events@[1]) && event_ok(path.events@[2]));
                stroke_path_mesh(&path, width, TOLERANCE)
            },
            Shape::Path(els) => {
                match build_path(els) {
                    Some(path) => stroke_path_mesh(&path, width, TOLERANCE),
                    None => {
                        return;
                    },
                }
            },
        };
        let id = self.ensure_primitive();
        let _ = self.append_mesh(&mesh.0, &mesh.1, color, id);
    }

    /// Fills `rect` grown by three times `radius` on each side, tagged with a
    /// record that holds the radius and the normalized rectangle for the
    /// shader's blur, then records the plain state again. Radii and rectangles
    /// whose grown rectangle is out of range change nothing.
    pub fn blurred_rect(&mut self, rect: Rect, radius: i64, brush: &Brush)
        requires
            old(self).wf(),
            old(self).prims().len() + 2 <= u32::MAX,
        ensures
            final(self).wf(),
            final(self).model() == old(self).model(),
            blur_applies(rect, radius, old(self).verts().len()) ==> match *brush {
                Brush::Solid(color) => final(self).prims() == old(self).prims().push(
                    blur_record(old(self).model(), rect, radius),
                ).push(state_record(old(self).model())) && final(self).verts() == old(
                    self,
                ).verts() + mesh_vertices(
                    rect_corners(inflated(rect, radius)),
                    color,
                    old(self).prims().len() as u32,
                ) && final(self).idxs() == old(self).idxs() + offset_indices(
                    seq![0u32, 1, 2, 0, 2, 3],
                    old(self).verts().len(),
                ),
            },
            !blur_applies(rect, radius, old(self).verts().len()) ==> *final(self) == *old(self),
    {
        if radius < -COORD_MAX || radius > COORD_MAX || !rect.is_bounded() {
            return;
        }
        let core = Rect {
            x0: if rect.x0 <= rect.x1 { rect.x0 } else { rect.x1 },
            y0: if rect.y0 <= rect.y1 { rect.y0 } else { rect.y1 },
            x1: if rect.x0 <= rect.x1 { rect.x1 } else { rect.x0 },
            y1: if rect.y0 <= rect.y1 { rect.y1 } else { rect.y0 },
        };
        let grown = Rect {
            x0: core.x0 - 3 * radius,
            y0: core.y0 - 3 * radius,
            x1: core.x1 + 3 * radius,
            y1: core.y1 + 3 * radius,
        };
        if !grown.is_bounded() || self.vertices.len() > (u32::MAX as usize) - 4 {
            return;
        }
        let color = match brush {
            Brush::Solid(c) => *c,
        };
        self.add_primitive();
        let last = self.primitives.len() - 1;
        let mut record = self.primitives[last];
        record.blur_radius = radius;
        record.blur_rect = core;
        self.primitives.set(last, record);
        let id = last as u32;
        let (pts, idx) = fill_rect_mesh(
            grown.x0,
            grown.y0,
            grown.x1 - grown.x0,
            grown.y1 - grown.y0,
            TOLERANCE,
        );
        assert(pts@ =~= rect_corners(grown));
        let _ = self.append_mesh(&pts, &idx, color, id);
        self.add_primitive();
    }
}

/// The outline of a well-formed path in lyon's form; `None` for a malformed one.
fn build_path(els: &Vec<PathEl>) -> (r: Option<StrokePath>)
    ensures
        r is Some <==> path_ok(els@),
        r is Some ==> r->Some_0.events@ == path_events(els@) && events_ok(r->Some_0.events@),
{
    let mut sink = PathSink::new();
    let mut open = false;
    let mut i: usize = 0;
    while i < els.len()
        invariant
            i <= els@.len(),
            sink.open@ == open,
            open == open_after(els@, i as int),
            sink.events@ == events_after(els@, i as int),
            events_ok(sink.events@),
            forall|j: int| 0 <= j < i ==> el_ok(els@, j),
        decreases els@.len() - i,
    {
        let e = els[i];
        let ok = match e {
            PathEl::MoveTo(x, y) => -COORD_MAX <= x && x <= COORD_MAX && -COORD_MAX <= y && y
                <= COORD_MAX,
            PathEl::LineTo(x, y) => -COORD_MAX <= x && x <= COORD_MAX && -COORD_MAX <= y && y
                <= COORD_MAX,
            PathEl::QuadTo(a, b, x, y) => -COORD_MAX <= a && a <= COORD_MAX && -COORD_MAX <= b
                && b <= COORD_MAX && -COORD_MAX <= x && x <= COORD_MAX && -COORD_MAX <= y && y
                <= COORD_MAX,
            PathEl::CurveTo(a, b, c, d, x, y) => -COORD_MAX <= a && a <= COORD_MAX && -COORD_MAX
                <= b && b <= COORD_MAX && -COORD_MAX <= c && c <= COORD_MAX && -COORD_MAX <= d
                && d <= COORD_MAX && -COORD_MAX <= x && x <= COORD_MAX && -COORD_MAX <= y && y
                <= COORD_MAX,
            PathEl::ClosePath => true,
        };
        let starts = match e {
            PathEl::MoveTo(_, _) => true,
            _ => false,
        };
        if !ok || (!starts && !open) {
            assert(!el_ok(els@, i as int));
            return None;
        }
        match e {
            PathEl::MoveTo(x, y) => {
                if open {
                    sink.end(false);
                }
                sink.begin(x, y);
                open = true;
            },
            PathEl::LineTo(x, y) => {
                sink.line_to(x, y);
            },
            PathEl::QuadTo(a, b, x, y) => {
                sink.quadratic_bezier_to(a, b, x, y);
            },
            PathEl::CurveTo(a, b, c, d, x, y) => {
                sink.cubic_bezier_to(a, b, c, d, x, y);
            },
            PathEl::ClosePath => {
                sink.end(true);
                open = false;
            },
        }
        i = i + 1;
    }
    if open {
        sink.end(false);
    }
    Some(sink.finish())
}

} // verus!
