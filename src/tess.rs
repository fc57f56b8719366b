use vstd::prelude::*;
use lyon::lyon_tessellation::{
    BuffersBuilder, FillOptions, FillTessellator, FillVertex, StrokeOptions, StrokeTessellator,
    StrokeVertex, VertexBuffers,
};
use lyon::tessellation::{FillRule, LineCap, LineJoin};
use lyon::geom::euclid::default::{Point2D, Size2D};
use crate::geom::coord_ok;
use crate::context::TOLERANCE;

verus! {

#[verifier::external_type_specification]
#[verifier::external_body]
pub struct ExPathBuilder(lyon::path::path::Builder);

#[verifier::external_type_specification]
#[verifier::external_body]
pub struct ExPath(lyon::path::Path);

/// Every index names one of `n` vertices, three indices per triangle.
pub open spec fn mesh_ok(n: nat, indices: Seq<u32>) -> bool {
    indices.len() % 3 == 0 && forall|i: int| 0 <= i < indices.len() ==> (indices[i] as nat) < n
}

/// The four corners of the fill of the rectangle at `(x, y)` of size `(w, h)`,
/// in the order origin, bottom-left, bottom-right, top-right.
pub open spec fn fill_rect_points(x: i64, y: i64, w: i64, h: i64) -> Seq<(i64, i64)> {
    seq![(x, y), (x, (y + h) as i64), ((x + w) as i64, (y + h) as i64), ((x + w) as i64, y)]
}

/// Two triangles over the four corners.
pub open spec fn fill_rect_indices() -> Seq<u32> {
    seq![0u32, 1, 2, 0, 2, 3]
}

/// Relies on lyon's `FillTessellator::tessellate_rectangle` (basic_shapes::fill_rectangle):
/// the corners origin, bottom-left, bottom-right, top-right and the triangles
/// (0, 1, 2), (0, 2, 3), written into fresh buffers. Corners and sums of at most
/// 2^23 in magnitude are exact in single precision, so the conversions back are exact.
/// The tolerance is read from its decimal text; the fill of a rectangle ignores it.
#[verifier::external_body]
pub(crate) fn fill_rect_mesh(x: i64, y: i64, w: i64, h: i64, tolerance: &str) -> (r: (Vec<(i64, i64)>, Vec<u32>))
    requires
        -4194304 <= x <= 4194304,
        -4194304 <= y <= 4194304,
        -4194304 <= x + w <= 4194304,
        -4194304 <= y + h <= 4194304,
        -8388608 <= w <= 8388608,
        -8388608 <= h <= 8388608,
    ensures
        r.0@ == fill_rect_points(x, y, w, h),
        r.1@ == fill_rect_indices(),
{
    let mut buffers: VertexBuffers<lyon::math::Point, u32> = VertexBuffers::new();
    let options = FillOptions::tolerance(tolerance.parse().unwrap_or(FillOptions::DEFAULT_TOLERANCE)).with_fill_rule(FillRule::NonZero);
    let mut out = BuffersBuilder::new(&mut buffers, |v: FillVertex| v.position());
    let _ = FillTessellator::new().tessellate_rectangle(
        &lyon::math::Rect::new(Point2D::new(x, y).to_f32(), Size2D::new(w, h).to_f32()),
        &options,
        &mut out,
    );
    let points = buffers.vertices.iter().map(|p| p.to_i64().to_tuple()).collect();
    (points, buffers.indices)
}

/// One call made on lyon's path builder.
#[derive(Clone, Copy, Debug, PartialEq, Eq, Structural)]
pub enum PathEvent {
    Begin(i64, i64),
    Line(i64, i64),
    Quad(i64, i64, i64, i64),
    Cubic(i64, i64, i64, i64, i64, i64),
    End(bool),
}

pub open spec fn event_ok(e: PathEvent) -> bool {
    match e {
        PathEvent::Begin(x, y) => coord_ok(x as int) && coord_ok(y as int),
        PathEvent::Line(x, y) => coord_ok(x as int) && coord_ok(y as int),
        PathEvent::Quad(a, b, x, y) => coord_ok(a as int) && coord_ok(b as int) && coord_ok(
            x as int,
        ) && coord_ok(y as int),
        PathEvent::Cubic(a, b, c, d, x, y) => coord_ok(a as int) && coord_ok(b as int) && coord_ok(
            c as int,
        ) && coord_ok(d as int) && coord_ok(x as int) && coord_ok(y as int),
        PathEvent::End(_) => true,
    }
}

/// Every point of the events lies within `COORD_MAX`.
pub open spec fn events_ok(evs: Seq<PathEvent>) -> bool {
    forall|i: int| 0 <= i < evs.len() ==> event_ok(#[trigger] evs[i])
}

/// What lyon's stroke of the rectangle at `(x, y)` of size `(w, h)` gives, with
/// round caps and joins at the tolerance written as `tolerance`: vertex
/// positions, rounded to units, and indices.
pub uninterp spec fn stroke_rect_of(
    x: i64,
    y: i64,
    w: i64,
    h: i64,
    width: i64,
    tolerance: Seq<char>,
) -> (Seq<(i64, i64)>, Seq<u32>);

/// What lyon's stroke of the path built from `events` gives, as for
/// `stroke_rect_of`.
pub uninterp spec fn stroke_path_of(events: Seq<PathEvent>, width: i64, tolerance: Seq<char>) -> (
    Seq<(i64, i64)>,
    Seq<u32>,
);

/// Relies on lyon's `StrokeTessellator::tessellate_rectangle` with round caps and
/// joins at the tolerance given as decimal text (lyon's default where the text
/// is no number), written into fresh buffers. The result depends on the
/// arguments alone; the geometry builder adds triangles of three indices, each
/// naming a vertex added in this geometry, and discards everything on failure.
/// The tolerance is the library's (a positive one; zero or tiny ones make lyon's
/// round joins overflow or never finish). Each vertex is lyon's `position()`, rounded; within the bounds every
/// position is far inside the range of `i64`.
#[verifier::external_body]
pub(crate) fn stroke_rect_mesh(
    x: i64,
    y: i64,
    w: i64,
    h: i64,
    width: i64,
    tolerance: &str,
) -> (r: (Vec<(i64, i64)>, Vec<u32>))
    requires
        -4194304 <= x <= 4194304,
        -4194304 <= y <= 4194304,
        -4194304 <= x + w <= 4194304,
        -4194304 <= y + h <= 4194304,
        -8388608 <= w <= 8388608,
        -8388608 <= h <= 8388608,
        0 <= width <= 4194304,
        tolerance@ == TOLERANCE@,
    ensures
        r.0@ == stroke_rect_of(x, y, w, h, width, tolerance@).0,
        r.1@ == stroke_rect_of(x, y, w, h, width, tolerance@).1,
        mesh_ok(r.0@.len(), r.1@),
{
    let mut buffers: VertexBuffers<lyon::math::Point, u32> = VertexBuffers::new();
    let options = StrokeOptions::tolerance(tolerance.parse().unwrap_or(StrokeOptions::DEFAULT_TOLERANCE)).with_line_width(
        Size2D::new(width, width).to_f32().width,
    ).with_line_cap(
        LineCap::Round,
    ).with_line_join(LineJoin::Round);
    let mut out = BuffersBuilder::new(&mut buffers, |v: StrokeVertex| v.position());
    let _ = StrokeTessellator::new().tessellate_rectangle(
        &lyon::math::Rect::new(Point2D::new(x, y).to_f32(), Size2D::new(w, h).to_f32()),
        &options,
        &mut out,
    );
    let points = buffers.vertices.iter().map(|p| p.round().to_i64().to_tuple()).collect();
    (points, buffers.indices)
}

/// Relies on lyon's `StrokeTessellator::tessellate_path` with round caps and joins
/// at the tolerance given as decimal text, written into fresh buffers: as for the
/// rectangle, a function of the path's events, triangles of three indices naming
/// vertices of this geometry, nothing on failure, positions rounded.
#[verifier::external_body]
pub(crate) fn stroke_path_mesh(path: &StrokePath, width: i64, tolerance: &str) -> (r: (
    Vec<(i64, i64)>,
    Vec<u32>,
))
    requires
        events_ok(path.events@),
        0 <= width <= 4194304,
        tolerance@ == TOLERANCE@,
    ensures
        r.0@ == stroke_path_of(path.events@, width, tolerance@).0,
        r.1@ == stroke_path_of(path.events@, width, tolerance@).1,
        mesh_ok(r.0@.len(), r.1@),
{
    let mut buffers: VertexBuffers<lyon::math::Point, u32> = VertexBuffers::new();
    let options = StrokeOptions::tolerance(tolerance.parse().unwrap_or(StrokeOptions::DEFAULT_TOLERANCE)).with_line_width(
        Size2D::new(width, width).to_f32().width,
    ).with_line_cap(
        LineCap::Round,
    ).with_line_join(LineJoin::Round);
    let mut out = BuffersBuilder::new(&mut buffers, |v: StrokeVertex| v.position());
    let _ = StrokeTessellator::new().tessellate_path(&path.path, &options, &mut out);
    let points = buffers.vertices.iter().map(|p| p.round().to_i64().to_tuple()).collect();
    (points, buffers.indices)
}

/// A built lyon path, with the builder calls that made it.
pub(crate) struct StrokePath {
    pub(crate) path: lyon::path::Path,
    pub(crate) events: Ghost<Seq<PathEvent>>,
}

/// Relies on lyon's `Path::builder`: a builder with no sub-path open.
#[verifier::external_body]
fn new_path_builder() -> (b: lyon::path::path::Builder) {
    lyon::path::Path::builder()
}

/// A path under construction in lyon's builder, with the builder's own record of
/// whether a sub-path is open (its debug validator panics when that is misused)
/// and the calls made on it so far, in order.
pub(crate) struct PathSink {
    pub(crate) builder: lyon::path::path::Builder,
    pub(crate) open: Ghost<bool>,
    pub(crate) events: Ghost<Seq<PathEvent>>,
}

impl PathSink {
    pub(crate) fn new() -> (s: PathSink)
        ensures
            !s.open@,
            s.events@ == Seq::<PathEvent>::empty(),
    {
        PathSink { builder: new_path_builder(), open: Ghost(false), events: Ghost(Seq::empty()) }
    }

    /// Relies on lyon's `Builder::begin`: opens a sub-path at the point.
    #[verifier::external_body]
    pub(crate) fn begin(&mut self, x: i64, y: i64)
        requires
            !old(self).open@,
        ensures
            final(self).open@,
            final(self).events@ == old(self).events@.push(PathEvent::Begin(x, y)),
    {
        self.builder.begin(Point2D::new(x, y).to_f32());
    }

    /// Relies on lyon's `Builder::line_to`: an edge of the open sub-path.
    #[verifier::external_body]
    pub(crate) fn line_to(&mut self, x: i64, y: i64)
        requires
            old(self).open@,
        ensures
            final(self).open@,
            final(self).events@ == old(self).events@.push(PathEvent::Line(x, y)),
    {
        self.builder.line_to(Point2D::new(x, y).to_f32());
    }

    /// Relies on lyon's `Builder::quadratic_bezier_to`: an edge of the open sub-path.
    #[verifier::external_body]
    pub(crate) fn quadratic_bezier_to(&mut self, cx: i64, cy: i64, x: i64, y: i64)
        requires
            old(self).open@,
        ensures
            final(self).open@,
            final(self).events@ == old(self).events@.push(PathEvent::Quad(cx, cy, x, y)),
    {
        self.builder.quadratic_bezier_to(
            Point2D::new(cx, cy).to_f32(),
            Point2D::new(x, y).to_f32(),
        );
    }

    /// Relies on lyon's `Builder::cubic_bezier_to`: an edge of the open sub-path.
    #[verifier::external_body]
    pub(crate) fn cubic_bezier_to(&mut self, c1x: i64, c1y: i64, c2x: i64, c2y: i64, x: i64, y: i64)
        requires
            old(self).open@,
        ensures
            final(self).open@,
            final(self).events@ == old(self).events@.push(PathEvent::Cubic(c1x, c1y, c2x, c2y, x, y)),
    {
        self.builder.cubic_bezier_to(
            Point2D::new(c1x, c1y).to_f32(),
            Point2D::new(c2x, c2y).to_f32(),
            Point2D::new(x, y).to_f32(),
        );
    }

    /// Relies on lyon's `Builder::end`: ends the open sub-path, closing it or not.
    #[verifier::external_body]
    pub(crate) fn end(&mut self, close: bool)
        requires
            old(self).open@,
        ensures
            !final(self).open@,
            final(self).events@ == old(self).events@.push(PathEvent::End(close)),
    {
        self.builder.end(close);
    }

    /// The built path, carrying the calls that made it.
    pub(crate) fn finish(self) -> (p: StrokePath)
        requires
            !self.open@,
        ensures
            p.events@ == self.events@,
    {
        let events = self.events;
        StrokePath { path: self.build(), events }
    }

    /// Relies on lyon's `Builder::build`, which wants no sub-path open.
    #[verifier::external_body]
    pub(crate) fn build(self) -> (p: lyon::path::Path)
        requires
            !self.open@,
    {
        self.builder.build()
    }
}

} // verus!
