//! Shapes into triangles.
//!
//! The triangles come from the `lyon_tessellation` crate. Each function here
//! hands one shape to one of its tessellators, with an empty output of its
//! own, and gives back what the tessellator wrote: the positions of the
//! vertices and, three by three, the vertices of the triangles. A
//! tessellator is made anew for each call and takes its default options.
//!
//! Nothing here is proved, and next to nothing is claimed. The positions
//! are the work of floating-point arithmetic, and of `sin`, `cos`, `powf`,
//! `log2` and `hypot` where a shape is curved, so no function here says what
//! comes back; the geometry builder looks at what came back before it adds
//! it. The one exception is the filled rectangle, whose corners the
//! tessellator copies or adds up once.
//!
//! What each function asks of its arguments is what keeps the tessellator
//! running to its end, as its source shows:
//!
//! * Every number is finite.
//! * The fill of a circle takes the square of the radius to find its step,
//!   and does not return where the squares of the radius and of its double
//!   round to the same number; that cannot be from 2 to the power of -74
//!   on. It splits each quarter of the circle as often as the logarithm of
//!   the number of steps says, which grows with the root of the radius and
//!   stays below 30 while the radius is below 2 to the power of 58.
//! * Curves that are stroked are cut into segments, and the count of the
//!   segments is turned into a 32-bit number that must exist. The count of
//!   parts of a cubic curve is the sixth root of a square that must stay
//!   finite, and the count of segments of a part is at most half the root
//!   of ten times the distance of its control point from the middle of its
//!   ends; a count that is not finite is taken for zero. Both stay below
//!   2 to the power of 32 while the numbers of the curve stay below 2 to
//!   the power of 59. The functions for curves ask for 2 to the power of
//!   56: a circle of that radius takes about as many vertices as an index
//!   of 32 bits can name, and a larger one more than the tessellator can
//!   write.
//! * The stroke of straight edges, with the miter joins and butt caps of
//!   the default options, has no such count and no other way to stop.
//!
//! Shapes other than rectangles and circles are filled by a sweep over
//! their outline, and the sweep stops the program where it loses track of
//! its edges; no condition on a shape is known under which it cannot. So
//! the sweep is not run here. A rounded rectangle, an ellipse or a polygon
//! that is to be filled comes to the geometry builder with the triangles
//! that the caller's sweep has made of it.

use vstd::prelude::*;
use bytemuck::cast;
use lyon_tessellation::math::{point, rect, vector, Angle, Point};
use lyon_tessellation::path::builder::{BorderRadii as CornerRadii, Build, PathBuilder};
use lyon_tessellation::path::{Polygon, Winding};
use lyon_tessellation::{
    BuffersBuilder, FillOptions, FillTessellator, FillVertex, StrokeOptions, StrokeTessellator,
    StrokeVertex, TessellationError, VertexBuffers,
};
use crate::graphics::mesh::is_quad;
use crate::graphics::mesh::BorderRadii;
use crate::graphics::Rectangle;
use crate::math::Float;
use crate::math::Vec2;
use crate::TessellationFailure;

verus! {

/// The error of the tessellators of `lyon_tessellation`.
#[verifier::external_type_specification]
#[verifier::external_body]
pub struct ExTessellationError(TessellationError);

/// What a tessellator wrote for one shape: the positions of the vertices,
/// and the triangles as indices into them.
#[derive(Debug, PartialEq, Eq)]
pub struct Tessellation {
    pub positions: Vec<Vec2>,
    pub indices: Vec<u32>,
}

impl Tessellation {
    /// Puts positions and indices together.
    pub fn new(positions: Vec<Vec2>, indices: Vec<u32>) -> (t: Tessellation)
        ensures
            t.positions == positions,
            t.indices == indices,
    {
        Tessellation { positions, indices }
    }
}

impl View for Tessellation {
    type V = (Seq<Vec2>, Seq<u32>);

    open spec fn view(&self) -> (Seq<Vec2>, Seq<u32>) {
        (self.positions@, self.indices@)
    }
}

/// Whether every point is finite.
pub open spec fn points_finite(points: Seq<Vec2>) -> bool {
    forall|i: int| 0 <= i < points.len() ==> (#[trigger] points[i]).is_finite()
}

/// Tells the variants of `lyon_tessellation::TessellationError` apart.
#[verifier::external_body]
pub(crate) fn failure_kind(error: &TessellationError) -> (kind: TessellationFailure)
    ensures
        kind.is_tessellator(),
{
    match error {
        TessellationError::UnsupportedParamater => TessellationFailure::UnsupportedParameter,
        TessellationError::InvalidVertex => TessellationFailure::InvalidVertex,
        TessellationError::TooManyVertices => TessellationFailure::TooManyVertices,
        TessellationError::Internal(_) => TessellationFailure::Internal,
    }
}

/// Calls `FillTessellator::tessellate_rectangle`, with the default options.
///
/// The tessellator writes the four corners, the given one first, then the
/// ones below it, diagonally across and beside it, and the two triangles
/// that the first corner makes with the other three. It does not fail. The
/// far corner is the sum of the given corner and the size; where a
/// co-ordinate of the given corner is positive zero, that sum is the size.
#[verifier::external_body]
pub(crate) fn fill_rectangle(rectangle: &Rectangle) -> (r: Result<Tessellation, TessellationError>)
    requires
        rectangle.is_finite(),
    ensures
        r is Ok,
        is_quad(*rectangle, r->Ok_0@),
{
    let mut buffers = VertexBuffers::new();
    let [x, y, w, h] = cast(rectangle.to_bits());
    let mut output = BuffersBuilder::new(&mut buffers, |v: FillVertex| Vec2::from_array(cast(v.position().to_array())));
    let options = FillOptions::default();
    FillTessellator::new().tessellate_rectangle(&rect(x, y, w, h), &options, &mut output)?;
    Ok(Tessellation::new(buffers.vertices, buffers.indices))
}

/// Calls `StrokeTessellator::tessellate_rectangle`, with the default options
/// but for the line width. Nothing is claimed of what comes back.
#[verifier::external_body]
pub(crate) fn stroke_rectangle(rectangle: &Rectangle, width: Float) -> (r: Result<
    Tessellation,
    TessellationError,
>)
    requires
        rectangle.is_finite(),
        width.is_stroke_width(),
{
    let mut buffers = VertexBuffers::new();
    let [x, y, w, h] = cast(rectangle.to_bits());
    let mut output = BuffersBuilder::new(&mut buffers, |v: StrokeVertex| Vec2::from_array(cast(v.position().to_array())));
    let options = StrokeOptions::default().with_line_width(cast(width.bits));
    StrokeTessellator::new().tessellate_rectangle(&rect(x, y, w, h), &options, &mut output)?;
    Ok(Tessellation::new(buffers.vertices, buffers.indices))
}

/// Calls `StrokeTessellator::builder`, `PathBuilder::add_rounded_rectangle`
/// and `Build::build`, with the default options but for the line width, and
/// a positive winding. Nothing is claimed of what comes back.
#[verifier::external_body]
pub(crate) fn stroke_rounded_rectangle(rectangle: &Rectangle, radii: &BorderRadii, width: Float) -> (r:
    Result<Tessellation, TessellationError>)
    requires
        rectangle.is_curve_size(),
        radii.is_curve_size(),
        width.is_stroke_width(),
{
    let mut buffers = VertexBuffers::new();
    let [x, y, w, h] = cast(rectangle.to_bits());
    let [top_left, top_right, bottom_left, bottom_right] = cast(radii.to_bits());
    let corners = CornerRadii { top_left, top_right, bottom_left, bottom_right };
    let mut output = BuffersBuilder::new(&mut buffers, |v: StrokeVertex| Vec2::from_array(cast(v.position().to_array())));
    let options = StrokeOptions::default().with_line_width(cast(width.bits));
    let mut tessellator = StrokeTessellator::new();
    let mut builder = tessellator.builder(&options, &mut output);
    builder.add_rounded_rectangle(&rect(x, y, w, h), &corners, Winding::Positive);
    builder.build()?;
    Ok(Tessellation::new(buffers.vertices, buffers.indices))
}

/// Calls `FillTessellator::tessellate_circle`, with the default options.
/// Nothing is claimed of what comes back.
#[verifier::external_body]
pub(crate) fn fill_circle(center: Vec2, radius: Float) -> (r: Result<Tessellation, TessellationError>)
    requires
        center.is_finite(),
        radius.is_fill_radius(),
{
    let mut buffers = VertexBuffers::new();
    let [x, y] = cast(center.to_bits());
    let mut output = BuffersBuilder::new(&mut buffers, |v: FillVertex| Vec2::from_array(cast(v.position().to_array())));
    let (options, mut tessellator) = (FillOptions::default(), FillTessellator::new());
    tessellator.tessellate_circle(point(x, y), cast(radius.bits), &options, &mut output)?;
    Ok(Tessellation::new(buffers.vertices, buffers.indices))
}

/// Calls `StrokeTessellator::tessellate_circle`, with the default options
/// but for the line width. Nothing is claimed of what comes back.
#[verifier::external_body]
pub(crate) fn stroke_circle(center: Vec2, radius: Float, width: Float) -> (r: Result<
    Tessellation,
    TessellationError,
>)
    requires
        center.is_curve_size(),
        radius.is_curve_size(),
        width.is_stroke_width(),
{
    let mut buffers = VertexBuffers::new();
    let [x, y] = cast(center.to_bits());
    let mut output = BuffersBuilder::new(&mut buffers, |v: StrokeVertex| Vec2::from_array(cast(v.position().to_array())));
    let options = StrokeOptions::default().with_line_width(cast(width.bits));
    let mut tessellator = StrokeTessellator::new();
    tessellator.tessellate_circle(point(x, y), cast(radius.bits), &options, &mut output)?;
    Ok(Tessellation::new(buffers.vertices, buffers.indices))
}

/// Calls `StrokeTessellator::tessellate_ellipse`, with the default options
/// but for the line width, no rotation and a positive winding. Nothing is
/// claimed of what comes back.
#[verifier::external_body]
pub(crate) fn stroke_ellipse(center: Vec2, radii: Vec2, width: Float) -> (r: Result<
    Tessellation,
    TessellationError,
>)
    requires
        center.is_curve_size(),
        radii.is_curve_size(),
        width.is_stroke_width(),
{
    let mut buffers = VertexBuffers::new();
    let ([x, y], [rx, ry]) = (cast(center.to_bits()), cast(radii.to_bits()));
    let mut output = BuffersBuilder::new(&mut buffers, |v: StrokeVertex| Vec2::from_array(cast(v.position().to_array())));
    let options = StrokeOptions::default().with_line_width(cast(width.bits));
    let (turn, winding, mut tessellator) = (Angle::zero(), Winding::Positive, StrokeTessellator::new());
    tessellator.tessellate_ellipse(point(x, y), vector(rx, ry), turn, winding, &options, &mut output)?;
    Ok(Tessellation::new(buffers.vertices, buffers.indices))
}

/// Calls `StrokeTessellator::tessellate_polygon` on the points as a polygon,
/// closed or open, with the default options but for the line width. Nothing
/// is claimed of what comes back.
#[verifier::external_body]
pub(crate) fn stroke_polygon(points: &[Vec2], closed: bool, width: Float) -> (r: Result<
    Tessellation,
    TessellationError,
>)
    requires
        points_finite(points@),
        width.is_stroke_width(),
{
    let mut buffers = VertexBuffers::new();
    let path: Vec<Point> = points.iter().map(|p| point(cast(p.x.bits), cast(p.y.bits))).collect();
    let mut output = BuffersBuilder::new(&mut buffers, |v: StrokeVertex| Vec2::from_array(cast(v.position().to_array())));
    let options = StrokeOptions::default().with_line_width(cast(width.bits));
    let polygon = Polygon { points: &path, closed };
    StrokeTessellator::new().tessellate_polygon(polygon, &options, &mut output)?;
    Ok(Tessellation::new(buffers.vertices, buffers.indices))
}

} // verus!
