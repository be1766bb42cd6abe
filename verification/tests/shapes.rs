use lyon_tessellation::math::{point, size, vector, Angle, Point, Rect};
use lyon_tessellation::path::builder::{BorderRadii as CornerRadii, Build, PathBuilder};
use lyon_tessellation::path::{Polygon, Winding};
use lyon_tessellation::{
    BuffersBuilder, FillOptions, FillTessellator, FillVertex, TessellationError,
    TessellationResult, VertexBuffers,
};
use tetra::graphics::mesh::{
    find_ellipse_fault, find_polygon_fault, find_rounded_rectangle_fault,
    find_shape_style_fault, BorderRadii, GeometryBuilder, ShapeStyle,
};
use tetra::graphics::tessellation::Tessellation;
use tetra::{TessellationFailure, TetraError};
use tetra::graphics::Rectangle;
use tetra::math::{Float, Vec2};

fn place(vertex: FillVertex) -> Vec2 {
    let position = vertex.position();
    Vec2::new(
        Float::from_bits(position.x.to_bits()),
        Float::from_bits(position.y.to_bits()),
    )
}

fn swept(
    outcome: TessellationResult,
    buffers: VertexBuffers<Vec2, u32>,
) -> Result<Tessellation, TessellationFailure> {
    match outcome {
        Ok(_) => Ok(Tessellation::new(buffers.vertices, buffers.indices)),
        Err(TessellationError::UnsupportedParamater) => {
            Err(TessellationFailure::UnsupportedParameter)
        }
        Err(TessellationError::InvalidVertex) => Err(TessellationFailure::InvalidVertex),
        Err(TessellationError::TooManyVertices) => Err(TessellationFailure::TooManyVertices),
        Err(TessellationError::Internal(_)) => Err(TessellationFailure::Internal),
    }
}

fn sweep_rounded_rectangle(
    style: ShapeStyle,
    rectangle: Rectangle,
    radii: BorderRadii,
) -> Result<Tessellation, TessellationFailure> {
    let fault = find_rounded_rectangle_fault(style, &rectangle, &radii);
    if style != ShapeStyle::Fill || fault.is_some() {
        return Err(TessellationFailure::NotSwept);
    }
    let number = |float: Float| f32::from_bits(float.to_bits());
    let shape = Rect::new(
        point(number(rectangle.x), number(rectangle.y)),
        size(number(rectangle.width), number(rectangle.height)),
    );
    let corners = CornerRadii {
        top_left: number(radii.top_left),
        top_right: number(radii.top_right),
        bottom_left: number(radii.bottom_left),
        bottom_right: number(radii.bottom_right),
    };
    let mut buffers: VertexBuffers<Vec2, u32> = VertexBuffers::new();
    let mut output = BuffersBuilder::new(&mut buffers, place);
    let options = FillOptions::default();
    let mut tessellator = FillTessellator::new();
    let mut builder = tessellator.builder(&options, &mut output);
    builder.add_rounded_rectangle(&shape, &corners, Winding::Positive);
    let outcome = builder.build();
    swept(outcome, buffers)
}

fn sweep_ellipse(
    style: ShapeStyle,
    center: Vec2,
    radii: Vec2,
) -> Result<Tessellation, TessellationFailure> {
    if style != ShapeStyle::Fill || find_ellipse_fault(style, center, radii).is_some() {
        return Err(TessellationFailure::NotSwept);
    }
    let number = |float: Float| f32::from_bits(float.to_bits());
    let mut buffers: VertexBuffers<Vec2, u32> = VertexBuffers::new();
    let outcome = FillTessellator::new().tessellate_ellipse(
        point(number(center.x), number(center.y)),
        vector(number(radii.x), number(radii.y)),
        Angle::zero(),
        Winding::Positive,
        &FillOptions::default(),
        &mut BuffersBuilder::new(&mut buffers, place),
    );
    swept(outcome, buffers)
}

fn sweep_polygon(style: ShapeStyle, points: &[Vec2]) -> Result<Tessellation, TessellationFailure> {
    if style != ShapeStyle::Fill || find_polygon_fault(style, points).is_some() {
        return Err(TessellationFailure::NotSwept);
    }
    let path: Vec<Point> = points
        .iter()
        .map(|p| point(f32::from_bits(p.x.to_bits()), f32::from_bits(p.y.to_bits())))
        .collect();
    let mut buffers: VertexBuffers<Vec2, u32> = VertexBuffers::new();
    let outcome = FillTessellator::new().tessellate_polygon(
        Polygon { points: &path, closed: true },
        &FillOptions::default(),
        &mut BuffersBuilder::new(&mut buffers, place),
    );
    swept(outcome, buffers)
}

fn rounded_rectangle(
    builder: &mut GeometryBuilder,
    style: ShapeStyle,
    rectangle: Rectangle,
    radii: BorderRadii,
) -> Result<&mut GeometryBuilder, TetraError> {
    let swept = sweep_rounded_rectangle(style, rectangle, radii);
    builder.rounded_rectangle(style, rectangle, radii, swept)
}

fn ellipse(
    builder: &mut GeometryBuilder,
    style: ShapeStyle,
    center: Vec2,
    radii: Vec2,
) -> Result<&mut GeometryBuilder, TetraError> {
    let swept = sweep_ellipse(style, center, radii);
    builder.ellipse(style, center, radii, swept)
}

fn polygon<'a>(
    builder: &'a mut GeometryBuilder,
    style: ShapeStyle,
    points: &[Vec2],
) -> Result<&'a mut GeometryBuilder, TetraError> {
    let swept = sweep_polygon(style, points);
    builder.polygon(style, points, swept)
}

fn num(value: f32) -> Float {
    Float::from_bits(value.to_bits())
}

struct Numbers(u64);

impl Numbers {
    fn next(&mut self) -> u64 {
        self.0 = self
            .0
            .wrapping_mul(6364136223846793005)
            .wrapping_add(1442695040888963407);
        self.0 >> 33
    }

    fn value(&mut self) -> f32 {
        let a = self.next();
        let b = self.next();
        match a % 8 {
            0 => (b % 2000) as f32,
            1 => (b % 200000) as f32 * 0.01 - 1000.0,
            2 => 0.0,
            3 => f32::from_bits((b as u32) % 0x4B80_0001),
            4 => -f32::from_bits((b as u32) % 0x4B80_0001),
            5 => (b % 3) as f32 * 16777216.0 - 16777216.0,
            6 => (b % 1000) as f32 * 1.0e-6,
            _ => (b % 65536) as f32 - 32768.0,
        }
    }

    fn point(&mut self) -> Vec2 {
        Vec2::new(num(self.value()), num(self.value()))
    }

    fn width(&mut self) -> Float {
        let value = self.value().abs();
        num(if value > 0.0 { value } else { 1.0 })
    }

    fn radius(&mut self) -> Float {
        let value = self.value();
        num(if value == 0.0 || value.abs() >= 5.9604645e-8 { value } else { 1.0 })
    }

    fn style(&mut self) -> ShapeStyle {
        if self.next() % 2 == 0 {
            ShapeStyle::Fill
        } else {
            ShapeStyle::Stroke(self.width())
        }
    }

    fn rectangle(&mut self) -> Rectangle {
        Rectangle::new(
            num(self.value()),
            num(self.value()),
            num(self.value()),
            num(self.value()),
        )
    }

    fn points(&mut self) -> Vec<Vec2> {
        let count = self.next() % 12;
        (0..count).map(|_| self.point()).collect()
    }
}

fn triangles(builder: &GeometryBuilder) {
    let count = builder.vertices().len() as u32;
    assert!(builder.indices().iter().all(|index| *index < count));
    assert_eq!(builder.indices().len() % 3, 0);
    assert!(builder.vertices().iter().all(|vertex| vertex.uv == Vec2::zero()));
}

#[test]
fn rectangles_in_range_come_back_as_triangles() {
    let mut numbers = Numbers(1);
    for _ in 0..500 {
        let mut builder = GeometryBuilder::new();
        let style = numbers.style();
        assert!(builder.rectangle(style, numbers.rectangle()).is_ok());
        triangles(&builder);
    }
}

#[test]
fn rounded_rectangles_in_range_come_back_as_triangles() {
    let mut numbers = Numbers(2);
    for _ in 0..500 {
        let mut builder = GeometryBuilder::new();
        let style = numbers.style();
        let radii = BorderRadii {
            top_left: num(numbers.value()),
            top_right: num(numbers.value()),
            bottom_left: num(numbers.value()),
            bottom_right: num(numbers.value()),
        };
        assert!(rounded_rectangle(&mut builder, style, numbers.rectangle(), radii).is_ok());
        triangles(&builder);
    }
}

#[test]
fn circles_in_range_come_back_as_triangles() {
    let mut numbers = Numbers(3);
    for _ in 0..500 {
        let mut builder = GeometryBuilder::new();
        let style = numbers.style();
        let center = numbers.point();
        assert!(builder.circle(style, center, numbers.radius()).is_ok());
        triangles(&builder);
    }
}

#[test]
fn ellipses_in_range_come_back_as_triangles() {
    let mut numbers = Numbers(4);
    for _ in 0..500 {
        let mut builder = GeometryBuilder::new();
        let style = numbers.style();
        let center = numbers.point();
        assert!(ellipse(&mut builder, style, center, numbers.point()).is_ok());
        triangles(&builder);
    }
}

#[test]
fn polylines_in_range_come_back_as_triangles() {
    let mut numbers = Numbers(5);
    for _ in 0..500 {
        let mut builder = GeometryBuilder::new();
        let width = numbers.width();
        assert!(builder.polyline(width, &numbers.points()).is_ok());
        triangles(&builder);
    }
}

#[test]
fn stroked_polygons_in_range_come_back_as_triangles() {
    let mut numbers = Numbers(6);
    for _ in 0..500 {
        let mut builder = GeometryBuilder::new();
        let width = numbers.width();
        let points = numbers.points();
        let added = polygon(&mut builder, ShapeStyle::Stroke(width), &points).is_ok();
        assert_eq!(added, points.len() >= 3);
        triangles(&builder);
    }
}

#[test]
fn filled_convex_polygons_come_back_as_triangles() {
    for sides in 3..40u32 {
        let points: Vec<Vec2> = (0..sides)
            .map(|i| {
                let angle = i as f32 / sides as f32 * std::f32::consts::TAU;
                Vec2::new(num(500.0 + 300.0 * angle.cos()), num(400.0 + 200.0 * angle.sin()))
            })
            .collect();
        let mut builder = GeometryBuilder::new();
        assert!(polygon(&mut builder, ShapeStyle::Fill, &points).is_ok());
        triangles(&builder);
        assert_eq!(builder.vertices().len() as u32, sides);
        assert_eq!(builder.indices().len() as u32, (sides - 2) * 3);
    }
}

#[test]
fn straight_shapes_of_any_finite_numbers_come_back_as_triangles() {
    let mut numbers = Numbers(7);
    let mut any = |numbers: &mut Numbers| {
        let bits = (numbers.next() as u32) % 0x7F80_0000;
        let value = f32::from_bits(bits);
        num(if numbers.next() % 2 == 0 { value } else { -value })
    };
    for _ in 0..500 {
        let width = num(f32::from_bits(1 + (numbers.next() as u32) % 0x7F7F_FFFF));
        let rectangle = Rectangle::new(
            any(&mut numbers),
            any(&mut numbers),
            any(&mut numbers),
            any(&mut numbers),
        );
        let count = 3 + numbers.next() % 6;
        let points: Vec<Vec2> = (0..count)
            .map(|_| Vec2::new(any(&mut numbers), any(&mut numbers)))
            .collect();
        let mut builder = GeometryBuilder::new();
        assert!(builder.rectangle(ShapeStyle::Fill, rectangle).is_ok());
        assert!(builder.rectangle(ShapeStyle::Stroke(width), rectangle).is_ok());
        assert!(builder.polyline(width, &points).is_ok());
        assert!(polygon(&mut builder, ShapeStyle::Stroke(width), &points).is_ok());
        triangles(&builder);
    }
}
