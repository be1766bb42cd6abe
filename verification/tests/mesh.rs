use std::collections::HashMap;
use std::rc::Rc;
use lyon_tessellation::math::{point, size, vector, Angle, Point, Rect};
use lyon_tessellation::path::builder::{BorderRadii as CornerRadii, Build, PathBuilder};
use lyon_tessellation::path::{Polygon, Winding};
use lyon_tessellation::{
    BuffersBuilder, FillOptions, FillTessellator, FillVertex, TessellationError,
    TessellationResult, VertexBuffers,
};
use tetra::graphics::mesh::{
    find_ellipse_fault, find_polygon_fault, find_rounded_rectangle_fault,
    find_shape_style_fault, BorderRadii, BufferUsage, DrawRange,
    GeometryBuilder, IndexBuffer, Mesh, ShapeStyle, Vertex, VertexBuffer,
};
use tetra::graphics::tessellation::Tessellation;
use tetra::graphics::{
    draw, push_quad, set_shader, set_transform_matrix, Color, DrawParams, Drawable, GraphicsContext,
    Rectangle, Shader, Texture, Transform,
};
use tetra::math::{Float, Mat4, Vec2};
use tetra::platform::{DeviceCommand, GraphicsDevice, RawIndexBuffer, RawVertexBuffer};
use tetra::{Context, PlatformFailure, TessellationFailure, TetraError};

const DEFAULT_SHADER: Shader = Shader { id: 70 };
const DEFAULT_TEXTURE: Texture = Texture { id: 80 };

fn place(vertex: FillVertex) -> Vec2 {
    let position = vertex.position();
    Vec2::new(
        Float::from_bits(position.x.to_bits()),
        Float::from_bits(position.y.to_bits()),
    )
}

fn swept(
    outcome: TessellationResult,
    buffers: VertexBuffers<Vec2, u32>,
) -> Result<Tessellation, TessellationFailure> {
    match outcome {
        Ok(_) => Ok(Tessellation::new(buffers.vertices, buffers.indices)),
        Err(TessellationError::UnsupportedParamater) => {
            Err(TessellationFailure::UnsupportedParameter)
        }
        Err(TessellationError::InvalidVertex) => Err(TessellationFailure::InvalidVertex),
        Err(TessellationError::TooManyVertices) => Err(TessellationFailure::TooManyVertices),
        Err(TessellationError::Internal(_)) => Err(TessellationFailure::Internal),
    }
}

fn sweep_rounded_rectangle(
    style: ShapeStyle,
    rectangle: Rectangle,
    radii: BorderRadii,
) -> Result<Tessellation, TessellationFailure> {
    let fault = find_rounded_rectangle_fault(style, &rectangle, &radii);
    if style != ShapeStyle::Fill || fault.is_some() {
        return Err(TessellationFailure::NotSwept);
    }
    let number = |float: Float| f32::from_bits(float.to_bits());
    let shape = Rect::new(
        point(number(rectangle.x), number(rectangle.y)),
        size(number(rectangle.width), number(rectangle.height)),
    );
    let corners = CornerRadii {
        top_left: number(radii.top_left),
        top_right: number(radii.top_right),
        bottom_left: number(radii.bottom_left),
        bottom_right: number(radii.bottom_right),
    };
    let mut buffers: VertexBuffers<Vec2, u32> = VertexBuffers::new();
    let mut output = BuffersBuilder::new(&mut buffers, place);
    let options = FillOptions::default();
    let mut tessellator = FillTessellator::new();
    let mut builder = tessellator.builder(&options, &mut output);
    builder.add_rounded_rectangle(&shape, &corners, Winding::Positive);
    let outcome = builder.build();
    swept(outcome, buffers)
}

fn sweep_ellipse(
    style: ShapeStyle,
    center: Vec2,
    radii: Vec2,
) -> Result<Tessellation, TessellationFailure> {
    if style != ShapeStyle::Fill || find_ellipse_fault(style, center, radii).is_some() {
        return Err(TessellationFailure::NotSwept);
    }
    let number = |float: Float| f32::from_bits(float.to_bits());
    let mut buffers: VertexBuffers<Vec2, u32> = VertexBuffers::new();
    let outcome = FillTessellator::new().tessellate_ellipse(
        point(number(center.x), number(center.y)),
        vector(number(radii.x), number(radii.y)),
        Angle::zero(),
        Winding::Positive,
        &FillOptions::default(),
        &mut BuffersBuilder::new(&mut buffers, place),
    );
    swept(outcome, buffers)
}

fn sweep_polygon(style: ShapeStyle, points: &[Vec2]) -> Result<Tessellation, TessellationFailure> {
    if style != ShapeStyle::Fill || find_polygon_fault(style, points).is_some() {
        return Err(TessellationFailure::NotSwept);
    }
    let path: Vec<Point> = points
        .iter()
        .map(|p| point(f32::from_bits(p.x.to_bits()), f32::from_bits(p.y.to_bits())))
        .collect();
    let mut buffers: VertexBuffers<Vec2, u32> = VertexBuffers::new();
    let outcome = FillTessellator::new().tessellate_polygon(
        Polygon { points: &path, closed: true },
        &FillOptions::default(),
        &mut BuffersBuilder::new(&mut buffers, place),
    );
    swept(outcome, buffers)
}

fn mesh_rounded_rectangle(
    ctx: &mut Context,
    style: ShapeStyle,
    rectangle: Rectangle,
    radii: BorderRadii,
) -> Result<Mesh, TetraError> {
    let swept = sweep_rounded_rectangle(style, rectangle, radii);
    Mesh::rounded_rectangle(ctx, style, rectangle, radii, swept)
}

fn mesh_ellipse(
    ctx: &mut Context,
    style: ShapeStyle,
    center: Vec2,
    radii: Vec2,
) -> Result<Mesh, TetraError> {
    let swept = sweep_ellipse(style, center, radii);
    Mesh::ellipse(ctx, style, center, radii, swept)
}

fn mesh_polygon(ctx: &mut Context, style: ShapeStyle, points: &[Vec2]) -> Result<Mesh, TetraError> {
    let swept = sweep_polygon(style, points);
    Mesh::polygon(ctx, style, points, swept)
}

fn num(value: f32) -> Float {
    Float::from_bits(value.to_bits())
}

fn vec2(x: f32, y: f32) -> Vec2 {
    Vec2::new(num(x), num(y))
}

fn context_with(buffers: u32) -> Context {
    let mut device = GraphicsDevice::new(buffers + 2);
    let graphics =
        GraphicsContext::new(&mut device, 4, DEFAULT_SHADER, DEFAULT_TEXTURE, Mat4::identity()).unwrap();
    device.take_commands();
    Context::new(device, graphics)
}

fn context() -> Context {
    context_with(14)
}

fn vertex(x: f32, y: f32) -> Vertex {
    Vertex::new(vec2(x, y), vec2(0.25, 0.75), Color::rgba(num(1.0), num(0.5), num(0.0), num(1.0)))
}

fn words_of(v: &Vertex) -> [u32; 8] {
    [
        v.position.x.bits,
        v.position.y.bits,
        v.uv.x.bits,
        v.uv.y.bits,
        v.color.r.bits,
        v.color.g.bits,
        v.color.b.bits,
        v.color.a.bits,
    ]
}

fn words(vertices: &[Vertex]) -> Vec<u32> {
    vertices.iter().flat_map(|v| words_of(v)).collect()
}

fn write(memory: &mut HashMap<u32, Vec<u32>>, id: u32, data: &[u32], offset: usize) {
    if let Some(buffer) = memory.get_mut(&id) {
        if offset + data.len() <= buffer.len() {
            buffer[offset..offset + data.len()].copy_from_slice(data);
        }
    }
}

fn replay(commands: &[DeviceCommand]) -> HashMap<u32, Vec<u32>> {
    let mut memory = HashMap::new();
    for command in commands {
        match command {
            DeviceCommand::NewVertexBuffer { id, count, stride, .. } => {
                memory.insert(*id, vec![0; count * stride]);
            }
            DeviceCommand::NewIndexBuffer { id, count, .. } => {
                memory.insert(*id, vec![0; *count]);
            }
            DeviceCommand::SetVertexBufferData { id, data, offset } => {
                write(&mut memory, *id, data, *offset)
            }
            DeviceCommand::SetIndexBufferData { id, data, offset } => {
                write(&mut memory, *id, data, *offset)
            }
            DeviceCommand::DeleteBuffer { id } => {
                memory.remove(id);
            }
            _ => {}
        }
    }
    memory
}

fn uniforms(model: Transform, color: Color) -> DeviceCommand {
    DeviceCommand::SetDefaultUniforms {
        program: 70,
        projection: Mat4::identity(),
        view: Mat4::identity(),
        model,
        color,
    }
}

#[test]
fn vertex_buffer_is_created_and_filled() {
    let mut ctx = context();
    let vertices = [vertex(0.0, 0.0), vertex(1.0, 0.0), vertex(0.0, 1.0)];
    let buffer = VertexBuffer::new(&mut ctx, &vertices).unwrap();
    assert_eq!(buffer.count(), 3);
    assert_eq!(buffer.id(), 2);
    assert_eq!(
        ctx.device.commands(),
        &vec![
            DeviceCommand::NewVertexBuffer { id: 2, count: 3, stride: 8, usage: BufferUsage::Dynamic },
            DeviceCommand::SetVertexBufferData { id: 2, data: words(&vertices), offset: 0 },
        ]
    );
    assert_eq!(
        words(&vertices)[8..16],
        [
            1f32.to_bits(),
            0f32.to_bits(),
            0.25f32.to_bits(),
            0.75f32.to_bits(),
            1f32.to_bits(),
            0.5f32.to_bits(),
            0f32.to_bits(),
            1f32.to_bits()
        ]
    );
    assert_eq!(replay(ctx.device.commands())[&2], words(&vertices));
}

#[test]
fn vertex_buffer_with_usage_passes_the_hint() {
    let mut ctx = context();
    let buffer = VertexBuffer::with_usage(&mut ctx, &[vertex(0.0, 0.0)], BufferUsage::Static).unwrap();
    assert_eq!(buffer.count(), 1);
    assert_eq!(
        ctx.device.commands()[0],
        DeviceCommand::NewVertexBuffer { id: 2, count: 1, stride: 8, usage: BufferUsage::Static }
    );
    let stream = VertexBuffer::with_usage(&mut ctx, &[], BufferUsage::Stream).unwrap();
    assert_eq!(stream.count(), 0);
    assert_eq!(stream.id(), 3);
}

#[test]
fn buffers_fail_when_the_device_is_full() {
    let mut ctx = context_with(1);
    assert!(IndexBuffer::new(&mut ctx, &[0, 1, 2]).is_ok());
    ctx.device.take_commands();
    assert_eq!(
        VertexBuffer::new(&mut ctx, &[vertex(0.0, 0.0)]).err(),
        Some(TetraError::PlatformError(PlatformFailure::OutOfBuffers))
    );
    assert_eq!(
        IndexBuffer::with_usage(&mut ctx, &[0], BufferUsage::Static).err(),
        Some(TetraError::PlatformError(PlatformFailure::OutOfBuffers))
    );
    assert!(ctx.device.commands().is_empty());
    assert_eq!(ctx.device.free_buffers(), 0);
}

#[test]
fn raw_vertex_buffer_that_does_not_fit_the_machine_fails() {
    let mut device = GraphicsDevice::new(4);
    assert_eq!(
        device.new_vertex_buffer(usize::MAX, 8, BufferUsage::Dynamic).err(),
        Some(TetraError::PlatformError(PlatformFailure::BufferTooLarge))
    );
    assert!(device.commands().is_empty());
    assert_eq!(device.free_buffers(), 4);
    let buffer = device.new_vertex_buffer(5, 8, BufferUsage::Dynamic).unwrap();
    assert_eq!((buffer.id, buffer.count(), buffer.stride), (0, 5, 8));
    let indices = device.new_index_buffer(7, BufferUsage::Static).unwrap();
    assert_eq!((indices.id, indices.count()), (1, 7));
    assert_eq!(device.free_buffers(), 2);
}

#[test]
fn set_data_is_seen_through_a_clone() {
    let mut ctx = context();
    let vertices = [vertex(0.0, 0.0), vertex(1.0, 0.0), vertex(0.0, 1.0)];
    let handle = VertexBuffer::new(&mut ctx, &vertices).unwrap();
    let clone = handle.clone();
    assert_eq!(clone, handle);
    let update = [vertex(5.0, 5.0), vertex(6.0, 6.0)];
    handle.set_data(&mut ctx, &update, 1);
    assert_eq!(
        ctx.device.commands()[2],
        DeviceCommand::SetVertexBufferData { id: clone.id(), data: words(&update), offset: 8 }
    );
    let memory = replay(ctx.device.commands());
    let seen = &memory[&clone.id()];
    assert_eq!(seen[..8], words_of(&vertices[0]));
    assert_eq!(seen[8..16], words_of(&update[0]));
    assert_eq!(seen[16..], words_of(&update[1]));
}

#[test]
fn index_buffer_is_created_filled_and_updated() {
    let mut ctx = context();
    let handle = IndexBuffer::new(&mut ctx, &[0, 1, 2, 2, 3, 0]).unwrap();
    assert_eq!((handle.id(), handle.count()), (2, 6));
    let clone = handle.clone();
    handle.set_data(&mut ctx, &[9, 8], 4);
    assert_eq!(
        ctx.device.commands(),
        &vec![
            DeviceCommand::NewIndexBuffer { id: 2, count: 6, usage: BufferUsage::Dynamic },
            DeviceCommand::SetIndexBufferData { id: 2, data: vec![0, 1, 2, 2, 3, 0], offset: 0 },
            DeviceCommand::SetIndexBufferData { id: 2, data: vec![9, 8], offset: 4 },
        ]
    );
    assert_eq!(replay(ctx.device.commands())[&clone.id()], vec![0, 1, 2, 2, 9, 8]);
}

#[test]
fn cloned_mesh_keeps_its_vertex_buffer() {
    let mut ctx = context();
    let first = VertexBuffer::new(&mut ctx, &[vertex(0.0, 0.0)]).unwrap();
    let second = VertexBuffer::new(&mut ctx, &[vertex(1.0, 1.0), vertex(2.0, 2.0)]).unwrap();
    let mut mesh = Mesh::new(first.clone());
    let clone = mesh.clone();
    mesh.set_vertex_buffer(second.clone());
    assert_eq!(mesh.vertex_buffer(), &second);
    assert_eq!(clone.vertex_buffer(), &first);
    assert_eq!(clone.vertex_buffer().id(), 2);
    assert_eq!(mesh.vertex_buffer().id(), 3);
}

#[test]
fn mesh_accessors() {
    let mut ctx = context();
    let vertices = VertexBuffer::new(&mut ctx, &[vertex(0.0, 0.0); 4]).unwrap();
    let indices = IndexBuffer::new(&mut ctx, &[0, 1, 2]).unwrap();
    let mut mesh = vertices.clone().into_mesh();
    assert_eq!(mesh.vertex_buffer(), &vertices);
    assert_eq!(mesh.index_buffer(), None);
    assert_eq!(mesh.texture(), None);
    assert_eq!(mesh.draw_range(), DrawRange { start: 0, count: 4 });
    mesh.set_index_buffer(indices.clone());
    assert_eq!(mesh.index_buffer(), Some(&indices));
    assert_eq!(mesh.draw_range(), DrawRange { start: 0, count: 3 });
    mesh.set_texture(Texture { id: 5 });
    assert_eq!(mesh.texture(), Some(&Texture { id: 5 }));
    mesh.set_draw_range(1, 2);
    assert_eq!(mesh.draw_range(), DrawRange { start: 1, count: 2 });
    mesh.reset_texture();
    mesh.reset_index_buffer();
    mesh.reset_draw_range();
    assert_eq!(mesh.texture(), None);
    assert_eq!(mesh.index_buffer(), None);
    assert_eq!(mesh.draw_range(), DrawRange { start: 0, count: 4 });
    let converted: Mesh = vertices.clone().into();
    assert_eq!(converted.vertex_buffer(), &vertices);
    assert_eq!(converted.index_buffer(), None);
    let both = Mesh::indexed(vertices.clone(), indices.clone());
    assert_eq!(both.index_buffer(), Some(&indices));
    assert_eq!(both.texture(), None);
}

#[test]
fn draw_range_on_an_indexed_mesh() {
    let mut ctx = context();
    let vertices = VertexBuffer::new(&mut ctx, &[vertex(0.0, 0.0); 4]).unwrap();
    let indices = IndexBuffer::new(&mut ctx, &[0, 1, 2, 2, 3, 0, 0, 1, 3, 1]).unwrap();
    let mut mesh = Mesh::indexed(vertices, indices);
    ctx.device.take_commands();
    mesh.set_draw_range(2, 3);
    mesh.draw(&mut ctx, DrawParams::new());
    assert_eq!(
        ctx.device.take_commands()[1],
        DeviceCommand::DrawElements {
            vertex_buffer: 2,
            index_buffer: 3,
            texture: 80,
            program: 70,
            start: 2,
            count: 3
        }
    );
    mesh.reset_draw_range();
    mesh.draw(&mut ctx, DrawParams::new());
    assert_eq!(
        ctx.device.take_commands()[1],
        DeviceCommand::DrawElements {
            vertex_buffer: 2,
            index_buffer: 3,
            texture: 80,
            program: 70,
            start: 0,
            count: 10
        }
    );
}

#[test]
fn mesh_without_indices_draws_its_vertices() {
    let mut ctx = context();
    let vertices = VertexBuffer::new(&mut ctx, &[vertex(0.0, 0.0); 6]).unwrap();
    let mut mesh = Mesh::new(vertices);
    mesh.set_texture(Texture { id: 33 });
    ctx.device.take_commands();
    draw(&mut ctx, &mesh, DrawParams::new());
    assert_eq!(
        ctx.device.take_commands(),
        vec![
            uniforms(DrawParams::new().to_transform(), Color::white()),
            DeviceCommand::DrawArrays { vertex_buffer: 2, texture: 33, program: 70, start: 0, count: 6 },
        ]
    );
    mesh.set_draw_range(3, 3);
    mesh.draw(&mut ctx, DrawParams::new());
    assert_eq!(
        ctx.device.take_commands()[1],
        DeviceCommand::DrawArrays { vertex_buffer: 2, texture: 33, program: 70, start: 3, count: 3 }
    );
}

#[test]
fn mesh_draw_passes_the_placement_and_the_tint() {
    let mut ctx = context();
    let vertices = VertexBuffer::new(&mut ctx, &[vertex(0.0, 0.0); 3]).unwrap();
    let mesh = Mesh::new(vertices);
    let tint = Color::rgba(num(0.5), num(0.5), num(1.0), num(1.0));
    let params = DrawParams::new()
        .position(vec2(100.0, 50.0))
        .origin(vec2(16.0, 8.0))
        .scale(vec2(2.0, 3.0))
        .rotation(num(0.5))
        .color(tint);
    let mut cols = [[num(0.0); 4]; 4];
    cols[3][0] = num(4.0);
    let view = Mat4::from_cols(cols);
    set_transform_matrix(&mut ctx, view);
    set_shader(&mut ctx, &Shader { id: 12 });
    ctx.device.take_commands();
    mesh.draw(&mut ctx, params);
    assert_eq!(
        ctx.device.take_commands(),
        vec![
            DeviceCommand::SetDefaultUniforms {
                program: 12,
                projection: Mat4::identity(),
                view,
                model: Transform {
                    pivot: vec2(-16.0, -8.0),
                    scale: vec2(2.0, 3.0),
                    rotation: num(0.5),
                    position: vec2(100.0, 50.0),
                },
                color: tint,
            },
            DeviceCommand::DrawArrays { vertex_buffer: 2, texture: 80, program: 12, start: 0, count: 3 },
        ]
    );
}

#[test]
fn mesh_draw_flushes_the_batch_first() {
    let mut ctx = context();
    let vertices = VertexBuffer::new(&mut ctx, &[vertex(0.0, 0.0); 3]).unwrap();
    let mesh = Mesh::new(vertices);
    ctx.device.take_commands();
    let sprite = [vertex(0.0, 0.0), vertex(0.0, 1.0), vertex(1.0, 1.0), vertex(1.0, 0.0)];
    push_quad(&mut ctx, &Texture { id: 4 }, &sprite);
    mesh.draw(&mut ctx, DrawParams::from(vec2(1.0, 2.0)));
    let commands = ctx.device.take_commands();
    assert_eq!(commands.len(), 5);
    assert_eq!(
        commands[1],
        DeviceCommand::SetVertexBufferData { id: 0, data: words(&sprite), offset: 0 }
    );
    assert_eq!(
        commands[2],
        DeviceCommand::DrawElements {
            vertex_buffer: 0,
            index_buffer: 1,
            texture: 4,
            program: 70,
            start: 0,
            count: 6
        }
    );
    assert_eq!(
        commands[3],
        uniforms(DrawParams::new().position(vec2(1.0, 2.0)).to_transform(), Color::white())
    );
    assert_eq!(
        commands[4],
        DeviceCommand::DrawArrays { vertex_buffer: 2, texture: 80, program: 70, start: 0, count: 3 }
    );
    assert_eq!(ctx.graphics.sprite_count(), 0);
    mesh.draw(&mut ctx, DrawParams::new());
    assert_eq!(ctx.device.take_commands().len(), 2);
}

#[test]
fn builder_builds_buffers_and_mesh() {
    let mut ctx = context();
    let mut builder = GeometryBuilder::new();
    let rectangle = Rectangle::new(num(0.0), num(0.0), num(2.0), num(2.0));
    assert!(builder.rectangle(ShapeStyle::Fill, rectangle).is_ok());
    let (vertices, indices) = builder.build_buffers(&mut ctx).unwrap();
    assert_eq!((vertices.id(), vertices.count()), (2, 4));
    assert_eq!((indices.id(), indices.count()), (3, 6));
    assert_eq!(
        ctx.device.take_commands(),
        vec![
            DeviceCommand::NewVertexBuffer { id: 2, count: 4, stride: 8, usage: BufferUsage::Dynamic },
            DeviceCommand::SetVertexBufferData { id: 2, data: words(builder.vertices()), offset: 0 },
            DeviceCommand::NewIndexBuffer { id: 3, count: 6, usage: BufferUsage::Dynamic },
            DeviceCommand::SetIndexBufferData { id: 3, data: vec![0, 1, 2, 0, 2, 3], offset: 0 },
        ]
    );
    let mesh = builder.build_mesh(&mut ctx).unwrap();
    assert_eq!(mesh.vertex_buffer().id(), 4);
    assert_eq!(mesh.index_buffer().map(|b| (b.id(), b.count())), Some((5, 6)));
    assert_eq!(mesh.texture(), None);
    assert_eq!(mesh.draw_range(), DrawRange { start: 0, count: 6 });
}

#[test]
fn building_needs_two_buffers() {
    let mut ctx = context_with(1);
    let builder = GeometryBuilder::new();
    assert_eq!(
        builder.build_buffers(&mut ctx).err(),
        Some(TetraError::PlatformError(PlatformFailure::OutOfBuffers))
    );
    assert_eq!(
        builder.build_mesh(&mut ctx).err(),
        Some(TetraError::PlatformError(PlatformFailure::OutOfBuffers))
    );
    assert!(ctx.device.commands().is_empty());
    assert_eq!(ctx.device.free_buffers(), 1);
}

#[test]
fn shape_meshes() {
    let mut ctx = context();
    let rectangle = Rectangle::new(num(0.0), num(0.0), num(8.0), num(4.0));
    let triangle = [vec2(0.0, 0.0), vec2(4.0, 0.0), vec2(0.0, 4.0)];
    let stroke = ShapeStyle::Stroke(num(1.0));
    let mesh = Mesh::rectangle(&mut ctx, ShapeStyle::Fill, rectangle).unwrap();
    assert_eq!(mesh.vertex_buffer().count(), 4);
    assert_eq!(mesh.draw_range(), DrawRange { start: 0, count: 6 });
    let commands = ctx.device.take_commands();
    assert_eq!(commands.len(), 4);
    assert_eq!(
        commands[3],
        DeviceCommand::SetIndexBufferData { id: 3, data: vec![0, 1, 2, 0, 2, 3], offset: 0 }
    );
    let meshes = [
        Mesh::rectangle(&mut ctx, stroke, rectangle),
        mesh_rounded_rectangle(&mut ctx, ShapeStyle::Fill, rectangle, BorderRadii::new(num(1.0))),
        Mesh::circle(&mut ctx, ShapeStyle::Fill, vec2(0.0, 0.0), num(4.0)),
        mesh_ellipse(&mut ctx, stroke, vec2(0.0, 0.0), vec2(4.0, 2.0)),
        mesh_polygon(&mut ctx, ShapeStyle::Fill, &triangle),
        Mesh::polyline(&mut ctx, num(1.0), &triangle),
    ];
    for mesh in meshes {
        let mesh = mesh.unwrap();
        let range = mesh.draw_range();
        assert!(range.count >= 3 && range.count % 3 == 0);
        assert_eq!(mesh.index_buffer().map(|b| b.count()), Some(range.count));
        assert!(mesh.vertex_buffer().count() >= 3);
    }
    assert_eq!(ctx.device.commands().len(), 24);
    let memory = replay(ctx.device.commands());
    let polygon = &memory[&13];
    assert_eq!(polygon.len(), 3);
    assert!(polygon.iter().all(|i| *i < 3));
}

#[test]
fn shape_meshes_fail_without_touching_the_device() {
    let mut ctx = context();
    let rectangle = Rectangle::new(num(0.0), num(0.0), num(8.0), num(4.0));
    let triangle = [vec2(0.0, 0.0), vec2(4.0, 0.0), vec2(0.0, 4.0)];
    let zero = ShapeStyle::Stroke(num(0.0));
    let width = Some(TetraError::TessellationError(TessellationFailure::StrokeWidth));
    let range = Some(TetraError::TessellationError(TessellationFailure::OutOfRange));
    assert_eq!(Mesh::rectangle(&mut ctx, zero, rectangle).err(), width);
    assert_eq!(
        mesh_rounded_rectangle(&mut ctx, zero, rectangle, BorderRadii::new(num(1.0))).err(),
        width
    );
    assert_eq!(Mesh::circle(&mut ctx, zero, vec2(0.0, 0.0), num(1.0)).err(), width);
    assert_eq!(mesh_ellipse(&mut ctx, zero, vec2(0.0, 0.0), vec2(1.0, 1.0)).err(), width);
    assert_eq!(mesh_polygon(&mut ctx, zero, &triangle).err(), width);
    assert_eq!(Mesh::polyline(&mut ctx, num(0.0), &triangle).err(), width);
    assert_eq!(
        mesh_polygon(&mut ctx, ShapeStyle::Fill, &triangle[..2]).err(),
        Some(TetraError::TessellationError(TessellationFailure::TooFewPoints))
    );
    assert_eq!(
        Mesh::circle(&mut ctx, ShapeStyle::Fill, vec2(f32::NAN, 0.0), num(1.0)).err(),
        range
    );
    assert!(ctx.device.commands().is_empty());
    assert_eq!(ctx.device.free_buffers(), 14);
}

#[test]
fn take_commands_starts_a_new_list() {
    let mut ctx = context();
    let buffer = IndexBuffer::new(&mut ctx, &[1, 2, 3]).unwrap();
    assert_eq!(ctx.device.commands().len(), 2);
    let taken = ctx.device.take_commands();
    assert_eq!(taken.len(), 2);
    assert!(ctx.device.commands().is_empty());
    buffer.set_data(&mut ctx, &[7], 2);
    assert_eq!(
        ctx.device.take_commands(),
        vec![DeviceCommand::SetIndexBufferData { id: 2, data: vec![7], offset: 2 }]
    );
    assert_eq!(ctx.device.free_buffers(), 13);
}

#[test]
fn the_last_handle_releases_the_buffer() {
    let mut ctx = context();
    let vertices = VertexBuffer::new(&mut ctx, &[vertex(0.0, 0.0); 3]).unwrap();
    let indices = IndexBuffer::new(&mut ctx, &[0, 1, 2]).unwrap();
    let clone = vertices.clone();
    let mesh = Mesh::indexed(vertices.clone(), indices);
    ctx.device.take_commands();
    assert!(!vertices.release(&mut ctx));
    assert!(!clone.release(&mut ctx));
    assert!(ctx.device.commands().is_empty());
    let last = mesh.vertex_buffer().clone();
    let index_handle = mesh.index_buffer().unwrap().clone();
    assert!(!index_handle.release(&mut ctx));
    let taken = match mesh.index_buffer() {
        Some(buffer) => buffer.id(),
        None => panic!("the mesh has lost its index buffer"),
    };
    assert_eq!(taken, 3);
    drop(mesh);
    assert!(last.release(&mut ctx));
    assert_eq!(ctx.device.commands(), &vec![DeviceCommand::DeleteBuffer { id: 2 }]);
    assert_eq!(ctx.device.free_buffers(), 12);
}

#[test]
fn a_released_buffer_is_gone_from_the_device() {
    let mut ctx = context();
    let vertices = VertexBuffer::new(&mut ctx, &[vertex(0.0, 0.0); 3]).unwrap();
    let indices = IndexBuffer::new(&mut ctx, &[0, 1, 2]).unwrap();
    assert!(indices.release(&mut ctx));
    let memory = replay(ctx.device.commands());
    assert!(memory.contains_key(&vertices.id()));
    assert!(!memory.contains_key(&3));
    assert_eq!(memory.len(), 1);
}

#[test]
fn an_unwrapped_buffer_is_released_and_a_handle_is_not() {
    let mut ctx = context();
    let vertices = RawVertexBuffer { id: 7, count: 3, stride: 8 };
    let indices = RawIndexBuffer { id: 9, count: 6 };
    assert!(!VertexBuffer::release_unwrapped(&mut ctx, Err(Rc::new(vertices))));
    assert!(!IndexBuffer::release_unwrapped(&mut ctx, Err(Rc::new(indices))));
    assert!(ctx.device.commands().is_empty());
    assert!(VertexBuffer::release_unwrapped(&mut ctx, Ok(vertices)));
    assert!(IndexBuffer::release_unwrapped(&mut ctx, Ok(indices)));
    assert_eq!(
        ctx.device.commands(),
        &vec![
            DeviceCommand::DeleteBuffer { id: 7 },
            DeviceCommand::DeleteBuffer { id: 9 },
        ]
    );
}
