use tetra::graphics::mesh::{BufferUsage, Vertex};
use tetra::graphics::{
    build_quad_indices, clear, flush, push_quad, reset_shader, set_shader, set_texture,
    set_transform_matrix, Color, GraphicsContext, Shader, Texture,
};
use tetra::math::{Float, Mat4, Vec2};
use tetra::platform::{DeviceCommand, GraphicsDevice};
use tetra::{Context, PlatformFailure, TetraError};

const DEFAULT_SHADER: Shader = Shader { id: 70 };
const DEFAULT_TEXTURE: Texture = Texture { id: 80 };
const A: Texture = Texture { id: 1 };
const B: Texture = Texture { id: 2 };

fn num(value: f32) -> Float {
    Float::from_bits(value.to_bits())
}

fn context(capacity: usize) -> Context {
    let mut device = GraphicsDevice::new(16);
    let graphics =
        GraphicsContext::new(&mut device, capacity, DEFAULT_SHADER, DEFAULT_TEXTURE, Mat4::identity())
            .unwrap();
    device.take_commands();
    Context::new(device, graphics)
}

fn quad(x: f32) -> [Vertex; 4] {
    let corner = |dx: f32, dy: f32| {
        Vertex::new(
            Vec2::new(num(x + dx), num(dy)),
            Vec2::new(num(dx), num(dy)),
            Color::white(),
        )
    };
    [corner(0.0, 0.0), corner(0.0, 1.0), corner(1.0, 1.0), corner(1.0, 0.0)]
}

fn words(quads: &[[Vertex; 4]]) -> Vec<u32> {
    let mut out = Vec::new();
    for quad in quads {
        for v in quad {
            out.extend_from_slice(&[
                v.position.x.bits,
                v.position.y.bits,
                v.uv.x.bits,
                v.uv.y.bits,
                v.color.r.bits,
                v.color.g.bits,
                v.color.b.bits,
                v.color.a.bits,
            ]);
        }
    }
    out
}

fn draws(commands: &[DeviceCommand]) -> usize {
    commands
        .iter()
        .filter(|c| matches!(c, DeviceCommand::DrawElements { .. } | DeviceCommand::DrawArrays { .. }))
        .count()
}

#[test]
fn quad_index_pattern() {
    assert_eq!(build_quad_indices(0), Vec::<u32>::new());
    assert_eq!(build_quad_indices(1), vec![0, 1, 2, 2, 3, 0]);
    assert_eq!(
        build_quad_indices(3),
        vec![0, 1, 2, 2, 3, 0, 4, 5, 6, 6, 7, 4, 8, 9, 10, 10, 11, 8]
    );
    let full = build_quad_indices(8191);
    assert_eq!(full.len(), 8191 * 6);
    assert_eq!(full[full.len() - 2], 8191 * 4 - 1);
    assert!(full.iter().all(|i| *i < 0x8000));
}

#[test]
fn creating_the_batcher_allocates_and_fills_its_buffers() {
    let mut device = GraphicsDevice::new(4);
    let graphics =
        GraphicsContext::new(&mut device, 2, DEFAULT_SHADER, DEFAULT_TEXTURE, Mat4::identity()).unwrap();
    assert_eq!(
        device.commands(),
        &vec![
            DeviceCommand::NewVertexBuffer { id: 0, count: 8, stride: 8, usage: BufferUsage::Dynamic },
            DeviceCommand::NewIndexBuffer { id: 1, count: 12, usage: BufferUsage::Static },
            DeviceCommand::SetIndexBufferData {
                id: 1,
                data: vec![0, 1, 2, 2, 3, 0, 4, 5, 6, 6, 7, 4],
                offset: 0
            },
        ]
    );
    assert_eq!(device.free_buffers(), 2);
    assert_eq!(graphics.capacity(), 2);
    assert_eq!(graphics.sprite_count(), 0);
    assert_eq!(graphics.texture(), None);
    assert_eq!(graphics.shader(), DEFAULT_SHADER);
    assert_eq!(graphics.default_texture(), DEFAULT_TEXTURE);
    assert_eq!(graphics.transform_matrix(), Mat4::identity());
}

#[test]
fn creating_the_batcher_needs_two_buffers() {
    let mut device = GraphicsDevice::new(1);
    let r = GraphicsContext::new(&mut device, 2, DEFAULT_SHADER, DEFAULT_TEXTURE, Mat4::identity());
    assert_eq!(r.err(), Some(TetraError::PlatformError(PlatformFailure::OutOfBuffers)));
    assert!(device.commands().is_empty());
    assert_eq!(device.free_buffers(), 1);
}

#[test]
fn textures_a_a_b_b_flush_once() {
    let mut ctx = context(4);
    set_texture(&mut ctx, &A);
    push_quad(&mut ctx, &A, &quad(0.0));
    set_texture(&mut ctx, &A);
    push_quad(&mut ctx, &A, &quad(1.0));
    assert!(ctx.device.commands().is_empty());
    set_texture(&mut ctx, &B);
    assert_eq!(draws(ctx.device.commands()), 1);
    push_quad(&mut ctx, &B, &quad(2.0));
    set_texture(&mut ctx, &B);
    push_quad(&mut ctx, &B, &quad(3.0));
    assert_eq!(draws(ctx.device.commands()), 1);
    assert_eq!(
        ctx.device.commands(),
        &vec![
            DeviceCommand::SetProjection {
                program: 70,
                projection: Mat4::identity(),
                view: Mat4::identity()
            },
            DeviceCommand::SetVertexBufferData {
                id: 0,
                data: words(&[quad(0.0), quad(1.0)]),
                offset: 0
            },
            DeviceCommand::DrawElements {
                vertex_buffer: 0,
                index_buffer: 1,
                texture: 1,
                program: 70,
                start: 0,
                count: 12
            },
        ]
    );
    assert_eq!(ctx.graphics.sprite_count(), 2);
    assert_eq!(ctx.graphics.texture(), Some(B));
}

#[test]
fn binding_the_bound_texture_does_nothing() {
    let mut ctx = context(4);
    push_quad(&mut ctx, &A, &quad(0.0));
    set_texture(&mut ctx, &A);
    set_texture(&mut ctx, &A);
    assert!(ctx.device.commands().is_empty());
    assert_eq!(ctx.graphics.sprite_count(), 1);
    assert_eq!(ctx.graphics.texture(), Some(A));
}

#[test]
fn first_texture_is_bound_without_a_flush() {
    let mut ctx = context(4);
    set_texture(&mut ctx, &B);
    assert!(ctx.device.commands().is_empty());
    assert_eq!(ctx.graphics.texture(), Some(B));
    set_texture(&mut ctx, &A);
    assert!(ctx.device.commands().is_empty());
    assert_eq!(ctx.graphics.texture(), Some(A));
}

#[test]
fn flush_without_sprites_is_a_no_op() {
    let mut ctx = context(4);
    flush(&mut ctx);
    set_texture(&mut ctx, &A);
    flush(&mut ctx);
    assert!(ctx.device.commands().is_empty());
    assert_eq!(ctx.graphics.texture(), Some(A));
}

#[test]
fn flush_submits_and_resets() {
    let mut ctx = context(4);
    push_quad(&mut ctx, &A, &quad(5.0));
    flush(&mut ctx);
    assert_eq!(ctx.graphics.sprite_count(), 0);
    assert_eq!(ctx.graphics.texture(), Some(A));
    let commands = ctx.device.take_commands();
    assert_eq!(commands.len(), 3);
    assert_eq!(
        commands[1],
        DeviceCommand::SetVertexBufferData { id: 0, data: words(&[quad(5.0)]), offset: 0 }
    );
    assert_eq!(
        commands[2],
        DeviceCommand::DrawElements {
            vertex_buffer: 0,
            index_buffer: 1,
            texture: 1,
            program: 70,
            start: 0,
            count: 6
        }
    );
    flush(&mut ctx);
    assert!(ctx.device.commands().is_empty());
    push_quad(&mut ctx, &A, &quad(6.0));
    flush(&mut ctx);
    assert_eq!(
        ctx.device.commands()[1],
        DeviceCommand::SetVertexBufferData { id: 0, data: words(&[quad(6.0)]), offset: 0 }
    );
}

#[test]
fn a_full_batch_is_flushed_to_make_room() {
    let mut ctx = context(2);
    push_quad(&mut ctx, &A, &quad(0.0));
    push_quad(&mut ctx, &A, &quad(1.0));
    assert!(ctx.device.commands().is_empty());
    assert_eq!(ctx.graphics.sprite_count(), 2);
    push_quad(&mut ctx, &A, &quad(2.0));
    assert_eq!(draws(ctx.device.commands()), 1);
    assert_eq!(
        ctx.device.commands()[2],
        DeviceCommand::DrawElements {
            vertex_buffer: 0,
            index_buffer: 1,
            texture: 1,
            program: 70,
            start: 0,
            count: 12
        }
    );
    assert_eq!(ctx.graphics.sprite_count(), 1);
    flush(&mut ctx);
    assert_eq!(
        ctx.device.commands()[4],
        DeviceCommand::SetVertexBufferData { id: 0, data: words(&[quad(2.0)]), offset: 0 }
    );
}

#[test]
fn shader_changes_flush_first() {
    let mut ctx = context(4);
    let custom = Shader { id: 9 };
    push_quad(&mut ctx, &A, &quad(0.0));
    set_shader(&mut ctx, &custom);
    assert_eq!(ctx.graphics.shader(), custom);
    assert_eq!(draws(ctx.device.commands()), 1);
    assert_eq!(
        ctx.device.commands()[0],
        DeviceCommand::SetProjection { program: 70, projection: Mat4::identity(), view: Mat4::identity() }
    );
    push_quad(&mut ctx, &A, &quad(1.0));
    reset_shader(&mut ctx);
    assert_eq!(ctx.graphics.shader(), DEFAULT_SHADER);
    assert_eq!(draws(ctx.device.commands()), 2);
    assert_eq!(
        ctx.device.commands()[5],
        DeviceCommand::DrawElements {
            vertex_buffer: 0,
            index_buffer: 1,
            texture: 1,
            program: 9,
            start: 0,
            count: 6
        }
    );
}

#[test]
fn transform_changes_flush_first() {
    let mut ctx = context(4);
    let mut cols = [[num(0.0); 4]; 4];
    cols[0][0] = num(2.0);
    let doubled = Mat4::from_cols(cols);
    push_quad(&mut ctx, &A, &quad(0.0));
    set_transform_matrix(&mut ctx, doubled);
    assert_eq!(ctx.graphics.transform_matrix(), doubled);
    assert_eq!(
        ctx.device.commands()[0],
        DeviceCommand::SetProjection { program: 70, projection: Mat4::identity(), view: Mat4::identity() }
    );
    push_quad(&mut ctx, &A, &quad(1.0));
    flush(&mut ctx);
    assert_eq!(
        ctx.device.commands()[3],
        DeviceCommand::SetProjection { program: 70, projection: Mat4::identity(), view: doubled }
    );
}

#[test]
fn clear_records_the_color() {
    let mut ctx = context(4);
    let color = Color::rgba(num(0.5), num(0.25), num(0.0), num(1.0));
    push_quad(&mut ctx, &A, &quad(0.0));
    clear(&mut ctx, color);
    assert_eq!(ctx.device.commands(), &vec![DeviceCommand::Clear { color }]);
    assert_eq!(ctx.graphics.sprite_count(), 1);
}

#[test]
fn runs_of_quads_flush_once_per_texture_change() {
    let mut ctx = context(4);
    for i in 0..3 {
        set_texture(&mut ctx, &A);
        push_quad(&mut ctx, &A, &quad(i as f32));
    }
    assert!(ctx.device.commands().is_empty());
    assert_eq!(ctx.graphics.sprite_count(), 3);
    for i in 0..4 {
        push_quad(&mut ctx, &B, &quad(10.0 + i as f32));
        set_texture(&mut ctx, &B);
    }
    assert_eq!(draws(ctx.device.commands()), 1);
    assert_eq!(ctx.device.commands().len(), 3);
    assert_eq!(
        ctx.device.commands()[1],
        DeviceCommand::SetVertexBufferData {
            id: 0,
            data: words(&[quad(0.0), quad(1.0), quad(2.0)]),
            offset: 0
        }
    );
    assert_eq!(
        ctx.device.commands()[2],
        DeviceCommand::DrawElements {
            vertex_buffer: 0,
            index_buffer: 1,
            texture: 1,
            program: 70,
            start: 0,
            count: 18
        }
    );
    assert_eq!(ctx.graphics.sprite_count(), 4);
    assert_eq!(ctx.graphics.texture(), Some(B));
}
