//! Colors, draw parameters and the quad batcher.

pub mod mesh;
pub mod tessellation;

use vstd::prelude::*;
use crate::graphics::mesh::vertex_words;
use crate::graphics::mesh::BufferUsage;
use crate::graphics::mesh::Vertex;
use crate::graphics::mesh::VERTEX_STRIDE;
use crate::math::Float;
use crate::math::Mat4;
use crate::math::Vec2;
use crate::math::ONE_BITS;
use crate::platform::lemma_written;
use crate::platform::replayed;
use crate::platform::Command;
use crate::platform::DeviceState;
use crate::platform::GraphicsDevice;
use crate::platform::RawIndexBuffer;
use crate::platform::RawVertexBuffer;
use crate::Context;
use crate::PlatformFailure;
use crate::TetraError;

verus! {

/// An RGBA color.
#[derive(Copy, Clone, Debug, PartialEq, Eq, Structural)]
pub struct Color {
    pub r: Float,
    pub g: Float,
    pub b: Float,
    pub a: Float,
}

impl Color {
    /// Opaque white: every channel is one.
    pub open spec fn spec_white() -> Color {
        Color {
            r: Float { bits: ONE_BITS },
            g: Float { bits: ONE_BITS },
            b: Float { bits: ONE_BITS },
            a: Float { bits: ONE_BITS },
        }
    }

    /// Creates a color from its four channels.
    pub fn rgba(r: Float, g: Float, b: Float, a: Float) -> (c: Color)
        ensures
            c == (Color { r, g, b, a }),
    {
        Color { r, g, b, a }
    }

    /// Opaque white.
    pub fn white() -> (c: Color)
        ensures
            c == Color::spec_white(),
    {
        Color { r: Float::one(), g: Float::one(), b: Float::one(), a: Float::one() }
    }
}

/// A rectangle, by its top left corner and its size.
#[derive(Debug, PartialEq, Eq, Structural)]
pub struct Rectangle<T = Float> {
    pub x: T,
    pub y: T,
    pub width: T,
    pub height: T,
}

impl<T: Copy> Copy for Rectangle<T> {

}

impl<T: Copy> Clone for Rectangle<T> {
    fn clone(&self) -> (r: Self)
        ensures
            r == *self,
    {
        *self
    }
}

impl<T> Rectangle<T> {
    /// Creates a rectangle.
    pub fn new(x: T, y: T, width: T, height: T) -> (r: Rectangle<T>)
        ensures
            r == (Rectangle { x, y, width, height }),
    {
        Rectangle { x, y, width, height }
    }
}

impl Rectangle<Float> {
    /// Whether the corner and the size are finite.
    pub open spec fn is_finite(self) -> bool {
        &&& self.x.is_finite()
        &&& self.y.is_finite()
        &&& self.width.is_finite()
        &&& self.height.is_finite()
    }

    /// Whether the corner and the size can be numbers of a curve that is
    /// stroked.
    pub open spec fn is_curve_size(self) -> bool {
        &&& self.x.is_curve_size()
        &&& self.y.is_curve_size()
        &&& self.width.is_curve_size()
        &&& self.height.is_curve_size()
    }

    /// Tells whether the corner and the size are finite.
    pub fn finite(&self) -> (b: bool)
        ensures
            b == self.is_finite(),
    {
        self.x.finite() && self.y.finite() && self.width.finite() && self.height.finite()
    }

    /// Tells whether the corner and the size can be numbers of a curve that
    /// is stroked.
    pub fn curve_size(&self) -> (b: bool)
        ensures
            b == self.is_curve_size(),
    {
        self.x.curve_size() && self.y.curve_size() && self.width.curve_size()
            && self.height.curve_size()
    }

    /// The bit patterns of the corner and the size: `x`, `y`, `width`,
    /// `height`.
    pub fn to_bits(&self) -> (bits: [u32; 4])
        ensures
            bits[0] == self.x.bits,
            bits[1] == self.y.bits,
            bits[2] == self.width.bits,
            bits[3] == self.height.bits,
    {
        [self.x.bits, self.y.bits, self.width.bits, self.height.bits]
    }
}

/// A texture that lives on the device, by its name there.
#[derive(Copy, Clone, Debug, PartialEq, Eq, Structural)]
pub struct Texture {
    pub id: u32,
}

/// A shader program that lives on the device, by its name there.
#[derive(Copy, Clone, Debug, PartialEq, Eq, Structural)]
pub struct Shader {
    pub id: u32,
}

/// How a drawable is placed: it is moved by `pivot`, then scaled by `scale`,
/// then turned about the z axis by `rotation`, then moved by `position`, in
/// that order.
#[derive(Copy, Clone, Debug, PartialEq, Eq, Structural)]
pub struct Transform {
    pub pivot: Vec2,
    pub scale: Vec2,
    pub rotation: Float,
    pub position: Vec2,
}

/// How a drawable is drawn.
#[derive(Copy, Clone, Debug, PartialEq, Eq)]
pub struct DrawParams {
    /// Where the drawable is put.
    pub position: Vec2,
    /// By how much each axis is scaled.
    pub scale: Vec2,
    /// The point of the drawable, in its own co-ordinates, that is put at
    /// `position` and that the drawable is scaled and turned about.
    pub origin: Vec2,
    /// The angle, in radians, by which the drawable is turned.
    pub rotation: Float,
    /// The color that the colors of the drawable are multiplied by.
    pub color: Color,
    /// The part of the target that drawing is confined to, if any.
    pub clip: Option<Rectangle>,
}

impl DrawParams {
    /// The parameters that change nothing: the drawable is put at the origin,
    /// at its own size, unturned, with its own colors, unclipped.
    pub open spec fn spec_default() -> DrawParams {
        DrawParams {
            position: Vec2::spec_zero(),
            scale: Vec2 { x: Float { bits: ONE_BITS }, y: Float { bits: ONE_BITS } },
            origin: Vec2::spec_zero(),
            rotation: Float { bits: 0 },
            color: Color::spec_white(),
            clip: None,
        }
    }

    /// How the parameters place the drawable: the origin is taken away
    /// first, then come scale and rotation, and the position is added last.
    pub open spec fn transform(self) -> Transform {
        Transform {
            pivot: self.origin.negated(),
            scale: self.scale,
            rotation: self.rotation,
            position: self.position,
        }
    }

    /// Creates the parameters that change nothing.
    pub fn new() -> (p: DrawParams)
        ensures
            p == DrawParams::spec_default(),
    {
        DrawParams {
            position: Vec2::zero(),
            scale: Vec2::one(),
            origin: Vec2::zero(),
            rotation: Float::zero(),
            color: Color::white(),
            clip: None,
        }
    }

    /// Sets where the drawable is put.
    pub fn position(self, position: Vec2) -> (p: DrawParams)
        ensures
            p == (DrawParams { position, ..self }),
    {
        DrawParams { position, ..self }
    }

    /// Sets by how much each axis is scaled.
    pub fn scale(self, scale: Vec2) -> (p: DrawParams)
        ensures
            p == (DrawParams { scale, ..self }),
    {
        DrawParams { scale, ..self }
    }

    /// Sets the point that the drawable is placed by.
    pub fn origin(self, origin: Vec2) -> (p: DrawParams)
        ensures
            p == (DrawParams { origin, ..self }),
    {
        DrawParams { origin, ..self }
    }

    /// Sets the angle by which the drawable is turned.
    pub fn rotation(self, rotation: Float) -> (p: DrawParams)
        ensures
            p == (DrawParams { rotation, ..self }),
    {
        DrawParams { rotation, ..self }
    }

    /// Sets the color that the drawable is tinted with.
    pub fn color(self, color: Color) -> (p: DrawParams)
        ensures
            p == (DrawParams { color, ..self }),
    {
        DrawParams { color, ..self }
    }

    /// Confines drawing to a rectangle.
    pub fn clip(self, clip: Rectangle) -> (p: DrawParams)
        ensures
            p == (DrawParams { clip: Some(clip), ..self }),
    {
        DrawParams { clip: Some(clip), ..self }
    }

    /// Works out how the parameters place the drawable.
    pub fn to_transform(&self) -> (t: Transform)
        ensures
            t == self.transform(),
    {
        Transform {
            pivot: self.origin.neg(),
            scale: self.scale,
            rotation: self.rotation,
            position: self.position,
        }
    }
}

impl Default for DrawParams {
    fn default() -> (p: DrawParams)
        ensures
            p == DrawParams::spec_default(),
    {
        DrawParams::new()
    }
}

impl From<Vec2> for DrawParams {
    fn from(position: Vec2) -> (p: DrawParams) {
        DrawParams::new().position(position)
    }
}

impl vstd::std_specs::convert::FromSpecImpl<Vec2> for DrawParams {
    open spec fn obeys_from_spec() -> bool {
        true
    }

    open spec fn from_spec(position: Vec2) -> DrawParams {
        DrawParams { position, ..DrawParams::spec_default() }
    }
}

/// Something that can be drawn.
pub trait Drawable {
    /// What drawing with `params` asks of the device, given what the batcher
    /// holds.
    spec fn draw_commands(&self, batch: BatchState, params: DrawParams) -> Seq<Command>;

    /// What the batcher holds after drawing with `params`.
    spec fn batch_after_draw(&self, batch: BatchState, params: DrawParams) -> BatchState;

    /// Draws `self` with the given parameters.
    fn draw(&self, ctx: &mut Context, params: DrawParams)
        requires
            old(ctx).wf(),
        ensures
            final(ctx).wf(),
            final(ctx).graphics@ == self.batch_after_draw(old(ctx).graphics@, params),
            final(ctx).device@ == old(ctx).device@.with_commands(
                self.draw_commands(old(ctx).graphics@, params),
            ),
    ;
}

/// The most vertices one batch can have. The vertices of a batch are
/// counted, and its indices name them, in signed sixteen-bit numbers, of
/// which 32 767 is the largest.
pub const MAX_BATCH_VERTICES: usize = 0x7FFF;

/// The most quads one batch can hold: with four vertices to a quad, the
/// most whose vertices can still be counted.
pub const MAX_SPRITES: usize = 8191;

/// Whether a batch of `capacity` quads can be made: it holds a quad, and
/// its vertices can be counted in a signed sixteen-bit number.
pub open spec fn capacity_fits(capacity: nat) -> bool {
    1 <= capacity && QUAD_VERTICES * capacity <= MAX_BATCH_VERTICES
}

/// The batches that can be made are those of one to [`MAX_SPRITES`] quads.
pub proof fn lemma_capacity_fits(capacity: nat)
    ensures
        capacity_fits(capacity) <==> 1 <= capacity <= MAX_SPRITES,
{
}

/// Whether every index of the index buffer of a batch of `capacity` quads
/// names a vertex of the batch, in a signed sixteen-bit number.
pub open spec fn indices_fit(capacity: nat) -> bool {
    forall|i: int|
        0 <= i < quad_indices(capacity).len() ==> (#[trigger] quad_indices(capacity)[i])
            < QUAD_VERTICES * capacity <= MAX_BATCH_VERTICES
}

/// The indices of a batch that can be made fit.
pub proof fn lemma_indices_fit(capacity: nat)
    requires
        capacity_fits(capacity),
    ensures
        indices_fit(capacity),
{
    assert forall|i: int| 0 <= i < quad_indices(capacity).len() implies (#[trigger] quad_indices(
        capacity,
    )[i]) < QUAD_VERTICES * capacity <= MAX_BATCH_VERTICES by {
        lemma_quad_index_bounds(capacity, i);
    }
}


/// How many vertices make a quad.
pub const QUAD_VERTICES: usize = 4;

/// How many indices draw a quad: two triangles.
pub const QUAD_INDICES: usize = 6;

/// How many words a quad takes in the batch: four vertices.
pub const QUAD_WORDS: usize = 32;

/// The corners of a quad in the order in which its two triangles name them:
/// the first triangle is made of corners 0, 1 and 2, the second of corners
/// 2, 3 and 0.
pub open spec fn quad_corners() -> Seq<int> {
    seq![0int, 1int, 2int, 2int, 3int, 0int]
}

/// The vertex that index `i` of the batch's index buffer names: quad
/// `i / 6` has the vertices from `4 * (i / 6)` on, and index `i` names its
/// corner `quad_corners()[i % 6]`.
pub open spec fn quad_index(i: int) -> int {
    4 * (i / 6) + quad_corners()[i % 6]
}

/// The index buffer of a batch of `capacity` quads.
pub open spec fn quad_indices(capacity: nat) -> Seq<u32> {
    Seq::new(6 * capacity, |i: int| quad_index(i) as u32)
}

/// Every index of a batch names a vertex of the batch, and belongs to the
/// quad that its place in the buffer says.
pub proof fn lemma_quad_index_bounds(capacity: nat, i: int)
    requires
        0 <= i < 6 * capacity,
    ensures
        4 * (i / 6) <= quad_index(i) < 4 * (i / 6) + 4,
        0 <= quad_index(i) < 4 * capacity,
        capacity <= MAX_SPRITES ==> quad_index(i) < 0x8000,
{
}

/// Builds the index buffer of a batch of `capacity` quads.
pub fn build_quad_indices(capacity: usize) -> (indices: Vec<u32>)
    requires
        capacity <= MAX_SPRITES,
    ensures
        indices@ == quad_indices(capacity as nat),
{
    let mut indices: Vec<u32> = Vec::new();
    let mut quad: usize = 0;
    while quad < capacity
        invariant
            quad <= capacity <= MAX_SPRITES,
            indices@ == quad_indices(quad as nat),
        decreases capacity - quad,
    {
        let base: u32 = (quad * QUAD_VERTICES) as u32;
        indices.push(base);
        indices.push(base + 1);
        indices.push(base + 2);
        indices.push(base + 2);
        indices.push(base + 3);
        indices.push(base);
        quad = quad + 1;
        assert(indices@ =~= quad_indices(quad as nat));
    }
    indices
}

/// The shader that draws: the built-in one, or one the caller has set.
#[derive(Copy, Clone, Debug, PartialEq, Eq, Structural)]
pub enum ActiveShader {
    Default,
    User(Shader),
}

/// What the batcher holds, as plain values.
pub struct BatchState {
    /// The device buffer the quads are uploaded to.
    pub vertex_buffer: RawVertexBuffer,
    /// The device buffer that holds the index pattern of the quads.
    pub index_buffer: RawIndexBuffer,
    /// The texture the pending quads are drawn with, once one was bound.
    pub texture: Option<Texture>,
    /// The shader that draws.
    pub shader: ActiveShader,
    pub default_shader: Shader,
    pub default_texture: Texture,
    pub projection: Mat4,
    pub transform: Mat4,
    /// The words of the pending quads.
    pub vertices: Seq<u32>,
    /// How many quads are pending.
    pub sprite_count: nat,
    /// How many quads one batch can hold.
    pub capacity: nat,
}

impl BatchState {
    /// Whether the state is one the batcher can be in.
    pub open spec fn wf(self) -> bool {
        &&& 1 <= self.capacity <= MAX_SPRITES
        &&& self.sprite_count <= self.capacity
        &&& self.vertices.len() == QUAD_WORDS * self.sprite_count
        &&& (self.texture is None ==> self.sprite_count == 0)
        &&& self.vertex_buffer.count == QUAD_VERTICES * self.capacity
        &&& self.vertex_buffer.stride == VERTEX_STRIDE
        &&& self.index_buffer.count == QUAD_INDICES * self.capacity
    }

    /// The name of the program that draws.
    pub open spec fn program(self) -> u32 {
        match self.shader {
            ActiveShader::Default => self.default_shader.id,
            ActiveShader::User(shader) => shader.id,
        }
    }

    /// Whether a flush has anything to submit.
    pub open spec fn has_pending(self) -> bool {
        self.sprite_count > 0 && self.texture is Some
    }

    /// What a flush asks of the device: nothing when no quad is pending;
    /// else the projection, the upload of the pending words to the start of
    /// the vertex buffer, and one draw call over six indices per quad.
    pub open spec fn flush_commands(self) -> Seq<Command> {
        if self.has_pending() {
            seq![
                Command::SetProjection {
                    program: self.program(),
                    projection: self.projection,
                    view: self.transform,
                },
                Command::SetVertexBufferData {
                    id: self.vertex_buffer.id,
                    data: self.vertices,
                    offset: 0,
                },
                Command::DrawElements {
                    vertex_buffer: self.vertex_buffer.id,
                    index_buffer: self.index_buffer.id,
                    texture: self.texture->0.id,
                    program: self.program(),
                    start: 0,
                    count: (QUAD_INDICES * self.sprite_count) as usize,
                },
            ]
        } else {
            Seq::empty()
        }
    }

    /// The state after a flush: no quad is pending, all else is kept.
    pub open spec fn flushed(self) -> BatchState {
        if self.has_pending() {
            BatchState { vertices: Seq::empty(), sprite_count: 0, ..self }
        } else {
            self
        }
    }

    /// Whether binding `texture` forces a flush: another texture is bound.
    pub open spec fn rebinds(self, texture: Texture) -> bool {
        self.texture is Some && self.texture != Some(texture)
    }

    /// The state after `texture` was bound.
    pub open spec fn bound(self, texture: Texture) -> BatchState {
        if self.rebinds(texture) {
            BatchState { texture: Some(texture), ..self.flushed() }
        } else {
            BatchState { texture: Some(texture), ..self }
        }
    }

    /// What binding `texture` asks of the device.
    pub open spec fn bind_commands(self, texture: Texture) -> Seq<Command> {
        if self.rebinds(texture) {
            self.flush_commands()
        } else {
            Seq::empty()
        }
    }

    /// Whether the batch can take no more quads.
    pub open spec fn is_full(self) -> bool {
        self.sprite_count >= self.capacity
    }

    /// The state after one more quad was put behind the pending ones.
    pub open spec fn pushed(self, quad: Seq<Vertex>) -> BatchState {
        BatchState {
            vertices: self.vertices + vertex_words(quad),
            sprite_count: self.sprite_count + 1,
            ..self
        }
    }

    /// The state after room was made for a quad: a full batch is flushed.
    pub open spec fn with_room(self) -> BatchState {
        if self.is_full() {
            self.flushed()
        } else {
            self
        }
    }

    /// What making room for a quad asks of the device.
    pub open spec fn room_commands(self) -> Seq<Command> {
        if self.is_full() {
            self.flush_commands()
        } else {
            Seq::empty()
        }
    }

    /// The state after a quad with `texture` was pushed: the texture is
    /// bound, room is made, and the quad is put behind the pending ones.
    pub open spec fn quad_pushed(self, texture: Texture, quad: Seq<Vertex>) -> BatchState {
        self.bound(texture).with_room().pushed(quad)
    }

    /// What pushing a quad with `texture` asks of the device.
    pub open spec fn push_commands(self, texture: Texture) -> Seq<Command> {
        self.bind_commands(texture) + self.bound(texture).room_commands()
    }
}

/// How many of the commands are draw calls.
pub open spec fn draw_calls(commands: Seq<Command>) -> nat
    decreases commands.len(),
{
    if commands.len() == 0 {
        0
    } else {
        draw_calls(commands.drop_last()) + if commands.last().is_draw() {
            1nat
        } else {
            0nat
        }
    }
}

/// The draw calls of two lists of commands, one after the other, are those
/// of the first and those of the second.
pub proof fn lemma_draw_calls_concat(a: Seq<Command>, b: Seq<Command>)
    ensures
        draw_calls(a + b) == draw_calls(a) + draw_calls(b),
    decreases b.len(),
{
    if b.len() == 0 {
        assert(a + b =~= a);
    } else {
        lemma_draw_calls_concat(a, b.drop_last());
        assert((a + b).drop_last() =~= a + b.drop_last());
        assert((a + b).last() == b.last());
    }
}

/// A flush is one draw call when quads are pending, and nothing at all when
/// none is. The one draw call covers six indices for each pending quad,
/// from the first index on, with the texture that is bound; and after it no
/// quad is pending.
pub proof fn lemma_flush(batch: BatchState)
    requires
        batch.wf(),
    ensures
        batch.flushed().wf(),
        batch.flushed().sprite_count == 0,
        batch.flushed().texture == batch.texture,
        batch.sprite_count == 0 ==> batch.flush_commands() == Seq::<Command>::empty()
            && batch.flushed() == batch,
        batch.sprite_count > 0 ==> draw_calls(batch.flush_commands()) == 1
            && batch.flush_commands().last() == (Command::DrawElements {
            vertex_buffer: batch.vertex_buffer.id,
            index_buffer: batch.index_buffer.id,
            texture: batch.texture->0.id,
            program: batch.program(),
            start: 0,
            count: (QUAD_INDICES * batch.sprite_count) as usize,
        }),
        draw_calls(batch.flush_commands()) == (if batch.sprite_count > 0 {
            1nat
        } else {
            0nat
        }),
        batch.flushed().flush_commands() == Seq::<Command>::empty(),
{
    reveal_with_fuel(draw_calls, 4);
    if batch.sprite_count > 0 {
        let commands = batch.flush_commands();
        assert(commands.drop_last() =~= seq![commands[0], commands[1]]);
        assert(commands.drop_last().drop_last() =~= seq![commands[0]]);
        assert(commands.drop_last().drop_last().drop_last() =~= Seq::<Command>::empty());
    }
}

/// The pending quads fit the batcher's buffers: their vertices are no more
/// than the vertex buffer holds, their words no more than its words, and
/// the indices that draw them no more than the index buffer holds.
pub proof fn lemma_pending_quads_fit(batch: BatchState)
    requires
        batch.wf(),
    ensures
        QUAD_VERTICES * batch.sprite_count <= batch.vertex_buffer.count,
        batch.vertices.len() <= batch.vertex_buffer.words(),
        QUAD_INDICES * batch.sprite_count <= batch.index_buffer.count,
        batch.texture is None ==> batch.sprite_count == 0,
{
}

/// What a flush leaves on the device: the batcher's vertex buffer holds the
/// words of the pending quads from its start on, and what it held behind
/// them; every other buffer holds what it held.
pub proof fn lemma_flush_uploads(batch: BatchState, memory: Map<u32, Seq<u32>>)
    requires
        batch.wf(),
        batch.sprite_count > 0,
        memory.dom().contains(batch.vertex_buffer.id),
        memory[batch.vertex_buffer.id].len() == QUAD_WORDS * batch.capacity,
    ensures
        ({
            let id = batch.vertex_buffer.id;
            let after = replayed(batch.flush_commands(), memory);
            &&& after.dom() == memory.dom()
            &&& after[id].len() == memory[id].len()
            &&& after[id].subrange(0, batch.vertices.len() as int) == batch.vertices
            &&& forall|i: int|
                batch.vertices.len() <= i < memory[id].len() ==> after[id][i] == memory[id][i]
            &&& forall|other: u32|
                other != id && memory.dom().contains(other) ==> after[other] == memory[other]
        }),
{
    let commands = batch.flush_commands();
    let id = batch.vertex_buffer.id;
    assert(replayed(commands, memory) == commands[1].applied(memory)) by {
        reveal_with_fuel(replayed, 4);
        assert(commands.drop_last() =~= seq![commands[0], commands[1]]);
        assert(commands.drop_last().drop_last() =~= seq![commands[0]]);
        assert(commands.drop_last().drop_last().drop_last() =~= Seq::<Command>::empty());
    }
    lemma_written(memory, id, batch.vertices, 0);
}

/// Binding a texture flushes only when another texture is bound: the first
/// texture is bound as it is, and binding the texture that is bound already
/// changes nothing and asks nothing of the device.
pub proof fn lemma_bind(batch: BatchState, texture: Texture)
    requires
        batch.wf(),
    ensures
        batch.bound(texture).wf(),
        batch.bound(texture).texture == Some(texture),
        batch.texture == Some(texture) ==> batch.bound(texture) == batch && batch.bind_commands(
            texture,
        ) == Seq::<Command>::empty(),
        batch.texture is None ==> batch.bound(texture) == (BatchState {
            texture: Some(texture),
            ..batch
        }) && batch.bind_commands(texture) == Seq::<Command>::empty(),
        batch.rebinds(texture) ==> batch.bound(texture).sprite_count == 0 && batch.bind_commands(
            texture,
        ) == batch.flush_commands(),
        draw_calls(batch.bind_commands(texture)) == (if batch.rebinds(texture) && batch.sprite_count
            > 0 {
            1nat
        } else {
            0nat
        }),
{
    lemma_flush(batch);
}

/// Pushing a quad keeps the batcher in order, binds the texture of the quad
/// and leaves at least that quad pending. It makes a draw call only where
/// the texture changes over pending quads or the batch is full.
pub proof fn lemma_push(batch: BatchState, texture: Texture, quad: Seq<Vertex>)
    requires
        batch.wf(),
        quad.len() == QUAD_VERTICES,
    ensures
        batch.quad_pushed(texture, quad).wf(),
        batch.quad_pushed(texture, quad).texture == Some(texture),
        batch.quad_pushed(texture, quad).sprite_count >= 1,
        !batch.rebinds(texture) && batch.sprite_count < batch.capacity ==> batch.push_commands(
            texture,
        ) == Seq::<Command>::empty() && batch.quad_pushed(texture, quad).sprite_count
            == batch.sprite_count + 1,
        batch.rebinds(texture) && batch.sprite_count > 0 ==> draw_calls(
            batch.push_commands(texture),
        ) == 1 && batch.quad_pushed(texture, quad).sprite_count == 1,
{
    lemma_bind(batch, texture);
    let bound = batch.bound(texture);
    lemma_flush(bound);
    crate::graphics::mesh::lemma_vertex_words(quad);
    lemma_draw_calls_concat(batch.bind_commands(texture), bound.room_commands());
    if !batch.rebinds(texture) && batch.sprite_count < batch.capacity {
        assert(batch.push_commands(texture) =~= Seq::<Command>::empty());
    }
}

/// What the batcher holds after the quads of a run were pushed one after
/// the other, each with `texture`.
pub open spec fn run_pushed(batch: BatchState, texture: Texture, quads: Seq<Seq<Vertex>>) -> BatchState
    decreases quads.len(),
{
    if quads.len() == 0 {
        batch
    } else {
        run_pushed(batch, texture, quads.drop_last()).quad_pushed(texture, quads.last())
    }
}

/// What pushing the quads of a run one after the other, each with
/// `texture`, asks of the device.
pub open spec fn run_commands(batch: BatchState, texture: Texture, quads: Seq<Seq<Vertex>>) -> Seq<
    Command,
>
    decreases quads.len(),
{
    if quads.len() == 0 {
        Seq::empty()
    } else {
        run_commands(batch, texture, quads.drop_last()) + run_pushed(
            batch,
            texture,
            quads.drop_last(),
        ).push_commands(texture)
    }
}

/// Whether every quad of a run has its four vertices.
pub open spec fn quads_of_run(quads: Seq<Seq<Vertex>>) -> bool {
    forall|i: int| 0 <= i < quads.len() ==> (#[trigger] quads[i]).len() == QUAD_VERTICES
}

/// A run of quads under one texture flushes at most once, and only at its
/// start: where another texture was bound, the first push submits what was
/// pending under it and the quads of the run are left pending; where none
/// or the same texture was bound and the batch has room for the run, the
/// quads are put behind the pending ones and nothing is asked of the device.
pub proof fn lemma_run(batch: BatchState, texture: Texture, quads: Seq<Seq<Vertex>>)
    requires
        batch.wf(),
        quads_of_run(quads),
        quads.len() > 0,
        if batch.rebinds(texture) {
            quads.len() <= batch.capacity
        } else {
            batch.sprite_count + quads.len() <= batch.capacity
        },
    ensures
        run_pushed(batch, texture, quads).wf(),
        run_pushed(batch, texture, quads).texture == Some(texture),
        batch.rebinds(texture) ==> run_commands(batch, texture, quads) == batch.flush_commands()
            && run_pushed(batch, texture, quads).sprite_count == quads.len(),
        !batch.rebinds(texture) ==> run_commands(batch, texture, quads) == Seq::<Command>::empty()
            && run_pushed(batch, texture, quads).sprite_count == batch.sprite_count + quads.len(),
    decreases quads.len(),
{
    let init = quads.drop_last();
    let before = run_pushed(batch, texture, init);
    assert(quads.last().len() == QUAD_VERTICES);
    if init.len() == 0 {
        assert(before == batch);
        assert(run_commands(batch, texture, init) == Seq::<Command>::empty());
        lemma_bind(batch, texture);
        lemma_push(batch, texture, quads.last());
        if batch.rebinds(texture) {
            assert(batch.push_commands(texture) =~= batch.flush_commands());
        }
        assert(run_commands(batch, texture, quads) =~= batch.push_commands(texture));
    } else {
        assert(quads_of_run(init)) by {
            assert forall|i: int| 0 <= i < init.len() implies (#[trigger] init[i]).len()
                == QUAD_VERTICES by {
                assert(init[i] == quads[i]);
            }
        }
        lemma_run(batch, texture, init);
        lemma_run_keeps(batch, texture, init);
        assert(!before.rebinds(texture));
        assert(before.sprite_count < before.capacity);
        lemma_bind(before, texture);
        lemma_push(before, texture, quads.last());
        assert(before.push_commands(texture) == Seq::<Command>::empty());
        assert(run_commands(batch, texture, quads) =~= run_commands(batch, texture, init));
    }
}

/// Quads pushed under one texture, then under another, make one draw call.
/// With nothing pending at the start, a run of quads under `a` and then a
/// run under `b`, each no longer than the batch holds, the one flush is
/// that of the quads of `a`, made by the first push under `b`; the quads of
/// `b` are left pending, and `b` is left bound. Binding `a` again between
/// the quads of `a`, or `b` between those of `b`, asks nothing of the
/// device, as [`lemma_bind`] says.
pub proof fn lemma_one_flush_per_texture_change(
    batch: BatchState,
    a: Texture,
    b: Texture,
    first: Seq<Seq<Vertex>>,
    second: Seq<Seq<Vertex>>,
)
    requires
        batch.wf(),
        batch.sprite_count == 0,
        !batch.rebinds(a),
        a != b,
        quads_of_run(first),
        quads_of_run(second),
        0 < first.len() <= batch.capacity,
        0 < second.len() <= batch.capacity,
    ensures
        ({
            let middle = run_pushed(batch, a, first);
            let end = run_pushed(middle, b, second);
            let commands = run_commands(batch, a, first) + run_commands(middle, b, second);
            &&& run_commands(batch, a, first) == Seq::<Command>::empty()
            &&& middle.sprite_count == first.len()
            &&& middle.texture == Some(a)
            &&& commands == middle.flush_commands()
            &&& draw_calls(commands) == 1
            &&& commands.last() == (Command::DrawElements {
                vertex_buffer: batch.vertex_buffer.id,
                index_buffer: batch.index_buffer.id,
                texture: a.id,
                program: batch.program(),
                start: 0,
                count: (QUAD_INDICES * first.len()) as usize,
            })
            &&& end.sprite_count == second.len()
            &&& end.texture == Some(b)
            &&& end.bind_commands(b) == Seq::<Command>::empty()
            &&& end.wf()
        }),
{
    let middle = run_pushed(batch, a, first);
    lemma_run(batch, a, first);
    lemma_run_keeps(batch, a, first);
    lemma_run(middle, b, second);
    lemma_flush(middle);
    let end = run_pushed(middle, b, second);
    lemma_bind(end, b);
    assert(run_commands(batch, a, first) + run_commands(middle, b, second)
        =~= middle.flush_commands());
}

/// A run of quads leaves alone what the batcher draws with: its buffers,
/// its shaders, its default texture and its matrices.
pub proof fn lemma_run_keeps(batch: BatchState, texture: Texture, quads: Seq<Seq<Vertex>>)
    ensures
        ({
            let end = run_pushed(batch, texture, quads);
            &&& end.vertex_buffer == batch.vertex_buffer
            &&& end.index_buffer == batch.index_buffer
            &&& end.shader == batch.shader
            &&& end.default_shader == batch.default_shader
            &&& end.default_texture == batch.default_texture
            &&& end.projection == batch.projection
            &&& end.transform == batch.transform
            &&& end.capacity == batch.capacity
        }),
    decreases quads.len(),
{
    if quads.len() > 0 {
        lemma_run_keeps(batch, texture, quads.drop_last());
    }
}

/// The quad batcher and the state that every draw call shares.
pub struct GraphicsContext {
    vertex_buffer: RawVertexBuffer,
    index_buffer: RawIndexBuffer,
    texture: Option<Texture>,
    shader: ActiveShader,
    default_shader: Shader,
    default_texture: Texture,
    projection_matrix: Mat4,
    transform_matrix: Mat4,
    vertices: Vec<u32>,
    sprite_count: usize,
    capacity: usize,
}

impl View for GraphicsContext {
    type V = BatchState;

    closed spec fn view(&self) -> BatchState {
        BatchState {
            vertex_buffer: self.vertex_buffer,
            index_buffer: self.index_buffer,
            texture: self.texture,
            shader: self.shader,
            default_shader: self.default_shader,
            default_texture: self.default_texture,
            projection: self.projection_matrix,
            transform: self.transform_matrix,
            vertices: self.vertices@,
            sprite_count: self.sprite_count as nat,
            capacity: self.capacity as nat,
        }
    }
}

impl GraphicsContext {
    /// The state of a batcher that was just created.
    pub open spec fn initial(
        vertex_buffer: RawVertexBuffer,
        index_buffer: RawIndexBuffer,
        capacity: nat,
        default_shader: Shader,
        default_texture: Texture,
        projection: Mat4,
        transform: Mat4,
    ) -> BatchState {
        BatchState {
            vertex_buffer,
            index_buffer,
            texture: None,
            shader: ActiveShader::Default,
            default_shader,
            default_texture,
            projection,
            transform,
            vertices: Seq::empty(),
            sprite_count: 0,
            capacity,
        }
    }

    /// What creating a batcher of `capacity` quads asks of a device that has
    /// given out `buffers` buffers so far: a vertex buffer for four vertices
    /// to a quad, an index buffer for six indices to a quad, and the index
    /// pattern of the quads in the index buffer.
    pub open spec fn new_commands(buffers: nat, capacity: nat) -> Seq<Command> {
        seq![
            Command::NewVertexBuffer {
                id: buffers as u32,
                count: (QUAD_VERTICES * capacity) as usize,
                stride: VERTEX_STRIDE,
                usage: BufferUsage::Dynamic,
            },
            Command::NewIndexBuffer {
                id: (buffers + 1) as u32,
                count: (QUAD_INDICES * capacity) as usize,
                usage: BufferUsage::Static,
            },
            Command::SetIndexBufferData {
                id: (buffers + 1) as u32,
                data: quad_indices(capacity),
                offset: 0,
            },
        ]
    }

    /// What creating a batcher does to the device, and what it returns.
    ///
    /// On a device that cannot give two buffers, creating fails and the
    /// device stays as it was. On any other device the batcher gets the next
    /// two buffers, has nothing pending, no texture bound, the built-in
    /// shader active and the identity as its view transform.
    pub open spec fn creates(
        before: DeviceState,
        capacity: nat,
        default_shader: Shader,
        default_texture: Texture,
        projection: Mat4,
        r: Result<GraphicsContext, TetraError>,
        after: DeviceState,
    ) -> bool {
        if before.free_buffers() < 2 {
            &&& r is Err
            &&& r->Err_0 == TetraError::PlatformError(PlatformFailure::OutOfBuffers)
            &&& after == before
        } else {
            &&& r is Ok
            &&& r->Ok_0@.wf()
            &&& indices_fit(capacity)
            &&& r->Ok_0@.transform.is_identity()
            &&& r->Ok_0@ == Self::initial(
                RawVertexBuffer {
                    id: before.buffers as u32,
                    count: (QUAD_VERTICES * capacity) as usize,
                    stride: VERTEX_STRIDE,
                },
                RawIndexBuffer {
                    id: (before.buffers + 1) as u32,
                    count: (QUAD_INDICES * capacity) as usize,
                },
                capacity,
                default_shader,
                default_texture,
                projection,
                r->Ok_0@.transform,
            )
            &&& after == before.with_buffer().with_buffer().with_commands(
                Self::new_commands(before.buffers, capacity),
            )
        }
    }

    /// Creates the batcher: a vertex buffer for `capacity` quads, and an
    /// index buffer filled with the index pattern of as many quads.
    ///
    /// `capacity` must be one that [`capacity_fits`]: at least one quad, and
    /// no more than [`MAX_SPRITES`], so that every index of the batch fits
    /// the signed sixteen bits that the batch is indexed in. Fails
    /// with a platform error, and asks nothing of the device, when the device
    /// cannot give two buffers.
    pub fn new(
        device: &mut GraphicsDevice,
        capacity: usize,
        default_shader: Shader,
        default_texture: Texture,
        projection: Mat4,
    ) -> (r: Result<GraphicsContext, TetraError>)
        requires
            old(device).wf(),
            capacity_fits(capacity as nat),
        ensures
            final(device).wf(),
            Self::creates(
                old(device)@,
                capacity as nat,
                default_shader,
                default_texture,
                projection,
                r,
                final(device)@,
            ),
    {
        if device.free_buffers() < 2 {
            return Err(TetraError::PlatformError(PlatformFailure::OutOfBuffers));
        }
        proof {
            lemma_indices_fit(capacity as nat);
        }
        let indices = build_quad_indices(capacity);
        let vertex_buffer = match device.new_vertex_buffer(
            capacity * QUAD_VERTICES,
            VERTEX_STRIDE,
            BufferUsage::Dynamic,
        ) {
            Ok(buffer) => buffer,
            Err(e) => {
                return Err(e);
            },
        };
        let index_buffer = match device.new_index_buffer(capacity * QUAD_INDICES, BufferUsage::Static) {
            Ok(buffer) => buffer,
            Err(e) => {
                return Err(e);
            },
        };
        device.set_index_buffer_data(&index_buffer, indices.as_slice(), 0);
        proof {
            assert(device@.commands =~= old(device)@.commands + Self::new_commands(
                old(device)@.buffers,
                capacity as nat,
            ));
        }
        Ok(
            GraphicsContext {
                vertex_buffer,
                index_buffer,
                texture: None,
                shader: ActiveShader::Default,
                default_shader,
                default_texture,
                projection_matrix: projection,
                transform_matrix: Mat4::identity(),
                vertices: Vec::new(),
                sprite_count: 0,
                capacity,
            },
        )
    }

    /// The texture the pending quads are drawn with, if one was bound.
    pub fn texture(&self) -> (t: Option<Texture>)
        ensures
            t == self@.texture,
    {
        self.texture
    }

    /// How many quads are pending.
    pub fn sprite_count(&self) -> (n: usize)
        ensures
            n == self@.sprite_count,
    {
        self.sprite_count
    }

    /// How many quads one batch can hold.
    pub fn capacity(&self) -> (n: usize)
        ensures
            n == self@.capacity,
    {
        self.capacity
    }

    /// The shader that draws.
    pub fn shader(&self) -> (s: Shader)
        ensures
            s.id == self@.program(),
    {
        match self.shader {
            ActiveShader::Default => self.default_shader,
            ActiveShader::User(shader) => shader,
        }
    }

    /// Submits the pending quads, if there are any, and forgets them.
    pub fn flush(&mut self, device: &mut GraphicsDevice)
        requires
            old(self)@.wf(),
        ensures
            final(self)@ == old(self)@.flushed(),
            final(self)@.wf(),
            final(device)@ == old(device)@.with_commands(old(self)@.flush_commands()),
    {
        if self.sprite_count > 0 {
            if let Some(texture) = self.texture {
                let program = self.shader();
                device.set_projection(program.id, self.projection_matrix, self.transform_matrix);
                let mut words: Vec<u32> = Vec::new();
                std::mem::swap(&mut self.vertices, &mut words);
                device.set_vertex_buffer_data(&self.vertex_buffer, words, 0);
                device.draw_elements(
                    &self.vertex_buffer,
                    &self.index_buffer,
                    texture.id,
                    program.id,
                    0,
                    self.sprite_count * QUAD_INDICES,
                );
                self.sprite_count = 0;
                proof {
                    assert(device@.commands =~= old(device)@.commands + old(
                        self,
                    )@.flush_commands());
                }
                return ;
            }
        }
        proof {
            assert(device@.commands =~= old(device)@.commands + old(self)@.flush_commands());
        }
    }

    /// Binds the texture that the quads pushed from now on are drawn with.
    ///
    /// The first texture is bound as it is. Binding the texture that is
    /// bound already changes nothing. Binding another one first submits the
    /// pending quads with the texture they were pushed under.
    pub fn set_texture(&mut self, device: &mut GraphicsDevice, texture: &Texture)
        requires
            old(self)@.wf(),
        ensures
            final(self)@ == old(self)@.bound(*texture),
            final(self)@.wf(),
            final(device)@ == old(device)@.with_commands(old(self)@.bind_commands(*texture)),
    {
        match self.texture {
            None => {
                self.texture = Some(*texture);
            },
            Some(bound) => {
                if bound.id != texture.id {
                    self.flush(device);
                    self.texture = Some(*texture);
                }
            },
        }
        proof {
            assert(device@.commands =~= old(device)@.commands + old(self)@.bind_commands(*texture));
        }
    }

    /// Sets the shader that draws from now on, after a flush.
    pub fn set_shader(&mut self, device: &mut GraphicsDevice, shader: ActiveShader)
        requires
            old(self)@.wf(),
        ensures
            final(self)@ == (BatchState { shader, ..old(self)@.flushed() }),
            final(self)@.wf(),
            final(device)@ == old(device)@.with_commands(old(self)@.flush_commands()),
    {
        self.flush(device);
        self.shader = shader;
    }

    /// Sets the view transform, after a flush.
    pub fn set_transform_matrix(&mut self, device: &mut GraphicsDevice, matrix: Mat4)
        requires
            old(self)@.wf(),
        ensures
            final(self)@ == (BatchState { transform: matrix, ..old(self)@.flushed() }),
            final(self)@.wf(),
            final(device)@ == old(device)@.with_commands(old(self)@.flush_commands()),
    {
        self.flush(device);
        self.transform_matrix = matrix;
    }

    /// The texture that is drawn with where a drawable has none of its own.
    pub fn default_texture(&self) -> (t: Texture)
        ensures
            t == self@.default_texture,
    {
        self.default_texture
    }

    /// The projection.
    pub fn projection_matrix(&self) -> (m: Mat4)
        ensures
            m == self@.projection,
    {
        self.projection_matrix
    }

    /// The view transform.
    pub fn transform_matrix(&self) -> (m: Mat4)
        ensures
            m == self@.transform,
    {
        self.transform_matrix
    }

    /// Puts one quad, drawn with `texture`, behind the pending ones.
    ///
    /// The texture is bound first, as [`GraphicsContext::set_texture`] does
    /// it. If the batch is full after that, it is flushed to make room.
    pub fn push_quad(&mut self, device: &mut GraphicsDevice, texture: &Texture, quad: &[Vertex; 4])
        requires
            old(self)@.wf(),
        ensures
            final(self)@.wf(),
            final(self)@ == old(self)@.quad_pushed(*texture, quad@),
            final(device)@ == old(device)@.with_commands(old(self)@.push_commands(*texture)),
    {
        self.set_texture(device, texture);
        if self.sprite_count >= self.capacity {
            self.flush(device);
        }
        let mut words: Vec<u32> = Vec::new();
        let mut i: usize = 0;
        while i < 4
            invariant
                i <= 4,
                words@ == vertex_words(quad@.take(i as int)),
            decreases 4 - i,
        {
            assert(quad@.take(i + 1).drop_last() =~= quad@.take(i as int));
            quad[i].write_words(&mut words);
            i = i + 1;
        }
        proof {
            assert(quad@.take(4) =~= quad@);
            crate::graphics::mesh::lemma_vertex_words(quad@);
        }
        self.vertices.append(&mut words);
        proof {
            assert(device@.commands =~= old(device)@.commands + old(self)@.push_commands(*texture));
        }
        self.sprite_count = self.sprite_count + 1;
    }
}

/// Clears the screen to the given color.
pub fn clear(ctx: &mut Context, color: Color)
    ensures
        final(ctx).graphics == old(ctx).graphics,
        final(ctx).device@ == old(ctx).device@.with_command(Command::Clear { color }),
        old(ctx).device.wf() ==> final(ctx).device.wf(),
{
    ctx.device.clear(color);
}

/// Draws something with the given parameters.
pub fn draw<D: Drawable>(ctx: &mut Context, drawable: &D, params: DrawParams)
    requires
        old(ctx).wf(),
    ensures
        final(ctx).wf(),
        final(ctx).graphics@ == drawable.batch_after_draw(old(ctx).graphics@, params),
        final(ctx).device@ == old(ctx).device@.with_commands(
            drawable.draw_commands(old(ctx).graphics@, params),
        ),
{
    drawable.draw(ctx, params);
}

/// Binds the texture that the quads pushed from now on are drawn with.
///
/// The first texture is bound as it is. Binding the texture that is bound
/// already changes nothing. Binding another one first submits the pending
/// quads with the texture they were pushed under.
pub fn set_texture(ctx: &mut Context, texture: &Texture)
    requires
        old(ctx).wf(),
    ensures
        final(ctx).wf(),
        final(ctx).graphics@ == old(ctx).graphics@.bound(*texture),
        final(ctx).device@ == old(ctx).device@.with_commands(
            old(ctx).graphics@.bind_commands(*texture),
        ),
{
    ctx.graphics.set_texture(&mut ctx.device, texture);
}

/// Submits the pending quads, if there are any, in one draw call, and
/// forgets them.
pub fn flush(ctx: &mut Context)
    requires
        old(ctx).wf(),
    ensures
        final(ctx).wf(),
        final(ctx).graphics@ == old(ctx).graphics@.flushed(),
        final(ctx).device@ == old(ctx).device@.with_commands(old(ctx).graphics@.flush_commands()),
{
    ctx.graphics.flush(&mut ctx.device);
}

/// Puts one quad, drawn with `texture`, behind the pending ones.
///
/// The texture is bound first, as [`set_texture`] does it. If the batch is
/// full after that, it is flushed to make room.
pub fn push_quad(ctx: &mut Context, texture: &Texture, quad: &[Vertex; 4])
    requires
        old(ctx).wf(),
    ensures
        final(ctx).wf(),
        final(ctx).graphics@ == old(ctx).graphics@.quad_pushed(*texture, quad@),
        final(ctx).device@ == old(ctx).device@.with_commands(
            old(ctx).graphics@.push_commands(*texture),
        ),
{
    ctx.graphics.push_quad(&mut ctx.device, texture, quad);
}

/// Sets the shader that draws from now on. The pending quads are submitted
/// first, with the shader they were pushed under.
pub fn set_shader(ctx: &mut Context, shader: &Shader)
    requires
        old(ctx).wf(),
    ensures
        final(ctx).wf(),
        final(ctx).graphics@ == (BatchState {
            shader: ActiveShader::User(*shader),
            ..old(ctx).graphics@.flushed()
        }),
        final(ctx).device@ == old(ctx).device@.with_commands(old(ctx).graphics@.flush_commands()),
{
    ctx.graphics.set_shader(&mut ctx.device, ActiveShader::User(*shader));
}

/// Goes back to the built-in shader. The pending quads are submitted first,
/// with the shader they were pushed under.
pub fn reset_shader(ctx: &mut Context)
    requires
        old(ctx).wf(),
    ensures
        final(ctx).wf(),
        final(ctx).graphics@ == (BatchState {
            shader: ActiveShader::Default,
            ..old(ctx).graphics@.flushed()
        }),
        final(ctx).device@ == old(ctx).device@.with_commands(old(ctx).graphics@.flush_commands()),
{
    ctx.graphics.set_shader(&mut ctx.device, ActiveShader::Default);
}

/// Sets the view transform that everything is drawn through from now on.
/// The pending quads are submitted first, through the transform they were
/// pushed under.
pub fn set_transform_matrix(ctx: &mut Context, matrix: Mat4)
    requires
        old(ctx).wf(),
    ensures
        final(ctx).wf(),
        final(ctx).graphics@ == (BatchState { transform: matrix, ..old(ctx).graphics@.flushed() }),
        final(ctx).device@ == old(ctx).device@.with_commands(old(ctx).graphics@.flush_commands()),
{
    ctx.graphics.set_transform_matrix(&mut ctx.device, matrix);
}

} // verus!
