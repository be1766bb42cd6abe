//! Vertex data, device buffers, meshes and the geometry builder.

use std::rc::Rc;
use vstd::prelude::*;
use crate::graphics::tessellation::failure_kind;
use crate::graphics::tessellation::points_finite;
use crate::graphics::tessellation::fill_circle;
use crate::graphics::tessellation::fill_rectangle;
use crate::graphics::tessellation::stroke_circle;
use crate::graphics::tessellation::stroke_ellipse;
use crate::graphics::tessellation::stroke_polygon;
use crate::graphics::tessellation::stroke_rectangle;
use crate::graphics::tessellation::stroke_rounded_rectangle;
use crate::graphics::tessellation::Tessellation;
use crate::graphics::draw_calls;
use crate::graphics::BatchState;
use crate::graphics::Color;
use crate::graphics::DrawParams;
use crate::graphics::Drawable;
use crate::graphics::Rectangle;
use crate::graphics::Texture;
use crate::math::Float;
use crate::math::Vec2;
use crate::platform::lemma_written;
use crate::platform::overwritten;
use crate::platform::replayed;
use crate::platform::Command;
use crate::platform::RawIndexBuffer;
use crate::platform::RawVertexBuffer;
use crate::Context;
use crate::PlatformFailure;
use crate::TessellationFailure;
use crate::TetraError;

verus! {

/// How many words one vertex takes in a vertex buffer.
pub const VERTEX_STRIDE: usize = 8;

/// An individual piece of vertex data.
#[derive(Copy, Clone, Debug, PartialEq, Eq, Structural)]
pub struct Vertex {
    /// The position of the vertex, in screen co-ordinates.
    pub position: Vec2,
    /// The texture co-ordinates that should be sampled for this vertex.
    pub uv: Vec2,
    /// The color of the vertex.
    pub color: Color,
}

impl Vertex {
    /// The eight words a vertex takes in a vertex buffer: position, texture
    /// co-ordinates, then the four channels of the color.
    pub open spec fn words(self) -> Seq<u32> {
        seq![
            self.position.x.bits,
            self.position.y.bits,
            self.uv.x.bits,
            self.uv.y.bits,
            self.color.r.bits,
            self.color.g.bits,
            self.color.b.bits,
            self.color.a.bits,
        ]
    }

    /// Creates a new vertex.
    pub fn new(position: Vec2, uv: Vec2, color: Color) -> (v: Vertex)
        ensures
            v == (Vertex { position, uv, color }),
    {
        Vertex { position, uv, color }
    }

    /// Appends the words of the vertex to `out`.
    pub fn write_words(&self, out: &mut Vec<u32>)
        ensures
            final(out)@ == old(out)@ + self.words(),
    {
        out.push(self.position.x.bits);
        out.push(self.position.y.bits);
        out.push(self.uv.x.bits);
        out.push(self.uv.y.bits);
        out.push(self.color.r.bits);
        out.push(self.color.g.bits);
        out.push(self.color.b.bits);
        out.push(self.color.a.bits);
        assert(out@ =~= old(out)@ + self.words());
    }
}

/// The words of a run of vertices, one vertex after the other.
pub open spec fn vertex_words(vertices: Seq<Vertex>) -> Seq<u32>
    decreases vertices.len(),
{
    if vertices.len() == 0 {
        Seq::empty()
    } else {
        vertex_words(vertices.drop_last()) + vertices.last().words()
    }
}

/// A run of `n` vertices takes `8 * n` words, and word `j` of vertex `k` is
/// word `8 * k + j` of the run.
pub proof fn lemma_vertex_words(vertices: Seq<Vertex>)
    ensures
        vertex_words(vertices).len() == VERTEX_STRIDE * vertices.len(),
        forall|k: int, j: int|
            0 <= k < vertices.len() && 0 <= j < VERTEX_STRIDE ==> vertex_words(vertices)[
                VERTEX_STRIDE * k + j
            ] == (#[trigger] vertices[k].words()[j]),
    decreases vertices.len(),
{
    if vertices.len() > 0 {
        let init = vertices.drop_last();
        lemma_vertex_words(init);
        assert forall|k: int, j: int| 0 <= k < vertices.len() && 0 <= j < VERTEX_STRIDE implies vertex_words(
            vertices,
        )[VERTEX_STRIDE * k + j] == (#[trigger] vertices[k].words()[j]) by {
            if k < init.len() {
                assert(init[k] == vertices[k]);
            }
        }
    }
}

/// Lays the vertices out as words, one vertex after the other.
pub fn words_of(vertices: &[Vertex]) -> (words: Vec<u32>)
    ensures
        words@ == vertex_words(vertices@),
{
    let mut words: Vec<u32> = Vec::new();
    let mut i: usize = 0;
    while i < vertices.len()
        invariant
            i <= vertices.len(),
            words@ == vertex_words(vertices@.take(i as int)),
        decreases vertices.len() - i,
    {
        assert(vertices@.take(i + 1).drop_last() =~= vertices@.take(i as int));
        vertices[i].write_words(&mut words);
        i = i + 1;
    }
    assert(vertices@.take(i as int) =~= vertices@);
    words
}

/// The expected usage of a device buffer.
///
/// The device may use this to choose where it keeps the data.
#[derive(Copy, Clone, Debug, PartialEq, Eq, Structural)]
pub enum BufferUsage {
    /// The buffer's data is not expected to change after creation.
    Static,
    /// The buffer's data is expected to change occasionally after creation.
    Dynamic,
    /// The buffer's data is expected to change every frame.
    Stream,
}

/// The ordering of the vertices in a piece of geometry.
#[derive(Copy, Clone, Debug, PartialEq, Eq, Structural)]
pub enum VertexWinding {
    /// The vertices are in clockwise order.
    Clockwise,
    /// The vertices are in counter-clockwise order.
    CounterClockwise,
}

impl VertexWinding {
    /// The opposite winding.
    pub open spec fn spec_flipped(self) -> VertexWinding {
        match self {
            VertexWinding::Clockwise => VertexWinding::CounterClockwise,
            VertexWinding::CounterClockwise => VertexWinding::Clockwise,
        }
    }

    /// Returns the opposite winding, compared to `self`.
    pub fn flipped(self) -> (w: VertexWinding)
        ensures
            w == self.spec_flipped(),
            w != self,
    {
        match self {
            VertexWinding::Clockwise => VertexWinding::CounterClockwise,
            VertexWinding::CounterClockwise => VertexWinding::Clockwise,
        }
    }
}

/// Flipping a winding twice gives the winding back.
pub proof fn lemma_flipped_twice(w: VertexWinding)
    ensures
        w.spec_flipped().spec_flipped() == w,
{
}

/// Vertex data, stored in device memory.
///
/// Cloning a `VertexBuffer` is cheap: the clone names the same buffer on the
/// device, so data set through either is seen through both. The buffer
/// stays on the device until its last handle is given up with
/// [`VertexBuffer::release`].
#[derive(Debug, PartialEq)]
pub struct VertexBuffer {
    handle: Rc<RawVertexBuffer>,
}

impl View for VertexBuffer {
    type V = RawVertexBuffer;

    closed spec fn view(&self) -> RawVertexBuffer {
        *self.handle
    }
}

impl Clone for VertexBuffer {
    fn clone(&self) -> (r: Self)
        ensures
            r == *self,
    {
        VertexBuffer { handle: self.handle.clone() }
    }
}

impl VertexBuffer {
    /// Whether the buffer was laid out for [`Vertex`] and its size fits the
    /// machine.
    pub open spec fn wf(&self) -> bool {
        self@.stride == VERTEX_STRIDE && self@.wf()
    }

    /// Creates a new vertex buffer, with the [`BufferUsage::Dynamic`] usage
    /// hint.
    ///
    /// Fails with a platform error, asking nothing of the device, when the
    /// device cannot allocate the buffer.
    pub fn new(ctx: &mut Context, vertices: &[Vertex]) -> (r: Result<VertexBuffer, TetraError>)
        requires
            old(ctx).device.wf(),
        ensures
            Self::creates(*old(ctx), vertices@, BufferUsage::Dynamic, r, *final(ctx)),
    {
        VertexBuffer::with_usage(ctx, vertices, BufferUsage::Dynamic)
    }

    /// What creating a vertex buffer does to the context, and what it
    /// returns.
    pub open spec fn creates(
        before: Context,
        vertices: Seq<Vertex>,
        usage: BufferUsage,
        r: Result<VertexBuffer, TetraError>,
        after: Context,
    ) -> bool {
        &&& after.device.wf()
        &&& after.graphics == before.graphics
        &&& if before.device@.free_buffers() == 0 {
            &&& r is Err
            &&& r->Err_0 == TetraError::PlatformError(PlatformFailure::OutOfBuffers)
            &&& after.device@ == before.device@
        } else if vertices.len() * VERTEX_STRIDE > usize::MAX {
            &&& r is Err
            &&& r->Err_0 == TetraError::PlatformError(PlatformFailure::BufferTooLarge)
            &&& after.device@ == before.device@
        } else {
            &&& r is Ok
            &&& r->Ok_0.wf()
            &&& r->Ok_0@ == (RawVertexBuffer {
                id: before.device@.buffers as u32,
                count: vertices.len() as usize,
                stride: VERTEX_STRIDE,
            })
            &&& after.device@ == before.device@.with_buffer().with_commands(
                seq![
                    Command::NewVertexBuffer {
                        id: before.device@.buffers as u32,
                        count: vertices.len() as usize,
                        stride: VERTEX_STRIDE,
                        usage,
                    },
                    Command::SetVertexBufferData {
                        id: before.device@.buffers as u32,
                        data: vertex_words(vertices),
                        offset: 0,
                    },
                ],
            )
        }
    }

    /// Creates a new vertex buffer, with the specified usage hint: a buffer
    /// of as many vertices as are given, filled with them.
    ///
    /// Fails with a platform error, asking nothing of the device, when the
    /// device cannot allocate the buffer.
    pub fn with_usage(ctx: &mut Context, vertices: &[Vertex], usage: BufferUsage) -> (r: Result<
        VertexBuffer,
        TetraError,
    >)
        requires
            old(ctx).device.wf(),
        ensures
            Self::creates(*old(ctx), vertices@, usage, r, *final(ctx)),
    {
        let buffer = match ctx.device.new_vertex_buffer(vertices.len(), VERTEX_STRIDE, usage) {
            Ok(buffer) => buffer,
            Err(e) => {
                return Err(e);
            },
        };
        let words = words_of(vertices);
        proof {
            lemma_vertex_words(vertices@);
        }
        ctx.device.set_vertex_buffer_data(&buffer, words, 0);
        proof {
            assert(ctx.device@.commands =~= old(ctx).device@.commands + seq![
                Command::NewVertexBuffer {
                    id: old(ctx).device@.buffers as u32,
                    count: vertices@.len() as usize,
                    stride: VERTEX_STRIDE,
                    usage,
                },
                Command::SetVertexBufferData {
                    id: old(ctx).device@.buffers as u32,
                    data: vertex_words(vertices@),
                    offset: 0,
                },
            ]);
        }
        Ok(VertexBuffer { handle: Rc::new(buffer) })
    }

    /// Uploads new vertex data to the device, starting at vertex `offset` of
    /// the buffer.
    ///
    /// The data must fit: `offset + vertices.len()` is at most the number of
    /// vertices the buffer was created with.
    pub fn set_data(&self, ctx: &mut Context, vertices: &[Vertex], offset: usize)
        requires
            self.wf(),
            offset + vertices@.len() <= self@.count,
        ensures
            final(ctx).graphics == old(ctx).graphics,
            final(ctx).device@ == old(ctx).device@.with_command(
                Command::SetVertexBufferData {
                    id: self@.id,
                    data: vertex_words(vertices@),
                    offset: (offset * VERTEX_STRIDE) as usize,
                },
            ),
            old(ctx).device.wf() ==> final(ctx).device.wf(),
    {
        let words = words_of(vertices);
        proof {
            lemma_vertex_words(vertices@);
        }
        ctx.device.set_vertex_buffer_data(&self.handle, words, offset * VERTEX_STRIDE);
    }

    /// How many vertices the buffer holds.
    pub fn count(&self) -> (n: usize)
        ensures
            n == self@.count,
    {
        self.handle.count
    }

    /// The name of the buffer on the device.
    pub fn id(&self) -> (id: u32)
        ensures
            id == self@.id,
    {
        self.handle.id
    }

    /// Gives this handle up. If it was the last handle of the buffer, the
    /// buffer is released on the device, and `true` is returned; while
    /// clones of the handle are left the buffer stays, and `false` is
    /// returned.
    ///
    /// Whether a handle is the last one is known to the handle alone: the
    /// handle is unwrapped with `Rc::try_unwrap`, and
    /// [`VertexBuffer::release_unwrapped`] does the rest.
    pub fn release(self, ctx: &mut Context) -> (released: bool)
        ensures
            final(ctx).graphics == old(ctx).graphics,
            final(ctx).device@ == old(ctx).device@.with_handle_given_up(self@.id, released),
            old(ctx).device.wf() ==> final(ctx).device.wf(),
    {
        VertexBuffer::release_unwrapped(ctx, Rc::try_unwrap(self.handle))
    }

    /// Releases a buffer whose handle was unwrapped. `unwrapped` holds the
    /// buffer itself if the handle was the last one, and the handle if it
    /// was not. Returns whether the buffer was released: it is if, and only
    /// if, the handle was the last one.
    pub fn release_unwrapped(
        ctx: &mut Context,
        unwrapped: Result<RawVertexBuffer, Rc<RawVertexBuffer>>,
    ) -> (released: bool)
        ensures
            released == unwrapped is Ok,
            final(ctx).graphics == old(ctx).graphics,
            final(ctx).device@ == old(ctx).device@.with_handle_given_up(
                match unwrapped {
                    Ok(buffer) => buffer.id,
                    Err(handle) => handle.id,
                },
                unwrapped is Ok,
            ),
            old(ctx).device.wf() ==> final(ctx).device.wf(),
    {
        match unwrapped {
            Ok(buffer) => {
                ctx.device.delete_buffer(buffer.id);
                true
            },
            Err(_) => false,
        }
    }

    /// Creates a mesh using this buffer.
    pub fn into_mesh(self) -> (mesh: Mesh)
        ensures
            mesh@ == MeshState::plain(self),
    {
        Mesh::new(self)
    }
}

impl VertexBuffer {
    /// The command that [`VertexBuffer::set_data`] records.
    pub open spec fn set_data_command(&self, vertices: Seq<Vertex>, offset: nat) -> Command {
        Command::SetVertexBufferData {
            id: self@.id,
            data: vertex_words(vertices),
            offset: (offset * VERTEX_STRIDE) as usize,
        }
    }

    /// The words that the buffer holds on a device whose buffers hold
    /// `memory`.
    pub open spec fn contents(&self, memory: Map<u32, Seq<u32>>) -> Seq<u32> {
        memory[self@.id]
    }

    /// Whether the buffer is there on a device whose buffers hold `memory`,
    /// at the size it was created with.
    pub open spec fn resident(&self, memory: Map<u32, Seq<u32>>) -> bool {
        memory.dom().contains(self@.id) && memory[self@.id].len() == self@.words()
    }
}

/// Data that is set through a vertex buffer is seen through its clones:
/// after `handle.set_data(ctx, vertices, offset)`, a clone of `handle`
/// holds the words of `vertices` from vertex `offset` on, and what it held
/// elsewhere.
pub proof fn lemma_set_data_is_seen_through_clones(
    handle: VertexBuffer,
    clone: VertexBuffer,
    memory: Map<u32, Seq<u32>>,
    vertices: Seq<Vertex>,
    offset: nat,
)
    requires
        clone == handle,
        handle.wf(),
        handle.resident(memory),
        offset + vertices.len() <= handle@.count,
    ensures
        ({
            let after = handle.set_data_command(vertices, offset).applied(memory);
            let start = offset * VERTEX_STRIDE;
            let end = start + vertices.len() * VERTEX_STRIDE;
            &&& clone.resident(after)
            &&& clone.contents(after).subrange(start as int, end as int) == vertex_words(vertices)
            &&& forall|i: int|
                0 <= i < handle@.words() && !(start <= i < end) ==> clone.contents(after)[i]
                    == clone.contents(memory)[i]
        }),
{
    lemma_vertex_words(vertices);
    let start = offset * VERTEX_STRIDE;
    assert(start + vertices.len() * VERTEX_STRIDE <= handle@.count * VERTEX_STRIDE)
        by (nonlinear_arith)
        requires
            start == offset * VERTEX_STRIDE,
            offset + vertices.len() <= handle@.count,
    ;
    lemma_written(memory, handle@.id, vertex_words(vertices), start as int);
}

/// A vertex buffer that was just created holds the vertices it was created
/// with: carrying out what [`VertexBuffer::with_usage`] records leaves the
/// words of the vertices in the buffer.
pub proof fn lemma_new_buffer_holds_its_vertices(
    id: u32,
    vertices: Seq<Vertex>,
    usage: BufferUsage,
    memory: Map<u32, Seq<u32>>,
)
    requires
        vertices.len() * VERTEX_STRIDE <= usize::MAX,
    ensures
        replayed(
            seq![
                Command::NewVertexBuffer {
                    id,
                    count: vertices.len() as usize,
                    stride: VERTEX_STRIDE,
                    usage,
                },
                Command::SetVertexBufferData { id, data: vertex_words(vertices), offset: 0 },
            ],
            memory,
        )[id] == vertex_words(vertices),
{
    let words = vertex_words(vertices);
    assert(words.len() == vertices.len() * VERTEX_STRIDE) by {
        lemma_vertex_words(vertices);
    }
    let create = Command::NewVertexBuffer {
        id,
        count: vertices.len() as usize,
        stride: VERTEX_STRIDE,
        usage,
    };
    let write = Command::SetVertexBufferData { id, data: words, offset: 0 };
    let commands = seq![create, write];
    let created = create.applied(memory);
    assert(replayed(commands, memory) == write.applied(created)) by {
        assert(commands.drop_last() =~= seq![create]);
        assert(commands.drop_last().drop_last() =~= Seq::<Command>::empty());
        assert(replayed(commands.drop_last().drop_last(), memory) == memory);
        assert(replayed(commands.drop_last(), memory) == created);
    }
    assert(created[id].len() == words.len());
    assert(overwritten(created[id], words, 0) =~= words);
}

/// Index data, stored in device memory.
///
/// An index buffer says which vertices of a vertex buffer are drawn, and in
/// which order: the buffer `[2, 0, 1]` draws the third vertex, then the first,
/// then the second.
///
/// Cloning an `IndexBuffer` is cheap: the clone names the same buffer on the
/// device, so data set through either is seen through both. The buffer
/// stays on the device until its last handle is given up with
/// [`IndexBuffer::release`].
#[derive(Debug, PartialEq)]
pub struct IndexBuffer {
    handle: Rc<RawIndexBuffer>,
}

impl View for IndexBuffer {
    type V = RawIndexBuffer;

    closed spec fn view(&self) -> RawIndexBuffer {
        *self.handle
    }
}

impl Clone for IndexBuffer {
    fn clone(&self) -> (r: Self)
        ensures
            r == *self,
    {
        IndexBuffer { handle: self.handle.clone() }
    }
}

impl IndexBuffer {
    /// What creating an index buffer does to the context, and what it
    /// returns.
    pub open spec fn creates(
        before: Context,
        indices: Seq<u32>,
        usage: BufferUsage,
        r: Result<IndexBuffer, TetraError>,
        after: Context,
    ) -> bool {
        &&& after.device.wf()
        &&& after.graphics == before.graphics
        &&& if before.device@.free_buffers() == 0 {
            &&& r is Err
            &&& r->Err_0 == TetraError::PlatformError(PlatformFailure::OutOfBuffers)
            &&& after.device@ == before.device@
        } else {
            &&& r is Ok
            &&& r->Ok_0@ == (RawIndexBuffer {
                id: before.device@.buffers as u32,
                count: indices.len() as usize,
            })
            &&& after.device@ == before.device@.with_buffer().with_commands(
                seq![
                    Command::NewIndexBuffer {
                        id: before.device@.buffers as u32,
                        count: indices.len() as usize,
                        usage,
                    },
                    Command::SetIndexBufferData {
                        id: before.device@.buffers as u32,
                        data: indices,
                        offset: 0,
                    },
                ],
            )
        }
    }

    /// Creates a new index buffer, with the [`BufferUsage::Dynamic`] usage
    /// hint.
    ///
    /// Fails with a platform error, asking nothing of the device, when the
    /// device cannot allocate the buffer.
    pub fn new(ctx: &mut Context, indices: &[u32]) -> (r: Result<IndexBuffer, TetraError>)
        requires
            old(ctx).device.wf(),
        ensures
            Self::creates(*old(ctx), indices@, BufferUsage::Dynamic, r, *final(ctx)),
    {
        IndexBuffer::with_usage(ctx, indices, BufferUsage::Dynamic)
    }

    /// Creates a new index buffer, with the specified usage hint: a buffer of
    /// as many indices as are given, filled with them.
    ///
    /// Fails with a platform error, asking nothing of the device, when the
    /// device cannot allocate the buffer.
    pub fn with_usage(ctx: &mut Context, indices: &[u32], usage: BufferUsage) -> (r: Result<
        IndexBuffer,
        TetraError,
    >)
        requires
            old(ctx).device.wf(),
        ensures
            Self::creates(*old(ctx), indices@, usage, r, *final(ctx)),
    {
        let buffer = match ctx.device.new_index_buffer(indices.len(), usage) {
            Ok(buffer) => buffer,
            Err(e) => {
                return Err(e);
            },
        };
        ctx.device.set_index_buffer_data(&buffer, indices, 0);
        proof {
            assert(ctx.device@.commands =~= old(ctx).device@.commands + seq![
                Command::NewIndexBuffer {
                    id: old(ctx).device@.buffers as u32,
                    count: indices@.len() as usize,
                    usage,
                },
                Command::SetIndexBufferData {
                    id: old(ctx).device@.buffers as u32,
                    data: indices@,
                    offset: 0,
                },
            ]);
        }
        Ok(IndexBuffer { handle: Rc::new(buffer) })
    }

    /// Sends new index data to the device, starting at index `offset` of the
    /// buffer.
    ///
    /// The data must fit: `offset + indices.len()` is at most the number of
    /// indices the buffer was created with.
    pub fn set_data(&self, ctx: &mut Context, indices: &[u32], offset: usize)
        requires
            offset + indices@.len() <= self@.count,
        ensures
            final(ctx).graphics == old(ctx).graphics,
            final(ctx).device@ == old(ctx).device@.with_command(
                Command::SetIndexBufferData { id: self@.id, data: indices@, offset },
            ),
            old(ctx).device.wf() ==> final(ctx).device.wf(),
    {
        ctx.device.set_index_buffer_data(&self.handle, indices, offset);
    }

    /// Gives this handle up. If it was the last handle of the buffer, the
    /// buffer is released on the device, and `true` is returned; while
    /// clones of the handle are left the buffer stays, and `false` is
    /// returned.
    ///
    /// Whether a handle is the last one is known to the handle alone: the
    /// handle is unwrapped with `Rc::try_unwrap`, and
    /// [`IndexBuffer::release_unwrapped`] does the rest.
    pub fn release(self, ctx: &mut Context) -> (released: bool)
        ensures
            final(ctx).graphics == old(ctx).graphics,
            final(ctx).device@ == old(ctx).device@.with_handle_given_up(self@.id, released),
            old(ctx).device.wf() ==> final(ctx).device.wf(),
    {
        IndexBuffer::release_unwrapped(ctx, Rc::try_unwrap(self.handle))
    }

    /// Releases a buffer whose handle was unwrapped. `unwrapped` holds the
    /// buffer itself if the handle was the last one, and the handle if it
    /// was not. Returns whether the buffer was released: it is if, and only
    /// if, the handle was the last one.
    pub fn release_unwrapped(
        ctx: &mut Context,
        unwrapped: Result<RawIndexBuffer, Rc<RawIndexBuffer>>,
    ) -> (released: bool)
        ensures
            released == unwrapped is Ok,
            final(ctx).graphics == old(ctx).graphics,
            final(ctx).device@ == old(ctx).device@.with_handle_given_up(
                match unwrapped {
                    Ok(buffer) => buffer.id,
                    Err(handle) => handle.id,
                },
                unwrapped is Ok,
            ),
            old(ctx).device.wf() ==> final(ctx).device.wf(),
    {
        match unwrapped {
            Ok(buffer) => {
                ctx.device.delete_buffer(buffer.id);
                true
            },
            Err(_) => false,
        }
    }

    /// How many indices the buffer holds.
    pub fn count(&self) -> (n: usize)
        ensures
            n == self@.count,
    {
        self.handle.count
    }

    /// The name of the buffer on the device.
    pub fn id(&self) -> (id: u32)
        ensures
            id == self@.id,
    {
        self.handle.id
    }
}

/// Data that is set through an index buffer is seen through its clones.
pub proof fn lemma_set_indices_is_seen_through_clones(
    handle: IndexBuffer,
    clone: IndexBuffer,
    memory: Map<u32, Seq<u32>>,
    indices: Seq<u32>,
    offset: usize,
)
    requires
        clone == handle,
        memory.dom().contains(handle@.id),
        memory[handle@.id].len() == handle@.count,
        offset + indices.len() <= handle@.count,
    ensures
        ({
            let after = (Command::SetIndexBufferData {
                id: handle@.id,
                data: indices,
                offset,
            }).applied(memory);
            &&& after[clone@.id].len() == handle@.count
            &&& after[clone@.id].subrange(offset as int, offset + indices.len()) == indices
        }),
{
    lemma_written(memory, handle@.id, indices, offset as int);
}

/// The part of a mesh that is drawn: `count` vertices, or indices if the
/// mesh has an index buffer, from the one at `start` on.
#[derive(Copy, Clone, Debug, PartialEq, Eq, Structural)]
pub struct DrawRange {
    pub start: usize,
    pub count: usize,
}

/// Ways of drawing a shape.
#[derive(Copy, Clone, Debug, PartialEq, Eq, Structural)]
pub enum ShapeStyle {
    /// A filled shape.
    Fill,
    /// An outlined shape with the specified stroke width.
    Stroke(Float),
}

/// What a mesh is made of.
pub struct MeshState {
    pub vertex_buffer: VertexBuffer,
    pub index_buffer: Option<IndexBuffer>,
    pub texture: Option<Texture>,
    pub draw_range: Option<DrawRange>,
}

impl MeshState {
    /// A mesh of a vertex buffer and nothing else.
    pub open spec fn plain(vertex_buffer: VertexBuffer) -> MeshState {
        MeshState { vertex_buffer, index_buffer: None, texture: None, draw_range: None }
    }

    /// The vertices or indices that a draw call covers: the draw range if
    /// one is set; else all the indices if the mesh has an index buffer, and
    /// all the vertices if it has none.
    pub open spec fn range(self) -> DrawRange {
        match self.draw_range {
            Some(range) => range,
            None => match self.index_buffer {
                Some(index_buffer) => DrawRange { start: 0, count: index_buffer@.count },
                None => DrawRange { start: 0, count: self.vertex_buffer@.count },
            },
        }
    }

    /// The texture the mesh is drawn with: its own, or else the default one.
    pub open spec fn texture_or(self, default_texture: Texture) -> Texture {
        match self.texture {
            Some(texture) => texture,
            None => default_texture,
        }
    }

    /// The one draw call that draws the mesh: an indexed one if the mesh has
    /// an index buffer, a plain one if it has none.
    pub open spec fn draw_call(self, texture: u32, program: u32) -> Command {
        match self.index_buffer {
            Some(index_buffer) => Command::DrawElements {
                vertex_buffer: self.vertex_buffer@.id,
                index_buffer: index_buffer@.id,
                texture,
                program,
                start: self.range().start,
                count: self.range().count,
            },
            None => Command::DrawArrays {
                vertex_buffer: self.vertex_buffer@.id,
                texture,
                program,
                start: self.range().start,
                count: self.range().count,
            },
        }
    }

    /// What drawing the mesh asks of the device once the batcher is flushed:
    /// the matrices and the tint for the active shader, then the draw call.
    pub open spec fn commands(self, batch: BatchState, params: DrawParams) -> Seq<Command> {
        seq![
            Command::SetDefaultUniforms {
                program: batch.program(),
                projection: batch.projection,
                view: batch.transform,
                model: params.transform(),
                color: params.color,
            },
            self.draw_call(self.texture_or(batch.default_texture).id, batch.program()),
        ]
    }
}

/// A 2D mesh that can be drawn to the screen.
///
/// A `Mesh` is a wrapper for a [`VertexBuffer`], which allows it to be drawn
/// in combination with three optional modifiers:
///
/// * A [`Texture`] that individual vertices can sample from.
/// * An [`IndexBuffer`] that says which vertices are drawn, and in which order.
/// * A draw range, which can be used to draw subsections of the mesh.
///
/// Cloning a mesh copies what it is made of, not the buffers: the clone
/// names the same buffers, and setting another buffer, texture or range on
/// one mesh leaves the other as it was.
#[derive(Debug)]
pub struct Mesh {
    vertex_buffer: VertexBuffer,
    index_buffer: Option<IndexBuffer>,
    texture: Option<Texture>,
    draw_range: Option<DrawRange>,
}

impl View for Mesh {
    type V = MeshState;

    closed spec fn view(&self) -> MeshState {
        MeshState {
            vertex_buffer: self.vertex_buffer,
            index_buffer: self.index_buffer,
            texture: self.texture,
            draw_range: self.draw_range,
        }
    }
}

impl Clone for Mesh {
    fn clone(&self) -> (r: Self)
        ensures
            r@ == self@,
    {
        let index_buffer = match &self.index_buffer {
            Some(buffer) => Some(buffer.clone()),
            None => None,
        };
        Mesh {
            vertex_buffer: self.vertex_buffer.clone(),
            index_buffer,
            texture: self.texture,
            draw_range: self.draw_range,
        }
    }
}

impl Mesh {
    /// Creates a new mesh, using the provided vertex buffer.
    pub fn new(vertex_buffer: VertexBuffer) -> (mesh: Mesh)
        ensures
            mesh@ == MeshState::plain(vertex_buffer),
    {
        Mesh { vertex_buffer, index_buffer: None, texture: None, draw_range: None }
    }

    /// Creates a new mesh, using the provided vertex and index buffers.
    pub fn indexed(vertex_buffer: VertexBuffer, index_buffer: IndexBuffer) -> (mesh: Mesh)
        ensures
            mesh@ == (MeshState {
                index_buffer: Some(index_buffer),
                ..MeshState::plain(vertex_buffer)
            }),
    {
        Mesh { vertex_buffer, index_buffer: Some(index_buffer), texture: None, draw_range: None }
    }

    /// What creating a mesh of one shape does to the context, and what it
    /// returns. `fault` is what is wrong with the shape as it was asked for,
    /// if anything is, and `outcome` is what was made of the shape before it
    /// came to the builder.
    ///
    /// A shape that an empty builder cannot add fails as the builder does,
    /// and nothing is asked of the device. Any other shape is added to an
    /// empty builder, in white, and the mesh is built from that.
    pub open spec fn shape_built_from(
        fault: Option<TessellationFailure>,
        outcome: Outcome,
        before: Context,
        r: Result<Mesh, TetraError>,
        after: Context,
    ) -> bool {
        let empty = GeometryBuilder::spec_empty();
        if fault is None && outcome is Triangles && empty.shape_fault(outcome->Triangles_0) is None {
            GeometryBuilder::builds_mesh(empty.with_shape(outcome->Triangles_0), before, r, after)
        } else {
            &&& r is Err
            &&& empty.adds_outcome(fault, outcome, Err(r->Err_0))
            &&& after.device@ == before.device@
            &&& after.device.wf()
            &&& after.graphics == before.graphics
        }
    }

    /// What creating a mesh of one shape does to the context, and what it
    /// returns, where `computed` is what the tessellator computes for the
    /// shape.
    pub open spec fn shape_built(
        fault: Option<TessellationFailure>,
        computed: Option<(Seq<Vec2>, Seq<u32>)>,
        before: Context,
        r: Result<Mesh, TetraError>,
        after: Context,
    ) -> bool {
        Self::shape_built_from(fault, computed_outcome(computed), before, r, after)
    }

    /// What creating a mesh of one shape does to the context, and what it
    /// returns, whatever the tessellator made of the shape.
    pub open spec fn builds_a_shape(
        fault: Option<TessellationFailure>,
        before: Context,
        r: Result<Mesh, TetraError>,
        after: Context,
    ) -> bool {
        exists|computed: Option<(Seq<Vec2>, Seq<u32>)>| #[trigger]
            Self::shape_built(fault, computed, before, r, after)
    }

    /// What creating a mesh of a rectangle does to the context, and what it
    /// returns: to fill it, the mesh is built of a quad of the rectangle; to
    /// stroke it, of what the stroke tessellator made of it.
    pub open spec fn builds_a_rectangle(
        style: ShapeStyle,
        rectangle: Rectangle,
        before: Context,
        r: Result<Mesh, TetraError>,
        after: Context,
    ) -> bool {
        let fault = rectangle_fault(style, rectangle);
        match style {
            ShapeStyle::Fill => match fault {
                Some(_) => Self::shape_built(fault, None, before, r, after),
                None => exists|shape: (Seq<Vec2>, Seq<u32>)|
                    is_quad(rectangle, shape) && #[trigger] Self::shape_built(
                        None,
                        Some(shape),
                        before,
                        r,
                        after,
                    ),
            },
            ShapeStyle::Stroke(_) => Self::builds_a_shape(fault, before, r, after),
        }
    }

    /// What creating a mesh of a shape that the caller's sweep fills does to
    /// the context, and what it returns: to fill it, the mesh is built of
    /// what the sweep made of it; to stroke it, of what the stroke
    /// tessellator made of it.
    pub open spec fn builds_swept_or_stroked(
        fault: Option<TessellationFailure>,
        style: ShapeStyle,
        swept: Result<Tessellation, TessellationFailure>,
        before: Context,
        r: Result<Mesh, TetraError>,
        after: Context,
    ) -> bool {
        match style {
            ShapeStyle::Fill => Self::shape_built_from(
                fault,
                swept_outcome(swept),
                before,
                r,
                after,
            ),
            ShapeStyle::Stroke(_) => Self::builds_a_shape(fault, before, r, after),
        }
    }

    /// Whether a mesh came of what an empty builder made of a shape: with
    /// the shape added, the mesh is built of it; with the shape refused,
    /// nothing is asked of the device.
    pub open spec fn came_of(
        added: Result<GeometryState, TetraError>,
        before: Context,
        r: Result<Mesh, TetraError>,
        after: Context,
    ) -> bool {
        match added {
            Ok(state) => GeometryBuilder::builds_mesh(state, before, r, after),
            Err(e) => {
                &&& r == Err::<Mesh, TetraError>(e)
                &&& after.device@ == before.device@
                &&& after.device.wf()
                &&& after.graphics == before.graphics
            },
        }
    }

    proof fn lemma_built(
        fault: Option<TessellationFailure>,
        added: Result<GeometryState, TetraError>,
        before: Context,
        r: Result<Mesh, TetraError>,
        after: Context,
    )
        requires
            GeometryBuilder::spec_empty().adds_a_shape(fault, added),
            Self::came_of(added, before, r, after),
        ensures
            Self::builds_a_shape(fault, before, r, after),
    {
        let computed = choose|computed: Option<(Seq<Vec2>, Seq<u32>)>|
            GeometryBuilder::spec_empty().adds(fault, computed, added);
        assert(Self::shape_built(fault, computed, before, r, after));
    }

    proof fn lemma_built_rectangle(
        style: ShapeStyle,
        rectangle: Rectangle,
        added: Result<GeometryState, TetraError>,
        before: Context,
        r: Result<Mesh, TetraError>,
        after: Context,
    )
        requires
            GeometryBuilder::spec_empty().adds_a_rectangle(style, rectangle, added),
            Self::came_of(added, before, r, after),
        ensures
            Self::builds_a_rectangle(style, rectangle, before, r, after),
    {
        let fault = rectangle_fault(style, rectangle);
        match style {
            ShapeStyle::Fill => {
                if fault is None {
                    let shape = choose|shape: (Seq<Vec2>, Seq<u32>)|
                        is_quad(rectangle, shape) && GeometryBuilder::spec_empty().adds(
                            None,
                            Some(shape),
                            added,
                        );
                    assert(Self::shape_built(None, Some(shape), before, r, after));
                }
            },
            ShapeStyle::Stroke(_) => {
                Self::lemma_built(fault, added, before, r, after);
            },
        }
    }

    proof fn lemma_built_swept(
        fault: Option<TessellationFailure>,
        style: ShapeStyle,
        swept: Result<Tessellation, TessellationFailure>,
        added: Result<GeometryState, TetraError>,
        before: Context,
        r: Result<Mesh, TetraError>,
        after: Context,
    )
        requires
            GeometryBuilder::spec_empty().adds_swept_or_stroked(fault, style, swept, added),
            Self::came_of(added, before, r, after),
        ensures
            Self::builds_swept_or_stroked(fault, style, swept, before, r, after),
    {
        match style {
            ShapeStyle::Fill => {},
            ShapeStyle::Stroke(_) => {
                Self::lemma_built(fault, added, before, r, after);
            },
        }
    }

    /// Creates a new rectangle mesh.
    ///
    /// Fails with a tessellation error when the shape could not be turned
    /// into vertex data, and with a platform error when the device cannot
    /// allocate the buffers.
    pub fn rectangle(ctx: &mut Context, style: ShapeStyle, rectangle: Rectangle) -> (r: Result<
        Mesh,
        TetraError,
    >)
        requires
            old(ctx).device.wf(),
        ensures
            Self::builds_a_rectangle(style, rectangle, *old(ctx), r, *final(ctx)),
    {
        let mut builder = GeometryBuilder::new();
        match builder.rectangle(style, rectangle) {
            Ok(shape) => {
                let ghost added = shape@;
                let r = shape.build_mesh(ctx);
                proof {
                    Self::lemma_built_rectangle(style, rectangle, Ok(added), *old(ctx), r, *ctx);
                }
                r
            },
            Err(e) => {
                proof {
                    Self::lemma_built_rectangle(style, rectangle, Err(e), *old(ctx), Err(e), *ctx);
                }
                Err(e)
            },
        }
    }

    /// Creates a new rounded rectangle mesh. To fill one, `swept` is what
    /// the caller's sweep made of the shape, as for
    /// [`GeometryBuilder::rounded_rectangle`].
    ///
    /// Fails with a tessellation error when the shape could not be turned
    /// into vertex data, and with a platform error when the device cannot
    /// allocate the buffers.
    pub fn rounded_rectangle(
        ctx: &mut Context,
        style: ShapeStyle,
        rectangle: Rectangle,
        radii: BorderRadii,
        swept: Result<Tessellation, TessellationFailure>,
    ) -> (r: Result<Mesh, TetraError>)
        requires
            old(ctx).device.wf(),
        ensures
            Self::builds_swept_or_stroked(
                rounded_rectangle_fault(style, rectangle, radii),
                style,
                swept,
                *old(ctx),
                r,
                *final(ctx),
            ),
    {
        let ghost fault = rounded_rectangle_fault(style, rectangle, radii);
        let mut builder = GeometryBuilder::new();
        match builder.rounded_rectangle(style, rectangle, radii, swept) {
            Ok(shape) => {
                let ghost added = shape@;
                let r = shape.build_mesh(ctx);
                proof {
                    Self::lemma_built_swept(fault, style, swept, Ok(added), *old(ctx), r, *ctx);
                }
                r
            },
            Err(e) => {
                proof {
                    Self::lemma_built_swept(fault, style, swept, Err(e), *old(ctx), Err(e), *ctx);
                }
                Err(e)
            },
        }
    }

    /// Creates a new circle mesh.
    ///
    /// Fails with a tessellation error when the shape could not be turned
    /// into vertex data, and with a platform error when the device cannot
    /// allocate the buffers.
    pub fn circle(ctx: &mut Context, style: ShapeStyle, center: Vec2, radius: Float) -> (r: Result<
        Mesh,
        TetraError,
    >)
        requires
            old(ctx).device.wf(),
        ensures
            Self::builds_a_shape(circle_fault(style, center, radius), *old(ctx), r, *final(ctx)),
    {
        let ghost fault = circle_fault(style, center, radius);
        let mut builder = GeometryBuilder::new();
        match builder.circle(style, center, radius) {
            Ok(shape) => {
                let ghost added = shape@;
                let r = shape.build_mesh(ctx);
                proof {
                    Self::lemma_built(fault, Ok(added), *old(ctx), r, *ctx);
                }
                r
            },
            Err(e) => {
                proof {
                    Self::lemma_built(fault, Err(e), *old(ctx), Err(e), *ctx);
                }
                Err(e)
            },
        }
    }

    /// Creates a new ellipse mesh. To fill one, `swept` is what the caller's
    /// sweep made of the shape, as for [`GeometryBuilder::ellipse`].
    ///
    /// Fails with a tessellation error when the shape could not be turned
    /// into vertex data, and with a platform error when the device cannot
    /// allocate the buffers.
    pub fn ellipse(
        ctx: &mut Context,
        style: ShapeStyle,
        center: Vec2,
        radii: Vec2,
        swept: Result<Tessellation, TessellationFailure>,
    ) -> (r: Result<Mesh, TetraError>)
        requires
            old(ctx).device.wf(),
        ensures
            Self::builds_swept_or_stroked(
                ellipse_fault(style, center, radii),
                style,
                swept,
                *old(ctx),
                r,
                *final(ctx),
            ),
    {
        let ghost fault = ellipse_fault(style, center, radii);
        let mut builder = GeometryBuilder::new();
        match builder.ellipse(style, center, radii, swept) {
            Ok(shape) => {
                let ghost added = shape@;
                let r = shape.build_mesh(ctx);
                proof {
                    Self::lemma_built_swept(fault, style, swept, Ok(added), *old(ctx), r, *ctx);
                }
                r
            },
            Err(e) => {
                proof {
                    Self::lemma_built_swept(fault, style, swept, Err(e), *old(ctx), Err(e), *ctx);
                }
                Err(e)
            },
        }
    }

    /// Creates a new polygon mesh. To fill one, `swept` is what the caller's
    /// sweep made of the shape, as for [`GeometryBuilder::polygon`].
    ///
    /// Fails with a tessellation error when the shape could not be turned
    /// into vertex data, and with a platform error when the device cannot
    /// allocate the buffers.
    pub fn polygon(
        ctx: &mut Context,
        style: ShapeStyle,
        points: &[Vec2],
        swept: Result<Tessellation, TessellationFailure>,
    ) -> (r: Result<Mesh, TetraError>)
        requires
            old(ctx).device.wf(),
        ensures
            Self::builds_swept_or_stroked(
                polygon_fault(style, points@),
                style,
                swept,
                *old(ctx),
                r,
                *final(ctx),
            ),
    {
        let ghost fault = polygon_fault(style, points@);
        let mut builder = GeometryBuilder::new();
        match builder.polygon(style, points, swept) {
            Ok(shape) => {
                let ghost added = shape@;
                let r = shape.build_mesh(ctx);
                proof {
                    Self::lemma_built_swept(fault, style, swept, Ok(added), *old(ctx), r, *ctx);
                }
                r
            },
            Err(e) => {
                proof {
                    Self::lemma_built_swept(fault, style, swept, Err(e), *old(ctx), Err(e), *ctx);
                }
                Err(e)
            },
        }
    }

    /// Creates a new polyline mesh.
    ///
    /// Fails with a tessellation error when the shape could not be turned
    /// into vertex data, and with a platform error when the device cannot
    /// allocate the buffers.
    pub fn polyline(ctx: &mut Context, stroke_width: Float, points: &[Vec2]) -> (r: Result<
        Mesh,
        TetraError,
    >)
        requires
            old(ctx).device.wf(),
        ensures
            Self::builds_a_shape(polyline_fault(stroke_width, points@), *old(ctx), r, *final(ctx)),
    {
        let ghost fault = polyline_fault(stroke_width, points@);
        let mut builder = GeometryBuilder::new();
        match builder.polyline(stroke_width, points) {
            Ok(shape) => {
                let ghost added = shape@;
                let r = shape.build_mesh(ctx);
                proof {
                    Self::lemma_built(fault, Ok(added), *old(ctx), r, *ctx);
                }
                r
            },
            Err(e) => {
                proof {
                    Self::lemma_built(fault, Err(e), *old(ctx), Err(e), *ctx);
                }
                Err(e)
            },
        }
    }

    /// Gets a reference to the vertex buffer contained within this mesh.
    pub fn vertex_buffer(&self) -> (buffer: &VertexBuffer)
        ensures
            *buffer == self@.vertex_buffer,
    {
        &self.vertex_buffer
    }

    /// Sets the vertex buffer that will be used when drawing the mesh.
    pub fn set_vertex_buffer(&mut self, vertex_buffer: VertexBuffer)
        ensures
            final(self)@ == (MeshState { vertex_buffer, ..old(self)@ }),
    {
        self.vertex_buffer = vertex_buffer;
    }

    /// Gets a reference to the index buffer contained within this mesh.
    ///
    /// Returns [`None`] if this mesh does not currently have an index buffer
    /// attached.
    pub fn index_buffer(&self) -> (buffer: Option<&IndexBuffer>)
        ensures
            buffer is Some == self@.index_buffer is Some,
            buffer is Some ==> *buffer->0 == self@.index_buffer->0,
    {
        self.index_buffer.as_ref()
    }

    /// Sets the index buffer that will be used when drawing the mesh.
    pub fn set_index_buffer(&mut self, index_buffer: IndexBuffer)
        ensures
            final(self)@ == (MeshState { index_buffer: Some(index_buffer), ..old(self)@ }),
    {
        self.index_buffer = Some(index_buffer);
    }

    /// Resets the mesh to no longer use indexed drawing.
    pub fn reset_index_buffer(&mut self)
        ensures
            final(self)@ == (MeshState { index_buffer: None, ..old(self)@ }),
    {
        self.index_buffer = None;
    }

    /// Gets a reference to the texture contained within this mesh.
    ///
    /// Returns [`None`] if this mesh does not currently have a texture
    /// attached.
    pub fn texture(&self) -> (texture: Option<&Texture>)
        ensures
            texture is Some == self@.texture is Some,
            texture is Some ==> *texture->0 == self@.texture->0,
    {
        self.texture.as_ref()
    }

    /// Sets the texture that will be used when drawing the mesh.
    pub fn set_texture(&mut self, texture: Texture)
        ensures
            final(self)@ == (MeshState { texture: Some(texture), ..old(self)@ }),
    {
        self.texture = Some(texture);
    }

    /// Resets the mesh to be untextured.
    pub fn reset_texture(&mut self)
        ensures
            final(self)@ == (MeshState { texture: None, ..old(self)@ }),
    {
        self.texture = None;
    }

    /// Sets the range of vertices (or indices, if the mesh is indexed) that
    /// should be included when drawing this mesh.
    pub fn set_draw_range(&mut self, start: usize, count: usize)
        ensures
            final(self)@ == (MeshState {
                draw_range: Some(DrawRange { start, count }),
                ..old(self)@
            }),
    {
        self.draw_range = Some(DrawRange { start, count });
    }

    /// Sets the mesh to include all of its data when drawing.
    pub fn reset_draw_range(&mut self)
        ensures
            final(self)@ == (MeshState { draw_range: None, ..old(self)@ }),
    {
        self.draw_range = None;
    }

    /// The vertices or indices that a draw call covers.
    pub fn draw_range(&self) -> (range: DrawRange)
        ensures
            range == self@.range(),
    {
        match self.draw_range {
            Some(range) => range,
            None => match &self.index_buffer {
                Some(index_buffer) => DrawRange { start: 0, count: index_buffer.count() },
                None => DrawRange { start: 0, count: self.vertex_buffer.count() },
            },
        }
    }
}

impl From<VertexBuffer> for Mesh {
    fn from(buffer: VertexBuffer) -> (mesh: Mesh)
        ensures
            mesh@ == MeshState::plain(buffer),
    {
        Mesh::new(buffer)
    }
}

impl vstd::std_specs::convert::FromSpecImpl<VertexBuffer> for Mesh {
    open spec fn obeys_from_spec() -> bool {
        true
    }

    closed spec fn from_spec(buffer: VertexBuffer) -> Mesh {
        Mesh { vertex_buffer: buffer, index_buffer: None, texture: None, draw_range: None }
    }
}

impl Drawable for Mesh {
    /// The pending quads are submitted first; then come the uniforms and the
    /// one draw call of the mesh.
    open spec fn draw_commands(&self, batch: BatchState, params: DrawParams) -> Seq<Command> {
        batch.flush_commands() + self@.commands(batch, params)
    }

    open spec fn batch_after_draw(&self, batch: BatchState, params: DrawParams) -> BatchState {
        batch.flushed()
    }

    fn draw(&self, ctx: &mut Context, params: DrawParams) {
        crate::graphics::flush(ctx);
        let texture = match &self.texture {
            Some(texture) => *texture,
            None => ctx.graphics.default_texture(),
        };
        let shader = ctx.graphics.shader();
        ctx.device.set_default_uniforms(
            shader.id,
            ctx.graphics.projection_matrix(),
            ctx.graphics.transform_matrix(),
            params.to_transform(),
            params.color,
        );
        let range = self.draw_range();
        match &self.index_buffer {
            Some(index_buffer) => {
                ctx.device.draw_elements(
                    &self.vertex_buffer.handle,
                    &index_buffer.handle,
                    texture.id,
                    shader.id,
                    range.start,
                    range.count,
                );
            },
            None => {
                ctx.device.draw_arrays(
                    &self.vertex_buffer.handle,
                    texture.id,
                    shader.id,
                    range.start,
                    range.count,
                );
            },
        }
        proof {
            assert(ctx.device@.commands =~= old(ctx).device@.commands + self.draw_commands(
                old(ctx).graphics@,
                params,
            ));
        }
    }
}

/// A clone of a mesh is made of what the mesh is made of, and stays so:
/// setting another vertex buffer on the mesh leaves the clone with the
/// buffer that both had.
pub proof fn lemma_clone_keeps_its_vertex_buffer(
    mesh: MeshState,
    clone: MeshState,
    replacement: VertexBuffer,
)
    requires
        clone == mesh,
    ensures
        ({
            let changed = MeshState { vertex_buffer: replacement, ..mesh };
            &&& changed.vertex_buffer == replacement
            &&& clone.vertex_buffer == mesh.vertex_buffer
            &&& replacement@.id != mesh.vertex_buffer@.id ==> clone.vertex_buffer@.id
                != changed.vertex_buffer@.id
        }),
{
}

/// A draw range, once set, is what the draw call of the mesh covers; once
/// reset, the draw call covers all the indices of an indexed mesh, and all
/// the vertices of a mesh without indices.
pub proof fn lemma_draw_range(mesh: MeshState, start: usize, count: usize, texture: u32, program: u32)
    ensures
        ({
            let ranged = MeshState { draw_range: Some(DrawRange { start, count }), ..mesh };
            let whole = MeshState { draw_range: None, ..mesh };
            match mesh.index_buffer {
                Some(index_buffer) => {
                    &&& ranged.draw_call(texture, program) == (Command::DrawElements {
                        vertex_buffer: mesh.vertex_buffer@.id,
                        index_buffer: index_buffer@.id,
                        texture,
                        program,
                        start,
                        count,
                    })
                    &&& whole.draw_call(texture, program) == (Command::DrawElements {
                        vertex_buffer: mesh.vertex_buffer@.id,
                        index_buffer: index_buffer@.id,
                        texture,
                        program,
                        start: 0,
                        count: index_buffer@.count,
                    })
                },
                None => {
                    &&& ranged.draw_call(texture, program) == (Command::DrawArrays {
                        vertex_buffer: mesh.vertex_buffer@.id,
                        texture,
                        program,
                        start,
                        count,
                    })
                    &&& whole.draw_call(texture, program) == (Command::DrawArrays {
                        vertex_buffer: mesh.vertex_buffer@.id,
                        texture,
                        program,
                        start: 0,
                        count: mesh.vertex_buffer@.count,
                    })
                },
            }
        }),
{
}

/// Drawing a mesh makes exactly one draw call of its own, after the one
/// that submits the pending quads if there are any; and the draw call of
/// the mesh is the last thing asked of the device.
pub proof fn lemma_mesh_draws_once(mesh: Mesh, batch: BatchState, params: DrawParams)
    requires
        batch.wf(),
    ensures
        draw_calls(mesh@.commands(batch, params)) == 1,
        draw_calls(mesh.draw_commands(batch, params)) == (if batch.sprite_count > 0 {
            2nat
        } else {
            1nat
        }),
        mesh.draw_commands(batch, params).last() == mesh@.draw_call(
            mesh@.texture_or(batch.default_texture).id,
            batch.program(),
        ),
        mesh.draw_commands(batch, params).subrange(0, batch.flush_commands().len() as int)
            == batch.flush_commands(),
{
    let own = mesh@.commands(batch, params);
    reveal_with_fuel(draw_calls, 3);
    assert(own.drop_last() =~= seq![own[0]]);
    assert(own.drop_last().drop_last() =~= Seq::<Command>::empty());
    crate::graphics::lemma_flush(batch);
    crate::graphics::lemma_draw_calls_concat(batch.flush_commands(), own);
    assert(mesh.draw_commands(batch, params).subrange(0, batch.flush_commands().len() as int)
        =~= batch.flush_commands());
}

/// The radii of the four corners of a rounded rectangle.
#[derive(Copy, Clone, Debug, PartialEq, Eq, Structural)]
pub struct BorderRadii {
    pub top_left: Float,
    pub top_right: Float,
    pub bottom_left: Float,
    pub bottom_right: Float,
}

impl BorderRadii {
    /// Whether the four radii are finite.
    pub open spec fn is_finite(self) -> bool {
        &&& self.top_left.is_finite()
        &&& self.top_right.is_finite()
        &&& self.bottom_left.is_finite()
        &&& self.bottom_right.is_finite()
    }

    /// Whether the four radii can be numbers of a curve that is stroked.
    pub open spec fn is_curve_size(self) -> bool {
        &&& self.top_left.is_curve_size()
        &&& self.top_right.is_curve_size()
        &&& self.bottom_left.is_curve_size()
        &&& self.bottom_right.is_curve_size()
    }

    /// Tells whether the four radii are finite.
    pub fn finite(&self) -> (b: bool)
        ensures
            b == self.is_finite(),
    {
        self.top_left.finite() && self.top_right.finite() && self.bottom_left.finite()
            && self.bottom_right.finite()
    }

    /// Tells whether the four radii can be numbers of a curve that is
    /// stroked.
    pub fn curve_size(&self) -> (b: bool)
        ensures
            b == self.is_curve_size(),
    {
        self.top_left.curve_size() && self.top_right.curve_size() && self.bottom_left.curve_size()
            && self.bottom_right.curve_size()
    }

    /// The bit patterns of the radii: top left, top right, bottom left,
    /// bottom right.
    pub fn to_bits(&self) -> (bits: [u32; 4])
        ensures
            bits[0] == self.top_left.bits,
            bits[1] == self.top_right.bits,
            bits[2] == self.bottom_left.bits,
            bits[3] == self.bottom_right.bits,
    {
        [self.top_left.bits, self.top_right.bits, self.bottom_left.bits, self.bottom_right.bits]
    }

    /// The same radius for the four corners.
    pub fn new(radius: Float) -> (radii: BorderRadii)
        ensures
            radii == (BorderRadii {
                top_left: radius,
                top_right: radius,
                bottom_left: radius,
                bottom_right: radius,
            }),
    {
        BorderRadii {
            top_left: radius,
            top_right: radius,
            bottom_left: radius,
            bottom_right: radius,
        }
    }
}

/// The vertices that the builder makes of the positions of a shape: each
/// has the builder's color and samples the texture at zero.
pub open spec fn shaded(positions: Seq<Vec2>, color: Color) -> Seq<Vertex> {
    Seq::new(
        positions.len(),
        |i: int| Vertex { position: positions[i], uv: Vec2::spec_zero(), color },
    )
}

/// The indices of a shape, each moved up by the number of vertices that were
/// there before the shape.
pub open spec fn shifted(indices: Seq<u32>, base: nat) -> Seq<u32> {
    Seq::new(indices.len(), |i: int| (indices[i] + base) as u32)
}

/// Whether every index names one of `count` vertices.
pub open spec fn indices_below(indices: Seq<u32>, count: nat) -> bool {
    forall|i: int| 0 <= i < indices.len() ==> (#[trigger] indices[i]) < count
}

/// What was made of a shape before it comes to the builder.
pub enum Outcome {
    /// The shape was turned into triangles: positions, and indices into
    /// them.
    Triangles((Seq<Vec2>, Seq<u32>)),
    /// The shape could not be turned into triangles, for the reason given.
    Failed(TessellationFailure),
    /// The tessellator gave up on the shape.
    GaveUp,
}

/// What the tessellator made of a shape, given what it computes for it.
pub open spec fn computed_outcome(computed: Option<(Seq<Vec2>, Seq<u32>)>) -> Outcome {
    match computed {
        Some(shape) => Outcome::Triangles(shape),
        None => Outcome::GaveUp,
    }
}

/// What a tessellator that was called made of a shape: triangles, or
/// nothing where it gave up.
pub open spec fn tessellated(
    outcome: Result<Tessellation, lyon_tessellation::TessellationError>,
) -> Option<(Seq<Vec2>, Seq<u32>)> {
    match outcome {
        Ok(shape) => Some(shape@),
        Err(_) => None,
    }
}

/// What the caller's sweep made of a shape that is to be filled.
pub open spec fn swept_outcome(swept: Result<Tessellation, TessellationFailure>) -> Outcome {
    match swept {
        Ok(shape) => Outcome::Triangles(shape@),
        Err(failure) => Outcome::Failed(failure),
    }
}

/// What a geometry builder holds.
pub struct GeometryState {
    /// The vertices of the shapes added so far, in the order of adding.
    pub vertices: Seq<Vertex>,
    /// The triangles of the shapes added so far, as indices into `vertices`.
    pub indices: Seq<u32>,
    /// The color that the vertices of the next shape get.
    pub color: Color,
}

impl GeometryState {
    /// Whether the indices come in threes, every index names a vertex, and
    /// an index can name every vertex.
    pub open spec fn wf(self) -> bool {
        &&& self.indices.len() % 3 == 0
        &&& self.vertices.len() <= u32::MAX
        &&& indices_below(self.indices, self.vertices.len())
    }

    /// Why a shape cannot be added, if it cannot: its indices do not come in
    /// threes, it names a vertex it does not have, or it has more vertices
    /// than an index can still name.
    pub open spec fn shape_fault(self, shape: (Seq<Vec2>, Seq<u32>)) -> Option<
        TessellationFailure,
    > {
        if shape.1.len() % 3 != 0 {
            Some(TessellationFailure::NotTriangles)
        } else if !indices_below(shape.1, shape.0.len()) {
            Some(TessellationFailure::InvalidIndex)
        } else if self.vertices.len() + shape.0.len() > u32::MAX {
            Some(TessellationFailure::TooManyVertices)
        } else {
            None
        }
    }

    /// The state after a shape was added: its vertices come behind the ones
    /// that were there, in the builder's color, and its triangles behind the
    /// triangles that were there.
    pub open spec fn with_shape(self, shape: (Seq<Vec2>, Seq<u32>)) -> GeometryState {
        GeometryState {
            vertices: self.vertices + shaded(shape.0, self.color),
            indices: self.indices + shifted(shape.1, self.vertices.len()),
            color: self.color,
        }
    }

    /// Whether `result` is what adding a shape comes to. `fault` is what is
    /// wrong with the shape as it was asked for, if anything is, and
    /// `outcome` is what was made of the shape before it came to the builder.
    ///
    /// A shape with a fault fails with that fault. A shape that could not be
    /// turned into triangles fails with the failure that was reported, or
    /// with one of the tessellator's failures where the tessellator gave up.
    /// A shape that does not fit fails as [`GeometryState::shape_fault`] says.
    /// Any other shape is added.
    pub open spec fn adds_outcome(
        self,
        fault: Option<TessellationFailure>,
        outcome: Outcome,
        result: Result<GeometryState, TetraError>,
    ) -> bool {
        match fault {
            Some(failure) => result == Err::<GeometryState, TetraError>(
                TetraError::TessellationError(failure),
            ),
            None => match outcome {
                Outcome::GaveUp => result matches Err(TetraError::TessellationError(failure))
                    && failure.is_tessellator(),
                Outcome::Failed(failure) => result == Err::<GeometryState, TetraError>(
                    TetraError::TessellationError(failure),
                ),
                Outcome::Triangles(shape) => match self.shape_fault(shape) {
                    Some(failure) => result == Err::<GeometryState, TetraError>(
                        TetraError::TessellationError(failure),
                    ),
                    None => result == Ok::<GeometryState, TetraError>(self.with_shape(shape)),
                },
            },
        }
    }

    /// Whether `result` is what adding a shape comes to, where `computed` is
    /// what the tessellator computes for the shape.
    pub open spec fn adds(
        self,
        fault: Option<TessellationFailure>,
        computed: Option<(Seq<Vec2>, Seq<u32>)>,
        result: Result<GeometryState, TetraError>,
    ) -> bool {
        self.adds_outcome(fault, computed_outcome(computed), result)
    }

    /// Whether `result` is what adding a shape comes to, whatever the
    /// tessellator made of the shape: there is something it can have
    /// computed, triangles or nothing, of which `result` is what comes.
    pub open spec fn adds_a_shape(
        self,
        fault: Option<TessellationFailure>,
        result: Result<GeometryState, TetraError>,
    ) -> bool {
        exists|computed: Option<(Seq<Vec2>, Seq<u32>)>| #[trigger]
            self.adds(fault, computed, result)
    }

    /// Whether `result` is what adding a filled rectangle comes to: with a
    /// fault it fails with the fault, and without one a quad of the
    /// rectangle is added, or fails because it does not fit.
    pub open spec fn adds_a_quad(
        self,
        rectangle: Rectangle,
        fault: Option<TessellationFailure>,
        result: Result<GeometryState, TetraError>,
    ) -> bool {
        match fault {
            Some(_) => self.adds(fault, None, result),
            None => exists|shape: (Seq<Vec2>, Seq<u32>)|
                is_quad(rectangle, shape) && #[trigger] self.adds(None, Some(shape), result),
        }
    }

    /// Whether `result` is what adding a rectangle in a style comes to: to
    /// fill it, a quad is added; to stroke it, what the stroke tessellator
    /// made of it.
    pub open spec fn adds_a_rectangle(
        self,
        style: ShapeStyle,
        rectangle: Rectangle,
        result: Result<GeometryState, TetraError>,
    ) -> bool {
        match style {
            ShapeStyle::Fill => self.adds_a_quad(rectangle, rectangle_fault(style, rectangle), result),
            ShapeStyle::Stroke(_) => self.adds_a_shape(rectangle_fault(style, rectangle), result),
        }
    }

    /// Whether `result` is what adding a shape in a style comes to, where
    /// the shape is one that the caller's sweep fills: to fill it, what the
    /// sweep made of it is added; to stroke it, what the stroke tessellator
    /// made of it.
    pub open spec fn adds_swept_or_stroked(
        self,
        fault: Option<TessellationFailure>,
        style: ShapeStyle,
        swept: Result<Tessellation, TessellationFailure>,
        result: Result<GeometryState, TetraError>,
    ) -> bool {
        match style {
            ShapeStyle::Fill => self.adds_outcome(fault, swept_outcome(swept), result),
            ShapeStyle::Stroke(_) => self.adds_a_shape(fault, result),
        }
    }

    /// What building buffers of the geometry asks of a device that has given
    /// out `buffers` buffers so far.
    pub open spec fn build_commands(self, buffers: nat) -> Seq<Command> {
        seq![
            Command::NewVertexBuffer {
                id: buffers as u32,
                count: self.vertices.len() as usize,
                stride: VERTEX_STRIDE,
                usage: BufferUsage::Dynamic,
            },
            Command::SetVertexBufferData {
                id: buffers as u32,
                data: vertex_words(self.vertices),
                offset: 0,
            },
            Command::NewIndexBuffer {
                id: (buffers + 1) as u32,
                count: self.indices.len() as usize,
                usage: BufferUsage::Dynamic,
            },
            Command::SetIndexBufferData {
                id: (buffers + 1) as u32,
                data: self.indices,
                offset: 0,
            },
        ]
    }
}

/// What is wrong with a stroke style, if anything is: its width is not above
/// zero, or not finite.
pub open spec fn style_fault(style: ShapeStyle) -> Option<TessellationFailure> {
    match style {
        ShapeStyle::Fill => None,
        ShapeStyle::Stroke(width) => if width.is_stroke_width() {
            None
        } else {
            Some(TessellationFailure::StrokeWidth)
        },
    }
}

/// What is wrong with a shape whose numbers are in order or not, and its
/// style: a shape whose numbers are not in order has that fault, whatever
/// its style.
pub open spec fn shape_style_fault(in_order: bool, style: ShapeStyle) -> Option<
    TessellationFailure,
> {
    if !in_order {
        Some(TessellationFailure::OutOfRange)
    } else {
        style_fault(style)
    }
}

/// What is wrong with a rectangle and its style, if anything is: a number
/// that is not finite, or a stroke width that is not above zero.
pub open spec fn rectangle_fault(style: ShapeStyle, rectangle: Rectangle) -> Option<
    TessellationFailure,
> {
    shape_style_fault(rectangle.is_finite(), style)
}

/// What is wrong with a rounded rectangle and its style, if anything is: a
/// number that is not finite or, where it is stroked, too large for a curve;
/// or a stroke width that is not above zero.
pub open spec fn rounded_rectangle_fault(
    style: ShapeStyle,
    rectangle: Rectangle,
    radii: BorderRadii,
) -> Option<TessellationFailure> {
    match style {
        ShapeStyle::Fill => shape_style_fault(rectangle.is_finite() && radii.is_finite(), style),
        ShapeStyle::Stroke(_) => shape_style_fault(
            rectangle.is_curve_size() && radii.is_curve_size(),
            style,
        ),
    }
}

/// What is wrong with a circle and its style, if anything is: a center that
/// is not finite; where it is filled, a radius that is too small without
/// being zero, or too large; where it is stroked, a center or a radius too
/// large for a curve; or a stroke width that is not above zero.
pub open spec fn circle_fault(style: ShapeStyle, center: Vec2, radius: Float) -> Option<
    TessellationFailure,
> {
    match style {
        ShapeStyle::Fill => shape_style_fault(center.is_finite() && radius.is_fill_radius(), style),
        ShapeStyle::Stroke(_) => shape_style_fault(
            center.is_curve_size() && radius.is_curve_size(),
            style,
        ),
    }
}

/// What is wrong with an ellipse and its style, if anything is: a number
/// that is not finite or, where it is stroked, too large for a curve; or a
/// stroke width that is not above zero.
pub open spec fn ellipse_fault(style: ShapeStyle, center: Vec2, radii: Vec2) -> Option<
    TessellationFailure,
> {
    match style {
        ShapeStyle::Fill => shape_style_fault(center.is_finite() && radii.is_finite(), style),
        ShapeStyle::Stroke(_) => shape_style_fault(
            center.is_curve_size() && radii.is_curve_size(),
            style,
        ),
    }
}

/// What is wrong with a polygon and its style, if anything is: it has fewer
/// than three points, a point that is not finite, or a stroke width that is
/// not above zero.
pub open spec fn polygon_fault(style: ShapeStyle, points: Seq<Vec2>) -> Option<
    TessellationFailure,
> {
    if points.len() < 3 {
        Some(TessellationFailure::TooFewPoints)
    } else {
        shape_style_fault(points_finite(points), style)
    }
}

/// What is wrong with a polyline, if anything is: a point that is not
/// finite, or a stroke width that is not above zero.
pub open spec fn polyline_fault(stroke_width: Float, points: Seq<Vec2>) -> Option<
    TessellationFailure,
> {
    shape_style_fault(points_finite(points), ShapeStyle::Stroke(stroke_width))
}

/// Whether a shape is a rectangle as the fill tessellator writes it: the
/// given corner first, then the corners below it, diagonally across and
/// beside it, and the two triangles that the first corner makes with the
/// other three. Both triangles go round the rectangle the same way. The
/// far corner is the sum of the given corner and the size; for a
/// co-ordinate of the given corner that is positive zero the sum is the
/// size itself.
pub open spec fn is_quad(rectangle: Rectangle, shape: (Seq<Vec2>, Seq<u32>)) -> bool {
    &&& shape.0.len() == 4
    &&& shape.1 == seq![0u32, 1u32, 2u32, 0u32, 2u32, 3u32]
    &&& shape.0[0] == (Vec2 { x: rectangle.x, y: rectangle.y })
    &&& shape.0[1].x == rectangle.x
    &&& shape.0[1].y == shape.0[2].y
    &&& shape.0[3].x == shape.0[2].x
    &&& shape.0[3].y == rectangle.y
    &&& (rectangle.x.bits == 0 ==> shape.0[2].x == rectangle.width.added_to_zero())
    &&& (rectangle.y.bits == 0 ==> shape.0[2].y == rectangle.height.added_to_zero())
}

/// A shape that fits keeps what the builder held: the vertices and the
/// indices that were there stay where they were, the new vertices have the
/// builder's color and sample the texture at zero, and every index still
/// names a vertex.
pub proof fn lemma_with_shape(state: GeometryState, shape: (Seq<Vec2>, Seq<u32>))
    requires
        state.wf(),
        state.shape_fault(shape) is None,
    ensures
        ({
            let after = state.with_shape(shape);
            &&& after.wf()
            &&& after.color == state.color
            &&& after.vertices.len() == state.vertices.len() + shape.0.len()
            &&& after.indices.len() == state.indices.len() + shape.1.len()
            &&& after.vertices.subrange(0, state.vertices.len() as int) == state.vertices
            &&& after.indices.subrange(0, state.indices.len() as int) == state.indices
            &&& forall|i: int|
                0 <= i < shape.0.len() ==> #[trigger] after.vertices[state.vertices.len() + i]
                    == (Vertex { position: shape.0[i], uv: Vec2::spec_zero(), color: state.color })
            &&& forall|i: int|
                0 <= i < shape.1.len() ==> #[trigger] after.indices[state.indices.len() + i]
                    == shape.1[i] + state.vertices.len()
        }),
{
    let after = state.with_shape(shape);
    assert(after.vertices.subrange(0, state.vertices.len() as int) =~= state.vertices);
    assert(after.indices.subrange(0, state.indices.len() as int) =~= state.indices);
    assert forall|i: int| 0 <= i < after.indices.len() implies (#[trigger] after.indices[i])
        < after.vertices.len() by {
        if i >= state.indices.len() {
            assert(shape.1[i - state.indices.len()] < shape.0.len());
        }
    }
}

/// A filled rectangle is four vertices and six indices: the two triangles
/// that the given corner makes with the other three.
pub proof fn lemma_fill_rectangle_adds_a_quad(
    state: GeometryState,
    rectangle: Rectangle,
    shape: (Seq<Vec2>, Seq<u32>),
)
    requires
        state.wf(),
        is_quad(rectangle, shape),
        state.vertices.len() + 4 <= u32::MAX,
    ensures
        ({
            let after = state.with_shape(shape);
            let base = state.vertices.len();
            &&& state.shape_fault(shape) is None
            &&& after.vertices.len() == base + 4
            &&& after.indices == state.indices + seq![
                base as u32,
                (base + 1) as u32,
                (base + 2) as u32,
                base as u32,
                (base + 2) as u32,
                (base + 3) as u32,
            ]
            &&& after.vertices[base as int].position == (Vec2 { x: rectangle.x, y: rectangle.y })
        }),
{
    let after = state.with_shape(shape);
    let base = state.vertices.len();
    assert(shifted(shape.1, base) =~= seq![
        base as u32,
        (base + 1) as u32,
        (base + 2) as u32,
        base as u32,
        (base + 2) as u32,
        (base + 3) as u32,
    ]);
}

/// A filled rectangle at the origin, of a width and a height above zero, is
/// the four corners `(0, 0)`, `(0, h)`, `(w, h)` and `(w, 0)`, each once, and
/// two triangles with the diagonal from `(0, 0)` to `(w, h)` between them:
/// the first has its right angle at `(0, h)`, the second at `(w, 0)`, so
/// neither is flat, they lie on either side of the diagonal, and together
/// they are the rectangle.
pub proof fn lemma_fill_rectangle_at_origin(rectangle: Rectangle, shape: (Seq<Vec2>, Seq<u32>))
    requires
        is_quad(rectangle, shape),
        rectangle.x.bits == 0,
        rectangle.y.bits == 0,
        rectangle.width.is_positive(),
        rectangle.height.is_positive(),
    ensures
        ({
            let zero = Float { bits: 0 };
            let (w, h) = (rectangle.width, rectangle.height);
            &&& shape.0 == seq![
                Vec2 { x: zero, y: zero },
                Vec2 { x: zero, y: h },
                Vec2 { x: w, y: h },
                Vec2 { x: w, y: zero },
            ]
            &&& forall|i: int, j: int| 0 <= i < j < 4 ==> shape.0[i] != shape.0[j]
            &&& shape.1 == seq![0u32, 1u32, 2u32, 0u32, 2u32, 3u32]
            &&& w != zero
            &&& h != zero
        }),
{
    let zero = Float { bits: 0 };
    let (w, h) = (rectangle.width, rectangle.height);
    assert(w.added_to_zero() == w);
    assert(h.added_to_zero() == h);
    assert(shape.0 =~= seq![
        Vec2 { x: zero, y: zero },
        Vec2 { x: zero, y: h },
        Vec2 { x: w, y: h },
        Vec2 { x: w, y: zero },
    ]);
}

/// A polygon with fewer than three points and a stroke of zero width are
/// faults, and a shape with a fault is not added: the call fails with the
/// fault.
pub proof fn lemma_degenerate_shapes_fail(
    state: GeometryState,
    style: ShapeStyle,
    points: Seq<Vec2>,
    width: Float,
    computed: Option<(Seq<Vec2>, Seq<u32>)>,
    result: Result<GeometryState, TetraError>,
)
    ensures
        points.len() < 3 ==> polygon_fault(style, points) == Some(TessellationFailure::TooFewPoints),
        width.is_zero() ==> style_fault(ShapeStyle::Stroke(width)) == Some(
            TessellationFailure::StrokeWidth,
        ),
        width.is_zero() && points.len() >= 3 ==> polygon_fault(ShapeStyle::Stroke(width), points)
            is Some,
        forall|in_order: bool|
            width.is_zero() ==> (#[trigger] shape_style_fault(in_order, ShapeStyle::Stroke(width)))
                is Some,
        forall|fault: TessellationFailure| #[trigger]
            state.adds(Some(fault), computed, result) ==> result == Err::<
                GeometryState,
                TetraError,
            >(TetraError::TessellationError(fault)),
{
}

/// Tells whether every point is finite.
fn points_fit(points: &[Vec2]) -> (ok: bool)
    ensures
        ok == points_finite(points@),
{
    let mut i: usize = 0;
    while i < points.len()
        invariant
            i <= points.len(),
            forall|k: int| 0 <= k < i ==> (#[trigger] points@[k]).is_finite(),
        decreases points.len() - i,
    {
        if !points[i].finite() {
            return false;
        }
        i = i + 1;
    }
    true
}

/// Finds what is wrong with a shape whose numbers are in order or not, and
/// its style.
pub fn find_shape_style_fault(in_order: bool, style: ShapeStyle) -> (fault: Option<
    TessellationFailure,
>)
    ensures
        fault == shape_style_fault(in_order, style),
{
    if !in_order {
        return Some(TessellationFailure::OutOfRange);
    }
    match style {
        ShapeStyle::Fill => None,
        ShapeStyle::Stroke(width) => if width.stroke_width() {
            None
        } else {
            Some(TessellationFailure::StrokeWidth)
        },
    }
}

/// Finds what is wrong with a rectangle and its style.
pub fn find_rectangle_fault(style: ShapeStyle, rectangle: &Rectangle) -> (fault: Option<
    TessellationFailure,
>)
    ensures
        fault == rectangle_fault(style, *rectangle),
{
    find_shape_style_fault(rectangle.finite(), style)
}

/// Finds what is wrong with a rounded rectangle and its style.
pub fn find_rounded_rectangle_fault(
    style: ShapeStyle,
    rectangle: &Rectangle,
    radii: &BorderRadii,
) -> (fault: Option<TessellationFailure>)
    ensures
        fault == rounded_rectangle_fault(style, *rectangle, *radii),
{
    match style {
        ShapeStyle::Fill => find_shape_style_fault(rectangle.finite() && radii.finite(), style),
        ShapeStyle::Stroke(_) => find_shape_style_fault(
            rectangle.curve_size() && radii.curve_size(),
            style,
        ),
    }
}

/// Finds what is wrong with a circle and its style.
pub fn find_circle_fault(style: ShapeStyle, center: Vec2, radius: Float) -> (fault: Option<
    TessellationFailure,
>)
    ensures
        fault == circle_fault(style, center, radius),
{
    match style {
        ShapeStyle::Fill => find_shape_style_fault(center.finite() && radius.fill_radius(), style),
        ShapeStyle::Stroke(_) => find_shape_style_fault(
            center.curve_size() && radius.curve_size(),
            style,
        ),
    }
}

/// Finds what is wrong with an ellipse and its style.
pub fn find_ellipse_fault(style: ShapeStyle, center: Vec2, radii: Vec2) -> (fault: Option<
    TessellationFailure,
>)
    ensures
        fault == ellipse_fault(style, center, radii),
{
    match style {
        ShapeStyle::Fill => find_shape_style_fault(center.finite() && radii.finite(), style),
        ShapeStyle::Stroke(_) => find_shape_style_fault(
            center.curve_size() && radii.curve_size(),
            style,
        ),
    }
}

/// Finds what is wrong with a polygon and its style.
pub fn find_polygon_fault(style: ShapeStyle, points: &[Vec2]) -> (fault: Option<
    TessellationFailure,
>)
    ensures
        fault == polygon_fault(style, points@),
{
    if points.len() < 3 {
        return Some(TessellationFailure::TooFewPoints);
    }
    find_shape_style_fault(points_fit(points), style)
}

/// Finds what is wrong with a polyline.
pub fn find_polyline_fault(stroke_width: Float, points: &[Vec2]) -> (fault: Option<
    TessellationFailure,
>)
    ensures
        fault == polyline_fault(stroke_width, points@),
{
    find_shape_style_fault(points_fit(points), ShapeStyle::Stroke(stroke_width))
}

/// A builder for creating primitive shape geometry, and associated
/// buffers and meshes.
#[derive(Debug)]
pub struct GeometryBuilder {
    vertices: Vec<Vertex>,
    indices: Vec<u32>,
    color: Color,
}

impl View for GeometryBuilder {
    type V = GeometryState;

    closed spec fn view(&self) -> GeometryState {
        GeometryState { vertices: self.vertices@, indices: self.indices@, color: self.color }
    }
}

impl Clone for GeometryBuilder {
    fn clone(&self) -> (r: Self)
        ensures
            r@ == self@,
    {
        GeometryBuilder {
            vertices: self.vertices.clone(),
            indices: self.indices.clone(),
            color: self.color,
        }
    }
}

impl GeometryBuilder {
    /// What a new builder holds: nothing, and white as its color.
    pub open spec fn spec_empty() -> GeometryState {
        GeometryState { vertices: Seq::empty(), indices: Seq::empty(), color: Color::spec_white() }
    }

    /// Creates a new empty geometry builder. Its color is white.
    pub fn new() -> (builder: GeometryBuilder)
        ensures
            builder@ == Self::spec_empty(),
            builder@.wf(),
    {
        GeometryBuilder { vertices: Vec::new(), indices: Vec::new(), color: Color::white() }
    }

    /// Adds a shape that is there as triangles already: its vertices get the
    /// builder's color, and its indices are moved up behind the vertices
    /// that the builder holds.
    ///
    /// Fails, and leaves the builder as it was, when the indices of the shape
    /// do not come in threes, when the shape names a vertex that it does not
    /// have, or when it has more vertices than an index can still name.
    pub fn add(&mut self, shape: &Tessellation) -> (r: Result<(), TessellationFailure>)
        requires
            old(self)@.wf(),
        ensures
            final(self)@.wf(),
            match old(self)@.shape_fault(shape@) {
                Some(failure) => r == Err::<(), TessellationFailure>(failure) && final(self)@
                    == old(self)@,
                None => r is Ok && final(self)@ == old(self)@.with_shape(shape@),
            },
    {
        if shape.indices.len() % 3 != 0 {
            return Err(TessellationFailure::NotTriangles);
        }
        let ghost before = self@;
        let count = shape.positions.len();
        let mut k: usize = 0;
        while k < shape.indices.len()
            invariant
                k <= shape.indices.len(),
                count == shape.positions@.len(),
                shape.indices@.len() % 3 == 0,
                self@ == before,
                before.wf(),
                forall|j: int| 0 <= j < k ==> (#[trigger] shape.indices@[j]) < count,
            decreases shape.indices.len() - k,
        {
            if shape.indices[k] as usize >= count {
                return Err(TessellationFailure::InvalidIndex);
            }
            k = k + 1;
        }
        let base = self.vertices.len();
        if count > u32::MAX as usize - base {
            return Err(TessellationFailure::TooManyVertices);
        }
        let mut i: usize = 0;
        while i < count
            invariant
                i <= count == shape.positions@.len(),
                self.color == before.color,
                self.indices@ == before.indices,
                self.vertices@ == before.vertices + shaded(shape.positions@, before.color).take(
                    i as int,
                ),
            decreases count - i,
        {
            self.vertices.push(Vertex::new(shape.positions[i], Vec2::zero(), self.color));
            i = i + 1;
            assert(self.vertices@ =~= before.vertices + shaded(shape.positions@, before.color).take(
                i as int,
            ));
        }
        assert(shaded(shape.positions@, before.color).take(count as int) =~= shaded(
            shape.positions@,
            before.color,
        ));
        let mut j: usize = 0;
        while j < shape.indices.len()
            invariant
                j <= shape.indices.len(),
                base == before.vertices.len(),
                base + count <= u32::MAX,
                count == shape.positions@.len(),
                indices_below(shape.indices@, count as nat),
                self.color == before.color,
                self.vertices@ == before.vertices + shaded(shape.positions@, before.color),
                self.indices@ == before.indices + shifted(shape.indices@, base as nat).take(
                    j as int,
                ),
            decreases shape.indices.len() - j,
        {
            self.indices.push(shape.indices[j] + base as u32);
            j = j + 1;
            assert(self.indices@ =~= before.indices + shifted(shape.indices@, base as nat).take(
                j as int,
            ));
        }
        assert(shifted(shape.indices@, base as nat).take(shape.indices@.len() as int) =~= shifted(
            shape.indices@,
            base as nat,
        ));
        Ok(())
    }

    /// Adds what a tessellator came back with for a shape.
    fn finish(&mut self, outcome: Result<Tessellation, lyon_tessellation::TessellationError>) -> (r:
        Result<(), TetraError>)
        requires
            old(self)@.wf(),
        ensures
            final(self)@.wf(),
            r is Err ==> final(self)@ == old(self)@,
            old(self)@.adds(
                None,
                tessellated(outcome),
                match r {
                    Ok(_) => Ok(final(self)@),
                    Err(e) => Err(e),
                },
            ),
    {
        match outcome {
            Ok(shape) => match self.add(&shape) {
                Ok(_) => Ok(()),
                Err(failure) => Err(TetraError::TessellationError(failure)),
            },
            Err(error) => Err(TetraError::TessellationError(failure_kind(&error))),
        }
    }

    /// Adds what the caller's sweep made of a shape that is to be filled.
    fn finish_swept(&mut self, swept: Result<Tessellation, TessellationFailure>) -> (r: Result<
        (),
        TetraError,
    >)
        requires
            old(self)@.wf(),
        ensures
            final(self)@.wf(),
            r is Err ==> final(self)@ == old(self)@,
            old(self)@.adds_outcome(
                None,
                swept_outcome(swept),
                match r {
                    Ok(_) => Ok(final(self)@),
                    Err(e) => Err(e),
                },
            ),
    {
        match swept {
            Ok(shape) => match self.add(&shape) {
                Ok(_) => Ok(()),
                Err(failure) => Err(TetraError::TessellationError(failure)),
            },
            Err(failure) => Err(TetraError::TessellationError(failure)),
        }
    }

    /// Adds a rectangle.
    ///
    /// Fails with a tessellation error, and leaves the builder as it was,
    /// when a number of the rectangle is not finite, the stroke width is not
    /// above zero, or the shape could not be turned into vertex data. A
    /// rectangle that is filled is its four corners and two triangles.
    pub fn rectangle(&mut self, style: ShapeStyle, rectangle: Rectangle) -> (r: Result<
        &mut GeometryBuilder,
        TetraError,
    >)
        requires
            old(self)@.wf(),
        ensures
            match r {
                Ok(builder) => builder@.wf() && *final(self) == *final(builder) && old(
                    self,
                )@.adds_a_rectangle(style, rectangle, Ok(builder@)),
                Err(e) => final(self)@ == old(self)@ && old(self)@.adds_a_rectangle(
                    style,
                    rectangle,
                    Err(e),
                ),
            },
    {
        if let Some(fault) = find_rectangle_fault(style, &rectangle) {
            assert(old(self)@.adds(Some(fault), None, Err(TetraError::TessellationError(fault))));
            return Err(TetraError::TessellationError(fault));
        }
        let outcome = match style {
            ShapeStyle::Fill => fill_rectangle(&rectangle),
            ShapeStyle::Stroke(width) => stroke_rectangle(&rectangle, width),
        };
        let ghost computed = tessellated(outcome);
        match self.finish(outcome) {
            Ok(_) => {
                assert(old(self)@.adds(None, computed, Ok(self@)));
                Ok(self)
            },
            Err(e) => {
                assert(old(self)@.adds(None, computed, Err(e)));
                Err(e)
            },
        }
    }

    /// Adds a rounded rectangle. How radii that do not fit the rectangle are
    /// cut down is left to the tessellator.
    ///
    /// A rounded rectangle is stroked here. To fill one, a sweep over its
    /// outline is needed, which is the caller's to run: `swept` is what the
    /// sweep made of the shape, and it is looked at only where the style is
    /// [`ShapeStyle::Fill`] and [`find_rounded_rectangle_fault`] finds no
    /// fault.
    ///
    /// Fails with a tessellation error, and leaves the builder as it was,
    /// when a number is not finite or, for a stroke, above 2 to the power of
    /// 56, when the stroke width is not above zero, or when the shape could
    /// not be turned into vertex data.
    pub fn rounded_rectangle(
        &mut self,
        style: ShapeStyle,
        rectangle: Rectangle,
        radii: BorderRadii,
        swept: Result<Tessellation, TessellationFailure>,
    ) -> (r: Result<&mut GeometryBuilder, TetraError>)
        requires
            old(self)@.wf(),
        ensures
            match r {
                Ok(builder) => builder@.wf() && *final(self) == *final(builder) && old(
                    self,
                )@.adds_swept_or_stroked(rounded_rectangle_fault(style, rectangle, radii), style, swept, Ok(builder@)),
                Err(e) => final(self)@ == old(self)@ && old(self)@.adds_swept_or_stroked(
                    rounded_rectangle_fault(style, rectangle, radii),
                    style,
                    swept,
                    Err(e),
                ),
            },
    {
        if let Some(fault) = find_rounded_rectangle_fault(style, &rectangle, &radii) {
            assert(old(self)@.adds(Some(fault), None, Err(TetraError::TessellationError(fault))));
            return Err(TetraError::TessellationError(fault));
        }
        match style {
            ShapeStyle::Fill => match self.finish_swept(swept) {
                Ok(_) => Ok(self),
                Err(e) => Err(e),
            },
            ShapeStyle::Stroke(width) => {
                let outcome = stroke_rounded_rectangle(&rectangle, &radii, width);
                let ghost computed = tessellated(outcome);
                match self.finish(outcome) {
                    Ok(_) => {
                        assert(old(self)@.adds(None, computed, Ok(self@)));
                        Ok(self)
                    },
                    Err(e) => {
                        assert(old(self)@.adds(None, computed, Err(e)));
                        Err(e)
                    },
                }
            },
        }
    }

    /// Adds a circle.
    ///
    /// Fails with a tessellation error, and leaves the builder as it was,
    /// when the center is not finite, when the radius of a circle to fill
    /// is not zero and below 2 to the power of -74, or above 2 to the power
    /// of 56, when a number of a circle to stroke is above 2 to the power of
    /// 56, when the stroke width is not above zero, or when the shape could
    /// not be turned into vertex data.
    pub fn circle(&mut self, style: ShapeStyle, center: Vec2, radius: Float) -> (r: Result<
        &mut GeometryBuilder,
        TetraError,
    >)
        requires
            old(self)@.wf(),
        ensures
            match r {
                Ok(builder) => builder@.wf() && *final(self) == *final(builder) && old(
                    self,
                )@.adds_a_shape(circle_fault(style, center, radius), Ok(builder@)),
                Err(e) => final(self)@ == old(self)@ && old(self)@.adds_a_shape(
                    circle_fault(style, center, radius),
                    Err(e),
                ),
            },
    {
        if let Some(fault) = find_circle_fault(style, center, radius) {
            assert(old(self)@.adds(Some(fault), None, Err(TetraError::TessellationError(fault))));
            return Err(TetraError::TessellationError(fault));
        }
        let outcome = match style {
            ShapeStyle::Fill => fill_circle(center, radius),
            ShapeStyle::Stroke(width) => stroke_circle(center, radius, width),
        };
        let ghost computed = tessellated(outcome);
        match self.finish(outcome) {
            Ok(_) => {
                assert(old(self)@.adds(None, computed, Ok(self@)));
                Ok(self)
            },
            Err(e) => {
                assert(old(self)@.adds(None, computed, Err(e)));
                Err(e)
            },
        }
    }

    /// Adds an ellipse.
    ///
    /// An ellipse is stroked here. To fill one, a sweep over its outline is
    /// needed, which is the caller's to run: `swept` is what the sweep made
    /// of the shape, and it is looked at only where the style is
    /// [`ShapeStyle::Fill`] and [`find_ellipse_fault`] finds no fault.
    ///
    /// Fails with a tessellation error, and leaves the builder as it was,
    /// when a number is not finite or, for a stroke, above 2 to the power of
    /// 56, when the stroke width is not above zero, or when the shape could
    /// not be turned into vertex data.
    pub fn ellipse(
        &mut self,
        style: ShapeStyle,
        center: Vec2,
        radii: Vec2,
        swept: Result<Tessellation, TessellationFailure>,
    ) -> (r: Result<&mut GeometryBuilder, TetraError>)
        requires
            old(self)@.wf(),
        ensures
            match r {
                Ok(builder) => builder@.wf() && *final(self) == *final(builder) && old(
                    self,
                )@.adds_swept_or_stroked(ellipse_fault(style, center, radii), style, swept, Ok(builder@)),
                Err(e) => final(self)@ == old(self)@ && old(self)@.adds_swept_or_stroked(
                    ellipse_fault(style, center, radii),
                    style,
                    swept,
                    Err(e),
                ),
            },
    {
        if let Some(fault) = find_ellipse_fault(style, center, radii) {
            assert(old(self)@.adds(Some(fault), None, Err(TetraError::TessellationError(fault))));
            return Err(TetraError::TessellationError(fault));
        }
        match style {
            ShapeStyle::Fill => match self.finish_swept(swept) {
                Ok(_) => Ok(self),
                Err(e) => Err(e),
            },
            ShapeStyle::Stroke(width) => {
                let outcome = stroke_ellipse(center, radii, width);
                let ghost computed = tessellated(outcome);
                match self.finish(outcome) {
                    Ok(_) => {
                        assert(old(self)@.adds(None, computed, Ok(self@)));
                        Ok(self)
                    },
                    Err(e) => {
                        assert(old(self)@.adds(None, computed, Err(e)));
                        Err(e)
                    },
                }
            },
        }
    }

    /// Adds a polygon. The last point is joined to the first.
    ///
    /// A polygon is stroked here. To fill one, a sweep over its outline is
    /// needed, which is the caller's to run: `swept` is what the sweep made
    /// of the shape, and it is looked at only where the style is
    /// [`ShapeStyle::Fill`] and [`find_polygon_fault`] finds no fault.
    ///
    /// Fails with a tessellation error, and leaves the builder as it was,
    /// when there are fewer than three points, a point is not finite, the
    /// stroke width is not above zero, or the shape could not be turned into
    /// vertex data.
    pub fn polygon(
        &mut self,
        style: ShapeStyle,
        points: &[Vec2],
        swept: Result<Tessellation, TessellationFailure>,
    ) -> (r: Result<&mut GeometryBuilder, TetraError>)
        requires
            old(self)@.wf(),
        ensures
            match r {
                Ok(builder) => builder@.wf() && *final(self) == *final(builder) && old(
                    self,
                )@.adds_swept_or_stroked(polygon_fault(style, points@), style, swept, Ok(builder@)),
                Err(e) => final(self)@ == old(self)@ && old(self)@.adds_swept_or_stroked(
                    polygon_fault(style, points@),
                    style,
                    swept,
                    Err(e),
                ),
            },
    {
        if let Some(fault) = find_polygon_fault(style, points) {
            assert(old(self)@.adds(Some(fault), None, Err(TetraError::TessellationError(fault))));
            return Err(TetraError::TessellationError(fault));
        }
        match style {
            ShapeStyle::Fill => match self.finish_swept(swept) {
                Ok(_) => Ok(self),
                Err(e) => Err(e),
            },
            ShapeStyle::Stroke(width) => {
                let outcome = stroke_polygon(points, true, width);
                let ghost computed = tessellated(outcome);
                match self.finish(outcome) {
                    Ok(_) => {
                        assert(old(self)@.adds(None, computed, Ok(self@)));
                        Ok(self)
                    },
                    Err(e) => {
                        assert(old(self)@.adds(None, computed, Err(e)));
                        Err(e)
                    },
                }
            },
        }
    }

    /// Adds a polyline: a stroke through the points, from the first to the
    /// last, that is not closed.
    ///
    /// Fails with a tessellation error, and leaves the builder as it was,
    /// when a point is not finite, the stroke width is not above zero, or
    /// the shape could not be turned into vertex data.
    pub fn polyline(&mut self, stroke_width: Float, points: &[Vec2]) -> (r: Result<
        &mut GeometryBuilder,
        TetraError,
    >)
        requires
            old(self)@.wf(),
        ensures
            match r {
                Ok(builder) => builder@.wf() && *final(self) == *final(builder) && old(
                    self,
                )@.adds_a_shape(polyline_fault(stroke_width, points@), Ok(builder@)),
                Err(e) => final(self)@ == old(self)@ && old(self)@.adds_a_shape(
                    polyline_fault(stroke_width, points@),
                    Err(e),
                ),
            },
    {
        if let Some(fault) = find_polyline_fault(stroke_width, points) {
            assert(old(self)@.adds(Some(fault), None, Err(TetraError::TessellationError(fault))));
            return Err(TetraError::TessellationError(fault));
        }
        let outcome = stroke_polygon(points, false, stroke_width);
        let ghost computed = tessellated(outcome);
        match self.finish(outcome) {
            Ok(_) => {
                assert(old(self)@.adds(None, computed, Ok(self@)));
                Ok(self)
            },
            Err(e) => {
                assert(old(self)@.adds(None, computed, Err(e)));
                Err(e)
            },
        }
    }

    /// Sets the color that will be used for subsequent shapes. The vertices
    /// that are there keep their color.
    pub fn set_color(&mut self, color: Color) -> (r: &mut GeometryBuilder)
        ensures
            r@ == (GeometryState { color, ..old(self)@ }),
            *final(self) == *final(r),
    {
        self.color = color;
        self
    }

    /// Clears the geometry builder's data. The color stays.
    pub fn clear(&mut self) -> (r: &mut GeometryBuilder)
        ensures
            r@ == (GeometryState {
                vertices: Seq::empty(),
                indices: Seq::empty(),
                color: old(self)@.color,
            }),
            r@.wf(),
            *final(self) == *final(r),
    {
        self.vertices.clear();
        self.indices.clear();
        self
    }

    /// Returns a view of the generated vertex data.
    pub fn vertices(&self) -> (vertices: &[Vertex])
        ensures
            vertices@ == self@.vertices,
    {
        self.vertices.as_slice()
    }

    /// Returns a view of the generated index data.
    pub fn indices(&self) -> (indices: &[u32])
        ensures
            indices@ == self@.indices,
    {
        self.indices.as_slice()
    }

    /// Consumes the builder, returning the generated geometry.
    pub fn into_data(self) -> (data: (Vec<Vertex>, Vec<u32>))
        ensures
            data.0@ == self@.vertices,
            data.1@ == self@.indices,
    {
        (self.vertices, self.indices)
    }

    /// What building buffers does to the context, and what it returns.
    ///
    /// With fewer than two buffers left on the device, or with vertex data
    /// that does not fit the machine, nothing is asked of the device.
    pub open spec fn builds(
        state: GeometryState,
        before: Context,
        r: Result<(VertexBuffer, IndexBuffer), TetraError>,
        after: Context,
    ) -> bool {
        &&& after.device.wf()
        &&& after.graphics == before.graphics
        &&& if before.device@.free_buffers() < 2 {
            &&& r is Err
            &&& r->Err_0 == TetraError::PlatformError(PlatformFailure::OutOfBuffers)
            &&& after.device@ == before.device@
        } else if state.vertices.len() * VERTEX_STRIDE > usize::MAX {
            &&& r is Err
            &&& r->Err_0 == TetraError::PlatformError(PlatformFailure::BufferTooLarge)
            &&& after.device@ == before.device@
        } else {
            &&& r is Ok
            &&& r->Ok_0.0.wf()
            &&& r->Ok_0.0@ == (RawVertexBuffer {
                id: before.device@.buffers as u32,
                count: state.vertices.len() as usize,
                stride: VERTEX_STRIDE,
            })
            &&& r->Ok_0.1@ == (RawIndexBuffer {
                id: (before.device@.buffers + 1) as u32,
                count: state.indices.len() as usize,
            })
            &&& after.device@ == before.device@.with_buffer().with_buffer().with_commands(
                state.build_commands(before.device@.buffers),
            )
        }
    }

    /// Builds a vertex and index buffer from the generated geometry. The
    /// indices in the index buffer come in threes, and every one of them
    /// names a vertex of the vertex buffer.
    ///
    /// Fails with a platform error, asking nothing of the device, when the
    /// device cannot allocate the two buffers.
    pub fn build_buffers(&self, ctx: &mut Context) -> (r: Result<
        (VertexBuffer, IndexBuffer),
        TetraError,
    >)
        requires
            self@.wf(),
            old(ctx).device.wf(),
        ensures
            Self::builds(self@, *old(ctx), r, *final(ctx)),
            r is Ok ==> indices_below(self@.indices, r->Ok_0.0@.count as nat) && r->Ok_0.1@.count % 3
                == 0,
    {
        if ctx.device.free_buffers() < 2 {
            return Err(TetraError::PlatformError(PlatformFailure::OutOfBuffers));
        }
        let vertex_buffer = match VertexBuffer::new(ctx, self.vertices.as_slice()) {
            Ok(buffer) => buffer,
            Err(e) => {
                return Err(e);
            },
        };
        let index_buffer = match IndexBuffer::new(ctx, self.indices.as_slice()) {
            Ok(buffer) => buffer,
            Err(e) => {
                return Err(e);
            },
        };
        proof {
            assert(ctx.device@.commands =~= old(ctx).device@.commands + self@.build_commands(
                old(ctx).device@.buffers,
            ));
            assert(self.indices.len() == self@.indices.len());
            assert(index_buffer@.count == self@.indices.len());
        }
        Ok((vertex_buffer, index_buffer))
    }

    /// Builds an indexed mesh from the generated geometry.
    ///
    /// Fails with a platform error, asking nothing of the device, when the
    /// device cannot allocate the two buffers.
    pub fn build_mesh(&self, ctx: &mut Context) -> (r: Result<Mesh, TetraError>)
        requires
            self@.wf(),
            old(ctx).device.wf(),
        ensures
            Self::builds_mesh(self@, *old(ctx), r, *final(ctx)),
    {
        match self.build_buffers(ctx) {
            Ok((vertex_buffer, index_buffer)) => Ok(Mesh::indexed(vertex_buffer, index_buffer)),
            Err(e) => Err(e),
        }
    }

    /// What building a mesh does to the context, and what it returns: the
    /// buffers are built, and the mesh on success is the indexed mesh of the
    /// two, with no texture and no draw range.
    pub open spec fn builds_mesh(
        state: GeometryState,
        before: Context,
        r: Result<Mesh, TetraError>,
        after: Context,
    ) -> bool {
        match r {
            Ok(mesh) => {
                &&& mesh@.index_buffer is Some
                &&& mesh@ == (MeshState {
                    index_buffer: mesh@.index_buffer,
                    ..MeshState::plain(mesh@.vertex_buffer)
                })
                &&& Self::builds(
                    state,
                    before,
                    Ok((mesh@.vertex_buffer, mesh@.index_buffer->0)),
                    after,
                )
            },
            Err(e) => Self::builds(state, before, Err(e), after),
        }
    }
}

impl Default for GeometryBuilder {
    fn default() -> (builder: GeometryBuilder)
        ensures
            builder@ == (GeometryState {
                vertices: Seq::empty(),
                indices: Seq::empty(),
                color: Color::spec_white(),
            }),
            builder@.wf(),
    {
        GeometryBuilder::new()
    }
}

} // verus!
