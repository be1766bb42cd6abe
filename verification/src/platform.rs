//! The graphics device as the renderer sees it.
//!
//! The renderer never talks to a graphics API. Every request it makes of the
//! device is recorded, in order, as a [`DeviceCommand`]; whoever owns the real
//! device takes the commands and carries them out. Buffers are named by
//! numbers that the device hands out, one after the other, up to the limit it
//! was created with; the name of a buffer that was released is not handed
//! out again.

use vstd::prelude::*;
use vstd::slice::slice_to_vec;
use crate::graphics::Color;
use crate::graphics::mesh::BufferUsage;
use crate::graphics::Transform;
use crate::math::Mat4;
use crate::PlatformFailure;
use crate::TetraError;

verus! {

/// A vertex buffer that lives on the device.
#[derive(Copy, Clone, Debug, PartialEq, Eq, Structural)]
pub struct RawVertexBuffer {
    /// The name of the buffer on the device.
    pub id: u32,
    /// How many vertices the buffer holds.
    pub count: usize,
    /// How many words one vertex takes.
    pub stride: usize,
}

impl RawVertexBuffer {
    /// How many words the buffer holds.
    pub open spec fn words(self) -> int {
        self.count * self.stride
    }

    /// Whether the size of the buffer in words fits the machine.
    pub open spec fn wf(self) -> bool {
        self.words() <= usize::MAX
    }

    /// How many vertices the buffer holds.
    pub fn count(&self) -> (n: usize)
        ensures
            n == self.count,
    {
        self.count
    }
}

/// An index buffer that lives on the device.
#[derive(Copy, Clone, Debug, PartialEq, Eq, Structural)]
pub struct RawIndexBuffer {
    /// The name of the buffer on the device.
    pub id: u32,
    /// How many indices the buffer holds.
    pub count: usize,
}

impl RawIndexBuffer {
    /// How many indices the buffer holds.
    pub fn count(&self) -> (n: usize)
        ensures
            n == self.count,
    {
        self.count
    }
}

/// One request to the graphics device.
#[derive(Debug, PartialEq, Eq)]
pub enum DeviceCommand {
    /// Fill the whole target with one color.
    Clear { color: Color },
    /// Allocate a vertex buffer of `count` vertices of `stride` words each.
    NewVertexBuffer { id: u32, count: usize, stride: usize, usage: BufferUsage },
    /// Allocate an index buffer of `count` indices.
    NewIndexBuffer { id: u32, count: usize, usage: BufferUsage },
    /// Write words into a vertex buffer, starting `offset` words in.
    SetVertexBufferData { id: u32, data: Vec<u32>, offset: usize },
    /// Write indices into an index buffer, starting `offset` indices in.
    SetIndexBufferData { id: u32, data: Vec<u32>, offset: usize },
    /// Give a program the projection and the view transform to draw batched
    /// quads with.
    SetProjection { program: u32, projection: Mat4, view: Mat4 },
    /// Give a program the matrices and the tint to draw a mesh with. The
    /// matrix the program gets is `projection * view * model`; a program
    /// that has no such inputs is left as it is.
    SetDefaultUniforms { program: u32, projection: Mat4, view: Mat4, model: Transform, color: Color },
    /// Draw `count` indices of an index buffer, starting at index `start`.
    DrawElements {
        vertex_buffer: u32,
        index_buffer: u32,
        texture: u32,
        program: u32,
        start: usize,
        count: usize,
    },
    /// Draw `count` vertices of a vertex buffer, starting at vertex `start`.
    DrawArrays { vertex_buffer: u32, texture: u32, program: u32, start: usize, count: usize },
    /// Release a buffer. Its name is not given out again.
    DeleteBuffer { id: u32 },
}

/// What a [`DeviceCommand`] asks for, with the data it carries as a sequence.
pub enum Command {
    Clear { color: Color },
    NewVertexBuffer { id: u32, count: usize, stride: usize, usage: BufferUsage },
    NewIndexBuffer { id: u32, count: usize, usage: BufferUsage },
    SetVertexBufferData { id: u32, data: Seq<u32>, offset: usize },
    SetIndexBufferData { id: u32, data: Seq<u32>, offset: usize },
    SetProjection { program: u32, projection: Mat4, view: Mat4 },
    SetDefaultUniforms { program: u32, projection: Mat4, view: Mat4, model: Transform, color: Color },
    DrawElements {
        vertex_buffer: u32,
        index_buffer: u32,
        texture: u32,
        program: u32,
        start: usize,
        count: usize,
    },
    DrawArrays { vertex_buffer: u32, texture: u32, program: u32, start: usize, count: usize },
    DeleteBuffer { id: u32 },
}

impl Command {
    /// Whether the command is a draw call.
    pub open spec fn is_draw(self) -> bool {
        self is DrawElements || self is DrawArrays
    }

    /// What the buffers on the device hold once the command is carried out,
    /// given what they held before. A new buffer holds zeros; a write that
    /// fits its buffer replaces the words it covers; a released buffer is
    /// gone; no other command touches a buffer.
    pub open spec fn applied(self, memory: Map<u32, Seq<u32>>) -> Map<u32, Seq<u32>> {
        match self {
            Command::NewVertexBuffer { id, count, stride, .. } => memory.insert(
                id,
                Seq::new((count * stride) as nat, |i: int| 0u32),
            ),
            Command::NewIndexBuffer { id, count, .. } => memory.insert(
                id,
                Seq::new(count as nat, |i: int| 0u32),
            ),
            Command::SetVertexBufferData { id, data, offset } => written(
                memory,
                id,
                data,
                offset as int,
            ),
            Command::SetIndexBufferData { id, data, offset } => written(
                memory,
                id,
                data,
                offset as int,
            ),
            Command::DeleteBuffer { id } => memory.remove(id),
            _ => memory,
        }
    }
}

/// The words of a buffer after `data` was written over them from word
/// `offset` on.
pub open spec fn overwritten(words: Seq<u32>, data: Seq<u32>, offset: int) -> Seq<u32> {
    words.subrange(0, offset) + data + words.subrange(offset + data.len(), words.len() as int)
}

/// What the buffers hold after `data` was written to the buffer `id` from
/// word `offset` on. A write to a buffer that is not there, or past its end,
/// changes nothing.
pub open spec fn written(memory: Map<u32, Seq<u32>>, id: u32, data: Seq<u32>, offset: int) -> Map<
    u32,
    Seq<u32>,
> {
    if memory.dom().contains(id) && 0 <= offset && offset + data.len() <= memory[id].len() {
        memory.insert(id, overwritten(memory[id], data, offset))
    } else {
        memory
    }
}

/// What the buffers hold once the commands are carried out, first to last.
pub open spec fn replayed(commands: Seq<Command>, memory: Map<u32, Seq<u32>>) -> Map<u32, Seq<u32>>
    decreases commands.len(),
{
    if commands.len() == 0 {
        memory
    } else {
        commands.last().applied(replayed(commands.drop_last(), memory))
    }
}

/// A write that fits keeps the size of the buffer, puts the data where it
/// was told to, and leaves the other words and the other buffers alone.
pub proof fn lemma_written(memory: Map<u32, Seq<u32>>, id: u32, data: Seq<u32>, offset: int)
    requires
        memory.dom().contains(id),
        0 <= offset,
        offset + data.len() <= memory[id].len(),
    ensures
        written(memory, id, data, offset).dom() == memory.dom(),
        written(memory, id, data, offset)[id].len() == memory[id].len(),
        written(memory, id, data, offset)[id].subrange(offset, offset + data.len()) == data,
        forall|i: int|
            0 <= i < memory[id].len() && !(offset <= i < offset + data.len()) ==> written(
                memory,
                id,
                data,
                offset,
            )[id][i] == memory[id][i],
        forall|other: u32|
            other != id && memory.dom().contains(other) ==> written(memory, id, data, offset)[other]
                == memory[other],
{
    let after = written(memory, id, data, offset);
    assert(after.dom() =~= memory.dom());
    assert(after[id].subrange(offset, offset + data.len()) =~= data);
}

impl View for DeviceCommand {
    type V = Command;

    open spec fn view(&self) -> Command {
        match *self {
            DeviceCommand::Clear { color } => Command::Clear { color },
            DeviceCommand::NewVertexBuffer { id, count, stride, usage } => Command::NewVertexBuffer {
                id,
                count,
                stride,
                usage,
            },
            DeviceCommand::NewIndexBuffer { id, count, usage } => Command::NewIndexBuffer {
                id,
                count,
                usage,
            },
            DeviceCommand::SetVertexBufferData { id, data, offset } => Command::SetVertexBufferData {
                id,
                data: data@,
                offset,
            },
            DeviceCommand::SetIndexBufferData { id, data, offset } => Command::SetIndexBufferData {
                id,
                data: data@,
                offset,
            },
            DeviceCommand::SetProjection { program, projection, view } => Command::SetProjection {
                program,
                projection,
                view,
            },
            DeviceCommand::SetDefaultUniforms {
                program,
                projection,
                view,
                model,
                color,
            } => Command::SetDefaultUniforms { program, projection, view, model, color },
            DeviceCommand::DrawElements {
                vertex_buffer,
                index_buffer,
                texture,
                program,
                start,
                count,
            } => Command::DrawElements { vertex_buffer, index_buffer, texture, program, start, count },
            DeviceCommand::DrawArrays {
                vertex_buffer,
                texture,
                program,
                start,
                count,
            } => Command::DrawArrays { vertex_buffer, texture, program, start, count },
            DeviceCommand::DeleteBuffer { id } => Command::DeleteBuffer { id },
        }
    }
}

/// The commands of a list, each by its view.
pub open spec fn command_views(commands: Seq<DeviceCommand>) -> Seq<Command> {
    commands.map_values(|c: DeviceCommand| c@)
}

/// What is known of the device: what it was asked and has not handed over
/// yet, how many buffers it has given out, and how many it can give out.
pub struct DeviceState {
    pub commands: Seq<Command>,
    pub buffers: nat,
    pub max_buffers: nat,
}

impl DeviceState {
    /// The state after one more command was recorded.
    pub open spec fn with_command(self, command: Command) -> DeviceState {
        DeviceState { commands: self.commands.push(command), ..self }
    }

    /// The state after more commands were recorded.
    pub open spec fn with_commands(self, commands: Seq<Command>) -> DeviceState {
        DeviceState { commands: self.commands + commands, ..self }
    }

    /// The state after one more buffer was given out.
    pub open spec fn with_buffer(self) -> DeviceState {
        DeviceState { buffers: self.buffers + 1, ..self }
    }

    /// How many more buffers the device can give out.
    pub open spec fn free_buffers(self) -> int {
        self.max_buffers - self.buffers
    }

    /// The state after a handle of the buffer `id` was given up: the buffer
    /// is released if the handle was the last one, and nothing is asked of
    /// the device if it was not.
    pub open spec fn with_handle_given_up(self, id: u32, last: bool) -> DeviceState {
        if last {
            self.with_command(Command::DeleteBuffer { id })
        } else {
            self
        }
    }
}

/// The graphics device: a recorder of commands and a source of buffer names.
pub struct GraphicsDevice {
    commands: Vec<DeviceCommand>,
    buffers: u32,
    max_buffers: u32,
}

impl View for GraphicsDevice {
    type V = DeviceState;

    closed spec fn view(&self) -> DeviceState {
        DeviceState {
            commands: command_views(self.commands@),
            buffers: self.buffers as nat,
            max_buffers: self.max_buffers as nat,
        }
    }
}

impl GraphicsDevice {
    /// Whether the device has given out no more buffers than it can hold.
    pub open spec fn wf(&self) -> bool {
        self@.buffers <= self@.max_buffers <= u32::MAX
    }

    proof fn lemma_push(commands: Seq<DeviceCommand>, command: DeviceCommand)
        ensures
            command_views(commands.push(command)) == command_views(commands).push(command@),
    {
        assert(command_views(commands.push(command)) =~= command_views(commands).push(command@));
    }

    /// Creates a device that can hold up to `max_buffers` buffers.
    pub fn new(max_buffers: u32) -> (device: GraphicsDevice)
        ensures
            device.wf(),
            device@ == (DeviceState {
                commands: Seq::empty(),
                buffers: 0,
                max_buffers: max_buffers as nat,
            }),
    {
        let device = GraphicsDevice { commands: Vec::new(), buffers: 0, max_buffers };
        proof {
            assert(command_views(device.commands@) =~= Seq::empty());
        }
        device
    }

    fn record(&mut self, command: DeviceCommand)
        ensures
            final(self)@ == old(self)@.with_command(command@),
    {
        proof {
            Self::lemma_push(self.commands@, command);
        }
        self.commands.push(command);
    }

    /// How many more buffers the device can give out.
    pub fn free_buffers(&self) -> (n: u32)
        requires
            self.wf(),
        ensures
            n == self@.free_buffers(),
    {
        self.max_buffers - self.buffers
    }

    /// Allocates a vertex buffer of `count` vertices of `stride` words each.
    ///
    /// Fails, and leaves the device as it was, when the device has no buffer
    /// left to give or the buffer's size in words does not fit the machine.
    pub fn new_vertex_buffer(&mut self, count: usize, stride: usize, usage: BufferUsage) -> (r:
        Result<RawVertexBuffer, TetraError>)
        requires
            old(self).wf(),
        ensures
            final(self).wf(),
            old(self)@.free_buffers() == 0 ==> r == Err::<RawVertexBuffer, TetraError>(
                TetraError::PlatformError(PlatformFailure::OutOfBuffers),
            ),
            old(self)@.free_buffers() > 0 && count * stride > usize::MAX ==> r == Err::<
                RawVertexBuffer,
                TetraError,
            >(TetraError::PlatformError(PlatformFailure::BufferTooLarge)),
            r is Err ==> final(self)@ == old(self)@,
            old(self)@.free_buffers() > 0 && count * stride <= usize::MAX ==> r == Ok::<
                RawVertexBuffer,
                TetraError,
            >(RawVertexBuffer { id: old(self)@.buffers as u32, count, stride }) && final(self)@
                == old(self)@.with_buffer().with_command(
                Command::NewVertexBuffer { id: old(self)@.buffers as u32, count, stride, usage },
            ),
    {
        if self.buffers >= self.max_buffers {
            return Err(TetraError::PlatformError(PlatformFailure::OutOfBuffers));
        }
        if count.checked_mul(stride).is_none() {
            return Err(TetraError::PlatformError(PlatformFailure::BufferTooLarge));
        }
        let id = self.buffers;
        self.buffers = self.buffers + 1;
        self.record(DeviceCommand::NewVertexBuffer { id, count, stride, usage });
        Ok(RawVertexBuffer { id, count, stride })
    }

    /// Allocates an index buffer of `count` indices.
    ///
    /// Fails, and leaves the device as it was, when the device has no buffer
    /// left to give.
    pub fn new_index_buffer(&mut self, count: usize, usage: BufferUsage) -> (r: Result<
        RawIndexBuffer,
        TetraError,
    >)
        requires
            old(self).wf(),
        ensures
            final(self).wf(),
            old(self)@.free_buffers() == 0 ==> r == Err::<RawIndexBuffer, TetraError>(
                TetraError::PlatformError(PlatformFailure::OutOfBuffers),
            ) && final(self)@ == old(self)@,
            old(self)@.free_buffers() > 0 ==> r == Ok::<RawIndexBuffer, TetraError>(
                RawIndexBuffer { id: old(self)@.buffers as u32, count },
            ) && final(self)@ == old(self)@.with_buffer().with_command(
                Command::NewIndexBuffer { id: old(self)@.buffers as u32, count, usage },
            ),
    {
        if self.buffers >= self.max_buffers {
            return Err(TetraError::PlatformError(PlatformFailure::OutOfBuffers));
        }
        let id = self.buffers;
        self.buffers = self.buffers + 1;
        self.record(DeviceCommand::NewIndexBuffer { id, count, usage });
        Ok(RawIndexBuffer { id, count })
    }

    /// Writes `data` into a vertex buffer, starting `offset` words in.
    pub fn set_vertex_buffer_data(&mut self, buffer: &RawVertexBuffer, data: Vec<u32>, offset: usize)
        requires
            offset + data@.len() <= buffer.words(),
        ensures
            final(self)@ == old(self)@.with_command(
                Command::SetVertexBufferData { id: buffer.id, data: data@, offset },
            ),
    {
        self.record(DeviceCommand::SetVertexBufferData { id: buffer.id, data, offset });
    }

    /// Writes `data` into an index buffer, starting `offset` indices in.
    pub fn set_index_buffer_data(&mut self, buffer: &RawIndexBuffer, data: &[u32], offset: usize)
        requires
            offset + data@.len() <= buffer.count,
        ensures
            final(self)@ == old(self)@.with_command(
                Command::SetIndexBufferData { id: buffer.id, data: data@, offset },
            ),
    {
        let data = slice_to_vec(data);
        self.record(DeviceCommand::SetIndexBufferData { id: buffer.id, data, offset });
    }

    /// Fills the whole target with one color.
    pub fn clear(&mut self, color: Color)
        ensures
            final(self)@ == old(self)@.with_command(Command::Clear { color }),
    {
        self.record(DeviceCommand::Clear { color });
    }

    /// Gives a program the projection and the view transform to draw batched
    /// quads with.
    pub fn set_projection(&mut self, program: u32, projection: Mat4, view: Mat4)
        ensures
            final(self)@ == old(self)@.with_command(
                Command::SetProjection { program, projection, view },
            ),
    {
        self.record(DeviceCommand::SetProjection { program, projection, view });
    }

    /// Gives a program the matrices and the tint to draw a mesh with.
    pub fn set_default_uniforms(
        &mut self,
        program: u32,
        projection: Mat4,
        view: Mat4,
        model: Transform,
        color: Color,
    )
        ensures
            final(self)@ == old(self)@.with_command(
                Command::SetDefaultUniforms { program, projection, view, model, color },
            ),
    {
        self.record(DeviceCommand::SetDefaultUniforms { program, projection, view, model, color });
    }

    /// Draws `count` indices of `index_buffer`, starting at index `start`.
    pub fn draw_elements(
        &mut self,
        vertex_buffer: &RawVertexBuffer,
        index_buffer: &RawIndexBuffer,
        texture: u32,
        program: u32,
        start: usize,
        count: usize,
    )
        ensures
            final(self)@ == old(self)@.with_command(
                Command::DrawElements {
                    vertex_buffer: vertex_buffer.id,
                    index_buffer: index_buffer.id,
                    texture,
                    program,
                    start,
                    count,
                },
            ),
    {
        self.record(
            DeviceCommand::DrawElements {
                vertex_buffer: vertex_buffer.id,
                index_buffer: index_buffer.id,
                texture,
                program,
                start,
                count,
            },
        );
    }

    /// Draws `count` vertices of `vertex_buffer`, starting at vertex `start`.
    pub fn draw_arrays(
        &mut self,
        vertex_buffer: &RawVertexBuffer,
        texture: u32,
        program: u32,
        start: usize,
        count: usize,
    )
        ensures
            final(self)@ == old(self)@.with_command(
                Command::DrawArrays { vertex_buffer: vertex_buffer.id, texture, program, start, count },
            ),
    {
        self.record(
            DeviceCommand::DrawArrays { vertex_buffer: vertex_buffer.id, texture, program, start, count },
        );
    }

    /// Releases the buffer of the given name.
    pub fn delete_buffer(&mut self, id: u32)
        ensures
            final(self)@ == old(self)@.with_command(Command::DeleteBuffer { id }),
    {
        self.record(DeviceCommand::DeleteBuffer { id });
    }

    /// The commands recorded since they were last taken, oldest first.
    pub fn commands(&self) -> (commands: &Vec<DeviceCommand>)
        ensures
            command_views(commands@) == self@.commands,
    {
        &self.commands
    }

    /// Hands over the recorded commands, oldest first, and starts a new list.
    pub fn take_commands(&mut self) -> (commands: Vec<DeviceCommand>)
        ensures
            command_views(commands@) == old(self)@.commands,
            final(self)@ == (DeviceState { commands: Seq::empty(), ..old(self)@ }),
    {
        let mut taken: Vec<DeviceCommand> = Vec::new();
        std::mem::swap(&mut self.commands, &mut taken);
        proof {
            assert(command_views(self.commands@) =~= Seq::empty());
        }
        taken
    }
}

} // verus!
