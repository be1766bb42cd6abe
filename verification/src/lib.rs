//! A 2D rendering core: a quad batcher, meshes over device buffers, and a
//! builder that turns shapes into triangles.
//!
//! The core decides what is drawn, in which order and from which buffers;
//! it does not draw. Everything it asks of the graphics device is recorded
//! as a list of commands in the [`Context`], for the owner of a real device
//! to carry out. Numbers are kept as the bit patterns of single-precision
//! values, so that what is recorded is exact.

pub mod graphics;
pub mod math;
pub mod platform;

use vstd::prelude::*;
use crate::graphics::GraphicsContext;
use crate::platform::GraphicsDevice;

verus! {

/// Everything a draw call needs: the device and the state of the renderer.
pub struct Context {
    pub device: GraphicsDevice,
    pub graphics: GraphicsContext,
}

impl Context {
    /// Whether the device and the batcher are in a state they can be in.
    pub open spec fn wf(&self) -> bool {
        self.device.wf() && self.graphics@.wf()
    }

    /// Puts a device and a batcher together.
    pub fn new(device: GraphicsDevice, graphics: GraphicsContext) -> (ctx: Context)
        ensures
            ctx.device == device,
            ctx.graphics == graphics,
    {
        Context { device, graphics }
    }
}

/// Why the device could not do what it was asked.
#[derive(Copy, Clone, Debug, PartialEq, Eq, Structural)]
pub enum PlatformFailure {
    /// The device has given out as many buffers as it can hold.
    OutOfBuffers,
    /// The size of the buffer does not fit the machine.
    BufferTooLarge,
}

/// Why a shape could not be turned into triangles.
#[derive(Copy, Clone, Debug, PartialEq, Eq, Structural)]
pub enum TessellationFailure {
    /// A number of the shape is not finite; or a number of a curve that is
    /// to be stroked, or the radius of a circle that is to be filled, has a
    /// magnitude above 2 to the power of 56; or the radius of a circle that
    /// is to be filled is not zero and has a magnitude below 2 to the power
    /// of -74.
    OutOfRange,
    /// The width of a stroke is not above zero, or it is not finite.
    StrokeWidth,
    /// A polygon has fewer than three points.
    TooFewPoints,
    /// The tessellator does not support a parameter it was given.
    UnsupportedParameter,
    /// The tessellator met a vertex it cannot place.
    InvalidVertex,
    /// There are more vertices than an index can name.
    TooManyVertices,
    /// The tessellator gave up on the shape.
    Internal,
    /// The tessellator named a vertex that it did not write.
    InvalidIndex,
    /// The tessellator wrote indices that do not come in threes.
    NotTriangles,
    /// A shape that is to be filled by a sweep came without the triangles
    /// of one.
    NotSwept,
}

impl TessellationFailure {
    /// Whether the failure is one that the tessellator reports.
    pub open spec fn is_tessellator(self) -> bool {
        self is UnsupportedParameter || self is InvalidVertex || self is TooManyVertices
            || self is Internal
    }
}

/// What can go wrong in the renderer.
#[derive(Copy, Clone, Debug, PartialEq, Eq, Structural)]
pub enum TetraError {
    /// The device failed to allocate a resource.
    PlatformError(PlatformFailure),
    /// A shape could not be turned into triangles.
    TessellationError(TessellationFailure),
}

} // verus!
