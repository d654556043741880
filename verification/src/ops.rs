//! The operations that drawing a frame asks of the graphics API.

use vstd::prelude::*;
use crate::clip::Region;
use crate::projection::Projection;
use crate::state::ColorBlendAttachment;

verus! {

/// The size in bytes of one vertex: two 32-bit floats of position, two of
/// texture coordinate, and four bytes of colour.
pub const VERTEX_STRIDE: u32 = 20;

/// How vertices are assembled into primitives.
#[derive(Clone, Copy, Debug, PartialEq, Eq)]
pub enum Primitive {
    Points,
    Lines,
    LineStrip,
    Triangles,
    TriangleStrip,
}

/// The width of one index.
#[derive(Clone, Copy, Debug, PartialEq, Eq)]
pub enum IndexType {
    U8,
    U16,
    U32,
}

/// One call into the graphics API. A draw list is named by its position in
/// the frame; its two transient buffers are named by the list.
#[derive(Clone, Copy, Debug, PartialEq, Eq)]
pub enum GpuOp {
    /// Copy the list's vertices into a fresh buffer. The call can fail.
    UploadVertices { list: usize },
    /// Copy the list's indices into a fresh buffer. The call can fail.
    UploadIndices { list: usize },
    BindPipeline { pipeline: u32 },
    BindVertexArray { vertex_array: u32 },
    /// Bind the list's index buffer to the vertex array.
    BindIndexBuffer { vertex_array: u32, list: usize },
    /// Bind the list's vertex buffer to a binding of the vertex array.
    BindVertexBuffer { vertex_array: u32, binding: u32, list: usize, offset: u64, stride: u32 },
    BindColorBlend { blend: ColorBlendAttachment },
    /// Set the pipeline's transform, the uniform at `location`.
    BindProjection { pipeline: u32, location: u32, projection: Projection },
    /// Set viewport `index` to the rectangle at the origin with the given
    /// size, in pixel steps.
    SetViewport { index: u32, width: i128, height: i128 },
    /// Bind an image view to a texture unit.
    BindImageView { unit: u32, view: u32 },
    /// Bind a sampler to a texture unit.
    BindSampler { unit: u32, sampler: u32 },
    /// Set the scissor region of viewport `index`.
    SetScissor { index: u32, region: Region },
    /// Draw the indices from `start` up to `end`, one instance, with the
    /// vertices counted from `base_vertex`.
    DrawIndexed {
        primitive: Primitive,
        index_type: IndexType,
        start: u32,
        end: u32,
        instances: u32,
        base_vertex: i32,
    },
    /// Delete the list's vertex buffer.
    ReleaseVertices { list: usize },
    /// Delete the list's index buffer.
    ReleaseIndices { list: usize },
}

} // verus!
