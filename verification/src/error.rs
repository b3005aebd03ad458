//! The adapter's error taxonomy.
//!
//! Usage errors (an unbound buffer configured, a draw without an index
//! buffer, a buffer read before allocation) and unsupported-combination
//! errors carry the rejected request for diagnostics.  Capabilities the
//! adapter does not provide fail with a distinct `Unimplemented` value so
//! that callers can tell "not supported" from "broken".

use crate::formats::{TextureFormat, VertexAttrClass, VertexAttrType};
use vstd::prelude::*;

verus! {

/// Everything that an adapter operation can fail with.
#[derive(Debug, Clone, Copy, PartialEq, Eq, Structural)]
pub enum GpuError {
    /// A vertex attribute was requested with a (class, type, count) triple
    /// outside the supported enumeration.
    UnsupportedVertexFormat { class: VertexAttrClass, attr_type: VertexAttrType, size: usize },
    /// A vertex attribute divisor other than 0 (per-vertex) or 1
    /// (per-instance) was requested.
    UnsupportedDivisor { divisor: u32 },
    /// An attribute was configured for a vertex-buffer index with no prior
    /// bound buffer.
    UnboundBufferIndex { buffer_index: u32 },
    /// An indexed draw was issued on a vertex array with no index buffer.
    IndexBufferMissing,
    /// A buffer was read by a draw before it was allocated.
    BufferNotAllocated,
    /// Texture upload data whose element count or type does not match the
    /// upload rectangle and the texture's format.
    TextureDataMismatch,
    /// A texture was requested at a size outside the device's limits.
    TextureSizeUnsupported,
    /// A shader binary that is not a whole number of instruction words, or
    /// that reflection rejects.
    MalformedShaderBinary,
    /// A capability this adapter deliberately does not provide.
    Unimplemented,
}

} // verus!
