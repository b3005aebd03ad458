//! Vertex-array state: bound vertex buffers and their attributes.
//!
//! A vertex array is mutated incrementally by bind and configure calls and
//! read as a snapshot at draw time.  Binding a vertex buffer appends a new
//! binding with stride 0 and no attributes; configuring an attribute
//! locates the binding at the descriptor's buffer index, overwrites its
//! stride and step mode (last write wins) and appends one negotiated
//! attribute descriptor.

use crate::buffer::WebGpuBuffer;
use crate::error::GpuError;
use crate::formats::{VertexAttrClass, VertexAttrType, spec_vertex_format, vertex_format};
use crate::pipeline::{InputStepMode, VertexAttributeDescriptor};
use vstd::prelude::*;

verus! {

/// The generic description of one vertex attribute, as the immediate-mode
/// interface hands it over.
#[derive(Debug, Clone, Copy, PartialEq, Eq, Structural)]
pub struct VertexAttrDescriptor {
    pub size: usize,
    pub class: VertexAttrClass,
    pub attr_type: VertexAttrType,
    pub stride: usize,
    pub offset: usize,
    pub divisor: u32,
    pub buffer_index: u32,
}

/// A resolved vertex attribute: its name and the shader input location it
/// binds to.
#[derive(Debug, PartialEq, Eq)]
pub struct WebGpuVertexAttr {
    pub name: String,
    pub bind_location: u32,
}

/// One bound vertex buffer with its accumulated attribute descriptors.
#[derive(Debug)]
pub struct VertexBuffer {
    pub buffer: WebGpuBuffer,
    pub stride: u64,
    pub step_mode: InputStepMode,
    pub attributes: Vec<VertexAttributeDescriptor>,
}

/// The mathematical state of one bound vertex buffer.
pub ghost struct VertexBufferModel {
    pub buffer: WebGpuBuffer,
    pub stride: u64,
    pub step_mode: InputStepMode,
    pub attributes: Seq<VertexAttributeDescriptor>,
}

impl VertexBuffer {
    /// The mathematical state.
    pub open spec fn model(self) -> VertexBufferModel {
        VertexBufferModel {
            buffer: self.buffer,
            stride: self.stride,
            step_mode: self.step_mode,
            attributes: self.attributes@,
        }
    }
}

/// An ordered sequence of vertex-buffer bindings plus an optional single
/// index buffer.
#[derive(Debug)]
pub struct WebGpuVertexArray {
    pub vertex_buffers: Vec<VertexBuffer>,
    pub index_buffer: Option<WebGpuBuffer>,
}

/// The mathematical state of a vertex array.
pub ghost struct VertexArrayModel {
    pub vertex_buffers: Seq<VertexBufferModel>,
    pub index_buffer: Option<WebGpuBuffer>,
}

impl WebGpuVertexArray {
    /// The mathematical state.
    pub open spec fn model(self) -> VertexArrayModel {
        VertexArrayModel {
            vertex_buffers: self.vertex_buffers@.map_values(|b: VertexBuffer| b.model()),
            index_buffer: self.index_buffer,
        }
    }
}

/// Binding a vertex buffer appends a new binding with stride 0, per-vertex
/// stepping and no attributes.
pub open spec fn spec_bind_vertex_buffer(
    va: VertexArrayModel,
    buffer: WebGpuBuffer,
) -> VertexArrayModel {
    VertexArrayModel {
        vertex_buffers: va.vertex_buffers.push(
            VertexBufferModel {
                buffer,
                stride: 0,
                step_mode: InputStepMode::Vertex,
                attributes: Seq::empty(),
            },
        ),
        index_buffer: va.index_buffer,
    }
}

/// Binding an index buffer replaces the single optional index binding.
pub open spec fn spec_bind_index_buffer(
    va: VertexArrayModel,
    buffer: WebGpuBuffer,
) -> VertexArrayModel {
    VertexArrayModel { vertex_buffers: va.vertex_buffers, index_buffer: Some(buffer) }
}

/// The step mode a divisor asks for: 0 is per-vertex, 1 is per-instance,
/// anything else is unsupported.
pub open spec fn spec_step_mode(divisor: u32) -> Option<InputStepMode> {
    if divisor == 0 {
        Some(InputStepMode::Vertex)
    } else if divisor == 1 {
        Some(InputStepMode::Instance)
    } else {
        None
    }
}

/// Configuring an attribute for an unbound buffer index, with an
/// unsupported divisor, or with a (class, type, count) triple outside the
/// supported enumeration fails and leaves the array untouched; otherwise
/// the named binding's stride and step mode are overwritten and one
/// attribute descriptor is appended to it.
pub open spec fn spec_configure_vertex_attr(
    va: VertexArrayModel,
    bind_location: u32,
    descriptor: VertexAttrDescriptor,
) -> Result<VertexArrayModel, GpuError> {
    if descriptor.buffer_index >= va.vertex_buffers.len() {
        Err(GpuError::UnboundBufferIndex { buffer_index: descriptor.buffer_index })
    } else {
        match spec_step_mode(descriptor.divisor) {
            None => Err(GpuError::UnsupportedDivisor { divisor: descriptor.divisor }),
            Some(step_mode) => match spec_vertex_format(
                descriptor.class,
                descriptor.attr_type,
                descriptor.size,
            ) {
                None => Err(
                    GpuError::UnsupportedVertexFormat {
                        class: descriptor.class,
                        attr_type: descriptor.attr_type,
                        size: descriptor.size,
                    },
                ),
                Some(format) => {
                    let i = descriptor.buffer_index as int;
                    let binding = va.vertex_buffers[i];
                    Ok(
                        VertexArrayModel {
                            vertex_buffers: va.vertex_buffers.update(
                                i,
                                VertexBufferModel {
                                    buffer: binding.buffer,
                                    stride: descriptor.stride as u64,
                                    step_mode,
                                    attributes: binding.attributes.push(
                                        VertexAttributeDescriptor {
                                            offset: descriptor.offset as u64,
                                            format,
                                            shader_location: bind_location,
                                        },
                                    ),
                                },
                            ),
                            index_buffer: va.index_buffer,
                        },
                    )
                },
            },
        }
    }
}

/// Appends a new vertex-buffer binding for `buffer`.
pub fn bind_vertex_buffer(vertex_array: &mut WebGpuVertexArray, buffer: &WebGpuBuffer)
    ensures
        final(vertex_array).model() == spec_bind_vertex_buffer(old(vertex_array).model(), *buffer),
{
    vertex_array.vertex_buffers.push(
        VertexBuffer {
            buffer: *buffer,
            stride: 0,
            step_mode: InputStepMode::Vertex,
            attributes: Vec::new(),
        },
    );
    proof {
        assert(final(vertex_array).model().vertex_buffers =~= spec_bind_vertex_buffer(
            old(vertex_array).model(),
            *buffer,
        ).vertex_buffers);
    }
}

/// Replaces the index-buffer binding with `buffer`.
pub fn bind_index_buffer(vertex_array: &mut WebGpuVertexArray, buffer: &WebGpuBuffer)
    ensures
        final(vertex_array).model() == spec_bind_index_buffer(old(vertex_array).model(), *buffer),
{
    vertex_array.index_buffer = Some(*buffer);
}

/// Configures one vertex attribute of `vertex_array` at the shader input
/// location `attr` names, following `spec_configure_vertex_attr`: on any
/// error the array is left untouched.
pub fn configure_vertex_attr(
    vertex_array: &mut WebGpuVertexArray,
    attr: &WebGpuVertexAttr,
    descriptor: &VertexAttrDescriptor,
) -> (r: Result<(), GpuError>)
    ensures
        match spec_configure_vertex_attr(
            old(vertex_array).model(),
            attr.bind_location,
            *descriptor,
        ) {
            Ok(va) => r is Ok && final(vertex_array).model() == va,
            Err(e) => r == Err::<(), GpuError>(e) && *final(vertex_array) == *old(vertex_array),
        },
{
    if descriptor.buffer_index as usize >= vertex_array.vertex_buffers.len() {
        return Err(GpuError::UnboundBufferIndex { buffer_index: descriptor.buffer_index });
    }
    let step_mode = if descriptor.divisor == 0 {
        InputStepMode::Vertex
    } else if descriptor.divisor == 1 {
        InputStepMode::Instance
    } else {
        return Err(GpuError::UnsupportedDivisor { divisor: descriptor.divisor });
    };
    let format = match vertex_format(descriptor.class, descriptor.attr_type, descriptor.size) {
        Ok(format) => format,
        Err(e) => {
            return Err(e);
        },
    };
    let index = descriptor.buffer_index as usize;
    let binding = &mut vertex_array.vertex_buffers[index];
    binding.stride = descriptor.stride as u64;
    binding.step_mode = step_mode;
    binding.attributes.push(
        VertexAttributeDescriptor {
            offset: descriptor.offset as u64,
            format,
            shader_location: attr.bind_location,
        },
    );
    proof {
        let expected = spec_configure_vertex_attr(
            old(vertex_array).model(),
            attr.bind_location,
            *descriptor,
        )->Ok_0;
        assert(final(vertex_array).model().vertex_buffers =~= expected.vertex_buffers);
    }
    Ok(())
}

/// Law: binding a vertex buffer and then configuring an attribute for the
/// new buffer's index succeeds; the binding's stride and step mode are the
/// ones the configure call gave (the last write wins), and its attribute
/// list has exactly the one new attribute appended.
pub proof fn lemma_bind_then_configure(
    va: VertexArrayModel,
    buffer: WebGpuBuffer,
    bind_location: u32,
    descriptor: VertexAttrDescriptor,
)
    requires
        descriptor.buffer_index == va.vertex_buffers.len(),
        spec_step_mode(descriptor.divisor) is Some,
        spec_vertex_format(descriptor.class, descriptor.attr_type, descriptor.size) is Some,
    ensures
        ({
            let configured = spec_configure_vertex_attr(
                spec_bind_vertex_buffer(va, buffer),
                bind_location,
                descriptor,
            );
            &&& configured is Ok
            &&& {
                let binding = configured->Ok_0.vertex_buffers[descriptor.buffer_index as int];
                &&& binding.buffer == buffer
                &&& binding.stride == descriptor.stride as u64
                &&& binding.step_mode == spec_step_mode(descriptor.divisor)->Some_0
                &&& binding.attributes == seq![
                    VertexAttributeDescriptor {
                        offset: descriptor.offset as u64,
                        format: spec_vertex_format(
                            descriptor.class,
                            descriptor.attr_type,
                            descriptor.size,
                        )->Some_0,
                        shader_location: bind_location,
                    },
                ]
            }
        }),
{
    let bound = spec_bind_vertex_buffer(va, buffer);
    let configured = spec_configure_vertex_attr(bound, bind_location, descriptor);
    assert(configured is Ok);
    let binding = configured->Ok_0.vertex_buffers[descriptor.buffer_index as int];
    assert(binding.attributes =~= seq![
        VertexAttributeDescriptor {
            offset: descriptor.offset as u64,
            format: spec_vertex_format(
                descriptor.class,
                descriptor.attr_type,
                descriptor.size,
            )->Some_0,
            shader_location: bind_location,
        },
    ]);
}

} // verus!
