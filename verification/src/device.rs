//! The device facade: the public adapter surface.
//!
//! The device owns all adapter state — the command stream, the buffer and
//! texture registries, the precomputed sampler table and the persistent
//! depth/stencil attachment — and is mutated from one producer thread in
//! program order.  Draws synthesize a complete one-shot pipeline and
//! render-pass description from the live state on every call; nothing is
//! cached across draws.  Work is appended to whatever recording is open
//! and handed outward in submission order by `end_frame`.

use crate::buffer::{
    BufferData, BufferStorage, BufferTarget, BufferUploadMode, BufferUsageFlags, WebGpuBuffer,
    buffer_usage, spec_buffer_data_size, spec_buffer_usage,
};
use crate::error::GpuError;
use crate::formats::{
    NativeTextureFormat, TextureFormat, bytes_per_texel, spec_bytes_per_texel,
    spec_texture_format_to_wgpu, texture_format_to_wgpu,
};
use crate::geom::{RectI, Vector2I, expect_unsigned};
use crate::lazy::LazilyInitialized;
use crate::options::{Primitive, RenderOptions};
use crate::pipeline::{
    AttachmentView, CullMode, FrontFace, IndexFormat, RenderPassDescriptor,
    RenderPipelineDescriptor, VertexAttributeDescriptor, VertexBufferLayout,
    build_color_attachment, build_color_state, build_depth_stencil_attachment,
    build_depth_stencil_state, primitive_topology, spec_color_attachment, spec_color_state,
    spec_depth_stencil_attachment, spec_depth_stencil_state, spec_primitive_topology,
};
use crate::sampling::{
    SamplerDescriptor, TextureSamplingFlags, create_sampler_table, spec_sampler_descriptor,
};
use crate::shader::{
    ProgramKind, ShaderKind, WebGpuProgram, WebGpuShader, WebGpuUniform, attr_table,
    lookup_location, spec_attr_table, spec_lookup_location,
};
use crate::stream::{
    BufferSlice, CommandStream, GpuCommand, Recording, StagingBuffer, spec_rotate, spec_submit,
};
use crate::texture::{
    MAX_TEXTURE_DIMENSION, TextureData, TextureState, WebGpuFramebuffer, WebGpuTexture,
    WebGpuTextureDataReceiver, WebGpuTimerQuery, check_upload, pack_texture_data,
    spec_packed_bytes, spec_upload_ok,
};
use crate::vertex_array::{VertexArrayModel, VertexAttrDescriptor, WebGpuVertexArray, WebGpuVertexAttr};
use vstd::prelude::*;

verus! {

/// The feature level the adapter reports.
#[derive(Debug, Clone, Copy, PartialEq, Eq, Structural)]
pub enum FeatureLevel {
    D3D10,
    D3D11,
}

/// A compute dispatch size; compute is an acknowledged unimplemented
/// capability.
#[derive(Debug, Clone, Copy, PartialEq, Eq, Structural)]
pub struct ComputeDimensions {
    pub x: u32,
    pub y: u32,
    pub z: u32,
}

/// Where a draw renders to: the default back-buffer, or a framebuffer.
#[derive(Debug, Clone, Copy, PartialEq, Eq, Structural)]
pub enum RenderTarget {
    Default,
    Framebuffer(WebGpuFramebuffer),
}

/// The complete immediate-mode draw-time input.  It is reconstructed by
/// the caller for every draw and consumed atomically.
#[derive(Debug, Clone, Copy)]
pub struct RenderState<'a> {
    pub target: RenderTarget,
    pub program: &'a WebGpuProgram,
    pub vertex_array: &'a WebGpuVertexArray,
    pub primitive: Primitive,
    pub viewport: RectI,
    pub options: RenderOptions,
}

/// The graphics-device adapter.
#[derive(Debug)]
pub struct WebGpuDevice {
    /// The open recording and the finished, not-yet-submitted queue.
    pub stream: CommandStream,
    /// The 16 precomputed sampler descriptions, indexed by flag value.
    pub samplers: Vec<SamplerDescriptor>,
    /// The resource identifier of the persistent depth/stencil texture.
    pub main_depth_stencil_texture: u64,
    /// Which swap-chain frame is current; advanced once per `end_frame`.
    pub swap_frame: u64,
    /// The back-buffer size in texels.
    pub size: Vector2I,
    /// The next unused native resource identifier.
    pub next_res_id: u64,
    /// The buffer registry: one lazily-allocated slot per created buffer.
    pub buffers: Vec<LazilyInitialized<BufferStorage>>,
    /// The texture registry.
    pub textures: Vec<TextureState>,
}

/// The fields that only device construction writes.
pub open spec fn same_device_frame(a: WebGpuDevice, b: WebGpuDevice) -> bool {
    &&& a.samplers == b.samplers
    &&& a.size == b.size
    &&& a.main_depth_stencil_texture == b.main_depth_stencil_texture
}

/// The resource registries and the identifier counter.
pub open spec fn same_device_resources(a: WebGpuDevice, b: WebGpuDevice) -> bool {
    &&& a.buffers == b.buffers
    &&& a.textures == b.textures
    &&& a.next_res_id == b.next_res_id
}

impl WebGpuDevice {
    /// The device invariant: a full sampler table and well-formed
    /// textures.
    pub open spec fn wf(self) -> bool {
        &&& self.samplers@.len() == 16
        &&& forall|i: int| 0 <= i < self.textures@.len() ==> (#[trigger] self.textures@[i]).wf()
    }

    /// The handle names a slot of this device's buffer registry.
    pub open spec fn valid_buffer(self, buffer: WebGpuBuffer) -> bool {
        buffer.slot < self.buffers@.len()
    }

    /// The handle names a slot of this device's texture registry.
    pub open spec fn valid_texture(self, texture: WebGpuTexture) -> bool {
        texture.index < self.textures@.len()
    }

    /// The render target is the back-buffer or a valid framebuffer.
    pub open spec fn valid_render_target(self, target: RenderTarget) -> bool {
        match target {
            RenderTarget::Default => true,
            RenderTarget::Framebuffer(fb) => self.valid_texture(fb.0),
        }
    }

    /// Every buffer the vertex array names belongs to this device.
    pub open spec fn valid_vertex_array(self, va: VertexArrayModel) -> bool {
        &&& forall|i: int|
            0 <= i < va.vertex_buffers.len() ==> self.valid_buffer(
                (#[trigger] va.vertex_buffers[i]).buffer,
            )
        &&& match va.index_buffer {
            Some(b) => self.valid_buffer(b),
            None => true,
        }
    }

    /// Every vertex buffer the vertex array names has been allocated.
    pub open spec fn spec_vertex_buffers_allocated(self, va: VertexArrayModel) -> bool {
        forall|i: int|
            0 <= i < va.vertex_buffers.len() ==> (#[trigger] self.buffers@[va.vertex_buffers[i].buffer.slot as int]).is_init()
    }

    /// The whole-allocation slice bound at each vertex-buffer slot, in
    /// binding order.
    pub open spec fn spec_vertex_slices(self, va: VertexArrayModel) -> Seq<BufferSlice> {
        Seq::new(
            va.vertex_buffers.len(),
            |i: int|
                BufferSlice::spec_of_storage(
                    self.buffers@[va.vertex_buffers[i].buffer.slot as int].value(),
                ),
        )
    }

    /// The image a draw's render pass targets.
    pub open spec fn spec_target_view(self, target: RenderTarget) -> AttachmentView {
        match target {
            RenderTarget::Default => AttachmentView::SwapChain { frame: self.swap_frame },
            RenderTarget::Framebuffer(fb) => AttachmentView::TextureView {
                texture: self.textures@[fb.0.index as int].id,
            },
        }
    }

    /// The native pixel format a draw's color attachment resolves to: the
    /// back-buffer is assumed RGBA8.
    pub open spec fn spec_target_format(self, target: RenderTarget) -> NativeTextureFormat {
        match target {
            RenderTarget::Default => NativeTextureFormat::Rgba8Unorm,
            RenderTarget::Framebuffer(fb) => spec_texture_format_to_wgpu(
                self.textures@[fb.0.index as int].format,
            ),
        }
    }

    /// The render pass a draw opens: the resolved color attachment, and —
    /// only for the default target — the persistent depth/stencil
    /// attachment.
    pub open spec fn spec_render_pass(self, target: RenderTarget, options: RenderOptions)
        -> RenderPassDescriptor {
        RenderPassDescriptor {
            color_attachment: spec_color_attachment(
                self.spec_target_view(target),
                options.clear_ops,
            ),
            depth_stencil_attachment: match target {
                RenderTarget::Default => Some(
                    spec_depth_stencil_attachment(
                        self.main_depth_stencil_texture,
                        options.clear_ops,
                    ),
                ),
                RenderTarget::Framebuffer(_) => None,
            },
        }
    }

    /// Constructs a device for a back-buffer of the given size: the
    /// sampler table is precomputed, the persistent depth/stencil texture
    /// takes the first resource identifier, and one empty recording is
    /// opened immediately to absorb initialization-time work.
    pub fn new(size: Vector2I) -> (r: WebGpuDevice)
        requires
            0 <= size.x <= MAX_TEXTURE_DIMENSION,
            0 <= size.y <= MAX_TEXTURE_DIMENSION,
        ensures
            r.wf(),
            r.size == size,
            r.swap_frame == 0,
            r.main_depth_stencil_texture == 0,
            r.next_res_id == 1,
            r.buffers@.len() == 0,
            r.textures@.len() == 0,
            r.stream.model().pending.len() == 0,
            r.stream.model().current.len() == 0,
            forall|i: int|
                0 <= i < 16 ==> r.samplers@[i] == spec_sampler_descriptor(
                    TextureSamplingFlags { bits: i as u8 },
                ),
    {
        WebGpuDevice {
            stream: CommandStream::with_open_recording(),
            samplers: create_sampler_table(),
            main_depth_stencil_texture: 0,
            swap_frame: 0,
            size,
            next_res_id: 1,
            buffers: Vec::new(),
            textures: Vec::new(),
        }
    }

    /// The feature level this adapter provides.
    pub fn feature_level(&self) -> (r: FeatureLevel)
        ensures
            r == FeatureLevel::D3D11,
    {
        FeatureLevel::D3D11
    }

    /// Creates a 2-D, single-mip, single-sample texture, or fails when
    /// the size exceeds the device limit.
    pub fn create_texture(&mut self, format: TextureFormat, size: Vector2I) -> (r: Result<
        WebGpuTexture,
        GpuError,
    >)
        requires
            old(self).wf(),
            old(self).next_res_id < u64::MAX,
        ensures
            final(self).wf(),
            ({
                if 0 <= size.x <= MAX_TEXTURE_DIMENSION && 0 <= size.y <= MAX_TEXTURE_DIMENSION {
                    &&& r matches Ok(t) && t.index == old(self).textures@.len()
                    &&& final(self).textures@ == old(self).textures@.push(
                        TextureState {
                            id: old(self).next_res_id,
                            size,
                            format,
                            sampling_flags: TextureSamplingFlags { bits: 0 },
                            dirty: false,
                        },
                    )
                    &&& final(self).next_res_id == old(self).next_res_id + 1
                    &&& final(self).buffers == old(self).buffers
                    &&& final(self).stream == old(self).stream
                    &&& final(self).swap_frame == old(self).swap_frame
                    &&& same_device_frame(*old(self), *final(self))
                } else {
                    r == Err::<WebGpuTexture, GpuError>(GpuError::TextureSizeUnsupported)
                        && *final(self) == *old(self)
                }
            }),
    {
        if size.x < 0 || size.x > MAX_TEXTURE_DIMENSION || size.y < 0 || size.y
            > MAX_TEXTURE_DIMENSION {
            return Err(GpuError::TextureSizeUnsupported);
        }
        let id = self.next_res_id;
        self.next_res_id = id + 1;
        let index = self.textures.len();
        self.textures.push(
            TextureState {
                id,
                size,
                format,
                sampling_flags: TextureSamplingFlags { bits: 0 },
                dirty: false,
            },
        );
        Ok(WebGpuTexture { index })
    }

    /// Declares a buffer handle; the backing allocation is created by the
    /// first `allocate_buffer` call, when its length and usage are known.
    pub fn create_buffer(&mut self, _mode: BufferUploadMode) -> (r: WebGpuBuffer)
        ensures
            r.slot == old(self).buffers@.len(),
            final(self).buffers@.len() == old(self).buffers@.len() + 1,
            forall|i: int|
                0 <= i < old(self).buffers@.len()
                    ==> final(self).buffers@[i] == old(self).buffers@[i],
            !final(self).buffers@[r.slot as int].is_init(),
            final(self).textures == old(self).textures,
            final(self).next_res_id == old(self).next_res_id,
            final(self).stream == old(self).stream,
            final(self).swap_frame == old(self).swap_frame,
            same_device_frame(*old(self), *final(self)),
    {
        let slot = self.buffers.len();
        self.buffers.push(LazilyInitialized::uninitialized());
        WebGpuBuffer { slot }
    }

    /// Creates (or replaces) the buffer's backing allocation with the
    /// requested bytes or uninitialized length and the usage its binding
    /// target asks for.  The previous allocation, if any, is handed back;
    /// this adapter reclaims it eagerly, leaving destruction sequencing
    /// to the native API's own reference counting, and never copies old
    /// contents over.
    pub fn allocate_buffer(
        &mut self,
        buffer: &WebGpuBuffer,
        data: &BufferData,
        target: BufferTarget,
    ) -> (prev: Option<BufferStorage>)
        requires
            old(self).valid_buffer(*buffer),
            old(self).next_res_id < u64::MAX,
        ensures
            final(self).buffers@.len() == old(self).buffers@.len(),
            forall|i: int|
                0 <= i < old(self).buffers@.len() && i != buffer.slot as int ==> final(self).buffers@[i] == old(self).buffers@[i],
            final(self).buffers@[buffer.slot as int].is_init(),
            final(self).buffers@[buffer.slot as int].value() == (BufferStorage {
                id: old(self).next_res_id,
                size: spec_buffer_data_size(*data) as usize,
                usage: spec_buffer_usage(target),
            }),
            prev == old(self).buffers@[buffer.slot as int].slot,
            final(self).next_res_id == old(self).next_res_id + 1,
            final(self).textures == old(self).textures,
            final(self).stream == old(self).stream,
            final(self).swap_frame == old(self).swap_frame,
            same_device_frame(*old(self), *final(self)),
    {
        let size: usize = match data {
            BufferData::Uninitialized(s) => *s,
            BufferData::Memory(bytes) => bytes.len(),
        };
        let id = self.next_res_id;
        self.next_res_id = id + 1;
        let storage = BufferStorage { id, size, usage: buffer_usage(target) };
        let slot = &mut self.buffers[buffer.slot];
        slot.initialize_or_replace_with(storage)
    }

    /// Wraps a texture as a framebuffer render target.
    pub fn create_framebuffer(&self, texture: WebGpuTexture) -> (r: WebGpuFramebuffer)
        ensures
            r.0 == texture,
    {
        WebGpuFramebuffer(texture)
    }

    /// The texture backing a framebuffer.
    pub fn framebuffer_texture<'f>(&self, framebuffer: &'f WebGpuFramebuffer) -> (r:
        &'f WebGpuTexture)
        ensures
            *r == framebuffer.0,
    {
        &framebuffer.0
    }

    /// The fixed pixel format a texture was created with.
    pub fn texture_format(&self, texture: &WebGpuTexture) -> (r: TextureFormat)
        requires
            self.valid_texture(*texture),
        ensures
            r == self.textures@[texture.index as int].format,
    {
        self.textures[texture.index].format
    }

    /// The fixed size a texture was created with.
    pub fn texture_size(&self, texture: &WebGpuTexture) -> (r: Vector2I)
        requires
            self.valid_texture(*texture),
        ensures
            r == self.textures@[texture.index as int].size,
    {
        self.textures[texture.index].size
    }

    /// Updates a texture's sampling mode in place.
    pub fn set_texture_sampling_mode(&mut self, texture: &WebGpuTexture, flags: TextureSamplingFlags)
        requires
            old(self).wf(),
            old(self).valid_texture(*texture),
            flags.is_valid(),
        ensures
            final(self).wf(),
            final(self).textures@ == old(self).textures@.update(
                texture.index as int,
                TextureState {
                    sampling_flags: flags,
                    ..old(self).textures@[texture.index as int]
                },
            ),
            final(self).buffers == old(self).buffers,
            final(self).next_res_id == old(self).next_res_id,
            final(self).stream == old(self).stream,
            final(self).swap_frame == old(self).swap_frame,
            same_device_frame(*old(self), *final(self)),
    {
        let t = &mut self.textures[texture.index];
        t.sampling_flags = flags;
    }

    /// An empty vertex array: no bound vertex buffers, no index buffer.
    pub fn create_vertex_array(&self) -> (r: WebGpuVertexArray)
        ensures
            r.model().vertex_buffers.len() == 0,
            r.model().index_buffer is None,
    {
        WebGpuVertexArray { vertex_buffers: Vec::new(), index_buffer: None }
    }

    /// Binds a buffer to a vertex array: vertex-target bindings append,
    /// the index-target binding replaces.  Storage binding is an
    /// unimplemented capability.
    pub fn bind_buffer(
        &self,
        vertex_array: &mut WebGpuVertexArray,
        buffer: &WebGpuBuffer,
        target: BufferTarget,
    ) -> (r: Result<(), GpuError>)
        ensures
            match target {
                BufferTarget::Vertex => r is Ok && final(vertex_array).model()
                    == crate::vertex_array::spec_bind_vertex_buffer(
                    old(vertex_array).model(),
                    *buffer,
                ),
                BufferTarget::Index => r is Ok && final(vertex_array).model()
                    == crate::vertex_array::spec_bind_index_buffer(
                    old(vertex_array).model(),
                    *buffer,
                ),
                BufferTarget::Storage => r == Err::<(), GpuError>(GpuError::Unimplemented)
                    && *final(vertex_array) == *old(vertex_array),
            },
    {
        match target {
            BufferTarget::Vertex => {
                crate::vertex_array::bind_vertex_buffer(vertex_array, buffer);
                Ok(())
            },
            BufferTarget::Index => {
                crate::vertex_array::bind_index_buffer(vertex_array, buffer);
                Ok(())
            },
            BufferTarget::Storage => Err(GpuError::Unimplemented),
        }
    }

    /// Configures one vertex attribute of a vertex array; on any error
    /// the array is left untouched.
    pub fn configure_vertex_attr(
        &self,
        vertex_array: &mut WebGpuVertexArray,
        attr: &WebGpuVertexAttr,
        descriptor: &VertexAttrDescriptor,
    ) -> (r: Result<(), GpuError>)
        ensures
            match crate::vertex_array::spec_configure_vertex_attr(
                old(vertex_array).model(),
                attr.bind_location,
                *descriptor,
            ) {
                Ok(va) => r is Ok && final(vertex_array).model() == va,
                Err(e) => r == Err::<(), GpuError>(e) && *final(vertex_array) == *old(
                    vertex_array,
                ),
            },
    {
        crate::vertex_array::configure_vertex_attr(vertex_array, attr, descriptor)
    }

    /// Finishes the current recording into the queue and opens a new one.
    /// An explicit begin-of-frame bracket only forces this rotation
    /// boundary; a recording is always open regardless.
    pub fn begin_commands(&mut self)
        ensures
            final(self).stream.model() == spec_rotate(old(self).stream.model()),
            same_device_resources(*old(self), *final(self)),
            same_device_frame(*old(self), *final(self)),
            final(self).swap_frame == old(self).swap_frame,
    {
        self.stream.rotate();
    }

    /// The end-of-frame bracket's counterpart is a no-op: the current
    /// recording keeps absorbing work until the next rotation boundary.
    pub fn end_commands(&self) {
    }

    /// Finishes the current recording, hands the whole pending queue back
    /// in FIFO submission order, clears it, and advances to the next
    /// swap-chain frame.  Exactly one empty recording remains open.
    pub fn end_frame(&mut self) -> (submission: Vec<Recording>)
        requires
            old(self).swap_frame < u64::MAX,
        ensures
            submission@.len() == old(self).stream.model().pending.len() + 1,
            submission@.map_values(|r: Recording| r.model()) == spec_submit(
                old(self).stream.model(),
            ).0,
            final(self).stream.model() == spec_submit(old(self).stream.model()).1,
            final(self).swap_frame == old(self).swap_frame + 1,
            same_device_resources(*old(self), *final(self)),
            same_device_frame(*old(self), *final(self)),
    {
        let submission = self.stream.submit_and_clear();
        self.swap_frame = self.swap_frame + 1;
        submission
    }

    /// Validates an upload against `spec_upload_ok`, packs the payload
    /// into a fresh transient staging buffer, and appends the
    /// buffer-to-texture copy to the open recording.  The copy is visible
    /// only after the recording holding it is submitted.  On a mismatch
    /// nothing is recorded.
    pub fn upload_to_texture(
        &mut self,
        texture: &WebGpuTexture,
        rect: RectI,
        data: &TextureData,
    ) -> (r: Result<(), GpuError>)
        requires
            old(self).wf(),
            old(self).valid_texture(*texture),
            old(self).next_res_id < u64::MAX,
        ensures
            final(self).wf(),
            ({
                let t = old(self).textures@[texture.index as int];
                if spec_upload_ok(t.format, rect, *data) {
                    &&& r is Ok
                    &&& final(self).stream.model().pending == old(self).stream.model().pending
                    &&& final(self).stream.model().current == old(self).stream.model().current.push(
                        final(self).stream.model().current.last(),
                    )
                    &&& spec_upload_command_matches(
                        final(self).stream.model().current.last(),
                        t,
                        old(self).next_res_id,
                        *data,
                    )
                    &&& final(self).next_res_id == old(self).next_res_id + 1
                    &&& final(self).buffers == old(self).buffers
                    &&& final(self).textures == old(self).textures
                    &&& final(self).swap_frame == old(self).swap_frame
                    &&& same_device_frame(*old(self), *final(self))
                } else {
                    r == Err::<(), GpuError>(GpuError::TextureDataMismatch) && *final(self) == *old(self)
                }
            }),
    {
        let t = self.textures[texture.index];
        if check_upload(t.format, &rect, data).is_none() {
            return Err(GpuError::TextureDataMismatch);
        }
        let staged_bytes = pack_texture_data(data);
        let staging_id = self.next_res_id;
        self.next_res_id = staging_id + 1;
        proof {
            assert((t.size.x as int) * (spec_bytes_per_texel(t.format) as int) <= 8192 * 16)
                by (nonlinear_arith)
                requires
                    0 <= t.size.x <= 8192,
                    spec_bytes_per_texel(t.format) <= 16,
            ;
        }
        let bytes_per_row = expect_unsigned(t.size.x) * bytes_per_texel(t.format);
        let rows_per_image = expect_unsigned(t.size.y);
        self.stream.push_command(
            GpuCommand::CopyBufferToTexture {
                source: StagingBuffer {
                    id: staging_id,
                    usage: BufferUsageFlags {
                        vertex: false,
                        index: false,
                        storage: false,
                        copy_src: true,
                        copy_dst: false,
                    },
                    bytes: staged_bytes,
                },
                bytes_per_row,
                rows_per_image,
                texture: t.id,
                mip_level: 0,
                extent: t.size,
            },
        );
        Ok(())
    }

    /// Creates a texture and uploads a full-rectangle payload into it in
    /// one step.  On any error nothing is created and nothing recorded.
    pub fn create_texture_from_data(
        &mut self,
        format: TextureFormat,
        size: Vector2I,
        data: &TextureData,
    ) -> (r: Result<WebGpuTexture, GpuError>)
        requires
            old(self).wf(),
            old(self).next_res_id < u64::MAX - 1,
        ensures
            final(self).wf(),
            ({
                let full_rect = RectI { origin: Vector2I { x: 0, y: 0 }, size };
                let t = TextureState {
                    id: old(self).next_res_id,
                    size,
                    format,
                    sampling_flags: TextureSamplingFlags { bits: 0 },
                    dirty: false,
                };
                if !(0 <= size.x <= MAX_TEXTURE_DIMENSION && 0 <= size.y
                    <= MAX_TEXTURE_DIMENSION) {
                    r == Err::<WebGpuTexture, GpuError>(GpuError::TextureSizeUnsupported) && *final(self) == *old(self)
                } else if !spec_upload_ok(format, full_rect, *data) {
                    r == Err::<WebGpuTexture, GpuError>(GpuError::TextureDataMismatch) && *final(self) == *old(self)
                } else {
                    &&& r matches Ok(h) && h.index == old(self).textures@.len()
                    &&& final(self).textures@ == old(self).textures@.push(t)
                    &&& final(self).next_res_id == old(self).next_res_id + 2
                    &&& final(self).stream.model().pending == old(self).stream.model().pending
                    &&& final(self).stream.model().current == old(self).stream.model().current.push(
                        final(self).stream.model().current.last(),
                    )
                    &&& spec_upload_command_matches(
                        final(self).stream.model().current.last(),
                        t,
                        (old(self).next_res_id + 1) as u64,
                        *data,
                    )
                    &&& final(self).buffers == old(self).buffers
                    &&& final(self).swap_frame == old(self).swap_frame
                    &&& same_device_frame(*old(self), *final(self))
                }
            }),
    {
        if size.x < 0 || size.x > MAX_TEXTURE_DIMENSION || size.y < 0 || size.y
            > MAX_TEXTURE_DIMENSION {
            return Err(GpuError::TextureSizeUnsupported);
        }
        let full_rect = RectI { origin: Vector2I { x: 0, y: 0 }, size };
        if check_upload(format, &full_rect, data).is_none() {
            return Err(GpuError::TextureDataMismatch);
        }
        let texture = match self.create_texture(format, size) {
            Ok(texture) => texture,
            Err(e) => {
                return Err(e);
            },
        };
        match self.upload_to_texture(&texture, full_rect, data) {
            Ok(()) => Ok(texture),
            Err(e) => Err(e),
        }
    }

    /// Validates that the binary is a whole number of instruction words
    /// and — for vertex-kind modules — builds the attribute table from
    /// the binary's reflected input variables, which the shader front-end
    /// collaborator hands over as plain name/location pairs.
    pub fn create_shader_from_source(
        &mut self,
        name: &str,
        source: &[u8],
        kind: ShaderKind,
        reflected_inputs: &Vec<(String, u32)>,
    ) -> (r: Result<WebGpuShader, GpuError>)
        requires
            old(self).next_res_id < u64::MAX,
        ensures
            source@.len() % 4 != 0 ==> r == Err::<WebGpuShader, GpuError>(
                GpuError::MalformedShaderBinary,
            ) && *final(self) == *old(self),
            source@.len() % 4 == 0 ==> r is Ok,
            r matches Ok(shader) ==> {
                &&& source@.len() % 4 == 0
                &&& shader.module == old(self).next_res_id
                &&& shader.kind == kind
                &&& shader.name matches Some(n) && n@ == name@
                &&& match kind {
                    ShaderKind::Vertex => shader.shader_vertex_attributes matches Some(table)
                        && table.deep_view() == spec_attr_table(reflected_inputs.deep_view()),
                    _ => shader.shader_vertex_attributes is None,
                }
                &&& final(self).next_res_id == old(self).next_res_id + 1
                &&& final(self).stream == old(self).stream
                &&& final(self).buffers == old(self).buffers
                &&& final(self).textures == old(self).textures
                &&& final(self).swap_frame == old(self).swap_frame
                &&& same_device_frame(*old(self), *final(self))
            },
    {
        if source.len() % 4 != 0 {
            return Err(GpuError::MalformedShaderBinary);
        }
        let attributes = match kind {
            ShaderKind::Vertex => Some(attr_table(reflected_inputs)),
            _ => None,
        };
        let module = self.next_res_id;
        self.next_res_id = module + 1;
        Ok(
            WebGpuShader {
                name: Some(name.to_owned()),
                shader_vertex_attributes: attributes,
                kind,
                module,
            },
        )
    }

    /// Pairs a vertex and a fragment module into a program; the native
    /// program object only exists as part of each draw's pipeline, so
    /// nothing is built here.  Compute programs are an unimplemented
    /// capability.
    pub fn create_program_from_shaders(&self, name: &str, shaders: ProgramKind) -> (r: Result<
        WebGpuProgram,
        GpuError,
    >)
        ensures
            match shaders {
                ProgramKind::Raster { vertex, fragment } => (r matches Ok(p)
                    && (p.vertex_shader == vertex) && (p.fragment_shader == fragment)
                    && (p.name matches Some(n) && n@ == name@)),
                ProgramKind::Compute(_) => r == Err::<WebGpuProgram, GpuError>(
                    GpuError::Unimplemented,
                ),
            },
    {
        match shaders {
            ProgramKind::Raster { vertex, fragment } => Ok(
                WebGpuProgram {
                    name: Some(name.to_owned()),
                    vertex_shader: vertex,
                    fragment_shader: fragment,
                },
            ),
            ProgramKind::Compute(_) => Err(GpuError::Unimplemented),
        }
    }

    /// Resolves a vertex attribute by its stripped name in the program's
    /// reflected table; the program must have been built from a vertex
    /// module.
    pub fn get_vertex_attr(&self, program: &WebGpuProgram, name: &str) -> (r: Option<
        WebGpuVertexAttr,
    >)
        requires
            program.vertex_shader.shader_vertex_attributes is Some,
        ensures
            ({
                let table = program.vertex_shader.shader_vertex_attributes->Some_0;
                match spec_lookup_location(table.deep_view(), name@) {
                    Some(location) => r matches Some(attr) && attr.name@ == name@
                        && attr.bind_location == location,
                    None => r is None,
                }
            }),
    {
        let table = match &program.vertex_shader.shader_vertex_attributes {
            Some(table) => table,
            None => unreached(),
        };
        match lookup_location(table, name) {
            Some(bind_location) => Some(
                WebGpuVertexAttr { name: name.to_owned(), bind_location },
            ),
            None => None,
        }
    }

    /// A named uniform handle; resolving it to a binding is an
    /// unimplemented capability.
    pub fn get_uniform(&self, _program: &WebGpuProgram, name: &str) -> (r: WebGpuUniform)
        ensures
            r.name@ == name@,
    {
        WebGpuUniform { name: name.to_owned() }
    }
}

/// The usage a transient staging buffer is created with: it is only ever
/// copied from.
pub open spec fn spec_staging_usage() -> BufferUsageFlags {
    BufferUsageFlags { vertex: false, index: false, storage: false, copy_src: true, copy_dst: false }
}

/// Whether `command` is exactly the staging-buffer-to-texture copy an
/// upload appends: a fresh copy-source staging buffer holding the packed
/// payload bytes, a row stride of the texture's full width, the texture's
/// full extent, and the single-mip texture's only mip level.
pub open spec fn spec_upload_command_matches(
    command: GpuCommand,
    texture: TextureState,
    staging_id: u64,
    data: TextureData,
) -> bool {
    &&& command matches GpuCommand::CopyBufferToTexture {
        source,
        bytes_per_row,
        rows_per_image,
        texture: copy_target,
        mip_level,
        extent,
    }
    &&& source.id == staging_id
    &&& source.usage == spec_staging_usage()
    &&& source.bytes@ == spec_packed_bytes(data)
    &&& bytes_per_row == ((texture.size.x as int) * (spec_bytes_per_texel(texture.format) as int)) as u32
    &&& rows_per_image == texture.size.y as u32
    &&& copy_target == texture.id
    &&& mip_level == 0
    &&& extent == texture.size
}

/// Whether a native vertex-buffer layout list is the snapshot of a vertex
/// array's bindings, in binding order.
pub open spec fn spec_layouts_match(layouts: Seq<VertexBufferLayout>, va: VertexArrayModel) -> bool {
    &&& layouts.len() == va.vertex_buffers.len()
    &&& forall|i: int|
        0 <= i < layouts.len() ==> {
            let layout = #[trigger] layouts[i];
            let binding = va.vertex_buffers[i];
            &&& layout.stride == binding.stride
            &&& layout.step_mode == binding.step_mode
            &&& layout.attributes@ == binding.attributes
        }
}

/// Copies a list of attribute descriptors for a pipeline snapshot.
fn clone_attribute_list(attributes: &Vec<VertexAttributeDescriptor>) -> (r: Vec<
    VertexAttributeDescriptor,
>)
    ensures
        r@ == attributes@,
{
    let mut copied: Vec<VertexAttributeDescriptor> = Vec::new();
    let mut i: usize = 0;
    while i < attributes.len()
        invariant
            i <= attributes.len(),
            copied@ == attributes@.take(i as int),
        decreases attributes.len() - i,
    {
        copied.push(attributes[i]);
        proof {
            assert(copied@ =~= attributes@.take(i + 1));
        }
        i = i + 1;
    }
    proof {
        assert(attributes@.take(attributes@.len() as int) =~= attributes@);
    }
    copied
}

impl WebGpuDevice {
    /// Whether `command` is exactly the draw that `draw_elements_instanced`
    /// synthesizes from this device state and the given draw-time inputs:
    /// the one-shot pipeline (shader modules, fixed front-face/no-culling
    /// rasterization, negotiated color, blend and depth/stencil state, the
    /// vertex-buffer layout snapshot, 32-bit indices, one sample), the
    /// render pass with its resolved attachments and load operations, the
    /// viewport, the bound buffer slices, and the draw counts.
    pub open spec fn spec_draw_command_matches(
        self,
        command: GpuCommand,
        index_count: u32,
        instance_count: u32,
        program: WebGpuProgram,
        va: VertexArrayModel,
        target: RenderTarget,
        primitive: Primitive,
        viewport: RectI,
        options: RenderOptions,
    ) -> bool {
        &&& command matches GpuCommand::DrawIndexed {
            pipeline,
            render_pass,
            viewport: command_viewport,
            vertex_buffers,
            index_buffer,
            index_count: command_index_count,
            instance_count: command_instance_count,
        }
        &&& pipeline.vertex_module == program.vertex_shader.module
        &&& pipeline.fragment_module == program.fragment_shader.module
        &&& pipeline.front_face == FrontFace::Cw
        &&& pipeline.cull_mode == CullMode::NoCulling
        &&& pipeline.primitive_topology == spec_primitive_topology(primitive)
        &&& pipeline.color_state == spec_color_state(self.spec_target_format(target), options)
        &&& pipeline.depth_stencil_state == spec_depth_stencil_state(options)
        &&& pipeline.index_format == IndexFormat::Uint32
        &&& pipeline.sample_count == 1
        &&& spec_layouts_match(pipeline.vertex_buffers@, va)
        &&& render_pass == self.spec_render_pass(target, options)
        &&& command_viewport == viewport
        &&& vertex_buffers@ == self.spec_vertex_slices(va)
        &&& index_buffer == BufferSlice::spec_of_storage(
            self.buffers@[va.index_buffer->Some_0.slot as int].value(),
        )
        &&& command_index_count == index_count
        &&& command_instance_count == instance_count
    }

    /// Synthesizes a complete pipeline and render-pass description from
    /// the live state and appends one indexed, instanced draw to the open
    /// recording.  Nothing is cached: identical draw-time state on
    /// successive calls still records a freshly built description.  The
    /// draw fails — recording nothing — when a bound vertex buffer is
    /// unallocated, when no index buffer is bound, or when the index
    /// buffer is unallocated.
    pub fn draw_elements_instanced<'a>(
        &mut self,
        index_count: u32,
        instance_count: u32,
        render_state: &RenderState<'a>,
    ) -> (r: Result<(), GpuError>)
        requires
            old(self).wf(),
            old(self).valid_render_target(render_state.target),
            old(self).valid_vertex_array(render_state.vertex_array.model()),
        ensures
            final(self).wf(),
            ({
                let va = render_state.vertex_array.model();
                if !old(self).spec_vertex_buffers_allocated(va) {
                    r == Err::<(), GpuError>(GpuError::BufferNotAllocated) && *final(self) == *old(self)
                } else if va.index_buffer is None {
                    r == Err::<(), GpuError>(GpuError::IndexBufferMissing) && *final(self) == *old(self)
                } else if !old(self).buffers@[va.index_buffer->Some_0.slot as int].is_init() {
                    r == Err::<(), GpuError>(GpuError::BufferNotAllocated) && *final(self) == *old(self)
                } else {
                    &&& r is Ok
                    &&& final(self).stream.model().pending == old(self).stream.model().pending
                    &&& final(self).stream.model().current == old(self).stream.model().current.push(
                        final(self).stream.model().current.last(),
                    )
                    &&& old(self).spec_draw_command_matches(
                        final(self).stream.model().current.last(),
                        index_count,
                        instance_count,
                        *render_state.program,
                        va,
                        render_state.target,
                        render_state.primitive,
                        render_state.viewport,
                        render_state.options,
                    )
                    &&& same_device_resources(*old(self), *final(self))
                    &&& same_device_frame(*old(self), *final(self))
                    &&& final(self).swap_frame == old(self).swap_frame
                }
            }),
    {
        let va = render_state.vertex_array;
        let ghost va_model = va.model();
        let buffer_count = va.vertex_buffers.len();

        let mut vertex_slices: Vec<BufferSlice> = Vec::new();
        let mut i: usize = 0;
        while i < buffer_count
            invariant
                i <= buffer_count,
                buffer_count == va.vertex_buffers@.len(),
                va_model == va.model(),
                va_model == render_state.vertex_array.model(),
                *self == *old(self),
                old(self).wf(),
                old(self).valid_vertex_array(va_model),
                vertex_slices@.len() == i,
                forall|j: int|
                    0 <= j < i ==> (#[trigger] self.buffers@[va_model.vertex_buffers[j].buffer.slot as int]).is_init(),
                forall|j: int|
                    0 <= j < i ==> #[trigger] vertex_slices@[j] == BufferSlice::spec_of_storage(
                        self.buffers@[va_model.vertex_buffers[j].buffer.slot as int].value(),
                    ),
            decreases buffer_count - i,
        {
            proof {
                assert(va_model.vertex_buffers[i as int] == va.vertex_buffers@[i as int].model());
            }
            let slot = va.vertex_buffers[i].buffer.slot;
            if !self.buffers[slot].is_initialized() {
                proof {
                    assert(!self.buffers@[va_model.vertex_buffers[i as int].buffer.slot as int].is_init());
                    assert(!self.spec_vertex_buffers_allocated(va_model));
                }
                return Err(GpuError::BufferNotAllocated);
            }
            let storage = self.buffers[slot].assume_init();
            vertex_slices.push(BufferSlice::of_storage(storage));
            i = i + 1;
        }
        proof {
            assert(old(self).spec_vertex_buffers_allocated(va_model));
            assert(vertex_slices@ =~= old(self).spec_vertex_slices(va_model));
        }

        let index_slice = match &va.index_buffer {
            None => {
                return Err(GpuError::IndexBufferMissing);
            },
            Some(index_buffer) => {
                if !self.buffers[index_buffer.slot].is_initialized() {
                    return Err(GpuError::BufferNotAllocated);
                }
                BufferSlice::of_storage(self.buffers[index_buffer.slot].assume_init())
            },
        };

        let mut layouts: Vec<VertexBufferLayout> = Vec::new();
        let mut i: usize = 0;
        while i < buffer_count
            invariant
                i <= buffer_count,
                buffer_count == va.vertex_buffers@.len(),
                va_model == va.model(),
                va_model == render_state.vertex_array.model(),
                layouts@.len() == i,
                forall|j: int|
                    0 <= j < i ==> {
                        let layout = #[trigger] layouts@[j];
                        let binding = va_model.vertex_buffers[j];
                        &&& layout.stride == binding.stride
                        &&& layout.step_mode == binding.step_mode
                        &&& layout.attributes@ == binding.attributes
                    },
            decreases buffer_count - i,
        {
            proof {
                assert(va_model.vertex_buffers[i as int] == va.vertex_buffers@[i as int].model());
            }
            let binding = &va.vertex_buffers[i];
            let attributes = clone_attribute_list(&binding.attributes);
            layouts.push(
                VertexBufferLayout { stride: binding.stride, step_mode: binding.step_mode, attributes },
            );
            i = i + 1;
        }

        let (view, color_format) = match &render_state.target {
            RenderTarget::Default => (
                AttachmentView::SwapChain { frame: self.swap_frame },
                NativeTextureFormat::Rgba8Unorm,
            ),
            RenderTarget::Framebuffer(fb) => {
                let texture = &self.textures[fb.0.index];
                (
                    AttachmentView::TextureView { texture: texture.id },
                    texture_format_to_wgpu(texture.format),
                )
            },
        };

        let pipeline = RenderPipelineDescriptor {
            vertex_module: render_state.program.vertex_shader.module,
            fragment_module: render_state.program.fragment_shader.module,
            front_face: FrontFace::Cw,
            cull_mode: CullMode::NoCulling,
            primitive_topology: primitive_topology(render_state.primitive),
            color_state: build_color_state(color_format, &render_state.options),
            depth_stencil_state: build_depth_stencil_state(&render_state.options),
            index_format: IndexFormat::Uint32,
            vertex_buffers: layouts,
            sample_count: 1,
        };
        let render_pass = RenderPassDescriptor {
            color_attachment: build_color_attachment(view, &render_state.options.clear_ops),
            depth_stencil_attachment: match &render_state.target {
                RenderTarget::Default => Some(
                    build_depth_stencil_attachment(
                        self.main_depth_stencil_texture,
                        &render_state.options.clear_ops,
                    ),
                ),
                RenderTarget::Framebuffer(_) => None,
            },
        };
        self.stream.push_command(
            GpuCommand::DrawIndexed {
                pipeline,
                render_pass,
                viewport: render_state.viewport,
                vertex_buffers: vertex_slices,
                index_buffer: index_slice,
                index_count,
                instance_count,
            },
        );
        Ok(())
    }
}

/// Capabilities the adapter deliberately does not provide.  Each fails
/// explicitly with the distinct `Unimplemented` value — never a silent
/// no-op — so that calling code can tell "not supported" from "broken".
impl WebGpuDevice {
    /// Compute programs are an unimplemented capability.
    pub fn set_compute_program_local_size(
        &self,
        program: &mut WebGpuProgram,
        _local_size: ComputeDimensions,
    ) -> (r: Result<(), GpuError>)
        ensures
            r == Err::<(), GpuError>(GpuError::Unimplemented),
            *final(program) == *old(program),
    {
        Err(GpuError::Unimplemented)
    }

    /// Texture binding resolution is an unimplemented capability.
    pub fn get_texture_parameter(&self, _program: &WebGpuProgram, _name: &str) -> (r: Result<
        (),
        GpuError,
    >)
        ensures
            r == Err::<(), GpuError>(GpuError::Unimplemented),
    {
        Err(GpuError::Unimplemented)
    }

    /// Image binding resolution is an unimplemented capability.
    pub fn get_image_parameter(&self, _program: &WebGpuProgram, _name: &str) -> (r: Result<
        (),
        GpuError,
    >)
        ensures
            r == Err::<(), GpuError>(GpuError::Unimplemented),
    {
        Err(GpuError::Unimplemented)
    }

    /// Storage-buffer binding resolution is an unimplemented capability.
    pub fn get_storage_buffer(
        &self,
        _program: &WebGpuProgram,
        _name: &str,
        _binding: u32,
    ) -> (r: Result<(), GpuError>)
        ensures
            r == Err::<(), GpuError>(GpuError::Unimplemented),
    {
        Err(GpuError::Unimplemented)
    }

    /// Partial buffer upload is an unimplemented capability.
    pub fn upload_to_buffer(
        &self,
        _buffer: &WebGpuBuffer,
        _position: usize,
        _data: &Vec<u8>,
        _target: BufferTarget,
    ) -> (r: Result<(), GpuError>)
        ensures
            r == Err::<(), GpuError>(GpuError::Unimplemented),
    {
        Err(GpuError::Unimplemented)
    }

    /// Unwrapping a framebuffer back into its texture is an unimplemented
    /// capability.
    pub fn destroy_framebuffer(&self, _framebuffer: WebGpuFramebuffer) -> (r: Result<
        WebGpuTexture,
        GpuError,
    >)
        ensures
            r == Err::<WebGpuTexture, GpuError>(GpuError::Unimplemented),
    {
        Err(GpuError::Unimplemented)
    }

    /// Readback is an unimplemented capability.
    pub fn read_pixels(&self, _target: &RenderTarget, _viewport: RectI) -> (r: Result<
        WebGpuTextureDataReceiver,
        GpuError,
    >)
        ensures
            r == Err::<WebGpuTextureDataReceiver, GpuError>(GpuError::Unimplemented),
    {
        Err(GpuError::Unimplemented)
    }

    /// Non-indexed draws are an unimplemented capability.
    pub fn draw_arrays<'a>(&self, _index_count: u32, _render_state: &RenderState<'a>) -> (r:
        Result<(), GpuError>)
        ensures
            r == Err::<(), GpuError>(GpuError::Unimplemented),
    {
        Err(GpuError::Unimplemented)
    }

    /// Non-instanced indexed draws are an unimplemented capability.
    pub fn draw_elements<'a>(&self, _index_count: u32, _render_state: &RenderState<'a>) -> (r:
        Result<(), GpuError>)
        ensures
            r == Err::<(), GpuError>(GpuError::Unimplemented),
    {
        Err(GpuError::Unimplemented)
    }

    /// Compute dispatch is an unimplemented capability.
    pub fn dispatch_compute(&self, _dimensions: ComputeDimensions) -> (r: Result<(), GpuError>)
        ensures
            r == Err::<(), GpuError>(GpuError::Unimplemented),
    {
        Err(GpuError::Unimplemented)
    }

    /// Fences are an unimplemented capability.
    pub fn add_fence(&self) -> (r: Result<(), GpuError>)
        ensures
            r == Err::<(), GpuError>(GpuError::Unimplemented),
    {
        Err(GpuError::Unimplemented)
    }

    /// Fences are an unimplemented capability.
    pub fn wait_for_fence(&self) -> (r: Result<(), GpuError>)
        ensures
            r == Err::<(), GpuError>(GpuError::Unimplemented),
    {
        Err(GpuError::Unimplemented)
    }

    /// A timer-query handle; running one is an unimplemented capability.
    pub fn create_timer_query(&self) -> WebGpuTimerQuery {
        WebGpuTimerQuery {  }
    }

    /// Timer queries are an unimplemented capability.
    pub fn begin_timer_query(&self, _query: &WebGpuTimerQuery) -> (r: Result<(), GpuError>)
        ensures
            r == Err::<(), GpuError>(GpuError::Unimplemented),
    {
        Err(GpuError::Unimplemented)
    }

    /// Timer queries are an unimplemented capability.
    pub fn end_timer_query(&self, _query: &WebGpuTimerQuery) -> (r: Result<(), GpuError>)
        ensures
            r == Err::<(), GpuError>(GpuError::Unimplemented),
    {
        Err(GpuError::Unimplemented)
    }

    /// Timer queries are an unimplemented capability; a result in
    /// nanoseconds could never arrive.
    pub fn try_recv_timer_query(&self, _query: &WebGpuTimerQuery) -> (r: Result<
        Option<u64>,
        GpuError,
    >)
        ensures
            r == Err::<Option<u64>, GpuError>(GpuError::Unimplemented),
    {
        Err(GpuError::Unimplemented)
    }

    /// Timer queries are an unimplemented capability.
    pub fn recv_timer_query(&self, _query: &WebGpuTimerQuery) -> (r: Result<u64, GpuError>)
        ensures
            r == Err::<u64, GpuError>(GpuError::Unimplemented),
    {
        Err(GpuError::Unimplemented)
    }

    /// Readback is an unimplemented capability.
    pub fn try_recv_texture_data(&self, _receiver: &WebGpuTextureDataReceiver) -> (r: Result<
        Option<TextureData>,
        GpuError,
    >)
        ensures
            r == Err::<Option<TextureData>, GpuError>(GpuError::Unimplemented),
    {
        Err(GpuError::Unimplemented)
    }

    /// Readback is an unimplemented capability.
    pub fn recv_texture_data(&self, _receiver: &WebGpuTextureDataReceiver) -> (r: Result<
        TextureData,
        GpuError,
    >)
        ensures
            r == Err::<TextureData, GpuError>(GpuError::Unimplemented),
    {
        Err(GpuError::Unimplemented)
    }
}

} // verus!
