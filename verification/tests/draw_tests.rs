//! Draw synthesis and the end-to-end frame scenario.

use webgpu::buffer::{BufferData, BufferTarget, BufferUploadMode};
use webgpu::device::{RenderState, RenderTarget, WebGpuDevice};
use webgpu::error::GpuError;
use webgpu::formats::{NativeTextureFormat, TextureFormat, VertexAttrClass, VertexAttrType, VertexFormat};
use webgpu::geom::{RectI, Vector2I};
use webgpu::options::{ClearOps, ColorBits, DepthFunc, DepthState, FloatBits, Primitive, RenderOptions, StencilFunc, StencilState};
use webgpu::pipeline::{
    AttachmentView, CullMode, FrontFace, IndexFormat, InputStepMode, LoadOp, PrimitiveTopology,
    StencilOperation,
};
use webgpu::sampling::CompareFunction;
use webgpu::shader::{ProgramKind, ShaderKind, WebGpuProgram};
use webgpu::stream::{GpuCommand, Recording};
use webgpu::vertex_array::{VertexAttrDescriptor, WebGpuVertexAttr};

fn raster_program(device: &mut WebGpuDevice) -> WebGpuProgram {
    let reflected = vec![("aPos".to_string(), 0u32)];
    let vertex = device
        .create_shader_from_source("tiny", &[0, 0, 0, 0], ShaderKind::Vertex, &reflected)
        .unwrap();
    let fragment = device
        .create_shader_from_source("frag", &[0, 0, 0, 0], ShaderKind::Fragment, &Vec::new())
        .unwrap();
    device
        .create_program_from_shaders("prog", ProgramKind::Raster { vertex, fragment })
        .unwrap()
}

fn count_draws(submission: &[Recording]) -> usize {
    submission
        .iter()
        .flat_map(|recording| recording.commands.iter())
        .filter(|command| matches!(command, GpuCommand::DrawIndexed { .. }))
        .count()
}

#[test]
fn end_to_end_frame() {
    // Construct the device; one (initialization) recording is open.
    let mut device = WebGpuDevice::new(Vector2I::new(640, 480));
    let program = raster_program(&mut device);

    // A vertex buffer with 4 vertices of 2 floats each (32 bytes), bound
    // to slot 0 with a float-pair attribute at shader location 0.
    let vertex_buffer = device.create_buffer(BufferUploadMode::Static);
    device.allocate_buffer(&vertex_buffer, &BufferData::Memory(vec![0u8; 32]), BufferTarget::Vertex);
    let mut va = device.create_vertex_array();
    device.bind_buffer(&mut va, &vertex_buffer, BufferTarget::Vertex).unwrap();
    let attr = device.get_vertex_attr(&program, "Pos").unwrap();
    let descriptor = VertexAttrDescriptor {
        size: 2,
        class: VertexAttrClass::Float,
        attr_type: VertexAttrType::F32,
        stride: 8,
        offset: 0,
        divisor: 0,
        buffer_index: 0,
    };
    device.configure_vertex_attr(&mut va, &attr, &descriptor).unwrap();

    // An index buffer with 6 32-bit indices describing two triangles.
    let index_buffer = device.create_buffer(BufferUploadMode::Static);
    device.allocate_buffer(&index_buffer, &BufferData::Memory(vec![0u8; 24]), BufferTarget::Index);
    device.bind_buffer(&mut va, &index_buffer, BufferTarget::Index).unwrap();

    // Begin the frame: the initialization recording is finished and a
    // fresh one opened for the frame's draws.
    device.begin_commands();

    let options = RenderOptions {
        blend: None,
        depth: None,
        stencil: None,
        clear_ops: ClearOps {
            color: Some(ColorBits {
                r: FloatBits { bits: 0 },
                g: FloatBits { bits: 0 },
                b: FloatBits { bits: 0 },
                a: FloatBits { bits: 0x3f80_0000 },
            }),
            depth: None,
            stencil: None,
        },
        color_mask: true,
    };
    let state = RenderState {
        target: RenderTarget::Default,
        program: &program,
        vertex_array: &va,
        primitive: Primitive::Triangles,
        viewport: RectI::new(Vector2I::zero(), Vector2I::new(640, 480)),
        options,
    };
    device.draw_elements_instanced(6, 1, &state).unwrap();

    let submission = device.end_frame();

    // The initialization recording comes first, then the frame's.
    assert_eq!(submission.len(), 2);
    assert!(submission[0].commands.is_empty());
    assert_eq!(submission[1].commands.len(), 1);
    // Exactly one pipeline was synthesized.
    assert_eq!(count_draws(&submission), 1);

    match &submission[1].commands[0] {
        GpuCommand::DrawIndexed {
            pipeline,
            render_pass,
            viewport,
            vertex_buffers,
            index_buffer: bound_index,
            index_count,
            instance_count,
        } => {
            assert_eq!(*index_count, 6);
            assert_eq!(*instance_count, 1);
            assert_eq!(viewport.size, Vector2I::new(640, 480));

            assert_eq!(pipeline.vertex_module, program.vertex_shader.module);
            assert_eq!(pipeline.fragment_module, program.fragment_shader.module);
            assert_eq!(pipeline.front_face, FrontFace::Cw);
            assert_eq!(pipeline.cull_mode, CullMode::NoCulling);
            assert_eq!(pipeline.primitive_topology, PrimitiveTopology::TriangleList);
            assert_eq!(pipeline.index_format, IndexFormat::Uint32);
            assert_eq!(pipeline.sample_count, 1);
            assert_eq!(pipeline.color_state.format, NativeTextureFormat::Rgba8Unorm);
            assert!(pipeline.color_state.write_mask_all);
            // No blend state given: opaque replace on both channel groups.
            assert_eq!(
                pipeline.color_state.color_blend.src_factor,
                webgpu::pipeline::NativeBlendFactor::One
            );
            assert_eq!(
                pipeline.color_state.color_blend.dst_factor,
                webgpu::pipeline::NativeBlendFactor::Zero
            );
            assert_eq!(pipeline.color_state.alpha_blend, pipeline.color_state.color_blend);
            assert!(pipeline.depth_stencil_state.is_none());

            assert_eq!(pipeline.vertex_buffers.len(), 1);
            let layout = &pipeline.vertex_buffers[0];
            assert_eq!(layout.stride, 8);
            assert_eq!(layout.step_mode, InputStepMode::Vertex);
            assert_eq!(layout.attributes.len(), 1);
            assert_eq!(layout.attributes[0].format, VertexFormat::Float2);
            assert_eq!(layout.attributes[0].offset, 0);
            assert_eq!(layout.attributes[0].shader_location, 0);

            // One render pass: clear-load color over the swap frame, and
            // the persistent depth/stencil attachment preserved.
            assert_eq!(render_pass.color_attachment.load_op, LoadOp::Clear);
            assert_eq!(render_pass.color_attachment.view, AttachmentView::SwapChain { frame: 0 });
            assert_eq!(render_pass.color_attachment.clear_color.a.bits, 0x3f80_0000);
            let depth = render_pass.depth_stencil_attachment.unwrap();
            assert_eq!(depth.depth_load_op, LoadOp::Load);
            assert_eq!(depth.stencil_load_op, LoadOp::Load);

            assert_eq!(vertex_buffers.len(), 1);
            assert_eq!(vertex_buffers[0].size, 32);
            assert_eq!(bound_index.size, 24);
        }
        GpuCommand::CopyBufferToTexture { .. } => panic!("expected a draw"),
    }

    // Afterward exactly one empty recording remains open.
    assert!(device.stream.pending.is_empty());
    assert!(device.stream.current.commands.is_empty());
    assert_eq!(device.swap_frame, 1);
}

#[test]
fn draw_without_index_buffer_is_fatal() {
    let mut device = WebGpuDevice::new(Vector2I::new(64, 64));
    let program = raster_program(&mut device);
    let vertex_buffer = device.create_buffer(BufferUploadMode::Static);
    device.allocate_buffer(&vertex_buffer, &BufferData::Uninitialized(32), BufferTarget::Vertex);
    let mut va = device.create_vertex_array();
    device.bind_buffer(&mut va, &vertex_buffer, BufferTarget::Vertex).unwrap();

    let state = RenderState {
        target: RenderTarget::Default,
        program: &program,
        vertex_array: &va,
        primitive: Primitive::Triangles,
        viewport: RectI::new(Vector2I::zero(), Vector2I::new(64, 64)),
        options: RenderOptions::plain(),
    };
    let r = device.draw_elements_instanced(3, 1, &state);
    assert_eq!(r.unwrap_err(), GpuError::IndexBufferMissing);
    assert!(device.stream.current.commands.is_empty());
}

#[test]
fn drawing_an_unallocated_buffer_is_fatal() {
    let mut device = WebGpuDevice::new(Vector2I::new(64, 64));
    let program = raster_program(&mut device);
    let vertex_buffer = device.create_buffer(BufferUploadMode::Static);
    let index_buffer = device.create_buffer(BufferUploadMode::Static);
    let mut va = device.create_vertex_array();
    device.bind_buffer(&mut va, &vertex_buffer, BufferTarget::Vertex).unwrap();
    device.bind_buffer(&mut va, &index_buffer, BufferTarget::Index).unwrap();

    let state = RenderState {
        target: RenderTarget::Default,
        program: &program,
        vertex_array: &va,
        primitive: Primitive::Triangles,
        viewport: RectI::new(Vector2I::zero(), Vector2I::new(64, 64)),
        options: RenderOptions::plain(),
    };
    // The vertex buffer was never allocated.
    let r = device.draw_elements_instanced(3, 1, &state);
    assert_eq!(r.unwrap_err(), GpuError::BufferNotAllocated);

    // Allocate the vertex buffer; the index buffer is still unallocated.
    device.allocate_buffer(&vertex_buffer, &BufferData::Uninitialized(32), BufferTarget::Vertex);
    let state = RenderState {
        target: RenderTarget::Default,
        program: &program,
        vertex_array: &va,
        primitive: Primitive::Triangles,
        viewport: RectI::new(Vector2I::zero(), Vector2I::new(64, 64)),
        options: RenderOptions::plain(),
    };
    let r = device.draw_elements_instanced(3, 1, &state);
    assert_eq!(r.unwrap_err(), GpuError::BufferNotAllocated);
    assert!(device.stream.current.commands.is_empty());
}

#[test]
fn framebuffer_draws_use_the_texture_format_and_skip_depth() {
    let mut device = WebGpuDevice::new(Vector2I::new(64, 64));
    let program = raster_program(&mut device);
    let vertex_buffer = device.create_buffer(BufferUploadMode::Static);
    device.allocate_buffer(&vertex_buffer, &BufferData::Uninitialized(32), BufferTarget::Vertex);
    let index_buffer = device.create_buffer(BufferUploadMode::Static);
    device.allocate_buffer(&index_buffer, &BufferData::Uninitialized(24), BufferTarget::Index);
    let mut va = device.create_vertex_array();
    device.bind_buffer(&mut va, &vertex_buffer, BufferTarget::Vertex).unwrap();
    device.bind_buffer(&mut va, &index_buffer, BufferTarget::Index).unwrap();

    let texture = device.create_texture(TextureFormat::RGBA16F, Vector2I::new(32, 32)).unwrap();
    let texture_id = device.textures[texture.index].id;
    let framebuffer = device.create_framebuffer(texture);

    let state = RenderState {
        target: RenderTarget::Framebuffer(framebuffer),
        program: &program,
        vertex_array: &va,
        primitive: Primitive::Lines,
        viewport: RectI::new(Vector2I::zero(), Vector2I::new(32, 32)),
        options: RenderOptions::plain(),
    };
    device.draw_elements_instanced(6, 2, &state).unwrap();

    match &device.stream.current.commands[0] {
        GpuCommand::DrawIndexed { pipeline, render_pass, instance_count, .. } => {
            assert_eq!(*instance_count, 2);
            assert_eq!(pipeline.color_state.format, NativeTextureFormat::Rgba16Float);
            assert_eq!(pipeline.primitive_topology, PrimitiveTopology::LineList);
            assert_eq!(
                render_pass.color_attachment.view,
                AttachmentView::TextureView { texture: texture_id }
            );
            assert_eq!(render_pass.color_attachment.load_op, LoadOp::Load);
            assert!(render_pass.depth_stencil_attachment.is_none());
        }
        GpuCommand::CopyBufferToTexture { .. } => panic!("expected a draw"),
    }
}

#[test]
fn identical_draws_rebuild_the_pipeline_each_time() {
    let mut device = WebGpuDevice::new(Vector2I::new(64, 64));
    let program = raster_program(&mut device);
    let vertex_buffer = device.create_buffer(BufferUploadMode::Static);
    device.allocate_buffer(&vertex_buffer, &BufferData::Uninitialized(32), BufferTarget::Vertex);
    let index_buffer = device.create_buffer(BufferUploadMode::Static);
    device.allocate_buffer(&index_buffer, &BufferData::Uninitialized(24), BufferTarget::Index);
    let mut va = device.create_vertex_array();
    device.bind_buffer(&mut va, &vertex_buffer, BufferTarget::Vertex).unwrap();
    device.bind_buffer(&mut va, &index_buffer, BufferTarget::Index).unwrap();

    for _ in 0..2 {
        let state = RenderState {
            target: RenderTarget::Default,
            program: &program,
            vertex_array: &va,
            primitive: Primitive::Triangles,
            viewport: RectI::new(Vector2I::zero(), Vector2I::new(64, 64)),
            options: RenderOptions::plain(),
        };
        device.draw_elements_instanced(6, 1, &state).unwrap();
    }
    assert_eq!(device.stream.current.commands.len(), 2);
    for command in &device.stream.current.commands {
        match command {
            GpuCommand::DrawIndexed { pipeline, .. } => {
                assert_eq!(pipeline.vertex_module, program.vertex_shader.module);
            }
            GpuCommand::CopyBufferToTexture { .. } => panic!("expected draws"),
        }
    }
}

#[test]
fn depth_and_stencil_options_synthesize_a_combined_state() {
    let mut device = WebGpuDevice::new(Vector2I::new(64, 64));
    let program = raster_program(&mut device);
    let vertex_buffer = device.create_buffer(BufferUploadMode::Static);
    device.allocate_buffer(&vertex_buffer, &BufferData::Uninitialized(32), BufferTarget::Vertex);
    let index_buffer = device.create_buffer(BufferUploadMode::Static);
    device.allocate_buffer(&index_buffer, &BufferData::Uninitialized(24), BufferTarget::Index);
    let mut va = device.create_vertex_array();
    device.bind_buffer(&mut va, &vertex_buffer, BufferTarget::Vertex).unwrap();
    device.bind_buffer(&mut va, &index_buffer, BufferTarget::Index).unwrap();

    let options = RenderOptions {
        blend: None,
        depth: Some(DepthState { func: DepthFunc::Less, write: true }),
        stencil: Some(StencilState { func: StencilFunc::Equal, reference: 7, mask: 0xff, write: true }),
        clear_ops: ClearOps { color: None, depth: None, stencil: None },
        color_mask: true,
    };
    let state = RenderState {
        target: RenderTarget::Default,
        program: &program,
        vertex_array: &va,
        primitive: Primitive::Triangles,
        viewport: RectI::new(Vector2I::zero(), Vector2I::new(64, 64)),
        options,
    };
    device.draw_elements_instanced(6, 1, &state).unwrap();

    match &device.stream.current.commands[0] {
        GpuCommand::DrawIndexed { pipeline, .. } => {
            let ds = pipeline.depth_stencil_state.unwrap();
            assert_eq!(ds.format, NativeTextureFormat::Depth24PlusStencil8);
            assert!(ds.depth_write_enabled);
            assert_eq!(ds.depth_compare, CompareFunction::Less);
            assert_eq!(ds.stencil_front.compare, CompareFunction::Equal);
            assert_eq!(ds.stencil_front.pass_op, StencilOperation::Replace);
            assert_eq!(ds.stencil_front, ds.stencil_back);
            assert_eq!(ds.stencil_read_mask, 7);
            assert_eq!(ds.stencil_write_mask, 0xff);
        }
        GpuCommand::CopyBufferToTexture { .. } => panic!("expected a draw"),
    }
}

#[test]
fn absent_depth_options_with_stencil_use_the_conservative_defaults() {
    let mut device = WebGpuDevice::new(Vector2I::new(64, 64));
    let program = raster_program(&mut device);
    let vertex_buffer = device.create_buffer(BufferUploadMode::Static);
    device.allocate_buffer(&vertex_buffer, &BufferData::Uninitialized(32), BufferTarget::Vertex);
    let index_buffer = device.create_buffer(BufferUploadMode::Static);
    device.allocate_buffer(&index_buffer, &BufferData::Uninitialized(24), BufferTarget::Index);
    let mut va = device.create_vertex_array();
    device.bind_buffer(&mut va, &vertex_buffer, BufferTarget::Vertex).unwrap();
    device.bind_buffer(&mut va, &index_buffer, BufferTarget::Index).unwrap();

    let options = RenderOptions {
        blend: None,
        depth: None,
        stencil: Some(StencilState { func: StencilFunc::Always, reference: 1, mask: 1, write: false }),
        clear_ops: ClearOps { color: None, depth: None, stencil: None },
        color_mask: false,
    };
    let state = RenderState {
        target: RenderTarget::Default,
        program: &program,
        vertex_array: &va,
        primitive: Primitive::Triangles,
        viewport: RectI::new(Vector2I::zero(), Vector2I::new(64, 64)),
        options,
    };
    device.draw_elements_instanced(6, 1, &state).unwrap();

    match &device.stream.current.commands[0] {
        GpuCommand::DrawIndexed { pipeline, .. } => {
            assert!(!pipeline.color_state.write_mask_all);
            let ds = pipeline.depth_stencil_state.unwrap();
            // Depth options absent: the test never passes and never writes.
            assert!(!ds.depth_write_enabled);
            assert_eq!(ds.depth_compare, CompareFunction::Never);
            // Stencil write off: the pass operation keeps.
            assert_eq!(ds.stencil_front.pass_op, StencilOperation::Keep);
        }
        GpuCommand::CopyBufferToTexture { .. } => panic!("expected a draw"),
    }
}

#[test]
fn each_frame_targets_the_next_swap_view() {
    let mut device = WebGpuDevice::new(Vector2I::new(64, 64));
    let program = raster_program(&mut device);
    let vertex_buffer = device.create_buffer(BufferUploadMode::Static);
    device.allocate_buffer(&vertex_buffer, &BufferData::Uninitialized(32), BufferTarget::Vertex);
    let index_buffer = device.create_buffer(BufferUploadMode::Static);
    device.allocate_buffer(&index_buffer, &BufferData::Uninitialized(24), BufferTarget::Index);
    let mut va = device.create_vertex_array();
    device.bind_buffer(&mut va, &vertex_buffer, BufferTarget::Vertex).unwrap();
    device.bind_buffer(&mut va, &index_buffer, BufferTarget::Index).unwrap();

    for expected_frame in 0u64..3 {
        let state = RenderState {
            target: RenderTarget::Default,
            program: &program,
            vertex_array: &va,
            primitive: Primitive::Triangles,
            viewport: RectI::new(Vector2I::zero(), Vector2I::new(64, 64)),
            options: RenderOptions::plain(),
        };
        device.draw_elements_instanced(3, 1, &state).unwrap();
        match device.stream.current.commands.last().unwrap() {
            GpuCommand::DrawIndexed { render_pass, .. } => {
                assert_eq!(
                    render_pass.color_attachment.view,
                    AttachmentView::SwapChain { frame: expected_frame }
                );
            }
            GpuCommand::CopyBufferToTexture { .. } => panic!("expected a draw"),
        }
        let _ = device.end_frame();
    }
    assert_eq!(device.swap_frame, 3);
}
