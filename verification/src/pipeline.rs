//! Native pipeline and render-pass descriptions, and their synthesis.
//!
//! A draw call supplies only a small immediate-mode state record; the
//! native API wants a fully-specified pipeline object.  The functions here
//! derive the fixed-function parts of that object — blend equations,
//! color-write mask, depth/stencil state, attachment load operations —
//! from the state record, field by field.  Absent blend state means opaque
//! "replace" blending; absent depth or stencil options mean a test that
//! always fails and never writes.

use crate::formats::{NativeTextureFormat, VertexFormat};
use crate::geom::RectI;
use crate::options::{
    BlendFactor, BlendOp, BlendState, ClearOps, ColorBits, DepthFunc, Primitive, RenderOptions,
    StencilFunc, spec_transparent_color,
};
use crate::sampling::CompareFunction;
use vstd::prelude::*;

verus! {

/// Whether a vertex buffer advances per vertex or per instance.
#[derive(Debug, Clone, Copy, PartialEq, Eq, Structural)]
pub enum InputStepMode {
    Vertex,
    Instance,
}

/// One native vertex attribute within a buffer layout.
#[derive(Debug, Clone, Copy, PartialEq, Eq, Structural)]
pub struct VertexAttributeDescriptor {
    pub offset: u64,
    pub format: VertexFormat,
    pub shader_location: u32,
}

/// The native layout of one bound vertex buffer.
#[derive(Debug)]
pub struct VertexBufferLayout {
    pub stride: u64,
    pub step_mode: InputStepMode,
    pub attributes: Vec<VertexAttributeDescriptor>,
}

/// The native primitive topology.
#[derive(Debug, Clone, Copy, PartialEq, Eq, Structural)]
pub enum PrimitiveTopology {
    TriangleList,
    LineList,
}

/// Winding order of front faces.
#[derive(Debug, Clone, Copy, PartialEq, Eq, Structural)]
pub enum FrontFace {
    Ccw,
    Cw,
}

/// Which faces are culled.
#[derive(Debug, Clone, Copy, PartialEq, Eq, Structural)]
pub enum CullMode {
    NoCulling,
    Front,
    Back,
}

/// The native index element type.
#[derive(Debug, Clone, Copy, PartialEq, Eq, Structural)]
pub enum IndexFormat {
    Uint16,
    Uint32,
}

/// The native blend factor enumeration, restricted to what the adapter
/// produces.
#[derive(Debug, Clone, Copy, PartialEq, Eq, Structural)]
pub enum NativeBlendFactor {
    Zero,
    One,
    SrcAlpha,
    OneMinusSrcAlpha,
    DstAlpha,
    OneMinusDstAlpha,
    DstColor,
}

/// The native blend equation operator.
#[derive(Debug, Clone, Copy, PartialEq, Eq, Structural)]
pub enum BlendOperation {
    Add,
    Subtract,
    ReverseSubtract,
    Min,
    Max,
}

/// A native blend equation for one channel group.
#[derive(Debug, Clone, Copy, PartialEq, Eq, Structural)]
pub struct BlendDescriptor {
    pub src_factor: NativeBlendFactor,
    pub dst_factor: NativeBlendFactor,
    pub operation: BlendOperation,
}

/// The native color target state.
#[derive(Debug, Clone, Copy, PartialEq, Eq, Structural)]
pub struct ColorStateDescriptor {
    pub format: NativeTextureFormat,
    pub color_blend: BlendDescriptor,
    pub alpha_blend: BlendDescriptor,
    /// Whether all color channels are written (the interface only offers
    /// all-or-nothing).
    pub write_mask_all: bool,
}

/// A native stencil operation.
#[derive(Debug, Clone, Copy, PartialEq, Eq, Structural)]
pub enum StencilOperation {
    Keep,
    Replace,
}

/// The native per-face stencil state.
#[derive(Debug, Clone, Copy, PartialEq, Eq, Structural)]
pub struct StencilStateFaceDescriptor {
    pub compare: CompareFunction,
    pub fail_op: StencilOperation,
    pub depth_fail_op: StencilOperation,
    pub pass_op: StencilOperation,
}

/// The native combined depth/stencil state.
#[derive(Debug, Clone, Copy, PartialEq, Eq, Structural)]
pub struct DepthStencilStateDescriptor {
    pub format: NativeTextureFormat,
    pub depth_write_enabled: bool,
    pub depth_compare: CompareFunction,
    pub stencil_front: StencilStateFaceDescriptor,
    pub stencil_back: StencilStateFaceDescriptor,
    pub stencil_read_mask: u32,
    pub stencil_write_mask: u32,
}

/// A complete one-shot native pipeline description, rebuilt for every
/// draw.  Shader modules are named by their resource identifiers.
#[derive(Debug)]
pub struct RenderPipelineDescriptor {
    pub vertex_module: u64,
    pub fragment_module: u64,
    pub front_face: FrontFace,
    pub cull_mode: CullMode,
    pub primitive_topology: PrimitiveTopology,
    pub color_state: ColorStateDescriptor,
    pub depth_stencil_state: Option<DepthStencilStateDescriptor>,
    pub index_format: IndexFormat,
    pub vertex_buffers: Vec<VertexBufferLayout>,
    pub sample_count: u32,
}

/// Whether an attachment is cleared or its contents preserved at the start
/// of a render pass.
#[derive(Debug, Clone, Copy, PartialEq, Eq, Structural)]
pub enum LoadOp {
    Clear,
    Load,
}

/// What happens to an attachment's contents at the end of a render pass.
#[derive(Debug, Clone, Copy, PartialEq, Eq, Structural)]
pub enum StoreOp {
    Store,
}

/// The image a render pass draws into: the current swap-chain frame or a
/// framebuffer texture, named by its resource identifier.
#[derive(Debug, Clone, Copy, PartialEq, Eq, Structural)]
pub enum AttachmentView {
    SwapChain { frame: u64 },
    TextureView { texture: u64 },
}

/// The color attachment of a render pass.
#[derive(Debug, Clone, Copy, PartialEq, Eq, Structural)]
pub struct ColorAttachment {
    pub view: AttachmentView,
    pub load_op: LoadOp,
    pub store_op: StoreOp,
    pub clear_color: ColorBits,
}

/// The depth/stencil attachment of a render pass, over the device's single
/// persistent depth/stencil texture.
#[derive(Debug, Clone, Copy, PartialEq, Eq, Structural)]
pub struct DepthStencilAttachment {
    pub attachment: u64,
    pub depth_load_op: LoadOp,
    pub depth_store_op: StoreOp,
    pub clear_depth: crate::options::FloatBits,
    pub stencil_load_op: LoadOp,
    pub stencil_store_op: StoreOp,
    pub clear_stencil: u32,
}

/// A complete one-shot render-pass description.
#[derive(Debug, Clone, Copy, PartialEq, Eq, Structural)]
pub struct RenderPassDescriptor {
    pub color_attachment: ColorAttachment,
    pub depth_stencil_attachment: Option<DepthStencilAttachment>,
}

/// The native blend factor for each generic factor.
pub open spec fn spec_blend_factor_to_wgpu(factor: BlendFactor) -> NativeBlendFactor {
    match factor {
        BlendFactor::Zero => NativeBlendFactor::Zero,
        BlendFactor::One => NativeBlendFactor::One,
        BlendFactor::SrcAlpha => NativeBlendFactor::SrcAlpha,
        BlendFactor::OneMinusSrcAlpha => NativeBlendFactor::OneMinusSrcAlpha,
        BlendFactor::DestAlpha => NativeBlendFactor::DstAlpha,
        BlendFactor::OneMinusDestAlpha => NativeBlendFactor::OneMinusDstAlpha,
        BlendFactor::DestColor => NativeBlendFactor::DstColor,
    }
}

/// Maps a generic blend factor to the native one; total.
pub fn blend_factor_to_wgpu(factor: BlendFactor) -> (r: NativeBlendFactor)
    ensures
        r == spec_blend_factor_to_wgpu(factor),
{
    match factor {
        BlendFactor::Zero => NativeBlendFactor::Zero,
        BlendFactor::One => NativeBlendFactor::One,
        BlendFactor::SrcAlpha => NativeBlendFactor::SrcAlpha,
        BlendFactor::OneMinusSrcAlpha => NativeBlendFactor::OneMinusSrcAlpha,
        BlendFactor::DestAlpha => NativeBlendFactor::DstAlpha,
        BlendFactor::OneMinusDestAlpha => NativeBlendFactor::OneMinusDstAlpha,
        BlendFactor::DestColor => NativeBlendFactor::DstColor,
    }
}

/// The native blend operator for each generic operator.
pub open spec fn spec_blend_op_to_wgpu(op: BlendOp) -> BlendOperation {
    match op {
        BlendOp::Add => BlendOperation::Add,
        BlendOp::Subtract => BlendOperation::Subtract,
        BlendOp::ReverseSubtract => BlendOperation::ReverseSubtract,
        BlendOp::Min => BlendOperation::Min,
        BlendOp::Max => BlendOperation::Max,
    }
}

/// A native blend equation from generic factors and operator.
pub open spec fn spec_blend_descriptor(
    src_factor: BlendFactor,
    dest_factor: BlendFactor,
    op: BlendOp,
) -> BlendDescriptor {
    BlendDescriptor {
        src_factor: spec_blend_factor_to_wgpu(src_factor),
        dst_factor: spec_blend_factor_to_wgpu(dest_factor),
        operation: spec_blend_op_to_wgpu(op),
    }
}

/// Builds a native blend equation from generic factors and operator.
pub fn to_wgpu_blend_descriptor(
    src_factor: BlendFactor,
    dest_factor: BlendFactor,
    op: BlendOp,
) -> (r: BlendDescriptor)
    ensures
        r == spec_blend_descriptor(src_factor, dest_factor, op),
{
    BlendDescriptor {
        src_factor: blend_factor_to_wgpu(src_factor),
        dst_factor: blend_factor_to_wgpu(dest_factor),
        operation: match op {
            BlendOp::Add => BlendOperation::Add,
            BlendOp::Subtract => BlendOperation::Subtract,
            BlendOp::ReverseSubtract => BlendOperation::ReverseSubtract,
            BlendOp::Min => BlendOperation::Min,
            BlendOp::Max => BlendOperation::Max,
        },
    }
}

/// Opaque "replace" blending: the source value overwrites the target.
pub open spec fn spec_blend_replace() -> BlendDescriptor {
    BlendDescriptor {
        src_factor: NativeBlendFactor::One,
        dst_factor: NativeBlendFactor::Zero,
        operation: BlendOperation::Add,
    }
}

/// The color-channel blend equation of a draw: derived from the blend
/// state if one is given, opaque replace otherwise.
pub open spec fn spec_color_blend(blend: Option<BlendState>) -> BlendDescriptor {
    match blend {
        Some(b) => spec_blend_descriptor(b.src_rgb_factor, b.dest_rgb_factor, b.op),
        None => spec_blend_replace(),
    }
}

/// The alpha-channel blend equation of a draw.
pub open spec fn spec_alpha_blend(blend: Option<BlendState>) -> BlendDescriptor {
    match blend {
        Some(b) => spec_blend_descriptor(b.src_alpha_factor, b.dest_alpha_factor, b.op),
        None => spec_blend_replace(),
    }
}

/// The complete color target state of a draw.
pub open spec fn spec_color_state(
    format: NativeTextureFormat,
    options: RenderOptions,
) -> ColorStateDescriptor {
    ColorStateDescriptor {
        format,
        color_blend: spec_color_blend(options.blend),
        alpha_blend: spec_alpha_blend(options.blend),
        write_mask_all: options.color_mask,
    }
}

/// Builds the color target state of a draw.
pub fn build_color_state(format: NativeTextureFormat, options: &RenderOptions) -> (r:
    ColorStateDescriptor)
    ensures
        r == spec_color_state(format, *options),
{
    let replace = BlendDescriptor {
        src_factor: NativeBlendFactor::One,
        dst_factor: NativeBlendFactor::Zero,
        operation: BlendOperation::Add,
    };
    ColorStateDescriptor {
        format,
        color_blend: match options.blend {
            Some(b) => to_wgpu_blend_descriptor(b.src_rgb_factor, b.dest_rgb_factor, b.op),
            None => replace,
        },
        alpha_blend: match options.blend {
            Some(b) => to_wgpu_blend_descriptor(b.src_alpha_factor, b.dest_alpha_factor, b.op),
            None => replace,
        },
        write_mask_all: options.color_mask,
    }
}

/// The per-face stencil state: derived from the stencil options if given;
/// otherwise the ignore state, which never writes.
pub open spec fn spec_stencil_face(stencil: Option<crate::options::StencilState>)
    -> StencilStateFaceDescriptor {
    match stencil {
        Some(s) => StencilStateFaceDescriptor {
            compare: match s.func {
                StencilFunc::Always => CompareFunction::Always,
                StencilFunc::Equal => CompareFunction::Equal,
            },
            fail_op: StencilOperation::Keep,
            depth_fail_op: StencilOperation::Keep,
            pass_op: if s.write {
                StencilOperation::Replace
            } else {
                StencilOperation::Keep
            },
        },
        None => StencilStateFaceDescriptor {
            compare: CompareFunction::Always,
            fail_op: StencilOperation::Keep,
            depth_fail_op: StencilOperation::Keep,
            pass_op: StencilOperation::Keep,
        },
    }
}

/// The combined depth/stencil state of a draw: present exactly when depth
/// or stencil options are present.  An absent depth option compares with
/// `Never` and never writes, a deliberately conservative default.
pub open spec fn spec_depth_stencil_state(options: RenderOptions) -> Option<
    DepthStencilStateDescriptor,
> {
    if options.depth is Some || options.stencil is Some {
        Some(
            DepthStencilStateDescriptor {
                format: NativeTextureFormat::Depth24PlusStencil8,
                depth_write_enabled: match options.depth {
                    Some(d) => d.write,
                    None => false,
                },
                depth_compare: match options.depth {
                    Some(d) => match d.func {
                        DepthFunc::Less => CompareFunction::Less,
                        DepthFunc::Always => CompareFunction::Always,
                    },
                    None => CompareFunction::Never,
                },
                stencil_front: spec_stencil_face(options.stencil),
                stencil_back: spec_stencil_face(options.stencil),
                stencil_read_mask: match options.stencil {
                    Some(s) => s.reference,
                    None => 0xffff_ffff,
                },
                stencil_write_mask: match options.stencil {
                    Some(s) => s.mask,
                    None => 0,
                },
            },
        )
    } else {
        None
    }
}

/// Builds the combined depth/stencil state of a draw.
pub fn build_depth_stencil_state(options: &RenderOptions) -> (r: Option<
    DepthStencilStateDescriptor,
>)
    ensures
        r == spec_depth_stencil_state(*options),
{
    if options.depth.is_some() || options.stencil.is_some() {
        let face = match options.stencil {
            Some(s) => StencilStateFaceDescriptor {
                compare: match s.func {
                    StencilFunc::Always => CompareFunction::Always,
                    StencilFunc::Equal => CompareFunction::Equal,
                },
                fail_op: StencilOperation::Keep,
                depth_fail_op: StencilOperation::Keep,
                pass_op: if s.write {
                    StencilOperation::Replace
                } else {
                    StencilOperation::Keep
                },
            },
            None => StencilStateFaceDescriptor {
                compare: CompareFunction::Always,
                fail_op: StencilOperation::Keep,
                depth_fail_op: StencilOperation::Keep,
                pass_op: StencilOperation::Keep,
            },
        };
        Some(
            DepthStencilStateDescriptor {
                format: NativeTextureFormat::Depth24PlusStencil8,
                depth_write_enabled: match options.depth {
                    Some(d) => d.write,
                    None => false,
                },
                depth_compare: match options.depth {
                    Some(d) => match d.func {
                        DepthFunc::Less => CompareFunction::Less,
                        DepthFunc::Always => CompareFunction::Always,
                    },
                    None => CompareFunction::Never,
                },
                stencil_front: face,
                stencil_back: face,
                stencil_read_mask: match options.stencil {
                    Some(s) => s.reference,
                    None => 0xffff_ffff,
                },
                stencil_write_mask: match options.stencil {
                    Some(s) => s.mask,
                    None => 0,
                },
            },
        )
    } else {
        None
    }
}

/// The native topology for each generic primitive kind.
pub open spec fn spec_primitive_topology(primitive: Primitive) -> PrimitiveTopology {
    match primitive {
        Primitive::Triangles => PrimitiveTopology::TriangleList,
        Primitive::Lines => PrimitiveTopology::LineList,
    }
}

/// Maps a generic primitive kind to the native topology; total.
pub fn primitive_topology(primitive: Primitive) -> (r: PrimitiveTopology)
    ensures
        r == spec_primitive_topology(primitive),
{
    match primitive {
        Primitive::Triangles => PrimitiveTopology::TriangleList,
        Primitive::Lines => PrimitiveTopology::LineList,
    }
}

/// The color attachment of a draw's render pass: load is "clear" exactly
/// when a clear color was supplied, and the contents are stored.
pub open spec fn spec_color_attachment(view: AttachmentView, clear_ops: ClearOps)
    -> ColorAttachment {
    ColorAttachment {
        view,
        load_op: if clear_ops.color is Some {
            LoadOp::Clear
        } else {
            LoadOp::Load
        },
        store_op: StoreOp::Store,
        clear_color: match clear_ops.color {
            Some(c) => c,
            None => spec_transparent_color(),
        },
    }
}

/// Builds the color attachment of a draw's render pass.
pub fn build_color_attachment(view: AttachmentView, clear_ops: &ClearOps) -> (r: ColorAttachment)
    ensures
        r == spec_color_attachment(view, *clear_ops),
{
    ColorAttachment {
        view,
        load_op: if clear_ops.color.is_some() {
            LoadOp::Clear
        } else {
            LoadOp::Load
        },
        store_op: StoreOp::Store,
        clear_color: match clear_ops.color {
            Some(c) => c,
            None => ColorBits {
                r: crate::options::FloatBits { bits: 0 },
                g: crate::options::FloatBits { bits: 0 },
                b: crate::options::FloatBits { bits: 0 },
                a: crate::options::FloatBits { bits: 0 },
            },
        },
    }
}

/// The depth/stencil attachment over the device's persistent depth/stencil
/// texture: each channel's load is "clear" exactly when a clear value was
/// supplied.
pub open spec fn spec_depth_stencil_attachment(attachment: u64, clear_ops: ClearOps)
    -> DepthStencilAttachment {
    DepthStencilAttachment {
        attachment,
        depth_load_op: if clear_ops.depth is Some {
            LoadOp::Clear
        } else {
            LoadOp::Load
        },
        depth_store_op: StoreOp::Store,
        clear_depth: match clear_ops.depth {
            Some(d) => d,
            None => crate::options::FloatBits { bits: 0 },
        },
        stencil_load_op: if clear_ops.stencil is Some {
            LoadOp::Clear
        } else {
            LoadOp::Load
        },
        stencil_store_op: StoreOp::Store,
        clear_stencil: match clear_ops.stencil {
            Some(s) => s as u32,
            None => 0u32,
        },
    }
}

/// Builds the depth/stencil attachment of a draw's render pass.
pub fn build_depth_stencil_attachment(attachment: u64, clear_ops: &ClearOps) -> (r:
    DepthStencilAttachment)
    ensures
        r == spec_depth_stencil_attachment(attachment, *clear_ops),
{
    DepthStencilAttachment {
        attachment,
        depth_load_op: if clear_ops.depth.is_some() {
            LoadOp::Clear
        } else {
            LoadOp::Load
        },
        depth_store_op: StoreOp::Store,
        clear_depth: match clear_ops.depth {
            Some(d) => d,
            None => crate::options::FloatBits { bits: 0 },
        },
        stencil_load_op: if clear_ops.stencil.is_some() {
            LoadOp::Clear
        } else {
            LoadOp::Load
        },
        stencil_store_op: StoreOp::Store,
        clear_stencil: match clear_ops.stencil {
            Some(s) => s as u32,
            None => 0,
        },
    }
}

} // verus!
