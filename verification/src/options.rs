//! The immediate-mode draw-time state record.
//!
//! A `RenderOptions` value travels with every draw call and is never
//! persisted: blend, depth and stencil state, the color-write mask and the
//! per-channel clear operations.  Clear colors and depths are 32-bit float
//! values; the adapter never computes on them, so they are carried as raw
//! bit patterns.

use vstd::prelude::*;

verus! {

/// The raw bit pattern of a 32-bit float, carried opaquely.
#[derive(Debug, Clone, Copy, PartialEq, Eq, Structural)]
pub struct FloatBits {
    pub bits: u32,
}

impl FloatBits {
    /// The bit pattern of +0.0.
    pub fn zero() -> (r: FloatBits)
        ensures
            r.bits == 0,
    {
        FloatBits { bits: 0 }
    }
}

/// An RGBA color whose channels are 32-bit float bit patterns.
#[derive(Debug, Clone, Copy, PartialEq, Eq, Structural)]
pub struct ColorBits {
    pub r: FloatBits,
    pub g: FloatBits,
    pub b: FloatBits,
    pub a: FloatBits,
}

/// Fully transparent black: every channel +0.0.
pub open spec fn spec_transparent_color() -> ColorBits {
    ColorBits {
        r: FloatBits { bits: 0 },
        g: FloatBits { bits: 0 },
        b: FloatBits { bits: 0 },
        a: FloatBits { bits: 0 },
    }
}

/// The primitive topology of a draw.
#[derive(Debug, Clone, Copy, PartialEq, Eq, Structural)]
pub enum Primitive {
    Triangles,
    Lines,
}

/// A generic blend factor.
#[derive(Debug, Clone, Copy, PartialEq, Eq, Structural)]
pub enum BlendFactor {
    Zero,
    One,
    SrcAlpha,
    OneMinusSrcAlpha,
    DestAlpha,
    OneMinusDestAlpha,
    DestColor,
}

/// A generic blend equation operator.
#[derive(Debug, Clone, Copy, PartialEq, Eq, Structural)]
pub enum BlendOp {
    Add,
    Subtract,
    ReverseSubtract,
    Min,
    Max,
}

/// A complete generic blend state.
#[derive(Debug, Clone, Copy, PartialEq, Eq, Structural)]
pub struct BlendState {
    pub dest_rgb_factor: BlendFactor,
    pub dest_alpha_factor: BlendFactor,
    pub src_rgb_factor: BlendFactor,
    pub src_alpha_factor: BlendFactor,
    pub op: BlendOp,
}

/// The depth comparison functions the interface offers.
#[derive(Debug, Clone, Copy, PartialEq, Eq, Structural)]
pub enum DepthFunc {
    Less,
    Always,
}

/// Generic depth state: comparison function and write switch.
#[derive(Debug, Clone, Copy, PartialEq, Eq, Structural)]
pub struct DepthState {
    pub func: DepthFunc,
    pub write: bool,
}

/// The stencil comparison functions the interface offers.
#[derive(Debug, Clone, Copy, PartialEq, Eq, Structural)]
pub enum StencilFunc {
    Always,
    Equal,
}

/// Generic stencil state.
#[derive(Debug, Clone, Copy, PartialEq, Eq, Structural)]
pub struct StencilState {
    pub func: StencilFunc,
    pub reference: u32,
    pub mask: u32,
    pub write: bool,
}

/// Which channels to clear at the start of a render pass, and with what.
#[derive(Debug, Clone, Copy, PartialEq, Eq, Structural)]
pub struct ClearOps {
    pub color: Option<ColorBits>,
    pub depth: Option<FloatBits>,
    pub stencil: Option<u8>,
}

impl ClearOps {
    /// Clear nothing, preserving every attachment's contents.
    pub fn none() -> (r: ClearOps)
        ensures
            r == (ClearOps { color: None, depth: None, stencil: None }),
    {
        ClearOps { color: None, depth: None, stencil: None }
    }
}

/// The options record consumed atomically by every draw.
#[derive(Debug, Clone, Copy, PartialEq, Eq, Structural)]
pub struct RenderOptions {
    pub blend: Option<BlendState>,
    pub depth: Option<DepthState>,
    pub stencil: Option<StencilState>,
    pub clear_ops: ClearOps,
    pub color_mask: bool,
}

impl RenderOptions {
    /// No blending, no depth or stencil test, nothing cleared, color
    /// writes on.
    pub fn plain() -> (r: RenderOptions)
        ensures
            r == (RenderOptions {
                blend: None,
                depth: None,
                stencil: None,
                clear_ops: ClearOps { color: None, depth: None, stencil: None },
                color_mask: true,
            }),
    {
        RenderOptions {
            blend: None,
            depth: None,
            stencil: None,
            clear_ops: ClearOps::none(),
            color_mask: true,
        }
    }
}

} // verus!
