//! Vertex and texture format negotiation.
//!
//! `vertex_format` maps a generic {class, scalar type, component count}
//! triple onto the native vertex format enumeration.  The native set has no
//! one- or three-component variants for the narrow scalar types, so those
//! requests are padded up to the next supported width — a deliberate lossy
//! mapping.  Every combination outside the enumerated set is rejected with
//! a diagnostic error.  `texture_format_to_wgpu` is a total one-to-one map
//! across the five supported logical pixel formats.

use crate::error::GpuError;
use vstd::prelude::*;

verus! {

/// How a vertex attribute is interpreted by the shader.
#[derive(Debug, Clone, Copy, PartialEq, Eq, Structural)]
pub enum VertexAttrClass {
    Float,
    FloatNorm,
    Int,
}

/// The scalar type a vertex attribute is stored as.
#[derive(Debug, Clone, Copy, PartialEq, Eq, Structural)]
pub enum VertexAttrType {
    F32,
    I16,
    I8,
    U16,
    U8,
}

/// The native vertex attribute format enumeration.
#[derive(Debug, Clone, Copy, PartialEq, Eq, Structural)]
pub enum VertexFormat {
    Uchar2,
    Uchar4,
    Char2,
    Char4,
    Uchar2Norm,
    Uchar4Norm,
    Char2Norm,
    Char4Norm,
    Ushort2,
    Ushort4,
    Short2,
    Short4,
    Ushort2Norm,
    Ushort4Norm,
    Short2Norm,
    Short4Norm,
    Float,
    Float2,
    Float3,
    Float4,
}

/// The logical pixel formats the adapter supports.
#[derive(Debug, Clone, Copy, PartialEq, Eq, Structural)]
pub enum TextureFormat {
    R8,
    R16F,
    RGBA8,
    RGBA16F,
    RGBA32F,
}

/// The native texture format enumeration, restricted to what the adapter
/// produces.
#[derive(Debug, Clone, Copy, PartialEq, Eq, Structural)]
pub enum NativeTextureFormat {
    R8Unorm,
    R16Float,
    Rgba8Unorm,
    Rgba16Float,
    Rgba32Float,
    Bgra8Unorm,
    Depth24PlusStencil8,
}

/// The supported (class, type, count) enumeration.  One- and
/// three-component variants of the narrow scalar types are padded up to
/// the two- and four-component native formats; combinations outside the
/// table have no native format.
pub open spec fn spec_vertex_format(
    class: VertexAttrClass,
    attr_type: VertexAttrType,
    size: usize,
) -> Option<VertexFormat> {
    match (class, attr_type, size) {
        (VertexAttrClass::Int, VertexAttrType::I8, 1usize) => Some(VertexFormat::Char2),
        (VertexAttrClass::Int, VertexAttrType::I8, 2usize) => Some(VertexFormat::Char2),
        (VertexAttrClass::Int, VertexAttrType::I8, 3usize) => Some(VertexFormat::Char4),
        (VertexAttrClass::Int, VertexAttrType::I8, 4usize) => Some(VertexFormat::Char4),
        (VertexAttrClass::Int, VertexAttrType::U8, 1usize) => Some(VertexFormat::Uchar2),
        (VertexAttrClass::Int, VertexAttrType::U8, 2usize) => Some(VertexFormat::Uchar2),
        (VertexAttrClass::Int, VertexAttrType::U8, 3usize) => Some(VertexFormat::Uchar4),
        (VertexAttrClass::Int, VertexAttrType::U8, 4usize) => Some(VertexFormat::Uchar4),
        (VertexAttrClass::FloatNorm, VertexAttrType::U8, 1usize) => Some(VertexFormat::Uchar2Norm),
        (VertexAttrClass::FloatNorm, VertexAttrType::U8, 2usize) => Some(VertexFormat::Uchar2Norm),
        (VertexAttrClass::FloatNorm, VertexAttrType::U8, 3usize) => Some(VertexFormat::Uchar4Norm),
        (VertexAttrClass::FloatNorm, VertexAttrType::U8, 4usize) => Some(VertexFormat::Uchar4Norm),
        (VertexAttrClass::FloatNorm, VertexAttrType::I8, 1usize) => Some(VertexFormat::Char2Norm),
        (VertexAttrClass::FloatNorm, VertexAttrType::I8, 2usize) => Some(VertexFormat::Char2Norm),
        (VertexAttrClass::FloatNorm, VertexAttrType::I8, 3usize) => Some(VertexFormat::Char4Norm),
        (VertexAttrClass::FloatNorm, VertexAttrType::I8, 4usize) => Some(VertexFormat::Char4Norm),
        (VertexAttrClass::Int, VertexAttrType::I16, 1usize) => Some(VertexFormat::Short2),
        (VertexAttrClass::Int, VertexAttrType::I16, 2usize) => Some(VertexFormat::Short2),
        (VertexAttrClass::Int, VertexAttrType::I16, 3usize) => Some(VertexFormat::Short4),
        (VertexAttrClass::Int, VertexAttrType::I16, 4usize) => Some(VertexFormat::Short4),
        (VertexAttrClass::Int, VertexAttrType::U16, 1usize) => Some(VertexFormat::Ushort2),
        (VertexAttrClass::Int, VertexAttrType::U16, 2usize) => Some(VertexFormat::Ushort2),
        (VertexAttrClass::Int, VertexAttrType::U16, 3usize) => Some(VertexFormat::Ushort4),
        (VertexAttrClass::Int, VertexAttrType::U16, 4usize) => Some(VertexFormat::Ushort4),
        (VertexAttrClass::FloatNorm, VertexAttrType::U16, 1usize) => Some(
            VertexFormat::Ushort2Norm,
        ),
        (VertexAttrClass::FloatNorm, VertexAttrType::U16, 2usize) => Some(
            VertexFormat::Ushort2Norm,
        ),
        (VertexAttrClass::FloatNorm, VertexAttrType::U16, 3usize) => Some(
            VertexFormat::Ushort4Norm,
        ),
        (VertexAttrClass::FloatNorm, VertexAttrType::U16, 4usize) => Some(
            VertexFormat::Ushort4Norm,
        ),
        (VertexAttrClass::FloatNorm, VertexAttrType::I16, 1usize) => Some(
            VertexFormat::Short2Norm,
        ),
        (VertexAttrClass::FloatNorm, VertexAttrType::I16, 2usize) => Some(
            VertexFormat::Short2Norm,
        ),
        (VertexAttrClass::FloatNorm, VertexAttrType::I16, 3usize) => Some(
            VertexFormat::Short4Norm,
        ),
        (VertexAttrClass::FloatNorm, VertexAttrType::I16, 4usize) => Some(
            VertexFormat::Short4Norm,
        ),
        (VertexAttrClass::Float, VertexAttrType::F32, 1usize) => Some(VertexFormat::Float),
        (VertexAttrClass::Float, VertexAttrType::F32, 2usize) => Some(VertexFormat::Float2),
        (VertexAttrClass::Float, VertexAttrType::F32, 3usize) => Some(VertexFormat::Float3),
        (VertexAttrClass::Float, VertexAttrType::F32, 4usize) => Some(VertexFormat::Float4),
        _ => None,
    }
}

/// Negotiates the native vertex format for a requested triple; total over
/// the supported enumeration, and an error carrying the request outside it.
pub fn vertex_format(class: VertexAttrClass, attr_type: VertexAttrType, size: usize) -> (r: Result<
    VertexFormat,
    GpuError,
>)
    ensures
        r == match spec_vertex_format(class, attr_type, size) {
            Some(f) => Ok::<VertexFormat, GpuError>(f),
            None => Err::<VertexFormat, GpuError>(
                GpuError::UnsupportedVertexFormat { class, attr_type, size },
            ),
        },
{
    let padded_size: usize = if size == 1 {
        2
    } else if size == 3 {
        4
    } else {
        size
    };
    match (class, attr_type) {
        (VertexAttrClass::Int, VertexAttrType::I8) => match padded_size {
            2 => Ok(VertexFormat::Char2),
            4 => Ok(VertexFormat::Char4),
            _ => Err(GpuError::UnsupportedVertexFormat { class, attr_type, size }),
        },
        (VertexAttrClass::Int, VertexAttrType::U8) => match padded_size {
            2 => Ok(VertexFormat::Uchar2),
            4 => Ok(VertexFormat::Uchar4),
            _ => Err(GpuError::UnsupportedVertexFormat { class, attr_type, size }),
        },
        (VertexAttrClass::FloatNorm, VertexAttrType::U8) => match padded_size {
            2 => Ok(VertexFormat::Uchar2Norm),
            4 => Ok(VertexFormat::Uchar4Norm),
            _ => Err(GpuError::UnsupportedVertexFormat { class, attr_type, size }),
        },
        (VertexAttrClass::FloatNorm, VertexAttrType::I8) => match padded_size {
            2 => Ok(VertexFormat::Char2Norm),
            4 => Ok(VertexFormat::Char4Norm),
            _ => Err(GpuError::UnsupportedVertexFormat { class, attr_type, size }),
        },
        (VertexAttrClass::Int, VertexAttrType::I16) => match padded_size {
            2 => Ok(VertexFormat::Short2),
            4 => Ok(VertexFormat::Short4),
            _ => Err(GpuError::UnsupportedVertexFormat { class, attr_type, size }),
        },
        (VertexAttrClass::Int, VertexAttrType::U16) => match padded_size {
            2 => Ok(VertexFormat::Ushort2),
            4 => Ok(VertexFormat::Ushort4),
            _ => Err(GpuError::UnsupportedVertexFormat { class, attr_type, size }),
        },
        (VertexAttrClass::FloatNorm, VertexAttrType::U16) => match padded_size {
            2 => Ok(VertexFormat::Ushort2Norm),
            4 => Ok(VertexFormat::Ushort4Norm),
            _ => Err(GpuError::UnsupportedVertexFormat { class, attr_type, size }),
        },
        (VertexAttrClass::FloatNorm, VertexAttrType::I16) => match padded_size {
            2 => Ok(VertexFormat::Short2Norm),
            4 => Ok(VertexFormat::Short4Norm),
            _ => Err(GpuError::UnsupportedVertexFormat { class, attr_type, size }),
        },
        (VertexAttrClass::Float, VertexAttrType::F32) => match size {
            1 => Ok(VertexFormat::Float),
            2 => Ok(VertexFormat::Float2),
            3 => Ok(VertexFormat::Float3),
            4 => Ok(VertexFormat::Float4),
            _ => Err(GpuError::UnsupportedVertexFormat { class, attr_type, size }),
        },
        _ => Err(GpuError::UnsupportedVertexFormat { class, attr_type, size }),
    }
}

/// The native image format for each logical pixel format.
pub open spec fn spec_texture_format_to_wgpu(format: TextureFormat) -> NativeTextureFormat {
    match format {
        TextureFormat::R8 => NativeTextureFormat::R8Unorm,
        TextureFormat::R16F => NativeTextureFormat::R16Float,
        TextureFormat::RGBA8 => NativeTextureFormat::Rgba8Unorm,
        TextureFormat::RGBA16F => NativeTextureFormat::Rgba16Float,
        TextureFormat::RGBA32F => NativeTextureFormat::Rgba32Float,
    }
}

/// Maps a logical pixel format to the native image format; total.
pub fn texture_format_to_wgpu(format: TextureFormat) -> (r: NativeTextureFormat)
    ensures
        r == spec_texture_format_to_wgpu(format),
{
    match format {
        TextureFormat::R8 => NativeTextureFormat::R8Unorm,
        TextureFormat::R16F => NativeTextureFormat::R16Float,
        TextureFormat::RGBA8 => NativeTextureFormat::Rgba8Unorm,
        TextureFormat::RGBA16F => NativeTextureFormat::Rgba16Float,
        TextureFormat::RGBA32F => NativeTextureFormat::Rgba32Float,
    }
}

/// Bytes of storage per texel of each logical pixel format.
pub open spec fn spec_bytes_per_texel(format: TextureFormat) -> u32 {
    match format {
        TextureFormat::R8 => 1u32,
        TextureFormat::R16F => 2u32,
        TextureFormat::RGBA8 => 4u32,
        TextureFormat::RGBA16F => 8u32,
        TextureFormat::RGBA32F => 16u32,
    }
}

/// The byte width of one texel.
pub fn bytes_per_texel(format: TextureFormat) -> (r: u32)
    ensures
        r == spec_bytes_per_texel(format),
{
    match format {
        TextureFormat::R8 => 1,
        TextureFormat::R16F => 2,
        TextureFormat::RGBA8 => 4,
        TextureFormat::RGBA16F => 8,
        TextureFormat::RGBA32F => 16,
    }
}

/// Scalar elements per texel of each logical pixel format.
pub open spec fn spec_channels(format: TextureFormat) -> u32 {
    match format {
        TextureFormat::R8 => 1u32,
        TextureFormat::R16F => 1u32,
        TextureFormat::RGBA8 => 4u32,
        TextureFormat::RGBA16F => 4u32,
        TextureFormat::RGBA32F => 4u32,
    }
}

/// How many scalar elements make up one texel.
pub fn channels(format: TextureFormat) -> (r: u32)
    ensures
        r == spec_channels(format),
{
    match format {
        TextureFormat::R8 => 1,
        TextureFormat::R16F => 1,
        TextureFormat::RGBA8 => 4,
        TextureFormat::RGBA16F => 4,
        TextureFormat::RGBA32F => 4,
    }
}

} // verus!
