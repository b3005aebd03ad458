//! Textures and texture upload data.
//!
//! A texture is created at a fixed size and pixel format; only its
//! sampling mode (and a dirty flag reserved for readback invalidation) is
//! mutable.  Upload payloads carry their pixel elements as plain scalars;
//! 16- and 32-bit float elements are carried as raw bit patterns, since
//! the adapter never computes on them.

use crate::formats::{TextureFormat, spec_channels};
use crate::geom::{RectI, Vector2I};
use crate::sampling::TextureSamplingFlags;
use vstd::prelude::*;

verus! {

/// A handle to one texture slot of a device.
#[derive(Debug, Clone, Copy, PartialEq, Eq, Structural)]
pub struct WebGpuTexture {
    pub index: usize,
}

/// A handle to a framebuffer: a render target backed by one texture.
#[derive(Debug, Clone, Copy, PartialEq, Eq, Structural)]
pub struct WebGpuFramebuffer(pub WebGpuTexture);

/// One live texture: its native resource identifier, fixed size and
/// format, and its mutable sampling mode.
#[derive(Debug, Clone, Copy, PartialEq, Eq, Structural)]
pub struct TextureState {
    pub id: u64,
    pub size: Vector2I,
    pub format: TextureFormat,
    pub sampling_flags: TextureSamplingFlags,
    /// Reserved for readback invalidation.
    pub dirty: bool,
}

/// The largest texture dimension the device accepts.
pub const MAX_TEXTURE_DIMENSION: i32 = 8192;

impl TextureState {
    /// The size is zero-or-positive and within the device limit, and the
    /// sampling flags are a valid 4-bit value.
    pub open spec fn wf(self) -> bool {
        &&& 0 <= self.size.x <= MAX_TEXTURE_DIMENSION
        &&& 0 <= self.size.y <= MAX_TEXTURE_DIMENSION
        &&& self.sampling_flags.is_valid()
    }
}

/// A texture upload payload (or readback result): pixel elements of one
/// scalar type.  Half and single floats are raw bit patterns.
#[derive(Debug)]
pub enum TextureData {
    U8(Vec<u8>),
    U16(Vec<u16>),
    F16(Vec<u16>),
    F32(Vec<u32>),
}

/// For texture readback; readback is an acknowledged unimplemented
/// capability.
#[derive(Debug)]
pub struct WebGpuTextureDataReceiver {}

/// For timer queries; timer queries are an acknowledged unimplemented
/// capability.
#[derive(Debug)]
pub struct WebGpuTimerQuery {}

/// The number of scalar elements in an upload payload.
pub open spec fn spec_data_len(data: TextureData) -> int {
    match data {
        TextureData::U8(v) => v@.len() as int,
        TextureData::U16(v) => v@.len() as int,
        TextureData::F16(v) => v@.len() as int,
        TextureData::F32(v) => v@.len() as int,
    }
}

/// The byte width of one scalar element of an upload payload.
pub open spec fn spec_data_elem_size(data: TextureData) -> int {
    match data {
        TextureData::U8(_) => 1,
        TextureData::U16(_) => 2,
        TextureData::F16(_) => 2,
        TextureData::F32(_) => 4,
    }
}

/// The byte length of an upload payload.
pub open spec fn spec_data_byte_len(data: TextureData) -> int {
    spec_data_len(data) * spec_data_elem_size(data)
}

/// Whether an upload payload's scalar type is the one the pixel format
/// stores.  Half-float red textures have no supported upload payload.
pub open spec fn spec_data_kind_matches(format: TextureFormat, data: TextureData) -> bool {
    match (format, data) {
        (TextureFormat::R8, TextureData::U8(_)) => true,
        (TextureFormat::RGBA8, TextureData::U8(_)) => true,
        (TextureFormat::RGBA16F, TextureData::F16(_)) => true,
        (TextureFormat::RGBA32F, TextureData::F32(_)) => true,
        _ => false,
    }
}

/// The little-endian bytes of a sequence of 16-bit elements, in order.
pub open spec fn spec_packed_u16(elements: Seq<u16>) -> Seq<u8> {
    Seq::new(
        elements.len() * 2,
        |i: int|
            if i % 2 == 0 {
                (elements[i / 2] & 0xff) as u8
            } else {
                (elements[i / 2] >> 8) as u8
            },
    )
}

/// The little-endian bytes of a sequence of 32-bit elements, in order.
pub open spec fn spec_packed_u32(elements: Seq<u32>) -> Seq<u8> {
    Seq::new(
        elements.len() * 4,
        |i: int|
            {
                let e = elements[i / 4];
                if i % 4 == 0 {
                    (e & 0xff) as u8
                } else if i % 4 == 1 {
                    ((e >> 8) & 0xff) as u8
                } else if i % 4 == 2 {
                    ((e >> 16) & 0xff) as u8
                } else {
                    ((e >> 24) & 0xff) as u8
                }
            },
    )
}

/// The byte-level packing of an upload payload for the staging buffer:
/// the payload's scalar elements laid out in order, each in the native
/// little-endian byte order.
pub open spec fn spec_packed_bytes(data: TextureData) -> Seq<u8> {
    match data {
        TextureData::U8(v) => v@,
        TextureData::U16(v) => spec_packed_u16(v@),
        TextureData::F16(v) => spec_packed_u16(v@),
        TextureData::F32(v) => spec_packed_u32(v@),
    }
}

/// Packs an upload payload into the bytes the staging buffer will hold.
pub fn pack_texture_data(data: &TextureData) -> (r: Vec<u8>)
    ensures
        r@ == spec_packed_bytes(*data),
        r@.len() == spec_data_byte_len(*data),
{
    match data {
        TextureData::U8(v) => {
            let mut bytes: Vec<u8> = Vec::new();
            let mut i: usize = 0;
            while i < v.len()
                invariant
                    i <= v@.len(),
                    bytes@ == v@.take(i as int),
                decreases v@.len() - i,
            {
                bytes.push(v[i]);
                proof {
                    assert(bytes@ =~= v@.take(i + 1));
                }
                i = i + 1;
            }
            proof {
                assert(v@.take(v@.len() as int) =~= v@);
            }
            bytes
        },
        TextureData::U16(v) => pack_u16_elements(v),
        TextureData::F16(v) => pack_u16_elements(v),
        TextureData::F32(v) => pack_u32_elements(v),
    }
}

/// Packs 16-bit elements little-endian.
fn pack_u16_elements(elements: &Vec<u16>) -> (r: Vec<u8>)
    ensures
        r@ == spec_packed_u16(elements@),
{
    let mut bytes: Vec<u8> = Vec::new();
    let mut i: usize = 0;
    while i < elements.len()
        invariant
            i <= elements@.len(),
            bytes@ == spec_packed_u16(elements@.take(i as int)),
        decreases elements@.len() - i,
    {
        let e = elements[i];
        proof {
            assert((e & 0xff) < 256 && (e >> 8) < 256) by (bit_vector);
        }
        bytes.push((e & 0xff) as u8);
        bytes.push((e >> 8) as u8);
        proof {
            assert(bytes@ =~= spec_packed_u16(elements@.take(i + 1)));
        }
        i = i + 1;
    }
    proof {
        assert(elements@.take(elements@.len() as int) =~= elements@);
    }
    bytes
}

/// Packs 32-bit elements little-endian.
fn pack_u32_elements(elements: &Vec<u32>) -> (r: Vec<u8>)
    ensures
        r@ == spec_packed_u32(elements@),
{
    let mut bytes: Vec<u8> = Vec::new();
    let mut i: usize = 0;
    while i < elements.len()
        invariant
            i <= elements@.len(),
            bytes@ == spec_packed_u32(elements@.take(i as int)),
        decreases elements@.len() - i,
    {
        let e = elements[i];
        proof {
            assert((e & 0xff) < 256 && ((e >> 8) & 0xff) < 256 && ((e >> 16) & 0xff) < 256 && ((e
                >> 24) & 0xff) < 256) by (bit_vector);
        }
        bytes.push((e & 0xff) as u8);
        bytes.push(((e >> 8) & 0xff) as u8);
        bytes.push(((e >> 16) & 0xff) as u8);
        bytes.push(((e >> 24) & 0xff) as u8);
        proof {
            assert(bytes@ =~= spec_packed_u32(elements@.take(i + 1)));
        }
        i = i + 1;
    }
    proof {
        assert(elements@.take(elements@.len() as int) =~= elements@);
    }
    bytes
}

/// Whether an upload of `data` into a rectangle of `rect.size` texels of
/// a `format` texture is valid: the rectangle is not negative, the scalar
/// type matches the format, the element count matches the rectangle's
/// texel count exactly, and the payload's byte length fits the native
/// buffer-length limit.
pub open spec fn spec_upload_ok(format: TextureFormat, rect: RectI, data: TextureData) -> bool {
    &&& rect.size.x >= 0
    &&& rect.size.y >= 0
    &&& spec_data_kind_matches(format, data)
    &&& spec_data_len(data) == rect.size.spec_area() * spec_channels(format)
    &&& spec_data_byte_len(data) <= u64::MAX
}

/// Checks an upload payload against the upload rectangle and the
/// texture's format, and hands back its element count and byte length.
pub fn check_upload(format: TextureFormat, rect: &RectI, data: &TextureData) -> (r: Option<u64>)
    ensures
        match r {
            Some(byte_len) => spec_upload_ok(format, *rect, *data) && byte_len
                == spec_data_byte_len(*data),
            None => !spec_upload_ok(format, *rect, *data),
        },
{
    if rect.size.x < 0 || rect.size.y < 0 {
        return None;
    }
    let kind_matches = match (format, data) {
        (TextureFormat::R8, TextureData::U8(_)) => true,
        (TextureFormat::RGBA8, TextureData::U8(_)) => true,
        (TextureFormat::RGBA16F, TextureData::F16(_)) => true,
        (TextureFormat::RGBA32F, TextureData::F32(_)) => true,
        _ => false,
    };
    if !kind_matches {
        return None;
    }
    let (len, elem_size): (usize, u64) = match data {
        TextureData::U8(v) => (v.len(), 1),
        TextureData::U16(v) => (v.len(), 2),
        TextureData::F16(v) => (v.len(), 2),
        TextureData::F32(v) => (v.len(), 4),
    };
    proof {
        assert((rect.size.x as int) * (rect.size.y as int) < 0x10000000000000000)
            by (nonlinear_arith)
            requires
                0 <= rect.size.x < 0x80000000,
                0 <= rect.size.y < 0x80000000,
        ;
        assert((rect.size.x as int) * (rect.size.y as int) * (spec_channels(format) as int)
            < 0x10000000000000000) by (nonlinear_arith)
            requires
                0 <= rect.size.x < 0x80000000,
                0 <= rect.size.y < 0x80000000,
                spec_channels(format) <= 4,
        ;
        assert((len as int) * (elem_size as int) < 0x100000000000000000) by (nonlinear_arith)
            requires
                0 <= len <= usize::MAX,
                usize::MAX <= u64::MAX,
                0 < elem_size <= 4,
        ;
    }
    let area_elems: u128 = (rect.size.x as u128) * (rect.size.y as u128)
        * (crate::formats::channels(format) as u128);
    if len as u128 != area_elems {
        return None;
    }
    let byte_len_wide: u128 = (len as u128) * (elem_size as u128);
    if byte_len_wide > u64::MAX as u128 {
        return None;
    }
    Some(byte_len_wide as u64)
}

} // verus!
