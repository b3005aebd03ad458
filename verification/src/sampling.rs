//! Texture sampling modes and the precomputed sampler table.
//!
//! A texture's sampling mode is a 4-bit flag value (repeat-U, repeat-V,
//! nearest-min, nearest-mag).  The device eagerly builds the sampler
//! description for each of the 16 combinations at construction time; the
//! table is indexed by the raw flag value and never mutated afterwards.

use vstd::prelude::*;

verus! {

/// Wrap on the horizontal axis instead of clamping.
pub const REPEAT_U: u8 = 0x01;

/// Wrap on the vertical axis instead of clamping.
pub const REPEAT_V: u8 = 0x02;

/// Nearest-texel minification instead of linear.
pub const NEAREST_MIN: u8 = 0x04;

/// Nearest-texel magnification instead of linear.
pub const NEAREST_MAG: u8 = 0x08;

/// A 4-bit texture sampling flag value.
#[derive(Debug, Clone, Copy, PartialEq, Eq, Structural)]
pub struct TextureSamplingFlags {
    pub bits: u8,
}

impl TextureSamplingFlags {
    /// Only the four defined bits may be set.
    pub open spec fn is_valid(self) -> bool {
        self.bits < 16
    }

    /// Whether the flag bits in `mask` are all set.
    pub open spec fn spec_contains(self, mask: u8) -> bool {
        self.bits & mask == mask
    }

    /// No flag set: clamp on both axes, linear filtering.
    pub fn empty() -> (r: TextureSamplingFlags)
        ensures
            r.bits == 0,
            r.is_valid(),
    {
        TextureSamplingFlags { bits: 0 }
    }

    /// Tests the flag bits in `mask`.
    pub fn contains(&self, mask: u8) -> (r: bool)
        ensures
            r == self.spec_contains(mask),
    {
        self.bits & mask == mask
    }
}

/// How sampling coordinates outside the texture behave on one axis.
#[derive(Debug, Clone, Copy, PartialEq, Eq, Structural)]
pub enum AddressMode {
    ClampToEdge,
    Repeat,
}

/// How texels are filtered.
#[derive(Debug, Clone, Copy, PartialEq, Eq, Structural)]
pub enum FilterMode {
    Nearest,
    Linear,
}

/// Comparison functions of the native enumeration that the adapter uses.
#[derive(Debug, Clone, Copy, PartialEq, Eq, Structural)]
pub enum CompareFunction {
    Never,
    Less,
    Equal,
    Always,
}

/// A complete native sampler description, as far as the adapter varies it.
/// The adapter never mipmaps, and never uses comparison samplers.
#[derive(Debug, Clone, Copy, PartialEq, Eq, Structural)]
pub struct SamplerDescriptor {
    pub address_mode_u: AddressMode,
    pub address_mode_v: AddressMode,
    pub address_mode_w: AddressMode,
    pub mag_filter: FilterMode,
    pub min_filter: FilterMode,
    pub mipmap_filter: FilterMode,
    pub compare: CompareFunction,
}

/// The sampler description a given flag value asks for.
pub open spec fn spec_sampler_descriptor(flags: TextureSamplingFlags) -> SamplerDescriptor {
    SamplerDescriptor {
        address_mode_u: if flags.spec_contains(REPEAT_U) {
            AddressMode::Repeat
        } else {
            AddressMode::ClampToEdge
        },
        address_mode_v: if flags.spec_contains(REPEAT_V) {
            AddressMode::Repeat
        } else {
            AddressMode::ClampToEdge
        },
        address_mode_w: AddressMode::ClampToEdge,
        mag_filter: if flags.spec_contains(NEAREST_MAG) {
            FilterMode::Nearest
        } else {
            FilterMode::Linear
        },
        min_filter: if flags.spec_contains(NEAREST_MIN) {
            FilterMode::Nearest
        } else {
            FilterMode::Linear
        },
        mipmap_filter: FilterMode::Nearest,
        compare: CompareFunction::Never,
    }
}

/// Builds the sampler description for one flag value.
pub fn sampler_descriptor(flags: TextureSamplingFlags) -> (r: SamplerDescriptor)
    ensures
        r == spec_sampler_descriptor(flags),
{
    SamplerDescriptor {
        address_mode_u: if flags.contains(REPEAT_U) {
            AddressMode::Repeat
        } else {
            AddressMode::ClampToEdge
        },
        address_mode_v: if flags.contains(REPEAT_V) {
            AddressMode::Repeat
        } else {
            AddressMode::ClampToEdge
        },
        address_mode_w: AddressMode::ClampToEdge,
        mag_filter: if flags.contains(NEAREST_MAG) {
            FilterMode::Nearest
        } else {
            FilterMode::Linear
        },
        min_filter: if flags.contains(NEAREST_MIN) {
            FilterMode::Nearest
        } else {
            FilterMode::Linear
        },
        mipmap_filter: FilterMode::Nearest,
        compare: CompareFunction::Never,
    }
}

/// Builds the sampler descriptions for all 16 flag combinations, indexed by
/// the raw 4-bit value.
pub fn create_sampler_table() -> (r: Vec<SamplerDescriptor>)
    ensures
        r@.len() == 16,
        forall|i: int|
            0 <= i < 16 ==> r@[i] == spec_sampler_descriptor(
                TextureSamplingFlags { bits: i as u8 },
            ),
{
    let mut table: Vec<SamplerDescriptor> = Vec::new();
    let mut bits: u8 = 0;
    while bits < 16
        invariant
            bits <= 16,
            table@.len() == bits,
            forall|i: int|
                0 <= i < bits ==> table@[i] == spec_sampler_descriptor(
                    TextureSamplingFlags { bits: i as u8 },
                ),
        decreases 16 - bits,
    {
        table.push(sampler_descriptor(TextureSamplingFlags { bits }));
        bits = bits + 1;
    }
    table
}

} // verus!
