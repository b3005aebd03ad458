//! GPU buffer handles and their lazily-created backing allocations.
//!
//! A buffer handle is declared empty; its backing allocation is created on
//! the first `allocate_buffer` call, when the length and usage are finally
//! known, and may later be replaced wholesale.  Handles name a slot in the
//! device's buffer registry, so every holder of a handle sees a
//! replacement.

use vstd::prelude::*;

verus! {

/// A handle to one buffer slot of a device.
#[derive(Debug, Clone, Copy, PartialEq, Eq, Structural)]
pub struct WebGpuBuffer {
    pub slot: usize,
}

/// What a buffer is bound as.
#[derive(Debug, Clone, Copy, PartialEq, Eq, Structural)]
pub enum BufferTarget {
    Vertex,
    Index,
    Storage,
}

/// The declared update frequency of a buffer; accepted and currently
/// unused by the synthesis.
#[derive(Debug, Clone, Copy, PartialEq, Eq, Structural)]
pub enum BufferUploadMode {
    Static,
    Dynamic,
}

/// The native usage a buffer allocation is created with.
#[derive(Debug, Clone, Copy, PartialEq, Eq, Structural)]
pub struct BufferUsageFlags {
    pub vertex: bool,
    pub index: bool,
    pub storage: bool,
    pub copy_src: bool,
    pub copy_dst: bool,
}

/// One live native buffer allocation: its resource identifier, byte
/// length, and the usage it was created with.
#[derive(Debug, Clone, Copy, PartialEq, Eq, Structural)]
pub struct BufferStorage {
    pub id: u64,
    pub size: usize,
    pub usage: BufferUsageFlags,
}

/// What an allocation is filled with: nothing yet, or initial bytes.
#[derive(Debug)]
pub enum BufferData {
    /// An allocation of the given byte length, left uninitialized.
    Uninitialized(usize),
    /// An allocation holding these bytes.
    Memory(Vec<u8>),
}

/// The byte length an allocation request asks for.
pub open spec fn spec_buffer_data_size(data: BufferData) -> int {
    match data {
        BufferData::Uninitialized(size) => size as int,
        BufferData::Memory(bytes) => bytes@.len() as int,
    }
}

/// The native usage for each binding target: every buffer may also be
/// copied from and into.
pub open spec fn spec_buffer_usage(target: BufferTarget) -> BufferUsageFlags {
    BufferUsageFlags {
        vertex: target is Vertex,
        index: target is Index,
        storage: target is Storage,
        copy_src: true,
        copy_dst: true,
    }
}

/// Derives the native usage for a binding target.
pub fn buffer_usage(target: BufferTarget) -> (r: BufferUsageFlags)
    ensures
        r == spec_buffer_usage(target),
{
    BufferUsageFlags {
        vertex: matches!(target, BufferTarget::Vertex),
        index: matches!(target, BufferTarget::Index),
        storage: matches!(target, BufferTarget::Storage),
        copy_src: true,
        copy_dst: true,
    }
}

} // verus!
