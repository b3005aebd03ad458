//! A verified model of an immediate-mode graphics-device adapter.
//!
//! The adapter exposes a stateless rendering interface (create buffer, bind
//! buffer, configure vertex attribute, draw) on top of an explicit GPU API
//! that wants fully-specified pipeline objects before any draw.  The library
//! keeps the adapter's whole decision logic — lazy resource slots, vertex
//! format negotiation, vertex-array bookkeeping, command-stream batching and
//! per-draw pipeline synthesis — as verified code over plain data; the host
//! side hands the synthesized descriptions to the native API.

pub mod buffer;
pub mod device;
pub mod error;
pub mod formats;
pub mod geom;
pub mod lazy;
pub mod options;
pub mod pipeline;
pub mod sampling;
pub mod shader;
pub mod stream;
pub mod texture;
pub mod vertex_array;

pub use lazy::LazilyInitialized;
