//! The command stream: one open recording, and the finished queue.
//!
//! The device coalesces internally-issued GPU work and user-issued draws
//! into recordings.  Exactly one recording is open at all times after
//! construction; `rotate` atomically finishes it into the pending queue
//! and opens a fresh one, and `submit_and_clear` hands the whole ordered
//! queue (including the just-finished recording) outward and empties it.

use crate::buffer::{BufferStorage, BufferUsageFlags};
use crate::geom::{RectI, Vector2I};
use crate::pipeline::{RenderPassDescriptor, RenderPipelineDescriptor};
use vstd::prelude::*;

verus! {

/// A contiguous range of one buffer allocation, named by its resource
/// identifier.
#[derive(Debug, Clone, Copy, PartialEq, Eq, Structural)]
pub struct BufferSlice {
    pub buffer: u64,
    pub size: u64,
}

impl BufferSlice {
    /// The whole of an allocation.
    pub open spec fn spec_of_storage(storage: BufferStorage) -> BufferSlice {
        BufferSlice { buffer: storage.id, size: storage.size as u64 }
    }

    /// Names the whole of an allocation.
    pub fn of_storage(storage: &BufferStorage) -> (r: BufferSlice)
        ensures
            r == BufferSlice::spec_of_storage(*storage),
    {
        BufferSlice { buffer: storage.id, size: storage.size as u64 }
    }
}

/// A transient staging buffer created for one upload: its resource
/// identifier, the usage it is created with, and the packed payload
/// bytes it holds.
#[derive(Debug, PartialEq, Eq)]
pub struct StagingBuffer {
    pub id: u64,
    pub usage: BufferUsageFlags,
    pub bytes: Vec<u8>,
}

/// One GPU command of a recording.
#[derive(Debug)]
pub enum GpuCommand {
    /// Copy a staging buffer into a texture.
    CopyBufferToTexture {
        source: StagingBuffer,
        bytes_per_row: u32,
        rows_per_image: u32,
        texture: u64,
        mip_level: u32,
        extent: Vector2I,
    },
    /// A complete indexed, instanced draw: the one-shot pipeline and
    /// render-pass descriptions it was synthesized with, the viewport, and
    /// the buffers bound at each slot.
    DrawIndexed {
        pipeline: RenderPipelineDescriptor,
        render_pass: RenderPassDescriptor,
        viewport: RectI,
        vertex_buffers: Vec<BufferSlice>,
        index_buffer: BufferSlice,
        index_count: u32,
        instance_count: u32,
    },
}

/// An ordered, not-yet-submitted sequence of GPU commands.
#[derive(Debug)]
pub struct Recording {
    pub commands: Vec<GpuCommand>,
}

impl Recording {
    /// The commands, in order.
    pub open spec fn model(self) -> Seq<GpuCommand> {
        self.commands@
    }
}

/// The mathematical state of a command stream: the finished recordings in
/// submission order, and the open recording.
pub ghost struct StreamModel {
    pub pending: Seq<Seq<GpuCommand>>,
    pub current: Seq<GpuCommand>,
}

/// Finishing the open recording pushes it onto the queue and opens an
/// empty one.
pub open spec fn spec_rotate(m: StreamModel) -> StreamModel {
    StreamModel { pending: m.pending.push(m.current), current: Seq::empty() }
}

/// Submitting hands over the queue plus the just-finished open recording,
/// in FIFO order, and leaves one empty recording open.
pub open spec fn spec_submit(m: StreamModel) -> (Seq<Seq<GpuCommand>>, StreamModel) {
    (m.pending.push(m.current), StreamModel { pending: Seq::empty(), current: Seq::empty() })
}

/// `n` rotations in a row.
pub open spec fn spec_rotate_n(m: StreamModel, n: nat) -> StreamModel
    decreases n,
{
    if n == 0 {
        m
    } else {
        spec_rotate(spec_rotate_n(m, (n - 1) as nat))
    }
}

/// `n` empty recordings.
pub open spec fn spec_empty_recordings(n: nat) -> Seq<Seq<GpuCommand>> {
    Seq::new(n, |i: int| Seq::empty())
}

/// Law: `rotate` called `n` times followed by `submit_and_clear` submits
/// the already-pending recordings, then the recording that was open at the
/// start, then the `n` recordings opened by the rotations — exactly
/// `pending + n + 1` recordings, in the order they were opened — and
/// leaves the queue empty with one empty recording open.
pub proof fn lemma_rotate_then_submit(m: StreamModel, n: nat)
    ensures
        spec_submit(spec_rotate_n(m, n)).0.len() == m.pending.len() + n + 1,
        spec_submit(spec_rotate_n(m, n)).0 == m.pending.push(m.current) + spec_empty_recordings(n),
        spec_submit(spec_rotate_n(m, n)).1.pending.len() == 0,
        spec_submit(spec_rotate_n(m, n)).1.current.len() == 0,
    decreases n,
{
    if n == 0 {
        assert(spec_submit(spec_rotate_n(m, 0)).0 =~= m.pending.push(m.current)
            + spec_empty_recordings(0));
    } else {
        lemma_rotate_then_submit(m, (n - 1) as nat);
        lemma_rotate_n_unfold(m, n);
        assert(spec_submit(spec_rotate_n(m, n)).0 =~= m.pending.push(m.current)
            + spec_empty_recordings(n));
    }
}

/// Rotating `n > 0` times is rotating once, then `n - 1` times.
proof fn lemma_rotate_n_unfold(m: StreamModel, n: nat)
    requires
        n > 0,
    ensures
        spec_rotate_n(m, n) == spec_rotate_n(spec_rotate(m), (n - 1) as nat),
    decreases n,
{
    if n == 1 {
        assert(spec_rotate_n(m, 1) == spec_rotate(spec_rotate_n(m, 0)));
        assert(spec_rotate_n(spec_rotate(m), 0) == spec_rotate(m));
    } else {
        lemma_rotate_n_unfold(m, (n - 1) as nat);
        assert(spec_rotate_n(m, n) == spec_rotate(spec_rotate_n(m, (n - 1) as nat)));
        assert(spec_rotate_n(spec_rotate(m), (n - 1) as nat) == spec_rotate(
            spec_rotate_n(spec_rotate(m), (n - 2) as nat),
        ));
    }
}

/// The open recording and the queue of finished, not-yet-submitted
/// recordings.
#[derive(Debug)]
pub struct CommandStream {
    pub current: Recording,
    pub pending: Vec<Recording>,
}

impl CommandStream {
    /// The mathematical state.
    pub open spec fn model(self) -> StreamModel {
        StreamModel {
            pending: self.pending@.map_values(|r: Recording| r.model()),
            current: self.current.model(),
        }
    }

    /// Opens the initial empty recording; the queue starts empty.
    pub fn with_open_recording() -> (r: CommandStream)
        ensures
            r.model().pending.len() == 0,
            r.model().current.len() == 0,
    {
        CommandStream { current: Recording { commands: Vec::new() }, pending: Vec::new() }
    }

    /// Appends one command to the open recording.
    pub fn push_command(&mut self, command: GpuCommand)
        ensures
            final(self).model().pending == old(self).model().pending,
            final(self).model().current == old(self).model().current.push(command),
    {
        self.current.commands.push(command);
        proof {
            assert(final(self).model().pending =~= old(self).model().pending);
        }
    }

    /// Atomically finishes the open recording onto the queue and opens a
    /// brand-new empty one, so that an open recording always exists.
    pub fn rotate(&mut self)
        ensures
            final(self).model() == spec_rotate(old(self).model()),
    {
        let mut finished = Recording { commands: Vec::new() };
        core::mem::swap(&mut self.current, &mut finished);
        self.pending.push(finished);
        proof {
            assert(final(self).model().pending =~= spec_rotate(old(self).model()).pending);
            assert(final(self).model().current =~= spec_rotate(old(self).model()).current);
        }
    }

    /// Finishes the open recording, hands back the whole queue in FIFO
    /// order, and leaves the queue empty with one empty recording open.
    pub fn submit_and_clear(&mut self) -> (submission: Vec<Recording>)
        ensures
            submission@.len() == old(self).model().pending.len() + 1,
            submission@.map_values(|r: Recording| r.model()) == spec_submit(old(self).model()).0,
            final(self).model() == spec_submit(old(self).model()).1,
    {
        self.rotate();
        let mut submission: Vec<Recording> = Vec::new();
        core::mem::swap(&mut self.pending, &mut submission);
        proof {
            assert(submission@.map_values(|r: Recording| r.model()) =~= spec_submit(
                old(self).model(),
            ).0);
            assert(final(self).model().pending =~= spec_submit(old(self).model()).1.pending);
        }
        submission
    }
}

} // verus!
