//! The command-stream state machine: rotate and submit-and-clear.

use webgpu::buffer::BufferUsageFlags;
use webgpu::geom::Vector2I;
use webgpu::stream::{CommandStream, GpuCommand, StagingBuffer};

fn marker_command(tag: u64) -> GpuCommand {
    GpuCommand::CopyBufferToTexture {
        source: StagingBuffer {
            id: tag,
            usage: BufferUsageFlags {
                vertex: false,
                index: false,
                storage: false,
                copy_src: true,
                copy_dst: false,
            },
            bytes: vec![0],
        },
        bytes_per_row: 1,
        rows_per_image: 1,
        texture: 0,
        mip_level: 0,
        extent: Vector2I::new(1, 1),
    }
}

fn marker_tag(command: &GpuCommand) -> u64 {
    match command {
        GpuCommand::CopyBufferToTexture { source, .. } => source.id,
        GpuCommand::DrawIndexed { .. } => panic!("not a marker"),
    }
}

#[test]
fn a_fresh_stream_has_one_empty_open_recording() {
    let stream = CommandStream::with_open_recording();
    assert!(stream.pending.is_empty());
    assert!(stream.current.commands.is_empty());
}

#[test]
fn rotate_finishes_the_open_recording_and_opens_an_empty_one() {
    let mut stream = CommandStream::with_open_recording();
    stream.push_command(marker_command(7));
    stream.rotate();
    assert_eq!(stream.pending.len(), 1);
    assert_eq!(stream.pending[0].commands.len(), 1);
    assert_eq!(marker_tag(&stream.pending[0].commands[0]), 7);
    assert!(stream.current.commands.is_empty());
}

#[test]
fn n_rotations_then_submit_hand_over_n_plus_one_recordings_in_order() {
    let n: usize = 4;
    let mut stream = CommandStream::with_open_recording();
    for round in 0..n {
        stream.push_command(marker_command(round as u64));
        stream.rotate();
    }
    stream.push_command(marker_command(n as u64));
    let submission = stream.submit_and_clear();

    assert_eq!(submission.len(), n + 1);
    for (round, recording) in submission.iter().enumerate() {
        assert_eq!(recording.commands.len(), 1);
        assert_eq!(marker_tag(&recording.commands[0]), round as u64);
    }
    assert!(stream.pending.is_empty());
    assert!(stream.current.commands.is_empty());
}

#[test]
fn submit_with_nothing_recorded_hands_over_one_empty_recording() {
    let mut stream = CommandStream::with_open_recording();
    let submission = stream.submit_and_clear();
    assert_eq!(submission.len(), 1);
    assert!(submission[0].commands.is_empty());
    assert!(stream.pending.is_empty());
    assert!(stream.current.commands.is_empty());
}

#[test]
fn work_after_submit_lands_in_the_fresh_recording() {
    let mut stream = CommandStream::with_open_recording();
    let _ = stream.submit_and_clear();
    stream.push_command(marker_command(42));
    let submission = stream.submit_and_clear();
    assert_eq!(submission.len(), 1);
    assert_eq!(marker_tag(&submission[0].commands[0]), 42);
}
