//! Device construction, resources, and texture uploads.

use webgpu::buffer::{BufferData, BufferTarget, BufferUploadMode};
use webgpu::device::{FeatureLevel, WebGpuDevice};
use webgpu::error::GpuError;
use webgpu::formats::TextureFormat;
use webgpu::geom::{RectI, Vector2I};
use webgpu::sampling::{TextureSamplingFlags, sampler_descriptor};
use webgpu::stream::GpuCommand;
use webgpu::texture::TextureData;

fn full_rect(size: Vector2I) -> RectI {
    RectI::new(Vector2I::zero(), size)
}

#[test]
fn a_new_device_has_sixteen_samplers_and_one_open_recording() {
    let device = WebGpuDevice::new(Vector2I::new(640, 480));
    assert_eq!(device.samplers.len(), 16);
    for bits in 0u8..16 {
        assert_eq!(device.samplers[bits as usize], sampler_descriptor(TextureSamplingFlags { bits }));
    }
    assert!(device.stream.pending.is_empty());
    assert!(device.stream.current.commands.is_empty());
    assert_eq!(device.feature_level(), FeatureLevel::D3D11);
}

#[test]
fn buffers_are_declared_empty_and_allocated_on_first_use() {
    let mut device = WebGpuDevice::new(Vector2I::new(8, 8));
    let buffer = device.create_buffer(BufferUploadMode::Static);
    let prev = device.allocate_buffer(&buffer, &BufferData::Uninitialized(256), BufferTarget::Vertex);
    assert!(prev.is_none());

    let slot = &device.buffers[buffer.slot];
    let storage = slot.assume_init();
    assert_eq!(storage.size, 256);
    assert!(storage.usage.vertex);
    assert!(!storage.usage.index);
    assert!(storage.usage.copy_src);
    assert!(storage.usage.copy_dst);
}

#[test]
fn reallocating_returns_the_previous_allocation() {
    let mut device = WebGpuDevice::new(Vector2I::new(8, 8));
    let buffer = device.create_buffer(BufferUploadMode::Dynamic);
    let first = device.allocate_buffer(&buffer, &BufferData::Uninitialized(16), BufferTarget::Index);
    assert!(first.is_none());
    let bytes = vec![0u8; 24];
    let prev = device.allocate_buffer(&buffer, &BufferData::Memory(bytes), BufferTarget::Index);
    let prev = prev.unwrap();
    assert_eq!(prev.size, 16);
    assert!(prev.usage.index);
    let storage = device.buffers[buffer.slot].assume_init();
    assert_eq!(storage.size, 24);
    assert!(storage.id > prev.id);
}

#[test]
fn texture_creation_respects_the_size_limit() {
    let mut device = WebGpuDevice::new(Vector2I::new(8, 8));
    let r = device.create_texture(TextureFormat::RGBA8, Vector2I::new(8193, 4));
    assert_eq!(r.unwrap_err(), GpuError::TextureSizeUnsupported);
    let r = device.create_texture(TextureFormat::RGBA8, Vector2I::new(4, -1));
    assert_eq!(r.unwrap_err(), GpuError::TextureSizeUnsupported);

    let texture = device.create_texture(TextureFormat::RGBA8, Vector2I::new(4, 2)).unwrap();
    assert_eq!(device.texture_format(&texture), TextureFormat::RGBA8);
    assert_eq!(device.texture_size(&texture), Vector2I::new(4, 2));
}

#[test]
fn sampling_mode_updates_in_place() {
    let mut device = WebGpuDevice::new(Vector2I::new(8, 8));
    let texture = device.create_texture(TextureFormat::R8, Vector2I::new(2, 2)).unwrap();
    assert_eq!(device.textures[texture.index].sampling_flags.bits, 0);
    device.set_texture_sampling_mode(&texture, TextureSamplingFlags { bits: 5 });
    assert_eq!(device.textures[texture.index].sampling_flags.bits, 5);
    assert_eq!(device.texture_format(&texture), TextureFormat::R8);
}

#[test]
fn framebuffers_wrap_their_texture() {
    let mut device = WebGpuDevice::new(Vector2I::new(8, 8));
    let texture = device.create_texture(TextureFormat::RGBA8, Vector2I::new(4, 4)).unwrap();
    let framebuffer = device.create_framebuffer(texture);
    assert_eq!(*device.framebuffer_texture(&framebuffer), texture);
}

#[test]
fn full_rect_upload_records_one_copy() {
    let mut device = WebGpuDevice::new(Vector2I::new(8, 8));
    let size = Vector2I::new(3, 2);
    let texture = device.create_texture(TextureFormat::R8, size).unwrap();
    let texture_id = device.textures[texture.index].id;
    let data = TextureData::U8(vec![7, 1, 2, 3, 4, 5]);
    device.upload_to_texture(&texture, full_rect(size), &data).unwrap();

    assert_eq!(device.stream.current.commands.len(), 1);
    match &device.stream.current.commands[0] {
        GpuCommand::CopyBufferToTexture {
            source,
            bytes_per_row,
            rows_per_image,
            texture: target,
            mip_level,
            extent,
        } => {
            // The staging buffer holds the packed payload verbatim and
            // is only ever copied from.
            assert_eq!(source.bytes, vec![7, 1, 2, 3, 4, 5]);
            assert!(source.usage.copy_src);
            assert!(!source.usage.copy_dst);
            assert!(!source.usage.vertex && !source.usage.index && !source.usage.storage);
            assert_eq!(*bytes_per_row, 3);
            assert_eq!(*rows_per_image, 2);
            assert_eq!(*target, texture_id);
            // The adapter's textures are single-mip: their only level.
            assert_eq!(*mip_level, 0);
            assert_eq!(*extent, size);
        }
        GpuCommand::DrawIndexed { .. } => panic!("expected a copy"),
    }
}

#[test]
fn rgba_uploads_count_four_elements_per_texel() {
    let mut device = WebGpuDevice::new(Vector2I::new(8, 8));
    let size = Vector2I::new(2, 2);
    let texture = device.create_texture(TextureFormat::RGBA32F, size).unwrap();
    let mut elements = vec![0u32; 16];
    elements[0] = 0x0403_0201;
    let data = TextureData::F32(elements);
    device.upload_to_texture(&texture, full_rect(size), &data).unwrap();
    match &device.stream.current.commands[0] {
        GpuCommand::CopyBufferToTexture { source, bytes_per_row, .. } => {
            assert_eq!(source.bytes.len(), 64);
            // 32-bit elements are packed little-endian.
            assert_eq!(&source.bytes[0..4], &[1, 2, 3, 4]);
            assert_eq!(*bytes_per_row, 32);
        }
        GpuCommand::DrawIndexed { .. } => panic!("expected a copy"),
    }
}

#[test]
fn half_float_uploads_pack_little_endian() {
    let mut device = WebGpuDevice::new(Vector2I::new(8, 8));
    let size = Vector2I::new(1, 1);
    let texture = device.create_texture(TextureFormat::RGBA16F, size).unwrap();
    let data = TextureData::F16(vec![0x3c00, 0x0102, 0xbeef, 0x0000]);
    device.upload_to_texture(&texture, full_rect(size), &data).unwrap();
    match &device.stream.current.commands[0] {
        GpuCommand::CopyBufferToTexture { source, bytes_per_row, mip_level, .. } => {
            assert_eq!(source.bytes, vec![0x00, 0x3c, 0x02, 0x01, 0xef, 0xbe, 0x00, 0x00]);
            assert_eq!(*bytes_per_row, 8);
            assert_eq!(*mip_level, 0);
        }
        GpuCommand::DrawIndexed { .. } => panic!("expected a copy"),
    }
}

#[test]
fn mismatched_element_count_fails_and_records_nothing() {
    let mut device = WebGpuDevice::new(Vector2I::new(8, 8));
    let size = Vector2I::new(3, 2);
    let texture = device.create_texture(TextureFormat::R8, size).unwrap();
    let short = TextureData::U8(vec![7u8; 5]);
    let r = device.upload_to_texture(&texture, full_rect(size), &short);
    assert_eq!(r.unwrap_err(), GpuError::TextureDataMismatch);
    let long = TextureData::U8(vec![7u8; 7]);
    let r = device.upload_to_texture(&texture, full_rect(size), &long);
    assert_eq!(r.unwrap_err(), GpuError::TextureDataMismatch);
    assert!(device.stream.current.commands.is_empty());
}

#[test]
fn mismatched_element_type_fails() {
    let mut device = WebGpuDevice::new(Vector2I::new(8, 8));
    let size = Vector2I::new(2, 1);
    let texture = device.create_texture(TextureFormat::R8, size).unwrap();
    let wrong = TextureData::F32(vec![0u32; 2]);
    let r = device.upload_to_texture(&texture, full_rect(size), &wrong);
    assert_eq!(r.unwrap_err(), GpuError::TextureDataMismatch);

    let half_red = device.create_texture(TextureFormat::R16F, size).unwrap();
    let r = device.upload_to_texture(&half_red, full_rect(size), &TextureData::F16(vec![0u16; 2]));
    assert_eq!(r.unwrap_err(), GpuError::TextureDataMismatch);

    let r = device.upload_to_texture(&texture, full_rect(size), &TextureData::U16(vec![0u16; 2]));
    assert_eq!(r.unwrap_err(), GpuError::TextureDataMismatch);
    assert!(device.stream.current.commands.is_empty());
}

#[test]
fn create_texture_from_data_creates_and_uploads() {
    let mut device = WebGpuDevice::new(Vector2I::new(8, 8));
    let size = Vector2I::new(2, 2);
    let texture = device
        .create_texture_from_data(TextureFormat::RGBA8, size, &TextureData::U8(vec![1u8; 16]))
        .unwrap();
    assert_eq!(device.texture_size(&texture), size);
    assert_eq!(device.stream.current.commands.len(), 1);

    let r = device.create_texture_from_data(
        TextureFormat::RGBA8,
        size,
        &TextureData::U8(vec![1u8; 15]),
    );
    assert_eq!(r.unwrap_err(), GpuError::TextureDataMismatch);
    assert_eq!(device.textures.len(), 1);
    assert_eq!(device.stream.current.commands.len(), 1);
}

#[test]
fn unimplemented_capabilities_fail_distinctly() {
    let device = WebGpuDevice::new(Vector2I::new(8, 8));
    assert_eq!(device.add_fence().unwrap_err(), GpuError::Unimplemented);
    assert_eq!(device.wait_for_fence().unwrap_err(), GpuError::Unimplemented);
    let query = device.create_timer_query();
    assert_eq!(device.begin_timer_query(&query).unwrap_err(), GpuError::Unimplemented);
    assert_eq!(device.end_timer_query(&query).unwrap_err(), GpuError::Unimplemented);
    assert_eq!(device.try_recv_timer_query(&query).unwrap_err(), GpuError::Unimplemented);
    assert_eq!(device.recv_timer_query(&query).unwrap_err(), GpuError::Unimplemented);
    assert_eq!(
        device
            .dispatch_compute(webgpu::device::ComputeDimensions { x: 1, y: 1, z: 1 })
            .unwrap_err(),
        GpuError::Unimplemented
    );
}

#[test]
fn storage_allocations_carry_storage_usage() {
    let mut device = WebGpuDevice::new(Vector2I::new(8, 8));
    let buffer = device.create_buffer(BufferUploadMode::Static);
    device.allocate_buffer(&buffer, &BufferData::Uninitialized(64), BufferTarget::Storage);
    let storage = device.buffers[buffer.slot].assume_init();
    assert!(storage.usage.storage);
    assert!(!storage.usage.vertex);
    assert!(!storage.usage.index);
}

#[test]
fn uploads_go_into_whatever_recording_is_open() {
    let mut device = WebGpuDevice::new(Vector2I::new(8, 8));
    let size = Vector2I::new(1, 1);
    let texture = device.create_texture(TextureFormat::R8, size).unwrap();
    device
        .upload_to_texture(&texture, full_rect(size), &TextureData::U8(vec![1]))
        .unwrap();
    device.begin_commands();
    device
        .upload_to_texture(&texture, full_rect(size), &TextureData::U8(vec![2]))
        .unwrap();
    let submission = device.end_frame();
    assert_eq!(submission.len(), 2);
    assert_eq!(submission[0].commands.len(), 1);
    assert_eq!(submission[1].commands.len(), 1);
}
