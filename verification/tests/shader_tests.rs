//! Shader module creation, reflection, and attribute lookup.

use webgpu::device::WebGpuDevice;
use webgpu::error::GpuError;
use webgpu::geom::Vector2I;
use webgpu::shader::{ProgramKind, ShaderKind, attr_table, lookup_location, shader_suffix};

/// The reflected input variables of a typical vertex module: one
/// prefixed attribute `aPos` at location 0, and a builtin.
fn pos_inputs() -> Vec<(String, u32)> {
    vec![("aPos".to_string(), 0u32), ("gl_VertexIndex".to_string(), 42u32)]
}

fn no_inputs() -> Vec<(String, u32)> {
    Vec::new()
}

#[test]
fn vertex_shader_keeps_prefixed_inputs() {
    let mut device = WebGpuDevice::new(Vector2I::new(64, 64));
    let shader = device
        .create_shader_from_source("tiny", &[0, 0, 0, 0], ShaderKind::Vertex, &pos_inputs())
        .unwrap();
    assert_eq!(shader.kind, ShaderKind::Vertex);
    assert_eq!(shader.name.as_deref(), Some("tiny"));
    let table = shader.shader_vertex_attributes.unwrap();
    assert_eq!(table, vec![("Pos".to_string(), 0u32)]);
}

#[test]
fn vertex_attr_resolves_through_device() {
    let mut device = WebGpuDevice::new(Vector2I::new(64, 64));
    let vertex = device
        .create_shader_from_source("tiny", &[0, 0, 0, 0], ShaderKind::Vertex, &pos_inputs())
        .unwrap();
    let fragment = device
        .create_shader_from_source("frag", &[0, 0, 0, 0], ShaderKind::Fragment, &no_inputs())
        .unwrap();
    let program = device
        .create_program_from_shaders("prog", ProgramKind::Raster { vertex, fragment })
        .unwrap();
    let attr = device.get_vertex_attr(&program, "Pos").unwrap();
    assert_eq!(attr.name, "Pos");
    assert_eq!(attr.bind_location, 0);
    assert!(device.get_vertex_attr(&program, "Missing").is_none());
}

#[test]
fn shader_binary_length_must_be_whole_words() {
    let mut device = WebGpuDevice::new(Vector2I::new(8, 8));
    let r = device.create_shader_from_source("bad", &[1, 2, 3], ShaderKind::Vertex, &pos_inputs());
    assert_eq!(r.unwrap_err(), GpuError::MalformedShaderBinary);
    let r = device.create_shader_from_source("bad", &[1, 2, 3, 4, 5], ShaderKind::Fragment, &no_inputs());
    assert_eq!(r.unwrap_err(), GpuError::MalformedShaderBinary);
}

#[test]
fn fragment_modules_carry_no_attribute_table() {
    let mut device = WebGpuDevice::new(Vector2I::new(8, 8));
    let shader = device
        .create_shader_from_source("frag", &[0, 0, 0, 0], ShaderKind::Fragment, &pos_inputs())
        .unwrap();
    assert!(shader.shader_vertex_attributes.is_none());
}

#[test]
fn shader_module_ids_are_sequential() {
    let mut device = WebGpuDevice::new(Vector2I::new(8, 8));
    let a = device
        .create_shader_from_source("a", &[0, 0, 0, 0], ShaderKind::Fragment, &no_inputs())
        .unwrap();
    let b = device
        .create_shader_from_source("b", &[0, 0, 0, 0], ShaderKind::Fragment, &no_inputs())
        .unwrap();
    assert_eq!(b.module, a.module + 1);
}

#[test]
fn compute_programs_are_unimplemented() {
    let mut device = WebGpuDevice::new(Vector2I::new(8, 8));
    let shader = device
        .create_shader_from_source("c", &[0, 0, 0, 0], ShaderKind::Compute, &no_inputs())
        .unwrap();
    let r = device.create_program_from_shaders("prog", ProgramKind::Compute(shader));
    assert_eq!(r.unwrap_err(), GpuError::Unimplemented);
}

#[test]
fn attr_table_keeps_prefixed_names_stripped() {
    let inputs = vec![
        ("aPosition".to_string(), 0u32),
        ("gl_VertexIndex".to_string(), 1u32),
        ("aTexCoord".to_string(), 3u32),
        ("other".to_string(), 2u32),
    ];
    let table = attr_table(&inputs);
    assert_eq!(
        table,
        vec![("Position".to_string(), 0u32), ("TexCoord".to_string(), 3u32)]
    );
}

#[test]
fn attr_table_drops_empty_names() {
    let inputs = vec![(String::new(), 7u32), ("a".to_string(), 9u32)];
    let table = attr_table(&inputs);
    assert_eq!(table, vec![(String::new(), 9u32)]);
}

#[test]
fn lookup_prefers_the_later_entry() {
    let table = vec![
        ("Color".to_string(), 1u32),
        ("Color".to_string(), 4u32),
    ];
    assert_eq!(lookup_location(&table, "Color"), Some(4));
    assert_eq!(lookup_location(&table, "Position"), None);
}

#[test]
fn shader_suffix_letters() {
    assert_eq!(shader_suffix(ShaderKind::Vertex), 'v');
    assert_eq!(shader_suffix(ShaderKind::Fragment), 'f');
    assert_eq!(shader_suffix(ShaderKind::Compute), 'c');
}

#[test]
fn get_uniform_keeps_the_name() {
    let mut device = WebGpuDevice::new(Vector2I::new(8, 8));
    let vertex = device
        .create_shader_from_source("tiny", &[0, 0, 0, 0], ShaderKind::Vertex, &pos_inputs())
        .unwrap();
    let fragment = device
        .create_shader_from_source("frag", &[0, 0, 0, 0], ShaderKind::Fragment, &no_inputs())
        .unwrap();
    let program = device
        .create_program_from_shaders("prog", ProgramKind::Raster { vertex, fragment })
        .unwrap();
    let uniform = device.get_uniform(&program, "uTransform");
    assert_eq!(uniform.name, "uTransform");
}
