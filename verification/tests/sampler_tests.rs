//! The precomputed 16-entry sampler table.

use webgpu::sampling::{
    AddressMode, CompareFunction, FilterMode, NEAREST_MAG, NEAREST_MIN, REPEAT_U, REPEAT_V,
    TextureSamplingFlags, create_sampler_table, sampler_descriptor,
};

#[test]
fn the_table_has_all_sixteen_combinations() {
    let table = create_sampler_table();
    assert_eq!(table.len(), 16);
    for bits in 0u8..16 {
        assert_eq!(table[bits as usize], sampler_descriptor(TextureSamplingFlags { bits }));
    }
}

#[test]
fn no_flags_means_clamped_linear() {
    let d = sampler_descriptor(TextureSamplingFlags { bits: 0 });
    assert_eq!(d.address_mode_u, AddressMode::ClampToEdge);
    assert_eq!(d.address_mode_v, AddressMode::ClampToEdge);
    assert_eq!(d.address_mode_w, AddressMode::ClampToEdge);
    assert_eq!(d.mag_filter, FilterMode::Linear);
    assert_eq!(d.min_filter, FilterMode::Linear);
}

#[test]
fn each_flag_switches_its_field() {
    let d = sampler_descriptor(TextureSamplingFlags { bits: REPEAT_U });
    assert_eq!(d.address_mode_u, AddressMode::Repeat);
    assert_eq!(d.address_mode_v, AddressMode::ClampToEdge);

    let d = sampler_descriptor(TextureSamplingFlags { bits: REPEAT_V });
    assert_eq!(d.address_mode_u, AddressMode::ClampToEdge);
    assert_eq!(d.address_mode_v, AddressMode::Repeat);

    let d = sampler_descriptor(TextureSamplingFlags { bits: NEAREST_MIN });
    assert_eq!(d.min_filter, FilterMode::Nearest);
    assert_eq!(d.mag_filter, FilterMode::Linear);

    let d = sampler_descriptor(TextureSamplingFlags { bits: NEAREST_MAG });
    assert_eq!(d.mag_filter, FilterMode::Nearest);
    assert_eq!(d.min_filter, FilterMode::Linear);
}

#[test]
fn all_flags_together() {
    let d = sampler_descriptor(TextureSamplingFlags { bits: 0x0f });
    assert_eq!(d.address_mode_u, AddressMode::Repeat);
    assert_eq!(d.address_mode_v, AddressMode::Repeat);
    assert_eq!(d.address_mode_w, AddressMode::ClampToEdge);
    assert_eq!(d.mag_filter, FilterMode::Nearest);
    assert_eq!(d.min_filter, FilterMode::Nearest);
}

#[test]
fn samplers_never_mipmap_and_never_compare() {
    for bits in 0u8..16 {
        let d = sampler_descriptor(TextureSamplingFlags { bits });
        assert_eq!(d.mipmap_filter, FilterMode::Nearest);
        assert_eq!(d.compare, CompareFunction::Never);
    }
}
