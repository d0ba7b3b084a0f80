use fuzzyblue::catalog::{
    pipeline_order, sampler_info, Binding, ImageId, PassKind, PushConstantRange, SetId,
    SetLayoutId, Slot,
};
use fuzzyblue::raw;
use fuzzyblue::resources::{
    descriptor_writes, image_order, params_buffer, persistent_pool, persistent_sets,
    transient_pool, transient_sets, view_info, DescriptorWrite, PoolInfo, PoolSize, Target,
};
use fuzzyblue::{Extent3D, Parameters};

const PASSES: [PassKind; 6] = [
    PassKind::Transmittance,
    PassKind::DirectIrradiance,
    PassKind::IndirectIrradiance,
    PassKind::SingleScattering,
    PassKind::ScatteringDensity,
    PassKind::MultipleScattering,
];

fn sampled(image: ImageId) -> Slot {
    Slot { descriptor_type: raw::DESCRIPTOR_COMBINED_IMAGE_SAMPLER, image: Some(image) }
}

fn storage(image: ImageId) -> Slot {
    Slot { descriptor_type: raw::DESCRIPTOR_STORAGE_IMAGE, image: Some(image) }
}

#[test]
fn transmittance_pass_stores_its_table() {
    assert_eq!(SetId::Pass(PassKind::Transmittance).slots(), vec![storage(ImageId::Transmittance)]);
}

#[test]
fn direct_irradiance_pass_reads_transmittance() {
    assert_eq!(
        SetId::Pass(PassKind::DirectIrradiance).slots(),
        vec![sampled(ImageId::Transmittance), storage(ImageId::DeltaIrradiance)]
    );
}

#[test]
fn indirect_irradiance_pass_adds_to_the_table() {
    assert_eq!(
        SetId::Pass(PassKind::IndirectIrradiance).slots(),
        vec![
            sampled(ImageId::DeltaRayleigh),
            sampled(ImageId::DeltaMie),
            sampled(ImageId::DeltaMultipleScattering),
            storage(ImageId::DeltaIrradiance),
            storage(ImageId::Irradiance),
        ]
    );
}

#[test]
fn single_scattering_pass_fills_three_images() {
    assert_eq!(
        SetId::Pass(PassKind::SingleScattering).slots(),
        vec![
            sampled(ImageId::Transmittance),
            storage(ImageId::DeltaRayleigh),
            storage(ImageId::DeltaMie),
            storage(ImageId::Scattering),
        ]
    );
}

#[test]
fn scattering_density_pass_reads_the_order_before() {
    assert_eq!(
        SetId::Pass(PassKind::ScatteringDensity).slots(),
        vec![
            sampled(ImageId::Transmittance),
            sampled(ImageId::DeltaRayleigh),
            sampled(ImageId::DeltaMie),
            sampled(ImageId::DeltaMultipleScattering),
            sampled(ImageId::DeltaIrradiance),
            storage(ImageId::ScatteringDensity),
        ]
    );
}

#[test]
fn multiple_scattering_pass_adds_to_the_table() {
    assert_eq!(
        SetId::Pass(PassKind::MultipleScattering).slots(),
        vec![
            sampled(ImageId::Transmittance),
            sampled(ImageId::ScatteringDensity),
            storage(ImageId::DeltaMultipleScattering),
            storage(ImageId::Scattering),
        ]
    );
}

#[test]
fn parameter_set_is_one_uniform_buffer() {
    assert_eq!(
        SetLayoutId::Run(SetId::Params).bindings(),
        vec![Binding {
            binding: 0,
            descriptor_type: raw::DESCRIPTOR_UNIFORM_BUFFER,
            descriptor_count: 1,
            stage_flags: raw::SHADER_STAGE_COMPUTE,
            immutable_sampler: false,
        }]
    );
}

#[test]
fn render_set_is_read_by_fragment_shaders() {
    let bindings = SetLayoutId::Run(SetId::Render).bindings();
    assert_eq!(bindings.len(), 3);
    assert_eq!(bindings[0].descriptor_type, raw::DESCRIPTOR_UNIFORM_BUFFER);
    assert!(!bindings[0].immutable_sampler);
    for (i, b) in bindings.iter().enumerate() {
        assert_eq!(b.binding, i as u32);
        assert_eq!(b.stage_flags, raw::SHADER_STAGE_FRAGMENT);
        assert_eq!(b.descriptor_count, 1);
    }
    assert_eq!(bindings[1].descriptor_type, raw::DESCRIPTOR_COMBINED_IMAGE_SAMPLER);
    assert_eq!(bindings[2].descriptor_type, raw::DESCRIPTOR_COMBINED_IMAGE_SAMPLER);
    assert!(bindings[1].immutable_sampler && bindings[2].immutable_sampler);
    assert_eq!(
        SetId::Render.slots(),
        vec![
            Slot { descriptor_type: raw::DESCRIPTOR_UNIFORM_BUFFER, image: None },
            sampled(ImageId::Transmittance),
            sampled(ImageId::Scattering),
        ]
    );
}

#[test]
fn frame_set_is_one_input_attachment() {
    assert_eq!(
        SetLayoutId::Frame.bindings(),
        vec![Binding {
            binding: 0,
            descriptor_type: raw::DESCRIPTOR_INPUT_ATTACHMENT,
            descriptor_count: 1,
            stage_flags: raw::SHADER_STAGE_FRAGMENT,
            immutable_sampler: false,
        }]
    );
}

#[test]
fn bindings_follow_slots() {
    for pass in PASSES.iter() {
        let set = SetId::Pass(*pass);
        let slots = set.slots();
        let bindings = SetLayoutId::Run(set).bindings();
        assert_eq!(slots.len(), bindings.len());
        for (i, (slot, binding)) in slots.iter().zip(bindings.iter()).enumerate() {
            assert_eq!(binding.binding, i as u32);
            assert_eq!(binding.descriptor_type, slot.descriptor_type);
            assert_eq!(binding.descriptor_count, 1);
            assert_eq!(binding.stage_flags, raw::SHADER_STAGE_COMPUTE);
            assert_eq!(
                binding.immutable_sampler,
                slot.descriptor_type == raw::DESCRIPTOR_COMBINED_IMAGE_SAMPLER
            );
        }
    }
}

#[test]
fn direct_irradiance_bindings() {
    assert_eq!(
        SetLayoutId::Run(SetId::Pass(PassKind::DirectIrradiance)).bindings(),
        vec![
            Binding {
                binding: 0,
                descriptor_type: 1,
                descriptor_count: 1,
                stage_flags: 0x20,
                immutable_sampler: true,
            },
            Binding {
                binding: 1,
                descriptor_type: 3,
                descriptor_count: 1,
                stage_flags: 0x20,
                immutable_sampler: false,
            },
        ]
    );
}

#[test]
fn higher_order_passes_take_a_constant() {
    let range = Some(PushConstantRange { stage_flags: raw::SHADER_STAGE_COMPUTE, offset: 0, size: 4 });
    for pass in PASSES.iter() {
        let layout = pass.pipeline_layout();
        assert_eq!(layout.first, SetLayoutId::Run(SetId::Params));
        assert_eq!(layout.second, SetLayoutId::Run(SetId::Pass(*pass)));
        let takes = matches!(
            pass,
            PassKind::IndirectIrradiance | PassKind::ScatteringDensity | PassKind::MultipleScattering
        );
        assert_eq!(pass.declares_push_constants(), takes);
        assert_eq!(layout.push_constants, if takes { range } else { None });
    }
}

#[test]
fn pipelines_are_created_in_order() {
    assert_eq!(pipeline_order(), PASSES.to_vec());
}

#[test]
fn sampler_is_linear_and_clamped() {
    let s = sampler_info();
    assert_eq!(s.min_filter, raw::FILTER_LINEAR);
    assert_eq!(s.mag_filter, raw::FILTER_LINEAR);
    assert_eq!(s.mipmap_mode, raw::MIPMAP_MODE_NEAREST);
    assert_eq!(s.address_mode_u, raw::ADDRESS_MODE_CLAMP_TO_EDGE);
    assert_eq!(s.address_mode_v, raw::ADDRESS_MODE_CLAMP_TO_EDGE);
    assert_eq!(s.address_mode_w, raw::ADDRESS_MODE_CLAMP_TO_EDGE);
}

#[test]
fn transient_pool_holds_the_sets_of_the_passes() {
    assert_eq!(
        transient_pool(),
        PoolInfo { max_sets: 7, uniform_buffers: 1, combined_image_samplers: 12, storage_images: 10 }
    );
    assert_eq!(
        transient_pool().sizes(),
        vec![
            PoolSize { descriptor_type: raw::DESCRIPTOR_UNIFORM_BUFFER, descriptor_count: 1 },
            PoolSize { descriptor_type: raw::DESCRIPTOR_COMBINED_IMAGE_SAMPLER, descriptor_count: 12 },
            PoolSize { descriptor_type: raw::DESCRIPTOR_STORAGE_IMAGE, descriptor_count: 10 },
        ]
    );
}

#[test]
fn persistent_pool_holds_the_render_set() {
    assert_eq!(
        persistent_pool(),
        PoolInfo { max_sets: 1, uniform_buffers: 1, combined_image_samplers: 2, storage_images: 0 }
    );
    assert_eq!(
        persistent_pool().sizes(),
        vec![
            PoolSize { descriptor_type: raw::DESCRIPTOR_UNIFORM_BUFFER, descriptor_count: 1 },
            PoolSize { descriptor_type: raw::DESCRIPTOR_COMBINED_IMAGE_SAMPLER, descriptor_count: 2 },
        ]
    );
}

#[test]
fn pools_have_room_for_what_the_sets_hold() {
    for (pool, sets) in [(transient_pool(), transient_sets()), (persistent_pool(), persistent_sets())] {
        let count = |ty: i32| -> u32 {
            sets.iter().map(|s| s.slots().iter().filter(|x| x.descriptor_type == ty).count() as u32).sum()
        };
        assert_eq!(pool.max_sets as usize, sets.len());
        assert_eq!(pool.uniform_buffers, count(raw::DESCRIPTOR_UNIFORM_BUFFER));
        assert_eq!(pool.combined_image_samplers, count(raw::DESCRIPTOR_COMBINED_IMAGE_SAMPLER));
        assert_eq!(pool.storage_images, count(raw::DESCRIPTOR_STORAGE_IMAGE));
    }
}

#[test]
fn sets_are_allocated_in_order() {
    assert_eq!(
        transient_sets(),
        vec![
            SetId::Params,
            SetId::Pass(PassKind::Transmittance),
            SetId::Pass(PassKind::DirectIrradiance),
            SetId::Pass(PassKind::IndirectIrradiance),
            SetId::Pass(PassKind::SingleScattering),
            SetId::Pass(PassKind::ScatteringDensity),
            SetId::Pass(PassKind::MultipleScattering),
        ]
    );
    assert_eq!(persistent_sets(), vec![SetId::Render]);
}

#[test]
fn every_binding_is_written_once() {
    let writes = descriptor_writes();
    assert_eq!(writes.len(), 26);
    let mut sets = transient_sets();
    sets.push(SetId::Render);
    for set in sets.iter() {
        for (i, slot) in set.slots().iter().enumerate() {
            let found: Vec<&DescriptorWrite> = writes
                .iter()
                .filter(|w| w.dst_set == *set && w.dst_binding == i as u32)
                .collect();
            assert_eq!(found.len(), 1);
            assert_eq!(found[0].descriptor_type, slot.descriptor_type);
        }
    }
}

#[test]
fn writes_name_the_layout_of_their_use() {
    for w in descriptor_writes().iter() {
        match w.target {
            Target::Buffer { offset, range } => {
                assert_eq!(w.descriptor_type, raw::DESCRIPTOR_UNIFORM_BUFFER);
                assert_eq!(offset, 0);
                assert_eq!(range, raw::WHOLE_SIZE);
            }
            Target::Image { image_layout, .. } => {
                if w.descriptor_type == raw::DESCRIPTOR_STORAGE_IMAGE {
                    assert_eq!(image_layout, raw::LAYOUT_GENERAL);
                } else {
                    assert_eq!(w.descriptor_type, raw::DESCRIPTOR_COMBINED_IMAGE_SAMPLER);
                    assert_eq!(image_layout, raw::LAYOUT_SHADER_READ_ONLY_OPTIMAL);
                }
            }
        }
    }
}

#[test]
fn writes_come_set_by_set() {
    let writes = descriptor_writes();
    assert_eq!(
        writes[0],
        DescriptorWrite {
            dst_set: SetId::Params,
            dst_binding: 0,
            descriptor_type: raw::DESCRIPTOR_UNIFORM_BUFFER,
            target: Target::Buffer { offset: 0, range: raw::WHOLE_SIZE },
        }
    );
    assert_eq!(
        writes[1],
        DescriptorWrite {
            dst_set: SetId::Pass(PassKind::Transmittance),
            dst_binding: 0,
            descriptor_type: raw::DESCRIPTOR_STORAGE_IMAGE,
            target: Target::Image { image: ImageId::Transmittance, image_layout: raw::LAYOUT_GENERAL },
        }
    );
    assert_eq!(
        writes[25],
        DescriptorWrite {
            dst_set: SetId::Render,
            dst_binding: 2,
            descriptor_type: raw::DESCRIPTOR_COMBINED_IMAGE_SAMPLER,
            target: Target::Image {
                image: ImageId::Scattering,
                image_layout: raw::LAYOUT_SHADER_READ_ONLY_OPTIMAL,
            },
        }
    );
    assert_eq!(SetId::Params.writes(), writes[0..1].to_vec());
    assert_eq!(SetId::Render.writes(), writes[23..26].to_vec());
}

#[test]
fn images_are_created_in_order() {
    assert_eq!(
        image_order(),
        vec![
            ImageId::Transmittance,
            ImageId::DeltaIrradiance,
            ImageId::Irradiance,
            ImageId::DeltaRayleigh,
            ImageId::DeltaMie,
            ImageId::Scattering,
            ImageId::DeltaMultipleScattering,
            ImageId::ScatteringDensity,
        ]
    );
}

#[test]
fn transmittance_image_is_two_dimensional() {
    let p = Parameters { usage: 0x1, ..Parameters::default() };
    let info = ImageId::Transmittance.info(&p);
    assert_eq!(info.image_type, raw::IMAGE_TYPE_2D);
    assert_eq!(info.format, raw::FORMAT_R32G32B32A32_SFLOAT);
    assert_eq!(info.extent, Extent3D { width: 256, height: 64, depth: 1 });
    assert_eq!(info.mip_levels, 1);
    assert_eq!(info.array_layers, 1);
    assert_eq!(info.samples, raw::SAMPLE_COUNT_1);
    assert_eq!(info.tiling, raw::IMAGE_TILING_OPTIMAL);
    assert_eq!(info.usage, 0x8 | 0x4 | 0x1);
    assert_eq!(info.sharing_mode, raw::SHARING_MODE_EXCLUSIVE);
    assert_eq!(info.initial_layout, raw::LAYOUT_UNDEFINED);
}

#[test]
fn irradiance_images_can_be_cleared() {
    let p = Parameters::default();
    for image in [ImageId::Irradiance, ImageId::DeltaIrradiance] {
        let info = image.info(&p);
        assert_eq!(info.image_type, raw::IMAGE_TYPE_2D);
        assert_eq!(info.format, raw::FORMAT_R32G32B32A32_SFLOAT);
        assert_eq!(info.extent, Extent3D { width: 64, height: 16, depth: 1 });
        assert_eq!(info.usage, 0x8 | 0x4 | 0x2);
    }
}

#[test]
fn scattering_images_are_three_dimensional() {
    let p = Parameters::default();
    for image in [
        ImageId::DeltaRayleigh,
        ImageId::DeltaMie,
        ImageId::Scattering,
        ImageId::DeltaMultipleScattering,
        ImageId::ScatteringDensity,
    ] {
        let info = image.info(&p);
        assert_eq!(info.image_type, raw::IMAGE_TYPE_3D);
        assert_eq!(info.format, raw::FORMAT_R16G16B16A16_SFLOAT);
        assert_eq!(info.extent, Extent3D { width: 256, height: 128, depth: 32 });
        assert_eq!(info.usage, 0x8 | 0x4);
    }
}

#[test]
fn views_have_the_dimension_of_their_image() {
    let p = Parameters::default();
    let flat = view_info(&ImageId::Transmittance.info(&p));
    assert_eq!(flat.view_type, raw::IMAGE_VIEW_TYPE_2D);
    assert_eq!(flat.format, raw::FORMAT_R32G32B32A32_SFLOAT);
    assert_eq!(flat.components, raw::COMPONENT_SWIZZLE_IDENTITY);
    assert_eq!(flat.subresource_range.aspect_mask, raw::IMAGE_ASPECT_COLOR);
    assert_eq!(flat.subresource_range.base_mip_level, 0);
    assert_eq!(flat.subresource_range.level_count, 1);
    assert_eq!(flat.subresource_range.base_array_layer, 0);
    assert_eq!(flat.subresource_range.layer_count, 1);
    let deep = view_info(&ImageId::Scattering.info(&p));
    assert_eq!(deep.view_type, raw::IMAGE_VIEW_TYPE_3D);
    assert_eq!(deep.format, raw::FORMAT_R16G16B16A16_SFLOAT);
    let mut line = ImageId::Transmittance.info(&p);
    line.image_type = raw::IMAGE_TYPE_1D;
    assert_eq!(view_info(&line).view_type, raw::IMAGE_VIEW_TYPE_1D);
}

#[test]
fn parameter_buffer_fits_the_block() {
    let b = params_buffer();
    assert_eq!(b.size, 320);
    assert_eq!(b.usage, 0x10 | 0x2);
}
