use ash::vk;
use fuzzyblue::raw;

#[test]
fn access_masks_are_those_of_the_api() {
    assert_eq!(raw::ACCESS_UNIFORM_READ, vk::AccessFlags::UNIFORM_READ.as_raw());
    assert_eq!(raw::ACCESS_SHADER_READ, vk::AccessFlags::SHADER_READ.as_raw());
    assert_eq!(raw::ACCESS_SHADER_WRITE, vk::AccessFlags::SHADER_WRITE.as_raw());
    assert_eq!(raw::ACCESS_TRANSFER_WRITE, vk::AccessFlags::TRANSFER_WRITE.as_raw());
}

#[test]
fn stages_are_those_of_the_api() {
    assert_eq!(raw::STAGE_FRAGMENT_SHADER, vk::PipelineStageFlags::FRAGMENT_SHADER.as_raw());
    assert_eq!(raw::STAGE_COMPUTE_SHADER, vk::PipelineStageFlags::COMPUTE_SHADER.as_raw());
    assert_eq!(raw::STAGE_TRANSFER, vk::PipelineStageFlags::TRANSFER.as_raw());
    assert_eq!(raw::SHADER_STAGE_VERTEX, vk::ShaderStageFlags::VERTEX.as_raw());
    assert_eq!(raw::SHADER_STAGE_FRAGMENT, vk::ShaderStageFlags::FRAGMENT.as_raw());
    assert_eq!(raw::SHADER_STAGE_COMPUTE, vk::ShaderStageFlags::COMPUTE.as_raw());
}

#[test]
fn layouts_are_those_of_the_api() {
    assert_eq!(raw::LAYOUT_UNDEFINED, vk::ImageLayout::UNDEFINED.as_raw());
    assert_eq!(raw::LAYOUT_GENERAL, vk::ImageLayout::GENERAL.as_raw());
    assert_eq!(
        raw::LAYOUT_SHADER_READ_ONLY_OPTIMAL,
        vk::ImageLayout::SHADER_READ_ONLY_OPTIMAL.as_raw()
    );
    assert_eq!(raw::LAYOUT_TRANSFER_DST_OPTIMAL, vk::ImageLayout::TRANSFER_DST_OPTIMAL.as_raw());
}

#[test]
fn descriptor_types_are_those_of_the_api() {
    assert_eq!(
        raw::DESCRIPTOR_COMBINED_IMAGE_SAMPLER,
        vk::DescriptorType::COMBINED_IMAGE_SAMPLER.as_raw()
    );
    assert_eq!(raw::DESCRIPTOR_STORAGE_IMAGE, vk::DescriptorType::STORAGE_IMAGE.as_raw());
    assert_eq!(raw::DESCRIPTOR_UNIFORM_BUFFER, vk::DescriptorType::UNIFORM_BUFFER.as_raw());
    assert_eq!(raw::DESCRIPTOR_INPUT_ATTACHMENT, vk::DescriptorType::INPUT_ATTACHMENT.as_raw());
}

#[test]
fn image_values_are_those_of_the_api() {
    assert_eq!(raw::IMAGE_USAGE_TRANSFER_DST, vk::ImageUsageFlags::TRANSFER_DST.as_raw());
    assert_eq!(raw::IMAGE_USAGE_SAMPLED, vk::ImageUsageFlags::SAMPLED.as_raw());
    assert_eq!(raw::IMAGE_USAGE_STORAGE, vk::ImageUsageFlags::STORAGE.as_raw());
    assert_eq!(raw::IMAGE_ASPECT_COLOR, vk::ImageAspectFlags::COLOR.as_raw());
    assert_eq!(raw::SAMPLE_COUNT_1, vk::SampleCountFlags::TYPE_1.as_raw());
    assert_eq!(raw::IMAGE_TYPE_1D, vk::ImageType::TYPE_1D.as_raw());
    assert_eq!(raw::IMAGE_TYPE_2D, vk::ImageType::TYPE_2D.as_raw());
    assert_eq!(raw::IMAGE_TYPE_3D, vk::ImageType::TYPE_3D.as_raw());
    assert_eq!(raw::IMAGE_VIEW_TYPE_1D, vk::ImageViewType::TYPE_1D.as_raw());
    assert_eq!(raw::IMAGE_VIEW_TYPE_2D, vk::ImageViewType::TYPE_2D.as_raw());
    assert_eq!(raw::IMAGE_VIEW_TYPE_3D, vk::ImageViewType::TYPE_3D.as_raw());
    assert_eq!(raw::FORMAT_R16G16B16A16_SFLOAT, vk::Format::R16G16B16A16_SFLOAT.as_raw());
    assert_eq!(raw::FORMAT_R32G32B32A32_SFLOAT, vk::Format::R32G32B32A32_SFLOAT.as_raw());
    assert_eq!(raw::IMAGE_TILING_OPTIMAL, vk::ImageTiling::OPTIMAL.as_raw());
    assert_eq!(raw::SHARING_MODE_EXCLUSIVE, vk::SharingMode::EXCLUSIVE.as_raw());
    assert_eq!(raw::COMPONENT_SWIZZLE_IDENTITY, vk::ComponentSwizzle::IDENTITY.as_raw());
}

#[test]
fn buffer_and_memory_values_are_those_of_the_api() {
    assert_eq!(raw::BUFFER_USAGE_TRANSFER_DST, vk::BufferUsageFlags::TRANSFER_DST.as_raw());
    assert_eq!(raw::BUFFER_USAGE_UNIFORM_BUFFER, vk::BufferUsageFlags::UNIFORM_BUFFER.as_raw());
    assert_eq!(raw::MEMORY_PROPERTY_DEVICE_LOCAL, vk::MemoryPropertyFlags::DEVICE_LOCAL.as_raw());
    assert_eq!(raw::MAX_MEMORY_TYPES as usize, vk::MAX_MEMORY_TYPES);
    assert_eq!(raw::WHOLE_SIZE, vk::WHOLE_SIZE);
    assert_eq!(raw::QUEUE_FAMILY_IGNORED, vk::QUEUE_FAMILY_IGNORED);
}

#[test]
fn pipeline_values_are_those_of_the_api() {
    assert_eq!(raw::BIND_POINT_GRAPHICS, vk::PipelineBindPoint::GRAPHICS.as_raw());
    assert_eq!(raw::BIND_POINT_COMPUTE, vk::PipelineBindPoint::COMPUTE.as_raw());
    assert_eq!(raw::FILTER_LINEAR, vk::Filter::LINEAR.as_raw());
    assert_eq!(raw::MIPMAP_MODE_NEAREST, vk::SamplerMipmapMode::NEAREST.as_raw());
    assert_eq!(raw::ADDRESS_MODE_CLAMP_TO_EDGE, vk::SamplerAddressMode::CLAMP_TO_EDGE.as_raw());
    assert_eq!(raw::TOPOLOGY_TRIANGLE_LIST, vk::PrimitiveTopology::TRIANGLE_LIST.as_raw());
    assert_eq!(raw::CULL_MODE_NONE, vk::CullModeFlags::NONE.as_raw());
    assert_eq!(raw::POLYGON_MODE_FILL, vk::PolygonMode::FILL.as_raw());
    assert_eq!(raw::STENCIL_OP_KEEP, vk::StencilOp::KEEP.as_raw());
    assert_eq!(raw::COMPARE_OP_ALWAYS, vk::CompareOp::ALWAYS.as_raw());
    assert_eq!(raw::BLEND_FACTOR_ZERO, vk::BlendFactor::ZERO.as_raw());
    assert_eq!(raw::BLEND_FACTOR_ONE, vk::BlendFactor::ONE.as_raw());
    assert_eq!(raw::BLEND_FACTOR_SRC1_COLOR, vk::BlendFactor::SRC1_COLOR.as_raw());
    assert_eq!(raw::BLEND_OP_ADD, vk::BlendOp::ADD.as_raw());
    assert_eq!(raw::COLOR_COMPONENT_ALL, vk::ColorComponentFlags::all().as_raw());
    assert_eq!(raw::DYNAMIC_STATE_VIEWPORT, vk::DynamicState::VIEWPORT.as_raw());
    assert_eq!(raw::DYNAMIC_STATE_SCISSOR, vk::DynamicState::SCISSOR.as_raw());
}

#[test]
fn contains_agrees_with_the_api() {
    let cases = [(0u32, 0u32), (1, 1), (1, 0), (0, 1), (0b1010, 0b1000), (0b1010, 0b0110), (7, 7)];
    for (flags, wanted) in cases.iter() {
        let theirs = vk::MemoryPropertyFlags::from_raw(*flags)
            .contains(vk::MemoryPropertyFlags::from_raw(*wanted));
        assert_eq!(raw::contains(*flags, *wanted), theirs);
    }
    assert!(raw::contains(0b110, 0b010));
    assert!(!raw::contains(0b100, 0b010));
}
