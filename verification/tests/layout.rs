use vulkano_shaders::layout_def::{
    DescriptorBind, DescriptorType, DescriptorWrite, Layout, LayoutPossibleSuperset, ShaderStages,
};

#[test]
fn all_sets_every_stage() {
    let s = ShaderStages::all();
    assert!(s.vertex && s.tessellation_control && s.tessellation_evaluation);
    assert!(s.geometry && s.fragment && s.compute);
    assert_eq!(u32::from(s), 0x3f);
}

#[test]
fn all_graphics_leaves_compute_out() {
    let s = ShaderStages::all_graphics();
    assert!(s.vertex && s.tessellation_control && s.tessellation_evaluation);
    assert!(s.geometry && s.fragment && !s.compute);
    assert_eq!(u32::from(s), vk_sys::SHADER_STAGE_ALL_GRAPHICS);
}

#[test]
fn compute_sets_compute_alone() {
    let s = ShaderStages::compute();
    assert!(!s.vertex && !s.tessellation_control && !s.tessellation_evaluation);
    assert!(!s.geometry && !s.fragment && s.compute);
    assert_eq!(u32::from(s), vk_sys::SHADER_STAGE_COMPUTE_BIT);
}

#[test]
fn descriptor_types_have_the_numbers_of_the_api() {
    assert_eq!(DescriptorType::Sampler.vk_enum(), vk_sys::DESCRIPTOR_TYPE_SAMPLER);
    assert_eq!(
        DescriptorType::CombinedImageSampler.vk_enum(),
        vk_sys::DESCRIPTOR_TYPE_COMBINED_IMAGE_SAMPLER
    );
    assert_eq!(DescriptorType::SampledImage.vk_enum(), vk_sys::DESCRIPTOR_TYPE_SAMPLED_IMAGE);
    assert_eq!(DescriptorType::StorageImage.vk_enum(), vk_sys::DESCRIPTOR_TYPE_STORAGE_IMAGE);
    assert_eq!(
        DescriptorType::UniformTexelBuffer.vk_enum(),
        vk_sys::DESCRIPTOR_TYPE_UNIFORM_TEXEL_BUFFER
    );
    assert_eq!(
        DescriptorType::StorageTexelBuffer.vk_enum(),
        vk_sys::DESCRIPTOR_TYPE_STORAGE_TEXEL_BUFFER
    );
    assert_eq!(DescriptorType::UniformBuffer.vk_enum(), vk_sys::DESCRIPTOR_TYPE_UNIFORM_BUFFER);
    assert_eq!(DescriptorType::StorageBuffer.vk_enum(), vk_sys::DESCRIPTOR_TYPE_STORAGE_BUFFER);
    assert_eq!(
        DescriptorType::UniformBufferDynamic.vk_enum(),
        vk_sys::DESCRIPTOR_TYPE_UNIFORM_BUFFER_DYNAMIC
    );
    assert_eq!(
        DescriptorType::StorageBufferDynamic.vk_enum(),
        vk_sys::DESCRIPTOR_TYPE_STORAGE_BUFFER_DYNAMIC
    );
    assert_eq!(
        DescriptorType::InputAttachment.vk_enum(),
        vk_sys::DESCRIPTOR_TYPE_INPUT_ATTACHMENT
    );
}

#[test]
fn no_stage_and_the_stages_of_either() {
    let none = ShaderStages::none();
    assert_eq!(u32::from(none), 0);
    assert_eq!(none.union(none), none);
    assert_eq!(ShaderStages::all_graphics().union(ShaderStages::compute()), ShaderStages::all());
    assert_eq!(ShaderStages::compute().union(none), ShaderStages::compute());
    let vertex = ShaderStages { vertex: true, ..none };
    let fragment = ShaderStages { fragment: true, ..none };
    assert_eq!(vertex.union(fragment), ShaderStages { vertex: true, fragment: true, ..none });
}

#[test]
fn each_stage_has_the_bit_of_the_api() {
    let none = ShaderStages::none();
    assert_eq!(u32::from(ShaderStages { vertex: true, ..none }), vk_sys::SHADER_STAGE_VERTEX_BIT);
    assert_eq!(
        u32::from(ShaderStages { tessellation_control: true, ..none }),
        vk_sys::SHADER_STAGE_TESSELLATION_CONTROL_BIT
    );
    assert_eq!(
        u32::from(ShaderStages { tessellation_evaluation: true, ..none }),
        vk_sys::SHADER_STAGE_TESSELLATION_EVALUATION_BIT
    );
    assert_eq!(
        u32::from(ShaderStages { geometry: true, ..none }),
        vk_sys::SHADER_STAGE_GEOMETRY_BIT
    );
    assert_eq!(
        u32::from(ShaderStages { fragment: true, ..none }),
        vk_sys::SHADER_STAGE_FRAGMENT_BIT
    );
    assert_eq!(u32::from(ShaderStages { compute: true, ..none }), vk_sys::SHADER_STAGE_COMPUTE_BIT);
    let some = ShaderStages { vertex: true, geometry: true, compute: true, ..none };
    assert_eq!(u32::from(some), 0x29);
    let flags: u32 = some.into();
    assert_eq!(flags, 0x29);
}

struct NoSets;

impl Layout for NoSets {
    type DescriptorSets = ();
    type DescriptorSetLayouts = u8;
    type PushConstants = ();
    type Set = u32;
    type SetLayout = u8;

    fn decode_descriptor_sets(&self, _sets: ()) -> Vec<u32> {
        vec![]
    }

    fn decode_descriptor_set_layouts(&self, layouts: u8) -> Vec<u8> {
        vec![layouts]
    }
}

#[test]
fn bind_tells_the_kind_of_descriptor_it_is_for() {
    type Bind = DescriptorBind<u8, u16, u32, bool>;
    assert_eq!(Bind::StorageImage(1, true).ty(), DescriptorType::StorageImage);
    assert_eq!(Bind::Sampler(2).ty(), DescriptorType::Sampler);
    assert_eq!(Bind::SampledImage(1, false).ty(), DescriptorType::SampledImage);
    assert_eq!(Bind::CombinedImageSampler(2, 1, true).ty(), DescriptorType::CombinedImageSampler);
    let buffer = |kind: u8| match kind {
        0 => Bind::UniformBuffer { buffer: 3, offset: 0, size: 16 },
        1 => Bind::StorageBuffer { buffer: 3, offset: 0, size: 16 },
        2 => Bind::DynamicUniformBuffer { buffer: 3, offset: 16, size: 16 },
        _ => Bind::DynamicStorageBuffer { buffer: 3, offset: 16, size: 16 },
    };
    assert_eq!(buffer(0).ty(), DescriptorType::UniformBuffer);
    assert_eq!(buffer(1).ty(), DescriptorType::StorageBuffer);
    assert_eq!(buffer(2).ty(), DescriptorType::UniformBufferDynamic);
    assert_eq!(buffer(3).ty(), DescriptorType::StorageBufferDynamic);
    assert_eq!(Bind::InputAttachment(1, true).ty(), DescriptorType::InputAttachment);
    let write = DescriptorWrite { binding: 4, array_element: 0, content: buffer(1) };
    assert_eq!(write.content.ty().vk_enum(), vk_sys::DESCRIPTOR_TYPE_STORAGE_BUFFER);
}

#[test]
fn every_layout_passes_for_a_superset() {
    assert!(NoSets.is_superset_of(&NoSets));
    assert_eq!(NoSets.decode_descriptor_sets(()), Vec::<u32>::new());
    assert_eq!(NoSets.decode_descriptor_set_layouts(3), vec![3]);
}
