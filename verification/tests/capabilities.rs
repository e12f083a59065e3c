use vulkano_shaders::capabilities::{capabilities, required_features};
use vulkano_shaders::capability_name;
use vulkano_shaders::enums::Capability;
use vulkano_shaders::error::{Error, ErrorKind};
use vulkano_shaders::parse::{Instruction, Spirv};

fn doc(instructions: Vec<Instruction>) -> Spirv {
    Spirv { version: (1, 0), bound: 100, instructions }
}

#[test]
fn always_available_capabilities_need_nothing() {
    for cap in [
        Capability::CapabilityMatrix,
        Capability::CapabilityShader,
        Capability::CapabilityInputAttachment,
        Capability::CapabilitySampled1D,
        Capability::CapabilityImage1D,
        Capability::CapabilitySampledBuffer,
        Capability::CapabilityImageBuffer,
        Capability::CapabilityImageQuery,
        Capability::CapabilityDerivativeControl,
    ] {
        assert_eq!(capability_name(&cap), Ok(None));
    }
}

#[test]
fn capabilities_that_need_a_feature_name_it() {
    let table = [
        (Capability::CapabilityGeometry, "geometry_shader"),
        (Capability::CapabilityTessellation, "tessellation_shader"),
        (Capability::CapabilityFloat64, "shader_f3264"),
        (Capability::CapabilityInt64, "shader_int64"),
        (Capability::CapabilityInt16, "shader_int16"),
        (
            Capability::CapabilityTessellationPointSize,
            "shader_tessellation_and_geometry_point_size",
        ),
        (Capability::CapabilityGeometryPointSize, "shader_tessellation_and_geometry_point_size"),
        (Capability::CapabilityImageGatherExtended, "shader_image_gather_extended"),
        (Capability::CapabilityStorageImageMultisample, "shader_storage_image_multisample"),
        (
            Capability::CapabilityUniformBufferArrayDynamicIndexing,
            "shader_uniform_buffer_array_dynamic_indexing",
        ),
        (
            Capability::CapabilitySampledImageArrayDynamicIndexing,
            "shader_sampled_image_array_dynamic_indexing",
        ),
        (
            Capability::CapabilityStorageBufferArrayDynamicIndexing,
            "shader_storage_buffer_array_dynamic_indexing",
        ),
        (
            Capability::CapabilityStorageImageArrayDynamicIndexing,
            "shader_storage_image_array_dynamic_indexing",
        ),
        (Capability::CapabilityClipDistance, "shader_clip_distance"),
        (Capability::CapabilityCullDistance, "shader_cull_distance"),
        (Capability::CapabilityImageCubeArray, "image_cube_array"),
        (Capability::CapabilitySampleRateShading, "sample_rate_shading"),
        (Capability::CapabilitySparseResidency, "shader_resource_residency"),
        (Capability::CapabilityMinLod, "shader_resource_min_lod"),
        (Capability::CapabilitySampledCubeArray, "image_cube_array"),
        (Capability::CapabilityImageMSArray, "shader_storage_image_multisample"),
        (
            Capability::CapabilityStorageImageExtendedFormats,
            "shader_storage_image_extended_formats",
        ),
        (Capability::CapabilityInterpolationFunction, "sample_rate_shading"),
        (
            Capability::CapabilityStorageImageReadWithoutFormat,
            "shader_storage_image_read_without_format",
        ),
        (
            Capability::CapabilityStorageImageWriteWithoutFormat,
            "shader_storage_image_write_without_format",
        ),
        (Capability::CapabilityMultiViewport, "multi_viewport"),
    ];
    for (cap, feature) in table {
        assert_eq!(capability_name(&cap), Ok(Some(feature)));
    }
}

#[test]
fn unsupported_capabilities_fail_and_are_named() {
    for cap in [
        Capability::CapabilityAddresses,
        Capability::CapabilityLinkage,
        Capability::CapabilityKernel,
        Capability::CapabilityVector16,
        Capability::CapabilityFloat16Buffer,
        Capability::CapabilityFloat16,
        Capability::CapabilityInt64Atomics,
        Capability::CapabilityImageBasic,
        Capability::CapabilityImageReadWrite,
        Capability::CapabilityImageMipmap,
        Capability::CapabilityPipes,
        Capability::CapabilityGroups,
        Capability::CapabilityDeviceEnqueue,
        Capability::CapabilityLiteralSampler,
        Capability::CapabilityAtomicStorage,
        Capability::CapabilityImageRect,
        Capability::CapabilitySampledRect,
        Capability::CapabilityGenericPointer,
        Capability::CapabilityInt8,
        Capability::CapabilityTransformFeedback,
        Capability::CapabilityGeometryStreams,
    ] {
        let err = capability_name(&cap).unwrap_err();
        assert_eq!(err, Error::UnsupportedCapability(cap));
        assert_eq!(err.kind(), ErrorKind::UnsupportedFeature);
    }
}

#[test]
fn every_capability_is_classified() {
    let mut nothing = 0;
    let mut feature = 0;
    let mut unsupported = 0;
    for n in 0..=57 {
        if let Ok(cap) = Capability::from_num(n) {
            match capability_name(&cap) {
                Ok(None) => nothing += 1,
                Ok(Some(name)) => {
                    assert!(!name.is_empty());
                    feature += 1;
                },
                Err(e) => {
                    assert_eq!(e, Error::UnsupportedCapability(cap));
                    unsupported += 1;
                },
            }
        }
    }
    assert_eq!((nothing, feature, unsupported), (9, 26, 21));
}

#[test]
fn capabilities_are_collected_in_the_order_of_the_module() {
    let d = doc(vec![
        Instruction::Capability(Capability::CapabilityShader),
        Instruction::TypeVoid { result_id: 1 },
        Instruction::Capability(Capability::CapabilityGeometry),
        Instruction::Capability(Capability::CapabilityShader),
        Instruction::Capability(Capability::CapabilityKernel),
    ]);
    assert_eq!(
        capabilities(&d),
        vec![
            Capability::CapabilityShader,
            Capability::CapabilityGeometry,
            Capability::CapabilityShader,
            Capability::CapabilityKernel,
        ]
    );
    assert_eq!(capabilities(&doc(vec![])), vec![]);
}

#[test]
fn always_available_capability_adds_no_feature() {
    let caps = vec![
        Capability::CapabilityShader,
        Capability::CapabilityGeometry,
        Capability::CapabilityMatrix,
        Capability::CapabilityClipDistance,
        Capability::CapabilityGeometry,
    ];
    assert_eq!(
        required_features(&caps),
        Ok(vec!["geometry_shader", "shader_clip_distance", "geometry_shader"])
    );
    assert_eq!(required_features(&vec![Capability::CapabilityShader]), Ok(vec![]));
    assert_eq!(required_features(&vec![]), Ok(vec![]));
}

#[test]
fn first_unsupported_capability_aborts() {
    let caps = vec![
        Capability::CapabilityGeometry,
        Capability::CapabilityInt8,
        Capability::CapabilityKernel,
    ];
    assert_eq!(
        required_features(&caps),
        Err(Error::UnsupportedCapability(Capability::CapabilityInt8))
    );
}
