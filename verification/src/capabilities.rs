//! The capabilities that a module declares, and what each of them asks of the
//! device that is to run it.

use crate::enums::Capability;
use crate::error::Error;
use crate::parse::{Instruction, InstructionView, Spirv};
use vstd::prelude::*;

verus! {

/// What a capability asks for: nothing, where every device has it; the
/// device feature of the given name; or more than can be provided, which is
/// the error that carries the capability.
pub open spec fn spec_capability_name(cap: Capability) -> Result<Option<Seq<char>>, Error> {
    match cap {
        Capability::CapabilityMatrix => Ok(None),
        Capability::CapabilityShader => Ok(None),
        Capability::CapabilityGeometry => Ok(Some("geometry_shader"@)),
        Capability::CapabilityTessellation => Ok(Some("tessellation_shader"@)),
        Capability::CapabilityAddresses => Err(Error::UnsupportedCapability(cap)),
        Capability::CapabilityLinkage => Err(Error::UnsupportedCapability(cap)),
        Capability::CapabilityKernel => Err(Error::UnsupportedCapability(cap)),
        Capability::CapabilityVector16 => Err(Error::UnsupportedCapability(cap)),
        Capability::CapabilityFloat16Buffer => Err(Error::UnsupportedCapability(cap)),
        Capability::CapabilityFloat16 => Err(Error::UnsupportedCapability(cap)),
        Capability::CapabilityFloat64 => Ok(Some("shader_f3264"@)),
        Capability::CapabilityInt64 => Ok(Some("shader_int64"@)),
        Capability::CapabilityInt64Atomics => Err(Error::UnsupportedCapability(cap)),
        Capability::CapabilityImageBasic => Err(Error::UnsupportedCapability(cap)),
        Capability::CapabilityImageReadWrite => Err(Error::UnsupportedCapability(cap)),
        Capability::CapabilityImageMipmap => Err(Error::UnsupportedCapability(cap)),
        Capability::CapabilityPipes => Err(Error::UnsupportedCapability(cap)),
        Capability::CapabilityGroups => Err(Error::UnsupportedCapability(cap)),
        Capability::CapabilityDeviceEnqueue => Err(Error::UnsupportedCapability(cap)),
        Capability::CapabilityLiteralSampler => Err(Error::UnsupportedCapability(cap)),
        Capability::CapabilityAtomicStorage => Err(Error::UnsupportedCapability(cap)),
        Capability::CapabilityInt16 => Ok(Some("shader_int16"@)),
        Capability::CapabilityTessellationPointSize => Ok(Some("shader_tessellation_and_geometry_point_size"@)),
        Capability::CapabilityGeometryPointSize => Ok(Some("shader_tessellation_and_geometry_point_size"@)),
        Capability::CapabilityImageGatherExtended => Ok(Some("shader_image_gather_extended"@)),
        Capability::CapabilityStorageImageMultisample => Ok(Some("shader_storage_image_multisample"@)),
        Capability::CapabilityUniformBufferArrayDynamicIndexing => Ok(Some("shader_uniform_buffer_array_dynamic_indexing"@)),
        Capability::CapabilitySampledImageArrayDynamicIndexing => Ok(Some("shader_sampled_image_array_dynamic_indexing"@)),
        Capability::CapabilityStorageBufferArrayDynamicIndexing => Ok(Some("shader_storage_buffer_array_dynamic_indexing"@)),
        Capability::CapabilityStorageImageArrayDynamicIndexing => Ok(Some("shader_storage_image_array_dynamic_indexing"@)),
        Capability::CapabilityClipDistance => Ok(Some("shader_clip_distance"@)),
        Capability::CapabilityCullDistance => Ok(Some("shader_cull_distance"@)),
        Capability::CapabilityImageCubeArray => Ok(Some("image_cube_array"@)),
        Capability::CapabilitySampleRateShading => Ok(Some("sample_rate_shading"@)),
        Capability::CapabilityImageRect => Err(Error::UnsupportedCapability(cap)),
        Capability::CapabilitySampledRect => Err(Error::UnsupportedCapability(cap)),
        Capability::CapabilityGenericPointer => Err(Error::UnsupportedCapability(cap)),
        Capability::CapabilityInt8 => Err(Error::UnsupportedCapability(cap)),
        Capability::CapabilityInputAttachment => Ok(None),
        Capability::CapabilitySparseResidency => Ok(Some("shader_resource_residency"@)),
        Capability::CapabilityMinLod => Ok(Some("shader_resource_min_lod"@)),
        Capability::CapabilitySampled1D => Ok(None),
        Capability::CapabilityImage1D => Ok(None),
        Capability::CapabilitySampledCubeArray => Ok(Some("image_cube_array"@)),
        Capability::CapabilitySampledBuffer => Ok(None),
        Capability::CapabilityImageBuffer => Ok(None),
        Capability::CapabilityImageMSArray => Ok(Some("shader_storage_image_multisample"@)),
        Capability::CapabilityStorageImageExtendedFormats => Ok(Some("shader_storage_image_extended_formats"@)),
        Capability::CapabilityImageQuery => Ok(None),
        Capability::CapabilityDerivativeControl => Ok(None),
        Capability::CapabilityInterpolationFunction => Ok(Some("sample_rate_shading"@)),
        Capability::CapabilityTransformFeedback => Err(Error::UnsupportedCapability(cap)),
        Capability::CapabilityGeometryStreams => Err(Error::UnsupportedCapability(cap)),
        Capability::CapabilityStorageImageReadWithoutFormat => Ok(Some("shader_storage_image_read_without_format"@)),
        Capability::CapabilityStorageImageWriteWithoutFormat => Ok(Some("shader_storage_image_write_without_format"@)),
        Capability::CapabilityMultiViewport => Ok(Some("multi_viewport"@)),
    }
}

/// What the result of [`capability_name`] says, with the name as characters.
pub open spec fn spec_name_result(r: Result<Option<&'static str>, Error>) -> Result<
    Option<Seq<char>>,
    Error,
> {
    match r {
        Ok(Some(name)) => Ok(Some(name@)),
        Ok(None) => Ok(None),
        Err(e) => Err(e),
    }
}

/// Returns the name of the device feature that a capability needs, `None`
/// for a capability that every device has, and `UnsupportedCapability` for
/// one that cannot be provided. Every capability is one of the three.
pub fn capability_name(cap: &Capability) -> (r: Result<Option<&'static str>, Error>)
    ensures
        spec_name_result(r) == spec_capability_name(*cap),
        r matches Err(e) ==> e == Error::UnsupportedCapability(*cap),
{
    match cap {
        Capability::CapabilityMatrix => Ok(None),
        Capability::CapabilityShader => Ok(None),
        Capability::CapabilityGeometry => Ok(Some("geometry_shader")),
        Capability::CapabilityTessellation => Ok(Some("tessellation_shader")),
        Capability::CapabilityAddresses => Err(Error::UnsupportedCapability(*cap)),
        Capability::CapabilityLinkage => Err(Error::UnsupportedCapability(*cap)),
        Capability::CapabilityKernel => Err(Error::UnsupportedCapability(*cap)),
        Capability::CapabilityVector16 => Err(Error::UnsupportedCapability(*cap)),
        Capability::CapabilityFloat16Buffer => Err(Error::UnsupportedCapability(*cap)),
        Capability::CapabilityFloat16 => Err(Error::UnsupportedCapability(*cap)),
        Capability::CapabilityFloat64 => Ok(Some("shader_f3264")),
        Capability::CapabilityInt64 => Ok(Some("shader_int64")),
        Capability::CapabilityInt64Atomics => Err(Error::UnsupportedCapability(*cap)),
        Capability::CapabilityImageBasic => Err(Error::UnsupportedCapability(*cap)),
        Capability::CapabilityImageReadWrite => Err(Error::UnsupportedCapability(*cap)),
        Capability::CapabilityImageMipmap => Err(Error::UnsupportedCapability(*cap)),
        Capability::CapabilityPipes => Err(Error::UnsupportedCapability(*cap)),
        Capability::CapabilityGroups => Err(Error::UnsupportedCapability(*cap)),
        Capability::CapabilityDeviceEnqueue => Err(Error::UnsupportedCapability(*cap)),
        Capability::CapabilityLiteralSampler => Err(Error::UnsupportedCapability(*cap)),
        Capability::CapabilityAtomicStorage => Err(Error::UnsupportedCapability(*cap)),
        Capability::CapabilityInt16 => Ok(Some("shader_int16")),
        Capability::CapabilityTessellationPointSize => Ok(Some("shader_tessellation_and_geometry_point_size")),
        Capability::CapabilityGeometryPointSize => Ok(Some("shader_tessellation_and_geometry_point_size")),
        Capability::CapabilityImageGatherExtended => Ok(Some("shader_image_gather_extended")),
        Capability::CapabilityStorageImageMultisample => Ok(Some("shader_storage_image_multisample")),
        Capability::CapabilityUniformBufferArrayDynamicIndexing => Ok(Some("shader_uniform_buffer_array_dynamic_indexing")),
        Capability::CapabilitySampledImageArrayDynamicIndexing => Ok(Some("shader_sampled_image_array_dynamic_indexing")),
        Capability::CapabilityStorageBufferArrayDynamicIndexing => Ok(Some("shader_storage_buffer_array_dynamic_indexing")),
        Capability::CapabilityStorageImageArrayDynamicIndexing => Ok(Some("shader_storage_image_array_dynamic_indexing")),
        Capability::CapabilityClipDistance => Ok(Some("shader_clip_distance")),
        Capability::CapabilityCullDistance => Ok(Some("shader_cull_distance")),
        Capability::CapabilityImageCubeArray => Ok(Some("image_cube_array")),
        Capability::CapabilitySampleRateShading => Ok(Some("sample_rate_shading")),
        Capability::CapabilityImageRect => Err(Error::UnsupportedCapability(*cap)),
        Capability::CapabilitySampledRect => Err(Error::UnsupportedCapability(*cap)),
        Capability::CapabilityGenericPointer => Err(Error::UnsupportedCapability(*cap)),
        Capability::CapabilityInt8 => Err(Error::UnsupportedCapability(*cap)),
        Capability::CapabilityInputAttachment => Ok(None),
        Capability::CapabilitySparseResidency => Ok(Some("shader_resource_residency")),
        Capability::CapabilityMinLod => Ok(Some("shader_resource_min_lod")),
        Capability::CapabilitySampled1D => Ok(None),
        Capability::CapabilityImage1D => Ok(None),
        Capability::CapabilitySampledCubeArray => Ok(Some("image_cube_array")),
        Capability::CapabilitySampledBuffer => Ok(None),
        Capability::CapabilityImageBuffer => Ok(None),
        Capability::CapabilityImageMSArray => Ok(Some("shader_storage_image_multisample")),
        Capability::CapabilityStorageImageExtendedFormats => Ok(Some("shader_storage_image_extended_formats")),
        Capability::CapabilityImageQuery => Ok(None),
        Capability::CapabilityDerivativeControl => Ok(None),
        Capability::CapabilityInterpolationFunction => Ok(Some("sample_rate_shading")),
        Capability::CapabilityTransformFeedback => Err(Error::UnsupportedCapability(*cap)),
        Capability::CapabilityGeometryStreams => Err(Error::UnsupportedCapability(*cap)),
        Capability::CapabilityStorageImageReadWithoutFormat => Ok(Some("shader_storage_image_read_without_format")),
        Capability::CapabilityStorageImageWriteWithoutFormat => Ok(Some("shader_storage_image_write_without_format")),
        Capability::CapabilityMultiViewport => Ok(Some("multi_viewport")),
    }
}

/// The capabilities that the instructions from index `from` on declare, in
/// their order.
pub open spec fn spec_capabilities(instructions: Seq<InstructionView>, from: nat) -> Seq<Capability>
    decreases instructions.len() - from,
{
    if from >= instructions.len() {
        Seq::empty()
    } else {
        (match instructions[from as int] {
            InstructionView::Capability(cap) => seq![cap],
            _ => Seq::empty(),
        }) + spec_capabilities(instructions, from + 1)
    }
}

/// Returns every capability that the module declares, in the order of the
/// declarations and as often as it is declared.
pub fn capabilities(doc: &Spirv) -> (caps: Vec<Capability>)
    ensures
        caps@ == spec_capabilities(doc@.instructions, 0),
{
    let mut out: Vec<Capability> = Vec::new();
    let ghost target = spec_capabilities(doc@.instructions, 0);
    assert(out@ + target =~= target);
    let mut i: usize = 0;
    while i < doc.instructions.len()
        invariant
            out@ + spec_capabilities(doc@.instructions, i as nat) == target,
        decreases doc.instructions.len() - i,
    {
        let ghost before = out@;
        match &doc.instructions[i] {
            Instruction::Capability(cap) => {
                out.push(*cap);
            },
            _ => {},
        }
        proof {
            let head: Seq<Capability> = match doc@.instructions[i as int] {
                InstructionView::Capability(cap) => seq![cap],
                _ => Seq::empty(),
            };
            let rest = spec_capabilities(doc@.instructions, (i + 1) as nat);
            assert(out@ =~= before + head);
            assert((before + head) + rest =~= before + (head + rest));
        }
        i += 1;
    }
    assert(out@ + Seq::<Capability>::empty() =~= out@);
    out
}

/// The names of the device features that the capabilities from position
/// `from` on need, one for each capability that needs one, in order; or the
/// failure of the first capability that cannot be provided.
pub open spec fn spec_features(caps: Seq<Capability>, from: nat) -> Result<Seq<Seq<char>>, Error>
    decreases caps.len() - from,
{
    if from >= caps.len() {
        Ok(Seq::empty())
    } else {
        match spec_capability_name(caps[from as int]) {
            Err(e) => Err(e),
            Ok(name) => match spec_features(caps, from + 1) {
                Err(e) => Err(e),
                Ok(rest) => Ok(
                    (match name {
                        Some(n) => seq![n],
                        None => Seq::empty(),
                    }) + rest,
                ),
            },
        }
    }
}

/// The names as characters, one for one.
pub open spec fn spec_names(names: Seq<&'static str>) -> Seq<Seq<char>> {
    Seq::new(names.len(), |i: int| names[i]@)
}

/// What the result of [`required_features`] says, with the names as
/// characters.
pub open spec fn spec_features_result(r: Result<Vec<&'static str>, Error>) -> Result<
    Seq<Seq<char>>,
    Error,
> {
    match r {
        Ok(names) => Ok(spec_names(names@)),
        Err(e) => Err(e),
    }
}

/// Returns the names of the device features that must be enabled for the
/// given capabilities: one name for each capability that needs a feature, in
/// the order of the capabilities. A capability that every device has adds
/// nothing. The first capability that cannot be provided fails the pass with
/// `UnsupportedCapability`.
pub fn required_features(caps: &Vec<Capability>) -> (r: Result<Vec<&'static str>, Error>)
    ensures
        spec_features_result(r) == spec_features(caps@, 0),
{
    let mut out: Vec<&'static str> = Vec::new();
    let ghost target = spec_features(caps@, 0);
    assert(spec_names(out@) + target->Ok_0 =~= target->Ok_0);
    let mut i: usize = 0;
    while i < caps.len()
        invariant
            target == spec_features(caps@, 0),
            (match spec_features(caps@, i as nat) {
                Ok(rest) => Ok::<Seq<Seq<char>>, Error>(spec_names(out@) + rest),
                Err(e) => Err(e),
            }) == target,
        decreases caps.len() - i,
    {
        let ghost before = spec_names(out@);
        match capability_name(&caps[i]) {
            Err(e) => {
                return Err(e);
            },
            Ok(name) => {
                proof {
                    let head: Seq<Seq<char>> = match name {
                        Some(n) => seq![n@],
                        None => Seq::empty(),
                    };
                    if let Ok(rest) = spec_features(caps@, (i + 1) as nat) {
                        assert((before + head) + rest =~= before + (head + rest));
                    }
                }
                match name {
                    Some(n) => {
                        out.push(n);
                        assert(spec_names(out@) =~= before + seq![n@]);
                    },
                    None => {
                        assert(before + Seq::<Seq<char>>::empty() =~= before);
                    },
                }
            },
        }
        i += 1;
    }
    assert(spec_names(out@) + Seq::<Seq<char>>::empty() =~= spec_names(out@));
    Ok(out)
}

/// What [`lemma_features_need_support`] says, of the capabilities from
/// position `from` on.
proof fn lemma_features_from(caps: Seq<Capability>, from: nat)
    requires
        from <= caps.len(),
    ensures
        match spec_features(caps, from) {
            Ok(names) => {
                &&& names.len() <= caps.len() - from
                &&& forall|k: int|
                    from <= k < caps.len() ==> spec_capability_name(#[trigger] caps[k]) is Ok
                &&& (forall|k: int|
                    from <= k < caps.len() ==> spec_capability_name(#[trigger] caps[k]) == Ok::<
                        Option<Seq<char>>,
                        Error,
                    >(None)) ==> names.len() == 0
            },
            Err(e) => exists|k: int|
                {
                    &&& from <= k < caps.len()
                    &&& e == Error::UnsupportedCapability(#[trigger] caps[k])
                    &&& spec_capability_name(caps[k]) is Err
                    &&& forall|j: int|
                        from <= j < k ==> spec_capability_name(#[trigger] caps[j]) is Ok
                },
        },
    decreases caps.len() - from,
{
    if from < caps.len() {
        lemma_features_from(caps, from + 1);
        let first = spec_capability_name(caps[from as int]);
        match first {
            Err(e) => {
                assert(e == Error::UnsupportedCapability(caps[from as int]));
            },
            Ok(name) => match spec_features(caps, from + 1) {
                Ok(rest) => {
                    assert forall|k: int| from <= k < caps.len() implies spec_capability_name(
                        #[trigger] caps[k],
                    ) is Ok by {
                        if k == from {
                            assert(spec_capability_name(caps[k]) == first);
                        }
                    }
                },
                Err(e) => {
                    let k = choose|k: int|
                        {
                            &&& from + 1 <= k < caps.len()
                            &&& e == Error::UnsupportedCapability(#[trigger] caps[k])
                            &&& spec_capability_name(caps[k]) is Err
                            &&& forall|j: int|
                                from + 1 <= j < k ==> spec_capability_name(#[trigger] caps[j])
                                    is Ok
                        };
                    assert(e == Error::UnsupportedCapability(caps[k]));
                    assert forall|j: int| from <= j < k implies spec_capability_name(
                        #[trigger] caps[j],
                    ) is Ok by {
                        if j == from {
                            assert(spec_capability_name(caps[j]) == first);
                        }
                    }
                },
            },
        }
    }
}

/// The features of capabilities are named exactly where every capability
/// can be provided; capabilities that every device has add no name; and a
/// failure is that of the first capability that cannot be provided, which
/// it carries.
pub proof fn lemma_features_need_support(caps: Seq<Capability>)
    ensures
        match spec_features(caps, 0) {
            Ok(names) => {
                &&& names.len() <= caps.len()
                &&& forall|k: int|
                    0 <= k < caps.len() ==> spec_capability_name(#[trigger] caps[k]) is Ok
                &&& (forall|k: int|
                    0 <= k < caps.len() ==> spec_capability_name(#[trigger] caps[k]) == Ok::<
                        Option<Seq<char>>,
                        Error,
                    >(None)) ==> names.len() == 0
            },
            Err(e) => exists|k: int|
                {
                    &&& 0 <= k < caps.len()
                    &&& e == Error::UnsupportedCapability(#[trigger] caps[k])
                    &&& spec_capability_name(caps[k]) is Err
                    &&& forall|j: int|
                        0 <= j < k ==> spec_capability_name(#[trigger] caps[j]) is Ok
                },
        },
{
    lemma_features_from(caps, 0);
}

} // verus!
