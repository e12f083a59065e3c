//! How descriptors are described to the host graphics API: the kind of
//! resource behind a descriptor, the stages that see it, and the numbers by
//! which the API names both.

use vstd::prelude::*;
use vstd::std_specs::convert::FromSpecImpl;

verus! {

/// The number of the API for a sampler descriptor.
pub const DESCRIPTOR_TYPE_SAMPLER: u32 = 0;

/// The number of the API for a combined image and sampler descriptor.
pub const DESCRIPTOR_TYPE_COMBINED_IMAGE_SAMPLER: u32 = 1;

/// The number of the API for a sampled image descriptor.
pub const DESCRIPTOR_TYPE_SAMPLED_IMAGE: u32 = 2;

/// The number of the API for a storage image descriptor.
pub const DESCRIPTOR_TYPE_STORAGE_IMAGE: u32 = 3;

/// The number of the API for a uniform texel buffer descriptor.
pub const DESCRIPTOR_TYPE_UNIFORM_TEXEL_BUFFER: u32 = 4;

/// The number of the API for a storage texel buffer descriptor.
pub const DESCRIPTOR_TYPE_STORAGE_TEXEL_BUFFER: u32 = 5;

/// The number of the API for a uniform buffer descriptor.
pub const DESCRIPTOR_TYPE_UNIFORM_BUFFER: u32 = 6;

/// The number of the API for a storage buffer descriptor.
pub const DESCRIPTOR_TYPE_STORAGE_BUFFER: u32 = 7;

/// The number of the API for a dynamic uniform buffer descriptor.
pub const DESCRIPTOR_TYPE_UNIFORM_BUFFER_DYNAMIC: u32 = 8;

/// The number of the API for a dynamic storage buffer descriptor.
pub const DESCRIPTOR_TYPE_STORAGE_BUFFER_DYNAMIC: u32 = 9;

/// The number of the API for an input attachment descriptor.
pub const DESCRIPTOR_TYPE_INPUT_ATTACHMENT: u32 = 10;

/// The bit of the API for the vertex stage.
pub const SHADER_STAGE_VERTEX_BIT: u32 = 0x01;

/// The bit of the API for the tessellation control stage.
pub const SHADER_STAGE_TESSELLATION_CONTROL_BIT: u32 = 0x02;

/// The bit of the API for the tessellation evaluation stage.
pub const SHADER_STAGE_TESSELLATION_EVALUATION_BIT: u32 = 0x04;

/// The bit of the API for the geometry stage.
pub const SHADER_STAGE_GEOMETRY_BIT: u32 = 0x08;

/// The bit of the API for the fragment stage.
pub const SHADER_STAGE_FRAGMENT_BIT: u32 = 0x10;

/// The bit of the API for the compute stage.
pub const SHADER_STAGE_COMPUTE_BIT: u32 = 0x20;

/// Describes what kind of resource may later be bound to a descriptor.
#[derive(Debug, Copy, Clone, PartialEq, Eq, Structural)]
pub enum DescriptorType {
    Sampler,
    CombinedImageSampler,
    SampledImage,
    StorageImage,
    UniformTexelBuffer,
    StorageTexelBuffer,
    UniformBuffer,
    StorageBuffer,
    UniformBufferDynamic,
    StorageBufferDynamic,
    InputAttachment,
}

impl DescriptorType {
    /// The number by which the API names this kind of descriptor.
    pub open spec fn spec_vk_enum(self) -> u32 {
        match self {
            DescriptorType::Sampler => DESCRIPTOR_TYPE_SAMPLER,
            DescriptorType::CombinedImageSampler => DESCRIPTOR_TYPE_COMBINED_IMAGE_SAMPLER,
            DescriptorType::SampledImage => DESCRIPTOR_TYPE_SAMPLED_IMAGE,
            DescriptorType::StorageImage => DESCRIPTOR_TYPE_STORAGE_IMAGE,
            DescriptorType::UniformTexelBuffer => DESCRIPTOR_TYPE_UNIFORM_TEXEL_BUFFER,
            DescriptorType::StorageTexelBuffer => DESCRIPTOR_TYPE_STORAGE_TEXEL_BUFFER,
            DescriptorType::UniformBuffer => DESCRIPTOR_TYPE_UNIFORM_BUFFER,
            DescriptorType::StorageBuffer => DESCRIPTOR_TYPE_STORAGE_BUFFER,
            DescriptorType::UniformBufferDynamic => DESCRIPTOR_TYPE_UNIFORM_BUFFER_DYNAMIC,
            DescriptorType::StorageBufferDynamic => DESCRIPTOR_TYPE_STORAGE_BUFFER_DYNAMIC,
            DescriptorType::InputAttachment => DESCRIPTOR_TYPE_INPUT_ATTACHMENT,
        }
    }

    /// Turns the `DescriptorType` into the corresponding constant of the API.
    pub fn vk_enum(&self) -> (n: u32)
        ensures
            n == self.spec_vk_enum(),
            n <= 10,
    {
        match self {
            DescriptorType::Sampler => DESCRIPTOR_TYPE_SAMPLER,
            DescriptorType::CombinedImageSampler => DESCRIPTOR_TYPE_COMBINED_IMAGE_SAMPLER,
            DescriptorType::SampledImage => DESCRIPTOR_TYPE_SAMPLED_IMAGE,
            DescriptorType::StorageImage => DESCRIPTOR_TYPE_STORAGE_IMAGE,
            DescriptorType::UniformTexelBuffer => DESCRIPTOR_TYPE_UNIFORM_TEXEL_BUFFER,
            DescriptorType::StorageTexelBuffer => DESCRIPTOR_TYPE_STORAGE_TEXEL_BUFFER,
            DescriptorType::UniformBuffer => DESCRIPTOR_TYPE_UNIFORM_BUFFER,
            DescriptorType::StorageBuffer => DESCRIPTOR_TYPE_STORAGE_BUFFER,
            DescriptorType::UniformBufferDynamic => DESCRIPTOR_TYPE_UNIFORM_BUFFER_DYNAMIC,
            DescriptorType::StorageBufferDynamic => DESCRIPTOR_TYPE_STORAGE_BUFFER_DYNAMIC,
            DescriptorType::InputAttachment => DESCRIPTOR_TYPE_INPUT_ATTACHMENT,
        }
    }
}

/// Describes which shader stages have access to a descriptor.
#[derive(Debug, Copy, Clone, PartialEq, Eq, Structural)]
pub struct ShaderStages {
    /// `True` means that the descriptor will be used by the vertex shader.
    pub vertex: bool,
    /// `True` means that the descriptor will be used by the tessellation control shader.
    pub tessellation_control: bool,
    /// `True` means that the descriptor will be used by the tessellation evaluation shader.
    pub tessellation_evaluation: bool,
    /// `True` means that the descriptor will be used by the geometry shader.
    pub geometry: bool,
    /// `True` means that the descriptor will be used by the fragment shader.
    pub fragment: bool,
    /// `True` means that the descriptor will be used by the compute shader.
    pub compute: bool,
}

impl ShaderStages {
    /// Creates a `ShaderStages` struct will all stages set to `true`.
    pub fn all() -> (s: ShaderStages)
        ensures
            s == (ShaderStages {
                vertex: true,
                tessellation_control: true,
                tessellation_evaluation: true,
                geometry: true,
                fragment: true,
                compute: true,
            }),
    {
        ShaderStages {
            vertex: true,
            tessellation_control: true,
            tessellation_evaluation: true,
            geometry: true,
            fragment: true,
            compute: true,
        }
    }

    /// Creates a `ShaderStages` struct will all graphics stages set to `true`.
    pub fn all_graphics() -> (s: ShaderStages)
        ensures
            s == (ShaderStages {
                vertex: true,
                tessellation_control: true,
                tessellation_evaluation: true,
                geometry: true,
                fragment: true,
                compute: false,
            }),
    {
        ShaderStages {
            vertex: true,
            tessellation_control: true,
            tessellation_evaluation: true,
            geometry: true,
            fragment: true,
            compute: false,
        }
    }

    /// Creates a `ShaderStages` struct will the compute stage set to `true`.
    pub fn compute() -> (s: ShaderStages)
        ensures
            s == (ShaderStages {
                vertex: false,
                tessellation_control: false,
                tessellation_evaluation: false,
                geometry: false,
                fragment: false,
                compute: true,
            }),
    {
        ShaderStages {
            vertex: false,
            tessellation_control: false,
            tessellation_evaluation: false,
            geometry: false,
            fragment: false,
            compute: true,
        }
    }

    /// No stage at all.
    pub open spec fn spec_none() -> ShaderStages {
        ShaderStages {
            vertex: false,
            tessellation_control: false,
            tessellation_evaluation: false,
            geometry: false,
            fragment: false,
            compute: false,
        }
    }

    /// Creates a `ShaderStages` struct with no stage set.
    pub fn none() -> (s: ShaderStages)
        ensures
            s == ShaderStages::spec_none(),
    {
        ShaderStages {
            vertex: false,
            tessellation_control: false,
            tessellation_evaluation: false,
            geometry: false,
            fragment: false,
            compute: false,
        }
    }

    /// The stages of either.
    pub open spec fn spec_union(self, other: ShaderStages) -> ShaderStages {
        ShaderStages {
            vertex: self.vertex || other.vertex,
            tessellation_control: self.tessellation_control || other.tessellation_control,
            tessellation_evaluation: self.tessellation_evaluation
                || other.tessellation_evaluation,
            geometry: self.geometry || other.geometry,
            fragment: self.fragment || other.fragment,
            compute: self.compute || other.compute,
        }
    }

    /// Returns the stages that are set in `self` or in `other`.
    pub fn union(self, other: ShaderStages) -> (s: ShaderStages)
        ensures
            s == self.spec_union(other),
    {
        ShaderStages {
            vertex: self.vertex || other.vertex,
            tessellation_control: self.tessellation_control || other.tessellation_control,
            tessellation_evaluation: self.tessellation_evaluation
                || other.tessellation_evaluation,
            geometry: self.geometry || other.geometry,
            fragment: self.fragment || other.fragment,
            compute: self.compute || other.compute,
        }
    }

    /// The flags of the API for these stages: the sum of the bits of the
    /// stages that are set.
    pub open spec fn spec_flags(self) -> u32 {
        ((if self.vertex {
            SHADER_STAGE_VERTEX_BIT
        } else {
            0
        }) + (if self.tessellation_control {
            SHADER_STAGE_TESSELLATION_CONTROL_BIT
        } else {
            0
        }) + (if self.tessellation_evaluation {
            SHADER_STAGE_TESSELLATION_EVALUATION_BIT
        } else {
            0
        }) + (if self.geometry {
            SHADER_STAGE_GEOMETRY_BIT
        } else {
            0
        }) + (if self.fragment {
            SHADER_STAGE_FRAGMENT_BIT
        } else {
            0
        }) + (if self.compute {
            SHADER_STAGE_COMPUTE_BIT
        } else {
            0
        })) as u32
    }
}

impl From<ShaderStages> for u32 {
    /// Turns the stages into the flags of the API.
    fn from(stages: ShaderStages) -> (flags: u32) {
        let mut result: u32 = 0;
        if stages.vertex {
            result = result + SHADER_STAGE_VERTEX_BIT;
        }
        if stages.tessellation_control {
            result = result + SHADER_STAGE_TESSELLATION_CONTROL_BIT;
        }
        if stages.tessellation_evaluation {
            result = result + SHADER_STAGE_TESSELLATION_EVALUATION_BIT;
        }
        if stages.geometry {
            result = result + SHADER_STAGE_GEOMETRY_BIT;
        }
        if stages.fragment {
            result = result + SHADER_STAGE_FRAGMENT_BIT;
        }
        if stages.compute {
            result = result + SHADER_STAGE_COMPUTE_BIT;
        }
        result
    }
}

impl FromSpecImpl<ShaderStages> for u32 {
    open spec fn obeys_from_spec() -> bool {
        true
    }

    open spec fn from_spec(stages: ShaderStages) -> u32 {
        stages.spec_flags()
    }
}

/// Describes a single descriptor.
#[derive(Debug, Copy, Clone, PartialEq, Eq, Structural)]
pub struct DescriptorDesc {
    /// Offset of the binding within the descriptor.
    pub binding: u32,
    /// What kind of resource can later be bind to this descriptor.
    pub ty: DescriptorType,
    /// How many array elements this descriptor is made of.
    pub array_count: u32,
    /// Which shader stages are going to access this descriptor.
    pub stages: ShaderStages,
}

/// A resource to bind to a descriptor. The resources themselves belong to
/// the host graphics API and are carried as they are: `I` is an image view,
/// `S` a sampler, `B` a buffer and `L` the layout that an image is in.
#[derive(Debug)]
pub enum DescriptorBind<I, S, B, L> {
    StorageImage(I, L),
    Sampler(S),
    SampledImage(I, L),
    CombinedImageSampler(S, I, L),
    UniformBuffer { buffer: B, offset: usize, size: usize },
    StorageBuffer { buffer: B, offset: usize, size: usize },
    DynamicUniformBuffer { buffer: B, offset: usize, size: usize },
    DynamicStorageBuffer { buffer: B, offset: usize, size: usize },
    InputAttachment(I, L),
}

impl<I, S, B, L> DescriptorBind<I, S, B, L> {
    /// The kind of descriptor that this resource can be bound to.
    pub open spec fn spec_ty(&self) -> DescriptorType {
        match self {
            DescriptorBind::Sampler(_) => DescriptorType::Sampler,
            DescriptorBind::CombinedImageSampler(_, _, _) => DescriptorType::CombinedImageSampler,
            DescriptorBind::SampledImage(_, _) => DescriptorType::SampledImage,
            DescriptorBind::StorageImage(_, _) => DescriptorType::StorageImage,
            DescriptorBind::UniformBuffer { .. } => DescriptorType::UniformBuffer,
            DescriptorBind::StorageBuffer { .. } => DescriptorType::StorageBuffer,
            DescriptorBind::DynamicUniformBuffer { .. } => DescriptorType::UniformBufferDynamic,
            DescriptorBind::DynamicStorageBuffer { .. } => DescriptorType::StorageBufferDynamic,
            DescriptorBind::InputAttachment(_, _) => DescriptorType::InputAttachment,
        }
    }

    /// Returns the type corresponding to this bind.
    pub fn ty(&self) -> (t: DescriptorType)
        ensures
            t == self.spec_ty(),
    {
        match self {
            DescriptorBind::Sampler(_) => DescriptorType::Sampler,
            DescriptorBind::CombinedImageSampler(_, _, _) => DescriptorType::CombinedImageSampler,
            DescriptorBind::SampledImage(_, _) => DescriptorType::SampledImage,
            DescriptorBind::StorageImage(_, _) => DescriptorType::StorageImage,
            DescriptorBind::UniformBuffer { .. } => DescriptorType::UniformBuffer,
            DescriptorBind::StorageBuffer { .. } => DescriptorType::StorageBuffer,
            DescriptorBind::DynamicUniformBuffer { .. } => DescriptorType::UniformBufferDynamic,
            DescriptorBind::DynamicStorageBuffer { .. } => DescriptorType::StorageBufferDynamic,
            DescriptorBind::InputAttachment(_, _) => DescriptorType::InputAttachment,
        }
    }
}

/// A resource to write into one element of one binding of a descriptor set.
#[derive(Debug)]
pub struct DescriptorWrite<I, S, B, L> {
    pub binding: u32,
    pub array_element: u32,
    pub content: DescriptorBind<I, S, B, L>,
}

/// Types that describe the layout of a pipeline (descriptor sets and push
/// constants).
pub trait Layout {
    /// Represents a collection of descriptor sets. A value of this type is
    /// passed when a draw command that uses this layout is recorded.
    type DescriptorSets;

    /// Represents a collection of descriptor set layouts. A value of this
    /// type is passed when a pipeline layout is created.
    type DescriptorSetLayouts;

    /// Not yet implemented. Useless for now.
    type PushConstants;

    /// One descriptor set, as the host graphics API takes it.
    type Set;

    /// One descriptor set layout, as the host graphics API takes it.
    type SetLayout;

    /// Turns the `DescriptorSets` associated type into what the API takes.
    fn decode_descriptor_sets(&self, sets: Self::DescriptorSets) -> Vec<Self::Set>;

    /// Turns the `DescriptorSetLayouts` associated type into what the API
    /// takes.
    fn decode_descriptor_set_layouts(&self, layouts: Self::DescriptorSetLayouts) -> Vec<
        Self::SetLayout,
    >;
}

/// Extension for `Layout`.
pub trait LayoutPossibleSuperset<Other: Layout>: Layout {
    /// Returns true if `self` is a superset of `Other`. That is, all the
    /// descriptors in `Other` are also in `self` and have an identical
    /// definition.
    fn is_superset_of(&self, other: &Other) -> bool;
}

/// Every layout is taken to be a superset of every other: layouts are not
/// compared.
impl<T: Layout, U: Layout> LayoutPossibleSuperset<U> for T {
    /// Returns true, whatever the layouts hold.
    fn is_superset_of(&self, other: &U) -> (b: bool)
        ensures
            b,
    {
        true
    }
}

/// Types that describe a single descriptor set.
pub trait SetLayout {
    /// Returns the list of descriptors contained in this set.
    fn descriptors(&self) -> Vec<DescriptorDesc>;
}

/// Extension for the `SetLayout` trait.
pub trait SetLayoutWrite<Data>: SetLayout {
    type Image;

    type Sampler;

    type Buffer;

    type ImageLayout;

    /// Turns the data into the writes that put it into a descriptor set.
    fn decode(&self, data: Data) -> Vec<
        DescriptorWrite<Self::Image, Self::Sampler, Self::Buffer, Self::ImageLayout>,
    >;
}

/// Extension for the `SetLayout` trait.
pub trait SetLayoutInit<Data>: SetLayout {
    type Image;

    type Sampler;

    type Buffer;

    type ImageLayout;

    /// Turns the data into the writes that fill a new descriptor set.
    fn decode(&self, data: Data) -> Vec<
        DescriptorWrite<Self::Image, Self::Sampler, Self::Buffer, Self::ImageLayout>,
    >;
}

/// Extension for `SetLayout`.
pub trait SetLayoutPossibleSuperset<Other: SetLayout>: SetLayout {
    /// Returns true if `self` is a superset of `Other`. That is, all the
    /// descriptors in `Other` are also in `self` and have an identical
    /// definition.
    fn is_superset_of(&self, other: &Other) -> bool;
}

} // verus!
